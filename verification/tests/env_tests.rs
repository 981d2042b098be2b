use xcode_build::config::Flags;
use xcode_build::xcode_env::{
    bin_dir_listed, is_simulator, parse_archs, release_profile, rustc_args, Archs, ArchsError,
};

fn strings(items: &[&str]) -> Vec<String> {
    items.iter().map(|s| s.to_string()).collect()
}

#[test]
fn only_debug_is_a_debug_build() {
    assert!(release_profile(Some("Release".to_string())));
    assert!(!release_profile(Some("Debug".to_string())));
    assert!(release_profile(Some("debug".to_string())));
    assert!(release_profile(Some("Profile".to_string())));
    assert!(release_profile(None));
}

#[test]
fn simulator_suffix() {
    assert!(is_simulator(Some("-simulator".to_string())));
    assert!(!is_simulator(Some("".to_string())));
    assert!(!is_simulator(Some("-simulator ".to_string())));
    assert!(!is_simulator(None));
}

#[test]
fn archs_are_recognised() {
    assert_eq!(Archs::try_from_str("x86_64").unwrap(), Archs::X86_64);
    assert_eq!(Archs::try_from_str("arm64").unwrap(), Archs::Arm64);
    assert!(matches!(Archs::try_from_str("arm64 x86_64"), Err(ArchsError::Unrecognised(s)) if s == "arm64 x86_64"));
}

#[test]
fn archs_from_environment() {
    assert_eq!(parse_archs(Some("arm64".to_string())).unwrap(), Archs::Arm64);
    assert!(matches!(parse_archs(None), Err(ArchsError::Missing)));
    assert!(matches!(parse_archs(Some("armv7".to_string())), Err(ArchsError::Unrecognised(s)) if s == "armv7"));
}

#[test]
fn rustc_arguments_for_a_release_build() {
    let flags = Flags::new(strings(&["metal"]), false);
    assert_eq!(
        rustc_args("aarch64-apple-ios", true, &flags, "./Cargo.toml"),
        strings(&[
            "rustc", "--crate-type", "staticlib", "--lib", "--target", "aarch64-apple-ios",
            "--manifest-path", "./Cargo.toml", "--no-default-features", "--features", "metal", "--release",
        ])
    );
}

#[test]
fn rustc_arguments_for_a_debug_build() {
    assert_eq!(
        rustc_args("aarch64-apple-ios-sim", false, &Flags::default(), "Cargo.toml"),
        strings(&["rustc", "--crate-type", "staticlib", "--lib", "--target", "aarch64-apple-ios-sim", "--manifest-path", "Cargo.toml"])
    );
}

#[test]
fn bin_dir_is_compared_as_a_path() {
    let listed = |items: &[&str]| -> Vec<Option<String>> { strings(items).into_iter().map(Some).collect() };
    let paths = listed(&["/opt/tools", "/usr/bin"]);
    assert!(bin_dir_listed(&paths, "/usr/bin/cargo"));
    assert!(!bin_dir_listed(&paths, "/usr/local/bin/cargo"));
    assert!(bin_dir_listed(&listed(&["/usr//bin/"]), "/usr/bin/cargo"));
    assert!(!bin_dir_listed(&[], "/usr/bin/cargo"));
    assert!(!bin_dir_listed(&[None], "/usr/bin/cargo"));
    assert!(bin_dir_listed(&[None, Some("/usr/bin".to_string())], "/usr/bin/cargo"));
}
