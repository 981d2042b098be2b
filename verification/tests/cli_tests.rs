use xcode_build::cli::{Mode, Options, TopLevel, XcodeBuild};
use xcode_build::xcode_build_rs;

#[test]
fn manifest_path_names_the_file() {
    let options = Options { colour: false, manifest_dir: ".".to_string() };
    assert_eq!(options.manifest_path(), "./Cargo.toml");
    let options = Options { colour: true, manifest_dir: "crates/app/".to_string() };
    assert_eq!(options.manifest_path(), "crates/app/Cargo.toml");
    let options = Options { colour: false, manifest_dir: String::new() };
    assert_eq!(options.manifest_path(), "Cargo.toml");
}

#[test]
fn top_level_hands_out_its_parts() {
    let top = TopLevel::XCodeBuild(XcodeBuild {
        mode: Mode::Test,
        options: Options { colour: true, manifest_dir: "x".to_string() },
    });
    assert_eq!(*top.mode(), Mode::Test);
    assert!(top.options().colour);
    assert_eq!(top.options().manifest_dir, "x");
}

#[test]
fn plain_rustc_arguments() {
    let expected: Vec<String> = ["rustc", "--crate-type", "staticlib", "--lib", "--target", "x86_64-apple-ios"]
        .iter()
        .map(|s| s.to_string())
        .collect();
    assert_eq!(xcode_build_rs::rustc_args("x86_64-apple-ios", false), expected);
    let mut release = expected.clone();
    release.push("--release".to_string());
    assert_eq!(xcode_build_rs::rustc_args("x86_64-apple-ios", true), release);
    assert!(xcode_build_rs::parse_archs(None).is_err());
}
