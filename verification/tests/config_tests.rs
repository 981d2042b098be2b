use xcode_build::config::{Config, Flags};

fn strings(items: &[&str]) -> Vec<String> {
    items.iter().map(|s| s.to_string()).collect()
}

#[test]
fn default_flags_add_no_arguments() {
    assert!(Flags::default().into_args().is_empty());
    assert!(Config::default().ios_feature_flags().into_args().is_empty());
}

#[test]
fn default_default_features_is_on() {
    assert!(Flags::default_default_features());
}

#[test]
fn features_come_in_pairs_after_no_default_features() {
    let flags = Flags::new(strings(&["metal", "haptics"]), false);
    assert_eq!(
        flags.into_args(),
        strings(&["--no-default-features", "--features", "metal", "--features", "haptics"])
    );
}

#[test]
fn features_with_default_features_on() {
    let flags = Flags::new(strings(&["metal"]), true);
    assert_eq!(flags.into_args(), strings(&["--features", "metal"]));
}

#[test]
fn only_no_default_features() {
    let flags = Flags::new(vec![], false);
    assert_eq!(flags.into_args(), strings(&["--no-default-features"]));
}

#[test]
fn config_hands_out_its_flags() {
    let config = Config::new(Flags::new(strings(&["a"]), false));
    assert_eq!(config.ios_feature_flags().into_args(), strings(&["--no-default-features", "--features", "a"]));
    let cloned = config.ios_feature_flags().clone();
    assert_eq!(cloned.into_args(), strings(&["--no-default-features", "--features", "a"]));
}
