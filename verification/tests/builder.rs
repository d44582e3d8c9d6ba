use hardhat_config::{
    HardhatConfig, HardhatConfigBuilder, DEFAULT_SOLIDITY_VERSION, DEFAULT_ZKSOLC_VERSION,
};

fn empty_object() -> serde_json::Value {
    serde_json::Value::Object(serde_json::Map::new())
}

#[test]
fn new_builder_holds_the_defaults() {
    let config = HardhatConfigBuilder::new().build();
    assert_eq!(config.zksolc.version, "1.4.1");
    assert_eq!(config.solidity.version, "0.8.24");
    assert_eq!(config.zksolc.version, DEFAULT_ZKSOLC_VERSION);
    assert_eq!(config.solidity.version, DEFAULT_SOLIDITY_VERSION);
    assert_eq!(config.zksolc.settings, empty_object());
    let config = HardhatConfigBuilder::default().build();
    assert_eq!(config.zksolc.version, "1.4.1");
    assert_eq!(config.solidity.version, "0.8.24");
    assert_eq!(config.zksolc.settings, empty_object());
}

#[test]
fn zksolc_version_is_kept_as_given() {
    for version in ["1.3.21", "", " ", "\"", "not a version", "1.4.1\n", "日本語", "a\\\"b"] {
        let config = HardhatConfigBuilder::new().zksolc_version(version).build();
        assert_eq!(config.zksolc.version, version);
        assert_eq!(config.solidity.version, DEFAULT_SOLIDITY_VERSION);
        assert_eq!(config.zksolc.settings, empty_object());
    }
}

#[test]
fn solidity_version_is_kept_as_given() {
    for version in ["0.8.19", "", "\"", "^0.8.0", "日本語"] {
        let config = HardhatConfigBuilder::new().solidity_version(version).build();
        assert_eq!(config.solidity.version, version);
        assert_eq!(config.zksolc.version, DEFAULT_ZKSOLC_VERSION);
        assert_eq!(config.zksolc.settings, empty_object());
    }
}

#[test]
fn last_zksolc_version_wins() {
    let config = HardhatConfigBuilder::new().zksolc_version("1.3.13").zksolc_version("1.3.21").build();
    assert_eq!(config.zksolc.version, "1.3.21");
    let config = HardhatConfigBuilder::new()
        .zksolc_version("1.3.21")
        .solidity_version("0.8.19")
        .zksolc_version("1.3.13")
        .build();
    assert_eq!(config.zksolc.version, "1.3.13");
    assert_eq!(config.solidity.version, "0.8.19");
}

#[test]
fn last_solidity_version_wins() {
    let config =
        HardhatConfigBuilder::new().solidity_version("0.8.19").solidity_version("0.8.20").build();
    assert_eq!(config.solidity.version, "0.8.20");
    assert_eq!(config.zksolc.version, DEFAULT_ZKSOLC_VERSION);
}

#[test]
fn setters_can_be_called_in_either_order() {
    let one = HardhatConfigBuilder::new().zksolc_version("1.3.21").solidity_version("0.8.19").build();
    let other =
        HardhatConfigBuilder::new().solidity_version("0.8.19").zksolc_version("1.3.21").build();
    assert_eq!(one.zksolc.version, other.zksolc.version);
    assert_eq!(one.solidity.version, other.solidity.version);
    assert_eq!(one.zksolc.settings, other.zksolc.settings);
    assert_eq!(one.to_string_config(), other.to_string_config());
}

#[test]
fn building_twice_gives_equal_configurations_that_share_nothing() {
    let mut builder = HardhatConfigBuilder::new();
    builder.zksolc_version("1.3.21");
    let mut first = builder.build();
    let second = builder.build();
    assert_eq!(first.zksolc.version, second.zksolc.version);
    assert_eq!(first.solidity.version, second.solidity.version);
    assert_eq!(first.zksolc.settings, second.zksolc.settings);

    first
        .zksolc
        .settings
        .as_object_mut()
        .unwrap()
        .insert("optimizer".to_string(), serde_json::Value::Bool(true));
    first.zksolc.version.push_str("-changed");
    assert_eq!(second.zksolc.settings, empty_object());
    assert_eq!(second.zksolc.version, "1.3.21");
    let third = builder.build();
    assert_eq!(third.zksolc.settings, empty_object());
    assert_eq!(third.zksolc.version, "1.3.21");
}

#[test]
fn builder_stays_usable_after_build() {
    let mut builder = HardhatConfigBuilder::new();
    let before = builder.build();
    builder.solidity_version("0.8.19");
    let after = builder.build();
    assert_eq!(before.solidity.version, DEFAULT_SOLIDITY_VERSION);
    assert_eq!(after.solidity.version, "0.8.19");
    builder.zksolc_version("1.3.21");
    assert_eq!(after.zksolc.version, DEFAULT_ZKSOLC_VERSION);
    assert_eq!(builder.build().zksolc.version, "1.3.21");
    assert_eq!(builder.build().solidity.version, "0.8.19");
}

#[test]
fn setter_hands_back_the_builder_it_was_called_on() {
    let mut builder = HardhatConfigBuilder::new();
    let chained = builder.zksolc_version("1.3.21");
    chained.solidity_version("0.8.19");
    let config: HardhatConfig = builder.build();
    assert_eq!(config.zksolc.version, "1.3.21");
    assert_eq!(config.solidity.version, "0.8.19");
}
