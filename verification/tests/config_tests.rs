use restbed::config::{ConfigError, ConfigFile};

fn sample() -> ConfigFile {
    ConfigFile::new(
        String::from("abc"),
        String::from("127.0.0.1:9999"),
        String::from("c.pem"),
        String::from("pw"),
    )
}

#[test]
fn new_keeps_the_four_values() {
    let config = sample();
    assert_eq!(config.identity(), "abc");
    assert_eq!(config.listen_address(), "127.0.0.1:9999");
    assert_eq!(config.cert_path(), "c.pem");
    assert_eq!(config.cert_passphrase(), "pw");
}

#[test]
fn load_of_a_well_formed_file_gives_its_values() {
    let text = "{\"identity\":\"abc\",\"listenAddress\":\"127.0.0.1:9999\",\"certPath\":\"c.pem\",\"certPassphrase\":\"pw\"}";
    let config = ConfigFile::load(Some(text)).unwrap();
    assert_eq!(config.identity(), "abc");
    assert_eq!(config.listen_address(), "127.0.0.1:9999");
    assert_eq!(config.cert_path(), "c.pem");
    assert_eq!(config.cert_passphrase(), "pw");
    assert_eq!(config, sample());
}

#[test]
fn load_does_not_normalize() {
    let text = "{ \"identity\": \" A b\\n\", \"listenAddress\": \"\", \"certPath\": \"\\u00e9/\\\\x\", \"certPassphrase\": \"\\\"\" }";
    let config = ConfigFile::load(Some(text)).unwrap();
    assert_eq!(config.identity(), " A b\n");
    assert_eq!(config.listen_address(), "");
    assert_eq!(config.cert_path(), "\u{e9}/\\x");
    assert_eq!(config.cert_passphrase(), "\"");
}

#[test]
fn load_without_a_file_reports_missing() {
    assert_eq!(ConfigFile::load(None), Err(ConfigError::Missing));
}

#[test]
fn load_of_broken_json_reports_parse() {
    assert_eq!(ConfigFile::load(Some("")), Err(ConfigError::Parse));
    assert_eq!(ConfigFile::load(Some("{\"identity\":")), Err(ConfigError::Parse));
    assert_eq!(ConfigFile::from_json("not json"), Err(ConfigError::Parse));
}

#[test]
fn load_without_a_required_field_reports_parse() {
    let text = "{\"identity\":\"abc\",\"listenAddress\":\"l\",\"certPath\":\"c.pem\"}";
    assert_eq!(ConfigFile::load(Some(text)), Err(ConfigError::Parse));
    assert_eq!(ConfigFile::load(Some("{}")), Err(ConfigError::Parse));
}

#[test]
fn load_of_a_field_that_is_no_string_reports_parse() {
    let text = "{\"identity\":5,\"listenAddress\":\"l\",\"certPath\":\"c\",\"certPassphrase\":\"p\"}";
    assert_eq!(ConfigFile::load(Some(text)), Err(ConfigError::Parse));
    let text = "{\"identity\":\"a\",\"listenAddress\":\"l\",\"certPath\":null,\"certPassphrase\":\"p\"}";
    assert_eq!(ConfigFile::load(Some(text)), Err(ConfigError::Parse));
}

#[test]
fn load_of_a_document_that_is_no_object_reports_parse() {
    assert_eq!(ConfigFile::load(Some("[\"identity\"]")), Err(ConfigError::Parse));
    assert_eq!(ConfigFile::load(Some("\"identity\"")), Err(ConfigError::Parse));
}

#[test]
fn load_ignores_other_members() {
    let text = "{\"identity\":\"abc\",\"listenAddress\":\"127.0.0.1:9999\",\"certPath\":\"c.pem\",\"certPassphrase\":\"pw\",\"extra\":[1,2]}";
    assert_eq!(ConfigFile::load(Some(text)), Ok(sample()));
}

#[test]
fn from_fields_needs_all_four() {
    let s = |t: &str| Some(String::from(t));
    assert_eq!(ConfigFile::from_fields(s("abc"), s("127.0.0.1:9999"), s("c.pem"), s("pw")), Ok(sample()));
    assert_eq!(ConfigFile::from_fields(None, s("l"), s("c"), s("p")), Err(ConfigError::Parse));
    assert_eq!(ConfigFile::from_fields(s("i"), None, s("c"), s("p")), Err(ConfigError::Parse));
    assert_eq!(ConfigFile::from_fields(s("i"), s("l"), None, s("p")), Err(ConfigError::Parse));
    assert_eq!(ConfigFile::from_fields(s("i"), s("l"), s("c"), None), Err(ConfigError::Parse));
}

#[test]
fn to_json_pretty_writes_the_four_members() {
    let text = sample().to_json_pretty();
    assert_eq!(
        text,
        "{\n  \"certPassphrase\": \"pw\",\n  \"certPath\": \"c.pem\",\n  \"identity\": \"abc\",\n  \"listenAddress\": \"127.0.0.1:9999\"\n}"
    );
}

#[test]
fn to_json_pretty_is_an_object_of_exactly_four_strings() {
    let text = sample().to_json_pretty();
    let value: serde_json::Value = serde_json::from_str(&text).unwrap();
    let object = value.as_object().unwrap();
    assert_eq!(object.len(), 4);
    assert_eq!(object["identity"].as_str(), Some("abc"));
    assert_eq!(object["listenAddress"].as_str(), Some("127.0.0.1:9999"));
    assert_eq!(object["certPath"].as_str(), Some("c.pem"));
    assert_eq!(object["certPassphrase"].as_str(), Some("pw"));
}

#[test]
fn written_configuration_loads_back() {
    let configs = [
        sample(),
        ConfigFile::new(String::new(), String::new(), String::new(), String::new()),
        ConfigFile::new(
            String::from("ring:\"q\"\\"),
            String::from("[::1]:1412\n"),
            String::from("/tmp/\u{e9}\u{4e16}.p12"),
            String::from("\t{}\u{0}"),
        ),
        ConfigFile::new(
            String::from("\u{1}\u{1f}\u{7f}\r\n\u{8}\u{c}"),
            String::from("\\\"\\u0041/\\n"),
            String::from("\u{1f600}\u{d7ff}\u{e000}\u{10ffff}"),
            String::from("{\"identity\": \"x\"}"),
        ),
    ];
    for config in configs {
        let text = config.to_json_pretty();
        let back = ConfigFile::load(Some(&text)).unwrap();
        assert_eq!(back, config);
        assert_eq!(back.identity(), config.identity());
        assert_eq!(back.listen_address(), config.listen_address());
        assert_eq!(back.cert_path(), config.cert_path());
        assert_eq!(back.cert_passphrase(), config.cert_passphrase());
        let again = back.to_json_pretty();
        assert_eq!(again, text);
        assert_eq!(ConfigFile::load(Some(&again)), Ok(config));
    }
}
