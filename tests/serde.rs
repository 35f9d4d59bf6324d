use cli_config::format::{AutomaticSerde, ConfigSerde, RonSerde, SerdeFormat, YamlSerde};
use cli_config::models::{AppRootConfig, Dummy, LogConfig};
use cli_config::types::Error;
use serde::de::{self, Deserialize, Deserializer, EnumAccess, IgnoredAny, MapAccess, VariantAccess, Visitor};
use serde::ser::{Serialize, SerializeStruct, Serializer};
use std::fmt;

/// The example schema as serde sees it, written out by hand.
struct Root<'a>(&'a AppRootConfig);
struct Log<'a>(&'a LogConfig);
struct Sink(Dummy);

impl Serialize for Root<'_> {
    fn serialize<S: Serializer>(&self, s: S) -> Result<S::Ok, S::Error> {
        let mut st = s.serialize_struct("AppRootConfig", 1)?;
        st.serialize_field("log_sub_config", &Log(&self.0.log_sub_config))?;
        st.end()
    }
}

impl Serialize for Log<'_> {
    fn serialize<S: Serializer>(&self, s: S) -> Result<S::Ok, S::Error> {
        let mut st = s.serialize_struct("LogConfig", 1)?;
        st.serialize_field("sink", &self.0.sink.map(Sink))?;
        st.end()
    }
}

impl Serialize for Sink {
    fn serialize<S: Serializer>(&self, s: S) -> Result<S::Ok, S::Error> {
        match self.0 {
            Dummy::Null => s.serialize_unit_variant("Dummy", 0, "Null"),
            Dummy::StdOut => s.serialize_unit_variant("Dummy", 1, "StdOut"),
            Dummy::StdError => s.serialize_unit_variant("Dummy", 2, "StdError"),
        }
    }
}

struct Key(String);
struct KeyVisitor;

impl<'de> Visitor<'de> for KeyVisitor {
    type Value = Key;
    fn expecting(&self, f: &mut fmt::Formatter) -> fmt::Result {
        f.write_str("a field name")
    }
    fn visit_str<E: de::Error>(self, v: &str) -> Result<Key, E> {
        Ok(Key(v.to_string()))
    }
}

impl<'de> Deserialize<'de> for Key {
    fn deserialize<D: Deserializer<'de>>(d: D) -> Result<Self, D::Error> {
        d.deserialize_identifier(KeyVisitor)
    }
}

struct RootDe(AppRootConfig);
struct RootVisitor;

impl<'de> Visitor<'de> for RootVisitor {
    type Value = RootDe;
    fn expecting(&self, f: &mut fmt::Formatter) -> fmt::Result {
        f.write_str("AppRootConfig")
    }
    fn visit_map<A: MapAccess<'de>>(self, mut m: A) -> Result<RootDe, A::Error> {
        let mut log_sub_config = None;
        while let Some(Key(k)) = m.next_key::<Key>()? {
            if k == "log_sub_config" {
                log_sub_config = Some(m.next_value::<LogDe>()?.0);
            } else {
                m.next_value::<IgnoredAny>()?;
            }
        }
        let log_sub_config =
            log_sub_config.ok_or_else(|| de::Error::missing_field("log_sub_config"))?;
        Ok(RootDe(AppRootConfig { log_sub_config }))
    }
}

impl<'de> Deserialize<'de> for RootDe {
    fn deserialize<D: Deserializer<'de>>(d: D) -> Result<Self, D::Error> {
        d.deserialize_struct("AppRootConfig", &["log_sub_config"], RootVisitor)
    }
}

struct LogDe(LogConfig);
struct LogVisitor;

impl<'de> Visitor<'de> for LogVisitor {
    type Value = LogDe;
    fn expecting(&self, f: &mut fmt::Formatter) -> fmt::Result {
        f.write_str("LogConfig")
    }
    fn visit_map<A: MapAccess<'de>>(self, mut m: A) -> Result<LogDe, A::Error> {
        let mut sink = None;
        while let Some(Key(k)) = m.next_key::<Key>()? {
            if k == "sink" {
                sink = m.next_value::<Option<SinkDe>>()?.map(|s| s.0);
            } else {
                m.next_value::<IgnoredAny>()?;
            }
        }
        Ok(LogDe(LogConfig { sink }))
    }
}

impl<'de> Deserialize<'de> for LogDe {
    fn deserialize<D: Deserializer<'de>>(d: D) -> Result<Self, D::Error> {
        d.deserialize_struct("LogConfig", &["sink"], LogVisitor)
    }
}

struct SinkDe(Dummy);
struct SinkVisitor;

impl<'de> Visitor<'de> for SinkVisitor {
    type Value = SinkDe;
    fn expecting(&self, f: &mut fmt::Formatter) -> fmt::Result {
        f.write_str("Dummy")
    }
    fn visit_enum<A: EnumAccess<'de>>(self, data: A) -> Result<SinkDe, A::Error> {
        let (Key(name), variant) = data.variant::<Key>()?;
        variant.unit_variant()?;
        match name.as_str() {
            "Null" => Ok(SinkDe(Dummy::Null)),
            "StdOut" => Ok(SinkDe(Dummy::StdOut)),
            "StdError" => Ok(SinkDe(Dummy::StdError)),
            _ => Err(de::Error::unknown_variant(&name, &["Null", "StdOut", "StdError"])),
        }
    }
}

impl<'de> Deserialize<'de> for SinkDe {
    fn deserialize<D: Deserializer<'de>>(d: D) -> Result<Self, D::Error> {
        d.deserialize_enum("Dummy", &["Null", "StdOut", "StdError"], SinkVisitor)
    }
}

fn render(format: SerdeFormat, config: &AppRootConfig) -> String {
    match format {
        SerdeFormat::Ron => {
            ron::ser::to_string_pretty(&Root(config), ron::ser::PrettyConfig::default()).unwrap()
        }
        SerdeFormat::Yaml => serde_yaml::to_string(&Root(config)).unwrap(),
    }
}

fn parse(format: SerdeFormat, text: &str) -> AppRootConfig {
    match format {
        SerdeFormat::Ron => ron::Options::default().from_str::<RootDe>(text).unwrap().0,
        SerdeFormat::Yaml => serde_yaml::from_str::<RootDe>(text).unwrap().0,
    }
}

#[test]
fn ron_serde() {
    let test = |tail_docs: &str| {
        let expected_config = AppRootConfig::default();
        let ron_serde = RonSerde {};
        let config_txt =
            ron_serde.serialize_config(render(SerdeFormat::Ron, &expected_config), tail_docs);
        let deserialized_config = parse(SerdeFormat::Ron, &config_txt);
        println!("RON:\n{config_txt}");
        assert_eq!(deserialized_config, expected_config, "RON serde didn't work");
    };

    test("");
    test("I\nhave\nmultiline\ntail docs");
}

#[test]
fn yaml_serde() {
    let test = |tail_docs: &str| {
        let expected_config = AppRootConfig::default();
        let yaml_serde = YamlSerde {};
        let config_txt =
            yaml_serde.serialize_config(render(SerdeFormat::Yaml, &expected_config), tail_docs);
        let deserialized_config = parse(SerdeFormat::Yaml, &config_txt);
        println!("YAML:\n{config_txt}");
        assert_eq!(deserialized_config, expected_config, "YAML serde didn't work");
    };

    test("");
    test("I\nhave\nmultiline\ntail docs");
}

#[test]
fn automatic_serde() {
    // unsupported extension
    let expected_error_message = "`cli-config`: Unsupported config file extension: '.unsupported.file.extension'. Supported extensions are '.ron', '.yaml' and '.yml'";
    let result = AutomaticSerde::for_file_extension(".unsupported.file.extension");
    assert!(
        result.is_err(),
        "Passing an unsupported config file extension should result in an error"
    );
    match result {
        Err(Error::UnsupportedConfigFileFormat { message: observed_error_message }) => assert_eq!(
            observed_error_message, expected_error_message,
            "Unexpected error message"
        ),
        _ => panic!("Unexpected result"),
    }

    // supported extensions
    let test = |file_extension: &str| {
        let expected_config = AppRootConfig::default();
        let serde = AutomaticSerde::for_file_extension(file_extension).unwrap();
        let config_txt =
            serde.serialize_config(render(serde.format(), &expected_config), "");
        let deserialized_config = parse(serde.format(), &config_txt);
        println!("{file_extension}:\n{config_txt}");
        assert_eq!(
            deserialized_config, expected_config,
            "Automatic serde for '{file_extension}' didn't work"
        );
    };

    test(".ron");
    test(".yaml");
    test(".yml");
}

#[test]
fn round_trip_with_a_sink() {
    let config = AppRootConfig { log_sub_config: LogConfig { sink: Some(Dummy::StdError) } };
    for format in [SerdeFormat::Ron, SerdeFormat::Yaml] {
        let serde = AutomaticSerde::new(format);
        let txt = serde.serialize_config(render(format, &config), "some\ndocs\n");
        assert_eq!(parse(format, &txt), config, "{txt}");
    }
}

#[test]
fn extensions_pick_formats() {
    assert_eq!(AutomaticSerde::for_file_extension(".ron").unwrap().format(), SerdeFormat::Ron);
    assert_eq!(AutomaticSerde::for_file_extension(".yaml").unwrap().format(), SerdeFormat::Yaml);
    assert_eq!(AutomaticSerde::for_file_extension(".yml").unwrap().format(), SerdeFormat::Yaml);
    assert_eq!(AutomaticSerde::new(SerdeFormat::Yaml).format(), SerdeFormat::Yaml);
}

#[test]
fn other_extensions_are_unsupported() {
    for ext in ["", ".json", ".RON", "ron", ".yaml.bak", ".toml"] {
        match AutomaticSerde::for_file_extension(ext) {
            Err(Error::UnsupportedConfigFileFormat { message }) => {
                assert!(message.contains(&format!("'{ext}'")), "{message}");
            }
            _ => panic!("'{ext}' should be unsupported"),
        }
    }
}

#[test]
fn yaml_docs_lines_are_comments() {
    let txt = YamlSerde {}.serialize_config("a: 1\n".to_string(), "line1\nline2");
    assert_eq!(
        txt,
        "a: 1\n\n############################# DOCS ##############################\n# line1\n# line2"
    );
}

#[test]
fn yaml_docs_trailing_line_break_is_commented() {
    let txt = YamlSerde {}.serialize_config(String::new(), "x\n");
    assert!(txt.ends_with("# x\n# "));
}

#[test]
fn ron_docs_are_one_block_comment() {
    let txt = RonSerde {}.serialize_config("()".to_string(), "line1\nline2");
    assert_eq!(
        txt,
        "()\n\n/*\n///////////////////////////// DOCS //////////////////////////////\nline1\nline2\n*/\n"
    );
}

#[test]
fn empty_docs_add_nothing() {
    assert_eq!(RonSerde {}.serialize_config("(a: 1)".to_string(), ""), "(a: 1)");
    assert_eq!(YamlSerde {}.serialize_config("a: 1\n".to_string(), ""), "a: 1\n");
}
