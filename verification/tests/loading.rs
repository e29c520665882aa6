use markup_converter::markup::eq_ignore_ascii_case;
use markup_converter::{parse, Error, Format, Markup, Transcoder};

fn contents(text: &str) -> Result<String, String> {
    Ok(String::from(text))
}

fn unreadable() -> Result<String, String> {
    Err(String::from("No such file or directory (os error 2)"))
}

#[test]
fn texts_compare_without_regard_to_ascii_case() {
    assert!(eq_ignore_ascii_case("", ""));
    assert!(eq_ignore_ascii_case("yml", "yml"));
    assert!(eq_ignore_ascii_case("YML", "yml"));
    assert!(eq_ignore_ascii_case("yMl", "YmL"));
    assert!(eq_ignore_ascii_case("AZaz09", "azAZ09"));
    assert!(!eq_ignore_ascii_case("yml", "yaml"));
    assert!(!eq_ignore_ascii_case("yml", "ym"));
    assert!(!eq_ignore_ascii_case("ym", "yml"));
    assert!(!eq_ignore_ascii_case("yml", "ymk"));
    // Only the letters A to Z have a second case: the neighbours of the
    // alphabet, 32 apart like the letters, stay different.
    assert!(!eq_ignore_ascii_case("@", "`"));
    assert!(!eq_ignore_ascii_case("[", "{"));
    // Letters outside ASCII keep their case.
    assert!(eq_ignore_ascii_case("\u{e9}t\u{e9}", "\u{e9}T\u{e9}"));
    assert!(!eq_ignore_ascii_case("\u{e9}", "\u{c9}"));
}

#[test]
fn extensions_name_grammars_in_any_case() {
    assert_eq!(Markup::from_extension("toml"), Some(Markup::Toml));
    assert_eq!(Markup::from_extension("TOML"), Some(Markup::Toml));
    assert_eq!(Markup::from_extension("yaml"), Some(Markup::Yaml));
    assert_eq!(Markup::from_extension("yml"), Some(Markup::Yaml));
    assert_eq!(Markup::from_extension("YML"), Some(Markup::Yaml));
    assert_eq!(Markup::from_extension("YaMl"), Some(Markup::Yaml));
    assert_eq!(Markup::from_extension("json"), Some(Markup::Json));
    assert_eq!(Markup::from_extension("Json"), Some(Markup::Json));
}

#[test]
fn other_extensions_name_no_grammar() {
    assert_eq!(Markup::from_extension(""), None);
    assert_eq!(Markup::from_extension("txt"), None);
    assert_eq!(Markup::from_extension("jso"), None);
    assert_eq!(Markup::from_extension("jsonx"), None);
    assert_eq!(Markup::from_extension("yam"), None);
    assert_eq!(Markup::from_extension(".yml"), None);
    assert_eq!(Markup::from_extension("toml "), None);
}

#[test]
fn paths_are_judged_by_their_extension() {
    assert_eq!(Markup::from_path("a.json"), Some(Markup::Json));
    assert_eq!(Markup::from_path("dir/sub/file.TOML"), Some(Markup::Toml));
    assert_eq!(Markup::from_path("tests/test.yaml"), Some(Markup::Yaml));
    assert_eq!(Markup::from_path("tests/test.yml"), Some(Markup::Yaml));
    assert_eq!(Markup::from_path("tests/test.YML"), Some(Markup::Yaml));
    assert_eq!(Markup::from_path("dir/.hidden.yaml"), Some(Markup::Yaml));
    assert_eq!(Markup::from_path("archive.tar.json"), Some(Markup::Json));
    // The extension is that of the last component, as the path names it.
    assert_eq!(Markup::from_path("conf.d/app.toml"), Some(Markup::Toml));
    assert_eq!(Markup::from_path("data.json/"), Some(Markup::Json));
}

#[test]
fn paths_without_a_known_extension_are_judged_unknown() {
    assert_eq!(Markup::from_path(""), None);
    assert_eq!(Markup::from_path("noext"), None);
    assert_eq!(Markup::from_path("json"), None);
    assert_eq!(Markup::from_path("notes.txt"), None);
    assert_eq!(Markup::from_path("dir.json/noext"), None);
    assert_eq!(Markup::from_path(".json"), None);
    assert_eq!(Markup::from_path("file."), None);
    assert_eq!(Markup::from_path("data.json.bak"), None);
    assert_eq!(Markup::from_path("data.json/.."), None);
    assert_eq!(Markup::from_path("yaml."), None);
}

#[test]
fn yaml_and_yml_in_any_case_select_the_yaml_parser() {
    for path in ["doc.yaml", "doc.yml", "doc.YML", "doc.YAML", "doc.Yml"] {
        let format = parse(path, contents("name: TestName")).unwrap();
        assert!(matches!(format, Format::Yaml(_)));
        // The same text is not TOML: had another parser been chosen, it
        // would have failed.
        assert!(Format::toml("name: TestName").is_err());
    }
}

#[test]
fn each_extension_selects_its_own_parser() {
    // Text that only one of the three parsers takes.
    let toml_only = "[table]\nname = \"TestName\"";
    assert!(matches!(parse("a.toml", contents(toml_only)), Ok(Format::Toml(_))));
    assert!(matches!(parse("a.json", contents(toml_only)), Err(Error::BadJson(_))));
    assert!(matches!(parse("a.TOML", contents(toml_only)), Ok(Format::Toml(_))));
    let json = "{\"name\": \"TestName\"}";
    assert!(matches!(parse("a.json", contents(json)), Ok(Format::Json(_))));
    assert!(matches!(parse("a.JSON", contents(json)), Ok(Format::Json(_))));
    assert!(matches!(parse("a.toml", contents(json)), Err(Error::BadToml(_))));
}

#[test]
fn an_unknown_or_missing_extension_fails_whatever_the_read_gave() {
    for path in ["notes.txt", "noext", "dir.json/noext", ".yaml", ""] {
        let expected = Err(Error::UnknownFileExtension(String::from(path)));
        assert_eq!(parse(path, contents("{}")), expected);
        assert_eq!(parse(path, unreadable()), expected);
        match Transcoder::from_path(path, contents("{}")) {
            Err(e) => assert_eq!(e, Error::UnknownFileExtension(String::from(path))),
            Ok(_) => panic!("{:?} names no grammar", path),
        }
        // The decision is there to be had before any read.
        assert_eq!(Markup::from_path(path), None);
    }
}

#[test]
fn a_failed_read_under_a_known_extension_is_a_file_read_failure() {
    for path in ["missing.json", "missing.toml", "missing.yaml", "missing.yml"] {
        let expected = Error::FileRead(
            String::from(path),
            String::from("No such file or directory (os error 2)"),
        );
        assert_eq!(parse(path, unreadable()), Err(expected));
        match Transcoder::from_path(path, unreadable()) {
            Err(e) => assert_eq!(
                e,
                Error::FileRead(
                    String::from(path),
                    String::from("No such file or directory (os error 2)"),
                )
            ),
            Ok(_) => panic!("{:?} was not read", path),
        }
    }
}

#[test]
fn loading_then_converting_gives_the_document() {
    let transcoder = Transcoder::from_path("conf/app.toml", contents("name = \"TestName\"")).unwrap();
    let mut object = serde_json::Map::new();
    object.insert(
        String::from("name"),
        serde_json::Value::String(String::from("TestName")),
    );
    assert_eq!(transcoder.to_json(), Ok(serde_json::Value::Object(object)));
}

#[test]
fn failures_describe_themselves() {
    assert_eq!(
        Error::BadToml(String::from("x")).message(),
        "Could not parse TOML: x"
    );
    assert_eq!(
        Error::BadYaml(String::from("x")).message(),
        "Could not parse YAML: x"
    );
    assert_eq!(
        Error::BadJson(String::from("x")).message(),
        "Could not parse JSON: x"
    );
    assert_eq!(
        Error::UnknownFileExtension(String::from("a/b.txt")).message(),
        "Unknown file extension for file 'a/b.txt'"
    );
    assert_eq!(
        Error::FileRead(String::from("a/b.json"), String::from("denied")).message(),
        "Could not read file 'a/b.json', error was: denied"
    );
    assert_eq!(
        Error::JsonConversion(String::from("x")).message(),
        "Could not convert to JSON: x"
    );
    assert_eq!(
        Error::YamlConversion(String::from("x")).message(),
        "Could not convert to YAML: x"
    );
    assert_eq!(
        Error::TomlConversion(String::from("x")).message(),
        "Could not convert to TOML: x"
    );
    assert_eq!(Error::BadJson(String::new()).message(), "Could not parse JSON: ");
}

#[test]
fn a_parser_message_is_carried_into_the_description() {
    let failure = Format::json("[1, 2").unwrap_err();
    assert_eq!(
        failure.message(),
        "Could not parse JSON: EOF while parsing a list at line 1 column 5"
    );
}
