use masuk::{Config, Failure, HostConfig, Json};

fn text(s: &str) -> Json {
    Json::Text(s.to_string())
}

fn object(members: Vec<(&str, Json)>) -> Json {
    Json::Object(members.into_iter().map(|(k, v)| (k.to_string(), v)).collect())
}

fn web() -> Json {
    object(vec![("host", text("10.0.0.5")), ("port", Json::Unsigned(2200)), ("user", text("admin"))])
}

fn root(profiles: Json, stamp: Json) -> Json {
    object(vec![("profiles", profiles), ("updated_at", stamp)])
}

fn sample() -> Config {
    let mut config = Config::new(1700000000);
    config.profiles.insert("web", HostConfig::new("10.0.0.5", Some("admin".to_string()), Some(2200)).unwrap());
    config.profiles.insert("db", HostConfig::new("db.internal", None, None).unwrap());
    config
}

const SAMPLE_TEXT: &str = "{
  \"profiles\": {
    \"db\": {
      \"host\": \"db.internal\"
    },
    \"web\": {
      \"host\": \"10.0.0.5\",
      \"port\": 2200,
      \"user\": \"admin\"
    }
  },
  \"updated_at\": 1700000000
}";

#[test]
fn to_document_lists_profiles_in_order() {
    let expected = root(
        object(vec![("db", object(vec![("host", text("db.internal"))])), ("web", web())]),
        Json::Unsigned(1700000000),
    );
    assert_eq!(sample().to_document(), expected);
}

#[test]
fn to_document_writes_a_negative_time_as_signed() {
    assert_eq!(Config::new(-5).to_document(), root(object(vec![]), Json::Signed(-5)));
    assert_eq!(Config::new(0).to_document(), root(object(vec![]), Json::Unsigned(0)));
}

#[test]
fn from_document_reads_the_schema() {
    let config = Config::from_document(&root(object(vec![("web", web())]), Json::Unsigned(7))).unwrap();
    assert_eq!(config.updated_at, 7);
    assert_eq!(config.profiles.len(), 1);
    let profile = config.profiles.get("web").unwrap();
    assert_eq!(profile.host(), "10.0.0.5");
    assert_eq!(profile.user(), Some("admin"));
    assert_eq!(profile.port(), Some(2200));
}

#[test]
fn document_round_trip_gives_the_configuration_back() {
    let config = sample();
    let back = Config::from_document(&config.to_document()).unwrap();
    assert_eq!(back.updated_at, 1700000000);
    assert_eq!(back.profiles.len(), 2);
    assert_eq!(back.profiles.get("web").unwrap().display(), "admin@10.0.0.5:2200");
    assert_eq!(back.profiles.get("db").unwrap().display(), "db.internal");
    assert_eq!(back.to_document(), config.to_document());
}

#[test]
fn both_members_of_the_root_are_required() {
    assert!(Config::from_document(&object(vec![("updated_at", Json::Unsigned(3))])).is_none());
    assert!(Config::from_document(&object(vec![("profiles", object(vec![]))])).is_none());
    assert!(Config::from_document(&object(vec![])).is_none());
    let config = Config::from_document(&root(object(vec![]), Json::Unsigned(3))).unwrap();
    assert!(config.profiles.is_empty());
    assert_eq!(config.updated_at, 3);
}

#[test]
fn missing_or_null_user_and_port_stand_for_none() {
    let plain = object(vec![("host", text("h"))]);
    let nulls = object(vec![("host", text("h")), ("user", Json::Null), ("port", Json::Null)]);
    for profile in [plain, nulls] {
        let config = Config::from_document(&root(object(vec![("a", profile)]), Json::Unsigned(1))).unwrap();
        let read = config.profiles.get("a").unwrap();
        assert_eq!(read.user(), None);
        assert_eq!(read.port(), None);
    }
}

#[test]
fn unknown_members_are_ignored() {
    let profile = object(vec![
        ("host", text("h")),
        ("note", Json::Array(vec![Json::Bool(true), Json::Real("1.5".to_string())])),
    ]);
    let doc = object(vec![
        ("version", Json::Unsigned(2)),
        ("profiles", object(vec![("a", profile)])),
        ("updated_at", Json::Signed(-1)),
        ("extra", object(vec![("deep", Json::Null)])),
    ]);
    let config = Config::from_document(&doc).unwrap();
    assert_eq!(config.updated_at, -1);
    assert_eq!(config.profiles.get("a").unwrap().host(), "h");
}

#[test]
fn of_two_profiles_of_one_name_the_later_counts() {
    let doc = root(
        object(vec![("a", object(vec![("host", text("first"))])), ("a", object(vec![("host", text("second"))]))]),
        Json::Unsigned(2),
    );
    let config = Config::from_document(&doc).unwrap();
    assert_eq!(config.profiles.len(), 1);
    assert_eq!(config.profiles.get("a").unwrap().host(), "second");
}

#[test]
fn a_repeated_member_of_the_schema_is_refused() {
    let one = |profile: Json| root(object(vec![("a", profile)]), Json::Unsigned(1));
    assert!(Config::from_document(&object(vec![
        ("updated_at", Json::Unsigned(1)),
        ("profiles", object(vec![])),
        ("updated_at", Json::Unsigned(1)),
    ]))
    .is_none());
    assert!(Config::from_document(&object(vec![
        ("profiles", object(vec![])),
        ("updated_at", Json::Unsigned(1)),
        ("profiles", object(vec![])),
    ]))
    .is_none());
    assert!(Config::from_document(&one(object(vec![("host", text("h")), ("host", text("h"))]))).is_none());
    assert!(Config::from_document(&one(object(vec![("host", text("h")), ("user", Json::Null), ("user", text("u"))]))).is_none());
    assert!(Config::from_document(&one(object(vec![("port", Json::Unsigned(1)), ("host", text("h")), ("port", Json::Null)]))).is_none());
    let repeated_unknown = object(vec![
        ("note", Json::Null),
        ("profiles", object(vec![])),
        ("note", Json::Bool(true)),
        ("updated_at", Json::Unsigned(1)),
    ]);
    assert!(Config::from_document(&repeated_unknown).is_some());
}

#[test]
fn the_time_must_be_an_integer_of_64_bits() {
    let none = object(vec![]);
    assert!(Config::from_document(&root(object(vec![]), Json::Unsigned(9223372036854775807))).is_some());
    assert!(Config::from_document(&root(object(vec![]), Json::Unsigned(9223372036854775808))).is_none());
    assert!(Config::from_document(&root(object(vec![]), Json::Signed(i64::MIN))).is_some());
    assert!(Config::from_document(&root(object(vec![]), Json::Real("1.5".to_string()))).is_none());
    assert!(Config::from_document(&root(object(vec![]), text("1"))).is_none());
    assert!(Config::from_document(&root(object(vec![]), Json::Null)).is_none());
    assert!(Config::from_document(&object(vec![("profiles", none)])).is_none());
}

#[test]
fn the_port_must_be_an_integer_of_16_bits() {
    let with_port = |port: Json| root(object(vec![("a", object(vec![("host", text("h")), ("port", port)]))]), Json::Unsigned(1));
    assert_eq!(Config::from_document(&with_port(Json::Unsigned(0))).unwrap().profiles.get("a").unwrap().port(), Some(0));
    assert_eq!(
        Config::from_document(&with_port(Json::Unsigned(65535))).unwrap().profiles.get("a").unwrap().port(),
        Some(65535)
    );
    assert_eq!(Config::from_document(&with_port(Json::Signed(22))).unwrap().profiles.get("a").unwrap().port(), Some(22));
    assert!(Config::from_document(&with_port(Json::Unsigned(65536))).is_none());
    assert!(Config::from_document(&with_port(Json::Signed(-1))).is_none());
    assert!(Config::from_document(&with_port(Json::Real("22.0".to_string()))).is_none());
    assert!(Config::from_document(&with_port(text("22"))).is_none());
}

#[test]
fn wrong_types_are_refused() {
    let one = |profile: Json| root(object(vec![("a", profile)]), Json::Unsigned(1));
    assert!(Config::from_document(&Json::Null).is_none());
    assert!(Config::from_document(&Json::Array(vec![])).is_none());
    assert!(Config::from_document(&root(Json::Null, Json::Unsigned(1))).is_none());
    assert!(Config::from_document(&root(Json::Array(vec![]), Json::Unsigned(1))).is_none());
    assert!(Config::from_document(&one(text("h"))).is_none());
    assert!(Config::from_document(&one(object(vec![]))).is_none());
    assert!(Config::from_document(&one(object(vec![("host", Json::Null)]))).is_none());
    assert!(Config::from_document(&one(object(vec![("host", Json::Unsigned(1))]))).is_none());
    assert!(Config::from_document(&one(object(vec![("host", text("h")), ("user", Json::Unsigned(1))]))).is_none());
}

#[test]
fn an_empty_host_is_refused() {
    let doc = root(object(vec![("a", object(vec![("host", text(""))]))]), Json::Unsigned(1));
    assert!(Config::from_document(&doc).is_none());
}

#[test]
fn one_bad_profile_spoils_the_store() {
    let doc = root(
        object(vec![("a", object(vec![("host", text("h"))])), ("b", object(vec![])), ("c", object(vec![("host", text("h"))]))]),
        Json::Unsigned(1),
    );
    assert!(Config::from_document(&doc).is_none());
}

#[test]
fn render_writes_indented_json() {
    assert_eq!(sample().render().unwrap(), SAMPLE_TEXT);
    assert_eq!(Config::new(5).render().unwrap(), "{\n  \"profiles\": {},\n  \"updated_at\": 5\n}");
}

#[test]
fn parse_reads_json_text() {
    let config = Config::parse(SAMPLE_TEXT).unwrap();
    assert_eq!(config.updated_at, 1700000000);
    assert_eq!(config.profiles.len(), 2);
    assert_eq!(config.profiles.get("web").unwrap().display(), "admin@10.0.0.5:2200");
    assert_eq!(config.profiles.get("db").unwrap().display(), "db.internal");
}

#[test]
fn parse_takes_members_in_any_order() {
    let config = Config::parse(
        "{\"updated_at\": -12, \"comment\": [1.5, true, null], \"profiles\": {\"z\": {\"user\": \"u\", \"host\": \"h\"}, \"a\": {\"port\": 22, \"host\": \"g\"}}}",
    )
    .unwrap();
    assert_eq!(config.updated_at, -12);
    assert_eq!(config.profiles.name_at(0), "a");
    assert_eq!(config.profiles.name_at(1), "z");
    assert_eq!(config.profiles.get("z").unwrap().display(), "u@h");
    assert_eq!(config.profiles.get("a").unwrap().display(), "g:22");
}

#[test]
fn parse_refuses_what_is_not_json() {
    for bad in ["", "{", "not json", "{\"updated_at\": 1,}", "{\"updated_at\": 1} trailing"] {
        assert_eq!(Config::parse(bad).unwrap_err(), Failure::ConfigParse);
    }
}

#[test]
fn parse_refuses_what_breaks_the_schema() {
    for bad in [
        "null",
        "[]",
        "[{}, 1]",
        "{}",
        "{\"profiles\": {}}",
        "{\"updated_at\": 1}",
        "{\"profiles\": {}, \"updated_at\": \"now\"}",
        "{\"profiles\": {}, \"updated_at\": 1.0}",
        "{\"profiles\": {}, \"updated_at\": null}",
        "{\"profiles\": {}, \"updated_at\": 9223372036854775808}",
        "{\"updated_at\": 1, \"profiles\": null}",
        "{\"updated_at\": 1, \"profiles\": []}",
        "{\"updated_at\": 1, \"profiles\": {\"a\": {\"host\": \"\"}}}",
        "{\"updated_at\": 1, \"profiles\": {\"a\": {}}}",
        "{\"updated_at\": 1, \"profiles\": {\"a\": {\"host\": 5}}}",
        "{\"updated_at\": 1, \"profiles\": {\"a\": {\"host\": \"h\", \"port\": 65536}}}",
        "{\"updated_at\": 1, \"profiles\": {\"a\": {\"host\": \"h\", \"port\": -1}}}",
        "{\"updated_at\": 1, \"profiles\": {\"a\": {\"host\": \"h\", \"port\": \"22\"}}}",
        "{\"updated_at\": 1, \"profiles\": {\"a\": {\"host\": \"h\", \"user\": 7}}}",
    ] {
        assert_eq!(Config::parse(bad).unwrap_err(), Failure::ConfigParse, "{}", bad);
    }
}

#[test]
fn text_round_trip_gives_the_configuration_back() {
    let config = sample();
    let back = Config::parse(config.render().unwrap().as_str()).unwrap();
    assert_eq!(back.updated_at, config.updated_at);
    assert_eq!(back.to_document(), config.to_document());
    let odd = {
        let mut odd = Config::new(i64::MIN);
        odd.profiles.insert("", HostConfig::new("h\"\\\n\u{2192}", Some("".to_string()), Some(0)).unwrap());
        odd.profiles.insert("quote\"d", HostConfig::new(" ", None, Some(65535)).unwrap());
        odd
    };
    let back = Config::parse(odd.render().unwrap().as_str()).unwrap();
    assert_eq!(back.updated_at, i64::MIN);
    assert_eq!(back.to_document(), odd.to_document());
}

#[test]
fn same_compares_profiles_and_time() {
    assert!(sample().same(&sample()));
    let mut later = sample();
    later.updated_at = 1700000001;
    assert!(!sample().same(&later));
    let mut fewer = sample();
    fewer.profiles.remove("db");
    assert!(!sample().same(&fewer));
    assert!(Config::parse(SAMPLE_TEXT).unwrap().same(&sample()));
}

#[test]
fn parse_takes_the_later_of_two_profiles_of_one_name() {
    let config = Config::parse(
        "{\"updated_at\": 1, \"profiles\": {\"a\": {\"host\": \"first\"}, \"a\": {\"host\": \"second\"}}}",
    )
    .unwrap();
    assert_eq!(config.profiles.len(), 1);
    assert_eq!(config.profiles.get("a").unwrap().host(), "second");
}

#[test]
fn parse_refuses_a_text_without_profiles() {
    assert_eq!(Config::parse("{\"updated_at\":1}").unwrap_err(), Failure::ConfigParse);
    assert_eq!(Config::parse("{\"updated_at\":1,\"extra\":{}}").unwrap_err(), Failure::ConfigParse);
    assert!(Config::parse("{\"updated_at\":1,\"profiles\":{}}").is_ok());
}

#[test]
fn parse_reads_numbers_out_of_range_as_no_integers() {
    assert_eq!(
        Config::parse("{\"profiles\": {}, \"updated_at\": -9223372036854775808}").unwrap().updated_at,
        i64::MIN
    );
    assert_eq!(
        Config::parse("{\"profiles\": {}, \"updated_at\": 9223372036854775807}").unwrap().updated_at,
        i64::MAX
    );
    for bad in [
        "{\"profiles\": {}, \"updated_at\": -9223372036854775809}",
        "{\"profiles\": {}, \"updated_at\": 18446744073709551616}",
        "{\"profiles\": {}, \"updated_at\": 1e3}",
        "{\"profiles\": {}, \"updated_at\": -0}",
    ] {
        assert_eq!(Config::parse(bad).unwrap_err(), Failure::ConfigParse, "{}", bad);
    }
}

#[test]
fn parse_sees_only_the_last_of_a_repeated_member() {
    // The JSON reader keeps one value for each name of an object, so a
    // repeated `updated_at` reaches the schema as a single member.
    let config = Config::parse("{\"profiles\": {}, \"updated_at\": 1, \"updated_at\": 2}").unwrap();
    assert_eq!(config.updated_at, 2);
}
