use rust_snapshot::resources::ConfigMap;

#[test]
fn new_map_holds_nothing() {
    let config = ConfigMap::new();
    assert_eq!(config.get_string("device"), None);
    assert_eq!(config.get_u32("framerate"), None);
    assert!(!config.flag("use_mock"));
    let config = ConfigMap::default();
    assert_eq!(config.get_string("device"), None);
}

#[test]
fn set_replaces_the_value_of_a_key_and_no_other() {
    let mut config = ConfigMap::new();
    config.set("device", "/dev/video0");
    config.set("backend", "v4l2");
    assert_eq!(config.get_string("device"), Some("/dev/video0".to_string()));
    config.set("device", "/dev/video1");
    assert_eq!(config.get_string("device"), Some("/dev/video1".to_string()));
    assert_eq!(config.get_string("backend"), Some("v4l2".to_string()));
    assert_eq!(config.get_string("Device"), None);
    assert_eq!(config.get_string(""), None);
    config.set("", "empty key");
    assert_eq!(config.get_string(""), Some("empty key".to_string()));
}

#[test]
fn flag_takes_one_yes_and_true_in_any_case() {
    let mut config = ConfigMap::new();
    for (i, value) in ["1", "yes", "true", "YES", "True", "tRuE", "Yes"].iter().enumerate() {
        let key = format!("on{}", i);
        config.set(&key, value);
        assert!(config.flag(&key), "{} switches a flag on", value);
        assert!(config.is_true(value));
    }
    for (i, value) in ["0", "no", "false", "", "on", " yes", "yes ", "11", "y"].iter().enumerate()
    {
        let key = format!("off{}", i);
        config.set(&key, value);
        assert!(!config.flag(&key), "{:?} leaves a flag off", value);
        assert!(!config.is_true(value));
    }
    assert!(!config.flag("missing"));
}

#[test]
fn is_truthy_takes_the_three_lower_case_words_only() {
    assert!(ConfigMap::is_truthy("1"));
    assert!(ConfigMap::is_truthy("yes"));
    assert!(ConfigMap::is_truthy("true"));
    assert!(!ConfigMap::is_truthy("YES"));
    assert!(!ConfigMap::is_truthy("True"));
    assert!(!ConfigMap::is_truthy(""));
}

#[test]
fn import_sets_every_pair_in_order() {
    let mut config = ConfigMap::new();
    config.set("device", "old");
    config.set("keep", "kept");
    let settings = vec![
        ("device".to_string(), "first".to_string()),
        ("resolution".to_string(), "640x480".to_string()),
        ("device".to_string(), "second".to_string()),
    ];
    config.import(&settings);
    assert_eq!(config.get_string("device"), Some("second".to_string()));
    assert_eq!(config.get_string("resolution"), Some("640x480".to_string()));
    assert_eq!(config.get_string("keep"), Some("kept".to_string()));
    config.import(&Vec::new());
    assert_eq!(config.get_string("device"), Some("second".to_string()));
}

#[test]
fn get_u32_reads_decimal_numerals() {
    let mut config = ConfigMap::new();
    let cases: [(&str, Option<u32>); 14] = [
        ("0", Some(0)),
        ("24", Some(24)),
        ("007", Some(7)),
        ("+5", Some(5)),
        ("4294967295", Some(4294967295)),
        ("4294967296", None),
        ("99999999999999999999", None),
        ("", None),
        ("+", None),
        ("-1", None),
        ("-0", None),
        (" 1", None),
        ("1 ", None),
        ("1_000", None),
    ];
    for (text, expected) in cases.iter() {
        config.set("framerate", text);
        assert_eq!(config.get_u32("framerate"), *expected, "reading {:?}", text);
    }
    config.set("framerate", "++1");
    assert_eq!(config.get_u32("framerate"), None);
    config.set("framerate", "12a");
    assert_eq!(config.get_u32("framerate"), None);
    assert_eq!(config.get_u32("missing"), None);
}

#[test]
fn clone_holds_the_same_settings() {
    let mut config = ConfigMap::new();
    config.set("a", "1");
    config.set("b", "2");
    let mut copy = config.clone();
    assert_eq!(copy.get_string("a"), Some("1".to_string()));
    assert_eq!(copy.get_string("b"), Some("2".to_string()));
    copy.set("a", "changed");
    assert_eq!(config.get_string("a"), Some("1".to_string()));
}
