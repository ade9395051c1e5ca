use quickserve::config::{
    bind, config_or_default, fallback_ports, resolve_aliases, AliasTable, Config, LoadedConfig,
};

fn config_with(bind_list: &str, aliases: &[(&str, &str)], ports: &[u16]) -> Config {
    let mut alias = AliasTable::new();
    for (name, target) in aliases {
        alias.insert(name.to_string(), target.to_string());
    }
    Config { bind: bind_list.to_string(), alias, fallback_ports: ports.to_vec() }
}

#[test]
fn empty_config_sets_nothing() {
    let config = Config::empty();
    assert_eq!(config.bind, "");
    assert_eq!(config.alias.len(), 0);
    assert!(fallback_ports(&config).is_empty());
}

#[test]
fn fallback_ports_keep_their_order() {
    let config = config_with("", &[], &[8000, 8080, 80]);
    assert_eq!(fallback_ports(&config), vec![8000, 8080, 80]);
}

#[test]
fn bind_splits_at_pipes() {
    let config = config_with("eth0|external|10.0.0.1", &[], &[]);
    assert_eq!(bind(&config), vec!["eth0", "external", "10.0.0.1"]);
}

#[test]
fn bind_of_single_entry() {
    let config = config_with("wlan0", &[], &[]);
    assert_eq!(bind(&config), vec!["wlan0"]);
}

#[test]
fn bind_of_empty_string_has_no_entry() {
    let config = config_with("", &[], &[]);
    assert!(bind(&config).is_empty());
    assert!(bind(&Config::empty()).is_empty());
}

#[test]
fn bind_keeps_empty_entries() {
    let config = config_with("a||b|", &[], &[]);
    assert_eq!(bind(&config), vec!["a", "", "b", ""]);
}

#[test]
fn bind_of_a_string_that_is_not_empty_agrees_with_the_standard_library() {
    for text in ["|", "||", "a", "a|b", "|a", "a|", "eth0|external", "ü|ö|"] {
        let config = config_with(text, &[], &[]);
        let expected: Vec<&str> = text.split('|').collect();
        assert_eq!(bind(&config), expected, "bind list {:?}", text);
    }
}

#[test]
fn bind_of_a_lone_separator_is_two_empty_entries() {
    let config = config_with("|", &[], &[]);
    assert_eq!(bind(&config), vec!["", ""]);
}

#[test]
fn alias_present_is_resolved() {
    let config = config_with("", &[("tool", "/opt/tools/tool.sh"), ("doc", "/srv/doc")], &[]);
    assert_eq!(resolve_aliases(&config, &"tool".to_string()), "/opt/tools/tool.sh");
    assert_eq!(resolve_aliases(&config, &"doc".to_string()), "/srv/doc");
}

#[test]
fn alias_absent_passes_through() {
    let config = config_with("", &[("tool", "/opt/tools/tool.sh")], &[]);
    assert_eq!(resolve_aliases(&config, &"./script.sh".to_string()), "./script.sh");
    assert_eq!(resolve_aliases(&config, &"".to_string()), "");
}

#[test]
fn alias_match_is_exact() {
    let config = config_with("", &[("tool", "/opt/tools/tool.sh")], &[]);
    assert_eq!(resolve_aliases(&config, &"Tool".to_string()), "Tool");
    assert_eq!(resolve_aliases(&config, &"tool ".to_string()), "tool ");
    assert_eq!(resolve_aliases(&config, &"too".to_string()), "too");
}

#[test]
fn alias_is_not_resolved_twice() {
    let config = config_with("", &[("a", "b"), ("b", "c")], &[]);
    assert_eq!(resolve_aliases(&config, &"a".to_string()), "b");
}

#[test]
fn alias_table_replaces_an_entry() {
    let mut table = AliasTable::new();
    table.insert("a".to_string(), "1".to_string());
    table.insert("b".to_string(), "2".to_string());
    table.insert("a".to_string(), "3".to_string());
    assert_eq!(table.len(), 2);
    assert_eq!(table.get(&"a".to_string()), Some(&"3".to_string()));
    assert_eq!(table.get(&"b".to_string()), Some(&"2".to_string()));
    assert_eq!(table.get(&"c".to_string()), None);
}

#[test]
fn alias_table_from_pairs_keeps_the_last_pair_of_a_name() {
    let table = AliasTable::from_pairs(vec![
        ("a".to_string(), "1".to_string()),
        ("b".to_string(), "2".to_string()),
        ("a".to_string(), "3".to_string()),
    ]);
    assert_eq!(table.len(), 2);
    assert_eq!(table.get(&"a".to_string()), Some(&"3".to_string()));
    assert_eq!(table.get(&"b".to_string()), Some(&"2".to_string()));
}

#[test]
fn alias_table_goes_to_pairs_and_back() {
    let table = AliasTable::from_pairs(vec![
        ("x".to_string(), "/x".to_string()),
        ("y".to_string(), "/y".to_string()),
    ]);
    let mut pairs = table.pairs();
    pairs.sort();
    assert_eq!(
        pairs,
        vec![("x".to_string(), "/x".to_string()), ("y".to_string(), "/y".to_string())]
    );
    let again = AliasTable::from_pairs(table.pairs());
    assert_eq!(again.len(), 2);
    assert_eq!(again.get(&"y".to_string()), Some(&"/y".to_string()));
}

#[test]
fn parsed_config_is_used_without_warning() {
    let config = config_with("eth0", &[("a", "b")], &[8000]);
    let (config, warning) = config_or_default(LoadedConfig::Parsed(config));
    assert_eq!(warning, None);
    assert_eq!(config.bind, "eth0");
    assert_eq!(config.fallback_ports, vec![8000]);
    assert_eq!(config.alias.get(&"a".to_string()), Some(&"b".to_string()));
}

#[test]
fn missing_config_gives_defaults_and_a_warning() {
    let (config, warning) = config_or_default(LoadedConfig::Missing);
    assert_eq!(warning, Some("Could not open config file"));
    assert_eq!(config.bind, "");
    assert_eq!(config.alias.len(), 0);
    assert!(config.fallback_ports.is_empty());
}

#[test]
fn malformed_config_gives_defaults_and_a_warning() {
    let (config, warning) = config_or_default(LoadedConfig::Malformed);
    assert_eq!(warning, Some("Could not parse config file"));
    assert_eq!(config.bind, "");
    assert_eq!(config.alias.len(), 0);
    assert!(config.fallback_ports.is_empty());
}
