use wezlix::envfile::parse_env_file;
use wezlix::launcher::{build_launch_plan, key_is_set, merged_env};

fn pair(k: &str, v: &str) -> (String, String) {
    (k.to_owned(), v.to_owned())
}

#[test]
fn merged_env_keeps_and_overrides() {
    let inherited = vec![pair("PATH", "/bin"), pair("LANG", "C")];
    let pairs = vec![pair("LANG", "en"), pair("EDITOR", "hx")];
    let merged = merged_env(&inherited, &pairs);
    assert_eq!(merged, vec![pair("PATH", "/bin"), pair("LANG", "en"), pair("EDITOR", "hx")]);
}

#[test]
fn merged_env_without_pairs_is_the_inherited_environment() {
    let inherited = vec![pair("PATH", "/bin"), pair("HOME", "/home/u")];
    assert_eq!(merged_env(&inherited, &Vec::new()), inherited);
}

#[test]
fn merged_env_parsed_from_text() {
    let pairs = parse_env_file("EDITOR = \"hx\"\n").unwrap();
    let inherited = vec![pair("TERM", "xterm")];
    let merged = merged_env(&inherited, &pairs);
    assert_eq!(merged, vec![pair("TERM", "xterm"), pair("EDITOR", "hx")]);
}

#[test]
fn key_lookup_in_pairs() {
    let pairs = vec![pair("LANG", "en")];
    assert!(key_is_set(&pairs, &"LANG".to_owned()));
    assert!(!key_is_set(&pairs, &"PATH".to_owned()));
}

#[test]
fn flat_table_parses_to_its_pairs() {
    let text = "EDITOR = \"hx\"\nLANG = \"C\"\n";
    let mut pairs = parse_env_file(text).unwrap();
    pairs.sort();
    assert_eq!(
        pairs,
        vec![("EDITOR".to_owned(), "hx".to_owned()), ("LANG".to_owned(), "C".to_owned())]
    );
}

#[test]
fn empty_text_parses_to_no_pairs() {
    assert!(parse_env_file("").unwrap().is_empty());
}

#[test]
fn malformed_text_is_an_error() {
    let err = parse_env_file("this is not an environment file").unwrap_err();
    assert!(!err.message.is_empty());
}

#[test]
fn non_string_value_is_an_error() {
    assert!(parse_env_file("PORT = 8080\n").is_err());
}

#[test]
fn parsed_pairs_reach_the_launch_plan() {
    let text = "WEZLIX_SESSION = \"main\"\n";
    let pairs = parse_env_file(text).unwrap();
    let plan = build_launch_plan(
        "/opt/wezlix",
        "/c/w.lua".to_owned(),
        "/c/h.toml".to_owned(),
        "/work".to_owned(),
        Vec::new(),
        pairs,
    );
    assert_eq!(plan.env_pairs, vec![("WEZLIX_SESSION".to_owned(), "main".to_owned())]);
}
