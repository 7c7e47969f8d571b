use avream_helper::{normalize_param_token, parse_bool_token, split_param_csv};

#[test]
fn test_split_param_csv_strips_quotes_and_spaces() {
    let vals = split_param_csv(" 10 , \"AVream Camera\" , 1 ");
    assert_eq!(vals, vec!["10", "AVream Camera", "1"]);
}

#[test]
fn test_parse_bool_token_variants() {
    assert_eq!(parse_bool_token("1"), Some(true));
    assert_eq!(parse_bool_token("Y"), Some(true));
    assert_eq!(parse_bool_token("true"), Some(true));
    assert_eq!(parse_bool_token("0"), Some(false));
    assert_eq!(parse_bool_token("N"), Some(false));
    assert_eq!(parse_bool_token("false"), Some(false));
    assert_eq!(parse_bool_token("maybe"), None);
}

#[test]
fn test_parse_bool_token_trims_and_more_spellings() {
    assert_eq!(parse_bool_token("  On \n"), Some(true));
    assert_eq!(parse_bool_token("YES"), Some(true));
    assert_eq!(parse_bool_token("off"), Some(false));
    assert_eq!(parse_bool_token("No"), Some(false));
    assert_eq!(parse_bool_token(""), None);
    assert_eq!(parse_bool_token("2"), None);
}

#[test]
fn test_normalize_param_token() {
    assert_eq!(normalize_param_token("  hello "), "hello");
    assert_eq!(normalize_param_token("\"quoted label\""), "quoted label");
    assert_eq!(normalize_param_token(" 'single' "), "single");
    assert_eq!(normalize_param_token("\" padded \""), "padded");
    assert_eq!(normalize_param_token("plain"), "plain");
    assert_eq!(normalize_param_token(""), "");
}

#[test]
fn test_split_param_csv_drops_empty_tokens() {
    let vals = split_param_csv("a,,b, ,c");
    assert_eq!(vals, vec!["a", "b", "c"]);
    let empty = split_param_csv("   ");
    assert!(empty.is_empty());
    let one = split_param_csv("10\n");
    assert_eq!(one, vec!["10"]);
}
