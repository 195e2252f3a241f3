use substrate_host::cli::run_cmd::{
    check_node_name, is_node_name_valid, judge_node_name, INVALID_CHARS, INVALID_PATTERNS,
    NODE_NAME_MAX_LENGTH,
};

#[test]
fn tests_node_name_good() {
    assert!(is_node_name_valid("short name").is_ok());
    assert!(is_node_name_valid("www").is_ok());
    assert!(is_node_name_valid("aawww").is_ok());
    assert!(is_node_name_valid("wwwaa").is_ok());
    assert!(is_node_name_valid("www aa").is_ok());
}

#[test]
fn tests_node_name_bad() {
    assert!(is_node_name_valid("").is_err());
    assert!(is_node_name_valid(
        "very very long names are really not very cool for the ui at all, really they're not"
    )
    .is_err());
    assert!(is_node_name_valid("Dots.not.Ok").is_err());
    // NOTE: the urls below don't include a domain otherwise
    // they'd get filtered for including a `.`
    assert!(is_node_name_valid("http://visitme").is_err());
    assert!(is_node_name_valid("http:/visitme").is_err());
    assert!(is_node_name_valid("http:visitme").is_err());
    assert!(is_node_name_valid("https://visitme").is_err());
    assert!(is_node_name_valid("https:/visitme").is_err());
    assert!(is_node_name_valid("https:visitme").is_err());
    assert!(is_node_name_valid("www.visit.me").is_err());
    assert!(is_node_name_valid("www.visit").is_err());
    assert!(is_node_name_valid("hello\\world").is_err());
    assert!(is_node_name_valid("visit.www").is_err());
    assert!(is_node_name_valid("email@domain").is_err());
}

#[test]
fn node_name_messages_name_the_broken_rule() {
    assert_eq!(is_node_name_valid(""), Err("Node name cannot be empty"));
    assert_eq!(is_node_name_valid(&"a".repeat(64)), Err("Node name too long"));
    assert_eq!(
        is_node_name_valid("email@domain"),
        Err("Node name should not contain invalid chars such as '.' and '@'")
    );
    assert_eq!(
        is_node_name_valid("back\\slash"),
        Err("Node name should not contain invalid chars such as '.' and '@'")
    );
    assert_eq!(is_node_name_valid("https:visitme"), Err("Node name should not contain urls"));
    assert_eq!(is_node_name_valid("node-7"), Ok(()));
}

#[test]
fn node_name_first_broken_rule_wins() {
    // Too long and full of dots: the length is judged first.
    assert_eq!(is_node_name_valid(&".".repeat(80)), Err("Node name too long"));
    // A url with a dot: the characters are judged before the url.
    assert_eq!(
        is_node_name_valid("http://visit.me"),
        Err("Node name should not contain invalid chars such as '.' and '@'")
    );
}

#[test]
fn node_name_length_counts_characters() {
    assert_eq!(NODE_NAME_MAX_LENGTH, 64);
    assert_eq!(is_node_name_valid(&"a".repeat(63)), Ok(()));
    assert_eq!(is_node_name_valid(&"a".repeat(64)), Err("Node name too long"));
    // 63 characters of two bytes each are 126 bytes, and still a valid name.
    assert_eq!(is_node_name_valid(&"é".repeat(63)), Ok(()));
    assert_eq!(is_node_name_valid(&"é".repeat(64)), Err("Node name too long"));
}

#[test]
fn node_name_url_only_at_the_start() {
    assert_eq!(is_node_name_valid("my http: node"), Ok(()));
    assert_eq!(is_node_name_valid("httpx:"), Ok(()));
    assert_eq!(is_node_name_valid("http:"), Err("Node name should not contain urls"));
    assert_eq!(is_node_name_valid("https:"), Err("Node name should not contain urls"));
    assert_eq!(is_node_name_valid("HTTP:upper"), Ok(()));
}

#[test]
fn check_node_name_agrees_with_is_node_name_valid() {
    for name in ["", "short name", "Dots.not.Ok", "http:visitme", "email@domain", "www aa"] {
        assert_eq!(check_node_name(name), Some(is_node_name_valid(name)));
    }
    assert_eq!(check_node_name(&"x".repeat(100)), Some(Err("Node name too long")));
}

#[test]
fn judge_node_name_follows_the_searches() {
    assert_eq!(judge_node_name("plain", false, false), Ok(()));
    assert_eq!(
        judge_node_name("plain", true, false),
        Err("Node name should not contain invalid chars such as '.' and '@'")
    );
    assert_eq!(judge_node_name("plain", false, true), Err("Node name should not contain urls"));
    assert_eq!(
        judge_node_name("plain", true, true),
        Err("Node name should not contain invalid chars such as '.' and '@'")
    );
    assert_eq!(judge_node_name("", true, true), Err("Node name cannot be empty"));
    assert_eq!(judge_node_name(&"b".repeat(64), true, true), Err("Node name too long"));
}

#[test]
fn node_name_patterns_are_the_documented_ones() {
    assert_eq!(INVALID_CHARS, r"[\\.@]");
    assert_eq!(INVALID_PATTERNS, r"^https?:");
}
