use edge_router::headers::{lower_char_exec, names_match, HeaderMap};

#[test]
fn lower_char_folds_ascii_uppercase() {
    assert_eq!(lower_char_exec('A'), 'a');
    assert_eq!(lower_char_exec('Z'), 'z');
    assert_eq!(lower_char_exec('M'), 'm');
}

#[test]
fn lower_char_leaves_other_characters() {
    assert_eq!(lower_char_exec('a'), 'a');
    assert_eq!(lower_char_exec('-'), '-');
    assert_eq!(lower_char_exec('0'), '0');
    assert_eq!(lower_char_exec('é'), 'é');
}

#[test]
fn names_match_ignores_ascii_case() {
    assert!(names_match("Content-Type", "content-type"));
    assert!(names_match("HOST", "host"));
    assert!(names_match("User-Agent", "USER-AGENT"));
}

#[test]
fn names_match_rejects_different_names() {
    assert!(!names_match("Content-Type", "Content-Length"));
    assert!(!names_match("Pragma", "Expires"));
    assert!(!names_match("Host", "Host "));
}

#[test]
fn get_header_is_case_insensitive() {
    let mut h = HeaderMap::new();
    h.set_header("Host", "example.org");
    assert_eq!(h.get_header("host"), Some("example.org".to_string()));
    assert_eq!(h.get_header("HOST"), Some("example.org".to_string()));
    assert_eq!(h.get_header("hos"), None);
}

#[test]
fn set_header_overwrites_all_matching_entries() {
    let mut h = HeaderMap::new();
    h.set_header("X-Thing", "one");
    h.set_header("x-thing", "two");
    assert_eq!(h.get_header("X-Thing"), Some("two".to_string()));
    assert_eq!(h.entries.len(), 1);
}

#[test]
fn set_header_keeps_unrelated_entries() {
    let mut h = HeaderMap::new();
    h.set_header("Accept", "*/*");
    h.set_header("Host", "example.org");
    assert_eq!(h.get_header("Accept"), Some("*/*".to_string()));
    assert_eq!(h.entries.len(), 2);
}

#[test]
fn get_header_returns_first_match() {
    let mut h = HeaderMap::new();
    // Build duplicates directly; set_header would collapse them.
    h.entries.push(edge_router::headers::Header {
        name: "X-Dup".to_string(),
        value: "first".to_string(),
    });
    h.entries.push(edge_router::headers::Header {
        name: "x-dup".to_string(),
        value: "second".to_string(),
    });
    assert_eq!(h.get_header("x-DUP"), Some("first".to_string()));
}
