use job_supervisor::utils::{
    decode_html_entities, get_original_image_sizes, is_valid_timestamp, parse_replace_rule, parse_url,
    sanitize_path,
};

#[test]
fn decodes_each_entity() {
    assert_eq!(decode_html_entities("a &amp; b"), "a & b");
    assert_eq!(decode_html_entities("&lt;i&gt;"), "<i>");
    assert_eq!(decode_html_entities("&quot;x&quot; &#39;y&apos;"), "\"x\" 'y'");
    assert_eq!(decode_html_entities("a&nbsp;b"), "a b");
    assert_eq!(decode_html_entities("plain"), "plain");
}

#[test]
fn decodes_escaped_ampersand_once() {
    assert_eq!(decode_html_entities("&amp;lt;"), "&lt;");
}

#[test]
fn timestamps_need_three_parts() {
    assert!(is_valid_timestamp(&Some("00:01:30".to_string())));
    assert!(is_valid_timestamp(&Some("::".to_string())));
    assert!(!is_valid_timestamp(&Some("01:30".to_string())));
    assert!(!is_valid_timestamp(&Some("".to_string())));
    assert!(!is_valid_timestamp(&None));
}

#[test]
fn replace_rule_has_one_comma() {
    assert_eq!(parse_replace_rule("asd-,"), Some(("asd-".to_string(), "".to_string())));
    assert_eq!(parse_replace_rule("a,b"), Some(("a".to_string(), "b".to_string())));
    assert_eq!(parse_replace_rule("ab"), None);
    assert_eq!(parse_replace_rule("a,b,c"), None);
}

#[test]
fn sanitize_refuses_shell_characters() {
    assert_eq!(sanitize_path("C:\\videos\\a.mkv"), Ok("C:\\videos\\a.mkv".to_string()));
    for bad in ["a;b", "a&b", "a|b", "a`b"] {
        assert_eq!(sanitize_path(bad), Err("Unsafe characters detected in file path.".to_string()));
    }
}

#[test]
fn original_image_size() {
    assert_eq!(
        get_original_image_sizes(Some("https://img/t/p/w780/x.jpg".to_string())),
        Some("https://img/t/p/original/x.jpg".to_string())
    );
    assert_eq!(get_original_image_sizes(Some("no-size".to_string())), Some("no-size".to_string()));
    assert_eq!(get_original_image_sizes(None), None);
}

#[test]
fn url_resizing_part_removed() {
    assert_eq!(parse_url("https://m.media/images/M/abc@._V1_QL75_.jpg"), "https://m.media/images/M/abc@.jpg");
    assert_eq!(parse_url("https://x/y.jpg"), "https://x/y.jpg");
    assert_eq!(parse_url("a@.b"), "a@.b");
}
