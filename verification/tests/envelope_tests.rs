use eleven_tts::envelope::parse_error_body;

#[test]
fn plain_envelope_parses() {
    let body = br#"{"error":{"message":"invalid key"}}"#.to_vec();
    let r = parse_error_body(&body).unwrap();
    assert_eq!(r.error.message, "invalid key");
    assert_eq!(r.error.error_type, None);
    assert_eq!(r.error.code, None);
}

#[test]
fn envelope_with_type_and_code_parses() {
    let body = br#"{"error":{"message":"quota","type":"limit","code":"429x"}}"#.to_vec();
    let r = parse_error_body(&body).unwrap();
    assert_eq!(r.error.message, "quota");
    assert_eq!(r.error.error_type, Some("limit".to_string()));
    assert_eq!(r.error.code, Some("429x".to_string()));
}

#[test]
fn member_order_does_not_matter() {
    let body = br#"{"error":{"code":"c1","message":"m","type":"t"}}"#.to_vec();
    let r = parse_error_body(&body).unwrap();
    assert_eq!(r.error.message, "m");
    assert_eq!(r.error.error_type, Some("t".to_string()));
    assert_eq!(r.error.code, Some("c1".to_string()));
}

#[test]
fn null_type_and_code_read_as_absent() {
    let body = br#"{"error":{"message":"m","type":null,"code":null}}"#.to_vec();
    let r = parse_error_body(&body).unwrap();
    assert_eq!(r.error.message, "m");
    assert_eq!(r.error.error_type, None);
    assert_eq!(r.error.code, None);
}

#[test]
fn whitespace_between_tokens_is_ignored() {
    let body = b" {\n  \"error\" : {\r\n\t\"message\" :  \"spaced\" }\n } ".to_vec();
    let r = parse_error_body(&body).unwrap();
    assert_eq!(r.error.message, "spaced");
}

#[test]
fn escapes_in_message_are_decoded() {
    let body = br#"{"error":{"message":"line\none \"two\" \\ \/ \t"}}"#.to_vec();
    let r = parse_error_body(&body).unwrap();
    assert_eq!(r.error.message, "line\none \"two\" \\ / \t");
}

#[test]
fn non_json_body_is_no_envelope() {
    assert!(parse_error_body(&b"oops".to_vec()).is_none());
}

#[test]
fn envelope_without_message_is_rejected() {
    assert!(parse_error_body(&br#"{"error":{"type":"t"}}"#.to_vec()).is_none());
}

#[test]
fn empty_inner_object_is_rejected() {
    assert!(parse_error_body(&br#"{"error":{}}"#.to_vec()).is_none());
}

#[test]
fn unknown_member_is_rejected() {
    assert!(parse_error_body(&br#"{"error":{"message":"m","extra":1}}"#.to_vec()).is_none());
}

#[test]
fn duplicate_member_is_rejected() {
    assert!(parse_error_body(&br#"{"error":{"message":"a","message":"b"}}"#.to_vec()).is_none());
}

#[test]
fn null_message_is_rejected() {
    assert!(parse_error_body(&br#"{"error":{"message":null}}"#.to_vec()).is_none());
}

#[test]
fn trailing_garbage_is_rejected() {
    assert!(parse_error_body(&br#"{"error":{"message":"m"}} extra"#.to_vec()).is_none());
}

#[test]
fn unterminated_string_is_rejected() {
    assert!(parse_error_body(&br#"{"error":{"message":"m"#.to_vec()).is_none());
}

#[test]
fn empty_body_is_no_envelope() {
    assert!(parse_error_body(&Vec::new()).is_none());
}

#[test]
fn unicode_message_survives() {
    let body = "{\"error\":{\"message\":\"über ☂\"}}".as_bytes().to_vec();
    let r = parse_error_body(&body).unwrap();
    assert_eq!(r.error.message, "über ☂");
}
