use prowl::decode::{parse_int, parse_response, parse_token_response};
use prowl::error::ProwlError;

#[test]
fn test_parse_success() {
    let xml = r#"<?xml version="1.0" encoding="UTF-8"?>
<prowl>
    <success code="200" remaining="999" resetdate="1234567890"/>
</prowl>"#;
    let response = parse_response(xml).unwrap();
    assert!(response.success);
    assert_eq!(response.code, 200);
    assert_eq!(response.remaining, Some(999));
}

#[test]
fn test_parse_error() {
    let xml = r#"<?xml version="1.0" encoding="UTF-8"?>
<prowl>
    <error code="401">Invalid API key</error>
</prowl>"#;
    let err = parse_response(xml).unwrap_err();
    match err {
        ProwlError::Api { code, message } => {
            assert_eq!(code, 401);
            assert!(message.contains("Invalid API key"));
        }
        _ => panic!("Expected Api error"),
    }
}

#[test]
fn test_parse_token_response() {
    let xml = r#"<?xml version="1.0" encoding="UTF-8"?>
<prowl>
    <retrieve token="abc123" url="https://www.prowlapp.com/retrieve.php?token=abc123"/>
</prowl>"#;
    let response = parse_token_response(xml).unwrap();
    assert_eq!(response.token, Some("abc123".to_string()));
    assert!(response.token_url.is_some());
}

#[test]
fn test_parse_apikey_response() {
    let xml = r#"<?xml version="1.0" encoding="UTF-8"?>
<prowl>
    <retrieve apikey="xyz789"/>
</prowl>"#;
    let response = parse_token_response(xml).unwrap();
    assert_eq!(response.apikey, Some("xyz789".to_string()));
}

#[test]
fn success_record_is_complete() {
    let r = parse_response(
        r#"<prowl><success code="200" remaining="999" resetdate="1234567890"/></prowl>"#,
    )
    .unwrap();
    assert!(r.success);
    assert_eq!(r.code, 200);
    assert_eq!(r.remaining, Some(999));
    assert_eq!(r.reset_date, Some("1234567890".to_string()));
    assert_eq!(r.token, None);
    assert_eq!(r.token_url, None);
    assert_eq!(r.apikey, None);
    assert_eq!(r.error_message, None);
}

#[test]
fn success_without_optional_attributes() {
    let r = parse_response("<prowl><success code='200'/></prowl>").unwrap();
    assert_eq!(r.code, 200);
    assert_eq!(r.remaining, None);
    assert_eq!(r.reset_date, None);
}

#[test]
fn api_error_maps_to_exit_two() {
    let e = parse_response(r#"<prowl><error code="401">Invalid API key</error></prowl>"#)
        .unwrap_err();
    assert!(matches!(&e, ProwlError::Api { code: 401, message } if message == "Invalid API key"));
    assert_eq!(e.exit_code(), 2);
}

#[test]
fn error_without_text_uses_standard_message() {
    let e = parse_response(r#"<prowl><error code="406"/></prowl>"#).unwrap_err();
    assert!(
        matches!(&e, ProwlError::Api { code: 406, message } if message == "Not acceptable - rate limit exceeded")
    );
    assert_eq!(e.exit_code(), 3);
    let e = parse_response(r#"<prowl><error code="418"></error></prowl>"#).unwrap_err();
    assert!(matches!(&e, ProwlError::Api { code: 418, message } if message == "Unknown error code: 418"));
    assert_eq!(e.exit_code(), 1);
}

#[test]
fn conflict_in_send_mode_is_a_plain_api_error() {
    let e = parse_response(r#"<prowl><error code="409"/></prowl>"#).unwrap_err();
    assert!(matches!(
        &e,
        ProwlError::Api { code: 409, message } if message == "Not approved - token has not been approved yet"
    ));
    assert_eq!(e.exit_code(), 4);
}

#[test]
fn token_and_url_are_retrieved() {
    let r = parse_token_response(
        r#"<prowl><retrieve token="abc123" url="https://example/retrieve?token=abc123"/></prowl>"#,
    )
    .unwrap();
    assert_eq!(r.token, Some("abc123".to_string()));
    assert_eq!(r.token_url, Some("https://example/retrieve?token=abc123".to_string()));
    assert_eq!(r.apikey, None);
    assert_eq!(r.code, 200);
}

#[test]
fn apikey_is_retrieved() {
    let r = parse_token_response(r#"<prowl><retrieve apikey="xyz789"/></prowl>"#).unwrap();
    assert_eq!(r.apikey, Some("xyz789".to_string()));
    assert_eq!(r.token, None);
    assert_eq!(r.token_url, None);
}

#[test]
fn token_without_url_falls_back_to_apikey() {
    let r = parse_token_response(r#"<prowl><retrieve token="t" apikey="k"/></prowl>"#).unwrap();
    assert_eq!(r.apikey, Some("k".to_string()));
    assert_eq!(r.token, None);
}

#[test]
fn empty_retrieve_is_an_api_error() {
    let e = parse_token_response("<prowl><retrieve/></prowl>").unwrap_err();
    assert!(
        matches!(&e, ProwlError::Api { code: 500, message } if message == "Invalid retrieve response")
    );
}

#[test]
fn unapproved_token_is_distinguished() {
    let e = parse_token_response(r#"<prowl><error code="409"/></prowl>"#).unwrap_err();
    assert!(matches!(e, ProwlError::TokenNotApproved));
    assert_eq!(e.exit_code(), 4);
}

#[test]
fn other_errors_in_token_mode() {
    let e = parse_token_response(r#"<prowl><error code="401">bad</error></prowl>"#).unwrap_err();
    assert!(matches!(&e, ProwlError::Api { code: 401, message } if message == "bad"));
}

#[test]
fn retrieve_is_refused_in_send_mode() {
    let e = parse_response(r#"<prowl><retrieve apikey="xyz789"/></prowl>"#).unwrap_err();
    assert!(matches!(e, ProwlError::XmlParse(_)));
}

#[test]
fn malformed_documents_are_refused() {
    for xml in [
        "",
        "not xml",
        "<prowl>",
        "<prowl><success code=\"200\"/>",
        "<prowl><success code=\"abc\"/></prowl>",
        "<prowl><success remaining=\"1\"/></prowl>",
        "<prowl><success code=\"200\" remaining=\"x\"/></prowl>",
        "<prowl><error code=\"401\">x</errors></prowl>",
        "<prowl><success code=\"200\"/></other>",
        "<prowl><success code=\"200\"/><success code=\"200\"/></prowl>",
        "<prowl><success code=\"200\"/></prowl> trailing",
    ] {
        assert!(matches!(parse_response(xml), Err(ProwlError::XmlParse(_))), "{xml}");
        assert!(matches!(parse_token_response(xml), Err(ProwlError::XmlParse(_))), "{xml}");
    }
}

#[test]
fn integers_are_read_with_sign_and_range() {
    assert_eq!(parse_int("0"), Some(0));
    assert_eq!(parse_int("+17"), Some(17));
    assert_eq!(parse_int("-2147483648"), Some(i32::MIN));
    assert_eq!(parse_int("2147483647"), Some(i32::MAX));
    assert_eq!(parse_int("2147483648"), None);
    assert_eq!(parse_int("-2147483649"), None);
    assert_eq!(parse_int("99999999999999999999"), None);
    assert_eq!(parse_int("-"), None);
    assert_eq!(parse_int(""), None);
    assert_eq!(parse_int("12a"), None);
}

#[test]
fn references_are_resolved() {
    let r = parse_token_response(
        r#"<prowl><retrieve token="t&amp;1" url="https://x/?a=1&amp;b=&#50;"/></prowl>"#,
    )
    .unwrap();
    assert_eq!(r.token, Some("t&1".to_string()));
    assert_eq!(r.token_url, Some("https://x/?a=1&b=2".to_string()));
    let e = parse_response(r#"<prowl><error code="400">a &lt; b</error></prowl>"#).unwrap_err();
    assert!(matches!(&e, ProwlError::Api { code: 400, message } if message == "a < b"));
}

#[test]
fn broken_references_are_refused() {
    let e = parse_response(r#"<prowl><error code="400">a &bogus; b</error></prowl>"#);
    assert!(matches!(e, Err(ProwlError::XmlParse(_))));
    let e = parse_token_response(r#"<prowl><retrieve apikey="x&y"/></prowl>"#);
    assert!(matches!(e, Err(ProwlError::XmlParse(_))));
}

#[test]
fn comments_are_skipped() {
    let r = parse_response(
        "<?xml version=\"1.0\"?>\n<!-- a --><prowl><!-- x --><success code=\"200\"/>\n<!-- y --></prowl><!-- z -->",
    )
    .unwrap();
    assert_eq!(r.code, 200);
    let r = parse_response("<prowl><!-- x --><success code=\"200\"/></prowl>").unwrap();
    assert_eq!(r.code, 200);
    assert!(matches!(
        parse_response("<prowl><!-- x <success code=\"200\"/></prowl>"),
        Err(ProwlError::XmlParse(_))
    ));
}

#[test]
fn cdata_is_text() {
    let e = parse_response("<prowl><error code=\"401\"><![CDATA[a <b> &amp; c]]></error></prowl>")
        .unwrap_err();
    assert!(matches!(&e, ProwlError::Api { code: 401, message } if message == "a <b> &amp; c"));
}

#[test]
fn repeated_attributes_are_refused() {
    let e = parse_response(r#"<prowl><success code="200" code="201"/></prowl>"#);
    assert!(matches!(e, Err(ProwlError::XmlParse(_))));
}
