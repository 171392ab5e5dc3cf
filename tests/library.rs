use prowl::cli::{Priority, RegisterArgs, SendArgs};
use prowl::config::{Config, ResolvedConfig};
use prowl::error::ProwlError;
use prowl::output::{mask_key, shown_value};
use prowl::requests::{
    build_register_request, build_send_request, build_token_request, build_verify_request,
    combine_keys, reads_stdin,
};
use prowl::text::int_text;
use prowl::types::{RegisterRequest, SendRequest, TokenRequest, VerifyRequest};

fn request() -> SendRequest {
    SendRequest {
        apikey: "k".to_string(),
        application: "app".to_string(),
        event: "Alert".to_string(),
        description: "hello".to_string(),
        priority: 0,
        url: None,
        providerkey: None,
    }
}

fn resolved(api_key: Option<&str>, provider_key: Option<&str>) -> ResolvedConfig {
    ResolvedConfig {
        api_key: api_key.map(|s| s.to_string()),
        provider_key: provider_key.map(|s| s.to_string()),
        application: "prowl-cli".to_string(),
    }
}

#[test]
fn keys_are_joined_in_order_without_dedup() {
    let extra = vec!["b".to_string(), "a".to_string(), "b".to_string()];
    assert_eq!(combine_keys("a", &extra), "a,b,a,b");
    assert_eq!(combine_keys("only", &Vec::new()), "only");
}

#[test]
fn send_request_takes_every_source() {
    let args = SendArgs {
        message: "hi".to_string(),
        event: "Build".to_string(),
        priority: Priority::High,
        url: Some("https://x".to_string()),
        to: vec!["k2".to_string(), "k3".to_string()],
        dry_run: false,
    };
    let config = resolved(Some("k1"), Some("p"));
    let r = build_send_request(&args, &config, "body".to_string()).unwrap();
    assert_eq!(r.apikey, "k1,k2,k3");
    assert_eq!(r.application, "prowl-cli");
    assert_eq!(r.event, "Build");
    assert_eq!(r.description, "body");
    assert_eq!(r.priority, 1);
    assert_eq!(r.url, Some("https://x".to_string()));
    assert_eq!(r.providerkey, Some("p".to_string()));
    let missing = build_send_request(&args, &resolved(None, None), String::new()).unwrap_err();
    assert!(matches!(missing, ProwlError::MissingApiKey));
    assert_eq!(missing.exit_code(), 2);
}

#[test]
fn other_requests_need_their_keys() {
    let v = build_verify_request(&resolved(Some("k"), Some("p"))).unwrap();
    assert_eq!(v.apikey, "k");
    assert_eq!(v.providerkey, Some("p".to_string()));
    assert!(matches!(build_verify_request(&resolved(None, None)), Err(ProwlError::MissingApiKey)));
    let t = build_token_request(&resolved(None, Some("p"))).unwrap();
    assert_eq!(t.providerkey, "p");
    let e = build_token_request(&resolved(Some("k"), None)).unwrap_err();
    assert!(matches!(e, ProwlError::MissingProviderKey));
    assert_eq!(e.exit_code(), 2);
    let args = RegisterArgs { token: "tok".to_string() };
    let g = build_register_request(&args, &resolved(None, Some("p"))).unwrap();
    assert_eq!(g.providerkey, "p");
    assert_eq!(g.token, "tok");
}

#[test]
fn description_over_limit_is_refused() {
    let mut r = request();
    r.description = "x".repeat(10001);
    assert!(matches!(
        r.validate(),
        Err(ProwlError::MessageTooLong { length: 10001, max: 10000 })
    ));
    assert!(matches!(r.checked_form(), Err(ProwlError::MessageTooLong { .. })));
    r.description = "x".repeat(10000);
    assert!(r.validate().is_ok());
    r.description = "é".repeat(5001);
    assert!(matches!(
        r.validate(),
        Err(ProwlError::MessageTooLong { length: 10002, max: 10000 })
    ));
}

#[test]
fn other_limits_are_refused() {
    let mut r = request();
    r.event = "e".repeat(1025);
    assert!(matches!(r.validate(), Err(ProwlError::MessageTooLong { length: 1025, max: 1024 })));
    let mut r = request();
    r.application = "a".repeat(257);
    assert!(matches!(r.validate(), Err(ProwlError::MessageTooLong { length: 257, max: 256 })));
    let mut r = request();
    r.url = Some("u".repeat(513));
    assert!(matches!(r.validate(), Err(ProwlError::MessageTooLong { length: 513, max: 512 })));
    r.url = Some("u".repeat(512));
    assert!(r.validate().is_ok());
}

#[test]
fn event_is_checked_before_description() {
    let mut r = request();
    r.event = "e".repeat(2000);
    r.description = "d".repeat(20000);
    assert!(matches!(r.validate(), Err(ProwlError::MessageTooLong { length: 2000, max: 1024 })));
}

#[test]
fn priority_domain_is_exact() {
    for p in i8::MIN..=i8::MAX {
        let mut r = request();
        r.priority = p;
        if (-2..=2).contains(&p) {
            assert!(r.validate().is_ok());
        } else {
            assert!(matches!(r.validate(), Err(ProwlError::InvalidPriority)));
        }
    }
    let levels = [
        (Priority::VeryLow, -2),
        (Priority::Moderate, -1),
        (Priority::Normal, 0),
        (Priority::High, 1),
        (Priority::Emergency, 2),
    ];
    for (level, value) in levels {
        assert_eq!(level.as_i8(), value);
    }
}

#[test]
fn form_lists_fields_in_order() {
    let mut r = request();
    r.priority = -2;
    r.url = Some("https://u".to_string());
    r.providerkey = Some("pk".to_string());
    let form = r.checked_form().unwrap();
    let names: Vec<&str> = form.iter().map(|(n, _)| n.as_str()).collect();
    assert_eq!(
        names,
        vec!["apikey", "application", "event", "description", "priority", "url", "providerkey"]
    );
    assert_eq!(form[4].1, "-2");
    assert_eq!(request().form().len(), 5);
}

#[test]
fn request_addresses() {
    let v = VerifyRequest { apikey: "k".to_string(), providerkey: None };
    assert_eq!(v.url(), "https://api.prowlapp.com/publicapi/verify?apikey=k");
    let v = VerifyRequest { apikey: "k".to_string(), providerkey: Some("p".to_string()) };
    assert_eq!(v.url(), "https://api.prowlapp.com/publicapi/verify?apikey=k&providerkey=p");
    let t = TokenRequest { providerkey: "p".to_string() };
    assert_eq!(t.url(), "https://api.prowlapp.com/publicapi/retrieve/token?providerkey=p");
    let g = RegisterRequest { providerkey: "p".to_string(), token: "t".to_string() };
    assert_eq!(
        g.url(),
        "https://api.prowlapp.com/publicapi/retrieve/apikey?providerkey=p&token=t"
    );
}

#[test]
fn explicit_values_win() {
    let env = Config {
        api_key: Some("env-key".to_string()),
        provider_key: Some("env-pk".to_string()),
        application: Some("env-app".to_string()),
    };
    let file = Config {
        api_key: Some("file-key".to_string()),
        provider_key: Some("file-pk".to_string()),
        application: Some("file-app".to_string()),
    };
    let r = ResolvedConfig::resolve(Some("cli-key"), Some("cli-pk"), Some("cli-app"), &env, &file);
    assert_eq!(r.api_key, Some("cli-key".to_string()));
    assert_eq!(r.provider_key, Some("cli-pk".to_string()));
    assert_eq!(r.application, "cli-app");
    let r = ResolvedConfig::resolve(None, None, None, &env, &file);
    assert_eq!(r.api_key, Some("env-key".to_string()));
    assert_eq!(r.provider_key, Some("env-pk".to_string()));
    assert_eq!(r.application, "env-app");
    let r = ResolvedConfig::resolve(None, None, None, &Config::default(), &file);
    assert_eq!(r.api_key, Some("file-key".to_string()));
    assert_eq!(r.provider_key, Some("file-pk".to_string()));
    assert_eq!(r.application, "file-app");
    let r = ResolvedConfig::resolve(None, None, None, &Config::default(), &Config::default());
    assert_eq!(r.api_key, None);
    assert_eq!(r.provider_key, None);
    assert_eq!(r.application, "prowl-cli");
    assert!(matches!(r.require_api_key(), Err(ProwlError::MissingApiKey)));
    assert!(matches!(r.require_provider_key(), Err(ProwlError::MissingProviderKey)));
}

#[test]
fn config_set_accepts_three_keys() {
    let mut c = Config::initial();
    assert_eq!(c.application, Some("prowl-cli".to_string()));
    assert!(c.set("api_key", "a").is_ok());
    assert!(c.set("provider_key", "p").is_ok());
    assert!(c.set("application", "x").is_ok());
    assert_eq!(c.api_key, Some("a".to_string()));
    assert_eq!(c.provider_key, Some("p".to_string()));
    assert_eq!(c.application, Some("x".to_string()));
}

#[test]
fn config_set_refuses_unknown_key() {
    let mut c = Config::default();
    let e = c.set("apikey", "v").unwrap_err();
    match &e {
        ProwlError::Config(m) => assert_eq!(
            m,
            "Unknown config key: apikey. Valid keys are: api_key, provider_key, application"
        ),
        _ => panic!("expected a configuration error"),
    }
    assert_eq!(e.exit_code(), 1);
    assert_eq!(c.api_key, None);
    assert_eq!(c.provider_key, None);
    assert_eq!(c.application, None);
}

#[test]
fn keys_are_masked() {
    assert_eq!(mask_key("abcd"), "****");
    assert_eq!(mask_key("12345678"), "********");
    assert_eq!(mask_key("123456789"), "1234...6789");
    assert_eq!(mask_key(""), "");
    assert_eq!(mask_key("é"), "**");
    assert_eq!(mask_key("éééé"), "********");
    assert_eq!(mask_key("éééééé"), "éé...éé");
    assert_eq!(mask_key("aéééééé"), "aé...éé");
    assert_eq!(mask_key("abc€€€"), "abc...€");
    assert_eq!(shown_value("api_key", "abcdefghijkl"), "abcd...ijkl");
    assert_eq!(shown_value("application", "abcdefghijkl"), "abcdefghijkl");
}

#[test]
fn error_messages_and_exit_codes() {
    let e = ProwlError::from_api_code(400, None);
    assert_eq!(e.message(), "API error (400): Bad request - invalid parameters");
    assert_eq!(ProwlError::from_api_code(500, None).message(), "API error (500): Internal server error");
    assert_eq!(
        ProwlError::from_api_code(-7, None).message(),
        "API error (-7): Unknown error code: -7"
    );
    assert_eq!(
        ProwlError::from_api_code(401, Some("x".to_string())).message(),
        "API error (401): x"
    );
    let long = ProwlError::MessageTooLong { length: 10001, max: 10000 };
    assert_eq!(long.message(), "Message too long: 10001 bytes (max 10000)");
    assert_eq!(long.exit_code(), 1);
    assert_eq!(ProwlError::TokenNotApproved.message(), "Token not yet approved");
    assert_eq!(ProwlError::InvalidPriority.exit_code(), 1);
    assert_eq!(ProwlError::Http("x".to_string()).exit_code(), 1);
    assert_eq!(ProwlError::XmlParse("x".to_string()).message(), "XML parsing failed: x");
    assert_eq!(ProwlError::MissingProviderKey.exit_code(), 2);
}

#[test]
fn decimal_text() {
    assert_eq!(int_text(0), "0");
    assert_eq!(int_text(-2), "-2");
    assert_eq!(int_text(1234567890), "1234567890");
    assert_eq!(int_text(i64::MIN), "-9223372036854775808");
    assert!(reads_stdin("-"));
    assert!(!reads_stdin("--"));
}
