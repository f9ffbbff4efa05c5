use opensync::deep_link::{classify_deep_link, deep_link_action, CallbackArgs, DeepLinkAction, UrlParts};

fn pairs(v: &[(&str, &str)]) -> Vec<(String, String)> {
    v.iter().map(|(k, v)| (k.to_string(), v.to_string())).collect()
}

fn sorted(mut v: Vec<(String, String)>) -> Vec<(String, String)> {
    v.sort();
    v
}

#[test]
fn parse_reads_token_user_and_extra() {
    let args = CallbackArgs::parse(&pairs(&[("token", "t1"), ("user_id", "u1"), ("a", "1"), ("b", "2")])).unwrap();
    assert_eq!(args.token, "t1");
    assert_eq!(args.user_id, "u1");
    assert_eq!(sorted(args.extra), pairs(&[("a", "1"), ("b", "2")]));
}

#[test]
fn parse_requires_token() {
    let e = CallbackArgs::parse(&pairs(&[("user_id", "u1")])).unwrap_err();
    assert_eq!(e, "missing required query parameter: token");
    let e = CallbackArgs::parse(&pairs(&[("token", "")])).unwrap_err();
    assert_eq!(e, "missing required query parameter: token");
    assert!(CallbackArgs::parse(&Vec::new()).is_err());
}

#[test]
fn parse_user_id_defaults_to_empty() {
    let args = CallbackArgs::parse(&pairs(&[("token", "t")])).unwrap();
    assert_eq!(args.user_id, "");
    assert!(args.extra.is_empty());
    assert!(!args.should_register_device());
}

#[test]
fn parse_last_duplicate_wins() {
    let args = CallbackArgs::parse(&pairs(&[("token", "old"), ("x", "1"), ("token", "new"), ("x", "2")])).unwrap();
    assert_eq!(args.token, "new");
    assert_eq!(args.extra, pairs(&[("x", "2")]));
    let e = CallbackArgs::parse(&pairs(&[("token", "t"), ("token", "")]));
    assert!(e.is_err());
}

#[test]
fn login_response_from_callback() {
    let args = CallbackArgs::parse(&pairs(&[("token", "tok"), ("user_id", "u9")])).unwrap();
    let login = args.login_response();
    assert_eq!(login.user_id, "u9");
    assert_eq!(login.token, "tok");
    assert_eq!(login.name, "");
    assert_eq!(login.email, "");
    assert!(args.should_register_device());
}

#[test]
fn callback_url_by_host() {
    match deep_link_action("opensync://callback?token=abc&user_id=42&theme=dark").unwrap() {
        DeepLinkAction::Callback(args) => {
            assert_eq!(args.token, "abc");
            assert_eq!(args.user_id, "42");
            assert_eq!(args.extra, pairs(&[("theme", "dark")]));
        }
        other => panic!("unexpected {other:?}"),
    }
}

#[test]
fn callback_url_by_path_and_percent_decoding() {
    match deep_link_action("opensync://app/callback?token=a%20b").unwrap() {
        DeepLinkAction::Callback(args) => assert_eq!(args.token, "a b"),
        other => panic!("unexpected {other:?}"),
    }
}

#[test]
fn other_urls_are_ignored() {
    assert!(matches!(deep_link_action("https://callback?token=x").unwrap(), DeepLinkAction::NotOpensync));
    assert!(matches!(deep_link_action("opensync://settings?token=x").unwrap(), DeepLinkAction::NotCallback));
    assert!(deep_link_action("not a url").is_none());
}

#[test]
fn callback_without_token_is_invalid() {
    match deep_link_action("opensync://callback?user_id=1").unwrap() {
        DeepLinkAction::Invalid(m) => assert_eq!(m, "missing required query parameter: token"),
        other => panic!("unexpected {other:?}"),
    }
}

#[test]
fn classify_parts_directly() {
    let parts = UrlParts {
        scheme: "opensync".to_string(),
        host: None,
        path: "/callback".to_string(),
        query: pairs(&[("token", "t")]),
    };
    assert!(matches!(classify_deep_link(&parts), DeepLinkAction::Callback(_)));
    let parts = UrlParts { host: Some("elsewhere".to_string()), path: "/".to_string(), ..parts };
    assert!(matches!(classify_deep_link(&parts), DeepLinkAction::NotCallback));
}
