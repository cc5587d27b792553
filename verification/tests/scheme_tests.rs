use clash_verge::startup::RefreshStep;
use clash_verge::scheme::{
    lookup_pair, parse_proxy_switch, proxy_change_refresh, plan_proxy_change, proxy_notice, request_from_parts,
    resolve_scheme, unwrap_link, ProxyNotice, ProxySwitch, SchemeError, SchemeRequest,
};

fn pairs(v: &[(&str, &str)]) -> Vec<(String, String)> {
    v.iter().map(|(k, x)| (k.to_string(), x.to_string())).collect()
}

#[test]
fn proxy_switch_words() {
    for w in ["true", "1", "on", "enable", "TRUE", "On", "EnAbLe"] {
        assert_eq!(parse_proxy_switch(w), ProxySwitch::Enable, "{w}");
    }
    for w in ["false", "0", "off", "disable", "FALSE", "Off", "DISABLE"] {
        assert_eq!(parse_proxy_switch(w), ProxySwitch::Disable, "{w}");
    }
    for w in ["", "yes", "truee", "o n", "2", "ｔｒｕｅ"] {
        assert_eq!(parse_proxy_switch(w), ProxySwitch::Invalid, "{w}");
    }
}

#[test]
fn proxy_switch_agrees_with_lowercasing() {
    for w in ["TrUe", "ON", "Disable", "İ", "K", "off ", "0"] {
        let lower = w.to_lowercase();
        let expected = match lower.as_str() {
            "true" | "1" | "on" | "enable" => ProxySwitch::Enable,
            "false" | "0" | "off" | "disable" => ProxySwitch::Disable,
            _ => ProxySwitch::Invalid,
        };
        assert_eq!(parse_proxy_switch(w), expected, "{w}");
    }
}

#[test]
fn requested_states() {
    assert_eq!(ProxySwitch::Enable.requested_state(), Some(true));
    assert_eq!(ProxySwitch::Disable.requested_state(), Some(false));
    assert_eq!(ProxySwitch::Invalid.requested_state(), None);
}

#[test]
fn proxy_change_only_when_state_differs() {
    assert_eq!(plan_proxy_change(false, ProxySwitch::Enable), Some(true));
    assert_eq!(plan_proxy_change(true, ProxySwitch::Enable), None);
    assert_eq!(plan_proxy_change(true, ProxySwitch::Disable), Some(false));
    assert_eq!(plan_proxy_change(false, ProxySwitch::Disable), None);
}

#[test]
fn invalid_switch_changes_nothing() {
    assert_eq!(plan_proxy_change(true, ProxySwitch::Invalid), None);
    assert_eq!(plan_proxy_change(false, ProxySwitch::Invalid), None);
}

#[test]
fn proxy_notices() {
    assert_eq!(proxy_notice(true, ProxySwitch::Invalid, false), ProxyNotice::Rejected);
    assert_eq!(proxy_notice(true, ProxySwitch::Enable, false), ProxyNotice::Unchanged { enabled: true });
    assert_eq!(proxy_notice(false, ProxySwitch::Disable, true), ProxyNotice::Unchanged { enabled: false });
    assert_eq!(proxy_notice(false, ProxySwitch::Enable, true), ProxyNotice::Switched { enabled: true });
    assert_eq!(proxy_notice(true, ProxySwitch::Disable, true), ProxyNotice::Switched { enabled: false });
    assert_eq!(proxy_notice(true, ProxySwitch::Disable, false), ProxyNotice::SwitchFailed);
}

#[test]
fn unwrap_plain_and_wrapped_links() {
    assert_eq!(unwrap_link("clash://x"), Ok("clash://x".to_string()));
    assert_eq!(unwrap_link("[\"clash://x\"]"), Ok("clash://x".to_string()));
    // too short to be wrapped
    assert_eq!(unwrap_link("[ab]"), Ok("[ab]".to_string()));
    // the cut falls inside a two-byte character
    assert_eq!(unwrap_link("[éabc"), Err(SchemeError::InvalidSliceBoundaries));
    assert_eq!(unwrap_link("[abc€"), Err(SchemeError::InvalidSliceBoundaries));
    // multi-byte characters away from the cut are fine
    assert_eq!(unwrap_link("[\"é\"]"), Ok("é".to_string()));
}

#[test]
fn lookup_takes_first_match() {
    let p = pairs(&[("a", "1"), ("name", "x"), ("name", "y")]);
    assert_eq!(lookup_pair(&p, "name"), Some("x".to_string()));
    assert_eq!(lookup_pair(&p, "b"), None);
    assert_eq!(lookup_pair(&Vec::new(), "a"), None);
}

#[test]
fn request_for_other_scheme_is_none() {
    assert_eq!(request_from_parts("https", &pairs(&[("name", "x")]), None), None);
}

#[test]
fn request_from_pairs() {
    let r = request_from_parts(
        "clash-verge",
        &pairs(&[("enable_system_proxy", "On"), ("name", "n"), ("url", "ignored")]),
        Some("u".to_string()),
    );
    assert_eq!(
        r,
        Some(SchemeRequest {
            proxy_value: Some("On".to_string()),
            proxy: Some(ProxySwitch::Enable),
            name: Some("n".to_string()),
            subscription_url: Some("u".to_string()),
            import_action: false,
            auto_switch: false,
        })
    );
}

#[test]
fn resolve_proxy_only_link() {
    let r = resolve_scheme("clash://?enable_system_proxy=true").unwrap().unwrap();
    assert_eq!(r.proxy, Some(ProxySwitch::Enable));
    assert_eq!(r.proxy_value.as_deref(), Some("true"));
    assert_eq!(r.name, None);
    assert_eq!(r.subscription_url, None);
    let r = resolve_scheme("clash-verge://control?enable_system_proxy=FALSE").unwrap().unwrap();
    assert_eq!(r.proxy, Some(ProxySwitch::Disable));
}

#[test]
fn resolve_import_link() {
    let r = resolve_scheme(
        "clash://install-config?url=https%3A//example.com/config&name=MyConfig&enable_system_proxy=true",
    )
    .unwrap()
    .unwrap();
    assert_eq!(r.proxy, Some(ProxySwitch::Enable));
    assert_eq!(r.name.as_deref(), Some("MyConfig"));
    // the subscription URL is the decoded value of `url`
    assert_eq!(r.subscription_url.as_deref(), Some("https://example.com/config"));
    assert!(!r.auto_switch);
}

#[test]
fn resolve_name_is_form_decoded() {
    let r = resolve_scheme("clash://install-config?name=My+Config%21&url=https://a.b/c")
        .unwrap()
        .unwrap();
    assert_eq!(r.name.as_deref(), Some("My Config!"));
    assert_eq!(r.subscription_url.as_deref(), Some("https://a.b/c"));
    assert_eq!(r.proxy, None);
}

#[test]
fn resolve_invalid_switch_value() {
    let r = resolve_scheme("clash://?enable_system_proxy=maybe").unwrap().unwrap();
    assert_eq!(r.proxy, Some(ProxySwitch::Invalid));
}

#[test]
fn resolve_wrapped_link() {
    let r = resolve_scheme("[\"clash://?enable_system_proxy=off\"]").unwrap().unwrap();
    assert_eq!(r.proxy, Some(ProxySwitch::Disable));
}

#[test]
fn resolve_other_scheme() {
    assert_eq!(resolve_scheme("https://example.com/?url=x"), Ok(None));
}

#[test]
fn resolve_errors() {
    assert!(matches!(resolve_scheme("not a link"), Err(SchemeError::InvalidLink { .. })));
    assert_eq!(resolve_scheme("[éabc"), Err(SchemeError::InvalidSliceBoundaries));
}

#[test]
fn resolve_import_link_keeps_proxy_alone() {
    let r = resolve_scheme("clash://install-config?url=https%3A//example.com/config&name=MyConfig")
        .unwrap()
        .unwrap();
    assert_eq!(r.subscription_url.as_deref(), Some("https://example.com/config"));
    assert_eq!(r.name.as_deref(), Some("MyConfig"));
    assert_eq!(r.proxy, None);
    assert_eq!(r.proxy_value, None);
}

#[test]
fn resolve_action_import_with_auto_switch() {
    let r = resolve_scheme(
        "clash://?action=import&url=https://example.com/config.yaml&name=MyConfig&auto_switch=true",
    )
    .unwrap()
    .unwrap();
    assert_eq!(r.subscription_url.as_deref(), Some("https://example.com/config.yaml"));
    assert_eq!(r.name.as_deref(), Some("MyConfig"));
    assert!(r.auto_switch);
}

#[test]
fn auto_switch_needs_action_import() {
    let r = resolve_scheme("clash://?url=https://a.b/c&auto_switch=true").unwrap().unwrap();
    assert!(!r.auto_switch);
    let r = resolve_scheme("clash://?action=import&url=https://a.b/c&auto_switch=false").unwrap().unwrap();
    assert!(!r.auto_switch);
    let r = resolve_scheme("clash://?action=import&url=https://a.b/c").unwrap().unwrap();
    assert!(!r.auto_switch);
}

#[test]
fn json_wrapped_link_same_as_plain() {
    for link in [
        "clash://?enable_system_proxy=true",
        "clash://install-config?url=https%3A//example.com/config&name=MyConfig",
        "https://example.com",
        "not a link",
    ] {
        let wrapped = format!("[\"{link}\"]");
        assert_eq!(resolve_scheme(&wrapped), resolve_scheme(link), "{link}");
    }
}

#[test]
fn plus_in_subscription_url_is_kept() {
    let r = resolve_scheme("clash://x?url=https://a.com/s?k=a+b").unwrap().unwrap();
    assert_eq!(r.subscription_url.as_deref(), Some("https://a.com/s?k=a+b"));
    let r = resolve_scheme("clash://x?url=https%3A%2F%2Fa.com%2Fs%3Fk%3Da%2Bb&name=N").unwrap().unwrap();
    assert_eq!(r.subscription_url.as_deref(), Some("https://a.com/s?k=a+b"));
    assert_eq!(r.name.as_deref(), Some("N"));
}

#[test]
fn bare_url_key_gives_no_url() {
    let r = resolve_scheme("clash://x?url&name=N").unwrap().unwrap();
    assert_eq!(r.subscription_url, None);
    let r = resolve_scheme("clash://x?myurl=https://a.b").unwrap().unwrap();
    assert_eq!(r.subscription_url, None);
    let r = resolve_scheme("clash://x?url&url=https://a.b&url=https://c.d").unwrap().unwrap();
    assert_eq!(r.subscription_url.as_deref(), Some("https://a.b"));
    let r = resolve_scheme("clash://x?url=").unwrap().unwrap();
    assert_eq!(r.subscription_url.as_deref(), Some(""));
}

#[test]
fn import_action_flag() {
    let r = resolve_scheme("clash://?action=import&url=https://a.b").unwrap().unwrap();
    assert!(r.import_action);
    assert!(!r.auto_switch);
    let r = resolve_scheme("clash://?url=https://a.b").unwrap().unwrap();
    assert!(!r.import_action);
}

#[test]
fn refresh_only_after_applied_change() {
    let tray = Some(vec![RefreshStep::Sleep { ms: 100 }, RefreshStep::UpdateTrayIcon]);
    assert_eq!(proxy_change_refresh(false, ProxySwitch::Enable, true), tray);
    assert_eq!(proxy_change_refresh(false, ProxySwitch::Enable, false), None);
    assert_eq!(proxy_change_refresh(true, ProxySwitch::Enable, true), None);
    assert_eq!(proxy_change_refresh(true, ProxySwitch::Invalid, true), None);
    assert_eq!(proxy_change_refresh(true, ProxySwitch::Disable, true), tray);
}
