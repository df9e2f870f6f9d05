use jirapp::{require_jira_url, settings_or_default, validate_jira_url, Settings};

#[test]
fn validate_allows_empty() {
    assert!(validate_jira_url("").is_ok());
    assert!(validate_jira_url("   ").is_ok());
}

#[test]
fn validate_accepts_https_atlassian() {
    assert!(validate_jira_url("https://example.atlassian.net").is_ok());
    assert!(validate_jira_url("  https://example.atlassian.net/jira/boards  ").is_ok());
    assert!(validate_jira_url("https://atlassian.net").is_ok());
}

#[test]
fn validate_rejects_non_https() {
    assert!(validate_jira_url("http://example.atlassian.net").is_err());
}

#[test]
fn validate_rejects_non_atlassian_host() {
    assert!(validate_jira_url("https://example.com").is_err());
    assert!(validate_jira_url("https://atlassian.net.evil.com").is_err());
    assert!(validate_jira_url("https://evilatlassian.net").is_err());
}

#[test]
fn require_rejects_empty() {
    assert!(require_jira_url("").is_err());
    assert!(require_jira_url("   ").is_err());
}

#[test]
fn require_returns_parsed_url() {
    let url = require_jira_url("https://example.atlassian.net/path").expect("should parse");
    assert_eq!(url.scheme(), "https");
    assert_eq!(url.host_str(), Some("example.atlassian.net"));
}

#[test]
fn default_settings_are_sane() {
    let d = Settings::default();
    assert!(d.jira_url.is_empty());
    assert!(d.auto_reload_enabled);
    assert!(d.idle_threshold_secs >= 5);
    assert!(d.reload_check_interval_secs >= 5);
}

#[test]
fn default_settings_exact_values() {
    let d = Settings::default();
    assert_eq!(d.custom_js, "");
    assert_eq!(d.custom_css, "");
    assert_eq!(d.idle_threshold_secs, 300);
    assert_eq!(d.reload_check_interval_secs, 30);
}

#[test]
fn error_messages_of_each_refusal() {
    assert_eq!(
        validate_jira_url("http://example.atlassian.net").unwrap_err(),
        "Jira URL は https である必要があります"
    );
    assert_eq!(
        validate_jira_url("https://example.com").unwrap_err(),
        "Jira URL のホストは *.atlassian.net である必要があります"
    );
    assert_eq!(
        require_jira_url("  ").unwrap_err(),
        "Jira URL が設定されていません"
    );
    assert_eq!(
        validate_jira_url("not a url").unwrap_err(),
        "Jira URL が不正です: relative URL without a base"
    );
    assert_eq!(
        require_jira_url("https://example.atlassian.net:99999").unwrap_err(),
        "Jira URL が不正です: invalid port number"
    );
}

#[test]
fn url_without_host_is_refused_as_non_atlassian() {
    assert_eq!(
        validate_jira_url("https:").unwrap_err(),
        "Jira URL が不正です: empty host"
    );
    assert_eq!(
        require_jira_url("data:text/plain,x").unwrap_err(),
        "Jira URL は https である必要があります"
    );
}

#[test]
fn validate_and_require_agree_on_non_blank_urls() {
    for raw in [
        "https://example.atlassian.net",
        " https://a.b.atlassian.net/x?y=1 ",
        "http://example.atlassian.net",
        "https://example.com",
        "https://atlassian.net.evil.com",
        "::",
        "https://ATLASSIAN.NET",
    ] {
        let v = validate_jira_url(raw);
        let r = require_jira_url(raw);
        assert_eq!(v.is_ok(), r.is_ok(), "{raw}");
        if let (Err(a), Err(b)) = (v, r) {
            assert_eq!(a, b);
        }
    }
}

#[test]
fn surrounding_white_space_is_ignored() {
    let a = require_jira_url("\u{3000}\t https://example.atlassian.net/jira \n").unwrap();
    let b = require_jira_url("https://example.atlassian.net/jira").unwrap();
    assert_eq!(a.as_str(), b.as_str());
    assert_eq!(a.as_str(), "https://example.atlassian.net/jira");
}

#[test]
fn parsed_url_is_normalized_by_the_parser() {
    let url = require_jira_url("HTTPS://Example.Atlassian.NET").unwrap();
    assert_eq!(url.scheme(), "https");
    assert_eq!(url.host_str(), Some("example.atlassian.net"));
    assert_eq!(url.as_str(), "https://example.atlassian.net/");
}

#[test]
fn stored_settings_win_over_defaults() {
    let mut s = Settings::default();
    s.jira_url = "https://x.atlassian.net".to_string();
    s.idle_threshold_secs = 7;
    let r = settings_or_default(Some(s));
    assert_eq!(r.jira_url, "https://x.atlassian.net");
    assert_eq!(r.idle_threshold_secs, 7);
    let d = settings_or_default(None);
    assert_eq!(d.jira_url, "");
    assert!(d.auto_reload_enabled);
    assert_eq!(d.idle_threshold_secs, 300);
}
