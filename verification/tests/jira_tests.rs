use jirapp::{
    is_same_tenant_url, jira_close_action, new_window_response, plan_jira_window, plan_open,
    registered_host, resolve_startup_url, AppState, JiraCloseAction, LastUrlTracker,
    NewWindowResponse, OpenAction, PollAction, Settings, Url,
};

fn url(s: &str) -> Url {
    Url::parse(s).expect("valid url")
}

fn settings_with(jira_url: &str) -> Settings {
    let mut s = Settings::default();
    s.jira_url = jira_url.to_string();
    s
}

#[test]
fn allows_only_same_registered_host() {
    let host = "example.atlassian.net";
    assert!(is_same_tenant_url(
        &url("https://example.atlassian.net/jira/boards"),
        host
    ));
    assert!(is_same_tenant_url(
        &url("https://example.atlassian.net/wiki/spaces/X"),
        host
    ));
}

#[test]
fn rejects_other_tenants_and_non_https() {
    let host = "example.atlassian.net";
    assert!(!is_same_tenant_url(
        &url("https://other.atlassian.net/wiki"),
        host
    ));
    assert!(!is_same_tenant_url(
        &url("http://example.atlassian.net"),
        host
    ));
    assert!(!is_same_tenant_url(
        &url("https://id.atlassian.com/login"),
        host
    ));
    assert!(!is_same_tenant_url(&url("https://example.com"), host));
}

#[test]
fn registered_host_comes_from_the_current_settings() {
    let st = AppState(settings_with("  https://team.atlassian.net/jira  "));
    assert_eq!(registered_host(&st).as_deref(), Some("team.atlassian.net"));
    let st = AppState(settings_with(""));
    assert_eq!(registered_host(&st), None);
    let st = AppState(settings_with("mailto:a@b.c"));
    assert_eq!(registered_host(&st), None);
}

#[test]
fn startup_restores_last_url_of_same_tenant_only() {
    let s = settings_with("https://team.atlassian.net/jira");
    let host = Some("team.atlassian.net".to_string());
    let last = "https://team.atlassian.net/jira/boards/1?jql=project%3DX";
    assert_eq!(
        resolve_startup_url(Some(last.to_string()), host.clone(), &s),
        last
    );
    assert_eq!(
        resolve_startup_url(Some("https://other.atlassian.net/x".to_string()), host.clone(), &s),
        "https://team.atlassian.net/jira"
    );
    assert_eq!(
        resolve_startup_url(Some("http://team.atlassian.net/x".to_string()), host.clone(), &s),
        "https://team.atlassian.net/jira"
    );
    assert_eq!(
        resolve_startup_url(Some("garbage".to_string()), host.clone(), &s),
        "https://team.atlassian.net/jira"
    );
    assert_eq!(resolve_startup_url(None, host, &s), "https://team.atlassian.net/jira");
    assert_eq!(
        resolve_startup_url(Some(last.to_string()), None, &s),
        "https://team.atlassian.net/jira"
    );
}

#[test]
fn restored_url_is_kept_verbatim_with_its_spaces() {
    let s = settings_with("https://team.atlassian.net");
    let last = " https://team.atlassian.net/a ";
    assert_eq!(
        resolve_startup_url(Some(last.to_string()), Some("team.atlassian.net".to_string()), &s),
        last
    );
}

#[test]
fn new_windows_open_only_for_the_registered_tenant() {
    let target = url("https://team.atlassian.net/wiki/spaces/X");
    assert_eq!(
        new_window_response(&target, Some("team.atlassian.net".to_string())),
        NewWindowResponse::Allow
    );
    assert_eq!(
        new_window_response(&target, Some("other.atlassian.net".to_string())),
        NewWindowResponse::Deny
    );
    assert_eq!(new_window_response(&target, None), NewWindowResponse::Deny);
    assert_eq!(
        new_window_response(&url("https://id.atlassian.com/login"), Some("team.atlassian.net".to_string())),
        NewWindowResponse::Deny
    );
}

#[test]
fn opening_checks_the_url_before_anything_else() {
    let bad = settings_with("http://team.atlassian.net");
    assert_eq!(
        plan_open(&bad, true).unwrap_err(),
        "Jira URL は https である必要があります"
    );
    let empty = settings_with("");
    assert_eq!(plan_open(&empty, false).unwrap_err(), "Jira URL が設定されていません");
    let good = settings_with(" https://team.atlassian.net ");
    assert!(matches!(plan_open(&good, true), Ok(OpenAction::FocusAndApply)));
    match plan_open(&good, false) {
        Ok(OpenAction::Build(u)) => assert_eq!(u, " https://team.atlassian.net "),
        other => panic!("unexpected {other:?}"),
    }
}

#[test]
fn window_plan_checks_restored_url_and_wraps_user_script() {
    let mut s = settings_with("https://team.atlassian.net");
    s.custom_js = "alert(1)".to_string();
    let plan = plan_jira_window(&s, "https://team.atlassian.net/jira/boards/2").unwrap();
    assert_eq!(plan.url.as_str(), "https://team.atlassian.net/jira/boards/2");
    assert_eq!(
        plan.user_script.as_deref(),
        Some("try {\nalert(1)\n} catch (e) { console.error('[jirapp] user JS error', e); }")
    );
    s.custom_js = " \n\t ".to_string();
    let plan = plan_jira_window(&s, "https://team.atlassian.net").unwrap();
    assert!(plan.user_script.is_none());
    assert!(plan_jira_window(&s, "https://evil.example/atlassian.net").is_err());
}

#[test]
fn closing_jira_quits_only_when_settings_are_hidden() {
    assert_eq!(jira_close_action(false), JiraCloseAction::SaveUrlAndQuit);
    assert_eq!(jira_close_action(true), JiraCloseAction::SaveUrl);
}

#[test]
fn url_watch_writes_only_changes() {
    let mut t = LastUrlTracker::new();
    match t.observe(Some("https://a.atlassian.net/1".to_string())) {
        PollAction::Persist(u) => assert_eq!(u, "https://a.atlassian.net/1"),
        other => panic!("unexpected {other:?}"),
    }
    assert!(matches!(
        t.observe(Some("https://a.atlassian.net/1".to_string())),
        PollAction::Unchanged
    ));
    match t.observe(Some("https://a.atlassian.net/2".to_string())) {
        PollAction::Persist(u) => assert_eq!(u, "https://a.atlassian.net/2"),
        other => panic!("unexpected {other:?}"),
    }
    assert!(matches!(t.observe(None), PollAction::Stop));
    assert!(matches!(
        t.observe(Some("https://a.atlassian.net/2".to_string())),
        PollAction::Unchanged
    ));
}

#[test]
fn accepted_home_url_is_its_own_tenant() {
    let s = settings_with("https://team.atlassian.net/jira");
    let st = AppState(s.clone());
    let host = registered_host(&st).unwrap();
    let home = jirapp::require_jira_url(&s.jira_url).unwrap();
    assert!(is_same_tenant_url(&home, &host));
}

#[test]
fn url_watch_over_a_whole_run() {
    let shown = ["a", "a", "b", "b", "a", "c"];
    let mut t = LastUrlTracker::new();
    let mut written = Vec::new();
    let mut polls = 0;
    let mut obs: Vec<Option<String>> = shown.iter().map(|u| Some(u.to_string())).collect();
    obs.push(None);
    obs.push(Some("z".to_string()));
    for o in obs {
        polls += 1;
        match t.observe(o) {
            PollAction::Persist(u) => written.push((polls, u)),
            PollAction::Unchanged => {}
            PollAction::Stop => break,
        }
    }
    assert_eq!(polls, 7);
    assert_eq!(
        written,
        vec![
            (1, "a".to_string()),
            (3, "b".to_string()),
            (5, "a".to_string()),
            (6, "c".to_string())
        ]
    );
}
