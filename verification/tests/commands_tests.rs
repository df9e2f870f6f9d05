use jirapp::{syscommand_action, SysCommand};
use jirapp::{
    check_open_url, prepare_save, settings_close_action, startup_action, trim, AppState,
    Settings, SettingsCloseAction, StartupAction,
};

fn settings_with(jira_url: &str) -> Settings {
    let mut s = Settings::default();
    s.jira_url = jira_url.to_string();
    s
}

#[test]
fn save_drops_last_url_only_when_home_changes() {
    let prev = settings_with("https://a.atlassian.net");
    assert_eq!(prepare_save(&prev, &settings_with(" https://a.atlassian.net ")), Ok(false));
    assert_eq!(prepare_save(&prev, &settings_with("https://b.atlassian.net")), Ok(true));
    assert_eq!(prepare_save(&prev, &settings_with("")), Ok(true));
    assert_eq!(
        prepare_save(&prev, &settings_with("https://b.example.com")),
        Err("Jira URL のホストは *.atlassian.net である必要があります".to_string())
    );
}

#[test]
fn only_web_links_are_handed_to_the_browser() {
    assert_eq!(
        check_open_url("https://github.com/comlinks/jirapp"),
        Ok("https://github.com/comlinks/jirapp".to_string())
    );
    assert_eq!(check_open_url("http://example.com"), Ok("http://example.com/".to_string()));
    assert_eq!(
        check_open_url("file:///C:/Windows/System32/calc.exe"),
        Err("http/https の URL のみ開けます".to_string())
    );
    assert_eq!(
        check_open_url("javascript:alert(1)"),
        Err("http/https の URL のみ開けます".to_string())
    );
    assert_eq!(
        check_open_url("no scheme"),
        Err("URL が不正です: relative URL without a base".to_string())
    );
}

#[test]
fn settings_close_hides_while_jira_is_open() {
    assert_eq!(settings_close_action(true), SettingsCloseAction::Hide);
    assert_eq!(settings_close_action(false), SettingsCloseAction::Quit);
}

#[test]
fn startup_shows_settings_when_url_is_blank() {
    assert_eq!(startup_action(&Settings::default()), StartupAction::ShowSettings);
    assert_eq!(startup_action(&settings_with(" \t")), StartupAction::ShowSettings);
    assert_eq!(
        startup_action(&settings_with("https://a.atlassian.net")),
        StartupAction::OpenJira
    );
}

#[test]
fn snapshot_reads_the_last_replace() {
    let mut st = AppState(Settings::default());
    st.replace(settings_with("https://a.atlassian.net"));
    st.replace(settings_with("https://b.atlassian.net"));
    let snap = st.snapshot();
    assert_eq!(snap.jira_url, "https://b.atlassian.net");
    assert_eq!(snap.idle_threshold_secs, 300);
}

#[test]
fn trim_matches_std_on_unicode_white_space() {
    for s in ["", "   ", " a ", "\u{3000}x\u{2029}", "\u{200b}x", "a b", "\u{85}\u{a0}y\u{1680}"] {
        assert_eq!(trim(s), s.trim(), "{s:?}");
    }
}

#[test]
fn system_commands_ignore_reserved_low_bits() {
    assert_eq!(syscommand_action(0x0010), SysCommand::OpenSettings);
    assert_eq!(syscommand_action(0x001F), SysCommand::OpenSettings);
    assert_eq!(syscommand_action(0x0020), SysCommand::Reload);
    assert_eq!(syscommand_action(0x0027), SysCommand::Reload);
    assert_eq!(syscommand_action(0xF060), SysCommand::Other); // SC_CLOSE
    assert_eq!(syscommand_action(0x0000), SysCommand::Other);
    assert_eq!(syscommand_action(0x10010), SysCommand::OpenSettings);
}
