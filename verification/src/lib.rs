//! Core logic of a site-specific browser for Jira Cloud: settings and their
//! validation, the URL trust boundary (`https` + `*.atlassian.net`), the
//! scripts injected into the Jira window, and the decisions that the window
//! shell takes on its events.
pub mod commands;
pub mod inject;
pub mod json;
pub mod jira;
pub mod settings;
pub mod state;
pub mod sysmenu;
pub mod text;
pub mod web_url;

pub use commands::{
    SettingsCloseAction, StartupAction, check_open_url, external_link_from_parsed, prepare_save,
    settings_close_action, startup_action,
};
pub use inject::{
    config_script, push_config_on_page_load, push_config_script, user_init_script, user_js_wrapper,
};
pub use jira::{
    JiraCloseAction, JiraWindowPlan, LastUrlTracker, NewWindowResponse, OpenAction, PollAction,
    is_same_tenant_url, jira_close_action, new_window_response, plan_jira_window, plan_open,
    registered_host, resolve_startup_url,
};
pub use settings::{
    Settings, SettingsView, check_https_atlassian, jira_url_from_parsed, require_jira_url,
    settings_or_default, validate_jira_url,
};
pub use state::AppState;
pub use sysmenu::{OPEN_SETTINGS_COMMAND, RELOAD_COMMAND, SysCommand, syscommand_action};
pub use text::{decimal_text, is_white_space, trim};
pub use web_url::{Url, UrlError, UrlView};
