//! The decisions behind the commands of the settings window and the start
//! of the application.
use vstd::prelude::*;
use crate::settings::{Settings, SettingsView, spec_validate, validate_jira_url};
use crate::text::{is_blank, same_text, spec_is_white_space, spec_trim, trim};
use crate::web_url::{Url, UrlError, UrlView, parse_outcome, spec_parse};

verus! {

/// What saving `next` over `prev` comes to: a refusal of the new URL, or
/// whether the URL saved for the next start must be dropped (the home URL
/// changed, so the old board must not come back).
pub open spec fn spec_prepare_save(prev: SettingsView, next: SettingsView) -> Result<bool, Seq<char>> {
    match spec_validate(next.jira_url) {
        Err(m) => Err(m),
        Ok(_) => Ok(spec_trim(prev.jira_url) != spec_trim(next.jira_url)),
    }
}

/// Checks settings about to be saved over `prev`. The Jira URL, where one
/// is given, must be `https` on `atlassian.net`; on success the result says
/// whether the home URL changed (compared trimmed), in which case the URL
/// kept for the next start is dropped.
pub fn prepare_save(prev: &Settings, next: &Settings) -> (r: Result<bool, String>)
    ensures
        match r {
            Ok(b) => spec_prepare_save(prev@, next@) == Ok::<bool, Seq<char>>(b),
            Err(m) => spec_prepare_save(prev@, next@) == Err::<bool, Seq<char>>(m@),
        },
{
    match validate_jira_url(next.jira_url.as_str()) {
        Err(m) => Err(m),
        Ok(()) => Ok(!same_text(trim(prev.jira_url.as_str()), trim(next.jira_url.as_str()))),
    }
}

/// What precedes the parser's message when a link does not parse.
pub open spec fn msg_bad_link_prefix() -> Seq<char> {
    "URL が不正です: "@
}

/// Refusal of a link whose scheme is neither `http` nor `https`.
pub open spec fn msg_not_web_link() -> Seq<char> {
    "http/https の URL のみ開けます"@
}

/// The judgement on a link to open in the default browser, after parsing:
/// only `http` and `https` links pass, as their serialization.
pub open spec fn spec_external_link(p: Result<UrlView, Seq<char>>) -> Result<Seq<char>, Seq<char>> {
    match p {
        Err(e) => Err(msg_bad_link_prefix() + e),
        Ok(u) => if u.scheme == "http"@ || u.scheme == "https"@ {
            Ok(u.href)
        } else {
            Err(msg_not_web_link())
        },
    }
}

/// A text outcome, by views.
pub open spec fn text_outcome(r: Result<String, String>) -> Result<Seq<char>, Seq<char>> {
    match r {
        Ok(t) => Ok(t@),
        Err(m) => Err(m@),
    }
}

/// Accepts the outcome of parsing a link to open in the default browser:
/// `http` and `https` only, so that no other protocol or local file is
/// handed on.
pub fn external_link_from_parsed(parsed: Result<Url, UrlError>) -> (r: Result<String, String>)
    ensures
        text_outcome(r) == spec_external_link(parse_outcome(parsed)),
{
    proof {
        reveal_strlit("http");
        reveal_strlit("https");
    }
    match parsed {
        Err(e) => {
            let mut m = String::from_str("URL が不正です: ");
            m.append(e.message());
            Err(m)
        },
        Ok(u) => {
            if u.has_scheme("http") || u.has_scheme("https") {
                Ok(String::from_str(u.as_str()))
            } else {
                Err(String::from_str("http/https の URL のみ開けます"))
            }
        },
    }
}

/// Checks a link that the settings window asks to open in the default
/// browser and returns the URL to hand to it: it must parse as is, with the
/// scheme `http` or `https`.
pub fn check_open_url(url: &str) -> (r: Result<String, String>)
    ensures
        text_outcome(r) == spec_external_link(spec_parse(url@)),
{
    external_link_from_parsed(Url::parse(url))
}

/// What closing the settings window (by its close button or by cancel) does.
#[derive(Debug, PartialEq, Eq, Structural)]
pub enum SettingsCloseAction {
    /// The Jira window is open: hide the settings window only.
    Hide,
    /// The settings window is the last window: quit.
    Quit,
}

/// Decides what closing the settings window does: it is only hidden while
/// the Jira window is open, and the application quits otherwise.
pub fn settings_close_action(jira_open: bool) -> (r: SettingsCloseAction)
    ensures
        (r == SettingsCloseAction::Hide) == jira_open,
{
    if jira_open {
        SettingsCloseAction::Hide
    } else {
        SettingsCloseAction::Quit
    }
}

/// What the application shows first.
#[derive(Debug, PartialEq, Eq, Structural)]
pub enum StartupAction {
    /// No Jira URL yet: show the settings window so that one is entered.
    ShowSettings,
    /// Open the Jira window with the stored settings.
    OpenJira,
}

/// Decides what the application shows at start: the settings window where
/// the stored Jira URL is blank, the Jira window otherwise.
pub fn startup_action(initial: &Settings) -> (r: StartupAction)
    ensures
        (r == StartupAction::ShowSettings) == is_blank(initial@.jira_url),
{
    if trim(initial.jira_url.as_str()).unicode_len() == 0 {
        StartupAction::ShowSettings
    } else {
        StartupAction::OpenJira
    }
}

/// Saving settings with a valid URL drops the URL kept for the next start
/// exactly when the home URL text changed, surrounding white space aside:
/// any other path, query or host counts as a change, and re-saving the same
/// text (with or without surrounding spaces) never drops it. A URL that does
/// not validate is refused with the message of the check.
pub proof fn lemma_save_drops_last_url_iff_home_text_changes(prev: SettingsView, next: SettingsView)
    ensures
        spec_validate(next.jira_url) is Ok ==> (spec_prepare_save(prev, next) == Ok::<
            bool,
            Seq<char>,
        >(true) <==> spec_trim(prev.jira_url) != spec_trim(next.jira_url)),
        spec_validate(next.jira_url) is Ok ==> (spec_prepare_save(prev, next) == Ok::<
            bool,
            Seq<char>,
        >(false) <==> spec_trim(prev.jira_url) == spec_trim(next.jira_url)),
        spec_validate(next.jira_url) is Err ==> spec_prepare_save(prev, next) == Err::<
            bool,
            Seq<char>,
        >(spec_validate(next.jira_url)->Err_0),
{
}

/// A link that parses with the scheme `http` or `https` is handed on as the
/// parser's full serialization (path, query and fragment included); any
/// other scheme is refused; a link that does not parse is refused with the
/// parser's message after a fixed prefix.
pub proof fn lemma_external_link_hands_on_whole_url(p: Result<UrlView, Seq<char>>)
    ensures
        p is Ok && (p->Ok_0.scheme == "http"@ || p->Ok_0.scheme == "https"@) ==> spec_external_link(
            p,
        ) == Ok::<Seq<char>, Seq<char>>(p->Ok_0.href),
        p is Ok && p->Ok_0.scheme != "http"@ && p->Ok_0.scheme != "https"@ ==> spec_external_link(
            p,
        ) == Err::<Seq<char>, Seq<char>>("http/https の URL のみ開けます"@),
        p is Err ==> spec_external_link(p) == Err::<Seq<char>, Seq<char>>(
            "URL が不正です: "@ + p->Err_0,
        ),
{
}

/// Opening a link in the browser hands on exactly the parser's serialization
/// of the link as given (not trimmed), and only for `http` and `https`.
pub proof fn lemma_open_url_is_parsed_web_link(url: Seq<char>)
    ensures
        spec_external_link(spec_parse(url)) is Ok <==> (spec_parse(url) is Ok && (spec_parse(
            url,
        )->Ok_0.scheme == "http"@ || spec_parse(url)->Ok_0.scheme == "https"@)),
        spec_external_link(spec_parse(url)) is Ok ==> spec_external_link(spec_parse(url))->Ok_0
            == spec_parse(url)->Ok_0.href,
{
}

/// The settings window shows first exactly when every character of the
/// stored Jira URL is white space (the empty URL included).
pub proof fn lemma_startup_shows_settings_iff_url_all_white(s: SettingsView)
    ensures
        is_blank(s.jira_url) <==> forall|i: int|
            0 <= i < s.jira_url.len() ==> spec_is_white_space(#[trigger] s.jira_url[i]),
{
    crate::text::lemma_blank_iff_all_white_space(s.jira_url);
}

} // verus!
