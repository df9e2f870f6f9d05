//! The application settings and the validation of the Jira URL.
//!
//! To keep the browser a trust boundary of its own, the URL that it is set
//! to open must be `https` on `atlassian.net` or one of its subdomains: no
//! downgrade to plain HTTP, and no look-alike host.
use vstd::prelude::*;
use crate::text::{
    ends_with, is_blank, lemma_blank_iff_all_white_space, lemma_ends_with_iff_appended, spec_ends_with,
    spec_is_white_space, spec_trim, trim,
};
use crate::web_url::{Url, UrlError, UrlView, spec_parse, parse_outcome};

verus! {

/// The settings of the application.
#[derive(Debug, Clone)]
pub struct Settings {
    /// The Jira Cloud URL to show (e.g. `https://your-domain.atlassian.net`).
    pub jira_url: String,
    /// Script that the user injects into the Jira window.
    pub custom_js: String,
    /// Style sheet that the user injects into the Jira window.
    pub custom_css: String,
    /// Whether the Jira window reloads itself when idle.
    pub auto_reload_enabled: bool,
    /// Seconds without input after which the window counts as idle.
    pub idle_threshold_secs: u64,
    /// Seconds between two idle checks.
    pub reload_check_interval_secs: u64,
}

/// The settings, by value.
pub struct SettingsView {
    pub jira_url: Seq<char>,
    pub custom_js: Seq<char>,
    pub custom_css: Seq<char>,
    pub auto_reload_enabled: bool,
    pub idle_threshold_secs: u64,
    pub reload_check_interval_secs: u64,
}

impl View for Settings {
    type V = SettingsView;

    open spec fn view(&self) -> SettingsView {
        SettingsView {
            jira_url: self.jira_url@,
            custom_js: self.custom_js@,
            custom_css: self.custom_css@,
            auto_reload_enabled: self.auto_reload_enabled,
            idle_threshold_secs: self.idle_threshold_secs,
            reload_check_interval_secs: self.reload_check_interval_secs,
        }
    }
}

/// The settings of a fresh installation: no URL, no injected code,
/// auto-reload on after 300 idle seconds, checked every 30 seconds.
pub open spec fn default_settings() -> SettingsView {
    SettingsView {
        jira_url: Seq::empty(),
        custom_js: Seq::empty(),
        custom_css: Seq::empty(),
        auto_reload_enabled: true,
        idle_threshold_secs: 300,
        reload_check_interval_secs: 30,
    }
}

impl Default for Settings {
    fn default() -> (r: Self)
        ensures
            r@ == default_settings(),
    {
        Settings {
            jira_url: String::new(),
            custom_js: String::new(),
            custom_css: String::new(),
            auto_reload_enabled: true,
            idle_threshold_secs: 300,
            reload_check_interval_secs: 30,
        }
    }
}

/// The settings that were stored, or the defaults where none could be read.
pub fn settings_or_default(stored: Option<Settings>) -> (r: Settings)
    ensures
        r@ == match stored {
            Some(s) => s@,
            None => default_settings(),
        },
{
    match stored {
        Some(s) => s,
        None => Settings::default(),
    }
}

/// Refusal of a scheme other than `https`.
pub open spec fn msg_not_https() -> Seq<char> {
    "Jira URL は https である必要があります"@
}

/// Refusal of a host outside `atlassian.net`.
pub open spec fn msg_not_atlassian() -> Seq<char> {
    "Jira URL のホストは *.atlassian.net である必要があります"@
}

/// What precedes the parser's message when the URL does not parse.
pub open spec fn msg_invalid_prefix() -> Seq<char> {
    "Jira URL が不正です: "@
}

/// Refusal of an empty URL where one is needed.
pub open spec fn msg_unset() -> Seq<char> {
    "Jira URL が設定されていません"@
}

/// `host` is `atlassian.net` or one of its subdomains.
pub open spec fn is_atlassian_host(host: Seq<char>) -> bool {
    host == "atlassian.net"@ || spec_ends_with(host, ".atlassian.net"@)
}

/// The judgement on a parsed URL: `https`, and a host under `atlassian.net`.
pub open spec fn spec_check_https_atlassian(u: UrlView) -> Result<(), Seq<char>> {
    if u.scheme != "https"@ {
        Err(msg_not_https())
    } else {
        match u.host {
            Some(h) => if is_atlassian_host(h) {
                Ok(())
            } else {
                Err(msg_not_atlassian())
            },
            None => Err(msg_not_atlassian()),
        }
    }
}

/// The judgement on the outcome of a parse.
pub open spec fn spec_accept_parsed(p: Result<UrlView, Seq<char>>) -> Result<UrlView, Seq<char>> {
    match p {
        Err(e) => Err(msg_invalid_prefix() + e),
        Ok(u) => match spec_check_https_atlassian(u) {
            Ok(_) => Ok(u),
            Err(m) => Err(m),
        },
    }
}

/// What opening the Jira URL `raw` resolves to.
pub open spec fn spec_require(raw: Seq<char>) -> Result<UrlView, Seq<char>> {
    if is_blank(raw) {
        Err(msg_unset())
    } else {
        spec_accept_parsed(spec_parse(spec_trim(raw)))
    }
}

/// Whether `raw` may be saved as the Jira URL: empty, or a URL that opening
/// accepts.
pub open spec fn spec_validate(raw: Seq<char>) -> Result<(), Seq<char>> {
    if is_blank(raw) {
        Ok(())
    } else {
        match spec_parse(spec_trim(raw)) {
            Err(e) => Err(msg_invalid_prefix() + e),
            Ok(u) => spec_check_https_atlassian(u),
        }
    }
}

/// A unit outcome, by views.
pub open spec fn unit_outcome(r: Result<(), String>) -> Result<(), Seq<char>> {
    match r {
        Ok(_) => Ok(()),
        Err(m) => Err(m@),
    }
}

/// A URL outcome, by views.
pub open spec fn url_outcome(r: Result<Url, String>) -> Result<UrlView, Seq<char>> {
    match r {
        Ok(u) => Ok(u@),
        Err(m) => Err(m@),
    }
}

/// Checks that a parsed URL is `https` with a host that is `atlassian.net`
/// or one of its subdomains.
pub fn check_https_atlassian(url: &Url) -> (r: Result<(), String>)
    ensures
        unit_outcome(r) == spec_check_https_atlassian(url@),
{
    proof {
        reveal_strlit("https");
        reveal_strlit("atlassian.net");
        reveal_strlit(".atlassian.net");
    }
    if !url.has_scheme("https") {
        return Err(String::from_str("Jira URL は https である必要があります"));
    }
    match url.host_str() {
        Some(h) => {
            if crate::text::same_text(h, "atlassian.net") || ends_with(h, ".atlassian.net") {
                Ok(())
            } else {
                Err(String::from_str("Jira URL のホストは *.atlassian.net である必要があります"))
            }
        },
        None => Err(String::from_str("Jira URL のホストは *.atlassian.net である必要があります")),
    }
}

/// Accepts the outcome of parsing a Jira URL: a parse error becomes a
/// refusal that quotes it, and a parsed URL must pass
/// [`check_https_atlassian`].
pub fn jira_url_from_parsed(parsed: Result<Url, UrlError>) -> (r: Result<Url, String>)
    ensures
        url_outcome(r) == spec_accept_parsed(parse_outcome(parsed)),
{
    match parsed {
        Err(e) => {
            let mut m = String::from_str("Jira URL が不正です: ");
            m.append(e.message());
            Err(m)
        },
        Ok(u) => match check_https_atlassian(&u) {
            Ok(()) => Ok(u),
            Err(m) => Err(m),
        },
    }
}

/// Checks a Jira URL before it is saved. An empty (or blank) URL is allowed:
/// it means "not set yet". Otherwise, after trimming, it must parse and be
/// `https` on `atlassian.net` or a subdomain of it.
pub fn validate_jira_url(raw: &str) -> (r: Result<(), String>)
    ensures
        unit_outcome(r) == spec_validate(raw@),
{
    let t = trim(raw);
    if t.unicode_len() == 0 {
        return Ok(());
    }
    match jira_url_from_parsed(Url::parse(t)) {
        Ok(_) => Ok(()),
        Err(m) => Err(m),
    }
}

/// Resolves the Jira URL to open. An empty (or blank) URL is refused;
/// otherwise, after trimming, it must parse and be `https` on
/// `atlassian.net` or a subdomain of it, and the parsed URL is returned.
pub fn require_jira_url(raw: &str) -> (r: Result<Url, String>)
    ensures
        url_outcome(r) == spec_require(raw@),
{
    let t = trim(raw);
    if t.unicode_len() == 0 {
        return Err(String::from_str("Jira URL が設定されていません"));
    }
    jira_url_from_parsed(Url::parse(t))
}

/// Saving and opening agree on every URL that is not blank: saving accepts
/// exactly the URLs that opening accepts, and refuses the others with the
/// same message. A blank URL may be saved but not opened.
pub proof fn lemma_validate_agrees_with_require(raw: Seq<char>)
    ensures
        is_blank(raw) ==> spec_validate(raw) == Ok::<(), Seq<char>>(())
            && spec_require(raw) == Err::<UrlView, Seq<char>>(msg_unset()),
        !is_blank(raw) ==> (spec_validate(raw) is Ok <==> spec_require(raw) is Ok),
        !is_blank(raw) ==> forall|m: Seq<char>|
            spec_validate(raw) == Err::<(), Seq<char>>(m) <==> spec_require(raw) == Err::<
                UrlView,
                Seq<char>,
            >(m),
{
}

/// Leading and trailing white space never changes the outcome: a URL is
/// judged as its trimmed text is.
pub proof fn lemma_checks_ignore_surrounding_space(raw: Seq<char>)
    ensures
        spec_validate(spec_trim(raw)) == spec_validate(raw),
        spec_require(spec_trim(raw)) == spec_require(raw),
{
    crate::text::lemma_trim_idempotent(raw);
}

/// Every URL that opening accepts is `https` with a host that is
/// `atlassian.net` or one of its subdomains, and it is what the trimmed
/// input parses to.
pub proof fn lemma_accepted_url_is_https_atlassian(raw: Seq<char>)
    ensures
        spec_require(raw) is Ok ==> {
            let u = spec_require(raw)->Ok_0;
            &&& u.scheme == "https"@
            &&& u.host is Some
            &&& is_atlassian_host(u.host->0)
            &&& spec_parse(spec_trim(raw)) == Ok::<UrlView, Seq<char>>(u)
        },
        spec_validate(raw) is Ok && !is_blank(raw) ==> {
            let u = spec_parse(spec_trim(raw))->Ok_0;
            &&& spec_parse(spec_trim(raw)) is Ok
            &&& u.scheme == "https"@
            &&& u.host is Some
            &&& is_atlassian_host(u.host->0)
        },
{
}

/// `h` is `atlassian.net` itself or some text followed by `.atlassian.net`.
pub open spec fn atlassian_named(h: Seq<char>) -> bool {
    h == "atlassian.net"@ || exists|p: Seq<char>| h == p + ".atlassian.net"@
}

/// Opening accepts exactly the URLs that are not all white space, whose
/// trimmed text parses, with the scheme `https` and a host that is
/// `atlassian.net` or ends with `.atlassian.net`; what it returns is the
/// parsed URL. Each refusal has its own message: not set, does not parse
/// (the parser's message after a fixed prefix), not `https`, not
/// `atlassian.net`. Saving accepts the same URLs plus the blank ones.
pub proof fn lemma_require_accepts_exactly_https_atlassian(raw: Seq<char>)
    ensures
        spec_require(raw) is Ok <==> ({
            let p = spec_parse(spec_trim(raw));
            &&& !(forall|i: int| 0 <= i < raw.len() ==> spec_is_white_space(#[trigger] raw[i]))
            &&& p is Ok
            &&& p->Ok_0.scheme == "https"@
            &&& p->Ok_0.host is Some
            &&& atlassian_named(p->Ok_0.host->0)
        }),
        spec_require(raw) is Ok ==> spec_require(raw)->Ok_0 == spec_parse(spec_trim(raw))->Ok_0,
        (forall|i: int| 0 <= i < raw.len() ==> spec_is_white_space(#[trigger] raw[i]))
            ==> spec_require(raw) == Err::<UrlView, Seq<char>>("Jira URL が設定されていません"@),
        !is_blank(raw) && spec_parse(spec_trim(raw)) is Err ==> spec_require(raw) == Err::<
            UrlView,
            Seq<char>,
        >("Jira URL が不正です: "@ + spec_parse(spec_trim(raw))->Err_0),
        !is_blank(raw) && spec_parse(spec_trim(raw)) is Ok && spec_parse(spec_trim(raw))->Ok_0.scheme
            != "https"@ ==> spec_require(raw) == Err::<UrlView, Seq<char>>(
            "Jira URL は https である必要があります"@,
        ),
        !is_blank(raw) && spec_parse(spec_trim(raw)) is Ok && spec_parse(spec_trim(raw))->Ok_0.scheme
            == "https"@ && !(spec_parse(spec_trim(raw))->Ok_0.host is Some && atlassian_named(
            spec_parse(spec_trim(raw))->Ok_0.host->0,
        )) ==> spec_require(raw) == Err::<UrlView, Seq<char>>(
            "Jira URL のホストは *.atlassian.net である必要があります"@,
        ),
        spec_validate(raw) is Ok <==> (is_blank(raw) || spec_require(raw) is Ok),
{
    lemma_blank_iff_all_white_space(raw);
    let p = spec_parse(spec_trim(raw));
    if p is Ok && p->Ok_0.host is Some {
        lemma_ends_with_iff_appended(p->Ok_0.host->0, ".atlassian.net"@);
    }
}

/// The defaults: no Jira URL, no script or style, auto-reload on, idle after
/// 300 seconds, checked every 30 seconds.
pub proof fn lemma_default_settings_values()
    ensures
        default_settings().jira_url.len() == 0,
        default_settings().custom_js.len() == 0,
        default_settings().custom_css.len() == 0,
        default_settings().auto_reload_enabled,
        default_settings().idle_threshold_secs == 300,
        default_settings().reload_check_interval_secs == 30,
{
}

} // verus!
