//! The decisions around the Jira window: which URL it opens, which popups it
//! lets through, what its creation is given, what its closing does, and when
//! the URL that it shows is saved for the next start.
use vstd::prelude::*;
use crate::inject::{spec_user_init_script, user_init_script};
use crate::settings::{Settings, SettingsView, require_jira_url, spec_require};
use crate::state::AppState;
use crate::text::{same_text, spec_trim, trim};
use crate::web_url::{Url, UrlView, opt_text, spec_parse};

verus! {

/// `target` is an `https` URL on exactly the host `host`: the same tenant.
pub open spec fn spec_same_tenant(target: UrlView, host: Seq<char>) -> bool {
    target.scheme == "https"@ && target.host == Some(host)
}

/// Whether `target` is an `https` link to the registered host itself (not
/// merely some `*.atlassian.net` host). Only such links may open as popups
/// that share the session.
pub fn is_same_tenant_url(target: &Url, registered_host: &str) -> (r: bool)
    ensures
        r == spec_same_tenant(target@, registered_host@),
{
    proof {
        reveal_strlit("https");
    }
    if !target.has_scheme("https") {
        return false;
    }
    match target.host_str() {
        Some(h) => same_text(h, registered_host),
        None => false,
    }
}

/// The host of the registered Jira URL, where it parses and has one.
pub open spec fn spec_registered_host(jira_url: Seq<char>) -> Option<Seq<char>> {
    match spec_parse(spec_trim(jira_url)) {
        Ok(u) => u.host,
        Err(_) => None,
    }
}

/// The host of the Jira URL in the current settings, if it parses and has
/// one.
pub fn registered_host(state: &AppState) -> (r: Option<String>)
    ensures
        opt_text(r) == spec_registered_host(state@.jira_url),
{
    let raw = trim(state.0.jira_url.as_str());
    match Url::parse(raw) {
        Ok(u) => u.host_string(),
        Err(_) => None,
    }
}

/// The URL to open at start: the last URL shown, where it parses (trimmed)
/// to a link of the same tenant as the registered host; the home URL
/// otherwise.
pub open spec fn spec_resolve_startup_url(
    last: Option<Seq<char>>,
    registered: Option<Seq<char>>,
    home: Seq<char>,
) -> Seq<char> {
    match (last, registered) {
        (Some(l), Some(h)) => match spec_parse(spec_trim(l)) {
            Ok(u) => if spec_same_tenant(u, h) {
                l
            } else {
                home
            },
            Err(_) => home,
        },
        _ => home,
    }
}

/// Resolves the URL that the Jira window opens at start. The URL saved when
/// the window last closed (`last_url`) is restored, so that a filter held in
/// its query survives a restart, but only where it is an `https` link to the
/// registered host; otherwise the home URL of the settings is opened.
pub fn resolve_startup_url(last_url: Option<String>, registered: Option<String>, s: &Settings) -> (r:
    String)
    ensures
        r@ == spec_resolve_startup_url(opt_text(last_url), opt_text(registered), s@.jira_url),
{
    match (last_url, registered) {
        (Some(last), Some(host)) => match Url::parse(trim(last.as_str())) {
            Ok(u) => {
                if is_same_tenant_url(&u, host.as_str()) {
                    last
                } else {
                    s.jira_url.clone()
                }
            },
            Err(_) => s.jira_url.clone(),
        },
        _ => s.jira_url.clone(),
    }
}

/// The answer to a page that asks for a new window.
#[derive(Debug, PartialEq, Eq, Structural)]
pub enum NewWindowResponse {
    /// Open it as a popup in the same session.
    Allow,
    /// Suppress it.
    Deny,
}

/// Whether a new window for `target` may open: only links to the same
/// tenant as the registered host, and none while no host is registered.
pub open spec fn spec_allows_new_window(target: UrlView, registered: Option<Seq<char>>) -> bool {
    match registered {
        Some(h) => spec_same_tenant(target, h),
        None => false,
    }
}

/// Answers a request of the Jira page for a new window (`target=_blank`,
/// `window.open`). Links to the registered tenant (Jira, Confluence) open in
/// the same session; anything else (other tenants, plain HTTP, sign-in
/// pages) is suppressed.
pub fn new_window_response(target: &Url, registered: Option<String>) -> (r: NewWindowResponse)
    ensures
        (r == NewWindowResponse::Allow) == spec_allows_new_window(target@, opt_text(registered)),
{
    match registered {
        Some(h) => if is_same_tenant_url(target, h.as_str()) {
            NewWindowResponse::Allow
        } else {
            NewWindowResponse::Deny
        },
        None => NewWindowResponse::Deny,
    }
}

/// What opening the Jira window comes to.
#[derive(Debug)]
pub enum OpenAction {
    /// The window is open already: focus it and push the settings to it.
    FocusAndApply,
    /// Create the window on this URL.
    Build(String),
}

/// What opening comes to, by views: `None` to focus the open window, the URL
/// to build the window on otherwise.
pub open spec fn spec_plan_open(s: SettingsView, jira_open: bool) -> Result<
    Option<Seq<char>>,
    Seq<char>,
> {
    match spec_require(s.jira_url) {
        Err(m) => Err(m),
        Ok(_) => if jira_open {
            Ok(None)
        } else {
            Ok(Some(s.jira_url))
        },
    }
}

/// An open plan, by views.
pub open spec fn open_outcome(r: Result<OpenAction, String>) -> Result<Option<Seq<char>>, Seq<char>> {
    match r {
        Ok(OpenAction::FocusAndApply) => Ok(None),
        Ok(OpenAction::Build(u)) => Ok(Some(u@)),
        Err(m) => Err(m@),
    }
}

/// Decides how to open the Jira window. The URL of the settings is checked
/// first and a refusal is returned as is; then an open window is focused,
/// and otherwise a window is built on the home URL.
pub fn plan_open(s: &Settings, jira_open: bool) -> (r: Result<OpenAction, String>)
    ensures
        open_outcome(r) == spec_plan_open(s@, jira_open),
{
    match require_jira_url(s.jira_url.as_str()) {
        Err(m) => Err(m),
        Ok(_) => if jira_open {
            Ok(OpenAction::FocusAndApply)
        } else {
            Ok(OpenAction::Build(s.jira_url.clone()))
        },
    }
}

/// What the Jira window is created with.
#[derive(Debug)]
pub struct JiraWindowPlan {
    /// The URL that it loads.
    pub url: Url,
    /// The user's script, wrapped, where the user has one.
    pub user_script: Option<String>,
}

/// Plans the creation of the Jira window on `open_url`: the URL must pass
/// the same check as the home URL (a restored URL too), and the user's
/// script is injected only where it is not blank.
pub fn plan_jira_window(s: &Settings, open_url: &str) -> (r: Result<JiraWindowPlan, String>)
    ensures
        match r {
            Ok(p) => spec_require(open_url@) == Ok::<UrlView, Seq<char>>(p.url@) && opt_text(
                p.user_script,
            ) == spec_user_init_script(s@),
            Err(m) => spec_require(open_url@) == Err::<UrlView, Seq<char>>(m@),
        },
{
    let url = require_jira_url(open_url);
    match url {
        Ok(url) => Ok(JiraWindowPlan { url, user_script: user_init_script(s) }),
        Err(m) => Err(m),
    }
}

/// What closing the Jira window does.
#[derive(Debug, PartialEq, Eq, Structural)]
pub enum JiraCloseAction {
    /// Save the URL shown, then quit: the settings window is hidden, so
    /// nothing would be left on screen.
    SaveUrlAndQuit,
    /// Save the URL shown and let the settings window stay.
    SaveUrl,
}

/// Decides what closing the Jira window does: the URL shown is always saved
/// for the next start, and the application quits unless the settings
/// window is visible.
pub fn jira_close_action(settings_visible: bool) -> (r: JiraCloseAction)
    ensures
        (r == JiraCloseAction::SaveUrlAndQuit) == !settings_visible,
{
    if settings_visible {
        JiraCloseAction::SaveUrl
    } else {
        JiraCloseAction::SaveUrlAndQuit
    }
}

/// What one look at the URL of the Jira window leads to.
#[derive(Debug)]
pub enum PollAction {
    /// The URL changed since it was last saved: save this one.
    Persist(String),
    /// The URL is the one saved last: write nothing.
    Unchanged,
    /// The window is gone or cannot be read: stop watching.
    Stop,
}

/// Keeps the URL that was saved last while the URL of the Jira window is
/// watched, so that the store is written only when the URL changes.
pub struct LastUrlTracker {
    last_saved: Option<String>,
}

impl View for LastUrlTracker {
    type V = Option<Seq<char>>;

    closed spec fn view(&self) -> Option<Seq<char>> {
        opt_text(self.last_saved)
    }
}

/// The URL to save after the URL `seen` is observed with `last` saved last:
/// `seen` where it differs from `last`, nothing otherwise.
pub open spec fn spec_poll_persists(last: Option<Seq<char>>, seen: Seq<char>) -> Option<Seq<char>> {
    if last == Some(seen) {
        None
    } else {
        Some(seen)
    }
}

/// The URL saved last after `seen` is observed.
pub open spec fn spec_poll_next(last: Option<Seq<char>>, seen: Option<Seq<char>>) -> Option<
    Seq<char>,
> {
    match seen {
        Some(u) => Some(u),
        None => last,
    }
}

/// One step of the URL watch, by views.
pub enum PollStep {
    /// Write this URL.
    Write(Seq<char>),
    /// Write nothing.
    Skip,
    /// Stop watching.
    Stop,
}

/// What one observation `seen` (nothing where the window is gone) leads to,
/// with `last` saved last.
pub open spec fn spec_poll_step(last: Option<Seq<char>>, seen: Option<Seq<char>>) -> PollStep {
    match seen {
        None => PollStep::Stop,
        Some(u) => match spec_poll_persists(last, u) {
            Some(p) => PollStep::Write(p),
            None => PollStep::Skip,
        },
    }
}

/// A poll action, by views.
pub open spec fn poll_action_view(a: PollAction) -> PollStep {
    match a {
        PollAction::Persist(u) => PollStep::Write(u@),
        PollAction::Unchanged => PollStep::Skip,
        PollAction::Stop => PollStep::Stop,
    }
}

/// The steps of a whole watch over the observations `obs`, with `last` saved
/// last: one step per observation, up to and including the first missing
/// window, after which nothing more is observed.
pub open spec fn spec_poll_run(last: Option<Seq<char>>, obs: Seq<Option<Seq<char>>>) -> Seq<PollStep>
    decreases obs.len(),
{
    if obs.len() == 0 {
        Seq::empty()
    } else {
        match obs[0] {
            None => seq![PollStep::Stop],
            Some(u) => seq![spec_poll_step(last, Some(u))] + spec_poll_run(
                spec_poll_next(last, Some(u)),
                obs.drop_first(),
            ),
        }
    }
}

/// The observations of a window that shows `urls` in turn and is then gone,
/// followed by whatever else (`rest`).
pub open spec fn shown_then_gone(urls: Seq<Seq<char>>, rest: Seq<Option<Seq<char>>>) -> Seq<
    Option<Seq<char>>,
> {
    urls.map_values(|u: Seq<char>| Some(u)) + seq![None] + rest
}

impl LastUrlTracker {
    /// A tracker that has saved nothing yet.
    pub fn new() -> (r: LastUrlTracker)
        ensures
            r@ is None,
    {
        LastUrlTracker { last_saved: None }
    }

    /// Takes one observation of the URL of the Jira window (`None` where the
    /// window is gone or could not be read) and says what to do with it.
    pub fn observe(&mut self, seen: Option<String>) -> (r: PollAction)
        ensures
            final(self)@ == spec_poll_next(old(self)@, opt_text(seen)),
            poll_action_view(r) == spec_poll_step(old(self)@, opt_text(seen)),
            match seen {
                None => r is Stop,
                Some(u) => match spec_poll_persists(old(self)@, u@) {
                    Some(p) => r matches PollAction::Persist(q) && q@ == p,
                    None => r is Unchanged,
                },
            },
    {
        match seen {
            None => PollAction::Stop,
            Some(u) => {
                let changed = match &self.last_saved {
                    Some(l) => !same_text(l.as_str(), u.as_str()),
                    None => true,
                };
                if changed {
                    let saved = u.clone();
                    self.last_saved = Some(u);
                    PollAction::Persist(saved)
                } else {
                    PollAction::Unchanged
                }
            },
        }
    }
}

/// A URL is written at most once while it stays the same: right after it is
/// saved, seeing it again saves nothing, and a URL that is saved always
/// differs from the one saved before it.
pub proof fn lemma_poll_writes_only_changes(last: Option<Seq<char>>, seen: Seq<char>)
    ensures
        spec_poll_persists(spec_poll_next(last, Some(seen)), seen) is None,
        spec_poll_persists(last, seen) matches Some(p) ==> last != Some(p) && p == seen,
{
}

proof fn lemma_poll_run_from(last: Option<Seq<char>>, urls: Seq<Seq<char>>, rest: Seq<
    Option<Seq<char>>,
>)
    ensures
        spec_poll_run(last, shown_then_gone(urls, rest)).len() == urls.len() + 1,
        spec_poll_run(last, shown_then_gone(urls, rest))[urls.len() as int] == PollStep::Stop,
        forall|k: int|
            0 <= k < urls.len() ==> #[trigger] spec_poll_run(last, shown_then_gone(urls, rest))[k]
                == (if (if k == 0 {
                last
            } else {
                Some(urls[k - 1])
            }) == Some(urls[k]) {
                PollStep::Skip
            } else {
                PollStep::Write(urls[k])
            }),
    decreases urls.len(),
{
    let obs = shown_then_gone(urls, rest);
    if urls.len() == 0 {
        assert(obs[0] == None::<Seq<char>>);
    } else {
        let u = urls[0];
        assert(obs[0] == Some(u));
        assert(obs.drop_first() =~= shown_then_gone(urls.drop_first(), rest));
        lemma_poll_run_from(Some(u), urls.drop_first(), rest);
        let tail = spec_poll_run(Some(u), obs.drop_first());
        assert(spec_poll_run(last, obs) == seq![spec_poll_step(last, Some(u))] + tail);
        assert forall|k: int| 0 <= k < urls.len() implies #[trigger] spec_poll_run(last, obs)[k]
            == (if (if k == 0 {
            last
        } else {
            Some(urls[k - 1])
        }) == Some(urls[k]) {
            PollStep::Skip
        } else {
            PollStep::Write(urls[k])
        }) by {
            if k > 0 {
                assert(spec_poll_run(last, obs)[k] == tail[k - 1]);
                assert(urls.drop_first()[k - 1] == urls[k]);
                if k > 1 {
                    assert(urls.drop_first()[k - 2] == urls[k - 1]);
                }
            }
        }
    }
}

/// Over a whole watch, from the start: while the window shows `urls` in
/// turn, a URL is written exactly at the first poll and at each poll where
/// it differs from the one seen just before (an unchanged URL is never
/// written again, whether or not the earlier write went through); the first
/// missing window stops the watch, and nothing after it is observed.
pub proof fn lemma_poll_run_writes_changes_only(
    urls: Seq<Seq<char>>,
    rest: Seq<Option<Seq<char>>>,
)
    ensures
        spec_poll_run(None, shown_then_gone(urls, rest)).len() == urls.len() + 1,
        spec_poll_run(None, shown_then_gone(urls, rest))[urls.len() as int] == PollStep::Stop,
        forall|k: int|
            0 <= k < urls.len() ==> #[trigger] spec_poll_run(None, shown_then_gone(urls, rest))[k]
                == (if k == 0 || urls[k] != urls[k - 1] {
                PollStep::Write(urls[k])
            } else {
                PollStep::Skip
            }),
{
    lemma_poll_run_from(None, urls, rest);
    assert forall|k: int| 0 <= k < urls.len() implies #[trigger] spec_poll_run(
        None,
        shown_then_gone(urls, rest),
    )[k] == (if k == 0 || urls[k] != urls[k - 1] {
        PollStep::Write(urls[k])
    } else {
        PollStep::Skip
    }) by {
        if k > 0 && urls[k] != urls[k - 1] {
            assert(Some(urls[k - 1]) != Some(urls[k]));
        }
    }
}

/// The last URL is restored whenever it is an `https` link to the
/// registered host: the trimmed text parses, its scheme is `https` and its
/// host is exactly the registered one. In every other case (nothing saved,
/// nothing registered, no parse, another scheme or host) the home URL opens.
pub proof fn lemma_startup_restores_exactly_same_tenant(
    last: Option<Seq<char>>,
    registered: Option<Seq<char>>,
    home: Seq<char>,
)
    ensures
        ({
            let restores = last is Some && registered is Some && spec_parse(spec_trim(last->0)) is Ok
                && spec_parse(spec_trim(last->0))->Ok_0.scheme == "https"@ && spec_parse(
                spec_trim(last->0),
            )->Ok_0.host == Some(registered->0);
            &&& restores ==> spec_resolve_startup_url(last, registered, home) == last->0
            &&& !restores ==> spec_resolve_startup_url(last, registered, home) == home
        }),
{
}

/// Two URLs are of the same tenant exactly when the target is `https` and
/// its host is the registered host, character for character.
pub proof fn lemma_same_tenant_is_https_on_that_host(target: UrlView, host: Seq<char>)
    ensures
        spec_same_tenant(target, host) <==> (target.scheme == "https"@ && target.host is Some
            && target.host->0 == host),
{
}

/// A page's request for a new window is allowed exactly when a host is
/// registered and the target is an `https` URL on that very host.
pub proof fn lemma_new_window_allowed_iff_https_on_registered_host(
    target: UrlView,
    registered: Option<Seq<char>>,
)
    ensures
        spec_allows_new_window(target, registered) <==> (registered is Some && target.scheme
            == "https"@ && target.host == Some(registered->0)),
{
}

/// Opening is refused exactly when the home URL is refused, with the same
/// message; otherwise an open window is focused and a new one is built on
/// the home URL exactly as it is stored.
pub proof fn lemma_open_checks_home_url_first(s: SettingsView, jira_open: bool)
    ensures
        spec_require(s.jira_url) is Err ==> spec_plan_open(s, jira_open) == Err::<
            Option<Seq<char>>,
            Seq<char>,
        >(spec_require(s.jira_url)->Err_0),
        spec_require(s.jira_url) is Ok && jira_open ==> spec_plan_open(s, jira_open) == Ok::<
            Option<Seq<char>>,
            Seq<char>,
        >(None),
        spec_require(s.jira_url) is Ok && !jira_open ==> spec_plan_open(s, jira_open) == Ok::<
            Option<Seq<char>>,
            Seq<char>,
        >(Some(s.jira_url)),
{
}

/// The registered host is the host of what the trimmed Jira URL parses to,
/// and there is none where it does not parse or has no host.
pub proof fn lemma_registered_host_is_parsed_host(jira_url: Seq<char>)
    ensures
        spec_parse(spec_trim(jira_url)) is Ok ==> spec_registered_host(jira_url) == spec_parse(
            spec_trim(jira_url),
        )->Ok_0.host,
        spec_parse(spec_trim(jira_url)) is Err ==> spec_registered_host(jira_url) is None,
{
}

/// A URL that opening accepts is of the same tenant as its own host: the
/// home URL itself opens popups in the session once it is registered.
pub proof fn lemma_accepted_url_is_own_tenant(raw: Seq<char>)
    ensures
        spec_require(raw) is Ok ==> spec_same_tenant(
            spec_require(raw)->Ok_0,
            spec_require(raw)->Ok_0.host->0,
        ),
        spec_require(raw) is Ok ==> spec_registered_host(raw) == spec_require(raw)->Ok_0.host,
{
    crate::settings::lemma_accepted_url_is_https_atlassian(raw);
}

/// The URL opened at start is the restored one or the home one, and a
/// restored URL is always an `https` link to the registered host.
pub proof fn lemma_startup_url_stays_in_tenant(
    last: Option<Seq<char>>,
    registered: Option<Seq<char>>,
    home: Seq<char>,
)
    ensures
        spec_resolve_startup_url(last, registered, home) == home || last == Some(
            spec_resolve_startup_url(last, registered, home),
        ),
        spec_resolve_startup_url(last, registered, home) != home ==> {
            &&& last is Some
            &&& registered is Some
            &&& spec_parse(spec_trim(last->0)) is Ok
            &&& spec_same_tenant(spec_parse(spec_trim(last->0))->Ok_0, registered->0)
        },
{
}

} // verus!
