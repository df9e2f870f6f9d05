//! The scripts that the Jira window receives: the user's own script, wrapped
//! so that its errors stay inside it, and the script that hands the current
//! settings to the page (`window.__JIRAPP_APPLY__`).
use vstd::prelude::*;
use crate::json::{json_escape, json_string_literal, json_unescape, lemma_json_escape_reads_back};
use crate::settings::{Settings, SettingsView};
use crate::text::{
    bool_text, bool_to_text, decimal, decimal_text, decimal_value, is_blank, lemma_blank_iff_all_white_space,
    lemma_decimal_reads_back, spec_is_white_space, trim,
};

verus! {

/// What precedes the user's script in its wrapper.
pub open spec fn user_js_head() -> Seq<char> {
    "try {\n"@
}

/// What follows the user's script in its wrapper.
pub open spec fn user_js_tail() -> Seq<char> {
    "\n} catch (e) { console.error('[jirapp] user JS error', e); }"@
}

/// The user's script `js` inside a `try`/`catch` that logs its error.
pub open spec fn spec_user_js_wrapper(js: Seq<char>) -> Seq<char> {
    user_js_head() + js + user_js_tail()
}

/// Wraps the user's script so that a syntax or run-time error in it stays
/// inside this script and does not reach the base scripts.
pub fn user_js_wrapper(js: &str) -> (r: String)
    ensures
        r@ == spec_user_js_wrapper(js@),
{
    let mut r = String::from_str("try {\n");
    r.append(js);
    r.append("\n} catch (e) { console.error('[jirapp] user JS error', e); }");
    r
}

/// The user's script as the Jira window receives it: wrapped, and only where
/// the script is not blank.
pub open spec fn spec_user_init_script(s: SettingsView) -> Option<Seq<char>> {
    if is_blank(s.custom_js) {
        None
    } else {
        Some(spec_user_js_wrapper(s.custom_js))
    }
}

/// The user's script to inject after the base scripts, if there is one.
pub fn user_init_script(s: &Settings) -> (r: Option<String>)
    ensures
        crate::web_url::opt_text(r) == spec_user_init_script(s@),
{
    if trim(s.custom_js.as_str()).unicode_len() == 0 {
        None
    } else {
        Some(user_js_wrapper(s.custom_js.as_str()))
    }
}

/// Calls `serde_json::to_string` on a string. Its source writes a string as
/// `"`, each character escaped as `json_escape_char` states, and `"`, into a
/// `Vec<u8>` that never fails to take the bytes; serializing a `str` has no
/// other way to fail. The contract claims exactly that text, as `Some`.
#[verifier::external_body]
fn json_quote(s: &str) -> (r: Option<String>)
    ensures
        r is Some,
        r.unwrap()@ == json_string_literal(s@),
{
    serde_json::to_string(s).ok()
}

/// The CSS of `s` as a JSON string literal.
pub open spec fn css_literal(s: SettingsView) -> Seq<char> {
    json_string_literal(s.custom_css)
}

/// The script that hands settings to the page, with the CSS already written
/// as the JavaScript literal `css`.
pub open spec fn spec_config_script(s: SettingsView, css: Seq<char>) -> Seq<char> {
    "(function(){ if (!window.__JIRAPP_APPLY__) return; window.__JIRAPP_APPLY__({autoReloadEnabled:"@
        + bool_text(s.auto_reload_enabled) + ",idleThresholdSecs:"@ + decimal(
        s.idle_threshold_secs as nat,
    ) + ",reloadCheckIntervalSecs:"@ + decimal(s.reload_check_interval_secs as nat)
        + ",customCss:"@ + css + "}); })();"@
}

/// Builds the script that calls `window.__JIRAPP_APPLY__` with the
/// auto-reload flag, the idle threshold, the check interval and `css_literal`
/// as the style sheet; it does nothing on a page that has no such function.
pub fn config_script(s: &Settings, css_literal: &str) -> (r: String)
    ensures
        r@ == spec_config_script(s@, css_literal@),
{
    let mut r = String::from_str(
        "(function(){ if (!window.__JIRAPP_APPLY__) return; window.__JIRAPP_APPLY__({autoReloadEnabled:",
    );
    let auto = bool_to_text(s.auto_reload_enabled);
    r.append(auto.as_str());
    r.append(",idleThresholdSecs:");
    let idle = decimal_text(s.idle_threshold_secs);
    r.append(idle.as_str());
    r.append(",reloadCheckIntervalSecs:");
    let interval = decimal_text(s.reload_check_interval_secs);
    r.append(interval.as_str());
    r.append(",customCss:");
    r.append(css_literal);
    r.append("}); })();");
    r
}

/// The script that pushes the current settings into the page: the CSS is
/// JSON-encoded so that any text is safely quoted. The branch with the empty
/// literal is never taken: the serializer cannot fail on a string.
pub fn push_config_script(s: &Settings) -> (r: String)
    ensures
        r@ == spec_config_script(s@, css_literal(s@)),
{
    match json_quote(s.custom_css.as_str()) {
        Some(css) => config_script(s, css.as_str()),
        None => config_script(s, "\"\""),
    }
}

/// Whether a page load pushes the settings into the page: only once the
/// load has finished (single-page navigation and live saves included), and
/// only while the settings state is available.
pub fn push_config_on_page_load(load_finished: bool, state_available: bool) -> (r: bool)
    ensures
        r == (load_finished && state_available),
{
    load_finished && state_available
}

/// The text before the CSS in the script for `s`.
pub open spec fn config_head(s: SettingsView) -> Seq<char> {
    "(function(){ if (!window.__JIRAPP_APPLY__) return; window.__JIRAPP_APPLY__({autoReloadEnabled:"@
        + bool_text(s.auto_reload_enabled) + ",idleThresholdSecs:"@ + decimal(
        s.idle_threshold_secs as nat,
    ) + ",reloadCheckIntervalSecs:"@ + decimal(s.reload_check_interval_secs as nat)
        + ",customCss:"@
}

/// Whatever the CSS holds, it reaches the page as one string literal: the
/// pushed script is a fixed head (which the CSS does not touch), a `"`, the
/// escaped CSS, a `"` and the fixed tail. The escaped text is well-formed
/// JSON string contents (no bare `"` to end the literal early, no bare
/// control character) and reads back as exactly the CSS.
pub proof fn lemma_css_stays_one_string_literal(s: SettingsView)
    ensures
        spec_config_script(s, css_literal(s)) == config_head(s) + seq!['"'] + json_escape(
            s.custom_css,
        ) + seq!['"'] + "}); })();"@,
        json_unescape(json_escape(s.custom_css)) == Some(s.custom_css),
{
    lemma_json_escape_reads_back(s.custom_css);
    assert(spec_config_script(s, css_literal(s)) =~= config_head(s) + seq!['"'] + json_escape(
        s.custom_css,
    ) + seq!['"'] + "}); })();"@);
}

/// The wrapped script is the fixed head, then the user's script character
/// for character, then the fixed tail that catches and logs its errors.
pub proof fn lemma_user_script_kept_verbatim(js: Seq<char>)
    ensures
        spec_user_js_wrapper(js).len() == "try {\n"@.len() + js.len()
            + "\n} catch (e) { console.error('[jirapp] user JS error', e); }"@.len(),
        spec_user_js_wrapper(js).subrange(0, "try {\n"@.len() as int) == "try {\n"@,
        spec_user_js_wrapper(js).subrange(
            "try {\n"@.len() as int,
            ("try {\n"@.len() + js.len()) as int,
        ) == js,
        spec_user_js_wrapper(js).subrange(
            ("try {\n"@.len() + js.len()) as int,
            spec_user_js_wrapper(js).len() as int,
        ) == "\n} catch (e) { console.error('[jirapp] user JS error', e); }"@,
{
    let w = spec_user_js_wrapper(js);
    let h = "try {\n"@;
    let t = "\n} catch (e) { console.error('[jirapp] user JS error', e); }"@;
    assert(w.subrange(0, h.len() as int) =~= h);
    assert(w.subrange(h.len() as int, (h.len() + js.len()) as int) =~= js);
    assert(w.subrange((h.len() + js.len()) as int, w.len() as int) =~= t);
}

/// The user's script is injected exactly when one of its characters is not
/// white space, and then wrapped.
pub proof fn lemma_user_script_injected_unless_all_white(s: SettingsView)
    ensures
        spec_user_init_script(s) is None <==> forall|i: int|
            0 <= i < s.custom_js.len() ==> spec_is_white_space(#[trigger] s.custom_js[i]),
        spec_user_init_script(s) is Some ==> spec_user_init_script(s)->0 == spec_user_js_wrapper(
            s.custom_js,
        ),
{
    lemma_blank_iff_all_white_space(s.custom_js);
}

/// The pushed script is, piece for piece: the fixed call prefix, `true` or
/// `false` for auto-reload, the idle threshold and the check interval each
/// in decimal (reading back as the numbers), and the CSS as a JSON string
/// literal, with the fixed separators between them.
pub proof fn lemma_config_script_pieces(s: SettingsView, css: Seq<char>)
    ensures
        spec_config_script(s, css) == "(function(){ if (!window.__JIRAPP_APPLY__) return; window.__JIRAPP_APPLY__({autoReloadEnabled:"@
            + (if s.auto_reload_enabled {
            "true"@
        } else {
            "false"@
        }) + ",idleThresholdSecs:"@ + decimal(s.idle_threshold_secs as nat)
            + ",reloadCheckIntervalSecs:"@ + decimal(s.reload_check_interval_secs as nat)
            + ",customCss:"@ + css + "}); })();"@,
        decimal_value(decimal(s.idle_threshold_secs as nat)) == s.idle_threshold_secs,
        decimal_value(decimal(s.reload_check_interval_secs as nat))
            == s.reload_check_interval_secs,
{
    lemma_decimal_reads_back(s.idle_threshold_secs as nat);
    lemma_decimal_reads_back(s.reload_check_interval_secs as nat);
}

} // verus!
