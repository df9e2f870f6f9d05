use jirapp::{config_script, push_config_script, user_init_script, user_js_wrapper, Settings};

#[test]
fn user_script_is_wrapped_in_try_catch() {
    assert_eq!(
        user_js_wrapper("doIt();"),
        "try {\ndoIt();\n} catch (e) { console.error('[jirapp] user JS error', e); }"
    );
    assert_eq!(
        user_js_wrapper(""),
        "try {\n\n} catch (e) { console.error('[jirapp] user JS error', e); }"
    );
}

#[test]
fn blank_user_script_is_not_injected() {
    let mut s = Settings::default();
    assert_eq!(user_init_script(&s), None);
    s.custom_js = "\u{a0}\u{2003} ".to_string();
    assert_eq!(user_init_script(&s), None);
    s.custom_js = " x ".to_string();
    assert_eq!(
        user_init_script(&s).as_deref(),
        Some("try {\n x \n} catch (e) { console.error('[jirapp] user JS error', e); }")
    );
}

#[test]
fn config_script_of_default_settings() {
    let s = Settings::default();
    assert_eq!(
        push_config_script(&s),
        "(function(){ if (!window.__JIRAPP_APPLY__) return; window.__JIRAPP_APPLY__({autoReloadEnabled:true,idleThresholdSecs:300,reloadCheckIntervalSecs:30,customCss:\"\"}); })();"
    );
}

#[test]
fn config_script_quotes_css_as_json() {
    let mut s = Settings::default();
    s.auto_reload_enabled = false;
    s.idle_threshold_secs = 0;
    s.reload_check_interval_secs = u64::MAX;
    s.custom_css = "a::after { content: \"</x>\\\n\"; }".to_string();
    assert_eq!(
        push_config_script(&s),
        "(function(){ if (!window.__JIRAPP_APPLY__) return; window.__JIRAPP_APPLY__({autoReloadEnabled:false,idleThresholdSecs:0,reloadCheckIntervalSecs:18446744073709551615,customCss:\"a::after { content: \\\"</x>\\\\\\n\\\"; }\"}); })();"
    );
}

#[test]
fn config_script_takes_css_literal_as_given() {
    let s = Settings::default();
    assert_eq!(
        config_script(&s, "'x'"),
        "(function(){ if (!window.__JIRAPP_APPLY__) return; window.__JIRAPP_APPLY__({autoReloadEnabled:true,idleThresholdSecs:300,reloadCheckIntervalSecs:30,customCss:'x'}); })();"
    );
}

#[test]
fn css_escaping_covers_control_characters() {
    let mut s = Settings::default();
    s.custom_css = "a\u{1}\u{1f}\u{8}\u{c}\r\t\"\\/é\u{2028}".to_string();
    assert_eq!(
        push_config_script(&s),
        "(function(){ if (!window.__JIRAPP_APPLY__) return; window.__JIRAPP_APPLY__({autoReloadEnabled:true,idleThresholdSecs:300,reloadCheckIntervalSecs:30,customCss:\"a\\u0001\\u001f\\b\\f\\r\\t\\\"\\\\/é\u{2028}\"}); })();"
    );
}

#[test]
fn settings_are_pushed_only_after_a_finished_load() {
    assert!(jirapp::push_config_on_page_load(true, true));
    assert!(!jirapp::push_config_on_page_load(false, true));
    assert!(!jirapp::push_config_on_page_load(true, false));
    assert!(!jirapp::push_config_on_page_load(false, false));
}
