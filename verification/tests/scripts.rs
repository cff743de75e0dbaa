use freelook::scripts::{
    css_inject_script, escape_for_template, get_link_interceptor_js, get_main_css,
    get_no_frame_css, get_refresh_button_js, get_unread_js, main_css_script,
};
use freelook::settings::{set_config, Settings};

fn unescape(t: &str) -> String {
    let mut out = String::new();
    let mut it = t.chars();
    while let Some(c) = it.next() {
        if c == '\\' {
            if let Some(n) = it.next() {
                out.push(n);
                continue;
            }
        }
        out.push(c);
    }
    out
}

#[test]
fn escaping_marks_template_characters() {
    assert_eq!(escape_for_template("a`b$c\\d"), "a\\`b\\$c\\\\d");
    assert_eq!(escape_for_template("plain"), "plain");
}

#[test]
fn escaping_round_trips() {
    for s in ["", "a`b", "${x}", "\\`", "x\\\\y$`", "é`€"] {
        assert_eq!(unescape(&escape_for_template(s)), s);
    }
}

#[test]
fn css_inject_script_text() {
    assert_eq!(
        css_inject_script(".a{b:c}"),
        "document.head.insertAdjacentHTML('beforeend', `<style>.a{b:c}</style>`)"
    );
    assert_eq!(
        css_inject_script("`"),
        "document.head.insertAdjacentHTML('beforeend', `<style>\\`</style>`)"
    );
}

#[test]
fn main_css_script_embeds_escaped_css() {
    let s = main_css_script("x$");
    assert!(s.contains("const id = \"freelook-main-css\";"));
    assert!(s.contains("style.textContent = `x\\$`;"));
}

#[test]
fn main_css_uses_default_classes() {
    let s = Settings::new();
    assert_eq!(
        get_main_css(&s),
        "\n        .pBKjV { display: none !important; }\n        .X1Kvq { display: none !important; }\n        .VPtFl { display: none !important; }\n        "
    );
}

#[test]
fn main_css_uses_stored_classes() {
    let mut s = Settings::new();
    set_config(&mut s, "smallAdsClass".to_string(), "Zz9".to_string());
    assert!(get_main_css(&s).contains(".Zz9 { display: none !important; }"));
    assert!(get_main_css(&s).contains(".pBKjV {"));
}

#[test]
fn unread_js_needs_a_class() {
    let mut s = Settings::new();
    assert_eq!(get_unread_js(&s), "");
    set_config(&mut s, "unreadMessageClass".to_string(), "_n_h".to_string());
    let js = get_unread_js(&s);
    assert!(js.contains("document.querySelector(\"._n_h\")"));
    assert!(js.contains("window.__TAURI__.core.invoke('update_unread', { hasUnread: unreadSpan.hasChildNodes() });"));
    assert!(js.trim_end().ends_with("}, 10000);"));
}

#[test]
fn fixed_scripts() {
    assert!(get_refresh_button_js().contains("freelook-refresh-btn"));
    assert!(get_link_interceptor_js().contains("window.__freelook_link_interceptor__ = true;"));
    assert!(get_no_frame_css().contains("-webkit-app-region: drag;"));
}
