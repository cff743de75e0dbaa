use freelook::settings::{
    defaults, delete_config, get_config, get_config_string, get_configs, get_homepage_url,
    render, set_config, set_config_value, ConfigValue, Settings,
};

#[test]
fn built_in_defaults_are_read() {
    let s = Settings::new();
    assert_eq!(get_config(&s, "zoomFactor", None), "1.0");
    assert_eq!(get_config(&s, "homepageUrl", None), "https://outlook.live.com/mail");
    assert_eq!(get_config(&s, "windowFrameWidth", None), "1400");
    assert_eq!(get_config(&s, "windowFrameHeight", None), "900");
    assert_eq!(get_config(&s, "windowFrameX", None), "100");
    assert_eq!(get_config(&s, "showWindowFrame", None), "true");
    assert_eq!(get_config(&s, "verticalAdsClass", None), "pBKjV");
    assert_eq!(get_config(&s, "unreadMessageClass", None), "");
}

#[test]
fn unknown_key_reads_empty() {
    let s = Settings::new();
    assert_eq!(get_config(&s, "noSuchKey", None), "");
}

#[test]
fn caller_default_comes_before_builtin_default() {
    let s = Settings::new();
    assert_eq!(get_config(&s, "zoomFactor", Some("2.0".to_string())), "2.0");
    assert_eq!(get_config(&s, "zoomFactor", Some(String::new())), "");
    assert_eq!(get_config(&s, "noSuchKey", Some("x".to_string())), "x");
}

#[test]
fn read_after_write() {
    let mut s = Settings::new();
    set_config(&mut s, "zoomFactor".to_string(), "1.25".to_string());
    assert_eq!(get_config(&s, "zoomFactor", None), "1.25");
    assert_eq!(get_config(&s, "zoomFactor", Some("9".to_string())), "1.25");
    set_config(&mut s, "zoomFactor".to_string(), "0.8".to_string());
    assert_eq!(get_config(&s, "zoomFactor", None), "0.8");
    assert_eq!(get_config(&s, "homepageUrl", None), "https://outlook.live.com/mail");
}

#[test]
fn read_after_delete_falls_back() {
    let mut s = Settings::new();
    set_config_value(&mut s, "zoomFactor", "3.0");
    delete_config(&mut s, "zoomFactor");
    assert_eq!(get_config(&s, "zoomFactor", None), "1.0");
    delete_config(&mut s, "neverStored");
    assert_eq!(get_config(&s, "neverStored", None), "");
}

#[test]
fn non_string_values_read_as_json_text() {
    let mut s = Settings::new();
    s.store("count".to_string(), ConfigValue::Json("42".to_string()));
    assert_eq!(get_config(&s, "count", None), "42");
    // The plain string reader only takes JSON strings.
    assert_eq!(get_config_string(&s, "count", "7"), "7");
}

#[test]
fn all_settings_overlay_defaults() {
    let mut s = Settings::new();
    set_config(&mut s, "zoomFactor".to_string(), "1.5".to_string());
    set_config(&mut s, "custom".to_string(), "yes".to_string());
    let all = get_configs(&s);
    let entries = all.entries();
    assert_eq!(entries.len(), 12);
    let find = |k: &str| {
        entries
            .iter()
            .find(|(key, _)| key == k)
            .map(|(_, v)| render(v))
    };
    assert_eq!(find("zoomFactor"), Some("1.5".to_string()));
    assert_eq!(find("custom"), Some("yes".to_string()));
    assert_eq!(find("premiumAdsClass"), Some("VPtFl".to_string()));
    assert_eq!(find("unknown"), None);
}

#[test]
fn defaults_have_eleven_entries() {
    assert_eq!(defaults().entries().len(), 11);
}

#[test]
fn store_replaces_and_entries_are_unique() {
    let mut s = Settings::new();
    set_config(&mut s, "a".to_string(), "1".to_string());
    set_config(&mut s, "b".to_string(), "2".to_string());
    set_config(&mut s, "a".to_string(), "3".to_string());
    let e = s.entries();
    assert_eq!(e.len(), 2);
    assert!(s.lookup("a").is_some());
    assert_eq!(render(&s.lookup("a").unwrap()), "3");
}

#[test]
fn homepage_url() {
    let mut s = Settings::new();
    assert_eq!(get_homepage_url(&s), "https://outlook.live.com/mail");
    set_config(&mut s, "homepageUrl".to_string(), "https://outlook.office.com/mail".to_string());
    assert_eq!(get_homepage_url(&s), "https://outlook.office.com/mail");
}

#[test]
fn full_read_agrees_with_single_reads() {
    let mut s = Settings::new();
    set_config(&mut s, "zoomFactor".to_string(), "2".to_string());
    s.store("flag".to_string(), ConfigValue::Json("true".to_string()));
    for (key, value) in get_configs(&s).entries() {
        assert_eq!(render(&value), get_config(&s, &key, None));
    }
}
