use freelook::navigation::{
    is_ad_url, is_calendar_deeplink, is_deeplink, is_microsoft_url, navigation_action,
    NavigationAction, UrlParts,
};

fn parts(input: &str) -> UrlParts {
    let u = url::Url::parse(input).expect("test URL parses");
    UrlParts {
        scheme: u.scheme().to_string(),
        host: u.host_str().map(|h| h.to_string()),
        path: u.path().to_string(),
    }
}

fn raw(scheme: &str, host: Option<&str>, path: &str) -> UrlParts {
    UrlParts {
        scheme: scheme.to_string(),
        host: host.map(|h| h.to_string()),
        path: path.to_string(),
    }
}

#[test]
fn microsoft_exact_hosts_stay() {
    assert!(is_microsoft_url(&parts("https://outlook.live.com/mail/0/")));
    assert!(is_microsoft_url(&parts("https://login.microsoftonline.com/common")));
    assert!(is_microsoft_url(&parts("https://www.office.com/")));
    assert!(is_microsoft_url(&parts("https://outlook.live.net/x")));
}

#[test]
fn microsoft_suffix_hosts_stay() {
    assert!(is_microsoft_url(&parts("https://contoso.sharepoint.com/doc")));
    assert!(is_microsoft_url(&parts("https://attachments.office.net/a")));
    assert!(is_microsoft_url(&parts("https://x.1drv.ms/")));
    assert!(is_microsoft_url(&parts("https://r1.res.office365.com/owa")));
}

#[test]
fn suffix_needs_a_dot_before_it() {
    assert!(!is_microsoft_url(&parts("https://sharepoint.com/")));
    assert!(!is_microsoft_url(&parts("https://evilmicrosoft.com/")));
}

#[test]
fn host_case_is_ignored() {
    assert!(is_microsoft_url(&raw("https", Some("OUTLOOK.Live.COM"), "/")));
    assert!(is_ad_url(&raw("https", Some("ADS.Example.com"), "/")));
}

#[test]
fn other_hosts_leave_the_app() {
    assert!(!is_microsoft_url(&parts("https://example.com/")));
    assert!(!is_microsoft_url(&parts("mailto:someone@example.com")));
}

#[test]
fn about_and_data_stay() {
    assert!(is_microsoft_url(&parts("about:blank")));
    assert!(is_microsoft_url(&parts("data:text/plain,hello")));
}

#[test]
fn blob_urls_follow_the_wrapped_url() {
    assert!(is_microsoft_url(&parts("blob:https://outlook.live.com/1234-abcd")));
    assert!(!is_microsoft_url(&parts("blob:https://example.com/1234-abcd")));
    // A blob whose path does not parse as a URL stays in the app.
    assert!(is_microsoft_url(&raw("blob", None, "not a url")));
}

#[test]
fn ad_hosts_are_recognised() {
    assert!(is_ad_url(&parts("https://ads.example.com/x")));
    assert!(is_ad_url(&parts("https://ad.example.com/x")));
    assert!(is_ad_url(&parts("https://securepubads.g.doubleclick.net/tag")));
    assert!(is_ad_url(&parts("https://ib.adnxs.com/ut")));
    assert!(!is_ad_url(&parts("https://example.com/ads.html")));
    assert!(!is_ad_url(&raw("data", None, "x")));
}

#[test]
fn navigation_actions() {
    assert_eq!(navigation_action(&parts("https://outlook.office.com/mail")), NavigationAction::Stay);
    assert_eq!(navigation_action(&parts("https://ads.example.com/")), NavigationAction::Block);
    assert_eq!(
        navigation_action(&parts("https://www.rust-lang.org/")),
        NavigationAction::OpenExternally
    );
}

#[test]
fn microsoft_wins_over_ad_look() {
    // "ads.office.com" looks like an ad host but is a Microsoft host.
    assert_eq!(navigation_action(&parts("https://ads.office.com/")), NavigationAction::Stay);
}

#[test]
fn deeplinks() {
    assert!(is_deeplink("https://outlook.live.com/mail/deeplink/compose?to=a"));
    assert!(is_deeplink("https://outlook.office.com/calendar/0/deeplink/compose"));
    assert!(!is_deeplink("https://outlook.live.com/mail/0/inbox"));
    assert!(is_calendar_deeplink("https://outlook.office365.com/calendar/0/deeplink/x"));
    assert!(!is_calendar_deeplink("https://outlook.office365.com/mail/deeplink/x"));
}
