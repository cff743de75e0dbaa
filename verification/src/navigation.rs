//! Where a navigation of the mail view may go: Microsoft pages stay inside the
//! app, advertising and tracking pages are blocked, anything else is handed to
//! the system browser.

use vstd::prelude::*;
use crate::text::{opt_chars, seq_contains, seq_starts_with, seq_ends_with, spec_lowercase, lowercase, to_chars, eq_lit, starts_with_lit, ends_with_lit, contains_lit};

verus! {

/// The parts of a parsed URL that the navigation rules read.
pub struct UrlParts {
    pub scheme: String,
    pub host: Option<String>,
    pub path: String,
}

/// The abstract value of a [`UrlParts`].
pub struct UrlView {
    pub scheme: Seq<char>,
    pub host: Option<Seq<char>>,
    pub path: Seq<char>,
}

impl View for UrlParts {
    type V = UrlView;

    open spec fn view(&self) -> UrlView {
        UrlView { scheme: self.scheme@, host: opt_chars(self.host), path: self.path@ }
    }
}

/// What the `url` crate parses a string into, by scheme, host and path.
pub uninterp spec fn spec_parse_url(input: Seq<char>) -> Option<UrlView>;

/// Trusted wrapper around `url::Url::parse`: the scheme, host (`host_str`) and
/// path of the parsed URL, or `None` where the crate rejects the input. The
/// result is named by `spec_parse_url`; the parsing algorithm is not restated.
#[verifier::external_body]
pub(crate) fn parse_url(input: &str) -> (r: Option<UrlParts>)
    ensures
        match r {
            Some(u) => spec_parse_url(input@) == Some(u@),
            None => spec_parse_url(input@) is None,
        },
{
    match url::Url::parse(input) {
        Ok(u) => Some(UrlParts {
            scheme: u.scheme().to_string(),
            host: u.host_str().map(|h| h.to_string()),
            path: u.path().to_string(),
        }),
        Err(_) => None,
    }
}

/// A lowercase host that belongs to Microsoft's mail and sign-in services.
pub open spec fn microsoft_host(h: Seq<char>) -> bool {
    ||| h == "outlook.live.com"@
    ||| h == "outlook.office365.com"@
    ||| h == "outlook.office.com"@
    ||| h == "login.microsoftonline.com"@
    ||| h == "login.live.com"@
    ||| h == "outlook.live.net"@
    ||| h == "www.office.com"@
    ||| seq_ends_with(h, ".outlook.com"@)
    ||| seq_ends_with(h, ".outlook.live.com"@)
    ||| seq_ends_with(h, ".outlook.live.net"@)
    ||| seq_ends_with(h, ".office.net"@)
    ||| seq_ends_with(h, ".office365.com"@)
    ||| seq_ends_with(h, ".office365.net"@)
    ||| seq_ends_with(h, ".office.com"@)
    ||| seq_ends_with(h, ".officeppe.net"@)
    ||| seq_ends_with(h, ".officeapps.live.com"@)
    ||| seq_ends_with(h, ".microsoft.com"@)
    ||| seq_ends_with(h, ".microsoftusercontent.com"@)
    ||| seq_ends_with(h, ".microsoftonline.com"@)
    ||| seq_ends_with(h, ".msauth.net"@)
    ||| seq_ends_with(h, ".msocdn.com"@)
    ||| seq_ends_with(h, ".msftauth.net"@)
    ||| seq_ends_with(h, ".live.com"@)
    ||| seq_ends_with(h, ".1drv.ms"@)
    ||| seq_ends_with(h, ".sharepoint.com"@)
    ||| seq_ends_with(h, ".sharepointonline.com"@)
    ||| seq_ends_with(h, ".onenote.com"@)
    ||| seq_ends_with(h, ".onedrive.com"@)
    ||| seq_ends_with(h, ".svc.ms"@)
}

/// A lowercase host that serves advertising or tracking.
pub open spec fn ad_host(h: Seq<char>) -> bool {
    ||| seq_contains(h, "adsdkprod"@)
    ||| seq_contains(h, "adsdk"@)
    ||| seq_contains(h, "adnxs.com"@)
    ||| seq_contains(h, "adnxs.net"@)
    ||| seq_contains(h, "doubleclick.net"@)
    ||| seq_contains(h, "googlesyndication.com"@)
    ||| seq_contains(h, "googleadservices.com"@)
    ||| seq_contains(h, "googletagmanager.com"@)
    ||| seq_starts_with(h, "ads."@)
    ||| seq_starts_with(h, "ad."@)
    ||| seq_contains(h, "adsystem.com"@)
    ||| seq_contains(h, "advertising.com"@)
    ||| seq_contains(h, "adtechus.com"@)
    ||| seq_contains(h, "adcolony.com"@)
    ||| seq_contains(h, "adsafeprotected.com"@)
    ||| seq_contains(h, "moatads.com"@)
    ||| seq_contains(h, "serving-sys.com"@)
    ||| seq_contains(h, "sizmek.com"@)
    ||| seq_contains(h, "rubiconproject.com"@)
    ||| seq_contains(h, "pubmatic.com"@)
    ||| seq_contains(h, "openx.net"@)
    ||| seq_contains(h, "casalemedia.com"@)
    ||| seq_contains(h, "indexww.com"@)
    ||| seq_contains(h, "turn.com"@)
    ||| seq_contains(h, "mathtag.com"@)
    ||| seq_contains(h, "bidswitch.net"@)
    ||| seq_contains(h, "contextweb.com"@)
    ||| seq_contains(h, "sharethrough.com"@)
    ||| seq_contains(h, "spotxchange.com"@)
    ||| seq_contains(h, "tidaltv.com"@)
    ||| seq_contains(h, "tremorhub.com"@)
    ||| seq_contains(h, "videologygroup.com"@)
    ||| seq_contains(h, "yieldmo.com"@)
    ||| seq_contains(h, "smartadserver.com"@)
}

/// The host rule: a host that, lowercased, is a Microsoft host.
pub open spec fn host_is_microsoft(host: Option<Seq<char>>) -> bool {
    match host {
        Some(h) => microsoft_host(spec_lowercase(h)),
        None => false,
    }
}

/// Whether a URL stays in the app, without unwrapping a `blob:` URL.
pub open spec fn stays_in_app_shallow(u: UrlView) -> bool {
    if u.scheme == "about"@ || u.scheme == "data"@ || u.scheme == "blob"@ {
        true
    } else {
        host_is_microsoft(u.host)
    }
}

/// Whether a navigation to `u` stays inside the app. `about:` and `data:`
/// pages do; a `blob:` URL is judged by the URL in its path (and stays where
/// that path does not parse); any other URL by its host. A nested `blob:` URL
/// is unwrapped while each inner path is shorter than the one it came from.
pub open spec fn url_stays_in_app(u: UrlView) -> bool
    decreases u.path.len(),
{
    if u.scheme == "about"@ || u.scheme == "data"@ {
        true
    } else if u.scheme == "blob"@ {
        match spec_parse_url(u.path) {
            Some(inner) => if inner.path.len() < u.path.len() {
                url_stays_in_app(inner)
            } else {
                stays_in_app_shallow(inner)
            },
            None => true,
        }
    } else {
        host_is_microsoft(u.host)
    }
}

/// A URL whose host, lowercased, serves advertising or tracking.
pub open spec fn url_is_ad(u: UrlView) -> bool {
    match u.host {
        Some(h) => ad_host(spec_lowercase(h)),
        None => false,
    }
}

fn is_microsoft_host(h: &Vec<char>) -> (r: bool)
    ensures
        r == microsoft_host(h@),
{
    eq_lit(h, "outlook.live.com")
        || eq_lit(h, "outlook.office365.com")
        || eq_lit(h, "outlook.office.com")
        || eq_lit(h, "login.microsoftonline.com")
        || eq_lit(h, "login.live.com")
        || eq_lit(h, "outlook.live.net")
        || eq_lit(h, "www.office.com")
        || ends_with_lit(h, ".outlook.com")
        || ends_with_lit(h, ".outlook.live.com")
        || ends_with_lit(h, ".outlook.live.net")
        || ends_with_lit(h, ".office.net")
        || ends_with_lit(h, ".office365.com")
        || ends_with_lit(h, ".office365.net")
        || ends_with_lit(h, ".office.com")
        || ends_with_lit(h, ".officeppe.net")
        || ends_with_lit(h, ".officeapps.live.com")
        || ends_with_lit(h, ".microsoft.com")
        || ends_with_lit(h, ".microsoftusercontent.com")
        || ends_with_lit(h, ".microsoftonline.com")
        || ends_with_lit(h, ".msauth.net")
        || ends_with_lit(h, ".msocdn.com")
        || ends_with_lit(h, ".msftauth.net")
        || ends_with_lit(h, ".live.com")
        || ends_with_lit(h, ".1drv.ms")
        || ends_with_lit(h, ".sharepoint.com")
        || ends_with_lit(h, ".sharepointonline.com")
        || ends_with_lit(h, ".onenote.com")
        || ends_with_lit(h, ".onedrive.com")
        || ends_with_lit(h, ".svc.ms")
}

fn is_ad_host(h: &Vec<char>) -> (r: bool)
    ensures
        r == ad_host(h@),
{
    contains_lit(h, "adsdkprod")
        || contains_lit(h, "adsdk")
        || contains_lit(h, "adnxs.com")
        || contains_lit(h, "adnxs.net")
        || contains_lit(h, "doubleclick.net")
        || contains_lit(h, "googlesyndication.com")
        || contains_lit(h, "googleadservices.com")
        || contains_lit(h, "googletagmanager.com")
        || starts_with_lit(h, "ads.")
        || starts_with_lit(h, "ad.")
        || contains_lit(h, "adsystem.com")
        || contains_lit(h, "advertising.com")
        || contains_lit(h, "adtechus.com")
        || contains_lit(h, "adcolony.com")
        || contains_lit(h, "adsafeprotected.com")
        || contains_lit(h, "moatads.com")
        || contains_lit(h, "serving-sys.com")
        || contains_lit(h, "sizmek.com")
        || contains_lit(h, "rubiconproject.com")
        || contains_lit(h, "pubmatic.com")
        || contains_lit(h, "openx.net")
        || contains_lit(h, "casalemedia.com")
        || contains_lit(h, "indexww.com")
        || contains_lit(h, "turn.com")
        || contains_lit(h, "mathtag.com")
        || contains_lit(h, "bidswitch.net")
        || contains_lit(h, "contextweb.com")
        || contains_lit(h, "sharethrough.com")
        || contains_lit(h, "spotxchange.com")
        || contains_lit(h, "tidaltv.com")
        || contains_lit(h, "tremorhub.com")
        || contains_lit(h, "videologygroup.com")
        || contains_lit(h, "yieldmo.com")
        || contains_lit(h, "smartadserver.com")
}

fn host_rule(host: &Option<String>) -> (r: bool)
    ensures
        r == host_is_microsoft(opt_chars(*host)),
{
    match host {
        Some(h) => is_microsoft_host(&to_chars(lowercase(h.as_str()).as_str())),
        None => false,
    }
}

fn scheme_is(u: &UrlParts, lit: &str) -> (r: bool)
    ensures
        r == (u@.scheme == lit@),
{
    eq_lit(&to_chars(u.scheme.as_str()), lit)
}

fn stays_in_app_owned(u: UrlParts) -> (r: bool)
    ensures
        r == url_stays_in_app(u@),
    decreases u@.path.len(),
{
    if scheme_is(&u, "about") || scheme_is(&u, "data") {
        true
    } else if scheme_is(&u, "blob") {
        match parse_url(u.path.as_str()) {
            Some(inner) => {
                let inner_len = to_chars(inner.path.as_str()).len();
                let outer_len = to_chars(u.path.as_str()).len();
                if inner_len < outer_len {
                    stays_in_app_owned(inner)
                } else if scheme_is(&inner, "about") || scheme_is(&inner, "data") || scheme_is(&inner, "blob") {
                    true
                } else {
                    host_rule(&inner.host)
                }
            },
            None => true,
        }
    } else {
        host_rule(&u.host)
    }
}

/// Whether a navigation to `url` stays inside the app (a Microsoft page).
pub fn is_microsoft_url(url: &UrlParts) -> (r: bool)
    ensures
        r == url_stays_in_app(url@),
{
    let owned = UrlParts {
        scheme: url.scheme.clone(),
        host: match &url.host {
            Some(h) => Some(h.clone()),
            None => None,
        },
        path: url.path.clone(),
    };
    stays_in_app_owned(owned)
}

/// Whether `url` is an advertising or tracking page that is silently blocked.
pub fn is_ad_url(url: &UrlParts) -> (r: bool)
    ensures
        r == url_is_ad(url@),
{
    match &url.host {
        Some(h) => is_ad_host(&to_chars(lowercase(h.as_str()).as_str())),
        None => false,
    }
}

/// What the mail view does with a navigation or a request for a new window.
#[derive(PartialEq, Eq, Structural, Debug, Clone, Copy)]
pub enum NavigationAction {
    /// Load it inside the app.
    Stay,
    /// Drop it silently.
    Block,
    /// Open it in the system browser and keep the app where it is.
    OpenExternally,
}

pub open spec fn spec_navigation_action(u: UrlView) -> NavigationAction {
    if url_stays_in_app(u) {
        NavigationAction::Stay
    } else if url_is_ad(u) {
        NavigationAction::Block
    } else {
        NavigationAction::OpenExternally
    }
}

/// The action for a navigation (or new window) to `url`: Microsoft pages stay,
/// advertising is blocked, the rest opens externally.
pub fn navigation_action(url: &UrlParts) -> (r: NavigationAction)
    ensures
        r == spec_navigation_action(url@),
{
    if is_microsoft_url(url) {
        NavigationAction::Stay
    } else if is_ad_url(url) {
        NavigationAction::Block
    } else {
        NavigationAction::OpenExternally
    }
}

/// The deeplink prefixes that Outlook uses for mail and calendar items.
pub open spec fn spec_is_deeplink(u: Seq<char>) -> bool {
    ||| seq_contains(u, "outlook.live.com/mail/deeplink"@)
    ||| seq_contains(u, "outlook.office365.com/mail/deeplink"@)
    ||| seq_contains(u, "outlook.office.com/mail/deeplink"@)
    ||| seq_contains(u, "outlook.live.com/calendar/0/deeplink"@)
    ||| seq_contains(u, "outlook.office365.com/calendar/0/deeplink"@)
    ||| seq_contains(u, "outlook.office.com/calendar/0/deeplink"@)
}

/// The calendar deeplinks among them.
pub open spec fn spec_is_calendar_deeplink(u: Seq<char>) -> bool {
    ||| seq_contains(u, "outlook.live.com/calendar/0/deeplink"@)
    ||| seq_contains(u, "outlook.office365.com/calendar/0/deeplink"@)
    ||| seq_contains(u, "outlook.office.com/calendar/0/deeplink"@)
}

/// Whether `url` contains one of Outlook's deeplink prefixes.
pub fn is_deeplink(url: &str) -> (r: bool)
    ensures
        r == spec_is_deeplink(url@),
{
    let u = to_chars(url);
    contains_lit(&u, "outlook.live.com/mail/deeplink")
        || contains_lit(&u, "outlook.office365.com/mail/deeplink")
        || contains_lit(&u, "outlook.office.com/mail/deeplink")
        || contains_lit(&u, "outlook.live.com/calendar/0/deeplink")
        || contains_lit(&u, "outlook.office365.com/calendar/0/deeplink")
        || contains_lit(&u, "outlook.office.com/calendar/0/deeplink")
}

/// Whether `url` is a calendar deeplink (which the app refuses).
pub fn is_calendar_deeplink(url: &str) -> (r: bool)
    ensures
        r == spec_is_calendar_deeplink(url@),
{
    let u = to_chars(url);
    contains_lit(&u, "outlook.live.com/calendar/0/deeplink")
        || contains_lit(&u, "outlook.office365.com/calendar/0/deeplink")
        || contains_lit(&u, "outlook.office.com/calendar/0/deeplink")
}

/// `about:` and `data:` pages always load inside the app.
pub proof fn lemma_about_and_data_stay(u: UrlView)
    requires
        u.scheme == "about"@ || u.scheme == "data"@,
    ensures
        spec_navigation_action(u) == NavigationAction::Stay,
{
}

/// A Microsoft page loads inside the app even where its host also looks like
/// advertising; only pages that leave the app are blocked or opened outside.
pub proof fn lemma_microsoft_pages_stay(u: UrlView)
    ensures
        url_stays_in_app(u) <==> spec_navigation_action(u) == NavigationAction::Stay,
        spec_navigation_action(u) == NavigationAction::Block <==> (!url_stays_in_app(u) && url_is_ad(u)),
{
}

/// A `blob:` URL goes where the URL it wraps goes.
pub proof fn lemma_blob_follows_inner(u: UrlView, inner: UrlView)
    requires
        u.scheme == "blob"@,
        spec_parse_url(u.path) == Some(inner),
        inner.path.len() < u.path.len(),
    ensures
        url_stays_in_app(u) == url_stays_in_app(inner),
{
    reveal_strlit("blob");
    reveal_strlit("about");
    reveal_strlit("data");
    assert("blob"@.len() != "about"@.len());
    assert("blob"@[0] != "data"@[0]);
}

/// Hosts are compared without regard to case.
pub proof fn lemma_host_case_ignored(u: UrlView, v: UrlView)
    requires
        u.scheme == v.scheme,
        u.path == v.path,
        u.host is Some,
        v.host is Some,
        spec_lowercase(u.host->0) == spec_lowercase(v.host->0),
    ensures
        spec_navigation_action(u) == spec_navigation_action(v),
{
}

/// Every calendar deeplink is a deeplink.
pub proof fn lemma_calendar_deeplink_is_deeplink(u: Seq<char>)
    requires
        spec_is_calendar_deeplink(u),
    ensures
        spec_is_deeplink(u),
{
}

/// The Microsoft host rule, written out: a URL with a scheme other than
/// `about`, `data` and `blob` stays in the app exactly when its host, once
/// lowercased, is one of Microsoft's mail and sign-in hosts or lies under one
/// of Microsoft's domains. The scheme plays no part (`http` as `https`).
pub proof fn lemma_other_schemes_stay_by_host(u: UrlView)
    requires
        u.scheme != "about"@,
        u.scheme != "data"@,
        u.scheme != "blob"@,
    ensures
        url_stays_in_app(u) <==> (u.host is Some && {
            let l = spec_lowercase(u.host->0);
            ||| l == "outlook.live.com"@
            ||| l == "outlook.office365.com"@
            ||| l == "outlook.office.com"@
            ||| l == "login.microsoftonline.com"@
            ||| l == "login.live.com"@
            ||| l == "outlook.live.net"@
            ||| l == "www.office.com"@
            ||| (l.len() >= ".outlook.com"@.len() && l.subrange(l.len() - ".outlook.com"@.len(), l.len() as int) == ".outlook.com"@)
            ||| (l.len() >= ".outlook.live.com"@.len() && l.subrange(l.len() - ".outlook.live.com"@.len(), l.len() as int) == ".outlook.live.com"@)
            ||| (l.len() >= ".outlook.live.net"@.len() && l.subrange(l.len() - ".outlook.live.net"@.len(), l.len() as int) == ".outlook.live.net"@)
            ||| (l.len() >= ".office.net"@.len() && l.subrange(l.len() - ".office.net"@.len(), l.len() as int) == ".office.net"@)
            ||| (l.len() >= ".office365.com"@.len() && l.subrange(l.len() - ".office365.com"@.len(), l.len() as int) == ".office365.com"@)
            ||| (l.len() >= ".office365.net"@.len() && l.subrange(l.len() - ".office365.net"@.len(), l.len() as int) == ".office365.net"@)
            ||| (l.len() >= ".office.com"@.len() && l.subrange(l.len() - ".office.com"@.len(), l.len() as int) == ".office.com"@)
            ||| (l.len() >= ".officeppe.net"@.len() && l.subrange(l.len() - ".officeppe.net"@.len(), l.len() as int) == ".officeppe.net"@)
            ||| (l.len() >= ".officeapps.live.com"@.len() && l.subrange(l.len() - ".officeapps.live.com"@.len(), l.len() as int) == ".officeapps.live.com"@)
            ||| (l.len() >= ".microsoft.com"@.len() && l.subrange(l.len() - ".microsoft.com"@.len(), l.len() as int) == ".microsoft.com"@)
            ||| (l.len() >= ".microsoftusercontent.com"@.len() && l.subrange(l.len() - ".microsoftusercontent.com"@.len(), l.len() as int) == ".microsoftusercontent.com"@)
            ||| (l.len() >= ".microsoftonline.com"@.len() && l.subrange(l.len() - ".microsoftonline.com"@.len(), l.len() as int) == ".microsoftonline.com"@)
            ||| (l.len() >= ".msauth.net"@.len() && l.subrange(l.len() - ".msauth.net"@.len(), l.len() as int) == ".msauth.net"@)
            ||| (l.len() >= ".msocdn.com"@.len() && l.subrange(l.len() - ".msocdn.com"@.len(), l.len() as int) == ".msocdn.com"@)
            ||| (l.len() >= ".msftauth.net"@.len() && l.subrange(l.len() - ".msftauth.net"@.len(), l.len() as int) == ".msftauth.net"@)
            ||| (l.len() >= ".live.com"@.len() && l.subrange(l.len() - ".live.com"@.len(), l.len() as int) == ".live.com"@)
            ||| (l.len() >= ".1drv.ms"@.len() && l.subrange(l.len() - ".1drv.ms"@.len(), l.len() as int) == ".1drv.ms"@)
            ||| (l.len() >= ".sharepoint.com"@.len() && l.subrange(l.len() - ".sharepoint.com"@.len(), l.len() as int) == ".sharepoint.com"@)
            ||| (l.len() >= ".sharepointonline.com"@.len() && l.subrange(l.len() - ".sharepointonline.com"@.len(), l.len() as int) == ".sharepointonline.com"@)
            ||| (l.len() >= ".onenote.com"@.len() && l.subrange(l.len() - ".onenote.com"@.len(), l.len() as int) == ".onenote.com"@)
            ||| (l.len() >= ".onedrive.com"@.len() && l.subrange(l.len() - ".onedrive.com"@.len(), l.len() as int) == ".onedrive.com"@)
            ||| (l.len() >= ".svc.ms"@.len() && l.subrange(l.len() - ".svc.ms"@.len(), l.len() as int) == ".svc.ms"@)
        }),
{
    if let Some(h) = u.host {
        let l = spec_lowercase(h);
        assert(seq_ends_with(l, ".outlook.com"@) <==> (l.len() >= ".outlook.com"@.len() && l.subrange(l.len() - ".outlook.com"@.len(), l.len() as int) == ".outlook.com"@));
        assert(seq_ends_with(l, ".outlook.live.com"@) <==> (l.len() >= ".outlook.live.com"@.len() && l.subrange(l.len() - ".outlook.live.com"@.len(), l.len() as int) == ".outlook.live.com"@));
        assert(seq_ends_with(l, ".outlook.live.net"@) <==> (l.len() >= ".outlook.live.net"@.len() && l.subrange(l.len() - ".outlook.live.net"@.len(), l.len() as int) == ".outlook.live.net"@));
        assert(seq_ends_with(l, ".office.net"@) <==> (l.len() >= ".office.net"@.len() && l.subrange(l.len() - ".office.net"@.len(), l.len() as int) == ".office.net"@));
        assert(seq_ends_with(l, ".office365.com"@) <==> (l.len() >= ".office365.com"@.len() && l.subrange(l.len() - ".office365.com"@.len(), l.len() as int) == ".office365.com"@));
        assert(seq_ends_with(l, ".office365.net"@) <==> (l.len() >= ".office365.net"@.len() && l.subrange(l.len() - ".office365.net"@.len(), l.len() as int) == ".office365.net"@));
        assert(seq_ends_with(l, ".office.com"@) <==> (l.len() >= ".office.com"@.len() && l.subrange(l.len() - ".office.com"@.len(), l.len() as int) == ".office.com"@));
        assert(seq_ends_with(l, ".officeppe.net"@) <==> (l.len() >= ".officeppe.net"@.len() && l.subrange(l.len() - ".officeppe.net"@.len(), l.len() as int) == ".officeppe.net"@));
        assert(seq_ends_with(l, ".officeapps.live.com"@) <==> (l.len() >= ".officeapps.live.com"@.len() && l.subrange(l.len() - ".officeapps.live.com"@.len(), l.len() as int) == ".officeapps.live.com"@));
        assert(seq_ends_with(l, ".microsoft.com"@) <==> (l.len() >= ".microsoft.com"@.len() && l.subrange(l.len() - ".microsoft.com"@.len(), l.len() as int) == ".microsoft.com"@));
        assert(seq_ends_with(l, ".microsoftusercontent.com"@) <==> (l.len() >= ".microsoftusercontent.com"@.len() && l.subrange(l.len() - ".microsoftusercontent.com"@.len(), l.len() as int) == ".microsoftusercontent.com"@));
        assert(seq_ends_with(l, ".microsoftonline.com"@) <==> (l.len() >= ".microsoftonline.com"@.len() && l.subrange(l.len() - ".microsoftonline.com"@.len(), l.len() as int) == ".microsoftonline.com"@));
        assert(seq_ends_with(l, ".msauth.net"@) <==> (l.len() >= ".msauth.net"@.len() && l.subrange(l.len() - ".msauth.net"@.len(), l.len() as int) == ".msauth.net"@));
        assert(seq_ends_with(l, ".msocdn.com"@) <==> (l.len() >= ".msocdn.com"@.len() && l.subrange(l.len() - ".msocdn.com"@.len(), l.len() as int) == ".msocdn.com"@));
        assert(seq_ends_with(l, ".msftauth.net"@) <==> (l.len() >= ".msftauth.net"@.len() && l.subrange(l.len() - ".msftauth.net"@.len(), l.len() as int) == ".msftauth.net"@));
        assert(seq_ends_with(l, ".live.com"@) <==> (l.len() >= ".live.com"@.len() && l.subrange(l.len() - ".live.com"@.len(), l.len() as int) == ".live.com"@));
        assert(seq_ends_with(l, ".1drv.ms"@) <==> (l.len() >= ".1drv.ms"@.len() && l.subrange(l.len() - ".1drv.ms"@.len(), l.len() as int) == ".1drv.ms"@));
        assert(seq_ends_with(l, ".sharepoint.com"@) <==> (l.len() >= ".sharepoint.com"@.len() && l.subrange(l.len() - ".sharepoint.com"@.len(), l.len() as int) == ".sharepoint.com"@));
        assert(seq_ends_with(l, ".sharepointonline.com"@) <==> (l.len() >= ".sharepointonline.com"@.len() && l.subrange(l.len() - ".sharepointonline.com"@.len(), l.len() as int) == ".sharepointonline.com"@));
        assert(seq_ends_with(l, ".onenote.com"@) <==> (l.len() >= ".onenote.com"@.len() && l.subrange(l.len() - ".onenote.com"@.len(), l.len() as int) == ".onenote.com"@));
        assert(seq_ends_with(l, ".onedrive.com"@) <==> (l.len() >= ".onedrive.com"@.len() && l.subrange(l.len() - ".onedrive.com"@.len(), l.len() as int) == ".onedrive.com"@));
        assert(seq_ends_with(l, ".svc.ms"@) <==> (l.len() >= ".svc.ms"@.len() && l.subrange(l.len() - ".svc.ms"@.len(), l.len() as int) == ".svc.ms"@));
    }
}

/// The advertising rule, written out: a navigation that does not stay in the
/// app is blocked exactly when its lowercased host holds one of the known ad
/// and tracking domains or starts with "ads." or "ad.".
pub proof fn lemma_blocked_by_ad_host(u: UrlView)
    ensures
        spec_navigation_action(u) == NavigationAction::Block <==> (!url_stays_in_app(u) && u.host is Some && {
            let l = spec_lowercase(u.host->0);
            ||| (exists|i: int| 0 <= i && i + "adsdkprod"@.len() <= l.len() && #[trigger] l.subrange(i, i + "adsdkprod"@.len()) == "adsdkprod"@)
            ||| (exists|i: int| 0 <= i && i + "adsdk"@.len() <= l.len() && #[trigger] l.subrange(i, i + "adsdk"@.len()) == "adsdk"@)
            ||| (exists|i: int| 0 <= i && i + "adnxs.com"@.len() <= l.len() && #[trigger] l.subrange(i, i + "adnxs.com"@.len()) == "adnxs.com"@)
            ||| (exists|i: int| 0 <= i && i + "adnxs.net"@.len() <= l.len() && #[trigger] l.subrange(i, i + "adnxs.net"@.len()) == "adnxs.net"@)
            ||| (exists|i: int| 0 <= i && i + "doubleclick.net"@.len() <= l.len() && #[trigger] l.subrange(i, i + "doubleclick.net"@.len()) == "doubleclick.net"@)
            ||| (exists|i: int| 0 <= i && i + "googlesyndication.com"@.len() <= l.len() && #[trigger] l.subrange(i, i + "googlesyndication.com"@.len()) == "googlesyndication.com"@)
            ||| (exists|i: int| 0 <= i && i + "googleadservices.com"@.len() <= l.len() && #[trigger] l.subrange(i, i + "googleadservices.com"@.len()) == "googleadservices.com"@)
            ||| (exists|i: int| 0 <= i && i + "googletagmanager.com"@.len() <= l.len() && #[trigger] l.subrange(i, i + "googletagmanager.com"@.len()) == "googletagmanager.com"@)
            ||| (l.len() >= "ads."@.len() && l.subrange(0, "ads."@.len() as int) == "ads."@)
            ||| (l.len() >= "ad."@.len() && l.subrange(0, "ad."@.len() as int) == "ad."@)
            ||| (exists|i: int| 0 <= i && i + "adsystem.com"@.len() <= l.len() && #[trigger] l.subrange(i, i + "adsystem.com"@.len()) == "adsystem.com"@)
            ||| (exists|i: int| 0 <= i && i + "advertising.com"@.len() <= l.len() && #[trigger] l.subrange(i, i + "advertising.com"@.len()) == "advertising.com"@)
            ||| (exists|i: int| 0 <= i && i + "adtechus.com"@.len() <= l.len() && #[trigger] l.subrange(i, i + "adtechus.com"@.len()) == "adtechus.com"@)
            ||| (exists|i: int| 0 <= i && i + "adcolony.com"@.len() <= l.len() && #[trigger] l.subrange(i, i + "adcolony.com"@.len()) == "adcolony.com"@)
            ||| (exists|i: int| 0 <= i && i + "adsafeprotected.com"@.len() <= l.len() && #[trigger] l.subrange(i, i + "adsafeprotected.com"@.len()) == "adsafeprotected.com"@)
            ||| (exists|i: int| 0 <= i && i + "moatads.com"@.len() <= l.len() && #[trigger] l.subrange(i, i + "moatads.com"@.len()) == "moatads.com"@)
            ||| (exists|i: int| 0 <= i && i + "serving-sys.com"@.len() <= l.len() && #[trigger] l.subrange(i, i + "serving-sys.com"@.len()) == "serving-sys.com"@)
            ||| (exists|i: int| 0 <= i && i + "sizmek.com"@.len() <= l.len() && #[trigger] l.subrange(i, i + "sizmek.com"@.len()) == "sizmek.com"@)
            ||| (exists|i: int| 0 <= i && i + "rubiconproject.com"@.len() <= l.len() && #[trigger] l.subrange(i, i + "rubiconproject.com"@.len()) == "rubiconproject.com"@)
            ||| (exists|i: int| 0 <= i && i + "pubmatic.com"@.len() <= l.len() && #[trigger] l.subrange(i, i + "pubmatic.com"@.len()) == "pubmatic.com"@)
            ||| (exists|i: int| 0 <= i && i + "openx.net"@.len() <= l.len() && #[trigger] l.subrange(i, i + "openx.net"@.len()) == "openx.net"@)
            ||| (exists|i: int| 0 <= i && i + "casalemedia.com"@.len() <= l.len() && #[trigger] l.subrange(i, i + "casalemedia.com"@.len()) == "casalemedia.com"@)
            ||| (exists|i: int| 0 <= i && i + "indexww.com"@.len() <= l.len() && #[trigger] l.subrange(i, i + "indexww.com"@.len()) == "indexww.com"@)
            ||| (exists|i: int| 0 <= i && i + "turn.com"@.len() <= l.len() && #[trigger] l.subrange(i, i + "turn.com"@.len()) == "turn.com"@)
            ||| (exists|i: int| 0 <= i && i + "mathtag.com"@.len() <= l.len() && #[trigger] l.subrange(i, i + "mathtag.com"@.len()) == "mathtag.com"@)
            ||| (exists|i: int| 0 <= i && i + "bidswitch.net"@.len() <= l.len() && #[trigger] l.subrange(i, i + "bidswitch.net"@.len()) == "bidswitch.net"@)
            ||| (exists|i: int| 0 <= i && i + "contextweb.com"@.len() <= l.len() && #[trigger] l.subrange(i, i + "contextweb.com"@.len()) == "contextweb.com"@)
            ||| (exists|i: int| 0 <= i && i + "sharethrough.com"@.len() <= l.len() && #[trigger] l.subrange(i, i + "sharethrough.com"@.len()) == "sharethrough.com"@)
            ||| (exists|i: int| 0 <= i && i + "spotxchange.com"@.len() <= l.len() && #[trigger] l.subrange(i, i + "spotxchange.com"@.len()) == "spotxchange.com"@)
            ||| (exists|i: int| 0 <= i && i + "tidaltv.com"@.len() <= l.len() && #[trigger] l.subrange(i, i + "tidaltv.com"@.len()) == "tidaltv.com"@)
            ||| (exists|i: int| 0 <= i && i + "tremorhub.com"@.len() <= l.len() && #[trigger] l.subrange(i, i + "tremorhub.com"@.len()) == "tremorhub.com"@)
            ||| (exists|i: int| 0 <= i && i + "videologygroup.com"@.len() <= l.len() && #[trigger] l.subrange(i, i + "videologygroup.com"@.len()) == "videologygroup.com"@)
            ||| (exists|i: int| 0 <= i && i + "yieldmo.com"@.len() <= l.len() && #[trigger] l.subrange(i, i + "yieldmo.com"@.len()) == "yieldmo.com"@)
            ||| (exists|i: int| 0 <= i && i + "smartadserver.com"@.len() <= l.len() && #[trigger] l.subrange(i, i + "smartadserver.com"@.len()) == "smartadserver.com"@)
        }),
        spec_navigation_action(u) == NavigationAction::OpenExternally <==> (!url_stays_in_app(u)
            && spec_navigation_action(u) != NavigationAction::Block),
{
    if let Some(h) = u.host {
        let l = spec_lowercase(h);
        assert(seq_starts_with(l, "ads."@) <==> (l.len() >= "ads."@.len() && l.subrange(0, "ads."@.len() as int) == "ads."@));
        assert(seq_starts_with(l, "ad."@) <==> (l.len() >= "ad."@.len() && l.subrange(0, "ad."@.len() as int) == "ad."@));
        lemma_contains_written_out(l, "adsdkprod"@);
        lemma_contains_written_out(l, "adsdk"@);
        lemma_contains_written_out(l, "adnxs.com"@);
        lemma_contains_written_out(l, "adnxs.net"@);
        lemma_contains_written_out(l, "doubleclick.net"@);
        lemma_contains_written_out(l, "googlesyndication.com"@);
        lemma_contains_written_out(l, "googleadservices.com"@);
        lemma_contains_written_out(l, "googletagmanager.com"@);
        lemma_contains_written_out(l, "adsystem.com"@);
        lemma_contains_written_out(l, "advertising.com"@);
        lemma_contains_written_out(l, "adtechus.com"@);
        lemma_contains_written_out(l, "adcolony.com"@);
        lemma_contains_written_out(l, "adsafeprotected.com"@);
        lemma_contains_written_out(l, "moatads.com"@);
        lemma_contains_written_out(l, "serving-sys.com"@);
        lemma_contains_written_out(l, "sizmek.com"@);
        lemma_contains_written_out(l, "rubiconproject.com"@);
        lemma_contains_written_out(l, "pubmatic.com"@);
        lemma_contains_written_out(l, "openx.net"@);
        lemma_contains_written_out(l, "casalemedia.com"@);
        lemma_contains_written_out(l, "indexww.com"@);
        lemma_contains_written_out(l, "turn.com"@);
        lemma_contains_written_out(l, "mathtag.com"@);
        lemma_contains_written_out(l, "bidswitch.net"@);
        lemma_contains_written_out(l, "contextweb.com"@);
        lemma_contains_written_out(l, "sharethrough.com"@);
        lemma_contains_written_out(l, "spotxchange.com"@);
        lemma_contains_written_out(l, "tidaltv.com"@);
        lemma_contains_written_out(l, "tremorhub.com"@);
        lemma_contains_written_out(l, "videologygroup.com"@);
        lemma_contains_written_out(l, "yieldmo.com"@);
        lemma_contains_written_out(l, "smartadserver.com"@);
    }
}

proof fn lemma_contains_written_out(l: Seq<char>, x: Seq<char>)
    ensures
        seq_contains(l, x) <==> (exists|i: int| 0 <= i && i + x.len() <= l.len() && #[trigger] l.subrange(i, i + x.len()) == x),
{
    if seq_contains(l, x) {
        let i = choose|i: int| crate::text::occurs_at(l, x, i);
        assert(l.subrange(i, i + x.len()) == x);
    }
    if exists|i: int| 0 <= i && i + x.len() <= l.len() && #[trigger] l.subrange(i, i + x.len()) == x {
        let i = choose|i: int| 0 <= i && i + x.len() <= l.len() && #[trigger] l.subrange(i, i + x.len()) == x;
        assert(crate::text::occurs_at(l, x, i));
    }
}

/// Two URLs that differ only in their scheme, neither of them `about`,
/// `data` or `blob`, go to the same place.
pub proof fn lemma_scheme_does_not_matter(u: UrlView, v: UrlView)
    requires
        u.host == v.host,
        u.scheme != "about"@ && u.scheme != "data"@ && u.scheme != "blob"@,
        v.scheme != "about"@ && v.scheme != "data"@ && v.scheme != "blob"@,
    ensures
        spec_navigation_action(u) == spec_navigation_action(v),
{
}

/// Deeplinks, written out: a URL is a deeplink exactly when it contains one of
/// the six mail or calendar deeplink prefixes of outlook.live.com,
/// outlook.office365.com and outlook.office.com, and a calendar deeplink
/// exactly when it contains one of the three calendar ones.
pub proof fn lemma_deeplinks_written_out(u: Seq<char>)
    ensures
        spec_is_deeplink(u) <==> ({
            ||| (exists|i: int| 0 <= i && i + "outlook.live.com/mail/deeplink"@.len() <= u.len() && #[trigger] u.subrange(i, i + "outlook.live.com/mail/deeplink"@.len()) == "outlook.live.com/mail/deeplink"@)
            ||| (exists|i: int| 0 <= i && i + "outlook.office365.com/mail/deeplink"@.len() <= u.len() && #[trigger] u.subrange(i, i + "outlook.office365.com/mail/deeplink"@.len()) == "outlook.office365.com/mail/deeplink"@)
            ||| (exists|i: int| 0 <= i && i + "outlook.office.com/mail/deeplink"@.len() <= u.len() && #[trigger] u.subrange(i, i + "outlook.office.com/mail/deeplink"@.len()) == "outlook.office.com/mail/deeplink"@)
            ||| (exists|i: int| 0 <= i && i + "outlook.live.com/calendar/0/deeplink"@.len() <= u.len() && #[trigger] u.subrange(i, i + "outlook.live.com/calendar/0/deeplink"@.len()) == "outlook.live.com/calendar/0/deeplink"@)
            ||| (exists|i: int| 0 <= i && i + "outlook.office365.com/calendar/0/deeplink"@.len() <= u.len() && #[trigger] u.subrange(i, i + "outlook.office365.com/calendar/0/deeplink"@.len()) == "outlook.office365.com/calendar/0/deeplink"@)
            ||| (exists|i: int| 0 <= i && i + "outlook.office.com/calendar/0/deeplink"@.len() <= u.len() && #[trigger] u.subrange(i, i + "outlook.office.com/calendar/0/deeplink"@.len()) == "outlook.office.com/calendar/0/deeplink"@)
        }),
        spec_is_calendar_deeplink(u) <==> ({
            ||| (exists|i: int| 0 <= i && i + "outlook.live.com/calendar/0/deeplink"@.len() <= u.len() && #[trigger] u.subrange(i, i + "outlook.live.com/calendar/0/deeplink"@.len()) == "outlook.live.com/calendar/0/deeplink"@)
            ||| (exists|i: int| 0 <= i && i + "outlook.office365.com/calendar/0/deeplink"@.len() <= u.len() && #[trigger] u.subrange(i, i + "outlook.office365.com/calendar/0/deeplink"@.len()) == "outlook.office365.com/calendar/0/deeplink"@)
            ||| (exists|i: int| 0 <= i && i + "outlook.office.com/calendar/0/deeplink"@.len() <= u.len() && #[trigger] u.subrange(i, i + "outlook.office.com/calendar/0/deeplink"@.len()) == "outlook.office.com/calendar/0/deeplink"@)
        }),
{
    lemma_contains_written_out(u, "outlook.live.com/mail/deeplink"@);
    lemma_contains_written_out(u, "outlook.office365.com/mail/deeplink"@);
    lemma_contains_written_out(u, "outlook.office.com/mail/deeplink"@);
    lemma_contains_written_out(u, "outlook.live.com/calendar/0/deeplink"@);
    lemma_contains_written_out(u, "outlook.office365.com/calendar/0/deeplink"@);
    lemma_contains_written_out(u, "outlook.office.com/calendar/0/deeplink"@);
}

} // verus!
