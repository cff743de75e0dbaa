//! The scripts and style sheets injected into the mail page.

use vstd::prelude::*;
use crate::settings::{Settings, spec_get_config_string, get_config_string};
use crate::text::to_chars;

verus! {

/// How one character is written inside a JavaScript template literal: '\\',
/// '`' and '$' get a backslash in front, every other character stands as is.
pub open spec fn escape_char(c: char) -> Seq<char> {
    if c == '\\' || c == '`' || c == '$' {
        seq!['\\', c]
    } else {
        seq![c]
    }
}

/// A text written for the inside of a JavaScript template literal.
pub open spec fn escaped(s: Seq<char>) -> Seq<char>
    decreases s.len(),
{
    if s.len() == 0 {
        Seq::empty()
    } else {
        escape_char(s[0]) + escaped(s.drop_first())
    }
}

/// How a JavaScript template literal reads its body: a backslash stands for
/// the character after it.
pub open spec fn unescaped(t: Seq<char>) -> Seq<char>
    decreases t.len(),
{
    if t.len() == 0 {
        Seq::empty()
    } else if t[0] == '\\' && t.len() >= 2 {
        seq![t[1]] + unescaped(t.skip(2))
    } else {
        seq![t[0]] + unescaped(t.skip(1))
    }
}

proof fn lemma_escaped_append(a: Seq<char>, b: Seq<char>)
    ensures
        escaped(a + b) == escaped(a) + escaped(b),
    decreases a.len(),
{
    if a.len() == 0 {
        assert(a + b == b);
    } else {
        assert((a + b).drop_first() == a.drop_first() + b);
        lemma_escaped_append(a.drop_first(), b);
    }
}

proof fn lemma_escaped_single(c: char)
    ensures
        escaped(seq![c]) == escape_char(c),
{
    assert(seq![c].drop_first() == Seq::<char>::empty());
    assert(escaped(Seq::<char>::empty()) == Seq::<char>::empty());
    assert(seq![c][0] == c);
    assert(escape_char(c) + Seq::<char>::empty() == escape_char(c));
}

/// Escaping loses nothing: the page reads back exactly the text that was
/// escaped.
pub proof fn lemma_unescape_escaped(s: Seq<char>)
    ensures
        unescaped(escaped(s)) == s,
    decreases s.len(),
{
    if s.len() > 0 {
        let c = s[0];
        let rest = escaped(s.drop_first());
        lemma_unescape_escaped(s.drop_first());
        if c == '\\' || c == '`' || c == '$' {
            let t = seq!['\\', c] + rest;
            assert(t[0] == '\\');
            assert(t[1] == c);
            assert(t.skip(2) == rest);
        } else {
            let t = seq![c] + rest;
            assert(t[0] == c);
            assert(t.skip(1) == rest);
        }
        assert(s == seq![c] + s.drop_first());
    }
}

/// Escapes `css` for the inside of a JavaScript template literal.
pub fn escape_for_template(css: &str) -> (r: String)
    ensures
        r@ == escaped(css@),
{
    let chars = to_chars(css);
    let mut out: Vec<char> = Vec::new();
    for i in 0..chars.len()
        invariant
            chars@ == css@,
            out@ == escaped(chars@.take(i as int)),
    {
        let c = chars[i];
        proof {
            lemma_escaped_append(chars@.take(i as int), seq![c]);
            lemma_escaped_single(c);
            assert(chars@.take(i + 1) == chars@.take(i as int) + seq![c]);
        }
        if c == '\\' || c == '`' || c == '$' {
            out.push('\\');
            out.push(c);
            assert(out@ == escaped(chars@.take(i as int)) + seq!['\\', c]);
        } else {
            out.push(c);
            assert(out@ == escaped(chars@.take(i as int)) + seq![c]);
        }
    }
    assert(chars@.take(chars@.len() as int) == chars@);
    crate::text::from_chars(&out)
}

/// The script that installs the ad-hiding style sheet, before the CSS.
pub const MAIN_CSS_SCRIPT_HEAD: &'static str = r#"
        (() => {
            const id = "freelook-main-css";
            let style = document.getElementById(id);
            if (!style) {
                style = document.createElement("style");
                style.id = id;
                document.head.appendChild(style);
            }
            style.textContent = `"#;

/// The script that installs the ad-hiding style sheet, after the CSS.
pub const MAIN_CSS_SCRIPT_TAIL: &'static str = r#"`;
        })();
        "#;

/// The script that installs (or replaces) the app's style sheet in the page.
pub open spec fn spec_main_css_script(css: Seq<char>) -> Seq<char> {
    MAIN_CSS_SCRIPT_HEAD@ + escaped(css) + MAIN_CSS_SCRIPT_TAIL@
}

/// The script that installs `css` as the app's style sheet in the mail page.
pub fn main_css_script(css: &str) -> (r: String)
    ensures
        r@ == spec_main_css_script(css@),
{
    let mut r = MAIN_CSS_SCRIPT_HEAD.to_owned();
    let e = escape_for_template(css);
    r.append(e.as_str());
    r.append(MAIN_CSS_SCRIPT_TAIL);
    r
}

/// The script that appends a style element holding `css` to a page.
pub open spec fn spec_css_inject_script(css: Seq<char>) -> Seq<char> {
    "document.head.insertAdjacentHTML('beforeend', `<style>"@ + escaped(css) + "</style>`)"@
}

/// The script that appends `css` to a page as a style element.
pub fn css_inject_script(css: &str) -> (r: String)
    ensures
        r@ == spec_css_inject_script(css@),
{
    let mut r = "document.head.insertAdjacentHTML('beforeend', `<style>".to_owned();
    let e = escape_for_template(css);
    r.append(e.as_str());
    r.append("</style>`)");
    r
}

/// The style sheet that hides the three kinds of advertisement, by class.
pub open spec fn main_css(vertical: Seq<char>, small: Seq<char>, premium: Seq<char>) -> Seq<char> {
    r#"
        ."#@ + vertical + r#" { display: none !important; }
        ."#@ + small + r#" { display: none !important; }
        ."#@ + premium + r#" { display: none !important; }
        "#@
}

/// The ad-hiding style sheet for the advertisement classes in the settings.
pub open spec fn spec_get_main_css(stored: Map<Seq<char>, crate::settings::StoredValue>) -> Seq<char> {
    main_css(
        spec_get_config_string(stored, "verticalAdsClass"@, "pBKjV"@),
        spec_get_config_string(stored, "smallAdsClass"@, "X1Kvq"@),
        spec_get_config_string(stored, "premiumAdsClass"@, "VPtFl"@),
    )
}

/// The style sheet that hides the advertisement classes named in the settings.
pub fn get_main_css(settings: &Settings) -> (r: String)
    ensures
        r@ == spec_get_main_css(settings@),
{
    let vertical = get_config_string(settings, "verticalAdsClass", "pBKjV");
    let small = get_config_string(settings, "smallAdsClass", "X1Kvq");
    let premium = get_config_string(settings, "premiumAdsClass", "VPtFl");
    let mut r = r#"
        ."#.to_owned();
    r.append(vertical.as_str());
    r.append(r#" { display: none !important; }
        ."#);
    r.append(small.as_str());
    r.append(r#" { display: none !important; }
        ."#);
    r.append(premium.as_str());
    r.append(r#" { display: none !important; }
        "#);
    r
}

/// The unread observer script, before the class name.
pub const UNREAD_SCRIPT_HEAD: &'static str = r#"
        setTimeout(() => {
            let unreadSpan = document.querySelector("."#;

/// The unread observer script, after the class name.
pub const UNREAD_SCRIPT_TAIL: &'static str = r#"");
            if (!unreadSpan) return;

            window.__TAURI__.core.invoke('update_unread', { hasUnread: unreadSpan.hasChildNodes() });

            let observer = new MutationObserver(mutations => {
                window.__TAURI__.core.invoke('update_unread', { hasUnread: unreadSpan.hasChildNodes() });

                var messages = document.querySelectorAll('div[role="listbox"][aria-label="Message list"]');
                if (messages.length) {
                    var unread = messages[0].querySelectorAll('div[aria-label^="Unread"]');
                    var body = "";
                    for (var i = 0; i < unread.length; i++) {
                        if (body.length) body += "\\n";
                        body += unread[i].getAttribute("aria-label").substring(7, 127);
                    }
                    if (unread.length) {
                        window.__TAURI__.notification.sendNotification({
                            title: "Freelook - receiving " + unread.length + " NEW mails",
                            body: body,
                        });
                    }
                }
            });

            observer.observe(unreadSpan, { childList: true });

            // Reminder observer
            let reminders = document.getElementsByClassName("_1BWPyOkN5zNVyfbTDKK1gM");
            let height = 0;
            let reminderObserver = new MutationObserver(mutations => {
                if (reminders[0].clientHeight > height) {
                    window.__TAURI__.core.invoke('show_main_window');
                }
                height = reminders[0].clientHeight;
            });

            if (reminders.length) {
                reminderObserver.observe(reminders[0], { childList: true });
            }
        }, 10000);
        "#;

/// The script that watches the element of class `class` for unread mail.
pub open spec fn unread_script(class: Seq<char>) -> Seq<char> {
    UNREAD_SCRIPT_HEAD@ + class + UNREAD_SCRIPT_TAIL@
}

/// The unread observer for the class in the settings; nothing where no class
/// is set.
pub open spec fn spec_get_unread_js(stored: Map<Seq<char>, crate::settings::StoredValue>) -> Seq<char> {
    let class = spec_get_config_string(stored, "unreadMessageClass"@, ""@);
    if class.len() == 0 {
        Seq::empty()
    } else {
        unread_script(class)
    }
}

/// The script that reports unread mail and new-mail notifications, for the
/// unread-count class named in the settings; empty where none is named.
pub fn get_unread_js(settings: &Settings) -> (r: String)
    ensures
        r@ == spec_get_unread_js(settings@),
{
    let class = get_config_string(settings, "unreadMessageClass", "");
    if to_chars(class.as_str()).len() == 0 {
        return String::new();
    }
    let mut r = UNREAD_SCRIPT_HEAD.to_owned();
    r.append(class.as_str());
    r.append(UNREAD_SCRIPT_TAIL);
    r
}

/// No unread observer is injected exactly when no class is set.
pub proof fn lemma_unread_js_empty_iff_no_class(stored: Map<Seq<char>, crate::settings::StoredValue>)
    ensures
        (spec_get_unread_js(stored).len() == 0) == (spec_get_config_string(
            stored,
            "unreadMessageClass"@,
            ""@,
        ).len() == 0),
{
    reveal_strlit("");
}

/// The script that adds the floating refresh button to the page.
pub const REFRESH_BUTTON_JS: &'static str = r#"
    (function() {
        if (document.getElementById('freelook-refresh-btn')) return;

        const btn = document.createElement('div');
        btn.id = 'freelook-refresh-btn';
        btn.title = 'Refresh page';
        btn.innerHTML = '<svg width="20" height="20" viewBox="0 0 24 24" fill="none" stroke="white" stroke-width="2.5" stroke-linecap="round" stroke-linejoin="round"><polyline points="23 4 23 10 17 10"></polyline><path d="M20.49 15a9 9 0 1 1-2.12-9.36L23 10"></path></svg>';
        btn.style.cssText = 'position:fixed;bottom:24px;right:24px;z-index:2147483647;width:44px;height:44px;border-radius:50%;background:rgba(0,120,212,0.85);display:flex;align-items:center;justify-content:center;cursor:pointer;box-shadow:0 2px 8px rgba(0,0,0,0.3);transition:background 0.2s,transform 0.15s;backdrop-filter:blur(4px);';

        btn.addEventListener('mouseenter', function() {
            btn.style.background = 'rgba(0,120,212,1)';
            btn.style.transform = 'scale(1.1)';
        });
        btn.addEventListener('mouseleave', function() {
            btn.style.background = 'rgba(0,120,212,0.85)';
            btn.style.transform = 'scale(1)';
        });
        btn.addEventListener('click', function(e) {
            e.preventDefault();
            e.stopPropagation();
            location.reload();
        });

        document.body.appendChild(btn);
    })();
    "#;

/// The floating refresh button script.
pub fn get_refresh_button_js() -> (r: &'static str)
    ensures
        r@ == REFRESH_BUTTON_JS@,
{
    REFRESH_BUTTON_JS
}

/// The style sheet for a window without a frame.
pub const NO_FRAME_CSS: &'static str = r#"
    ._1Kg3ffZABPxXxDqcmoxkBA {
        padding-top: 30px !important;
        -webkit-app-region: drag;
    }
    .ms-FocusZone,
    ._3Nd2PGu67wifhuPZp2Sfj5 {
        -webkit-app-region: no-drag;
    }
    "#;

/// The style sheet for a window without a frame, as a `String`.
pub fn get_no_frame_css() -> (r: String)
    ensures
        r@ == NO_FRAME_CSS@,
{
    NO_FRAME_CSS.to_owned()
}

/// The script that sends links to other sites to the system browser and
/// remembers the name of the attachment about to be downloaded.
pub const LINK_INTERCEPTOR_JS: &'static str = r#"
    (function() {
        if (window.__freelook_link_interceptor__) return;
        window.__freelook_link_interceptor__ = true;

        function isMsUrl(href) {
            if (!href || href === '#' || href.startsWith('javascript:')) return true;
            if (href.startsWith('/')) return true;
            if (href.startsWith('mailto:') || href.startsWith('tel:')) return true;
            if (href.startsWith('about:') || href.startsWith('data:')) return true;
            try {
                var u = new URL(href, location.href);
                if (u.protocol === 'blob:') {
                    try {
                        u = new URL(u.pathname);
                    } catch(e) {
                        return true;
                    }
                }
                var h = u.hostname.toLowerCase();
                return h === 'outlook.live.com' || h === 'outlook.office365.com'
                    || h === 'outlook.office.com' || h === 'login.microsoftonline.com'
                    || h === 'login.live.com' || h === 'www.office.com'
                    || h.endsWith('.outlook.com') || h.endsWith('.outlook.live.com')
                    || h.endsWith('.outlook.live.net') || h.endsWith('.office.net')
                    || h.endsWith('.office365.com') || h.endsWith('.office365.net')
                    || h.endsWith('.office.com') || h.endsWith('.officeppe.net')
                    || h.endsWith('.officeapps.live.com')
                    || h.endsWith('.microsoft.com') || h.endsWith('.microsoftonline.com')
                    || h.endsWith('.microsoftusercontent.com')
                    || h.endsWith('.msauth.net') || h.endsWith('.msftauth.net')
                    || h.endsWith('.msocdn.com')
                    || h.endsWith('.live.com') || h.endsWith('.1drv.ms')
                    || h.endsWith('.sharepoint.com') || h.endsWith('.sharepointonline.com')
                    || h.endsWith('.onenote.com') || h.endsWith('.onedrive.com')
                    || h.endsWith('.svc.ms');
            } catch(e) { return true; }
        }

        function filenameFromText(text) {
            if (!text) return null;
            var normalized = text.replace(/\s+/g, ' ').trim();
            var match = normalized.match(/[^\\/:*?"<>|\r\n]+?\.(?:pdf|docx?|xlsx?|pptx?|csv|txt|rtf|zip|7z|rar|png|jpe?g|gif|heic|webp|eml|msg)\b/i);
            if (match) return match[0].replace(/^(download|open|preview|attachment)\s+/i, '').trim();

            match = normalized.match(/\b[A-Za-z0-9][A-Za-z0-9_-]{5,}(?:\s+[A-Za-z0-9][A-Za-z0-9_-]{2,}){0,5}\b/);
            if (!match) return null;
            var candidate = match[0].replace(/^(download|open|preview|attachment)\s+/i, '').trim();
            if (!/[._-]/.test(candidate)) return null;
            return candidate + '.pdf';
        }

        function extractAttachmentName(target) {
            var node = target && target.nodeType === 1 ? target : target && target.parentElement;
            if (!node) return null;

            var candidates = [];
            var current = node;
            for (var depth = 0; current && depth < 6; depth++, current = current.parentElement) {
                ['aria-label', 'title', 'download', 'data-filename', 'data-file-name', 'data-name'].forEach(function(attr) {
                    var value = current.getAttribute && current.getAttribute(attr);
                    if (value) candidates.push(value);
                });
                if (current.innerText) candidates.push(current.innerText);
            }

            var attachmentNode = node.closest && node.closest('[aria-label*="Attachment"], [aria-label*="attachment"], [title*="Attachment"], [title*="attachment"], [role="listitem"], [role="button"]');
            if (attachmentNode) {
                ['aria-label', 'title'].forEach(function(attr) {
                    var value = attachmentNode.getAttribute && attachmentNode.getAttribute(attr);
                    if (value) candidates.push(value);
                });
                if (attachmentNode.innerText) candidates.push(attachmentNode.innerText);
            }

            document.querySelectorAll('[aria-label], [title], [role="button"], [role="listitem"]').forEach(function(item) {
                var text = '';
                ['aria-label', 'title'].forEach(function(attr) {
                    var value = item.getAttribute && item.getAttribute(attr);
                    if (value) text += ' ' + value;
                });
                if (item.innerText) text += ' ' + item.innerText;
                if (/\.(pdf|docx?|xlsx?|pptx?)\b/i.test(text) || /\b[A-Za-z0-9]+[_-][A-Za-z0-9_-]+\b/.test(text)) {
                    candidates.push(text);
                }
            });

            for (var i = 0; i < candidates.length; i++) {
                var name = filenameFromText(candidates[i]);
                if (name) return name;
            }
            return null;
        }

        function rememberDownloadName(e) {
            var name = extractAttachmentName(e.target);
            if (!name) return;
            window.__TAURI__.core.invoke('set_pending_download_name', { name: name });
        }

        function interceptClick(e) {
            var el = e.target;
            while (el && el.tagName !== 'A') el = el.parentElement;
            if (!el) return;
            var href = el.getAttribute('href');
            if (!href || href === '#' || href.startsWith('javascript:')) return;
            // Let Microsoft link clicks navigate naturally inside the embedded
            // view so inline previews render and "Download" buttons reach
            // on_download (which shows the save dialog and auto-opens PDF /
            // Office documents with the OS default viewer).
            if (isMsUrl(href)) return;

            e.preventDefault();
            e.stopPropagation();
            window.__TAURI__.core.invoke('open_external_url', {
                url: new URL(href, location.href).href
            });
        }

        document.addEventListener('pointerdown', rememberDownloadName, true);
        document.addEventListener('mousedown', rememberDownloadName, true);
        document.addEventListener('click', rememberDownloadName, true);
        document.addEventListener('click', interceptClick, true);

        // Inject click handler into same-origin iframes too (skip ad/tracking iframes).
        function attachToMailIframes() {
            document.querySelectorAll('iframe').forEach(function(iframe) {
                var src = iframe.src || '';
                if (src.includes('adnxs') || src.includes('adsdk') || src.includes('doubleclick') || src.includes('ads.')) return;
                try {
                    var doc = iframe.contentDocument;
                    if (doc && !doc.__freelook_interceptor__) {
                        doc.__freelook_interceptor__ = true;
                        doc.addEventListener('click', interceptClick, true);
                    }
                } catch(e) {} // Cross-origin, skip
            });
        }

        window.addEventListener('load', function() {
            attachToMailIframes();
            setTimeout(attachToMailIframes, 1000);
            setTimeout(attachToMailIframes, 3000);
        });
    })();
    "#;

/// The link interceptor script.
pub fn get_link_interceptor_js() -> (r: &'static str)
    ensures
        r@ == LINK_INTERCEPTOR_JS@,
{
    LINK_INTERCEPTOR_JS
}

/// The ad-hiding style sheet, written out: one rule per advertisement class,
/// in the order vertical, small, premium, each class read from its own
/// setting when that holds a string ("verticalAdsClass", "smallAdsClass",
/// "premiumAdsClass") and otherwise the built-in class ("pBKjV", "X1Kvq",
/// "VPtFl").
pub proof fn lemma_main_css_written_out(stored: Map<Seq<char>, crate::settings::StoredValue>)
    ensures
        ({
            let pick = |k: Seq<char>, d: Seq<char>| if stored.dom().contains(k) && stored[k] is Text {
                crate::settings::rendered(stored[k])
            } else {
                d
            };
            spec_get_main_css(stored) == "\n        ."@ + pick("verticalAdsClass"@, "pBKjV"@)
                + " { display: none !important; }\n        ."@ + pick("smallAdsClass"@, "X1Kvq"@)
                + " { display: none !important; }\n        ."@ + pick("premiumAdsClass"@, "VPtFl"@)
                + " { display: none !important; }\n        "@
        }),
{
}

/// Only the three characters that end or interpolate a template literal are
/// escaped: a text without '\\', '`' and '$' is written unchanged, and every
/// escape adds exactly one backslash before one of those three.
pub proof fn lemma_escape_changes_only_template_characters(s: Seq<char>)
    ensures
        (forall|i: int| 0 <= i < s.len() ==> s[i] != '\\' && s[i] != '`' && s[i] != '$')
            ==> escaped(s) == s,
        escaped(s).len() >= s.len(),
    decreases s.len(),
{
    if s.len() > 0 {
        lemma_escape_changes_only_template_characters(s.drop_first());
        if forall|i: int| 0 <= i < s.len() ==> s[i] != '\\' && s[i] != '`' && s[i] != '$' {
            assert forall|i: int| 0 <= i < s.drop_first().len() implies s.drop_first()[i] != '\\'
                && s.drop_first()[i] != '`' && s.drop_first()[i] != '$' by {
                assert(s.drop_first()[i] == s[i + 1]);
            }
            assert(s[0] != '\\' && s[0] != '`' && s[0] != '$');
            assert(seq![s[0]] + s.drop_first() == s);
        }
    }
}

/// The unread observer watches exactly the class stored under
/// "unreadMessageClass": where that is a non-empty string, the script is the
/// observer with that class in it; otherwise there is no script.
pub proof fn lemma_unread_js_written_out(stored: Map<Seq<char>, crate::settings::StoredValue>)
    ensures
        stored.dom().contains("unreadMessageClass"@) && stored["unreadMessageClass"@] is Text
            && crate::settings::rendered(stored["unreadMessageClass"@]).len() > 0
            ==> spec_get_unread_js(stored) == UNREAD_SCRIPT_HEAD@ + crate::settings::rendered(
            stored["unreadMessageClass"@],
        ) + UNREAD_SCRIPT_TAIL@,
        !(stored.dom().contains("unreadMessageClass"@) && stored["unreadMessageClass"@] is Text
            && crate::settings::rendered(stored["unreadMessageClass"@]).len() > 0)
            ==> spec_get_unread_js(stored).len() == 0,
{
    reveal_strlit("");
}

/// The style sheet reaches the page unchanged: in the install script, the text
/// between the fixed head and tail reads back, as a template literal, as
/// exactly the CSS given; the same holds inside the style element that
/// `css_inject_script` appends.
pub proof fn lemma_scripts_carry_css_unchanged(css: Seq<char>)
    ensures
        ({
            let script = spec_main_css_script(css);
            &&& crate::text::seq_starts_with(script, MAIN_CSS_SCRIPT_HEAD@)
            &&& unescaped(script.subrange(
                MAIN_CSS_SCRIPT_HEAD@.len() as int,
                script.len() - MAIN_CSS_SCRIPT_TAIL@.len(),
            )) == css
        }),
        ({
            let script = spec_css_inject_script(css);
            let head = "document.head.insertAdjacentHTML('beforeend', `<style>"@;
            let tail = "</style>`)"@;
            &&& crate::text::seq_starts_with(script, head)
            &&& unescaped(script.subrange(head.len() as int, script.len() - tail.len())) == css
        }),
{
    lemma_unescape_escaped(css);
    let e = escaped(css);
    let a = MAIN_CSS_SCRIPT_HEAD@;
    let b = MAIN_CSS_SCRIPT_TAIL@;
    assert((a + e + b).subrange(a.len() as int, (a + e + b).len() - b.len()) =~= e);
    assert((a + e + b).subrange(0, a.len() as int) =~= a);
    let h = "document.head.insertAdjacentHTML('beforeend', `<style>"@;
    let t = "</style>`)"@;
    assert((h + e + t).subrange(h.len() as int, (h + e + t).len() - t.len()) =~= e);
    assert((h + e + t).subrange(0, h.len() as int) =~= h);
}

} // verus!
