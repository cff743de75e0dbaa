//! Naming of downloaded attachments: cleaning a suggested name, the name that
//! the page suggested last, numbered alternatives for names already taken,
//! and which saved files open in the system viewer.

use vstd::prelude::*;
use crate::text::{opt_chars, from_chars, to_chars, decimal, decimal_string, lemma_decimal_injective, seq_starts_with, starts_with_lit};
use crate::navigation::{UrlParts, UrlView};

verus! {

/// Characters that may not stand in a file name on some platform.
pub open spec fn forbidden_in_file_name(c: char) -> bool {
    c == '/' || c == '\\' || c == ':' || c == '*' || c == '?' || c == '"' || c == '<' || c == '>'
        || c == '|'
}

/// Unicode's control characters (general category Cc), the set that
/// `char::is_control` tests.
pub open spec fn is_control(c: char) -> bool {
    (c as u32) <= 0x1f || (0x7f <= (c as u32) && (c as u32) <= 0x9f)
}

/// The characters of Unicode's White_Space property, the set that `str::trim`
/// removes.
pub open spec fn is_white_space(c: char) -> bool {
    let u = c as u32;
    (0x09 <= u && u <= 0x0d) || u == 0x20 || u == 0x85 || u == 0xa0 || u == 0x1680 || (0x2000 <= u
        && u <= 0x200a) || u == 0x2028 || u == 0x2029 || u == 0x202f || u == 0x205f || u == 0x3000
}

/// A character as it stands in a cleaned file name.
pub open spec fn clean_char(c: char) -> char {
    if forbidden_in_file_name(c) || is_control(c) {
        '_'
    } else {
        c
    }
}

/// The character that a trim removes: white space, or (with `dots`) a '.'.
pub open spec fn trimmed_char(c: char, dots: bool) -> bool {
    if dots {
        c == '.'
    } else {
        is_white_space(c)
    }
}

/// `s` without its leading trimmed characters.
pub open spec fn trim_start(s: Seq<char>, dots: bool) -> Seq<char>
    decreases s.len(),
{
    if s.len() > 0 && trimmed_char(s[0], dots) {
        trim_start(s.drop_first(), dots)
    } else {
        s
    }
}

/// `s` without its trailing trimmed characters.
pub open spec fn trim_end(s: Seq<char>, dots: bool) -> Seq<char>
    decreases s.len(),
{
    if s.len() > 0 && trimmed_char(s.last(), dots) {
        trim_end(s.drop_last(), dots)
    } else {
        s
    }
}

/// `s` without leading and trailing trimmed characters.
pub open spec fn trim(s: Seq<char>, dots: bool) -> Seq<char> {
    trim_end(trim_start(s, dots), dots)
}

/// The longest a cleaned file name may be, in characters.
pub open spec fn max_file_name_chars() -> nat {
    180
}

/// A suggested file name made safe to save: forbidden and control characters
/// become '_', surrounding white space and dots are trimmed, and the name is
/// cut to its first 180 characters.
pub open spec fn sanitized(name: Seq<char>) -> Seq<char> {
    let mapped = name.map_values(|c: char| clean_char(c));
    let t = trim(trim(trim(mapped, false), true), false);
    if t.len() <= max_file_name_chars() {
        t
    } else {
        t.take(max_file_name_chars() as int)
    }
}

/// A sequence of characters none of which is forbidden or a control character.
pub open spec fn all_clean(s: Seq<char>) -> bool {
    forall|i: int| 0 <= i < s.len() ==> !forbidden_in_file_name(#[trigger] s[i]) && !is_control(s[i])
}

fn is_trimmed_char(c: char, dots: bool) -> (r: bool)
    ensures
        r == trimmed_char(c, dots),
{
    if dots {
        c == '.'
    } else {
        let u = c as u32;
        (0x09 <= u && u <= 0x0d) || u == 0x20 || u == 0x85 || u == 0xa0 || u == 0x1680 || (0x2000
            <= u && u <= 0x200a) || u == 0x2028 || u == 0x2029 || u == 0x202f || u == 0x205f || u
            == 0x3000
    }
}

proof fn lemma_trim_start_from(s: Seq<char>, i: int, dots: bool)
    requires
        0 <= i < s.len(),
        trimmed_char(s[i], dots),
    ensures
        trim_start(s.subrange(i, s.len() as int), dots) == trim_start(s.subrange(i + 1, s.len() as int), dots),
{
    assert(s.subrange(i, s.len() as int).drop_first() == s.subrange(i + 1, s.len() as int));
}

proof fn lemma_trim_end_to(s: Seq<char>, j: int, dots: bool)
    requires
        0 < j <= s.len(),
        trimmed_char(s[j - 1], dots),
    ensures
        trim_end(s.subrange(0, j), dots) == trim_end(s.subrange(0, j - 1), dots),
{
    assert(s.subrange(0, j).drop_last() == s.subrange(0, j - 1));
}

/// Removes leading and trailing trimmed characters.
fn trim_chars(v: &Vec<char>, dots: bool) -> (r: Vec<char>)
    ensures
        r@ == trim(v@, dots),
{
    let n = v.len();
    let mut i: usize = 0;
    assert(v@.subrange(0, n as int) == v@);
    while i < n && is_trimmed_char(v[i], dots)
        invariant
            n == v.len(),
            i <= n,
            trim_start(v@, dots) == trim_start(v@.subrange(i as int, n as int), dots),
        decreases n - i,
    {
        proof {
            lemma_trim_start_from(v@, i as int, dots);
        }
        i = i + 1;
    }
    assert(v@.subrange(0, n as int) == v@);
    let ghost start = v@.subrange(i as int, n as int);
    assert(trim_start(v@, dots) == start);
    let mut r: Vec<char> = Vec::new();
    let mut j: usize = n;
    while j > i && is_trimmed_char(v[j - 1], dots)
        invariant
            n == v.len(),
            i <= j <= n,
            start == v@.subrange(i as int, n as int),
            trim_end(start, dots) == trim_end(v@.subrange(i as int, j as int), dots),
        decreases j,
    {
        proof {
            let sub = v@.subrange(i as int, n as int);
            assert(sub.subrange(0, (j - i) as int) == v@.subrange(i as int, j as int));
            assert(sub.subrange(0, (j - i - 1) as int) == v@.subrange(i as int, j - 1));
            lemma_trim_end_to(sub, (j - i) as int, dots);
        }
        j = j - 1;
    }
    for k in i..j
        invariant
            i <= j <= n,
            n == v.len(),
            r@ == v@.subrange(i as int, k as int),
    {
        r.push(v[k]);
        assert(r@ == v@.subrange(i as int, k + 1));
    }
    r
}

proof fn lemma_trim_start_clean(s: Seq<char>, dots: bool)
    requires
        all_clean(s),
    ensures
        all_clean(trim_start(s, dots)),
    decreases s.len(),
{
    if s.len() > 0 && trimmed_char(s[0], dots) {
        assert forall|i: int| 0 <= i < s.drop_first().len() implies !forbidden_in_file_name(
            #[trigger] s.drop_first()[i],
        ) && !is_control(s.drop_first()[i]) by {
            assert(s.drop_first()[i] == s[i + 1]);
        }
        lemma_trim_start_clean(s.drop_first(), dots);
    }
}

proof fn lemma_trim_end_clean(s: Seq<char>, dots: bool)
    requires
        all_clean(s),
    ensures
        all_clean(trim_end(s, dots)),
    decreases s.len(),
{
    if s.len() > 0 && trimmed_char(s.last(), dots) {
        assert forall|i: int| 0 <= i < s.drop_last().len() implies !forbidden_in_file_name(
            #[trigger] s.drop_last()[i],
        ) && !is_control(s.drop_last()[i]) by {
            assert(s.drop_last()[i] == s[i]);
        }
        lemma_trim_end_clean(s.drop_last(), dots);
    }
}

/// Cleans a suggested file name (see [`sanitized`]).
pub fn sanitize_file_name(name: &str) -> (r: String)
    ensures
        r@ == sanitized(name@),
{
    let chars = to_chars(name);
    let mut mapped: Vec<char> = Vec::new();
    for i in 0..chars.len()
        invariant
            chars@ == name@,
            mapped@ == chars@.take(i as int).map_values(|c: char| clean_char(c)),
    {
        let c = chars[i];
        let u = c as u32;
        let d = if c == '/' || c == '\\' || c == ':' || c == '*' || c == '?' || c == '"' || c == '<'
            || c == '>' || c == '|' || u <= 0x1f || (0x7f <= u && u <= 0x9f) {
            '_'
        } else {
            c
        };
        mapped.push(d);
        assert(mapped@ =~= chars@.take(i + 1).map_values(|c: char| clean_char(c)));
    }
    assert(chars@.take(chars@.len() as int) == chars@);
    let t = trim_chars(&trim_chars(&trim_chars(&mapped, false), true), false);
    if t.len() <= 180 {
        from_chars(&t)
    } else {
        let mut cut: Vec<char> = Vec::new();
        for k in 0..180
            invariant
                t.len() > 180,
                cut@ == t@.take(k as int),
        {
            cut.push(t[k]);
            assert(cut@ == t@.take(k + 1));
        }
        from_chars(&cut)
    }
}

/// No cleaned name holds a forbidden or control character, and none is longer
/// than 180 characters.
pub proof fn lemma_sanitized_is_safe(name: Seq<char>)
    ensures
        all_clean(sanitized(name)),
        sanitized(name).len() <= max_file_name_chars(),
{
    let mapped = name.map_values(|c: char| clean_char(c));
    assert(all_clean(mapped));
    lemma_trim_start_clean(mapped, false);
    lemma_trim_end_clean(trim_start(mapped, false), false);
    let a = trim(mapped, false);
    lemma_trim_start_clean(a, true);
    lemma_trim_end_clean(trim_start(a, true), true);
    let b = trim(a, true);
    lemma_trim_start_clean(b, false);
    lemma_trim_end_clean(trim_start(b, false), false);
}

/// The file name that the page suggested for the next download, if any.
pub struct PendingDownloadName {
    name: Option<String>,
}

impl View for PendingDownloadName {
    type V = Option<Seq<char>>;

    closed spec fn view(&self) -> Option<Seq<char>> {
        match self.name {
            Some(s) => Some(s@),
            None => None,
        }
    }
}

impl PendingDownloadName {
    /// No name pending.
    pub fn new() -> (r: PendingDownloadName)
        ensures
            r@ is None,
    {
        PendingDownloadName { name: None }
    }
}

/// The pending name after the page suggests `name`: its cleaned form, unless
/// that is empty, in which case the pending name stays as it was.
pub open spec fn after_suggestion(pending: Option<Seq<char>>, name: Seq<char>) -> Option<Seq<char>> {
    if sanitized(name).len() == 0 {
        pending
    } else {
        Some(sanitized(name))
    }
}

/// Remembers the cleaned form of `name` as the name of the next download; a
/// name that cleans to nothing is ignored.
pub fn set_pending_download_name(pending: &mut PendingDownloadName, name: String)
    ensures
        final(pending)@ == after_suggestion(old(pending)@, name@),
{
    let clean = sanitize_file_name(name.as_str());
    if to_chars(clean.as_str()).len() == 0 {
        return;
    }
    pending.name = Some(clean);
}

/// Hands out the pending name, if any, and forgets it.
pub fn take_pending_download_name(pending: &mut PendingDownloadName) -> (r: Option<String>)
    ensures
        match r {
            Some(s) => old(pending)@ == Some(s@),
            None => old(pending)@ is None,
        },
        final(pending)@ is None,
{
    let r = pending.name.take();
    r
}

/// A suggested name is handed out once: the next take gives its cleaned form
/// (or the earlier name, where it cleaned to nothing), and the take after that
/// gives nothing.
pub proof fn lemma_suggestion_taken_once(pending: Option<Seq<char>>, name: Seq<char>)
    ensures
        sanitized(name).len() > 0 ==> after_suggestion(pending, name) == Some(sanitized(name)),
        sanitized(name).len() == 0 ==> after_suggestion(pending, name) == pending,
{
}

/// The final component of a path, as `std::path::Path::file_name` gives it.
pub uninterp spec fn spec_path_file_name(path: Seq<char>) -> Option<Seq<char>>;

/// The path without its final component, as `std::path::Path::parent` gives it.
pub uninterp spec fn spec_path_parent(path: Seq<char>) -> Option<Seq<char>>;

/// Trusted wrapper around `Path::file_name`: the result is named by
/// `spec_path_file_name`; the component rules are not restated.
#[verifier::external_body]
pub(crate) fn path_file_name(path: &str) -> (r: Option<String>)
    ensures
        opt_chars(r) == spec_path_file_name(path@),
{
    std::path::Path::new(path).file_name().and_then(|f| f.to_str()).map(|f| f.to_string())
}

/// Trusted wrapper around `Path::parent`: the result is named by
/// `spec_path_parent`.
#[verifier::external_body]
pub(crate) fn path_parent(path: &str) -> (r: Option<String>)
    ensures
        opt_chars(r) == spec_path_parent(path@),
{
    std::path::Path::new(path).parent().and_then(|p| p.to_str()).map(|p| p.to_string())
}

/// The extension of a file name, as the documentation of `Path::extension`
/// describes it: none without an embedded '.', none for a name that begins
/// with its only '.', otherwise what follows the final '.'.
pub open spec fn name_extension(f: Seq<char>) -> Option<Seq<char>> {
    if f == ".."@ || last_index_of(f, '.') <= 0 {
        None
    } else {
        Some(f.subrange(last_index_of(f, '.') + 1, f.len() as int))
    }
}

/// The stem of a file name, as the documentation of `Path::file_stem`
/// describes it: the whole name without an embedded '.' or when it begins with
/// its only '.', otherwise what precedes the final '.'.
pub open spec fn name_stem(f: Seq<char>) -> Seq<char> {
    if f == ".."@ || last_index_of(f, '.') <= 0 {
        f
    } else {
        f.subrange(0, last_index_of(f, '.'))
    }
}

/// The extension of a path's file name.
pub open spec fn path_extension(path: Seq<char>) -> Option<Seq<char>> {
    match spec_path_file_name(path) {
        Some(f) => name_extension(f),
        None => None,
    }
}

/// The stem of a path's file name.
pub open spec fn path_stem(path: Seq<char>) -> Option<Seq<char>> {
    match spec_path_file_name(path) {
        Some(f) => Some(name_stem(f)),
        None => None,
    }
}

/// Trusted wrapper around `Path::extension`, which its documentation defines
/// from the file name.
#[verifier::external_body]
pub(crate) fn path_extension_of(path: &str) -> (r: Option<String>)
    ensures
        opt_chars(r) == path_extension(path@),
{
    std::path::Path::new(path).extension().and_then(|e| e.to_str()).map(|e| e.to_string())
}

/// Trusted wrapper around `Path::file_stem`, which its documentation defines
/// from the file name.
#[verifier::external_body]
pub(crate) fn path_stem_of(path: &str) -> (r: Option<String>)
    ensures
        opt_chars(r) == path_stem(path@),
{
    std::path::Path::new(path).file_stem().and_then(|e| e.to_str()).map(|e| e.to_string())
}

/// ASCII lowercase of one character, as `to_ascii_lowercase` defines it.
pub open spec fn ascii_lower(c: char) -> char {
    if 'A' <= c && c <= 'Z' {
        ((c as u32) + 32) as char
    } else {
        c
    }
}

pub open spec fn ascii_lowercase(s: Seq<char>) -> Seq<char> {
    s.map_values(|c: char| ascii_lower(c))
}

fn to_ascii_lowercase(s: &str) -> (r: Vec<char>)
    ensures
        r@ == ascii_lowercase(s@),
{
    let chars = to_chars(s);
    let mut r: Vec<char> = Vec::new();
    for i in 0..chars.len()
        invariant
            chars@ == s@,
            r@ == chars@.take(i as int).map_values(|c: char| ascii_lower(c)),
    {
        let c = chars[i];
        let d = if 'A' <= c && c <= 'Z' {
            ((c as u8) + 32) as char
        } else {
            c
        };
        r.push(d);
        assert(r@ =~= chars@.take(i + 1).map_values(|c: char| ascii_lower(c)));
    }
    assert(chars@.take(chars@.len() as int) == chars@);
    r
}

/// Extensions of the documents that open in the system viewer once saved.
pub open spec fn viewer_extension(e: Seq<char>) -> bool {
    ||| e == "pdf"@
    ||| e == "doc"@
    ||| e == "docx"@
    ||| e == "xls"@
    ||| e == "xlsx"@
    ||| e == "ppt"@
    ||| e == "pptx"@
    ||| e == "rtf"@
    ||| e == "odt"@
    ||| e == "ods"@
    ||| e == "odp"@
}

/// A saved file is a PDF or Office document, by its extension in any case.
pub open spec fn spec_path_is_pdf_or_doc(path: Seq<char>) -> bool {
    match path_extension(path) {
        Some(e) => viewer_extension(ascii_lowercase(e)),
        None => false,
    }
}

/// Whether a saved file is a PDF or Office document that opens in the system
/// viewer once downloaded.
pub fn path_is_pdf_or_doc(path: &str) -> (r: bool)
    ensures
        r == spec_path_is_pdf_or_doc(path@),
{
    match path_extension_of(path) {
        Some(e) => {
            let l = to_ascii_lowercase(e.as_str());
            crate::text::eq_lit(&l, "pdf") || crate::text::eq_lit(&l, "doc") || crate::text::eq_lit(&l, "docx")
                || crate::text::eq_lit(&l, "xls") || crate::text::eq_lit(&l, "xlsx") || crate::text::eq_lit(&l, "ppt")
                || crate::text::eq_lit(&l, "pptx") || crate::text::eq_lit(&l, "rtf") || crate::text::eq_lit(&l, "odt")
                || crate::text::eq_lit(&l, "ods") || crate::text::eq_lit(&l, "odp")
        },
        None => false,
    }
}

/// The stem that a numbered name starts with: the file stem, or "download"
/// where it is missing or empty.
pub open spec fn base_stem(file_name: Seq<char>) -> Seq<char> {
    match path_stem(file_name) {
        Some(s) => if s.len() > 0 { s } else { "download"@ },
        None => "download"@,
    }
}

/// The extension that a numbered name ends with, where there is a non-empty one.
pub open spec fn kept_extension(file_name: Seq<char>) -> Option<Seq<char>> {
    match path_extension(file_name) {
        Some(e) => if e.len() > 0 { Some(e) } else { None },
        None => None,
    }
}

/// "stem (n).ext", or "stem (n)" without an extension.
pub open spec fn numbered_name(file_name: Seq<char>, n: nat) -> Seq<char> {
    let numbered = base_stem(file_name) + " ("@ + decimal(n) + ")"@;
    match kept_extension(file_name) {
        Some(e) => numbered + "."@ + e,
        None => numbered,
    }
}

/// The name tried at each attempt to find a free file name in the download
/// folder: the name itself first, then numbered names 1 to 999; after that
/// there is no further candidate and the plain name is used.
pub open spec fn spec_download_candidate(file_name: Seq<char>, attempt: nat) -> Option<Seq<char>> {
    if attempt == 0 {
        Some(file_name)
    } else if attempt < 1000 {
        Some(numbered_name(file_name, attempt))
    } else {
        None
    }
}

/// The name to try at `attempt` when looking for a free file name (see
/// [`spec_download_candidate`]).
pub fn download_candidate(file_name: &str, attempt: usize) -> (r: Option<String>)
    ensures
        opt_chars(r) == spec_download_candidate(file_name@, attempt as nat),
{
    if attempt == 0 {
        return Some(file_name.to_owned());
    }
    if attempt >= 1000 {
        return None;
    }
    let mut name = match path_stem_of(file_name) {
        Some(s) => if to_chars(s.as_str()).len() > 0 { s } else { "download".to_owned() },
        None => "download".to_owned(),
    };
    name.append(" (");
    let d = decimal_string(attempt as u128);
    name.append(d.as_str());
    name.append(")");
    match path_extension_of(file_name) {
        Some(e) => {
            if to_chars(e.as_str()).len() > 0 {
                name.append(".");
                name.append(e.as_str());
            }
        },
        None => {},
    }
    Some(name)
}

/// Different attempts give different numbered names for the same file.
pub proof fn lemma_numbered_names_distinct(file_name: Seq<char>, a: nat, b: nat)
    requires
        a != b,
    ensures
        numbered_name(file_name, a) != numbered_name(file_name, b),
{
    let p = base_stem(file_name) + " ("@;
    let x = numbered_name(file_name, a);
    let y = numbered_name(file_name, b);
    if x == y {
        let tail: Seq<char> = match kept_extension(file_name) {
            Some(e) => ")"@ + "."@ + e,
            None => ")"@,
        };
        assert(x == p + decimal(a) + tail);
        assert(y == p + decimal(b) + tail);
        assert(decimal(a).len() == decimal(b).len());
        assert(x.subrange(p.len() as int, (p.len() + decimal(a).len()) as int) == decimal(a));
        assert(y.subrange(p.len() as int, (p.len() + decimal(b).len()) as int) == decimal(b));
        lemma_decimal_injective(a, b);
    }
}

/// The index of the last occurrence of `c` in `s`, or -1.
pub open spec fn last_index_of(s: Seq<char>, c: char) -> int
    decreases s.len(),
{
    if s.len() == 0 {
        -1
    } else if s.last() == c {
        s.len() - 1
    } else {
        last_index_of(s.drop_last(), c)
    }
}

/// The last '/'-separated segment of a URL path, as the `url` crate's
/// `path_segments` gives it: only for a path that starts with '/'.
pub open spec fn last_path_segment(path: Seq<char>) -> Option<Seq<char>> {
    if seq_starts_with(path, "/"@) {
        Some(path.subrange(last_index_of(path, '/') + 1, path.len() as int))
    } else {
        None
    }
}

fn find_last(v: &Vec<char>, c: char) -> (r: usize)
    requires
        last_index_of(v@, c) >= 0,
    ensures
        r == last_index_of(v@, c),
{
    let mut i = v.len();
    assert(v@.take(i as int) == v@);
    while i > 0
        invariant
            i <= v.len(),
            last_index_of(v@, c) == last_index_of(v@.take(i as int), c),
        decreases i,
    {
        assert(v@.take(i as int).drop_last() == v@.take(i - 1));
        if v[i - 1] == c {
            return i - 1;
        }
        i = i - 1;
    }
    assert(v@.take(0) =~= Seq::<char>::empty());
    0
}

proof fn lemma_last_index_bounds(s: Seq<char>, c: char)
    ensures
        -1 <= last_index_of(s, c) < s.len(),
        last_index_of(s, c) >= 0 ==> s[last_index_of(s, c)] == c,
        forall|j: int| last_index_of(s, c) < j < s.len() ==> s[j] != c,
    decreases s.len(),
{
    if s.len() > 0 && s.last() != c {
        lemma_last_index_bounds(s.drop_last(), c);
        assert forall|j: int| last_index_of(s, c) < j < s.len() implies s[j] != c by {
            if j < s.len() - 1 {
                assert(s[j] == s.drop_last()[j]);
            }
        }
    }
}

proof fn lemma_last_index_found(s: Seq<char>, c: char)
    requires
        s.len() > 0,
        s[0] == c,
    ensures
        last_index_of(s, c) >= 0,
    decreases s.len(),
{
    if s.last() != c {
        assert(s.drop_last()[0] == c);
        lemma_last_index_found(s.drop_last(), c);
    }
}

/// The name a download is saved under: the name the page suggested last; else
/// the file name of the destination the web view proposed; else, for a `blob:`
/// URL, "freelook-attachment-<timestamp>.pdf"; else the last segment of the
/// URL's path; else "download".
pub open spec fn spec_download_name(
    pending: Option<Seq<char>>,
    url: UrlView,
    destination: Seq<char>,
    timestamp_ms: nat,
) -> Seq<char> {
    match pending {
        Some(n) => n,
        None => match spec_path_file_name(destination) {
            Some(f) => if f.len() > 0 {
                f
            } else {
                fallback_download_name(url, timestamp_ms)
            },
            None => fallback_download_name(url, timestamp_ms),
        },
    }
}

pub open spec fn fallback_download_name(url: UrlView, timestamp_ms: nat) -> Seq<char> {
    if url.scheme == "blob"@ {
        "freelook-attachment-"@ + decimal(timestamp_ms) + ".pdf"@
    } else {
        match last_path_segment(url.path) {
            Some(s) => if s.len() > 0 { s } else { "download"@ },
            None => "download"@,
        }
    }
}

fn fallback_name(url: &UrlParts, timestamp_ms: u128) -> (r: String)
    ensures
        r@ == fallback_download_name(url@, timestamp_ms as nat),
{
    let scheme = to_chars(url.scheme.as_str());
    if crate::text::eq_lit(&scheme, "blob") {
        let mut r = "freelook-attachment-".to_owned();
        let d = decimal_string(timestamp_ms);
        r.append(d.as_str());
        r.append(".pdf");
        return r;
    }
    let path = to_chars(url.path.as_str());
    if !starts_with_lit(&path, "/") {
        return "download".to_owned();
    }
    proof {
        lemma_last_index_bounds(path@, '/');
        reveal_strlit("/");
        assert(path@.subrange(0, 1)[0] == path@[0]);
        lemma_last_index_found(path@, '/');
    }
    let start = find_last(&path, '/') + 1;
    let mut seg: Vec<char> = Vec::new();
    for k in start..path.len()
        invariant
            start <= path.len(),
            seg@ == path@.subrange(start as int, k as int),
    {
        seg.push(path[k]);
        assert(seg@ == path@.subrange(start as int, k + 1));
    }
    if seg.len() > 0 {
        from_chars(&seg)
    } else {
        "download".to_owned()
    }
}

/// Picks the name a download is saved under (see [`spec_download_name`]); the
/// pending suggestion is used up either way.
pub fn download_name(
    pending: &mut PendingDownloadName,
    url: &UrlParts,
    destination: &str,
    timestamp_ms: u128,
) -> (r: String)
    ensures
        r@ == spec_download_name(old(pending)@, url@, destination@, timestamp_ms as nat),
        final(pending)@ is None,
{
    if let Some(name) = take_pending_download_name(pending) {
        return name;
    }
    match path_file_name(destination) {
        Some(f) => {
            if to_chars(f.as_str()).len() > 0 {
                return f;
            }
        },
        None => {},
    }
    fallback_name(url, timestamp_ms)
}

/// The text of the notification shown when a download completes:
/// "Saved to <folder>/<name>", with "Downloads" and "download" where the
/// saved path gives no folder or file name.
pub open spec fn spec_download_notification_body(path: Option<Seq<char>>) -> Seq<char> {
    let name = match path {
        Some(p) => match spec_path_file_name(p) {
            Some(f) => f,
            None => "download"@,
        },
        None => "download"@,
    };
    let folder = match path {
        Some(p) => match spec_path_parent(p) {
            Some(d) => match spec_path_file_name(d) {
                Some(f) => f,
                None => "Downloads"@,
            },
            None => "Downloads"@,
        },
        None => "Downloads"@,
    };
    "Saved to "@ + folder + "/"@ + name
}

/// The notification text for a completed download saved at `path`.
pub fn download_notification_body(path: Option<&str>) -> (r: String)
    ensures
        r@ == spec_download_notification_body(match path {
            Some(p) => Some(p@),
            None => None,
        }),
{
    let name = match path {
        Some(p) => match path_file_name(p) {
            Some(f) => f,
            None => "download".to_owned(),
        },
        None => "download".to_owned(),
    };
    let folder = match path {
        Some(p) => match path_parent(p) {
            Some(d) => match path_file_name(d.as_str()) {
                Some(f) => f,
                None => "Downloads".to_owned(),
            },
            None => "Downloads".to_owned(),
        },
        None => "Downloads".to_owned(),
    };
    let mut r = "Saved to ".to_owned();
    r.append(folder.as_str());
    r.append("/");
    r.append(name.as_str());
    r
}

/// Where a download's name comes from, in order: a pending suggestion; else a
/// non-empty file name of the proposed destination, whatever the URL (a
/// `blob:` URL included); else, for a `blob:` URL, the timestamped attachment
/// name; else the text after the last '/' of a path that starts with '/',
/// where that text is not empty; else "download".
pub proof fn lemma_download_name_sources(
    pending: Option<Seq<char>>,
    url: UrlView,
    destination: Seq<char>,
    timestamp_ms: nat,
)
    ensures
        pending matches Some(n) ==> spec_download_name(pending, url, destination, timestamp_ms) == n,
        pending is None && spec_path_file_name(destination) is Some && spec_path_file_name(destination)->0.len() > 0
            ==> spec_download_name(pending, url, destination, timestamp_ms) == spec_path_file_name(destination)->0,
        ({
            let no_destination_name = match spec_path_file_name(destination) {
                Some(f) => f.len() == 0,
                None => true,
            };
            let r = spec_download_name(pending, url, destination, timestamp_ms);
            let p = url.path;
            &&& pending is None && no_destination_name && url.scheme == "blob"@ ==> r
                == "freelook-attachment-"@ + decimal(timestamp_ms) + ".pdf"@
            &&& pending is None && no_destination_name && url.scheme != "blob"@ && !(p.len() > 0
                && p[0] == '/') ==> r == "download"@
            &&& pending is None && no_destination_name && url.scheme != "blob"@ && p.len() > 0 && p[0]
                == '/' ==> exists|k: int|
                0 <= k < p.len() && p[k] == '/' && (forall|j: int| k < j < p.len() ==> p[j] != '/')
                    && r == (if k + 1 == p.len() { "download"@ } else { p.subrange(k + 1, p.len() as int) })
        }),
{
    let p = url.path;
    reveal_strlit("/");
    if p.len() > 0 {
        lemma_last_index_bounds(p, '/');
        if p[0] == '/' {
            lemma_last_index_found(p, '/');
            assert(p.subrange(0, 1) =~= "/"@);
            let k = last_index_of(p, '/');
            assert(0 <= k < p.len() && p[k] == '/');
        } else {
            assert(p.subrange(0, 1)[0] != "/"@[0]);
        }
    } else {
        assert(!seq_starts_with(p, "/"@));
    }
}

/// Which characters cleaning replaces, written out: the nine that some file
/// system forbids ('/', '\\', ':', '*', '?', '"', '<', '>', '|') and the control
/// characters U+0000..U+001F and U+007F..U+009F become '_'; every other
/// character, '(' and ')' among them, is kept.
pub proof fn lemma_clean_char_written_out(c: char)
    ensures
        clean_char(c) == (if c == '/' || c == '\\' || c == ':' || c == '*' || c == '?' || c == '"'
            || c == '<' || c == '>' || c == '|' || (c as u32) <= 0x1f || (0x7f <= (c as u32) && (c
            as u32) <= 0x9f) {
            '_'
        } else {
            c
        }),
{
}

/// The white space that cleaning trims, written out: U+0009..U+000D, U+0020,
/// U+0085, U+00A0, U+1680, U+2000..U+200A, U+2028, U+2029, U+202F, U+205F and
/// U+3000.
pub proof fn lemma_white_space_written_out(c: char)
    ensures
        is_white_space(c) <==> ((0x09 <= (c as u32) && (c as u32) <= 0x0d) || (c as u32) == 0x20
            || (c as u32) == 0x85 || (c as u32) == 0xa0 || (c as u32) == 0x1680 || (0x2000 <= (
        c as u32) && (c as u32) <= 0x200a) || (c as u32) == 0x2028 || (c as u32) == 0x2029 || (
        c as u32) == 0x202f || (c as u32) == 0x205f || (c as u32) == 0x3000),
{
}

/// An ASCII letter or digit.
pub open spec fn ascii_alphanumeric(c: char) -> bool {
    ('a' <= c && c <= 'z') || ('A' <= c && c <= 'Z') || ('0' <= c && c <= '9')
}

proof fn lemma_trim_keeps(s: Seq<char>, dots: bool)
    requires
        s.len() > 0,
        ascii_alphanumeric(s[0]),
        ascii_alphanumeric(s.last()),
    ensures
        trim(s, dots) == s,
{
}

/// A name that needs no cleaning is kept as it is: at most 180 characters,
/// none of them forbidden or a control character, and beginning and ending
/// with an ASCII letter or digit (so no white space or dots to trim).
pub proof fn lemma_clean_name_unchanged(name: Seq<char>)
    requires
        name.len() <= 180,
        forall|i: int| 0 <= i < name.len() ==> {
            let c = #[trigger] name[i];
            !(c == '/' || c == '\\' || c == ':' || c == '*' || c == '?' || c == '"' || c == '<' || c
                == '>' || c == '|' || (c as u32) <= 0x1f || (0x7f <= (c as u32) && (c as u32) <= 0x9f))
        },
        name.len() > 0 ==> ascii_alphanumeric(name[0]) && ascii_alphanumeric(name.last()),
    ensures
        sanitized(name) == name,
{
    let mapped = name.map_values(|c: char| clean_char(c));
    assert(mapped =~= name);
    if name.len() > 0 {
        lemma_trim_keeps(name, false);
        lemma_trim_keeps(name, true);
    } else {
        assert(trim(name, false) == name);
        assert(trim(name, true) == name);
    }
}

/// Which saved files open in the system viewer, written out: those whose
/// extension, ASCII-lowercased, is pdf, doc, docx, xls, xlsx, ppt, pptx, rtf,
/// odt, ods or odp, and no others.
pub proof fn lemma_viewer_documents_written_out(path: Seq<char>)
    ensures
        spec_path_is_pdf_or_doc(path) <==> (path_extension(path) is Some && {
            let l = ascii_lowercase(path_extension(path)->0);
            ||| l == "pdf"@
            ||| l == "doc"@
            ||| l == "docx"@
            ||| l == "xls"@
            ||| l == "xlsx"@
            ||| l == "ppt"@
            ||| l == "pptx"@
            ||| l == "rtf"@
            ||| l == "odt"@
            ||| l == "ods"@
            ||| l == "odp"@
        }),
{
}

/// ASCII lowercasing, written out: 'A'..'Z' move up by 32 to 'a'..'z', every
/// other character stays, and the length is kept.
pub proof fn lemma_ascii_lowercase_written_out(s: Seq<char>)
    ensures
        ascii_lowercase(s).len() == s.len(),
        forall|i: int| 0 <= i < s.len() ==> {
            let c = s[i];
            #[trigger] ascii_lowercase(s)[i] == (if 'A' <= c && c <= 'Z' { ((c as u32) + 32) as char } else { c })
        },
{
}

/// A numbered name, written out: for a file with a non-empty stem `s` and a
/// non-empty extension `e`, attempt `n` (1 to 999) tries "s (n).e"; with no
/// extension "s (n)"; with no stem "download (n)"...; attempt 0 tries the
/// name itself and attempts from 1000 on give none.
pub proof fn lemma_candidates_written_out(file_name: Seq<char>, n: nat)
    ensures
        n == 0 ==> spec_download_candidate(file_name, n) == Some(file_name),
        n >= 1000 ==> spec_download_candidate(file_name, n) is None,
        1 <= n < 1000 && (path_stem(file_name) is Some && path_stem(file_name)->0.len() > 0) && (path_extension(file_name) is Some && path_extension(file_name)->0.len() > 0)
            ==> spec_download_candidate(file_name, n) == Some(path_stem(file_name)->0 + " ("@ + decimal(n) + ")."@ + path_extension(file_name)->0),
        1 <= n < 1000 && (path_stem(file_name) is Some && path_stem(file_name)->0.len() > 0) && !(path_extension(file_name) is Some && path_extension(file_name)->0.len() > 0)
            ==> spec_download_candidate(file_name, n) == Some(path_stem(file_name)->0 + " ("@ + decimal(n) + ")"@),
        1 <= n < 1000 && !((path_stem(file_name) is Some && path_stem(file_name)->0.len() > 0)) && !(path_extension(file_name) is Some && path_extension(file_name)->0.len() > 0)
            ==> spec_download_candidate(file_name, n) == Some("download (" @ + decimal(n) + ")"@),
{
    reveal_strlit(")");
    reveal_strlit(".");
    reveal_strlit(").");
    reveal_strlit(" (");
    reveal_strlit("download");
    reveal_strlit("download (");
    let d = decimal(n);
    if let Some(e) = path_extension(file_name) {
        let b = base_stem(file_name);
        assert(b + " ("@ + d + ")"@ + "."@ + e =~= b + " ("@ + d + ")."@ + e);
    }
    let b = base_stem(file_name);
    assert("download"@ + " ("@ + d + ")"@ =~= "download ("@ + d + ")"@);
}

proof fn lemma_trim_start_prefix(p: Seq<char>, x: Seq<char>, dots: bool)
    requires
        forall|i: int| 0 <= i < p.len() ==> trimmed_char(#[trigger] p[i], dots),
        x.len() > 0,
        !trimmed_char(x[0], dots),
    ensures
        trim_start(p + x, dots) == x,
    decreases p.len(),
{
    if p.len() == 0 {
        assert(p + x == x);
    } else {
        assert((p + x)[0] == p[0]);
        assert((p + x).drop_first() == p.drop_first() + x);
        assert forall|i: int| 0 <= i < p.drop_first().len() implies trimmed_char(#[trigger] p.drop_first()[i], dots) by {
            assert(p.drop_first()[i] == p[i + 1]);
        }
        lemma_trim_start_prefix(p.drop_first(), x, dots);
    }
}

proof fn lemma_trim_end_suffix(x: Seq<char>, q: Seq<char>, dots: bool)
    requires
        forall|i: int| 0 <= i < q.len() ==> trimmed_char(#[trigger] q[i], dots),
        x.len() > 0,
        !trimmed_char(x.last(), dots),
    ensures
        trim_end(x + q, dots) == x,
    decreases q.len(),
{
    if q.len() == 0 {
        assert(x + q == x);
    } else {
        assert((x + q).last() == q.last());
        assert((x + q).drop_last() == x + q.drop_last());
        assert forall|i: int| 0 <= i < q.drop_last().len() implies trimmed_char(#[trigger] q.drop_last()[i], dots) by {
            assert(q.drop_last()[i] == q[i]);
        }
        lemma_trim_end_suffix(x, q.drop_last(), dots);
    }
}

/// Surrounding spaces and surrounding dots are trimmed: a name that needs no
/// cleaning, wrapped in any number of spaces, or in any number of dots, cleans
/// back to itself.
pub proof fn lemma_surrounding_spaces_and_dots_trimmed(name: Seq<char>, before: nat, after: nat, dot: bool)
    requires
        0 < name.len() <= 180,
        forall|i: int| 0 <= i < name.len() ==> {
            let c = #[trigger] name[i];
            !(c == '/' || c == '\\' || c == ':' || c == '*' || c == '?' || c == '"' || c == '<' || c
                == '>' || c == '|' || (c as u32) <= 0x1f || (0x7f <= (c as u32) && (c as u32) <= 0x9f))
        },
        ascii_alphanumeric(name[0]),
        ascii_alphanumeric(name.last()),
    ensures
        ({
            let pad = if dot { '.' } else { ' ' };
            sanitized(Seq::new(before, |i: int| pad) + name + Seq::new(after, |i: int| pad)) == name
        }),
{
    let pad = if dot { '.' } else { ' ' };
    let p = Seq::new(before, |i: int| pad);
    let q = Seq::new(after, |i: int| pad);
    let full = p + name + q;
    let mapped = full.map_values(|c: char| clean_char(c));
    assert(mapped =~= full);
    let x = name + q;
    assert(p + name + q == p + x);
    assert(x[0] == name[0]);
    lemma_trim_start_prefix(p, x, dot);
    lemma_trim_end_suffix(name, q, dot);
    lemma_trim_keeps(name, !dot);
    lemma_trim_keeps(name, dot);
    if dot {
        // No white space to trim around the dots.
        assert(!trimmed_char(full[0], false)) by {
            if before > 0 { assert(full[0] == p[0]); } else { assert(full[0] == name[0]); }
        }
        assert(!trimmed_char(full.last(), false)) by {
            if after > 0 { assert(full.last() == q.last()); } else { assert(full.last() == name.last()); }
        }
        assert(trim(full, false) == full);
        assert(trim(full, true) == name);
    } else {
        assert(trim(full, false) == name);
    }
}

} // verus!
