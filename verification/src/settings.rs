//! The app's persistent settings: a map from setting names to stored values,
//! with built-in defaults for the settings the app reads.

use vstd::prelude::*;

verus! {

/// A stored setting value: a JSON string, or any other JSON value kept as its
/// JSON text.
#[derive(Debug)]
pub enum ConfigValue {
    Text(String),
    Json(String),
}

/// The abstract value of a [`ConfigValue`].
pub enum StoredValue {
    Text(Seq<char>),
    Json(Seq<char>),
}

impl View for ConfigValue {
    type V = StoredValue;

    open spec fn view(&self) -> StoredValue {
        match self {
            ConfigValue::Text(s) => StoredValue::Text(s@),
            ConfigValue::Json(s) => StoredValue::Json(s@),
        }
    }
}

/// How a stored value reads as a string: a JSON string as itself, any other
/// value as its JSON text.
pub open spec fn rendered(v: StoredValue) -> Seq<char> {
    match v {
        StoredValue::Text(s) => s,
        StoredValue::Json(s) => s,
    }
}

/// The map that a list of entries describes; a later entry for a key
/// replaces an earlier one.
pub open spec fn fold_entries<V>(s: Seq<(Seq<char>, V)>) -> Map<Seq<char>, V>
    decreases s.len(),
{
    if s.len() == 0 {
        Map::empty()
    } else {
        fold_entries(s.drop_last()).insert(s.last().0, s.last().1)
    }
}

pub open spec fn entry_view(e: (String, ConfigValue)) -> (Seq<char>, StoredValue) {
    (e.0@, e.1@)
}

pub open spec fn entries_view(s: Seq<(String, ConfigValue)>) -> Seq<(Seq<char>, StoredValue)> {
    s.map_values(|e: (String, ConfigValue)| entry_view(e))
}

/// A set of stored settings.
pub struct Settings {
    entries: Vec<(String, ConfigValue)>,
}

impl View for Settings {
    type V = Map<Seq<char>, StoredValue>;

    closed spec fn view(&self) -> Map<Seq<char>, StoredValue> {
        fold_entries(entries_view(self.entries@))
    }
}

/// If no entry at or after index `i` has key `k`, the map of `s` agrees on `k`
/// with the map of its first `i` entries.
proof fn lemma_fold_skip<V>(s: Seq<(Seq<char>, V)>, i: int, k: Seq<char>)
    requires
        0 <= i <= s.len(),
        forall|j: int| i <= j < s.len() ==> s[j].0 != k,
    ensures
        fold_entries(s).dom().contains(k) == fold_entries(s.take(i)).dom().contains(k),
        fold_entries(s)[k] == fold_entries(s.take(i))[k],
    decreases s.len() - i,
{
    if i < s.len() {
        lemma_fold_skip(s.drop_last(), i, k);
        assert(s.drop_last().take(i) == s.take(i));
    } else {
        assert(s.take(i) == s);
    }
}

fn clone_value(v: &ConfigValue) -> (r: ConfigValue)
    ensures
        r@ == v@,
{
    match v {
        ConfigValue::Text(s) => ConfigValue::Text(s.clone()),
        ConfigValue::Json(s) => ConfigValue::Json(s.clone()),
    }
}

impl Settings {
    /// No stored settings.
    pub fn new() -> (r: Settings)
        ensures
            r@ == Map::<Seq<char>, StoredValue>::empty(),
    {
        Settings { entries: Vec::new() }
    }

    /// The stored value of `key`, if there is one.
    pub fn lookup(&self, key: &str) -> (r: Option<ConfigValue>)
        ensures
            match r {
                Some(v) => self@.dom().contains(key@) && self@[key@] == v@,
                None => !self@.dom().contains(key@),
            },
    {
        let k = key.to_owned();
        let ghost s = entries_view(self.entries@);
        let mut i = self.entries.len();
        while i > 0
            invariant
                i <= self.entries.len(),
                k@ == key@,
                s == entries_view(self.entries@),
                forall|j: int| i <= j < s.len() ==> s[j].0 != key@,
            decreases i,
        {
            let e = &self.entries[i - 1];
            assert(s[i - 1] == entry_view(self.entries@[i - 1]));
            if e.0 == k {
                proof {
                    lemma_fold_skip(s, i as int, key@);
                    assert(s.take(i as int).drop_last() == s.take(i - 1));
                }
                return Some(clone_value(&e.1));
            }
            i = i - 1;
        }
        proof {
            lemma_fold_skip(s, 0, key@);
        }
        None
    }

    /// Forgets `key`.
    pub fn remove(&mut self, key: &str)
        ensures
            final(self)@ == old(self)@.remove(key@),
    {
        let k = key.to_owned();
        let ghost s = entries_view(self.entries@);
        let mut kept: Vec<(String, ConfigValue)> = Vec::new();
        let n = self.entries.len();
        for i in 0..n
            invariant
                n == self.entries.len(),
                k@ == key@,
                s == entries_view(self.entries@),
                fold_entries(entries_view(kept@)) == fold_entries(s.take(i as int)).remove(key@),
        {
            let e = &self.entries[i];
            assert(s[i as int] == entry_view(self.entries@[i as int]));
            assert(s.take(i + 1).drop_last() == s.take(i as int));
            assert(s.take(i + 1).last() == s[i as int]);
            if e.0 != k {
                let ghost before = kept@;
                kept.push((e.0.clone(), clone_value(&e.1)));
                assert(entries_view(kept@).drop_last() == entries_view(before));
                assert(entries_view(kept@).last() == s[i as int]);
                assert(fold_entries(entries_view(kept@)) =~= fold_entries(s.take(i + 1)).remove(key@));
            } else {
                assert(fold_entries(entries_view(kept@)) =~= fold_entries(s.take(i + 1)).remove(key@));
            }
        }
        assert(s.take(n as int) == s);
        self.entries = kept;
    }

    /// Stores `value` under `key`, replacing what was stored there.
    pub fn store(&mut self, key: String, value: ConfigValue)
        ensures
            final(self)@ == old(self)@.insert(key@, value@),
    {
        self.remove(key.as_str());
        let ghost before = self.entries@;
        self.entries.push((key, value));
        assert(entries_view(self.entries@).drop_last() == entries_view(before));
        assert(entries_view(self.entries@).last() == (key@, value@));
        assert(fold_entries(entries_view(self.entries@)) =~= old(self)@.insert(key@, value@));
    }

    /// The stored entries, for writing the settings back; a later entry for a
    /// key stands for it.
    pub fn entries(&self) -> (r: Vec<(String, ConfigValue)>)
        ensures
            fold_entries(entries_view(r@)) == self@,
    {
        let mut r: Vec<(String, ConfigValue)> = Vec::new();
        let n = self.entries.len();
        for i in 0..n
            invariant
                n == self.entries.len(),
                r@.len() == i,
                entries_view(r@) == entries_view(self.entries@).take(i as int),
        {
            let e = &self.entries[i];
            let ghost before = r@;
            r.push((e.0.clone(), clone_value(&e.1)));
            assert(entries_view(r@)[i as int] == entries_view(self.entries@)[i as int]);
            assert(entries_view(r@) =~= entries_view(self.entries@).take(i + 1)) by {
                assert forall|j: int| 0 <= j < i implies entries_view(r@)[j] == entries_view(before)[j] by {}
            }
        }
        assert(entries_view(self.entries@).take(n as int) == entries_view(self.entries@));
        r
    }
}

/// The built-in defaults of the settings the app reads.
pub open spec fn default_entries() -> Map<Seq<char>, StoredValue> {
    Map::empty()
        .insert("zoomFactor"@, StoredValue::Text("1.0"@))
        .insert("homepageUrl"@, StoredValue::Text("https://outlook.live.com/mail"@))
        .insert("windowFrameWidth"@, StoredValue::Text("1400"@))
        .insert("windowFrameHeight"@, StoredValue::Text("900"@))
        .insert("windowFrameX"@, StoredValue::Text("100"@))
        .insert("windowFrameY"@, StoredValue::Text("100"@))
        .insert("showWindowFrame"@, StoredValue::Text("true"@))
        .insert("verticalAdsClass"@, StoredValue::Text("pBKjV"@))
        .insert("smallAdsClass"@, StoredValue::Text("X1Kvq"@))
        .insert("premiumAdsClass"@, StoredValue::Text("VPtFl"@))
        .insert("unreadMessageClass"@, StoredValue::Text(""@))
}

/// The built-in default of `key`, if it has one.
pub open spec fn builtin_default(key: Seq<char>) -> Option<Seq<char>> {
    if default_entries().dom().contains(key) {
        Some(rendered(default_entries()[key]))
    } else {
        None
    }
}

/// The built-in default settings.
pub fn defaults() -> (r: Settings)
    ensures
        r@ == default_entries(),
{
    let mut r = Settings::new();
    r.store("zoomFactor".to_owned(), ConfigValue::Text("1.0".to_owned()));
    r.store("homepageUrl".to_owned(), ConfigValue::Text("https://outlook.live.com/mail".to_owned()));
    r.store("windowFrameWidth".to_owned(), ConfigValue::Text("1400".to_owned()));
    r.store("windowFrameHeight".to_owned(), ConfigValue::Text("900".to_owned()));
    r.store("windowFrameX".to_owned(), ConfigValue::Text("100".to_owned()));
    r.store("windowFrameY".to_owned(), ConfigValue::Text("100".to_owned()));
    r.store("showWindowFrame".to_owned(), ConfigValue::Text("true".to_owned()));
    r.store("verticalAdsClass".to_owned(), ConfigValue::Text("pBKjV".to_owned()));
    r.store("smallAdsClass".to_owned(), ConfigValue::Text("X1Kvq".to_owned()));
    r.store("premiumAdsClass".to_owned(), ConfigValue::Text("VPtFl".to_owned()));
    r.store("unreadMessageClass".to_owned(), ConfigValue::Text("".to_owned()));
    r
}

/// What reading `key` gives: the stored value, else the caller's default,
/// else the built-in default, else the empty string.
pub open spec fn spec_get_config(
    stored: Map<Seq<char>, StoredValue>,
    key: Seq<char>,
    default: Option<Seq<char>>,
) -> Seq<char> {
    if stored.dom().contains(key) {
        rendered(stored[key])
    } else {
        match default {
            Some(d) => d,
            None => match builtin_default(key) {
                Some(d) => d,
                None => Seq::empty(),
            },
        }
    }
}

/// Every setting the app knows: the built-in defaults, overridden by what is
/// stored.
pub open spec fn spec_get_configs(stored: Map<Seq<char>, StoredValue>) -> Map<Seq<char>, StoredValue> {
    default_entries().union_prefer_right(stored)
}

/// The string form of `value`.
pub fn render(value: &ConfigValue) -> (r: String)
    ensures
        r@ == rendered(value@),
{
    match value {
        ConfigValue::Text(s) => s.clone(),
        ConfigValue::Json(s) => s.clone(),
    }
}

/// Reads the setting `key` as a string: a stored string as itself, another
/// stored value as its JSON text; where nothing is stored, `default` if given,
/// else the built-in default, else the empty string.
pub fn get_config(settings: &Settings, key: &str, default: Option<String>) -> (r: String)
    ensures
        r@ == spec_get_config(settings@, key@, crate::text::opt_chars(default)),
{
    match settings.lookup(key) {
        Some(v) => render(&v),
        None => match default {
            Some(d) => d,
            None => match defaults().lookup(key) {
                Some(v) => render(&v),
                None => String::new(),
            },
        },
    }
}

/// Stores the string `value` under `key`.
pub fn set_config(settings: &mut Settings, key: String, value: String)
    ensures
        final(settings)@ == old(settings)@.insert(key@, StoredValue::Text(value@)),
{
    settings.store(key, ConfigValue::Text(value));
}

/// Stores the string `value` under `key` (the form the window code uses).
pub fn set_config_value(settings: &mut Settings, key: &str, value: &str)
    ensures
        final(settings)@ == old(settings)@.insert(key@, StoredValue::Text(value@)),
{
    set_config(settings, key.to_owned(), value.to_owned());
}

/// Deletes the stored value of `key`; reads fall back to the defaults again.
pub fn delete_config(settings: &mut Settings, key: &str)
    ensures
        final(settings)@ == old(settings)@.remove(key@),
{
    settings.remove(key);
}

/// Every setting: the built-in defaults, with the stored values in their place.
pub fn get_configs(settings: &Settings) -> (r: Settings)
    ensures
        r@ == spec_get_configs(settings@),
{
    let mut r = defaults();
    let entries = settings.entries();
    let ghost s = entries_view(entries@);
    let n = entries.len();
    for i in 0..n
        invariant
            n == entries.len(),
            s == entries_view(entries@),
            fold_entries(s) == settings@,
            r@ == default_entries().union_prefer_right(fold_entries(s.take(i as int))),
    {
        let e = &entries[i];
        assert(s[i as int] == entry_view(entries@[i as int]));
        assert(s.take(i + 1).drop_last() == s.take(i as int));
        assert(s.take(i + 1).last() == s[i as int]);
        r.store(e.0.clone(), clone_value(&e.1));
        assert(r@ =~= default_entries().union_prefer_right(fold_entries(s.take(i + 1))));
    }
    assert(s.take(n as int) == s);
    r
}

/// What reading `key` as a plain string gives: a stored JSON string, else
/// `default`.
pub open spec fn spec_get_config_string(
    stored: Map<Seq<char>, StoredValue>,
    key: Seq<char>,
    default: Seq<char>,
) -> Seq<char> {
    if stored.dom().contains(key) && stored[key] is Text {
        rendered(stored[key])
    } else {
        default
    }
}

/// Reads `key` when it holds a JSON string; otherwise gives `default`.
pub fn get_config_string(settings: &Settings, key: &str, default: &str) -> (r: String)
    ensures
        r@ == spec_get_config_string(settings@, key@, default@),
{
    match settings.lookup(key) {
        Some(ConfigValue::Text(s)) => s,
        _ => default.to_owned(),
    }
}

/// The page the mail window opens.
pub fn get_homepage_url(settings: &Settings) -> (r: String)
    ensures
        r@ == spec_get_config_string(settings@, "homepageUrl"@, "https://outlook.live.com/mail"@),
{
    get_config_string(settings, "homepageUrl", "https://outlook.live.com/mail")
}

/// A read gives back what a write stored, whatever the caller's default.
pub proof fn lemma_read_after_write(
    stored: Map<Seq<char>, StoredValue>,
    key: Seq<char>,
    value: Seq<char>,
    default: Option<Seq<char>>,
)
    ensures
        spec_get_config(stored.insert(key, StoredValue::Text(value)), key, default) == value,
{
}

/// Writing one setting leaves every other setting as it reads.
pub proof fn lemma_write_keeps_other_keys(
    stored: Map<Seq<char>, StoredValue>,
    key: Seq<char>,
    value: Seq<char>,
    other: Seq<char>,
    default: Option<Seq<char>>,
)
    requires
        other != key,
    ensures
        spec_get_config(stored.insert(key, StoredValue::Text(value)), other, default)
            == spec_get_config(stored, other, default),
{
}

/// After a delete, a read falls back exactly as it would with nothing stored:
/// to the caller's default, then the built-in default, then the empty string.
pub proof fn lemma_read_after_delete(
    stored: Map<Seq<char>, StoredValue>,
    key: Seq<char>,
    default: Option<Seq<char>>,
)
    ensures
        spec_get_config(stored.remove(key), key, default)
            == spec_get_config(Map::<Seq<char>, StoredValue>::empty(), key, default),
{
}

/// Reading all settings and reading one agree: every key that the full read
/// lists reads as its listed value, and every other key reads as empty.
pub proof fn lemma_all_settings_agree_with_reads(
    stored: Map<Seq<char>, StoredValue>,
    key: Seq<char>,
)
    ensures
        spec_get_configs(stored).dom().contains(key) ==> rendered(spec_get_configs(stored)[key])
            == spec_get_config(stored, key, None),
        !spec_get_configs(stored).dom().contains(key) ==> spec_get_config(stored, key, None)
            == Seq::<char>::empty(),
{
}

/// The full read lists every stored setting and every setting with a
/// built-in default.
pub proof fn lemma_all_settings_cover(stored: Map<Seq<char>, StoredValue>, key: Seq<char>)
    ensures
        spec_get_configs(stored).dom().contains(key) <==> (stored.dom().contains(key)
            || builtin_default(key) is Some),
{
}

/// A stored JSON string reads the same through both readers.
pub proof fn lemma_string_reads_agree(
    stored: Map<Seq<char>, StoredValue>,
    key: Seq<char>,
    default: Seq<char>,
)
    requires
        stored.dom().contains(key),
        stored[key] is Text,
    ensures
        spec_get_config_string(stored, key, default) == spec_get_config(stored, key, Some(default)),
{
}

/// The built-in defaults, written out: zoom 1.0, the Outlook mail page as home
/// page, a 1400 x 900 window at (100, 100) with its frame shown, the three
/// advertisement classes pBKjV, X1Kvq and VPtFl, no unread-count class; no
/// other setting has a default.
pub proof fn lemma_builtin_defaults_written_out(key: Seq<char>)
    ensures
        builtin_default(key) == ({
        if key == "zoomFactor"@ {
            Some("1.0"@)
        } else if key == "homepageUrl"@ {
            Some("https://outlook.live.com/mail"@)
        } else if key == "windowFrameWidth"@ {
            Some("1400"@)
        } else if key == "windowFrameHeight"@ {
            Some("900"@)
        } else if key == "windowFrameX"@ {
            Some("100"@)
        } else if key == "windowFrameY"@ {
            Some("100"@)
        } else if key == "showWindowFrame"@ {
            Some("true"@)
        } else if key == "verticalAdsClass"@ {
            Some("pBKjV"@)
        } else if key == "smallAdsClass"@ {
            Some("X1Kvq"@)
        } else if key == "premiumAdsClass"@ {
            Some("VPtFl"@)
        } else if key == "unreadMessageClass"@ {
            Some(""@)
        } else {
            None
        }
        }),
{
    reveal_strlit("zoomFactor");
    reveal_strlit("homepageUrl");
    reveal_strlit("windowFrameWidth");
    reveal_strlit("windowFrameHeight");
    reveal_strlit("windowFrameX");
    reveal_strlit("windowFrameY");
    reveal_strlit("showWindowFrame");
    reveal_strlit("verticalAdsClass");
    reveal_strlit("smallAdsClass");
    reveal_strlit("premiumAdsClass");
    reveal_strlit("unreadMessageClass");
    assert("zoomFactor"@.len() != "homepageUrl"@.len());
    assert("zoomFactor"@.len() != "windowFrameWidth"@.len());
    assert("zoomFactor"@.len() != "windowFrameHeight"@.len());
    assert("zoomFactor"@.len() != "windowFrameX"@.len());
    assert("zoomFactor"@.len() != "windowFrameY"@.len());
    assert("zoomFactor"@.len() != "showWindowFrame"@.len());
    assert("zoomFactor"@.len() != "verticalAdsClass"@.len());
    assert("zoomFactor"@.len() != "smallAdsClass"@.len());
    assert("zoomFactor"@.len() != "premiumAdsClass"@.len());
    assert("zoomFactor"@.len() != "unreadMessageClass"@.len());
    assert("homepageUrl"@.len() != "windowFrameWidth"@.len());
    assert("homepageUrl"@.len() != "windowFrameHeight"@.len());
    assert("homepageUrl"@.len() != "windowFrameX"@.len());
    assert("homepageUrl"@.len() != "windowFrameY"@.len());
    assert("homepageUrl"@.len() != "showWindowFrame"@.len());
    assert("homepageUrl"@.len() != "verticalAdsClass"@.len());
    assert("homepageUrl"@.len() != "smallAdsClass"@.len());
    assert("homepageUrl"@.len() != "premiumAdsClass"@.len());
    assert("homepageUrl"@.len() != "unreadMessageClass"@.len());
    assert("windowFrameWidth"@.len() != "windowFrameHeight"@.len());
    assert("windowFrameWidth"@.len() != "windowFrameX"@.len());
    assert("windowFrameWidth"@.len() != "windowFrameY"@.len());
    assert("windowFrameWidth"@.len() != "showWindowFrame"@.len());
    assert("windowFrameWidth"@[0] != "verticalAdsClass"@[0]);
    assert("windowFrameWidth"@.len() != "smallAdsClass"@.len());
    assert("windowFrameWidth"@.len() != "premiumAdsClass"@.len());
    assert("windowFrameWidth"@.len() != "unreadMessageClass"@.len());
    assert("windowFrameHeight"@.len() != "windowFrameX"@.len());
    assert("windowFrameHeight"@.len() != "windowFrameY"@.len());
    assert("windowFrameHeight"@.len() != "showWindowFrame"@.len());
    assert("windowFrameHeight"@.len() != "verticalAdsClass"@.len());
    assert("windowFrameHeight"@.len() != "smallAdsClass"@.len());
    assert("windowFrameHeight"@.len() != "premiumAdsClass"@.len());
    assert("windowFrameHeight"@.len() != "unreadMessageClass"@.len());
    assert("windowFrameX"@[11] != "windowFrameY"@[11]);
    assert("windowFrameX"@.len() != "showWindowFrame"@.len());
    assert("windowFrameX"@.len() != "verticalAdsClass"@.len());
    assert("windowFrameX"@.len() != "smallAdsClass"@.len());
    assert("windowFrameX"@.len() != "premiumAdsClass"@.len());
    assert("windowFrameX"@.len() != "unreadMessageClass"@.len());
    assert("windowFrameY"@.len() != "showWindowFrame"@.len());
    assert("windowFrameY"@.len() != "verticalAdsClass"@.len());
    assert("windowFrameY"@.len() != "smallAdsClass"@.len());
    assert("windowFrameY"@.len() != "premiumAdsClass"@.len());
    assert("windowFrameY"@.len() != "unreadMessageClass"@.len());
    assert("showWindowFrame"@.len() != "verticalAdsClass"@.len());
    assert("showWindowFrame"@.len() != "smallAdsClass"@.len());
    assert("showWindowFrame"@[0] != "premiumAdsClass"@[0]);
    assert("showWindowFrame"@.len() != "unreadMessageClass"@.len());
    assert("verticalAdsClass"@.len() != "smallAdsClass"@.len());
    assert("verticalAdsClass"@.len() != "premiumAdsClass"@.len());
    assert("verticalAdsClass"@.len() != "unreadMessageClass"@.len());
    assert("smallAdsClass"@.len() != "premiumAdsClass"@.len());
    assert("smallAdsClass"@.len() != "unreadMessageClass"@.len());
    assert("premiumAdsClass"@.len() != "unreadMessageClass"@.len());
}

/// Reading a setting that is not stored, written out: the caller's default
/// when one is given (even an empty one), else the built-in default, else the
/// empty string; a stored value always wins.
pub proof fn lemma_fallback_order(stored: Map<Seq<char>, StoredValue>, key: Seq<char>, d: Seq<char>)
    ensures
        stored.dom().contains(key) ==> spec_get_config(stored, key, Some(d)) == rendered(stored[key])
            && spec_get_config(stored, key, None) == rendered(stored[key]),
        !stored.dom().contains(key) ==> spec_get_config(stored, key, Some(d)) == d,
        !stored.dom().contains(key) && builtin_default(key) is Some ==> spec_get_config(stored, key, None)
            == builtin_default(key)->0,
        !stored.dom().contains(key) && builtin_default(key) is None ==> spec_get_config(stored, key, None)
            == Seq::<char>::empty(),
        rendered(StoredValue::Text(d)) == d && rendered(StoredValue::Json(d)) == d,
{
}

/// The plain string reader, written out: a stored JSON string as itself,
/// anything else (a stored non-string value, or nothing) as the default; the
/// home page is read from "homepageUrl" with the Outlook mail page as default.
pub proof fn lemma_string_reader_written_out(stored: Map<Seq<char>, StoredValue>, key: Seq<char>, d: Seq<char>)
    ensures
        stored.dom().contains(key) && stored[key] is Text ==> spec_get_config_string(stored, key, d)
            == stored[key]->Text_0,
        !(stored.dom().contains(key) && stored[key] is Text) ==> spec_get_config_string(stored, key, d) == d,
{
}

} // verus!
