//! The connection settings document (`connection.json`): a JSON value whose
//! object entries hold the proxy target, the Umbrel password and the shortcut
//! configuration. Reading and writing follow the JSON rules the desktop shell
//! relies on: reading a key of anything but an object gives nothing, writing a
//! key into `null` first makes it an empty object.

use vstd::prelude::*;

use crate::text::str_eq;
use serde_json::Value;

verus! {

/// A value stored under a key of the settings object.
#[derive(Debug)]
pub enum SettingValue {
    /// A JSON boolean.
    Flag(bool),
    /// A JSON string.
    Text(String),
    /// Any other JSON value, kept as its JSON text.
    Other(String),
}

/// The mathematical value of a [`SettingValue`].
pub enum SettingView {
    Flag(bool),
    Text(Seq<char>),
    Other(Seq<char>),
}

impl View for SettingValue {
    type V = SettingView;

    open spec fn view(&self) -> SettingView {
        match self {
            SettingValue::Flag(b) => SettingView::Flag(*b),
            SettingValue::Text(t) => SettingView::Text(t@),
            SettingValue::Other(j) => SettingView::Other(j@),
        }
    }
}

/// The shape of a settings document.
#[derive(Debug)]
pub enum SettingsDoc {
    /// JSON `null`: what a missing or unreadable file gives.
    Null,
    /// A JSON object: its entries, each key once.
    Object(Vec<(String, SettingValue)>),
    /// Any other JSON value (an array, a number, ...), kept as its JSON text.
    Other(String),
}

/// The mathematical value of a settings document.
pub enum SettingsView {
    Null,
    Object(Map<Seq<char>, SettingView>),
    Other(Seq<char>),
}

/// No key occurs twice among the entries.
pub open spec fn keys_unique(e: Seq<(String, SettingValue)>) -> bool {
    forall|i: int, j: int|
        #![trigger e[i], e[j]]
        0 <= i < e.len() && 0 <= j < e.len() && i != j ==> e[i].0@ != e[j].0@
}

/// The entries as a map from key to value.
pub open spec fn entries_view(e: Seq<(String, SettingValue)>) -> Map<Seq<char>, SettingView> {
    Map::new(
        |k: Seq<char>| exists|i: int| 0 <= i < e.len() && e[i].0@ == k,
        |k: Seq<char>| e[choose|i: int| 0 <= i < e.len() && e[i].0@ == k].1@,
    )
}

proof fn lemma_entry_at(e: Seq<(String, SettingValue)>, i: int)
    requires
        keys_unique(e),
        0 <= i < e.len(),
    ensures
        entries_view(e).contains_key(e[i].0@),
        entries_view(e)[e[i].0@] == e[i].1@,
{
    let k = e[i].0@;
    assert(exists|j: int| 0 <= j < e.len() && e[j].0@ == k);
    let j = choose|j: int| 0 <= j < e.len() && e[j].0@ == k;
    assert(j == i);
}

proof fn lemma_entry_absent(e: Seq<(String, SettingValue)>, k: Seq<char>)
    requires
        forall|i: int| 0 <= i < e.len() ==> e[i].0@ != k,
    ensures
        !entries_view(e).contains_key(k),
{
}

proof fn lemma_entries_update(e: Seq<(String, SettingValue)>, i: int, p: (String, SettingValue))
    requires
        keys_unique(e),
        0 <= i < e.len(),
        p.0@ == e[i].0@,
    ensures
        keys_unique(e.update(i, p)),
        entries_view(e.update(i, p)) == entries_view(e).insert(p.0@, p.1@),
{
    let f = e.update(i, p);
    assert forall|a: int, b: int|
        #![trigger f[a], f[b]]
        0 <= a < f.len() && 0 <= b < f.len() && a != b implies f[a].0@ != f[b].0@ by {
        assert(e[a].0@ != e[b].0@);
    }
    let m = entries_view(e).insert(p.0@, p.1@);
    assert forall|k: Seq<char>| #[trigger] entries_view(f).contains_key(k) <==> m.contains_key(k) by {
        if entries_view(f).contains_key(k) {
            let j = choose|j: int| 0 <= j < f.len() && f[j].0@ == k;
            if j != i {
                lemma_entry_at(e, j);
            }
        }
        if m.contains_key(k) && k != p.0@ {
            let j = choose|j: int| 0 <= j < e.len() && e[j].0@ == k;
            assert(f[j].0@ == k);
        }
        if k == p.0@ {
            lemma_entry_at(f, i);
        }
    }
    assert forall|k: Seq<char>| #[trigger] entries_view(f).contains_key(k) implies entries_view(f)[k] == m[k] by {
        let j = choose|j: int| 0 <= j < f.len() && f[j].0@ == k;
        lemma_entry_at(f, j);
        if j != i {
            lemma_entry_at(e, j);
        }
    }
    assert(entries_view(f) =~= m);
}

proof fn lemma_entries_push(e: Seq<(String, SettingValue)>, p: (String, SettingValue))
    requires
        keys_unique(e),
        forall|i: int| 0 <= i < e.len() ==> e[i].0@ != p.0@,
    ensures
        keys_unique(e.push(p)),
        entries_view(e.push(p)) == entries_view(e).insert(p.0@, p.1@),
{
    let f = e.push(p);
    let n = e.len() as int;
    assert forall|a: int, b: int|
        #![trigger f[a], f[b]]
        0 <= a < f.len() && 0 <= b < f.len() && a != b implies f[a].0@ != f[b].0@ by {
        if a < n && b < n {
            assert(e[a].0@ != e[b].0@);
        } else if a < n {
            assert(e[a].0@ != p.0@);
        } else {
            assert(e[b].0@ != p.0@);
        }
    }
    let m = entries_view(e).insert(p.0@, p.1@);
    assert forall|k: Seq<char>| #[trigger] entries_view(f).contains_key(k) <==> m.contains_key(k) by {
        if entries_view(f).contains_key(k) {
            let j = choose|j: int| 0 <= j < f.len() && f[j].0@ == k;
            if j != n {
                lemma_entry_at(e, j);
            }
        }
        if m.contains_key(k) && k != p.0@ {
            let j = choose|j: int| 0 <= j < e.len() && e[j].0@ == k;
            assert(f[j].0@ == k);
        }
        if k == p.0@ {
            lemma_entry_at(f, n);
        }
    }
    assert forall|k: Seq<char>| #[trigger] entries_view(f).contains_key(k) implies entries_view(f)[k] == m[k] by {
        let j = choose|j: int| 0 <= j < f.len() && f[j].0@ == k;
        lemma_entry_at(f, j);
        if j != n {
            lemma_entry_at(e, j);
        }
    }
    assert(entries_view(f) =~= m);
}

proof fn lemma_entries_remove(e: Seq<(String, SettingValue)>, i: int)
    requires
        keys_unique(e),
        0 <= i < e.len(),
    ensures
        keys_unique(e.remove(i)),
        entries_view(e.remove(i)) == entries_view(e).remove(e[i].0@),
{
    let f = e.remove(i);
    let k0 = e[i].0@;
    assert forall|a: int| 0 <= a < f.len() implies #[trigger] f[a] == e[if a < i { a } else { a + 1 }] by {}
    assert forall|a: int, b: int|
        #![trigger f[a], f[b]]
        0 <= a < f.len() && 0 <= b < f.len() && a != b implies f[a].0@ != f[b].0@ by {
        let a2 = if a < i { a } else { a + 1 };
        let b2 = if b < i { b } else { b + 1 };
        assert(f[a] == e[a2]);
        assert(f[b] == e[b2]);
        assert(e[a2].0@ != e[b2].0@);
    }
    let m = entries_view(e).remove(k0);
    assert forall|k: Seq<char>| #[trigger] entries_view(f).contains_key(k) <==> m.contains_key(k) by {
        if entries_view(f).contains_key(k) {
            let j = choose|j: int| 0 <= j < f.len() && f[j].0@ == k;
            let j2 = if j < i { j } else { j + 1 };
            assert(f[j] == e[j2]);
            assert(e[j2].0@ != e[i].0@);
            lemma_entry_at(e, j2);
        }
        if m.contains_key(k) {
            let j = choose|j: int| 0 <= j < e.len() && e[j].0@ == k;
            assert(j != i);
            let j2 = if j < i { j } else { j - 1 };
            assert(f[j2] == e[j]);
        }
    }
    assert forall|k: Seq<char>| #[trigger] entries_view(f).contains_key(k) implies entries_view(f)[k] == m[k] by {
        let j = choose|j: int| 0 <= j < f.len() && f[j].0@ == k;
        let j2 = if j < i { j } else { j + 1 };
        assert(f[j] == e[j2]);
        lemma_entry_at(f, j);
        lemma_entry_at(e, j2);
    }
    assert(entries_view(f) =~= m);
}

/// The index of the entry whose key is `key`, if any.
fn find_entry(entries: &Vec<(String, SettingValue)>, key: &str) -> (r: Option<usize>)
    ensures
        match r {
            Some(i) => i < entries@.len() && entries@[i as int].0@ == key@,
            None => forall|i: int| 0 <= i < entries@.len() ==> entries@[i].0@ != key@,
        },
{
    let n = entries.len();
    let mut i: usize = 0;
    while i < n
        invariant
            n == entries@.len(),
            i <= n,
            forall|j: int| 0 <= j < i ==> entries@[j].0@ != key@,
        decreases n - i,
    {
        if str_eq(entries[i].0.as_str(), key) {
            return Some(i);
        }
        i += 1;
    }
    None
}

impl SettingsView {
    /// The value stored under `key`: only an object holds entries.
    pub open spec fn lookup(self, key: Seq<char>) -> Option<SettingView> {
        match self {
            SettingsView::Object(m) => if m.contains_key(key) {
                Some(m[key])
            } else {
                None
            },
            _ => None,
        }
    }

    /// Whether a key can be written: into `null` or into an object.
    pub open spec fn accepts_keys(self) -> bool {
        !(self is Other)
    }

    /// The document after writing `v` under `key`: `null` becomes an object
    /// first, an object gains or replaces the entry.
    pub open spec fn with_entry(self, key: Seq<char>, v: SettingView) -> SettingsView {
        match self {
            SettingsView::Null => SettingsView::Object(Map::empty().insert(key, v)),
            SettingsView::Object(m) => SettingsView::Object(m.insert(key, v)),
            SettingsView::Other(t) => SettingsView::Other(t),
        }
    }

    /// The document after removing `key`: only an object changes.
    pub open spec fn without_entry(self, key: Seq<char>) -> SettingsView {
        match self {
            SettingsView::Object(m) => SettingsView::Object(m.remove(key)),
            other => other,
        }
    }
}

/// The connection settings document.
pub struct Settings {
    doc: SettingsDoc,
}

impl Settings {
    /// Object keys are unique.
    #[verifier::type_invariant]
    spec fn well_formed(self) -> bool {
        match self.doc {
            SettingsDoc::Object(e) => keys_unique(e@),
            _ => true,
        }
    }
}

impl View for Settings {
    type V = SettingsView;

    closed spec fn view(&self) -> SettingsView {
        match self.doc {
            SettingsDoc::Null => SettingsView::Null,
            SettingsDoc::Object(e) => SettingsView::Object(entries_view(e@)),
            SettingsDoc::Other(j) => SettingsView::Other(j@),
        }
    }
}

impl Settings {
    /// The `null` document: what a missing or unreadable settings file reads as.
    pub fn null() -> (s: Settings)
        ensures
            s@ == SettingsView::Null,
    {
        Settings { doc: SettingsDoc::Null }
    }

    /// An object with no entries.
    pub fn empty_object() -> (s: Settings)
        ensures
            s@ == SettingsView::Object(Map::empty()),
    {
        let s = Settings { doc: SettingsDoc::Object(Vec::new()) };
        assert(entries_view(Seq::<(String, SettingValue)>::empty()) =~= Map::empty());
        s
    }

    /// A document that is neither `null` nor an object, given by its JSON text.
    pub fn other(json: String) -> (s: Settings)
        ensures
            s@ == SettingsView::Other(json@),
    {
        Settings { doc: SettingsDoc::Other(json) }
    }

    /// The document's shape and contents.
    pub fn doc(&self) -> (d: &SettingsDoc)
        ensures
            match d {
                SettingsDoc::Null => self@ == SettingsView::Null,
                SettingsDoc::Object(e) => keys_unique(e@) && self@ == SettingsView::Object(entries_view(e@)),
                SettingsDoc::Other(j) => self@ == SettingsView::Other(j@),
            },
    {
        proof {
            use_type_invariant(self);
        }
        &self.doc
    }

    /// Whether a key can be written into this document.
    pub fn accepts_keys(&self) -> (r: bool)
        ensures
            r == self@.accepts_keys(),
    {
        match &self.doc {
            SettingsDoc::Other(_) => false,
            _ => true,
        }
    }

    /// The value stored under `key`, if this is an object that holds it.
    pub fn get(&self, key: &str) -> (r: Option<&SettingValue>)
        ensures
            match r {
                Some(v) => self@.lookup(key@) == Some(v@),
                None => self@.lookup(key@) is None,
            },
    {
        proof {
            use_type_invariant(self);
        }
        match &self.doc {
            SettingsDoc::Object(entries) => {
                match find_entry(entries, key) {
                    Some(i) => {
                        proof {
                            lemma_entry_at(entries@, i as int);
                        }
                        Some(&entries[i].1)
                    },
                    None => {
                        proof {
                            lemma_entry_absent(entries@, key@);
                        }
                        None
                    },
                }
            },
            _ => None,
        }
    }

    /// Writes `value` under `key`; `null` becomes an object first.
    pub fn set(&mut self, key: &str, value: SettingValue)
        requires
            old(self)@.accepts_keys(),
        ensures
            final(self)@ == old(self)@.with_entry(key@, value@),
    {
        proof {
            use_type_invariant(&*self);
        }
        let mut doc = SettingsDoc::Null;
        std::mem::swap(&mut doc, &mut self.doc);
        let new_doc = match doc {
            SettingsDoc::Null => {
                let mut entries: Vec<(String, SettingValue)> = Vec::new();
                let ghost e0 = entries@;
                entries.push((key.to_owned(), value));
                proof {
                    lemma_entries_push(e0, entries@[0]);
                    assert(entries_view(e0) =~= Map::empty());
                }
                SettingsDoc::Object(entries)
            },
            SettingsDoc::Object(mut entries) => {
                let ghost e0 = entries@;
                match find_entry(&entries, key) {
                    Some(i) => {
                        entries.set(i, (key.to_owned(), value));
                        proof {
                            lemma_entries_update(e0, i as int, entries@[i as int]);
                            assert(entries@ == e0.update(i as int, entries@[i as int]));
                        }
                    },
                    None => {
                        entries.push((key.to_owned(), value));
                        proof {
                            lemma_entries_push(e0, entries@[e0.len() as int]);
                            assert(entries@ == e0.push(entries@[e0.len() as int]));
                        }
                    },
                }
                SettingsDoc::Object(entries)
            },
            SettingsDoc::Other(j) => SettingsDoc::Other(j),
        };
        self.doc = new_doc;
    }

    /// Removes `key` if this is an object that holds it; any other document is left as it is.
    pub fn remove(&mut self, key: &str)
        ensures
            final(self)@ == old(self)@.without_entry(key@),
    {
        proof {
            use_type_invariant(&*self);
        }
        let mut doc = SettingsDoc::Null;
        std::mem::swap(&mut doc, &mut self.doc);
        let new_doc = match doc {
            SettingsDoc::Object(mut entries) => {
                let ghost e0 = entries@;
                match find_entry(&entries, key) {
                    Some(i) => {
                        let _ = entries.remove(i);
                        proof {
                            lemma_entries_remove(e0, i as int);
                        }
                    },
                    None => {
                        proof {
                            lemma_entry_absent(e0, key@);
                            assert(entries_view(e0).remove(key@) =~= entries_view(e0));
                        }
                    },
                }
                SettingsDoc::Object(entries)
            },
            other => other,
        };
        self.doc = new_doc;
    }
}


/// What `serde_json::from_str::<serde_json::Value>` makes of a text, read as a
/// settings document; `None` when the text is not JSON.
pub uninterp spec fn json_document(text: Seq<char>) -> Option<SettingsView>;

/// Parses `text` with `serde_json::from_str` into a `serde_json::Value` and
/// takes it over as a settings document: booleans and strings as such, any
/// other entry and any other document as its JSON text (`Value`'s `Display`).
/// The object's keys are unique because a `serde_json::Map` holds each key once.
#[verifier::external_body]
fn parse_json_document(text: &str) -> (r: Option<Settings>)
    ensures
        match r {
            Some(s) => json_document(text@) == Some(s@),
            None => json_document(text@) is None,
        },
{
    let doc = match serde_json::from_str::<Value>(text).ok()? {
        Value::Null => SettingsDoc::Null,
        Value::Object(map) => SettingsDoc::Object(map.into_iter().map(|(k, v)| (k, match v {
            Value::Bool(b) => SettingValue::Flag(b),
            Value::String(t) => SettingValue::Text(t),
            other => SettingValue::Other(other.to_string()),
        })).collect()),
        other => SettingsDoc::Other(other.to_string()),
    };
    Some(Settings { doc })
}

/// The text that `serde_json::to_string_pretty` writes for a settings document.
pub uninterp spec fn pretty_json(d: SettingsView) -> Seq<char>;

/// Hands the document back to `serde_json::Value` (JSON texts through
/// `serde_json::from_str`, `null` where one does not parse) and writes it with
/// `serde_json::to_string_pretty`, which does not fail on a `Value`.
#[verifier::external_body]
fn settings_to_text(s: &Settings) -> (t: String)
    ensures
        t@ == pretty_json(s@),
{
    let value = match &s.doc {
        SettingsDoc::Null => Value::Null,
        SettingsDoc::Object(e) => Value::Object(e.iter().map(|(k, v)| (k.clone(), match v {
            SettingValue::Flag(b) => Value::Bool(*b),
            SettingValue::Text(t) => Value::String(t.clone()),
            SettingValue::Other(j) => serde_json::from_str(j).unwrap_or(Value::Null),
        })).collect()),
        SettingsDoc::Other(j) => serde_json::from_str(j).unwrap_or(Value::Null),
    };
    serde_json::to_string_pretty(&value).unwrap_or_default()
}

/// The settings read from a file's text: `null` when there is no text (the file
/// is missing or unreadable) or when the text is not JSON.
pub fn settings_from_text(text: Option<&str>) -> (s: Settings)
    ensures
        s@ == match text {
            Some(t) => match json_document(t@) {
                Some(d) => d,
                None => SettingsView::Null,
            },
            None => SettingsView::Null,
        },
{
    match text {
        Some(t) => match parse_json_document(t) {
            Some(s) => s,
            None => Settings::null(),
        },
        None => Settings::null(),
    }
}

impl Settings {
    /// The settings file's text for this document, pretty-printed JSON.
    pub fn to_json_text(&self) -> (t: String)
        ensures
            t@ == pretty_json(self@),
    {
        settings_to_text(self)
    }
}

/// What a boolean setting read "inverted" gives: a stored `true` means disabled.
/// A missing key, or a value that is not a boolean, gives `default_enabled`.
pub open spec fn bool_inv_setting(s: SettingsView, key: Seq<char>, default_enabled: bool) -> bool {
    match s.lookup(key) {
        Some(SettingView::Flag(b)) => !b,
        _ => default_enabled,
    }
}

/// What a text setting reads as: the stored string, or `default` when the key
/// is missing or does not hold a string.
pub open spec fn str_setting(s: SettingsView, key: Seq<char>, default: Seq<char>) -> Seq<char> {
    match s.lookup(key) {
        Some(SettingView::Text(t)) => t,
        _ => default,
    }
}

/// Reads the "disabled" flag stored under `key` and returns whether the
/// feature is enabled.
pub fn read_bool_inv(settings: &Settings, key: &str, default_enabled: bool) -> (r: bool)
    ensures
        r == bool_inv_setting(settings@, key@, default_enabled),
{
    match settings.get(key) {
        Some(SettingValue::Flag(b)) => !*b,
        _ => default_enabled,
    }
}

/// Reads the string stored under `key`, or `default`.
pub fn read_str_setting(settings: &Settings, key: &str, default: &str) -> (r: String)
    ensures
        r@ == str_setting(settings@, key@, default@),
{
    match settings.get(key) {
        Some(SettingValue::Text(t)) => t.clone(),
        _ => default.to_owned(),
    }
}

/// The key under which the proxy target URL is stored.
pub open spec fn server_url_key() -> Seq<char> {
    "server_url"@
}

/// The key under which the Umbrel password is stored.
pub open spec fn umbrel_password_key() -> Seq<char> {
    "umbrel_password"@
}

/// The key of the flag that disables the overlay toggle shortcut.
pub open spec fn toggle_disabled_key() -> Seq<char> {
    "voice_shortcut_disabled"@
}

/// The key of the overlay toggle shortcut string.
pub open spec fn toggle_key_key() -> Seq<char> {
    "voice_shortcut_toggle"@
}

/// The key of the flag that disables the recording shortcut.
pub open spec fn recording_disabled_key() -> Seq<char> {
    "voice_recording_disabled"@
}

/// The key of the recording shortcut string.
pub open spec fn recording_key_key() -> Seq<char> {
    "voice_recording_shortcut"@
}

/// The proxy target used when none is stored.
pub open spec fn default_target_url() -> Seq<char> {
    "http://localhost:19898"@
}

/// The overlay toggle shortcut used when none is stored.
pub open spec fn default_toggle_key() -> Seq<char> {
    "Alt+Space"@
}

/// The recording shortcut used when none is stored.
pub open spec fn default_recording_key() -> Seq<char> {
    "Alt+Shift+Space"@
}

/// The proxy target that the settings give.
pub open spec fn target_url_of(s: SettingsView) -> Seq<char> {
    str_setting(s, server_url_key(), default_target_url())
}

/// The settings after storing `url` as the proxy target.
pub open spec fn with_target_url(s: SettingsView, url: Seq<char>) -> SettingsView {
    s.with_entry(server_url_key(), SettingView::Text(url))
}

/// The Umbrel password that the settings give (empty when none is stored).
pub open spec fn umbrel_password_of(s: SettingsView) -> Seq<char> {
    str_setting(s, umbrel_password_key(), Seq::empty())
}

/// The settings after storing `password`: an empty password removes the entry.
pub open spec fn with_umbrel_password(s: SettingsView, password: Seq<char>) -> SettingsView {
    if password.len() == 0 {
        s.without_entry(umbrel_password_key())
    } else {
        s.with_entry(umbrel_password_key(), SettingView::Text(password))
    }
}

/// Whether the overlay toggle shortcut is enabled.
pub open spec fn toggle_enabled_of(s: SettingsView) -> bool {
    bool_inv_setting(s, toggle_disabled_key(), true)
}

/// The overlay toggle shortcut string.
pub open spec fn toggle_key_of(s: SettingsView) -> Seq<char> {
    str_setting(s, toggle_key_key(), default_toggle_key())
}

/// The settings after storing the overlay toggle shortcut configuration.
pub open spec fn with_toggle_shortcut(s: SettingsView, enabled: bool, key: Seq<char>) -> SettingsView {
    s.with_entry(toggle_disabled_key(), SettingView::Flag(!enabled)).with_entry(
        toggle_key_key(),
        SettingView::Text(key),
    )
}

/// Whether the recording shortcut is enabled.
pub open spec fn recording_enabled_of(s: SettingsView) -> bool {
    bool_inv_setting(s, recording_disabled_key(), true)
}

/// The recording shortcut string.
pub open spec fn recording_key_of(s: SettingsView) -> Seq<char> {
    str_setting(s, recording_key_key(), default_recording_key())
}

/// The settings after storing the recording shortcut configuration.
pub open spec fn with_recording_shortcut(s: SettingsView, enabled: bool, key: Seq<char>) -> SettingsView {
    s.with_entry(recording_disabled_key(), SettingView::Flag(!enabled)).with_entry(
        recording_key_key(),
        SettingView::Text(key),
    )
}

impl Settings {
    /// The proxy's target server URL (what the user wants to reach).
    pub fn target_url(&self) -> (r: String)
        ensures
            r@ == target_url_of(self@),
    {
        read_str_setting(self, "server_url", "http://localhost:19898")
    }

    /// Stores the proxy's target server URL.
    pub fn set_target_url(&mut self, url: &str)
        requires
            old(self)@.accepts_keys(),
        ensures
            final(self)@ == with_target_url(old(self)@, url@),
    {
        self.set("server_url", SettingValue::Text(url.to_owned()));
    }

    /// The stored Umbrel password (empty if none).
    pub fn umbrel_password(&self) -> (r: String)
        ensures
            r@ == umbrel_password_of(self@),
    {
        proof {
            reveal_strlit("");
        }
        read_str_setting(self, "umbrel_password", "")
    }

    /// Stores the Umbrel password; an empty password removes it.
    pub fn set_umbrel_password(&mut self, password: &str)
        requires
            password@.len() == 0 || old(self)@.accepts_keys(),
        ensures
            final(self)@ == with_umbrel_password(old(self)@, password@),
    {
        if password.is_empty() {
            self.remove("umbrel_password");
        } else {
            self.set("umbrel_password", SettingValue::Text(password.to_owned()));
        }
    }

    /// Whether the overlay toggle shortcut is enabled.
    pub fn toggle_shortcut_state(&self) -> (r: bool)
        ensures
            r == toggle_enabled_of(self@),
    {
        read_bool_inv(self, "voice_shortcut_disabled", true)
    }

    /// The overlay toggle shortcut string.
    pub fn toggle_shortcut_key(&self) -> (r: String)
        ensures
            r@ == toggle_key_of(self@),
    {
        read_str_setting(self, "voice_shortcut_toggle", "Alt+Space")
    }

    /// Stores the overlay toggle shortcut configuration.
    pub fn set_toggle_shortcut(&mut self, enabled: bool, key: &str)
        requires
            old(self)@.accepts_keys(),
        ensures
            final(self)@ == with_toggle_shortcut(old(self)@, enabled, key@),
    {
        self.set("voice_shortcut_disabled", SettingValue::Flag(!enabled));
        self.set("voice_shortcut_toggle", SettingValue::Text(key.to_owned()));
    }

    /// Whether the recording shortcut is enabled.
    pub fn recording_shortcut_state(&self) -> (r: bool)
        ensures
            r == recording_enabled_of(self@),
    {
        read_bool_inv(self, "voice_recording_disabled", true)
    }

    /// The recording shortcut string.
    pub fn recording_shortcut_key(&self) -> (r: String)
        ensures
            r@ == recording_key_of(self@),
    {
        read_str_setting(self, "voice_recording_shortcut", "Alt+Shift+Space")
    }

    /// Stores the recording shortcut configuration.
    pub fn set_recording_shortcut(&mut self, enabled: bool, key: &str)
        requires
            old(self)@.accepts_keys(),
        ensures
            final(self)@ == with_recording_shortcut(old(self)@, enabled, key@),
    {
        self.set("voice_recording_disabled", SettingValue::Flag(!enabled));
        self.set("voice_recording_shortcut", SettingValue::Text(key.to_owned()));
    }
}


/// The six settings keys are pairwise different.
pub proof fn lemma_setting_keys_distinct()
    ensures
        server_url_key() != umbrel_password_key(),
        server_url_key() != toggle_disabled_key(),
        server_url_key() != toggle_key_key(),
        server_url_key() != recording_disabled_key(),
        server_url_key() != recording_key_key(),
        umbrel_password_key() != toggle_disabled_key(),
        umbrel_password_key() != toggle_key_key(),
        umbrel_password_key() != recording_disabled_key(),
        umbrel_password_key() != recording_key_key(),
        toggle_disabled_key() != toggle_key_key(),
        toggle_disabled_key() != recording_disabled_key(),
        toggle_disabled_key() != recording_key_key(),
        toggle_key_key() != recording_disabled_key(),
        toggle_key_key() != recording_key_key(),
        recording_disabled_key() != recording_key_key(),
{
    reveal_strlit("server_url");
    reveal_strlit("umbrel_password");
    reveal_strlit("voice_shortcut_disabled");
    reveal_strlit("voice_shortcut_toggle");
    reveal_strlit("voice_recording_disabled");
    reveal_strlit("voice_recording_shortcut");
    assert("server_url"@.len() == 10);
    assert("umbrel_password"@.len() == 15);
    assert("voice_shortcut_disabled"@.len() == 23);
    assert("voice_shortcut_toggle"@.len() == 21);
    assert("voice_recording_disabled"@.len() == 24);
    assert("voice_recording_shortcut"@.len() == 24);
    assert("voice_recording_disabled"@[16] == 'd');
    assert("voice_recording_shortcut"@[16] == 's');
}

/// Reading a key after writing it gives the value written; writing leaves
/// every other key as it was.
pub proof fn lemma_lookup_with_entry(s: SettingsView, key: Seq<char>, v: SettingView, other: Seq<char>)
    requires
        s.accepts_keys(),
    ensures
        s.with_entry(key, v).lookup(key) == Some(v),
        other != key ==> s.with_entry(key, v).lookup(other) == s.lookup(other),
{
}

/// Reading a key after removing it gives nothing; removing leaves every other
/// key as it was.
pub proof fn lemma_lookup_without_entry(s: SettingsView, key: Seq<char>, other: Seq<char>)
    ensures
        s.without_entry(key).lookup(key) is None,
        other != key ==> s.without_entry(key).lookup(other) == s.lookup(other),
{
}

/// The settings are read from the file's own key names: `server_url`,
/// `umbrel_password`, `voice_shortcut_disabled`, `voice_shortcut_toggle`,
/// `voice_recording_disabled` and `voice_recording_shortcut`. A string stored
/// under a text key is what is read; a boolean stored under a "disabled" key is
/// read inverted; a missing key gives the default.
pub proof fn law_settings_read_from_file_keys(s: SettingsView, t: Seq<char>, b: bool)
    ensures
        s.lookup("server_url"@) == Some(SettingView::Text(t)) ==> target_url_of(s) == t,
        s.lookup("server_url"@) is None ==> target_url_of(s) == "http://localhost:19898"@,
        s.lookup("umbrel_password"@) == Some(SettingView::Text(t)) ==> umbrel_password_of(s) == t,
        s.lookup("umbrel_password"@) is None ==> umbrel_password_of(s) == Seq::<char>::empty(),
        s.lookup("voice_shortcut_disabled"@) == Some(SettingView::Flag(b)) ==> toggle_enabled_of(s) == !b,
        s.lookup("voice_shortcut_disabled"@) is None ==> toggle_enabled_of(s),
        s.lookup("voice_shortcut_toggle"@) == Some(SettingView::Text(t)) ==> toggle_key_of(s) == t,
        s.lookup("voice_shortcut_toggle"@) is None ==> toggle_key_of(s) == "Alt+Space"@,
        s.lookup("voice_recording_disabled"@) == Some(SettingView::Flag(b)) ==> recording_enabled_of(s) == !b,
        s.lookup("voice_recording_disabled"@) is None ==> recording_enabled_of(s),
        s.lookup("voice_recording_shortcut"@) == Some(SettingView::Text(t)) ==> recording_key_of(s) == t,
        s.lookup("voice_recording_shortcut"@) is None ==> recording_key_of(s) == "Alt+Shift+Space"@,
{
}

/// The settings are written under the file's own key names: a stored target
/// or non-empty password as a string under its key, an empty password removed,
/// and each shortcut as its "disabled" boolean and its key string.
pub proof fn law_settings_written_to_file_keys(s: SettingsView, t: Seq<char>, enabled: bool)
    requires
        s.accepts_keys(),
    ensures
        with_target_url(s, t).lookup("server_url"@) == Some(SettingView::Text(t)),
        t.len() > 0 ==> with_umbrel_password(s, t).lookup("umbrel_password"@) == Some(SettingView::Text(t)),
        t.len() == 0 ==> with_umbrel_password(s, t).lookup("umbrel_password"@) is None,
        with_toggle_shortcut(s, enabled, t).lookup("voice_shortcut_disabled"@) == Some(SettingView::Flag(!enabled)),
        with_toggle_shortcut(s, enabled, t).lookup("voice_shortcut_toggle"@) == Some(SettingView::Text(t)),
        with_recording_shortcut(s, enabled, t).lookup("voice_recording_disabled"@) == Some(
            SettingView::Flag(!enabled),
        ),
        with_recording_shortcut(s, enabled, t).lookup("voice_recording_shortcut"@) == Some(SettingView::Text(t)),
{
    lemma_setting_keys_distinct();
}

/// A stored proxy target reads back as stored.
pub proof fn law_target_url_read_back(s: SettingsView, url: Seq<char>)
    requires
        s.accepts_keys(),
    ensures
        target_url_of(with_target_url(s, url)) == url,
{
}

/// A stored Umbrel password reads back as stored, the empty one included.
pub proof fn law_umbrel_password_read_back(s: SettingsView, password: Seq<char>)
    requires
        password.len() == 0 || s.accepts_keys(),
    ensures
        umbrel_password_of(with_umbrel_password(s, password)) == password,
{
    if password.len() == 0 {
        assert(password =~= Seq::<char>::empty());
    }
}

/// A stored overlay toggle configuration reads back as stored.
pub proof fn law_toggle_shortcut_read_back(s: SettingsView, enabled: bool, key: Seq<char>)
    requires
        s.accepts_keys(),
    ensures
        toggle_enabled_of(with_toggle_shortcut(s, enabled, key)) == enabled,
        toggle_key_of(with_toggle_shortcut(s, enabled, key)) == key,
{
    lemma_setting_keys_distinct();
}

/// A stored recording shortcut configuration reads back as stored.
pub proof fn law_recording_shortcut_read_back(s: SettingsView, enabled: bool, key: Seq<char>)
    requires
        s.accepts_keys(),
    ensures
        recording_enabled_of(with_recording_shortcut(s, enabled, key)) == enabled,
        recording_key_of(with_recording_shortcut(s, enabled, key)) == key,
{
    lemma_setting_keys_distinct();
}

/// Storing the proxy target changes no other setting.
pub proof fn law_target_url_write_isolated(s: SettingsView, url: Seq<char>)
    requires
        s.accepts_keys(),
    ensures
        umbrel_password_of(with_target_url(s, url)) == umbrel_password_of(s),
        toggle_enabled_of(with_target_url(s, url)) == toggle_enabled_of(s),
        toggle_key_of(with_target_url(s, url)) == toggle_key_of(s),
        recording_enabled_of(with_target_url(s, url)) == recording_enabled_of(s),
        recording_key_of(with_target_url(s, url)) == recording_key_of(s),
{
    lemma_setting_keys_distinct();
}

/// Storing the Umbrel password changes no other setting.
pub proof fn law_umbrel_password_write_isolated(s: SettingsView, password: Seq<char>)
    requires
        password.len() == 0 || s.accepts_keys(),
    ensures
        target_url_of(with_umbrel_password(s, password)) == target_url_of(s),
        toggle_enabled_of(with_umbrel_password(s, password)) == toggle_enabled_of(s),
        toggle_key_of(with_umbrel_password(s, password)) == toggle_key_of(s),
        recording_enabled_of(with_umbrel_password(s, password)) == recording_enabled_of(s),
        recording_key_of(with_umbrel_password(s, password)) == recording_key_of(s),
{
    lemma_setting_keys_distinct();
}

/// Storing the overlay toggle configuration changes no other setting.
pub proof fn law_toggle_shortcut_write_isolated(s: SettingsView, enabled: bool, key: Seq<char>)
    requires
        s.accepts_keys(),
    ensures
        target_url_of(with_toggle_shortcut(s, enabled, key)) == target_url_of(s),
        umbrel_password_of(with_toggle_shortcut(s, enabled, key)) == umbrel_password_of(s),
        recording_enabled_of(with_toggle_shortcut(s, enabled, key)) == recording_enabled_of(s),
        recording_key_of(with_toggle_shortcut(s, enabled, key)) == recording_key_of(s),
{
    lemma_setting_keys_distinct();
}

/// Storing the recording shortcut configuration changes no other setting.
pub proof fn law_recording_shortcut_write_isolated(s: SettingsView, enabled: bool, key: Seq<char>)
    requires
        s.accepts_keys(),
    ensures
        target_url_of(with_recording_shortcut(s, enabled, key)) == target_url_of(s),
        umbrel_password_of(with_recording_shortcut(s, enabled, key)) == umbrel_password_of(s),
        toggle_enabled_of(with_recording_shortcut(s, enabled, key)) == toggle_enabled_of(s),
        toggle_key_of(with_recording_shortcut(s, enabled, key)) == toggle_key_of(s),
{
    lemma_setting_keys_distinct();
}

/// A missing or unreadable settings file gives the defaults: the local server
/// as target, no password, both shortcuts enabled with their default keys.
pub proof fn law_null_settings_defaults()
    ensures
        target_url_of(SettingsView::Null) == default_target_url(),
        umbrel_password_of(SettingsView::Null) == Seq::<char>::empty(),
        toggle_enabled_of(SettingsView::Null),
        toggle_key_of(SettingsView::Null) == default_toggle_key(),
        recording_enabled_of(SettingsView::Null),
        recording_key_of(SettingsView::Null) == default_recording_key(),
{
}

} // verus!
