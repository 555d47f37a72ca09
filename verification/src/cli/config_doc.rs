//! A config file as a `toml_edit` document: what it holds, and the edits the
//! config commands make to it.

use vstd::prelude::*;

use crate::cli::config_cmd::{
    after_append, after_remove, keeps, not_an_array, set_path, string_views, unrecognized, unset_output, ArrayArgs,
    ArrayEdit, ArrayState, SetArgs, UnsetArgs,
};
use crate::cli::error::CliError;

verus! {

#[verifier::external_type_specification]
#[verifier::external_body]
pub struct ExDocumentMut(toml_edit::DocumentMut);

/// A value of a document, as far as the config commands look at it.
pub enum TomlVal {
    /// A string
    Str(Seq<char>),
    /// An array: each element as a string, or `None` for one that is not
    Array(Seq<Option<Seq<char>>>),
    /// A table, standard or inline
    Table,
    /// Anything else
    Other,
}

/// What a document holds: each item by its path of keys, tables included,
/// as `get` finds it (an empty placeholder entry is no item).
pub uninterp spec fn doc_entries(d: toml_edit::DocumentMut) -> Map<Seq<Seq<char>>, TomlVal>;

/// The text a document is written out as.
pub uninterp spec fn doc_text(d: toml_edit::DocumentMut) -> Seq<char>;

/// The text an item of a document is written out as, by its top-level key.
pub uninterp spec fn item_text(d: toml_edit::DocumentMut, key: Seq<char>) -> Seq<char>;

/// What parsing a text as a TOML document gives: its entries, or the parse
/// error's message.
pub uninterp spec fn toml_parse(text: Seq<char>) -> Result<Map<Seq<Seq<char>>, TomlVal>, Seq<char>>;

/// Whether the entries hold a string at the path.
pub open spec fn holds_str(es: Map<Seq<Seq<char>>, TomlVal>, path: Seq<Seq<char>>) -> bool {
    es.contains_key(path) && es[path] is Str
}

/// Whether the entries hold a table at the path.
pub open spec fn holds_table(es: Map<Seq<Seq<char>>, TomlVal>, path: Seq<Seq<char>>) -> bool {
    es.contains_key(path) && es[path] is Table
}

/// The string at a path, if one is there.
pub open spec fn str_at(es: Map<Seq<Seq<char>>, TomlVal>, path: Seq<Seq<char>>) -> Option<Seq<char>> {
    if holds_str(es, path) { Some(str_of(es[path])) } else { None }
}

/// The text of an optional string.
pub open spec fn opt_text(s: Option<String>) -> Option<Seq<char>> {
    match s {
        Some(t) => Some(t@),
        None => None,
    }
}

/// The text of a string value.
pub open spec fn str_of(v: TomlVal) -> Seq<char> {
    match v {
        TomlVal::Str(s) => s,
        _ => Seq::empty(),
    }
}

/// The elements of an array value.
pub open spec fn array_of(v: TomlVal) -> Seq<Option<Seq<char>>> {
    match v {
        TomlVal::Array(a) => a,
        _ => Seq::empty(),
    }
}

/// The path of a key in a table.
pub open spec fn path2(a: Seq<char>, b: Seq<char>) -> Seq<Seq<char>> {
    seq![a, b]
}

/// The path of a key in a table in a table.
pub open spec fn path3(a: Seq<char>, b: Seq<char>, c: Seq<char>) -> Seq<Seq<char>> {
    seq![a, b, c]
}

/// The entries without the item at `path` and the items under it.
pub open spec fn without(es: Map<Seq<Seq<char>>, TomlVal>, path: Seq<Seq<char>>) -> Map<Seq<Seq<char>>, TomlVal> {
    es.restrict(es.dom().filter(|p: Seq<Seq<char>>| !path.is_prefix_of(p)))
}

/// Calls `text.parse::<toml_edit::DocumentMut>()`; an error becomes its
/// `Display` text. The outcome is named: it depends on the text alone.
#[verifier::external_body]
pub(crate) fn parse_document(text: &str) -> (res: Result<toml_edit::DocumentMut, String>)
    ensures
        res matches Ok(d) ==> (toml_parse(text@) matches Ok(es) && es == doc_entries(d)),
        res matches Err(m) ==> (toml_parse(text@) matches Err(e) && e == m@),
{
    match text.parse::<toml_edit::DocumentMut>() {
        Ok(d) => Ok(d),
        Err(e) => Err(e.to_string()),
    }
}

/// Calls `DocumentMut::to_string`.
#[verifier::external_body]
pub(crate) fn document_text(d: &toml_edit::DocumentMut) -> (res: String)
    ensures
        res@ == doc_text(*d),
{
    d.to_string()
}

/// Calls `d[key] = toml_edit::value(value)`: the item under the top-level
/// key (whatever it was, with anything under it) becomes the string.
#[verifier::external_body]
pub(crate) fn set_top(d: &mut toml_edit::DocumentMut, key: &str, value: &str)
    ensures
        doc_entries(*final(d)) == without(doc_entries(*old(d)), seq![key@]).insert(seq![key@], TomlVal::Str(value@)),
{
    d[key] = toml_edit::value(value);
}

/// Calls `d[table][key] = toml_edit::value(value)`. A missing table is
/// created (inline); toml_edit panics when the item under `table` is
/// neither missing nor a table, so that is required.
#[verifier::external_body]
pub(crate) fn set_nested(d: &mut toml_edit::DocumentMut, table: &str, key: &str, value: &str)
    requires
        doc_entries(*old(d)).contains_key(seq![table@]) ==> doc_entries(*old(d))[seq![table@]] is Table,
    ensures
        doc_entries(*final(d)) == without(doc_entries(*old(d)), path2(table@, key@))
            .insert(seq![table@], TomlVal::Table)
            .insert(path2(table@, key@), TomlVal::Str(value@)),
{
    d[table][key] = toml_edit::value(value);
}

/// Calls `get(key)` on the document's root table and tells whether an item
/// is there (`get` passes over an empty placeholder entry).
#[verifier::external_body]
pub(crate) fn has_top(d: &toml_edit::DocumentMut, key: &str) -> (res: bool)
    ensures
        res == doc_entries(*d).contains_key(seq![key@]),
{
    d.get(key).is_some()
}

/// Calls `remove_entry(key)` on the document's root table and writes the
/// removed item out with `to_string`. `remove_entry` also takes out an
/// empty placeholder entry, which `get` passes over, so only the direction
/// "an item is there, so it comes back" is stated.
#[verifier::external_body]
pub(crate) fn remove_top(d: &mut toml_edit::DocumentMut, key: &str) -> (res: Option<String>)
    ensures
        doc_entries(*old(d)).contains_key(seq![key@]) ==> res is Some,
        res matches Some(t) ==> t@ == item_text(*old(d), key@),
        doc_entries(*final(d)) == without(doc_entries(*old(d)), seq![key@]),
{
    d.remove_entry(key).map(|(_, v)| v.to_string())
}

/// Reads the item under a top-level key for an array edit: missing, an
/// array (each element as a string when it is one), or something else.
#[verifier::external_body]
pub(crate) fn array_state(d: &toml_edit::DocumentMut, key: &str) -> (res: ArrayState)
    ensures
        !doc_entries(*d).contains_key(seq![key@]) ==> res is Missing,
        doc_entries(*d).contains_key(seq![key@]) ==> match doc_entries(*d)[seq![key@]] {
            TomlVal::Array(a) => res matches ArrayState::Array(v) && v@.map_values(|e: Option<String>| match e {
                Some(s) => Some(s@),
                None => None,
            }) == a,
            _ => res is NotArray,
        },
{
    match d.get(key) {
        None => ArrayState::Missing,
        Some(item) => match item.as_array() {
            Some(a) => ArrayState::Array(a.iter().map(|v| v.as_str().map(|s| s.to_string())).collect()),
            None => ArrayState::NotArray,
        },
    }
}

/// Calls `d[key] = toml_edit::value(toml_edit::Array::new())`.
#[verifier::external_body]
pub(crate) fn create_array(d: &mut toml_edit::DocumentMut, key: &str)
    ensures
        doc_entries(*final(d)) == without(doc_entries(*old(d)), seq![key@]).insert(seq![key@], TomlVal::Array(Seq::empty())),
{
    d[key] = toml_edit::value(toml_edit::Array::new());
}

/// Calls `as_array_mut().push(value)` on the array under a top-level key.
#[verifier::external_body]
pub(crate) fn push_string(d: &mut toml_edit::DocumentMut, key: &str, value: &str)
    requires
        doc_entries(*old(d)).contains_key(seq![key@]),
        doc_entries(*old(d))[seq![key@]] is Array,
    ensures
        doc_entries(*final(d)) == doc_entries(*old(d)).insert(seq![key@],
            TomlVal::Array(array_of(doc_entries(*old(d))[seq![key@]]).push(Some(value@)))),
{
    if let Some(a) = d.get_mut(key).and_then(|item| item.as_array_mut()) {
        a.push(value);
    }
}

/// Calls `as_array_mut().retain(..)` on the array under a top-level key,
/// keeping the elements that [keeps] accepts.
#[verifier::external_body]
pub(crate) fn retain_kept(d: &mut toml_edit::DocumentMut, key: &str, values: &Vec<String>)
    requires
        doc_entries(*old(d)).contains_key(seq![key@]),
        doc_entries(*old(d))[seq![key@]] is Array,
    ensures
        doc_entries(*final(d)) == doc_entries(*old(d)).insert(seq![key@],
            TomlVal::Array(after_remove(array_of(doc_entries(*old(d))[seq![key@]]), string_views(values@)))),
{
    if let Some(a) = d.get_mut(key).and_then(|item| item.as_array_mut()) {
        a.retain(|v| keeps(v.as_str(), values));
    }
}

/// Calls `d.get(table).and_then(|t| t.get(key))` and tells whether there
/// is such an item.
#[verifier::external_body]
pub(crate) fn has_nested(d: &toml_edit::DocumentMut, table: &str, key: &str) -> (res: bool)
    ensures
        res == doc_entries(*d).contains_key(path2(table@, key@)),
{
    d.get(table).and_then(|t| t.get(key)).is_some()
}

/// Calls `d.get(a).and_then(|t| t.get(b)).and_then(|t| t.get(c))` and reads
/// the item as a string.
#[verifier::external_body]
pub(crate) fn nested_str(d: &toml_edit::DocumentMut, a: &str, b: &str, c: &str) -> (res: Option<String>)
    ensures
        opt_text(res) == str_at(doc_entries(*d), path3(a@, b@, c@)),
{
    d.get(a).and_then(|t| t.get(b)).and_then(|t| t.get(c)).and_then(|i| i.as_str()).map(|s| s.to_string())
}

/// Calls `d.get(key)` and tells whether there is nothing there or a table
/// (standard or inline: `is_table_like`).
#[verifier::external_body]
pub(crate) fn table_or_missing(d: &toml_edit::DocumentMut, key: &str) -> (res: bool)
    ensures
        res == (!doc_entries(*d).contains_key(seq![key@]) || doc_entries(*d)[seq![key@]] is Table),
{
    d.get(key).map_or(true, |i| i.is_table_like())
}

/// Calls `remove(key)` on the table (standard or inline) under a top-level
/// key; nothing happens when there is no table there.
#[verifier::external_body]
pub(crate) fn remove_nested(d: &mut toml_edit::DocumentMut, table: &str, key: &str)
    ensures
        holds_table(doc_entries(*old(d)), seq![table@]) ==> doc_entries(*final(d)) == without(doc_entries(*old(d)), path2(table@, key@)),
        !holds_table(doc_entries(*old(d)), seq![table@]) ==> doc_entries(*final(d)) == doc_entries(*old(d)),
{
    if let Some(t) = d.get_mut(table).and_then(|i| i.as_table_like_mut()) {
        t.remove(key);
    }
}

/// The entries after appending `values` to the array under `key`: pushed to
/// it, or to a new empty array when the key is missing.
pub open spec fn appended(es: Map<Seq<Seq<char>>, TomlVal>, key: Seq<char>, values: Seq<Seq<char>>) -> Map<Seq<Seq<char>>, TomlVal> {
    if es.contains_key(seq![key]) {
        es.insert(seq![key], TomlVal::Array(after_append(es[seq![key]]->Array_0, values)))
    } else {
        without(es, seq![key]).insert(seq![key], TomlVal::Array(after_append(Seq::empty(), values)))
    }
}

/// Whether a text is what a document with these entries is written out as.
pub open spec fn written_as(out: Seq<char>, es: Map<Seq<Seq<char>>, TomlVal>) -> bool {
    exists|d: toml_edit::DocumentMut| out == doc_text(d) && #[trigger] doc_entries(d) == es
}

/// Parses the text of a config file; a parse error is a config error.
pub(crate) fn parse_config(text: &str) -> (res: Result<toml_edit::DocumentMut, CliError>)
    ensures
        res matches Ok(d) ==> (toml_parse(text@) matches Ok(es) && es == doc_entries(d)),
        res matches Err(e) ==> (toml_parse(text@) matches Err(m) && e matches CliError::Config(c) && c@ == m),
        res is Ok <==> toml_parse(text@) is Ok,
{
    match parse_document(text) {
        Ok(d) => Ok(d),
        Err(m) => Err(CliError::Config(m)),
    }
}

impl ArrayArgs {
    /// `config append` on the text of a config file: the new text, or
    /// `None` when there is nothing to append (the file is left alone). The
    /// values are pushed to the array under the key, which is created when
    /// missing; a text that is not TOML, or a key that holds something other
    /// than an array, is an error.
    pub fn append_config(&self, text: &str) -> (res: Result<Option<String>, CliError>)
        ensures
            self.values@.len() == 0 ==> (res matches Ok(None)),
            self.values@.len() > 0 ==> match toml_parse(text@) {
                Err(m) => res matches Err(CliError::Config(c)) && c@ == m,
                Ok(es) => if es.contains_key(seq![self.key@]) && !(es[seq![self.key@]] is Array) {
                    res matches Err(CliError::Generic(m)) && m@ == not_an_array(self.key@)
                } else {
                    res matches Ok(Some(out)) && written_as(out@, appended(es, self.key@, string_views(self.values@)))
                },
            },
    {
        if self.values.len() == 0 {
            return Ok(None);
        }
        let mut doc = parse_config(text)?;
        let ghost es = doc_entries(doc);
        let state = array_state(&doc, self.key.as_str());
        let edit = self.append(&state)?;
        let values = match edit {
            ArrayEdit::Push { create, values } => {
                if create {
                    create_array(&mut doc, self.key.as_str());
                }
                values
            },
            _ => {
                return Ok(None);
            },
        };
        let ghost start = doc_entries(doc)[seq![self.key@]]->Array_0;
        let ghost base = doc_entries(doc);
        let mut i: usize = 0;
        while i < values.len()
            invariant
                i <= values@.len(),
                string_views(values@) == string_views(self.values@),
                base.contains_key(seq![self.key@]),
                base[seq![self.key@]] is Array,
                start == base[seq![self.key@]]->Array_0,
                doc_entries(doc) == base.insert(seq![self.key@],
                    TomlVal::Array(after_append(start, string_views(values@).subrange(0, i as int)))),
            decreases values@.len() - i,
        {
            push_string(&mut doc, self.key.as_str(), values[i].as_str());
            proof {
                let vs = string_views(values@);
                assert(after_append(start, vs.subrange(0, i + 1))
                    =~= after_append(start, vs.subrange(0, i as int)).push(Some(values@[i as int]@)));
                assert(base.insert(seq![self.key@], TomlVal::Array(after_append(start, vs.subrange(0, i as int))))
                    .insert(seq![self.key@], TomlVal::Array(after_append(start, vs.subrange(0, i + 1))))
                    =~= base.insert(seq![self.key@], TomlVal::Array(after_append(start, vs.subrange(0, i + 1)))));
            }
            i = i + 1;
        }
        proof {
            let vs = string_views(self.values@);
            assert(string_views(values@).subrange(0, values@.len() as int) =~= vs);
            if es.contains_key(seq![self.key@]) {
                assert(base == es);
                assert(base.insert(seq![self.key@], TomlVal::Array(after_append(start, vs)))
                    =~= appended(es, self.key@, vs));
            } else {
                assert(start =~= Seq::<Option<Seq<char>>>::empty());
                assert(base.insert(seq![self.key@], TomlVal::Array(after_append(start, vs)))
                    =~= appended(es, self.key@, vs));
            }
        }
        let out = document_text(&doc);
        assert(doc_entries(doc) == appended(es, self.key@, string_views(self.values@)));
        Ok(Some(out))
    }

    /// `config remove` on the text of a config file: the new text, or `None`
    /// when there is nothing to remove or no such key (the file is left
    /// alone). The array under the key keeps the elements that are not
    /// among the values; a text that is not TOML, or a key that holds
    /// something other than an array, is an error.
    pub fn remove_config(&self, text: &str) -> (res: Result<Option<String>, CliError>)
        ensures
            self.values@.len() == 0 ==> (res matches Ok(None)),
            self.values@.len() > 0 ==> match toml_parse(text@) {
                Err(m) => res matches Err(CliError::Config(c)) && c@ == m,
                Ok(es) => if !es.contains_key(seq![self.key@]) {
                    res matches Ok(None)
                } else if !(es[seq![self.key@]] is Array) {
                    res matches Err(CliError::Generic(m)) && m@ == not_an_array(self.key@)
                } else {
                    res matches Ok(Some(out)) && written_as(out@, es.insert(seq![self.key@],
                        TomlVal::Array(after_remove(es[seq![self.key@]]->Array_0, string_views(self.values@)))))
                },
            },
    {
        if self.values.len() == 0 {
            return Ok(None);
        }
        let mut doc = parse_config(text)?;
        let ghost es = doc_entries(doc);
        let state = array_state(&doc, self.key.as_str());
        match self.remove(&state)? {
            ArrayEdit::Retain => {
                retain_kept(&mut doc, self.key.as_str(), &self.values);
                let out = document_text(&doc);
                Ok(Some(out))
            },
            _ => Ok(None),
        }
    }
}

/// The entries after `config set` writes a string at a key's path: the
/// item there (with anything under it) is replaced, and a missing parent
/// table is created.
pub open spec fn set_entries(es: Map<Seq<Seq<char>>, TomlVal>, path: Seq<Seq<char>>, value: Seq<char>) -> Map<Seq<Seq<char>>, TomlVal> {
    if path.len() == 1 {
        without(es, path).insert(path, TomlVal::Str(value))
    } else {
        without(es, path).insert(seq![path[0]], TomlVal::Table).insert(path, TomlVal::Str(value))
    }
}

proof fn lemma_set_path_len(key: Seq<char>)
    ensures
        set_path(key) matches Some(p) ==> (p.len() == 1 || p.len() == 2),
{
}

impl SetArgs {
    /// `config set` on the text of a config file: the new text. A text that
    /// is not TOML, or a key that is not one of the settable ones, is an
    /// error. (toml_edit panics when the table of a nested key holds a plain
    /// value, so such a text is excluded.)
    pub fn set_config(&self, text: &str) -> (res: Result<String, CliError>)
        requires
            toml_parse(text@) matches Ok(es) ==> (set_path(self.key@) matches Some(p) ==> (
                p.len() == 2 && es.contains_key(seq![p[0]]) ==> es[seq![p[0]]] is Table)),
        ensures
            match toml_parse(text@) {
                Err(m) => res matches Err(CliError::Config(c)) && c@ == m,
                Ok(es) => match set_path(self.key@) {
                    None => res matches Err(CliError::Generic(m)) && m@ == unrecognized(self.key@),
                    Some(p) => res matches Ok(out) && written_as(out@, set_entries(es, p, self.value@)),
                },
            },
    {
        let mut doc = parse_config(text)?;
        let ghost es = doc_entries(doc);
        let path = self.set()?;
        proof {
            reveal_strlit("default_remote");
            reveal_strlit("format.branch_sep");
            reveal_strlit("format.branch");
            reveal_strlit("format.log");
            reveal_strlit("format.graph");
        }
        proof {
            lemma_set_path_len(self.key@);
        }
        assert(string_views(path@).len() == path@.len());
        assert(path@.len() == 1 || path@.len() == 2);
        if path.len() == 1 {
            set_top(&mut doc, path[0].as_str(), self.value.as_str());
            assert(seq![path@[0]@] =~= string_views(path@));
        } else {
            set_nested(&mut doc, path[0].as_str(), path[1].as_str(), self.value.as_str());
            assert(seq![path@[0]@, path@[1]@] =~= string_views(path@));
        }
        Ok(document_text(&doc))
    }
}

impl SetArgs {
    /// `config set` on the text of a config file, when toml_edit can make
    /// the edit: `None` when the key is nested and its table's name holds a
    /// plain value (which toml_edit refuses with a panic); else what
    /// [SetArgs::set_config] gives.
    pub fn set_config_checked(&self, text: &str) -> (res: Option<Result<String, CliError>>)
        ensures
            match toml_parse(text@) {
                Err(m) => res matches Some(Err(CliError::Config(c))) && c@ == m,
                Ok(es) => match set_path(self.key@) {
                    None => res matches Some(Err(CliError::Generic(m))) && m@ == unrecognized(self.key@),
                    Some(p) => if p.len() == 2 && es.contains_key(seq![p[0]]) && !(es[seq![p[0]]] is Table) {
                        res is None
                    } else {
                        res matches Some(Ok(out)) && written_as(out@, set_entries(es, p, self.value@))
                    },
                },
            },
    {
        let doc = match parse_config(text) {
            Ok(d) => d,
            Err(e) => return Some(Err(e)),
        };
        let path = match self.set() {
            Ok(p) => p,
            Err(e) => return Some(Err(e)),
        };
        proof {
            lemma_set_path_len(self.key@);
        }
        assert(string_views(path@).len() == path@.len());
        if path.len() == 2 && !table_or_missing(&doc, path[0].as_str()) {
            return None;
        }
        Some(self.set_config(text))
    }
}

/// The entries after `config unset` removes the top-level keys in turn.
pub open spec fn unset_all(es: Map<Seq<Seq<char>>, TomlVal>, keys: Seq<Seq<char>>) -> Map<Seq<Seq<char>>, TomlVal>
    decreases keys.len(),
{
    if keys.len() == 0 {
        es
    } else {
        without(unset_all(es, keys.drop_last()), seq![keys.last()])
    }
}

/// Whether `line` is what `config unset` prints for `key`: `Removed key (was
/// value)` for a key that was there, `Unrecognized key: key` otherwise.
pub open spec fn unset_report(line: Result<String, String>, key: Seq<char>, present: bool) -> bool {
    if present {
        line matches Ok(l) && exists|t: Seq<char>| unset_output(key, Some(t)) == Ok::<Seq<char>, Seq<char>>(#[trigger] l@)
    } else {
        line matches Err(m) && m@ == unrecognized(key)
    }
}

impl UnsetArgs {
    /// `config unset` on the text of a config file: the new text and the
    /// line printed for each key, in order. A text that is not TOML is an
    /// error.
    pub fn unset_config(&self, text: &str) -> (res: Result<(String, Vec<Result<String, String>>), CliError>)
        ensures
            match toml_parse(text@) {
                Err(m) => res matches Err(CliError::Config(c)) && c@ == m,
                Ok(es) => res matches Ok(r) && {
                    let keys = string_views(self.keys@);
                    &&& written_as(r.0@, unset_all(es, keys))
                    &&& r.1@.len() == keys.len()
                    &&& forall|i: int| 0 <= i < keys.len() ==> unset_report(#[trigger] r.1@[i], keys[i],
                        unset_all(es, keys.subrange(0, i)).contains_key(seq![keys[i]]))
                },
            },
    {
        let mut doc = parse_config(text)?;
        let ghost es = doc_entries(doc);
        let ghost keys = string_views(self.keys@);
        let mut lines: Vec<Result<String, String>> = Vec::new();
        let mut i: usize = 0;
        assert(keys.subrange(0, 0) =~= Seq::<Seq<char>>::empty());
        while i < self.keys.len()
            invariant
                i <= self.keys@.len(),
                keys == string_views(self.keys@),
                doc_entries(doc) == unset_all(es, keys.subrange(0, i as int)),
                lines@.len() == i,
                forall|j: int| 0 <= j < i ==> unset_report(#[trigger] lines@[j], keys[j],
                    unset_all(es, keys.subrange(0, j)).contains_key(seq![keys[j]])),
            decreases self.keys@.len() - i,
        {
            let key = self.keys[i].as_str();
            let present = has_top(&doc, key);
            let removed = remove_top(&mut doc, key);
            let line = match &removed {
                Some(t) if present => {
                    let l = UnsetArgs::unset_line(key, Some(t.as_str()));
                    assert(unset_output(key@, Some(t@)) == Ok::<Seq<char>, Seq<char>>(l->Ok_0@));
                    l
                },
                _ => UnsetArgs::unset_line(key, None),
            };
            proof {
                assert(keys.subrange(0, i + 1).drop_last() =~= keys.subrange(0, i as int));
                assert(keys[i as int] == key@);
            }
            lines.push(line);
            i = i + 1;
        }
        assert(keys.subrange(0, keys.len() as int) =~= keys);
        Ok((document_text(&doc), lines))
    }
}

} // verus!
