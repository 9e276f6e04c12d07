//! Cloud events as the endpoints build and process them.
use crate::json::JsonValue;
use crate::text::{is_first_index, str_is};
use vstd::prelude::*;

verus! {

/// Calls `uuid::Uuid::new_v4().to_string()`: a random id, which as uuid's source shows is
/// written in the hyphenated form of 36 characters.
#[verifier::external_body]
pub(crate) fn new_uuid_text() -> (r: String)
    ensures
        r@.len() == 36,
{
    uuid::Uuid::new_v4().to_string()
}

/// Calls `chrono::Utc::now().to_rfc3339()`: the current time in RFC 3339 form. Nothing is
/// stated of it.
#[verifier::external_body]
pub(crate) fn now_rfc3339() -> String {
    chrono::Utc::now().to_rfc3339()
}

/// The data of an event.
#[derive(Debug, PartialEq, Eq)]
pub enum Data {
    Binary(Vec<u8>),
    String(String),
    Json(JsonValue),
}

/// The mathematical value of [`Data`].
pub enum DataModel {
    Binary(Seq<u8>),
    String(Seq<char>),
    Json(JsonValue),
}

impl View for Data {
    type V = DataModel;

    open spec fn view(&self) -> DataModel {
        match self {
            Data::Binary(b) => DataModel::Binary(b@),
            Data::String(s) => DataModel::String(s@),
            Data::Json(j) => DataModel::Json(*j),
        }
    }
}

/// The value of an event extension.
#[derive(Debug, PartialEq, Eq)]
pub enum ExtensionValue {
    String(String),
    Boolean(bool),
    Integer(i64),
}

/// The mathematical value of an [`ExtensionValue`].
pub enum ExtensionValueModel {
    String(Seq<char>),
    Boolean(bool),
    Integer(i64),
}

impl View for ExtensionValue {
    type V = ExtensionValueModel;

    open spec fn view(&self) -> ExtensionValueModel {
        match self {
            ExtensionValue::String(s) => ExtensionValueModel::String(s@),
            ExtensionValue::Boolean(b) => ExtensionValueModel::Boolean(*b),
            ExtensionValue::Integer(i) => ExtensionValueModel::Integer(*i),
        }
    }
}

/// A cloud event (specification version 1.0). Extensions keep their order.
#[derive(Debug, PartialEq, Eq)]
pub struct Event {
    pub id: String,
    pub ty: String,
    pub source: String,
    pub subject: Option<String>,
    pub time: Option<String>,
    pub datacontenttype: Option<String>,
    pub dataschema: Option<String>,
    pub extensions: Vec<(String, ExtensionValue)>,
    pub data: Option<Data>,
}

/// An extension in the model: its name and value.
pub type ExtensionModel = (Seq<char>, ExtensionValueModel);

/// The mathematical value of an [`Event`].
pub struct EventModel {
    pub id: Seq<char>,
    pub ty: Seq<char>,
    pub source: Seq<char>,
    pub subject: Option<Seq<char>>,
    pub time: Option<Seq<char>>,
    pub datacontenttype: Option<Seq<char>>,
    pub dataschema: Option<Seq<char>>,
    pub extensions: Seq<ExtensionModel>,
    pub data: Option<DataModel>,
}

/// The view of an optional string.
pub open spec fn opt_text(o: Option<String>) -> Option<Seq<char>> {
    match o {
        Some(s) => Some(s@),
        None => None,
    }
}

/// The model of one extension.
pub open spec fn extension_model(e: (String, ExtensionValue)) -> ExtensionModel {
    (e.0@, e.1@)
}

impl View for Event {
    type V = EventModel;

    open spec fn view(&self) -> EventModel {
        EventModel {
            id: self.id@,
            ty: self.ty@,
            source: self.source@,
            subject: opt_text(self.subject),
            time: opt_text(self.time),
            datacontenttype: opt_text(self.datacontenttype),
            dataschema: opt_text(self.dataschema),
            extensions: self.extensions@.map_values(|e: (String, ExtensionValue)| extension_model(e)),
            data: match self.data {
                Some(d) => Some(d@),
                None => None,
            },
        }
    }
}

/// The names of the extensions, in order.
pub open spec fn extension_names(exts: Seq<ExtensionModel>) -> Seq<Seq<char>> {
    exts.map_values(|e: ExtensionModel| e.0)
}

/// The value of the first extension with this name.
pub open spec fn extension_of(exts: Seq<ExtensionModel>, name: Seq<char>) -> Option<ExtensionValueModel> {
    if extension_names(exts).contains(name) {
        let i = choose|i: int| is_first_index(extension_names(exts), name, i);
        Some(exts[i].1)
    } else {
        None
    }
}

/// Setting an extension: the first one with this name gets the value, or the extension
/// is added at the end.
pub open spec fn with_extension(
    exts: Seq<ExtensionModel>,
    name: Seq<char>,
    value: ExtensionValueModel,
) -> Seq<ExtensionModel> {
    if extension_names(exts).contains(name) {
        let i = choose|i: int| is_first_index(extension_names(exts), name, i);
        exts.update(i, (name, value))
    } else {
        exts.push((name, value))
    }
}

/// An extension not named `name`.
pub open spec fn not_named(name: Seq<char>) -> spec_fn(ExtensionModel) -> bool {
    |e: ExtensionModel| e.0 != name
}

/// Removing an extension: all extensions with this name go, the others stay in order.
pub open spec fn without_extension(exts: Seq<ExtensionModel>, name: Seq<char>) -> Seq<ExtensionModel> {
    exts.filter(not_named(name))
}

impl Event {
    /// The model of the extensions.
    pub open spec fn ext_model(&self) -> Seq<ExtensionModel> {
        self.extensions@.map_values(|e: (String, ExtensionValue)| extension_model(e))
    }

    /// Finds the first extension with this name.
    fn find_extension(&self, name: &str) -> (r: Option<usize>)
        ensures
            match r {
                Some(i) => is_first_index(extension_names(self@.extensions), name@, i as int),
                None => !extension_names(self@.extensions).contains(name@),
            },
    {
        let ghost names = extension_names(self@.extensions);
        let mut i: usize = 0;
        while i < self.extensions.len()
            invariant
                i <= self.extensions@.len(),
                names == extension_names(self@.extensions),
                names.len() == self.extensions@.len(),
                forall|j: int| 0 <= j < i ==> names[j] != name@,
            decreases self.extensions@.len() - i,
        {
            assert(names[i as int] == self.extensions@[i as int].0@);
            if str_is(self.extensions[i].0.as_str(), name) {
                return Some(i);
            }
            i += 1;
        }
        proof {
            if names.contains(name@) {
                let k = choose|k: int| 0 <= k < names.len() && names[k] == name@;
                assert(names[k] != name@);
            }
        }
        None
    }

    /// The value of the first extension with this name.
    pub fn extension(&self, name: &str) -> (r: Option<&ExtensionValue>)
        ensures
            match r {
                Some(v) => extension_of(self@.extensions, name@) == Some(v@),
                None => extension_of(self@.extensions, name@) is None,
            },
    {
        match self.find_extension(name) {
            Some(i) => {
                proof {
                    let names = extension_names(self@.extensions);
                    let k = choose|k: int| is_first_index(names, name@, k);
                    crate::text::lemma_first_index_unique(names, name@, i as int, k);
                }
                Some(&self.extensions[i].1)
            },
            None => None,
        }
    }

    /// Sets an extension.
    pub fn set_extension(&mut self, name: &str, value: ExtensionValue)
        ensures
            final(self)@ == (EventModel {
                extensions: with_extension(old(self)@.extensions, name@, value@),
                ..old(self)@
            }),
    {
        let ghost before = self@;
        match self.find_extension(name) {
            Some(i) => {
                proof {
                    let names = extension_names(before.extensions);
                    let k = choose|k: int| is_first_index(names, name@, k);
                    crate::text::lemma_first_index_unique(names, name@, i as int, k);
                }
                let n = crate::text::string_of(&crate::text::chars_of(name));
                self.extensions.set(i, (n, value));
            },
            None => {
                let n = crate::text::string_of(&crate::text::chars_of(name));
                self.extensions.push((n, value));
            },
        }
        assert(self@.extensions =~= with_extension(before.extensions, name@, value@));
    }

    /// Removes all extensions with this name.
    pub fn remove_extension(&mut self, name: &str)
        ensures
            final(self)@ == (EventModel {
                extensions: without_extension(old(self)@.extensions, name@),
                ..old(self)@
            }),
    {
        let ghost orig = self@.extensions;
        let ghost p = not_named(name@);
        let ghost mut j: int = 0;
        let mut i: usize = 0;
        while i < self.extensions.len()
            invariant
                p == not_named(name@),
                0 <= i <= j <= orig.len(),
                i <= self.extensions@.len(),
                self@.extensions.take(i as int) == orig.take(j).filter(p),
                self@.extensions.skip(i as int) == orig.skip(j),
                self@ == (EventModel { extensions: self@.extensions, ..old(self)@ }),
                orig == old(self)@.extensions,
            decreases self.extensions@.len() - i,
        {
            let ghost cur = self@.extensions;
            proof {
                assert(cur.skip(i as int).len() > 0);
                assert(j < orig.len());
                assert(orig.skip(j)[0] == cur[i as int]);
                assert(orig.take(j + 1) =~= orig.take(j).push(orig[j]));
                orig.take(j).lemma_filter_push(orig[j], p);
                assert(cur[i as int] == extension_model(self.extensions@[i as int]));
            }
            if str_is(self.extensions[i].0.as_str(), name) {
                self.extensions.remove(i);
                proof {
                    assert(self@.extensions =~= cur.remove(i as int));
                    assert(cur.skip(i + 1) =~= cur.skip(i as int).skip(1));
                    assert(orig.skip(j + 1) =~= orig.skip(j).skip(1));
                    j = j + 1;
                    assert(self@.extensions.take(i as int) =~= cur.take(i as int));
                    assert(self@.extensions.skip(i as int) =~= orig.skip(j));
                }
            } else {
                i += 1;
                proof {
                    assert(self@.extensions == cur);
                    assert(cur.skip(i as int) =~= cur.skip(i - 1).skip(1));
                    assert(orig.skip(j + 1) =~= orig.skip(j).skip(1));
                    j = j + 1;
                    assert(self@.extensions.take(i as int) =~= cur.take(i - 1).push(cur[i - 1]));
                    assert(self@.extensions.skip(i as int) =~= orig.skip(j));
                }
            }
        }
        proof {
            assert(self@.extensions.len() == self.extensions@.len());
            assert(self@.extensions.skip(i as int).len() == 0);
            assert(j == orig.len());
            assert(orig.take(j) =~= orig);
            assert(self@.extensions =~= self@.extensions.take(i as int));
        }
    }
}

/// Reading after appending an extension: a name found before reads as before; else the
/// appended extension is found where it has the name.
proof fn lemma_extension_of_push(exts: Seq<ExtensionModel>, x: ExtensionModel, name: Seq<char>)
    ensures
        extension_of(exts.push(x), name) == if extension_names(exts).contains(name) {
            extension_of(exts, name)
        } else if x.0 == name {
            Some(x.1)
        } else {
            None
        },
{
    let ns = extension_names(exts);
    let np = extension_names(exts.push(x));
    assert(np =~= ns.push(x.0));
    if ns.contains(name) {
        crate::text::lemma_first_index_exists(ns, name);
        let i = choose|i: int| is_first_index(ns, name, i);
        assert(is_first_index(np, name, i));
        assert(np.contains(name)) by {
            assert(np[i] == name);
        }
        let j = choose|j: int| is_first_index(np, name, j);
        crate::text::lemma_first_index_unique(np, name, i, j);
    } else if x.0 == name {
        let k = ns.len() as int;
        assert(is_first_index(np, name, k));
        assert(np.contains(name)) by {
            assert(np[k] == name);
        }
        let j = choose|j: int| is_first_index(np, name, j);
        crate::text::lemma_first_index_unique(np, name, k, j);
    } else {
        assert(!np.contains(name)) by {
            if np.contains(name) {
                let t = choose|t: int| 0 <= t < np.len() && np[t] == name;
                if t < ns.len() {
                    assert(ns[t] == name);
                }
            }
        }
    }
}

/// A name that is set reads back the value set, and setting it leaves every other name
/// reading as before.
pub proof fn lemma_extension_reads_back(
    exts: Seq<ExtensionModel>,
    name: Seq<char>,
    value: ExtensionValueModel,
    other: Seq<char>,
)
    requires
        other != name,
    ensures
        extension_of(with_extension(exts, name, value), name) == Some(value),
        extension_of(with_extension(exts, name, value), other) == extension_of(exts, other),
{
    assert(extension_names(exts) =~= crate::ordered::keys_of(exts));
    let after = with_extension(exts, name, value);
    assert(after == crate::ordered::inserted(exts, name, value));
    assert(extension_names(after) =~= crate::ordered::keys_of(after));
    crate::ordered::lemma_inserted_reads_back(exts, name, value, other);
}

/// Removing a name leaves every other name reading as before.
proof fn lemma_without_keeps_others(exts: Seq<ExtensionModel>, name: Seq<char>, other: Seq<char>)
    requires
        other != name,
    ensures
        extension_of(without_extension(exts, name), other) == extension_of(exts, other),
    decreases exts.len(),
{
    let p = not_named(name);
    if exts.len() == 0 {
        assert(exts.filter(p) =~= exts) by {
            reveal(Seq::filter);
        }
    } else {
        let t = exts.drop_last();
        let x = exts.last();
        assert(exts =~= t.push(x));
        t.lemma_filter_push(x, p);
        lemma_without_keeps_others(t, name, other);
        lemma_extension_of_push(t, x, other);
        let ft = t.filter(p);
        // a name is found exactly where the reading is some value
        assert(extension_names(ft).contains(other) == extension_of(ft, other) is Some);
        assert(extension_names(t).contains(other) == extension_of(t, other) is Some);
        if p(x) {
            lemma_extension_of_push(ft, x, other);
        }
    }
}

/// After an extension is removed it reads as absent, and every other name reads as
/// before.
pub proof fn lemma_removed_extension_absent(exts: Seq<ExtensionModel>, name: Seq<char>, other: Seq<char>)
    requires
        other != name,
    ensures
        extension_of(without_extension(exts, name), name) is None,
        extension_of(without_extension(exts, name), other) == extension_of(exts, other),
{
    let f = without_extension(exts, name);
    assert(!extension_names(f).contains(name)) by {
        if extension_names(f).contains(name) {
            let t = choose|t: int| 0 <= t < extension_names(f).len() && extension_names(f)[t] == name;
            exts.lemma_filter_pred(not_named(name), t);
        }
    }
    lemma_without_keeps_others(exts, name, other);
}

} // verus!
