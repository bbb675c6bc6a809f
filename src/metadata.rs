use vstd::prelude::*;
use vstd::string::*;

verus! {

/// serde_json's JSON value, handed over to be turned into a `Json`.
#[verifier::external_type_specification]
#[verifier::external_body]
pub struct ExJsonValue(serde_json::Value);

/// A JSON document: numbers as their decimal text, objects as their
/// (key, value) members in order.
#[derive(Debug, PartialEq)]
pub enum Json {
    Null,
    Bool(bool),
    Number(String),
    Str(String),
    Array(Vec<Json>),
    Object(Vec<(String, Json)>),
}

/// The member key under which `cargo metadata` lists the packages.
pub const PACKAGES_KEY: &'static str = "packages";

/// The member key under which a package gives its id.
pub const ID_KEY: &'static str = "id";

/// The document that serde_json reads from a text, or `None` when it rejects the text.
pub uninterp spec fn json_of(text: Seq<char>) -> Option<Json>;

/// Relies on the variants of serde_json::Value: each becomes the `Json` variant of
/// the same kind, a number its decimal text, an object its members in the map's order.
#[verifier::external_body]
fn json_from_value(v: serde_json::Value) -> Json {
    match v {
        serde_json::Value::Null => Json::Null,
        serde_json::Value::Bool(b) => Json::Bool(b),
        serde_json::Value::Number(n) => Json::Number(n.to_string()),
        serde_json::Value::String(s) => Json::Str(s),
        serde_json::Value::Array(a) => Json::Array(a.into_iter().map(json_from_value).collect()),
        serde_json::Value::Object(m) => Json::Object(
            m.into_iter().map(|(k, x)| (k, json_from_value(x))).collect(),
        ),
    }
}

/// Relies on serde_json::from_str to read a text as one JSON value; what it
/// reads depends on the text alone.
#[verifier::external_body]
fn parse_document(text: &str) -> (r: Option<Json>)
    ensures
        r == json_of(text@),
{
    serde_json::from_str::<serde_json::Value>(text).ok().map(json_from_value)
}

/// Why the package ids could not be read out of `cargo metadata` output.
#[derive(Clone, Copy, Debug, PartialEq, Eq, Structural)]
pub enum MetadataError {
    /// The output is not a JSON document.
    InvalidJson,
    /// The document has no `packages` member.
    MissingPackages,
    /// Its `packages` member is not an array.
    PackagesNotArray,
    /// Some package has no `id` member.
    MissingId,
    /// Some package's `id` member is not a string.
    IdNotString,
}

/// Position of the first member at or after `from` whose key is `key`, or `fields.len()`.
pub open spec fn field_index(fields: Seq<(String, Json)>, key: Seq<char>, from: int) -> int
    decreases fields.len() - from,
{
    if from < 0 || from >= fields.len() {
        fields.len() as int
    } else if fields[from].0@ == key {
        from
    } else {
        field_index(fields, key, from + 1)
    }
}

/// The value of the first member of an object with key `key`; `None` when there
/// is none, or when `doc` is not an object.
pub open spec fn member_of(doc: Json, key: Seq<char>) -> Option<Json> {
    match doc {
        Json::Object(fields) => {
            let i = field_index(fields@, key, 0);
            if i < fields@.len() {
                Some(fields@[i].1)
            } else {
                None
            }
        },
        _ => None,
    }
}

/// The `id` string of one package entry.
pub open spec fn entry_id(entry: Json) -> Result<Seq<char>, MetadataError> {
    match member_of(entry, ID_KEY@) {
        Some(Json::Str(s)) => Ok(s@),
        Some(_) => Err(MetadataError::IdNotString),
        None => Err(MetadataError::MissingId),
    }
}

/// `done` followed by what `rest` holds, or the error of `rest`.
pub open spec fn prefixed(done: Seq<Seq<char>>, rest: Result<Seq<Seq<char>>, MetadataError>) -> Result<
    Seq<Seq<char>>,
    MetadataError,
> {
    match rest {
        Ok(r) => Ok(done + r),
        Err(e) => Err(e),
    }
}

/// The `id` strings of package entries in order, or the error of the first
/// entry that has no string `id`.
pub open spec fn entry_ids(entries: Seq<Json>) -> Result<Seq<Seq<char>>, MetadataError>
    decreases entries.len(),
{
    if entries.len() == 0 {
        Ok(Seq::empty())
    } else {
        match entry_id(entries[0]) {
            Ok(id) => prefixed(seq![id], entry_ids(entries.drop_first())),
            Err(e) => Err(e),
        }
    }
}

/// The `id` strings of the `packages` array of a `cargo metadata` document.
pub open spec fn document_ids_of(doc: Json) -> Result<Seq<Seq<char>>, MetadataError> {
    match member_of(doc, PACKAGES_KEY@) {
        Some(Json::Array(entries)) => entry_ids(entries@),
        Some(_) => Err(MetadataError::PackagesNotArray),
        None => Err(MetadataError::MissingPackages),
    }
}

/// The value of the first member of `doc` with key `key`, when `doc` is an object.
pub fn member<'a>(doc: &'a Json, key: &str) -> (r: Option<&'a Json>)
    ensures
        match member_of(*doc, key@) {
            Some(j) => r matches Some(v) && *v == j,
            None => r is None,
        },
{
    match doc {
        Json::Object(fields) => {
            let key_text = String::from_str(key);
            assert(*doc == Json::Object(*fields));
            let mut i: usize = 0;
            while i < fields.len()
                invariant
                    i <= fields.len(),
                    key_text@ == key@,
                    *doc == Json::Object(*fields),
                    field_index(fields@, key@, i as int) == field_index(fields@, key@, 0),
                decreases fields.len() - i,
            {
                if fields[i].0 == key_text {
                    return Some(&fields[i].1);
                }
                i += 1;
            }
            None
        },
        _ => None,
    }
}

/// The `id` strings of the `packages` array of a `cargo metadata` document, in
/// order; each error names the first fault in the document's shape.
pub fn document_ids(doc: &Json) -> (r: Result<Vec<String>, MetadataError>)
    ensures
        match document_ids_of(*doc) {
            Ok(ids) => r matches Ok(v) && v.deep_view() == ids,
            Err(e) => r matches Err(f) && f == e,
        },
{
    let entries = match member(doc, PACKAGES_KEY) {
        Some(Json::Array(entries)) => entries,
        Some(_) => return Err(MetadataError::PackagesNotArray),
        None => return Err(MetadataError::MissingPackages),
    };
    let ghost all = entries@;
    let mut ids: Vec<String> = Vec::new();
    let mut i: usize = 0;
    assert(all.skip(0) =~= all);
    assert(ids.deep_view() + Seq::<Seq<char>>::empty() =~= ids.deep_view());
    while i < entries.len()
        invariant
            i <= entries.len(),
            all == entries@,
            document_ids_of(*doc) == entry_ids(all),
            entry_ids(all) == prefixed(ids.deep_view(), entry_ids(all.skip(i as int))),
        decreases entries.len() - i,
    {
        let ghost rest = all.skip(i as int);
        assert(rest[0] == all[i as int]);
        assert(rest.drop_first() =~= all.skip(i + 1));
        let id = match member(&entries[i], ID_KEY) {
            Some(Json::Str(s)) => s.clone(),
            Some(_) => return Err(MetadataError::IdNotString),
            None => return Err(MetadataError::MissingId),
        };
        let ghost before = ids.deep_view();
        ids.push(id);
        proof {
            assert(ids.deep_view() =~= before.push(id@));
            match entry_ids(all.skip(i + 1)) {
                Ok(r) => assert(before + (seq![id@] + r) =~= ids.deep_view() + r),
                Err(_) => {},
            }
        }
        i += 1;
    }
    assert(all.skip(i as int) =~= Seq::<Json>::empty());
    assert(ids.deep_view() + Seq::<Seq<char>>::empty() =~= ids.deep_view());
    Ok(ids)
}

/// The `id` strings of the `packages` array of `cargo metadata` output, in order.
pub fn package_ids(text: &str) -> (r: Result<Vec<String>, MetadataError>)
    ensures
        match json_of(text@) {
            None => r matches Err(f) && f == MetadataError::InvalidJson,
            Some(doc) => match document_ids_of(doc) {
                Ok(ids) => r matches Ok(v) && v.deep_view() == ids,
                Err(e) => r matches Err(f) && f == e,
            },
        },
{
    match parse_document(text) {
        Some(doc) => document_ids(&doc),
        None => Err(MetadataError::InvalidJson),
    }
}

} // verus!
