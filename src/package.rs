use vstd::prelude::*;
use vstd::string::*;

use crate::text::{
    chars_of, find_char, index_of_from, matches_at, occurs_at, trim_end_all, trim_end_matches_all,
    trim_start_all, trim_start_matches_all,
};

verus! {

/// What the source part of a package id starts with when the package lives in a local directory.
pub const LOCAL_SOURCE_PREFIX: &'static str = "(path+file://";

/// What closes the source part of a package id.
pub const SOURCE_SUFFIX: &'static str = ")";

/// What separates a package's name from its version in a `name:version` spec.
pub const NAME_VERSION_SEPARATOR: &'static str = ":";

/// A package id of `cargo metadata`, `name version source`, cut at its first two spaces.
pub struct PackageId {
    pub name: String,
    pub version: String,
    pub source: String,
}

/// The name part of a package id: all of it up to its first space.
pub open spec fn id_name(id: Seq<char>) -> Seq<char> {
    id.take(index_of_from(id, ' ', 0))
}

/// The three parts of a package id, or `None` when it holds fewer than two spaces.
/// The source part is everything after the second space, spaces included.
pub open spec fn id_parts(id: Seq<char>) -> Option<(Seq<char>, Seq<char>, Seq<char>)> {
    let i = index_of_from(id, ' ', 0);
    let j = index_of_from(id, ' ', i + 1);
    if j < id.len() {
        Some((id.subrange(0, i), id.subrange(i + 1, j), id.subrange(j + 1, id.len() as int)))
    } else {
        None
    }
}

/// Whether a source part names a package in a local directory.
pub open spec fn is_local(source: Seq<char>) -> bool {
    occurs_at(source, LOCAL_SOURCE_PREFIX@, 0)
}

/// The directory that a local source part names.
pub open spec fn local_dir(source: Seq<char>) -> Seq<char> {
    trim_end_all(trim_start_all(source, LOCAL_SOURCE_PREFIX@), SOURCE_SUFFIX@)
}

/// The `name:version` spec of a package.
pub open spec fn name_version(name: Seq<char>, version: Seq<char>) -> Seq<char> {
    name + NAME_VERSION_SEPARATOR@ + version
}

/// The name part of a package id.
pub fn package_name(id: &str) -> (r: String)
    ensures
        r@ == id_name(id@),
{
    let cs = chars_of(id);
    let i = find_char(&cs, ' ', 0);
    id.substring_char(0, i).to_owned()
}

/// Cuts a package id into name, version and source.
pub fn split_package_id(id: &str) -> (r: Option<PackageId>)
    ensures
        match id_parts(id@) {
            Some((n, v, s)) => r matches Some(p) && p.name@ == n && p.version@ == v && p.source@
                == s,
            None => r is None,
        },
{
    let cs = chars_of(id);
    let i = find_char(&cs, ' ', 0);
    if i == cs.len() {
        return None;
    }
    let j = find_char(&cs, ' ', i + 1);
    if j == cs.len() {
        return None;
    }
    Some(
        PackageId {
            name: id.substring_char(0, i).to_owned(),
            version: id.substring_char(i + 1, j).to_owned(),
            source: id.substring_char(j + 1, cs.len()).to_owned(),
        },
    )
}

/// Whether a source part names a package in a local directory.
pub fn is_local_source(source: &str) -> (r: bool)
    ensures
        r == is_local(source@),
{
    let cs = chars_of(source);
    let ps = chars_of(LOCAL_SOURCE_PREFIX);
    matches_at(&cs, &ps, 0)
}

/// The directory that a local source part names: the source with its leading
/// `(path+file://` and its trailing `)` removed.
pub fn local_directory(source: &str) -> (r: String)
    ensures
        r@ == local_dir(source@),
{
    let trimmed = trim_start_matches_all(source, LOCAL_SOURCE_PREFIX);
    trim_end_matches_all(trimmed.as_str(), SOURCE_SUFFIX)
}

/// The `name:version` spec of a package.
pub fn package_spec(name: &str, version: &str) -> (r: String)
    ensures
        r@ == name_version(name@, version@),
{
    let s = String::from_str(name);
    let s = s.concat(NAME_VERSION_SEPARATOR);
    s.concat(version)
}

} // verus!
