//! The record store: the document that holds every project record, and the
//! whole-document operations on it.
use crate::time::{instant_of_text, rfc3339_text, Timestamp};
use serde_json::Error as JsonError;
use std::collections::BTreeMap;
use std::io::Error as IoError;
use vstd::prelude::*;

verus! {

#[verifier::external_type_specification]
#[verifier::external_body]
pub struct ExJsonError(JsonError);

#[verifier::external_type_specification]
#[verifier::external_body]
pub struct ExIoError(IoError);

/// The JSON string literal, quotes and escapes included, that serde_json writes for a text.
pub uninterp spec fn json_quoted(s: Seq<char>) -> Seq<char>;

/// What serde_json reads from a text as an array of objects with string values:
/// for each object its (key, value) pairs in ascending key order.
pub uninterp spec fn json_objects(text: Seq<char>) -> Option<Seq<Seq<(Seq<char>, Seq<char>)>>>;

/// Relies on `serde_json::to_string` of a `str`, which cannot fail.
#[verifier::external_body]
fn json_quote(s: &str) -> (r: String)
    ensures
        r@ == json_quoted(s@),
{
    serde_json::to_string(s).unwrap()
}

pub open spec fn fields_view(f: Seq<(String, String)>) -> Seq<(Seq<char>, Seq<char>)> {
    f.map_values(|p: (String, String)| (p.0@, p.1@))
}

pub open spec fn objects_view(v: Seq<Vec<(String, String)>>) -> Seq<Seq<(Seq<char>, Seq<char>)>> {
    v.map_values(|o: Vec<(String, String)>| fields_view(o@))
}

/// Relies on `serde_json::from_str` into a vector of string-to-string `BTreeMap`s,
/// each taken apart into its pairs in key order.
#[verifier::external_body]
fn json_parse_objects(text: &str) -> (r: Result<Vec<Vec<(String, String)>>, JsonError>)
    ensures
        match r {
            Ok(v) => json_objects(text@) == Some(objects_view(v@)),
            Err(_) => json_objects(text@) is None,
        },
{
    serde_json::from_str::<Vec<BTreeMap<String, String>>>(text)
        .map(|v| v.into_iter().map(|m| m.into_iter().collect()).collect())
}

/// What can go wrong with the record store.
pub enum Error {
    /// The document could not be read from its medium.
    ReadDBError(IoError),
    /// The document is not a JSON array of objects with string values.
    ParseDBError(JsonError),
    /// The record at `index` lacks a field, or its creation time does not read as one.
    InvalidRecord { index: usize },
    /// A position outside the list of `len` records.
    IndexOutOfRange { index: usize, len: usize },
}

/// One project: a directory under a name, created at an instant.
pub struct Project {
    pub id: String,
    pub name: String,
    pub directory: String,
    pub created_at: Timestamp,
}

/// The value under `key` in a list of pairs: the first pair with that key.
pub open spec fn lookup(fields: Seq<(Seq<char>, Seq<char>)>, key: Seq<char>) -> Option<Seq<char>>
    decreases fields.len(),
{
    if fields.len() == 0 {
        None
    } else if fields[0].0 == key {
        Some(fields[0].1)
    } else {
        lookup(fields.drop_first(), key)
    }
}

/// An object from which a record can be built.
pub open spec fn record_valid(fields: Seq<(Seq<char>, Seq<char>)>) -> bool {
    &&& lookup(fields, "id"@) is Some
    &&& lookup(fields, "name"@) is Some
    &&& lookup(fields, "directory"@) is Some
    &&& lookup(fields, "created_at"@) is Some
    &&& instant_of_text(lookup(fields, "created_at"@)->0) is Some
}

/// `p` is the record built from the object `fields`.
pub open spec fn record_of(p: Project, fields: Seq<(Seq<char>, Seq<char>)>) -> bool {
    &&& lookup(fields, "id"@) == Some(p.id@)
    &&& lookup(fields, "name"@) == Some(p.name@)
    &&& lookup(fields, "directory"@) == Some(p.directory@)
    &&& lookup(fields, "created_at"@) is Some
    &&& instant_of_text(lookup(fields, "created_at"@)->0) == Some(p.created_at@)
}

/// The document reads as a list of records.
pub open spec fn loadable(text: Seq<char>) -> bool {
    &&& json_objects(text) is Some
    &&& forall|i: int|
        0 <= i < json_objects(text)->0.len() ==> #[trigger] record_valid(json_objects(text)->0[i])
}

/// `ps` is the list of records that the document holds, in its order.
pub open spec fn loads(text: Seq<char>, ps: Seq<Project>) -> bool {
    &&& json_objects(text) is Some
    &&& ps.len() == json_objects(text)->0.len()
    &&& forall|i: int| 0 <= i < ps.len() ==> #[trigger] record_of(ps[i], json_objects(text)->0[i])
}

/// `e` is the error that reading the document gives.
pub open spec fn load_error(text: Seq<char>, e: Error) -> bool {
    match json_objects(text) {
        None => e is ParseDBError,
        Some(objs) => match e {
            Error::InvalidRecord { index } => {
                &&& index < objs.len()
                &&& !record_valid(objs[index as int])
                &&& forall|j: int| 0 <= j < index ==> #[trigger] record_valid(objs[j])
            },
            _ => false,
        },
    }
}

/// The text of one record in the document.
pub open spec fn record_text(p: Project) -> Seq<char> {
    "{\"id\":"@ + json_quoted(p.id@) + ",\"name\":"@ + json_quoted(p.name@) + ",\"directory\":"@
        + json_quoted(p.directory@) + ",\"created_at\":"@ + json_quoted(
        rfc3339_text(p.created_at@.0, p.created_at@.1),
    ) + "}"@
}

/// The records' texts, separated by commas.
pub open spec fn records_text(ps: Seq<Project>) -> Seq<char>
    decreases ps.len(),
{
    if ps.len() == 0 {
        Seq::empty()
    } else if ps.len() == 1 {
        record_text(ps[0])
    } else {
        records_text(ps.drop_last()) + ","@ + record_text(ps.last())
    }
}

/// The document that holds the records `ps`: a JSON array of objects.
pub open spec fn document_text(ps: Seq<Project>) -> Seq<char> {
    "["@ + records_text(ps) + "]"@
}

fn value_of(fields: &Vec<(String, String)>, key: &str) -> (r: Option<String>)
    ensures
        match r {
            Some(v) => lookup(fields_view(fields@), key@) == Some(v@),
            None => lookup(fields_view(fields@), key@) is None,
        },
{
    let ghost all = fields_view(fields@);
    let wanted = String::from_str(key);
    let mut i: usize = 0;
    assert(all.subrange(0, all.len() as int) =~= all);
    while i < fields.len()
        invariant
            i <= fields.len(),
            all == fields_view(fields@),
            wanted@ == key@,
            lookup(all, key@) == lookup(all.subrange(i as int, all.len() as int), key@),
        decreases fields.len() - i,
    {
        let ghost rest = all.subrange(i as int, all.len() as int);
        assert(rest.drop_first() =~= all.subrange(i + 1, all.len() as int));
        if fields[i].0 == wanted {
            return Some(fields[i].1.clone());
        }
        i = i + 1;
    }
    None
}

/// Reads a document into its list of records.
pub fn read_db(text: &str) -> (r: Result<Vec<Project>, Error>)
    ensures
        r is Ok <==> loadable(text@),
        match r {
            Ok(ps) => loads(text@, ps@),
            Err(e) => load_error(text@, e),
        },
{
    let objs = match json_parse_objects(text) {
        Ok(v) => v,
        Err(e) => {
            return Err(Error::ParseDBError(e));
        },
    };
    let ghost ov = objects_view(objs@);
    let mut out: Vec<Project> = Vec::new();
    let mut i: usize = 0;
    while i < objs.len()
        invariant
            i <= objs.len(),
            json_objects(text@) == Some(ov),
            ov == objects_view(objs@),
            out@.len() == i,
            forall|j: int| 0 <= j < i ==> #[trigger] record_valid(ov[j]),
            forall|j: int| 0 <= j < i ==> #[trigger] record_of(out@[j], ov[j]),
        decreases objs.len() - i,
    {
        let o = &objs[i];
        assert(ov[i as int] == fields_view(o@));
        let id = value_of(o, "id");
        let name = value_of(o, "name");
        let directory = value_of(o, "directory");
        let created = value_of(o, "created_at");
        let created_at = match created {
            Some(c) => Timestamp::parse(c.as_str()),
            None => None,
        };
        match (id, name, directory, created_at) {
            (Some(id), Some(name), Some(directory), Some(created_at)) => {
                out.push(Project { id, name, directory, created_at });
            },
            _ => {
                assert(!record_valid(ov[i as int]));
                assert(!record_valid(json_objects(text@)->0[i as int]));
                assert(!loadable(text@));
                return Err(Error::InvalidRecord { index: i });
            },
        }
        i = i + 1;
    }
    Ok(out)
}

/// Writes the records as a document.
pub fn write_db(ps: &Vec<Project>) -> (r: String)
    ensures
        r@ == document_text(ps@),
{
    let mut out = String::from_str("[");
    let mut i: usize = 0;
    while i < ps.len()
        invariant
            i <= ps.len(),
            out@ == "["@ + records_text(ps@.take(i as int)),
        decreases ps.len() - i,
    {
        let p = &ps[i];
        if i > 0 {
            out.append(",");
        }
        out.append("{\"id\":");
        out.append(json_quote(p.id.as_str()).as_str());
        out.append(",\"name\":");
        out.append(json_quote(p.name.as_str()).as_str());
        out.append(",\"directory\":");
        out.append(json_quote(p.directory.as_str()).as_str());
        out.append(",\"created_at\":");
        out.append(json_quote(p.created_at.to_rfc3339().as_str()).as_str());
        out.append("}");
        proof {
            let next = ps@.take(i + 1);
            assert(next.drop_last() =~= ps@.take(i as int));
            assert(next.last() == ps@[i as int]);
            if i == 0 {
                assert(next.len() == 1);
            }
        }
        i = i + 1;
    }
    out.append("]");
    assert(ps@.take(ps.len() as int) =~= ps@);
    out
}

/// The document of a store that holds no record, written when none exists yet.
pub fn empty_db() -> (r: String)
    ensures
        r@ == document_text(Seq::empty()),
{
    let none: Vec<Project> = Vec::new();
    write_db(&none)
}

/// Relies on `uuid::Uuid::new_v4` and its hyphenated lower-case text, which is
/// 36 characters long.
#[verifier::external_body]
fn fresh_id() -> (r: String)
    ensures
        r@.len() == 36,
{
    uuid::Uuid::new_v4().to_string()
}

/// Adds a record for `directory` under `name`, with a fresh random id and the
/// current instant, at the end of the list.
pub fn append_project(ps: &mut Vec<Project>, name: String, directory: String)
    ensures
        final(ps)@.len() == old(ps)@.len() + 1,
        final(ps)@.drop_last() == old(ps)@,
        final(ps)@.last().name@ == name@,
        final(ps)@.last().directory@ == directory@,
        final(ps)@.last().id@.len() == 36,
        final(ps)@.last().created_at@.0 >= 0,
{
    let id = fresh_id();
    let created_at = Timestamp::now();
    ps.push(Project { id, name, directory, created_at });
    assert(final(ps)@.drop_last() =~= old(ps)@);
}

/// Takes the record at `index` out of the list; a position past the end is refused
/// and leaves the list as it was.
pub fn remove_at(ps: &mut Vec<Project>, index: usize) -> (r: Result<(), Error>)
    ensures
        r is Ok <==> index < old(ps)@.len(),
        r is Ok ==> final(ps)@ == old(ps)@.remove(index as int),
        r is Err ==> final(ps)@ == old(ps)@,
        r matches Err(e) ==> e == (Error::IndexOutOfRange { index, len: old(ps)@.len() as usize }),
{
    let len = ps.len();
    if index < len {
        ps.remove(index);
        Ok(())
    } else {
        Err(Error::IndexOutOfRange { index, len })
    }
}

/// Reads the document, adds a record for `directory` under `name`, and gives the
/// new list with the document that holds it.
pub fn add_project_to_db(text: &str, name: String, directory: String) -> (r: Result<
    (Vec<Project>, String),
    Error,
>)
    ensures
        r is Ok <==> loadable(text@),
        match r {
            Ok((ps, doc)) => {
                &&& loads(text@, ps@.drop_last())
                &&& ps@.len() >= 1
                &&& ps@.last().name@ == name@
                &&& ps@.last().directory@ == directory@
                &&& ps@.last().id@.len() == 36
                &&& ps@.last().created_at@.0 >= 0
                &&& doc@ == document_text(ps@)
            },
            Err(e) => load_error(text@, e),
        },
{
    let mut ps = read_db(text)?;
    append_project(&mut ps, name, directory);
    let doc = write_db(&ps);
    Ok((ps, doc))
}

/// Reads the document, takes the record at `index` out, and gives the new list with
/// the document that holds it.
pub fn remove_project_at_index(text: &str, index: usize) -> (r: Result<(Vec<Project>, String), Error>)
    ensures
        r is Ok <==> loadable(text@) && index < json_objects(text@)->0.len(),
        match r {
            Ok((ps, doc)) => {
                &&& exists|before: Seq<Project>| #[trigger] loads(text@, before) && ps@ == before.remove(index as int)
                &&& doc@ == document_text(ps@)
            },
            Err(e) => load_error(text@, e) || (loadable(text@) && e == (Error::IndexOutOfRange {
                index,
                len: json_objects(text@)->0.len() as usize,
            })),
        },
{
    let mut ps = read_db(text)?;
    remove_at(&mut ps, index)?;
    let doc = write_db(&ps);
    Ok((ps, doc))
}

/// Reading a document twice gives the same records: the result depends on the
/// text alone.
pub proof fn lemma_read_is_deterministic(text: Seq<char>, a: Seq<Project>, b: Seq<Project>)
    requires
        loads(text, a),
        loads(text, b),
    ensures
        a.len() == b.len(),
        forall|i: int|
            0 <= i < a.len() ==> {
                &&& (#[trigger] a[i]).id@ == b[i].id@
                &&& a[i].name@ == b[i].name@
                &&& a[i].directory@ == b[i].directory@
                &&& a[i].created_at@ == b[i].created_at@
            },
{
    assert forall|i: int| 0 <= i < a.len() implies {
        &&& (#[trigger] a[i]).id@ == b[i].id@
        &&& a[i].name@ == b[i].name@
        &&& a[i].directory@ == b[i].directory@
        &&& a[i].created_at@ == b[i].created_at@
    } by {
        assert(record_of(a[i], json_objects(text)->0[i]));
        assert(record_of(b[i], json_objects(text)->0[i]));
    }
}

/// Removing the record at a valid position leaves one fewer, with every other
/// record kept in its order.
pub proof fn lemma_removal_keeps_order(ps: Seq<Project>, i: int)
    requires
        0 <= i < ps.len(),
    ensures
        ps.remove(i).len() == ps.len() - 1,
        forall|j: int| 0 <= j < i ==> #[trigger] ps.remove(i)[j] == ps[j],
        forall|j: int| i <= j < ps.len() - 1 ==> #[trigger] ps.remove(i)[j] == ps[j + 1],
{
}

} // verus!
