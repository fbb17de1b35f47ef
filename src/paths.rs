//! Where the document lives, and the name that a project gets from its directory.
use vstd::prelude::*;

verus! {

/// The directory, under the home directory, that holds the document.
pub const DB_DIR: &'static str = "/.config/whisk";

/// The document's file name within that directory.
pub const DB_FILE: &'static str = "/db.json";

/// The text after the last `/`; all of it when there is none.
pub open spec fn last_segment(s: Seq<char>) -> Seq<char>
    decreases s.len(),
{
    if s.len() == 0 {
        s
    } else if s.last() == '/' {
        Seq::empty()
    } else {
        last_segment(s.drop_last()).push(s.last())
    }
}

/// The directory that holds the document, for a home directory.
pub fn db_dir(home: &str) -> (r: String)
    ensures
        r@ == home@ + DB_DIR@,
{
    let mut r = String::from_str(home);
    r.append(DB_DIR);
    r
}

/// The path of the document, for a home directory.
pub fn db_path(home: &str) -> (r: String)
    ensures
        r@ == home@ + DB_DIR@ + DB_FILE@,
{
    let mut r = db_dir(home);
    r.append(DB_FILE);
    r
}

/// The display name of a project in `path`: the path's final segment.
pub fn project_name_of(path: &str) -> (r: String)
    ensures
        r@ == last_segment(path@),
{
    let n = path.unicode_len();
    let mut start: usize = 0;
    let mut i: usize = 0;
    assert(path@.take(0) =~= Seq::<char>::empty());
    while i < n
        invariant
            n == path@.len(),
            start <= i <= n,
            last_segment(path@.take(i as int)) == path@.subrange(start as int, i as int),
        decreases n - i,
    {
        let c = path.get_char(i);
        let ghost next = path@.take(i + 1);
        assert(next.drop_last() =~= path@.take(i as int));
        assert(next.last() == c);
        if c == '/' {
            start = i + 1;
            assert(path@.subrange(start as int, i + 1) =~= Seq::<char>::empty());
        } else {
            assert(path@.subrange(start as int, i + 1) =~= path@.subrange(start as int, i as int).push(c));
        }
        i = i + 1;
    }
    assert(path@.take(n as int) =~= path@);
    String::from_str(path.substring_char(start, n))
}

} // verus!
