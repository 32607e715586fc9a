//! Resolution of the application's persistent data directory.
//!
//! The data directory is the user's home directory with the fixed suffix
//! `.var/app/com.fluorine.manager` joined on. When no home directory is
//! known, `/tmp` is substituted. Joining follows the usual path rule: a
//! `/` separator is inserted unless the base is empty or already ends
//! with one.

use vstd::prelude::*;

verus! {

/// The fixed relative suffix that names the owning application.
pub open spec fn suffix_spec() -> Seq<char> {
    ".var/app/com.fluorine.manager"@
}

/// The directory substituted when the home directory is unknown.
pub open spec fn fallback_spec() -> Seq<char> {
    "/tmp"@
}

/// Joining a relative path onto a base directory: a `/` separator is
/// inserted unless the base is empty or already ends with one.
pub open spec fn join_spec(base: Seq<char>, rel: Seq<char>) -> Seq<char> {
    if base.len() == 0 {
        rel
    } else if base.last() == '/' {
        base + rel
    } else {
        base + seq!['/'] + rel
    }
}

/// The data directory resolved from an optional home-directory value.
pub open spec fn data_dir_spec(home: Option<Seq<char>>) -> Seq<char> {
    match home {
        Some(h) => join_spec(h, suffix_spec()),
        None => join_spec(fallback_spec(), suffix_spec()),
    }
}

/// The optional home-directory argument seen as an optional sequence of
/// characters.
pub open spec fn home_view(home: Option<&str>) -> Option<Seq<char>> {
    match home {
        Some(h) => Some(h@),
        None => None,
    }
}

/// Joins `rel` onto the directory `base`, inserting a `/` separator
/// unless `base` is empty or already ends with one.
pub fn join_path(base: &str, rel: &str) -> (r: String)
    ensures
        r@ == join_spec(base@, rel@),
{
    let n: usize = base.unicode_len();
    if n == 0 {
        String::from_str(rel)
    } else if base.get_char(n - 1) == '/' {
        String::from_str(base).concat(rel)
    } else {
        proof {
            reveal_strlit("/");
            assert("/"@ =~= seq!['/']);
        }
        let mut r = String::from_str(base);
        r.append("/");
        r.concat(rel)
    }
}

/// Returns the application data directory: the home directory, or `/tmp`
/// when none is known, with `.var/app/com.fluorine.manager` joined on.
pub fn data_dir(home: Option<&str>) -> (r: String)
    ensures
        r@ == data_dir_spec(home_view(home)),
{
    match home {
        Some(h) => join_path(h, ".var/app/com.fluorine.manager"),
        None => join_path("/tmp", ".var/app/com.fluorine.manager"),
    }
}

/// Law: a present home value resolves to that value joined with the
/// fixed application suffix.
pub proof fn lemma_home_resolves_to_join(h: Seq<char>)
    ensures
        data_dir_spec(Some(h)) == join_spec(h, suffix_spec()),
{
}

/// Law: joining keeps a non-empty base as a prefix of the result, and
/// the relative part as a suffix of it.
pub proof fn lemma_join_parts(base: Seq<char>, rel: Seq<char>)
    ensures
        base.len() > 0 ==> join_spec(base, rel).subrange(0, base.len() as int) =~= base,
        join_spec(base, rel).len() >= rel.len(),
        join_spec(base, rel).subrange(
            join_spec(base, rel).len() - rel.len(),
            join_spec(base, rel).len() as int,
        ) =~= rel,
{
}

/// Law: the resolver is deterministic — with the same home-directory
/// state, any two resolved paths are identical.
pub proof fn lemma_data_dir_idempotent(home: Option<Seq<char>>, r1: Seq<char>, r2: Seq<char>)
    requires
        r1 == data_dir_spec(home),
        r2 == data_dir_spec(home),
    ensures
        r1 == r2,
{
}

/// Law: when no home directory is known, the resolved path is exactly
/// the fallback directory with the application suffix joined on.
pub proof fn lemma_fallback_path()
    ensures
        data_dir_spec(None) == "/tmp/.var/app/com.fluorine.manager"@,
{
    reveal_strlit("/tmp");
    reveal_strlit(".var/app/com.fluorine.manager");
    reveal_strlit("/tmp/.var/app/com.fluorine.manager");
    assert(data_dir_spec(None) =~= "/tmp/.var/app/com.fluorine.manager"@);
}

} // verus!
