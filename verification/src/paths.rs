use vstd::prelude::*;

verus! {

/// `base` and `sub` joined by a single separator.
pub open spec fn join_spec(base: Seq<char>, sub: Seq<char>) -> Seq<char> {
    base + seq!['/'] + sub
}

/// The path an operation addresses: the base path alone, or the base path
/// joined with the sub path by a single separator.
pub open spec fn resolve_spec(base: Seq<char>, sub: Option<Seq<char>>) -> Seq<char> {
    match sub {
        Some(s) => join_spec(base, s),
        None => base,
    }
}

/// `resolve_spec` over an optional string slice, as the executable
/// functions receive it.
pub open spec fn resolve_opt(base: Seq<char>, sub: Option<&str>) -> Seq<char> {
    match sub {
        Some(s) => join_spec(base, s@),
        None => base,
    }
}

/// The full data path a read addresses on the store, as it is reported
/// when nothing is found there.
pub open spec fn data_path_spec(mount: Seq<char>, path: Seq<char>) -> Seq<char> {
    mount + "/data/"@ + path
}

/// Builds the full data path for the not-found report.
pub fn data_path(mount: &str, path: &str) -> (r: String)
    ensures
        r@ == data_path_spec(mount@, path@),
{
    let mut r = mount.to_owned();
    r.append("/data/");
    r.append(path);
    r
}

/// Joins `base` and `sub` with exactly one separator between them.
pub fn join_path(base: &str, sub: &str) -> (r: String)
    ensures
        r@ == join_spec(base@, sub@),
{
    let mut r = base.to_owned();
    r.append("/");
    r.append(sub);
    proof {
        reveal_strlit("/");
        assert("/"@ =~= seq!['/']);
        assert(r@ =~= join_spec(base@, sub@));
    }
    r
}

/// Resolves the path of one operation from the base path and the optional
/// sub path.
pub fn resolve_path(base: &str, sub: Option<&str>) -> (r: String)
    ensures
        r@ == resolve_opt(base@, sub),
{
    match sub {
        Some(s) => join_path(base, s),
        None => base.to_owned(),
    }
}

/// With the store modeled as a map from resolved paths to values: writing a
/// value at the path a client resolves and then reading at the same resolved
/// path yields that value back.
pub proof fn lemma_write_then_read<V>(
    store: Map<Seq<char>, V>,
    base: Seq<char>,
    sub: Option<Seq<char>>,
    value: V,
)
    ensures
        ({
            let p = resolve_spec(base, sub);
            let written = store.insert(p, value);
            written.contains_key(p) && written[p] == value
        }),
{
}

} // verus!
