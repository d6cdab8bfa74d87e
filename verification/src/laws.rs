//! The service's laws, stated over the store's map view — the same view
//! the handlers' contracts speak of. An upload with filename `f` and
//! payload `p` turns the store's view `m` into `m.insert(f, p)` (see
//! `handlers::handle_upload_raw` and `handlers::handle_upload_multipart`),
//! and a download of `f` answers `m[f]` when `m` holds `f` (see
//! `handlers::handle_download`); each law below follows one or two such
//! steps.

use vstd::prelude::*;

verus! {

/// Round trip: after uploading payload `p` under filename `f`, a download
/// of `f` finds the name and yields exactly `p`.
pub proof fn lemma_round_trip(m: Map<Seq<char>, Seq<u8>>, f: Seq<char>, p: Seq<u8>)
    ensures
        m.insert(f, p).contains_key(f),
        m.insert(f, p)[f] == p,
{
}

/// Listing completeness: after uploads under two distinct filenames, the
/// store's key set holds both, and holds no name that was neither uploaded
/// nor present before.
pub proof fn lemma_listing_complete(
    m: Map<Seq<char>, Seq<u8>>,
    f1: Seq<char>,
    p1: Seq<u8>,
    f2: Seq<char>,
    p2: Seq<u8>,
)
    requires
        f1 != f2,
    ensures
        m.insert(f1, p1).insert(f2, p2).contains_key(f1),
        m.insert(f1, p1).insert(f2, p2).contains_key(f2),
        forall|k: Seq<char>|
            m.insert(f1, p1).insert(f2, p2).contains_key(k) ==> k == f1 || k == f2
                || m.contains_key(k),
{
}

/// Overwrite: uploading `p2` under a filename that previously held `p1`
/// makes every later download of it yield `p2`, never `p1`.
pub proof fn lemma_overwrite(
    m: Map<Seq<char>, Seq<u8>>,
    f: Seq<char>,
    p1: Seq<u8>,
    p2: Seq<u8>,
)
    ensures
        m.insert(f, p1).insert(f, p2)[f] == p2,
        p1 != p2 ==> m.insert(f, p1).insert(f, p2)[f] != p1,
{
}

/// First field only: a multipart upload stores nothing but its first
/// field. If after it some name holds the second field's bytes `p2`, then
/// either `p2` equals the first field's bytes or that name already held
/// `p2` before the upload — the second field itself was never persisted.
pub proof fn lemma_multipart_first_field_only(
    m: Map<Seq<char>, Seq<u8>>,
    f1: Seq<char>,
    p1: Seq<u8>,
    p2: Seq<u8>,
    k: Seq<char>,
)
    requires
        m.insert(f1, p1).contains_key(k),
        m.insert(f1, p1)[k] == p2,
    ensures
        p2 == p1 || (m.contains_key(k) && m[k] == p2),
{
}

} // verus!
