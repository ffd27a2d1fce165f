//! What holds of every root and every path, proved from the definitions that
//! the contracts of [`RootPath`] are stated in.

use crate::decimal::decimal;
use crate::path::PathAddressView;
use crate::relative::RelativePath;
use crate::root::{root_of, RootPath};
use vstd::prelude::*;

verus! {

/// Joining and stripping are inverse: for every root and every relative path,
/// the address that `join` gives lies below the root, so that `relative`
/// accepts it, and `relative` gives the path back, segment for segment.
pub proof fn lemma_relative_inverts_join(root: RootPath, path: RelativePath)
    requires
        root.wf(),
    ensures
        root@.join(path@).starts_with(root@),
        root@.join(path@).after(root@) == path@,
{
    let joined = root@.join(path@);
    assert(root@.directories =~= joined.directories.subrange(0, root@.directories.len() as int));
    assert(joined.after(root@) =~= path@);
}

/// Every address that the root of a database gives out begins with exactly
/// the server's identifier and the database's name, whatever the path, and
/// names no file.
pub proof fn lemma_join_begins_with_scope(
    root: RootPath,
    server_id: u32,
    database_name: Seq<char>,
    path: RelativePath,
)
    requires
        root@ == root_of(server_id, database_name),
    ensures
        root@.join(path@).segments().take(2) == seq![decimal(server_id as nat), database_name],
        root@.join(path@).segments() == seq![decimal(server_id as nat), database_name] + path@,
        root@.join(path@).starts_with(root@),
{
    let joined = root@.join(path@);
    let scope = seq![decimal(server_id as nat), database_name];
    assert(root@.directories =~= scope);
    assert(joined.segments() =~= scope + path@);
    assert(joined.segments().take(2) =~= scope);
    assert(root@.directories =~= joined.directories.subrange(0, root@.directories.len() as int));
}

/// An address below a root is found again from its relative path: joining
/// what `relative` gives for it leads to the same segments. Only the mark of
/// the last segment as a file is not kept, since `join` adds directories.
pub proof fn lemma_join_restores_segments(root: RootPath, address: PathAddressView)
    requires
        root.wf(),
        address.starts_with(root@),
    ensures
        root@.join(address.after(root@)).segments() == address.segments(),
        root@.join(address.after(root@)).starts_with(root@),
{
    let rest = address.after(root@);
    let joined = root@.join(rest);
    assert(root@.directories =~= address.directories.subrange(0, root@.directories.len() as int));
    assert(joined.segments() =~= address.segments());
    assert(root@.directories =~= joined.directories.subrange(0, root@.directories.len() as int));
}

} // verus!
