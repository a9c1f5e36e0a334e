//! The result cache: where a completed envelope is kept, and with what
//! contents.
//!
//! The cache has one directory per identity and, in it, one file per query.
//! The file is named by the query id as the caller gave it and holds the
//! response body as it was received. This module names the place and the
//! contents; writing the file is left to the caller.

use vstd::prelude::*;

verus! {

/// The cache's root below a home directory.
pub open spec fn cache_root_of(home: Seq<char>) -> Seq<char> {
    home + "/.duners/cache"@
}

/// The directory of an identity below a cache root.
pub open spec fn directory_of(root: Seq<char>, identity: Seq<char>) -> Seq<char> {
    root + "/"@ + identity
}

/// The file of a query below a cache root.
pub open spec fn entry_path_of(root: Seq<char>, identity: Seq<char>, key: Seq<char>) -> Seq<
    char,
> {
    directory_of(root, identity) + "/"@ + key
}

/// One write to the cache: the full contents of the file of `key` in the
/// directory of `identity`, replacing what the file held.
#[derive(Debug)]
pub struct CacheWrite {
    pub identity: String,
    pub key: String,
    pub contents: String,
}

/// What a `CacheWrite` holds, as mathematical values.
pub struct CacheWriteView {
    pub identity: Seq<char>,
    pub key: Seq<char>,
    pub contents: Seq<char>,
}

impl View for CacheWrite {
    type V = CacheWriteView;

    open spec fn view(&self) -> CacheWriteView {
        CacheWriteView { identity: self.identity@, key: self.key@, contents: self.contents@ }
    }
}

/// The cache's root below a home directory.
pub fn cache_root(home: &str) -> (root: String)
    ensures
        root@ == cache_root_of(home@),
{
    home.to_owned().concat("/.duners/cache")
}

/// The file of a query below a cache root.
pub fn entry_path(root: &str, identity: &str, key: &str) -> (path: String)
    ensures
        path@ == entry_path_of(root@, identity@, key@),
{
    root.to_owned().concat("/").concat(identity).concat("/").concat(key)
}

impl CacheWrite {
    /// The directory that has to exist before the file is written.
    pub fn directory(&self, root: &str) -> (path: String)
        ensures
            path@ == directory_of(root@, self@.identity),
    {
        root.to_owned().concat("/").concat(self.identity.as_str())
    }

    /// The file that is written.
    pub fn path(&self, root: &str) -> (path: String)
        ensures
            path@ == entry_path_of(root@, self@.identity, self@.key),
    {
        entry_path(root, self.identity.as_str(), self.key.as_str())
    }
}

/// A file lies in the directory of its identity: its path is the directory's,
/// a separator and the key.
pub proof fn entry_lies_in_directory(root: Seq<char>, identity: Seq<char>, key: Seq<char>)
    ensures
        entry_path_of(root, identity, key).len() == directory_of(root, identity).len() + 1
            + key.len(),
        entry_path_of(root, identity, key).subrange(0, directory_of(root, identity).len() as int)
            == directory_of(root, identity),
        entry_path_of(root, identity, key).subrange(
            directory_of(root, identity).len() as int + 1,
            entry_path_of(root, identity, key).len() as int,
        ) == key,
{
    reveal_strlit("/");
    let dir = directory_of(root, identity);
    let path = entry_path_of(root, identity, key);
    assert(path.subrange(0, dir.len() as int) =~= dir);
    assert(path.subrange(dir.len() as int + 1, path.len() as int) =~= key);
}

/// Under one identity, two queries share a file only if they have the same
/// id: writes for different queries never meet.
pub proof fn distinct_queries_distinct_files(
    root: Seq<char>,
    identity: Seq<char>,
    first: Seq<char>,
    second: Seq<char>,
)
    requires
        first != second,
    ensures
        entry_path_of(root, identity, first) != entry_path_of(root, identity, second),
{
    entry_lies_in_directory(root, identity, first);
    entry_lies_in_directory(root, identity, second);
}

/// Below one cache root, two identities share a directory only if they are the
/// same identity.
pub proof fn distinct_identities_distinct_directories(
    root: Seq<char>,
    first: Seq<char>,
    second: Seq<char>,
)
    requires
        first != second,
    ensures
        directory_of(root, first) != directory_of(root, second),
{
    let prefix = root + "/"@;
    assert(directory_of(root, first).subrange(
        prefix.len() as int,
        directory_of(root, first).len() as int,
    ) =~= first);
    assert(directory_of(root, second).subrange(
        prefix.len() as int,
        directory_of(root, second).len() as int,
    ) =~= second);
}

} // verus!
