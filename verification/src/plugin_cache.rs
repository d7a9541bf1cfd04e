//! A directory that caches compiled plugins, one subdirectory per plugin
//! with a `versions.txt` in it.  The file-system work happens around this
//! module; here stand the paths and the decisions.
use vstd::prelude::*;
use crate::binary_manager::{joined_path, join_path};

verus! {

/// Why the cache could not do what was asked.
#[derive(Clone, Copy, Debug, PartialEq, Eq, Structural)]
pub enum Error {
    /// The file system refused an operation.
    FileSystem,
    /// A plugin of that name is already cached.
    PluginExists,
}

/// The cache in the directory `root`.
pub struct PluginCache {
    root: String,
}

impl PluginCache {
    pub closed spec fn spec_root(&self) -> Seq<char> {
        self.root@
    }

    /// The cache in `root`, once the directory exists.
    pub fn new(root: String) -> (c: PluginCache)
        ensures
            c.spec_root() == root@,
    {
        PluginCache { root }
    }

    /// The cache's directory.
    pub fn root(&self) -> (r: &str)
        ensures
            r@ == self.spec_root(),
    {
        self.root.as_str()
    }

    /// The directory of the plugin `name`.
    pub fn plugin_dir(&self, name: &str) -> (p: String)
        ensures
            p@ == joined_path(self.spec_root(), name@),
    {
        join_path(self.root.as_str(), name)
    }

    /// The list of versions in a plugin's directory `plugin_dir`.
    pub fn versions_file(&self, plugin_dir: &str) -> (p: String)
        ensures
            p@ == joined_path(plugin_dir@, "versions.txt"@),
    {
        join_path(plugin_dir, "versions.txt")
    }
}

/// Whether a plugin may be added: not where its directory exists already.
pub fn check_new_plugin(dir_exists: bool) -> (r: Result<(), Error>)
    ensures
        dir_exists ==> r == Err::<(), Error>(Error::PluginExists),
        !dir_exists ==> r is Ok,
{
    if dir_exists {
        Err(Error::PluginExists)
    } else {
        Ok(())
    }
}

} // verus!
