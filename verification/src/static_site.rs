//! The static-asset server's decisions: whether to start at all, and
//! which document a request is answered with under single-page-application
//! fallback. The filesystem checks and the file serving itself happen
//! outside the library and hand it plain values.

use vstd::prelude::*;

verus! {

/// What the static-asset server does at startup.
#[derive(Clone, Copy, Debug, PartialEq, Eq, Structural)]
pub enum StaticStartup {
    /// The asset directory does not exist: exit successfully without
    /// binding; a separate development tool serves the assets instead.
    SkipWithoutAssets,
    /// The directory exists but its index document is missing: a fatal
    /// configuration error for this server instance.
    FailMissingIndex,
    /// Directory and index document are both present: bind and serve.
    Serve,
}

/// The startup decision, from what the filesystem answered about the
/// asset directory and its index document.
pub fn static_startup_decision(dir_exists: bool, index_exists: bool) -> (d: StaticStartup)
    ensures
        !dir_exists ==> d is SkipWithoutAssets,
        dir_exists && !index_exists ==> d is FailMissingIndex,
        dir_exists && index_exists ==> d is Serve,
{
    if !dir_exists {
        StaticStartup::SkipWithoutAssets
    } else if !index_exists {
        StaticStartup::FailMissingIndex
    } else {
        StaticStartup::Serve
    }
}

/// Which document answers a request.
#[derive(Clone, Copy, Debug, PartialEq, Eq, Structural)]
pub enum ServeSource {
    /// The file the path names.
    AssetFile,
    /// The root index document, so client-side routes never miss.
    IndexFallback,
}

/// Whether some asset of the tree has exactly this path.
pub open spec fn tree_has_path(assets: Seq<String>, path: Seq<char>) -> bool {
    exists|i: int| 0 <= i < assets.len() && assets[i]@ == path
}

/// The single-page-application fallback rule: a request whose path names
/// an existing asset is answered with that file, and any other request,
/// client-side routes and missing files alike, is answered with the index
/// document.
pub fn resolve_request(assets: &Vec<String>, path: &String) -> (src: ServeSource)
    ensures
        src is AssetFile <==> tree_has_path(assets@, path@),
        src is IndexFallback <==> !tree_has_path(assets@, path@),
{
    let n = assets.len();
    let mut i: usize = 0;
    while i < n
        invariant
            i <= n,
            n == assets@.len(),
            forall|j: int| 0 <= j < i ==> (#[trigger] assets@[j])@ != path@,
        decreases n - i,
    {
        if assets[i] == *path {
            return ServeSource::AssetFile;
        }
        i = i + 1;
    }
    ServeSource::IndexFallback
}

} // verus!
