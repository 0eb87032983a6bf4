//! Virtual paths: how a path string is classified, and which real file it
//! stands for.

use crate::text::strip_prefix;
use std::path::Path;
use vstd::prelude::*;

verus! {

/// Whether `std::path::Path::is_absolute` holds of `path` on the platform
/// the crate is built for.
pub uninterp spec fn path_is_absolute(path: Seq<char>) -> bool;

/// What `std::path::Path::join` makes of `base` and `rel`.
pub uninterp spec fn path_joined(base: Seq<char>, rel: Seq<char>) -> Seq<char>;

/// What `std::path::Path::extension` finds in `path`.
pub uninterp spec fn path_extension(path: Seq<char>) -> Option<Seq<char>>;

/// The marker that a temporary virtual path begins with.
pub open spec fn temp_prefix() -> Seq<char> {
    "_temp/"@
}

/// The view of an optional string.
pub open spec fn opt_text(s: Option<String>) -> Option<Seq<char>> {
    match s {
        Some(t) => Some(t@),
        None => None,
    }
}

/// Calls `Path::is_absolute`. Trusted: the answer depends on the path's text
/// alone.
#[verifier::external_body]
pub(crate) fn is_absolute(path: &str) -> (absolute: bool)
    ensures
        absolute == path_is_absolute(path@),
{
    Path::new(path).is_absolute()
}

/// Calls `Path::join`. Trusted: the joined path depends on the two texts
/// alone.
#[verifier::external_body]
pub(crate) fn join(base: &str, rel: &str) -> (joined: String)
    ensures
        joined@ == path_joined(base@, rel@),
{
    Path::new(base).join(rel).to_string_lossy().into_owned()
}

/// Calls `Path::extension`. Trusted: the extension, or its absence, depends
/// on the path's text alone.
#[verifier::external_body]
pub(crate) fn extension(path: &str) -> (ext: Option<String>)
    ensures
        opt_text(ext) == path_extension(path@),
{
    Path::new(path).extension().and_then(|e| e.to_str()).map(|e| e.to_owned())
}

/// A path string as the pipeline understands it.
#[derive(Debug)]
pub enum VirtualPath {
    /// A file of the process-wide temporary store, by its name there.
    Temp(String),
    /// A path below a project root that the caller supplies.
    ProjectRelative(String),
    /// A path of the filesystem itself.
    Absolute(String),
}

/// The mathematical form of a [`VirtualPath`].
pub ghost enum VirtualPathView {
    Temp(Seq<char>),
    ProjectRelative(Seq<char>),
    Absolute(Seq<char>),
}

impl View for VirtualPath {
    type V = VirtualPathView;

    open spec fn view(&self) -> VirtualPathView {
        match self {
            VirtualPath::Temp(name) => VirtualPathView::Temp(name@),
            VirtualPath::ProjectRelative(rel) => VirtualPathView::ProjectRelative(rel@),
            VirtualPath::Absolute(path) => VirtualPathView::Absolute(path@),
        }
    }
}

/// The variant of a path string: the temporary prefix is looked for first,
/// then absoluteness; what is left is relative to a project.
pub open spec fn classified(path: Seq<char>) -> VirtualPathView {
    if temp_prefix().is_prefix_of(path) {
        VirtualPathView::Temp(path.skip(temp_prefix().len() as int))
    } else if path_is_absolute(path) {
        VirtualPathView::Absolute(path)
    } else {
        VirtualPathView::ProjectRelative(path)
    }
}

/// The real path that a virtual path stands for, given the temporary
/// directory, the project root if any, and whether the string itself names
/// an existing file.
pub open spec fn resolved(
    temp_dir: Seq<char>,
    path: Seq<char>,
    project_root: Option<Seq<char>>,
    exists_on_disk: bool,
) -> Option<Seq<char>> {
    match classified(path) {
        VirtualPathView::Temp(name) => Some(path_joined(temp_dir, name)),
        VirtualPathView::ProjectRelative(rel) if project_root is Some => Some(
            path_joined(project_root->0, rel),
        ),
        _ => if exists_on_disk {
            Some(path)
        } else {
            None
        },
    }
}

/// The directory of pasted images below the cache root.
pub fn get_temp_dir(cache_root: &str) -> (dir: String)
    ensures
        dir@ == path_joined(cache_root@, "temp_images"@),
{
    join(cache_root, "temp_images")
}

/// The directory of generated thumbnails below the cache root.
pub fn get_thumb_cache_dir(cache_root: &str) -> (dir: String)
    ensures
        dir@ == path_joined(cache_root@, "thumbs"@),
{
    join(cache_root, "thumbs")
}

/// The directory of committed assets below a project root.
pub fn get_assets_dir(project_root: &str) -> (dir: String)
    ensures
        dir@ == path_joined(project_root@, "assets"@),
{
    join(project_root, "assets")
}

/// Classifies a path string.
pub fn classify(path: &str) -> (kind: VirtualPath)
    ensures
        kind@ == classified(path@),
{
    match strip_prefix(path, "_temp/") {
        Some(name) => VirtualPath::Temp(name.to_owned()),
        None => {
            if is_absolute(path) {
                VirtualPath::Absolute(path.to_owned())
            } else {
                VirtualPath::ProjectRelative(path.to_owned())
            }
        },
    }
}

/// Resolves a virtual path to a real one. `exists_on_disk` says whether
/// `path_str`, taken as it stands, names an existing file; it is consulted
/// only where neither the temporary prefix nor a project root decides.
pub fn resolve_real_path(
    temp_dir: &str,
    path_str: &str,
    project_root: Option<String>,
    exists_on_disk: bool,
) -> (target: Option<String>)
    ensures
        opt_text(target) == resolved(temp_dir@, path_str@, opt_text(project_root), exists_on_disk),
{
    match classify(path_str) {
        VirtualPath::Temp(name) => Some(join(temp_dir, name.as_str())),
        VirtualPath::ProjectRelative(rel) => match project_root {
            Some(root) => Some(join(root.as_str(), rel.as_str())),
            None => if exists_on_disk {
                Some(rel)
            } else {
                None
            },
        },
        VirtualPath::Absolute(path) => if exists_on_disk {
            Some(path)
        } else {
            None
        },
    }
}

/// A temporary path resolves below the temporary directory whatever the
/// project root and whatever exists on disk.
pub proof fn lemma_temp_takes_precedence(
    temp_dir: Seq<char>,
    path: Seq<char>,
    root_a: Option<Seq<char>>,
    root_b: Option<Seq<char>>,
    exists_a: bool,
    exists_b: bool,
)
    requires
        temp_prefix().is_prefix_of(path),
    ensures
        resolved(temp_dir, path, root_a, exists_a) == resolved(temp_dir, path, root_b, exists_b),
        resolved(temp_dir, path, root_a, exists_a) == Some(
            path_joined(temp_dir, path.skip(temp_prefix().len() as int)),
        ),
{
}

/// An absolute path that is not temporary never joins the project root: it
/// resolves to itself where it exists, and to nothing where it does not.
pub proof fn lemma_absolute_ignores_root(
    temp_dir: Seq<char>,
    path: Seq<char>,
    project_root: Option<Seq<char>>,
    exists_on_disk: bool,
)
    requires
        !temp_prefix().is_prefix_of(path),
        path_is_absolute(path),
    ensures
        resolved(temp_dir, path, project_root, exists_on_disk) == (if exists_on_disk {
            Some(path)
        } else {
            None
        }),
{
}

/// A relative path that is not temporary joins the project root where one is
/// given, whatever exists on disk; without a root it resolves only where it
/// exists.
pub proof fn lemma_relative_follows_root(
    temp_dir: Seq<char>,
    path: Seq<char>,
    project_root: Option<Seq<char>>,
    exists_on_disk: bool,
)
    requires
        !temp_prefix().is_prefix_of(path),
        !path_is_absolute(path),
    ensures
        project_root is Some ==> resolved(temp_dir, path, project_root, exists_on_disk) == Some(
            path_joined(project_root->0, path),
        ),
        project_root is None ==> resolved(temp_dir, path, project_root, exists_on_disk) == (
        if exists_on_disk {
            Some(path)
        } else {
            None
        }),
{
}

} // verus!
