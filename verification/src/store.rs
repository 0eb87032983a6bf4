//! The asset store: pasted images saved under the name of their content, and
//! temporary or outside files committed to a project's assets.

use crate::error::PipelineError;
use crate::hasher::get_hash_filename;
use crate::hasher::hash_filename;
use crate::paths::classified;
use crate::paths::classify;
use crate::paths::extension;
use crate::paths::path_extension;
use crate::paths::temp_prefix;
use crate::paths::VirtualPath;
use crate::paths::VirtualPathView;
use crate::text::after_first;
use crate::text::split_first;
use base64::engine::general_purpose::STANDARD;
use base64::Engine;
use vstd::prelude::*;
use vstd::string::StringExecFns;

verus! {

/// The bytes that `text` stands for in standard, padded base64, as the
/// `base64` crate decodes it; `None` where it refuses the text.
pub uninterp spec fn base64_decoded(text: Seq<char>) -> Option<Seq<u8>>;

#[verifier::external_type_specification]
#[verifier::external_body]
pub struct ExDecodeError(base64::DecodeError);

/// Calls `Engine::decode` on `base64::engine::general_purpose::STANDARD`.
/// Trusted: whether the text is accepted, and the bytes it gives, depend on
/// the text alone.
#[verifier::external_body]
fn base64_decode(text: &str) -> (decoded: Result<Vec<u8>, base64::DecodeError>)
    ensures
        match decoded {
            Ok(bytes) => base64_decoded(text@) == Some(bytes@),
            Err(_) => base64_decoded(text@) is None,
        },
{
    STANDARD.decode(text)
}

/// Calls `to_string` on a `base64::DecodeError`: the decoder's own words.
/// Nothing is claimed of them.
#[verifier::external_body]
fn decode_error_text(e: &base64::DecodeError) -> (text: String) {
    e.to_string()
}

/// The base64 part of a pasted string: where there is a comma, as in a data
/// URI, all that follows the first one; else the string.
pub open spec fn base64_payload(data: Seq<char>) -> Seq<char> {
    if data.contains(',') {
        after_first(data, ',')
    } else {
        data
    }
}

/// The prefix of a committed asset's path, relative to its project.
pub open spec fn assets_prefix() -> Seq<char> {
    "assets/"@
}

/// The extension that an imported file is stored under: its own, or `bin`.
pub open spec fn import_extension(src_path: Seq<char>) -> Seq<char> {
    match path_extension(src_path) {
        Some(ext) => ext,
        None => "bin"@,
    }
}

/// The file name that importing `data`, read from `src_path`, is stored
/// under: the hash of the bytes with the file's extension.
pub open spec fn hashed_import_name(src_path: Seq<char>, data: Seq<u8>) -> Seq<char> {
    hash_filename(data, import_extension(src_path))
}

/// The project-relative path that importing `data`, read from `src_path`,
/// is stored under.
pub open spec fn imported_path(src_path: Seq<char>, data: Seq<u8>) -> Seq<char> {
    assets_prefix() + hashed_import_name(src_path, data)
}

/// Takes the base64 part out of a raw base64 string or a data URI.
pub fn payload_of(data: &str) -> (payload: &str)
    ensures
        payload@ == base64_payload(data@),
{
    match split_first(data, ',') {
        None => data,
        Some((_, rest)) => rest,
    }
}

/// A pasted image, ready to be stored.
#[derive(Debug)]
pub struct TempImage {
    /// The decoded bytes.
    pub bytes: Vec<u8>,
    /// The name of the file in the temporary directory.
    pub file_name: String,
    /// The virtual path under which the image is known from now on.
    pub virtual_path: String,
}

/// Names decoded bytes by their content: the file name is their hash with
/// the extension `png`, the virtual path that name behind the temporary
/// prefix.
pub fn name_temp_image(bytes: Vec<u8>) -> (image: TempImage)
    ensures
        image.bytes@ == bytes@,
        image.file_name@ == hash_filename(bytes@, "png"@),
        image.virtual_path@ == temp_prefix() + image.file_name@,
{
    let file_name = get_hash_filename(bytes.as_slice(), "png");
    let mut virtual_path = "_temp/".to_owned();
    virtual_path.append(file_name.as_str());
    TempImage { bytes, file_name, virtual_path }
}

/// Decodes a pasted image and names it by its content. The text is accepted
/// exactly where its base64 part decodes, and is then named as
/// [`name_temp_image`] names the decoded bytes.
pub fn save_temp_image(base64_data: &str) -> (saved: Result<TempImage, PipelineError>)
    ensures
        match saved {
            Ok(image) => {
                &&& base64_decoded(base64_payload(base64_data@)) == Some(image.bytes@)
                &&& image.file_name@ == hash_filename(image.bytes@, "png"@)
                &&& image.virtual_path@ == temp_prefix() + image.file_name@
            },
            Err(e) => {
                &&& base64_decoded(base64_payload(base64_data@)) is None
                &&& e@ is DecodeFailure
            },
        },
{
    let payload = payload_of(base64_data);
    match base64_decode(payload) {
        Ok(bytes) => Ok(name_temp_image(bytes)),
        Err(e) => Err(PipelineError::DecodeFailure(decode_error_text(&e))),
    }
}

/// Whether a content-addressed file is written: only where none of that
/// name exists yet, since a file of that name holds those bytes already.
pub open spec fn is_write_needed(already_exists: bool) -> bool {
    !already_exists
}

/// Decides whether a content-addressed file is written.
pub fn write_needed(already_exists: bool) -> (needed: bool)
    ensures
        needed == is_write_needed(already_exists),
{
    !already_exists
}

/// An outside file, named for the asset store.
#[derive(Debug)]
pub struct ImportedAsset {
    /// The name of the file in the assets directory.
    pub file_name: String,
    /// The path of the asset relative to its project.
    pub relative_path: String,
}

/// Names an outside file for the asset store by the hash of its bytes and
/// its own extension, `bin` where it has none.
pub fn import_external_file(src_path: &str, data: &[u8]) -> (asset: ImportedAsset)
    ensures
        asset.file_name@ == hashed_import_name(src_path@, data@),
        asset.relative_path@ == imported_path(src_path@, data@),
{
    let file_name = match extension(src_path) {
        Some(ext) => get_hash_filename(data, ext.as_str()),
        None => get_hash_filename(data, "bin"),
    };
    let mut relative_path = "assets/".to_owned();
    relative_path.append(file_name.as_str());
    ImportedAsset { file_name, relative_path }
}

/// What committing one path asks of the filesystem.
#[derive(Debug)]
pub enum CommitStep {
    /// Bring the temporary file of this name into the assets directory.
    MoveTemp { file_name: String },
    /// Import the file at this absolute path, where it exists.
    ImportIfExists { path: String },
    /// Nothing: the path is kept as it is.
    Keep,
}

/// The mathematical form of a [`CommitStep`].
pub ghost enum CommitStepView {
    MoveTemp { file_name: Seq<char> },
    ImportIfExists { path: Seq<char> },
    Keep,
}

impl View for CommitStep {
    type V = CommitStepView;

    open spec fn view(&self) -> CommitStepView {
        match self {
            CommitStep::MoveTemp { file_name } => CommitStepView::MoveTemp { file_name: file_name@ },
            CommitStep::ImportIfExists { path } => CommitStepView::ImportIfExists { path: path@ },
            CommitStep::Keep => CommitStepView::Keep,
        }
    }
}

/// The step that a path asks for, by its variant.
pub open spec fn commit_step_of(path: Seq<char>) -> CommitStepView {
    match classified(path) {
        VirtualPathView::Temp(name) => CommitStepView::MoveTemp { file_name: name },
        VirtualPathView::Absolute(p) => CommitStepView::ImportIfExists { path: p },
        VirtualPathView::ProjectRelative(_) => CommitStepView::Keep,
    }
}

/// Decides what committing `path` asks of the filesystem.
pub fn commit_step(path: &str) -> (step: CommitStep)
    ensures
        step@ == commit_step_of(path@),
{
    match classify(path) {
        VirtualPath::Temp(name) => CommitStep::MoveTemp { file_name: name },
        VirtualPath::Absolute(p) => CommitStep::ImportIfExists { path: p },
        VirtualPath::ProjectRelative(_) => CommitStep::Keep,
    }
}

/// How a temporary file reaches the assets directory.
#[derive(Clone, Copy, Debug, PartialEq, Eq, Structural)]
pub enum TempTransfer {
    /// Rename the source to the destination; where that fails, copy it and
    /// delete the source.
    Move,
    /// The destination is there already: delete the source.
    DropSource,
    /// The source is gone: nothing to do.
    Nothing,
}

/// The transfer for a temporary file, from whether its source and its
/// destination exist.
pub open spec fn transfer_of(source_exists: bool, dest_exists: bool) -> TempTransfer {
    if !source_exists {
        TempTransfer::Nothing
    } else if dest_exists {
        TempTransfer::DropSource
    } else {
        TempTransfer::Move
    }
}

/// The temporary directory and the assets directory once the file `name`
/// was transferred: a move takes it from the first to the second, a
/// redundant source is dropped, and a missing one changes nothing.
pub open spec fn after_transfer(
    temp: Map<Seq<char>, Seq<u8>>,
    assets: Map<Seq<char>, Seq<u8>>,
    name: Seq<char>,
) -> (Map<Seq<char>, Seq<u8>>, Map<Seq<char>, Seq<u8>>) {
    match transfer_of(temp.contains_key(name), assets.contains_key(name)) {
        TempTransfer::Move => (temp.remove(name), assets.insert(name, temp[name])),
        TempTransfer::DropSource => (temp.remove(name), assets),
        TempTransfer::Nothing => (temp, assets),
    }
}

/// Decides how a temporary file reaches the assets directory.
pub fn temp_transfer(source_exists: bool, dest_exists: bool) -> (transfer: TempTransfer)
    ensures
        transfer == transfer_of(source_exists, dest_exists),
{
    if !source_exists {
        TempTransfer::Nothing
    } else if dest_exists {
        TempTransfer::DropSource
    } else {
        TempTransfer::Move
    }
}

/// What carrying out the step of one item came to.
#[derive(Debug)]
pub enum ItemResult {
    /// The step was carried out, or there was nothing to do.
    Settled,
    /// The outside file was imported, under this project-relative path.
    Imported(String),
    /// The step failed, for this reason.
    Failed(String),
}

/// The mathematical form of an [`ItemResult`].
pub ghost enum ItemResultView {
    Settled,
    Imported(Seq<char>),
    Failed(Seq<char>),
}

impl View for ItemResult {
    type V = ItemResultView;

    open spec fn view(&self) -> ItemResultView {
        match self {
            ItemResult::Settled => ItemResultView::Settled,
            ItemResult::Imported(relative) => ItemResultView::Imported(relative@),
            ItemResult::Failed(reason) => ItemResultView::Failed(reason@),
        }
    }
}

/// The reason given where the outside file could not be read.
pub open spec fn read_error_of(cause: Seq<char>) -> Seq<char> {
    "Read error: "@ + cause
}

/// The reason given where the asset could not be written.
pub open spec fn write_error_of(cause: Seq<char>) -> Seq<char> {
    "Write error: "@ + cause
}

/// Builds the reason of a failed read from the system's message.
pub fn read_error(cause: &str) -> (reason: String)
    ensures
        reason@ == read_error_of(cause@),
{
    let mut reason = "Read error: ".to_owned();
    reason.append(cause);
    reason
}

/// Builds the reason of a failed write from the system's message.
pub fn write_error(cause: &str) -> (reason: String)
    ensures
        reason@ == write_error_of(cause@),
{
    let mut reason = "Write error: ".to_owned();
    reason.append(cause);
    reason
}

/// The path that a committed item is known by afterwards: a temporary path
/// becomes the asset path of the same file name, unless its transfer
/// failed; an absolute path becomes the path of its import, where there was
/// one; every other item keeps its path.
pub open spec fn committed(path: Seq<char>, result: ItemResultView) -> Seq<char> {
    match classified(path) {
        VirtualPathView::Temp(name) => if result is Failed {
            path
        } else {
            assets_prefix() + name
        },
        VirtualPathView::Absolute(_) => match result {
            ItemResultView::Imported(relative) => relative,
            _ => path,
        },
        VirtualPathView::ProjectRelative(_) => path,
    }
}

/// The result that belongs to item `i`; settled where the list is shorter.
pub open spec fn result_at(results: Seq<ItemResult>, i: int) -> ItemResultView {
    if 0 <= i < results.len() {
        results[i]@
    } else {
        ItemResultView::Settled
    }
}

/// The path that one committed item is known by afterwards.
pub fn commit_output(path: &str, result: &ItemResult) -> (output: String)
    ensures
        output@ == committed(path@, result@),
{
    match classify(path) {
        VirtualPath::Temp(name) => match result {
            ItemResult::Failed(_) => path.to_owned(),
            _ => {
                let mut output = "assets/".to_owned();
                output.append(name.as_str());
                output
            },
        },
        VirtualPath::Absolute(p) => match result {
            ItemResult::Imported(relative) => relative.clone(),
            _ => p,
        },
        VirtualPath::ProjectRelative(p) => p,
    }
}

/// The output list of a commit: one path per input path, in the input's
/// order. `results` holds, by position, what the step of each item came to.
pub fn commit_assets(runtime_paths: &Vec<String>, results: &Vec<ItemResult>) -> (outputs: Vec<
    String,
>)
    ensures
        outputs@.len() == runtime_paths@.len(),
        forall|i: int|
            0 <= i < runtime_paths@.len() ==> (#[trigger] outputs@[i])@ == committed(
                runtime_paths@[i]@,
                result_at(results@, i),
            ),
{
    let mut outputs: Vec<String> = Vec::new();
    let mut i: usize = 0;
    while i < runtime_paths.len()
        invariant
            0 <= i <= runtime_paths@.len(),
            outputs@.len() == i,
            forall|k: int|
                0 <= k < i ==> (#[trigger] outputs@[k])@ == committed(
                    runtime_paths@[k]@,
                    result_at(results@, k),
                ),
        decreases runtime_paths@.len() - i,
    {
        let output = if i < results.len() {
            commit_output(runtime_paths[i].as_str(), &results[i])
        } else {
            commit_output(runtime_paths[i].as_str(), &ItemResult::Settled)
        };
        outputs.push(output);
        i += 1;
    }
    outputs
}

/// A content-addressed directory after `bytes` were saved under `name`:
/// the file is added where it was missing, and nothing changes where a file
/// of that name was there.
pub open spec fn stored(files: Map<Seq<char>, Seq<u8>>, name: Seq<char>, bytes: Seq<u8>) -> Map<
    Seq<char>,
    Seq<u8>,
> {
    if is_write_needed(files.contains_key(name)) {
        files.insert(name, bytes)
    } else {
        files
    }
}

/// Saving the same bytes twice is saving them once: the name is the same,
/// the second save writes nothing and leaves the directory as the first
/// left it, and a file that was there before keeps its contents.
pub proof fn lemma_save_is_idempotent(files: Map<Seq<char>, Seq<u8>>, bytes: Seq<u8>)
    ensures
        ({
            let name = hash_filename(bytes, "png"@);
            let once = stored(files, name, bytes);
            &&& once.contains_key(name)
            &&& !is_write_needed(once.contains_key(name))
            &&& stored(once, name, bytes) == once
            &&& files.contains_key(name) ==> once[name] == files[name]
            &&& !files.contains_key(name) ==> once[name] == bytes
        }),
{
}

/// Committing a temporary file again changes nothing: after the first
/// transfer the file is gone from the temporary directory, the next
/// transfer finds nothing to do, and both directories stay as they are. A
/// file that either directory held is in the assets afterwards, and one
/// that the assets held keeps its contents.
pub proof fn lemma_transfer_is_idempotent(
    temp: Map<Seq<char>, Seq<u8>>,
    assets: Map<Seq<char>, Seq<u8>>,
    name: Seq<char>,
)
    ensures
        ({
            let (temp_after, assets_after) = after_transfer(temp, assets, name);
            &&& !temp_after.contains_key(name)
            &&& transfer_of(temp_after.contains_key(name), assets_after.contains_key(name))
                == TempTransfer::Nothing
            &&& after_transfer(temp_after, assets_after, name) == (temp_after, assets_after)
            &&& (temp.contains_key(name) || assets.contains_key(name))
                ==> assets_after.contains_key(name)
            &&& assets.contains_key(name) ==> assets_after[name] == assets[name]
            &&& !assets.contains_key(name) && temp.contains_key(name) ==> assets_after[name]
                == temp[name]
        }),
{
}

/// A second commit of the same paths answers as the first did: the path
/// that an item is known by does not depend on what the filesystem held,
/// but only on whether its step failed and, for an absolute path, on
/// whether and as what it was imported.
pub proof fn lemma_commit_output_is_repeatable(
    path: Seq<char>,
    first: ItemResultView,
    second: ItemResultView,
)
    ensures
        classified(path) is ProjectRelative ==> committed(path, first) == committed(path, second),
        classified(path) is Temp && !(first is Failed) && !(second is Failed) ==> committed(
            path,
            first,
        ) == committed(path, second),
        first == second ==> committed(path, first) == committed(path, second),
{
}

/// A pasted image that is committed ends among the assets: the virtual
/// path it was saved under is a temporary one of its file name, committing
/// it answers with the asset path of that name, and once its file was
/// transferred it is gone from the temporary directory and held by the
/// assets, with the saved bytes where the assets had no file of that name.
pub proof fn lemma_saved_image_commits_to_assets(
    bytes: Seq<u8>,
    temp: Map<Seq<char>, Seq<u8>>,
    assets: Map<Seq<char>, Seq<u8>>,
)
    ensures
        ({
            let name = hash_filename(bytes, "png"@);
            let saved = stored(temp, name, bytes);
            let (temp_after, assets_after) = after_transfer(saved, assets, name);
            &&& commit_step_of(temp_prefix() + name) == (CommitStepView::MoveTemp {
                file_name: name,
            })
            &&& committed(temp_prefix() + name, ItemResultView::Settled) == assets_prefix() + name
            &&& !temp_after.contains_key(name)
            &&& assets_after.contains_key(name)
            &&& !temp.contains_key(name) && !assets.contains_key(name) ==> assets_after[name]
                == bytes
        }),
{
    let name = hash_filename(bytes, "png"@);
    let path = temp_prefix() + name;
    assert(path.subrange(0, temp_prefix().len() as int) =~= temp_prefix());
    assert(temp_prefix().is_prefix_of(path));
    assert(path.skip(temp_prefix().len() as int) =~= name);
}

} // verus!
