//! The commit of one path as a sequence of steps: each step takes what the
//! filesystem answered and says what to ask of it next, or what the item
//! came to.

use crate::store::commit_step;
use crate::store::commit_step_of;
use crate::store::import_external_file;
use crate::store::imported_path;
use crate::store::hashed_import_name;
use crate::store::is_write_needed;
use crate::store::read_error;
use crate::store::read_error_of;
use crate::store::temp_transfer;
use crate::store::transfer_of;
use crate::store::write_error;
use crate::store::write_error_of;
use crate::store::write_needed;
use crate::store::CommitStep;
use crate::store::CommitStepView;
use crate::store::ImportedAsset;
use crate::store::ItemResult;
use crate::store::ItemResultView;
use crate::store::TempTransfer;
use vstd::prelude::*;

verus! {

/// Where the commit of an item stands, and so which answer it waits for.
#[derive(Debug)]
pub enum CommitState {
    /// The item was not looked at yet.
    Start,
    /// Source and destination of the temporary file are being looked for.
    ProbingTemp { file_name: String },
    /// The temporary file is being transferred in this way.
    Transferring { transfer: TempTransfer },
    /// The outside file is being looked for.
    ProbingSource,
    /// The outside file is being read.
    ReadingSource,
    /// The asset's file is being looked for; its bytes are held here.
    ProbingAsset { asset: ImportedAsset, data: Vec<u8> },
    /// The asset's file is being written with the bytes held here.
    WritingAsset { relative_path: String, data: Vec<u8> },
}

/// What the filesystem answered.
#[derive(Debug)]
pub enum CommitEvent {
    /// Nothing yet: the commit of the item begins.
    Begin,
    /// Whether the temporary file and its destination exist.
    TempProbed { source_exists: bool, dest_exists: bool },
    /// Whether the file asked for exists.
    Exists(bool),
    /// The bytes that were read, or why they were not.
    Read(Result<Vec<u8>, String>),
    /// That the transfer or the write was done, or why it was not.
    Finished(Result<(), String>),
}

/// What to ask of the filesystem next.
#[derive(Debug)]
pub enum CommitAction {
    /// Look for this file in the temporary directory and in the assets;
    /// answer with `TempProbed`.
    ProbeTemp { file_name: String },
    /// Transfer this temporary file in this way; answer with `Finished`.
    Transfer { file_name: String, transfer: TempTransfer },
    /// Look for the outside file at the item's path; answer with `Exists`.
    ProbeSource,
    /// Read the outside file; answer with `Read`.
    ReadSource,
    /// Look for this file in the assets; answer with `Exists`.
    ProbeAsset { file_name: String },
    /// Write the bytes that the state holds to this file in the assets;
    /// answer with `Finished`.
    WriteAsset { file_name: String },
}

/// How the commit of an item goes on.
#[derive(Debug)]
pub enum CommitItemStep {
    /// Carry out the action, then step again from the state with the answer.
    Next { state: CommitState, action: CommitAction },
    /// The item is done, with this result.
    Done(ItemResult),
}

/// Whether `step` ends the item with this result.
pub open spec fn ends_with(step: CommitItemStep, result: ItemResultView) -> bool {
    match step {
        CommitItemStep::Done(r) => r@ == result,
        _ => false,
    }
}

/// Whether `step` goes on by looking for this temporary file.
pub open spec fn probes_temp(step: CommitItemStep, name: Seq<char>) -> bool {
    match step {
        CommitItemStep::Next {
            state: CommitState::ProbingTemp { file_name },
            action: CommitAction::ProbeTemp { file_name: asked },
        } => file_name@ == name && asked@ == name,
        _ => false,
    }
}

/// Whether `step` goes on by transferring this temporary file in this way.
pub open spec fn transfers(step: CommitItemStep, name: Seq<char>, how: TempTransfer) -> bool {
    match step {
        CommitItemStep::Next {
            state: CommitState::Transferring { transfer: awaited },
            action: CommitAction::Transfer { file_name, transfer },
        } => file_name@ == name && transfer == how && awaited == how,
        _ => false,
    }
}

/// Whether `step` goes on by looking for the outside file.
pub open spec fn probes_source(step: CommitItemStep) -> bool {
    match step {
        CommitItemStep::Next {
            state: CommitState::ProbingSource,
            action: CommitAction::ProbeSource,
        } => true,
        _ => false,
    }
}

/// Whether `step` goes on by reading the outside file.
pub open spec fn reads_outside(step: CommitItemStep) -> bool {
    match step {
        CommitItemStep::Next {
            state: CommitState::ReadingSource,
            action: CommitAction::ReadSource,
        } => true,
        _ => false,
    }
}

/// Whether `step` goes on by looking for the asset that `bytes`, read from
/// `path`, are stored as, and holds the bytes meanwhile.
pub open spec fn probes_asset(step: CommitItemStep, path: Seq<char>, bytes: Seq<u8>) -> bool {
    match step {
        CommitItemStep::Next {
            state: CommitState::ProbingAsset { asset, data },
            action: CommitAction::ProbeAsset { file_name },
        } => {
            &&& data@ == bytes
            &&& asset.file_name@ == hashed_import_name(path, bytes)
            &&& asset.relative_path@ == imported_path(path, bytes)
            &&& file_name@ == asset.file_name@
        },
        _ => false,
    }
}

/// Whether `step` goes on by writing these bytes to this asset.
pub open spec fn writes_asset(
    step: CommitItemStep,
    name: Seq<char>,
    relative: Seq<char>,
    bytes: Seq<u8>,
) -> bool {
    match step {
        CommitItemStep::Next {
            state: CommitState::WritingAsset { relative_path, data },
            action: CommitAction::WriteAsset { file_name },
        } => file_name@ == name && relative_path@ == relative && data@ == bytes,
        _ => false,
    }
}

/// What each state makes of each answer. A temporary file is looked for and
/// transferred where there is something to transfer; an outside file is
/// looked for, read, named by its content, and written where no asset of
/// that name exists. A failed move, read or write fails the item, with the
/// system's message as the reason, behind `Read error: ` or `Write error: `
/// for an outside file; a redundant source that cannot be deleted does not.
/// An answer that does not belong to the state fails the item.
pub open spec fn is_commit_step(
    path: Seq<char>,
    state: CommitState,
    event: CommitEvent,
    step: CommitItemStep,
) -> bool {
    match (state, event) {
        (CommitState::Start, CommitEvent::Begin) => match commit_step_of(path) {
            CommitStepView::MoveTemp { file_name } => probes_temp(step, file_name),
            CommitStepView::ImportIfExists { .. } => probes_source(step),
            CommitStepView::Keep => ends_with(step, ItemResultView::Settled),
        },
        (
            CommitState::ProbingTemp { file_name },
            CommitEvent::TempProbed { source_exists, dest_exists },
        ) => match transfer_of(source_exists, dest_exists) {
            TempTransfer::Nothing => ends_with(step, ItemResultView::Settled),
            how => transfers(step, file_name@, how),
        },
        (CommitState::Transferring { transfer }, CommitEvent::Finished(done)) => match done {
            Err(cause) if transfer == TempTransfer::Move => ends_with(
                step,
                ItemResultView::Failed(cause@),
            ),
            _ => ends_with(step, ItemResultView::Settled),
        },
        (CommitState::ProbingSource, CommitEvent::Exists(exists)) => if exists {
            reads_outside(step)
        } else {
            ends_with(step, ItemResultView::Settled)
        },
        (CommitState::ReadingSource, CommitEvent::Read(Ok(bytes))) => probes_asset(
            step,
            path,
            bytes@,
        ),
        (CommitState::ProbingAsset { asset, data }, CommitEvent::Exists(exists)) => if is_write_needed(
            exists,
        ) {
            writes_asset(step, asset.file_name@, asset.relative_path@, data@)
        } else {
            ends_with(step, ItemResultView::Imported(asset.relative_path@))
        },
        (CommitState::WritingAsset { relative_path, .. }, CommitEvent::Finished(Ok(_))) => ends_with(
            step,
            ItemResultView::Imported(relative_path@),
        ),
        (CommitState::ReadingSource, CommitEvent::Read(Err(cause))) => ends_with(
            step,
            ItemResultView::Failed(read_error_of(cause@)),
        ),
        (CommitState::WritingAsset { .. }, CommitEvent::Finished(Err(cause))) => ends_with(
            step,
            ItemResultView::Failed(write_error_of(cause@)),
        ),
        _ => ends_with(step, ItemResultView::Failed(unexpected_answer())),
    }
}

/// The reason of an answer that does not fit the state it is given to.
pub open spec fn unexpected_answer() -> Seq<char> {
    "Unexpected answer"@
}

/// The state that the commit of every item begins in; its first answer is
/// `Begin`.
pub fn begin_commit() -> (state: CommitState)
    ensures
        state is Start,
{
    CommitState::Start
}

fn unexpected() -> (step: CommitItemStep)
    ensures
        ends_with(step, ItemResultView::Failed(unexpected_answer())),
{
    CommitItemStep::Done(ItemResult::Failed("Unexpected answer".to_owned()))
}

fn end(result: ItemResult) -> (step: CommitItemStep)
    ensures
        step == CommitItemStep::Done(result),
{
    CommitItemStep::Done(result)
}

/// Takes one answer of the filesystem into account and says how the commit
/// of `path` goes on.
pub fn commit_item_step(path: &str, state: CommitState, event: CommitEvent) -> (step: CommitItemStep)
    ensures
        is_commit_step(path@, state, event, step),
{
    match state {
        CommitState::Start => match event {
            CommitEvent::Begin => match commit_step(path) {
                CommitStep::MoveTemp { file_name } => {
                    let asked = file_name.clone();
                    CommitItemStep::Next {
                        state: CommitState::ProbingTemp { file_name },
                        action: CommitAction::ProbeTemp { file_name: asked },
                    }
                },
                CommitStep::ImportIfExists { .. } => CommitItemStep::Next {
                    state: CommitState::ProbingSource,
                    action: CommitAction::ProbeSource,
                },
                CommitStep::Keep => end(ItemResult::Settled),
            },
            _ => unexpected(),
        },
        CommitState::ProbingTemp { file_name } => match event {
            CommitEvent::TempProbed { source_exists, dest_exists } => match temp_transfer(
                source_exists,
                dest_exists,
            ) {
                TempTransfer::Nothing => end(ItemResult::Settled),
                TempTransfer::Move => CommitItemStep::Next {
                    state: CommitState::Transferring { transfer: TempTransfer::Move },
                    action: CommitAction::Transfer { file_name, transfer: TempTransfer::Move },
                },
                TempTransfer::DropSource => CommitItemStep::Next {
                    state: CommitState::Transferring { transfer: TempTransfer::DropSource },
                    action: CommitAction::Transfer {
                        file_name,
                        transfer: TempTransfer::DropSource,
                    },
                },
            },
            _ => unexpected(),
        },
        CommitState::Transferring { transfer } => match event {
            CommitEvent::Finished(done) => match (done, transfer) {
                (Err(cause), TempTransfer::Move) => end(ItemResult::Failed(cause)),
                _ => end(ItemResult::Settled),
            },
            _ => unexpected(),
        },
        CommitState::ProbingSource => match event {
            CommitEvent::Exists(exists) => if exists {
                CommitItemStep::Next {
                    state: CommitState::ReadingSource,
                    action: CommitAction::ReadSource,
                }
            } else {
                end(ItemResult::Settled)
            },
            _ => unexpected(),
        },
        CommitState::ReadingSource => match event {
            CommitEvent::Read(Ok(data)) => {
                let asset = import_external_file(path, data.as_slice());
                let file_name = asset.file_name.clone();
                CommitItemStep::Next {
                    state: CommitState::ProbingAsset { asset, data },
                    action: CommitAction::ProbeAsset { file_name },
                }
            },
            CommitEvent::Read(Err(cause)) => end(ItemResult::Failed(read_error(cause.as_str()))),
            _ => unexpected(),
        },
        CommitState::ProbingAsset { asset, data } => match event {
            CommitEvent::Exists(exists) => if write_needed(exists) {
                CommitItemStep::Next {
                    state: CommitState::WritingAsset { relative_path: asset.relative_path, data },
                    action: CommitAction::WriteAsset { file_name: asset.file_name },
                }
            } else {
                end(ItemResult::Imported(asset.relative_path))
            },
            _ => unexpected(),
        },
        CommitState::WritingAsset { relative_path, data } => match event {
            CommitEvent::Finished(Ok(_)) => end(ItemResult::Imported(relative_path)),
            CommitEvent::Finished(Err(cause)) => end(
                ItemResult::Failed(write_error(cause.as_str())),
            ),
            _ => unexpected(),
        },
    }
}

} // verus!
