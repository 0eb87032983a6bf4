//! One fetch from the thumbnail cache as a sequence of steps: each step
//! takes what the filesystem answered and says what to ask of it next, or
//! what the fetch gives.

use crate::error::PipelineError;
use crate::error::PipelineErrorView;
use crate::resizer::fits_in_memory;
use crate::resizer::generate_thumbnail;
use crate::resizer::is_eight_bit;
use crate::resizer::is_scaled;
use crate::resizer::is_thumbnail;
use crate::resizer::png_encoded;
use crate::resizer::BitmapView;
use crate::resizer::source_bitmap;
use crate::resizer::too_large_message;
use crate::thumbs::cache_step;
use crate::thumbs::guessed_mime;
use crate::thumbs::io_outcome;
use crate::thumbs::plan_thumbnail;
use crate::thumbs::planned;
use crate::thumbs::serve_source;
use crate::thumbs::serve_stored;
use crate::thumbs::serve_thumbnail;
use crate::thumbs::thumbnail_mime;
use crate::thumbs::CacheStep;
use crate::thumbs::Served;
use crate::thumbs::SourceProbe;
use crate::thumbs::ThumbPlan;
use crate::thumbs::ThumbPlanView;
use vstd::prelude::*;

verus! {

/// Where a fetch stands, and so which answer it waits for.
#[derive(Debug)]
pub enum FetchState {
    /// The source is being looked at.
    Probing,
    /// The source is being read, to be served as it is.
    ReadingSource,
    /// The cache is being asked whether it holds the entry.
    LookingUp { cache_name: String, width: u32, height: u32 },
    /// The cache entry is being read.
    ReadingCached,
    /// The source is being read, to make the thumbnail from it.
    Rendering { cache_name: String, width: u32, height: u32 },
    /// The fresh thumbnail, held here, is being written to the cache.
    Storing { bytes: Vec<u8> },
}

/// What the filesystem answered.
#[derive(Debug)]
pub enum FetchEvent {
    /// What looking at the source found.
    Probed(SourceProbe),
    /// Whether the cache holds the entry.
    Found(bool),
    /// The bytes that were read, or why they were not.
    Read(Result<Vec<u8>, String>),
    /// That the entry was written, or why it was not.
    Stored(Result<(), String>),
}

/// What to ask of the filesystem next.
#[derive(Debug)]
pub enum FetchAction {
    /// Read the source file; answer with `Read`.
    ReadSource,
    /// Look for this entry in the cache; answer with `Found`.
    LookUp { cache_name: String },
    /// Read this entry from the cache; answer with `Read`.
    ReadCached { cache_name: String },
    /// Write the bytes that the state holds to this entry; answer with
    /// `Stored`.
    Store { cache_name: String },
}

/// How a fetch goes on.
#[derive(Debug)]
pub enum FetchStep {
    /// Carry out the action, then step again from the state with the answer.
    Next { state: FetchState, action: FetchAction },
    /// The fetch is over, with these bytes or this failure.
    Done(Result<Served, PipelineError>),
}

/// The message of an answer that does not fit the state it is given to.
pub open spec fn unexpected_message() -> Seq<char> {
    "Unexpected answer"@
}

/// Whether `step` ends the fetch with these bytes under this MIME type.
pub open spec fn gives(step: FetchStep, bytes: Seq<u8>, mime: Seq<char>) -> bool {
    match step {
        FetchStep::Done(Ok(served)) => served.bytes@ == bytes && served.mime_type@ == mime,
        _ => false,
    }
}

/// Whether `step` ends the fetch with this failure.
pub open spec fn fails_with(step: FetchStep, failure: PipelineErrorView) -> bool {
    match step {
        FetchStep::Done(Err(e)) => e@ == failure,
        _ => false,
    }
}

/// Whether `step` goes on by reading the source to serve it as it is.
pub open spec fn reads_source(step: FetchStep) -> bool {
    match step {
        FetchStep::Next { state: FetchState::ReadingSource, action: FetchAction::ReadSource } => true,
        _ => false,
    }
}

/// Whether `step` goes on by asking the cache for the entry of this plan.
pub open spec fn looks_up(step: FetchStep, name: Seq<char>, w: u32, h: u32) -> bool {
    match step {
        FetchStep::Next {
            state: FetchState::LookingUp { cache_name, width, height },
            action: FetchAction::LookUp { cache_name: asked },
        } => cache_name@ == name && asked@ == name && width == w && height == h,
        _ => false,
    }
}

/// Whether `step` goes on by reading this entry from the cache.
pub open spec fn reads_cached(step: FetchStep, name: Seq<char>) -> bool {
    match step {
        FetchStep::Next {
            state: FetchState::ReadingCached,
            action: FetchAction::ReadCached { cache_name },
        } => cache_name@ == name,
        _ => false,
    }
}

/// Whether `step` goes on by reading the source to make this thumbnail.
pub open spec fn renders(step: FetchStep, name: Seq<char>, w: u32, h: u32) -> bool {
    match step {
        FetchStep::Next {
            state: FetchState::Rendering { cache_name, width, height },
            action: FetchAction::ReadSource,
        } => cache_name@ == name && width == w && height == h,
        _ => false,
    }
}

/// Whether `step` goes on by writing exactly these bytes, which it holds,
/// to this entry.
pub open spec fn stores_bytes(step: FetchStep, name: Seq<char>, held: Seq<u8>) -> bool {
    match step {
        FetchStep::Next {
            state: FetchState::Storing { bytes },
            action: FetchAction::Store { cache_name },
        } => cache_name@ == name && bytes@ == held,
        _ => false,
    }
}

/// Whether `step` is what encoding some scaling of `source` comes to: it
/// goes on by writing the PNG of the scaled pixels to this entry, or, where
/// they do not encode, ends the fetch with a resize failure.
pub open spec fn stores_scaled(
    step: FetchStep,
    name: Seq<char>,
    source: BitmapView,
    width: u32,
    height: u32,
) -> bool {
    exists|scaled: BitmapView|
        is_scaled(source, width, height, scaled) && match #[trigger] png_encoded(scaled) {
            Some(png) => stores_bytes(step, name, png),
            None => match step {
                FetchStep::Done(Err(e)) => e@ is ResizeFailure,
                _ => false,
            },
        }
}

/// Whether `step` is what rendering `source` comes to: either it goes on by
/// writing a thumbnail of the source to this entry, or it ends the fetch;
/// with a decode failure exactly where the bytes are no image of a known
/// colour kind, and with a resize failure otherwise. A source of 8-bit
/// channels that fits in memory is always scaled: the step is then what
/// encoding the scaled pixels comes to.
pub open spec fn renders_from(
    step: FetchStep,
    name: Seq<char>,
    source: Seq<u8>,
    path: Seq<char>,
    width: u32,
    height: u32,
) -> bool {
    &&& match step {
        FetchStep::Next {
            state: FetchState::Storing { bytes },
            action: FetchAction::Store { cache_name },
        } => cache_name@ == name && is_thumbnail(source, path, width, height, bytes@),
        FetchStep::Done(Err(e)) => {
            &&& e@ is DecodeFailure || e@ is ResizeFailure
            &&& e@ is DecodeFailure <==> fits_in_memory(width, height) && source_bitmap(
                source,
                path,
            ) is None
            &&& !fits_in_memory(width, height) ==> e@ == PipelineErrorView::ResizeFailure(
                too_large_message(),
            )
        },
        _ => false,
    }
    &&& ({
        let bitmap = source_bitmap(source, path);
        fits_in_memory(width, height) && bitmap is Some && is_eight_bit(bitmap->0.color)
            ==> stores_scaled(step, name, bitmap->0, width, height)
    })
}

/// What each state makes of each answer. A probe is planned; a read of the
/// source or of the cache ends the fetch with the bytes; the cache decides
/// between reading and rendering; a thumbnail of the source is stored, and
/// served once it is. An answer that does not belong to the state ends the
/// fetch with an I/O failure.
pub open spec fn is_step(
    real_path: Seq<char>,
    target_width: u32,
    state: FetchState,
    event: FetchEvent,
    step: FetchStep,
) -> bool {
    match (state, event) {
        (FetchState::Probing, FetchEvent::Probed(probe)) => match planned(
            real_path,
            target_width,
            probe,
        ) {
            ThumbPlanView::Fail(e) => fails_with(step, e),
            ThumbPlanView::Passthrough => reads_source(step),
            ThumbPlanView::Thumbnail { cache_name, width, height } => looks_up(
                step,
                cache_name,
                width,
                height,
            ),
        },
        (FetchState::ReadingSource, FetchEvent::Read(Ok(bytes))) => gives(
            step,
            bytes@,
            guessed_mime(real_path),
        ),
        (FetchState::LookingUp { cache_name, width, height }, FetchEvent::Found(found)) => if found {
            reads_cached(step, cache_name@)
        } else {
            renders(step, cache_name@, width, height)
        },
        (FetchState::ReadingCached, FetchEvent::Read(Ok(bytes))) => gives(
            step,
            bytes@,
            thumbnail_mime(),
        ),
        (
            FetchState::Rendering { cache_name, width, height },
            FetchEvent::Read(Ok(source)),
        ) => renders_from(step, cache_name@, source@, real_path, width, height),
        (FetchState::Storing { bytes }, FetchEvent::Stored(Ok(_))) => gives(
            step,
            bytes@,
            thumbnail_mime(),
        ),
        (FetchState::ReadingSource, FetchEvent::Read(Err(message))) => fails_with(
            step,
            PipelineErrorView::IoFailure(message@),
        ),
        (FetchState::ReadingCached, FetchEvent::Read(Err(message))) => fails_with(
            step,
            PipelineErrorView::IoFailure(message@),
        ),
        (FetchState::Rendering { .. }, FetchEvent::Read(Err(message))) => fails_with(
            step,
            PipelineErrorView::IoFailure(message@),
        ),
        (FetchState::Storing { .. }, FetchEvent::Stored(Err(message))) => fails_with(
            step,
            PipelineErrorView::IoFailure(message@),
        ),
        _ => fails_with(step, PipelineErrorView::IoFailure(unexpected_message())),
    }
}

/// The state that every fetch begins in; its first answer is the probe of
/// the source.
pub fn begin_fetch() -> (state: FetchState)
    ensures
        state is Probing,
{
    FetchState::Probing
}

fn unexpected() -> (step: FetchStep)
    ensures
        fails_with(step, PipelineErrorView::IoFailure(unexpected_message())),
{
    FetchStep::Done(Err(PipelineError::IoFailure("Unexpected answer".to_owned())))
}

fn finish(outcome: Result<Served, PipelineError>) -> (step: FetchStep)
    ensures
        step == FetchStep::Done(outcome),
{
    FetchStep::Done(outcome)
}

/// How a fetch goes on once the thumbnail was made, or was not: the bytes
/// that were made are held and written to the entry; a failure ends the
/// fetch as it is.
pub fn after_render(cache_name: String, made: Result<Vec<u8>, PipelineError>) -> (step: FetchStep)
    ensures
        match made {
            Ok(bytes) => stores_bytes(step, cache_name@, bytes@),
            Err(e) => fails_with(step, e@),
        },
{
    match made {
        Ok(bytes) => FetchStep::Next {
            state: FetchState::Storing { bytes },
            action: FetchAction::Store { cache_name },
        },
        Err(e) => finish(Err(e)),
    }
}

/// Takes one answer of the filesystem into account and says how the fetch
/// of `real_path` at `target_width` goes on.
pub fn fetch_step(real_path: &str, target_width: u32, state: FetchState, event: FetchEvent) -> (step:
    FetchStep)
    ensures
        is_step(real_path@, target_width, state, event, step),
{
    match state {
        FetchState::Probing => match event {
            FetchEvent::Probed(probe) => match plan_thumbnail(real_path, target_width, probe) {
                ThumbPlan::Fail(e) => finish(Err(e)),
                ThumbPlan::Passthrough => FetchStep::Next {
                    state: FetchState::ReadingSource,
                    action: FetchAction::ReadSource,
                },
                ThumbPlan::Thumbnail { cache_name, width, height } => {
                    let asked = cache_name.clone();
                    FetchStep::Next {
                        state: FetchState::LookingUp { cache_name, width, height },
                        action: FetchAction::LookUp { cache_name: asked },
                    }
                },
            },
            _ => unexpected(),
        },
        FetchState::ReadingSource => match event {
            FetchEvent::Read(read) => match io_outcome(read) {
                Ok(bytes) => finish(Ok(serve_source(real_path, bytes))),
                Err(e) => finish(Err(e)),
            },
            _ => unexpected(),
        },
        FetchState::LookingUp { cache_name, width, height } => match event {
            FetchEvent::Found(found) => match cache_step(found) {
                CacheStep::ServeCached => FetchStep::Next {
                    state: FetchState::ReadingCached,
                    action: FetchAction::ReadCached { cache_name },
                },
                CacheStep::Generate => FetchStep::Next {
                    state: FetchState::Rendering { cache_name, width, height },
                    action: FetchAction::ReadSource,
                },
            },
            _ => unexpected(),
        },
        FetchState::ReadingCached => match event {
            FetchEvent::Read(read) => match io_outcome(read) {
                Ok(bytes) => finish(Ok(serve_thumbnail(bytes))),
                Err(e) => finish(Err(e)),
            },
            _ => unexpected(),
        },
        FetchState::Rendering { cache_name, width, height } => match event {
            FetchEvent::Read(read) => match io_outcome(read) {
                Ok(source) => {
                    let made = generate_thumbnail(source.as_slice(), real_path, width, height);
                    let ghost outcome = made;
                    let ghost name = cache_name@;
                    let step = after_render(cache_name, made);
                    proof {
                        let bitmap = source_bitmap(source@, real_path@);
                        if fits_in_memory(width, height) && bitmap is Some && is_eight_bit(
                            bitmap->0.color,
                        ) {
                            let scaled = choose|scaled: BitmapView|
                                is_scaled(bitmap->0, width, height, scaled) && match #[trigger] png_encoded(
                                    scaled,
                                ) {
                                    Some(png) => outcome is Ok && outcome->Ok_0@ == png,
                                    None => outcome is Err && outcome->Err_0@ is ResizeFailure,
                                };
                            assert(is_scaled(bitmap->0, width, height, scaled));
                            assert(match png_encoded(scaled) {
                                Some(png) => stores_bytes(step, name, png),
                                None => match step {
                                    FetchStep::Done(Err(e)) => e@ is ResizeFailure,
                                    _ => false,
                                },
                            });
                        }
                    }
                    step
                },
                Err(e) => finish(Err(e)),
            },
            _ => unexpected(),
        },
        FetchState::Storing { bytes } => match event {
            FetchEvent::Stored(stored) => finish(serve_stored(bytes, stored)),
            _ => unexpected(),
        },
    }
}

} // verus!
