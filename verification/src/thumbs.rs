//! The thumbnail cache: when the source file itself is served, how a cached
//! thumbnail is named and sized, and what is answered.

use crate::error::PipelineError;
use crate::error::PipelineErrorView;
use crate::hasher::hash_hex;
use crate::hasher::hex_string;
use crate::hasher::sha256_digest;
use crate::text::decimal_digits;
use crate::text::decimal_text;
use vstd::prelude::*;
use vstd::string::StringExecFns;
use vstd::utf8::encode_utf8;

verus! {

/// The MIME type that `mime_guess` gives a path by its extension, with
/// `application/octet-stream` where it knows none.
pub uninterp spec fn guessed_mime(path: Seq<char>) -> Seq<char>;

/// Calls `mime_guess::from_path` and takes its first guess, or
/// `application/octet-stream` where there is none. Trusted: the answer
/// depends on the path's text alone.
#[verifier::external_body]
pub(crate) fn get_mime_type(path: &str) -> (mime: String)
    ensures
        mime@ == guessed_mime(path@),
{
    mime_guess::from_path(path).first_or_octet_stream().to_string()
}

/// Whether a request is answered with the source file as it is: no width
/// was asked for, or one that is not below the source's own.
pub open spec fn serves_source(native_width: u32, target_width: u32) -> bool {
    target_width == 0 || native_width <= target_width
}

/// The height that keeps the aspect ratio at `target_width`:
/// `native_height * target_width / native_width`, rounded to the nearest
/// integer, a half rounded up.
pub open spec fn scaled_height_of(native_width: u32, native_height: u32, target_width: u32) -> int {
    (2 * native_height * target_width + native_width) / (2 * native_width)
}

/// The text that a cache entry is keyed by: `{path}?w={width}`.
pub open spec fn cache_key(real_path: Seq<char>, target_width: u32) -> Seq<char> {
    real_path + "?w="@ + decimal_digits(target_width as nat)
}

/// The file name of a cache entry: the hash of its key, then `_{width}.png`.
pub open spec fn cache_file_name_of(real_path: Seq<char>, target_width: u32) -> Seq<char> {
    hex_string(sha256_digest(encode_utf8(cache_key(real_path, target_width)))) + "_"@
        + decimal_digits(target_width as nat) + ".png"@
}

/// What looking at the source file found.
#[derive(Clone, Copy, Debug, PartialEq, Eq, Structural)]
pub enum SourceProbe {
    /// There is no file at the path.
    Missing,
    /// There is a file, but its dimensions cannot be read.
    Unreadable,
    /// The image's own width and height.
    Dimensions { width: u32, height: u32 },
}

/// What is to be done for a request, once the source was looked at.
#[derive(Debug)]
pub enum ThumbPlan {
    /// The request fails.
    Fail(PipelineError),
    /// The source file is served as it is.
    Passthrough,
    /// A thumbnail of this size is served, kept in the cache under this name.
    Thumbnail { cache_name: String, width: u32, height: u32 },
}

/// The mathematical form of a [`ThumbPlan`].
pub ghost enum ThumbPlanView {
    Fail(PipelineErrorView),
    Passthrough,
    Thumbnail { cache_name: Seq<char>, width: u32, height: u32 },
}

impl View for ThumbPlan {
    type V = ThumbPlanView;

    open spec fn view(&self) -> ThumbPlanView {
        match self {
            ThumbPlan::Fail(e) => ThumbPlanView::Fail(e@),
            ThumbPlan::Passthrough => ThumbPlanView::Passthrough,
            ThumbPlan::Thumbnail { cache_name, width, height } => ThumbPlanView::Thumbnail {
                cache_name: cache_name@,
                width: *width,
                height: *height,
            },
        }
    }
}

/// The plan for a request: a missing source and an unreadable one fail; no
/// width, or one that is not below the source's, serves the source itself;
/// a smaller width is a thumbnail of that width and of the height that keeps
/// the ratio.
pub open spec fn planned(real_path: Seq<char>, target_width: u32, probe: SourceProbe)
    -> ThumbPlanView {
    match probe {
        SourceProbe::Missing => ThumbPlanView::Fail(PipelineErrorView::SourceNotFound(real_path)),
        SourceProbe::Unreadable => ThumbPlanView::Fail(PipelineErrorView::ProbeFailed(real_path)),
        SourceProbe::Dimensions { width, height } => if serves_source(width, target_width) {
            ThumbPlanView::Passthrough
        } else {
            ThumbPlanView::Thumbnail {
                cache_name: cache_file_name_of(real_path, target_width),
                width: target_width,
                height: scaled_height_of(width, height, target_width) as u32,
            }
        },
    }
}

/// The scaled height lies within half a pixel of the exact ratio, and never
/// exceeds the source's height.
pub proof fn lemma_scaled_height_nearest(native_width: u32, native_height: u32, target_width: u32)
    requires
        0 < target_width <= native_width,
    ensures
        0 <= scaled_height_of(native_width, native_height, target_width) <= native_height,
        2 * scaled_height_of(native_width, native_height, target_width) * native_width <= 2
            * native_height * target_width + native_width,
        2 * native_height * target_width + native_width < 2 * (scaled_height_of(
            native_width,
            native_height,
            target_width,
        ) + 1) * native_width,
{
    let w = native_width as int;
    let h = native_height as int;
    let t = target_width as int;
    let n = 2 * h * t + w;
    let d = 2 * w;
    let r = n / d;
    assert(n == 2 * native_height * target_width + native_width) by (nonlinear_arith)
        requires
            n == 2 * h * t + w,
            w == native_width as int,
            h == native_height as int,
            t == target_width as int,
    ;
    assert(0 <= n) by (nonlinear_arith)
        requires
            n == 2 * h * t + w,
            0 <= h,
            0 < t,
            0 < w,
    ;
    assert(r * d <= n < (r + 1) * d && 0 <= r) by (nonlinear_arith)
        requires
            r == n / d,
            d > 0,
            0 <= n,
    ;
    assert(n <= 2 * h * w + w) by (nonlinear_arith)
        requires
            n == 2 * h * t + w,
            0 <= h,
            0 < t <= w,
    ;
    assert(r <= h) by (nonlinear_arith)
        requires
            r * d <= n,
            n <= 2 * h * w + w,
            d == 2 * w,
            w > 0,
    ;
    assert(2 * r * w == r * d && 2 * (r + 1) * w == (r + 1) * d) by (nonlinear_arith)
        requires
            d == 2 * w,
    ;
}

/// The height of a thumbnail of `target_width` that keeps the aspect ratio
/// of a `native_width` by `native_height` source.
pub fn scaled_height(native_width: u32, native_height: u32, target_width: u32) -> (height: u32)
    requires
        0 < target_width <= native_width,
    ensures
        height == scaled_height_of(native_width, native_height, target_width),
        height <= native_height,
{
    proof {
        lemma_scaled_height_nearest(native_width, native_height, target_width);
        assert(2 * native_height * target_width + native_width <= 2 * 0xffff_ffff * 0xffff_ffff
            + 0xffff_ffff) by (nonlinear_arith)
            requires
                native_height <= 0xffff_ffff,
                target_width <= 0xffff_ffff,
                native_width <= 0xffff_ffff,
        ;
    }
    let doubled: u64 = 2 * (native_width as u64);
    let product: u128 = 2 * (native_height as u128) * (target_width as u128);
    let sum: u128 = product + (native_width as u128);
    let quotient: u128 = sum / (doubled as u128);
    quotient as u32
}

/// The file name under which the thumbnail of `real_path` at `target_width`
/// is cached.
pub fn cache_file_name(real_path: &str, target_width: u32) -> (name: String)
    ensures
        name@ == cache_file_name_of(real_path@, target_width),
{
    let width_text = decimal_text(target_width);
    let mut key = real_path.to_owned();
    key.append("?w=");
    key.append(width_text.as_str());
    let mut name = hash_hex(key.as_str().as_bytes());
    name.append("_");
    name.append(width_text.as_str());
    name.append(".png");
    name
}

/// Decides what a request gets, from what the probe of its source found.
pub fn plan_thumbnail(real_path: &str, target_width: u32, probe: SourceProbe) -> (plan: ThumbPlan)
    ensures
        plan@ == planned(real_path@, target_width, probe),
{
    match probe {
        SourceProbe::Missing => ThumbPlan::Fail(PipelineError::SourceNotFound(real_path.to_owned())),
        SourceProbe::Unreadable => ThumbPlan::Fail(
            PipelineError::ProbeFailed(real_path.to_owned()),
        ),
        SourceProbe::Dimensions { width, height } => {
            if target_width == 0 || width <= target_width {
                ThumbPlan::Passthrough
            } else {
                ThumbPlan::Thumbnail {
                    cache_name: cache_file_name(real_path, target_width),
                    width: target_width,
                    height: scaled_height(width, height, target_width),
                }
            }
        },
    }
}

/// What to do about a planned thumbnail, once the cache was looked at.
#[derive(Clone, Copy, Debug, PartialEq, Eq, Structural)]
pub enum CacheStep {
    /// The entry is there: serve it, and leave the source alone.
    ServeCached,
    /// The entry is missing: make the thumbnail, store it, then serve it.
    Generate,
}

/// An entry that exists is served; only a missing one is generated.
pub open spec fn cache_step_of(entry_exists: bool) -> CacheStep {
    if entry_exists {
        CacheStep::ServeCached
    } else {
        CacheStep::Generate
    }
}

/// Decides what to do about a planned thumbnail, from whether its cache
/// entry exists.
pub fn cache_step(entry_exists: bool) -> (step: CacheStep)
    ensures
        step == cache_step_of(entry_exists),
{
    if entry_exists {
        CacheStep::ServeCached
    } else {
        CacheStep::Generate
    }
}

/// The cache, and the bytes served, once the entry `name` was fetched:
/// an entry that is there is served as it is; a missing one is filled with
/// the freshly made thumbnail `fresh`, which is served.
pub open spec fn after_fetch(cache: Map<Seq<char>, Seq<u8>>, name: Seq<char>, fresh: Seq<u8>) -> (
    Map<Seq<char>, Seq<u8>>,
    Seq<u8>,
) {
    match cache_step_of(cache.contains_key(name)) {
        CacheStep::ServeCached => (cache, cache[name]),
        CacheStep::Generate => (cache.insert(name, fresh), fresh),
    }
}

/// Bytes with the MIME type they are served under.
#[derive(Debug)]
pub struct Served {
    pub bytes: Vec<u8>,
    pub mime_type: String,
}

/// The MIME type of every generated thumbnail.
pub open spec fn thumbnail_mime() -> Seq<char> {
    "image/png"@
}

/// The answer that serves the source file as it is: its bytes, unchanged,
/// under the MIME type of its extension.
pub fn serve_source(real_path: &str, bytes: Vec<u8>) -> (served: Served)
    ensures
        served.bytes@ == bytes@,
        served.mime_type@ == guessed_mime(real_path@),
{
    Served { bytes, mime_type: get_mime_type(real_path) }
}

/// The answer that serves a thumbnail, cached or fresh: its bytes,
/// unchanged, as PNG.
pub fn serve_thumbnail(bytes: Vec<u8>) -> (served: Served)
    ensures
        served.bytes@ == bytes@,
        served.mime_type@ == thumbnail_mime(),
{
    Served { bytes, mime_type: "image/png".to_owned() }
}

/// What a read of the filesystem gave, as the pipeline sees it: the bytes,
/// or an I/O failure with the system's message.
pub fn io_outcome(read: Result<Vec<u8>, String>) -> (outcome: Result<Vec<u8>, PipelineError>)
    ensures
        match read {
            Ok(bytes) => outcome is Ok && outcome->Ok_0@ == bytes@,
            Err(message) => outcome is Err && outcome->Err_0@ == PipelineErrorView::IoFailure(
                message@,
            ),
        },
{
    match read {
        Ok(bytes) => Ok(bytes),
        Err(message) => Err(PipelineError::IoFailure(message)),
    }
}

/// The answer for a fresh thumbnail, once it was put into the cache: the
/// thumbnail where it was stored, the I/O failure where it was not.
pub fn serve_stored(bytes: Vec<u8>, stored: Result<(), String>) -> (outcome: Result<
    Served,
    PipelineError,
>)
    ensures
        match stored {
            Ok(_) => {
                &&& outcome is Ok
                &&& outcome->Ok_0.bytes@ == bytes@
                &&& outcome->Ok_0.mime_type@ == thumbnail_mime()
            },
            Err(message) => outcome is Err && outcome->Err_0@ == PipelineErrorView::IoFailure(
                message@,
            ),
        },
{
    match stored {
        Ok(_) => Ok(serve_thumbnail(bytes)),
        Err(message) => Err(PipelineError::IoFailure(message)),
    }
}

/// A second fetch of the same entry is served from the cache: nothing is
/// generated, whatever the resizer would make of the source by then, the
/// bytes are those of the first fetch, and the cache stays as it is.
pub proof fn lemma_second_fetch_is_cached(
    cache: Map<Seq<char>, Seq<u8>>,
    name: Seq<char>,
    first: Seq<u8>,
    second: Seq<u8>,
)
    ensures
        ({
            let (filled, served) = after_fetch(cache, name, first);
            &&& cache_step_of(filled.contains_key(name)) == CacheStep::ServeCached
            &&& after_fetch(filled, name, second) == (filled, served)
        }),
{
}

/// Requests of different widths never share a cache entry: equal names
/// mean equal widths.
pub proof fn lemma_cache_name_tells_widths_apart(
    path_a: Seq<char>,
    width_a: u32,
    path_b: Seq<char>,
    width_b: u32,
)
    requires
        cache_file_name_of(path_a, width_a) == cache_file_name_of(path_b, width_b),
    ensures
        width_a == width_b,
{
    reveal_strlit("_");
    reveal_strlit(".png");
    let hash_a = hex_string(sha256_digest(encode_utf8(cache_key(path_a, width_a))));
    let hash_b = hex_string(sha256_digest(encode_utf8(cache_key(path_b, width_b))));
    let digits_a = decimal_digits(width_a as nat);
    let digits_b = decimal_digits(width_b as nat);
    let name_a = cache_file_name_of(path_a, width_a);
    let name_b = cache_file_name_of(path_b, width_b);
    crate::text::lemma_decimal_round_trip(width_a as nat);
    crate::text::lemma_decimal_round_trip(width_b as nat);
    assert(name_a.len() == hash_a.len() + 1 + digits_a.len() + 4);
    assert(name_b.len() == hash_b.len() + 1 + digits_b.len() + 4);
    assert(name_a[hash_a.len() as int] == '_');
    assert(name_b[hash_b.len() as int] == '_');
    if digits_a.len() < digits_b.len() {
        let k = hash_a.len() as int - hash_b.len() as int - 1;
        assert(name_b[hash_a.len() as int] == digits_b[k]);
        assert(crate::text::is_digit(digits_b[k]));
    } else if digits_b.len() < digits_a.len() {
        let k = hash_b.len() as int - hash_a.len() as int - 1;
        assert(name_a[hash_b.len() as int] == digits_a[k]);
        assert(crate::text::is_digit(digits_a[k]));
    } else {
        assert forall|i: int| 0 <= i < digits_a.len() implies digits_a[i] == digits_b[i] by {
            assert(name_a[hash_a.len() as int + 1 + i] == digits_a[i]);
            assert(name_b[hash_b.len() as int + 1 + i] == digits_b[i]);
        }
        assert(digits_a =~= digits_b);
    }
}

/// The source's own width, any width beyond it, and no width at all serve
/// the source file, whatever the path and the height: nothing is scaled up,
/// and nothing is encoded anew at the same size.
pub proof fn lemma_no_upscaling(
    real_path: Seq<char>,
    native_width: u32,
    native_height: u32,
    target_width: u32,
)
    requires
        target_width == 0 || target_width >= native_width,
    ensures
        planned(
            real_path,
            target_width,
            SourceProbe::Dimensions { width: native_width, height: native_height },
        ) == ThumbPlanView::Passthrough,
{
}

} // verus!
