//! The failures of the pipeline and the messages they carry.

use std::path::Path;
use vstd::prelude::*;
use vstd::string::StringExecFns;

verus! {

/// What can go wrong between a request and its bytes.
#[derive(Debug)]
pub enum PipelineError {
    /// The bytes are no image, or no base64; with the decoder's message.
    DecodeFailure(String),
    /// The image could not be scaled or encoded; with the reason.
    ResizeFailure(String),
    /// A read, write or rename failed; with the system's message.
    IoFailure(String),
    /// The virtual path stands for no real file.
    PathUnresolved,
    /// The resolved path, given here, does not exist.
    SourceNotFound(String),
    /// The dimensions of the image at the path, given here, cannot be read.
    ProbeFailed(String),
}

/// The mathematical form of a [`PipelineError`].
pub ghost enum PipelineErrorView {
    DecodeFailure(Seq<char>),
    ResizeFailure(Seq<char>),
    IoFailure(Seq<char>),
    PathUnresolved,
    SourceNotFound(Seq<char>),
    ProbeFailed(Seq<char>),
}

impl View for PipelineError {
    type V = PipelineErrorView;

    open spec fn view(&self) -> PipelineErrorView {
        match self {
            PipelineError::DecodeFailure(m) => PipelineErrorView::DecodeFailure(m@),
            PipelineError::ResizeFailure(m) => PipelineErrorView::ResizeFailure(m@),
            PipelineError::IoFailure(m) => PipelineErrorView::IoFailure(m@),
            PipelineError::PathUnresolved => PipelineErrorView::PathUnresolved,
            PipelineError::SourceNotFound(p) => PipelineErrorView::SourceNotFound(p@),
            PipelineError::ProbeFailed(p) => PipelineErrorView::ProbeFailed(p@),
        }
    }
}

/// A path as `std` writes it for a reader: between double quotes, with the
/// characters that would not show escaped.
pub uninterp spec fn quoted_path(path: Seq<char>) -> Seq<char>;

/// Formats a `std::path::Path` with `{:?}`. Trusted: the text depends on the
/// path's text alone.
#[verifier::external_body]
fn quote_path(path: &str) -> (text: String)
    ensures
        text@ == quoted_path(path@),
{
    format!("{:?}", Path::new(path))
}

/// The text that a failure is reported with.
pub open spec fn message_of(e: PipelineErrorView) -> Seq<char> {
    match e {
        PipelineErrorView::DecodeFailure(m) => m,
        PipelineErrorView::ResizeFailure(m) => m,
        PipelineErrorView::IoFailure(m) => m,
        PipelineErrorView::PathUnresolved => "File not found"@,
        PipelineErrorView::SourceNotFound(p) => "Source file not found: "@ + quoted_path(p),
        PipelineErrorView::ProbeFailed(p) => "无法获取图片宽度: "@ + p,
    }
}

impl PipelineError {
    /// The human-readable message of this failure.
    pub fn message(&self) -> (text: String)
        ensures
            text@ == message_of(self@),
    {
        match self {
            PipelineError::DecodeFailure(m) => m.clone(),
            PipelineError::ResizeFailure(m) => m.clone(),
            PipelineError::IoFailure(m) => m.clone(),
            PipelineError::PathUnresolved => "File not found".to_owned(),
            PipelineError::SourceNotFound(p) => {
                let mut text = "Source file not found: ".to_owned();
                text.append(quote_path(p.as_str()).as_str());
                text
            },
            PipelineError::ProbeFailed(p) => {
                let mut text = "无法获取图片宽度: ".to_owned();
                text.append(p.as_str());
                text
            },
        }
    }
}

} // verus!
