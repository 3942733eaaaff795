//! The processor contract of the pipeline and its error type.
use vstd::prelude::*;

use crate::phase::ProcessingMode;
use crate::text::push_str;

verus! {

/// Error returned by a processor when it fails to process a phase. The
/// compositor decides what follows: fail-open (continue) or fail-closed
/// (stop with this error).
#[derive(Debug)]
pub struct ProcessorError {
    /// Which processor failed.
    pub processor: String,
    /// What went wrong.
    pub message: String,
    /// The rendered description of the underlying error, if any.
    pub source: Option<String>,
}

impl ProcessorError {
    /// An error of `processor` with `message` and no underlying error.
    pub fn new(processor: &str, message: &str) -> (r: Self)
        ensures
            r.processor@ == processor@,
            r.message@ == message@,
            r.source is None,
    {
        ProcessorError { processor: String::from_str(processor), message: String::from_str(message), source: None }
    }

    /// An error of `processor` with `message`, caused by an underlying error
    /// described by `source`.
    pub fn with_source(processor: &str, message: &str, source: &str) -> (r: Self)
        ensures
            r.processor@ == processor@,
            r.message@ == message@,
            r.source matches Some(s) && s@ == source@,
    {
        ProcessorError {
            processor: String::from_str(processor),
            message: String::from_str(message),
            source: Some(String::from_str(source)),
        }
    }

    /// The rendering of this error.
    pub open spec fn text(self) -> Seq<char> {
        "processor '"@ + self.processor@ + "': "@ + self.message@
    }

    /// Human-readable rendering: `processor '<processor>': <message>`.
    pub fn to_string(&self) -> (r: String)
        ensures
            r@ == self.text(),
    {
        let mut r = String::from_str("processor '");
        push_str(&mut r, self.processor.as_str());
        push_str(&mut r, "': ");
        push_str(&mut r, self.message.as_str());
        r
    }
}

/// A processor in the pipeline: a name for diagnostics and the body phases
/// it takes part in. Header phases involve every processor.
pub trait Processor {
    /// Human-readable name for logging and diagnostics.
    fn name(&self) -> &str;

    /// The body phases this processor declares.
    spec fn spec_mode(&self) -> ProcessingMode;

    /// Which body phases this processor participates in: its declared mode.
    /// A headers-only processor answers `ProcessingMode::HEADERS_ONLY()`; a
    /// processor that handles bodies says so here.
    fn mode(&self) -> (r: ProcessingMode)
        ensures
            r == self.spec_mode(),
    ;
}

} // verus!
