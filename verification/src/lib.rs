//! A polling watchdog library: per-site extraction strategies that turn one
//! fetched response into zero or one notification-worthy event, a
//! vendor-specific price-record filter, and the scheduling rules that drive
//! independent per-site polling loops.
//!
//! The library itself performs no I/O: fetching, sleeping and delivery live in
//! the surrounding binary, which hands response bodies in and carries
//! notifications out.

use vstd::prelude::*;

pub mod hotline_parser;
pub mod html_parser;
pub mod json_parser;
pub mod markup;
pub mod scheduler;
pub mod settings;
pub mod telegram_notifier;
pub mod text;

verus! {

/// One notification-worthy event: which site fired and a human-readable
/// description of what was seen.
#[derive(Debug)]
pub struct NotifyData {
    pub site_name: String,
    pub message: String,
}

/// A delivery sink for fired events. Implementations perform the actual
/// transport, so nothing is promised of the outcome of a call.
pub trait Notifier {
    fn notify(&self, data: &NotifyData) -> Result<(), NotifyError>;
}

/// One poll attempt: produce zero or one notification-worthy event.
/// Implementations fetch their own configured endpoint and hand the response
/// to the library's extraction functions.
pub trait Parser {
    fn parse(&self) -> Result<Option<NotifyData>, PollError>;
}

/// A fatal configuration fault, found when an extractor is constructed:
/// a required field is missing for the declared parser variant, or the
/// variant does not match the extractor.
#[derive(Debug, Clone, PartialEq, Eq, Structural)]
pub enum ConfigError {
    WrongParserType,
    MissingSelector,
    MissingIgnoredTexts,
    MissingMaxAllowedPrice,
    MissingTokenSelector,
    MissingTokenHeader,
    /// The configured selector string is not a valid selector group.
    InvalidSelector,
}

/// A fault of one poll attempt. The polling loop logs these and continues;
/// they never terminate a loop.
#[derive(Debug, Clone, PartialEq, Eq, Structural)]
pub enum PollError {
    /// An unparsable selector reached a poll. Construction validates every
    /// configured selector, so no well-formed extractor raises this.
    InvalidSelector,
    /// The token selector matched an element that carries no `content`
    /// attribute: a configuration problem, not a transient failure.
    MissingTokenAttribute,
    /// The response body could not be decoded as the expected feed shape.
    FeedDecode,
    /// The request itself failed; raised by the surrounding binary.
    Transport,
}

/// A delivery failure, raised by a `Notifier` implementation.
#[derive(Debug, Clone, PartialEq, Eq, Structural)]
pub struct NotifyError {
    pub kind: NotifyErrorKind,
}

#[derive(Debug, Clone, PartialEq, Eq, Structural)]
pub enum NotifyErrorKind {
    BadRequest,
    Transport,
}

} // verus!
