//! The closed set of failures an invocation can end in, one per pipeline stage.

use vstd::prelude::*;

verus! {

/// The stage at which an invocation failed.
#[derive(Clone, Copy, Debug, PartialEq, Eq, Structural)]
pub enum ErrorKind {
    /// The module source could not be declared.
    Loading,
    /// The declared module threw while it was evaluated.
    Evaluating,
    /// The evaluated module gave no namespace to look the export up in.
    GettingDefaultExport,
    /// The namespace has no callable export of the requested name.
    GettingDefaultFunction,
    /// The input text is not JSON.
    ParsingInputValues,
    /// The export threw, its promise was rejected, or its capabilities could
    /// not be built.
    CallingModuleFunction,
    /// The final value has no JSON text.
    NotStringifiable,
    /// The interpreter itself failed outside the stages above.
    EngineError,
}

/// A failure as contracts see it: its stage and the text describing its cause.
pub struct ErrorView {
    pub kind: ErrorKind,
    pub detail: Seq<char>,
}

/// A failure of one invocation: the stage it came from and a readable detail.
#[derive(Debug, PartialEq, Eq)]
pub struct Error {
    pub kind: ErrorKind,
    pub detail: String,
}

impl View for Error {
    type V = ErrorView;

    open spec fn view(&self) -> ErrorView {
        ErrorView { kind: self.kind, detail: self.detail@ }
    }
}

/// The words that introduce the detail in a failure's message.
pub open spec fn message_prefix(kind: ErrorKind) -> Seq<char> {
    match kind {
        ErrorKind::Loading => "Error loading module: "@,
        ErrorKind::Evaluating => "Error evaluating module: "@,
        ErrorKind::GettingDefaultExport => "Error getting default export: "@,
        ErrorKind::GettingDefaultFunction => "Error getting `default` function: "@,
        ErrorKind::ParsingInputValues => "Error parsing input values: "@,
        ErrorKind::CallingModuleFunction => ""@,
        ErrorKind::NotStringifiable => "Value could not be stringified to JSON: "@,
        ErrorKind::EngineError => "A QuickJS error occured: "@,
    }
}

/// The message of a failure: the words of its stage followed by the detail.
/// A value without JSON text and without a stated cause reads as the bare
/// sentence.
pub open spec fn error_message(e: ErrorView) -> Seq<char> {
    if e.kind == ErrorKind::NotStringifiable && e.detail.len() == 0 {
        "Value could not be stringified to JSON"@
    } else {
        message_prefix(e.kind) + e.detail
    }
}

impl ErrorKind {
    /// The words that introduce the detail in a message of this kind.
    pub fn prefix(self) -> (words: &'static str)
        ensures
            words@ == message_prefix(self),
    {
        match self {
            ErrorKind::Loading => "Error loading module: ",
            ErrorKind::Evaluating => "Error evaluating module: ",
            ErrorKind::GettingDefaultExport => "Error getting default export: ",
            ErrorKind::GettingDefaultFunction => "Error getting `default` function: ",
            ErrorKind::ParsingInputValues => "Error parsing input values: ",
            ErrorKind::CallingModuleFunction => "",
            ErrorKind::NotStringifiable => "Value could not be stringified to JSON: ",
            ErrorKind::EngineError => "A QuickJS error occured: ",
        }
    }
}

impl Error {
    /// A failure of the given kind with the given detail.
    pub fn new(kind: ErrorKind, detail: String) -> (e: Error)
        ensures
            e@ == (ErrorView { kind, detail: detail@ }),
    {
        Error { kind, detail }
    }

    /// The stage the failure came from.
    pub fn kind(&self) -> (kind: ErrorKind)
        ensures
            kind == self@.kind,
    {
        self.kind
    }

    /// The text describing the cause.
    pub fn detail(&self) -> (detail: &str)
        ensures
            detail@ == self@.detail,
    {
        self.detail.as_str()
    }

    /// The message shown to the host.
    pub fn message(&self) -> (text: String)
        ensures
            text@ == error_message(self@),
    {
        if self.kind == ErrorKind::NotStringifiable && self.detail.as_str().is_empty() {
            String::from_str("Value could not be stringified to JSON")
        } else {
            String::from_str(self.kind.prefix()).concat(self.detail.as_str())
        }
    }
}

} // verus!
