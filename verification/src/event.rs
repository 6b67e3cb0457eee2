//! The events that a worker reports to its host, and their outward shape.

use vstd::prelude::*;

verus! {

/// What the scripting engine knows about an error that a script raised.
#[derive(Clone, Debug, PartialEq, Eq)]
pub struct ScriptError {
    /// The message of the exception, without any source position.
    pub message: String,
    /// The full rendering of the error, as it would be printed.
    pub rendered: String,
    /// The name of the script in which the error arose.
    pub script_resource_name: Option<String>,
    /// The line in that script.
    pub line_number: Option<i64>,
    /// The column at which the offending text starts.
    pub start_column: Option<i64>,
}

/// An error carried by a worker event, classified where it arose: either a
/// script error with the engine's source position, or an opaque failure of
/// which only its text is known.
#[derive(Clone, Debug, PartialEq, Eq)]
pub enum WorkerError {
    Opaque { message: String },
    Script { detail: ScriptError },
}

/// Something that a worker reports to its host.
#[derive(Clone, Debug, PartialEq, Eq)]
pub enum WorkerEvent {
    /// An opaque payload from the worker.
    Message(Vec<u8>),
    /// An error that the worker survives.
    Error(WorkerError),
    /// An error after which the worker is dead and has to be reclaimed.
    TerminalError(WorkerError),
}

/// The outward shape of an error.
#[derive(Clone, Debug, PartialEq, Eq)]
pub enum SerializedError {
    /// `{message}`
    Opaque { message: String },
    /// `{message, fileName, lineNumber, columnNumber}`
    Script {
        message: String,
        file_name: Option<String>,
        line_number: Option<i64>,
        column_number: Option<i64>,
    },
}

/// The outward shape of what polling a worker yields.
#[derive(Clone, Debug, PartialEq, Eq)]
pub enum SerializedEvent {
    /// `{type: "msg", data}`
    Msg { data: Vec<u8> },
    /// `{type: "error", error}`
    Error { error: SerializedError },
    /// `{type: "terminalError", error}`
    TerminalError { error: SerializedError },
    /// `{type: "close"}`
    Close,
}

/// The characters of an optional text.
pub open spec fn opt_text(s: Option<String>) -> Option<Seq<char>> {
    match s {
        Some(t) => Some(t@),
        None => None,
    }
}

pub struct ScriptErrorView {
    pub message: Seq<char>,
    pub rendered: Seq<char>,
    pub script_resource_name: Option<Seq<char>>,
    pub line_number: Option<i64>,
    pub start_column: Option<i64>,
}

impl View for ScriptError {
    type V = ScriptErrorView;

    open spec fn view(&self) -> ScriptErrorView {
        ScriptErrorView {
            message: self.message@,
            rendered: self.rendered@,
            script_resource_name: opt_text(self.script_resource_name),
            line_number: self.line_number,
            start_column: self.start_column,
        }
    }
}

pub enum WorkerErrorView {
    Opaque { message: Seq<char> },
    Script { detail: ScriptErrorView },
}

impl View for WorkerError {
    type V = WorkerErrorView;

    open spec fn view(&self) -> WorkerErrorView {
        match self {
            WorkerError::Opaque { message } => WorkerErrorView::Opaque { message: message@ },
            WorkerError::Script { detail } => WorkerErrorView::Script { detail: detail@ },
        }
    }
}

pub enum WorkerEventView {
    Message(Seq<u8>),
    Error(WorkerErrorView),
    TerminalError(WorkerErrorView),
}

impl View for WorkerEvent {
    type V = WorkerEventView;

    open spec fn view(&self) -> WorkerEventView {
        match self {
            WorkerEvent::Message(data) => WorkerEventView::Message(data@),
            WorkerEvent::Error(error) => WorkerEventView::Error(error@),
            WorkerEvent::TerminalError(error) => WorkerEventView::TerminalError(error@),
        }
    }
}

pub enum SerializedErrorView {
    Opaque { message: Seq<char> },
    Script {
        message: Seq<char>,
        file_name: Option<Seq<char>>,
        line_number: Option<i64>,
        column_number: Option<i64>,
    },
}

impl View for SerializedError {
    type V = SerializedErrorView;

    open spec fn view(&self) -> SerializedErrorView {
        match self {
            SerializedError::Opaque { message } => SerializedErrorView::Opaque {
                message: message@,
            },
            SerializedError::Script { message, file_name, line_number, column_number } => {
                SerializedErrorView::Script {
                    message: message@,
                    file_name: opt_text(*file_name),
                    line_number: *line_number,
                    column_number: *column_number,
                }
            },
        }
    }
}

pub enum SerializedEventView {
    Msg { data: Seq<u8> },
    Error { error: SerializedErrorView },
    TerminalError { error: SerializedErrorView },
    Close,
}

impl View for SerializedEvent {
    type V = SerializedEventView;

    open spec fn view(&self) -> SerializedEventView {
        match self {
            SerializedEvent::Msg { data } => SerializedEventView::Msg { data: data@ },
            SerializedEvent::Error { error } => SerializedEventView::Error { error: error@ },
            SerializedEvent::TerminalError { error } => SerializedEventView::TerminalError {
                error: error@,
            },
            SerializedEvent::Close => SerializedEventView::Close,
        }
    }
}

/// The text under which an error is reported where only text is asked for:
/// an opaque error's message, a script error's full rendering.
pub open spec fn spec_error_text(error: WorkerErrorView) -> Seq<char> {
    match error {
        WorkerErrorView::Opaque { message } => message,
        WorkerErrorView::Script { detail } => detail.rendered,
    }
}

/// The outward shape of an error: a script error keeps its bare message and
/// its position, an opaque error only its message.
pub open spec fn spec_serialize_error(error: WorkerErrorView) -> SerializedErrorView {
    match error {
        WorkerErrorView::Opaque { message } => SerializedErrorView::Opaque { message },
        WorkerErrorView::Script { detail } => SerializedErrorView::Script {
            message: detail.message,
            file_name: detail.script_resource_name,
            line_number: detail.line_number,
            column_number: detail.start_column,
        },
    }
}

/// The outward shape of an event.
pub open spec fn spec_serialize_worker_event(event: WorkerEventView) -> SerializedEventView {
    match event {
        WorkerEventView::Message(data) => SerializedEventView::Msg { data },
        WorkerEventView::Error(error) => SerializedEventView::Error {
            error: spec_serialize_error(error),
        },
        WorkerEventView::TerminalError(error) => SerializedEventView::TerminalError {
            error: spec_serialize_error(error),
        },
    }
}

/// The outward shape of what a poll yields: an event, or the closure of the
/// channel.
pub open spec fn spec_serialize_poll(polled: Option<WorkerEventView>) -> SerializedEventView {
    match polled {
        Some(event) => spec_serialize_worker_event(event),
        None => SerializedEventView::Close,
    }
}

/// What a poll yielded, as a mathematical value.
pub open spec fn polled_view(polled: Option<WorkerEvent>) -> Option<WorkerEventView> {
    match polled {
        Some(event) => Some(event@),
        None => None,
    }
}

/// The value of the `type` field of an outward event.
pub open spec fn spec_type_tag(event: SerializedEventView) -> Seq<char> {
    match event {
        SerializedEventView::Msg { .. } => "msg"@,
        SerializedEventView::Error { .. } => "error"@,
        SerializedEventView::TerminalError { .. } => "terminalError"@,
        SerializedEventView::Close => "close"@,
    }
}

impl WorkerError {
    /// The text of the error, for callers that report text only.
    pub fn text(&self) -> (text: String)
        ensures
            text@ == spec_error_text(self@),
    {
        match self {
            WorkerError::Opaque { message } => message.clone(),
            WorkerError::Script { detail } => detail.rendered.clone(),
        }
    }

    /// Whether the error carries the engine's source position.
    pub fn is_script_error(&self) -> (yes: bool)
        ensures
            yes == (self@ is Script),
    {
        match self {
            WorkerError::Opaque { .. } => false,
            WorkerError::Script { .. } => true,
        }
    }
}

impl WorkerEvent {
    /// Whether the worker is dead after this event.
    pub fn is_terminal(&self) -> (yes: bool)
        ensures
            yes == (self@ is TerminalError),
    {
        match self {
            WorkerEvent::TerminalError(_) => true,
            _ => false,
        }
    }
}

impl SerializedEvent {
    /// The value of the `type` field.
    pub fn type_tag(&self) -> (tag: &'static str)
        ensures
            tag@ == spec_type_tag(self@),
    {
        match self {
            SerializedEvent::Msg { .. } => "msg",
            SerializedEvent::Error { .. } => "error",
            SerializedEvent::TerminalError { .. } => "terminalError",
            SerializedEvent::Close => "close",
        }
    }
}

/// Gives an error its outward shape.
pub fn serialize_error(error: WorkerError) -> (out: SerializedError)
    ensures
        out@ == spec_serialize_error(error@),
{
    match error {
        WorkerError::Opaque { message } => SerializedError::Opaque { message },
        WorkerError::Script { detail } => SerializedError::Script {
            message: detail.message,
            file_name: detail.script_resource_name,
            line_number: detail.line_number,
            column_number: detail.start_column,
        },
    }
}

/// Gives an event its outward shape. The mapping has no side effect: a
/// message keeps its payload, an error keeps its kind and is classified by
/// `serialize_error`.
pub fn serialize_worker_event(event: WorkerEvent) -> (out: SerializedEvent)
    ensures
        out@ == spec_serialize_worker_event(event@),
{
    match event {
        WorkerEvent::Message(data) => SerializedEvent::Msg { data },
        WorkerEvent::TerminalError(error) => SerializedEvent::TerminalError {
            error: serialize_error(error),
        },
        WorkerEvent::Error(error) => SerializedEvent::Error { error: serialize_error(error) },
    }
}

/// Gives the result of a poll its outward shape: `Close` where the channel
/// was closed with nothing pending.
pub fn serialize_poll(polled: Option<WorkerEvent>) -> (out: SerializedEvent)
    ensures
        out@ == spec_serialize_poll(polled_view(polled)),
{
    match polled {
        Some(event) => serialize_worker_event(event),
        None => SerializedEvent::Close,
    }
}

} // verus!
