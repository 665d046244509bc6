use vstd::prelude::*;
use vstd::string::StringExecFns;
use vstd::utf8::{decode_utf8, valid_utf8};

verus! {

/// How fine-grained a log record is.
#[derive(PartialEq, Eq, Structural, Clone, Copy)]
pub enum LogLevel {
    Info,
    Debug,
}

/// A log record that the pipeline asks to be emitted.
pub enum LogRecord {
    /// A captured body that is valid text, labelled with its direction.
    Body { level: LogLevel, direction: String, text: String },
    /// The method, target and version of the inbound request, always at info level.
    RequestHead,
}

/// What a log record says, as plain values.
pub ghost enum LogEntry {
    Body { level: LogLevel, direction: Seq<char>, text: Seq<char> },
    RequestHead,
}

impl View for LogRecord {
    type V = LogEntry;

    open spec fn view(&self) -> LogEntry {
        match self {
            LogRecord::Body { level, direction, text } => LogEntry::Body {
                level: *level,
                direction: direction@,
                text: text@,
            },
            LogRecord::RequestHead => LogEntry::RequestHead,
        }
    }
}

/// The record that logs a body, if it is valid UTF-8 and logging is asked for
/// at some level.
pub open spec fn body_log(direction: Seq<char>, level: Option<LogLevel>, bytes: Seq<u8>) -> Option<
    LogEntry,
> {
    match level {
        Some(l) => if valid_utf8(bytes) {
            Some(LogEntry::Body { level: l, direction, text: decode_utf8(bytes) })
        } else {
            None
        },
        None => None,
    }
}

/// Reading a body failed: which direction, and the transport's own account.
pub struct CaptureError {
    pub direction: String,
    pub cause: String,
}

/// The client-facing text of a capture failure.
pub open spec fn capture_error_message(direction: Seq<char>, cause: Seq<char>) -> Seq<char> {
    "failed to read "@ + direction + " body: "@ + cause
}

impl CaptureError {
    /// A failed read is reported as a bad request.
    pub fn status_code(&self) -> (r: u16)
        ensures
            r == 400,
    {
        400
    }

    pub fn message(&self) -> (r: String)
        ensures
            r@ == capture_error_message(self.direction@, self.cause@),
    {
        let mut r = String::from_str("failed to read ");
        r.append(self.direction.as_str());
        r.append(" body: ");
        r.append(self.cause.as_str());
        r
    }
}

/// A body drained into memory, with the record to log about it, if any.
pub struct Captured {
    pub bytes: Vec<u8>,
    pub log: Option<LogRecord>,
}

impl Captured {
    /// The bytes from which the replacement body is built; they are the drained
    /// bytes, unchanged.
    pub fn into_body(self) -> (r: Vec<u8>)
        ensures
            r@ == self.bytes@,
    {
        self.bytes
    }
}

/// Relies on std::str::from_utf8: it succeeds exactly on valid UTF-8 and then
/// reads the bytes as the characters they encode.
#[verifier::external_body]
fn decode_text(bytes: &[u8]) -> (r: Option<String>)
    ensures
        r is Some <==> valid_utf8(bytes@),
        r matches Some(s) ==> s@ == decode_utf8(bytes@),
{
    match std::str::from_utf8(bytes) {
        Ok(s) => Some(s.to_string()),
        Err(_) => None,
    }
}

/// Takes the outcome of draining a body. On success the bytes are kept as they
/// came, and a text body yields a record at `level`; on failure the partial
/// data is gone and the error names the direction and the cause.
pub fn capture(direction: &str, level: Option<LogLevel>, drained: Result<Vec<u8>, String>) -> (r:
    Result<Captured, CaptureError>)
    ensures
        drained is Ok <==> r is Ok,
        r matches Ok(c) ==> {
            &&& c.bytes@ == drained->Ok_0@
            &&& match c.log {
                Some(rec) => body_log(direction@, level, c.bytes@) == Some(rec@),
                None => body_log(direction@, level, c.bytes@) is None,
            }
        },
        r matches Err(e) ==> e.direction@ == direction@ && e.cause@ == drained->Err_0@,
{
    match drained {
        Ok(bytes) => {
            let log = match level {
                Some(l) => match decode_text(bytes.as_slice()) {
                    Some(text) => Some(
                        LogRecord::Body { level: l, direction: String::from_str(direction), text },
                    ),
                    None => None,
                },
                None => None,
            };
            Ok(Captured { bytes, log })
        },
        Err(cause) => Err(CaptureError { direction: String::from_str(direction), cause }),
    }
}

/// Captures an inbound body; a text body is logged at info level when
/// `log_enabled`.
pub fn request_inspect_print(direction: &str, log_enabled: bool, drained: Result<Vec<u8>, String>) -> (r:
    Result<Captured, CaptureError>)
    ensures
        drained is Ok <==> r is Ok,
        r matches Ok(c) ==> {
            &&& c.bytes@ == drained->Ok_0@
            &&& match c.log {
                Some(rec) => body_log(
                    direction@,
                    if log_enabled { Some(LogLevel::Info) } else { None },
                    c.bytes@,
                ) == Some(rec@),
                None => body_log(
                    direction@,
                    if log_enabled { Some(LogLevel::Info) } else { None },
                    c.bytes@,
                ) is None,
            }
        },
        r matches Err(e) ==> e.direction@ == direction@ && e.cause@ == drained->Err_0@,
{
    let level = if log_enabled { Some(LogLevel::Info) } else { None };
    capture(direction, level, drained)
}

/// Captures an outbound body; a text body is always logged, at debug level.
pub fn response_print(direction: &str, drained: Result<Vec<u8>, String>) -> (r: Result<
    Captured,
    CaptureError,
>)
    ensures
        drained is Ok <==> r is Ok,
        r matches Ok(c) ==> {
            &&& c.bytes@ == drained->Ok_0@
            &&& match c.log {
                Some(rec) => body_log(direction@, Some(LogLevel::Debug), c.bytes@) == Some(rec@),
                None => body_log(direction@, Some(LogLevel::Debug), c.bytes@) is None,
            }
        },
        r matches Err(e) ==> e.direction@ == direction@ && e.cause@ == drained->Err_0@,
{
    capture(direction, Some(LogLevel::Debug), drained)
}

} // verus!
