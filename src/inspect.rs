use vstd::prelude::*;
use vstd::utf8::{decode_utf8, valid_utf8};
use crate::capture::{
    body_log, capture_error_message, request_inspect_print, response_print, LogEntry, LogLevel,
    LogRecord,
};

verus! {

/// The inspection middleware as configured at start-up: whether bodies are logged.
pub struct Inspector {
    pub log_enabled: bool,
}

/// Builds the middleware; the flag is fixed for every exchange it handles.
pub fn make_request_response_inspecter(log_enabled: bool) -> (r: Inspector)
    ensures
        r.log_enabled == log_enabled,
{
    Inspector { log_enabled }
}

/// Where one request/response exchange stands; stages only move forward.
#[derive(PartialEq, Eq, Structural, Clone, Copy)]
pub enum Stage {
    AwaitingRequestBody,
    Dispatching,
    AwaitingResponseBody,
    Finished,
}

/// What the caller must do next.
pub enum Action {
    /// Run the next handler on the request, with its body rebuilt from these bytes.
    Forward(Vec<u8>),
    /// End the exchange with this status and message.
    Reject { status: u16, message: String },
    /// Drain the response body and hand the outcome back.
    DrainResponse,
    /// Send the response on in its original, unread form.
    PassThrough,
    /// Send the response with its body rebuilt from these bytes.
    Respond(Vec<u8>),
}

/// An action together with the records to log, in order, before carrying it out.
pub struct Step {
    pub action: Action,
    pub logs: Vec<LogRecord>,
}

/// The state of one exchange. The ghost fields record what was logged so far
/// and the bodies that were captured.
pub struct Exchange {
    pub log_enabled: bool,
    pub debug_enabled: bool,
    pub stage: Stage,
    pub trace: Ghost<Seq<LogEntry>>,
    pub request_body: Ghost<Option<Seq<u8>>>,
    pub response_body: Ghost<Option<Seq<u8>>>,
}

/// The level at which request bodies are logged, if at all.
pub open spec fn request_level(log_enabled: bool) -> Option<LogLevel> {
    if log_enabled {
        Some(LogLevel::Info)
    } else {
        None
    }
}

pub open spec fn option_seq(e: Option<LogEntry>) -> Seq<LogEntry> {
    match e {
        Some(x) => seq![x],
        None => seq![],
    }
}

/// The records logged while the request is taken in: its body, if logged, then its head.
pub open spec fn request_logs(log_enabled: bool, body: Seq<u8>) -> Seq<LogEntry> {
    option_seq(body_log("request"@, request_level(log_enabled), body)) + seq![LogEntry::RequestHead]
}

/// The records logged when the response body is captured.
pub open spec fn response_logs(body: Seq<u8>) -> Seq<LogEntry> {
    option_seq(body_log("response"@, Some(LogLevel::Debug), body))
}

pub open spec fn entries(logs: Seq<LogRecord>) -> Seq<LogEntry> {
    logs.map_values(|r: LogRecord| r@)
}

impl Exchange {
    /// The stage, the captured bodies and the trace of logged records agree.
    pub open spec fn wf(&self) -> bool {
        match self.stage {
            Stage::AwaitingRequestBody => {
                &&& self.trace@ == Seq::<LogEntry>::empty()
                &&& self.request_body@ is None
                &&& self.response_body@ is None
            },
            Stage::Dispatching => {
                &&& self.request_body@ matches Some(q) && self.trace@ == request_logs(
                    self.log_enabled,
                    q,
                )
                &&& self.response_body@ is None
            },
            Stage::AwaitingResponseBody => {
                &&& self.log_enabled && self.debug_enabled
                &&& self.request_body@ matches Some(q) && self.trace@ == request_logs(
                    self.log_enabled,
                    q,
                )
                &&& self.response_body@ is None
            },
            Stage::Finished => match self.request_body@ {
                None => self.trace@ == Seq::<LogEntry>::empty() && self.response_body@ is None,
                Some(q) => match self.response_body@ {
                    None => self.trace@ == request_logs(self.log_enabled, q),
                    Some(p) => {
                        &&& self.log_enabled && self.debug_enabled
                        &&& self.trace@ == request_logs(self.log_enabled, q) + response_logs(p)
                    },
                },
            },
        }
    }
}

impl Inspector {
    /// Opens an exchange; `debug_enabled` is whether the active log verbosity
    /// reaches debug level.
    pub fn begin(&self, debug_enabled: bool) -> (r: Exchange)
        ensures
            r.wf(),
            r.stage == Stage::AwaitingRequestBody,
            r.log_enabled == self.log_enabled,
            r.debug_enabled == debug_enabled,
    {
        Exchange {
            log_enabled: self.log_enabled,
            debug_enabled,
            stage: Stage::AwaitingRequestBody,
            trace: Ghost(Seq::empty()),
            request_body: Ghost(None),
            response_body: Ghost(None),
        }
    }
}

impl Exchange {
    /// Takes the outcome of draining the request body. On success the request
    /// goes on with exactly the drained bytes, after its body (when logged) and
    /// its head are logged; on failure the exchange ends with a bad request and
    /// the handler is never run.
    pub fn on_request_body(&mut self, drained: Result<Vec<u8>, String>) -> (r: Step)
        requires
            old(self).wf(),
            old(self).stage == Stage::AwaitingRequestBody,
        ensures
            final(self).wf(),
            final(self).log_enabled == old(self).log_enabled,
            final(self).debug_enabled == old(self).debug_enabled,
            final(self).trace@ == old(self).trace@ + entries(r.logs@),
            final(self).response_body@ is None,
            match drained {
                Ok(b) => {
                    &&& final(self).stage == Stage::Dispatching
                    &&& final(self).request_body@ == Some(b@)
                    &&& r.action matches Action::Forward(f) && f@ == b@
                    &&& entries(r.logs@) == request_logs(old(self).log_enabled, b@)
                },
                Err(cause) => {
                    &&& final(self).stage == Stage::Finished
                    &&& final(self).request_body@ is None
                    &&& r.action matches Action::Reject { status, message } && status == 400
                        && message@ == capture_error_message("request"@, cause@)
                    &&& r.logs@.len() == 0
                },
            },
    {
        match request_inspect_print("request", self.log_enabled, drained) {
            Ok(c) => {
                let ghost q = c.bytes@;
                let mut logs: Vec<LogRecord> = Vec::new();
                match c.log {
                    Some(rec) => logs.push(rec),
                    None => {},
                }
                logs.push(LogRecord::RequestHead);
                assert(entries(logs@) =~= request_logs(self.log_enabled, q));
                self.stage = Stage::Dispatching;
                self.request_body = Ghost(Some(q));
                self.trace = Ghost(self.trace@ + entries(logs@));
                Step { action: Action::Forward(c.bytes), logs }
            },
            Err(e) => {
                let status = e.status_code();
                let message = e.message();
                self.stage = Stage::Finished;
                let logs: Vec<LogRecord> = Vec::new();
                assert(entries(logs@) =~= Seq::<LogEntry>::empty());
                assert(self.trace@ + entries(logs@) =~= self.trace@);
                Step { action: Action::Reject { status, message }, logs }
            },
        }
    }

    /// Called once the handler has produced a response. Only when body logging
    /// is on and the verbosity reaches debug is the response body drained;
    /// otherwise it is passed on unread.
    pub fn on_response(&mut self) -> (r: Action)
        requires
            old(self).wf(),
            old(self).stage == Stage::Dispatching,
        ensures
            final(self).wf(),
            final(self).log_enabled == old(self).log_enabled,
            final(self).debug_enabled == old(self).debug_enabled,
            final(self).trace@ == old(self).trace@,
            final(self).request_body@ == old(self).request_body@,
            final(self).response_body@ is None,
            if old(self).log_enabled && old(self).debug_enabled {
                &&& r is DrainResponse
                &&& final(self).stage == Stage::AwaitingResponseBody
            } else {
                &&& r is PassThrough
                &&& final(self).stage == Stage::Finished
            },
    {
        if self.log_enabled && self.debug_enabled {
            self.stage = Stage::AwaitingResponseBody;
            Action::DrainResponse
        } else {
            self.stage = Stage::Finished;
            Action::PassThrough
        }
    }

    /// Takes the outcome of draining the response body. On success the response
    /// goes out with exactly the drained bytes, its body logged at debug level
    /// when it is text; a failure ends the exchange with a 400.
    pub fn on_response_body(&mut self, drained: Result<Vec<u8>, String>) -> (r: Step)
        requires
            old(self).wf(),
            old(self).stage == Stage::AwaitingResponseBody,
        ensures
            final(self).wf(),
            final(self).stage == Stage::Finished,
            final(self).log_enabled == old(self).log_enabled,
            final(self).debug_enabled == old(self).debug_enabled,
            final(self).request_body@ == old(self).request_body@,
            final(self).trace@ == old(self).trace@ + entries(r.logs@),
            match drained {
                Ok(b) => {
                    &&& final(self).response_body@ == Some(b@)
                    &&& r.action matches Action::Respond(f) && f@ == b@
                    &&& entries(r.logs@) == response_logs(b@)
                },
                Err(cause) => {
                    &&& final(self).response_body@ is None
                    &&& r.action matches Action::Reject { status, message } && status == 400
                        && message@ == capture_error_message("response"@, cause@)
                    &&& r.logs@.len() == 0
                },
            },
    {
        match response_print("response", drained) {
            Ok(c) => {
                let ghost p = c.bytes@;
                let mut logs: Vec<LogRecord> = Vec::new();
                match c.log {
                    Some(rec) => logs.push(rec),
                    None => {},
                }
                assert(entries(logs@) =~= response_logs(p));
                self.stage = Stage::Finished;
                self.response_body = Ghost(Some(p));
                self.trace = Ghost(self.trace@ + entries(logs@));
                Step { action: Action::Respond(c.bytes), logs }
            },
            Err(e) => {
                let status = e.status_code();
                let message = e.message();
                self.stage = Stage::Finished;
                let logs: Vec<LogRecord> = Vec::new();
                assert(entries(logs@) =~= Seq::<LogEntry>::empty());
                assert(self.trace@ + entries(logs@) =~= self.trace@);
                Step { action: Action::Reject { status, message }, logs }
            },
        }
    }
}

/// When body logging is off, no exchange ever drains its response body,
/// whatever the log verbosity: in every state the response is still unread.
pub proof fn lemma_gate_closed_leaves_response_unread(x: Exchange)
    requires
        x.wf(),
        !x.log_enabled,
    ensures
        x.stage != Stage::AwaitingResponseBody,
        x.response_body@ is None,
{
}

/// With body logging on and debug verbosity, an exchange that captured two
/// text bodies has logged each exactly once, the request body first (at info
/// level, followed by the request head) and the response body last (at debug
/// level).
pub proof fn lemma_debug_logs_each_body_once_in_order(x: Exchange, q: Seq<u8>, p: Seq<u8>)
    requires
        x.wf(),
        x.stage == Stage::Finished,
        x.log_enabled,
        x.request_body@ == Some(q),
        x.response_body@ == Some(p),
        valid_utf8(q),
        valid_utf8(p),
    ensures
        x.debug_enabled,
        x.trace@ == seq![
            LogEntry::Body { level: LogLevel::Info, direction: "request"@, text: decode_utf8(q) },
            LogEntry::RequestHead,
            LogEntry::Body { level: LogLevel::Debug, direction: "response"@, text: decode_utf8(p) },
        ],
{
    assert(x.trace@ =~= seq![
        LogEntry::Body { level: LogLevel::Info, direction: "request"@, text: decode_utf8(q) },
        LogEntry::RequestHead,
        LogEntry::Body { level: LogLevel::Debug, direction: "response"@, text: decode_utf8(p) },
    ]);
}

} // verus!
