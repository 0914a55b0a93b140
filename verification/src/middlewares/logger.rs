//! Log all outgoing responses.
//!
//! The middleware chain wraps every request in a fixed order: the
//! correlation-ID stage runs first and the logging stage second, and on the
//! way out the same order unwinds in reverse. This module holds the decisions
//! of both stages — what the context becomes and which record is emitted —
//! while the host performs the actual emission.

use vstd::prelude::*;
use vstd::string::StringExecFns;

verus! {

/// Everything the middleware chain knows about one inbound request. Created
/// when the request arrives, discarded when the response leaves; never shared
/// between requests.
pub struct RequestContext {
    /// The correlation ID, once the ID stage has assigned one.
    pub request_id: Option<String>,
    /// The logging stage's re-entry marker: set the first time it runs, so a
    /// request is logged exactly once even under nested routing.
    pub log_has_run: bool,
    pub method: String,
    pub path: String,
    pub peer_addr: Option<String>,
    pub referer: Option<String>,
    pub user_agent: Option<String>,
    /// The size of the inbound body, in bytes.
    pub body_size: usize,
}

/// The severity of one structured log record.
#[derive(Clone, Copy, Debug, PartialEq, Eq, Structural)]
pub enum LogLevel {
    Trace,
    Info,
    Warn,
    Error,
}

/// One structured log record, ready for the observability sink.
#[derive(Debug)]
pub struct LogRecord {
    pub level: LogLevel,
    pub message: String,
    pub request_id: String,
    /// The response status; absent on the inbound record.
    pub status: Option<u16>,
    /// The body size the record reports, when its level calls for one.
    pub body_size: Option<usize>,
    /// Elapsed handling time, absent on the inbound record.
    pub elapsed_ms: Option<u64>,
    /// The failure detail attached to a client-error response, if any.
    pub error_detail: Option<String>,
}

/// The correlation-ID stage: assign `fresh_id` if the request carries no ID
/// yet; a request that already has one passes through untouched, so re-entry
/// is a no-op.
pub fn assign_request_id(ctx: &mut RequestContext, fresh_id: String)
    ensures
        old(ctx).request_id is Some ==> *final(ctx) == *old(ctx),
        old(ctx).request_id is None ==> final(ctx).request_id == Some(fresh_id),
        final(ctx).log_has_run == old(ctx).log_has_run,
        final(ctx).method == old(ctx).method,
        final(ctx).path == old(ctx).path,
        final(ctx).peer_addr == old(ctx).peer_addr,
        final(ctx).referer == old(ctx).referer,
        final(ctx).user_agent == old(ctx).user_agent,
        final(ctx).body_size == old(ctx).body_size,
{
    if ctx.request_id.is_none() {
        ctx.request_id = Some(fresh_id);
    }
}

/// Log all outgoing responses.
#[derive(Clone, Debug)]
pub struct LogMiddleware {}

impl Default for LogMiddleware {
    fn default() -> Self {
        LogMiddleware {}
    }
}

impl LogMiddleware {
    /// Create a new instance of `LogMiddleware`.
    pub fn new() -> Self {
        LogMiddleware {}
    }

    /// The logging stage on the way in. The ID stage must have run first — a
    /// missing correlation ID here is a configuration error, not an input.
    /// The first passage marks the context and plans one trace-level record
    /// of the inbound request; any later passage changes nothing and plans
    /// nothing, so a request is logged exactly once.
    pub fn on_request(&self, ctx: &mut RequestContext) -> (r: Option<LogRecord>)
        requires
            old(ctx).request_id is Some,
        ensures
            final(ctx).request_id == old(ctx).request_id,
            final(ctx).method == old(ctx).method,
            final(ctx).path == old(ctx).path,
            final(ctx).peer_addr == old(ctx).peer_addr,
            final(ctx).referer == old(ctx).referer,
            final(ctx).user_agent == old(ctx).user_agent,
            final(ctx).body_size == old(ctx).body_size,
            old(ctx).log_has_run ==> r is None && final(ctx).log_has_run,
            !old(ctx).log_has_run ==> final(ctx).log_has_run && (r matches Some(rec)
                && rec.level == LogLevel::Trace && rec.message@ == "Incoming Request"@
                && rec.request_id@ == old(ctx).request_id->0@ && rec.status is None
                && rec.body_size == Some(old(ctx).body_size) && rec.elapsed_ms is None
                && rec.error_detail is None),
    {
        if ctx.log_has_run {
            return None;
        }
        ctx.log_has_run = true;
        let request_id = match &ctx.request_id {
            Some(id) => id.clone(),
            None => String::new(),
        };
        Some(
            LogRecord {
                level: LogLevel::Trace,
                message: String::from_str("Incoming Request"),
                request_id,
                status: None,
                body_size: Some(ctx.body_size),
                elapsed_ms: None,
                error_detail: None,
            },
        )
    }

    /// The logging stage on the way out: plan the one record that describes
    /// the response. A server error (5xx) is an error-level record — by the
    /// chain's configuration contract an error-normalization stage after this
    /// one has already given it a correlation ID. A client error (4xx) is a
    /// warning with the elapsed time and whatever failure detail the response
    /// carries. Everything else is an info record with elapsed time and the
    /// outbound body size.
    pub fn on_response(
        &self,
        ctx: &RequestContext,
        status: u16,
        body_size: usize,
        elapsed_ms: u64,
        error_detail: Option<String>,
    ) -> (rec: LogRecord)
        requires
            ctx.request_id is Some,
        ensures
            rec.request_id@ == ctx.request_id->0@,
            rec.status == Some(status),
            500 <= status < 600 ==> rec.level == LogLevel::Error && rec.message@
                == "Internal Error"@ && rec.body_size is None && rec.elapsed_ms is None
                && rec.error_detail is None,
            400 <= status < 500 ==> rec.level == LogLevel::Warn && rec.message@ == "Client Error"@
                && rec.body_size is None && rec.elapsed_ms == Some(elapsed_ms) && rec.error_detail
                == error_detail,
            status < 400 || 600 <= status ==> rec.level == LogLevel::Info && rec.message@
                == "Request Handled"@ && rec.body_size == Some(body_size) && rec.elapsed_ms == Some(
                elapsed_ms,
            ) && rec.error_detail is None,
    {
        let request_id = match &ctx.request_id {
            Some(id) => id.clone(),
            None => String::new(),
        };
        if 500 <= status && status < 600 {
            LogRecord {
                level: LogLevel::Error,
                message: String::from_str("Internal Error"),
                request_id,
                status: Some(status),
                body_size: None,
                elapsed_ms: None,
                error_detail: None,
            }
        } else if 400 <= status && status < 500 {
            LogRecord {
                level: LogLevel::Warn,
                message: String::from_str("Client Error"),
                request_id,
                status: Some(status),
                body_size: None,
                elapsed_ms: Some(elapsed_ms),
                error_detail,
            }
        } else {
            LogRecord {
                level: LogLevel::Info,
                message: String::from_str("Request Handled"),
                request_id,
                status: Some(status),
                body_size: Some(body_size),
                elapsed_ms: Some(elapsed_ms),
                error_detail: None,
            }
        }
    }
}

} // verus!
