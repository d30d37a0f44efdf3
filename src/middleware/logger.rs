//! The logging middleware: one record before the request goes down the
//! chain, one after its result comes back. The result itself passes through
//! untouched.

use vstd::prelude::*;
use crate::middleware::redirect::Method;

verus! {

/// A record emitted around a dispatch.
#[derive(Debug)]
pub enum LogRecord {
    /// The request is about to be sent.
    Start { method: Method, url: String },
    /// A response came back.
    Completed { status: u16, elapsed_ms: u64 },
    /// The rest of the chain failed.
    Failed { elapsed_ms: u64 },
}

/// The logging middleware.
#[derive(Clone, Copy, Debug)]
pub struct Logger {}

/// Creates the logging middleware.
pub fn new() -> (r: Logger)
    ensures
        r == (Logger {}),
{
    Logger::new()
}

impl Logger {
    /// Creates the logging middleware.
    pub fn new() -> (r: Logger)
        ensures
            r == (Logger {}),
    {
        Logger {}
    }

    /// The record emitted before a request to `url` goes down the chain.
    pub fn start(&self, method: Method, url: &String) -> (r: LogRecord)
        ensures
            r matches LogRecord::Start { method: m, url: u } && m == method && u@ == url@,
    {
        LogRecord::Start { method, url: url.clone() }
    }

    /// Passes the result of the rest of the chain back unchanged, with the one
    /// completion record for it: `Completed` with `status` for a response,
    /// `Failed` for an error. `status` is the status of the response in
    /// `result`, when there is one.
    pub fn finish<R, E>(&self, result: Result<R, E>, status: u16, elapsed_ms: u64) -> (r: (
        Result<R, E>,
        LogRecord,
    ))
        ensures
            r.0 == result,
            match result {
                Ok(_) => r.1 == (LogRecord::Completed { status, elapsed_ms }),
                Err(_) => r.1 == (LogRecord::Failed { elapsed_ms }),
            },
    {
        let record = match &result {
            Ok(_) => LogRecord::Completed { status, elapsed_ms },
            Err(_) => LogRecord::Failed { elapsed_ms },
        };
        (result, record)
    }
}

} // verus!
