//! Log records, in the shape in which they are reported.

use vstd::prelude::*;

verus! {

#[derive(Clone, Copy, Debug, PartialEq, Eq, Structural)]
pub enum LogLevel {
    Debug,
    Info,
    Warning,
    Error,
}

/// One log record.
#[derive(Debug, PartialEq, Eq)]
pub struct Log {
    pub message: String,
    pub level: LogLevel,
}

pub struct LogView {
    pub message: Seq<char>,
    pub level: LogLevel,
}

impl DeepView for Log {
    type V = LogView;

    open spec fn deep_view(&self) -> LogView {
        LogView { message: self.message@, level: self.level }
    }
}

impl Clone for Log {
    fn clone(&self) -> (r: Self)
        ensures
            r.deep_view() == self.deep_view(),
    {
        Log { message: self.message.clone(), level: self.level }
    }
}

/// The message that carries one log record.
#[derive(Debug, PartialEq, Eq)]
pub struct LogMessage {
    pub jsonrpc: String,
    pub method: String,
    pub params: Log,
}

impl LogMessage {
    pub fn new(message: String, level: LogLevel) -> (r: Self)
        ensures
            r.jsonrpc@ == "2.0"@,
            r.method@ == "log"@,
            r.params.message == message,
            r.params.level == level,
    {
        Self { jsonrpc: "2.0".to_owned(), method: "log".to_owned(), params: Log { message, level } }
    }
}

} // verus!
