//! The closed label sets of the log format: severity level, request/response
//! type, and the routing distinction. Each is rendered as a fixed token whose
//! exact casing is part of the wire contract.

use vstd::prelude::*;
use vstd::string::StringExecFns;

verus! {

/// Severity of a log record.
#[derive(Clone, Copy, PartialEq, Eq, Structural, Debug)]
pub enum LogLevel {
    INFO,
    ERROR,
}

impl LogLevel {
    /// The canonical token of this level inside a log line.
    pub open spec fn spec_log_str(self) -> Seq<char> {
        match self {
            LogLevel::INFO => "INFO"@,
            LogLevel::ERROR => "ERROR"@,
        }
    }

    /// Renders this level as its canonical uppercase token.
    pub fn as_log_str(&self) -> (s: String)
        ensures
            s@ == self.spec_log_str(),
    {
        match self {
            LogLevel::INFO => String::from_str("INFO"),
            LogLevel::ERROR => String::from_str("ERROR"),
        }
    }
}

/// Phase of a log record: a request to a component, or its response.
#[derive(Clone, Copy, PartialEq, Eq, Structural, Debug)]
pub enum LogType {
    REQUEST,
    RESPONSE,
}

impl LogType {
    /// The canonical token of this type inside a log line.
    pub open spec fn spec_log_str(self) -> Seq<char> {
        match self {
            LogType::REQUEST => "REQUEST"@,
            LogType::RESPONSE => "RESPONSE"@,
        }
    }

    /// Renders this type as its canonical uppercase token.
    pub fn as_log_str(&self) -> (s: String)
        ensures
            s@ == self.spec_log_str(),
    {
        match self {
            LogType::REQUEST => String::from_str("REQUEST"),
            LogType::RESPONSE => String::from_str("RESPONSE"),
        }
    }
}

/// Routing key of a log record: which physical log file its line goes to.
#[derive(Clone, Copy, PartialEq, Eq, Structural, Debug)]
pub enum LogDistinction {
    SERVER,
    DB,
}

impl LogDistinction {
    /// The canonical lowercase token of this distinction; it doubles as the
    /// file-name stem of the target log file.
    pub open spec fn spec_log_str(self) -> Seq<char> {
        match self {
            LogDistinction::SERVER => "server"@,
            LogDistinction::DB => "db"@,
        }
    }

    /// Renders this distinction as its canonical lowercase token.
    pub fn as_log_str(&self) -> (s: String)
        ensures
            s@ == self.spec_log_str(),
    {
        match self {
            LogDistinction::SERVER => String::from_str("server"),
            LogDistinction::DB => String::from_str("db"),
        }
    }
}

/// A level token holds no newline.
pub proof fn lemma_log_level_token_newline_free(l: LogLevel)
    ensures
        !l.spec_log_str().contains('\n'),
{
    reveal_strlit("INFO");
    reveal_strlit("ERROR");
    if l.spec_log_str().contains('\n') {
        let i = choose|i: int| 0 <= i < l.spec_log_str().len() && l.spec_log_str()[i] == '\n';
    }
}

/// A type token holds no newline.
pub proof fn lemma_log_type_token_newline_free(t: LogType)
    ensures
        !t.spec_log_str().contains('\n'),
{
    reveal_strlit("REQUEST");
    reveal_strlit("RESPONSE");
    if t.spec_log_str().contains('\n') {
        let i = choose|i: int| 0 <= i < t.spec_log_str().len() && t.spec_log_str()[i] == '\n';
    }
}

} // verus!
