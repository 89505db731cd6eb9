//! Request logs: the severity levels, the kind of request a log is for, and the fields a
//! request's log keeps.
use vstd::prelude::*;

use crate::text::starts_with;

verus! {

/// The severity of a log record.
#[derive(Clone, Copy, Debug, PartialEq, Eq)]
pub enum LogLevel {
    Trace,
    Debug,
    Info,
    Warn,
    Error,
}

/// The number a level is stored as: `ERROR` is 0, each finer level one more.
pub open spec fn level_number(level: LogLevel) -> i64 {
    match level {
        LogLevel::Trace => 4,
        LogLevel::Debug => 3,
        LogLevel::Info => 2,
        LogLevel::Warn => 1,
        LogLevel::Error => 0,
    }
}

/// The number a level is stored as.
pub fn level_to_int(level: &LogLevel) -> (r: i64)
    ensures
        r == level_number(*level),
{
    match *level {
        LogLevel::Trace => 4,
        LogLevel::Debug => 3,
        LogLevel::Info => 2,
        LogLevel::Warn => 1,
        LogLevel::Error => 0,
    }
}

/// Levels are stored in `0..=4`, finer levels as larger numbers, and no two levels share a
/// number.
pub proof fn lemma_level_numbers(a: LogLevel, b: LogLevel)
    ensures
        0 <= level_number(a) <= 4,
        level_number(a) == level_number(b) <==> a == b,
{
}

/// The kind of request a log is for, by the request's path: admin API (1), record API
/// (3), any other HTTP request (2).
pub open spec fn request_type_of(path: Seq<char>) -> i64 {
    if path.len() >= 11 && path.take(11) == "/api/_admin"@ {
        1
    } else if path.len() >= 15 && path.take(15) == "/api/records/v1"@ {
        3
    } else {
        2
    }
}

/// The kind of request a log is for.
pub fn request_log_type(path: &str) -> (r: i64)
    ensures
        r == request_type_of(path@),
{
    proof {
        reveal_strlit("/api/_admin");
        reveal_strlit("/api/records/v1");
    }
    if starts_with(path, "/api/_admin") {
        1
    } else if starts_with(path, "/api/records/v1") {
        3
    } else {
        2
    }
}

/// The fields of a request's log that are stored: the request's kind, method, URI, client,
/// host, referer, user agent and HTTP version, the level, and the response's status and
/// length. Other recorded fields are not stored and not kept.
#[derive(Clone, Debug, Default, PartialEq, Eq)]
pub struct LogFields {
    pub request_type: i64,
    pub method: String,
    pub uri: String,
    pub client_ip: String,
    pub host: String,
    pub referer: String,
    pub user_agent: String,
    pub version: String,
    pub level: i64,
    pub status: u64,
    pub length: i64,
}

impl LogFields {
    /// Records a signed field: `length` and `request_type` are kept.
    pub fn record_i64(&mut self, name: &str, v: i64)
        ensures
            *final(self) == if name@ == "length"@ {
                (LogFields { length: v, ..*old(self) })
            } else if name@ == "request_type"@ {
                (LogFields { request_type: v, ..*old(self) })
            } else {
                *old(self)
            },
    {
        if crate::text::str_eq(name, "length") {
            self.length = v;
        } else if crate::text::str_eq(name, "request_type") {
            self.request_type = v;
        }
    }

    /// Records an unsigned field: `status` is kept.
    pub fn record_u64(&mut self, name: &str, v: u64)
        ensures
            *final(self) == if name@ == "status"@ {
                (LogFields { status: v, ..*old(self) })
            } else {
                *old(self)
            },
    {
        if crate::text::str_eq(name, "status") {
            self.status = v;
        }
    }

    /// Records a text field: the client's address, the host, the referer and the user
    /// agent are kept.
    pub fn record_str(&mut self, name: &str, v: &str)
        ensures
            if name@ == "client_ip"@ {
                final(self).client_ip@ == v@ && *final(self) == (LogFields { client_ip: final(self).client_ip, ..*old(self) })
            } else if name@ == "host"@ {
                final(self).host@ == v@ && *final(self) == (LogFields { host: final(self).host, ..*old(self) })
            } else if name@ == "referer"@ {
                final(self).referer@ == v@ && *final(self) == (LogFields { referer: final(self).referer, ..*old(self) })
            } else if name@ == "user_agent"@ {
                final(self).user_agent@ == v@ && *final(self) == (LogFields {
                    user_agent: final(self).user_agent,
                    ..*old(self)
                })
            } else {
                *final(self) == *old(self)
            },
    {
        if crate::text::str_eq(name, "client_ip") {
            self.client_ip = String::from_str(v);
        } else if crate::text::str_eq(name, "host") {
            self.host = String::from_str(v);
        } else if crate::text::str_eq(name, "referer") {
            self.referer = String::from_str(v);
        } else if crate::text::str_eq(name, "user_agent") {
            self.user_agent = String::from_str(v);
        }
    }

    /// Records a field given by its debug text: the method, the URI and the HTTP version
    /// are kept, anything else (such as messages) is skipped.
    pub fn record_debug(&mut self, name: &str, text: String)
        ensures
            *final(self) == if name@ == "method"@ {
                (LogFields { method: text, ..*old(self) })
            } else if name@ == "uri"@ {
                (LogFields { uri: text, ..*old(self) })
            } else if name@ == "version"@ {
                (LogFields { version: text, ..*old(self) })
            } else {
                *old(self)
            },
    {
        if crate::text::str_eq(name, "method") {
            self.method = text;
        } else if crate::text::str_eq(name, "uri") {
            self.uri = text;
        } else if crate::text::str_eq(name, "version") {
            self.version = text;
        }
    }
}

} // verus!
