//! Messages for the host's log.

use vstd::prelude::*;
use vstd::string::*;

verus! {

/// How grave a message is.
#[allow(non_camel_case_types)]
#[derive(Clone, Copy, Debug, PartialEq, Eq, Structural)]
pub enum LogType {
    VLC_MSG_INFO,
    VLC_MSG_ERR,
    VLC_MSG_WARN,
    VLC_MSG_DBG,
}

/// The module under which a plugin's messages are filed.
pub const LOG_MODULE: &'static str = "generic";

/// The format that every message is printed with: a text of a given
/// length.  The message itself is never read as a format.
pub const LOG_FORMAT: &'static str = "%.*s";

/// A logging sink of the host, by the handle that the host gave.
#[derive(Clone, Copy, Debug, PartialEq, Eq, Structural)]
pub struct Logger(pub usize);

/// The arguments of one call of the host's logging function.
#[derive(Clone, Debug, PartialEq, Eq)]
pub struct LogCall {
    pub logger: Logger,
    pub priority: LogType,
    pub module: String,
    pub logger_name: String,
    pub file: String,
    pub line: u32,
    pub func: String,
    pub format: String,
    /// The number of bytes of the message.
    pub length: usize,
    pub message: String,
}

impl Logger {
    /// The call of the host's logging function that logs `msg`.
    ///
    /// The message goes to the host as the argument of a fixed format,
    /// with its length in bytes, so that nothing in it is taken for a
    /// directive.
    pub fn log(
        &self,
        priority: LogType,
        logger: &str,
        file: &str,
        func: &str,
        line: u32,
        msg: &str,
    ) -> (call: LogCall)
        ensures
            call.logger == *self,
            call.priority == priority,
            call.module@ == LOG_MODULE@,
            call.logger_name@ == logger@,
            call.file@ == file@,
            call.line == line,
            call.func@ == func@,
            call.format@ == LOG_FORMAT@,
            call.length == msg.spec_bytes().len() as usize,
            call.message@ == msg@,
    {
        LogCall {
            logger: *self,
            priority,
            module: String::from_str(LOG_MODULE),
            logger_name: String::from_str(logger),
            file: String::from_str(file),
            line,
            func: String::from_str(func),
            format: String::from_str(LOG_FORMAT),
            length: msg.len(),
            message: String::from_str(msg),
        }
    }
}

} // verus!
