//! Console session decisions and console/status line rendering.
//!
//! Attaching to a parent console, allocating a fresh one, and writing
//! UTF-16 to it are operating-system calls made by the unverified shell;
//! the decisions taken on their outcomes, and the exact text of every
//! line written, are verified here.

use vstd::prelude::*;
use vstd::string::*;
use vstd::utf8::char_is_scalar;

verus! {

/// Error code reported when the process already owns a console.
pub const ERROR_CODE_ACCESS_DENIED: u32 = 5;
/// Error code reported when the parent process has no console.
pub const ERROR_CODE_INVALID_HANDLE: u32 = 6;

/// How an attempt to attach to the parent process's console ended:
/// attached, already attached (reported as an access-denied error), no
/// console to attach to (an invalid-handle error), or some other error.
#[derive(PartialEq, Eq, Structural, Clone, Copy, Debug)]
pub enum AttachOutcome {
    Attached,
    AccessDenied,
    InvalidHandle,
    OtherError,
}

/// A usable console, remembering whether it was borrowed from the parent
/// process and must be detached again when the session ends.
#[derive(PartialEq, Eq, Structural, Clone, Copy, Debug)]
pub struct ConsoleSession {
    pub release_on_drop: bool,
}

/// The attach outcome a raw error code denotes, for an attach call that
/// failed.
pub open spec fn spec_attach_outcome(code: u32) -> AttachOutcome {
    if code == ERROR_CODE_ACCESS_DENIED {
        AttachOutcome::AccessDenied
    } else if code == ERROR_CODE_INVALID_HANDLE {
        AttachOutcome::InvalidHandle
    } else {
        AttachOutcome::OtherError
    }
}

/// Classify the error code of a failed attach call.
pub fn attach_outcome_from_error(code: u32) -> (o: AttachOutcome)
    ensures
        o == spec_attach_outcome(code),
{
    if code == ERROR_CODE_ACCESS_DENIED {
        AttachOutcome::AccessDenied
    } else if code == ERROR_CODE_INVALID_HANDLE {
        AttachOutcome::InvalidHandle
    } else {
        AttachOutcome::OtherError
    }
}

/// The session an attach outcome yields: a fresh attachment is released
/// at the end of the session; a console the process already owned is
/// kept; no console, or any other error, yields no session.
pub open spec fn spec_attach(o: AttachOutcome, release_on_drop: bool) -> Option<ConsoleSession> {
    match o {
        AttachOutcome::Attached => Some(ConsoleSession { release_on_drop }),
        AttachOutcome::AccessDenied => Some(ConsoleSession { release_on_drop: false }),
        AttachOutcome::InvalidHandle => None,
        AttachOutcome::OtherError => None,
    }
}

/// The session that `ensure` yields: an attached or already-owned console
/// if there is one, else a newly allocated console if allocation
/// succeeded, which is kept for the process.
pub open spec fn spec_ensure(o: AttachOutcome, alloc_ok: bool) -> Option<ConsoleSession> {
    if spec_attach(o, false) is Some {
        spec_attach(o, false)
    } else if alloc_ok {
        Some(ConsoleSession { release_on_drop: false })
    } else {
        None
    }
}

impl ConsoleSession {
    /// Decide a temporary session from the outcome of attaching to the
    /// parent console: it is detached again when the session ends.
    pub fn attach_temporary(outcome: AttachOutcome) -> (r: Option<ConsoleSession>)
        ensures
            r == spec_attach(outcome, true),
    {
        Self::attach(outcome, true)
    }

    /// Decide a lasting session: attach to the parent console, and when
    /// there is none, fall back to allocating a fresh console.
    pub fn ensure(outcome: AttachOutcome, alloc_ok: bool) -> (r: Option<ConsoleSession>)
        ensures
            r == spec_ensure(outcome, alloc_ok),
    {
        let attached = Self::attach(outcome, false);
        if attached.is_some() {
            attached
        } else if alloc_ok {
            Some(ConsoleSession { release_on_drop: false })
        } else {
            None
        }
    }

    fn attach(outcome: AttachOutcome, release_on_drop: bool) -> (r: Option<ConsoleSession>)
        ensures
            r == spec_attach(outcome, release_on_drop),
    {
        match outcome {
            AttachOutcome::Attached => Some(ConsoleSession { release_on_drop }),
            AttachOutcome::AccessDenied => Some(ConsoleSession { release_on_drop: false }),
            AttachOutcome::InvalidHandle => None,
            AttachOutcome::OtherError => None,
        }
    }

    /// The exact UTF-16 buffer a message is written to the console as.
    pub fn println(&self, message: &str) -> (buf: Vec<u16>)
        ensures
            buf@ == spec_utf16(message@) + seq![13u16, 10u16],
    {
        write_console_line(message)
    }
}

/// The UTF-16 code units of one character: a single unit for a
/// basic-plane character, a surrogate pair for a supplementary one.
pub open spec fn spec_utf16_units(c: char) -> Seq<u16> {
    let v = c as u32;
    if v < 0x10000 {
        seq![v as u16]
    } else {
        let off = v - 0x10000;
        seq![(0xD800 + off / 0x400) as u16, (0xDC00 + off % 0x400) as u16]
    }
}

/// The UTF-16 encoding of a character sequence.
pub open spec fn spec_utf16(s: Seq<char>) -> Seq<u16>
    decreases s.len(),
{
    if s.len() == 0 {
        Seq::empty()
    } else {
        spec_utf16(s.drop_last()) + spec_utf16_units(s.last())
    }
}

/// Encode a message as the exact UTF-16 buffer written to the console:
/// the message's code units followed by a carriage return and a line
/// feed.
pub fn write_console_line(message: &str) -> (buf: Vec<u16>)
    ensures
        buf@ == spec_utf16(message@) + seq![13u16, 10u16],
{
    let len: usize = message.unicode_len();
    let mut buf: Vec<u16> = Vec::new();
    let mut i: usize = 0;
    while i < len
        invariant
            i <= len,
            len == message@.len(),
            buf@ == spec_utf16(message@.subrange(0, i as int)),
        decreases len - i,
    {
        let c = message.get_char(i);
        proof {
            char_is_scalar(c);
            assert(message@.subrange(0, i as int + 1).drop_last() =~= message@.subrange(
                0,
                i as int,
            ));
        }
        let v: u32 = c as u32;
        if v < 0x10000 {
            buf.push(v as u16);
        } else {
            let off: u32 = v - 0x10000;
            buf.push((0xD800 + off / 0x400) as u16);
            buf.push((0xDC00 + off % 0x400) as u16);
        }
        i = i + 1;
    }
    proof {
        assert(message@.subrange(0, len as int) =~= message@);
    }
    buf.push(13);
    buf.push(10);
    buf
}

/// The console prefix: the tool's tag, marked when the process runs
/// elevated.
pub open spec fn spec_console_prefix(elevated: bool) -> Seq<char> {
    if elevated {
        "[ChsIMExx Admin]"@
    } else {
        "[ChsIMExx]"@
    }
}

/// The toast title, marked when the process runs elevated.
pub open spec fn spec_toast_title(elevated: bool) -> Seq<char> {
    if elevated {
        "ChsIME++ (Admin)"@
    } else {
        "ChsIME++"@
    }
}

/// The console prefix for this process's elevation state.
pub fn console_prefix(elevated: bool) -> (r: String)
    ensures
        r@ == spec_console_prefix(elevated),
{
    if elevated {
        String::from_str("[ChsIMExx Admin]")
    } else {
        String::from_str("[ChsIMExx]")
    }
}

/// The toast title for this process's elevation state.
pub fn toast_title(elevated: bool) -> (r: String)
    ensures
        r@ == spec_toast_title(elevated),
{
    if elevated {
        String::from_str("ChsIME++ (Admin)")
    } else {
        String::from_str("ChsIME++")
    }
}

/// The exact console line a status message is logged as: a blank line,
/// the prefix, a space, and the message.
pub fn log_to_console(message: &str, elevated: bool) -> (line: String)
    ensures
        line@ == "\r\n"@ + spec_console_prefix(elevated) + " "@ + message@,
{
    let prefix = console_prefix(elevated);
    let mut line = String::from_str("\r\n");
    line.append(prefix.as_str());
    line.append(" ");
    line.append(message);
    line
}

/// The exact console line an error message is logged as: a blank line,
/// the prefix, the error tag, and the message.
pub fn log_error(message: &str, elevated: bool) -> (line: String)
    ensures
        line@ == "\r\n"@ + spec_console_prefix(elevated) + "[错误] "@ + message@,
{
    let prefix = console_prefix(elevated);
    let mut line = String::from_str("\r\n");
    line.append(prefix.as_str());
    line.append("[错误] ");
    line.append(message);
    line
}

} // verus!
