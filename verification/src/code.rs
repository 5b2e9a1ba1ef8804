//! Result codes that the browser reports.

use vstd::prelude::*;
use crate::ffi;

verus! {

/// A browser result code.
#[derive(Clone, Copy, PartialEq, Eq, Structural, Debug)]
pub enum Code {
    Success,
    BadResource,
    BadArgument,
    WrongThread,
    InProgress,
    Failed,
    NotSupported,
    NoMemory,
    NoSpace,
    NoQuota,
    ContextLost,
    CompletionPending,
    FileNotFound,
    FileExists,
    NoAccess,
    ConnectionRefused,
    ConnectionReset,
    ConnectionAborted,
    ConnectionClosed,
    TimedOut,
    /// The browser has no such interface: a code of the library's own,
    /// never read from a browser's answer.
    NoInterface,
}

/// The raw codes that the library knows how to read.
pub open spec fn is_known_code(code: i32) -> bool {
    ||| code == ffi::PP_OK
    ||| code == ffi::PP_OK_COMPLETIONPENDING
    ||| code == ffi::PP_ERROR_BADRESOURCE
    ||| code == ffi::PP_ERROR_BADARGUMENT
    ||| code == ffi::PP_ERROR_WRONG_THREAD
    ||| code == ffi::PP_ERROR_INPROGRESS
    ||| code == ffi::PP_ERROR_FAILED
    ||| code == ffi::PP_ERROR_NOTSUPPORTED
    ||| code == ffi::PP_ERROR_NOMEMORY
    ||| code == ffi::PP_ERROR_CONTEXT_LOST
    ||| code == ffi::PP_ERROR_FILENOTFOUND
    ||| code == ffi::PP_ERROR_FILEEXISTS
    ||| code == ffi::PP_ERROR_NOACCESS
    ||| code == ffi::PP_ERROR_CONNECTION_REFUSED
    ||| code == ffi::PP_ERROR_CONNECTION_RESET
    ||| code == ffi::PP_ERROR_CONNECTION_ABORTED
    ||| code == ffi::PP_ERROR_CONNECTION_CLOSED
    ||| code == ffi::PP_ERROR_TIMEDOUT
    ||| code == ffi::PP_ERROR_CONNECTION_TIMEDOUT
}

/// The raw value that stands for each code.
pub open spec fn code_value(c: Code) -> i32 {
    match c {
        Code::Success => ffi::PP_OK,
        Code::CompletionPending => ffi::PP_OK_COMPLETIONPENDING,
        Code::BadResource => ffi::PP_ERROR_BADRESOURCE,
        Code::BadArgument => ffi::PP_ERROR_BADARGUMENT,
        Code::WrongThread => ffi::PP_ERROR_WRONG_THREAD,
        Code::InProgress => ffi::PP_ERROR_INPROGRESS,
        Code::Failed => ffi::PP_ERROR_FAILED,
        Code::NotSupported => ffi::PP_ERROR_NOTSUPPORTED,
        Code::NoMemory => ffi::PP_ERROR_NOMEMORY,
        Code::ContextLost => ffi::PP_ERROR_CONTEXT_LOST,
        Code::NoSpace => ffi::PP_ERROR_NOSPACE,
        Code::NoQuota => ffi::PP_ERROR_NOQUOTA,
        Code::FileNotFound => ffi::PP_ERROR_FILENOTFOUND,
        Code::FileExists => ffi::PP_ERROR_FILEEXISTS,
        Code::NoAccess => ffi::PP_ERROR_NOACCESS,
        Code::ConnectionRefused => ffi::PP_ERROR_CONNECTION_REFUSED,
        Code::ConnectionReset => ffi::PP_ERROR_CONNECTION_RESET,
        Code::ConnectionAborted => ffi::PP_ERROR_CONNECTION_ABORTED,
        Code::ConnectionClosed => ffi::PP_ERROR_CONNECTION_CLOSED,
        Code::TimedOut => ffi::PP_ERROR_TIMEDOUT,
        Code::NoInterface => ffi::PP_ERROR_NOINTERFACE,
    }
}

/// The code that a known raw value is read as. Both timeouts read as
/// `TimedOut`; `NoSpace`, `NoQuota` and `NoInterface` are never read back.
pub open spec fn code_of(code: i32) -> Code {
    if code == ffi::PP_OK { Code::Success }
    else if code == ffi::PP_OK_COMPLETIONPENDING { Code::CompletionPending }
    else if code == ffi::PP_ERROR_BADRESOURCE { Code::BadResource }
    else if code == ffi::PP_ERROR_BADARGUMENT { Code::BadArgument }
    else if code == ffi::PP_ERROR_WRONG_THREAD { Code::WrongThread }
    else if code == ffi::PP_ERROR_INPROGRESS { Code::InProgress }
    else if code == ffi::PP_ERROR_FAILED { Code::Failed }
    else if code == ffi::PP_ERROR_NOTSUPPORTED { Code::NotSupported }
    else if code == ffi::PP_ERROR_NOMEMORY { Code::NoMemory }
    else if code == ffi::PP_ERROR_CONTEXT_LOST { Code::ContextLost }
    else if code == ffi::PP_ERROR_FILENOTFOUND { Code::FileNotFound }
    else if code == ffi::PP_ERROR_FILEEXISTS { Code::FileExists }
    else if code == ffi::PP_ERROR_NOACCESS { Code::NoAccess }
    else if code == ffi::PP_ERROR_CONNECTION_REFUSED { Code::ConnectionRefused }
    else if code == ffi::PP_ERROR_CONNECTION_RESET { Code::ConnectionReset }
    else if code == ffi::PP_ERROR_CONNECTION_ABORTED { Code::ConnectionAborted }
    else if code == ffi::PP_ERROR_CONNECTION_CLOSED { Code::ConnectionClosed }
    else { Code::TimedOut }
}

/// Success, or success that will be reported later through a callback.
pub open spec fn code_is_ok(c: Code) -> bool {
    c == Code::Success || c == Code::CompletionPending
}

/// The text that describes each code.
pub open spec fn code_message(c: Code) -> Seq<char> {
    match c {
        Code::Success => "ok"@,
        Code::BadResource => "bad resource"@,
        Code::BadArgument => "bad argument"@,
        Code::WrongThread => "wrong thread"@,
        Code::InProgress => "in-progress"@,
        Code::Failed => "failed"@,
        Code::NotSupported => "not supported"@,
        Code::NoMemory => "no memory"@,
        Code::ContextLost => "context lost"@,
        Code::CompletionPending => "completion callback pending"@,
        Code::NoSpace => "no space left"@,
        Code::NoQuota => "no space left in quota"@,
        Code::FileNotFound => "file not found"@,
        Code::FileExists => "file exists"@,
        Code::NoAccess => "insufficient privileges"@,
        Code::ConnectionRefused => "connection attempt refused"@,
        Code::ConnectionReset => "connection reset"@,
        Code::ConnectionAborted => "connection aborted"@,
        Code::ConnectionClosed => "connection closed"@,
        Code::TimedOut => "operation timed out"@,
        Code::NoInterface => "no interface"@,
    }
}

impl Code {
    /// Whether a raw result code is one the library knows how to read.
    pub fn is_known(code: i32) -> (b: bool)
        ensures
            b == is_known_code(code),
    {
        code == ffi::PP_OK || code == ffi::PP_OK_COMPLETIONPENDING || code == ffi::PP_ERROR_BADRESOURCE
            || code == ffi::PP_ERROR_BADARGUMENT || code == ffi::PP_ERROR_WRONG_THREAD
            || code == ffi::PP_ERROR_INPROGRESS || code == ffi::PP_ERROR_FAILED
            || code == ffi::PP_ERROR_NOTSUPPORTED || code == ffi::PP_ERROR_NOMEMORY
            || code == ffi::PP_ERROR_CONTEXT_LOST || code == ffi::PP_ERROR_FILENOTFOUND
            || code == ffi::PP_ERROR_FILEEXISTS || code == ffi::PP_ERROR_NOACCESS
            || code == ffi::PP_ERROR_CONNECTION_REFUSED || code == ffi::PP_ERROR_CONNECTION_RESET
            || code == ffi::PP_ERROR_CONNECTION_ABORTED || code == ffi::PP_ERROR_CONNECTION_CLOSED
            || code == ffi::PP_ERROR_TIMEDOUT || code == ffi::PP_ERROR_CONNECTION_TIMEDOUT
    }

    /// Reads a raw result code. Unknown codes are a programming error.
    pub fn from_i32(code: i32) -> (c: Code)
        requires
            is_known_code(code),
        ensures
            c == code_of(code),
    {
        if code == ffi::PP_OK { Code::Success }
        else if code == ffi::PP_OK_COMPLETIONPENDING { Code::CompletionPending }
        else if code == ffi::PP_ERROR_BADRESOURCE { Code::BadResource }
        else if code == ffi::PP_ERROR_BADARGUMENT { Code::BadArgument }
        else if code == ffi::PP_ERROR_WRONG_THREAD { Code::WrongThread }
        else if code == ffi::PP_ERROR_INPROGRESS { Code::InProgress }
        else if code == ffi::PP_ERROR_FAILED { Code::Failed }
        else if code == ffi::PP_ERROR_NOTSUPPORTED { Code::NotSupported }
        else if code == ffi::PP_ERROR_NOMEMORY { Code::NoMemory }
        else if code == ffi::PP_ERROR_CONTEXT_LOST { Code::ContextLost }
        else if code == ffi::PP_ERROR_FILENOTFOUND { Code::FileNotFound }
        else if code == ffi::PP_ERROR_FILEEXISTS { Code::FileExists }
        else if code == ffi::PP_ERROR_NOACCESS { Code::NoAccess }
        else if code == ffi::PP_ERROR_CONNECTION_REFUSED { Code::ConnectionRefused }
        else if code == ffi::PP_ERROR_CONNECTION_RESET { Code::ConnectionReset }
        else if code == ffi::PP_ERROR_CONNECTION_ABORTED { Code::ConnectionAborted }
        else if code == ffi::PP_ERROR_CONNECTION_CLOSED { Code::ConnectionClosed }
        else { Code::TimedOut }
    }

    /// The raw value of a code.
    pub fn to_i32(self) -> (v: i32)
        ensures
            v == code_value(self),
    {
        match self {
            Code::Success => ffi::PP_OK,
            Code::CompletionPending => ffi::PP_OK_COMPLETIONPENDING,
            Code::BadResource => ffi::PP_ERROR_BADRESOURCE,
            Code::BadArgument => ffi::PP_ERROR_BADARGUMENT,
            Code::WrongThread => ffi::PP_ERROR_WRONG_THREAD,
            Code::InProgress => ffi::PP_ERROR_INPROGRESS,
            Code::Failed => ffi::PP_ERROR_FAILED,
            Code::NotSupported => ffi::PP_ERROR_NOTSUPPORTED,
            Code::NoMemory => ffi::PP_ERROR_NOMEMORY,
            Code::ContextLost => ffi::PP_ERROR_CONTEXT_LOST,
            Code::NoSpace => ffi::PP_ERROR_NOSPACE,
            Code::NoQuota => ffi::PP_ERROR_NOQUOTA,
            Code::FileNotFound => ffi::PP_ERROR_FILENOTFOUND,
            Code::FileExists => ffi::PP_ERROR_FILEEXISTS,
            Code::NoAccess => ffi::PP_ERROR_NOACCESS,
            Code::ConnectionRefused => ffi::PP_ERROR_CONNECTION_REFUSED,
            Code::ConnectionReset => ffi::PP_ERROR_CONNECTION_RESET,
            Code::ConnectionAborted => ffi::PP_ERROR_CONNECTION_ABORTED,
            Code::ConnectionClosed => ffi::PP_ERROR_CONNECTION_CLOSED,
            Code::TimedOut => ffi::PP_ERROR_TIMEDOUT,
            Code::NoInterface => ffi::PP_ERROR_NOINTERFACE,
        }
    }

    /// `Ok(())` for a successful code, the code itself as the error otherwise.
    pub fn to_empty_result(self) -> (r: Result<(), Code>)
        ensures
            code_is_ok(self) ==> r == Ok::<(), Code>(()),
            !code_is_ok(self) ==> r == Err::<(), Code>(self),
    {
        if self.is_ok() {
            Ok(())
        } else {
            Err(self)
        }
    }

    /// On success, the value `ok` makes of the code; otherwise the code as
    /// the error. `ok` is called only on success.
    pub fn to_result<T, F: FnOnce(Code) -> T>(self, ok: F) -> (r: Result<T, Code>)
        requires
            code_is_ok(self) ==> ok.requires((self,)),
        ensures
            code_is_ok(self) ==> (r is Ok && ok.ensures((self,), r->Ok_0)),
            !code_is_ok(self) ==> r == Err::<T, Code>(self),
    {
        if self.is_ok() {
            Ok(ok(self))
        } else {
            Err(self)
        }
    }

    /// Whether the code reports success (possibly still pending).
    pub fn is_ok(&self) -> (b: bool)
        ensures
            b == code_is_ok(*self),
    {
        match self {
            Code::Success | Code::CompletionPending => true,
            _ => false,
        }
    }

    /// Insists on success; a failing code is a programming error.
    pub fn expect(self, msg: &str)
        requires
            code_is_ok(self),
    {
    }

    /// `Some(take)` on success, `None` otherwise.
    pub fn map<T>(self, take: T) -> (r: Option<T>)
        ensures
            code_is_ok(self) ==> r == Some(take),
            !code_is_ok(self) ==> r is None,
    {
        if self.is_ok() {
            Some(take)
        } else {
            None
        }
    }

    /// The text that describes the code.
    pub fn message(&self) -> (s: &'static str)
        ensures
            s@ == code_message(*self),
    {
        match self {
            Code::Success => "ok",
            Code::BadResource => "bad resource",
            Code::BadArgument => "bad argument",
            Code::WrongThread => "wrong thread",
            Code::InProgress => "in-progress",
            Code::Failed => "failed",
            Code::NotSupported => "not supported",
            Code::NoMemory => "no memory",
            Code::ContextLost => "context lost",
            Code::CompletionPending => "completion callback pending",
            Code::NoSpace => "no space left",
            Code::NoQuota => "no space left in quota",
            Code::FileNotFound => "file not found",
            Code::FileExists => "file exists",
            Code::NoAccess => "insufficient privileges",
            Code::ConnectionRefused => "connection attempt refused",
            Code::ConnectionReset => "connection reset",
            Code::ConnectionAborted => "connection aborted",
            Code::ConnectionClosed => "connection closed",
            Code::TimedOut => "operation timed out",
            Code::NoInterface => "no interface",
        }
    }
}

/// Writing a code out and reading it back gives the same code, except for the
/// three codes that are never read back.
pub proof fn lemma_code_roundtrip(c: Code)
    requires
        c != Code::NoSpace,
        c != Code::NoQuota,
        c != Code::NoInterface,
    ensures
        is_known_code(code_value(c)),
        code_of(code_value(c)) == c,
{
}

/// Reading a known raw value and writing it back gives the same value, except
/// for the connection timeout, which is written back as the general timeout.
pub proof fn lemma_raw_code_roundtrip(code: i32)
    requires
        is_known_code(code),
        code != ffi::PP_ERROR_CONNECTION_TIMEDOUT,
    ensures
        code_value(code_of(code)) == code,
{
}

/// Each known raw code reads as the code named for it; both timeouts read
/// as `TimedOut`.
pub proof fn lemma_codes_read_by_name(code: i32)
    requires
        is_known_code(code),
    ensures
        code_of(code) == Code::Success <==> code == ffi::PP_OK,
        code_of(code) == Code::CompletionPending <==> code == ffi::PP_OK_COMPLETIONPENDING,
        code_of(code) == Code::BadResource <==> code == ffi::PP_ERROR_BADRESOURCE,
        code_of(code) == Code::BadArgument <==> code == ffi::PP_ERROR_BADARGUMENT,
        code_of(code) == Code::WrongThread <==> code == ffi::PP_ERROR_WRONG_THREAD,
        code_of(code) == Code::InProgress <==> code == ffi::PP_ERROR_INPROGRESS,
        code_of(code) == Code::Failed <==> code == ffi::PP_ERROR_FAILED,
        code_of(code) == Code::NotSupported <==> code == ffi::PP_ERROR_NOTSUPPORTED,
        code_of(code) == Code::NoMemory <==> code == ffi::PP_ERROR_NOMEMORY,
        code_of(code) == Code::ContextLost <==> code == ffi::PP_ERROR_CONTEXT_LOST,
        code_of(code) == Code::FileNotFound <==> code == ffi::PP_ERROR_FILENOTFOUND,
        code_of(code) == Code::FileExists <==> code == ffi::PP_ERROR_FILEEXISTS,
        code_of(code) == Code::NoAccess <==> code == ffi::PP_ERROR_NOACCESS,
        code_of(code) == Code::ConnectionRefused <==> code == ffi::PP_ERROR_CONNECTION_REFUSED,
        code_of(code) == Code::ConnectionReset <==> code == ffi::PP_ERROR_CONNECTION_RESET,
        code_of(code) == Code::ConnectionAborted <==> code == ffi::PP_ERROR_CONNECTION_ABORTED,
        code_of(code) == Code::ConnectionClosed <==> code == ffi::PP_ERROR_CONNECTION_CLOSED,
        code_of(code) == Code::TimedOut <==> (code == ffi::PP_ERROR_TIMEDOUT || code == ffi::PP_ERROR_CONNECTION_TIMEDOUT),
{
}

/// Each code is written as the raw value named for it, and no two codes
/// share a value.
pub proof fn lemma_codes_written_by_name(c: Code)
    ensures
        code_value(c) == ffi::PP_OK <==> c == Code::Success,
        code_value(c) == ffi::PP_OK_COMPLETIONPENDING <==> c == Code::CompletionPending,
        code_value(c) == ffi::PP_ERROR_BADRESOURCE <==> c == Code::BadResource,
        code_value(c) == ffi::PP_ERROR_BADARGUMENT <==> c == Code::BadArgument,
        code_value(c) == ffi::PP_ERROR_WRONG_THREAD <==> c == Code::WrongThread,
        code_value(c) == ffi::PP_ERROR_INPROGRESS <==> c == Code::InProgress,
        code_value(c) == ffi::PP_ERROR_FAILED <==> c == Code::Failed,
        code_value(c) == ffi::PP_ERROR_NOTSUPPORTED <==> c == Code::NotSupported,
        code_value(c) == ffi::PP_ERROR_NOMEMORY <==> c == Code::NoMemory,
        code_value(c) == ffi::PP_ERROR_CONTEXT_LOST <==> c == Code::ContextLost,
        code_value(c) == ffi::PP_ERROR_FILENOTFOUND <==> c == Code::FileNotFound,
        code_value(c) == ffi::PP_ERROR_FILEEXISTS <==> c == Code::FileExists,
        code_value(c) == ffi::PP_ERROR_NOACCESS <==> c == Code::NoAccess,
        code_value(c) == ffi::PP_ERROR_CONNECTION_REFUSED <==> c == Code::ConnectionRefused,
        code_value(c) == ffi::PP_ERROR_CONNECTION_RESET <==> c == Code::ConnectionReset,
        code_value(c) == ffi::PP_ERROR_CONNECTION_ABORTED <==> c == Code::ConnectionAborted,
        code_value(c) == ffi::PP_ERROR_CONNECTION_CLOSED <==> c == Code::ConnectionClosed,
        code_value(c) == ffi::PP_ERROR_NOSPACE <==> c == Code::NoSpace,
        code_value(c) == ffi::PP_ERROR_NOQUOTA <==> c == Code::NoQuota,
        code_value(c) == ffi::PP_ERROR_TIMEDOUT <==> c == Code::TimedOut,
        code_value(c) == ffi::PP_ERROR_NOINTERFACE <==> c == Code::NoInterface,
{
}

/// Each code is described by the text named for it, and no two codes share
/// a text.
pub proof fn lemma_code_messages_by_name(c: Code)
    ensures
        code_message(c) == "ok"@ <==> c == Code::Success,
        code_message(c) == "bad resource"@ <==> c == Code::BadResource,
        code_message(c) == "bad argument"@ <==> c == Code::BadArgument,
        code_message(c) == "wrong thread"@ <==> c == Code::WrongThread,
        code_message(c) == "in-progress"@ <==> c == Code::InProgress,
        code_message(c) == "failed"@ <==> c == Code::Failed,
        code_message(c) == "not supported"@ <==> c == Code::NotSupported,
        code_message(c) == "no memory"@ <==> c == Code::NoMemory,
        code_message(c) == "context lost"@ <==> c == Code::ContextLost,
        code_message(c) == "completion callback pending"@ <==> c == Code::CompletionPending,
        code_message(c) == "no space left"@ <==> c == Code::NoSpace,
        code_message(c) == "no space left in quota"@ <==> c == Code::NoQuota,
        code_message(c) == "file not found"@ <==> c == Code::FileNotFound,
        code_message(c) == "file exists"@ <==> c == Code::FileExists,
        code_message(c) == "insufficient privileges"@ <==> c == Code::NoAccess,
        code_message(c) == "connection attempt refused"@ <==> c == Code::ConnectionRefused,
        code_message(c) == "connection reset"@ <==> c == Code::ConnectionReset,
        code_message(c) == "connection aborted"@ <==> c == Code::ConnectionAborted,
        code_message(c) == "connection closed"@ <==> c == Code::ConnectionClosed,
        code_message(c) == "operation timed out"@ <==> c == Code::TimedOut,
        code_message(c) == "no interface"@ <==> c == Code::NoInterface,
{
    reveal_strlit("ok");
    reveal_strlit("bad resource");
    reveal_strlit("bad argument");
    reveal_strlit("wrong thread");
    reveal_strlit("in-progress");
    reveal_strlit("failed");
    reveal_strlit("not supported");
    reveal_strlit("no memory");
    reveal_strlit("context lost");
    reveal_strlit("completion callback pending");
    reveal_strlit("no space left");
    reveal_strlit("no space left in quota");
    reveal_strlit("file not found");
    reveal_strlit("file exists");
    reveal_strlit("insufficient privileges");
    reveal_strlit("connection attempt refused");
    reveal_strlit("connection reset");
    reveal_strlit("connection aborted");
    reveal_strlit("connection closed");
    reveal_strlit("operation timed out");
    reveal_strlit("no interface");
    assert("ok"@.len() == 2);
    assert("bad resource"@.len() == 12);
    assert("bad argument"@.len() == 12);
    assert("wrong thread"@.len() == 12);
    assert("in-progress"@.len() == 11);
    assert("failed"@.len() == 6);
    assert("not supported"@.len() == 13);
    assert("no memory"@.len() == 9);
    assert("context lost"@.len() == 12);
    assert("completion callback pending"@.len() == 27);
    assert("no space left"@.len() == 13);
    assert("no space left in quota"@.len() == 22);
    assert("file not found"@.len() == 14);
    assert("file exists"@.len() == 11);
    assert("insufficient privileges"@.len() == 23);
    assert("connection attempt refused"@.len() == 26);
    assert("connection reset"@.len() == 16);
    assert("connection aborted"@.len() == 18);
    assert("connection closed"@.len() == 17);
    assert("operation timed out"@.len() == 19);
    assert("no interface"@.len() == 12);
    match c {
        Code::Success => {
        },
        Code::BadResource => {
            assert("bad resource"@[4] != "bad argument"@[4]);
            assert("bad resource"@[0] != "wrong thread"@[0]);
            assert("bad resource"@[0] != "context lost"@[0]);
            assert("bad resource"@[0] != "no interface"@[0]);
        },
        Code::BadArgument => {
            assert("bad argument"@[4] != "bad resource"@[4]);
            assert("bad argument"@[0] != "wrong thread"@[0]);
            assert("bad argument"@[0] != "context lost"@[0]);
            assert("bad argument"@[0] != "no interface"@[0]);
        },
        Code::WrongThread => {
            assert("wrong thread"@[0] != "bad resource"@[0]);
            assert("wrong thread"@[0] != "bad argument"@[0]);
            assert("wrong thread"@[0] != "context lost"@[0]);
            assert("wrong thread"@[0] != "no interface"@[0]);
        },
        Code::InProgress => {
            assert("in-progress"@[0] != "file exists"@[0]);
        },
        Code::Failed => {
        },
        Code::NotSupported => {
            assert("not supported"@[2] != "no space left"@[2]);
        },
        Code::NoMemory => {
        },
        Code::ContextLost => {
            assert("context lost"@[0] != "bad resource"@[0]);
            assert("context lost"@[0] != "bad argument"@[0]);
            assert("context lost"@[0] != "wrong thread"@[0]);
            assert("context lost"@[0] != "no interface"@[0]);
        },
        Code::CompletionPending => {
        },
        Code::NoSpace => {
            assert("no space left"@[2] != "not supported"@[2]);
        },
        Code::NoQuota => {
        },
        Code::FileNotFound => {
        },
        Code::FileExists => {
            assert("file exists"@[0] != "in-progress"@[0]);
        },
        Code::NoAccess => {
        },
        Code::ConnectionRefused => {
        },
        Code::ConnectionReset => {
        },
        Code::ConnectionAborted => {
        },
        Code::ConnectionClosed => {
        },
        Code::TimedOut => {
        },
        Code::NoInterface => {
            assert("no interface"@[0] != "bad resource"@[0]);
            assert("no interface"@[0] != "bad argument"@[0]);
            assert("no interface"@[0] != "wrong thread"@[0]);
            assert("no interface"@[0] != "context lost"@[0]);
        },
    }
}

} // verus!
