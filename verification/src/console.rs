//! Standard output and error of a plugin, sent line by line to the browser
//! console of the running instance, or to the process's own stream when
//! that cannot be done.

use vstd::prelude::*;
use crate::ffi::PP_LogLevel;
use vstd::string::StringSliceAdditionalSpecFns;

verus! {

/// The newline byte.
pub const NEWLINE: u8 = 10;

/// Where the first newline of some bytes is, if they have one.
pub open spec fn newline_pos(s: Seq<u8>) -> Option<int>
    decreases s.len(),
{
    if s.len() == 0 {
        None
    } else if s[0] == NEWLINE {
        Some(0)
    } else {
        match newline_pos(s.drop_first()) {
            Some(p) => Some(p + 1),
            None => None,
        }
    }
}

/// What writing `buf` to a stream whose pending bytes are `pending` sends,
/// and what stays pending, when every send succeeds. Nothing is sent until a
/// newline comes; then the pending bytes and the bytes before the newline
/// go as one line, without the newline, and what follows the newline is
/// written in turn.
pub open spec fn write_lines(pending: Seq<u8>, buf: Seq<u8>) -> (Seq<Seq<u8>>, Seq<u8>)
    decreases buf.len(),
{
    match newline_pos(buf) {
        None => (Seq::empty(), pending + buf),
        Some(p) => {
            let line = pending + buf.subrange(0, p);
            if p < 0 || buf.len() <= p + 1 {
                (seq![line], Seq::empty())
            } else {
                let rest = write_lines(Seq::empty(), buf.subrange(p + 1, buf.len() as int));
                (seq![line] + rest.0, rest.1)
            }
        }
    }
}

proof fn lemma_newline_pos(s: Seq<u8>)
    ensures
        match newline_pos(s) {
            Some(p) => 0 <= p < s.len() && s[p] == NEWLINE
                && forall|k: int| 0 <= k < p ==> s[k] != NEWLINE,
            None => forall|k: int| 0 <= k < s.len() ==> s[k] != NEWLINE,
        },
    decreases s.len(),
{
    if s.len() > 0 && s[0] != NEWLINE {
        lemma_newline_pos(s.drop_first());
        match newline_pos(s.drop_first()) {
            Some(p) => {
                assert forall|k: int| 0 <= k < p + 1 implies s[k] != NEWLINE by {
                    if k > 0 {
                        assert(s[k] == s.drop_first()[k - 1]);
                    }
                }
            },
            None => {
                assert forall|k: int| 0 <= k < s.len() implies s[k] != NEWLINE by {
                    if k > 0 {
                        assert(s[k] == s.drop_first()[k - 1]);
                    }
                }
            },
        }
    }
}

/// No bytes that hold no newline.
pub open spec fn no_newline(s: Seq<u8>) -> bool {
    forall|k: int| 0 <= k < s.len() ==> s[k] != NEWLINE
}

/// Newlines never reach the console, and nothing is sent until a newline
/// comes: the lines sent hold no newline, what stays pending holds none,
/// and bytes without a newline are only added to what is pending.
pub proof fn lemma_no_newline_sent(pending: Seq<u8>, buf: Seq<u8>)
    requires no_newline(pending),
    ensures
        forall|k: int| 0 <= k < write_lines(pending, buf).0.len() ==> no_newline(#[trigger] write_lines(pending, buf).0[k]),
        no_newline(write_lines(pending, buf).1),
        no_newline(buf) ==> write_lines(pending, buf) == (Seq::<Seq<u8>>::empty(), pending + buf),
    decreases buf.len(),
{
    lemma_newline_pos(buf);
    match newline_pos(buf) {
        None => {
            assert(no_newline(pending + buf));
        },
        Some(p) => {
            let line = pending + buf.subrange(0, p);
            assert(no_newline(line));
            if buf.len() > p + 1 {
                let next = buf.subrange(p + 1, buf.len() as int);
                lemma_no_newline_sent(Seq::empty(), next);
                let inner = write_lines(Seq::empty(), next);
                assert forall|k: int| 0 <= k < write_lines(pending, buf).0.len() implies
                    no_newline(#[trigger] write_lines(pending, buf).0[k]) by {
                    if k > 0 {
                        assert(write_lines(pending, buf).0[k] == inner.0[k - 1]);
                    }
                }
            }
            assert(!no_newline(buf));
        },
    }
}

/// The first newline at or after `from` in `buf`, found by a scan.
fn find_newline(buf: &[u8], from: usize) -> (r: Option<usize>)
    requires from <= buf@.len(),
    ensures
        match newline_pos(buf@.subrange(from as int, buf@.len() as int)) {
            Some(p) => r matches Some(q) && q == from + p,
            None => r is None,
        },
{
    let ghost s = buf@.subrange(from as int, buf@.len() as int);
    proof { lemma_newline_pos(s); }
    let mut i = from;
    while i < buf.len()
        invariant
            from <= i <= buf@.len(),
            s == buf@.subrange(from as int, buf@.len() as int),
            forall|k: int| from <= k < i ==> buf@[k] != NEWLINE,
            match newline_pos(s) {
                Some(p) => 0 <= p < s.len() && s[p] == NEWLINE
                    && forall|k: int| 0 <= k < p ==> s[k] != NEWLINE,
                None => forall|k: int| 0 <= k < s.len() ==> s[k] != NEWLINE,
            },
        decreases buf@.len() - i,
    {
        if buf[i] == NEWLINE {
            proof {
                match newline_pos(s) {
                    Some(p) => {
                        if p < i - from {
                            assert(s[p] == buf@[from + p]);
                        }
                        if p > i - from {
                            assert(s[i - from] == buf@[i as int]);
                        }
                    },
                    None => {
                        assert(s[i - from] == buf@[i as int]);
                    },
                }
            }
            return Some(i);
        }
        i = i + 1;
    }
    proof {
        match newline_pos(s) {
            Some(p) => {
                assert(s[p] == buf@[from + p]);
            },
            None => {},
        }
    }
    None
}

/// A standard stream of the plugin: the console level its lines are logged
/// at, the descriptor it falls back to, and the bytes of the line it has not
/// sent yet.
pub struct CurrentInstanceStdIo {
    pub level: PP_LogLevel,
    pub fd: i32,
    pub buffer: Vec<u8>,
}

fn append_range(dst: &mut Vec<u8>, src: &[u8], start: usize, end: usize)
    requires start <= end <= src@.len(),
    ensures final(dst)@ == old(dst)@ + src@.subrange(start as int, end as int),
{
    let mut i = start;
    while i < end
        invariant
            start <= i <= end <= src@.len(),
            dst@ == old(dst)@ + src@.subrange(start as int, i as int),
        decreases end - i,
    {
        dst.push(src[i]);
        proof {
            assert(src@.subrange(start as int, i + 1) == src@.subrange(start as int, i as int).push(src@[i as int]));
        }
        i = i + 1;
    }
}

impl CurrentInstanceStdIo {
    pub fn new(level: PP_LogLevel, fd: i32) -> (s: CurrentInstanceStdIo)
        ensures s.level == level, s.fd == fd, s.buffer@.len() == 0,
    {
        CurrentInstanceStdIo { level, fd, buffer: Vec::new() }
    }

    /// Takes bytes written to the stream, and gives back the lines to send,
    /// in order; what follows the last newline stays pending. A send that
    /// fails ends the write: the lines after it are not sent, and
    /// `send_failed` drops what is pending.
    pub fn write(&mut self, buf: &[u8]) -> (lines: Vec<Vec<u8>>)
        ensures
            lines@.len() == write_lines(old(self).buffer@, buf@).0.len(),
            forall|k: int| 0 <= k < lines@.len() ==> (#[trigger] lines@[k])@ == write_lines(old(self).buffer@, buf@).0[k],
            final(self).buffer@ == write_lines(old(self).buffer@, buf@).1,
            final(self).level == old(self).level,
            final(self).fd == old(self).fd,
    {
        let ghost total = write_lines(old(self).buffer@, buf@);
        let mut lines: Vec<Vec<u8>> = Vec::new();
        let mut start: usize = 0;
        proof {
            assert(buf@.subrange(0, buf@.len() as int) == buf@);
        }
        loop
            invariant
                start <= buf@.len(),
                total == write_lines(old(self).buffer@, buf@),
                ({
                    let rest = write_lines(self.buffer@, buf@.subrange(start as int, buf@.len() as int));
                    &&& total.0.len() == lines@.len() + rest.0.len()
                    &&& forall|k: int| 0 <= k < lines@.len() ==> (#[trigger] lines@[k])@ == total.0[k]
                    &&& forall|k: int| 0 <= k < rest.0.len() ==> total.0[lines@.len() + k] == #[trigger] rest.0[k]
                    &&& total.1 == rest.1
                }),
                self.level == old(self).level,
                self.fd == old(self).fd,
            decreases buf@.len() - start,
        {
            let ghost s = buf@.subrange(start as int, buf@.len() as int);
            let ghost rest = write_lines(self.buffer@, s);
            proof { lemma_newline_pos(s); }
            match find_newline(buf, start) {
                None => {
                    append_range(&mut self.buffer, buf, start, buf.len());
                    return lines;
                },
                Some(pos) => {
                    let ghost p = newline_pos(s)->0;
                    proof {
                        assert(newline_pos(s) is Some);
                        assert(0 <= p < s.len());
                        assert(pos == start + p);
                        assert(buf@.subrange(start as int, pos as int) == s.subrange(0, p));
                    }
                    let mut line = Vec::new();
                    std::mem::swap(&mut line, &mut self.buffer);
                    append_range(&mut line, buf, start, pos);
                    let ghost line_view = line@;
                    lines.push(line);
                    proof {
                        assert(lines@[lines@.len() - 1]@ == line_view);
                        assert(rest.0[0] == line_view);
                        assert forall|k: int| 0 <= k < lines@.len() implies (#[trigger] lines@[k])@ == total.0[k] by {
                            if k == lines@.len() - 1 {
                                assert(total.0[k] == rest.0[0]);
                            }
                        }
                    }
                    if buf.len() - pos <= 1 {
                        return lines;
                    }
                    proof {
                        let next = buf@.subrange(pos + 1, buf@.len() as int);
                        assert(s.subrange(p + 1, s.len() as int) == next);
                        let inner = write_lines(Seq::empty(), next);
                        assert(rest.0 == seq![line_view] + inner.0);
                        assert forall|k: int| 0 <= k < inner.0.len() implies
                            total.0[lines@.len() + k] == #[trigger] inner.0[k] by {
                            assert(inner.0[k] == rest.0[k + 1]);
                        }
                    }
                    start = pos + 1;
                },
            }
        }
    }

    /// Drops what is pending, after a send failed.
    pub fn send_failed(&mut self)
        ensures
            final(self).buffer@.len() == 0,
            final(self).level == old(self).level,
            final(self).fd == old(self).fd,
    {
        self.buffer.clear();
    }
}

/// Where a line goes: to the instance's console as text, or to the
/// process's own stream as bytes.
#[derive(Clone, Debug)]
pub enum LineDestination {
    Console(String),
    Terminal(Vec<u8>),
}

/// Calls `std::str::from_utf8`: its text when the bytes are UTF-8, else
/// nothing, as the function's documentation says.
#[verifier::external_body]
pub(crate) fn utf8_text(bytes: &[u8]) -> (r: Option<&str>)
    ensures
        match r {
            Some(s) => vstd::utf8::valid_utf8(bytes@) && s.spec_bytes() == bytes@,
            None => !vstd::utf8::valid_utf8(bytes@),
        },
{
    match std::str::from_utf8(bytes) {
        Ok(s) => Some(s),
        Err(_) => None,
    }
}

/// Where a line goes: to the console when there is a running instance and
/// the line is UTF-8 text, else to the process's own stream.
pub fn send_to_console_or_terminal(has_instance: bool, buf: &[u8]) -> (d: LineDestination)
    ensures
        match d {
            LineDestination::Console(s) =>
                has_instance && vstd::utf8::valid_utf8(buf@) && vstd::utf8::encode_utf8(s@) == buf@,
            LineDestination::Terminal(b) =>
                (!has_instance || !vstd::utf8::valid_utf8(buf@)) && b@ == buf@,
        },
{
    if has_instance {
        match utf8_text(buf) {
            Some(s) => return LineDestination::Console(s.to_owned()),
            None => {},
        }
    }
    let mut b: Vec<u8> = Vec::new();
    append_range(&mut b, buf, 0, buf.len());
    proof {
        assert(buf@.subrange(0, buf@.len() as int) == buf@);
    }
    LineDestination::Terminal(b)
}

} // verus!
