//! A byte pipe that collects a plugin's log output and hands it back as
//! complete lines once they are whole UTF-8 text.

use vstd::prelude::*;
use vstd::slice::slice_subrange;
use vstd::utf8::{
    decode_utf8, is_char_boundary_iff_not_is_continuation_byte, valid_utf8, valid_utf8_split,
};
use crate::plugins::PluginId;

verus! {

/// Most bytes the pipe holds.
pub const MAX_PIPE_BUFFER_SIZE: usize = 16_384;

/// The line feed byte.
pub const LINE_FEED: u8 = 10;

/// Relies on `std::str::from_utf8`: text exactly when the bytes are valid
/// UTF-8, holding the characters they encode.
#[verifier::external_body]
fn utf8_text(bytes: &[u8]) -> (r: Option<String>)
    ensures
        r is Some <==> valid_utf8(bytes@),
        r matches Some(s) ==> s@ == decode_utf8(bytes@),
{
    std::str::from_utf8(bytes).ok().map(String::from)
}

/// Whether `b` holds a line feed.
pub open spec fn has_line_feed(b: Seq<u8>) -> bool {
    exists|i: int| 0 <= i < b.len() && b[i] == LINE_FEED
}

/// The lines, each followed by a line feed, one after the other.
pub open spec fn joined(lines: Seq<Seq<u8>>) -> Seq<u8>
    decreases lines.len(),
{
    if lines.len() == 0 {
        Seq::empty()
    } else {
        joined(lines.drop_last()) + lines.last().push(LINE_FEED)
    }
}

/// Why the pipe refused a write or a flush.
#[derive(Clone, Copy, Debug, PartialEq, Eq, Structural)]
pub enum PipeError {
    /// The write would overflow the buffer, which has been emptied.
    BufferExceeded,
    /// The buffered bytes are not valid UTF-8 yet; nothing was taken.
    InvalidUtf8,
}

/// Buffered log output of one plugin.
#[derive(Debug)]
pub struct LoggingPipe {
    pub buffer: Vec<u8>,
    pub plugin_name: String,
    pub plugin_id: PluginId,
}

impl LoggingPipe {
    /// An empty pipe for a plugin.
    pub fn new(plugin_name: String, plugin_id: PluginId) -> (r: LoggingPipe)
        ensures
            r.buffer@.len() == 0,
            r.plugin_name == plugin_name,
            r.plugin_id == plugin_id,
    {
        LoggingPipe { buffer: Vec::new(), plugin_name, plugin_id }
    }

    /// Appends `buf`, unless the buffer would then exceed its bound: in that
    /// case the buffer is emptied and the write refused.
    pub fn write(&mut self, buf: &[u8]) -> (r: Result<usize, PipeError>)
        ensures
            final(self).plugin_name == old(self).plugin_name,
            final(self).plugin_id == old(self).plugin_id,
            old(self).buffer@.len() + buf@.len() > MAX_PIPE_BUFFER_SIZE ==> r == Err::<usize, PipeError>(
                PipeError::BufferExceeded,
            ) && final(self).buffer@.len() == 0,
            old(self).buffer@.len() + buf@.len() <= MAX_PIPE_BUFFER_SIZE ==> r == Ok::<usize, PipeError>(
                buf@.len() as usize,
            ) && final(self).buffer@ == old(self).buffer@ + buf@,
    {
        if buf.len() > MAX_PIPE_BUFFER_SIZE || self.buffer.len() > MAX_PIPE_BUFFER_SIZE - buf.len() {
            self.buffer.clear();
            return Err(PipeError::BufferExceeded);
        }
        self.buffer.extend_from_slice(buf);
        Ok(buf.len())
    }

    /// Takes every complete line out of the buffer, as text without its line
    /// feed, and keeps what follows the last line feed. When the buffer is
    /// not valid UTF-8, nothing is taken.
    pub fn flush(&mut self) -> (r: Result<Vec<String>, PipeError>)
        ensures
            final(self).plugin_name == old(self).plugin_name,
            final(self).plugin_id == old(self).plugin_id,
            !valid_utf8(old(self).buffer@) ==> r == Err::<Vec<String>, PipeError>(PipeError::InvalidUtf8)
                && final(self).buffer@ == old(self).buffer@,
            valid_utf8(old(self).buffer@) ==> (r matches Ok(msgs) && exists|lines: Seq<Seq<u8>>|
                #![trigger joined(lines)]
                lines.len() == msgs@.len() && old(self).buffer@ == joined(lines) + final(self).buffer@
                    && !has_line_feed(final(self).buffer@) && forall|k: int|
                    0 <= k < lines.len() ==> !has_line_feed(#[trigger] lines[k]) && msgs@[k]@ == decode_utf8(
                        lines[k],
                    )),
    {
        if utf8_text(self.buffer.as_slice()).is_none() {
            return Err(PipeError::InvalidUtf8);
        }
        let ghost buf = self.buffer@;
        let n = self.buffer.len();
        let mut msgs: Vec<String> = Vec::new();
        let ghost mut lines: Seq<Seq<u8>> = Seq::empty();
        let mut start: usize = 0;
        let mut i: usize = 0;
        assert(buf.subrange(0, n as int) == buf);
        assert(buf.subrange(0, 0) == joined(lines));
        while i < n
            invariant
                self.buffer@ == buf,
                n == buf.len(),
                start <= i <= n,
                valid_utf8(buf.subrange(start as int, n as int)),
                buf.subrange(0, start as int) == joined(lines),
                forall|k: int| start <= k < i ==> buf[k] != LINE_FEED,
                msgs@.len() == lines.len(),
                forall|k: int|
                    0 <= k < lines.len() ==> !has_line_feed(#[trigger] lines[k]) && msgs@[k]@ == decode_utf8(
                        lines[k],
                    ),
            decreases n - i,
        {
            if self.buffer[i] == LINE_FEED {
                let ghost rem = buf.subrange(start as int, n as int);
                let ghost j = i - start;
                proof {
                    assert(rem[j] == LINE_FEED);
                    is_char_boundary_iff_not_is_continuation_byte(rem, j);
                    valid_utf8_split(rem, j);
                    let tail = rem.subrange(j, rem.len() as int);
                    assert(tail[0] == LINE_FEED);
                    assert(valid_utf8(tail.subrange(1, tail.len() as int)));
                    assert(tail.subrange(1, tail.len() as int) == buf.subrange(i + 1, n as int));
                    assert(rem.subrange(0, j) == buf.subrange(start as int, i as int));
                }
                let seg = slice_subrange(self.buffer.as_slice(), start, i);
                let text = utf8_text(seg);
                if let Some(s) = text {
                    msgs.push(s);
                }
                proof {
                    let line = buf.subrange(start as int, i as int);
                    assert(!has_line_feed(line)) by {
                        if has_line_feed(line) {
                            let k = choose|k: int| 0 <= k < line.len() && line[k] == LINE_FEED;
                            assert(buf[start + k] == LINE_FEED);
                        }
                    }
                    let old_lines = lines;
                    lines = lines.push(line);
                    assert(lines.drop_last() == old_lines);
                    assert(buf.subrange(0, i + 1) == buf.subrange(0, start as int) + line.push(LINE_FEED));
                }
                start = i + 1;
            }
            i += 1;
        }
        let rest = self.buffer.split_off(start);
        self.buffer = rest;
        proof {
            assert(buf == buf.subrange(0, start as int) + buf.subrange(start as int, n as int));
            assert(!has_line_feed(self.buffer@)) by {
                if has_line_feed(self.buffer@) {
                    let k = choose|k: int| 0 <= k < self.buffer@.len() && self.buffer@[k] == LINE_FEED;
                    assert(buf[start + k] == LINE_FEED);
                }
            }
        }
        Ok(msgs)
    }
}

} // verus!
