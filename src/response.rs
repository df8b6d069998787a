use vstd::prelude::*;

use crate::wire::{
    bytes_eq, copy_range, find_byte, find_from, has_prefix, parse_u32, spec_parse_u32,
    spec_split_line, split_line, starts_with_at,
};

verus! {

/// An `ACK` line of the daemon: error code, index of the failing command in
/// a batch, the verb it failed on, and the daemon's message.
#[derive(Debug, Clone, PartialEq, Eq)]
pub struct ServerError {
    pub code: u32,
    pub command_index: u32,
    pub command: Vec<u8>,
    pub message: Vec<u8>,
}

impl View for ServerError {
    type V = (u32, u32, Seq<u8>, Seq<u8>);

    open spec fn view(&self) -> Self::V {
        (self.code, self.command_index, self.command@, self.message@)
    }
}

/// Everything that can go wrong while talking to the daemon.
#[derive(Debug, Clone, PartialEq, Eq)]
pub enum MpdError {
    /// The transport was refused, reset or timed out.
    Connection,
    /// The daemon rejected the password.
    Auth,
    /// A line that breaks the wire grammar, or a response cut short.
    Protocol,
    /// A known key whose value does not fit its type.
    Parse { key: Vec<u8>, value: Vec<u8> },
    /// The daemon answered with `ACK`.
    Server(ServerError),
    /// Another request holds the connection; try again later.
    Busy,
}

/// The mathematical form of [`MpdError`].
pub enum SpecError {
    Connection,
    Auth,
    Protocol,
    Parse(Seq<u8>, Seq<u8>),
    Server((u32, u32, Seq<u8>, Seq<u8>)),
    Busy,
}

impl View for MpdError {
    type V = SpecError;

    open spec fn view(&self) -> SpecError {
        match self {
            MpdError::Connection => SpecError::Connection,
            MpdError::Auth => SpecError::Auth,
            MpdError::Protocol => SpecError::Protocol,
            MpdError::Parse { key, value } => SpecError::Parse(key@, value@),
            MpdError::Server(e) => SpecError::Server(e@),
            MpdError::Busy => SpecError::Busy,
        }
    }
}

/// How an `ACK` line starts, up to its `[`.
pub open spec fn ack_prefix() -> Seq<u8> {
    seq![65u8, 67, 75, 32, 91]
}

/// The fields of `ACK [<code>@<index>] {<verb>} <message>`.
pub open spec fn spec_parse_ack(line: Seq<u8>) -> Option<(u32, u32, Seq<u8>, Seq<u8>)> {
    let at = find_from(line, 64, 5);
    let close = find_from(line, 93, at + 1);
    let cb = find_from(line, 125, close + 3);
    if !has_prefix(line, ack_prefix()) || at >= line.len() || close + 2 >= line.len() {
        None
    } else if line[close + 1] != 32 || line[close + 2] != 123 || cb >= line.len() {
        None
    } else if cb + 1 < line.len() && line[cb + 1] != 32 {
        None
    } else {
        match (spec_parse_u32(line.subrange(5, at)), spec_parse_u32(line.subrange(at + 1, close))) {
            (Some(code), Some(index)) => Some(
                (
                    code,
                    index,
                    line.subrange(close + 3, cb),
                    if cb + 1 < line.len() {
                        line.skip(cb + 2)
                    } else {
                        Seq::empty()
                    },
                ),
            ),
            _ => None,
        }
    }
}

/// Reads an `ACK` line into its fields.
pub fn parse_ack(line: &[u8]) -> (r: Option<ServerError>)
    ensures
        match spec_parse_ack(line@) {
            Some(a) => r is Some && r->0@ == a,
            None => r is None,
        },
{
    let prefix: [u8; 5] = [65, 67, 75, 32, 91];
    if line.len() < 5 || !starts_with_at(line, 0, prefix.as_slice()) {
        proof {
            assert(line@.skip(0) =~= line@);
        }
        return None;
    }
    proof {
        assert(line@.skip(0) =~= line@);
        assert(prefix@ =~= ack_prefix());
    }
    let at = find_byte(line, 64, 5);
    if at >= line.len() {
        return None;
    }
    let close = find_byte(line, 93, at + 1);
    if close >= line.len() || close >= line.len() - 2 {
        return None;
    }
    if line[close + 1] != 32 || line[close + 2] != 123 {
        return None;
    }
    let cb = find_byte(line, 125, close + 3);
    if cb >= line.len() {
        return None;
    }
    if cb + 1 < line.len() && line[cb + 1] != 32 {
        return None;
    }
    let code_text = copy_range(line, 5, at);
    let index_text = copy_range(line, at + 1, close);
    let code = parse_u32(code_text.as_slice());
    let index = parse_u32(index_text.as_slice());
    match (code, index) {
        (Some(code), Some(command_index)) => {
            let command = copy_range(line, close + 3, cb);
            let message = if cb + 1 < line.len() {
                copy_range(line, cb + 2, line.len())
            } else {
                Vec::new()
            };
            proof {
                if cb + 1 < line.len() {
                    assert(line@.skip(cb + 2) =~= line@.subrange(cb + 2, line@.len() as int));
                } else {
                    assert(message@ =~= Seq::<u8>::empty());
                }
            }
            Some(ServerError { code, command_index, command, message })
        },
        _ => None,
    }
}


/// One unit of a response: a `key: value` line, a binary block, the end of
/// one command of a batch, the end of the response, or an `ACK`.
#[derive(Debug)]
pub enum Frame {
    Pair(Vec<u8>, Vec<u8>),
    Binary(Vec<u8>),
    ListOk,
    Done,
    Failure(ServerError),
}

/// The mathematical form of [`Frame`].
pub enum SpecFrame {
    Pair(Seq<u8>, Seq<u8>),
    Binary(Seq<u8>),
    ListOk,
    Done,
    Failure((u32, u32, Seq<u8>, Seq<u8>)),
}

impl View for Frame {
    type V = SpecFrame;

    open spec fn view(&self) -> SpecFrame {
        match self {
            Frame::Pair(k, v) => SpecFrame::Pair(k@, v@),
            Frame::Binary(b) => SpecFrame::Binary(b@),
            Frame::ListOk => SpecFrame::ListOk,
            Frame::Done => SpecFrame::Done,
            Frame::Failure(e) => SpecFrame::Failure(e@),
        }
    }
}

/// The line that ends a response.
pub open spec fn ok_line() -> Seq<u8> {
    seq![79u8, 75]
}

/// The line that ends one command of a batch.
pub open spec fn list_ok_line() -> Seq<u8> {
    seq![108u8, 105, 115, 116, 95, 79, 75]
}

/// The word that starts an error line.
pub open spec fn ack_word() -> Seq<u8> {
    seq![65u8, 67, 75, 32]
}

/// The key that announces a binary block.
pub open spec fn binary_key() -> Seq<u8> {
    seq![98u8, 105, 110, 97, 114, 121]
}

/// The frame that starts at `pos` of `s`, and where the next one starts.
/// A `binary: <n>` line is followed by exactly `n` raw bytes and a newline.
pub open spec fn spec_next_frame(s: Seq<u8>, pos: int) -> Result<(SpecFrame, int), SpecError> {
    let e = find_from(s, 10, pos);
    let line = s.subrange(pos, e);
    if pos < 0 || pos >= s.len() || e >= s.len() {
        Err(SpecError::Protocol)
    } else if line == ok_line() {
        Ok((SpecFrame::Done, e + 1))
    } else if line == list_ok_line() {
        Ok((SpecFrame::ListOk, e + 1))
    } else if has_prefix(line, ack_word()) {
        match spec_parse_ack(line) {
            Some(a) => Ok((SpecFrame::Failure(a), e + 1)),
            None => Err(SpecError::Protocol),
        }
    } else {
        match spec_split_line(line) {
            None => Err(SpecError::Protocol),
            Some(kv) => if kv.0 == binary_key() {
                match spec_parse_u32(kv.1) {
                    None => Err(SpecError::Parse(kv.0, kv.1)),
                    Some(n) => if e + 1 + n < s.len() && s[e + 1 + n] == 10 {
                        Ok((SpecFrame::Binary(s.subrange(e + 1, e + 1 + n)), e + 2 + n))
                    } else {
                        Err(SpecError::Protocol)
                    },
                }
            } else {
                Ok((SpecFrame::Pair(kv.0, kv.1), e + 1))
            },
        }
    }
}

/// Reads the frame that starts at `pos`.
pub fn next_frame(buf: &[u8], pos: usize) -> (r: Result<(Frame, usize), MpdError>)
    ensures
        match spec_next_frame(buf@, pos as int) {
            Ok(fr) => r is Ok && r->Ok_0.0@ == fr.0 && r->Ok_0.1 as int == fr.1,
            Err(e) => r is Err && r->Err_0@ == e,
        },
{
    if pos >= buf.len() {
        return Err(MpdError::Protocol);
    }
    let e = find_byte(buf, 10, pos);
    if e >= buf.len() {
        return Err(MpdError::Protocol);
    }
    let line = copy_range(buf, pos, e);
    let ok: [u8; 2] = [79, 75];
    let list_ok: [u8; 7] = [108, 105, 115, 116, 95, 79, 75];
    let ack: [u8; 4] = [65, 67, 75, 32];
    let binary: [u8; 6] = [98, 105, 110, 97, 114, 121];
    proof {
        assert(ok@ =~= ok_line());
        assert(list_ok@ =~= list_ok_line());
        assert(ack@ =~= ack_word());
        assert(binary@ =~= binary_key());
    }
    if bytes_eq(line.as_slice(), ok.as_slice()) {
        return Ok((Frame::Done, e + 1));
    }
    if bytes_eq(line.as_slice(), list_ok.as_slice()) {
        return Ok((Frame::ListOk, e + 1));
    }
    let is_ack = starts_with_at(line.as_slice(), 0, ack.as_slice());
    proof {
        assert(line@.skip(0) =~= line@);
    }
    if is_ack {
        return match parse_ack(line.as_slice()) {
            Some(a) => Ok((Frame::Failure(a), e + 1)),
            None => Err(MpdError::Protocol),
        };
    }
    match split_line(line.as_slice()) {
        None => Err(MpdError::Protocol),
        Some((key, value)) => {
            if bytes_eq(key.as_slice(), binary.as_slice()) {
                match parse_u32(value.as_slice()) {
                    None => Err(MpdError::Parse { key, value }),
                    Some(n) => {
                        let n = n as usize;
                        if n < buf.len() - e - 1 && buf[e + 1 + n] == 10 {
                            let payload = copy_range(buf, e + 1, e + 1 + n);
                            Ok((Frame::Binary(payload), e + 2 + n))
                        } else {
                            Err(MpdError::Protocol)
                        }
                    },
                }
            } else {
                Ok((Frame::Pair(key, value), e + 1))
            }
        },
    }
}


/// The frames of one response starting at `pos`, up to its `OK`, and where
/// the next response starts. An `ACK` ends it with a server error.
pub open spec fn spec_read_response(s: Seq<u8>, pos: int) -> Result<(Seq<SpecFrame>, int), SpecError>
    decreases s.len() - pos,
{
    match spec_next_frame(s, pos) {
        Err(e) => Err(e),
        Ok(fr) => match fr.0 {
            SpecFrame::Done => Ok((Seq::empty(), fr.1)),
            SpecFrame::Failure(a) => Err(SpecError::Server(a)),
            _ => if fr.1 <= pos || fr.1 > s.len() {
                Err(SpecError::Protocol)
            } else {
                match spec_read_response(s, fr.1) {
                    Ok(rest) => Ok((seq![fr.0] + rest.0, rest.1)),
                    Err(e) => Err(e),
                }
            },
        },
    }
}

/// The views of a list of frames.
pub open spec fn frames_view(v: Seq<Frame>) -> Seq<SpecFrame> {
    v.map_values(|f: Frame| f@)
}

/// `rest` with the frames `prefix` read before it.
pub open spec fn after_frames(
    prefix: Seq<SpecFrame>,
    rest: Result<(Seq<SpecFrame>, int), SpecError>,
) -> Result<(Seq<SpecFrame>, int), SpecError> {
    match rest {
        Ok(r) => Ok((prefix + r.0, r.1)),
        Err(e) => Err(e),
    }
}

/// Reads one whole response starting at `pos`: its frames, without the
/// final `OK`, and the position after it.
pub fn read_response(buf: &[u8], pos: usize) -> (r: Result<(Vec<Frame>, usize), MpdError>)
    ensures
        match spec_read_response(buf@, pos as int) {
            Ok(fr) => r is Ok && frames_view(r->Ok_0.0@) == fr.0 && r->Ok_0.1 as int == fr.1,
            Err(e) => r is Err && r->Err_0@ == e,
        },
{
    if pos >= buf.len() {
        return Err(MpdError::Protocol);
    }
    let mut frames: Vec<Frame> = Vec::new();
    let mut at: usize = pos;
    proof {
        assert(frames_view(frames@) =~= Seq::<SpecFrame>::empty());
        let rest = spec_read_response(buf@, pos as int);
        if rest is Ok {
            assert(Seq::<SpecFrame>::empty() + rest->Ok_0.0 =~= rest->Ok_0.0);
        }
    }
    loop
        invariant
            at <= buf@.len(),
            spec_read_response(buf@, pos as int) == after_frames(
                frames_view(frames@),
                spec_read_response(buf@, at as int),
            ),
        decreases buf@.len() - at,
    {
        let ghost before = frames_view(frames@);
        match next_frame(buf, at) {
            Err(e) => {
                return Err(e);
            },
            Ok((Frame::Done, next)) => {
                proof {
                    assert(before + Seq::<SpecFrame>::empty() =~= before);
                }
                return Ok((frames, next));
            },
            Ok((Frame::Failure(a), _)) => {
                return Err(MpdError::Server(a));
            },
            Ok((f, next)) => {
                if next <= at || next > buf.len() {
                    return Err(MpdError::Protocol);
                }
                let ghost fv = f@;
                frames.push(f);
                proof {
                    assert(frames_view(frames@) =~= before.push(fv));
                    let rest = spec_read_response(buf@, next as int);
                    if rest is Ok {
                        assert(before + (seq![fv] + rest->Ok_0.0) =~= before.push(fv) + rest->Ok_0.0);
                    }
                }
                at = next;
            },
        }
    }
}


proof fn lemma_find_in_concat(a: Seq<u8>, b: Seq<u8>, x: u8, i: int)
    requires
        0 <= i <= a.len(),
        forall|k: int| i <= k < a.len() ==> a[k] != x,
        b.len() > 0 && b[0] == x,
    ensures
        find_from(a + b, x, i) == a.len(),
    decreases a.len() - i,
{
    if i < a.len() {
        lemma_find_in_concat(a, b, x, i + 1);
    }
}

/// The line that announces a binary block of the length `digits` give.
pub open spec fn binary_header(digits: Seq<u8>) -> Seq<u8> {
    binary_key() + seq![58u8, 32] + digits
}

/// A binary block is read as exactly the number of raw bytes its header
/// declares, whatever those bytes hold (an `OK` line among them too), and
/// reading goes on after the newline that follows them.
pub proof fn lemma_binary_block_read_whole(digits: Seq<u8>, payload: Seq<u8>, rest: Seq<u8>)
    requires
        payload.len() <= u32::MAX,
        spec_parse_u32(digits) == Some(payload.len() as u32),
    ensures
        spec_next_frame(
            binary_header(digits) + seq![10u8] + payload + seq![10u8] + rest,
            0,
        ) == Ok::<(SpecFrame, int), SpecError>(
            (
                SpecFrame::Binary(payload),
                (binary_header(digits).len() + payload.len() + 2) as int,
            ),
        ),
{
    let line = binary_header(digits);
    let s = line + seq![10u8] + payload + seq![10u8] + rest;
    let tail = seq![10u8] + payload + seq![10u8] + rest;
    assert(s =~= line + tail);
    assert forall|k: int| 0 <= k < line.len() implies line[k] != 10 by {
        if k >= 8 {
            assert(line[k] == digits[k - 8]);
            if digits[0] == 43 {
                if k > 8 {
                    assert(digits.skip(1)[k - 9] == digits[k - 8]);
                    assert(crate::wire::is_digit(digits.skip(1)[k - 9]));
                }
            } else {
                assert(crate::wire::is_digit(digits[k - 8]));
            }
        }
    }
    lemma_find_in_concat(line, tail, 10, 0);
    let e = line.len() as int;
    assert(s.subrange(0, e) =~= line);
    assert(line[0] == 98);
    assert(ok_line()[0] == 79);
    assert(list_ok_line()[0] == 108);
    assert(!has_prefix(line, ack_word())) by {
        if has_prefix(line, ack_word()) {
            assert(line.take(4)[0] == 98);
        }
    }
    let colon_tail = seq![58u8, 32] + digits;
    assert(line =~= binary_key() + colon_tail);
    lemma_find_in_concat(binary_key(), colon_tail, 58, 0);
    assert(line.take(6) =~= binary_key());
    assert(line.skip(8) =~= digits);
    let n = payload.len() as int;
    assert(s[e + 1 + n] == 10);
    assert(s.subrange(e + 1, e + 1 + n) =~= payload);
    assert(line != ok_line());
    assert(line != list_ok_line());
    assert(line[7] == 32);
}

} // verus!
