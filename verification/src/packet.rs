use vstd::prelude::*;

use crate::constants::{BLE_CHUNK_LEN, CHECKSUM_INIT, MAX_BODY_LEN, RX_HEAD_BB, RX_HEAD_CC, TX_HEAD};
use crate::error::ProtocolError;
use crate::text::{
    char_is_whitespace, chars_of, hex_char_val, hex_upper_spec, is_hex_char, is_whitespace_spec,
    hex_lower_spec, lemma_hex_lower_shape, lemma_hex_upper_shape, lemma_nibble_lower, lemma_nibble_upper,
    lower_chars, nibble_lower, nibble_upper,
    push_char, push_hex_upper, unhex_chars,
};
use vstd::utf8::{encode_utf8, is_ascii_chars, is_ascii_chars_encode_utf8};

verus! {

/// 16-bit wrapping addition of one byte.
pub open spec fn add_byte16(sum: u16, b: u8) -> u16 {
    if sum + b > 0xFFFF {
        (sum + b - 0x10000) as u16
    } else {
        (sum + b) as u16
    }
}

/// The frame checksum: `CHECKSUM_INIT` plus every byte, modulo 2^16.
pub open spec fn checksum_spec(bytes: Seq<u8>) -> u16
    decreases bytes.len(),
{
    if bytes.len() == 0 {
        CHECKSUM_INIT
    } else {
        add_byte16(checksum_spec(bytes.drop_last()), bytes.last())
    }
}

/// The two checksum bytes, most significant first.
pub open spec fn checksum_bytes(sum: u16) -> Seq<u8> {
    seq![(sum / 256) as u8, (sum % 256) as u8]
}

/// `bytes` followed by its checksum.
pub open spec fn with_checksum(bytes: Seq<u8>) -> Seq<u8> {
    bytes + checksum_bytes(checksum_spec(bytes))
}

/// Big-endian value of two bytes.
pub open spec fn be16(hi: u8, lo: u8) -> u16 {
    (hi * 256 + lo) as u16
}

pub fn checksum(bytes: &[u8]) -> (sum: u16)
    ensures
        sum == checksum_spec(bytes@),
{
    let mut sum: u16 = CHECKSUM_INIT;
    let mut i: usize = 0;
    while i < bytes.len()
        invariant
            i <= bytes@.len(),
            sum == checksum_spec(bytes@.take(i as int)),
        decreases bytes@.len() - i,
    {
        assert(bytes@.take(i + 1).drop_last() =~= bytes@.take(i as int));
        sum = sum.wrapping_add(bytes[i] as u16);
        i = i + 1;
    }
    assert(bytes@.take(i as int) =~= bytes@);
    sum
}


proof fn lemma_checksum_bytes(sum: u16)
    ensures
        (sum >> 8) as u8 == (sum / 256) as u8,
        (sum & 0xFF) as u8 == (sum % 256) as u8,
        be16((sum / 256) as u8, (sum % 256) as u8) == sum,
{
    assert((sum >> 8) as u8 == (sum / 256) as u8) by (bit_vector);
    assert((sum & 0xFF) as u8 == (sum % 256) as u8) by (bit_vector);
}

/// Appends the two checksum bytes of `frame` to it.
pub fn append_checksum(frame: &mut Vec<u8>)
    ensures
        final(frame)@ == with_checksum(old(frame)@),
{
    let sum = checksum(frame.as_slice());
    proof {
        lemma_checksum_bytes(sum);
    }
    frame.push((sum >> 8) as u8);
    frame.push((sum & 0xFF) as u8);
}

/// What `verify_checksum` returns for a frame.
pub open spec fn verify_checksum_spec(frame: Seq<u8>) -> Result<(), ProtocolError> {
    if frame.len() < 2 {
        Err(ProtocolError::Checksum { expected: 0, actual: 0 })
    } else {
        let expected = checksum_spec(frame.take(frame.len() - 2));
        let actual = be16(frame[frame.len() - 2], frame[frame.len() - 1]);
        if expected == actual {
            Ok(())
        } else {
            Err(ProtocolError::Checksum { expected, actual })
        }
    }
}

/// Checks the two trailing checksum bytes of a whole frame.
pub fn verify_checksum(frame: &[u8]) -> (r: Result<(), ProtocolError>)
    ensures
        r == verify_checksum_spec(frame@),
{
    let n = frame.len();
    if n < 2 {
        return Err(ProtocolError::Checksum { expected: 0, actual: 0 });
    }
    let body = vstd::slice::slice_subrange(frame, 0, n - 2);
    let expected = checksum(body);
    let actual: u16 = (frame[n - 2] as u16) * 256 + (frame[n - 1] as u16);
    assert(body@ =~= frame@.take(n - 2));
    if expected == actual {
        Ok(())
    } else {
        Err(ProtocolError::Checksum { expected, actual })
    }
}

/// The host frame that carries `body`: head, length, body, checksum.
pub open spec fn tx_frame_spec(body: Seq<u8>) -> Seq<u8> {
    with_checksum(seq![TX_HEAD, body.len() as u8] + body)
}

/// Wraps a command body in a host frame.
pub fn encode_tx(body: &[u8]) -> (r: Result<Vec<u8>, ProtocolError>)
    ensures
        body@.len() > MAX_BODY_LEN <==> r is Err,
        r is Err ==> r == Err::<Vec<u8>, ProtocolError>(ProtocolError::PayloadTooLong),
        r matches Ok(frame) ==> frame@ == tx_frame_spec(body@),
{
    if body.len() > MAX_BODY_LEN {
        return Err(ProtocolError::PayloadTooLong);
    }
    let mut frame: Vec<u8> = Vec::with_capacity(body.len() + 4);
    frame.push(TX_HEAD);
    frame.push(body.len() as u8);
    let mut i: usize = 0;
    while i < body.len()
        invariant
            i <= body@.len(),
            body@.len() <= MAX_BODY_LEN,
            frame@ == seq![TX_HEAD, body@.len() as u8] + body@.take(i as int),
        decreases body@.len() - i,
    {
        frame.push(body[i]);
        i = i + 1;
        assert(frame@ =~= seq![TX_HEAD, body@.len() as u8] + body@.take(i as int));
    }
    assert(body@.take(i as int) =~= body@);
    append_checksum(&mut frame);
    Ok(frame)
}

/// `s` cut into consecutive pieces of `n` bytes; the last may be shorter.
pub open spec fn chunks_spec(s: Seq<u8>, n: nat) -> Seq<Seq<u8>>
    decreases s.len(),
{
    if s.len() == 0 || n == 0 {
        Seq::empty()
    } else if s.len() <= n {
        seq![s]
    } else {
        seq![s.take(n as int)] + chunks_spec(s.skip(n as int), n)
    }
}

/// Cuts a whole frame into BLE writes of at most 20 bytes.
pub fn split_ble_chunks(frame: &[u8]) -> (chunks: Vec<Vec<u8>>)
    ensures
        chunks@.map_values(|c: Vec<u8>| c@) == chunks_spec(frame@, BLE_CHUNK_LEN as nat),
{
    let mut chunks: Vec<Vec<u8>> = Vec::new();
    let n = frame.len();
    let mut start: usize = 0;
    assert(frame@.skip(0) =~= frame@);
    assert(chunks@.map_values(|c: Vec<u8>| c@) + chunks_spec(frame@, BLE_CHUNK_LEN as nat)
        =~= chunks_spec(frame@, BLE_CHUNK_LEN as nat));
    while start < n
        invariant
            n == frame@.len(),
            start <= n,
            chunks_spec(frame@, BLE_CHUNK_LEN as nat) == chunks@.map_values(|c: Vec<u8>| c@)
                + chunks_spec(frame@.skip(start as int), BLE_CHUNK_LEN as nat),
        decreases n - start,
    {
        let end = if n - start <= BLE_CHUNK_LEN { n } else { start + BLE_CHUNK_LEN };
        let mut piece: Vec<u8> = Vec::new();
        let mut j = start;
        while j < end
            invariant
                start <= j <= end <= n,
                n == frame@.len(),
                piece@ == frame@.subrange(start as int, j as int),
            decreases end - j,
        {
            piece.push(frame[j]);
            j = j + 1;
            assert(piece@ =~= frame@.subrange(start as int, j as int));
        }
        let ghost rest = frame@.skip(start as int);
        if n - start > BLE_CHUNK_LEN {
            assert(rest.take(BLE_CHUNK_LEN as int) =~= frame@.subrange(start as int, start + BLE_CHUNK_LEN));
            assert(rest.skip(BLE_CHUNK_LEN as int) =~= frame@.skip(start + BLE_CHUNK_LEN));
        }
        assert(n - start <= BLE_CHUNK_LEN ==> rest =~= frame@.subrange(start as int, n as int));
        let ghost before = chunks@.map_values(|c: Vec<u8>| c@);
        chunks.push(piece);
        assert(chunks@.map_values(|c: Vec<u8>| c@) =~= before.push(piece@));
        start = end;
        if start == n {
            assert(frame@.skip(start as int) =~= Seq::<u8>::empty());
        }
    }
    assert(chunks_spec(frame@.skip(start as int), BLE_CHUNK_LEN as nat) =~= Seq::<Seq<u8>>::empty()) by {
        assert(frame@.skip(start as int).len() == 0);
    }
    assert(chunks_spec(frame@, BLE_CHUNK_LEN as nat) =~= chunks@.map_values(|c: Vec<u8>| c@));
    chunks
}


/// A received frame, checksum removed.
#[derive(Debug, Clone, PartialEq, Eq)]
pub struct IncomingFrame {
    pub head: u8,
    pub body: Vec<u8>,
}

/// The mathematical value of a received frame.
pub struct FrameView {
    pub head: u8,
    pub body: Seq<u8>,
}

impl View for IncomingFrame {
    type V = FrameView;

    open spec fn view(&self) -> FrameView {
        FrameView { head: self.head, body: self.body@ }
    }
}

impl IncomingFrame {
    /// A response (head 0xBB).
    pub fn is_response(&self) -> (r: bool)
        ensures
            r == (self.head == RX_HEAD_BB),
    {
        self.head == RX_HEAD_BB
    }

    /// An acknowledgement (head 0xCC).
    pub fn is_ack(&self) -> (r: bool)
        ensures
            r == (self.head == RX_HEAD_CC),
    {
        self.head == RX_HEAD_CC
    }
}

/// The value of one decoding result.
pub open spec fn frame_result_view(r: Result<IncomingFrame, ProtocolError>) -> Result<FrameView, ProtocolError> {
    match r {
        Ok(f) => Ok(f@),
        Err(e) => Err(e),
    }
}

/// One step of the decoder on the pending bytes `buf`: `None` while they hold
/// no complete frame, else the result and how many bytes it consumed.
pub open spec fn extract_spec(buf: Seq<u8>) -> Option<(Result<FrameView, ProtocolError>, nat)> {
    if buf.len() == 0 {
        None
    } else if buf[0] != RX_HEAD_BB && buf[0] != RX_HEAD_CC {
        Some((Err(ProtocolError::UnexpectedHead(buf[0])), 1nat))
    } else if buf.len() < 2 {
        None
    } else {
        let total = buf[1] + 4;
        if buf.len() < total {
            None
        } else {
            let frame = buf.take(total);
            match verify_checksum_spec(frame) {
                Ok(_) => Some((Ok(FrameView { head: buf[0], body: frame.subrange(2, total - 2) }), total as nat)),
                Err(e) => Some((Err(e), total as nat)),
            }
        }
    }
}

/// Decodes `buf` greedily from the front: the results in order, and the bytes
/// left pending (a prefix of a frame that is still incomplete).
pub open spec fn decode_stream(buf: Seq<u8>) -> (Seq<Result<FrameView, ProtocolError>>, Seq<u8>)
    decreases buf.len(),
{
    match extract_spec(buf) {
        None => (Seq::empty(), buf),
        Some((r, n)) => if 0 < n <= buf.len() {
            let rest = decode_stream(buf.skip(n as int));
            (seq![r] + rest.0, rest.1)
        } else {
            (seq![r], Seq::empty())
        },
    }
}

proof fn lemma_extract_consumes(buf: Seq<u8>)
    ensures
        extract_spec(buf) matches Some((_, n)) ==> 0 < n <= buf.len(),
{
}

proof fn lemma_extract_prefix(x: Seq<u8>, y: Seq<u8>)
    requires
        extract_spec(x) is Some,
    ensures
        extract_spec(x + y) == extract_spec(x),
{
    let xy = x + y;
    assert(xy[0] == x[0]);
    if x.len() >= 2 {
        assert(xy[1] == x[1]);
        let total = x[1] + 4;
        if x.len() >= total {
            assert(xy.take(total) =~= x.take(total));
        }
    }
}

proof fn lemma_decode_append(x: Seq<u8>, y: Seq<u8>)
    ensures
        decode_stream(x + y) == (
            decode_stream(x).0 + decode_stream(decode_stream(x).1 + y).0,
            decode_stream(decode_stream(x).1 + y).1,
        ),
    decreases x.len(),
{
    lemma_extract_consumes(x);
    match extract_spec(x) {
        None => {
            assert(decode_stream(x).0 + decode_stream(x + y).0 =~= decode_stream(x + y).0);
        },
        Some((r, n)) => {
            lemma_extract_prefix(x, y);
            lemma_extract_consumes(x + y);
            assert((x + y).skip(n as int) =~= x.skip(n as int) + y);
            lemma_decode_append(x.skip(n as int), y);
            let rest = decode_stream(x.skip(n as int));
            let tail = decode_stream(rest.1 + y);
            assert(seq![r] + (rest.0 + tail.0) =~= (seq![r] + rest.0) + tail.0);
        },
    }
}

/// Bytes left pending after decoding never hold a complete frame.
proof fn lemma_decode_rest_stuck(buf: Seq<u8>)
    ensures
        extract_spec(decode_stream(buf).1) is None,
    decreases buf.len(),
{
    lemma_extract_consumes(buf);
    if let Some((r, n)) = extract_spec(buf) {
        lemma_decode_rest_stuck(buf.skip(n as int));
    }
}

/// Law: feeding the decoder in two pieces gives the frames, and leaves the
/// pending bytes, that feeding both pieces at once gives.
pub proof fn law_push_split(pending: Seq<u8>, a: Seq<u8>, b: Seq<u8>)
    ensures
        ({
            let first = decode_stream(pending + a);
            let second = decode_stream(first.1 + b);
            let whole = decode_stream(pending + a + b);
            first.0 + second.0 == whole.0 && second.1 == whole.1
        }),
{
    lemma_decode_append(pending + a, b);
}

/// Law: a frame followed by its own checksum passes the checksum test.
pub proof fn law_checksum_verifies(bytes: Seq<u8>)
    ensures
        verify_checksum_spec(with_checksum(bytes)) == Ok::<(), ProtocolError>(()),
{
    let f = with_checksum(bytes);
    let sum = checksum_spec(bytes);
    lemma_checksum_bytes(sum);
    assert(f.take(f.len() - 2) =~= bytes);
}

/// Law: every host frame that `encode_tx` produces passes the checksum test.
pub proof fn law_tx_frame_verifies(body: Seq<u8>)
    ensures
        verify_checksum_spec(tx_frame_spec(body)) == Ok::<(), ProtocolError>(()),
{
    law_checksum_verifies(seq![TX_HEAD, body.len() as u8] + body);
}

/// A headset frame: head, length, body, checksum.
pub open spec fn rx_frame_spec(head: u8, body: Seq<u8>) -> Seq<u8> {
    with_checksum(seq![head, body.len() as u8] + body)
}

/// Law: the decoder gives back exactly the body of a well-formed headset
/// frame, and keeps nothing pending.
pub proof fn law_decode_rx_frame(head: u8, body: Seq<u8>)
    requires
        head == RX_HEAD_BB || head == RX_HEAD_CC,
        body.len() <= MAX_BODY_LEN,
    ensures
        decode_stream(rx_frame_spec(head, body)) == (
            seq![Ok::<FrameView, ProtocolError>(FrameView { head, body })],
            Seq::<u8>::empty(),
        ),
{
    let f = rx_frame_spec(head, body);
    law_checksum_verifies(seq![head, body.len() as u8] + body);
    assert(f[0] == head);
    assert(f[1] == body.len() as u8);
    assert(f.len() == body.len() + 4);
    assert(f.take(f.len() as int) =~= f);
    assert(f.subrange(2, f.len() - 2) =~= body);
    assert(f.skip(f.len() as int) =~= Seq::<u8>::empty());
    assert(decode_stream(Seq::<u8>::empty()).0 =~= Seq::<Result<FrameView, ProtocolError>>::empty());
}

/// Buffer that cuts headset frames out of a byte stream.
#[derive(Debug)]
pub struct FrameDecoder {
    buf: Vec<u8>,
}

impl View for FrameDecoder {
    type V = Seq<u8>;

    closed spec fn view(&self) -> Seq<u8> {
        self.buf@
    }
}

fn try_extract(buf: &Vec<u8>, pos: usize) -> (r: Option<(Result<IncomingFrame, ProtocolError>, usize)>)
    requires
        pos <= buf@.len(),
    ensures
        match extract_spec(buf@.skip(pos as int)) {
            None => r is None,
            Some((res, n)) => r matches Some((out, m)) && frame_result_view(out) == res && m == n,
        },
{
    let ghost s = buf@.skip(pos as int);
    let len = buf.len() - pos;
    if len == 0 {
        return None;
    }
    let head = buf[pos];
    assert(s[0] == head);
    if head != RX_HEAD_BB && head != RX_HEAD_CC {
        return Some((Err(ProtocolError::UnexpectedHead(head)), 1));
    }
    if len < 2 {
        return None;
    }
    let total = buf[pos + 1] as usize + 4;
    assert(s[1] == buf@[pos + 1]);
    if len < total {
        return None;
    }
    let frame = vstd::slice::slice_subrange(buf.as_slice(), pos, pos + total);
    assert(frame@ =~= s.take(total as int));
    match verify_checksum(frame) {
        Ok(()) => {
            let mut body: Vec<u8> = Vec::new();
            let mut i: usize = 2;
            while i < total - 2
                invariant
                    2 <= i <= total - 2,
                    total == frame@.len(),
                    body@ == frame@.subrange(2, i as int),
                decreases total - 2 - i,
            {
                body.push(frame[i]);
                i = i + 1;
                assert(body@ =~= frame@.subrange(2, i as int));
            }
            Some((Ok(IncomingFrame { head, body }), total))
        },
        Err(e) => Some((Err(e), total)),
    }
}

impl FrameDecoder {
    /// An empty decoder.
    pub fn new() -> (d: Self)
        ensures
            d@ == Seq::<u8>::empty(),
    {
        FrameDecoder { buf: Vec::new() }
    }

    /// Drops the pending bytes.
    pub fn clear(&mut self)
        ensures
            final(self)@ == Seq::<u8>::empty(),
    {
        self.buf.clear();
    }

    /// Appends `data` to the pending bytes and cuts out every frame that is
    /// now complete, in order; a byte that cannot start a frame is dropped and
    /// reported as `UnexpectedHead`, a frame with a bad checksum is dropped and
    /// reported as `Checksum`.
    pub fn push(&mut self, data: &[u8]) -> (out: Vec<Result<IncomingFrame, ProtocolError>>)
        ensures
            out@.map_values(|r: Result<IncomingFrame, ProtocolError>| frame_result_view(r))
                == decode_stream(old(self)@ + data@).0,
            final(self)@ == decode_stream(old(self)@ + data@).1,
            extract_spec(final(self)@) is None,
    {
        self.buf.extend_from_slice(data);
        let ghost whole = self.buf@;
        assert(whole =~= old(self)@ + data@);
        let mut out: Vec<Result<IncomingFrame, ProtocolError>> = Vec::new();
        let mut pos: usize = 0;
        let total_len = self.buf.len();
        assert(whole.skip(0) =~= whole);
        assert(out@.map_values(|r: Result<IncomingFrame, ProtocolError>| frame_result_view(r))
            + decode_stream(whole).0 =~= decode_stream(whole).0);
        loop
            invariant
                self.buf@ == whole,
                total_len == whole.len(),
                pos <= whole.len(),
                decode_stream(whole).0 == out@.map_values(|r: Result<IncomingFrame, ProtocolError>| frame_result_view(r))
                    + decode_stream(whole.skip(pos as int)).0,
                decode_stream(whole).1 == decode_stream(whole.skip(pos as int)).1,
            ensures
                pos <= whole.len(),
                decode_stream(whole).0 == out@.map_values(|r: Result<IncomingFrame, ProtocolError>| frame_result_view(r))
                    + decode_stream(whole.skip(pos as int)).0,
                decode_stream(whole).1 == decode_stream(whole.skip(pos as int)).1,
                extract_spec(whole.skip(pos as int)) is None,
            decreases whole.len() - pos,
        {
            let ghost cur = whole.skip(pos as int);
            proof { lemma_extract_consumes(cur); }
            match try_extract(&self.buf, pos) {
                None => {
                    break;
                },
                Some((r, n)) => {
                    assert(n <= cur.len());
                    let ghost before = out@.map_values(|r: Result<IncomingFrame, ProtocolError>| frame_result_view(r));
                    out.push(r);
                    assert(out@.map_values(|r: Result<IncomingFrame, ProtocolError>| frame_result_view(r))
                        =~= before.push(frame_result_view(r)));
                    assert(cur.skip(n as int) =~= whole.skip(pos + n));
                    pos = pos + n;
                    assert(before + decode_stream(cur).0 =~= before.push(frame_result_view(r))
                        + decode_stream(whole.skip(pos as int)).0);
                },
            }
        }
        let ghost cur = whole.skip(pos as int);
        let rest = self.buf.split_off(pos);
        assert(rest@ =~= cur);
        self.buf = rest;
        assert(decode_stream(cur).0 =~= Seq::<Result<FrameView, ProtocolError>>::empty());
        assert(out@.map_values(|r: Result<IncomingFrame, ProtocolError>| frame_result_view(r))
            + Seq::<Result<FrameView, ProtocolError>>::empty()
            =~= out@.map_values(|r: Result<IncomingFrame, ProtocolError>| frame_result_view(r)));
        proof {
            lemma_decode_rest_stuck(whole);
        }
        out
    }
}


/// Characters that hex input may hold between digits.
pub open spec fn is_hex_separator(c: char) -> bool {
    is_whitespace_spec(c) || c == ':' || c == '-'
}

/// `s` without its separator characters.
pub open spec fn strip_separators(s: Seq<char>) -> Seq<char>
    decreases s.len(),
{
    if s.len() == 0 {
        s
    } else if is_hex_separator(s.last()) {
        strip_separators(s.drop_last())
    } else {
        strip_separators(s.drop_last()).push(s.last())
    }
}

/// What `parse_hex` returns: the separators are dropped; an odd UTF-8 length
/// of what is left is `OddHexLength`; a character that is not a hex digit is
/// `InvalidHex`; else the digit pairs, most significant first.
pub open spec fn parse_hex_spec(s: Seq<char>) -> Result<Seq<u8>, ProtocolError> {
    let f = strip_separators(s);
    if encode_utf8(f).len() % 2 != 0 {
        Err(ProtocolError::OddHexLength)
    } else if forall|i: int| 0 <= i < f.len() ==> is_hex_char(#[trigger] f[i]) {
        Ok(unhex_chars(f))
    } else {
        Err(ProtocolError::InvalidHex)
    }
}

fn hex_val(c: char) -> (r: Option<u8>)
    ensures
        r is Some <==> is_hex_char(c),
        r matches Some(v) ==> v == hex_char_val(c) && v < 16,
{
    if '0' <= c && c <= '9' {
        Some((c as u32 - 48) as u8)
    } else if 'a' <= c && c <= 'f' {
        Some((c as u32 - 87) as u8)
    } else if 'A' <= c && c <= 'F' {
        Some((c as u32 - 55) as u8)
    } else {
        None
    }
}

/// Reads hex digits; whitespace, ':' and '-' between them are ignored.
pub fn parse_hex(input: &str) -> (r: Result<Vec<u8>, ProtocolError>)
    ensures
        match r {
            Ok(v) => parse_hex_spec(input@) == Ok::<Seq<u8>, ProtocolError>(v@),
            Err(e) => parse_hex_spec(input@) == Err::<Seq<u8>, ProtocolError>(e),
        },
{
    let chars = chars_of(input);
    let mut filtered: Vec<char> = Vec::new();
    let mut text = String::new();
    let mut i: usize = 0;
    while i < chars.len()
        invariant
            i <= chars@.len(),
            chars@ == input@,
            filtered@ == strip_separators(chars@.take(i as int)),
            text@ == filtered@,
        decreases chars@.len() - i,
    {
        let c = chars[i];
        assert(chars@.take(i + 1).drop_last() =~= chars@.take(i as int));
        if !(char_is_whitespace(c) || c == ':' || c == '-') {
            filtered.push(c);
            push_char(&mut text, c);
        }
        i = i + 1;
    }
    assert(chars@.take(i as int) =~= chars@);
    let f = Ghost(filtered@);
    let n = text.as_str().as_bytes().len();
    assert(n == encode_utf8(f@).len());
    if n % 2 != 0 {
        return Err(ProtocolError::OddHexLength);
    }
    let mut j: usize = 0;
    assert(filtered@ == strip_separators(input@));
    while j < filtered.len()
        invariant
            j <= filtered@.len(),
            filtered@ == strip_separators(input@),
            encode_utf8(filtered@).len() % 2 == 0,
            forall|k: int| 0 <= k < j ==> is_hex_char(#[trigger] filtered@[k]),
        decreases filtered@.len() - j,
    {
        if hex_val(filtered[j]).is_none() {
            return Err(ProtocolError::InvalidHex);
        }
        j = j + 1;
    }
    proof {
        assert(is_ascii_chars(f@)) by {
            assert forall|k: int| 0 <= k < f@.len() implies '\0' <= #[trigger] f@[k] <= '\u{7f}' by {
                assert(is_hex_char(f@[k]));
            }
        }
        is_ascii_chars_encode_utf8(f@);
    }
    let flen = filtered.len();
    let half = flen / 2;
    let mut out: Vec<u8> = Vec::with_capacity(half);
    let mut k: usize = 0;
    while k < half
        invariant
            half == filtered@.len() / 2,
            flen == filtered@.len(),
            k <= half,
            forall|m: int| 0 <= m < filtered@.len() ==> is_hex_char(#[trigger] filtered@[m]),
            out@ == unhex_chars(filtered@).take(k as int),
        decreases half - k,
    {
        let idx = k + k;
        assert(idx + 1 < filtered@.len());
        let hi = hex_val(filtered[idx]).unwrap();
        let lo = hex_val(filtered[idx + 1]).unwrap();
        out.push(hi * 16 + lo);
        k = k + 1;
        assert(out@ =~= unhex_chars(filtered@).take(k as int));
    }
    assert(out@ =~= unhex_chars(filtered@));
    Ok(out)
}

/// The body a checked host frame carries: the bytes after its head and
/// length and before its checksum (none where the frame is shorter).
pub open spec fn tx_body_spec(raw: Seq<u8>) -> Result<Seq<u8>, ProtocolError> {
    match verify_checksum_spec(raw) {
        Err(e) => Err(e),
        Ok(_) => Ok(
            if raw.len() - 2 >= 2 {
                raw.subrange(2, raw.len() - 2)
            } else {
                Seq::empty()
            },
        ),
    }
}

/// Checks a whole host frame and gives back its body; a frame that fails the
/// checksum test is refused with that error.
pub fn tx_frame_body(raw: &[u8]) -> (r: Result<Vec<u8>, ProtocolError>)
    ensures
        match tx_body_spec(raw@) {
            Ok(b) => (r matches Ok(v) && v@ == b),
            Err(e) => r == Err::<Vec<u8>, ProtocolError>(e),
        },
{
    if let Err(e) = verify_checksum(raw) {
        return Err(e);
    }
    let end = raw.len() - 2;
    let mut body: Vec<u8> = Vec::new();
    if end >= 2 {
        let mut i: usize = 2;
        while i < end
            invariant
                2 <= i <= end,
                end == raw@.len() - 2,
                body@ == raw@.subrange(2, i as int),
            decreases end - i,
        {
            body.push(raw[i]);
            i = i + 1;
            assert(body@ =~= raw@.subrange(2, i as int));
        }
    }
    proof {
        if end < 2 {
            assert(body@ =~= Seq::<u8>::empty());
        }
    }
    Ok(body)
}

/// Writes bytes as upper-case hex, two digits per byte.
pub fn to_hex(bytes: &[u8]) -> (s: String)
    ensures
        s@ == hex_upper_spec(bytes@),
{
    let mut s = String::new();
    let mut i: usize = 0;
    while i < bytes.len()
        invariant
            i <= bytes@.len(),
            s@ == hex_upper_spec(bytes@.take(i as int)),
        decreases bytes@.len() - i,
    {
        assert(bytes@.take(i + 1).drop_last() =~= bytes@.take(i as int));
        push_hex_upper(&mut s, bytes[i]);
        i = i + 1;
    }
    assert(bytes@.take(i as int) =~= bytes@);
    s
}


proof fn lemma_strip_identity(s: Seq<char>)
    requires
        forall|i: int| 0 <= i < s.len() ==> !is_hex_separator(#[trigger] s[i]),
    ensures
        strip_separators(s) == s,
    decreases s.len(),
{
    if s.len() > 0 {
        assert(!is_hex_separator(s[s.len() - 1]));
        let d = s.drop_last();
        assert forall|i: int| 0 <= i < d.len() implies !is_hex_separator(#[trigger] d[i]) by {
            assert(d[i] == s[i]);
        }
        lemma_strip_identity(d);
        assert(d.push(s.last()) =~= s);
    }
}

/// Law: reading back the hex that `to_hex` writes gives the bytes again.
pub proof fn law_hex_roundtrip(bytes: Seq<u8>)
    ensures
        parse_hex_spec(hex_upper_spec(bytes)) == Ok::<Seq<u8>, ProtocolError>(bytes),
{
    let h = hex_upper_spec(bytes);
    lemma_hex_upper_shape(bytes);
    assert forall|i: int| 0 <= i < h.len() implies !is_hex_separator(#[trigger] h[i]) && is_hex_char(h[i])
        && h[i] <= '\u{7f}' by {
        let j = i / 2;
        assert(0 <= j < bytes.len());
        if i % 2 == 0 {
            assert(h[2 * j] == nibble_upper(bytes[j] / 16));
            lemma_nibble_upper(bytes[j] / 16);
            assert(i == 2 * j);
        } else {
            assert(h[2 * j + 1] == nibble_upper(bytes[j] % 16));
            lemma_nibble_upper(bytes[j] % 16);
            assert(i == 2 * j + 1);
        }
    }
    lemma_strip_identity(h);
    assert(is_ascii_chars(h));
    is_ascii_chars_encode_utf8(h);
    assert forall|j: int| 0 <= j < bytes.len() implies #[trigger] unhex_chars(h)[j] == bytes[j] by {
        assert(h[2 * j] == nibble_upper(bytes[j] / 16));
        assert(h[2 * j + 1] == nibble_upper(bytes[j] % 16));
        lemma_nibble_upper(bytes[j] / 16);
        lemma_nibble_upper(bytes[j] % 16);
    }
    assert(unhex_chars(h) =~= bytes);
}

/// Law: hex read back in lower case gives the bytes too: `to_hex` output
/// turned to ASCII lower case is the lower-case hex of the bytes, and
/// `parse_hex` reads it back as the bytes.
pub proof fn law_hex_lower_roundtrip(bytes: Seq<u8>)
    ensures
        lower_chars(hex_upper_spec(bytes)) == hex_lower_spec(bytes),
        parse_hex_spec(hex_lower_spec(bytes)) == Ok::<Seq<u8>, ProtocolError>(bytes),
{
    let u = hex_upper_spec(bytes);
    let h = hex_lower_spec(bytes);
    lemma_hex_upper_shape(bytes);
    lemma_hex_lower_shape(bytes);
    assert forall|i: int| 0 <= i < h.len() implies #[trigger] lower_chars(u)[i] == h[i] by {
        let j = i / 2;
        if i % 2 == 0 {
            assert(i == 2 * j);
            assert(u[2 * j] == nibble_upper(bytes[j] / 16));
            assert(h[2 * j] == nibble_lower(bytes[j] / 16));
        } else {
            assert(i == 2 * j + 1);
            assert(u[2 * j + 1] == nibble_upper(bytes[j] % 16));
            assert(h[2 * j + 1] == nibble_lower(bytes[j] % 16));
        }
    }
    assert(lower_chars(u) =~= h);
    assert forall|i: int| 0 <= i < h.len() implies !is_hex_separator(#[trigger] h[i]) && is_hex_char(h[i])
        && h[i] <= '\u{7f}' by {
        let j = i / 2;
        lemma_nibble_lower(bytes[j] / 16);
        lemma_nibble_lower(bytes[j] % 16);
        if i % 2 == 0 {
            assert(i == 2 * j);
        } else {
            assert(i == 2 * j + 1);
        }
    }
    lemma_strip_identity(h);
    assert(is_ascii_chars(h));
    is_ascii_chars_encode_utf8(h);
    assert forall|j: int| 0 <= j < bytes.len() implies #[trigger] unhex_chars(h)[j] == bytes[j] by {
        assert(h[2 * j] == nibble_lower(bytes[j] / 16));
        assert(h[2 * j + 1] == nibble_lower(bytes[j] % 16));
        lemma_nibble_lower(bytes[j] / 16);
        lemma_nibble_lower(bytes[j] % 16);
    }
    assert(unhex_chars(h) =~= bytes);
}

} // verus!
