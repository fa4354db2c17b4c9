//! Low-level frame codec.
//!
//! A request is `[command, length, addr_high, addr_low]` followed, for
//! write commands, by `length + 1` payload bytes.  Every byte is escape
//! encoded before transmission: a literal end-of-frame marker (0x0A)
//! becomes `0xDB 0xDC`, a literal escape marker (0xDB) becomes `0xDB
//! 0xDD`.  A running 8-bit wraparound checksum accumulates the bytes as
//! actually transmitted; its two's complement is sent as a trailer, and an
//! explicit 0x0A terminator follows unless the trailer already is 0x0A.
//!
//! A response is validated against the same checksum rule and un-escaped
//! in place before any of its content is trusted.

use vstd::prelude::*;
use vstd::slice::slice_subrange;
use crate::error::MapError;

verus! {

/// End-of-frame marker.
pub const END_OF_FRAME: u8 = 0x0A;

/// Escape marker that introduces a two-byte stuffed sequence.
pub const ESCAPE: u8 = 0xDB;

/// Capacity of the raw page buffer.
pub const BUFFER_SIZE: usize = 560;

/// The escape encoding of a single byte: reserved bytes become two-byte
/// stuffed sequences, every other byte is transmitted unmodified.
pub open spec fn escape_byte(b: u8) -> Seq<u8> {
    if b == 0x0A {
        seq![0xDBu8, 0xDCu8]
    } else if b == 0xDB {
        seq![0xDBu8, 0xDDu8]
    } else {
        seq![b]
    }
}

/// The escape encoding of a whole byte sequence.
pub open spec fn escape_seq(s: Seq<u8>) -> Seq<u8>
    decreases s.len(),
{
    if s.len() == 0 {
        Seq::empty()
    } else {
        escape_byte(s[0]) + escape_seq(s.skip(1))
    }
}

/// The inverse of the escape encoding: each `0xDB 0xDC` pair collapses to
/// 0x0A, each `0xDB 0xDD` pair to 0xDB; everything else passes through.
pub open spec fn unescape_seq(s: Seq<u8>) -> Seq<u8>
    decreases s.len(),
{
    if s.len() == 0 {
        Seq::empty()
    } else if s.len() >= 2 && s[0] == 0xDB && s[1] == 0xDC {
        seq![0x0Au8] + unescape_seq(s.skip(2))
    } else if s.len() >= 2 && s[0] == 0xDB && s[1] == 0xDD {
        seq![0xDBu8] + unescape_seq(s.skip(2))
    } else {
        seq![s[0]] + unescape_seq(s.skip(1))
    }
}

/// 8-bit wraparound sum of a byte sequence.
pub open spec fn wrap_sum(s: Seq<u8>) -> u8
    decreases s.len(),
{
    if s.len() == 0 {
        0u8
    } else {
        ((wrap_sum(s.drop_last()) + s.last()) % 256) as u8
    }
}

/// The checksum trailer: the two's complement of the wraparound sum of the
/// transmitted bytes.
pub open spec fn checksum_trailer(s: Seq<u8>) -> u8 {
    ((256 - wrap_sum(s)) % 256) as u8
}

/// Appending one byte adds it to the wraparound sum.
pub proof fn lemma_wrap_sum_push(s: Seq<u8>, b: u8)
    ensures
        wrap_sum(s.push(b)) == ((wrap_sum(s) + b) % 256) as u8,
{
    assert(s.push(b).drop_last() =~= s);
    assert(s.push(b).last() == b);
}

/// Escaping distributes over appending a byte.
pub proof fn lemma_escape_seq_push(s: Seq<u8>, b: u8)
    ensures
        escape_seq(s.push(b)) == escape_seq(s) + escape_byte(b),
    decreases s.len(),
{
    if s.len() == 0 {
        assert(s.push(b)[0] == b);
        assert(s.push(b).skip(1) =~= Seq::<u8>::empty());
        assert(escape_seq(s.push(b)) == escape_byte(b) + escape_seq(Seq::<u8>::empty()));
        assert(escape_seq(s.push(b)) =~= escape_byte(b));
        assert(escape_seq(s) + escape_byte(b) =~= escape_byte(b));
    } else {
        assert(s.push(b)[0] == s[0]);
        assert(s.push(b).skip(1) =~= s.skip(1).push(b));
        lemma_escape_seq_push(s.skip(1), b);
        assert(escape_seq(s.push(b)) =~= escape_seq(s) + escape_byte(b));
    }
}

/// Un-escaping never lengthens a sequence.
pub proof fn lemma_unescape_len(s: Seq<u8>)
    ensures
        unescape_seq(s).len() <= s.len(),
    decreases s.len(),
{
    if s.len() == 0 {
    } else if s.len() >= 2 && s[0] == 0xDB && (s[1] == 0xDC || s[1] == 0xDD) {
        lemma_unescape_len(s.skip(2));
    } else {
        lemma_unescape_len(s.skip(1));
    }
}

/// The two wire command kinds.
#[derive(Debug, PartialEq, Eq, Copy, Clone, Structural)]
pub enum LowLevelCommands {
    ToRead,
    ToWrite,
}

impl LowLevelCommands {
    /// The command byte transmitted on the wire.
    pub open spec fn spec_byte(self) -> u8 {
        match self {
            LowLevelCommands::ToRead => 0x72,
            LowLevelCommands::ToWrite => 0x77,
        }
    }

    /// The command byte transmitted on the wire.
    pub fn to_byte(self) -> (r: u8)
        ensures
            r == self.spec_byte(),
    {
        match self {
            LowLevelCommands::ToRead => 0x72,
            LowLevelCommands::ToWrite => 0x77,
        }
    }
}

/// The four-byte request header: command, length, address high, address
/// low.
pub open spec fn command_header(command: LowLevelCommands, addr: u16, page: u16) -> Seq<u8> {
    seq![
        command.spec_byte(),
        (page & 0xFF) as u8,
        (addr >> 8) as u8,
        (addr & 0xFF) as u8,
    ]
}

/// The un-escaped request: the header followed, for write commands only,
/// by `page + 1` payload bytes taken from the current buffer.
pub open spec fn command_body(
    command: LowLevelCommands,
    addr: u16,
    page: u16,
    buffer: Seq<u8>,
) -> Seq<u8> {
    if command == LowLevelCommands::ToWrite {
        command_header(command, addr, page) + buffer.take(page + 1)
    } else {
        command_header(command, addr, page)
    }
}

/// The request body as actually transmitted, after escape encoding.
pub open spec fn escaped_body(
    command: LowLevelCommands,
    addr: u16,
    page: u16,
    buffer: Seq<u8>,
) -> Seq<u8> {
    escape_seq(command_body(command, addr, page, buffer))
}

/// The complete transmitted frame: escaped body, checksum trailer, and an
/// explicit end-of-frame marker unless the trailer already is one.
pub open spec fn frame_bytes(
    command: LowLevelCommands,
    addr: u16,
    page: u16,
    buffer: Seq<u8>,
) -> Seq<u8> {
    let body = escaped_body(command, addr, page, buffer);
    let trailer = checksum_trailer(body);
    if trailer == 0x0A {
        body.push(trailer)
    } else {
        body.push(trailer).push(0x0A)
    }
}

/// Checksum law: for any generated frame, the 8-bit wraparound sum of all
/// checksummed transmitted bytes — the escaped body together with the
/// trailer — is zero.
pub proof fn lemma_frame_checksum_zero(
    command: LowLevelCommands,
    addr: u16,
    page: u16,
    buffer: Seq<u8>,
)
    ensures
        ({
            let body = escaped_body(command, addr, page, buffer);
            wrap_sum(body.push(checksum_trailer(body))) == 0
        }),
{
    let body = escaped_body(command, addr, page, buffer);
    lemma_wrap_sum_push(body, checksum_trailer(body));
}

/// Round trip: un-escaping an escape-encoded sequence reproduces the
/// original sequence exactly, whatever reserved bytes it contains.
pub proof fn lemma_escape_unescape_roundtrip(s: Seq<u8>)
    ensures
        unescape_seq(escape_seq(s)) == s,
    decreases s.len(),
{
    if s.len() == 0 {
        assert(unescape_seq(escape_seq(s)) =~= s);
    } else {
        lemma_escape_unescape_roundtrip(s.skip(1));
        let e = escape_seq(s);
        let rest = escape_seq(s.skip(1));
        if s[0] == 0x0A {
            assert(e == seq![0xDBu8, 0xDCu8] + rest);
            assert(e[0] == 0xDB && e[1] == 0xDC);
            assert(e.skip(2) =~= rest);
            assert(unescape_seq(e) == seq![0x0Au8] + unescape_seq(rest));
            assert(unescape_seq(e) =~= s);
        } else if s[0] == 0xDB {
            assert(e == seq![0xDBu8, 0xDDu8] + rest);
            assert(e[0] == 0xDB && e[1] == 0xDD);
            assert(e.skip(2) =~= rest);
            assert(unescape_seq(e) == seq![0xDBu8] + unescape_seq(rest));
            assert(unescape_seq(e) =~= s);
        } else {
            assert(e == seq![s[0]] + rest);
            assert(e[0] == s[0] && e[0] != 0xDB);
            assert(e.skip(1) =~= rest);
            assert(unescape_seq(e) == seq![s[0]] + unescape_seq(rest));
            assert(unescape_seq(e) =~= s);
        }
    }
}

/// A page buffer holding only zeros.
pub open spec fn zero_page() -> Seq<u8> {
    Seq::new(560, |i: int| 0u8)
}

pub fn zeroed_buffer() -> (v: Vec<u8>)
    ensures
        v@ == zero_page(),
{
    let mut v: Vec<u8> = Vec::new();
    while v.len() < 560
        invariant
            v@.len() <= 560,
            forall|i: int| 0 <= i < v@.len() ==> v@[i] == 0u8,
        decreases 560 - v@.len(),
    {
        v.push(0u8);
    }
    proof {
        assert(v@ =~= zero_page());
    }
    v
}

/// One protocol session's codec state: the running transmit checksum and
/// the raw page buffer with the cursor of validly populated bytes.
///
/// The buffer is owned by the session, overwritten on each command, and
/// never shared across concurrent commands: the protocol is strictly
/// request/response with one command in flight at a time.
pub struct LowLevelProtocol {
    pub sum: u8,
    pub buffer: Vec<u8>,
    pub last_read_bytes_index: usize,
}

/// The checksum and status-byte validation of a received raw frame.
///
/// `raw` is the frame as received, from the leading status byte through
/// the terminating byte.  The wraparound sum runs over everything before
/// the trailer; its two's complement must match the trailer, or be the
/// end-of-frame marker itself when the trailer was elided for coinciding
/// with it.
pub open spec fn answer_check(raw: Seq<u8>) -> Result<(), MapError>
    recommends
        raw.len() >= 2,
{
    let idx = raw.len() - 1;
    if raw[0] == 0x65 {
        Err(MapError::FirstByteis65DontKnowWhatItMeans)
    } else if raw[0] != 0x6F {
        Err(MapError::UnknownValueError { value: raw[0] })
    } else {
        let sum_r = checksum_trailer(raw.take(idx - 1));
        if sum_r == 0x0A && raw[idx] != 0x0A {
            Err(MapError::ChecksumFailed { value: sum_r })
        } else if sum_r != 0x0A && sum_r != raw[idx - 1] {
            Err(MapError::ChecksumFailed { value: sum_r })
        } else {
            Ok(())
        }
    }
}

/// The un-escaped content of a received frame, leading status byte
/// excluded.
pub open spec fn decoded_payload(raw: Seq<u8>) -> Seq<u8> {
    unescape_seq(raw.skip(1))
}

/// The page buffer after a successful answer: the status byte, the
/// un-escaped content, and zero padding up to the buffer capacity.
pub open spec fn decoded_buffer(raw: Seq<u8>) -> Seq<u8>
    recommends
        1 <= raw.len() <= 560,
{
    seq![raw[0]] + decoded_payload(raw) + Seq::new(
        (559 - decoded_payload(raw).len()) as nat,
        |i: int| 0u8,
    )
}

/// Un-escapes a received byte sequence: the executable counterpart of
/// [`unescape_seq`].
pub fn unescape(data: &[u8]) -> (out: Vec<u8>)
    ensures
        out@ == unescape_seq(data@),
{
    let mut out: Vec<u8> = Vec::new();
    let mut i: usize = 0;
    proof {
        assert(data@.skip(0) =~= data@);
        assert(out@ + unescape_seq(data@) =~= unescape_seq(data@));
    }
    while i < data.len()
        invariant
            i <= data@.len(),
            unescape_seq(data@) == out@ + unescape_seq(data@.skip(i as int)),
        decreases data@.len() - i,
    {
        let rest = Ghost(data@.skip(i as int));
        if data[i] == ESCAPE && i + 1 < data.len() && data[i + 1] == 0xDC {
            out.push(0x0A);
            proof {
                assert(rest@[0] == 0xDB && rest@[1] == 0xDC);
                assert(rest@.skip(2) =~= data@.skip(i + 2));
                assert(out@ + unescape_seq(data@.skip(i + 2)) =~= unescape_seq(data@));
            }
            i += 2;
        } else if data[i] == ESCAPE && i + 1 < data.len() && data[i + 1] == 0xDD {
            out.push(0xDB);
            proof {
                assert(rest@[0] == 0xDB && rest@[1] == 0xDD);
                assert(rest@.skip(2) =~= data@.skip(i + 2));
                assert(out@ + unescape_seq(data@.skip(i + 2)) =~= unescape_seq(data@));
            }
            i += 2;
        } else {
            out.push(data[i]);
            proof {
                assert(rest@[0] == data@[i as int]);
                assert(rest@.skip(1) =~= data@.skip(i + 1));
                assert(out@ + unescape_seq(data@.skip(i + 1)) =~= unescape_seq(data@));
            }
            i += 1;
        }
    }
    proof {
        assert(data@.skip(i as int) =~= Seq::<u8>::empty());
        assert(out@ =~= unescape_seq(data@));
    }
    out
}

impl LowLevelProtocol {
    /// The session invariant: the buffer has its fixed capacity and the
    /// cursor never exceeds it.
    pub open spec fn wf(&self) -> bool {
        &&& self.buffer@.len() == 560
        &&& self.last_read_bytes_index < 560
    }

    /// A fresh session with a zeroed page buffer and a zeroed running
    /// checksum.
    pub fn new() -> (r: Self)
        ensures
            r.wf(),
            r.buffer@ == zero_page(),
            r.last_read_bytes_index == 0,
            r.sum == 0,
    {
        LowLevelProtocol { sum: 0, buffer: zeroed_buffer(), last_read_bytes_index: 0 }
    }

    /// Zeroes the page buffer and resets the cursor; the running
    /// checksum is untouched.
    pub fn clear_buffer(&mut self)
        ensures
            final(self).wf(),
            final(self).buffer@ == zero_page(),
            final(self).last_read_bytes_index == 0,
            final(self).sum == old(self).sum,
    {
        self.buffer = zeroed_buffer();
        self.last_read_bytes_index = 0;
    }

    /// The validly populated content of the last answer, status byte
    /// excluded.
    pub fn get_actually_read_slice(&self) -> (r: &[u8])
        requires
            self.wf(),
        ensures
            r@ == self.buffer@.subrange(1, self.last_read_bytes_index + 1),
    {
        slice_subrange(self.buffer.as_slice(), 1, self.last_read_bytes_index + 1)
    }

    /// Escape-encodes one byte into `out`, keeping the running checksum in
    /// step with the bytes emitted so far.
    fn code_db(&mut self, a: u8, out: &mut Vec<u8>)
        requires
            old(self).sum == wrap_sum(old(out)@),
        ensures
            final(out)@ == old(out)@ + escape_byte(a),
            final(self).sum == wrap_sum(final(out)@),
            final(self).buffer == old(self).buffer,
            final(self).last_read_bytes_index == old(self).last_read_bytes_index,
    {
        if a == 0x0A {
            self.sum = ((self.sum as u16 + 0xDB) % 256) as u8;
            out.push(0xDB);
            proof {
                lemma_wrap_sum_push(old(out)@, 0xDB);
            }
            self.sum = ((self.sum as u16 + 0xDC) % 256) as u8;
            out.push(0xDC);
            proof {
                lemma_wrap_sum_push(old(out)@.push(0xDB), 0xDC);
                assert(final(out)@ =~= old(out)@ + escape_byte(a));
            }
        } else if a == 0xDB {
            self.sum = ((self.sum as u16 + 0xDB) % 256) as u8;
            out.push(0xDB);
            proof {
                lemma_wrap_sum_push(old(out)@, 0xDB);
            }
            self.sum = ((self.sum as u16 + 0xDD) % 256) as u8;
            out.push(0xDD);
            proof {
                lemma_wrap_sum_push(old(out)@.push(0xDB), 0xDD);
                assert(final(out)@ =~= old(out)@ + escape_byte(a));
            }
        } else {
            self.sum = ((self.sum as u16 + a as u16) % 256) as u8;
            out.push(a);
            proof {
                lemma_wrap_sum_push(old(out)@, a);
                assert(final(out)@ =~= old(out)@ + escape_byte(a));
            }
        }
    }

    /// Builds the complete escaped, checksummed frame for one command.
    ///
    /// The frame is returned for the transport shell to transmit byte by
    /// byte under echo confirmation; for write commands the payload is
    /// taken from the current buffer.
    pub fn send_command(&mut self, command: LowLevelCommands, addr: u16, page: u16) -> (frame:
        Vec<u8>)
        requires
            old(self).wf(),
            page < 560,
        ensures
            final(self).wf(),
            final(self).buffer == old(self).buffer,
            final(self).last_read_bytes_index == old(self).last_read_bytes_index,
            frame@ == frame_bytes(command, addr, page, old(self).buffer@),
    {
        let ghost header = command_header(command, addr, page);
        let ghost body = command_body(command, addr, page, old(self).buffer@);
        let mut out: Vec<u8> = Vec::new();
        self.sum = 0;
        let mut data: Vec<u8> = Vec::new();
        data.push(command.to_byte());
        data.push((page & 0xFF) as u8);
        data.push((addr >> 8) as u8);
        data.push((addr & 0xFF) as u8);
        proof {
            assert(data@ =~= header);
            assert(out@ =~= Seq::<u8>::empty());
            assert(self.sum == wrap_sum(out@));
            assert(escape_seq(Seq::<u8>::empty()) =~= Seq::<u8>::empty());
        }
        let mut i: usize = 0;
        while i < 4
            invariant
                i <= 4,
                data@ == header,
                data@.len() == 4,
                out@ == escape_seq(header.take(i as int)),
                self.sum == wrap_sum(out@),
                self.buffer == old(self).buffer,
                self.last_read_bytes_index == old(self).last_read_bytes_index,
            decreases 4 - i,
        {
            let b = data[i];
            self.code_db(b, &mut out);
            proof {
                assert(header.take(i + 1) =~= header.take(i as int).push(header[i as int]));
                lemma_escape_seq_push(header.take(i as int), header[i as int]);
            }
            i += 1;
        }
        proof {
            assert(header.take(4) =~= header);
        }
        if command == LowLevelCommands::ToWrite {
            let mut j: usize = 0;
            proof {
                assert(header + old(self).buffer@.take(0) =~= header);
            }
            while j < page as usize + 1
                invariant
                    j <= page + 1,
                    page < 560,
                    self.buffer == old(self).buffer,
                    self.buffer@.len() == 560,
                    self.last_read_bytes_index == old(self).last_read_bytes_index,
                    out@ == escape_seq(header + old(self).buffer@.take(j as int)),
                    self.sum == wrap_sum(out@),
                decreases page + 1 - j,
            {
                let b = self.buffer[j];
                self.code_db(b, &mut out);
                proof {
                    let prefix = header + old(self).buffer@.take(j as int);
                    assert(header + old(self).buffer@.take(j + 1) =~= prefix.push(
                        old(self).buffer@[j as int],
                    ));
                    lemma_escape_seq_push(prefix, old(self).buffer@[j as int]);
                }
                j += 1;
            }
        }
        proof {
            assert(out@ == escape_seq(body));
        }
        // the trailer: two's complement of the running checksum
        self.sum = ((0xFFu16 - self.sum as u16 + 1) % 256) as u8;
        proof {
            assert(self.sum == checksum_trailer(escape_seq(body)));
        }
        out.push(self.sum);
        if self.sum != 0x0A {
            out.push(0x0A);
        }
        out
    }

    /// Zeroes the buffer, then builds the frame for one command.
    pub fn send_command_clean_buffer(
        &mut self,
        command: LowLevelCommands,
        addr: u16,
        page: u16,
    ) -> (frame: Vec<u8>)
        requires
            old(self).wf(),
            page < 560,
        ensures
            final(self).wf(),
            final(self).buffer@ == zero_page(),
            final(self).last_read_bytes_index == 0,
            frame@ == frame_bytes(command, addr, page, zero_page()),
    {
        self.clear_buffer();
        self.send_command(command, addr, page)
    }

    /// Validates a received raw frame and un-escapes it into the page
    /// buffer.
    ///
    /// `raw` holds the frame exactly as received by the transport shell,
    /// from the leading status byte through the terminating byte.  On
    /// success the buffer holds the status byte, the un-escaped content
    /// and zero padding, with the cursor at the content length; on any
    /// validation error the session is left unchanged.
    pub fn read_answer(&mut self, raw: &[u8]) -> (r: Result<(), MapError>)
        requires
            old(self).wf(),
            2 <= raw@.len() <= 560,
        ensures
            final(self).wf(),
            r == answer_check(raw@),
            r is Ok ==> final(self).buffer@ == decoded_buffer(raw@)
                && final(self).last_read_bytes_index == decoded_payload(raw@).len(),
            r is Err ==> *final(self) == *old(self),
    {
        let idx = raw.len() - 1;
        if raw[0] == 0x65 {
            return Err(MapError::FirstByteis65DontKnowWhatItMeans);
        }
        if raw[0] != 0x6F {
            return Err(MapError::UnknownValueError { value: raw[0] });
        }
        // wraparound sum of everything before the trailer
        let mut sum_r: u8 = 0;
        let mut i: usize = 0;
        proof {
            assert(raw@.take(0) =~= Seq::<u8>::empty());
        }
        while i < idx - 1
            invariant
                raw@.len() >= 2,
                idx == raw@.len() - 1,
                i <= idx - 1,
                sum_r == wrap_sum(raw@.take(i as int)),
            decreases idx - 1 - i,
        {
            sum_r = ((sum_r as u16 + raw[i] as u16) % 256) as u8;
            proof {
                assert(raw@.take(i + 1) =~= raw@.take(i as int).push(raw@[i as int]));
                lemma_wrap_sum_push(raw@.take(i as int), raw@[i as int]);
            }
            i += 1;
        }
        sum_r = ((0xFFu16 - sum_r as u16 + 1) % 256) as u8;
        proof {
            assert(sum_r == checksum_trailer(raw@.take(idx - 1)));
        }
        if sum_r == 0x0A && raw[idx] != 0x0A {
            return Err(MapError::ChecksumFailed { value: sum_r });
        }
        if sum_r != 0x0A && sum_r != raw[idx - 1] {
            return Err(MapError::ChecksumFailed { value: sum_r });
        }
        // rebuild the buffer: status byte, un-escaped content, zero padding
        let tail = slice_subrange(raw, 1, raw.len());
        proof {
            assert(tail@ =~= raw@.skip(1));
        }
        let decoded = unescape(tail);
        proof {
            lemma_unescape_len(raw@.skip(1));
        }
        let mut buf: Vec<u8> = Vec::new();
        buf.push(raw[0]);
        let mut j: usize = 0;
        while j < decoded.len()
            invariant
                j <= decoded@.len(),
                buf@ == seq![raw@[0]] + decoded@.take(j as int),
            decreases decoded@.len() - j,
        {
            buf.push(decoded[j]);
            proof {
                assert(seq![raw@[0]] + decoded@.take(j + 1) =~= (seq![raw@[0]]
                    + decoded@.take(j as int)).push(decoded@[j as int]));
            }
            j += 1;
        }
        proof {
            assert(decoded@.take(decoded@.len() as int) =~= decoded@);
            assert(buf@ == seq![raw@[0]] + decoded@);
        }
        while buf.len() < 560
            invariant
                1 + decoded@.len() <= buf@.len() <= 560,
                decoded@.len() <= 559,
                buf@.take(1 + decoded@.len() as int) == seq![raw@[0]] + decoded@,
                forall|k: int| 1 + decoded@.len() <= k < buf@.len() ==> buf@[k] == 0u8,
            decreases 560 - buf@.len(),
        {
            let ghost prev = buf@;
            buf.push(0u8);
            proof {
                assert(buf@.take(1 + decoded@.len() as int) =~= prev.take(1 + decoded@.len() as int));
            }
        }
        proof {
            assert(buf@ =~= decoded_buffer(raw@));
        }
        self.buffer = buf;
        self.last_read_bytes_index = decoded.len();
        Ok(())
    }
}

/// Outcome of confirming one transmitted byte against its device echo.
#[derive(Debug, PartialEq, Eq, Copy, Clone, Structural)]
pub enum EchoStatus {
    /// The echo matched; the next byte may be sent.
    Accepted,
    /// The echo mismatched but the retry budget is not exhausted; read the
    /// echo channel again without re-sending.
    Retry,
    /// More mismatched echoes than the budget tolerates; the write has
    /// failed with a verification runaway.
    Runaway,
}

/// What one echo observation decides, given how many mismatches came
/// before it: a match is accepted; a mismatch is retried until more than
/// 20 have accumulated.
pub open spec fn spec_echo_outcome(counter: u8, sent: u8, echoed: u8) -> EchoStatus {
    if sent == echoed {
        EchoStatus::Accepted
    } else if counter >= 20 {
        EchoStatus::Runaway
    } else {
        EchoStatus::Retry
    }
}

/// The echo-confirmation budget for one transmitted byte.
///
/// Every byte written to the device must be echoed back before the next
/// byte is sent.  Mismatched echoes are tolerated up to a fixed budget;
/// the byte is then re-read from the echo channel, never re-sent.  The
/// transport shell performs the actual reads and writes and feeds each
/// observed echo through `on_echo`.
pub struct EchoWrite {
    pub counter: u8,
}

impl EchoWrite {
    /// A fresh budget for one byte write.
    pub fn new() -> (r: Self)
        ensures
            r.counter == 0,
    {
        EchoWrite { counter: 0 }
    }

    /// Judges one observed echo against the byte that was sent.
    pub fn on_echo(&mut self, sent: u8, echoed: u8) -> (r: EchoStatus)
        ensures
            r == spec_echo_outcome(old(self).counter, sent, echoed),
            final(self).counter == if sent == echoed || old(self).counter >= 20 {
                old(self).counter
            } else {
                (old(self).counter + 1) as u8
            },
    {
        if sent == echoed {
            EchoStatus::Accepted
        } else if self.counter >= 20 {
            EchoStatus::Runaway
        } else {
            self.counter = self.counter + 1;
            EchoStatus::Retry
        }
    }
}

/// When the answer receive loop stops: at the end-of-frame marker, or
/// when the page buffer would be exhausted.
pub fn answer_complete(byte: u8, idx: usize) -> (r: bool)
    ensures
        r == (byte == 0x0A || idx >= 559),
{
    byte == END_OF_FRAME || idx >= BUFFER_SIZE - 1
}

} // verus!
