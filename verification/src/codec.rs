//! Pure construction and parsing of DDC/CI luminance frames.
//!
//! A request frame is a short byte sequence: an opcode, the count of the
//! remaining payload bytes, the VCP feature code, the payload, and a trailing
//! checksum byte.  The checksum is the XOR-fold of a per-direction seed with
//! every preceding byte of the frame.  A response frame is validated by its
//! source-address byte and carries the current luminance as a big-endian
//! 16-bit quantity, of which only the low byte is meaningful.

use vstd::prelude::*;

verus! {

/// Address the display answers from; also the base checksum seed.
pub const DISPLAY_ADDRESS: u8 = 0x6E;

/// Host sub-address folded into the checksum seed on the write path.
pub const HOST_SUB_ADDRESS: u8 = 0x51;

/// VCP feature code for luminance.
pub const VCP_LUMINANCE: u8 = 0x10;

/// Opcode of a "get VCP feature" request.
pub const OPCODE_GET: u8 = 0x82;

/// Opcode of a "set VCP feature" request.
pub const OPCODE_SET: u8 = 0x84;

/// Length of a get request frame.
pub const GET_FRAME_LEN: usize = 4;

/// Length of a set request frame.
pub const SET_FRAME_LEN: usize = 6;

/// Number of bytes read back for a get response.
pub const RESPONSE_LEN: usize = 12;

/// Offset of the source-address byte in a response frame.
pub const SOURCE_OFFSET: usize = 0;

/// Offset of the high luminance byte in a response frame.
pub const VALUE_HIGH_OFFSET: usize = 8;

/// Offset of the low luminance byte in a response frame.
pub const VALUE_LOW_OFFSET: usize = 9;

/// Largest luminance level a display accepts.
pub const MAX_LUMINANCE: u8 = 100;

/// Settle time between bus transactions, in microseconds.
pub const DDC_DELAY_MICROS: u64 = 10_000;

/// XOR-fold of a seed with every byte of a sequence, the DDC/CI checksum rule.
pub open spec fn xor_fold(seed: u8, bytes: Seq<u8>) -> u8
    decreases bytes.len(),
{
    if bytes.len() == 0 {
        seed
    } else {
        xor_fold(seed, bytes.drop_last()) ^ bytes.last()
    }
}

/// A luminance level clamped into `[0, MAX_LUMINANCE]`.
pub open spec fn clamped(v: u8) -> u8 {
    if v > MAX_LUMINANCE {
        MAX_LUMINANCE
    } else {
        v
    }
}

/// Errors a luminance transaction can surface.
///
/// `WriteFailed` and `ReadFailed` carry the transport's own status code;
/// `InvalidResponse` means the bus operation succeeded but the response frame
/// failed validation; `ConnectionUnavailable` means no transport could be
/// acquired at all.
#[derive(Clone, Copy, PartialEq, Eq, Structural, Debug)]
pub enum ProtocolError {
    ConnectionUnavailable,
    WriteFailed(i32),
    ReadFailed(i32),
    InvalidResponse,
}

/// A luminance level, always within `[0, MAX_LUMINANCE]`.
#[derive(Clone, Copy, PartialEq, Eq, Structural, Debug)]
pub struct LuminanceValue {
    level: u8,
}

impl LuminanceValue {
    /// The level this value holds.
    pub closed spec fn spec_level(self) -> u8 {
        self.level
    }

    #[verifier::type_invariant]
    spec fn in_range(self) -> bool {
        self.level <= MAX_LUMINANCE
    }

    /// Clamp a raw level into range; inputs above `MAX_LUMINANCE` become `MAX_LUMINANCE`.
    pub fn new(raw: u8) -> (r: Self)
        ensures
            r.spec_level() == clamped(raw),
            r.spec_level() == vstd::math::min(raw as int, MAX_LUMINANCE as int),
    {
        LuminanceValue { level: if raw > MAX_LUMINANCE { MAX_LUMINANCE } else { raw } }
    }

    /// The level as a plain byte, never above `MAX_LUMINANCE`.
    pub fn level(&self) -> (r: u8)
        ensures
            r == self.spec_level(),
            r <= MAX_LUMINANCE,
    {
        proof {
            use_type_invariant(self);
        }
        self.level
    }
}

/// The bytes of a get-luminance request: opcode, remaining length, feature
/// code, and the checksum seeded with the display address alone.
pub open spec fn get_frame_spec() -> Seq<u8> {
    let body = seq![OPCODE_GET, 0x01u8, VCP_LUMINANCE];
    body.push(xor_fold(DISPLAY_ADDRESS, body))
}

/// The bytes of a set-luminance request for level `v`: opcode, remaining
/// length, feature code, the level as a big-endian pair, and the checksum
/// seeded with the display address XOR the host sub-address.
pub open spec fn set_frame_spec(v: u8) -> Seq<u8> {
    let body = seq![OPCODE_SET, 0x03u8, VCP_LUMINANCE, 0x00u8, v];
    body.push(xor_fold(DISPLAY_ADDRESS ^ HOST_SUB_ADDRESS, body))
}

/// What `decode_response` returns for a response buffer: the low luminance
/// byte when the frame is long enough and carries the display's address at
/// the source offset, and `InvalidResponse` otherwise.
pub open spec fn decode_spec(buf: Seq<u8>) -> Result<u8, ProtocolError> {
    if buf.len() > VALUE_LOW_OFFSET && buf[SOURCE_OFFSET as int] == DISPLAY_ADDRESS {
        Ok(buf[VALUE_LOW_OFFSET as int])
    } else {
        Err(ProtocolError::InvalidResponse)
    }
}

/// Build the 4-byte get-luminance request frame.
pub fn build_get_request() -> (r: Vec<u8>)
    ensures
        r@ == get_frame_spec(),
        r@.len() == GET_FRAME_LEN,
{
    let mut frame: Vec<u8> = Vec::new();
    frame.push(OPCODE_GET);
    frame.push(0x01);
    frame.push(VCP_LUMINANCE);
    proof {
        assert(frame@ =~= seq![OPCODE_GET, 0x01u8, VCP_LUMINANCE]);
    }
    let cks = checksum(DISPLAY_ADDRESS, frame.as_slice());
    frame.push(cks);
    frame
}

/// Build the 6-byte set-luminance request frame for a clamped level.
pub fn build_set_request(value: LuminanceValue) -> (r: Vec<u8>)
    ensures
        r@ == set_frame_spec(value.spec_level()),
        r@.len() == SET_FRAME_LEN,
{
    let level = value.level();
    let mut frame: Vec<u8> = Vec::new();
    frame.push(OPCODE_SET);
    frame.push(0x03);
    frame.push(VCP_LUMINANCE);
    frame.push(0x00);
    frame.push(level);
    proof {
        assert(frame@ =~= seq![OPCODE_SET, 0x03u8, VCP_LUMINANCE, 0x00u8, value.spec_level()]);
    }
    let cks = checksum(DISPLAY_ADDRESS ^ HOST_SUB_ADDRESS, frame.as_slice());
    frame.push(cks);
    frame
}

/// Validate a response frame and extract the luminance it reports.
///
/// Succeeds exactly when the buffer reaches past the value offsets and its
/// source-address byte is the display's address; the result is the low value
/// byte (the high byte is always zero for this feature, but sits in the frame
/// and keeps the transaction length correct).
pub fn decode_response(buf: &[u8]) -> (r: Result<u8, ProtocolError>)
    ensures
        r == decode_spec(buf@),
        r is Ok <==> buf@.len() > VALUE_LOW_OFFSET && buf@[SOURCE_OFFSET as int]
            == DISPLAY_ADDRESS,
        r is Err ==> r->Err_0 == ProtocolError::InvalidResponse,
{
    if buf.len() > VALUE_LOW_OFFSET && buf[SOURCE_OFFSET] == DISPLAY_ADDRESS {
        Ok(buf[VALUE_LOW_OFFSET])
    } else {
        Err(ProtocolError::InvalidResponse)
    }
}

/// Checksum self-consistency of a set frame: for every level in range the
/// frame is six bytes long and its last byte is the XOR-fold of the
/// write-path seed with all five preceding bytes.
pub proof fn lemma_set_frame_checksum(v: u8)
    requires
        v <= MAX_LUMINANCE,
    ensures
        set_frame_spec(v).len() == SET_FRAME_LEN,
        set_frame_spec(v).last() == xor_fold(
            DISPLAY_ADDRESS ^ HOST_SUB_ADDRESS,
            set_frame_spec(v).drop_last(),
        ),
{
    assert(set_frame_spec(v).drop_last() =~= seq![
        OPCODE_SET,
        0x03u8,
        VCP_LUMINANCE,
        0x00u8,
        v,
    ]);
}

/// Checksum self-consistency of the get frame: it is four bytes long and its
/// last byte is the XOR-fold of the read-path seed with all three preceding
/// bytes.
pub proof fn lemma_get_frame_checksum()
    ensures
        get_frame_spec().len() == GET_FRAME_LEN,
        get_frame_spec().last() == xor_fold(DISPLAY_ADDRESS, get_frame_spec().drop_last()),
{
    assert(get_frame_spec().drop_last() =~= seq![OPCODE_GET, 0x01u8, VCP_LUMINANCE]);
}

/// Clamping takes the minimum with `MAX_LUMINANCE` and is idempotent, so a
/// set transaction for `v` carries the same level, and hence the same frame,
/// as one for `min(v, MAX_LUMINANCE)`.
pub proof fn lemma_clamp_idempotent(v: u8)
    ensures
        clamped(v) == vstd::math::min(v as int, MAX_LUMINANCE as int),
        clamped(clamped(v)) == clamped(v),
        set_frame_spec(clamped(clamped(v))) == set_frame_spec(clamped(v)),
{
}

/// XOR-fold `seed` with every byte of `bytes`.
pub fn checksum(seed: u8, bytes: &[u8]) -> (r: u8)
    ensures
        r == xor_fold(seed, bytes@),
{
    let mut acc: u8 = seed;
    let mut i: usize = 0;
    while i < bytes.len()
        invariant
            i <= bytes@.len(),
            acc == xor_fold(seed, bytes@.take(i as int)),
        decreases bytes@.len() - i,
    {
        proof {
            assert(bytes@.take(i + 1).drop_last() =~= bytes@.take(i as int));
        }
        acc = acc ^ bytes[i];
        i = i + 1;
    }
    proof {
        assert(bytes@.take(bytes@.len() as int) =~= bytes@);
    }
    acc
}

} // verus!
