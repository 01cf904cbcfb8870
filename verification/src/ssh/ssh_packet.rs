//! The packet codec: from a payload to the bytes of one frame.
//!
//! A frame is, in this order: the packet length as four bytes, most
//! significant first; the padding length as one byte; the payload; the
//! padding. The packet length counts everything behind itself.

use crate::errors::{SshError, SshErrorKind};
use crate::ssh::random::{gen_byte, gen_range};
use rand::rngs::ThreadRng;
use vstd::prelude::*;
use vstd::utf8::encode_utf8;

verus! {

/// Bytes in front of the payload: the length field and the padding length.
pub const HEADER_LENGTH: usize = 5;

/// Frames are a whole number of blocks of this many bytes.
pub const BLOCK_LENGTH: usize = 8;

/// The shortest frame that is accepted.
pub const MIN_FRAME_LENGTH: usize = 16;

/// The longest frame that is accepted.
pub const MAX_FRAME_LENGTH: usize = 35000;

/// The least padding the protocol allows.
pub const MIN_PADDING_LENGTH: usize = 4;

/// The most padding that the one-byte length field can announce.
pub const MAX_PADDING_LENGTH: usize = 255;

/// Padding lengths are drawn from `MIN_DRAWN_PADDING..MAX_DRAWN_PADDING`.
pub const MIN_DRAWN_PADDING: u8 = 8;

/// The end, not included, of the range that padding lengths are drawn from.
pub const MAX_DRAWN_PADDING: u8 = 255;

/// The four bytes of `x`, most significant first.
pub open spec fn be_bytes(x: u32) -> Seq<u8> {
    seq![
        (x / 0x100_0000) as u8,
        (x / 0x1_0000 % 0x100) as u8,
        (x / 0x100 % 0x100) as u8,
        (x % 0x100) as u8,
    ]
}

/// The number that the first four bytes of `bytes` spell, most significant
/// byte first.
pub open spec fn be_value(bytes: Seq<u8>) -> int
    recommends
        bytes.len() >= 4,
{
    bytes[0] * 0x100_0000 + bytes[1] * 0x1_0000 + bytes[2] * 0x100 + bytes[3]
}

/// The value of the length field: one byte for the padding length, the
/// payload and the padding. The field is 32 bits wide, and a count too large
/// for it wraps around; such a frame is never accepted.
pub open spec fn packet_length_field(payload_len: nat, padding_len: nat) -> u32 {
    ((1 + payload_len + padding_len) % 0x1_0000_0000) as u32
}

/// The frame that carries `payload` with `padding` behind it.
pub open spec fn frame_bytes(payload: Seq<u8>, padding: Seq<u8>) -> Seq<u8> {
    be_bytes(packet_length_field(payload.len(), padding.len())) + seq![padding.len() as u8]
        + payload + padding
}

/// What is wrong with a frame of `len` bytes, if anything. The checks are
/// made in this order, and the first that fails decides.
pub open spec fn frame_fault(len: nat) -> Option<SshErrorKind> {
    if len < 16 {
        Some(SshErrorKind::FrameTooSmall)
    } else if len % 8 != 0 {
        Some(SshErrorKind::FrameMisaligned)
    } else if len > 35000 {
        Some(SshErrorKind::FrameTooLarge)
    } else {
        None
    }
}

/// The message that goes with each fault of a frame.
pub open spec fn frame_fault_message(kind: SshErrorKind) -> Seq<char> {
    match kind {
        SshErrorKind::FrameTooSmall => "The minimum size of the packet is less than 16 bytes"@,
        SshErrorKind::FrameMisaligned => "The size of the packet must be a multiple of 8"@,
        _ => "The maximum size of the packet is more than 35000 bytes"@,
    }
}

/// The padding length used for a payload of `payload_len` bytes when `drawn`
/// came out of the random source: `drawn` itself where the frame is then a
/// whole number of blocks, else the next length above it that makes it so,
/// or, where that would not fit in a byte, the next one below.
pub open spec fn aligned_padding_length(payload_len: nat, drawn: nat) -> nat {
    let over = (5 + payload_len + drawn) % 8;
    if over == 0 {
        drawn
    } else if drawn + (8 - over) <= 255 {
        (drawn + (8 - over)) as nat
    } else {
        (drawn - over) as nat
    }
}

/// A packet as contracts see it: the text it carries and its padding.
pub struct SshPacketView {
    pub payload: Seq<char>,
    pub random_padding: Seq<u8>,
}

impl SshPacketView {
    /// The payload as it goes on the wire.
    pub open spec fn payload_bytes(self) -> Seq<u8> {
        encode_utf8(self.payload)
    }

    /// The frame of this packet.
    pub open spec fn frame(self) -> Seq<u8> {
        frame_bytes(self.payload_bytes(), self.random_padding)
    }

    /// `SshPacket::new` may build this packet for `payload`: it carries that
    /// text, and its padding has the aligned length of some length that can
    /// be drawn.
    pub open spec fn is_built_for(self, payload: Seq<char>) -> bool {
        &&& self.payload == payload
        &&& exists|drawn: nat|
            8 <= drawn < 255 && self.random_padding.len() == #[trigger] aligned_padding_length(
                encode_utf8(payload).len(),
                drawn,
            )
    }
}

/// One outbound frame of the binary packet protocol, not yet serialized.
///
/// A packet is built from the message to send and is turned
/// [`into_bytes`](SshPacket::into_bytes) once.
pub struct SshPacket {
    packet_length: u32,
    padding_length: u8,
    payload: String,
    random_padding: Vec<u8>,
}

impl View for SshPacket {
    type V = SshPacketView;

    closed spec fn view(&self) -> SshPacketView {
        SshPacketView { payload: self.payload@, random_padding: self.random_padding@ }
    }
}

impl SshPacket {
    /// The two length fields say what the payload and the padding are, and
    /// the padding has a length that the protocol allows.
    #[verifier::type_invariant]
    spec fn well_formed(self) -> bool {
        &&& self.padding_length == self.random_padding@.len()
        &&& self.padding_length >= 4
        &&& self.packet_length == packet_length_field(
            encode_utf8(self.payload@).len(),
            self.random_padding@.len(),
        )
    }

    /// Builds the packet that carries `payload`.
    ///
    /// The padding length is drawn from the random source and then aligned
    /// (see [`aligned_padding_length`]); the padding itself is random too.
    pub fn new(payload: String) -> (packet: Self)
        ensures
            packet@.is_built_for(payload@),
    {
        let mut rng: ThreadRng = rand::thread_rng();
        let drawn: u8 = gen_range(&mut rng, MIN_DRAWN_PADDING, MAX_DRAWN_PADDING);
        let padding_length: u8 = Self::padding_length_for(payload.as_str().as_bytes().len(), drawn);
        let random_padding: Vec<u8> = Self::generate_random_padding(padding_length);
        let ghost payload_bytes = encode_utf8(payload@);
        let packet = Self::from_parts(payload, random_padding).unwrap();
        assert(packet@.random_padding.len() == aligned_padding_length(
            payload_bytes.len(),
            drawn as nat,
        ));
        packet
    }

    /// Builds the packet that carries `payload` with the given padding, where
    /// the protocol allows padding of that length.
    pub fn from_parts(payload: String, random_padding: Vec<u8>) -> (packet: Option<Self>)
        ensures
            packet is Some <==> 4 <= random_padding@.len() <= 255,
            packet is Some ==> packet.unwrap()@ == (SshPacketView {
                payload: payload@,
                random_padding: random_padding@,
            }),
    {
        let padding_len: usize = random_padding.len();
        if padding_len < MIN_PADDING_LENGTH || padding_len > MAX_PADDING_LENGTH {
            return None;
        }
        let payload_len: usize = payload.as_str().as_bytes().len();
        let counted: u128 = (1 + payload_len as u128 + padding_len as u128) % 0x1_0000_0000;
        Some(
            Self {
                packet_length: counted as u32,
                padding_length: padding_len as u8,
                payload,
                random_padding,
            },
        )
    }

    /// Serializes the packet, and hands the frame out if it passes the three
    /// checks on its length: at least 16 bytes, a whole number of blocks of 8,
    /// at most 35000 bytes. The first check that fails gives the error.
    pub fn into_bytes(self) -> (frame: Result<Vec<u8>, SshError>)
        ensures
            match frame {
                Ok(bytes) => frame_fault(self@.frame().len()) is None && bytes@ == self@.frame(),
                Err(e) => frame_fault(self@.frame().len()) == Some(e@.kind) && e@.message
                    == frame_fault_message(e@.kind),
            },
    {
        proof {
            use_type_invariant(&self);
        }
        let mut final_packet: Vec<u8> = Vec::new();
        push_be_bytes(&mut final_packet, self.packet_length);
        final_packet.push(self.padding_length);
        final_packet.extend_from_slice(self.payload.as_str().as_bytes());
        final_packet.extend_from_slice(self.random_padding.as_slice());
        assert(final_packet@ =~= self@.frame());

        if final_packet.len() < MIN_FRAME_LENGTH {
            return Err(
                SshError::new(
                    SshErrorKind::FrameTooSmall,
                    "The minimum size of the packet is less than 16 bytes".to_owned(),
                ),
            );
        }
        if final_packet.len() % BLOCK_LENGTH != 0 {
            return Err(
                SshError::new(
                    SshErrorKind::FrameMisaligned,
                    "The size of the packet must be a multiple of 8".to_owned(),
                ),
            );
        }
        if final_packet.len() > MAX_FRAME_LENGTH {
            return Err(
                SshError::new(
                    SshErrorKind::FrameTooLarge,
                    "The maximum size of the packet is more than 35000 bytes".to_owned(),
                ),
            );
        }
        Ok(final_packet)
    }

    /// Turns a drawn padding length into one that aligns the frame of a
    /// payload of `payload_len` bytes.
    pub fn padding_length_for(payload_len: usize, drawn: u8) -> (padding_length: u8)
        ensures
            padding_length == aligned_padding_length(payload_len as nat, drawn as nat),
    {
        let over: usize = (payload_len % BLOCK_LENGTH + HEADER_LENGTH + drawn as usize)
            % BLOCK_LENGTH;
        assert(over == (5 + payload_len + drawn) % 8);
        if over == 0 {
            drawn
        } else if drawn as usize + (BLOCK_LENGTH - over) <= MAX_PADDING_LENGTH {
            (drawn as usize + (BLOCK_LENGTH - over)) as u8
        } else {
            (drawn as usize - over) as u8
        }
    }

    /// Fills a buffer of `padding_length` bytes from the random source.
    pub fn generate_random_padding(padding_length: u8) -> (padding: Vec<u8>)
        ensures
            padding@.len() == padding_length,
    {
        let mut padding: Vec<u8> = Vec::new();
        let mut rng: ThreadRng = rand::thread_rng();
        while padding.len() < padding_length as usize
            invariant
                padding@.len() <= padding_length,
            decreases padding_length - padding@.len(),
        {
            let b: u8 = gen_byte(&mut rng);
            padding.push(b);
        }
        padding
    }
}

/// Appends the four bytes of `x`, most significant first.
fn push_be_bytes(out: &mut Vec<u8>, x: u32)
    ensures
        final(out)@ == old(out)@ + be_bytes(x),
{
    out.push((x / 0x100_0000) as u8);
    out.push((x / 0x1_0000 % 0x100) as u8);
    out.push((x / 0x100 % 0x100) as u8);
    out.push((x % 0x100) as u8);
    assert(out@ =~= old(out)@ + be_bytes(x));
}

/// An aligned padding length fits in a byte, keeps the frame a whole number
/// of blocks, and is at least 8 where the drawn one was.
pub proof fn lemma_aligned_padding_length(payload_len: nat, drawn: nat)
    requires
        drawn <= 255,
    ensures
        aligned_padding_length(payload_len, drawn) <= 255,
        (5 + payload_len + aligned_padding_length(payload_len, drawn)) % 8 == 0,
        drawn >= 8 ==> aligned_padding_length(payload_len, drawn) >= 8,
{
}

/// Every packet that `SshPacket::new` can build serializes to a frame that
/// passes the checks, unless payload and padding together are too long for
/// any frame: its length is a whole number of blocks of 8 and lies between
/// 16 and 35000. This holds of the empty payload too. A payload of at most
/// 34740 bytes is never too long, whatever padding length is drawn.
pub proof fn lemma_built_frame_is_accepted(packet: SshPacketView, payload: Seq<char>)
    requires
        packet.is_built_for(payload),
        5 + packet.payload_bytes().len() + packet.random_padding.len() <= 35000,
    ensures
        frame_fault(packet.frame().len()) is None,
        packet.frame().len() % 8 == 0,
        16 <= packet.frame().len() <= 35000,
{
}

/// A packet that `SshPacket::new` can build has between 8 and 255 bytes of
/// padding, so that its frame is too long only if the payload has more than
/// 34740 bytes.
pub proof fn lemma_built_padding_is_bounded(packet: SshPacketView, payload: Seq<char>)
    requires
        packet.is_built_for(payload),
    ensures
        8 <= packet.random_padding.len() <= 255,
        packet.payload_bytes().len() <= 34740 ==> 5 + packet.payload_bytes().len()
            + packet.random_padding.len() <= 35000,
{
}

/// In a frame that passes the checks, the first four bytes spell the count
/// of everything behind them: one byte for the padding length, the payload
/// and the padding. The fifth byte is the padding length, the payload and
/// the padding follow, and the frame has five bytes more than these two.
pub proof fn lemma_length_field_round_trip(payload: Seq<u8>, padding: Seq<u8>)
    requires
        padding.len() <= 255,
        frame_fault(frame_bytes(payload, padding).len()) is None,
    ensures
        be_value(frame_bytes(payload, padding).subrange(0, 4)) == 1 + payload.len()
            + padding.len(),
        frame_bytes(payload, padding).len() == 5 + payload.len() + padding.len(),
        frame_bytes(payload, padding)[4] == padding.len(),
        frame_bytes(payload, padding).subrange(5, 5 + payload.len() as int) == payload,
        frame_bytes(payload, padding).subrange(
            5 + payload.len() as int,
            5 + payload.len() as int + padding.len() as int,
        ) == padding,
{
    let frame = frame_bytes(payload, padding);
    let field = packet_length_field(payload.len(), padding.len());
    assert(field == 1 + payload.len() + padding.len());
    assert(frame.subrange(0, 4) =~= be_bytes(field));
    assert(frame.subrange(5, 5 + payload.len() as int) =~= payload);
    assert(frame.subrange(
        5 + payload.len() as int,
        5 + payload.len() as int + padding.len() as int,
    ) =~= padding);
}

} // verus!
