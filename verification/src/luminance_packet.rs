//! A fixed 16-byte request buffer, the layout some transports expect.
//!
//! The frame bytes of [`crate::codec`] sit at the front and the rest of the
//! buffer is zero.  Before transmission only the used prefix goes on the bus:
//! [`LuminancePacket::bytes_used`] finds it by trimming trailing zeros.

use vstd::prelude::*;

use crate::codec;
use crate::codec::LuminanceValue;

verus! {

/// Number of bytes a packet buffer holds.
pub const PACKET_LEN: usize = 16;

/// A request frame padded with zeros to a fixed 16-byte buffer.
pub struct LuminancePacket {
    pub data: [u8; 16],
}

/// A frame padded with zeros up to the packet length.
pub open spec fn padded(frame: Seq<u8>) -> Seq<u8> {
    frame + Seq::new((PACKET_LEN - frame.len()) as nat, |i: int| 0u8)
}

/// The count of bytes left when trailing zeros are trimmed: the position
/// just past the last nonzero byte.
pub open spec fn trimmed_len(s: Seq<u8>) -> int
    decreases s.len(),
{
    if s.len() == 0 {
        0
    } else if s.last() != 0 {
        s.len() as int
    } else {
        trimmed_len(s.drop_last())
    }
}

impl LuminancePacket {
    /// Build the padded set-luminance packet; the raw level is clamped.
    pub fn new_write_packet(value: u8) -> (r: Self)
        ensures
            r.data@ == padded(codec::set_frame_spec(codec::clamped(value))),
            r.data@.len() == PACKET_LEN,
    {
        let frame = codec::build_set_request(LuminanceValue::new(value));
        Self::from_frame(&frame)
    }

    /// Build the padded get-luminance packet.
    pub fn new_read_packet() -> (r: Self)
        ensures
            r.data@ == padded(codec::get_frame_spec()),
            r.data@.len() == PACKET_LEN,
    {
        let frame = codec::build_get_request();
        Self::from_frame(&frame)
    }

    /// Copy a frame into the front of a zeroed packet buffer.
    fn from_frame(frame: &Vec<u8>) -> (r: Self)
        requires
            frame@.len() <= PACKET_LEN,
        ensures
            r.data@ == padded(frame@),
    {
        let mut data: [u8; 16] = [0u8; 16];
        let mut i: usize = 0;
        while i < frame.len()
            invariant
                i <= frame@.len(),
                frame@.len() <= PACKET_LEN,
                data@.len() == PACKET_LEN,
                forall|j: int| 0 <= j < i ==> data@[j] == frame@[j],
                forall|j: int| i <= j < PACKET_LEN ==> data@[j] == 0u8,
            decreases frame@.len() - i,
        {
            data[i] = frame[i];
            i = i + 1;
        }
        proof {
            assert(data@ =~= padded(frame@));
        }
        LuminancePacket { data }
    }

    /// The length of the used prefix: the buffer with its trailing zeros
    /// trimmed, so only meaningful bytes go on the bus.
    pub fn bytes_used(&self) -> (r: usize)
        ensures
            r == trimmed_len(self.data@),
    {
        let mut n: usize = 16;
        proof {
            assert(self.data@.take(16) =~= self.data@);
        }
        while n > 0 && self.data[n - 1] == 0
            invariant
                n <= PACKET_LEN,
                self.data@.len() == PACKET_LEN,
                trimmed_len(self.data@) == trimmed_len(self.data@.take(n as int)),
            decreases n,
        {
            proof {
                assert(self.data@.take(n as int).drop_last() =~= self.data@.take(
                    n as int - 1,
                ));
                assert(self.data@.take(n as int).last() == self.data@[n as int - 1]);
            }
            n = n - 1;
        }
        proof {
            if n > 0 {
                assert(self.data@.take(n as int).last() == self.data@[n as int - 1]);
            }
        }
        n
    }
}

} // verus!
