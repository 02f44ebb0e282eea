use vstd::prelude::*;
use crate::orientation::{Orientation, quarter_turns};

verus! {

/// Link test probe.
pub const SYN: u8 = 0x16;
/// Affirmative reply.
pub const ACK: u8 = 0x06;
/// Negative reply.
pub const NAK: u8 = 0x15;
/// Status query.
pub const ENQ: u8 = 0x05;
/// Rotate to landscape; enable autorotation.
pub const DC1: u8 = 0x11;
/// Rotate to portrait; disable autorotation.
pub const DC2: u8 = 0x12;
/// Rotate to flipped landscape; recalibrate the sensor.
pub const DC3: u8 = 0x13;
/// Rotate to flipped portrait.
pub const DC4: u8 = 0x14;

/// A byte of the control protocol, by meaning.
#[derive(Clone, Copy, Debug, PartialEq, Eq, Structural)]
pub enum ControlCode {
    Syn,
    Ack,
    Nak,
    Enq,
    Dc1,
    Dc2,
    Dc3,
    Dc4,
    /// Any byte that is none of the above, kept as it came.
    Unknown(u8),
}

/// The meaning of byte `b`.
pub open spec fn decode_spec(b: u8) -> ControlCode {
    if b == SYN {
        ControlCode::Syn
    } else if b == ACK {
        ControlCode::Ack
    } else if b == NAK {
        ControlCode::Nak
    } else if b == ENQ {
        ControlCode::Enq
    } else if b == DC1 {
        ControlCode::Dc1
    } else if b == DC2 {
        ControlCode::Dc2
    } else if b == DC3 {
        ControlCode::Dc3
    } else if b == DC4 {
        ControlCode::Dc4
    } else {
        ControlCode::Unknown(b)
    }
}

/// The byte that carries code `c`.
pub open spec fn encode_spec(c: ControlCode) -> u8 {
    match c {
        ControlCode::Syn => SYN,
        ControlCode::Ack => ACK,
        ControlCode::Nak => NAK,
        ControlCode::Enq => ENQ,
        ControlCode::Dc1 => DC1,
        ControlCode::Dc2 => DC2,
        ControlCode::Dc3 => DC3,
        ControlCode::Dc4 => DC4,
        ControlCode::Unknown(b) => b,
    }
}

/// The orientation that a device-control code requests; `None` for other codes.
pub open spec fn requested_orientation_spec(c: ControlCode) -> Option<Orientation> {
    match c {
        ControlCode::Dc1 => Some(Orientation::Landscape),
        ControlCode::Dc2 => Some(Orientation::Portrait),
        ControlCode::Dc3 => Some(Orientation::LandscapeFlipped),
        ControlCode::Dc4 => Some(Orientation::PortraitFlipped),
        _ => None,
    }
}

/// The device-control code that requests orientation `o`.
pub open spec fn request_code_spec(o: Orientation) -> ControlCode {
    match o {
        Orientation::Landscape => ControlCode::Dc1,
        Orientation::Portrait => ControlCode::Dc2,
        Orientation::LandscapeFlipped => ControlCode::Dc3,
        Orientation::PortraitFlipped => ControlCode::Dc4,
    }
}

impl ControlCode {
    /// Reads one byte of the protocol.
    pub fn decode(b: u8) -> (r: ControlCode)
        ensures
            r == decode_spec(b),
    {
        if b == SYN {
            ControlCode::Syn
        } else if b == ACK {
            ControlCode::Ack
        } else if b == NAK {
            ControlCode::Nak
        } else if b == ENQ {
            ControlCode::Enq
        } else if b == DC1 {
            ControlCode::Dc1
        } else if b == DC2 {
            ControlCode::Dc2
        } else if b == DC3 {
            ControlCode::Dc3
        } else if b == DC4 {
            ControlCode::Dc4
        } else {
            ControlCode::Unknown(b)
        }
    }

    /// The byte that carries this code.
    pub fn encode(self) -> (r: u8)
        ensures
            r == encode_spec(self),
    {
        match self {
            ControlCode::Syn => SYN,
            ControlCode::Ack => ACK,
            ControlCode::Nak => NAK,
            ControlCode::Enq => ENQ,
            ControlCode::Dc1 => DC1,
            ControlCode::Dc2 => DC2,
            ControlCode::Dc3 => DC3,
            ControlCode::Dc4 => DC4,
            ControlCode::Unknown(b) => b,
        }
    }

    /// The orientation requested by DC1 to DC4; `None` for any other code.
    pub fn requested_orientation(self) -> (r: Option<Orientation>)
        ensures
            r == requested_orientation_spec(self),
    {
        match self {
            ControlCode::Dc1 => Some(Orientation::Landscape),
            ControlCode::Dc2 => Some(Orientation::Portrait),
            ControlCode::Dc3 => Some(Orientation::LandscapeFlipped),
            ControlCode::Dc4 => Some(Orientation::PortraitFlipped),
            _ => None,
        }
    }

    /// The device-control code that requests `o`.
    pub fn request_for(o: Orientation) -> (r: ControlCode)
        ensures
            r == request_code_spec(o),
    {
        match o {
            Orientation::Landscape => ControlCode::Dc1,
            Orientation::Portrait => ControlCode::Dc2,
            Orientation::LandscapeFlipped => ControlCode::Dc3,
            Orientation::PortraitFlipped => ControlCode::Dc4,
        }
    }
}

/// Decoding inverts encoding, for every code that a byte can carry.
pub proof fn lemma_decode_encode(c: ControlCode)
    requires
        c is Unknown ==> decode_spec(c->Unknown_0) is Unknown,
    ensures
        decode_spec(encode_spec(c)) == c,
{
}

/// Encoding inverts decoding, for every byte.
pub proof fn lemma_encode_decode(b: u8)
    ensures
        encode_spec(decode_spec(b)) == b,
{
}

/// DC1 to DC4 are exactly the codes that request an orientation; they map
/// one to one onto the four orientations, in order, and back.
pub proof fn lemma_request_codes_biject(o: Orientation, c: ControlCode)
    ensures
        requested_orientation_spec(request_code_spec(o)) == Some(o),
        requested_orientation_spec(c) == Some(o) ==> c == request_code_spec(o),
        requested_orientation_spec(c) is Some <==> (c == ControlCode::Dc1 || c == ControlCode::Dc2
            || c == ControlCode::Dc3 || c == ControlCode::Dc4),
        encode_spec(request_code_spec(o)) == DC1 + quarter_turns(o),
        decode_spec(encode_spec(request_code_spec(o))) == request_code_spec(o),
{
}

} // verus!
