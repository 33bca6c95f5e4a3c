//! The message as it goes on the wire: a header and one out-of-line
//! descriptor that refers to the payload.
//!
//! The payload's address is no part of the model: whoever hands the message to
//! the kernel holds the buffer and fills the address in.

use vstd::prelude::*;

verus! {

/// The null port name: no port at all.
pub const PORT_NULL: u32 = 0;

/// What the kernel returns where nothing went wrong.
pub const KERN_SUCCESS: i32 = 0;

pub const MSGH_BITS_REMOTE_MASK: u32 = 0x0000_001f;

pub const MSGH_BITS_LOCAL_MASK: u32 = 0x0000_1f00;

pub const MSGH_BITS_VOUCHER_MASK: u32 = 0x001f_0000;

pub const MSGH_BITS_PORTS_MASK: u32 = 0x001f_1f1f;

/// Set in the header of a message that carries descriptors.
pub const MSGH_BITS_COMPLEX: u32 = 0x8000_0000;

/// The sender keeps its send right and the receiver gets a copy.
pub const MSG_TYPE_COPY_SEND: u32 = 19;

/// A send right is made from the sender's receive right.
pub const MSG_TYPE_MAKE_SEND: u32 = 20;

pub const MSG_VIRTUAL_COPY: u32 = 1;

pub const MSG_OOL_DESCRIPTOR: u32 = 1;

/// The header bits of every request: destination right copied, reply right
/// made, descriptors present.
pub const REQUEST_BITS: u32 = 0x8000_1413;

/// Packs the dispositions of the three port rights and the remaining flags
/// into header bits. Each disposition is cut to its five bits, port bits in
/// `other` are dropped, and the result is always marked complex.
pub fn mach_msgh_bits_set(remote: u32, local: u32, voucher: u32, other: u32) -> (bits: u32)
    ensures
        bits & MSGH_BITS_REMOTE_MASK == remote & 0x1f,
        (bits >> 8) & 0x1f == local & 0x1f,
        (bits >> 16) & 0x1f == voucher & 0x1f,
        bits & MSGH_BITS_COMPLEX == MSGH_BITS_COMPLEX,
        bits & !(MSGH_BITS_PORTS_MASK | MSGH_BITS_COMPLEX) == other & !(MSGH_BITS_PORTS_MASK
            | MSGH_BITS_COMPLEX),
{
    let remote_bits = remote & MSGH_BITS_REMOTE_MASK;
    let local_bits = (local << 8) & MSGH_BITS_LOCAL_MASK;
    let voucher_bits = (voucher << 16) & MSGH_BITS_VOUCHER_MASK;
    let other_bits = other & !MSGH_BITS_PORTS_MASK;
    let bits = remote_bits | local_bits | voucher_bits | other_bits | MSGH_BITS_COMPLEX;
    assert(bits & 0x1fu32 == remote & 0x1f && (bits >> 8) & 0x1f == local & 0x1f && (bits >> 16)
        & 0x1f == voucher & 0x1f && bits & 0x8000_0000u32 == 0x8000_0000u32 && bits & !(
    0x001f_1f1fu32 | 0x8000_0000u32) == other & !(0x001f_1f1fu32 | 0x8000_0000u32))
        by (bit_vector)
        requires
            bits == (remote & 0x1fu32) | ((local << 8) & 0x1f00u32) | ((voucher << 16)
                & 0x1f_0000u32) | (other & !0x001f_1f1fu32) | 0x8000_0000u32,
    ;
    bits
}

/// The fixed part of a message.
#[derive(Clone, Copy, Debug, PartialEq, Eq, Structural)]
pub struct MessageHeader {
    pub bits: u32,
    pub size: u32,
    pub remote_port: u32,
    pub local_port: u32,
    pub voucher_port: u32,
    pub id: i32,
}

/// The descriptor of a payload that travels outside of the message body.
#[derive(Clone, Copy, Debug, PartialEq, Eq, Structural)]
pub struct OolDescriptor {
    /// Length of the payload in bytes.
    pub size: u32,
    /// Whether the kernel takes the payload's memory from the sender.
    pub deallocate: bool,
    pub copy: u8,
    pub kind: u8,
}

/// A header followed by exactly one out-of-line descriptor.
#[derive(Clone, Copy, Debug, PartialEq, Eq, Structural)]
pub struct WireMessage {
    pub header: MessageHeader,
    pub descriptor_count: u32,
    pub descriptor: OolDescriptor,
}

/// The message identifier that stands for a reply port: the port's name read
/// as a signed number of the same 32 bits.
pub open spec fn message_id_spec(reply_port: u32) -> int {
    if reply_port < 0x8000_0000 {
        reply_port as int
    } else {
        reply_port - 0x1_0000_0000
    }
}

pub fn message_id(reply_port: u32) -> (id: i32)
    ensures
        id == message_id_spec(reply_port),
{
    if reply_port < 0x8000_0000 {
        reply_port as i32
    } else {
        (reply_port - 0x8000_0000) as i32 + i32::MIN
    }
}

/// The request that carries a payload of `payload_len` bytes to `endpoint`
/// and asks for the answer on `reply_port`.
pub open spec fn request_spec(
    endpoint: u32,
    reply_port: u32,
    payload_len: u32,
    frame_size: u32,
) -> WireMessage {
    WireMessage {
        header: MessageHeader {
            bits: REQUEST_BITS,
            size: frame_size,
            remote_port: endpoint,
            local_port: reply_port,
            voucher_port: PORT_NULL,
            id: message_id_spec(reply_port) as i32,
        },
        descriptor_count: 1,
        descriptor: OolDescriptor {
            size: payload_len,
            deallocate: false,
            copy: MSG_VIRTUAL_COPY as u8,
            kind: MSG_OOL_DESCRIPTOR as u8,
        },
    }
}

impl WireMessage {
    /// Builds the request for a payload of `payload_len` bytes. The receiver
    /// routes its answer by the message identifier, which is the reply port's
    /// name; the payload stays the sender's. `frame_size` is the size in bytes
    /// of the header and descriptor as they are laid out for the kernel.
    pub fn request(endpoint: u32, reply_port: u32, payload_len: u32, frame_size: u32) -> (message:
        WireMessage)
        ensures
            message == request_spec(endpoint, reply_port, payload_len, frame_size),
    {
        let bits = mach_msgh_bits_set(MSG_TYPE_COPY_SEND, MSG_TYPE_MAKE_SEND, 0, MSGH_BITS_COMPLEX);
        assert(bits == 0x8000_1413u32) by (bit_vector)
            requires
                bits & 0x1fu32 == 19u32 & 0x1f,
                (bits >> 8) & 0x1f == 20u32 & 0x1f,
                (bits >> 16) & 0x1f == 0u32 & 0x1f,
                bits & 0x8000_0000u32 == 0x8000_0000u32,
                bits & !(0x001f_1f1fu32 | 0x8000_0000u32) == 0x8000_0000u32 & !(0x001f_1f1fu32
                    | 0x8000_0000u32),
        ;
        WireMessage {
            header: MessageHeader {
                bits,
                size: frame_size,
                remote_port: endpoint,
                local_port: reply_port,
                voucher_port: PORT_NULL,
                id: message_id(reply_port),
            },
            descriptor_count: 1,
            descriptor: OolDescriptor {
                size: payload_len,
                deallocate: false,
                copy: MSG_VIRTUAL_COPY as u8,
                kind: MSG_OOL_DESCRIPTOR as u8,
            },
        }
    }
}

} // verus!
