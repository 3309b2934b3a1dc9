//! Messages exchanged by the two halves over UART, four bytes each.

use vstd::prelude::*;

verus! {

/// Size of one encoded message
pub const MSG_SIZE: usize = 4;

#[derive(Debug, Copy, Clone, PartialEq, Eq, Structural)]
pub enum UartRole {
    /// Undecided and waiting for setup
    Setup,
    /// Has the USB Connection
    Primary,
    /// Sends it's buttons to the other half
    Secondary,
}

/// Shorthand for (Switch Position, Layer, Keycode)
pub type KeyID = (u8, u8, u8);

#[derive(Debug, Copy, Clone)]
pub enum Message {
    Init(UartRole),
    InitAck(UartRole),
    /// Secondary -> Primary
    Keycode(KeyID),
    /// Primary -> Secondary
    Layer(u8),
}

/// The byte of a role
pub open spec fn role_byte(role: UartRole) -> u8 {
    match role {
        UartRole::Setup => 0x0,
        UartRole::Primary => 0x1,
        UartRole::Secondary => 0x2,
    }
}

/// The role of a byte, if it names one
pub open spec fn byte_role(b: u8) -> Option<UartRole> {
    if b == 0x0 {
        Some(UartRole::Setup)
    } else if b == 0x1 {
        Some(UartRole::Primary)
    } else if b == 0x2 {
        Some(UartRole::Secondary)
    } else {
        None
    }
}

/// The bytes of a message: its tag, then its fields, then zeros
pub open spec fn spec_encode(msg: Message) -> Seq<u8> {
    match msg {
        Message::Init(role) => seq![0x0, role_byte(role), 0, 0],
        Message::InitAck(role) => seq![0x1, role_byte(role), 0, 0],
        Message::Keycode((index, layer, keycode)) => seq![0x2, index, layer, keycode],
        Message::Layer(layer) => seq![0x4, layer, 0, 0],
    }
}

/// The message four bytes hold, if they hold one; the bytes behind the
/// fields of a message do not matter
pub open spec fn spec_decode(b: Seq<u8>) -> Option<Message> {
    if b[0] == 0x0 {
        match byte_role(b[1]) {
            Some(role) => Some(Message::Init(role)),
            None => None,
        }
    } else if b[0] == 0x1 {
        match byte_role(b[1]) {
            Some(role) => Some(Message::InitAck(role)),
            None => None,
        }
    } else if b[0] == 0x2 {
        Some(Message::Keycode((b[1], b[2], b[3])))
    } else if b[0] == 0x4 {
        Some(Message::Layer(b[1]))
    } else {
        None
    }
}

impl UartRole {
    fn to_byte(self) -> (b: u8)
        ensures
            b == role_byte(self),
    {
        match self {
            UartRole::Setup => 0x0,
            UartRole::Primary => 0x1,
            UartRole::Secondary => 0x2,
        }
    }

    fn from_byte(b: u8) -> (r: Option<UartRole>)
        ensures
            r == byte_role(b),
    {
        if b == 0x0 {
            Some(UartRole::Setup)
        } else if b == 0x1 {
            Some(UartRole::Primary)
        } else if b == 0x2 {
            Some(UartRole::Secondary)
        } else {
            None
        }
    }
}

impl Message {
    /// The bytes sent for this message
    pub fn write(self) -> (b: [u8; MSG_SIZE])
        ensures
            b@ == spec_encode(self),
    {
        let b = match self {
            Message::Init(role) => [0x0, role.to_byte(), 0, 0],
            Message::InitAck(role) => [0x1, role.to_byte(), 0, 0],
            Message::Keycode((index, layer, keycode)) => [0x2, index, layer, keycode],
            Message::Layer(layer) => [0x4, layer, 0, 0],
        };
        assert(b@ =~= spec_encode(self));
        b
    }

    /// The message received as `msg`, or `None` when the bytes hold none
    pub fn read(msg: &[u8; MSG_SIZE]) -> (m: Option<Message>)
        ensures
            m == spec_decode(msg@),
    {
        if msg[0] == 0x0 {
            match UartRole::from_byte(msg[1]) {
                Some(role) => Some(Message::Init(role)),
                None => None,
            }
        } else if msg[0] == 0x1 {
            match UartRole::from_byte(msg[1]) {
                Some(role) => Some(Message::InitAck(role)),
                None => None,
            }
        } else if msg[0] == 0x2 {
            Some(Message::Keycode((msg[1], msg[2], msg[3])))
        } else if msg[0] == 0x4 {
            Some(Message::Layer(msg[1]))
        } else {
            None
        }
    }
}

/// Every message arrives as it was sent: reading the bytes written for a
/// message gives that message back.
pub proof fn law_read_inverts_write(msg: Message)
    ensures
        spec_decode(spec_encode(msg)) == Some(msg),
{
}

/// Reading is exact: bytes that hold a message are that message's bytes,
/// up to the bytes behind its fields.
pub proof fn law_read_only_accepts_written(b: Seq<u8>, msg: Message)
    requires
        b.len() == MSG_SIZE,
        spec_decode(b) == Some(msg),
    ensures
        spec_encode(msg)[0] == b[0],
        spec_encode(msg)[1] == b[1],
        msg is Keycode ==> spec_encode(msg) == b,
{
    if msg is Keycode {
        assert(spec_encode(msg) =~= b);
    }
}

} // verus!
