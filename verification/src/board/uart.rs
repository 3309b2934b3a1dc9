//! The protocol between the halves: who is primary, and keeping the
//! primary's report and layer in step with the secondary half.

use vstd::prelude::*;

use crate::board::message::{Message, UartRole};
use crate::matrix::keys::{KeyboardEvent, KeyboardState, KeyboardView, Keymap, MATRIX_LEN, NO_EVENT_INDICATED};

verus! {

/// Where a half stands in the protocol
#[derive(Debug, Copy, Clone)]
pub struct UartLink {
    pub role: UartRole,
    pub initialized: bool,
}

/// The message can be handled: roles are never announced as undecided,
/// and a keycode lands inside the report
pub open spec fn receive_ok(msg: Message) -> bool {
    match msg {
        Message::Init(role) => role != UartRole::Setup,
        Message::InitAck(role) => role != UartRole::Setup,
        Message::Keycode((index, layer, _)) => index * layer * 2 < MATRIX_LEN,
        Message::Layer(_) => true,
    }
}

/// The link after `msg` arrived
pub open spec fn link_after(link: UartLink, msg: Message) -> UartLink {
    match msg {
        Message::InitAck(UartRole::Primary) => UartLink {
            role: UartRole::Secondary,
            initialized: true,
        },
        Message::InitAck(UartRole::Secondary) => UartLink {
            role: UartRole::Primary,
            initialized: true,
        },
        _ => link,
    }
}

/// The keyboard after `msg` arrived: the other half's keycodes and layer
/// are taken over
pub open spec fn keys_after(v: KeyboardView, msg: Message) -> KeyboardView {
    match msg {
        Message::Keycode((index, layer, keycode)) => KeyboardView {
            matrix: v.matrix.update(index * layer * 2, keycode),
            ..v
        },
        Message::Layer(layer) => KeyboardView {
            keymap: Keymap { active_layer: layer as usize, ..v.keymap },
            ..v
        },
        _ => v,
    }
}

/// What is answered to `msg`, in sending order: an init is acknowledged with
/// the opposite role, and a half that already knows its role announces it
/// when the other half says it is secondary
pub open spec fn replies_to(link: UartLink, msg: Message) -> Seq<Message> {
    match msg {
        Message::Init(UartRole::Primary) => seq![Message::InitAck(UartRole::Secondary)],
        Message::Init(UartRole::Secondary) => if link.initialized {
            seq![Message::InitAck(UartRole::Primary), Message::Init(link.role)]
        } else {
            seq![Message::InitAck(UartRole::Primary)]
        },
        _ => seq![],
    }
}

impl UartLink {
    /// A half that waits for its role
    pub fn new() -> (link: UartLink)
        ensures
            link == (UartLink { role: UartRole::Setup, initialized: false }),
    {
        UartLink { role: UartRole::Setup, initialized: false }
    }

    /// Handle a message from the other half and say what to send back
    pub fn intr(&mut self, msg: Message, keys: &mut KeyboardState) -> (replies: Vec<Message>)
        requires
            receive_ok(msg),
        ensures
            *final(self) == link_after(*old(self), msg),
            final(keys)@ == keys_after(old(keys)@, msg),
            replies@ == replies_to(*old(self), msg),
    {
        let mut replies: Vec<Message> = Vec::new();
        match msg {
            Message::Init(role) => match role {
                UartRole::Primary => {
                    replies.push(Message::InitAck(UartRole::Secondary));
                },
                UartRole::Secondary => {
                    replies.push(Message::InitAck(UartRole::Primary));
                    if self.initialized {
                        replies.push(Message::Init(self.role));
                    }
                },
                UartRole::Setup => {},
            },
            Message::InitAck(role) => match role {
                UartRole::Primary => {
                    self.role = UartRole::Secondary;
                    self.initialized = true;
                },
                UartRole::Secondary => {
                    self.role = UartRole::Primary;
                    self.initialized = true;
                },
                UartRole::Setup => {},
            },
            Message::Keycode((index, layer, keycode)) => {
                keys.matrix[index as usize * layer as usize * 2] = keycode;
            },
            Message::Layer(layer) => {
                keys.keymap.active_layer = layer as usize;
            },
        }
        assert(replies@ =~= replies_to(*old(self), msg));
        replies
    }
}

/// What a half forwards to the other half when its keyboard changed: the
/// secondary half forwards keycodes and layers, the primary half, which
/// sends the report, only layers
pub fn forward_event(role: UartRole, ev: KeyboardEvent) -> (msg: Option<Message>)
    ensures
        msg == match ev {
            KeyboardEvent::Keycode(index, layer, keycode) => if role == UartRole::Secondary {
                Some(Message::Keycode((index, layer, keycode)))
            } else {
                None
            },
            KeyboardEvent::Layer(layer) => Some(Message::Layer(layer)),
        },
{
    match ev {
        KeyboardEvent::Keycode(index, layer, keycode) => if role == UartRole::Secondary {
            Some(Message::Keycode((index, layer, keycode)))
        } else {
            None
        },
        KeyboardEvent::Layer(layer) => Some(Message::Layer(layer)),
    }
}

/// The halves agree on their roles: when one half announces it has the USB
/// connection, the answer tells the other half to be secondary, and that
/// half takes this role once the answer arrives.
pub proof fn law_roles_are_complementary(announcer: UartLink, other: UartLink)
    ensures
        replies_to(other, Message::Init(UartRole::Primary)) == seq![
            Message::InitAck(UartRole::Secondary),
        ],
        link_after(announcer, Message::InitAck(UartRole::Secondary)) == (UartLink {
            role: UartRole::Primary,
            initialized: true,
        }),
        link_after(other, Message::InitAck(UartRole::Primary)) == (UartLink {
            role: UartRole::Secondary,
            initialized: true,
        }),
{
}

/// The primary takes over every keycode the secondary forwards, releases
/// included: the entry of the keycode message holds exactly the keycode that
/// came, every other entry and the keymap stay as they were, and a release
/// after a press leaves the entry empty again.
pub proof fn law_forwarded_keycodes_are_taken_over(
    v: KeyboardView,
    index: u8,
    layer: u8,
    keycode: u8,
)
    requires
        v.matrix.len() == MATRIX_LEN,
        receive_ok(Message::Keycode((index, layer, keycode))),
    ensures
        ({
            let at = index * layer * 2;
            let w = keys_after(v, Message::Keycode((index, layer, keycode)));
            let released = keys_after(w, Message::Keycode((index, layer, NO_EVENT_INDICATED)));
            &&& w.matrix.len() == MATRIX_LEN
            &&& w.matrix[at] == keycode
            &&& forall|i: int| 0 <= i < MATRIX_LEN && i != at ==> #[trigger] w.matrix[i] == v.matrix[i]
            &&& w.keymap == v.keymap
            &&& released.matrix[at] == NO_EVENT_INDICATED
        }),
{
}

} // verus!
