//! Bringing up the USB connection: the half that gets configured by a host
//! becomes primary, the other one gives up after a while and becomes
//! secondary.

use vstd::prelude::*;

use crate::board::message::UartRole;

verus! {

/// Ticks to wait for a host before giving up on USB
pub const USB_INIT_TICKS: usize = 2000;

/// Ticks between two reports that the host was not seen yet
pub const USB_INIT_LOG_EVERY: usize = 100;

#[derive(Debug, Copy, Clone, PartialEq, Eq, Structural)]
pub enum UsbState {
    Initializing,
    Connected,
    Disconnected,
}

/// Where the USB bring-up stands
#[derive(Debug, Copy, Clone)]
pub struct UsbLink {
    pub initialized: UsbState,
    pub init_ticks: usize,
}

/// What one tick asks for
#[derive(Debug, Copy, Clone)]
pub struct UsbTick {
    /// Tell the other half which role this half takes
    pub announce: Option<UartRole>,
    /// Say that the host was not seen yet
    pub log_waiting: bool,
    /// Send the keyboard report, clear its one shot keys and poll the host
    pub serve: bool,
}

/// The link after one tick, and what the tick asks for, given whether the
/// host has configured the device
pub open spec fn spec_tick(link: UsbLink, configured: bool) -> (UsbLink, UsbTick) {
    match link.initialized {
        UsbState::Initializing => if configured {
            (
                UsbLink { initialized: UsbState::Connected, ..link },
                UsbTick { announce: Some(UartRole::Primary), log_waiting: false, serve: true },
            )
        } else if link.init_ticks < USB_INIT_TICKS {
            (
                UsbLink { init_ticks: (link.init_ticks + 1) as usize, ..link },
                UsbTick {
                    announce: None,
                    log_waiting: (link.init_ticks + 1) % USB_INIT_LOG_EVERY as int == 0,
                    serve: true,
                },
            )
        } else {
            (
                UsbLink { initialized: UsbState::Disconnected, ..link },
                UsbTick { announce: Some(UartRole::Secondary), log_waiting: false, serve: false },
            )
        },
        UsbState::Connected => (link, UsbTick { announce: None, log_waiting: false, serve: true }),
        UsbState::Disconnected => (
            link,
            UsbTick { announce: None, log_waiting: false, serve: false },
        ),
    }
}

impl UsbLink {
    /// A link that waits for the host
    pub fn new() -> (link: UsbLink)
        ensures
            link == (UsbLink { initialized: UsbState::Initializing, init_ticks: 0 }),
    {
        UsbLink { initialized: UsbState::Initializing, init_ticks: 0 }
    }

    /// Advance the bring-up by one tick
    pub fn tick(&mut self, configured: bool) -> (t: UsbTick)
        ensures
            (*final(self), t) == spec_tick(*old(self), configured),
    {
        match self.initialized {
            UsbState::Initializing => {
                if configured {
                    self.initialized = UsbState::Connected;
                    UsbTick { announce: Some(UartRole::Primary), log_waiting: false, serve: true }
                } else if self.init_ticks < USB_INIT_TICKS {
                    self.init_ticks += 1;
                    UsbTick {
                        announce: None,
                        log_waiting: self.init_ticks % USB_INIT_LOG_EVERY == 0,
                        serve: true,
                    }
                } else {
                    self.initialized = UsbState::Disconnected;
                    UsbTick {
                        announce: Some(UartRole::Secondary),
                        log_waiting: false,
                        serve: false,
                    }
                }
            },
            UsbState::Connected => UsbTick { announce: None, log_waiting: false, serve: true },
            UsbState::Disconnected => UsbTick { announce: None, log_waiting: false, serve: false },
        }
    }
}

/// `n` ticks without a host
pub open spec fn ticks_unseen(link: UsbLink, n: nat) -> UsbLink
    decreases n,
{
    if n == 0 {
        link
    } else {
        spec_tick(ticks_unseen(link, (n - 1) as nat), false).0
    }
}

/// A half that never sees a host keeps waiting for `USB_INIT_TICKS` ticks
/// and then gives up for good, announcing itself as secondary exactly once.
pub proof fn law_gives_up_without_host()
    ensures
        forall|n: nat|
            n <= USB_INIT_TICKS ==> #[trigger] ticks_unseen(UsbLink { initialized: UsbState::Initializing, init_ticks: 0 }, n)
                == (UsbLink { initialized: UsbState::Initializing, init_ticks: n as usize }),
        spec_tick(
            ticks_unseen(UsbLink { initialized: UsbState::Initializing, init_ticks: 0 }, USB_INIT_TICKS as nat),
            false,
        ).1.announce == Some(UartRole::Secondary),
        ticks_unseen(
            UsbLink { initialized: UsbState::Initializing, init_ticks: 0 },
            (USB_INIT_TICKS + 1) as nat,
        ).initialized == UsbState::Disconnected,
        forall|link: UsbLink, c: bool|
            link.initialized == UsbState::Disconnected ==> #[trigger] spec_tick(link, c) == (
            link,
            UsbTick { announce: None, log_waiting: false, serve: false },
        ),
{
    let start = UsbLink { initialized: UsbState::Initializing, init_ticks: 0 };
    assert forall|n: nat| n <= USB_INIT_TICKS implies #[trigger] ticks_unseen(start, n) == (
    UsbLink { initialized: UsbState::Initializing, init_ticks: n as usize }) by {
        lemma_waiting(n);
    }
    lemma_waiting(USB_INIT_TICKS as nat);
}

proof fn lemma_waiting(n: nat)
    requires
        n <= USB_INIT_TICKS,
    ensures
        ticks_unseen(UsbLink { initialized: UsbState::Initializing, init_ticks: 0 }, n) == (UsbLink {
            initialized: UsbState::Initializing,
            init_ticks: n as usize,
        }),
    decreases n,
{
    if n > 0 {
        lemma_waiting((n - 1) as nat);
    }
}

} // verus!
