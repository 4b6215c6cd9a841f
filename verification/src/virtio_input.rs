//! VirtIO input device model: the evdev-format event record and the
//! bounded injection queue the device drains into its virtqueues.

use vstd::prelude::*;

verus! {

/// VirtIO input device ID.
pub const VIRTIO_ID_INPUT: u32 = 18;

/// Maximum injection queue size.
pub const EVENT_QUEUE_SIZE: usize = 256;

/// A VirtIO input event in Linux evdev format.
#[derive(Debug, Clone, Copy, PartialEq, Eq, Structural)]
pub struct VirtioInputEvent {
    /// Event type (EV_SYN, EV_KEY, EV_REL, ...)
    pub ev_type: u16,
    /// Event code (key code, button code or axis)
    pub code: u16,
    /// Event value (1 = press, 0 = release, or a movement delta)
    pub value: u32,
}

impl Default for VirtioInputEvent {
    /// The default event is an all-zero sync event.
    fn default() -> (r: Self)
        ensures
            r == (VirtioInputEvent { ev_type: 0, code: 0, value: 0 }),
    {
        VirtioInputEvent { ev_type: 0, code: 0, value: 0 }
    }
}

impl VirtioInputEvent {
    /// Create a keyboard event (EV_KEY).
    pub fn keyboard(code: u16, pressed: bool) -> (r: Self)
        ensures
            r == (VirtioInputEvent {
                ev_type: 1u16,
                code,
                value: if pressed {
                    1u32
                } else {
                    0u32
                },
            }),
    {
        Self {
            ev_type: 0x01,  // EV_KEY
            code,
            value: if pressed {
                1
            } else {
                0
            },
        }
    }

    /// Create a relative mouse event (EV_REL); the value carries the
    /// delta in two's complement.
    pub fn rel(code: u16, value: i32) -> (r: Self)
        ensures
            r.ev_type == 2,
            r.code == code,
            r.value == value as u32,
    {
        Self {
            ev_type: 0x02,  // EV_REL
            code,
            #[verifier::truncate]
            value: value as u32,
        }
    }

    /// Create a sync event (EV_SYN), marking the end of an event batch.
    pub fn syn() -> (r: Self)
        ensures
            r == (VirtioInputEvent { ev_type: 0u16, code: 0u16, value: 0u32 }),
    {
        Self {
            ev_type: 0x00,  // EV_SYN
            code: 0,
            value: 0,
        }
    }
}

/// The VirtIO input device's migratable feature state.
#[derive(Debug, Clone, Copy, PartialEq, Eq, Structural)]
pub struct InputState {
    /// Features the device offers
    pub avail_features: u64,
    /// Features the guest acknowledged
    pub acked_features: u64,
}

/// The bounded event injection queue of a VirtIO input device: events are
/// queued by the injection API and drained into the device's virtqueues.
#[derive(Debug)]
pub struct InputEventQueue {
    /// Queued events, oldest first
    events: Vec<VirtioInputEvent>,
}

impl InputEventQueue {
    /// The queued events, oldest first.
    pub closed spec fn spec_events(&self) -> Seq<VirtioInputEvent> {
        self.events@
    }

    /// Create an empty queue.
    pub fn new() -> (r: Self)
        ensures
            r.spec_events() == Seq::<VirtioInputEvent>::empty(),
    {
        Self { events: Vec::new() }
    }

    /// Queue an event; a full queue rejects the event unchanged.
    pub fn inject(&mut self, event: VirtioInputEvent) -> (r: bool)
        ensures
            old(self).spec_events().len() < EVENT_QUEUE_SIZE ==> r && final(self).spec_events()
                == old(self).spec_events().push(event),
            old(self).spec_events().len() >= EVENT_QUEUE_SIZE ==> !r && final(self).spec_events()
                == old(self).spec_events(),
    {
        if self.events.len() < EVENT_QUEUE_SIZE {
            self.events.push(event);
            true
        } else {
            false
        }
    }

    /// Drain every queued event, oldest first.
    pub fn drain(&mut self) -> (r: Vec<VirtioInputEvent>)
        ensures
            r@ == old(self).spec_events(),
            final(self).spec_events() == Seq::<VirtioInputEvent>::empty(),
    {
        let mut drained: Vec<VirtioInputEvent> = Vec::new();
        std::mem::swap(&mut drained, &mut self.events);
        drained
    }

    /// The number of queued events.
    pub fn len(&self) -> (r: usize)
        ensures
            r == self.spec_events().len(),
    {
        self.events.len()
    }
}

} // verus!
