use vstd::prelude::*;

use crate::handle::NativeHandle;

verus! {

/// One of the device's buttons.
#[derive(Debug, Clone, Copy, PartialEq, Eq, Hash, Structural)]
pub enum Button {
    Left,
    Right,
    Up,
    Down,
    B,
    A,
}

impl Button {
    pub open spec fn spec_mask(self) -> u8 {
        match self {
            Button::Left => 1,
            Button::Right => 2,
            Button::Up => 4,
            Button::Down => 8,
            Button::B => 16,
            Button::A => 32,
        }
    }

    /// The button's bit in a button word.
    pub fn mask(self) -> (r: u8)
        ensures
            r == self.spec_mask(),
    {
        match self {
            Button::Left => 1,
            Button::Right => 2,
            Button::Up => 4,
            Button::Down => 8,
            Button::B => 16,
            Button::A => 32,
        }
    }
}

/// A set of buttons, one bit each.
#[derive(Debug, Clone, Copy, PartialEq, Eq, Hash, Default, Structural)]
pub struct Buttons {
    pub bits: u8,
}

impl Buttons {
    /// The set of buttons whose bits are set in `bits`.
    pub fn from_bits(bits: u8) -> (r: Self)
        ensures
            r.bits == bits,
    {
        Buttons { bits }
    }

    /// No button.
    pub fn none() -> (r: Self)
        ensures
            r.bits == 0,
    {
        Buttons { bits: 0 }
    }

    /// Whether `button` is in the set.
    pub fn contains(self, button: Button) -> (r: bool)
        ensures
            r == (self.bits & button.spec_mask() != 0),
    {
        self.bits & button.mask() != 0
    }

    /// The set with `button` added.
    pub fn with(self, button: Button) -> (r: Self)
        ensures
            r.bits == self.bits | button.spec_mask(),
    {
        Buttons { bits: self.bits | button.mask() }
    }

    /// The buttons in either set.
    pub fn union(self, other: Self) -> (r: Self)
        ensures
            r.bits == self.bits | other.bits,
    {
        Buttons { bits: self.bits | other.bits }
    }

    /// The buttons in both sets.
    pub fn intersection(self, other: Self) -> (r: Self)
        ensures
            r.bits == self.bits & other.bits,
    {
        Buttons { bits: self.bits & other.bits }
    }

    /// Whether the set is empty.
    pub fn is_none(self) -> (r: bool)
        ensures
            r == (self.bits == 0),
    {
        self.bits == 0
    }
}

/// The low byte of a native button word; the buttons sit in its low six bits.
pub open spec fn low_byte(w: u32) -> u8 {
    (w % 256) as u8
}

/// The buttons held down now, those pushed since the last frame, and those
/// released since the last frame.
#[derive(Debug, Clone, Copy, PartialEq, Eq, Structural)]
pub struct ButtonState {
    pub current: Buttons,
    pub pushed: Buttons,
    pub released: Buttons,
}

impl ButtonState {
    /// The state from the three words that the runtime reports.
    pub fn from_raw(current: u32, pushed: u32, released: u32) -> (r: Self)
        ensures
            r.current.bits == low_byte(current),
            r.pushed.bits == low_byte(pushed),
            r.released.bits == low_byte(released),
    {
        ButtonState {
            current: Buttons::from_bits((current % 256) as u8),
            pushed: Buttons::from_bits((pushed % 256) as u8),
            released: Buttons::from_bits((released % 256) as u8),
        }
    }
}

/// What the runtime tells the program through its event entry point.
#[derive(Debug, Clone, Copy, PartialEq, Eq, Hash, Structural)]
pub enum SystemEvent {
    Init,
    InitLua,
    Lock,
    Unlock,
    Pause,
    Resume,
    Terminate,
    KeyPressed,
    KeyReleased,
    LowPower,
}

impl SystemEvent {
    pub open spec fn spec_code(self) -> u32 {
        match self {
            SystemEvent::Init => 0,
            SystemEvent::InitLua => 1,
            SystemEvent::Lock => 2,
            SystemEvent::Unlock => 3,
            SystemEvent::Pause => 4,
            SystemEvent::Resume => 5,
            SystemEvent::Terminate => 6,
            SystemEvent::KeyPressed => 7,
            SystemEvent::KeyReleased => 8,
            SystemEvent::LowPower => 9,
        }
    }

    /// The event that a native event code stands for; codes that name none are
    /// refused.
    pub fn from_code(code: u32) -> (r: Option<Self>)
        ensures
            code <= 9 ==> (r matches Some(e) && e.spec_code() == code),
            code > 9 ==> r is None,
    {
        match code {
            0 => Some(SystemEvent::Init),
            1 => Some(SystemEvent::InitLua),
            2 => Some(SystemEvent::Lock),
            3 => Some(SystemEvent::Unlock),
            4 => Some(SystemEvent::Pause),
            5 => Some(SystemEvent::Resume),
            6 => Some(SystemEvent::Terminate),
            7 => Some(SystemEvent::KeyPressed),
            8 => Some(SystemEvent::KeyReleased),
            9 => Some(SystemEvent::LowPower),
            _ => None,
        }
    }
}

/// The facade over the runtime's function tables, made once from the root
/// handle that comes with the first `Init` event.
#[derive(Debug, PartialEq, Eq, Structural)]
pub struct PlaydateAPI {
    raw_api: NativeHandle,
}

impl PlaydateAPI {
    pub closed spec fn spec_raw_api(&self) -> NativeHandle {
        self.raw_api
    }

    /// The root handle that the facade was made from.
    pub fn get_raw_api(&self) -> (r: NativeHandle)
        ensures
            r == self.spec_raw_api(),
    {
        self.raw_api
    }
}

/// The process's one facade slot: empty until the runtime's `Init` event, then
/// filled once and never changed.
pub struct Playdate {
    api: Option<PlaydateAPI>,
}

impl Playdate {
    pub closed spec fn spec_api(&self) -> Option<PlaydateAPI> {
        self.api
    }

    /// The slot before the runtime has started the program.
    pub fn new() -> (r: Self)
        ensures
            r.spec_api() is None,
    {
        Playdate { api: None }
    }

    /// Takes an event from the runtime. The first `Init` builds the facade from
    /// `root`, the handle that comes with it; no other event builds it, and
    /// once built it stays as it is. Returns whether this event built it.
    pub fn handle_event(&mut self, root: NativeHandle, event: SystemEvent) -> (r: bool)
        ensures
            r == (event == SystemEvent::Init && old(self).spec_api() is None),
            r ==> (final(self).spec_api() matches Some(api) && api.spec_raw_api() == root),
            !r ==> final(self).spec_api() == old(self).spec_api(),
    {
        if event == SystemEvent::Init && self.api.is_none() {
            self.api = Some(PlaydateAPI { raw_api: root });
            true
        } else {
            false
        }
    }

    /// The facade, once the runtime has started the program.
    pub fn get(&self) -> (r: Option<&PlaydateAPI>)
        ensures
            match self.spec_api() {
                Some(api) => r matches Some(a) && *a == api,
                None => r is None,
            },
    {
        match &self.api {
            Some(api) => Some(api),
            None => None,
        }
    }
}

/// The time of the previous frame, for the time that passed between frames.
pub struct FrameClock {
    last: Option<u64>,
}

impl FrameClock {
    pub closed spec fn spec_last(&self) -> Option<u64> {
        self.last
    }

    /// A clock that has seen no frame yet.
    pub fn new() -> (r: Self)
        ensures
            r.spec_last() is None,
    {
        FrameClock { last: None }
    }

    /// Records a frame at `now` (milliseconds) and returns the milliseconds since
    /// the previous one: none before the first frame, and none where the clock
    /// went back.
    pub fn tick(&mut self, now: u64) -> (r: u64)
        ensures
            final(self).spec_last() == Some(now),
            r == match old(self).spec_last() {
                Some(last) => if now >= last {
                    (now - last) as u64
                } else {
                    0
                },
                None => 0,
            },
    {
        let delta = match self.last {
            Some(last) => if now >= last {
                now - last
            } else {
                0
            },
            None => 0,
        };
        self.last = Some(now);
        delta
    }
}

} // verus!
