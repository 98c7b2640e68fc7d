//! The clock peripheral's register block, as plain values, and the single
//! register accesses that the driver asks for.
use vstd::prelude::*;

verus! {

/// A task register: writing 1 asks the peripheral to begin a transition.
#[derive(Clone, Copy, Debug, PartialEq, Eq, Structural)]
pub enum Task {
    HfclkStart,
    HfclkStop,
    LfclkStart,
    LfclkStop,
}

/// An event register: the peripheral sets it to 1 when a transition is done,
/// and software writes 0 to acknowledge it.
#[derive(Clone, Copy, Debug, PartialEq, Eq, Structural)]
pub enum Event {
    HfclkStarted,
    LfclkStarted,
}

/// The oscillator that drives the low frequency clock.
#[derive(Clone, Copy, Debug, PartialEq, Eq, Structural)]
pub enum LfClkSource {
    Rc,
    Xtal,
    Synth,
}

/// Contents of the low frequency source register.
#[derive(Clone, Copy, Debug, PartialEq, Eq, Structural)]
pub struct LfClkSrc {
    pub src: LfClkSource,
    pub bypass: bool,
    pub external: bool,
}

/// Value of the SRC field for each source.
pub open spec fn src_code(s: LfClkSource) -> u32 {
    match s {
        LfClkSource::Rc => 0,
        LfClkSource::Xtal => 1,
        LfClkSource::Synth => 2,
    }
}

/// Bit value of the low frequency source register: SRC in bits 0 and 1,
/// BYPASS in bit 16, EXTERNAL in bit 17.
pub open spec fn lfclksrc_bits(v: LfClkSrc) -> u32 {
    (src_code(v.src) + (if v.bypass { 0x1_0000u32 } else { 0u32 }) + (if v.external {
        0x2_0000u32
    } else {
        0u32
    })) as u32
}

impl LfClkSrc {
    /// The source register as it reads after reset: RC oscillator, bypass and
    /// external input disabled.
    pub open spec fn reset_value() -> LfClkSrc {
        LfClkSrc { src: LfClkSource::Rc, bypass: false, external: false }
    }

    /// The word to store in the register.
    pub fn bits(&self) -> (r: u32)
        ensures
            r == lfclksrc_bits(*self),
    {
        let s: u32 = match self.src {
            LfClkSource::Rc => 0,
            LfClkSource::Xtal => 1,
            LfClkSource::Synth => 2,
        };
        let b: u32 = if self.bypass { 0x1_0000 } else { 0 };
        let e: u32 = if self.external { 0x2_0000 } else { 0 };
        s + b + e
    }
}

/// One access to the clock peripheral's registers.
#[derive(Clone, Copy, Debug, PartialEq, Eq, Structural)]
pub enum Access {
    WriteTask(Task, u32),
    ReadEvent(Event),
    WriteEvent(Event, u32),
    WriteLfClkSrc(LfClkSrc),
}

impl Access {
    /// The access is a write to some task register.
    pub open spec fn is_task_write(self) -> bool {
        self is WriteTask
    }

    /// The access reads or writes some event register.
    pub open spec fn touches_event(self) -> bool {
        self is ReadEvent || self is WriteEvent
    }
}

/// The values held by the clock peripheral's registers.
#[derive(Clone, Copy, Debug, PartialEq, Eq, Structural)]
pub struct RegisterBlock {
    pub tasks_hfclkstart: u32,
    pub tasks_hfclkstop: u32,
    pub tasks_lfclkstart: u32,
    pub tasks_lfclkstop: u32,
    pub events_hfclkstarted: u32,
    pub events_lfclkstarted: u32,
    pub lfclksrc: LfClkSrc,
}

impl RegisterBlock {
    /// Value of an event register.
    pub open spec fn event_value(self, e: Event) -> u32 {
        match e {
            Event::HfclkStarted => self.events_hfclkstarted,
            Event::LfclkStarted => self.events_lfclkstarted,
        }
    }

    /// Value of a task register.
    pub open spec fn task_value(self, t: Task) -> u32 {
        match t {
            Task::HfclkStart => self.tasks_hfclkstart,
            Task::HfclkStop => self.tasks_hfclkstop,
            Task::LfclkStart => self.tasks_lfclkstart,
            Task::LfclkStop => self.tasks_lfclkstop,
        }
    }

    /// The registers after an access; a read changes nothing.
    pub open spec fn after(self, a: Access) -> RegisterBlock {
        match a {
            Access::WriteTask(t, v) => match t {
                Task::HfclkStart => RegisterBlock { tasks_hfclkstart: v, ..self },
                Task::HfclkStop => RegisterBlock { tasks_hfclkstop: v, ..self },
                Task::LfclkStart => RegisterBlock { tasks_lfclkstart: v, ..self },
                Task::LfclkStop => RegisterBlock { tasks_lfclkstop: v, ..self },
            },
            Access::ReadEvent(_) => self,
            Access::WriteEvent(e, v) => match e {
                Event::HfclkStarted => RegisterBlock { events_hfclkstarted: v, ..self },
                Event::LfclkStarted => RegisterBlock { events_lfclkstarted: v, ..self },
            },
            Access::WriteLfClkSrc(s) => RegisterBlock { lfclksrc: s, ..self },
        }
    }

    /// The registers as they read after reset.
    pub fn reset() -> (r: RegisterBlock)
        ensures
            forall|t: Task| r.task_value(t) == 0,
            forall|e: Event| r.event_value(e) == 0,
            r.lfclksrc == LfClkSrc::reset_value(),
    {
        RegisterBlock {
            tasks_hfclkstart: 0,
            tasks_hfclkstop: 0,
            tasks_lfclkstart: 0,
            tasks_lfclkstop: 0,
            events_hfclkstarted: 0,
            events_lfclkstarted: 0,
            lfclksrc: LfClkSrc { src: LfClkSource::Rc, bypass: false, external: false },
        }
    }

    /// Performs one access; a read returns the event register's value, a
    /// write returns 0.
    pub fn perform(&mut self, a: Access) -> (r: u32)
        ensures
            *final(self) == old(self).after(a),
            r == (match a {
                Access::ReadEvent(e) => old(self).event_value(e),
                _ => 0u32,
            }),
    {
        match a {
            Access::WriteTask(t, v) => {
                match t {
                    Task::HfclkStart => self.tasks_hfclkstart = v,
                    Task::HfclkStop => self.tasks_hfclkstop = v,
                    Task::LfclkStart => self.tasks_lfclkstart = v,
                    Task::LfclkStop => self.tasks_lfclkstop = v,
                }
                0
            },
            Access::ReadEvent(e) => match e {
                Event::HfclkStarted => self.events_hfclkstarted,
                Event::LfclkStarted => self.events_lfclkstarted,
            },
            Access::WriteEvent(e, v) => {
                match e {
                    Event::HfclkStarted => self.events_hfclkstarted = v,
                    Event::LfclkStarted => self.events_lfclkstarted = v,
                }
                0
            },
            Access::WriteLfClkSrc(s) => {
                self.lfclksrc = s;
                0
            },
        }
    }
}

} // verus!
