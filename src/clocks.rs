//! The clock controller for each family of the clock peripheral.
//!
//! All families start and stop the two clocks alike. They differ in the low
//! frequency source register: the full layout has a selector and separate
//! bypass and external bits, the minimal one has only the selector, and the
//! reduced peripheral has no such register.
use vstd::prelude::*;
use crate::handshake::{Handshake, Phase};
use crate::registers::{Access, Event, LfClkSource, LfClkSrc, RegisterBlock, Task};

verus! {

/// High frequency clock frequency (in Hz).
pub const HFCLK_FREQ: u32 = 64_000_000;

/// Low frequency clock frequency (in Hz).
pub const LFCLK_FREQ: u32 = 32_768;

/// Allowable configuration options for the low frequency oscillator when
/// driven from an external crystal.
#[derive(Clone, Copy, Debug, PartialEq, Eq, Structural)]
pub enum LfOscConfiguration {
    NoExternalNoBypass,
    ExternalNoBypass,
    ExternalAndBypass,
}

/// The (external, bypass) bits that a crystal configuration selects.
pub open spec fn config_bits(cfg: LfOscConfiguration) -> (bool, bool) {
    match cfg {
        LfOscConfiguration::NoExternalNoBypass => (false, false),
        LfOscConfiguration::ExternalNoBypass => (true, false),
        LfOscConfiguration::ExternalAndBypass => (true, true),
    }
}

/// The handshake that starts a clock.
pub open spec fn start_request(task: Task, event: Event) -> Handshake {
    Handshake { task, event, phase: Phase::Trigger }
}

/// The single write that stops a clock.
pub open spec fn stop_access(task: Task) -> Access {
    Access::WriteTask(task, 1)
}

/// The write that selects `src`, with bypass and external input disabled.
pub open spec fn select_access(src: LfClkSource) -> Access {
    Access::WriteLfClkSrc(LfClkSrc { src, bypass: false, external: false })
}

/// The write that selects the crystal in configuration `cfg`.
pub open spec fn crystal_access(cfg: LfOscConfiguration) -> Access {
    Access::WriteLfClkSrc(
        LfClkSrc { src: LfClkSource::Xtal, bypass: config_bits(cfg).1, external: config_bits(cfg).0 },
    )
}

/// The clock peripheral. Whoever holds it may drive the clock registers.
pub struct Clock;

impl Clock {
    /// Takes the clock peripheral.
    pub fn take() -> (r: Clock) {
        Clock
    }
}

/// Controller for the full register layout: the source register has a
/// selector and separate bypass and external bits.
pub struct Clocks {
    periph: Clock,
}

/// Controller for the minimal register layout: the source register has a
/// selector alone.
pub struct SelectorClocks {
    periph: Clock,
}

/// Controller for the reduced peripheral, which has no source register.
pub struct ReducedClocks {
    periph: Clock,
}

impl Clocks {
    /// The peripheral that the controller holds.
    pub closed spec fn peripheral(&self) -> Clock {
        self.periph
    }

    /// Takes ownership of the peripheral.
    pub fn new(clock: Clock) -> (r: Clocks)
        ensures
            r.peripheral() == clock,
    {
        Clocks { periph: clock }
    }

    /// Use an external oscillator as the high frequency clock source. The
    /// returned handshake is done once the peripheral reports the start.
    pub fn enable_ext_hfosc(&self) -> (h: Handshake)
        ensures
            h == start_request(Task::HfclkStart, Event::HfclkStarted),
    {
        Handshake::new(Task::HfclkStart, Event::HfclkStarted)
    }

    /// Use the internal oscillator as the high frequency clock source.
    pub fn disable_ext_hfosc(&self) -> (a: Access)
        ensures
            a == stop_access(Task::HfclkStop),
    {
        Access::WriteTask(Task::HfclkStop, 1)
    }

    /// Start the low frequency clock.
    pub fn start_lfclk(&self) -> (h: Handshake)
        ensures
            h == start_request(Task::LfclkStart, Event::LfclkStarted),
    {
        Handshake::new(Task::LfclkStart, Event::LfclkStarted)
    }

    /// Stop the low frequency clock.
    pub fn stop_lfclk(&self) -> (a: Access)
        ensures
            a == stop_access(Task::LfclkStop),
    {
        Access::WriteTask(Task::LfclkStop, 1)
    }

    /// Use the internal RC oscillator for the low frequency clock source.
    pub fn set_lfclk_src_rc(&self) -> (a: Access)
        ensures
            a == select_access(LfClkSource::Rc),
    {
        Access::WriteLfClkSrc(LfClkSrc { src: LfClkSource::Rc, bypass: false, external: false })
    }

    /// Generate the low frequency clock from the high frequency clock source.
    pub fn set_lfclk_src_synth(&self) -> (a: Access)
        ensures
            a == select_access(LfClkSource::Synth),
    {
        Access::WriteLfClkSrc(LfClkSrc { src: LfClkSource::Synth, bypass: false, external: false })
    }

    /// Use an external crystal to drive the low frequency clock.
    pub fn set_lfclk_src_external(&self, cfg: LfOscConfiguration) -> (a: Access)
        ensures
            a == crystal_access(cfg),
    {
        let (ext, byp) = match cfg {
            LfOscConfiguration::NoExternalNoBypass => (false, false),
            LfOscConfiguration::ExternalNoBypass => (true, false),
            LfOscConfiguration::ExternalAndBypass => (true, true),
        };
        Access::WriteLfClkSrc(LfClkSrc { src: LfClkSource::Xtal, bypass: byp, external: ext })
    }
}

impl SelectorClocks {
    /// The peripheral that the controller holds.
    pub closed spec fn peripheral(&self) -> Clock {
        self.periph
    }

    /// Takes ownership of the peripheral.
    pub fn new(clock: Clock) -> (r: SelectorClocks)
        ensures
            r.peripheral() == clock,
    {
        SelectorClocks { periph: clock }
    }

    /// Use an external oscillator as the high frequency clock source.
    pub fn enable_ext_hfosc(&self) -> (h: Handshake)
        ensures
            h == start_request(Task::HfclkStart, Event::HfclkStarted),
    {
        Handshake::new(Task::HfclkStart, Event::HfclkStarted)
    }

    /// Use the internal oscillator as the high frequency clock source.
    pub fn disable_ext_hfosc(&self) -> (a: Access)
        ensures
            a == stop_access(Task::HfclkStop),
    {
        Access::WriteTask(Task::HfclkStop, 1)
    }

    /// Start the low frequency clock.
    pub fn start_lfclk(&self) -> (h: Handshake)
        ensures
            h == start_request(Task::LfclkStart, Event::LfclkStarted),
    {
        Handshake::new(Task::LfclkStart, Event::LfclkStarted)
    }

    /// Stop the low frequency clock.
    pub fn stop_lfclk(&self) -> (a: Access)
        ensures
            a == stop_access(Task::LfclkStop),
    {
        Access::WriteTask(Task::LfclkStop, 1)
    }

    /// Use the internal RC oscillator for the low frequency clock source.
    pub fn set_lfclk_src_rc(&self) -> (a: Access)
        ensures
            a == select_access(LfClkSource::Rc),
    {
        Access::WriteLfClkSrc(LfClkSrc { src: LfClkSource::Rc, bypass: false, external: false })
    }

    /// Generate the low frequency clock from the high frequency clock source.
    pub fn set_lfclk_src_synth(&self) -> (a: Access)
        ensures
            a == select_access(LfClkSource::Synth),
    {
        Access::WriteLfClkSrc(LfClkSrc { src: LfClkSource::Synth, bypass: false, external: false })
    }

    /// Use an external crystal to drive the low frequency clock. This layout
    /// has no bypass or external bits: the word written leaves them clear.
    pub fn set_lfclk_src_external(&self) -> (a: Access)
        ensures
            a == select_access(LfClkSource::Xtal),
    {
        Access::WriteLfClkSrc(LfClkSrc { src: LfClkSource::Xtal, bypass: false, external: false })
    }
}

impl ReducedClocks {
    /// The peripheral that the controller holds.
    pub closed spec fn peripheral(&self) -> Clock {
        self.periph
    }

    /// Takes ownership of the peripheral.
    pub fn new(clock: Clock) -> (r: ReducedClocks)
        ensures
            r.peripheral() == clock,
    {
        ReducedClocks { periph: clock }
    }

    /// Use an external oscillator as the high frequency clock source.
    pub fn enable_ext_hfosc(&self) -> (h: Handshake)
        ensures
            h == start_request(Task::HfclkStart, Event::HfclkStarted),
    {
        Handshake::new(Task::HfclkStart, Event::HfclkStarted)
    }

    /// Use the internal oscillator as the high frequency clock source.
    pub fn disable_ext_hfosc(&self) -> (a: Access)
        ensures
            a == stop_access(Task::HfclkStop),
    {
        Access::WriteTask(Task::HfclkStop, 1)
    }

    /// Start the low frequency clock.
    pub fn start_lfclk(&self) -> (h: Handshake)
        ensures
            h == start_request(Task::LfclkStart, Event::LfclkStarted),
    {
        Handshake::new(Task::LfclkStart, Event::LfclkStarted)
    }

    /// Stop the low frequency clock.
    pub fn stop_lfclk(&self) -> (a: Access)
        ensures
            a == stop_access(Task::LfclkStop),
    {
        Access::WriteTask(Task::LfclkStop, 1)
    }
}

/// Each crystal configuration selects its own (external, bypass) pair:
/// (false, false), (true, false) and (true, true) in declaration order. No
/// configuration asks for bypass without the external input.
pub proof fn lemma_crystal_bits(cfg: LfOscConfiguration)
    ensures
        cfg == LfOscConfiguration::NoExternalNoBypass ==> config_bits(cfg) == (false, false),
        cfg == LfOscConfiguration::ExternalNoBypass ==> config_bits(cfg) == (true, false),
        cfg == LfOscConfiguration::ExternalAndBypass ==> config_bits(cfg) == (true, true),
        config_bits(cfg) != (false, true),
        crystal_access(cfg) == Access::WriteLfClkSrc(
            LfClkSrc { src: LfClkSource::Xtal, bypass: config_bits(cfg).1, external: config_bits(cfg).0 },
        ),
        forall|other: LfOscConfiguration| config_bits(other) == config_bits(cfg) ==> other == cfg,
{
}

/// Stopping a clock writes 1 to its stop task and changes no other register:
/// no event, no other task, not the source selection. Stopping it again, as
/// when it is already stopped, leaves the registers as the first stop did.
pub proof fn lemma_stop_idempotent(regs: RegisterBlock, task: Task)
    requires
        task == Task::HfclkStop || task == Task::LfclkStop,
    ensures
        !stop_access(task).touches_event(),
        regs.after(stop_access(task)).task_value(task) == 1,
        forall|t: Task| t != task ==> regs.after(stop_access(task)).task_value(t) == regs.task_value(t),
        forall|e: Event| regs.after(stop_access(task)).event_value(e) == regs.event_value(e),
        regs.after(stop_access(task)).lfclksrc == regs.lfclksrc,
        regs.after(stop_access(task)).after(stop_access(task)) == regs.after(stop_access(task)),
{
}

/// Selecting the RC oscillator or the synthesized source writes bypass and
/// external disabled, whatever the source register held before, a crystal
/// configuration included.
pub proof fn lemma_internal_source_clears_crystal_bits(regs: RegisterBlock, src: LfClkSource)
    requires
        src == LfClkSource::Rc || src == LfClkSource::Synth,
    ensures
        regs.after(select_access(src)).lfclksrc == (LfClkSrc { src, bypass: false, external: false }),
        forall|cfg: LfOscConfiguration|
            #![trigger crystal_access(cfg)]
            regs.after(crystal_access(cfg)).after(select_access(src)).lfclksrc == (LfClkSrc {
                src,
                bypass: false,
                external: false,
            }),
{
}

} // verus!
