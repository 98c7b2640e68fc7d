use nrf_clocks::clocks::{
    Clock, Clocks, LfOscConfiguration, ReducedClocks, SelectorClocks, HFCLK_FREQ, LFCLK_FREQ,
};
use nrf_clocks::handshake::{Handshake, Phase};
use nrf_clocks::registers::{Access, Event, LfClkSource, LfClkSrc, RegisterBlock, Task};

/// Runs a handshake against `regs`, acting as the peripheral: the event is
/// raised once `latency` reads of it have returned 0. Returns every access
/// performed, in order.
fn drive(h: &mut Handshake, regs: &mut RegisterBlock, event: Event, latency: usize) -> Vec<Access> {
    let mut log = Vec::new();
    let mut last = 0u32;
    let mut reads = 0usize;
    while let Some(a) = h.step(last) {
        if a == Access::ReadEvent(event) {
            if reads == latency {
                match event {
                    Event::HfclkStarted => regs.events_hfclkstarted = 1,
                    Event::LfclkStarted => regs.events_lfclkstarted = 1,
                }
            }
            reads += 1;
        }
        last = regs.perform(a);
        log.push(a);
        assert!(log.len() < 1000, "handshake does not finish");
    }
    log
}

fn count_task_writes(log: &[Access]) -> usize {
    log.iter().filter(|a| matches!(a, Access::WriteTask(_, _))).count()
}

#[test]
fn frequencies() {
    assert_eq!(HFCLK_FREQ, 64_000_000);
    assert_eq!(LFCLK_FREQ, 32_768);
}

#[test]
fn external_source_bit_pairs() {
    let clocks = Clocks::new(Clock::take());
    let cases = [
        (LfOscConfiguration::NoExternalNoBypass, false, false),
        (LfOscConfiguration::ExternalNoBypass, true, false),
        (LfOscConfiguration::ExternalAndBypass, true, true),
    ];
    for (cfg, ext, byp) in cases {
        assert_eq!(
            clocks.set_lfclk_src_external(cfg),
            Access::WriteLfClkSrc(LfClkSrc { src: LfClkSource::Xtal, bypass: byp, external: ext })
        );
    }
}

#[test]
fn source_register_words() {
    let rc = LfClkSrc { src: LfClkSource::Rc, bypass: false, external: false };
    let synth = LfClkSrc { src: LfClkSource::Synth, bypass: false, external: false };
    let xtal = LfClkSrc { src: LfClkSource::Xtal, bypass: false, external: true };
    let xtal_bypass = LfClkSrc { src: LfClkSource::Xtal, bypass: true, external: true };
    assert_eq!(rc.bits(), 0);
    assert_eq!(synth.bits(), 2);
    assert_eq!(xtal.bits(), 0x2_0001);
    assert_eq!(xtal_bypass.bits(), 0x3_0001);
}

#[test]
fn enable_ext_hfosc_waits_for_event_then_clears_it() {
    let clocks = Clocks::new(Clock::take());
    let mut regs = RegisterBlock::reset();
    let mut h = clocks.enable_ext_hfosc();
    assert_eq!(h.step(0), Some(Access::WriteTask(Task::HfclkStart, 1)));
    regs.perform(Access::WriteTask(Task::HfclkStart, 1));
    // The event still reads 0: the handshake keeps polling.
    let mut last = 0;
    for _ in 0..5 {
        let a = h.step(last);
        assert_eq!(a, Some(Access::ReadEvent(Event::HfclkStarted)));
        last = regs.perform(a.unwrap());
        assert_eq!(last, 0);
        assert!(!h.is_finished());
    }
    // The peripheral reports the start.
    regs.events_hfclkstarted = 1;
    let a = h.step(last);
    assert_eq!(a, Some(Access::ReadEvent(Event::HfclkStarted)));
    last = regs.perform(a.unwrap());
    assert_eq!(last, 1);
    let a = h.step(last);
    assert_eq!(a, Some(Access::WriteEvent(Event::HfclkStarted, 0)));
    regs.perform(a.unwrap());
    assert_eq!(h.step(0), None);
    assert!(h.is_finished());
    assert_eq!(regs.events_hfclkstarted, 0);
    assert_eq!(regs.tasks_hfclkstart, 1);
}

#[test]
fn enable_ext_hfosc_triggers_once() {
    let clocks = Clocks::new(Clock::take());
    let mut regs = RegisterBlock::reset();
    let mut h = clocks.enable_ext_hfosc();
    let log = drive(&mut h, &mut regs, Event::HfclkStarted, 3);
    assert_eq!(count_task_writes(&log), 1);
    assert_eq!(log[0], Access::WriteTask(Task::HfclkStart, 1));
    assert_eq!(*log.last().unwrap(), Access::WriteEvent(Event::HfclkStarted, 0));
    assert_eq!(log.len(), 1 + 4 + 1);
    assert_eq!(regs.events_hfclkstarted, 0);
}

#[test]
fn stale_event_is_not_left_for_next_start() {
    let clocks = Clocks::new(Clock::take());
    let mut regs = RegisterBlock::reset();
    let mut first = clocks.enable_ext_hfosc();
    drive(&mut first, &mut regs, Event::HfclkStarted, 0);
    assert_eq!(regs.events_hfclkstarted, 0);
    // The second start must wait for a fresh event.
    let mut second = clocks.enable_ext_hfosc();
    assert_eq!(second.step(0), Some(Access::WriteTask(Task::HfclkStart, 1)));
    assert_eq!(second.step(0), Some(Access::ReadEvent(Event::HfclkStarted)));
    let seen = regs.perform(Access::ReadEvent(Event::HfclkStarted));
    assert_eq!(second.step(seen), Some(Access::ReadEvent(Event::HfclkStarted)));
}

#[test]
fn start_lfclk_pattern_for_every_source() {
    let clocks = Clocks::new(Clock::take());
    let selections = [
        clocks.set_lfclk_src_rc(),
        clocks.set_lfclk_src_synth(),
        clocks.set_lfclk_src_external(LfOscConfiguration::NoExternalNoBypass),
        clocks.set_lfclk_src_external(LfOscConfiguration::ExternalNoBypass),
        clocks.set_lfclk_src_external(LfOscConfiguration::ExternalAndBypass),
    ];
    for sel in selections {
        let mut regs = RegisterBlock::reset();
        regs.perform(sel);
        let before = regs.lfclksrc;
        let mut h = clocks.start_lfclk();
        let log = drive(&mut h, &mut regs, Event::LfclkStarted, 2);
        assert_eq!(
            log,
            vec![
                Access::WriteTask(Task::LfclkStart, 1),
                Access::ReadEvent(Event::LfclkStarted),
                Access::ReadEvent(Event::LfclkStarted),
                Access::ReadEvent(Event::LfclkStarted),
                Access::WriteEvent(Event::LfclkStarted, 0),
            ]
        );
        assert_eq!(regs.events_lfclkstarted, 0);
        assert_eq!(regs.lfclksrc, before);
    }
}

#[test]
fn stops_write_one_trigger_and_no_event() {
    let clocks = Clocks::new(Clock::take());
    assert_eq!(clocks.disable_ext_hfosc(), Access::WriteTask(Task::HfclkStop, 1));
    assert_eq!(clocks.stop_lfclk(), Access::WriteTask(Task::LfclkStop, 1));
}

#[test]
fn stopping_twice_is_harmless() {
    let clocks = Clocks::new(Clock::take());
    let mut regs = RegisterBlock::reset();
    regs.events_hfclkstarted = 1;
    regs.perform(clocks.set_lfclk_src_synth());
    regs.perform(clocks.disable_ext_hfosc());
    regs.perform(clocks.stop_lfclk());
    let once = regs;
    regs.perform(clocks.disable_ext_hfosc());
    regs.perform(clocks.stop_lfclk());
    assert_eq!(regs, once);
    assert_eq!(regs.tasks_hfclkstop, 1);
    assert_eq!(regs.tasks_lfclkstop, 1);
    assert_eq!(regs.events_hfclkstarted, 1);
    assert_eq!(regs.tasks_hfclkstart, 0);
    assert_eq!(regs.lfclksrc.src, LfClkSource::Synth);
}

#[test]
fn rc_after_external_clears_bypass_and_external() {
    let clocks = Clocks::new(Clock::take());
    let mut regs = RegisterBlock::reset();
    regs.perform(clocks.set_lfclk_src_external(LfOscConfiguration::ExternalAndBypass));
    assert_eq!(regs.lfclksrc, LfClkSrc { src: LfClkSource::Xtal, bypass: true, external: true });
    regs.perform(clocks.set_lfclk_src_rc());
    assert_eq!(regs.lfclksrc, LfClkSrc { src: LfClkSource::Rc, bypass: false, external: false });
    assert_eq!(regs.lfclksrc.bits(), 0);
}

#[test]
fn synth_after_external_clears_bypass_and_external() {
    let clocks = Clocks::new(Clock::take());
    let mut regs = RegisterBlock::reset();
    regs.perform(clocks.set_lfclk_src_external(LfOscConfiguration::ExternalNoBypass));
    regs.perform(clocks.set_lfclk_src_synth());
    assert_eq!(regs.lfclksrc, LfClkSrc { src: LfClkSource::Synth, bypass: false, external: false });
}

#[test]
fn selector_layout_sources() {
    let clocks = SelectorClocks::new(Clock::take());
    let sel = |src| Access::WriteLfClkSrc(LfClkSrc { src, bypass: false, external: false });
    assert_eq!(clocks.set_lfclk_src_rc(), sel(LfClkSource::Rc));
    assert_eq!(clocks.set_lfclk_src_synth(), sel(LfClkSource::Synth));
    assert_eq!(clocks.set_lfclk_src_external(), sel(LfClkSource::Xtal));
    assert_eq!(clocks.disable_ext_hfosc(), Access::WriteTask(Task::HfclkStop, 1));
    assert_eq!(clocks.stop_lfclk(), Access::WriteTask(Task::LfclkStop, 1));
    let mut regs = RegisterBlock::reset();
    let mut h = clocks.start_lfclk();
    let log = drive(&mut h, &mut regs, Event::LfclkStarted, 1);
    assert_eq!(log[0], Access::WriteTask(Task::LfclkStart, 1));
    assert_eq!(count_task_writes(&log), 1);
}

#[test]
fn reduced_peripheral_start_and_stop() {
    let clocks = ReducedClocks::new(Clock::take());
    let mut regs = RegisterBlock::reset();
    let mut h = clocks.enable_ext_hfosc();
    drive(&mut h, &mut regs, Event::HfclkStarted, 0);
    assert_eq!(regs.events_hfclkstarted, 0);
    let mut h = clocks.start_lfclk();
    drive(&mut h, &mut regs, Event::LfclkStarted, 4);
    assert_eq!(regs.events_lfclkstarted, 0);
    assert_eq!(clocks.disable_ext_hfosc(), Access::WriteTask(Task::HfclkStop, 1));
    assert_eq!(clocks.stop_lfclk(), Access::WriteTask(Task::LfclkStop, 1));
}

#[test]
fn handshake_phases() {
    let mut h = Handshake::new(Task::HfclkStart, Event::HfclkStarted);
    assert_eq!(h.phase, Phase::Trigger);
    h.step(0);
    assert_eq!(h.phase, Phase::Poll);
    h.step(0);
    assert_eq!(h.phase, Phase::Check);
    // A value other than 1 is not a start report.
    h.step(2);
    assert_eq!(h.phase, Phase::Check);
    h.step(1);
    assert_eq!(h.phase, Phase::Finished);
    assert_eq!(h.step(1), None);
}
