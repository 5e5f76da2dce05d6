use sam3x8e_hal::pmc::{ClockSource, CommitPhase, Error, CFGR};
use sam3x8e_hal::pmc::{pll_multiplier_for, pres_code_for_divisor, prescaler_for_code};
use sam3x8e_hal::regs::SimPmc;
use sam3x8e_hal::time::Hertz;

// Main-oscillator frequency classes as the oscillator register reports them.
const CLASS_4_MHZ: u8 = 0;
const CLASS_12_MHZ: u8 = 2;

#[test]
fn it_works() {}

#[test]
fn prescaler_table_matches() {
    // (divisor, code, applied prescaler), covering every row of the table,
    // range ends included.
    let rows: [(u32, u8, u16); 14] = [
        (1, 0, 1),
        (2, 1, 2),
        (3, 7, 3),
        (4, 2, 4),
        (5, 3, 8),
        (8, 3, 8),
        (9, 4, 16),
        (16, 4, 16),
        (17, 5, 32),
        (32, 5, 32),
        (33, 6, 64),
        (64, 6, 64),
        (1000, 6, 64),
        (u32::MAX, 6, 64),
    ];
    for (div, code, pres) in rows {
        assert_eq!(pres_code_for_divisor(div), code, "divisor {div}");
        assert_eq!(prescaler_for_code(code), pres, "code {code}");
    }
}

#[test]
fn prescaler_codes_cover_all_values() {
    let applied: [u16; 8] = [1, 2, 4, 8, 16, 32, 64, 3];
    for code in 0u8..8 {
        assert_eq!(prescaler_for_code(code), applied[code as usize]);
    }
}

#[test]
fn pll_multiplier_clamped_at_both_ends() {
    // Far too low a target still gives the minimum multiplier.
    assert_eq!(pll_multiplier_for(0, 4_000_000), 2);
    assert_eq!(pll_multiplier_for(1, 12_000_000), 2);
    // Far too high a target is clamped to the maximum: the largest 32-bit
    // target over the 4 MHz oscillator gives a raw multiplier of 2146.
    assert_eq!(pll_multiplier_for(u32::MAX, 4_000_000), 2048);
    assert_eq!(pll_multiplier_for(u32::MAX, 12_000_000), 714);
    // In between, twice the integer quotient.
    assert_eq!(pll_multiplier_for(12_000_000, 12_000_000), 2);
    assert_eq!(pll_multiplier_for(48_000_000, 12_000_000), 8);
    assert_eq!(pll_multiplier_for(30_000_000, 12_000_000), 4);
}

#[test]
fn scenario_main_clock_full_speed() {
    // Main oscillator 12 MHz, source main, target 12 MHz:
    // divisor 1, code 0, prescaler 1.
    let mut hw = SimPmc::new(CLASS_12_MHZ, true);
    let clocks = CFGR::new()
        .clock_source(ClockSource::MainClock)
        .master_clock(Hertz(12_000_000))
        .freeze(&mut hw)
        .unwrap();
    assert_eq!(clocks.master_clock_freq().0, 12_000_000);
    assert_eq!(clocks.pres(), 1);
    assert_eq!(clocks.main_clock_freq().0, 12_000_000);
    assert_eq!(clocks.slck().0, 32_768);
    assert!(matches!(clocks.clock_source(), ClockSource::MainClock));
    let s = hw.snapshot();
    assert_eq!(s.mckr_css, 1);
    assert_eq!(s.mckr_pres, 0);
}

#[test]
fn scenario_main_clock_divided() {
    // Main oscillator 12 MHz, target 1 MHz: divisor 12 falls in the 9..=16
    // row, code 4, prescaler 16, so the master clock lands at 750 kHz.
    let mut hw = SimPmc::new(CLASS_12_MHZ, true);
    let clocks = CFGR::new()
        .clock_source(ClockSource::MainClock)
        .master_clock(Hertz(1_000_000))
        .freeze(&mut hw)
        .unwrap();
    assert_eq!(clocks.master_clock_freq().0, 750_000);
    assert_eq!(clocks.pres(), 16);
    assert_eq!(hw.snapshot().mckr_pres, 4);
    assert_eq!(hw.snapshot().mckr_css, 1);
}

#[test]
fn scenario_slow_clock_default() {
    // Source slow oscillator, no target: defaults to 32768 Hz, divisor 1,
    // prescaler 1.
    let mut hw = SimPmc::new(CLASS_12_MHZ, true);
    let clocks = CFGR::new().freeze(&mut hw).unwrap();
    assert_eq!(clocks.master_clock_freq().0, 32_768);
    assert_eq!(clocks.pres(), 1);
    assert!(matches!(clocks.clock_source(), ClockSource::SlowClock));
    let s = hw.snapshot();
    assert_eq!(s.mckr_css, 0);
    assert_eq!(s.mckr_pres, 0);
}

#[test]
fn scenario_pll_default_target() {
    // Source PLL, main oscillator 12 MHz, no target: the target defaults to
    // the main oscillator's frequency, multiplier clamps up to 2, and the
    // master clock runs at 24 MHz.
    let mut hw = SimPmc::new(CLASS_12_MHZ, true);
    let clocks = CFGR::new()
        .clock_source(ClockSource::PllClock)
        .freeze(&mut hw)
        .unwrap();
    assert_eq!(clocks.master_clock_freq().0, 24_000_000);
    assert_eq!(clocks.pres(), 2);
    assert_eq!(clocks.pllack().0, 2);
    let s = hw.snapshot();
    assert_eq!(s.pll_diva, 2);
    // The multiplier register field holds the applied multiplier minus one.
    assert_eq!(s.pll_mula, 1);
    assert_eq!(s.mckr_css, 2);
    assert_eq!(s.mckr_pres, 0);
}

#[test]
fn scenario_target_exceeds_source() {
    // Target 13 MHz exceeds the 12 MHz main oscillator: rejected before any
    // register write.
    let mut hw = SimPmc::new(CLASS_12_MHZ, true);
    let before = hw.snapshot();
    let r = CFGR::new()
        .clock_source(ClockSource::MainClock)
        .master_clock(Hertz(13_000_000))
        .freeze(&mut hw);
    assert_eq!(r.err().unwrap(), Error::InvalidFrequencyTarget);
    assert_eq!(hw.snapshot(), before);
}

#[test]
fn divisor_three_special_case() {
    // Divisor 3 takes the irregular table entry: code 7, prescaler exactly 3.
    let mut hw = SimPmc::new(CLASS_12_MHZ, true);
    let clocks = CFGR::new()
        .clock_source(ClockSource::MainClock)
        .master_clock(Hertz(4_000_000))
        .freeze(&mut hw)
        .unwrap();
    assert_eq!(clocks.pres(), 3);
    assert_eq!(clocks.master_clock_freq().0, 4_000_000);
    assert_eq!(hw.snapshot().mckr_pres, 7);
}

#[test]
fn slow_clock_divided() {
    // Slow oscillator 32768 Hz, target 4096 Hz: divisor 8, code 3,
    // prescaler 8.
    let mut hw = SimPmc::new(CLASS_4_MHZ, true);
    let clocks = CFGR::new()
        .clock_source(ClockSource::SlowClock)
        .master_clock(Hertz(4_096))
        .freeze(&mut hw)
        .unwrap();
    assert_eq!(clocks.master_clock_freq().0, 4_096);
    assert_eq!(clocks.pres(), 8);
    assert_eq!(hw.snapshot().mckr_pres, 3);
    assert_eq!(hw.snapshot().mckr_css, 0);
}

#[test]
fn pll_path_multiplies() {
    // 4 MHz oscillator, target 48 MHz: multiplier 2 * 12 = 24.
    let mut hw = SimPmc::new(CLASS_4_MHZ, true);
    let clocks = CFGR::new()
        .clock_source(ClockSource::PllClock)
        .master_clock(Hertz(48_000_000))
        .freeze(&mut hw)
        .unwrap();
    assert_eq!(clocks.master_clock_freq().0, 96_000_000);
    assert_eq!(clocks.pres(), 24);
    assert_eq!(clocks.pllack().0, 24);
    assert_eq!(clocks.main_clock_freq().0, 4_000_000);
    assert_eq!(hw.snapshot().pll_mula, 23);
}

#[test]
fn pll_product_too_large_rejected() {
    // An extreme target clamps the multiplier to 2048, whose product with a
    // 12 MHz oscillator does not fit the 32-bit frequency: rejected before
    // any register write.
    let mut hw = SimPmc::new(CLASS_12_MHZ, true);
    let before = hw.snapshot();
    let r = CFGR::new()
        .clock_source(ClockSource::PllClock)
        .master_clock(Hertz(u32::MAX))
        .freeze(&mut hw);
    assert_eq!(r.err().unwrap(), Error::InvalidFrequencyTarget);
    assert_eq!(hw.snapshot(), before);
}

#[test]
fn zero_target_rejected() {
    let mut hw = SimPmc::new(CLASS_12_MHZ, true);
    let before = hw.snapshot();
    let r = CFGR::new()
        .clock_source(ClockSource::MainClock)
        .master_clock(Hertz(0))
        .freeze(&mut hw);
    assert_eq!(r.err().unwrap(), Error::InvalidFrequencyTarget);
    assert_eq!(hw.snapshot(), before);
}

#[test]
fn unsupported_oscillator_reading_rejected() {
    // Frequency classes above 2 are reserved.
    let mut hw = SimPmc::new(5, true);
    let before = hw.snapshot();
    let r = CFGR::new().freeze(&mut hw);
    assert_eq!(r.err().unwrap(), Error::UnsupportedOscillatorReading);
    assert_eq!(hw.snapshot(), before);
}

#[test]
fn divisor_timeout_reports_source_select_phase() {
    // Unresponsive hardware: the first ready-wait (after the source-select
    // write) runs out, and the partial commit is visible in the registers.
    let mut hw = SimPmc::new(CLASS_12_MHZ, false);
    let r = CFGR::new()
        .clock_source(ClockSource::MainClock)
        .master_clock(Hertz(12_000_000))
        .freeze(&mut hw);
    assert_eq!(
        r.err().unwrap(),
        Error::HardwareTimeout(CommitPhase::SourceSelect)
    );
    let s = hw.snapshot();
    assert_eq!(s.mckr_css, 1);
    assert_eq!(s.mckr_pres, 0);
}

#[test]
fn pll_timeout_reports_lock_phase() {
    // Unresponsive hardware on the PLL path: the lock wait runs out after
    // the PLL fields were written, before the master-clock writes.
    let mut hw = SimPmc::new(CLASS_12_MHZ, false);
    let r = CFGR::new()
        .clock_source(ClockSource::PllClock)
        .freeze(&mut hw);
    assert_eq!(r.err().unwrap(), Error::HardwareTimeout(CommitPhase::PllLock));
    let s = hw.snapshot();
    assert_eq!(s.pll_diva, 2);
    assert_eq!(s.pll_mula, 1);
    assert_eq!(s.mckr_css, 0);
    assert_eq!(s.mckr_pres, 0);
}

#[test]
fn divisor_timeout_between_phases_leaves_partial_commit() {
    // Hardware that satisfies exactly one wait: the source switch completes,
    // then the wait after the prescaler write runs out. Both writes are
    // visible: source switched and prescaler applied, commit unconfirmed.
    let mut hw = SimPmc::new_with_wait_budget(CLASS_12_MHZ, 1);
    let r = CFGR::new()
        .clock_source(ClockSource::MainClock)
        .master_clock(Hertz(1_000_000))
        .freeze(&mut hw);
    assert_eq!(
        r.err().unwrap(),
        Error::HardwareTimeout(CommitPhase::PrescalerSelect)
    );
    let s = hw.snapshot();
    assert_eq!(s.mckr_css, 1);
    assert_eq!(s.mckr_pres, 4);
}

#[test]
fn pll_timeout_phases_follow_commit_order() {
    // On the PLL path the commit order is lock wait, prescaler write, then
    // source-select write; each wait budget exposes the next phase.
    let mut hw = SimPmc::new_with_wait_budget(CLASS_12_MHZ, 1);
    let r = CFGR::new().clock_source(ClockSource::PllClock).freeze(&mut hw);
    assert_eq!(
        r.err().unwrap(),
        Error::HardwareTimeout(CommitPhase::PrescalerSelect)
    );
    assert_eq!(hw.snapshot().mckr_css, 0);

    let mut hw = SimPmc::new_with_wait_budget(CLASS_12_MHZ, 2);
    let r = CFGR::new().clock_source(ClockSource::PllClock).freeze(&mut hw);
    assert_eq!(
        r.err().unwrap(),
        Error::HardwareTimeout(CommitPhase::SourceSelect)
    );
    // The source-select write itself already happened.
    assert_eq!(hw.snapshot().mckr_css, 2);

    let mut hw = SimPmc::new_with_wait_budget(CLASS_12_MHZ, 3);
    let clocks = CFGR::new()
        .clock_source(ClockSource::PllClock)
        .freeze(&mut hw)
        .unwrap();
    assert_eq!(clocks.master_clock_freq().0, 24_000_000);
}

#[test]
fn builder_last_call_wins() {
    let mut hw = SimPmc::new(CLASS_12_MHZ, true);
    let clocks = CFGR::new()
        .master_clock(Hertz(1))
        .clock_source(ClockSource::PllClock)
        .master_clock(Hertz(12_000_000))
        .clock_source(ClockSource::MainClock)
        .freeze(&mut hw)
        .unwrap();
    assert_eq!(clocks.master_clock_freq().0, 12_000_000);
    assert!(matches!(clocks.clock_source(), ClockSource::MainClock));
}

#[test]
fn accessors_repeatable() {
    // The frozen record is a plain copyable value: every accessor returns
    // the same value every time it is called.
    let mut hw = SimPmc::new(CLASS_12_MHZ, true);
    let clocks = CFGR::new()
        .clock_source(ClockSource::MainClock)
        .master_clock(Hertz(1_000_000))
        .freeze(&mut hw)
        .unwrap();
    assert_eq!(clocks.master_clock_freq(), clocks.master_clock_freq());
    assert_eq!(clocks.mck(), clocks.master_clock_freq());
    assert_eq!(clocks.slck(), clocks.slck());
    assert_eq!(clocks.main_clock_freq(), clocks.main_clock_freq());
    assert_eq!(clocks.pllack(), clocks.pllack());
    assert_eq!(clocks.pres(), clocks.pres());
    assert!(matches!(clocks.clock_source(), ClockSource::MainClock));
    assert!(matches!(clocks.clock_source(), ClockSource::MainClock));
    // A copy reports the same values.
    let copy = clocks;
    assert_eq!(copy.master_clock_freq(), clocks.master_clock_freq());
    assert_eq!(copy.pres(), clocks.pres());
}
