//! Power-management controller: master-clock configuration and
//! per-peripheral clock gating.
//!
//! A [`CFGR`] builder accumulates the desired master-clock source and
//! frequency; [`CFGR::freeze`] consumes it, reads the main-oscillator
//! frequency class from the hardware, computes the prescaler or PLL register
//! fields, commits them through the two-phase ready handshake, and returns a
//! [`Clocks`] record whose reported frequencies match exactly what was
//! written to the registers. [`Pclk0`] and [`Pclk1`] gate power to individual
//! peripherals over two disjoint identifier ranges.

use vstd::arithmetic::div_mod::lemma_div_is_ordered;
use vstd::arithmetic::div_mod::lemma_div_non_zero;
use vstd::arithmetic::power2::lemma2_to64;
use vstd::arithmetic::power2::pow2;
use vstd::prelude::*;

use crate::regs::PmcHw;
use crate::regs::PmcState;
use crate::time::Hertz;

verus! {

/// Nominal frequency of the always-available slow oscillator, in Hertz.
pub const SLOW_CLOCK_FREQ: u32 = 32_768;

/// Possible sources for the master clock.
#[derive(Clone, Copy, Debug, PartialEq, Eq, Structural)]
pub enum ClockSource {
    /// The crystal-driven main oscillator.
    MainClock,
    /// The fixed 32768 Hz slow oscillator.
    SlowClock,
    /// The PLL fed by the main oscillator.
    PllClock,
}

/// The step of the hardware commit during which a bounded ready-wait ran out.
///
/// The steps before the reported one have already been written to the
/// registers: a timeout mid-commit leaves a partial configuration, and the
/// contract of [`CFGR::freeze`] states exactly which fields were written.
#[derive(Clone, Copy, Debug, PartialEq, Eq, Structural)]
pub enum CommitPhase {
    /// Waiting for the PLL to report lock after its fields were written.
    PllLock,
    /// Waiting for master-clock-ready after the source-select write.
    SourceSelect,
    /// Waiting for master-clock-ready after the prescaler write.
    PrescalerSelect,
}

/// Ways a clock configuration can fail to freeze.
#[derive(Clone, Copy, Debug, PartialEq, Eq, Structural)]
pub enum Error {
    /// The requested target frequency is zero or exceeds the selected
    /// source's frequency on a divisor-only path, or the PLL product does not
    /// fit in 32 bits. Detected before any register write.
    InvalidFrequencyTarget,
    /// The main oscillator reports a frequency class outside the supported
    /// set. Detected before any register write.
    UnsupportedOscillatorReading,
    /// A bounded ready-wait ran out during the commit handshake; the payload
    /// names the step, making the partially committed state visible.
    HardwareTimeout(CommitPhase),
}

/// Main-oscillator frequency, in Hertz, for a supported frequency-class
/// reading, or `None` for an unsupported one.
pub open spec fn osc_freq_of_class(class: u8) -> Option<u32> {
    if class == 0 {
        Some(4_000_000u32)
    } else if class == 1 {
        Some(8_000_000u32)
    } else if class == 2 {
        Some(12_000_000u32)
    } else {
        None
    }
}

/// The divisor-to-prescaler-code table. Codes are powers of two except the
/// irregular entry for divisor 3, which gets code 7 (prescaler 3 exactly).
pub open spec fn pres_code_of_div(div: u32) -> u8 {
    if div == 1 {
        0
    } else if div == 2 {
        1
    } else if div == 3 {
        7
    } else if div == 4 {
        2
    } else if div <= 8 {
        3
    } else if div <= 16 {
        4
    } else if div <= 32 {
        5
    } else {
        6
    }
}

/// The prescaler applied by the hardware for each 3-bit prescaler code:
/// two to the power of the code, except code 7, which divides by 3 exactly.
pub open spec fn prescaler_of_code(code: u8) -> u16 {
    if code == 0 {
        1
    } else if code == 1 {
        2
    } else if code == 2 {
        4
    } else if code == 3 {
        8
    } else if code == 4 {
        16
    } else if code == 5 {
        32
    } else if code == 6 {
        64
    } else {
        3
    }
}

/// The PLL multiplier for a requested target: twice the integer quotient of
/// target by main-oscillator frequency, clamped to the closed range 2..2048.
pub open spec fn pll_multiplier_of(target: u32, main_freq: u32) -> u16 {
    let raw = 2 * ((target as int) / (main_freq as int));
    if raw < 2 {
        2u16
    } else if raw > 2048 {
        2048u16
    } else {
        raw as u16
    }
}

/// The target frequency the freeze algorithm works towards: the requested
/// one, or, when none was requested, the source's natural frequency.
pub open spec fn resolved_target(target: Option<u32>, src: ClockSource, main_freq: u32) -> u32 {
    match target {
        Some(t) => t,
        None => if src == ClockSource::SlowClock {
            SLOW_CLOCK_FREQ
        } else {
            main_freq
        },
    }
}

/// The frequency a divisor-path source feeds into the prescaler.
pub open spec fn divisor_source_freq(src: ClockSource, main_freq: u32) -> u32 {
    if src == ClockSource::SlowClock {
        SLOW_CLOCK_FREQ
    } else {
        main_freq
    }
}

/// The source-select register code for each clock source.
pub open spec fn css_of_source(src: ClockSource) -> u8 {
    match src {
        ClockSource::SlowClock => 0,
        ClockSource::MainClock => 1,
        ClockSource::PllClock => 2,
    }
}

/// The prescaler code a divisor path selects for a source frequency and a
/// (nonzero, not larger) target.
pub open spec fn divisor_code(sf: u32, target: u32) -> u8 {
    pres_code_of_div(((sf as int) / (target as int)) as u32)
}

/// The prescaler a divisor path applies.
pub open spec fn divisor_prescaler(sf: u32, target: u32) -> u16 {
    prescaler_of_code(divisor_code(sf, target))
}

/// The master-clock frequency a divisor path produces: the source frequency
/// divided by the applied prescaler, rounding down.
pub open spec fn divisor_mck(sf: u32, target: u32) -> u32 {
    (((sf as int) / (divisor_prescaler(sf, target) as int))) as u32
}

/// The register state after the PLL divider and multiplier fields are written.
pub open spec fn with_pll(s: PmcState, diva: u8, mula: u16) -> PmcState {
    PmcState { pll_diva: diva, pll_mula: mula, ..s }
}

/// The register state after the master-clock source-select field is written.
pub open spec fn with_css(s: PmcState, css: u8) -> PmcState {
    PmcState { mckr_css: css, ..s }
}

/// The register state after the master-clock prescaler field is written.
pub open spec fn with_pres(s: PmcState, pres: u8) -> PmcState {
    PmcState { mckr_pres: pres, ..s }
}

/// What a frozen [`Clocks`] record holds: the chosen source, the fixed slow
/// oscillator frequency, the measured main-oscillator frequency, the ratio of
/// master clock to main oscillator, the final master-clock frequency, and the
/// applied prescaler (for the PLL path, the applied multiplier).
pub open spec fn clocks_ok(c: Clocks, src: ClockSource, main_freq: u32, mck: u32, pres: u16) -> bool {
    &&& c.source_spec() == src
    &&& c.slck_spec() == SLOW_CLOCK_FREQ
    &&& c.main_freq_spec() == main_freq
    &&& c.pllack_spec() == (mck as int) / (main_freq as int)
    &&& c.mck_spec() == mck
    &&& c.pres_spec() == pres
}

/// Full contract of [`CFGR::freeze`], relating the builder's request
/// (`target`, `src`), the register state before (`s0`) and after (`s1`) the
/// call, and the outcome `r`.
///
/// Rejected configurations leave the registers unchanged. A successful freeze
/// leaves exactly the computed fields written, and the returned record
/// reports the frequencies those fields produce. A ready-wait that runs out
/// reports the commit step it interrupted, and the state shows precisely the
/// writes that preceded it.
pub open spec fn freeze_post(
    target: Option<u32>,
    src: ClockSource,
    s0: PmcState,
    s1: PmcState,
    r: Result<Clocks, Error>,
) -> bool {
    match osc_freq_of_class(s0.moscrcf) {
        None => r == Err::<Clocks, Error>(Error::UnsupportedOscillatorReading) && s1 == s0,
        Some(f) => {
            let t = resolved_target(target, src, f);
            if src == ClockSource::PllClock {
                let mul = pll_multiplier_of(t, f);
                if (f as int) * (mul as int) > u32::MAX as int {
                    r == Err::<Clocks, Error>(Error::InvalidFrequencyTarget) && s1 == s0
                } else {
                    let sp = with_pll(s0, 2, (mul - 1) as u16);
                    match r {
                        Ok(c) => {
                            &&& s1 == with_css(with_pres(sp, 0), 2)
                            &&& clocks_ok(c, src, f, ((f as int) * (mul as int)) as u32, mul)
                        },
                        Err(e) => {
                            ||| e == Error::HardwareTimeout(CommitPhase::PllLock) && s1 == sp
                            ||| e == Error::HardwareTimeout(CommitPhase::PrescalerSelect)
                                && s1 == with_pres(sp, 0)
                            ||| e == Error::HardwareTimeout(CommitPhase::SourceSelect)
                                && s1 == with_css(with_pres(sp, 0), 2)
                        },
                    }
                }
            } else {
                let sf = divisor_source_freq(src, f);
                let css = css_of_source(src);
                if t == 0 || t > sf {
                    r == Err::<Clocks, Error>(Error::InvalidFrequencyTarget) && s1 == s0
                } else {
                    let code = divisor_code(sf, t);
                    match r {
                        Ok(c) => {
                            &&& s1 == with_pres(with_css(s0, css), code)
                            &&& clocks_ok(c, src, f, divisor_mck(sf, t), divisor_prescaler(sf, t))
                        },
                        Err(e) => {
                            ||| e == Error::HardwareTimeout(CommitPhase::SourceSelect)
                                && s1 == with_css(s0, css)
                            ||| e == Error::HardwareTimeout(CommitPhase::PrescalerSelect)
                                && s1 == with_pres(with_css(s0, css), code)
                        },
                    }
                }
            }
        },
    }
}

/// Main-oscillator frequency for a supported frequency-class reading.
pub fn osc_freq_for_class(class: u8) -> (r: Option<u32>)
    ensures
        r == osc_freq_of_class(class),
{
    if class == 0 {
        Some(4_000_000)
    } else if class == 1 {
        Some(8_000_000)
    } else if class == 2 {
        Some(12_000_000)
    } else {
        None
    }
}

/// Looks a divisor up in the divisor-to-prescaler-code table.
pub fn pres_code_for_divisor(div: u32) -> (r: u8)
    requires
        div >= 1,
    ensures
        r == pres_code_of_div(div),
{
    if div == 1 {
        0
    } else if div == 2 {
        1
    } else if div == 3 {
        7
    } else if div == 4 {
        2
    } else if div <= 8 {
        3
    } else if div <= 16 {
        4
    } else if div <= 32 {
        5
    } else {
        6
    }
}

/// The prescaler the hardware applies for a 3-bit prescaler code.
pub fn prescaler_for_code(code: u8) -> (r: u16)
    ensures
        r == prescaler_of_code(code),
{
    if code == 0 {
        1
    } else if code == 1 {
        2
    } else if code == 2 {
        4
    } else if code == 3 {
        8
    } else if code == 4 {
        16
    } else if code == 5 {
        32
    } else if code == 6 {
        64
    } else {
        3
    }
}

/// The PLL multiplier for a requested target frequency, clamped to 2..2048.
pub fn pll_multiplier_for(target: u32, main_freq: u32) -> (r: u16)
    requires
        main_freq >= 1,
    ensures
        r == pll_multiplier_of(target, main_freq),
{
    let q: u32 = target / main_freq;
    let raw: u64 = 2u64 * (q as u64);
    if raw < 2 {
        2
    } else if raw > 2048 {
        2048
    } else {
        raw as u16
    }
}

/// Clock configuration builder: accumulates a desired master-clock frequency
/// and source until [`CFGR::freeze`] consumes it.
///
/// Freezing takes the builder by value, so a frozen configuration cannot be
/// reconfigured: no builder remains to call.
pub struct CFGR {
    /// Requested master-clock frequency, if any.
    master_clock: Option<u32>,
    /// Chosen master-clock source.
    clock_source: ClockSource,
}

impl CFGR {
    /// The requested master-clock frequency, if one was set.
    pub closed spec fn target_spec(&self) -> Option<u32> {
        self.master_clock
    }

    /// The chosen master-clock source.
    pub closed spec fn source_spec(&self) -> ClockSource {
        self.clock_source
    }

    /// An empty configuration: no target frequency, slow oscillator source.
    pub fn new() -> (r: CFGR)
        ensures
            r.target_spec() == Option::<u32>::None,
            r.source_spec() == ClockSource::SlowClock,
    {
        CFGR { master_clock: None, clock_source: ClockSource::SlowClock }
    }

    /// Assigns the desired master-clock frequency. Validation is deferred to
    /// [`CFGR::freeze`], where the source frequency is known.
    pub fn master_clock(self, freq: Hertz) -> (r: Self)
        ensures
            r.target_spec() == Some(freq.0),
            r.source_spec() == self.source_spec(),
    {
        CFGR { master_clock: Some(freq.0), clock_source: self.clock_source }
    }

    /// Changes the master-clock source.
    pub fn clock_source(self, src: ClockSource) -> (r: Self)
        ensures
            r.target_spec() == self.target_spec(),
            r.source_spec() == src,
    {
        CFGR { master_clock: self.master_clock, clock_source: src }
    }

    /// Freezes the clock configuration, making it effective.
    ///
    /// Reads the main-oscillator frequency class, computes the prescaler or
    /// PLL fields for the chosen source, writes them through the two-phase
    /// ready handshake (each register write followed by a blocking, bounded
    /// wait for the ready bit), and returns the frozen record. The full
    /// behaviour, including which register fields hold which values on every
    /// outcome, is [`freeze_post`].
    pub fn freeze<H: PmcHw>(self, hw: &mut H) -> (r: Result<Clocks, Error>)
        ensures
            freeze_post(
                self.target_spec(),
                self.source_spec(),
                old(hw).state(),
                final(hw).state(),
                r,
            ),
    {
        let class = hw.read_main_osc_class();
        let main_clock_freq: u32 = match osc_freq_for_class(class) {
            Some(f) => f,
            None => {
                return Err(Error::UnsupportedOscillatorReading);
            },
        };
        let target: u32 = match self.master_clock {
            Some(t) => t,
            None => match self.clock_source {
                ClockSource::SlowClock => SLOW_CLOCK_FREQ,
                _ => main_clock_freq,
            },
        };
        match self.clock_source {
            ClockSource::PllClock => {
                let pllmul = pll_multiplier_for(target, main_clock_freq);
                let prod: u64 = (main_clock_freq as u64) * (pllmul as u64);
                if prod > (u32::MAX as u64) {
                    return Err(Error::InvalidFrequencyTarget);
                }
                hw.write_pll(2, pllmul - 1);
                if !hw.wait_pll_lock() {
                    return Err(Error::HardwareTimeout(CommitPhase::PllLock));
                }
                hw.write_mck_prescaler(0);
                if !hw.wait_mck_ready() {
                    return Err(Error::HardwareTimeout(CommitPhase::PrescalerSelect));
                }
                hw.write_mck_source(2);
                if !hw.wait_mck_ready() {
                    return Err(Error::HardwareTimeout(CommitPhase::SourceSelect));
                }
                let mck = main_clock_freq * (pllmul as u32);
                Ok(
                    Clocks {
                        clock_source: self.clock_source,
                        slck: Hertz(SLOW_CLOCK_FREQ),
                        main_clock_freq: Hertz(main_clock_freq),
                        pllack: Hertz(mck / main_clock_freq),
                        master_clock_freq: Hertz(mck),
                        pres: pllmul,
                    },
                )
            },
            _ => {
                let slow = matches!(self.clock_source, ClockSource::SlowClock);
                let source_freq = if slow {
                    SLOW_CLOCK_FREQ
                } else {
                    main_clock_freq
                };
                if target == 0 || target > source_freq {
                    return Err(Error::InvalidFrequencyTarget);
                }
                let div = source_freq / target;
                proof {
                    lemma_div_non_zero(source_freq as int, target as int);
                }
                let code = pres_code_for_divisor(div);
                let pres = prescaler_for_code(code);
                let css: u8 = if slow {
                    0
                } else {
                    1
                };
                hw.write_mck_source(css);
                if !hw.wait_mck_ready() {
                    return Err(Error::HardwareTimeout(CommitPhase::SourceSelect));
                }
                hw.write_mck_prescaler(code);
                if !hw.wait_mck_ready() {
                    return Err(Error::HardwareTimeout(CommitPhase::PrescalerSelect));
                }
                let mck = source_freq / (pres as u32);
                Ok(
                    Clocks {
                        clock_source: self.clock_source,
                        slck: Hertz(SLOW_CLOCK_FREQ),
                        main_clock_freq: Hertz(main_clock_freq),
                        pllack: Hertz(mck / main_clock_freq),
                        master_clock_freq: Hertz(mck),
                        pres,
                    },
                )
            },
        }
    }
}

/// Frozen clock frequencies.
///
/// Existence of this value indicates that the clock configuration was
/// committed to the hardware and can no longer be changed. Every accessor
/// returns a value fixed at freeze time.
#[derive(Clone, Copy)]
pub struct Clocks {
    clock_source: ClockSource,
    slck: Hertz,
    main_clock_freq: Hertz,
    pllack: Hertz,
    master_clock_freq: Hertz,
    pres: u16,
}

impl Clocks {
    /// The source the master clock was derived from.
    pub closed spec fn source_spec(&self) -> ClockSource {
        self.clock_source
    }

    /// The slow-oscillator frequency, in Hertz.
    pub closed spec fn slck_spec(&self) -> u32 {
        self.slck.0
    }

    /// The measured main-oscillator frequency, in Hertz.
    pub closed spec fn main_freq_spec(&self) -> u32 {
        self.main_clock_freq.0
    }

    /// The ratio of master clock to main oscillator.
    pub closed spec fn pllack_spec(&self) -> u32 {
        self.pllack.0
    }

    /// The committed master-clock frequency, in Hertz.
    pub closed spec fn mck_spec(&self) -> u32 {
        self.master_clock_freq.0
    }

    /// The applied prescaler (for the PLL path, the applied multiplier).
    pub closed spec fn pres_spec(&self) -> u16 {
        self.pres
    }

    /// Returns the clock source of the master clock.
    pub fn clock_source(&self) -> (r: ClockSource)
        ensures
            r == self.source_spec(),
    {
        self.clock_source
    }

    /// Returns the frequency of the slow clock.
    pub fn slck(&self) -> (r: Hertz)
        ensures
            r.0 == self.slck_spec(),
    {
        self.slck
    }

    /// Returns the frequency of the main clock.
    pub fn main_clock_freq(&self) -> (r: Hertz)
        ensures
            r.0 == self.main_freq_spec(),
    {
        self.main_clock_freq
    }

    /// Returns the frequency of the PLL output clock.
    pub fn pllack(&self) -> (r: Hertz)
        ensures
            r.0 == self.pllack_spec(),
    {
        self.pllack
    }

    /// Returns the frequency of the master clock.
    pub fn master_clock_freq(&self) -> (r: Hertz)
        ensures
            r.0 == self.mck_spec(),
    {
        self.master_clock_freq
    }

    /// Returns the frequency of the master clock.
    pub fn mck(&self) -> (r: Hertz)
        ensures
            r.0 == self.mck_spec(),
    {
        self.master_clock_freq
    }

    /// Returns the value of the prescaler in the master-clock controller.
    pub fn pres(&self) -> (r: u16)
        ensures
            r == self.pres_spec(),
    {
        self.pres
    }
}

/// Peripheral clock gate for identifiers 8 through 31.
///
/// A zero-size capability token: holding it exclusively is what prevents two
/// call sites from racing on the same enable and disable registers.
pub struct Pclk0 {
    _0: (),
}

impl Pclk0 {
    /// Enables the peripheral clock for `id`. Idempotent: the enable-register
    /// write sets the bit whether or not it was already set.
    pub fn enable<H: PmcHw>(&mut self, hw: &mut H, id: u8)
        requires
            8 <= id <= 31,
        ensures
            final(hw).state() == (PmcState {
                pcer0: old(hw).state().pcer0 | (1u32 << (id as u32)),
                ..old(hw).state()
            }),
    {
        hw.set_enable0(1u32 << (id as u32));
    }

    /// Disables the peripheral clock for `id`: the disable-register write
    /// makes the hardware clear the enable bit.
    pub fn disable<H: PmcHw>(&mut self, hw: &mut H, id: u8)
        requires
            8 <= id <= 31,
        ensures
            final(hw).state() == (PmcState {
                pcer0: old(hw).state().pcer0 & !(1u32 << (id as u32)),
                ..old(hw).state()
            }),
    {
        hw.set_disable0(1u32 << (id as u32));
    }

    /// Reads whether the peripheral clock for `id` is currently active,
    /// straight from the status register: no state is cached.
    pub fn status<H: PmcHw>(&self, hw: &H, id: u8) -> (r: bool)
        requires
            8 <= id <= 31,
        ensures
            r == ((hw.state().pcer0 >> (id as u32)) & 1 == 1),
    {
        let sr = hw.read_status0();
        ((sr >> (id as u32)) & 1) == 1
    }
}

/// Peripheral clock gate for identifiers 32 through 44.
///
/// A zero-size capability token, like [`Pclk0`], for the second bank of
/// enable, disable and status registers.
pub struct Pclk1 {
    _0: (),
}

impl Pclk1 {
    /// Enables the peripheral clock for `id`. Idempotent, as for [`Pclk0`].
    pub fn enable<H: PmcHw>(&mut self, hw: &mut H, id: u8)
        requires
            32 <= id <= 44,
        ensures
            final(hw).state() == (PmcState {
                pcer1: old(hw).state().pcer1 | (1u32 << ((id - 32) as u32)),
                ..old(hw).state()
            }),
    {
        hw.set_enable1(1u32 << ((id - 32) as u32));
    }

    /// Disables the peripheral clock for `id`.
    pub fn disable<H: PmcHw>(&mut self, hw: &mut H, id: u8)
        requires
            32 <= id <= 44,
        ensures
            final(hw).state() == (PmcState {
                pcer1: old(hw).state().pcer1 & !(1u32 << ((id - 32) as u32)),
                ..old(hw).state()
            }),
    {
        hw.set_disable1(1u32 << ((id - 32) as u32));
    }

    /// Reads whether the peripheral clock for `id` is currently active.
    pub fn status<H: PmcHw>(&self, hw: &H, id: u8) -> (r: bool)
        requires
            32 <= id <= 44,
        ensures
            r == ((hw.state().pcer1 >> ((id - 32) as u32)) & 1 == 1),
    {
        let sr = hw.read_status1();
        ((sr >> ((id - 32) as u32)) & 1) == 1
    }
}

/// Constrained power-management controller: the two clock-gate tokens and an
/// empty configuration builder, obtained once.
pub struct Pmc {
    /// Peripheral clock gate for identifiers 8 through 31.
    pub pclk0: Pclk0,
    /// Peripheral clock gate for identifiers 32 through 44.
    pub pclk1: Pclk1,
    /// Clock configuration builder.
    pub cfgr: CFGR,
}

/// Extension trait that constrains the power-management controller so it
/// plays nicely with other abstractions.
pub trait PmcExt {
    /// The one-time constrain step: consumes a raw controller handle and
    /// yields the two clock-gate tokens and an empty configuration builder.
    fn constraint(self) -> (r: Pmc)
        ensures
            r.cfgr.target_spec() == Option::<u32>::None,
            r.cfgr.source_spec() == ClockSource::SlowClock,
    ;
}

impl<H: PmcHw> PmcExt for H {
    fn constraint(self) -> (r: Pmc) {
        Pmc {
            pclk0: Pclk0 { _0: () },
            pclk1: Pclk1 { _0: () },
            cfgr: CFGR { master_clock: None, clock_source: ClockSource::SlowClock },
        }
    }
}

/// Every divisor maps to the table's prescaler code, with the irregular
/// divisor-3 entry mapping to code 7 and prescaler 3; every regular code
/// applies a prescaler of two to the power of the code.
pub proof fn lemma_prescaler_table(d: u32)
    requires
        d >= 1,
    ensures
        pres_code_of_div(d) <= 7,
        d == 1 ==> pres_code_of_div(d) == 0,
        d == 2 ==> pres_code_of_div(d) == 1,
        d == 3 ==> pres_code_of_div(d) == 7 && prescaler_of_code(7) == 3,
        d == 4 ==> pres_code_of_div(d) == 2,
        5 <= d <= 8 ==> pres_code_of_div(d) == 3,
        9 <= d <= 16 ==> pres_code_of_div(d) == 4,
        17 <= d <= 32 ==> pres_code_of_div(d) == 5,
        d >= 33 ==> pres_code_of_div(d) == 6,
        d != 3 ==> prescaler_of_code(pres_code_of_div(d)) == pow2(pres_code_of_div(d) as nat),
{
    lemma2_to64();
}

/// On a divisor path the frozen record's master-clock frequency is the source
/// frequency divided by the record's applied prescaler, rounding down, and
/// the applied prescaler is a value from the table's right-hand column.
pub proof fn lemma_divisor_master_clock(c: Clocks, src: ClockSource, main_freq: u32, target: u32)
    requires
        src != ClockSource::PllClock,
        1 <= target <= divisor_source_freq(src, main_freq),
        clocks_ok(
            c,
            src,
            main_freq,
            divisor_mck(divisor_source_freq(src, main_freq), target),
            divisor_prescaler(divisor_source_freq(src, main_freq), target),
        ),
    ensures
        c.mck_spec() == (divisor_source_freq(src, main_freq) as int) / (c.pres_spec() as int),
        c.pres_spec() == 1 || c.pres_spec() == 2 || c.pres_spec() == 3 || c.pres_spec() == 4
            || c.pres_spec() == 8 || c.pres_spec() == 16 || c.pres_spec() == 32 || c.pres_spec()
            == 64,
{
    let sf = divisor_source_freq(src, main_freq);
    let pres = divisor_prescaler(sf, target);
    assert(1 <= pres <= 64);
    lemma_div_is_ordered(0, sf as int, pres as int);
    lemma_div_is_ordered(sf as int / pres as int, sf as int, 1);
}

/// The PLL multiplier is clamped to the closed range 2..2048, however extreme
/// the requested target frequency.
pub proof fn lemma_pll_multiplier_clamped(target: u32, main_freq: u32)
    ensures
        2 <= pll_multiplier_of(target, main_freq) <= 2048,
{
}

/// Any record a successful freeze returns obeys the frequency laws: the
/// oscillator reading was supported; on a divisor path the master-clock
/// frequency is the source frequency divided by the record's applied
/// prescaler, rounding down, and the prescaler is a value from the table's
/// right-hand column; on the PLL path the master-clock frequency is the
/// main-oscillator frequency times the record's applied multiplier, and the
/// multiplier lies in the closed range 2..2048.
pub proof fn lemma_frozen_record_laws(
    target: Option<u32>,
    src: ClockSource,
    s0: PmcState,
    s1: PmcState,
    c: Clocks,
)
    requires
        freeze_post(target, src, s0, s1, Ok(c)),
    ensures
        osc_freq_of_class(s0.moscrcf) is Some,
        src != ClockSource::PllClock ==> c.mck_spec() == (divisor_source_freq(
            src,
            c.main_freq_spec(),
        ) as int) / (c.pres_spec() as int),
        src != ClockSource::PllClock ==> (c.pres_spec() == 1 || c.pres_spec() == 2
            || c.pres_spec() == 3 || c.pres_spec() == 4 || c.pres_spec() == 8 || c.pres_spec()
            == 16 || c.pres_spec() == 32 || c.pres_spec() == 64),
        src == ClockSource::PllClock ==> 2 <= c.pres_spec() <= 2048,
        src == ClockSource::PllClock ==> c.mck_spec() == (c.main_freq_spec() as int) * (
        c.pres_spec() as int),
{
    let f = osc_freq_of_class(s0.moscrcf).unwrap();
    let t = resolved_target(target, src, f);
    if src != ClockSource::PllClock {
        lemma_divisor_master_clock(c, src, f, t);
    }
}

/// Enabling a peripheral clock is idempotent: setting an enable bit that is
/// already set leaves the enable mask as it was.
pub proof fn lemma_gate_enable_idempotent(mask: u32, bit: u32)
    ensures
        (mask | bit) | bit == mask | bit,
{
    assert((mask | bit) | bit == mask | bit) by (bit_vector);
}

} // verus!
