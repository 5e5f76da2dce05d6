//! Register-level interface to the power-management controller.
//!
//! The clock algorithms in [`crate::pmc`] are written against the [`PmcHw`]
//! trait, which models the handful of controller registers they touch. A
//! production build implements the trait over the memory-mapped registers;
//! [`SimPmc`] is an in-memory implementation for exercising the clock logic
//! without the device.

use vstd::prelude::*;

verus! {

/// Snapshot of the controller registers that the clock logic reads or writes.
///
/// Fields mirror the hardware: the main-oscillator frequency-class field, the
/// PLL divider and multiplier fields, the master-clock source-select and
/// prescaler fields, and the two peripheral-clock enable masks.
#[derive(Clone, Copy, Debug, PartialEq, Eq, Structural)]
pub struct PmcState {
    /// Main-oscillator frequency class as reported by the oscillator register.
    pub moscrcf: u8,
    /// PLL input divider field.
    pub pll_diva: u8,
    /// PLL multiplier field (the applied multiplier minus one).
    pub pll_mula: u16,
    /// Master-clock source-select field.
    pub mckr_css: u8,
    /// Master-clock prescaler code field.
    pub mckr_pres: u8,
    /// Peripheral-clock enable mask for identifiers 0 through 31.
    pub pcer0: u32,
    /// Peripheral-clock enable mask for identifiers 32 through 63.
    pub pcer1: u32,
}

/// Access to the power-management controller registers.
///
/// Every mutating operation states exactly which register field it changes;
/// the wait operations report whether the hardware signalled readiness within
/// the implementation's bound, and change nothing.
pub trait PmcHw {
    /// The register contents this handle currently exposes.
    spec fn state(&self) -> PmcState;

    /// Reads the main-oscillator frequency-class field.
    fn read_main_osc_class(&self) -> (r: u8)
        ensures
            r == self.state().moscrcf;

    /// Writes the PLL divider and multiplier fields.
    fn write_pll(&mut self, diva: u8, mula: u16)
        requires
            mula <= 2047,
        ensures
            final(self).state() == (PmcState {
                pll_diva: diva,
                pll_mula: mula,
                ..old(self).state()
            });

    /// Spins until the PLL reports lock, up to an implementation-defined
    /// bound; returns whether lock was observed. Registers are unchanged.
    fn wait_pll_lock(&mut self) -> (r: bool)
        ensures
            final(self).state() == old(self).state();

    /// Writes the master-clock source-select field.
    fn write_mck_source(&mut self, css: u8)
        requires
            css <= 3,
        ensures
            final(self).state() == (PmcState { mckr_css: css, ..old(self).state() });

    /// Writes the master-clock prescaler code field.
    fn write_mck_prescaler(&mut self, pres: u8)
        requires
            pres <= 7,
        ensures
            final(self).state() == (PmcState { mckr_pres: pres, ..old(self).state() });

    /// Spins until the master-clock-ready status bit is observed set, up to
    /// an implementation-defined bound; returns whether it was observed.
    /// Registers are unchanged.
    fn wait_mck_ready(&mut self) -> (r: bool)
        ensures
            final(self).state() == old(self).state();

    /// Writes the given mask to the enable register for peripherals 0-31;
    /// the hardware sets the corresponding enable bits.
    fn set_enable0(&mut self, mask: u32)
        ensures
            final(self).state() == (PmcState {
                pcer0: old(self).state().pcer0 | mask,
                ..old(self).state()
            });

    /// Writes the given mask to the disable register for peripherals 0-31;
    /// the hardware clears the corresponding enable bits.
    fn set_disable0(&mut self, mask: u32)
        ensures
            final(self).state() == (PmcState {
                pcer0: old(self).state().pcer0 & !mask,
                ..old(self).state()
            });

    /// Reads the status register for peripherals 0-31.
    fn read_status0(&self) -> (r: u32)
        ensures
            r == self.state().pcer0;

    /// Writes the given mask to the enable register for peripherals 32-63.
    fn set_enable1(&mut self, mask: u32)
        ensures
            final(self).state() == (PmcState {
                pcer1: old(self).state().pcer1 | mask,
                ..old(self).state()
            });

    /// Writes the given mask to the disable register for peripherals 32-63.
    fn set_disable1(&mut self, mask: u32)
        ensures
            final(self).state() == (PmcState {
                pcer1: old(self).state().pcer1 & !mask,
                ..old(self).state()
            });

    /// Reads the status register for peripherals 32-63.
    fn read_status1(&self) -> (r: u32)
        ensures
            r == self.state().pcer1;
}

/// In-memory power-management controller.
///
/// Behaves like the device as far as the clock logic can observe: register
/// writes land in the corresponding fields, and each ready or lock wait
/// succeeds while the simulated hardware still has wait budget left, so a
/// device that goes silent mid-commit can be modelled too.
pub struct SimPmc {
    moscrcf: u8,
    pll_diva: u8,
    pll_mula: u16,
    mckr_css: u8,
    mckr_pres: u8,
    pcer0: u32,
    pcer1: u32,
    waits_left: u32,
}

impl SimPmc {
    /// How many more ready or lock waits the simulated hardware will satisfy.
    pub closed spec fn wait_budget_spec(&self) -> u32 {
        self.waits_left
    }

    /// Whether the simulated hardware still asserts its ready and lock bits.
    pub open spec fn responsive_spec(&self) -> bool {
        self.wait_budget_spec() > 0
    }

    /// A controller fresh out of reset: the oscillator reports the given
    /// frequency class and every other modelled register field is zero. A
    /// responsive controller satisfies every wait; an unresponsive one none.
    pub fn new(moscrcf: u8, responsive: bool) -> (r: SimPmc)
        ensures
            r.state() == (PmcState {
                moscrcf: moscrcf,
                pll_diva: 0,
                pll_mula: 0,
                mckr_css: 0,
                mckr_pres: 0,
                pcer0: 0,
                pcer1: 0,
            }),
            r.responsive_spec() == responsive,
    {
        SimPmc::new_with_wait_budget(moscrcf, if responsive { u32::MAX } else { 0 })
    }

    /// A controller fresh out of reset whose hardware satisfies exactly the
    /// given number of ready or lock waits before going silent.
    pub fn new_with_wait_budget(moscrcf: u8, waits: u32) -> (r: SimPmc)
        ensures
            r.state() == (PmcState {
                moscrcf: moscrcf,
                pll_diva: 0,
                pll_mula: 0,
                mckr_css: 0,
                mckr_pres: 0,
                pcer0: 0,
                pcer1: 0,
            }),
            r.wait_budget_spec() == waits,
    {
        SimPmc {
            moscrcf,
            pll_diva: 0,
            pll_mula: 0,
            mckr_css: 0,
            mckr_pres: 0,
            pcer0: 0,
            pcer1: 0,
            waits_left: waits,
        }
    }

    /// Reads back the modelled register contents.
    pub fn snapshot(&self) -> (r: PmcState)
        ensures
            r == self.state(),
    {
        PmcState {
            moscrcf: self.moscrcf,
            pll_diva: self.pll_diva,
            pll_mula: self.pll_mula,
            mckr_css: self.mckr_css,
            mckr_pres: self.mckr_pres,
            pcer0: self.pcer0,
            pcer1: self.pcer1,
        }
    }
}

impl PmcHw for SimPmc {
    closed spec fn state(&self) -> PmcState {
        PmcState {
            moscrcf: self.moscrcf,
            pll_diva: self.pll_diva,
            pll_mula: self.pll_mula,
            mckr_css: self.mckr_css,
            mckr_pres: self.mckr_pres,
            pcer0: self.pcer0,
            pcer1: self.pcer1,
        }
    }

    fn read_main_osc_class(&self) -> u8 {
        self.moscrcf
    }

    fn write_pll(&mut self, diva: u8, mula: u16) {
        self.pll_diva = diva;
        self.pll_mula = mula;
    }

    fn wait_pll_lock(&mut self) -> bool {
        if self.waits_left > 0 {
            self.waits_left = self.waits_left - 1;
            true
        } else {
            false
        }
    }

    fn write_mck_source(&mut self, css: u8) {
        self.mckr_css = css;
    }

    fn write_mck_prescaler(&mut self, pres: u8) {
        self.mckr_pres = pres;
    }

    fn wait_mck_ready(&mut self) -> bool {
        if self.waits_left > 0 {
            self.waits_left = self.waits_left - 1;
            true
        } else {
            false
        }
    }

    fn set_enable0(&mut self, mask: u32) {
        self.pcer0 = self.pcer0 | mask;
    }

    fn set_disable0(&mut self, mask: u32) {
        self.pcer0 = self.pcer0 & !mask;
    }

    fn read_status0(&self) -> u32 {
        self.pcer0
    }

    fn set_enable1(&mut self, mask: u32) {
        self.pcer1 = self.pcer1 | mask;
    }

    fn set_disable1(&mut self, mask: u32) {
        self.pcer1 = self.pcer1 & !mask;
    }

    fn read_status1(&self) -> u32 {
        self.pcer1
    }
}

} // verus!
