//! Field-level model of the memory controller's register block.
//!
//! The vendor fixes only the field semantics, not a packing this crate
//! would depend on, so each register is held as a struct of its fields and
//! every write is stated field by field. The status register doubles as
//! the model of the controller's busy behaviour: it reports busy for a
//! bounded number of further polls and counts the polls it has served, so
//! the busy-wait's contract can speak of how often it polled.

use vstd::prelude::*;

verus! {

/// Memory data-bus width code (`MWID`).
#[allow(non_camel_case_types)]
#[derive(Clone, Copy, PartialEq, Eq, Structural, Debug)]
pub enum MWID_A {
    BITS8,
    BITS16,
    BITS32,
}

/// Column address bit count code (`NC`).
#[allow(non_camel_case_types)]
#[derive(Clone, Copy, PartialEq, Eq, Structural, Debug)]
pub enum NC_A {
    BITS8,
    BITS9,
    BITS10,
    BITS11,
}

/// Row address bit count code (`NR`).
#[allow(non_camel_case_types)]
#[derive(Clone, Copy, PartialEq, Eq, Structural, Debug)]
pub enum NR_A {
    BITS11,
    BITS12,
    BITS13,
}

/// Internal bank count of the SDRAM chip (`NB`).
#[allow(non_camel_case_types)]
#[derive(Clone, Copy, PartialEq, Eq, Structural, Debug)]
pub enum NB_A {
    NB2,
    NB4,
}

/// CAS latency in controller clock cycles (`CAS`).
#[allow(non_camel_case_types)]
#[derive(Clone, Copy, PartialEq, Eq, Structural, Debug)]
pub enum CAS_A {
    CLOCKS1,
    CLOCKS2,
    CLOCKS3,
}

/// SDRAM clock divisor (`SDCLK`): disabled, or the system clock over 2 or 3.
#[allow(non_camel_case_types)]
#[derive(Clone, Copy, PartialEq, Eq, Structural, Debug)]
pub enum SDCLK_A {
    DISABLED,
    DIV2,
    DIV3,
}

/// Read-pipe delay in controller clock cycles (`RPIPE`).
#[allow(non_camel_case_types)]
#[derive(Clone, Copy, PartialEq, Eq, Structural, Debug)]
pub enum RPIPE_A {
    NODELAY,
    CLOCKS1,
    CLOCKS2,
}

/// Command mode written to the command register (`MODE`).
#[allow(non_camel_case_types)]
#[derive(Clone, Copy, PartialEq, Eq, Structural, Debug)]
pub enum MODE_AW {
    NORMAL,
    CLOCKCONFIGURATIONENABLE,
    PALL,
    AUTOREFRESHCOMMAND,
    LOADMODEREGISTER,
    SELFREFRESHCOMMAND,
    POWERDOWNCOMMAND,
}

/// An SDRAM control register (one per bank).
#[derive(Clone, Copy, PartialEq, Eq, Structural, Debug)]
pub struct SDCR {
    pub sdclk: SDCLK_A,
    pub rburst: bool,
    pub rpipe: RPIPE_A,
    pub nc: NC_A,
    pub nr: NR_A,
    pub mwid: MWID_A,
    pub nb: NB_A,
    pub cas: CAS_A,
    pub wp: bool,
}

impl SDCR {
    /// The same register with only the write-protection bit changed.
    pub open spec fn with_wp(self, wp: bool) -> SDCR {
        SDCR {
            sdclk: self.sdclk,
            rburst: self.rburst,
            rpipe: self.rpipe,
            nc: self.nc,
            nr: self.nr,
            mwid: self.mwid,
            nb: self.nb,
            cas: self.cas,
            wp,
        }
    }

    /// A control register with every field at its lowest setting, the state
    /// a whole-register write leaves in the fields it does not name.
    pub fn cleared() -> (r: SDCR)
        ensures
            r == (SDCR {
                sdclk: SDCLK_A::DISABLED,
                rburst: false,
                rpipe: RPIPE_A::NODELAY,
                nc: NC_A::BITS8,
                nr: NR_A::BITS11,
                mwid: MWID_A::BITS8,
                nb: NB_A::NB2,
                cas: CAS_A::CLOCKS1,
                wp: false,
            }),
    {
        SDCR {
            sdclk: SDCLK_A::DISABLED,
            rburst: false,
            rpipe: RPIPE_A::NODELAY,
            nc: NC_A::BITS8,
            nr: NR_A::BITS11,
            mwid: MWID_A::BITS8,
            nb: NB_A::NB2,
            cas: CAS_A::CLOCKS1,
            wp: false,
        }
    }
}

/// An SDRAM timing register (one per bank). Every field holds a delay in
/// controller clock cycles, biased by minus one: a stored 0 means one cycle.
#[derive(Clone, Copy, PartialEq, Eq, Structural, Debug)]
pub struct SDTR {
    pub tmrd: u8,
    pub txsr: u8,
    pub tras: u8,
    pub trc: u8,
    pub twr: u8,
    pub trp: u8,
    pub trcd: u8,
}

impl SDTR {
    /// A timing register with every field zero (one cycle each).
    pub fn cleared() -> (r: SDTR)
        ensures
            r == (SDTR { tmrd: 0, txsr: 0, tras: 0, trc: 0, twr: 0, trp: 0, trcd: 0 }),
    {
        SDTR { tmrd: 0, txsr: 0, tras: 0, trc: 0, twr: 0, trp: 0, trcd: 0 }
    }
}

/// The SDRAM command register: mode, the two target-bank flags, the one-shot
/// auto-refresh count and the mode-register payload handed to the chip.
#[derive(Clone, Copy, PartialEq, Eq, Structural, Debug)]
pub struct SDCMR {
    pub mode: MODE_AW,
    pub ctb1: bool,
    pub ctb2: bool,
    pub nrfs: u8,
    pub mrd: u16,
}

impl SDCMR {
    /// The same register with only the auto-refresh count changed.
    pub open spec fn with_nrfs(self, nrfs: u8) -> SDCMR {
        SDCMR { mode: self.mode, ctb1: self.ctb1, ctb2: self.ctb2, nrfs, mrd: self.mrd }
    }

    /// A command register holding the idle mode and no target banks.
    pub fn cleared() -> (r: SDCMR)
        ensures
            r == (SDCMR { mode: MODE_AW::NORMAL, ctb1: false, ctb2: false, nrfs: 0, mrd: 0 }),
    {
        SDCMR { mode: MODE_AW::NORMAL, ctb1: false, ctb2: false, nrfs: 0, mrd: 0 }
    }
}

/// The SDRAM status register, modelling the controller's busy flag.
///
/// The controller stays busy for a bounded time after each command;
/// `busy_reads_left` is how many further polls will still find the busy
/// flag set, and `reads` counts every poll served, so contracts can state
/// exactly how often a busy-wait polled.
#[derive(Clone, Copy, PartialEq, Eq, Structural, Debug)]
pub struct SDSR {
    pub busy_reads_left: u32,
    pub reads: u64,
}

impl SDSR {
    /// Reads the busy flag once: reports whether the controller was still
    /// busy, and uses up one of the remaining busy reads.
    pub fn poll_busy(&mut self) -> (busy: bool)
        requires
            old(self).reads < u64::MAX,
        ensures
            final(self).reads == old(self).reads + 1,
            busy == (old(self).busy_reads_left > 0),
            final(self).busy_reads_left == if old(self).busy_reads_left > 0 {
                (old(self).busy_reads_left - 1) as u32
            } else {
                0u32
            },
    {
        self.reads = self.reads + 1;
        if self.busy_reads_left > 0 {
            self.busy_reads_left = self.busy_reads_left - 1;
            true
        } else {
            false
        }
    }

    /// A status register of an idle controller that has not been polled.
    pub fn cleared() -> (r: SDSR)
        ensures
            r == (SDSR { busy_reads_left: 0, reads: 0 }),
    {
        SDSR { busy_reads_left: 0, reads: 0 }
    }
}

/// The SDRAM refresh-timer register: the free-running auto-refresh interval
/// in controller clock cycles (a 13-bit count).
#[derive(Clone, Copy, PartialEq, Eq, Structural, Debug)]
pub struct SDRTR {
    pub count: u16,
}

impl SDRTR {
    /// A refresh-timer register with the timer off.
    pub fn cleared() -> (r: SDRTR)
        ensures
            r == (SDRTR { count: 0 }),
    {
        SDRTR { count: 0 }
    }
}

/// The controller's register block: a control and a timing register per
/// bank, the command, status and refresh-timer registers, and the
/// peripheral's clock gate.
#[derive(Clone, Copy, PartialEq, Eq, Structural, Debug)]
pub struct FMC {
    pub sdcr1: SDCR,
    pub sdcr2: SDCR,
    pub sdtr1: SDTR,
    pub sdtr2: SDTR,
    pub sdcmr: SDCMR,
    pub sdsr: SDSR,
    pub sdrtr: SDRTR,
    pub clock_enabled: bool,
}

impl FMC {
    /// A register block with every register cleared and the peripheral
    /// clock gate closed.
    pub fn at_reset() -> (r: FMC)
        ensures
            r.sdcr1 == (SDCR {
                sdclk: SDCLK_A::DISABLED,
                rburst: false,
                rpipe: RPIPE_A::NODELAY,
                nc: NC_A::BITS8,
                nr: NR_A::BITS11,
                mwid: MWID_A::BITS8,
                nb: NB_A::NB2,
                cas: CAS_A::CLOCKS1,
                wp: false,
            }),
            r.sdcr2 == r.sdcr1,
            r.sdtr1 == (SDTR { tmrd: 0, txsr: 0, tras: 0, trc: 0, twr: 0, trp: 0, trcd: 0 }),
            r.sdtr2 == (SDTR { tmrd: 0, txsr: 0, tras: 0, trc: 0, twr: 0, trp: 0, trcd: 0 }),
            r.sdcmr == (SDCMR { mode: MODE_AW::NORMAL, ctb1: false, ctb2: false, nrfs: 0, mrd: 0 }),
            r.sdsr == (SDSR { busy_reads_left: 0, reads: 0 }),
            r.sdrtr == (SDRTR { count: 0 }),
            !r.clock_enabled,
    {
        FMC {
            sdcr1: SDCR::cleared(),
            sdcr2: SDCR::cleared(),
            sdtr1: SDTR::cleared(),
            sdtr2: SDTR::cleared(),
            sdcmr: SDCMR::cleared(),
            sdsr: SDSR::cleared(),
            sdrtr: SDRTR::cleared(),
            clock_enabled: false,
        }
    }
}

} // verus!
