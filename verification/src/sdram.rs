//! Configuration of the controller's SDRAM interface and the handle that
//! drives it.
//!
//! A declarative [`SDRAMConfig`] is consumed once by [`SDRAMConfig::configure`],
//! which prepares every pin group, programs the control and timing registers
//! with their bank-dependent routing, and returns an [`SDRAM`] handle owning
//! the register block. The handle issues commands synchronously, waiting for
//! the controller's busy flag to clear, and computes the bank's flat memory
//! view.

use vstd::prelude::*;

use crate::buses::{SDRAMAddressBus, SDRAMDataBus};
use crate::pins::{role_allows, Pin, RolePin, SignalRole};
use crate::registers::{CAS_A, FMC, MODE_AW, NB_A, NC_A, NR_A, RPIPE_A, SDCLK_A, SDCMR, SDCR, SDRTR,
    SDSR, SDTR};

verus! {

/// Which of the controller's two memory banks is being configured.
/// Derived from which clock-enable/chip-select pin pair was supplied,
/// never chosen directly.
#[derive(Debug, Copy, Clone, Eq, PartialEq, Structural)]
pub enum SDRAMInternalBankSelection {
    Bank1,
    Bank2,
}

/// The byte-enable lines supplied with a data bus: none, or lines 0..n each
/// on the one pin that can serve it.
pub trait ByteEnable: Sized {
    /// The constituent pins, lowest byte-enable line first.
    spec fn pins(&self) -> Seq<Pin>;

    /// Every pin sits on the byte-enable line it can serve.
    spec fn wf(&self) -> bool;

    /// Configures every constituent pin for controller use.
    fn prepare_pins(self) -> (r: Self)
        requires
            self.wf(),
        ensures
            r.wf(),
            r.pins().len() == self.pins().len(),
            forall|i: int|
                0 <= i < self.pins().len() ==> r.pins()[i] == (#[trigger] self.pins()[i]).prepared(),
    ;
}

/// No byte-enable lines at all.
impl ByteEnable for () {
    open spec fn pins(&self) -> Seq<Pin> {
        Seq::empty()
    }

    open spec fn wf(&self) -> bool {
        true
    }

    fn prepare_pins(self) -> Self {
        ()
    }
}

/// The bank-select lines supplied with the address bus; how many there are
/// fixes the SDRAM chip's internal bank count.
pub trait BankAccess: Sized {
    /// The internal bank count the supplied lines allow.
    spec fn spec_banks() -> NB_A;

    /// The constituent pins, lowest bank-select line first.
    spec fn pins(&self) -> Seq<Pin>;

    /// Every pin sits on the bank-select line it can serve.
    spec fn wf(&self) -> bool;

    /// The internal bank count the supplied lines allow.
    fn number_of_banks() -> (n: NB_A)
        ensures
            n == Self::spec_banks(),
    ;

    /// Configures every constituent pin for controller use.
    fn prepare_pins(self) -> (r: Self)
        requires
            self.wf(),
        ensures
            r.wf(),
            r.pins().len() == self.pins().len(),
            forall|i: int|
                0 <= i < self.pins().len() ==> r.pins()[i] == (#[trigger] self.pins()[i]).prepared(),
    ;
}

/// The clock-enable/chip-select pin pair that picks the memory bank. The
/// pair fixes the bank: it is the single source of truth threaded through
/// the rest of configuration.
pub trait SDRAMClockAndChipEnable: Sized {
    /// The bank the supplied pin pair wires up.
    spec fn spec_bank() -> SDRAMInternalBankSelection;

    /// The clock-enable pin followed by the chip-select pin.
    spec fn pins(&self) -> Seq<Pin>;

    /// Both pins can serve their role for the selected bank.
    spec fn wf(&self) -> bool;

    /// The bank the supplied pin pair wires up.
    fn sdram_bank_selection() -> (b: SDRAMInternalBankSelection)
        ensures
            b == Self::spec_bank(),
    ;

    /// Configures both pins for controller use.
    fn prepare_pins(self) -> (r: Self)
        requires
            self.wf(),
        ensures
            r.wf(),
            r.pins().len() == self.pins().len(),
            forall|i: int|
                0 <= i < self.pins().len() ==> r.pins()[i] == (#[trigger] self.pins()[i]).prepared(),
    ;
}

/// The pin pair selecting the first memory bank.
pub struct UseSDRAMBank1 {
    clock_enable: Pin,
    chip_select: Pin,
}

impl UseSDRAMBank1 {
    /// Binds a clock-enable and a chip-select pin for the first bank,
    /// rejecting pins outside the capability relation.
    pub fn new(clock_enable: Pin, chip_select: Pin) -> (r: Option<UseSDRAMBank1>)
        ensures
            r is Some <==> (role_allows(SignalRole::ClockEnable(0), clock_enable.id)
                && role_allows(SignalRole::ChipSelect(0), chip_select.id)),
            r matches Some(c) ==> c.wf() && c.pins().len() == 2 && c.pins()[0] == clock_enable
                && c.pins()[1] == chip_select,
    {
        let cke = RolePin::new(SignalRole::ClockEnable(0), clock_enable);
        let ncs = RolePin::new(SignalRole::ChipSelect(0), chip_select);
        if cke.is_some() && ncs.is_some() {
            Some(UseSDRAMBank1 { clock_enable, chip_select })
        } else {
            None
        }
    }
}

impl SDRAMClockAndChipEnable for UseSDRAMBank1 {
    open spec fn spec_bank() -> SDRAMInternalBankSelection {
        SDRAMInternalBankSelection::Bank1
    }

    closed spec fn pins(&self) -> Seq<Pin> {
        seq![self.clock_enable, self.chip_select]
    }

    closed spec fn wf(&self) -> bool {
        &&& role_allows(SignalRole::ClockEnable(0), self.clock_enable.id)
        &&& role_allows(SignalRole::ChipSelect(0), self.chip_select.id)
    }

    fn sdram_bank_selection() -> SDRAMInternalBankSelection {
        SDRAMInternalBankSelection::Bank1
    }

    fn prepare_pins(self) -> Self {
        let r = UseSDRAMBank1 {
            clock_enable: self.clock_enable.prepare(),
            chip_select: self.chip_select.prepare(),
        };
        proof {
            assert(r.pins()[0] == self.pins()[0].prepared());
            assert(r.pins()[1] == self.pins()[1].prepared());
        }
        r
    }
}

/// The pin pair selecting the second memory bank.
pub struct UseSDRAMBank2 {
    clock_enable: Pin,
    chip_select: Pin,
}

impl UseSDRAMBank2 {
    /// Binds a clock-enable and a chip-select pin for the second bank,
    /// rejecting pins outside the capability relation.
    pub fn new(clock_enable: Pin, chip_select: Pin) -> (r: Option<UseSDRAMBank2>)
        ensures
            r is Some <==> (role_allows(SignalRole::ClockEnable(1), clock_enable.id)
                && role_allows(SignalRole::ChipSelect(1), chip_select.id)),
            r matches Some(c) ==> c.wf() && c.pins().len() == 2 && c.pins()[0] == clock_enable
                && c.pins()[1] == chip_select,
    {
        let cke = RolePin::new(SignalRole::ClockEnable(1), clock_enable);
        let ncs = RolePin::new(SignalRole::ChipSelect(1), chip_select);
        if cke.is_some() && ncs.is_some() {
            Some(UseSDRAMBank2 { clock_enable, chip_select })
        } else {
            None
        }
    }
}

impl SDRAMClockAndChipEnable for UseSDRAMBank2 {
    open spec fn spec_bank() -> SDRAMInternalBankSelection {
        SDRAMInternalBankSelection::Bank2
    }

    closed spec fn pins(&self) -> Seq<Pin> {
        seq![self.clock_enable, self.chip_select]
    }

    closed spec fn wf(&self) -> bool {
        &&& role_allows(SignalRole::ClockEnable(1), self.clock_enable.id)
        &&& role_allows(SignalRole::ChipSelect(1), self.chip_select.id)
    }

    fn sdram_bank_selection() -> SDRAMInternalBankSelection {
        SDRAMInternalBankSelection::Bank2
    }

    fn prepare_pins(self) -> Self {
        let r = UseSDRAMBank2 {
            clock_enable: self.clock_enable.prepare(),
            chip_select: self.chip_select.prepare(),
        };
        proof {
            assert(r.pins()[0] == self.pins()[0].prepared());
            assert(r.pins()[1] == self.pins()[1].prepared());
        }
        r
    }
}

/// Only bank-select line 0 is wired: the chip exposes two internal banks.
pub struct BankAddress0 {
    pin: Pin,
}

impl BankAddress0 {
    /// Binds the single bank-select pin, rejecting any other pin.
    pub fn new(pin: Pin) -> (r: Option<BankAddress0>)
        ensures
            r is Some <==> role_allows(SignalRole::BankSelect(0), pin.id),
            r matches Some(b) ==> b.wf() && b.pins().len() == 1 && b.pins()[0] == pin,
    {
        let ba = RolePin::new(SignalRole::BankSelect(0), pin);
        if ba.is_some() {
            Some(BankAddress0 { pin })
        } else {
            None
        }
    }
}

impl BankAccess for BankAddress0 {
    open spec fn spec_banks() -> NB_A {
        NB_A::NB2
    }

    closed spec fn pins(&self) -> Seq<Pin> {
        seq![self.pin]
    }

    closed spec fn wf(&self) -> bool {
        role_allows(SignalRole::BankSelect(0), self.pin.id)
    }

    fn number_of_banks() -> NB_A {
        NB_A::NB2
    }

    fn prepare_pins(self) -> Self {
        let r = BankAddress0 { pin: self.pin.prepare() };
        proof {
            assert(r.pins()[0] == self.pins()[0].prepared());
        }
        r
    }
}

/// Both bank-select lines are wired: the chip exposes four internal banks.
pub struct BankAddressPair {
    ba0: Pin,
    ba1: Pin,
}

impl BankAddressPair {
    /// Binds both bank-select pins, rejecting any pin on the wrong line.
    pub fn new(ba0: Pin, ba1: Pin) -> (r: Option<BankAddressPair>)
        ensures
            r is Some <==> (role_allows(SignalRole::BankSelect(0), ba0.id) && role_allows(
                SignalRole::BankSelect(1),
                ba1.id,
            )),
            r matches Some(b) ==> b.wf() && b.pins().len() == 2 && b.pins()[0] == ba0
                && b.pins()[1] == ba1,
    {
        let p0 = RolePin::new(SignalRole::BankSelect(0), ba0);
        let p1 = RolePin::new(SignalRole::BankSelect(1), ba1);
        if p0.is_some() && p1.is_some() {
            Some(BankAddressPair { ba0, ba1 })
        } else {
            None
        }
    }
}

impl BankAccess for BankAddressPair {
    open spec fn spec_banks() -> NB_A {
        NB_A::NB4
    }

    closed spec fn pins(&self) -> Seq<Pin> {
        seq![self.ba0, self.ba1]
    }

    closed spec fn wf(&self) -> bool {
        &&& role_allows(SignalRole::BankSelect(0), self.ba0.id)
        &&& role_allows(SignalRole::BankSelect(1), self.ba1.id)
    }

    fn number_of_banks() -> NB_A {
        NB_A::NB4
    }

    fn prepare_pins(self) -> Self {
        let r = BankAddressPair { ba0: self.ba0.prepare(), ba1: self.ba1.prepare() };
        proof {
            assert(r.pins()[0] == self.pins()[0].prepared());
            assert(r.pins()[1] == self.pins()[1].prepared());
        }
        r
    }
}

/// The byte-enable lines matching a data bus: lines 0..=1 for a 16-bit bus,
/// 0..=3 for a 32-bit bus.
pub struct ByteEnablePins {
    pins: Vec<Pin>,
}

impl ByteEnablePins {
    /// Binds two or four byte-enable pins, lowest line first, rejecting any
    /// other count and any pin on the wrong line.
    pub fn new(pins: Vec<Pin>) -> (r: Option<ByteEnablePins>)
        ensures
            r is Some <==> ((pins@.len() == 2 || pins@.len() == 4) && (forall|i: int|
                0 <= i < pins@.len() ==> (#[trigger] pins@[i]).id
                    == crate::pins::byte_enable_id(i))),
            r matches Some(b) ==> b.wf() && b.pins() == pins@,
    {
        let n = pins.len();
        if !(n == 2 || n == 4) {
            return None;
        }
        let mut i: usize = 0;
        while i < n
            invariant
                i <= n,
                n == pins@.len(),
                n == 2 || n == 4,
                forall|j: int|
                    0 <= j < i ==> (#[trigger] pins@[j]).id == crate::pins::byte_enable_id(j),
            decreases n - i,
        {
            if !(pins[i].id == crate::pins::byte_enable_pin(i as u8)) {
                return None;
            }
            i = i + 1;
        }
        Some(ByteEnablePins { pins })
    }
}

impl ByteEnable for ByteEnablePins {
    closed spec fn pins(&self) -> Seq<Pin> {
        self.pins@
    }

    open spec fn wf(&self) -> bool {
        &&& self.pins().len() == 2 || self.pins().len() == 4
        &&& forall|i: int|
            0 <= i < self.pins().len() ==> (#[trigger] self.pins()[i]).id
                == crate::pins::byte_enable_id(i)
    }

    fn prepare_pins(self) -> Self {
        let r = ByteEnablePins { pins: crate::pins::prepare_all(self.pins) };
        proof {
            assert forall|i: int|
                0 <= i < r.pins().len() implies (#[trigger] r.pins()[i]).id
                == crate::pins::byte_enable_id(i) by {
                assert(r.pins()[i] == self.pins()[i].prepared());
            }
        }
        r
    }
}

/// Timing parameters of the SDRAM chip, each in controller clock cycles.
/// The register programmer stores every delay biased by minus one, so every
/// field except the CAS latency must be at least 1.
#[derive(Clone, Copy, PartialEq, Eq, Structural, Debug)]
pub struct SDRAMTiming {
    /// Cycles between a read command and valid data.
    pub cas_latency: CAS_A,
    /// Load-mode-register command to active command delay.
    pub t_mrd: u8,
    /// Exit-self-refresh to active command delay.
    pub t_xsr: u8,
    /// Self-refresh time.
    pub t_ras: u8,
    /// Active-to-active command period.
    pub t_rc: u8,
    /// Write recovery time.
    pub t_wr: u8,
    /// Precharge command period.
    pub t_rp: u8,
    /// Active-to-read-or-write delay.
    pub t_rcd: u8,
}

impl SDRAMTiming {
    /// Every biased delay is at least one cycle, so storing `value - 1`
    /// cannot underflow.
    pub open spec fn wf(&self) -> bool {
        &&& self.t_mrd >= 1
        &&& self.t_xsr >= 1
        &&& self.t_ras >= 1
        &&& self.t_rc >= 1
        &&& self.t_wr >= 1
        &&& self.t_rp >= 1
        &&& self.t_rcd >= 1
    }

    /// Decides at run time whether the timing set can be programmed.
    pub fn is_valid(&self) -> (b: bool)
        ensures
            b == self.wf(),
    {
        self.t_mrd >= 1 && self.t_xsr >= 1 && self.t_ras >= 1 && self.t_rc >= 1 && self.t_wr >= 1
            && self.t_rp >= 1 && self.t_rcd >= 1
    }
}

/// Declarative description of an SDRAM interface, consumed once by
/// [`SDRAMConfig::configure`].
pub struct SDRAMConfig {
    pub address_bus: SDRAMAddressBus,
    pub data_bus: SDRAMDataBus,
    pub number_of_column_bits: NC_A,
    pub number_of_row_bits: NR_A,
    pub sdclk_period: SDCLK_A,
    pub rpipe_delay: RPIPE_A,
    pub write_protection: bool,
    pub read_burst: bool,
    pub timing: SDRAMTiming,
}

impl SDRAMConfig {
    /// The control-register image this configuration asks for, given the
    /// internal bank count `nb`.
    pub open spec fn control_fields(&self, nb: NB_A) -> SDCR {
        SDCR {
            sdclk: self.sdclk_period,
            rburst: self.read_burst,
            rpipe: self.rpipe_delay,
            nc: self.number_of_column_bits,
            nr: self.number_of_row_bits,
            mwid: self.data_bus.spec_mwid(),
            nb,
            cas: self.timing.cas_latency,
            wp: self.write_protection,
        }
    }

    /// The timing-register image this configuration asks for: every delay
    /// stored biased by minus one.
    pub open spec fn timing_fields(&self) -> SDTR {
        SDTR {
            tmrd: (self.timing.t_mrd - 1) as u8,
            txsr: (self.timing.t_xsr - 1) as u8,
            tras: (self.timing.t_ras - 1) as u8,
            trc: (self.timing.t_rc - 1) as u8,
            twr: (self.timing.t_wr - 1) as u8,
            trp: (self.timing.t_rp - 1) as u8,
            trcd: (self.timing.t_rcd - 1) as u8,
        }
    }

    /// Writes the control-register fields with their bank-dependent
    /// routing: targeting bank 1 fills the first bank's control register in
    /// one write; targeting bank 2 leaves the clock divisor, read-burst
    /// flag and read-pipe delay in the first bank's register (the hardware
    /// shares them across both banks) and writes everything else into the
    /// second bank's register, whose shared fields are cleared.
    pub fn configure_sdcr<CCE: SDRAMClockAndChipEnable, BA: BankAccess>(&self, fmc: FMC) -> (r: FMC)
        ensures
            CCE::spec_bank() == SDRAMInternalBankSelection::Bank1 ==> r.sdcr1
                == self.control_fields(BA::spec_banks()) && r.sdcr2 == fmc.sdcr2,
            CCE::spec_bank() == SDRAMInternalBankSelection::Bank2 ==> r.sdcr1 == (SDCR {
                sdclk: self.sdclk_period,
                rburst: self.read_burst,
                rpipe: self.rpipe_delay,
                nc: fmc.sdcr1.nc,
                nr: fmc.sdcr1.nr,
                mwid: fmc.sdcr1.mwid,
                nb: fmc.sdcr1.nb,
                cas: fmc.sdcr1.cas,
                wp: fmc.sdcr1.wp,
            }) && r.sdcr2 == (SDCR {
                sdclk: SDCLK_A::DISABLED,
                rburst: false,
                rpipe: RPIPE_A::NODELAY,
                nc: self.number_of_column_bits,
                nr: self.number_of_row_bits,
                mwid: self.data_bus.spec_mwid(),
                nb: BA::spec_banks(),
                cas: self.timing.cas_latency,
                wp: self.write_protection,
            }),
            r.sdtr1 == fmc.sdtr1,
            r.sdtr2 == fmc.sdtr2,
            r.sdcmr == fmc.sdcmr,
            r.sdsr == fmc.sdsr,
            r.sdrtr == fmc.sdrtr,
            r.clock_enabled == fmc.clock_enabled,
    {
        let mut fmc = fmc;
        let mwid = self.data_bus.mwid();
        let nb = BA::number_of_banks();
        match CCE::sdram_bank_selection() {
            SDRAMInternalBankSelection::Bank1 => {
                fmc.sdcr1 = SDCR {
                    sdclk: self.sdclk_period,
                    rburst: self.read_burst,
                    rpipe: self.rpipe_delay,
                    nc: self.number_of_column_bits,
                    nr: self.number_of_row_bits,
                    mwid,
                    nb,
                    cas: self.timing.cas_latency,
                    wp: self.write_protection,
                };
            },
            SDRAMInternalBankSelection::Bank2 => {
                fmc.sdcr1.sdclk = self.sdclk_period;
                fmc.sdcr1.rburst = self.read_burst;
                fmc.sdcr1.rpipe = self.rpipe_delay;
                fmc.sdcr2 = SDCR {
                    sdclk: SDCLK_A::DISABLED,
                    rburst: false,
                    rpipe: RPIPE_A::NODELAY,
                    nc: self.number_of_column_bits,
                    nr: self.number_of_row_bits,
                    mwid,
                    nb,
                    cas: self.timing.cas_latency,
                    wp: self.write_protection,
                };
            },
        }
        fmc
    }

    /// Writes the timing-register fields, each biased by minus one, with
    /// their bank-dependent routing: targeting bank 1 fills the first
    /// bank's timing register in one write; targeting bank 2 leaves the
    /// row-cycle and row-precharge delays in the first bank's register (the
    /// hardware shares them across both banks) and writes the other five
    /// delays into the second bank's register, whose shared fields are
    /// cleared.
    pub fn configure_sdtr<CCE: SDRAMClockAndChipEnable>(&self, fmc: FMC) -> (r: FMC)
        requires
            self.timing.wf(),
        ensures
            CCE::spec_bank() == SDRAMInternalBankSelection::Bank1 ==> r.sdtr1
                == self.timing_fields() && r.sdtr2 == fmc.sdtr2,
            CCE::spec_bank() == SDRAMInternalBankSelection::Bank2 ==> r.sdtr1 == (SDTR {
                trc: (self.timing.t_rc - 1) as u8,
                trp: (self.timing.t_rp - 1) as u8,
                tmrd: fmc.sdtr1.tmrd,
                txsr: fmc.sdtr1.txsr,
                tras: fmc.sdtr1.tras,
                twr: fmc.sdtr1.twr,
                trcd: fmc.sdtr1.trcd,
            }) && r.sdtr2 == (SDTR {
                tmrd: (self.timing.t_mrd - 1) as u8,
                txsr: (self.timing.t_xsr - 1) as u8,
                tras: (self.timing.t_ras - 1) as u8,
                twr: (self.timing.t_wr - 1) as u8,
                trcd: (self.timing.t_rcd - 1) as u8,
                trc: 0,
                trp: 0,
            }),
            r.sdcr1 == fmc.sdcr1,
            r.sdcr2 == fmc.sdcr2,
            r.sdcmr == fmc.sdcmr,
            r.sdsr == fmc.sdsr,
            r.sdrtr == fmc.sdrtr,
            r.clock_enabled == fmc.clock_enabled,
    {
        let mut fmc = fmc;
        match CCE::sdram_bank_selection() {
            SDRAMInternalBankSelection::Bank1 => {
                fmc.sdtr1 = SDTR {
                    tmrd: self.timing.t_mrd - 1,
                    txsr: self.timing.t_xsr - 1,
                    tras: self.timing.t_ras - 1,
                    trc: self.timing.t_rc - 1,
                    twr: self.timing.t_wr - 1,
                    trp: self.timing.t_rp - 1,
                    trcd: self.timing.t_rcd - 1,
                };
            },
            SDRAMInternalBankSelection::Bank2 => {
                fmc.sdtr1.trc = self.timing.t_rc - 1;
                fmc.sdtr1.trp = self.timing.t_rp - 1;
                fmc.sdtr2 = SDTR {
                    tmrd: self.timing.t_mrd - 1,
                    txsr: self.timing.t_xsr - 1,
                    tras: self.timing.t_ras - 1,
                    trc: 0,
                    twr: self.timing.t_wr - 1,
                    trp: 0,
                    trcd: self.timing.t_rcd - 1,
                };
            },
        }
        fmc
    }

    /// Consumes the configuration: opens the controller's peripheral clock
    /// gate, prepares every pin group, programs the control and timing
    /// registers with their bank-dependent routing, and returns the handle
    /// owning the register block, its bank fixed by the supplied
    /// clock-enable/chip-select pair.
    pub fn configure<CCE: SDRAMClockAndChipEnable, TBA: BankAccess, TNBL: ByteEnable>(
        self,
        fmc: FMC,
        bank_access: TBA,
        byte_enable: TNBL,
        sdclk: RolePin,
        sdnras: RolePin,
        sdncas: RolePin,
        clock_and_chip_enable: CCE,
        sdnwe: RolePin,
    ) -> (r: SDRAM)
        requires
            self.timing.wf(),
            self.address_bus.wf(),
            self.data_bus.wf(),
            bank_access.wf(),
            byte_enable.wf(),
            clock_and_chip_enable.wf(),
            sdclk.wf(),
            sdclk.role() == SignalRole::Clock,
            sdnras.wf(),
            sdnras.role() == SignalRole::RowStrobe,
            sdncas.wf(),
            sdncas.role() == SignalRole::ColumnStrobe,
            sdnwe.wf(),
            sdnwe.role() == SignalRole::WriteEnable,
        ensures
            r.bank() == CCE::spec_bank(),
            r.regs().clock_enabled,
            CCE::spec_bank() == SDRAMInternalBankSelection::Bank1 ==> r.regs().sdcr1
                == self.control_fields(TBA::spec_banks()) && r.regs().sdcr2 == fmc.sdcr2
                && r.regs().sdtr1 == self.timing_fields() && r.regs().sdtr2 == fmc.sdtr2,
            CCE::spec_bank() == SDRAMInternalBankSelection::Bank2 ==> r.regs().sdcr1 == (SDCR {
                sdclk: self.sdclk_period,
                rburst: self.read_burst,
                rpipe: self.rpipe_delay,
                nc: fmc.sdcr1.nc,
                nr: fmc.sdcr1.nr,
                mwid: fmc.sdcr1.mwid,
                nb: fmc.sdcr1.nb,
                cas: fmc.sdcr1.cas,
                wp: fmc.sdcr1.wp,
            }) && r.regs().sdcr2 == (SDCR {
                sdclk: SDCLK_A::DISABLED,
                rburst: false,
                rpipe: RPIPE_A::NODELAY,
                nc: self.number_of_column_bits,
                nr: self.number_of_row_bits,
                mwid: self.data_bus.spec_mwid(),
                nb: TBA::spec_banks(),
                cas: self.timing.cas_latency,
                wp: self.write_protection,
            }) && r.regs().sdtr1 == (SDTR {
                trc: (self.timing.t_rc - 1) as u8,
                trp: (self.timing.t_rp - 1) as u8,
                tmrd: fmc.sdtr1.tmrd,
                txsr: fmc.sdtr1.txsr,
                tras: fmc.sdtr1.tras,
                twr: fmc.sdtr1.twr,
                trcd: fmc.sdtr1.trcd,
            }) && r.regs().sdtr2 == (SDTR {
                tmrd: (self.timing.t_mrd - 1) as u8,
                txsr: (self.timing.t_xsr - 1) as u8,
                tras: (self.timing.t_ras - 1) as u8,
                twr: (self.timing.t_wr - 1) as u8,
                trcd: (self.timing.t_rcd - 1) as u8,
                trc: 0,
                trp: 0,
            }),
            r.regs().sdcmr == fmc.sdcmr,
            r.regs().sdsr == fmc.sdsr,
            r.regs().sdrtr == fmc.sdrtr,
    {
        let mut this = self;
        let mut fmc = fmc;

        // Open the controller's peripheral clock gate (idempotent).
        fmc.clock_enabled = true;

        // Electrical readiness of every pin group must precede the register
        // writes that depend on it.
        this.address_bus = this.address_bus.prepare_pins();
        this.data_bus = this.data_bus.prepare_pins();
        let _bank_access = bank_access.prepare_pins();
        let _byte_enable = byte_enable.prepare_pins();
        let _sdclk = sdclk.prepare_pins();
        let _sdncas = sdncas.prepare_pins();
        let _sdnras = sdnras.prepare_pins();
        let _clock_and_chip_enable = clock_and_chip_enable.prepare_pins();
        let _sdnwe = sdnwe.prepare_pins();

        let fmc = this.configure_sdcr::<CCE, TBA>(fmc);
        let fmc = this.configure_sdtr::<CCE>(fmc);

        SDRAM { bank_selection: CCE::sdram_bank_selection(), fmc }
    }
}

/// Whether a command targets the first bank's flag.
pub open spec fn targets_bank1(t: SDRAMCommandTargetBank) -> bool {
    t == SDRAMCommandTargetBank::Bank1 || t == SDRAMCommandTargetBank::Both
}

/// Whether a command targets the second bank's flag.
pub open spec fn targets_bank2(t: SDRAMCommandTargetBank) -> bool {
    t == SDRAMCommandTargetBank::Bank2 || t == SDRAMCommandTargetBank::Both
}

/// Base physical address of a bank's memory region.
pub open spec fn bank_base_address(bank: SDRAMInternalBankSelection) -> u32 {
    match bank {
        SDRAMInternalBankSelection::Bank1 => 0xA000_0000u32,
        SDRAMInternalBankSelection::Bank2 => 0xD000_0000u32,
    }
}

/// Spin-waits on the busy flag until the controller reports idle. Polls
/// exactly once more than the flag stays busy: the last poll is the one
/// that observes idle.
fn wait_until_idle(status: &mut SDSR)
    requires
        old(status).reads + old(status).busy_reads_left < u64::MAX,
    ensures
        final(status).busy_reads_left == 0,
        final(status).reads == old(status).reads + old(status).busy_reads_left + 1,
{
    let ghost s0 = *status;
    loop
        invariant_except_break
            status.reads + status.busy_reads_left == s0.reads + s0.busy_reads_left,
            status.reads + status.busy_reads_left < u64::MAX,
        ensures
            status.busy_reads_left == 0,
            status.reads == s0.reads + s0.busy_reads_left + 1,
        decreases status.busy_reads_left,
    {
        let busy = status.poll_busy();
        if !busy {
            break;
        }
    }
}

/// An operational handle on the configured SDRAM interface: the fixed bank
/// selection plus exclusive ownership of the controller's register block.
pub struct SDRAM {
    bank_selection: SDRAMInternalBankSelection,
    fmc: FMC,
}

impl SDRAM {
    /// The bank this handle was configured for.
    pub closed spec fn bank(&self) -> SDRAMInternalBankSelection {
        self.bank_selection
    }

    /// The register block the handle owns.
    pub closed spec fn regs(&self) -> FMC {
        self.fmc
    }

    /// The bank this handle was configured for.
    pub fn bank_selection(&self) -> (b: SDRAMInternalBankSelection)
        ensures
            b == self.bank(),
    {
        self.bank_selection
    }

    /// Read access to the owned register block.
    pub fn registers(&self) -> (r: &FMC)
        ensures
            *r == self.regs(),
    {
        &self.fmc
    }

    /// Writes the command's target-bank flags, mode, auto-refresh count and
    /// mode-register payload into the command register in one write, then
    /// spin-waits until the observed busy flag is false; the wait polls the
    /// status register exactly once more than the controller stays busy.
    pub fn send_command(&mut self, cmd: SDRAMCommand)
        requires
            cmd.auto_refresh_number < 16,
            old(self).regs().sdsr.reads + old(self).regs().sdsr.busy_reads_left < u64::MAX,
        ensures
            final(self).bank() == old(self).bank(),
            final(self).regs().sdcmr == (SDCMR {
                mode: cmd.command_mode,
                ctb1: targets_bank1(cmd.target_bank),
                ctb2: targets_bank2(cmd.target_bank),
                nrfs: cmd.auto_refresh_number,
                mrd: cmd.mode_register_definition,
            }),
            final(self).regs().sdsr.busy_reads_left == 0,
            final(self).regs().sdsr.reads == old(self).regs().sdsr.reads + old(
                self,
            ).regs().sdsr.busy_reads_left + 1,
            final(self).regs().sdcr1 == old(self).regs().sdcr1,
            final(self).regs().sdcr2 == old(self).regs().sdcr2,
            final(self).regs().sdtr1 == old(self).regs().sdtr1,
            final(self).regs().sdtr2 == old(self).regs().sdtr2,
            final(self).regs().sdrtr == old(self).regs().sdrtr,
            final(self).regs().clock_enabled == old(self).regs().clock_enabled,
    {
        let (ctb1, ctb2) = match cmd.target_bank {
            SDRAMCommandTargetBank::NoBank => (false, false),
            SDRAMCommandTargetBank::Bank1 => (true, false),
            SDRAMCommandTargetBank::Bank2 => (false, true),
            SDRAMCommandTargetBank::Both => (true, true),
        };
        self.fmc.sdcmr = SDCMR {
            mode: cmd.command_mode,
            ctb1,
            ctb2,
            nrfs: cmd.auto_refresh_number,
            mrd: cmd.mode_register_definition,
        };
        wait_until_idle(&mut self.fmc.sdsr);
    }

    /// Reads the write-protection bit from the control register of the
    /// handle's bank.
    pub fn is_write_protect(&self) -> (wp: bool)
        ensures
            wp == if self.bank() == SDRAMInternalBankSelection::Bank1 {
                self.regs().sdcr1.wp
            } else {
                self.regs().sdcr2.wp
            },
    {
        match self.bank_selection {
            SDRAMInternalBankSelection::Bank1 => self.fmc.sdcr1.wp,
            SDRAMInternalBankSelection::Bank2 => self.fmc.sdcr2.wp,
        }
    }

    /// Sets the write-protection bit in the control register of the
    /// handle's bank, leaving every other field untouched.
    pub fn set_write_protect(&mut self, enabled: bool)
        ensures
            final(self).bank() == old(self).bank(),
            old(self).bank() == SDRAMInternalBankSelection::Bank1 ==> final(self).regs().sdcr1
                == old(self).regs().sdcr1.with_wp(enabled) && final(self).regs().sdcr2 == old(
                self,
            ).regs().sdcr2,
            old(self).bank() == SDRAMInternalBankSelection::Bank2 ==> final(self).regs().sdcr2
                == old(self).regs().sdcr2.with_wp(enabled) && final(self).regs().sdcr1 == old(
                self,
            ).regs().sdcr1,
            final(self).regs().sdtr1 == old(self).regs().sdtr1,
            final(self).regs().sdtr2 == old(self).regs().sdtr2,
            final(self).regs().sdcmr == old(self).regs().sdcmr,
            final(self).regs().sdsr == old(self).regs().sdsr,
            final(self).regs().sdrtr == old(self).regs().sdrtr,
            final(self).regs().clock_enabled == old(self).regs().clock_enabled,
    {
        match self.bank_selection {
            SDRAMInternalBankSelection::Bank1 => {
                self.fmc.sdcr1.wp = enabled;
            },
            SDRAMInternalBankSelection::Bank2 => {
                self.fmc.sdcr2.wp = enabled;
            },
        }
    }

    /// Rewrites the one-shot auto-refresh count in the command register
    /// without issuing a command.
    pub fn set_autorefresh_number(&mut self, nrfs: u8)
        requires
            nrfs < 16,
        ensures
            final(self).bank() == old(self).bank(),
            final(self).regs().sdcmr == old(self).regs().sdcmr.with_nrfs(nrfs),
            final(self).regs().sdcr1 == old(self).regs().sdcr1,
            final(self).regs().sdcr2 == old(self).regs().sdcr2,
            final(self).regs().sdtr1 == old(self).regs().sdtr1,
            final(self).regs().sdtr2 == old(self).regs().sdtr2,
            final(self).regs().sdsr == old(self).regs().sdsr,
            final(self).regs().sdrtr == old(self).regs().sdrtr,
            final(self).regs().clock_enabled == old(self).regs().clock_enabled,
    {
        self.fmc.sdcmr.nrfs = nrfs;
    }

    /// Programs the free-running auto-refresh interval (a 13-bit count of
    /// controller clock cycles); it persists for the handle's lifetime.
    pub fn program_refresh_rate(&mut self, refresh_rate: u16)
        requires
            refresh_rate < 8192,
        ensures
            final(self).bank() == old(self).bank(),
            final(self).regs().sdrtr == (SDRTR { count: refresh_rate }),
            final(self).regs().sdcr1 == old(self).regs().sdcr1,
            final(self).regs().sdcr2 == old(self).regs().sdcr2,
            final(self).regs().sdtr1 == old(self).regs().sdtr1,
            final(self).regs().sdtr2 == old(self).regs().sdtr2,
            final(self).regs().sdcmr == old(self).regs().sdcmr,
            final(self).regs().sdsr == old(self).regs().sdsr,
            final(self).regs().clock_enabled == old(self).regs().clock_enabled,
    {
        self.fmc.sdrtr = SDRTR { count: refresh_rate };
    }

    /// Computes the bank's memory region: its fixed base address and the
    /// number of elements of `element_size` bytes that fit in
    /// `memory_length` bytes. Whether the region is safe to access at all
    /// is the caller's obligation; nothing here checks alignment, aliasing
    /// or that initialization has completed.
    pub fn sliced(&self, element_size: usize, memory_length: usize) -> (r: MemoryRegion)
        requires
            element_size > 0,
        ensures
            r.base_address == bank_base_address(self.bank()),
            r.element_count == memory_length as int / element_size as int,
    {
        let base_address: u32 = match self.bank_selection {
            SDRAMInternalBankSelection::Bank1 => 0xA000_0000,
            SDRAMInternalBankSelection::Bank2 => 0xD000_0000,
        };
        MemoryRegion { base_address, element_count: memory_length / element_size }
    }
}

/// Which bank flags a command raises; the two flags are independent in the
/// command register, so both or neither can be raised.
#[derive(Debug, Copy, Clone, Eq, PartialEq, Structural, Ord, PartialOrd)]
pub enum SDRAMCommandTargetBank {
    NoBank,
    Bank1,
    Bank2,
    Both,
}

/// One controller command: transient, written to the command register in a
/// single write and not retained.
pub struct SDRAMCommand {
    pub command_mode: MODE_AW,
    pub target_bank: SDRAMCommandTargetBank,
    pub auto_refresh_number: u8,
    pub mode_register_definition: u16,
}

/// The configured bank's memory as a flat region: a base address fixed by
/// the bank and an element count.
#[derive(Clone, Copy, PartialEq, Eq, Structural, Debug)]
pub struct MemoryRegion {
    pub base_address: u32,
    pub element_count: usize,
}

} // verus!
