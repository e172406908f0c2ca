use fmc_sdram::buses::{SDRAMAddressBus, SDRAMDataBus};
use fmc_sdram::pins::{
    address_line_pin, bank_select_pin, byte_enable_pin, data_line_pin, GpioPort, Pin, PinId,
    PinSpeed, RolePin, SignalRole,
};
use fmc_sdram::registers::{CAS_A, FMC, MODE_AW, NB_A, NC_A, NR_A, RPIPE_A, SDCLK_A};
use fmc_sdram::sdram::{
    BankAddress0, BankAddressPair, ByteEnablePins, SDRAMCommand, SDRAMCommandTargetBank,
    SDRAMConfig, SDRAMInternalBankSelection, SDRAMTiming, UseSDRAMBank1, UseSDRAMBank2, SDRAM,
};

fn raw_pin(id: PinId) -> Pin {
    Pin { id, speed: PinSpeed::Low, pull_up: true }
}

fn pin_at(port: GpioPort, line: u8) -> Pin {
    raw_pin(PinId { port, line })
}

fn address_pins(n: u8) -> Vec<Pin> {
    (0..n).map(|i| raw_pin(address_line_pin(i))).collect()
}

fn data_pins(n: u8) -> Vec<Pin> {
    (0..n).map(|i| raw_pin(data_line_pin(i))).collect()
}

fn sample_timing() -> SDRAMTiming {
    SDRAMTiming {
        cas_latency: CAS_A::CLOCKS3,
        t_mrd: 2,
        t_xsr: 7,
        t_ras: 4,
        t_rc: 7,
        t_wr: 3,
        t_rp: 2,
        t_rcd: 2,
    }
}

fn sample_config() -> SDRAMConfig {
    SDRAMConfig {
        address_bus: SDRAMAddressBus::new(address_pins(12)).unwrap(),
        data_bus: SDRAMDataBus::new(data_pins(16)).unwrap(),
        number_of_column_bits: NC_A::BITS9,
        number_of_row_bits: NR_A::BITS12,
        sdclk_period: SDCLK_A::DIV2,
        rpipe_delay: RPIPE_A::CLOCKS1,
        write_protection: false,
        read_burst: true,
        timing: sample_timing(),
    }
}

/// Drives the full configuration path for bank 2, starting from the given
/// register block.
fn configure_bank2(fmc: FMC) -> SDRAM {
    let cce = UseSDRAMBank2::new(pin_at(GpioPort::B, 5), pin_at(GpioPort::B, 6)).unwrap();
    let bank_access = BankAddress0::new(raw_pin(bank_select_pin(0))).unwrap();
    let byte_enable =
        ByteEnablePins::new(vec![raw_pin(byte_enable_pin(0)), raw_pin(byte_enable_pin(1))])
            .unwrap();
    let sdclk = RolePin::new(SignalRole::Clock, pin_at(GpioPort::G, 8)).unwrap();
    let sdnras = RolePin::new(SignalRole::RowStrobe, pin_at(GpioPort::F, 11)).unwrap();
    let sdncas = RolePin::new(SignalRole::ColumnStrobe, pin_at(GpioPort::G, 15)).unwrap();
    let sdnwe = RolePin::new(SignalRole::WriteEnable, pin_at(GpioPort::C, 0)).unwrap();
    sample_config().configure(fmc, bank_access, byte_enable, sdclk, sdnras, sdncas, cce, sdnwe)
}

#[test]
fn timing_values_of_zero_are_rejected_as_invalid() {
    let mut timing = sample_timing();
    assert!(timing.is_valid());
    timing.t_rc = 0;
    assert!(!timing.is_valid());
    let mut timing = sample_timing();
    timing.t_wr = 0;
    assert!(!timing.is_valid());
}

#[test]
fn bank_pairs_reject_pins_of_the_other_bank() {
    assert!(UseSDRAMBank1::new(pin_at(GpioPort::H, 2), pin_at(GpioPort::H, 3)).is_some());
    assert!(UseSDRAMBank1::new(pin_at(GpioPort::C, 3), pin_at(GpioPort::C, 2)).is_some());
    assert!(UseSDRAMBank1::new(pin_at(GpioPort::B, 5), pin_at(GpioPort::H, 3)).is_none());
    assert!(UseSDRAMBank2::new(pin_at(GpioPort::H, 7), pin_at(GpioPort::H, 6)).is_some());
    assert!(UseSDRAMBank2::new(pin_at(GpioPort::B, 5), pin_at(GpioPort::B, 6)).is_some());
    assert!(UseSDRAMBank2::new(pin_at(GpioPort::H, 2), pin_at(GpioPort::H, 6)).is_none());
}

#[test]
fn bank_select_group_fixes_internal_bank_count() {
    assert!(BankAddress0::new(raw_pin(bank_select_pin(0))).is_some());
    assert!(BankAddress0::new(raw_pin(bank_select_pin(1))).is_none());
    assert!(BankAddressPair::new(raw_pin(bank_select_pin(0)), raw_pin(bank_select_pin(1)))
        .is_some());
    assert!(BankAddressPair::new(raw_pin(bank_select_pin(1)), raw_pin(bank_select_pin(0)))
        .is_none());
}

#[test]
fn control_fields_land_in_bank1_register_for_bank1() {
    let cfg = sample_config();
    let fmc = cfg.configure_sdcr::<UseSDRAMBank1, BankAddress0>(FMC::at_reset());
    assert!(fmc.sdcr1.sdclk == SDCLK_A::DIV2);
    assert!(fmc.sdcr1.rburst);
    assert!(fmc.sdcr1.rpipe == RPIPE_A::CLOCKS1);
    assert!(fmc.sdcr1.nc == NC_A::BITS9);
    assert!(fmc.sdcr1.nr == NR_A::BITS12);
    assert!(fmc.sdcr1.mwid == fmc_sdram::registers::MWID_A::BITS16);
    assert!(fmc.sdcr1.nb == NB_A::NB2);
    assert!(fmc.sdcr1.cas == CAS_A::CLOCKS3);
    assert!(!fmc.sdcr1.wp);
    // The second bank's control register is untouched.
    assert!(fmc.sdcr2 == FMC::at_reset().sdcr2);
}

#[test]
fn shared_control_fields_stay_in_bank1_register_for_bank2() {
    let cfg = sample_config();
    let fmc = cfg.configure_sdcr::<UseSDRAMBank2, BankAddressPair>(FMC::at_reset());
    // Shared fields land in the first bank's register.
    assert!(fmc.sdcr1.sdclk == SDCLK_A::DIV2);
    assert!(fmc.sdcr1.rburst);
    assert!(fmc.sdcr1.rpipe == RPIPE_A::CLOCKS1);
    // The first bank's remaining fields are untouched.
    assert!(fmc.sdcr1.nc == NC_A::BITS8);
    assert!(fmc.sdcr1.nr == NR_A::BITS11);
    assert!(!fmc.sdcr1.wp);
    // Everything else lands in the second bank's register.
    assert!(fmc.sdcr2.nc == NC_A::BITS9);
    assert!(fmc.sdcr2.nr == NR_A::BITS12);
    assert!(fmc.sdcr2.mwid == fmc_sdram::registers::MWID_A::BITS16);
    assert!(fmc.sdcr2.nb == NB_A::NB4);
    assert!(fmc.sdcr2.cas == CAS_A::CLOCKS3);
    assert!(!fmc.sdcr2.wp);
    // The shared fields of the second register are cleared by the write.
    assert!(fmc.sdcr2.sdclk == SDCLK_A::DISABLED);
    assert!(!fmc.sdcr2.rburst);
    assert!(fmc.sdcr2.rpipe == RPIPE_A::NODELAY);
}

#[test]
fn timing_fields_store_value_minus_one_for_bank1() {
    let cfg = sample_config();
    let fmc = cfg.configure_sdtr::<UseSDRAMBank1>(FMC::at_reset());
    assert_eq!(fmc.sdtr1.tmrd, 1);
    assert_eq!(fmc.sdtr1.txsr, 6);
    assert_eq!(fmc.sdtr1.tras, 3);
    assert_eq!(fmc.sdtr1.trc, 6);
    assert_eq!(fmc.sdtr1.twr, 2);
    assert_eq!(fmc.sdtr1.trp, 1);
    assert_eq!(fmc.sdtr1.trcd, 1);
    assert!(fmc.sdtr2 == FMC::at_reset().sdtr2);
}

#[test]
fn shared_timing_fields_stay_in_bank1_register_for_bank2() {
    let cfg = sample_config();
    let fmc = cfg.configure_sdtr::<UseSDRAMBank2>(FMC::at_reset());
    // Row-cycle and row-precharge delays land in the first bank's register.
    assert_eq!(fmc.sdtr1.trc, 6);
    assert_eq!(fmc.sdtr1.trp, 1);
    // Its other fields are untouched.
    assert_eq!(fmc.sdtr1.tmrd, 0);
    assert_eq!(fmc.sdtr1.txsr, 0);
    // The other five delays land in the second bank's register.
    assert_eq!(fmc.sdtr2.tmrd, 1);
    assert_eq!(fmc.sdtr2.txsr, 6);
    assert_eq!(fmc.sdtr2.tras, 3);
    assert_eq!(fmc.sdtr2.twr, 2);
    assert_eq!(fmc.sdtr2.trcd, 1);
    // The shared fields of the second register are cleared by the write.
    assert_eq!(fmc.sdtr2.trc, 0);
    assert_eq!(fmc.sdtr2.trp, 0);
}

#[test]
fn send_command_polls_once_more_than_the_controller_stays_busy() {
    for busy in [0u32, 1, 5, 100] {
        let mut fmc = FMC::at_reset();
        fmc.sdsr.busy_reads_left = busy;
        let mut sdram = configure_bank2(fmc);
        let polls_before = sdram.registers().sdsr.reads;
        sdram.send_command(SDRAMCommand {
            command_mode: MODE_AW::PALL,
            target_bank: SDRAMCommandTargetBank::Bank2,
            auto_refresh_number: 1,
            mode_register_definition: 0,
        });
        let polls_after = sdram.registers().sdsr.reads;
        assert_eq!(polls_after - polls_before, busy as u64 + 1);
        assert_eq!(sdram.registers().sdsr.busy_reads_left, 0);
    }
}

#[test]
fn send_command_writes_every_command_field() {
    let mut sdram = configure_bank2(FMC::at_reset());
    sdram.send_command(SDRAMCommand {
        command_mode: MODE_AW::LOADMODEREGISTER,
        target_bank: SDRAMCommandTargetBank::Both,
        auto_refresh_number: 3,
        mode_register_definition: 0x0230,
    });
    let cmd = sdram.registers().sdcmr;
    assert!(cmd.mode == MODE_AW::LOADMODEREGISTER);
    assert!(cmd.ctb1);
    assert!(cmd.ctb2);
    assert_eq!(cmd.nrfs, 3);
    assert_eq!(cmd.mrd, 0x0230);
}

#[test]
fn target_bank_flags_are_independent() {
    let cases = [
        (SDRAMCommandTargetBank::NoBank, false, false),
        (SDRAMCommandTargetBank::Bank1, true, false),
        (SDRAMCommandTargetBank::Bank2, false, true),
        (SDRAMCommandTargetBank::Both, true, true),
    ];
    for (target, ctb1, ctb2) in cases {
        let mut sdram = configure_bank2(FMC::at_reset());
        sdram.send_command(SDRAMCommand {
            command_mode: MODE_AW::CLOCKCONFIGURATIONENABLE,
            target_bank: target,
            auto_refresh_number: 0,
            mode_register_definition: 0,
        });
        assert_eq!(sdram.registers().sdcmr.ctb1, ctb1);
        assert_eq!(sdram.registers().sdcmr.ctb2, ctb2);
    }
}

#[test]
fn write_protection_toggles_in_the_selected_bank_register() {
    let mut sdram = configure_bank2(FMC::at_reset());
    assert!(!sdram.is_write_protect());
    sdram.set_write_protect(true);
    assert!(sdram.is_write_protect());
    assert!(sdram.registers().sdcr2.wp);
    assert!(!sdram.registers().sdcr1.wp);
    sdram.set_write_protect(false);
    assert!(!sdram.is_write_protect());
}

#[test]
fn autorefresh_number_changes_without_a_command() {
    let mut sdram = configure_bank2(FMC::at_reset());
    let mode_before = sdram.registers().sdcmr.mode;
    sdram.set_autorefresh_number(8);
    assert_eq!(sdram.registers().sdcmr.nrfs, 8);
    assert!(sdram.registers().sdcmr.mode == mode_before);
}

#[test]
fn memory_view_base_addresses_and_element_count() {
    let cce = UseSDRAMBank1::new(pin_at(GpioPort::H, 2), pin_at(GpioPort::H, 3)).unwrap();
    let bank_access = BankAddress0::new(raw_pin(bank_select_pin(0))).unwrap();
    let byte_enable =
        ByteEnablePins::new(vec![raw_pin(byte_enable_pin(0)), raw_pin(byte_enable_pin(1))])
            .unwrap();
    let sdclk = RolePin::new(SignalRole::Clock, pin_at(GpioPort::G, 8)).unwrap();
    let sdnras = RolePin::new(SignalRole::RowStrobe, pin_at(GpioPort::F, 11)).unwrap();
    let sdncas = RolePin::new(SignalRole::ColumnStrobe, pin_at(GpioPort::G, 15)).unwrap();
    let sdnwe = RolePin::new(SignalRole::WriteEnable, pin_at(GpioPort::H, 5)).unwrap();
    let bank1 = sample_config().configure(
        FMC::at_reset(),
        bank_access,
        byte_enable,
        sdclk,
        sdnras,
        sdncas,
        cce,
        sdnwe,
    );
    let region = bank1.sliced(8, 0x0080_0000);
    assert_eq!(region.base_address, 0xA000_0000);
    assert_eq!(region.element_count, 1_048_576);

    let bank2 = configure_bank2(FMC::at_reset());
    let region = bank2.sliced(4, 64);
    assert_eq!(region.base_address, 0xD000_0000);
    assert_eq!(region.element_count, 16);
}

#[test]
fn initialization_round_trip_on_bank2() {
    // A 16-bit-data, 12-line-address configuration targeting bank 2 with
    // CAS latency 3, driven through the power-up command sequence.
    let mut sdram = configure_bank2(FMC::at_reset());
    sdram.send_command(SDRAMCommand {
        command_mode: MODE_AW::CLOCKCONFIGURATIONENABLE,
        target_bank: SDRAMCommandTargetBank::Bank2,
        auto_refresh_number: 1,
        mode_register_definition: 0,
    });
    // A microsecond-scale settling delay is the caller's obligation here.
    sdram.send_command(SDRAMCommand {
        command_mode: MODE_AW::PALL,
        target_bank: SDRAMCommandTargetBank::Bank2,
        auto_refresh_number: 1,
        mode_register_definition: 0,
    });
    sdram.send_command(SDRAMCommand {
        command_mode: MODE_AW::AUTOREFRESHCOMMAND,
        target_bank: SDRAMCommandTargetBank::Bank2,
        auto_refresh_number: 4,
        mode_register_definition: 0,
    });
    sdram.send_command(SDRAMCommand {
        command_mode: MODE_AW::LOADMODEREGISTER,
        target_bank: SDRAMCommandTargetBank::Bank2,
        auto_refresh_number: 1,
        mode_register_definition: 0x0230,
    });
    sdram.program_refresh_rate(1386);

    assert!(!sdram.is_write_protect());
    assert!(sdram.bank_selection() == SDRAMInternalBankSelection::Bank2);
    let regs = sdram.registers();
    assert!(regs.clock_enabled);
    assert_eq!(regs.sdrtr.count, 1386);
    assert!(regs.sdcmr.mode == MODE_AW::LOADMODEREGISTER);
    assert_eq!(regs.sdcmr.mrd, 0x0230);
    // The timing set {2, 7, 4, 7, 3, 2, 2} lands biased by minus one, with
    // the row-cycle and row-precharge delays routed to bank 1's register.
    assert_eq!(regs.sdtr1.trc, 6);
    assert_eq!(regs.sdtr1.trp, 1);
    assert_eq!(regs.sdtr2.tmrd, 1);
    assert_eq!(regs.sdtr2.txsr, 6);
    assert_eq!(regs.sdtr2.tras, 3);
    assert_eq!(regs.sdtr2.twr, 2);
    assert_eq!(regs.sdtr2.trcd, 1);
    assert!(regs.sdcr2.cas == CAS_A::CLOCKS3);
}
