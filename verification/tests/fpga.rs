use hashsource_x19::fpga::offset_is_valid;
use hashsource_x19::fpga::pwm_value;
use hashsource_x19::fpga::FpgaController;
use hashsource_x19::fpga::RegWrite;
use hashsource_x19::fpga::FPGA_SIZE;
use hashsource_x19::init;
use hashsource_x19::regs;

#[test]
fn test_pwm_format() {
    // Verify PWM format matches C implementation
    let percent = 50u32;
    let pwm = (percent << 16) | (100 - percent);
    assert_eq!(pwm, 0x0032_0032);
}

#[test]
fn pwm_value_concrete_encodings() {
    assert_eq!(pwm_value(50), 0x0032_0032);
    assert_eq!(pwm_value(0), 0x0000_0064);
    assert_eq!(pwm_value(100), 0x0064_0000);
    assert_eq!(pwm_value(25), (25 << 16) | 75);
}

#[test]
fn pwm_value_clamps_above_100() {
    assert_eq!(pwm_value(101), pwm_value(100));
    assert_eq!(pwm_value(255), pwm_value(100));
    assert_eq!(pwm_value(255), 0x0064_0000);
}

#[test]
fn set_fan_speed_writes_both_pwm_registers() {
    let mut fpga = FpgaController::new();
    fpga.set_fan_speed(50);
    let log = fpga.write_log();
    assert_eq!(log.len(), 2);
    assert_eq!(log[0], RegWrite { offset: regs::PWM_MAIN, value: 0x0032_0032 });
    assert_eq!(log[1], RegWrite { offset: regs::PWM_ALT, value: 0x0032_0032 });
    assert_eq!(fpga.read_reg(regs::PWM_MAIN), 0x0032_0032);
    assert_eq!(fpga.read_reg(regs::PWM_ALT), 0x0032_0032);
}

#[test]
fn set_fan_speed_clamped_equals_100() {
    let mut clamped = FpgaController::new();
    clamped.set_fan_speed(255);
    let mut full = FpgaController::new();
    full.set_fan_speed(100);
    assert_eq!(clamped.write_log(), full.write_log());
    assert_eq!(clamped.read_reg(regs::PWM_MAIN), 0x0064_0000);
    assert_eq!(clamped.read_reg(regs::PWM_ALT), 0x0064_0000);
}

#[test]
fn fresh_window_is_zero_and_mapped() {
    let fpga = FpgaController::new();
    assert!(fpga.is_mapped());
    assert_eq!(fpga.unmap_count(), 0);
    assert_eq!(fpga.write_log().len(), 0);
    assert_eq!(fpga.read_reg(regs::CTRL), 0);
    assert_eq!(fpga.read_reg(regs::HASH_ON_PLUG), 0);
    assert_eq!(fpga.read_reg(regs::I2C_CTRL), 0);
    assert_eq!(fpga.read_reg(FPGA_SIZE - 4), 0);
}

#[test]
fn read_reg_returns_written_value() {
    let mut fpga = FpgaController::new();
    fpga.write_reg(regs::HASH_ON_PLUG, 0xDEAD_BEEF);
    assert_eq!(fpga.read_reg(regs::HASH_ON_PLUG), 0xDEAD_BEEF);
    assert_eq!(fpga.read_reg(regs::CTRL), 0);
    assert_eq!(fpga.write_log(), &vec![RegWrite { offset: regs::HASH_ON_PLUG, value: 0xDEAD_BEEF }]);
}

#[test]
fn initialize_on_fresh_window_writes_literal_sequence() {
    let mut fpga = FpgaController::new();
    fpga.initialize().unwrap();
    let expected = vec![
        RegWrite { offset: regs::CTRL, value: 0x4000_0000 },
        RegWrite { offset: regs::INIT_CTRL, value: 0x0080_800F },
        RegWrite { offset: regs::INIT_CFG, value: 0x8000_01C1 },
        RegWrite { offset: regs::INIT_CTRL, value: 0x8080_800F },
        RegWrite { offset: regs::INIT_CFG, value: 0x0000_9C40 },
        RegWrite { offset: regs::INIT_CTRL, value: 0x0080_800F },
        RegWrite { offset: regs::INIT_CFG, value: 0x8001_FFFF },
    ];
    assert_eq!(fpga.write_log(), &expected);
    assert_eq!(fpga.read_reg(regs::CTRL), 0x4000_0000);
    assert_eq!(fpga.read_reg(regs::INIT_CTRL), 0x0080_800F);
    assert_eq!(fpga.read_reg(regs::INIT_CFG), 0x8001_FFFF);
}

#[test]
fn initialize_skips_control_write_when_bit30_set() {
    let mut fpga = FpgaController::new();
    fpga.write_reg(regs::CTRL, 0x4000_0001);
    let before = fpga.write_log().len();
    fpga.initialize().unwrap();
    let log = &fpga.write_log()[before..];
    assert_eq!(log.len(), 6);
    assert!(log.iter().all(|w| w.offset != regs::CTRL));
    assert_eq!(fpga.read_reg(regs::CTRL), 0x4000_0001);
    assert_eq!(log[0], RegWrite { offset: regs::INIT_CTRL, value: 0x0080_800F });
    assert_eq!(log[5], RegWrite { offset: regs::INIT_CFG, value: 0x8001_FFFF });
}

#[test]
fn init_plan_delays_follow_each_write() {
    let plan = init::init_writes(0);
    assert_eq!(plan.len(), 7);
    let delays: Vec<u64> = plan.iter().map(|w| w.delay_ms).collect();
    assert_eq!(delays, vec![100, 100, 100, 50, 50, 50, 100]);

    let plan_set = init::init_writes(0x4000_0000);
    assert_eq!(plan_set.len(), 6);
    let delays_set: Vec<u64> = plan_set.iter().map(|w| w.delay_ms).collect();
    assert_eq!(delays_set, vec![100, 100, 50, 50, 50, 100]);
}

#[test]
fn invalid_offsets_are_rejected() {
    assert!(!offset_is_valid(1));
    assert!(!offset_is_valid(2));
    assert!(!offset_is_valid(3));
    assert!(!offset_is_valid(0x86));
    assert!(!offset_is_valid(FPGA_SIZE));
    assert!(!offset_is_valid(FPGA_SIZE + 4));
    assert!(!offset_is_valid(usize::MAX));
    assert!(offset_is_valid(0));
    assert!(offset_is_valid(regs::PWM_ALT));
    assert!(offset_is_valid(FPGA_SIZE - 4));
}

#[test]
fn release_unmaps_exactly_once_without_initialize() {
    let mut fpga = FpgaController::new();
    assert_eq!(fpga.unmap_count(), 0);
    fpga.release();
    assert_eq!(fpga.unmap_count(), 1);
    assert!(!fpga.is_mapped());
    fpga.release();
    assert_eq!(fpga.unmap_count(), 1);
}

#[test]
fn release_unmaps_exactly_once_after_initialize() {
    let mut fpga = FpgaController::new();
    fpga.initialize().unwrap();
    fpga.set_fan_speed(50);
    fpga.release();
    fpga.release();
    assert_eq!(fpga.unmap_count(), 1);
    assert!(!fpga.is_mapped());
}
