//! The vendor power-on initialization sequence, as a plan of timed
//! register writes.
//!
//! The sequence is fixed: one conditional control-register write that
//! sets bit 30 (skipped when the bit is already set), then six
//! unconditional writes to the init-control and init-config registers,
//! each followed by a settle delay the attached device requires. The
//! plan is data, so the same specification governs both the window
//! model's `initialize` and the runner that replays the writes onto the
//! real device.

use crate::fpga::RegWrite;
use crate::regs;
use vstd::prelude::*;

verus! {

/// Control-register bit 30: hash-board init.
pub const CTRL_INIT_BIT: u32 = 0x4000_0000;

/// Init-control value of the boot stage, also restored at the end of
/// the startup stage (bit 31 clear).
pub const INIT_CTRL_BASE: u32 = 0x0080_800F;

/// Init-config value of the boot stage.
pub const INIT_CFG_BOOT: u32 = 0x8000_01C1;

/// Init-control value that starts the startup stage (bit 31 set).
pub const INIT_CTRL_START: u32 = 0x8080_800F;

/// Init-config value of the startup stage.
pub const INIT_CFG_START: u32 = 0x0000_9C40;

/// Final init-config value; after it the fan and PSU registers are
/// live.
pub const INIT_CFG_FINAL: u32 = 0x8001_FFFF;

/// Settle delay after each boot-stage write and after the final write.
pub const DELAY_LONG_MS: u64 = 100;

/// Settle delay after the first three startup-stage writes.
pub const DELAY_SHORT_MS: u64 = 50;

/// One planned register write: target offset, value, and the settle
/// delay that must follow it.
#[derive(Clone, Copy, Debug, PartialEq, Eq, Structural)]
pub struct TimedWrite {
    pub offset: usize,
    pub value: u32,
    pub delay_ms: u64,
}

/// The fixed unconditional part of the initialization sequence: the
/// boot stage's init-control and init-config writes, then the startup
/// stage's four writes, in this exact order.
pub open spec fn init_plan_tail() -> Seq<TimedWrite> {
    seq![
        TimedWrite { offset: regs::INIT_CTRL, value: INIT_CTRL_BASE, delay_ms: DELAY_LONG_MS },
        TimedWrite { offset: regs::INIT_CFG, value: INIT_CFG_BOOT, delay_ms: DELAY_LONG_MS },
        TimedWrite { offset: regs::INIT_CTRL, value: INIT_CTRL_START, delay_ms: DELAY_SHORT_MS },
        TimedWrite { offset: regs::INIT_CFG, value: INIT_CFG_START, delay_ms: DELAY_SHORT_MS },
        TimedWrite { offset: regs::INIT_CTRL, value: INIT_CTRL_BASE, delay_ms: DELAY_SHORT_MS },
        TimedWrite { offset: regs::INIT_CFG, value: INIT_CFG_FINAL, delay_ms: DELAY_LONG_MS },
    ]
}

/// The whole initialization plan for a window whose control register
/// currently holds `ctrl`: when bit 30 is clear, first set it
/// (preserving the other bits); when it is already set, the device is
/// past that step and the control register is not written at all.
pub open spec fn init_plan(ctrl: u32) -> Seq<TimedWrite> {
    if ctrl & CTRL_INIT_BIT == 0 {
        seq![
            TimedWrite {
                offset: regs::CTRL,
                value: ctrl | CTRL_INIT_BIT,
                delay_ms: DELAY_LONG_MS,
            },
        ] + init_plan_tail()
    } else {
        init_plan_tail()
    }
}

/// The register writes of a plan, in order, without the delays.
pub open spec fn writes_of(plan: Seq<TimedWrite>) -> Seq<RegWrite> {
    plan.map_values(|w: TimedWrite| RegWrite { offset: w.offset, value: w.value })
}

/// The initialization plan writes the control register exactly once
/// when bit 30 of the current value is clear — as the very first write,
/// setting bit 30 and preserving the other bits — and never when bit 30
/// is already set.
pub proof fn lemma_init_control_write_once(ctrl: u32)
    ensures
        ctrl & CTRL_INIT_BIT == 0 ==> {
            &&& init_plan(ctrl)[0].offset == regs::CTRL
            &&& init_plan(ctrl)[0].value == (ctrl | CTRL_INIT_BIT)
            &&& (ctrl | CTRL_INIT_BIT) & CTRL_INIT_BIT != 0
            &&& forall|j: int|
                1 <= j < init_plan(ctrl).len() ==> (#[trigger] init_plan(ctrl)[j]).offset
                    != regs::CTRL
        },
        ctrl & CTRL_INIT_BIT != 0 ==> forall|j: int|
            0 <= j < init_plan(ctrl).len() ==> (#[trigger] init_plan(ctrl)[j]).offset
                != regs::CTRL,
{
    assert((ctrl | CTRL_INIT_BIT) & CTRL_INIT_BIT != 0) by (bit_vector);
}

/// Build the initialization plan for the current control-register
/// value.
pub fn init_writes(ctrl: u32) -> (plan: Vec<TimedWrite>)
    ensures
        plan@ == init_plan(ctrl),
{
    let mut plan: Vec<TimedWrite> = Vec::new();
    if ctrl & CTRL_INIT_BIT == 0 {
        plan.push(TimedWrite {
            offset: regs::CTRL,
            value: ctrl | CTRL_INIT_BIT,
            delay_ms: DELAY_LONG_MS,
        });
    }
    plan.push(TimedWrite { offset: regs::INIT_CTRL, value: INIT_CTRL_BASE, delay_ms: DELAY_LONG_MS });
    plan.push(TimedWrite { offset: regs::INIT_CFG, value: INIT_CFG_BOOT, delay_ms: DELAY_LONG_MS });
    plan.push(TimedWrite { offset: regs::INIT_CTRL, value: INIT_CTRL_START, delay_ms: DELAY_SHORT_MS });
    plan.push(TimedWrite { offset: regs::INIT_CFG, value: INIT_CFG_START, delay_ms: DELAY_SHORT_MS });
    plan.push(TimedWrite { offset: regs::INIT_CTRL, value: INIT_CTRL_BASE, delay_ms: DELAY_SHORT_MS });
    plan.push(TimedWrite { offset: regs::INIT_CFG, value: INIT_CFG_FINAL, delay_ms: DELAY_LONG_MS });
    proof {
        assert(plan@ =~= init_plan(ctrl));
    }
    plan
}

} // verus!
