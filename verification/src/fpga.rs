//! The register window model: errors, PWM encoding, register access,
//! the initialization protocol and fan-speed control.

use crate::init;
use crate::regs;
use vstd::prelude::*;

verus! {

/// Path of the device node exposing the register window.
pub const FPGA_DEVICE: &'static str = "/dev/axi_fpga_dev";

/// Size in bytes of the register window.
pub const FPGA_SIZE: usize = 0x1200;

/// Number of 32-bit register cells in the window.
pub const NUM_REGS: usize = FPGA_SIZE / 4;

/// Errors from opening and mapping the register window.
///
/// `DeviceOpen` and `Mmap` carry the raw OS error code of the failed call.
#[derive(Clone, Copy, Debug, PartialEq, Eq, Structural)]
pub enum FpgaError {
    DeviceOpen(i32),
    Mmap(i32),
    InvalidOffset,
    NotRoot,
}

/// The PWM register value encoding `percent`, after clamping to 100:
/// the duty percent in the high half-word, its complement out of 100 in
/// the low half-word.
pub open spec fn pwm_encoding(percent: u8) -> u32 {
    (clamp_percent(percent) << 16u32) | ((100 - clamp_percent(percent)) as u32)
}

/// Fan-speed percentages above 100 are treated as 100.
pub open spec fn clamp_percent(percent: u8) -> u32 {
    if percent > 100 {
        100
    } else {
        percent as u32
    }
}

/// Encode a fan-speed percentage in the device's PWM register format.
pub fn pwm_value(percent: u8) -> (r: u32)
    ensures
        r == pwm_encoding(percent),
{
    let p: u32 = if percent > 100 {
        100
    } else {
        percent as u32
    };
    (p << 16) | (100 - p)
}

/// A register offset names a cell only if it is 4-byte aligned and
/// inside the window.
pub open spec fn valid_offset(offset: usize) -> bool {
    offset % 4 == 0 && offset < FPGA_SIZE
}

/// Whether `offset` names a register cell. Accessing any other offset
/// is a caller bug: `read_reg` and `write_reg` demand a valid offset,
/// so an unverified caller must check with this function first and
/// treat a `false` as fatal.
pub fn offset_is_valid(offset: usize) -> (r: bool)
    ensures
        r == valid_offset(offset),
{
    offset % 4 == 0 && offset < FPGA_SIZE
}

/// One performed register write, as recorded in the window's log.
#[derive(Clone, Copy, Debug, PartialEq, Eq, Structural)]
pub struct RegWrite {
    pub offset: usize,
    pub value: u32,
}

/// The abstract state of a register window: the cell contents, the
/// sequence of writes performed on it in order, whether the window is
/// still mapped, and how many times it has been unmapped.
pub ghost struct FpgaView {
    pub cells: Seq<u32>,
    pub log: Seq<RegWrite>,
    pub mapped: bool,
    pub unmaps: nat,
}

/// An owned register window.
///
/// Holds the window's 32-bit cells together with a log of every write
/// performed, and tracks whether the window is still mapped. All access
/// is through bounds- and alignment-checked accessors; nothing may
/// touch the window after `release`. The value adds no locking of its
/// own: concurrent writers to the same register must be serialized by
/// the caller.
pub struct FpgaController {
    cells: Vec<u32>,
    log: Vec<RegWrite>,
    mapped: bool,
    unmaps: u8,
}

impl View for FpgaController {
    type V = FpgaView;

    closed spec fn view(&self) -> FpgaView {
        FpgaView {
            cells: self.cells@,
            log: self.log@,
            mapped: self.mapped,
            unmaps: self.unmaps as nat,
        }
    }
}

impl FpgaController {
    /// The window is well formed: it has exactly the device's cells,
    /// and it has been unmapped at most once, never while still mapped.
    pub open spec fn wf(&self) -> bool {
        &&& self@.cells.len() == NUM_REGS
        &&& self@.unmaps <= 1
        &&& (self@.mapped ==> self@.unmaps == 0)
    }

    /// A fresh register window: every cell zero, mapped, never
    /// unmapped, with an empty write log.
    pub fn new() -> (r: FpgaController)
        ensures
            r.wf(),
            r@.cells.len() == NUM_REGS,
            forall|i: int| 0 <= i < NUM_REGS ==> r@.cells[i] == 0,
            r@.log == Seq::<RegWrite>::empty(),
            r@.mapped,
            r@.unmaps == 0,
    {
        let mut cells: Vec<u32> = Vec::new();
        while cells.len() < NUM_REGS
            invariant
                cells@.len() <= NUM_REGS,
                forall|i: int| 0 <= i < cells@.len() ==> cells@[i] == 0,
            decreases NUM_REGS - cells@.len(),
        {
            cells.push(0);
        }
        FpgaController { cells, log: Vec::new(), mapped: true, unmaps: 0 }
    }

    /// Read the register cell at byte offset `offset`.
    pub fn read_reg(&self, offset: usize) -> (r: u32)
        requires
            self.wf(),
            self@.mapped,
            valid_offset(offset),
        ensures
            r == self@.cells[offset as int / 4],
    {
        self.cells[offset / 4]
    }

    /// Write `value` to the register cell at byte offset `offset` and
    /// record the write in the log.
    pub fn write_reg(&mut self, offset: usize, value: u32)
        requires
            old(self).wf(),
            old(self)@.mapped,
            valid_offset(offset),
        ensures
            final(self).wf(),
            final(self)@.cells == old(self)@.cells.update(offset as int / 4, value),
            final(self)@.log == old(self)@.log.push((RegWrite { offset, value })),
            final(self)@.mapped,
            final(self)@.unmaps == old(self)@.unmaps,
    {
        self.cells.set(offset / 4, value);
        self.log.push(RegWrite { offset, value });
    }

    /// Run the two-stage vendor initialization protocol on the window:
    /// exactly the planned write sequence for the current
    /// control-register value, in order. Afterwards the init-control
    /// register holds its base value, the init-config register holds
    /// its final value, and bit 30 of the control register is set.
    ///
    /// The settle delay after each write belongs to the runner that
    /// replays the plan onto the real device; the model records the
    /// writes and their order. Once the window is mapped the protocol
    /// has no failure path: it always returns `Ok`.
    pub fn initialize(&mut self) -> (r: Result<(), FpgaError>)
        requires
            old(self).wf(),
            old(self)@.mapped,
        ensures
            final(self).wf(),
            r is Ok,
            final(self)@.log == old(self)@.log + init::writes_of(
                init::init_plan(old(self)@.cells[regs::CTRL as int / 4]),
            ),
            final(self)@.cells == old(self)@.cells.update(
                regs::CTRL as int / 4,
                old(self)@.cells[regs::CTRL as int / 4] | init::CTRL_INIT_BIT,
            ).update(regs::INIT_CTRL as int / 4, init::INIT_CTRL_BASE).update(
                regs::INIT_CFG as int / 4,
                init::INIT_CFG_FINAL,
            ),
            final(self)@.mapped,
            final(self)@.unmaps == old(self)@.unmaps,
    {
        let ctrl = self.read_reg(regs::CTRL);

        // Stage 1: boot-time initialization. Set control bit 30 only if
        // the device is not already past this step.
        if ctrl & init::CTRL_INIT_BIT == 0 {
            self.write_reg(regs::CTRL, ctrl | init::CTRL_INIT_BIT);
        }
        self.write_reg(regs::INIT_CTRL, init::INIT_CTRL_BASE);
        self.write_reg(regs::INIT_CFG, init::INIT_CFG_BOOT);

        // Stage 2: startup sequence.
        self.write_reg(regs::INIT_CTRL, init::INIT_CTRL_START);
        self.write_reg(regs::INIT_CFG, init::INIT_CFG_START);
        self.write_reg(regs::INIT_CTRL, init::INIT_CTRL_BASE);
        self.write_reg(regs::INIT_CFG, init::INIT_CFG_FINAL);

        proof {
            let ctrl0 = old(self)@.cells[regs::CTRL as int / 4];
            if ctrl0 & init::CTRL_INIT_BIT != 0 {
                assert(ctrl0 | init::CTRL_INIT_BIT == ctrl0) by (bit_vector)
                    requires
                        ctrl0 & init::CTRL_INIT_BIT != 0,
                ;
            }
            assert(self@.log =~= old(self)@.log + init::writes_of(init::init_plan(ctrl0)));
            assert(self@.cells =~= old(self)@.cells.update(
                regs::CTRL as int / 4,
                ctrl0 | init::CTRL_INIT_BIT,
            ).update(regs::INIT_CTRL as int / 4, init::INIT_CTRL_BASE).update(
                regs::INIT_CFG as int / 4,
                init::INIT_CFG_FINAL,
            ));
        }
        Ok(())
    }

    /// Set both fan headers to `percent` duty (clamped to 100): write
    /// the PWM encoding of `percent`, identically, to the main and then
    /// the alternate PWM register.
    pub fn set_fan_speed(&mut self, percent: u8)
        requires
            old(self).wf(),
            old(self)@.mapped,
        ensures
            final(self).wf(),
            final(self)@.log == old(self)@.log.push(
                (RegWrite { offset: regs::PWM_MAIN, value: pwm_encoding(percent) }),
            ).push((RegWrite { offset: regs::PWM_ALT, value: pwm_encoding(percent) })),
            final(self)@.cells == old(self)@.cells.update(
                regs::PWM_MAIN as int / 4,
                pwm_encoding(percent),
            ).update(regs::PWM_ALT as int / 4, pwm_encoding(percent)),
            final(self)@.mapped,
            final(self)@.unmaps == old(self)@.unmaps,
    {
        let value = pwm_value(percent);
        self.write_reg(regs::PWM_MAIN, value);
        self.write_reg(regs::PWM_ALT, value);
    }

    /// Release the window: unmap it if it is still mapped. After this
    /// no register access is allowed; releasing again does nothing, so
    /// the unmap happens exactly once over the window's life, whether
    /// or not initialization ever ran. Unmapping surfaces no error.
    pub fn release(&mut self)
        requires
            old(self).wf(),
        ensures
            final(self).wf(),
            final(self)@ == released_view(old(self)@),
            !final(self)@.mapped,
            final(self)@.unmaps == (if old(self)@.mapped {
                old(self)@.unmaps + 1
            } else {
                old(self)@.unmaps
            }),
            final(self)@.cells == old(self)@.cells,
            final(self)@.log == old(self)@.log,
    {
        if self.mapped {
            self.mapped = false;
            self.unmaps = self.unmaps + 1;
        }
    }

    /// Whether the window is still mapped.
    pub fn is_mapped(&self) -> (r: bool)
        ensures
            r == self@.mapped,
    {
        self.mapped
    }

    /// How many times the window has been unmapped: 0 or 1 over its
    /// whole life.
    pub fn unmap_count(&self) -> (r: u8)
        ensures
            r as nat == self@.unmaps,
    {
        self.unmaps
    }

    /// The writes performed on the window so far, in order.
    pub fn write_log(&self) -> (r: &Vec<RegWrite>)
        ensures
            r@ == self@.log,
    {
        &self.log
    }
}

/// The abstract effect of releasing a window: no longer mapped, the
/// cells and the log untouched, and one more unmap performed exactly
/// when the window was still mapped.
pub open spec fn released_view(v: FpgaView) -> FpgaView {
    FpgaView {
        cells: v.cells,
        log: v.log,
        mapped: false,
        unmaps: if v.mapped {
            v.unmaps + 1
        } else {
            v.unmaps
        },
    }
}

/// Releasing a well-formed window unmaps it exactly once over its
/// life, whether or not initialization ever ran: the release of a
/// mapped window brings the unmap count from 0 to 1, releasing an
/// already released window performs no further unmap, and a released
/// window is never mapped.
pub proof fn lemma_release_unmaps_once(v: FpgaView)
    requires
        v.unmaps <= 1,
        v.mapped ==> v.unmaps == 0,
    ensures
        v.mapped ==> released_view(v).unmaps == 1,
        !v.mapped ==> released_view(v).unmaps == v.unmaps,
        !released_view(v).mapped,
        released_view(released_view(v)).unmaps == released_view(v).unmaps,
{
}

/// For a percentage within bounds the PWM encoding is the literal
/// device formula: the percent in the high half-word, its complement
/// out of 100 in the low half-word.
pub proof fn lemma_pwm_encoding_in_range(percent: u8)
    requires
        percent <= 100,
    ensures
        pwm_encoding(percent) == ((percent as u32) << 16u32) | ((100 - percent) as u32),
{
}

/// A percentage above 100 behaves exactly as 100: the encodings, and
/// with them the writes `set_fan_speed` performs, are equal.
pub proof fn lemma_fan_speed_clamped(percent: u8)
    requires
        percent > 100,
    ensures
        pwm_encoding(percent) == pwm_encoding(100),
{
}

/// A misaligned offset, and an offset at or past the end of the
/// window, is never a valid register offset; `read_reg` and
/// `write_reg` demand a valid one, so every such access is refused.
pub proof fn lemma_invalid_offset_rejected(offset: usize)
    requires
        offset % 4 != 0 || offset >= FPGA_SIZE,
    ensures
        !valid_offset(offset),
{
}

} // verus!
