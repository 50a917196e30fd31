//! Host-controller register semantics.
//!
//! The peripheral is driven through a handful of 32-bit registers.  The
//! runner that owns the register block performs the raw reads and writes;
//! everything it decides from a register value, and every word it writes,
//! is computed by the pure functions here, stated bit for bit.
//!
//! Status clearing has a single owner: the polling path.  The controller's
//! interrupt line stays masked, so no handler ever races these functions on
//! the status register.

use vstd::prelude::*;

use crate::commands::transfer_word;
use crate::commands::AppCmd;
use crate::commands::Response;
use crate::commands::SdCommand;
use crate::constants::CardMode;

verus! {

/// Presence-state register: command-inhibit bit (the command line is busy).
pub const PRES_STATE_CIHB: u32 = 0x0000_0001;

/// Presence-state register: SD clock stable bit.
pub const PRES_STATE_SDSTB: u32 = 0x0000_0008;

/// Presence-state register: DATA3 sample bit of the data-line-signal-level
/// field, which reads as card detect.
pub const PRES_STATE_CARD_DETECT: u32 = 0x0800_0000;

/// Interrupt-status register: command complete.
pub const INT_STATUS_CC: u32 = 0x0000_0001;

/// Interrupt-status register: command timeout error.
pub const INT_STATUS_CTOE: u32 = 0x0001_0000;

/// Interrupt-status register: command CRC error.
pub const INT_STATUS_CCE: u32 = 0x0002_0000;

/// Interrupt-status register: command end-bit error.
pub const INT_STATUS_CEBE: u32 = 0x0004_0000;

/// Interrupt-status register: command index error.
pub const INT_STATUS_CIE: u32 = 0x0008_0000;

/// The completion bit together with the four command-error bits.
pub const INT_STATUS_COMMAND_BITS: u32 = 0x000F_0001;

/// System-control register: software reset for all (self-clearing).
pub const SYS_CTRL_RSTA: u32 = 0x0100_0000;

/// System-control register: card initialization strobe (self-clearing).
pub const SYS_CTRL_INITA: u32 = 0x0800_0000;

/// Whether the presence-state word reports a card in the slot: the DATA3
/// sample bit of the data-line-signal-level field is high.
pub open spec fn card_inserted(pres_state: u32) -> bool {
    pres_state & PRES_STATE_CARD_DETECT != 0
}

/// Whether the presence-state word reports the command line busy.
pub open spec fn card_busy(pres_state: u32) -> bool {
    pres_state & PRES_STATE_CIHB != 0
}

/// Whether the presence-state word reports the SD clock stable.
pub open spec fn clock_stable(pres_state: u32) -> bool {
    pres_state & PRES_STATE_SDSTB != 0
}

/// Whether the interrupt-status word reports the issued command settled:
/// completed, or failed with one of the four command errors.
pub open spec fn command_settled(int_status: u32) -> bool {
    int_status & INT_STATUS_COMMAND_BITS != 0
}

/// Whether the interrupt-status word reports clean command completion: the
/// complete bit set and none of the four error bits.
pub open spec fn command_success(int_status: u32) -> bool {
    &&& int_status & INT_STATUS_CC == INT_STATUS_CC
    &&& int_status & INT_STATUS_CTOE == 0
    &&& int_status & INT_STATUS_CCE == 0
    &&& int_status & INT_STATUS_CEBE == 0
    &&& int_status & INT_STATUS_CIE == 0
}

/// Reads card presence from a presence-state word, as the raw register
/// read does: the data-line-signal-level field is extracted from the high
/// byte and its DATA3 bit is tested.
pub fn is_card_inserted(pres_state: u32) -> (inserted: bool)
    ensures
        inserted == card_inserted(pres_state),
{
    let dlsl = (pres_state >> 24) & 0xFF;
    let inserted = (dlsl & 0b001000) != 0;
    proof {
        assert((((pres_state >> 24) & 0xFF) & 0b001000 != 0) == (pres_state & 0x0800_0000u32 != 0))
            by (bit_vector);
    }
    inserted
}

/// Reads the command-inhibit bit from a presence-state word.
pub fn is_card_busy(pres_state: u32) -> (busy: bool)
    ensures
        busy == card_busy(pres_state),
{
    pres_state & PRES_STATE_CIHB != 0
}

/// Reads the SD-clock-stable bit from a presence-state word.
pub fn is_clock_stable(pres_state: u32) -> (stable: bool)
    ensures
        stable == clock_stable(pres_state),
{
    pres_state & PRES_STATE_SDSTB != 0
}

/// Tests whether an issued command has settled: the completion bit or one
/// of the four command-error bits is set in the interrupt-status word.
/// The runner polls the status register until this holds.
pub fn is_command_settled(int_status: u32) -> (settled: bool)
    ensures
        settled == command_settled(int_status),
{
    int_status & INT_STATUS_COMMAND_BITS != 0
}

/// The write-1-to-clear word that acknowledges exactly the completion and
/// command-error bits observed in `int_status`, leaving every other status
/// bit unacknowledged.
pub fn command_status_clear_word(int_status: u32) -> (w: u32)
    ensures
        w == int_status & INT_STATUS_COMMAND_BITS,
{
    int_status & INT_STATUS_COMMAND_BITS
}

/// A command dispatch failure, told apart by which error bit the
/// controller latched.
#[derive(Clone, Copy, Debug, PartialEq, Eq, Structural)]
pub enum CommandDispatchError {
    /// The response carried a command index other than the one sent.
    IndexMismatch,
    /// The response's end bit was not 1.
    EndBitError,
    /// The response failed its CRC check.
    CrcError,
    /// No response arrived within the timeout.
    Timeout,
}

/// Reads the outcome of a settled command from the interrupt-status word:
/// success exactly when the complete bit is set and no error bit is; else
/// the latched error, reported in the fixed order timeout, CRC, end bit,
/// index.
pub fn command_outcome(int_status: u32) -> (outcome: Result<(), CommandDispatchError>)
    requires
        command_settled(int_status),
    ensures
        outcome is Ok <==> command_success(int_status),
        outcome == Err::<(), CommandDispatchError>(CommandDispatchError::Timeout) <==> int_status
            & INT_STATUS_CTOE != 0,
        outcome == Err::<(), CommandDispatchError>(CommandDispatchError::CrcError) <==> (int_status
            & INT_STATUS_CTOE == 0 && int_status & INT_STATUS_CCE != 0),
        outcome == Err::<(), CommandDispatchError>(CommandDispatchError::EndBitError) <==> (
        int_status & INT_STATUS_CTOE == 0 && int_status & INT_STATUS_CCE == 0 && int_status
            & INT_STATUS_CEBE != 0),
        outcome == Err::<(), CommandDispatchError>(CommandDispatchError::IndexMismatch) <==> (
        int_status & INT_STATUS_CTOE == 0 && int_status & INT_STATUS_CCE == 0 && int_status
            & INT_STATUS_CEBE == 0 && int_status & INT_STATUS_CIE != 0),
{
    if int_status & INT_STATUS_CTOE != 0 {
        Err(CommandDispatchError::Timeout)
    } else if int_status & INT_STATUS_CCE != 0 {
        Err(CommandDispatchError::CrcError)
    } else if int_status & INT_STATUS_CEBE != 0 {
        Err(CommandDispatchError::EndBitError)
    } else if int_status & INT_STATUS_CIE != 0 {
        Err(CommandDispatchError::IndexMismatch)
    } else {
        proof {
            let s = int_status;
            assert(s & 0x000F_0001u32 != 0 && s & 0x0001_0000u32 == 0 && s & 0x0002_0000u32 == 0
                && s & 0x0004_0000u32 == 0 && s & 0x0008_0000u32 == 0 ==> s & 0x0000_0001u32
                == 0x0000_0001u32) by (bit_vector);
        }
        Ok(())
    }
}

/// One register-level command issue: the words for the argument register
/// and the transfer-type register.
#[derive(Clone, Copy, Debug, PartialEq, Eq, Structural)]
pub struct DispatchStep {
    /// The word for the command-argument register.
    pub arg: u32,
    /// The word for the transfer-type register.
    pub xfer: u32,
}

/// The register-level issue sequence for a command.
///
/// A command that requires the application-command convention is never
/// dispatched standalone: its plan opens with exactly one CMD55 prefix
/// whose argument is the relative card address shifted into the high 16
/// bits (0 while no address has been assigned), and the command itself
/// follows.  Any other command is its plan alone.
pub fn dispatch_plan<C: SdCommand>(cmd: &C, rca: u16) -> (plan: Vec<DispatchStep>)
    ensures
        plan@.len() == if cmd.spec_app_cmd() {
            2int
        } else {
            1int
        },
        cmd.spec_app_cmd() ==> plan@[0] == (DispatchStep {
            arg: (rca as u32) << 16,
            xfer: transfer_word(Response::R1, 55),
        }),
        plan@[plan@.len() - 1] == (DispatchStep {
            arg: cmd.spec_args(),
            xfer: transfer_word(cmd.spec_response(), cmd.spec_cmd()),
        }),
{
    let mut plan: Vec<DispatchStep> = Vec::new();
    if cmd.req_app_cmd() {
        let prefix = AppCmd::new(rca);
        plan.push(DispatchStep { arg: prefix.mk_args(), xfer: prefix.mk_xfer() });
    }
    plan.push(DispatchStep { arg: cmd.mk_args(), xfer: cmd.mk_xfer() });
    plan
}

/// The block-attribute register word for a block count and size, each
/// saturated at the field's capacity: the count (at most 65535) in the high
/// half, the size (at most 4096) in the low half.
pub fn block_attribute_word(count: u32, size: u32) -> (w: u32)
    ensures
        w == ((if count > 65535 {
            65535u32
        } else {
            count
        }) << 16) | (if size > 4096 {
            4096u32
        } else {
            size
        }),
{
    let capped_count = if count > 65535 {
        65535
    } else {
        count
    };
    let capped_size = if size > 4096 {
        4096
    } else {
        size
    };
    (capped_count << 16) | capped_size
}

/// The interrupt-status-enable word: every status bit enabled, so that the
/// polled status register latches completion, error and presence events.
pub fn interrupt_status_enable_word() -> (w: u32)
    ensures
        w == 0xFFFF_FFFFu32,
{
    0xFFFF_FFFF
}

/// The interrupt-signal-enable word that would route transfer completion,
/// the command and data error subtypes, DMA and buffer events, and card
/// insertion and removal to the interrupt line.  The polling design keeps
/// the line masked and this word unprogrammed, so the status register has
/// the polling path as its only writer.
pub fn interrupt_signal_enable_word() -> (w: u32)
    ensures
        w == 0x117F_00CBu32,
{
    let w = INT_STATUS_CC | 0x0000_0002 | 0x0000_0008 | 0x0000_0040 | 0x0000_0080 | INT_STATUS_CTOE
        | INT_STATUS_CCE | INT_STATUS_CEBE | INT_STATUS_CIE | 0x0010_0000 | 0x0020_0000
        | 0x0040_0000 | 0x0100_0000 | 0x1000_0000;
    proof {
        assert(0x0000_0001u32 | 0x0000_0002 | 0x0000_0008 | 0x0000_0040 | 0x0000_0080 | 0x0001_0000
            | 0x0002_0000 | 0x0004_0000 | 0x0008_0000 | 0x0010_0000 | 0x0020_0000 | 0x0040_0000
            | 0x0100_0000 | 0x1000_0000 == 0x117F_00CBu32) by (bit_vector);
    }
    w
}

/// The pad numbers bound to the six bus signals.  The controller owns its
/// pins exclusively for as long as it exists; binding is validated once,
/// at construction, against the pad set of the controller module in use.
#[derive(Clone, Copy, Debug, PartialEq, Eq, Structural)]
pub struct UsdhcPins {
    /// The pad carrying CMD.
    pub cmd: u8,
    /// The pad carrying CLK.
    pub clk: u8,
    /// The pad carrying DATA0.
    pub data0: u8,
    /// The pad carrying DATA1.
    pub data1: u8,
    /// The pad carrying DATA2.
    pub data2: u8,
    /// The pad carrying DATA3.
    pub data3: u8,
}

/// The offered pads do not all belong to the controller module.
#[derive(Clone, Copy, Debug, PartialEq, Eq, Structural)]
pub struct PinMismatch;

/// The pad set that carries the first controller module's bus on this
/// board: CMD on pad 45, CLK on 44, DATA0 to DATA3 on 43, 42, 47 and 46.
pub open spec fn module_1_pins() -> UsdhcPins {
    UsdhcPins { cmd: 45, clk: 44, data0: 43, data1: 42, data2: 47, data3: 46 }
}

/// Validates a pin binding for the first controller module: the offered
/// pads are accepted exactly when they are the module's own, signal by
/// signal.
pub fn bind_module_1_pins(pins: UsdhcPins) -> (bound: Result<UsdhcPins, PinMismatch>)
    ensures
        bound is Ok <==> pins == module_1_pins(),
        bound is Ok ==> bound == Ok::<UsdhcPins, PinMismatch>(pins),
{
    if pins.cmd == 45 && pins.clk == 44 && pins.data0 == 43 && pins.data1 == 42 && pins.data2 == 47
        && pins.data3 == 46 {
        Ok(pins)
    } else {
        Err(PinMismatch)
    }
}

/// The mode bookkeeping of the controller: which electrical configuration
/// is programmed and what SD clock it runs.
pub struct ControllerState {
    /// The configuration currently programmed.
    pub mode: CardMode,
    /// The SD clock of that configuration, in kHz (0 before the first plan).
    pub sd_clk_khz: u32,
}

impl ControllerState {
    /// A controller whose electrical configuration is not yet programmed.
    pub fn new() -> (s: Self)
        ensures
            s.mode == CardMode::Unknown,
            s.sd_clk_khz == 0,
    {
        Self { mode: CardMode::Unknown, sd_clk_khz: 0 }
    }

    /// Enters identification mode, idempotently: the result is `true`, and
    /// the runner must reset and reprogram the controller, exactly when the
    /// mode was not already identification.
    pub fn set_init_mode(&mut self) -> (reconfigure: bool)
        ensures
            reconfigure == (old(self).mode != CardMode::Identification),
            final(self).mode == CardMode::Identification,
            final(self).sd_clk_khz == old(self).sd_clk_khz,
    {
        let reconfigure = self.mode != CardMode::Identification;
        self.mode = CardMode::Identification;
        reconfigure
    }

    /// Records the SD clock of a freshly programmed divider plan.
    pub fn record_clock(&mut self, khz: u32)
        ensures
            final(self).mode == old(self).mode,
            final(self).sd_clk_khz == khz,
    {
        self.sd_clk_khz = khz;
    }
}

} // verus!
