use usdhc::commands::GoIdleState;
use usdhc::commands::SdAppOpCond;
use usdhc::commands::SendExtCsd;
use usdhc::constants::CardMode;
use usdhc::controller::bind_module_1_pins;
use usdhc::controller::block_attribute_word;
use usdhc::controller::command_outcome;
use usdhc::controller::command_status_clear_word;
use usdhc::controller::dispatch_plan;
use usdhc::controller::interrupt_signal_enable_word;
use usdhc::controller::interrupt_status_enable_word;
use usdhc::controller::is_card_busy;
use usdhc::controller::is_card_inserted;
use usdhc::controller::is_clock_stable;
use usdhc::controller::is_command_settled;
use usdhc::controller::CommandDispatchError;
use usdhc::controller::PinMismatch;
use usdhc::controller::UsdhcPins;
use usdhc::controller::ControllerState;
use usdhc::controller::INT_STATUS_CC;
use usdhc::controller::INT_STATUS_CCE;
use usdhc::controller::INT_STATUS_CEBE;
use usdhc::controller::INT_STATUS_CIE;
use usdhc::controller::INT_STATUS_CTOE;

#[test]
fn card_detect_reads_data3_sample() {
    assert!(is_card_inserted(0x0800_0000));
    assert!(is_card_inserted(0xFFFF_FFFF));
    assert!(!is_card_inserted(0x0000_0000));
    // every other bit set, the DATA3 sample clear
    assert!(!is_card_inserted(0xF7FF_FFFF));
}

#[test]
fn busy_and_stable_bits() {
    assert!(is_card_busy(0x0000_0001));
    assert!(!is_card_busy(0xFFFF_FFFE));
    assert!(is_clock_stable(0x0000_0008));
    assert!(!is_clock_stable(0xFFFF_FFF7));
}

#[test]
fn settled_when_complete_or_errored() {
    assert!(!is_command_settled(0));
    assert!(is_command_settled(INT_STATUS_CC));
    assert!(is_command_settled(INT_STATUS_CTOE));
    assert!(is_command_settled(INT_STATUS_CIE));
    // unrelated status bits alone do not settle a command
    assert!(!is_command_settled(0xF000_FFF0 & !0x000F_0001));
}

#[test]
fn outcome_success() {
    assert_eq!(command_outcome(INT_STATUS_CC), Ok(()));
    // other status bits do not disturb a clean completion
    assert_eq!(command_outcome(INT_STATUS_CC | 0x0000_00F0), Ok(()));
}

#[test]
fn outcome_error_kinds() {
    assert_eq!(command_outcome(INT_STATUS_CTOE), Err(CommandDispatchError::Timeout));
    assert_eq!(command_outcome(INT_STATUS_CCE), Err(CommandDispatchError::CrcError));
    assert_eq!(command_outcome(INT_STATUS_CEBE), Err(CommandDispatchError::EndBitError));
    assert_eq!(command_outcome(INT_STATUS_CIE), Err(CommandDispatchError::IndexMismatch));
    // an error wins over a simultaneous complete bit
    assert_eq!(
        command_outcome(INT_STATUS_CC | INT_STATUS_CCE),
        Err(CommandDispatchError::CrcError)
    );
    // timeout is reported first
    assert_eq!(
        command_outcome(INT_STATUS_CTOE | INT_STATUS_CCE | INT_STATUS_CIE),
        Err(CommandDispatchError::Timeout)
    );
}

#[test]
fn clear_word_acknowledges_only_command_bits() {
    let status = 0xFFFF_FFFF;
    assert_eq!(command_status_clear_word(status), 0x000F_0001);
    assert_eq!(command_status_clear_word(INT_STATUS_CC | 0x0000_0040), INT_STATUS_CC);
}

#[test]
fn app_command_plan_has_prefix() {
    // An application command is never dispatched standalone: the plan
    // opens with CMD55 carrying the relative address (0 during
    // identification) and the command itself follows.
    let cmd = SdAppOpCond::new(0x4030_0000);
    let plan = dispatch_plan(&cmd, 0);
    assert_eq!(plan.len(), 2);
    assert_eq!(plan[0].arg, 0);
    assert_eq!(plan[0].xfer, 0x1110_0000 | (55 << 24));
    assert_eq!(plan[1].arg, 0x4030_0000);
    assert_eq!(plan[1].xfer, 0x0002_0000 | (41 << 24));
}

#[test]
fn app_command_plan_carries_relative_address() {
    let cmd = SdAppOpCond::new(0);
    let plan = dispatch_plan(&cmd, 0x1234);
    assert_eq!(plan.len(), 2);
    assert_eq!(plan[0].arg, 0x1234_0000);
}

#[test]
fn ordinary_command_plan_is_bare() {
    let plan = dispatch_plan(&GoIdleState::new(), 0);
    assert_eq!(plan.len(), 1);
    assert_eq!(plan[0].arg, 0);
    assert_eq!(plan[0].xfer, 0);

    let plan = dispatch_plan(&SendExtCsd::new(), 0);
    assert_eq!(plan.len(), 1);
    assert_eq!(plan[0].arg, 0x1AA);
    assert_eq!(plan[0].xfer, 0x1110_0000 | (8 << 24));
}

#[test]
fn block_attribute_packing_and_caps() {
    assert_eq!(block_attribute_word(1, 512), (1 << 16) | 512);
    assert_eq!(block_attribute_word(65535, 4096), (65535 << 16) | 4096);
    assert_eq!(block_attribute_word(70_000, 5_000), (65535 << 16) | 4096);
    assert_eq!(block_attribute_word(0, 0), 0);
}

#[test]
fn interrupt_enable_words() {
    assert_eq!(interrupt_status_enable_word(), 0xFFFF_FFFF);
    assert_eq!(interrupt_signal_enable_word(), 0x117F_00CB);
}

#[test]
fn pin_binding_is_validated_at_construction() {
    let pins = UsdhcPins { cmd: 45, clk: 44, data0: 43, data1: 42, data2: 47, data3: 46 };
    assert_eq!(bind_module_1_pins(pins), Ok(pins));

    let swapped = UsdhcPins { cmd: 44, clk: 45, data0: 43, data1: 42, data2: 47, data3: 46 };
    assert_eq!(bind_module_1_pins(swapped), Err(PinMismatch));
}

#[test]
fn init_mode_is_idempotent() {
    let mut state = ControllerState::new();
    assert_eq!(state.mode, CardMode::Unknown);
    assert_eq!(state.sd_clk_khz, 0);
    // the first entry asks for a reset and reprogramming
    assert!(state.set_init_mode());
    assert_eq!(state.mode, CardMode::Identification);
    state.record_clock(386);
    // re-entering identification mode is a no-op
    assert!(!state.set_init_mode());
    assert_eq!(state.mode, CardMode::Identification);
    assert_eq!(state.sd_clk_khz, 386);
}
