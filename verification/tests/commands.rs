use usdhc::commands::ACmd;
use usdhc::commands::AcCommand;
use usdhc::commands::AdtcCommand;
use usdhc::commands::AllSendCid;
use usdhc::commands::AppCmd;
use usdhc::commands::BcCommand;
use usdhc::commands::BcrCommand;
use usdhc::commands::Command;
use usdhc::commands::GoIdleState;
use usdhc::commands::Response;
use usdhc::commands::SdAppOpCond;
use usdhc::commands::SdCommand;
use usdhc::commands::SelectDeselectCard;
use usdhc::commands::SendCid;
use usdhc::commands::SendCsd;
use usdhc::commands::SendExtCsd;
use usdhc::commands::SendOpCond;
use usdhc::commands::SendStatus;
use usdhc::commands::SetBusWidth;
use usdhc::commands::SetSendRelativeAddr;
use usdhc::commands::SwitchFunc;
use usdhc::commands::RESPONSE_MASK;
use usdhc::block_transfer::ExtCsd;

#[test]
fn response_flag_table() {
    assert_eq!(Response::NoResponse.flags(), 0);
    assert_eq!(Response::R2.flags(), 0b0101 << 16);
    assert_eq!(Response::R3.flags(), 0b0010 << 16);
    assert_eq!(Response::R4.flags(), 0b0010 << 16);
    assert_eq!(Response::R1.flags(), 0x1110_0000);
    assert_eq!(Response::R5.flags(), 0x1110_0000);
    assert_eq!(Response::R6.flags(), 0x1110_0000);
    assert_eq!(Response::R1b.flags(), 0b1111 << 16);
    assert_eq!(Response::R5b.flags(), 0b1111 << 16);
}

#[test]
fn response_mask_isolates_flags() {
    // Under the response mask, the transfer word of any command carries
    // exactly its response kind's masked flags, whatever the index.
    for index in [0u32, 8, 41, 55, 63] {
        let kinds = [
            (Response::NoResponse, 0x0000_0000u32),
            (Response::R2, 0x0005_0000),
            (Response::R3, 0x0002_0000),
            (Response::R1, 0x0010_0000),
            (Response::R1b, 0x000F_0000),
        ];
        for (kind, masked) in kinds {
            let xfer = kind.flags() | (index << 24);
            assert_eq!(xfer & RESPONSE_MASK, masked);
        }
    }
}

#[test]
fn go_idle_state_encoding() {
    let c = GoIdleState::new();
    assert_eq!(c.mk_args(), 0);
    assert_eq!(c.mk_xfer(), 0x0000_0000);
    assert!(!c.req_app_cmd());
}

#[test]
fn send_op_cond_encoding() {
    let c = SendOpCond::new(0x0030_0000);
    assert_eq!(c.mk_args(), 0x0030_0000);
    assert_eq!(c.mk_xfer(), 0x0102_0000);
    assert!(!c.req_app_cmd());
}

#[test]
fn all_send_cid_encoding() {
    let c = AllSendCid::new();
    assert_eq!(c.mk_args(), 0);
    assert_eq!(c.mk_xfer(), 0x0205_0000);
}

#[test]
fn set_send_relative_addr_encoding() {
    let c = SetSendRelativeAddr::new(0xABCD);
    assert_eq!(c.mk_args(), 0xABCD_0000);
    // index 3 in the high byte together with the R1 pattern
    assert_eq!(c.mk_xfer(), 0x1110_0000 | (3 << 24));
    assert_eq!(c.mk_xfer(), 0x1310_0000);
}

#[test]
fn switch_func_encoding() {
    let c = SwitchFunc::new(true, 1, 1);
    // the argument combinator masks everything out: preserved behavior
    assert_eq!(c.mk_args(), 0);
    assert_eq!(c.mk_xfer(), 0x1110_0000 | (6 << 24));
}

#[test]
fn set_bus_width_encoding() {
    let c = SetBusWidth::new(0b10);
    assert_eq!(c.mk_args(), 0b10);
    assert_eq!(c.mk_xfer(), 0x1110_0000 | (6 << 24));
    assert!(c.req_app_cmd());
}

#[test]
fn select_deselect_card_encoding() {
    let c = SelectDeselectCard::new(1);
    assert_eq!(c.mk_args(), 0x0001_0000);
    assert_eq!(c.mk_xfer(), 0x000F_0000 | (7 << 24));
}

#[test]
fn send_ext_csd_encoding() {
    let c = SendExtCsd::new();
    assert_eq!(c.mk_args(), 0x1AA);
    assert_eq!(c.mk_xfer(), 0x1110_0000 | (8 << 24));
    assert_eq!(c.mk_xfer(), 0x1910_0000);
    assert!(!c.req_app_cmd());
}

#[test]
fn send_csd_encoding() {
    let c = SendCsd::new(2);
    assert_eq!(c.mk_args(), 0x0002_0000);
    assert_eq!(c.mk_xfer(), 0x1110_0000 | (9 << 24));
}

#[test]
fn send_cid_encoding() {
    let c = SendCid::new(2);
    assert_eq!(c.mk_args(), 0x0002_0000);
    assert_eq!(c.mk_xfer(), 0x1110_0000 | (10 << 24));
}

#[test]
fn send_status_encoding() {
    let c = SendStatus::new(2);
    assert_eq!(c.mk_args(), 0x0002_0000);
    assert_eq!(c.mk_xfer(), 0x000F_0000 | (13 << 24));
}

#[test]
fn sd_app_op_cond_encoding() {
    let c = SdAppOpCond::new(0x4030_0000);
    assert_eq!(c.mk_args(), 0x4030_0000);
    assert_eq!(c.mk_xfer(), 0x0002_0000 | (41 << 24));
    assert_eq!(c.mk_xfer(), 0x2902_0000);
    assert!(c.req_app_cmd());
}

#[test]
fn app_cmd_encoding() {
    let c = AppCmd::new(0);
    assert_eq!(c.mk_args(), 0);
    assert_eq!(c.mk_xfer(), 0x1110_0000 | (55 << 24));
    assert!(!c.req_app_cmd());
}

#[test]
fn encoding_is_deterministic() {
    // Identical command fields always give identical register words.
    let a = SdAppOpCond::new(0x4030_0000);
    let b = SdAppOpCond::new(0x4030_0000);
    assert_eq!(a.mk_args(), b.mk_args());
    assert_eq!(a.mk_xfer(), b.mk_xfer());
    assert_eq!(a.mk_xfer(), a.mk_xfer());
}

#[test]
fn bc_command_indices() {
    assert_eq!(BcCommand::GoIdleState.index(), 0);
    assert_eq!(BcCommand::SetDsr.index(), 4);
    assert_eq!(BcCommand::IoSendOpCond.index(), 5);
}

#[test]
fn bcr_command_indices() {
    assert_eq!(BcrCommand::SendOpCond.index(), 1);
    assert_eq!(BcrCommand::AllSendCid.index(), 2);
    assert_eq!(BcrCommand::IoSendOpCond.index(), 40);
}

#[test]
fn ac_command_indices() {
    assert_eq!(AcCommand::SetSendRelativeAddr.index(), 3);
    assert_eq!(AcCommand::Switch.index(), 6);
    assert_eq!(AcCommand::SelectDeselectCard.index(), 7);
    assert_eq!(AcCommand::SendCsd.index(), 9);
    assert_eq!(AcCommand::SendCid.index(), 10);
    assert_eq!(AcCommand::StopTransmission.index(), 12);
    assert_eq!(AcCommand::SendStatus.index(), 13);
    assert_eq!(AcCommand::GoInactiveState.index(), 15);
    assert_eq!(AcCommand::SetBlocklen.index(), 16);
    assert_eq!(AcCommand::SetWriteProt.index(), 28);
    assert_eq!(AcCommand::ClrWriteProt.index(), 29);
    assert_eq!(AcCommand::TagSectorStart.index(), 32);
    assert_eq!(AcCommand::TagSectorEnd.index(), 33);
    assert_eq!(AcCommand::UntagSector.index(), 34);
    assert_eq!(AcCommand::TagEraseGroupStart.index(), 35);
    assert_eq!(AcCommand::TagEraseGroupEnd.index(), 36);
    assert_eq!(AcCommand::UntagEraseGroup.index(), 37);
    assert_eq!(AcCommand::Erase.index(), 38);
    assert_eq!(AcCommand::FastIo.index(), 39);
    assert_eq!(AcCommand::IoRwDirect.index(), 52);
    assert_eq!(AcCommand::IoRwExtended.index(), 53);
    assert_eq!(AcCommand::AppCmd.index(), 55);
}

#[test]
fn adtc_command_indices() {
    assert_eq!(AdtcCommand::SwitchFunc.index(), 6);
    assert_eq!(AdtcCommand::SendExtCsd.index(), 8);
    assert_eq!(AdtcCommand::ReadDatUntilStop.index(), 11);
    assert_eq!(AdtcCommand::ReadSingleBlock.index(), 17);
    assert_eq!(AdtcCommand::ReadMultipleBlock.index(), 18);
    assert_eq!(AdtcCommand::SendTuningBlock64.index(), 19);
    assert_eq!(AdtcCommand::WriteDatUntilStop.index(), 20);
    assert_eq!(AdtcCommand::SendTuningBlock128.index(), 21);
    assert_eq!(AdtcCommand::WriteBlock.index(), 24);
    assert_eq!(AdtcCommand::WriteMultipleBlock.index(), 25);
    assert_eq!(AdtcCommand::ProgramCid.index(), 26);
    assert_eq!(AdtcCommand::ProgramCsd.index(), 27);
    assert_eq!(AdtcCommand::SendWriteProt.index(), 30);
    assert_eq!(AdtcCommand::LockUnlock.index(), 42);
    assert_eq!(AdtcCommand::GenCmd.index(), 56);
    assert_eq!(AdtcCommand::RwMultipleRegister.index(), 60);
    assert_eq!(AdtcCommand::RwMultipleBlock.index(), 61);
}

#[test]
fn acmd_indices() {
    assert_eq!(ACmd::SetBusWidth.index(), 6);
    assert_eq!(ACmd::SdStatus.index(), 13);
    assert_eq!(ACmd::SendNumWrSectors.index(), 22);
    assert_eq!(ACmd::SetWrBlkEraseCount.index(), 23);
    assert_eq!(ACmd::SdAppOpCond.index(), 41);
    assert_eq!(ACmd::SetClrCardDetect.index(), 42);
    assert_eq!(ACmd::SendScr.index(), 51);
}

#[test]
fn tagged_command_indices() {
    assert_eq!(Command::Bc(BcCommand::GoIdleState).index(), 0);
    assert_eq!(Command::Bcr(BcrCommand::AllSendCid).index(), 2);
    assert_eq!(Command::Ac(AcCommand::AppCmd).index(), 55);
    assert_eq!(Command::Adtc(AdtcCommand::SendExtCsd).index(), 8);
    assert_eq!(Command::Acmd(ACmd::SdAppOpCond).index(), 41);
}

#[test]
fn ext_csd_access_bits() {
    assert_eq!(ExtCsd::CommandSet.access_bits(), 0b00);
    assert_eq!(ExtCsd::SetBits.access_bits(), 0b01);
    assert_eq!(ExtCsd::ClearBits.access_bits(), 0b10);
    assert_eq!(ExtCsd::WriteByte.access_bits(), 0b11);
}
