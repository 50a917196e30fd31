//! SD/MMC command model.
//!
//! A semantic card command is translated into the two 32-bit words the
//! controller's command registers consume: the argument word and the
//! transfer-type word.  The transfer-type word is the response-kind flag
//! pattern combined with the command index shifted into bits 24 and up.
//! The translation is pure: it depends only on the command's own fields,
//! never on card or controller state.

use vstd::prelude::*;

verus! {

/// Response kinds of the SD/MMC command protocol.  Each kind maps to a
/// fixed transfer-type flag pattern; the mapping is total and constant.
#[derive(Clone, Copy, Debug)]
pub enum Response {
    NoResponse,
    R1,
    R1b,
    R2,
    R3,
    R4,
    R5,
    R5b,
    R6,
}

/// The four command categories of the physical-layer protocol.
#[derive(Clone, Copy, Debug)]
pub enum CommandType {
    /// Broadcast (bc): sent to all cards, no response.
    Broadcast,
    /// Broadcast with response (bcr): all cards may answer.
    BroadcastWithReturn,
    /// Addressed (ac): targets one card, no data transfer.
    AddressedCommand,
    /// Addressed data transfer (adtc): targets one card, moves data.
    AddressedDataTransferCommand,
}

/// The fixed transfer-type flag pattern for each response kind.
///
/// The pattern for `R1`/`R5`/`R6` sets bits above the four-bit response
/// field, up into the command-index field; whether the controller wants
/// exactly these bits is open until it is re-derived from the peripheral
/// datasheet, so the value is kept fixed here as is.
pub open spec fn response_flags(r: Response) -> u32 {
    match r {
        Response::NoResponse => 0u32,
        Response::R2 => 0b0101u32 << 16,
        Response::R3 | Response::R4 => 0b0010u32 << 16,
        Response::R1 | Response::R5 | Response::R6 => 0x1110u32 << 16,
        Response::R1b | Response::R5b => 0b1111u32 << 16,
    }
}

/// The transfer-type register word for a command: its response-kind flags
/// combined with its command index placed at bit 24.
pub open spec fn transfer_word(r: Response, index: u32) -> u32 {
    response_flags(r) | (index << 24)
}

impl Response {
    /// The executable counterpart of [`response_flags`].
    pub fn flags(self) -> (r: u32)
        ensures
            r == response_flags(self),
    {
        match self {
            Response::NoResponse => 0,
            Response::R2 => 0b0101 << 16,
            Response::R3 | Response::R4 => 0b0010 << 16,
            Response::R1 | Response::R5 | Response::R6 => 0x1110 << 16,
            Response::R1b | Response::R5b => 0b1111 << 16,
        }
    }
}

/// A command that the host can issue: its index, response kind, category,
/// argument word, and whether it must be preceded by the application-command
/// prefix (CMD55).
///
/// The spec functions give the mathematical value of each field; the
/// executable methods return exactly those values, so encoding a command is
/// deterministic in the command's fields alone.
pub trait SdCommand: Sized {
    /// The command index, in 0..64.
    spec fn spec_cmd(&self) -> u32;

    /// The response kind the card will answer with.
    spec fn spec_response(&self) -> Response;

    /// The command's category.
    spec fn spec_command_type(&self) -> CommandType;

    /// Whether the command is an application command (needs a CMD55 prefix).
    spec fn spec_app_cmd(&self) -> bool;

    /// The 32-bit argument word.
    spec fn spec_args(&self) -> u32;

    /// The command index as programmed into the transfer-type word.
    fn cmd_index(&self) -> (index: u32)
        ensures
            index == self.spec_cmd(),
    ;

    /// The response kind.
    fn response(&self) -> (resp: Response)
        ensures
            resp == self.spec_response(),
    ;

    /// The command category.
    fn command_type(&self) -> (t: CommandType)
        ensures
            t == self.spec_command_type(),
    ;

    /// Whether dispatch must first issue the application-command prefix.
    fn req_app_cmd(&self) -> (r: bool)
        ensures
            r == self.spec_app_cmd(),
    ;

    /// The argument register word.
    fn mk_args(&self) -> (args: u32)
        ensures
            args == self.spec_args(),
    ;

    /// The transfer-type register word.
    fn mk_xfer(&self) -> (xfer: u32)
        ensures
            xfer == transfer_word(self.spec_response(), self.spec_cmd()),
    {
        let resp_flags: u32 = self.response().flags();
        resp_flags | (self.cmd_index() << 24)
    }
}

/// CMD0: resets all MMC and SD memory cards to idle state.  Broadcast, no
/// response; the argument is always 0 (stuff bits).
pub struct GoIdleState(pub ());

impl GoIdleState {
    pub fn new() -> Self {
        Self(())
    }
}

impl SdCommand for GoIdleState {
    open spec fn spec_cmd(&self) -> u32 {
        0
    }

    open spec fn spec_response(&self) -> Response {
        Response::NoResponse
    }

    open spec fn spec_command_type(&self) -> CommandType {
        CommandType::Broadcast
    }

    open spec fn spec_app_cmd(&self) -> bool {
        false
    }

    open spec fn spec_args(&self) -> u32 {
        0
    }

    fn cmd_index(&self) -> u32 {
        0
    }

    fn response(&self) -> Response {
        Response::NoResponse
    }

    fn command_type(&self) -> CommandType {
        CommandType::Broadcast
    }

    fn req_app_cmd(&self) -> bool {
        false
    }

    fn mk_args(&self) -> u32 {
        0
    }
}

/// CMD1: asks all MMC and SD memory cards in idle state to send their
/// operation-conditions register contents.  Response kind R3; the argument
/// is the OCR word without the busy bit.
pub struct SendOpCond(pub u32);

impl SendOpCond {
    pub fn new(orc: u32) -> (c: Self)
        ensures
            c.spec_args() == orc,
    {
        Self(orc)
    }
}

impl SdCommand for SendOpCond {
    open spec fn spec_cmd(&self) -> u32 {
        1
    }

    open spec fn spec_response(&self) -> Response {
        Response::R3
    }

    open spec fn spec_command_type(&self) -> CommandType {
        CommandType::BroadcastWithReturn
    }

    open spec fn spec_app_cmd(&self) -> bool {
        false
    }

    open spec fn spec_args(&self) -> u32 {
        self.0
    }

    fn cmd_index(&self) -> u32 {
        1
    }

    fn response(&self) -> Response {
        Response::R3
    }

    fn command_type(&self) -> CommandType {
        CommandType::BroadcastWithReturn
    }

    fn req_app_cmd(&self) -> bool {
        false
    }

    fn mk_args(&self) -> u32 {
        self.0
    }
}

/// CMD2: asks all cards to send their CID numbers.  Response kind R2; the
/// argument is stuff bits.
pub struct AllSendCid(pub ());

impl AllSendCid {
    pub fn new() -> Self {
        Self(())
    }
}

impl SdCommand for AllSendCid {
    open spec fn spec_cmd(&self) -> u32 {
        2
    }

    open spec fn spec_response(&self) -> Response {
        Response::R2
    }

    open spec fn spec_command_type(&self) -> CommandType {
        CommandType::BroadcastWithReturn
    }

    open spec fn spec_app_cmd(&self) -> bool {
        false
    }

    open spec fn spec_args(&self) -> u32 {
        0
    }

    fn cmd_index(&self) -> u32 {
        2
    }

    fn response(&self) -> Response {
        Response::R2
    }

    fn command_type(&self) -> CommandType {
        CommandType::BroadcastWithReturn
    }

    fn req_app_cmd(&self) -> bool {
        false
    }

    fn mk_args(&self) -> u32 {
        0
    }
}

/// CMD3: assigns a relative address to the card.  The relative card address
/// sits in the high 16 bits of the argument.
pub struct SetSendRelativeAddr(pub u32);

impl SetSendRelativeAddr {
    pub fn new(rca: u16) -> (c: Self)
        ensures
            c.spec_args() == (rca as u32) << 16,
    {
        Self(rca as u32)
    }
}

impl SdCommand for SetSendRelativeAddr {
    open spec fn spec_cmd(&self) -> u32 {
        3
    }

    open spec fn spec_response(&self) -> Response {
        Response::R1
    }

    open spec fn spec_command_type(&self) -> CommandType {
        CommandType::AddressedCommand
    }

    open spec fn spec_app_cmd(&self) -> bool {
        false
    }

    open spec fn spec_args(&self) -> u32 {
        self.0 << 16
    }

    fn cmd_index(&self) -> u32 {
        3
    }

    fn response(&self) -> Response {
        Response::R1
    }

    fn command_type(&self) -> CommandType {
        CommandType::AddressedCommand
    }

    fn req_app_cmd(&self) -> bool {
        false
    }

    fn mk_args(&self) -> u32 {
        self.0 << 16
    }
}

/// CMD6 (SWITCH_FUNC, high-speed SD): checks (mode 0) or switches (mode 1)
/// the card function.  The argument combines the mode bit with the
/// command-system and access-mode groups; the combinator conjoins the
/// disjoint fields, so every argument collapses to 0.
pub struct SwitchFunc(pub bool, pub u32, pub u32);

impl SwitchFunc {
    pub fn new(mode: bool, command_system: u8, access_mode: u8) -> (c: Self)
        ensures
            c == (SwitchFunc(mode, command_system as u32, access_mode as u32)),
    {
        Self(mode, command_system as u32, access_mode as u32)
    }
}

impl SdCommand for SwitchFunc {
    open spec fn spec_cmd(&self) -> u32 {
        6
    }

    open spec fn spec_response(&self) -> Response {
        Response::R1
    }

    open spec fn spec_command_type(&self) -> CommandType {
        CommandType::AddressedDataTransferCommand
    }

    open spec fn spec_app_cmd(&self) -> bool {
        false
    }

    open spec fn spec_args(&self) -> u32 {
        (if self.0 {
            0x8000_0000u32
        } else {
            0x0000_0000u32
        }) & ((self.1 & 0b0111) << 4) & (self.2 & 0b0111)
    }

    fn cmd_index(&self) -> u32 {
        6
    }

    fn response(&self) -> Response {
        Response::R1
    }

    fn command_type(&self) -> CommandType {
        CommandType::AddressedDataTransferCommand
    }

    fn req_app_cmd(&self) -> bool {
        false
    }

    fn mk_args(&self) -> u32 {
        (if self.0 {
            0x8000_0000
        } else {
            0x0000_0000
        }) & ((self.1 & 0b0111) << 4) & (self.2 & 0b0111)
    }
}

/// ACMD6: defines the data bus width (0b00 = 1 bit, 0b10 = 4 bit).  An
/// application command: dispatch must send the CMD55 prefix first.
pub struct SetBusWidth(pub u32);

impl SetBusWidth {
    pub fn new(width: u8) -> (c: Self)
        ensures
            c.spec_args() == width as u32,
    {
        Self(width as u32)
    }
}

impl SdCommand for SetBusWidth {
    open spec fn spec_cmd(&self) -> u32 {
        6
    }

    open spec fn spec_response(&self) -> Response {
        Response::R1
    }

    open spec fn spec_command_type(&self) -> CommandType {
        CommandType::AddressedCommand
    }

    open spec fn spec_app_cmd(&self) -> bool {
        true
    }

    open spec fn spec_args(&self) -> u32 {
        self.0
    }

    fn cmd_index(&self) -> u32 {
        6
    }

    fn response(&self) -> Response {
        Response::R1
    }

    fn command_type(&self) -> CommandType {
        CommandType::AddressedCommand
    }

    fn req_app_cmd(&self) -> bool {
        true
    }

    fn mk_args(&self) -> u32 {
        self.0
    }
}

/// CMD7: selects the card with the given relative address (address 0
/// deselects all).  The relative card address sits in the high 16 bits.
pub struct SelectDeselectCard(pub u32);

impl SelectDeselectCard {
    pub fn new(rca: u16) -> (c: Self)
        ensures
            c.spec_args() == (rca as u32) << 16,
    {
        Self(rca as u32)
    }
}

impl SdCommand for SelectDeselectCard {
    open spec fn spec_cmd(&self) -> u32 {
        7
    }

    open spec fn spec_response(&self) -> Response {
        Response::R1b
    }

    open spec fn spec_command_type(&self) -> CommandType {
        CommandType::AddressedCommand
    }

    open spec fn spec_app_cmd(&self) -> bool {
        false
    }

    open spec fn spec_args(&self) -> u32 {
        self.0 << 16
    }

    fn cmd_index(&self) -> u32 {
        7
    }

    fn response(&self) -> Response {
        Response::R1b
    }

    fn command_type(&self) -> CommandType {
        CommandType::AddressedCommand
    }

    fn req_app_cmd(&self) -> bool {
        false
    }

    fn mk_args(&self) -> u32 {
        self.0 << 16
    }
}

/// CMD8: the version probe.  The argument is always the fixed pattern
/// `0x1AA`: the supported voltage window together with the check pattern a
/// version-2 card must echo back.
pub struct SendExtCsd(pub ());

impl SendExtCsd {
    pub fn new() -> Self {
        Self(())
    }
}

impl SdCommand for SendExtCsd {
    open spec fn spec_cmd(&self) -> u32 {
        8
    }

    open spec fn spec_response(&self) -> Response {
        Response::R1
    }

    open spec fn spec_command_type(&self) -> CommandType {
        CommandType::BroadcastWithReturn
    }

    open spec fn spec_app_cmd(&self) -> bool {
        false
    }

    open spec fn spec_args(&self) -> u32 {
        0x01aa
    }

    fn cmd_index(&self) -> u32 {
        8
    }

    fn response(&self) -> Response {
        Response::R1
    }

    fn command_type(&self) -> CommandType {
        CommandType::BroadcastWithReturn
    }

    fn req_app_cmd(&self) -> bool {
        false
    }

    fn mk_args(&self) -> u32 {
        0x01aa
    }
}

/// CMD9: the addressed card sends its card-specific data (CSD).  The
/// relative card address sits in the high 16 bits.
pub struct SendCsd(pub u32);

impl SendCsd {
    pub fn new(rca: u16) -> (c: Self)
        ensures
            c.spec_args() == (rca as u32) << 16,
    {
        Self(rca as u32)
    }
}

impl SdCommand for SendCsd {
    open spec fn spec_cmd(&self) -> u32 {
        9
    }

    open spec fn spec_response(&self) -> Response {
        Response::R1
    }

    open spec fn spec_command_type(&self) -> CommandType {
        CommandType::AddressedCommand
    }

    open spec fn spec_app_cmd(&self) -> bool {
        false
    }

    open spec fn spec_args(&self) -> u32 {
        self.0 << 16
    }

    fn cmd_index(&self) -> u32 {
        9
    }

    fn response(&self) -> Response {
        Response::R1
    }

    fn command_type(&self) -> CommandType {
        CommandType::AddressedCommand
    }

    fn req_app_cmd(&self) -> bool {
        false
    }

    fn mk_args(&self) -> u32 {
        self.0 << 16
    }
}

/// CMD10: the addressed card sends its card identification (CID).  The
/// relative card address sits in the high 16 bits.
pub struct SendCid(pub u32);

impl SendCid {
    pub fn new(rca: u16) -> (c: Self)
        ensures
            c.spec_args() == (rca as u32) << 16,
    {
        Self(rca as u32)
    }
}

impl SdCommand for SendCid {
    open spec fn spec_cmd(&self) -> u32 {
        10
    }

    open spec fn spec_response(&self) -> Response {
        Response::R1
    }

    open spec fn spec_command_type(&self) -> CommandType {
        CommandType::AddressedCommand
    }

    open spec fn spec_app_cmd(&self) -> bool {
        false
    }

    open spec fn spec_args(&self) -> u32 {
        self.0 << 16
    }

    fn cmd_index(&self) -> u32 {
        10
    }

    fn response(&self) -> Response {
        Response::R1
    }

    fn command_type(&self) -> CommandType {
        CommandType::AddressedCommand
    }

    fn req_app_cmd(&self) -> bool {
        false
    }

    fn mk_args(&self) -> u32 {
        self.0 << 16
    }
}

/// CMD13: the addressed card sends its status register.  The relative card
/// address sits in the high 16 bits.
pub struct SendStatus(pub u32);

impl SendStatus {
    pub fn new(rca: u16) -> (c: Self)
        ensures
            c.spec_args() == (rca as u32) << 16,
    {
        Self(rca as u32)
    }
}

impl SdCommand for SendStatus {
    open spec fn spec_cmd(&self) -> u32 {
        13
    }

    open spec fn spec_response(&self) -> Response {
        Response::R1b
    }

    open spec fn spec_command_type(&self) -> CommandType {
        CommandType::AddressedCommand
    }

    open spec fn spec_app_cmd(&self) -> bool {
        false
    }

    open spec fn spec_args(&self) -> u32 {
        self.0 << 16
    }

    fn cmd_index(&self) -> u32 {
        13
    }

    fn response(&self) -> Response {
        Response::R1b
    }

    fn command_type(&self) -> CommandType {
        CommandType::AddressedCommand
    }

    fn req_app_cmd(&self) -> bool {
        false
    }

    fn mk_args(&self) -> u32 {
        self.0 << 16
    }
}

/// ACMD41: operation-conditions negotiation.  An application command with
/// response kind R3; the argument is the OCR word offered by the host.
pub struct SdAppOpCond(pub u32);

impl SdAppOpCond {
    pub fn new(orc: u32) -> (c: Self)
        ensures
            c.spec_args() == orc,
    {
        Self(orc)
    }
}

impl SdCommand for SdAppOpCond {
    open spec fn spec_cmd(&self) -> u32 {
        41
    }

    open spec fn spec_response(&self) -> Response {
        Response::R3
    }

    open spec fn spec_command_type(&self) -> CommandType {
        CommandType::BroadcastWithReturn
    }

    open spec fn spec_app_cmd(&self) -> bool {
        true
    }

    open spec fn spec_args(&self) -> u32 {
        self.0
    }

    fn cmd_index(&self) -> u32 {
        41
    }

    fn response(&self) -> Response {
        Response::R3
    }

    fn command_type(&self) -> CommandType {
        CommandType::BroadcastWithReturn
    }

    fn req_app_cmd(&self) -> bool {
        true
    }

    fn mk_args(&self) -> u32 {
        self.0
    }
}

/// CMD55: announces that the next command is an application command.  The
/// relative card address sits in the high 16 bits of the argument.
pub struct AppCmd(pub u32);

impl AppCmd {
    pub fn new(rca: u16) -> (c: Self)
        ensures
            c.spec_args() == (rca as u32) << 16,
    {
        Self(rca as u32)
    }
}

impl SdCommand for AppCmd {
    open spec fn spec_cmd(&self) -> u32 {
        55
    }

    open spec fn spec_response(&self) -> Response {
        Response::R1
    }

    open spec fn spec_command_type(&self) -> CommandType {
        CommandType::AddressedCommand
    }

    open spec fn spec_app_cmd(&self) -> bool {
        false
    }

    open spec fn spec_args(&self) -> u32 {
        self.0 << 16
    }

    fn cmd_index(&self) -> u32 {
        55
    }

    fn response(&self) -> Response {
        Response::R1
    }

    fn command_type(&self) -> CommandType {
        CommandType::AddressedCommand
    }

    fn req_app_cmd(&self) -> bool {
        false
    }

    fn mk_args(&self) -> u32 {
        self.0 << 16
    }
}

/// A command of any category, tagged with its category.
#[derive(Clone, Copy, Debug)]
pub enum Command {
    Bc(BcCommand),
    Bcr(BcrCommand),
    Ac(AcCommand),
    Adtc(AdtcCommand),
    Acmd(ACmd),
}

/// Broadcast commands (bc): sent to all cards, no response.
#[derive(Clone, Copy, Debug)]
pub enum BcCommand {
    /// CMD0: resets all MMC and SD memory cards to idle state.
    GoIdleState,
    /// CMD4: programs the DSR of all cards.
    SetDsr,
    /// CMD5: asks all SDIO cards in idle state for their operation conditions.
    IoSendOpCond,
}

/// Broadcast commands with response (bcr): all cards answer simultaneously.
#[derive(Clone, Copy, Debug)]
pub enum BcrCommand {
    /// CMD1: asks all cards in idle state for their operation conditions (R3).
    SendOpCond,
    /// CMD2: asks all cards to send their CID numbers (R2).
    AllSendCid,
    /// CMD40: sets the system into interrupt mode (R5).
    IoSendOpCond,
}

/// Addressed point-to-point commands (ac): no data transfer on the DATA lines.
#[non_exhaustive]
#[derive(Clone, Copy, Debug)]
pub enum AcCommand {
    /// CMD3: assigns a relative address to the card (R1 / R6 for SDIO).
    SetSendRelativeAddr,
    /// CMD6: switches the operation mode of a high-speed MMC card (R1b).
    Switch,
    /// CMD7: selects the addressed card; address 0 deselects all (R1b).
    SelectDeselectCard,
    /// CMD9: the addressed card sends its card-specific data (R2).
    SendCsd,
    /// CMD10: the addressed card sends its card identification (R2).
    SendCid,
    /// CMD12: stops a transmission (R1b).
    StopTransmission,
    /// CMD13: the addressed card sends its status register (R1b).
    SendStatus,
    /// CMD15: sends the addressed card into the inactive state.
    GoInactiveState,
    /// CMD16: sets the block length for following block commands (R1).
    SetBlocklen,
    /// CMD28: sets the write-protection bit of the addressed group (R1b).
    SetWriteProt,
    /// CMD29: clears the write-protection bit of the addressed group (R1b).
    ClrWriteProt,
    /// CMD32: sets the first sector of the erase group (R1).
    TagSectorStart,
    /// CMD33: sets the last sector of a continuous erase range (R1).
    TagSectorEnd,
    /// CMD34: removes one sector from the erase selection (R1).
    UntagSector,
    /// CMD35: sets the first erase group of a range to erase (R1).
    TagEraseGroupStart,
    /// CMD36: sets the last erase group of a continuous range to erase (R1).
    TagEraseGroupEnd,
    /// CMD37: removes one erase group from the erase selection (R1).
    UntagEraseGroup,
    /// CMD38: erases all previously selected sectors (R1b).
    Erase,
    /// CMD39: reads or writes 8-bit application-dependent registers (R4).
    FastIo,
    /// CMD52: accesses a single register of an I/O function (R5).
    IoRwDirect,
    /// CMD53: accesses multiple I/O registers with a single command (R5).
    IoRwExtended,
    /// CMD55: announces that the next command is an application command (R1).
    AppCmd,
}

/// Addressed point-to-point data transfer commands (adtc).
#[derive(Clone, Copy, Debug)]
pub enum AdtcCommand {
    /// CMD6: checks or switches the card function of a high-speed SD card (R1).
    SwitchFunc,
    /// CMD8: the card sends its EXT_CSD register as a 512-byte block (R1).
    SendExtCsd,
    /// CMD11: reads a data stream until a stop command follows (R1).
    ReadDatUntilStop,
    /// CMD17: reads a single block of the configured length (R1).
    ReadSingleBlock,
    /// CMD18: reads blocks continuously until a stop command follows (R1).
    ReadMultipleBlock,
    /// CMD19: sends the 64-byte tuning pattern for SDR50 and SDR104 (R1).
    SendTuningBlock64,
    /// CMD20: writes a data stream until a stop command follows (R1).
    WriteDatUntilStop,
    /// CMD21: sends 128 clocks of tuning pattern for HS200 sampling (R1).
    SendTuningBlock128,
    /// CMD24: writes a single block of the configured length (R1).
    WriteBlock,
    /// CMD25: writes blocks continuously until a stop command follows (R1).
    WriteMultipleBlock,
    /// CMD26: programs the card identification register, once per card (R1).
    ProgramCid,
    /// CMD27: programs the programmable bits of the CSD (R1).
    ProgramCsd,
    /// CMD30: reads the write-protection status of the addressed groups (R1).
    SendWriteProt,
    /// CMD42: sets or resets the password, or locks or unlocks the card (R1b).
    LockUnlock,
    /// CMD56: moves one general-purpose data block to or from the card (R1b).
    GenCmd,
    /// CMD60: reads and writes the word-sized status and control registers (R1b).
    RwMultipleRegister,
    /// CMD61: begins the data transfer of a register block (R1b).
    RwMultipleBlock,
}

/// Application commands, each preceded by CMD55.  Only the SD commands this
/// module drives are listed.
#[derive(Clone, Copy, Debug)]
pub enum ACmd {
    /// ACMD6: defines the data bus width, 1 bit or 4 bits (R1).
    SetBusWidth,
    /// ACMD13: sends the SD memory-card status (R1).
    SdStatus,
    /// ACMD22: sends the number of sectors written without errors (R1).
    SendNumWrSectors,
    /// ACMD23: sets the number of blocks to pre-erase before writing (R1).
    SetWrBlkEraseCount,
    /// ACMD41: asks all cards in idle state for their operation conditions (R3).
    SdAppOpCond,
    /// ACMD42: connects or disconnects the pull-up resistor on DATA3 (R1).
    SetClrCardDetect,
    /// ACMD51: reads the SD configuration register (R1).
    SendScr,
}

impl BcCommand {
    /// The command index of the variant.
    pub open spec fn spec_index(self) -> u32 {
        match self {
            BcCommand::GoIdleState => 0,
            BcCommand::SetDsr => 4,
            BcCommand::IoSendOpCond => 5,
        }
    }

    /// The command index of the variant.
    pub fn index(self) -> (i: u32)
        ensures
            i == self.spec_index(),
    {
        match self {
            BcCommand::GoIdleState => 0,
            BcCommand::SetDsr => 4,
            BcCommand::IoSendOpCond => 5,
        }
    }
}

impl BcrCommand {
    /// The command index of the variant.
    pub open spec fn spec_index(self) -> u32 {
        match self {
            BcrCommand::SendOpCond => 1,
            BcrCommand::AllSendCid => 2,
            BcrCommand::IoSendOpCond => 40,
        }
    }

    /// The command index of the variant.
    pub fn index(self) -> (i: u32)
        ensures
            i == self.spec_index(),
    {
        match self {
            BcrCommand::SendOpCond => 1,
            BcrCommand::AllSendCid => 2,
            BcrCommand::IoSendOpCond => 40,
        }
    }
}

impl AcCommand {
    /// The command index of the variant.
    pub open spec fn spec_index(self) -> u32 {
        match self {
            AcCommand::SetSendRelativeAddr => 3,
            AcCommand::Switch => 6,
            AcCommand::SelectDeselectCard => 7,
            AcCommand::SendCsd => 9,
            AcCommand::SendCid => 10,
            AcCommand::StopTransmission => 12,
            AcCommand::SendStatus => 13,
            AcCommand::GoInactiveState => 15,
            AcCommand::SetBlocklen => 16,
            AcCommand::SetWriteProt => 28,
            AcCommand::ClrWriteProt => 29,
            AcCommand::TagSectorStart => 32,
            AcCommand::TagSectorEnd => 33,
            AcCommand::UntagSector => 34,
            AcCommand::TagEraseGroupStart => 35,
            AcCommand::TagEraseGroupEnd => 36,
            AcCommand::UntagEraseGroup => 37,
            AcCommand::Erase => 38,
            AcCommand::FastIo => 39,
            AcCommand::IoRwDirect => 52,
            AcCommand::IoRwExtended => 53,
            AcCommand::AppCmd => 55,
        }
    }

    /// The command index of the variant.
    pub fn index(self) -> (i: u32)
        ensures
            i == self.spec_index(),
    {
        match self {
            AcCommand::SetSendRelativeAddr => 3,
            AcCommand::Switch => 6,
            AcCommand::SelectDeselectCard => 7,
            AcCommand::SendCsd => 9,
            AcCommand::SendCid => 10,
            AcCommand::StopTransmission => 12,
            AcCommand::SendStatus => 13,
            AcCommand::GoInactiveState => 15,
            AcCommand::SetBlocklen => 16,
            AcCommand::SetWriteProt => 28,
            AcCommand::ClrWriteProt => 29,
            AcCommand::TagSectorStart => 32,
            AcCommand::TagSectorEnd => 33,
            AcCommand::UntagSector => 34,
            AcCommand::TagEraseGroupStart => 35,
            AcCommand::TagEraseGroupEnd => 36,
            AcCommand::UntagEraseGroup => 37,
            AcCommand::Erase => 38,
            AcCommand::FastIo => 39,
            AcCommand::IoRwDirect => 52,
            AcCommand::IoRwExtended => 53,
            AcCommand::AppCmd => 55,
        }
    }
}

impl AdtcCommand {
    /// The command index of the variant.
    pub open spec fn spec_index(self) -> u32 {
        match self {
            AdtcCommand::SwitchFunc => 6,
            AdtcCommand::SendExtCsd => 8,
            AdtcCommand::ReadDatUntilStop => 11,
            AdtcCommand::ReadSingleBlock => 17,
            AdtcCommand::ReadMultipleBlock => 18,
            AdtcCommand::SendTuningBlock64 => 19,
            AdtcCommand::WriteDatUntilStop => 20,
            AdtcCommand::SendTuningBlock128 => 21,
            AdtcCommand::WriteBlock => 24,
            AdtcCommand::WriteMultipleBlock => 25,
            AdtcCommand::ProgramCid => 26,
            AdtcCommand::ProgramCsd => 27,
            AdtcCommand::SendWriteProt => 30,
            AdtcCommand::LockUnlock => 42,
            AdtcCommand::GenCmd => 56,
            AdtcCommand::RwMultipleRegister => 60,
            AdtcCommand::RwMultipleBlock => 61,
        }
    }

    /// The command index of the variant.
    pub fn index(self) -> (i: u32)
        ensures
            i == self.spec_index(),
    {
        match self {
            AdtcCommand::SwitchFunc => 6,
            AdtcCommand::SendExtCsd => 8,
            AdtcCommand::ReadDatUntilStop => 11,
            AdtcCommand::ReadSingleBlock => 17,
            AdtcCommand::ReadMultipleBlock => 18,
            AdtcCommand::SendTuningBlock64 => 19,
            AdtcCommand::WriteDatUntilStop => 20,
            AdtcCommand::SendTuningBlock128 => 21,
            AdtcCommand::WriteBlock => 24,
            AdtcCommand::WriteMultipleBlock => 25,
            AdtcCommand::ProgramCid => 26,
            AdtcCommand::ProgramCsd => 27,
            AdtcCommand::SendWriteProt => 30,
            AdtcCommand::LockUnlock => 42,
            AdtcCommand::GenCmd => 56,
            AdtcCommand::RwMultipleRegister => 60,
            AdtcCommand::RwMultipleBlock => 61,
        }
    }
}

impl ACmd {
    /// The command index of the variant.
    pub open spec fn spec_index(self) -> u32 {
        match self {
            ACmd::SetBusWidth => 6,
            ACmd::SdStatus => 13,
            ACmd::SendNumWrSectors => 22,
            ACmd::SetWrBlkEraseCount => 23,
            ACmd::SdAppOpCond => 41,
            ACmd::SetClrCardDetect => 42,
            ACmd::SendScr => 51,
        }
    }

    /// The command index of the variant.
    pub fn index(self) -> (i: u32)
        ensures
            i == self.spec_index(),
    {
        match self {
            ACmd::SetBusWidth => 6,
            ACmd::SdStatus => 13,
            ACmd::SendNumWrSectors => 22,
            ACmd::SetWrBlkEraseCount => 23,
            ACmd::SdAppOpCond => 41,
            ACmd::SetClrCardDetect => 42,
            ACmd::SendScr => 51,
        }
    }
}

impl Command {
    /// The command index of the tagged command.
    pub open spec fn spec_index(self) -> u32 {
        match self {
            Command::Bc(c) => c.spec_index(),
            Command::Bcr(c) => c.spec_index(),
            Command::Ac(c) => c.spec_index(),
            Command::Adtc(c) => c.spec_index(),
            Command::Acmd(c) => c.spec_index(),
        }
    }

    /// The command index of the tagged command.
    pub fn index(self) -> (i: u32)
        ensures
            i == self.spec_index(),
    {
        match self {
            Command::Bc(c) => c.index(),
            Command::Bcr(c) => c.index(),
            Command::Ac(c) => c.index(),
            Command::Adtc(c) => c.index(),
            Command::Acmd(c) => c.index(),
        }
    }
}

/// The bits of the transfer-type word that carry the response-kind flags:
/// bits 16 to 23, below the command-index field at bit 24.
pub const RESPONSE_MASK: u32 = 0x00FF_0000;

/// Under [`RESPONSE_MASK`] the transfer-type word carries exactly the
/// response-kind flag pattern of the table, for every command index and
/// argument: the index field at bit 24 and above never disturbs it.
pub proof fn lemma_response_mask(r: Response, index: u32)
    ensures
        transfer_word(r, index) & RESPONSE_MASK == response_flags(r) & RESPONSE_MASK,
        response_flags(r) & RESPONSE_MASK == match r {
            Response::NoResponse => 0u32,
            Response::R2 => 0b0101u32 << 16,
            Response::R3 | Response::R4 => 0b0010u32 << 16,
            Response::R1 | Response::R5 | Response::R6 => 0b0001u32 << 20,
            Response::R1b | Response::R5b => 0b1111u32 << 16,
        },
{
    match r {
        Response::NoResponse => {
            assert((0u32 | (index << 24)) & 0x00FF_0000u32 == 0u32 && 0u32 & 0x00FF_0000u32
                == 0u32) by (bit_vector);
        },
        Response::R2 => {
            assert(((0b0101u32 << 16) | (index << 24)) & 0x00FF_0000u32 == 0b0101u32 << 16 && (
            0b0101u32 << 16) & 0x00FF_0000u32 == 0b0101u32 << 16) by (bit_vector);
        },
        Response::R3 | Response::R4 => {
            assert(((0b0010u32 << 16) | (index << 24)) & 0x00FF_0000u32 == 0b0010u32 << 16 && (
            0b0010u32 << 16) & 0x00FF_0000u32 == 0b0010u32 << 16) by (bit_vector);
        },
        Response::R1 | Response::R5 | Response::R6 => {
            assert(((0x1110u32 << 16) | (index << 24)) & 0x00FF_0000u32 == 0b0001u32 << 20 && (
            0x1110u32 << 16) & 0x00FF_0000u32 == 0b0001u32 << 20) by (bit_vector);
        },
        Response::R1b | Response::R5b => {
            assert(((0b1111u32 << 16) | (index << 24)) & 0x00FF_0000u32 == 0b1111u32 << 16 && (
            0b1111u32 << 16) & 0x00FF_0000u32 == 0b1111u32 << 16) by (bit_vector);
        },
    }
}

/// `GoIdleState` is encoded with argument 0 and `SendExtCsd` with the fixed
/// check pattern `0x1AA`, whatever instances they are: the argument spec
/// functions of both types are constant.
pub proof fn lemma_fixed_arguments(g: &GoIdleState, p: &SendExtCsd)
    ensures
        g.spec_args() == 0,
        p.spec_args() == 0x1aa,
{
}

/// Encoding is pure: two commands that agree on response kind, index and
/// argument produce identical `(argument, transfer_type)` register words,
/// whatever their concrete types are.
pub proof fn lemma_encode_pure<C1: SdCommand, C2: SdCommand>(a: &C1, b: &C2)
    requires
        a.spec_cmd() == b.spec_cmd(),
        a.spec_response() == b.spec_response(),
        a.spec_args() == b.spec_args(),
    ensures
        a.spec_args() == b.spec_args(),
        transfer_word(a.spec_response(), a.spec_cmd()) == transfer_word(
            b.spec_response(),
            b.spec_cmd(),
        ),
{
}

} // verus!
