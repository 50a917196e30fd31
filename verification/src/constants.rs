//! Electrical modes of the controller and the rate ceilings they impose.

use vstd::prelude::*;

verus! {

/// The highest SD clock rate the identification handshake may use: 400 kHz.
pub const SD_MAX_INIT_RATE_HZ: u32 = 400_000;

/// The data-transfer modes the controller can drive.  The listed ceilings
/// are those of the controller block; a given card may support fewer.
#[derive(Clone, Copy, Debug, PartialEq, Eq, Structural)]
pub enum TransferMode {
    /// SD 1-bit.
    Sd1,
    /// SD 4-bit.
    Sd4,
    /// MMC 1-bit.
    Mmc1,
    /// MMC 4-bit.
    Mmc4,
    /// MMC 8-bit.
    Mmc8,
    /// Identification mode (up to 400 kHz).
    Identification,
    /// MMC full-speed mode (up to 26 MHz).
    MmcFullSpeed,
    /// MMC high-speed mode (up to 52 MHz).
    MmcHighSpeed,
    /// MMC HS200 mode (up to 200 MHz).
    MmcHs200,
    /// MMC DDR mode (52 MHz, both edges).
    MmcDdr,
    /// SD/SDIO full-speed mode (up to 25 MHz).
    SdSdioFullSpeed,
    /// SD/SDIO high-speed mode (up to 50 MHz).
    SdSdioHighSpeed,
    /// SD/SDIO UHS-I mode (up to 208 MHz SDR, 50 MHz DDR).
    SdSdioUhsI,
}

/// Which electrical configuration is currently programmed into the
/// controller.  Tracked so that re-entering a mode can be skipped.
#[derive(Clone, Copy, Debug, PartialEq, Eq, Structural)]
pub enum CardMode {
    /// Nothing has been programmed yet.
    Unknown,
    /// Identification-speed configuration (up to 400 kHz).
    Identification,
    /// A data-transfer configuration.
    Transfer(TransferMode),
}

} // verus!
