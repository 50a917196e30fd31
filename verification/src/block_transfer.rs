//! Data-block transfer bookkeeping.
//!
//! Block transfer is not driven by the bring-up path; this module holds the
//! descriptor a transfer would use and the EXT_CSD access modes.

use vstd::prelude::*;

verus! {

/// A pending data transfer: the bytes to move, the length requested, and
/// the largest block the controller may carry at once.
pub struct DataTransfer<'data> {
    pub data: &'data [u8],
    pub length: usize,
    pub max_block_size: usize,
}

impl<'data> DataTransfer<'data> {
    /// Describes a transfer of `length` bytes of `data` in blocks of at most
    /// `max_block_size` bytes.
    pub fn new(data: &'data [u8], length: usize, max_block_size: usize) -> (t: Self)
        ensures
            t.data@ == data@,
            t.length == length,
            t.max_block_size == max_block_size,
    {
        Self { data, length, max_block_size }
    }

    /// How many full blocks the transfer would send: the block-count
    /// argument of a multi-block write; a final partial block goes out as
    /// a single-block command of its own.
    pub fn full_block_count(&self) -> (blocks: usize)
        requires
            self.max_block_size > 0,
        ensures
            blocks == self.data@.len() as int / self.max_block_size as int,
    {
        self.data.len() / self.max_block_size
    }
}

/// The access modes of the EXT_CSD byte-write command.
#[derive(Clone, Copy, Debug, PartialEq, Eq, Structural)]
pub enum ExtCsd {
    /// The command set is changed according to the Cmd Set field.
    CommandSet,
    /// Bits set to 1 in the Value field are set in the pointed byte.
    SetBits,
    /// Bits set to 1 in the Value field are cleared in the pointed byte.
    ClearBits,
    /// The Value field is written into the pointed byte.
    WriteByte,
}

impl ExtCsd {
    /// The two access bits of the mode, as placed in the command argument.
    pub open spec fn spec_access_bits(self) -> u32 {
        match self {
            ExtCsd::CommandSet => 0b00,
            ExtCsd::SetBits => 0b01,
            ExtCsd::ClearBits => 0b10,
            ExtCsd::WriteByte => 0b11,
        }
    }

    /// The two access bits of the mode, as placed in the command argument.
    pub fn access_bits(self) -> (b: u32)
        ensures
            b == self.spec_access_bits(),
    {
        match self {
            ExtCsd::CommandSet => 0b00,
            ExtCsd::SetBits => 0b01,
            ExtCsd::ClearBits => 0b10,
            ExtCsd::WriteByte => 0b11,
        }
    }
}

} // verus!
