//! Card-level block access.
//!
//! Raw block transfer is outside the bring-up path: the operations here are
//! placeholders that succeed without moving data, kept so that the layer
//! above can already be written against them.

use vstd::prelude::*;

verus! {

/// A card that finished identification, ready for block commands.
pub struct SdCard {
    pub max_block_size: usize,
}

impl SdCard {
    /// Issues a card command.  No command is dispatched yet: the operation
    /// always reports success.
    pub fn send_command(&mut self) -> (r: Result<(), ()>)
        ensures
            r is Ok,
            *final(self) == *old(self),
    {
        Ok(())
    }

    /// Asks whether the card can accept data.  No status is read yet: the
    /// operation always reports readiness.
    pub fn is_ready_for_data(&mut self) -> (r: Result<(), ()>)
        ensures
            r is Ok,
            *final(self) == *old(self),
    {
        Ok(())
    }

    /// Reads one block into `buffer`.  No data is moved yet: the operation
    /// always reports that `size` bytes were read.
    pub fn read_block(&mut self, buffer: &[u8], size: usize) -> (r: Result<usize, ()>)
        ensures
            r == Ok::<usize, ()>(size),
            *final(self) == *old(self),
    {
        Ok(size)
    }
}

} // verus!
