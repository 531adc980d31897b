//! DMA addresses of CH584 and CH585.

use vstd::prelude::*;

use crate::usb::chip;
use crate::usb::register::{Action, DmaWord};

verus! {

/// The register reaches the 128 KiB of the packet memory, in words.
pub open spec fn dma_address(address: int) -> bool {
    chip::SRAM_START <= address < chip::SRAM_START + 0x2_0000 && address % 4 == 0
}

/// Points the DMA engine of endpoint `index` to the bank at `address`. The
/// register takes the complete address.
pub fn write_endpoint_dma(index: usize, address: usize) -> (action: Action)
    requires
        index <= 3,
        dma_address(address as int),
    ensures
        action == (Action::WriteDma {
            index,
            word: DmaWord::Word(address as u32),
        }),
{
    Action::WriteDma { index, word: DmaWord::Word(address as u32) }
}

} // verus!
