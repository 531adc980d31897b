//! DMA addresses of CH581, CH582 and CH583.

use vstd::prelude::*;

use crate::usb::chip;
use crate::usb::register::{Action, DmaWord};

verus! {

/// The 16-bit register reaches the low 64 KiB of the packet memory.
pub open spec fn dma_address(address: int) -> bool {
    chip::SRAM_START <= address < chip::SRAM_START + 0x1_0000
}

/// Points the DMA engine of endpoint `index` to the bank at `address`. The
/// register takes the offset in the packet memory.
pub fn write_endpoint_dma(index: usize, address: usize) -> (action: Action)
    requires
        index <= 3,
        dma_address(address as int),
    ensures
        action == (Action::WriteDma {
            index,
            word: DmaWord::Half((address - chip::SRAM_START) as u16),
        }),
{
    Action::WriteDma { index, word: DmaWord::Half((address - chip::SRAM_START) as u16) }
}

} // verus!
