//! Register differences between the chips.

use vstd::prelude::*;

use crate::chip::Chip;
use crate::usb::register::{Action, DmaWord};

pub mod ch582;
pub mod ch585;

verus! {

/// The bit of the pin configuration register that connects the D+ pull-up.
pub const USB_DP_PULLUP: u16 = 0x0040;

/// The bit of the pin configuration register that gives the pins to the
/// controller.
pub const USB_PINS_ENABLE: u16 = 0x0080;

/// First address of the packet memory.
pub const SRAM_START: usize = 0x2000_0000;

/// Whether the DMA engine of `chip` reaches a bank at `address`.
pub open spec fn dma_address(chip: Chip, address: int) -> bool {
    match chip {
        Chip::Ch582 => ch582::dma_address(address),
        Chip::Ch585 => ch585::dma_address(address),
    }
}

/// Tells whether the DMA engine of `chip` reaches a bank at `address`.
pub fn is_dma_address(chip: Chip, address: usize) -> (reached: bool)
    ensures
        reached == dma_address(chip, address as int),
{
    match chip {
        Chip::Ch582 => SRAM_START <= address && address < SRAM_START + 0x1_0000,
        Chip::Ch585 => {
            SRAM_START <= address && address < SRAM_START + 0x2_0000 && address % 4 == 0
        },
    }
}

/// The DMA register value of a bank at `address`: a 16-bit offset in the packet
/// memory on CH582, the complete 32-bit address on CH585.
pub open spec fn dma_word(chip: Chip, address: int) -> DmaWord {
    match chip {
        Chip::Ch582 => DmaWord::Half((address - SRAM_START) as u16),
        Chip::Ch585 => DmaWord::Word(address as u32),
    }
}

/// Points the DMA engine of endpoint `index` to the bank at `address`.
pub fn write_endpoint_dma(chip: Chip, index: usize, address: usize) -> (action: Action)
    requires
        index <= 3,
        dma_address(chip, address as int),
    ensures
        action == (Action::WriteDma { index, word: dma_word(chip, address as int) }),
{
    match chip {
        Chip::Ch582 => ch582::write_endpoint_dma(index, address),
        Chip::Ch585 => ch585::write_endpoint_dma(index, address),
    }
}

/// The pin configuration that gives the pins to the controller and shows the
/// device to the host; `pins` is the present one.
pub fn enable_usb_pins(pins: u16) -> (result: u16)
    ensures
        result == pins | USB_DP_PULLUP | USB_PINS_ENABLE,
{
    pins | USB_DP_PULLUP | USB_PINS_ENABLE
}

/// The pin configuration without the D+ pull-up; `pins` is the present one.
pub fn disable_usb_pullup(pins: u16) -> (result: u16)
    ensures
        result == pins & !USB_DP_PULLUP,
{
    pins & !USB_DP_PULLUP
}

/// The DMA register names the bank it was written for: two addresses with the
/// same register value are the same address.
pub proof fn dma_word_is_injective(chip: Chip, a: int, b: int)
    requires
        dma_address(chip, a),
        dma_address(chip, b),
        dma_word(chip, a) == dma_word(chip, b),
    ensures
        a == b,
{
}

/// Disconnecting undoes only what enabling did to the pull-up: the controller
/// keeps its pins, and enabling again restores the pull-up.
pub proof fn pullup_returns(pins: u16)
    ensures
        ((pins | USB_DP_PULLUP | USB_PINS_ENABLE) & !USB_DP_PULLUP) & USB_DP_PULLUP == 0,
        ((pins | USB_DP_PULLUP | USB_PINS_ENABLE) & !USB_DP_PULLUP) | USB_DP_PULLUP
            | USB_PINS_ENABLE == pins | USB_DP_PULLUP | USB_PINS_ENABLE,
{
    lemma_pullup_bits(pins);
}

proof fn lemma_pullup_bits(pins: u16)
    by (bit_vector)
    ensures
        ((pins | 0x40u16 | 0x80u16) & !0x40u16) & 0x40u16 == 0,
        ((pins | 0x40u16 | 0x80u16) & !0x40u16) | 0x40u16 | 0x80u16 == pins | 0x40u16 | 0x80u16,
{
}

} // verus!
