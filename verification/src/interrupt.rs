//! Interrupt vector tables and the type-level binding of handlers.

use vstd::prelude::*;

use crate::chip::Chip;

pub mod typelevel;

verus! {

/// Number of the first external interrupt slot.
pub const FIRST_EXTERNAL: u8 = 16;

/// What an external interrupt slot enters.
#[allow(non_camel_case_types)]
#[derive(Clone, Copy, Debug, PartialEq, Eq, Structural)]
pub enum Vector {
    TMR0,
    GPIOA,
    GPIOB,
    SPI0,
    USB,
    USB2,
    TMR1,
    TMR2,
    UART0,
    UART1,
    RTC,
    ADC,
    I2C,
    PWMX,
    TMR3,
    UART2,
    UART3,
    WDOG_BAT,
    NFC,
    USB2_DEVICE,
    USB2_HOST,
    LED,
    /// The handler of the slots that have no source.
    DefaultHandler,
}

impl Vector {
    /// The slot of the vector: its interrupt number.
    pub open spec fn spec_number(self) -> Option<u8> {
        match self {
            Vector::TMR0 => Some(16),
            Vector::GPIOA => Some(17),
            Vector::GPIOB => Some(18),
            Vector::SPI0 => Some(19),
            Vector::USB => Some(22),
            Vector::USB2 => Some(23),
            Vector::TMR1 => Some(24),
            Vector::TMR2 => Some(25),
            Vector::UART0 => Some(26),
            Vector::UART1 => Some(27),
            Vector::RTC => Some(28),
            Vector::ADC => Some(29),
            Vector::I2C => Some(30),
            Vector::PWMX => Some(31),
            Vector::TMR3 => Some(32),
            Vector::UART2 => Some(33),
            Vector::UART3 => Some(34),
            Vector::WDOG_BAT => Some(35),
            Vector::NFC => Some(36),
            Vector::USB2_DEVICE => Some(37),
            Vector::USB2_HOST => Some(38),
            Vector::LED => Some(39),
            Vector::DefaultHandler => None,
        }
    }

    /// Whether `chip` has the source of the vector.
    pub open spec fn present(self, chip: Chip) -> bool {
        match self {
            Vector::USB2 => chip == Chip::Ch582,
            Vector::NFC | Vector::USB2_DEVICE | Vector::USB2_HOST | Vector::LED => chip
                == Chip::Ch585,
            Vector::DefaultHandler => false,
            _ => true,
        }
    }
}

/// Number of external interrupt slots of `chip`.
pub open spec fn spec_slots(chip: Chip) -> nat {
    match chip {
        Chip::Ch582 => 20,
        Chip::Ch585 => 24,
    }
}

/// The table of `chip`: the slot of every vector that the chip has enters that
/// vector, and every other slot enters the default handler.
pub open spec fn is_vector_table(chip: Chip, table: Seq<Vector>) -> bool {
    &&& table.len() == spec_slots(chip)
    &&& forall|slot: int|
        0 <= slot < table.len() ==> #[trigger] table[slot] == Vector::DefaultHandler || (
        table[slot].present(chip) && table[slot].spec_number() == Some(
            (FIRST_EXTERNAL + slot) as u8,
        ))
    &&& forall|vector: Vector| #[trigger]
        vector.present(chip) ==> table[vector.spec_number()->0 - FIRST_EXTERNAL] == vector
}

/// The external interrupt vectors of `chip`, from the first slot on.
pub fn external_interrupts(chip: Chip) -> (table: Vec<Vector>)
    ensures
        is_vector_table(chip, table@),
{
    match chip {
        Chip::Ch582 => vec![
            Vector::TMR0,
            Vector::GPIOA,
            Vector::GPIOB,
            Vector::SPI0,
            Vector::DefaultHandler,
            Vector::DefaultHandler,
            Vector::USB,
            Vector::USB2,
            Vector::TMR1,
            Vector::TMR2,
            Vector::UART0,
            Vector::UART1,
            Vector::RTC,
            Vector::ADC,
            Vector::I2C,
            Vector::PWMX,
            Vector::TMR3,
            Vector::UART2,
            Vector::UART3,
            Vector::WDOG_BAT,
        ],
        Chip::Ch585 => vec![
            Vector::TMR0,
            Vector::GPIOA,
            Vector::GPIOB,
            Vector::SPI0,
            Vector::DefaultHandler,
            Vector::DefaultHandler,
            Vector::USB,
            Vector::DefaultHandler,
            Vector::TMR1,
            Vector::TMR2,
            Vector::UART0,
            Vector::UART1,
            Vector::RTC,
            Vector::ADC,
            Vector::I2C,
            Vector::PWMX,
            Vector::TMR3,
            Vector::UART2,
            Vector::UART3,
            Vector::WDOG_BAT,
            Vector::NFC,
            Vector::USB2_DEVICE,
            Vector::USB2_HOST,
            Vector::LED,
        ],
    }
}

/// A chip has one table: two tables with the stated property are the same.
pub proof fn vector_table_is_unique(chip: Chip, a: Seq<Vector>, b: Seq<Vector>)
    requires
        is_vector_table(chip, a),
        is_vector_table(chip, b),
    ensures
        a == b,
{
    assert forall|slot: int| 0 <= slot < a.len() implies a[slot] == b[slot] by {
        if a[slot] != Vector::DefaultHandler {
            assert(a[slot].present(chip));
        }
        if b[slot] != Vector::DefaultHandler {
            assert(b[slot].present(chip));
        }
    }
    assert(a =~= b);
}

/// The vectors of a chip from slot 16 on, in the order in which the core enters
/// them.
pub proof fn vectors_are_in_order(chip: Chip, table: Vec<Vector>)
    requires
        call_ensures(external_interrupts, (chip,), table),
    ensures
        table@ == (match chip {
            Chip::Ch582 => seq![
                Vector::TMR0,
                Vector::GPIOA,
                Vector::GPIOB,
                Vector::SPI0,
                Vector::DefaultHandler,
                Vector::DefaultHandler,
                Vector::USB,
                Vector::USB2,
                Vector::TMR1,
                Vector::TMR2,
                Vector::UART0,
                Vector::UART1,
                Vector::RTC,
                Vector::ADC,
                Vector::I2C,
                Vector::PWMX,
                Vector::TMR3,
                Vector::UART2,
                Vector::UART3,
                Vector::WDOG_BAT,
            ],
            Chip::Ch585 => seq![
                Vector::TMR0,
                Vector::GPIOA,
                Vector::GPIOB,
                Vector::SPI0,
                Vector::DefaultHandler,
                Vector::DefaultHandler,
                Vector::USB,
                Vector::DefaultHandler,
                Vector::TMR1,
                Vector::TMR2,
                Vector::UART0,
                Vector::UART1,
                Vector::RTC,
                Vector::ADC,
                Vector::I2C,
                Vector::PWMX,
                Vector::TMR3,
                Vector::UART2,
                Vector::UART3,
                Vector::WDOG_BAT,
                Vector::NFC,
                Vector::USB2_DEVICE,
                Vector::USB2_HOST,
                Vector::LED,
            ],
        }),
{
    let order = match chip {
        Chip::Ch582 => seq![
                Vector::TMR0,
                Vector::GPIOA,
                Vector::GPIOB,
                Vector::SPI0,
                Vector::DefaultHandler,
                Vector::DefaultHandler,
                Vector::USB,
                Vector::USB2,
                Vector::TMR1,
                Vector::TMR2,
                Vector::UART0,
                Vector::UART1,
                Vector::RTC,
                Vector::ADC,
                Vector::I2C,
                Vector::PWMX,
                Vector::TMR3,
                Vector::UART2,
                Vector::UART3,
                Vector::WDOG_BAT,
            ],
        Chip::Ch585 => seq![
                Vector::TMR0,
                Vector::GPIOA,
                Vector::GPIOB,
                Vector::SPI0,
                Vector::DefaultHandler,
                Vector::DefaultHandler,
                Vector::USB,
                Vector::DefaultHandler,
                Vector::TMR1,
                Vector::TMR2,
                Vector::UART0,
                Vector::UART1,
                Vector::RTC,
                Vector::ADC,
                Vector::I2C,
                Vector::PWMX,
                Vector::TMR3,
                Vector::UART2,
                Vector::UART3,
                Vector::WDOG_BAT,
                Vector::NFC,
                Vector::USB2_DEVICE,
                Vector::USB2_HOST,
                Vector::LED,
            ],
    };
    assert(is_vector_table(chip, order));
    vector_table_is_unique(chip, table@, order);
}

} // verus!
