//! Type-level interrupts.

use vstd::prelude::*;

use crate::interrupt::Vector;

mod sealed;

verus! {

/// An interrupt as a type. Only the interrupts of this module are.
pub trait Interrupt: sealed::Interrupt + Sized {
    /// The vector of the interrupt.
    spec fn vector() -> Vector;

    /// The number of the interrupt: the slot of its vector.
    fn irq_number() -> (number: u8)
        ensures
            Self::vector().spec_number() == Some(number),
    ;
}

/// Handles interrupt `I`: a step of the driver's state, given what the hardware
/// showed when the interrupt was taken.
pub trait Handler<I: Interrupt> {
    /// The state that the driver shares with its tasks.
    type State;

    /// What the hardware shows.
    type Snapshot;

    /// What is to be done to the hardware and the scheduler.
    type Effect;

    /// Handles one entry of the interrupt.
    fn on_interrupt(state: &mut Self::State, snapshot: &Self::Snapshot) -> (effects: Vec<
        Self::Effect,
    >);
}

/// Promises that every entry of vector `I` calls handler `H` before it returns.
pub trait Binding<I: Interrupt, H: Handler<I>>: Copy {

}

#[allow(non_camel_case_types)]
#[derive(Clone, Copy, Debug)]
pub enum TMR0 {
    Vector,
}

impl sealed::Interrupt for TMR0 {

}

impl Interrupt for TMR0 {
    open spec fn vector() -> Vector {
        Vector::TMR0
    }

    fn irq_number() -> (number: u8) {
        16
    }
}

#[allow(non_camel_case_types)]
#[derive(Clone, Copy, Debug)]
pub enum GPIOA {
    Vector,
}

impl sealed::Interrupt for GPIOA {

}

impl Interrupt for GPIOA {
    open spec fn vector() -> Vector {
        Vector::GPIOA
    }

    fn irq_number() -> (number: u8) {
        17
    }
}

#[allow(non_camel_case_types)]
#[derive(Clone, Copy, Debug)]
pub enum GPIOB {
    Vector,
}

impl sealed::Interrupt for GPIOB {

}

impl Interrupt for GPIOB {
    open spec fn vector() -> Vector {
        Vector::GPIOB
    }

    fn irq_number() -> (number: u8) {
        18
    }
}

#[allow(non_camel_case_types)]
#[derive(Clone, Copy, Debug)]
pub enum SPI0 {
    Vector,
}

impl sealed::Interrupt for SPI0 {

}

impl Interrupt for SPI0 {
    open spec fn vector() -> Vector {
        Vector::SPI0
    }

    fn irq_number() -> (number: u8) {
        19
    }
}

#[allow(non_camel_case_types)]
#[derive(Clone, Copy, Debug)]
pub enum USB {
    Vector,
}

impl sealed::Interrupt for USB {

}

impl Interrupt for USB {
    open spec fn vector() -> Vector {
        Vector::USB
    }

    fn irq_number() -> (number: u8) {
        22
    }
}

#[allow(non_camel_case_types)]
#[derive(Clone, Copy, Debug)]
pub enum USB2 {
    Vector,
}

impl sealed::Interrupt for USB2 {

}

impl Interrupt for USB2 {
    open spec fn vector() -> Vector {
        Vector::USB2
    }

    fn irq_number() -> (number: u8) {
        23
    }
}

#[allow(non_camel_case_types)]
#[derive(Clone, Copy, Debug)]
pub enum TMR1 {
    Vector,
}

impl sealed::Interrupt for TMR1 {

}

impl Interrupt for TMR1 {
    open spec fn vector() -> Vector {
        Vector::TMR1
    }

    fn irq_number() -> (number: u8) {
        24
    }
}

#[allow(non_camel_case_types)]
#[derive(Clone, Copy, Debug)]
pub enum TMR2 {
    Vector,
}

impl sealed::Interrupt for TMR2 {

}

impl Interrupt for TMR2 {
    open spec fn vector() -> Vector {
        Vector::TMR2
    }

    fn irq_number() -> (number: u8) {
        25
    }
}

#[allow(non_camel_case_types)]
#[derive(Clone, Copy, Debug)]
pub enum UART0 {
    Vector,
}

impl sealed::Interrupt for UART0 {

}

impl Interrupt for UART0 {
    open spec fn vector() -> Vector {
        Vector::UART0
    }

    fn irq_number() -> (number: u8) {
        26
    }
}

#[allow(non_camel_case_types)]
#[derive(Clone, Copy, Debug)]
pub enum UART1 {
    Vector,
}

impl sealed::Interrupt for UART1 {

}

impl Interrupt for UART1 {
    open spec fn vector() -> Vector {
        Vector::UART1
    }

    fn irq_number() -> (number: u8) {
        27
    }
}

#[allow(non_camel_case_types)]
#[derive(Clone, Copy, Debug)]
pub enum RTC {
    Vector,
}

impl sealed::Interrupt for RTC {

}

impl Interrupt for RTC {
    open spec fn vector() -> Vector {
        Vector::RTC
    }

    fn irq_number() -> (number: u8) {
        28
    }
}

#[allow(non_camel_case_types)]
#[derive(Clone, Copy, Debug)]
pub enum ADC {
    Vector,
}

impl sealed::Interrupt for ADC {

}

impl Interrupt for ADC {
    open spec fn vector() -> Vector {
        Vector::ADC
    }

    fn irq_number() -> (number: u8) {
        29
    }
}

#[allow(non_camel_case_types)]
#[derive(Clone, Copy, Debug)]
pub enum I2C {
    Vector,
}

impl sealed::Interrupt for I2C {

}

impl Interrupt for I2C {
    open spec fn vector() -> Vector {
        Vector::I2C
    }

    fn irq_number() -> (number: u8) {
        30
    }
}

#[allow(non_camel_case_types)]
#[derive(Clone, Copy, Debug)]
pub enum PWMX {
    Vector,
}

impl sealed::Interrupt for PWMX {

}

impl Interrupt for PWMX {
    open spec fn vector() -> Vector {
        Vector::PWMX
    }

    fn irq_number() -> (number: u8) {
        31
    }
}

#[allow(non_camel_case_types)]
#[derive(Clone, Copy, Debug)]
pub enum TMR3 {
    Vector,
}

impl sealed::Interrupt for TMR3 {

}

impl Interrupt for TMR3 {
    open spec fn vector() -> Vector {
        Vector::TMR3
    }

    fn irq_number() -> (number: u8) {
        32
    }
}

#[allow(non_camel_case_types)]
#[derive(Clone, Copy, Debug)]
pub enum UART2 {
    Vector,
}

impl sealed::Interrupt for UART2 {

}

impl Interrupt for UART2 {
    open spec fn vector() -> Vector {
        Vector::UART2
    }

    fn irq_number() -> (number: u8) {
        33
    }
}

#[allow(non_camel_case_types)]
#[derive(Clone, Copy, Debug)]
pub enum UART3 {
    Vector,
}

impl sealed::Interrupt for UART3 {

}

impl Interrupt for UART3 {
    open spec fn vector() -> Vector {
        Vector::UART3
    }

    fn irq_number() -> (number: u8) {
        34
    }
}

#[allow(non_camel_case_types)]
#[derive(Clone, Copy, Debug)]
pub enum WDOG_BAT {
    Vector,
}

impl sealed::Interrupt for WDOG_BAT {

}

impl Interrupt for WDOG_BAT {
    open spec fn vector() -> Vector {
        Vector::WDOG_BAT
    }

    fn irq_number() -> (number: u8) {
        35
    }
}

#[allow(non_camel_case_types)]
#[derive(Clone, Copy, Debug)]
pub enum USB2_DEVICE {
    Vector,
}

impl sealed::Interrupt for USB2_DEVICE {

}

impl Interrupt for USB2_DEVICE {
    open spec fn vector() -> Vector {
        Vector::USB2_DEVICE
    }

    fn irq_number() -> (number: u8) {
        37
    }
}

/// Each interrupt type has the number of the slot that bears its name.
pub proof fn interrupt_types_have_their_slots()
    ensures
        TMR0::vector() == Vector::TMR0,
        GPIOA::vector() == Vector::GPIOA,
        GPIOB::vector() == Vector::GPIOB,
        SPI0::vector() == Vector::SPI0,
        USB::vector() == Vector::USB,
        USB2::vector() == Vector::USB2,
        TMR1::vector() == Vector::TMR1,
        TMR2::vector() == Vector::TMR2,
        UART0::vector() == Vector::UART0,
        UART1::vector() == Vector::UART1,
        RTC::vector() == Vector::RTC,
        ADC::vector() == Vector::ADC,
        I2C::vector() == Vector::I2C,
        PWMX::vector() == Vector::PWMX,
        TMR3::vector() == Vector::TMR3,
        UART2::vector() == Vector::UART2,
        UART3::vector() == Vector::UART3,
        WDOG_BAT::vector() == Vector::WDOG_BAT,
        USB2_DEVICE::vector() == Vector::USB2_DEVICE,
        Vector::TMR0.spec_number() == Some(16u8),
        Vector::GPIOA.spec_number() == Some(17u8),
        Vector::GPIOB.spec_number() == Some(18u8),
        Vector::SPI0.spec_number() == Some(19u8),
        Vector::USB.spec_number() == Some(22u8),
        Vector::USB2.spec_number() == Some(23u8),
        Vector::TMR1.spec_number() == Some(24u8),
        Vector::TMR2.spec_number() == Some(25u8),
        Vector::UART0.spec_number() == Some(26u8),
        Vector::UART1.spec_number() == Some(27u8),
        Vector::RTC.spec_number() == Some(28u8),
        Vector::ADC.spec_number() == Some(29u8),
        Vector::I2C.spec_number() == Some(30u8),
        Vector::PWMX.spec_number() == Some(31u8),
        Vector::TMR3.spec_number() == Some(32u8),
        Vector::UART2.spec_number() == Some(33u8),
        Vector::UART3.spec_number() == Some(34u8),
        Vector::WDOG_BAT.spec_number() == Some(35u8),
        Vector::USB2_DEVICE.spec_number() == Some(37u8),
{
}

} // verus!
