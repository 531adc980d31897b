use embassy_ch58x::interrupt::typelevel::{Binding, USB};
use embassy_ch58x::usb::address::{Direction, EndpointAddress};
use embassy_ch58x::usb::bank::{Bank, PacketMemory};
use embassy_ch58x::usb::control::ControlTransferGuard;
use embassy_ch58x::usb::interrupt::{usb_interrupt, InterruptSnapshot};
use embassy_ch58x::usb::register::Action;
use embassy_ch58x::usb::stage::ControlStage;
use embassy_ch58x::usb::state::UsbState;
use embassy_ch58x::usb::transfer::{ReadStage, WriteStage};
use embassy_ch58x::usb::types::{EndpointError, EndpointType};
use embassy_ch58x::usb::{Bus, ControlPipe, Driver, Endpoint, InterruptHandler};

#[derive(Clone, Copy)]
struct Irqs;

impl Binding<USB, InterruptHandler> for Irqs {}

fn write8(offset: usize, value: u8) -> Action {
    Action::Write8 { offset, value }
}

fn interrupt(state: &mut UsbState, status: u8, rx_len: u8, control: u8) {
    let snapshot =
        InterruptSnapshot { flags: 0x02, status, rx_len, mis_st: 0, control, setup: [9; 8] };
    usb_interrupt(state, &snapshot);
}

fn reset(state: &mut UsbState) {
    let snapshot =
        InterruptSnapshot { flags: 0x01, status: 0, rx_len: 0, mis_st: 0, control: 0, setup: [0; 8] };
    usb_interrupt(state, &snapshot);
}

fn bus() -> Bus {
    Bus { allocated_in: 0x02, allocated_out: 0x02, enabled: true }
}

fn endpoints() -> (UsbState, Endpoint, Endpoint) {
    let mut state = UsbState::new();
    let mut driver = Driver::new(Irqs);
    let input = driver.alloc_endpoint_in(EndpointType::Bulk, None, 32, 0, &state).unwrap();
    let output = driver.alloc_endpoint_out(EndpointType::Bulk, None, 64, 0, &state).unwrap();
    state.input.allocated = driver.allocated_in;
    state.output.allocated = driver.allocated_out;
    bus().endpoint_set_enabled(&mut state, EndpointAddress { raw: 0x81 }, true, 0);
    bus().endpoint_set_enabled(&mut state, EndpointAddress { raw: 0x01 }, true, 0);
    (state, input, output)
}

#[test]
fn write_is_offered_and_taken() {
    let (mut state, input, _) = endpoints();
    let mut memory = PacketMemory::new();
    let data = [1, 2, 3];
    let (stage, actions) = input.write(WriteStage::Request, &mut state, &mut memory, &data, 0x12);
    assert!(matches!(stage, WriteStage::Arm(_)));
    assert!(actions.is_empty());
    assert_eq!(memory.endpoints[64..68], [1, 2, 3, 0]);
    let (stage, actions) = input.write(stage, &mut state, &mut memory, &data, 0x12);
    assert_eq!(actions, vec![write8(0x24, 3), write8(0x26, 0x10)]);
    let (stage, _) = input.write(stage, &mut state, &mut memory, &data, 0x10);
    assert!(matches!(stage, WriteStage::Wait(_)));
    assert_eq!(stage.cancel(&state, 0x10), Some(0x12));
    assert_eq!(stage.cancel(&state, 0x13), Some(0x13));
    interrupt(&mut state, 0x21, 0, 0x10);
    assert_eq!(state.input.complete, 0x02);
    assert_eq!(stage.cancel(&state, 0x12), None);
    let (stage, _) = input.write(stage, &mut state, &mut memory, &data, 0x12);
    assert_eq!(stage, WriteStage::Done(Ok(())));
    assert_eq!(state.input.complete, 0);
    assert_eq!(stage.cancel(&state, 0x12), None);
}

#[test]
fn write_fails_as_it_should() {
    let (mut state, input, _) = endpoints();
    let mut memory = PacketMemory::new();
    let long = [0; 33];
    let (stage, _) = input.write(WriteStage::Request, &mut state, &mut memory, &long, 0);
    assert_eq!(stage, WriteStage::Done(Err(EndpointError::BufferOverflow)));
    let (armed, _) = input.write(WriteStage::Request, &mut state, &mut memory, &[7], 0);
    let (waiting, _) = input.write(armed, &mut state, &mut memory, &[7], 0);
    reset(&mut state);
    let (stage, _) = input.write(WriteStage::Request, &mut state, &mut memory, &[7], 0);
    assert_eq!(stage, WriteStage::Done(Err(EndpointError::Disabled)));
    let (stage, _) = input.write(armed, &mut state, &mut memory, &[7], 0);
    assert_eq!(stage, WriteStage::Done(Err(EndpointError::Disabled)));
    let (stage, _) = input.write(waiting, &mut state, &mut memory, &[7], 0);
    assert!(matches!(stage, WriteStage::Release(_, EndpointError::Disabled)));
    let (stage, actions) = input.write(stage, &mut state, &mut memory, &[7], 0);
    assert_eq!(stage, WriteStage::Done(Err(EndpointError::Disabled)));
    assert!(actions.is_empty());
}

#[test]
fn reconfigured_endpoint_ends_old_transfers() {
    let (mut state, input, _) = endpoints();
    let mut memory = PacketMemory::new();
    let (stage, _) = input.write(WriteStage::Request, &mut state, &mut memory, &[7], 0);
    let (stage, _) = input.write(stage, &mut state, &mut memory, &[7], 0);
    bus().endpoint_set_enabled(&mut state, EndpointAddress { raw: 0x81 }, false, 0);
    bus().endpoint_set_enabled(&mut state, EndpointAddress { raw: 0x81 }, true, 0);
    interrupt(&mut state, 0x21, 0, 0);
    let (stage, _) = input.write(stage, &mut state, &mut memory, &[7], 0);
    assert!(matches!(stage, WriteStage::Release(_, EndpointError::Disabled)));
}

#[test]
fn read_waits_for_a_packet() {
    let (mut state, _, output) = endpoints();
    let mut memory = PacketMemory::new();
    let mut buffer = [0xee; 5];
    let (stage, _) = output.read(ReadStage::Request, &mut state, &memory, &mut buffer, 0x1a);
    let (stage, actions) = output.read(stage, &mut state, &memory, &mut buffer, 0x1a);
    assert_eq!(actions, vec![write8(0x26, 0x12)]);
    let (stage, _) = output.read(stage, &mut state, &memory, &mut buffer, 0x12);
    assert!(matches!(stage, ReadStage::Wait(_)));
    assert_eq!(stage.cancel(&state, 0x12), Some(0x1a));
    memory.write_endpoint_buffer(Bank::Endpoint { offset: 0 }, &[4, 5, 6, 7]);
    interrupt(&mut state, 0x41, 3, 0x12);
    let (stage, _) = output.read(stage, &mut state, &memory, &mut buffer, 0x1a);
    assert_eq!(stage, ReadStage::Copy(3));
    let (stage, _) = output.read(stage, &mut state, &memory, &mut buffer, 0x1a);
    assert_eq!(stage, ReadStage::Done(Ok(3)));
    assert_eq!(buffer, [4, 5, 6, 0xee, 0xee]);
}

#[test]
fn read_takes_a_packet_from_before() {
    let (mut state, _, output) = endpoints();
    let mut memory = PacketMemory::new();
    memory.write_endpoint_buffer(Bank::Endpoint { offset: 0 }, &[8, 9]);
    interrupt(&mut state, 0x41, 2, 0x12);
    let mut small = [0; 1];
    let mut buffer = [0; 2];
    let (stage, _) = output.read(ReadStage::Request, &mut state, &memory, &mut buffer, 0x1a);
    let (stage, actions) = output.read(stage, &mut state, &memory, &mut buffer, 0x1a);
    assert!(matches!(stage, ReadStage::Confirm(_, 2)));
    assert!(actions.is_empty());
    assert_eq!(state.output.complete, 0);
    let (stage, _) = output.read(stage, &mut state, &memory, &mut buffer, 0x1a);
    let (overflow, _) = output.read(stage, &mut state, &memory, &mut small, 0x1a);
    assert_eq!(overflow, ReadStage::Done(Err(EndpointError::BufferOverflow)));
    let (stage, _) = output.read(stage, &mut state, &memory, &mut buffer, 0x1a);
    assert_eq!(stage, ReadStage::Done(Ok(2)));
    assert_eq!(buffer, [8, 9]);
}

#[test]
fn read_fails_when_disabled() {
    let (mut state, _, output) = endpoints();
    let memory = PacketMemory::new();
    let mut buffer = [0; 4];
    let (started, _) = output.read(ReadStage::Request, &mut state, &memory, &mut buffer, 0);
    interrupt(&mut state, 0x41, 2, 0x12);
    let (confirming, _) = output.read(started, &mut state, &memory, &mut buffer, 0);
    bus().endpoint_set_enabled(&mut state, EndpointAddress { raw: 0x01 }, false, 0);
    let disabled = ReadStage::Done(Err(EndpointError::Disabled));
    for stage in [ReadStage::Request, started, confirming] {
        assert_eq!(output.read(stage, &mut state, &memory, &mut buffer, 0).0, disabled);
    }
}

#[test]
fn waiting_for_an_endpoint_notes_the_generation() {
    let (mut state, mut input, _) = endpoints();
    reset(&mut state);
    assert!(!input.wait_enabled(&state));
    assert_eq!(input.reset_generation, 0);
    bus().endpoint_set_enabled(&mut state, EndpointAddress { raw: 0x81 }, true, 0);
    assert!(input.wait_enabled(&state));
    assert_eq!(input.reset_generation, 1);
    assert_eq!(input.info().max_packet_size, 32);
}

#[test]
fn setup_packet_is_taken_once() {
    let mut state = UsbState::new();
    let mut pipe = ControlPipe { max_packet_size: 64, reset_generation: 0 };
    assert!(pipe.setup(&mut state).is_none());
    reset(&mut state);
    interrupt(&mut state, 0xb0, 8, 0);
    interrupt(&mut state, 0x40, 5, 0);
    assert_eq!(pipe.setup(&mut state), Some(([9; 8], write8(0x22, 0xca))));
    assert_eq!(pipe.reset_generation, 1);
    assert!(pipe.setup(&mut state).is_none());
}

#[test]
fn control_write_gives_its_data() {
    let mut state = UsbState::new();
    let mut memory = PacketMemory::new();
    let mut pipe = ControlPipe { max_packet_size: 64, reset_generation: 0 };
    let mut buffer = [0; 4];
    let (stage, actions) =
        pipe.data_out(ControlStage::Request, &mut state, &memory, &mut buffer, 0xca);
    assert_eq!(actions, vec![write8(0x22, 0xc2)]);
    let (stage, _) = pipe.data_out(stage, &mut state, &memory, &mut buffer, 0xc2);
    assert!(matches!(stage, ControlStage::Wait(_)));
    assert_eq!(stage.cancel(&state, 0xc2), Some(0xca));
    memory.write_endpoint_buffer(Bank::Control, &[1, 2, 3]);
    interrupt(&mut state, 0x40, 3, 0xc2);
    let (stage, _) = pipe.data_out(stage, &mut state, &memory, &mut buffer, 0x42);
    let (stage, _) = pipe.data_out(stage, &mut state, &memory, &mut buffer, 0x42);
    assert_eq!(stage, ControlStage::Done(Ok(3)));
    assert_eq!(buffer, [1, 2, 3, 0]);
}

#[test]
fn control_write_that_does_not_fit_closes_endpoint_zero() {
    let mut state = UsbState::new();
    let memory = PacketMemory::new();
    let mut pipe = ControlPipe { max_packet_size: 64, reset_generation: 0 };
    let mut buffer = [0; 2];
    let (stage, _) = pipe.data_out(ControlStage::Request, &mut state, &memory, &mut buffer, 0xca);
    interrupt(&mut state, 0x40, 3, 0xc2);
    let (stage, _) = pipe.data_out(stage, &mut state, &memory, &mut buffer, 0x42);
    let (stage, _) = pipe.data_out(stage, &mut state, &memory, &mut buffer, 0x42);
    assert!(matches!(stage, ControlStage::Release(_, EndpointError::BufferOverflow)));
    let (stage, actions) = pipe.data_out(stage, &mut state, &memory, &mut buffer, 0x42);
    assert_eq!(stage, ControlStage::Done(Err(EndpointError::BufferOverflow)));
    assert_eq!(actions, vec![write8(0x22, 0x4a)]);
}

#[test]
fn aborted_control_write_ignores_its_length() {
    let mut state = UsbState::new();
    let memory = PacketMemory::new();
    let mut pipe = ControlPipe { max_packet_size: 64, reset_generation: 0 };
    let mut buffer = [0xee; 128];
    let (stage, _) = pipe.data_out(ControlStage::Request, &mut state, &memory, &mut buffer, 0xca);
    interrupt(&mut state, 0x40, 100, 0xc2);
    let (stage, _) = pipe.data_out(stage, &mut state, &memory, &mut buffer, 0x42);
    assert!(matches!(stage, ControlStage::Finish(_, 100)));
    interrupt(&mut state, 0xb0, 8, 0);
    let (stage, _) = pipe.data_out(stage, &mut state, &memory, &mut buffer, 0xca);
    let (stage, actions) = pipe.data_out(stage, &mut state, &memory, &mut buffer, 0xca);
    assert_eq!(stage, ControlStage::Done(Err(EndpointError::Disabled)));
    assert!(actions.is_empty());
    assert_eq!(buffer, [0xee; 128]);
}

#[test]
fn control_read_ends_with_the_status_packet() {
    let mut state = UsbState::new();
    let mut memory = PacketMemory::new();
    let mut pipe = ControlPipe { max_packet_size: 8, reset_generation: 0 };
    let data = [1, 2, 3, 4, 5, 6, 7, 8];
    let (stage, actions) =
        pipe.data_in(ControlStage::Request, &mut state, &mut memory, &data, false, 0xca);
    assert_eq!(actions, vec![write8(0x20, 8), write8(0x22, 0xc8)]);
    assert_eq!(memory.control[..9], [1, 2, 3, 4, 5, 6, 7, 8, 0]);
    interrupt(&mut state, 0x20, 0, 0xc8);
    let (stage, _) = pipe.data_in(stage, &mut state, &mut memory, &data, false, 0x8a);
    let (stage, actions) = pipe.data_in(stage, &mut state, &mut memory, &data, false, 0x8a);
    assert_eq!(stage, ControlStage::Done(Ok(())));
    assert!(actions.is_empty());
    let (stage, actions) =
        pipe.data_in(ControlStage::Request, &mut state, &mut memory, &[], true, 0x8a);
    assert_eq!(actions, vec![write8(0x20, 0), write8(0x22, 0x80)]);
    interrupt(&mut state, 0x20, 0, 0x80);
    let (stage, _) = pipe.data_in(stage, &mut state, &mut memory, &[], true, 0xc2);
    let (stage, actions) = pipe.data_in(stage, &mut state, &mut memory, &[], true, 0xc2);
    assert_eq!(stage, ControlStage::Done(Ok(())));
    assert_eq!(actions, vec![write8(0x22, 0xc2)]);
    let long = [0; 9];
    let (stage, _) = pipe.data_in(ControlStage::Request, &mut state, &mut memory, &long, true, 0);
    assert_eq!(stage, ControlStage::Done(Err(EndpointError::BufferOverflow)));
}

#[test]
fn new_setup_ends_every_stage() {
    let mut state = UsbState::new();
    let mut memory = PacketMemory::new();
    let mut pipe = ControlPipe { max_packet_size: 8, reset_generation: 0 };
    let (waiting, _) =
        pipe.data_in(ControlStage::Request, &mut state, &mut memory, &[1], true, 0xca);
    interrupt(&mut state, 0xb0, 8, 0);
    let (stage, _) = pipe.data_in(waiting, &mut state, &mut memory, &[1], true, 0xca);
    let (stage, actions) = pipe.data_in(stage, &mut state, &mut memory, &[1], true, 0xca);
    assert_eq!(stage, ControlStage::Done(Err(EndpointError::Disabled)));
    assert!(actions.is_empty());
    let (stage, _) = pipe.data_in(ControlStage::Request, &mut state, &mut memory, &[1], true, 0);
    assert_eq!(stage, ControlStage::Done(Err(EndpointError::Disabled)));
    let mut buffer = [0; 8];
    let (stage, _) = pipe.data_out(ControlStage::Request, &mut state, &memory, &mut buffer, 0);
    assert_eq!(stage, ControlStage::Done(Err(EndpointError::Disabled)));
    let (stage, actions) =
        pipe.status_in(ControlStage::Request, &mut state, &mut memory, None, 0, 0);
    assert_eq!(stage, ControlStage::Done(Err(EndpointError::Disabled)));
    assert!(actions.is_empty());
}

#[test]
fn address_is_installed_after_the_status_packet() {
    let mut state = UsbState::new();
    let mut memory = PacketMemory::new();
    let mut pipe = ControlPipe { max_packet_size: 8, reset_generation: 0 };
    let address = Some(0x85);
    let (stage, actions) =
        pipe.status_in(ControlStage::Request, &mut state, &mut memory, address, 0xca, 0x80);
    assert_eq!(actions, vec![write8(0x20, 0), write8(0x22, 0xc0)]);
    let (stage, actions) = pipe.status_in(stage, &mut state, &mut memory, address, 0xc0, 0x80);
    assert!(matches!(stage, ControlStage::Wait(_)));
    assert!(actions.is_empty());
    interrupt(&mut state, 0x20, 0, 0xc0);
    let (stage, _) = pipe.status_in(stage, &mut state, &mut memory, address, 0x82, 0x80);
    let (stage, actions) = pipe.status_in(stage, &mut state, &mut memory, address, 0x82, 0x80);
    assert_eq!(stage, ControlStage::Done(Ok(())));
    assert_eq!(actions, vec![write8(0x22, 0x02), write8(0x03, 0x85)]);
    let guard = ControlTransferGuard { direction: Direction::In, reset_generation: 0, armed: true };
    let finishing = ControlStage::Finish(guard, 0);
    let (_, actions) = pipe.status_in(finishing, &mut state, &mut memory, None, 0x82, 0x80);
    assert_eq!(actions, vec![write8(0x22, 0x02)]);
    assert_eq!(pipe.reject(), write8(0x22, 0x0f));
}

#[test]
fn reset_moves_the_pipe_to_the_new_generation() {
    let mut state = UsbState::new();
    let mut memory = PacketMemory::new();
    let mut pipe = ControlPipe { max_packet_size: 8, reset_generation: 0 };
    let (stage, _) =
        pipe.status_in(ControlStage::Request, &mut state, &mut memory, None, 0xca, 0);
    reset(&mut state);
    let (stage, _) = pipe.status_in(stage, &mut state, &mut memory, None, 0x02, 0);
    assert!(matches!(stage, ControlStage::Release(_, EndpointError::Disabled)));
    assert_eq!(pipe.reset_generation, 1);
    let (_, actions) = pipe.status_in(stage, &mut state, &mut memory, None, 0x00, 0);
    assert!(actions.is_empty());
}

#[test]
fn dropped_read_loses_no_packet() {
    let (mut state, _, output) = endpoints();
    let memory = PacketMemory::new();
    let mut buffer = [0; 8];
    let (stage, _) = output.read(ReadStage::Request, &mut state, &memory, &mut buffer, 0x1a);
    let (stage, _) = output.read(stage, &mut state, &memory, &mut buffer, 0x1a);
    interrupt(&mut state, 0x41, 6, 0x12);
    assert_eq!(stage.cancel(&state, 0x1a), None);
    let (stage, _) = output.read(ReadStage::Request, &mut state, &memory, &mut buffer, 0x1a);
    let (stage, _) = output.read(stage, &mut state, &memory, &mut buffer, 0x1a);
    assert!(matches!(stage, ReadStage::Confirm(_, 6)));
}

#[test]
fn dropped_write_closes_its_bank() {
    let (mut state, input, _) = endpoints();
    let mut memory = PacketMemory::new();
    let mut control = 0x12;
    for data in [[1, 2], [3, 4]] {
        let (stage, _) = input.write(WriteStage::Request, &mut state, &mut memory, &data, control);
        assert_ne!(control & 0x03, 0x00);
        let (stage, actions) = input.write(stage, &mut state, &mut memory, &data, control);
        assert_eq!(actions[1], write8(0x26, 0x10));
        control = stage.cancel(&state, 0x10).unwrap();
        assert_eq!(control, 0x12);
    }
    assert_eq!(memory.endpoints[64..66], [3, 4]);
}

#[test]
fn setup_bytes_come_from_the_control_bank() {
    let mut memory = PacketMemory::new();
    memory.write_endpoint_buffer(Bank::Control, &[1, 2, 3, 4, 5, 6, 7, 8, 9]);
    assert_eq!(memory.setup_packet(), [1, 2, 3, 4, 5, 6, 7, 8]);
    memory.write_endpoint_buffer(Bank::Endpoint { offset: 320 }, &[7; 64]);
    let mut buffer = [0; 65];
    memory.read_endpoint_buffer(Bank::Endpoint { offset: 320 }, 64, &mut buffer);
    assert_eq!(buffer[63..], [7, 0]);
    assert_eq!(memory.endpoints[319], 0);
}
