use embassy_ch58x::chip::Chip;
use embassy_ch58x::interrupt::typelevel::{Binding, Handler, USB};
use embassy_ch58x::pfic::PficAction;
use embassy_ch58x::usb::address::{Direction, EndpointAddress};
use embassy_ch58x::usb::bank::{endpoint_bank, Bank};
use embassy_ch58x::usb::bus::{endpoint_mode_bytes, DmaLayout};
use embassy_ch58x::usb::chip::write_endpoint_dma;
use embassy_ch58x::usb::interrupt::{is_setup_status, usb_interrupt, InterruptSnapshot};
use embassy_ch58x::usb::register::{Action, DmaWord, Wake};
use embassy_ch58x::usb::state::UsbState;
use embassy_ch58x::usb::types::{EndpointAllocError, EndpointType, Event, Unsupported};
use embassy_ch58x::usb::{force_disconnect, Bus, Driver, InterruptHandler};

#[derive(Clone, Copy)]
struct Irqs;

impl Binding<USB, InterruptHandler> for Irqs {}

fn write8(offset: usize, value: u8) -> Action {
    Action::Write8 { offset, value }
}

fn snapshot(flags: u8, status: u8) -> InterruptSnapshot {
    InterruptSnapshot { flags, status, rx_len: 0, mis_st: 0, control: 0, setup: [0; 8] }
}

#[test]
fn addresses_split_and_join() {
    let address = EndpointAddress::from_parts(3, Direction::In);
    assert_eq!(address.raw, 0x83);
    assert_eq!(address.index(), 3);
    assert_eq!(address.direction(), Direction::In);
    let address = EndpointAddress::from_parts(2, Direction::Out);
    assert_eq!(address.raw, 0x02);
    assert_eq!(address.index(), 2);
    assert_eq!(address.direction(), Direction::Out);
    let raw = EndpointAddress { raw: 0xff };
    assert_eq!(raw.index(), 127);
    assert_eq!(raw.direction(), Direction::In);
}

#[test]
fn setup_mark_overrides_endpoint_number() {
    assert!(is_setup_status(0xbd));
    assert!(is_setup_status(0xb0));
    assert!(!is_setup_status(0x3d));
}

#[test]
fn mode_bytes_follow_allocation() {
    assert_eq!(endpoint_mode_bytes(0, 0), [0x00, 0x00, 0x00]);
    assert_eq!(endpoint_mode_bytes(0x02, 0), [0x40, 0x00, 0x00]);
    assert_eq!(endpoint_mode_bytes(0, 0x02), [0x80, 0x00, 0x00]);
    assert_eq!(endpoint_mode_bytes(0x04, 0), [0x00, 0x04, 0x00]);
    assert_eq!(endpoint_mode_bytes(0, 0x04), [0x00, 0x08, 0x00]);
    assert_eq!(endpoint_mode_bytes(0x08, 0), [0x00, 0x40, 0x00]);
    assert_eq!(endpoint_mode_bytes(0, 0x08), [0x00, 0x80, 0x00]);
    assert_eq!(endpoint_mode_bytes(0x0e, 0x0e), [0xc0, 0xcc, 0x00]);
}

#[test]
fn allocation_takes_free_numbers() {
    let state = UsbState::new();
    let mut driver = Driver::new(Irqs);
    assert_eq!((driver.allocated_in, driver.allocated_out), (0, 0));
    let interrupt = driver.alloc_endpoint_in(EndpointType::Interrupt, None, 8, 10, &state).unwrap();
    assert_eq!(interrupt.info.addr.raw, 0x83);
    assert_eq!(interrupt.info.max_packet_size, 8);
    assert_eq!(interrupt.info.interval_ms, 10);
    let bulk_in = driver.alloc_endpoint_in(EndpointType::Bulk, None, 64, 0, &state).unwrap();
    assert_eq!(bulk_in.info.addr.raw, 0x81);
    let bulk_out = driver.alloc_endpoint_out(EndpointType::Bulk, None, 64, 0, &state).unwrap();
    assert_eq!(bulk_out.info.addr.raw, 0x01);
    assert_eq!(driver.allocated_in, 0x0a);
    assert_eq!(driver.allocated_out, 0x02);
    let requested = driver
        .alloc_endpoint_out(EndpointType::Bulk, Some(EndpointAddress { raw: 0x03 }), 32, 0, &state)
        .unwrap();
    assert_eq!(requested.info.addr.raw, 0x03);
    assert_eq!(driver.allocated_out, 0x0a);
}

#[test]
fn allocation_refuses_what_it_cannot_give() {
    let state = UsbState::new();
    let mut driver = Driver::new(Irqs);
    let refused = |driver: &mut Driver, ep_type, address: Option<u8>, size| {
        let address = address.map(|raw| EndpointAddress { raw });
        let before = driver.allocated_out;
        let result = driver.alloc_endpoint_out(ep_type, address, size, 0, &state);
        assert_eq!(result.err(), Some(EndpointAllocError));
        assert_eq!(driver.allocated_out, before);
    };
    refused(&mut driver, EndpointType::Isochronous, None, 64);
    refused(&mut driver, EndpointType::Bulk, None, 0);
    refused(&mut driver, EndpointType::Bulk, None, 65);
    refused(&mut driver, EndpointType::Bulk, Some(0x81), 64);
    refused(&mut driver, EndpointType::Bulk, Some(0x00), 64);
    refused(&mut driver, EndpointType::Bulk, Some(0x04), 64);
    for _ in 0..3 {
        assert!(driver.alloc_endpoint_out(EndpointType::Bulk, None, 64, 0, &state).is_ok());
    }
    assert_eq!(driver.allocated_out, 0x0e);
    refused(&mut driver, EndpointType::Bulk, None, 64);
    refused(&mut driver, EndpointType::Bulk, Some(0x02), 64);
}

#[test]
fn start_reports_power_once() {
    let mut state = UsbState::new();
    let driver = Driver::new(Irqs);
    let (mut bus, pipe) = driver.start(64, &mut state);
    assert_eq!(pipe.max_packet_size(), 64);
    assert!(!bus.enabled);
    assert_eq!(bus.poll(&mut state), Some(Event::PowerDetected));
    assert_eq!(bus.poll(&mut state), None);
}

#[test]
fn events_come_most_urgent_first() {
    let mut state = UsbState::new();
    let mut bus = Bus { allocated_in: 0, allocated_out: 0, enabled: true };
    state.bus_events = 0x0f;
    assert_eq!(bus.poll(&mut state), Some(Event::Reset));
    assert_eq!(bus.poll(&mut state), Some(Event::Suspend));
    assert_eq!(bus.poll(&mut state), Some(Event::Resume));
    assert_eq!(bus.poll(&mut state), Some(Event::PowerDetected));
    assert_eq!(bus.poll(&mut state), None);
}

#[test]
fn enabling_programs_a_stopped_controller() {
    let mut state = UsbState::new();
    state.setup_pending = true;
    let mut bus = Bus { allocated_in: 0x08, allocated_out: 0x02, enabled: false };
    let dma = DmaLayout { control: 0x2000_1000, endpoints: 0x2000_1040 };
    let actions = bus.enable(&mut state, Chip::Ch582, dma, 0x0001);
    assert!(bus.enabled);
    assert_eq!((state.input.allocated, state.output.allocated), (0x08, 0x02));
    assert!(!state.setup_pending);
    let half = |index, value| Action::WriteDma { index, word: DmaWord::Half(value) };
    assert_eq!(
        actions,
        vec![
            write8(0x00, 0x00),
            write8(0x0c, 0x80),
            write8(0x0d, 0x40),
            write8(0x0e, 0x00),
            half(0, 0x1000),
            half(1, 0x1040),
            half(2, 0x10c0),
            half(3, 0x1140),
            write8(0x03, 0x00),
            write8(0x22, 0x02),
            write8(0x26, 0x1f),
            write8(0x24, 0x00),
            write8(0x2a, 0x1f),
            write8(0x28, 0x00),
            write8(0x2e, 0x1f),
            write8(0x2c, 0x00),
            write8(0x03, 0x00),
            write8(0x00, 0x29),
            Action::WritePins { pins: 0x00c1 },
            write8(0x06, 0xff),
            write8(0x01, 0x81),
            write8(0x02, 0x07),
            Action::Pfic(PficAction::SetPriority { irq: 22, bits: 0x10 }),
            Action::Pfic(PficAction::Enable { irq: 22 }),
        ]
    );
}

#[test]
fn reset_may_keep_endpoints_enabled() {
    let mut state = UsbState::new();
    let mut actions = Vec::new();
    state.reset_endpoint_state(0x0a, 0x06, true, &mut actions);
    assert_eq!((state.input.enabled, state.output.enabled), (0x0a, 0x06));
    assert_eq!(actions[2], write8(0x26, 0x12));
    assert_eq!(actions[4], write8(0x2a, 0x13));
    assert_eq!(actions[6], write8(0x2e, 0x1e));
}

#[test]
fn long_dma_registers_hold_the_address() {
    let mut state = UsbState::new();
    let mut bus = Bus { allocated_in: 0, allocated_out: 0, enabled: false };
    let dma = DmaLayout { control: 0x2001_ff00, endpoints: 0x2001_0000 };
    let actions = bus.enable(&mut state, Chip::Ch585, dma, 0);
    assert_eq!(actions[4], Action::WriteDma { index: 0, word: DmaWord::Word(0x2001_ff00) });
    assert_eq!(actions[7], Action::WriteDma { index: 3, word: DmaWord::Word(0x2001_0100) });
    assert_eq!(
        write_endpoint_dma(Chip::Ch585, 1, 0x2000_0100),
        Action::WriteDma { index: 1, word: DmaWord::Word(0x2000_0100) }
    );
    assert_eq!(
        write_endpoint_dma(Chip::Ch582, 1, 0x2000_0100),
        Action::WriteDma { index: 1, word: DmaWord::Half(0x0100) }
    );
}

#[test]
fn dma_reaches_part_of_the_memory() {
    let near = DmaLayout { control: 0x2000_0000, endpoints: 0x2000_fe00 };
    let crossing = DmaLayout { control: 0x2000_0000, endpoints: 0x2000_ff80 };
    let odd = DmaLayout { control: 0x2000_0002, endpoints: 0x2000_0100 };
    let outside = DmaLayout { control: 0x2001_fff0, endpoints: 0x2001_ff00 };
    let below = DmaLayout { control: 0x1fff_fffc, endpoints: usize::MAX };
    assert!(near.is_reachable(Chip::Ch582) && near.is_reachable(Chip::Ch585));
    assert!(!crossing.is_reachable(Chip::Ch582) && crossing.is_reachable(Chip::Ch585));
    assert!(odd.is_reachable(Chip::Ch582) && !odd.is_reachable(Chip::Ch585));
    assert!(!outside.is_reachable(Chip::Ch582) && !outside.is_reachable(Chip::Ch585));
    assert!(!below.is_reachable(Chip::Ch582) && !below.is_reachable(Chip::Ch585));
}

#[test]
fn disabling_starts_a_new_generation() {
    let mut state = UsbState::new();
    state.input.enabled = 0x02;
    state.output.enabled = 0x04;
    state.reset_generation = u32::MAX;
    let mut bus = Bus { allocated_in: 0x02, allocated_out: 0x04, enabled: true };
    let actions = bus.disable(&mut state);
    assert!(!bus.enabled);
    assert_eq!(state.reset_generation, 0);
    assert_eq!((state.input.enabled, state.output.enabled), (0, 0));
    assert_eq!(actions[0], Action::Pfic(PficAction::Disable { irq: 22 }));
    assert_eq!(actions[1], write8(0x02, 0));
    assert_eq!(actions[2], write8(0x01, 0x80));
    assert_eq!(actions[3], write8(0x00, 0));
    assert_eq!(actions.len(), 13);
    assert_eq!(actions[4], Action::Wake(Wake::Control));
    assert_eq!(actions[12], Action::Wake(Wake::Out(3)));
}

#[test]
fn enabling_an_endpoint_restarts_it_at_data0() {
    let mut state = UsbState::new();
    let mut bus = Bus { allocated_in: 0x02, allocated_out: 0x02, enabled: true };
    let input = EndpointAddress { raw: 0x81 };
    let output = EndpointAddress { raw: 0x01 };
    let actions = bus.endpoint_set_enabled(&mut state, input, true, 0xdf);
    assert_eq!(actions, vec![write8(0x26, 0x9e), Action::Wake(Wake::In(1))]);
    assert_eq!((state.input.enabled, state.input.enables[1]), (0x02, 1));
    let actions = bus.endpoint_set_enabled(&mut state, output, true, 0xde);
    assert_eq!(actions, vec![write8(0x26, 0x52), Action::Wake(Wake::Out(1))]);
    state.output.complete = 0x02;
    let actions = bus.endpoint_set_enabled(&mut state, output, false, 0x52);
    assert_eq!(actions, vec![write8(0x26, 0x5e), Action::Wake(Wake::Out(1))]);
    assert_eq!((state.output.enabled, state.output.complete), (0, 0));
    assert_eq!(state.output.enables[1], 2);
    let actions = bus.endpoint_set_enabled(&mut state, input, false, 0x9e);
    assert_eq!(actions[0], write8(0x26, 0x9f));
}

#[test]
fn halting_is_reported_and_cleared() {
    let mut state = UsbState::new();
    let mut bus = Bus { allocated_in: 0x02, allocated_out: 0x02, enabled: true };
    let input = EndpointAddress { raw: 0x81 };
    let output = EndpointAddress { raw: 0x01 };
    assert_eq!(bus.endpoint_set_stalled(&state, input, true, 0x52), write8(0x26, 0x53));
    assert!(bus.endpoint_is_stalled(input, 0x53));
    assert!(!bus.endpoint_is_stalled(output, 0x53));
    assert_eq!(bus.endpoint_set_stalled(&state, input, false, 0x53), write8(0x26, 0x12));
    assert_eq!(bus.endpoint_set_stalled(&state, output, true, 0x92), write8(0x26, 0x9e));
    assert!(bus.endpoint_is_stalled(output, 0x9e));
    assert_eq!(bus.endpoint_set_stalled(&state, output, false, 0x9e), write8(0x26, 0x12));
    state.output.complete = 0x02;
    assert_eq!(bus.endpoint_set_stalled(&state, output, false, 0x9e), write8(0x26, 0x1a));
}

#[test]
fn bus_signals_end() {
    let mut bus = Bus { allocated_in: 0, allocated_out: 0, enabled: true };
    assert_eq!(bus.begin_force_reset(0x29), 0x2d);
    assert_eq!(bus.end_force_reset(0x2d), 0x29);
    assert_eq!(bus.begin_remote_wakeup(0x00, 0x29), Err(Unsupported));
    assert_eq!(bus.begin_remote_wakeup(0x04, 0x29), Ok(0x39));
    assert_eq!(bus.end_remote_wakeup(0x39), 0x29);
    bus.enabled = false;
    assert_eq!(bus.begin_remote_wakeup(0x04, 0x29), Err(Unsupported));
}

#[test]
fn disconnecting_drops_the_pullup() {
    assert_eq!(force_disconnect(0x00c1), Action::WritePins { pins: 0x0081 });
}

#[test]
fn banks_follow_allocation() {
    assert_eq!(endpoint_bank(0, Direction::In, 0x0e), Bank::Control);
    assert_eq!(endpoint_bank(1, Direction::Out, 0x02), Bank::Endpoint { offset: 0 });
    assert_eq!(endpoint_bank(1, Direction::In, 0x02), Bank::Endpoint { offset: 64 });
    assert_eq!(endpoint_bank(3, Direction::In, 0x02), Bank::Endpoint { offset: 256 });
    assert_eq!(endpoint_bank(3, Direction::In, 0x08), Bank::Endpoint { offset: 320 });
}

#[test]
fn setup_interrupt_keeps_the_packet() {
    let mut state = UsbState::new();
    state.input.complete = 0x03;
    state.output.complete = 0x01;
    let packet = [0x80, 6, 0, 1, 0, 0, 64, 0];
    let taken = InterruptSnapshot { setup: packet, ..snapshot(0x02, 0xbd) };
    let actions = usb_interrupt(&mut state, &taken);
    assert_eq!(
        actions,
        vec![write8(0x22, 0xca), Action::Wake(Wake::Control), write8(0x06, 0x02)]
    );
    assert!(state.setup_pending);
    assert_eq!(state.setup_packet, packet);
    assert_eq!(state.out_lengths[0], 8);
    assert_eq!((state.input.complete, state.output.complete), (0x02, 0x00));
    let mut state = UsbState::new();
    usb_interrupt(&mut state, &InterruptSnapshot { setup: packet, ..snapshot(0x02, 0x30) });
    assert!(state.setup_pending);
}

#[test]
fn out_interrupt_closes_the_endpoint() {
    let mut state = UsbState::new();
    state.output.completions[2] = 255;
    let taken = InterruptSnapshot { rx_len: 17, control: 0x12, ..snapshot(0x02, 0x42) };
    let actions = InterruptHandler::on_interrupt(&mut state, &taken);
    assert_eq!(
        actions,
        vec![write8(0x2a, 0x1a), Action::Wake(Wake::Out(2)), write8(0x06, 0x02)]
    );
    assert_eq!(state.output.complete, 0x04);
    assert_eq!(state.output.completions[2], 0);
    assert_eq!(state.out_lengths[2], 17);
    let taken = InterruptSnapshot { rx_len: 5, control: 0x82, ..snapshot(0x02, 0x40) };
    let actions = usb_interrupt(&mut state, &taken);
    assert_eq!(actions[0], write8(0x22, 0x02));
    assert_eq!(actions[1], Action::Wake(Wake::Control));
    assert_eq!(state.output.completions[0], 0);
}

#[test]
fn in_interrupt_defers_the_host() {
    let mut state = UsbState::new();
    let taken = InterruptSnapshot { control: 0x10, ..snapshot(0x02, 0x23) };
    let actions = usb_interrupt(&mut state, &taken);
    assert_eq!(
        actions,
        vec![write8(0x2e, 0x12), Action::Wake(Wake::In(3)), write8(0x06, 0x02)]
    );
    assert_eq!((state.input.complete, state.input.completions[3]), (0x08, 1));
    let taken = InterruptSnapshot { control: 0x40, ..snapshot(0x02, 0x20) };
    let actions = usb_interrupt(&mut state, &taken);
    assert_eq!(actions[0], write8(0x22, 0x02));
}

#[test]
fn other_transfers_are_only_acknowledged() {
    for status in [0x02, 0x45, 0x11] {
        let mut state = UsbState::new();
        let actions = usb_interrupt(&mut state, &snapshot(0x02, status));
        assert_eq!(actions, vec![write8(0x06, 0x02)]);
        assert_eq!((state.input.complete, state.output.complete), (0, 0));
        assert!(!state.setup_pending);
    }
}

#[test]
fn transfer_goes_before_reset() {
    let mut state = UsbState::new();
    state.input.enabled = 0x02;
    let first = usb_interrupt(&mut state, &snapshot(0x07, 0x22));
    assert_eq!(first.last(), Some(&write8(0x06, 0x02)));
    assert_eq!((state.reset_generation, state.input.enabled), (0, 0x02));
    let second = usb_interrupt(&mut state, &snapshot(0x05, 0x22));
    assert!(second.contains(&write8(0x06, 0x01)));
    assert_eq!(second.last(), Some(&Action::Wake(Wake::Bus)));
    assert_eq!((state.reset_generation, state.input.enabled), (1, 0));
    assert_eq!((state.bus_events, state.input.complete), (0x01, 0));
    let third = InterruptSnapshot { mis_st: 0x04, ..snapshot(0x04, 0) };
    assert_eq!(
        usb_interrupt(&mut state, &third),
        vec![write8(0x06, 0x04), Action::Wake(Wake::Bus)]
    );
    assert_eq!(state.bus_events, 0x03);
    usb_interrupt(&mut state, &snapshot(0x04, 0));
    assert_eq!(state.bus_events, 0x07);
    assert!(usb_interrupt(&mut state, &snapshot(0x08, 0)).is_empty());
}
