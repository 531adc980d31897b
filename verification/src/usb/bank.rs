//! Packet memory of the endpoints.

use vstd::prelude::*;

use crate::bits;
use crate::usb::address::{Direction, ENDPOINT_COUNT};
use crate::usb::register::EP_PACKET_SIZE;

verus! {

/// Bytes in the banks of the three endpoints: two banks each.
pub const ENDPOINT_MEMORY_SIZE: usize = 384;

/// Packet memory shared with the DMA engine.
#[derive(Clone, Copy, Debug, PartialEq, Eq, Structural)]
pub enum Bank {
    /// The bank of endpoint zero.
    Control,
    /// The bank that starts at `offset` in the memory of the other endpoints.
    Endpoint { offset: usize },
}

impl Bank {
    /// The bank lies inside the packet memory.
    pub open spec fn wf(self) -> bool {
        match self {
            Bank::Control => true,
            Bank::Endpoint { offset } => offset + EP_PACKET_SIZE <= ENDPOINT_MEMORY_SIZE,
        }
    }
}

/// The bank of endpoint `index` in `direction`. Every endpoint but zero has two
/// banks in a row. The first one serves an endpoint that is used in one
/// direction; the second one holds IN packets of an endpoint number whose OUT
/// direction is allocated as well.
pub open spec fn spec_bank(index: int, direction: Direction, allocated_out: Set<int>) -> Bank {
    if index == 0 {
        Bank::Control
    } else if direction == Direction::In && allocated_out.contains(index) {
        Bank::Endpoint { offset: ((index - 1) * 2 * EP_PACKET_SIZE + EP_PACKET_SIZE) as usize }
    } else {
        Bank::Endpoint { offset: ((index - 1) * 2 * EP_PACKET_SIZE) as usize }
    }
}

/// The bank of endpoint `index` in `direction`.
pub fn endpoint_bank(index: usize, direction: Direction, allocated_out: u8) -> (bank: Bank)
    requires
        index < ENDPOINT_COUNT,
    ensures
        bank == spec_bank(index as int, direction, bits::set8(allocated_out)),
        bank.wf(),
{
    if index == 0 {
        return Bank::Control;
    }
    let base: usize = (index - 1) * 2 * EP_PACKET_SIZE;
    match direction {
        Direction::Out => Bank::Endpoint { offset: base },
        Direction::In => {
            if bits::has8(allocated_out, index) {
                Bank::Endpoint { offset: base + EP_PACKET_SIZE }
            } else {
                Bank::Endpoint { offset: base }
            }
        },
    }
}

/// `bytes` with those from `start` on overwritten by `data`.
pub open spec fn overwrite(bytes: Seq<u8>, start: int, data: Seq<u8>) -> Seq<u8> {
    Seq::new(
        bytes.len(),
        |i: int|
            if start <= i < start + data.len() {
                data[i - start]
            } else {
                bytes[i]
            },
    )
}

/// The packet memory.
pub struct PacketMemory {
    /// The bank of endpoint zero.
    pub control: [u8; EP_PACKET_SIZE],
    /// The banks of the other endpoints.
    pub endpoints: [u8; ENDPOINT_MEMORY_SIZE],
}

/// What a `PacketMemory` holds.
#[verifier::ext_equal]
pub struct MemoryModel {
    pub control: Seq<u8>,
    pub endpoints: Seq<u8>,
}

impl View for PacketMemory {
    type V = MemoryModel;

    open spec fn view(&self) -> MemoryModel {
        MemoryModel { control: self.control@, endpoints: self.endpoints@ }
    }
}

impl MemoryModel {
    /// The memory has all its banks.
    pub open spec fn wf(self) -> bool {
        self.control.len() == EP_PACKET_SIZE && self.endpoints.len() == ENDPOINT_MEMORY_SIZE
    }

    /// The bytes of a bank.
    pub open spec fn bytes(self, bank: Bank) -> Seq<u8> {
        match bank {
            Bank::Control => self.control,
            Bank::Endpoint { offset } => self.endpoints.subrange(
                offset as int,
                offset + EP_PACKET_SIZE,
            ),
        }
    }

    /// The memory with a packet written to the start of a bank.
    pub open spec fn written(self, bank: Bank, data: Seq<u8>) -> MemoryModel {
        match bank {
            Bank::Control => MemoryModel { control: overwrite(self.control, 0, data), ..self },
            Bank::Endpoint { offset } => MemoryModel {
                endpoints: overwrite(self.endpoints, offset as int, data),
                ..self
            },
        }
    }
}

impl PacketMemory {
    /// Memory of zeros.
    pub fn new() -> (memory: PacketMemory)
        ensures
            memory@.wf(),
            forall|i: int| 0 <= i < EP_PACKET_SIZE ==> #[trigger] memory@.control[i] == 0,
            forall|i: int| 0 <= i < ENDPOINT_MEMORY_SIZE ==> #[trigger] memory@.endpoints[i] == 0,
    {
        PacketMemory {
            control: [0u8;EP_PACKET_SIZE],
            endpoints: [0u8;ENDPOINT_MEMORY_SIZE],
        }
    }

    /// Copies a packet to the start of a bank.
    pub fn write_endpoint_buffer(&mut self, bank: Bank, data: &[u8])
        requires
            bank.wf(),
            data@.len() <= EP_PACKET_SIZE,
        ensures
            final(self)@ == old(self)@.written(bank, data@),
    {
        let ghost before = self@;
        let mut i: usize = 0;
        match bank {
            Bank::Control => {
                while i < data.len()
                    invariant
                        i <= data@.len() <= EP_PACKET_SIZE,
                        before.wf(),
                        self@ == before.written(bank, data@.take(i as int)),
                        bank == Bank::Control,
                    decreases data@.len() - i,
                {
                    self.control[i] = data[i];
                    i = i + 1;
                    assert(self@ =~= before.written(bank, data@.take(i as int)));
                }
            },
            Bank::Endpoint { offset } => {
                while i < data.len()
                    invariant
                        i <= data@.len() <= EP_PACKET_SIZE,
                        before.wf(),
                        self@ == before.written(bank, data@.take(i as int)),
                        bank == (Bank::Endpoint { offset }),
                        offset + EP_PACKET_SIZE <= ENDPOINT_MEMORY_SIZE,
                    decreases data@.len() - i,
                {
                    self.endpoints[offset + i] = data[i];
                    i = i + 1;
                    assert(self@ =~= before.written(bank, data@.take(i as int)));
                }
            },
        }
        assert(data@.take(data@.len() as int) =~= data@);
    }

    /// Copies the first `length` bytes of a bank to the start of `output`.
    pub fn read_endpoint_buffer(&self, bank: Bank, length: usize, output: &mut [u8])
        requires
            bank.wf(),
            length <= EP_PACKET_SIZE,
            length <= old(output)@.len(),
        ensures
            final(output)@ == overwrite(
                old(output)@,
                0,
                self@.bytes(bank).take(length as int),
            ),
    {
        let ghost before = output@;
        let ghost packet = self@.bytes(bank);
        let mut i: usize = 0;
        while i < length
            invariant
                i <= length <= EP_PACKET_SIZE,
                length <= before.len(),
                bank.wf(),
                packet == self@.bytes(bank),
                output@ == overwrite(before, 0, packet.take(i as int)),
            decreases length - i,
        {
            let byte: u8 = match bank {
                Bank::Control => self.control[i],
                Bank::Endpoint { offset } => self.endpoints[offset + i],
            };
            output[i] = byte;
            i = i + 1;
            assert(output@ =~= overwrite(before, 0, packet.take(i as int)));
        }
    }

    /// The SETUP packet at the start of the bank of endpoint zero.
    pub fn setup_packet(&self) -> (packet: [u8; 8])
        ensures
            packet@ == self@.control.take(8),
    {
        let packet: [u8; 8] = [
            self.control[0],
            self.control[1],
            self.control[2],
            self.control[3],
            self.control[4],
            self.control[5],
            self.control[6],
            self.control[7],
        ];
        assert(packet@ =~= self@.control.take(8));
        packet
    }
}

/// A packet reads back as it was written.
pub proof fn packet_reads_back(memory: MemoryModel, bank: Bank, data: Seq<u8>)
    requires
        memory.wf(),
        bank.wf(),
        data.len() <= EP_PACKET_SIZE,
    ensures
        memory.written(bank, data).bytes(bank).take(data.len() as int) == data,
{
    assert(memory.written(bank, data).bytes(bank).take(data.len() as int) =~= data);
}

/// A packet of one endpoint leaves the packets of every other endpoint alone.
pub proof fn write_keeps_other_banks(
    memory: MemoryModel,
    allocated_out: Set<int>,
    index_a: int,
    direction_a: Direction,
    index_b: int,
    direction_b: Direction,
    data: Seq<u8>,
)
    requires
        memory.wf(),
        0 <= index_a < ENDPOINT_COUNT,
        0 <= index_b < ENDPOINT_COUNT,
        direction_a == Direction::Out ==> allocated_out.contains(index_a),
        direction_b == Direction::Out ==> allocated_out.contains(index_b),
        index_a != index_b || (direction_a != direction_b && index_a != 0),
        data.len() <= EP_PACKET_SIZE,
    ensures
        ({
            let a = spec_bank(index_a, direction_a, allocated_out);
            let b = spec_bank(index_b, direction_b, allocated_out);
            memory.written(a, data).bytes(b) == memory.bytes(b)
        }),
{
    let a = spec_bank(index_a, direction_a, allocated_out);
    let b = spec_bank(index_b, direction_b, allocated_out);
    if index_a != 0 && index_b != 0 {
        banks_are_disjoint(allocated_out, index_a, direction_a, index_b, direction_b);
        banks_are_disjoint(allocated_out, index_b, direction_b, index_a, direction_a);
    }
    assert(memory.written(a, data).bytes(b) =~= memory.bytes(b));
}

/// The banks of two different allocated endpoints never overlap, and every bank
/// lies inside the memory of the three endpoints.
pub proof fn banks_are_disjoint(
    allocated_out: Set<int>,
    index_a: int,
    direction_a: Direction,
    index_b: int,
    direction_b: Direction,
)
    requires
        1 <= index_a < ENDPOINT_COUNT,
        1 <= index_b < ENDPOINT_COUNT,
        direction_a == Direction::Out ==> allocated_out.contains(index_a),
        direction_b == Direction::Out ==> allocated_out.contains(index_b),
        index_a != index_b || direction_a != direction_b,
    ensures
        spec_bank(index_a, direction_a, allocated_out) matches Bank::Endpoint { offset: a }
            && spec_bank(index_b, direction_b, allocated_out) matches Bank::Endpoint { offset: b }
            && (a + EP_PACKET_SIZE <= b || b + EP_PACKET_SIZE <= a) && a + EP_PACKET_SIZE <= (
        ENDPOINT_COUNT - 1) * 2 * EP_PACKET_SIZE,
{
}

} // verus!
