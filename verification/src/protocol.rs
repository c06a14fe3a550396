//! Protocol driver for the ST7789 command/data wire discipline.
//!
//! The controller is driven over a serial link with a select line (DC):
//! an opcode byte is transmitted with the select line low (command mode),
//! payload bytes with the select line high (data mode).  The library does
//! not touch the wire itself; it computes the exact sequence of wire
//! operations to perform, and the application transmits them.

use vstd::prelude::*;

verus! {

/// Software reset.
pub const ST7789_SWRESET: u8 = 0x01;

/// Leave sleep mode.
pub const ST7789_SLPOUT: u8 = 0x11;

/// Interface pixel format.
pub const ST7789_COLMOD: u8 = 0x3A;

/// Memory data access control (rotation/mirroring).
pub const ST7789_MADCTL: u8 = 0x36;

/// Column address set.
pub const ST7789_CASET: u8 = 0x2A;

/// Row address set.
pub const ST7789_RASET: u8 = 0x2B;

/// Memory write: the bytes that follow are raster data for the current
/// address window.
pub const ST7789_RAMWR: u8 = 0x2C;

/// Display on.
pub const ST7789_DISPON: u8 = 0x29;

/// Big-endian byte pair of a 16-bit value: high byte first.
pub open spec fn be16(v: u16) -> Seq<u8> {
    seq![(v / 0x100) as u8, (v % 0x100) as u8]
}

/// High byte of the big-endian pair of a 16-bit value.
pub fn be16_hi(v: u16) -> (b: u8)
    ensures
        b == be16(v)[0],
{
    (v / 0x100) as u8
}

/// Low byte of the big-endian pair of a 16-bit value.
pub fn be16_lo(v: u16) -> (b: u8)
    ensures
        b == be16(v)[1],
{
    (v % 0x100) as u8
}

/// One wire transfer, as the application must perform it.
pub enum WireEvent {
    /// Bytes transmitted with the select line low.
    Command(Seq<u8>),
    /// Bytes transmitted with the select line high.
    Data(Seq<u8>),
}

/// One wire transfer, executable form: `Command` bytes go out with the
/// select line low, `Data` bytes with the select line high.
pub enum WireOp {
    Command(Vec<u8>),
    Data(Vec<u8>),
}

impl View for WireOp {
    type V = WireEvent;

    open spec fn view(&self) -> WireEvent {
        match self {
            WireOp::Command(b) => WireEvent::Command(b@),
            WireOp::Data(b) => WireEvent::Data(b@),
        }
    }
}

/// The sequence of wire transfers a list of operations performs.
pub open spec fn wire_of(ops: Seq<WireOp>) -> Seq<WireEvent> {
    ops.map_values(|op: WireOp| op@)
}

/// What sending one command frame puts on the wire: the opcode byte in
/// command mode, then the payload in data mode if there is any payload.
pub open spec fn spec_command_wire(opcode: u8, payload: Seq<u8>) -> Seq<WireEvent> {
    if payload.len() == 0 {
        seq![WireEvent::Command(seq![opcode])]
    } else {
        seq![WireEvent::Command(seq![opcode]), WireEvent::Data(payload)]
    }
}

/// One command frame: an opcode byte and the payload bytes that follow it.
pub struct CommandFrame {
    pub opcode: u8,
    pub payload: Vec<u8>,
}

/// Mathematical model of a command frame.
pub struct FrameModel {
    pub opcode: u8,
    pub payload: Seq<u8>,
}

impl View for CommandFrame {
    type V = FrameModel;

    open spec fn view(&self) -> FrameModel {
        FrameModel { opcode: self.opcode, payload: self.payload@ }
    }
}

/// Encode one command frame as wire operations: the opcode with the select
/// line low, then the payload (if non-empty) with the select line high.
pub fn write_command(opcode: u8, payload: Vec<u8>) -> (ops: Vec<WireOp>)
    ensures
        wire_of(ops@) == spec_command_wire(opcode, payload@),
{
    let ghost payload_bytes = payload@;
    let mut op_byte: Vec<u8> = Vec::new();
    op_byte.push(opcode);
    assert(op_byte@ =~= seq![opcode]);
    let mut ops: Vec<WireOp> = Vec::new();
    let has_payload = payload.len() > 0;
    ops.push(WireOp::Command(op_byte));
    if has_payload {
        ops.push(WireOp::Data(payload));
        assert(wire_of(ops@) =~= spec_command_wire(opcode, payload_bytes));
    } else {
        assert(wire_of(ops@) =~= spec_command_wire(opcode, payload_bytes));
    }
    ops
}

} // verus!
