use st7789_platform::display::DisplayDriver;
use st7789_platform::geometry::{DisplayGeometry, PixelPosition, PixelSize};
use st7789_platform::init::{init_st7789, InitStep};
use st7789_platform::protocol::{write_command, be16_hi, be16_lo, WireOp, ST7789_CASET,
    ST7789_RASET, ST7789_RAMWR, ST7789_SWRESET, ST7789_SLPOUT, ST7789_COLMOD, ST7789_MADCTL,
    ST7789_DISPON};

fn command_bytes(op: &WireOp) -> &Vec<u8> {
    match op {
        WireOp::Command(bytes) => bytes,
        WireOp::Data(_) => panic!("expected a command transfer"),
    }
}

fn data_bytes(op: &WireOp) -> &Vec<u8> {
    match op {
        WireOp::Data(bytes) => bytes,
        WireOp::Command(_) => panic!("expected a data transfer"),
    }
}

#[test]
fn test_be16_bytes() {
    assert_eq!(be16_hi(0x1234), 0x12);
    assert_eq!(be16_lo(0x1234), 0x34);
    assert_eq!(be16_hi(0x00EF), 0x00);
    assert_eq!(be16_lo(0x00EF), 0xEF);
}

#[test]
fn test_write_command_without_payload() {
    let ops = write_command(ST7789_SWRESET, Vec::new());
    assert_eq!(ops.len(), 1);
    assert_eq!(command_bytes(&ops[0]), &vec![ST7789_SWRESET]);
}

#[test]
fn test_write_command_with_payload() {
    let ops = write_command(ST7789_COLMOD, vec![0x05]);
    assert_eq!(ops.len(), 2);
    assert_eq!(command_bytes(&ops[0]), &vec![ST7789_COLMOD]);
    assert_eq!(data_bytes(&ops[1]), &vec![0x05]);
}

#[test]
fn test_address_window_payload_format() {
    let driver = DisplayDriver::new(DisplayGeometry { width: 240, height: 240 });
    let ops = driver.set_address_window(5, 10, 20, 30);
    assert_eq!(ops.len(), 5);
    assert_eq!(command_bytes(&ops[0]), &vec![ST7789_CASET]);
    assert_eq!(data_bytes(&ops[1]), &vec![0x00, 5, 0x00, 20]);
    assert_eq!(command_bytes(&ops[2]), &vec![ST7789_RASET]);
    assert_eq!(data_bytes(&ops[3]), &vec![0x00, 10, 0x00, 30]);
    assert_eq!(command_bytes(&ops[4]), &vec![ST7789_RAMWR]);
}

#[test]
fn test_update_region_header_and_pixels() {
    // 4x3 display, full buffer; region of 2x2 pixels at (1, 1)
    let driver = DisplayDriver::new(DisplayGeometry { width: 4, height: 3 });
    let buffer: Vec<u16> = vec![
        0x0000, 0x0001, 0x0002, 0x0003,
        0x0010, 0x1112, 0x1314, 0x0013,
        0x0020, 0x2122, 0x2324, 0x0023,
    ];
    let ops = driver.update_display_region(&PixelPosition { x: 1, y: 1 },
        &PixelSize { width: 2, height: 2 }, &buffer);
    // exactly one CASET+RASET+RAMWR header, then one raster transfer
    assert_eq!(ops.len(), 6);
    assert_eq!(command_bytes(&ops[0]), &vec![ST7789_CASET]);
    assert_eq!(data_bytes(&ops[1]), &vec![0x00, 1, 0x00, 2]);
    assert_eq!(command_bytes(&ops[2]), &vec![ST7789_RASET]);
    assert_eq!(data_bytes(&ops[3]), &vec![0x00, 1, 0x00, 2]);
    assert_eq!(command_bytes(&ops[4]), &vec![ST7789_RAMWR]);
    // width * height * 2 bytes, each pixel big-endian
    assert_eq!(data_bytes(&ops[5]),
        &vec![0x11, 0x12, 0x13, 0x14, 0x21, 0x22, 0x23, 0x24]);
}

#[test]
fn test_overlong_row_is_skipped_entirely() {
    // 2x2 display, but the buffer holds only the first row: the second row
    // would end past the buffer, so it emits zero bytes
    let driver = DisplayDriver::new(DisplayGeometry { width: 2, height: 2 });
    let buffer: Vec<u16> = vec![0xAABB, 0xCCDD];
    let ops = driver.update_display_region(&PixelPosition { x: 0, y: 0 },
        &PixelSize { width: 2, height: 2 }, &buffer);
    assert_eq!(ops.len(), 6);
    assert_eq!(data_bytes(&ops[5]), &vec![0xAA, 0xBB, 0xCC, 0xDD]);
}

#[test]
fn test_update_with_no_full_row_emits_no_data() {
    // every row of the region ends past the buffer: only the header goes out
    let driver = DisplayDriver::new(DisplayGeometry { width: 2, height: 2 });
    let buffer: Vec<u16> = vec![0xAABB];
    let ops = driver.update_display_region(&PixelPosition { x: 0, y: 0 },
        &PixelSize { width: 2, height: 2 }, &buffer);
    assert_eq!(ops.len(), 5);
    assert_eq!(command_bytes(&ops[4]), &vec![ST7789_RAMWR]);
}

#[test]
fn test_fill_screen_red() {
    let driver = DisplayDriver::new(DisplayGeometry { width: 240, height: 240 });
    let ops = driver.fill_screen(0xF800);
    assert_eq!(ops.len(), 6);
    assert_eq!(command_bytes(&ops[0]), &vec![ST7789_CASET]);
    assert_eq!(data_bytes(&ops[1]), &vec![0x00, 0x00, 0x00, 0xEF]);
    assert_eq!(command_bytes(&ops[2]), &vec![ST7789_RASET]);
    assert_eq!(data_bytes(&ops[3]), &vec![0x00, 0x00, 0x00, 0xEF]);
    assert_eq!(command_bytes(&ops[4]), &vec![ST7789_RAMWR]);
    let raster = data_bytes(&ops[5]);
    // 240 * 240 pixels, each as the bytes 0xF8, 0x00
    assert_eq!(raster.len(), 240 * 240 * 2);
    for pair in raster.chunks(2) {
        assert_eq!(pair, &[0xF8, 0x00]);
    }
}

#[test]
fn test_init_sequence_byte_exact() {
    let steps = init_st7789();
    let expected_frames: Vec<(u8, Vec<u8>)> = vec![
        (ST7789_SWRESET, vec![]),
        (ST7789_SLPOUT, vec![]),
        (ST7789_COLMOD, vec![0x05]),
        (ST7789_MADCTL, vec![0x00]),
        (ST7789_CASET, vec![0x00, 0x00, 0x00, 0xEF]),
        (ST7789_RASET, vec![0x00, 0x00, 0x00, 0xEF]),
        (ST7789_DISPON, vec![]),
    ];
    let mut frames: Vec<(u8, Vec<u8>)> = Vec::new();
    let mut delays: Vec<(usize, u32)> = Vec::new();
    for step in steps {
        match step {
            InitStep::DelayMs(ms) => delays.push((frames.len(), ms)),
            InitStep::Send(frame) => frames.push((frame.opcode, frame.payload)),
        }
    }
    assert_eq!(frames, expected_frames);
    // settle delay first, one after SWRESET, one after SLPOUT, one at the end
    assert_eq!(delays, vec![(0, 120), (1, 120), (2, 120), (7, 120)]);
}
