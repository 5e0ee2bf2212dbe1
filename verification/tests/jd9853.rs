use board_drivers::bus::PanelOp;
use board_drivers::geometry::Rect;
use board_drivers::jd9853::{
    pack_range, ColorOrder, ColorPixel, Command, Error, InitCommand, InterfacePixelFormat, Jd9853, Jd9853Async,
    Jd9853Config, MemoryAccessControl, Orientation, PixelFormat,
};

type PlanError = Error<(), ()>;

fn spi_writes(ops: &[PanelOp]) -> Vec<Vec<u8>> {
    ops.iter()
        .filter_map(|op| match op {
            PanelOp::Write(bytes) => Some(bytes.clone()),
            _ => None,
        })
        .collect()
}

fn reset_levels(ops: &[PanelOp]) -> Vec<bool> {
    ops.iter()
        .filter_map(|op| match op {
            PanelOp::SetReset(level) => Some(*level),
            _ => None,
        })
        .collect()
}

fn delays(ops: &[PanelOp]) -> Vec<u32> {
    ops.iter()
        .filter_map(|op| match op {
            PanelOp::DelayMs(ms) => Some(*ms),
            _ => None,
        })
        .collect()
}

/// Starts an initialisation and takes its steps until none is left.
fn run_init(display: &mut Jd9853<'static, (), (), ()>) -> Vec<PanelOp> {
    let mut ops = display.init();
    while let Some(step) = display.init_step() {
        ops.extend(step);
    }
    ops
}

fn display() -> Jd9853<'static, (), (), ()> {
    Jd9853::new((), (), Some(()), Jd9853Config::default())
}

#[test]
fn reset_uses_hardware_pin_when_available() {
    let display = display();

    let ops = display.reset();

    assert_eq!(reset_levels(&ops), vec![true, false]);
    assert_eq!(delays(&ops), vec![10, 10]);
}

#[test]
fn init_sends_expected_prefix_and_delays() {
    let mut display = display();

    let ops = run_init(&mut display);

    let writes = spi_writes(&ops);
    assert_eq!(writes[0], vec![Command::SleepOut.code()]);
    assert_eq!(writes[1], vec![Command::MemoryAccessControl.code()]);
    assert_eq!(
        writes[2],
        vec![MemoryAccessControl::from_parts(Orientation::Portrait, ColorOrder::Rgb).into_byte()]
    );
    assert_eq!(writes[3], vec![Command::InterfacePixelFormat.code()]);
    assert_eq!(
        writes[4],
        vec![InterfacePixelFormat::from_pixel_format(PixelFormat::Rgb565).into_byte()]
    );
    let calls = delays(&ops);
    assert_eq!(calls[0], 100);
    assert!(calls.contains(&120));
}

#[test]
fn set_address_window_applies_offsets() {
    let display = display();

    let ops = display.set_address_window::<(), ()>(0, 0, 2, 3).unwrap();

    let writes = spi_writes(&ops);
    assert_eq!(writes[0], vec![Command::ColumnAddressSet.code()]);
    assert_eq!(writes[1], vec![0x00, 0x22, 0x00, 0x23]);
    assert_eq!(writes[2], vec![Command::RowAddressSet.code()]);
    assert_eq!(writes[3], vec![0x00, 0x00, 0x00, 0x02]);
}

#[test]
fn orientation_updates_madctl() {
    let mut display = display();

    let ops = display.set_orientation(Orientation::Landscape);

    let writes = spi_writes(&ops);
    assert_eq!(writes[0], vec![Command::MemoryAccessControl.code()]);
    assert_eq!(
        writes[1],
        vec![MemoryAccessControl::from_parts(Orientation::Landscape, ColorOrder::Rgb).into_byte()]
    );
    assert_eq!(display.size(), (320, 172));
}

#[test]
fn fill_solid_streams_rgb565_pixels() {
    let display = display();
    let red: u16 = 0xF800;

    let ops = display
        .fill_solid::<(), ()>(Rect { x: 0, y: 0, width: 4, height: 2 }, red)
        .unwrap();

    let writes = spi_writes(&ops);
    assert_eq!(writes[4], vec![Command::MemoryWrite.code()]);
    assert_eq!(writes[5].len(), 16);
    assert_eq!(writes.len(), 6);
}

#[test]
fn async_write_pixels_works() {
    let display = Jd9853Async::new((), (), Some(()), Jd9853Config::default());

    let mut ops = display.set_address_window::<(), ()>(1, 2, 1, 1).unwrap();
    ops.extend(display.write_pixels::<(), ()>(&[0x12, 0x34]).unwrap());

    let writes = spi_writes(&ops);
    assert_eq!(writes[writes.len() - 2], vec![Command::MemoryWrite.code()]);
    assert_eq!(writes[writes.len() - 1], vec![0x12, 0x34]);
}

#[test]
fn command_codes_match_datasheet() {
    assert_eq!(Command::SoftwareReset.code(), 0x01);
    assert_eq!(Command::SleepOut.code(), 0x11);
    assert_eq!(Command::InversionOff.code(), 0x20);
    assert_eq!(Command::InversionOn.code(), 0x21);
    assert_eq!(Command::DisplayOff.code(), 0x28);
    assert_eq!(Command::DisplayOn.code(), 0x29);
    assert_eq!(Command::MemoryAccessControl.code(), 0x36);
    assert_eq!(Command::InterfacePixelFormat.code(), 0x3A);
    assert_eq!(Command::Raw(0xDF).code(), 0xDF);
}

#[test]
fn madctl_bits_per_orientation() {
    assert_eq!(MemoryAccessControl::from_parts(Orientation::Portrait, ColorOrder::Rgb).into_byte(), 0x00);
    assert_eq!(MemoryAccessControl::from_parts(Orientation::Landscape, ColorOrder::Rgb).into_byte(), 0x60);
    assert_eq!(MemoryAccessControl::from_parts(Orientation::PortraitFlipped, ColorOrder::Bgr).into_byte(), 0xC8);
    assert_eq!(MemoryAccessControl::from_parts(Orientation::LandscapeFlipped, ColorOrder::Rgb).into_byte(), 0xA0);
    assert_eq!(InterfacePixelFormat::from_pixel_format(PixelFormat::Rgb666).into_byte(), 0x66);
}

#[test]
fn pack_range_is_big_endian() {
    assert_eq!(pack_range(0x0122, 0x01CD), [0x01, 0x22, 0x01, 0xCD]);
    let bytes = pack_range(300, 65535);
    assert_eq!(u16::from(bytes[0]) * 256 + u16::from(bytes[1]), 300);
    assert_eq!(u16::from(bytes[2]) * 256 + u16::from(bytes[3]), 65535);
}

#[test]
fn address_window_rejects_bad_windows() {
    let display = display();
    let invalid: PlanError = Error::InvalidInput;
    assert_eq!(display.set_address_window::<(), ()>(0, 0, 0, 1), Err(invalid));
    assert_eq!(display.set_address_window::<(), ()>(0, 0, 1, 0), Err(invalid));
    assert_eq!(display.set_address_window::<(), ()>(172, 0, 1, 1), Err(invalid));
    assert_eq!(display.set_address_window::<(), ()>(0, 320, 1, 1), Err(invalid));
    assert_eq!(display.set_address_window::<(), ()>(100, 0, 73, 1), Err(invalid));
    assert_eq!(display.set_address_window::<(), ()>(0, 10, 1, 311), Err(invalid));
    assert!(display.set_address_window::<(), ()>(171, 319, 1, 1).is_ok());
}

#[test]
fn address_window_spans_requested_size() {
    let display = display();
    let ops = display.set_address_window::<(), ()>(10, 20, 5, 7).unwrap();
    let writes = spi_writes(&ops);
    let start = u16::from(writes[1][0]) * 256 + u16::from(writes[1][1]);
    let end = u16::from(writes[1][2]) * 256 + u16::from(writes[1][3]);
    assert_eq!(start, 10 + 34);
    assert_eq!(end - start + 1, 5);
    let rows = &writes[3];
    assert_eq!(u16::from(rows[2]) * 256 + u16::from(rows[3]) - (u16::from(rows[0]) * 256 + u16::from(rows[1])) + 1, 7);
}

#[test]
fn write_pixels_requires_whole_pixels() {
    let display = display();
    let invalid: PlanError = Error::InvalidInput;
    assert_eq!(display.write_pixels::<(), ()>(&[]), Err(invalid));
    assert_eq!(display.write_pixels::<(), ()>(&[1, 2, 3]), Err(invalid));
    let ops = display.write_pixels::<(), ()>(&[1, 2, 3, 4]).unwrap();
    assert_eq!(
        ops,
        vec![PanelOp::SetDc(false), PanelOp::Write(vec![0x2C]), PanelOp::SetDc(true), PanelOp::Write(vec![1, 2, 3, 4])]
    );

    let mut config = Jd9853Config::default();
    config.pixel_format = PixelFormat::Rgb666;
    let display666 = Jd9853::new((), (), Some(()), config);
    assert_eq!(display666.write_pixels::<(), ()>(&[1, 2, 3, 4]), Err(invalid));
    assert!(display666.write_pixels::<(), ()>(&[1, 2, 3]).is_ok());
}

#[test]
fn data_and_command_framing() {
    let display = display();
    assert_eq!(display.write_data(&[]), vec![]);
    assert_eq!(display.write_data(&[7]), vec![PanelOp::SetDc(true), PanelOp::Write(vec![7])]);
    assert_eq!(display.write_command_data(Command::Raw(0xB2), &[]), vec![PanelOp::SetDc(false), PanelOp::Write(vec![0xB2])]);
    assert_eq!(display.set_display_on(true), vec![PanelOp::SetDc(false), PanelOp::Write(vec![0x29])]);
    assert_eq!(display.set_display_on(false), vec![PanelOp::SetDc(false), PanelOp::Write(vec![0x28])]);
}

#[test]
fn reset_without_pin_sends_software_reset() {
    let display: Jd9853<'static, (), (), ()> = Jd9853::new((), (), None, Jd9853Config::default());
    assert_eq!(
        display.reset(),
        vec![PanelOp::SetDc(false), PanelOp::Write(vec![0x01]), PanelOp::DelayMs(20)]
    );
}

#[test]
fn init_applies_table_register_entries_and_inversion() {
    const TABLE: [InitCommand<'static>; 3] = [
        InitCommand { cmd: Command::MemoryAccessControl, data: &[0x48], delay_ms: 0 },
        InitCommand { cmd: Command::InterfacePixelFormat, data: &[], delay_ms: 5 },
        InitCommand { cmd: Command::Raw(0xB0), data: &[1, 2], delay_ms: 0 },
    ];
    let mut config = Jd9853Config::default();
    config.init_commands = &TABLE;
    config.invert_colors = true;
    let mut display = Jd9853::new((), (), Some(()), config);

    let first = run_init(&mut display);
    let writes = spi_writes(&first);
    assert_eq!(writes[2], vec![0x00]);
    assert_eq!(writes[5], vec![0x36]);
    assert_eq!(writes[6], vec![0x48]);
    assert_eq!(writes.last().unwrap(), &vec![0x21]);
    assert_eq!(delays(&first), vec![100, 5]);

    // The table's MADCTL entry is what the panel holds now.
    let second = run_init(&mut display);
    assert_eq!(spi_writes(&second)[2], vec![0x48]);
    assert_eq!(spi_writes(&second)[4], vec![0x55]);
}

#[test]
fn default_table_programs_pixel_format() {
    let mut display = display();
    let _ = run_init(&mut display);
    let again = run_init(&mut display);
    let writes = spi_writes(&again);
    assert_eq!(writes[2], vec![0x00]);
    assert_eq!(writes[4], vec![0x05]);
}

#[test]
fn invert_updates_config() {
    let mut display = display();
    assert_eq!(display.set_invert(true), vec![PanelOp::SetDc(false), PanelOp::Write(vec![0x21])]);
    assert!(display.config().invert_colors);
    assert_eq!(display.set_invert(false), vec![PanelOp::SetDc(false), PanelOp::Write(vec![0x20])]);
    assert!(!display.config().invert_colors);
}

#[test]
fn draw_iter_skips_outside_pixels() {
    let display = display();
    let pixels = [
        ColorPixel { x: -1, y: 0, color: 0xFFFF },
        ColorPixel { x: 1, y: 2, color: 0x1234 },
        ColorPixel { x: 172, y: 0, color: 0xFFFF },
        ColorPixel { x: 0, y: 320, color: 0xFFFF },
    ];
    let ops = display.draw_iter::<(), ()>(&pixels).unwrap();
    let writes = spi_writes(&ops);
    assert_eq!(writes.len(), 6);
    assert_eq!(writes[1], vec![0x00, 35, 0x00, 35]);
    assert_eq!(writes[3], vec![0x00, 2, 0x00, 2]);
    assert_eq!(writes[5], vec![0x12, 0x34]);
}

#[test]
fn drawing_needs_rgb565() {
    let mut config = Jd9853Config::default();
    config.pixel_format = PixelFormat::Rgb666;
    let display = Jd9853::new((), (), Some(()), config);
    let unsupported: PlanError = Error::UnsupportedPixelFormat;
    assert_eq!(display.draw_iter::<(), ()>(&[]), Err(unsupported));
    assert_eq!(display.fill_solid::<(), ()>(Rect { x: 0, y: 0, width: 1, height: 1 }, 0), Err(unsupported));
    assert_eq!(display.clear::<(), ()>(0), Err(unsupported));
}

#[test]
fn fill_solid_clips_and_chunks() {
    let display = display();
    // Entirely outside: nothing at all.
    assert_eq!(display.fill_solid::<(), ()>(Rect { x: 200, y: 0, width: 4, height: 4 }, 1), Ok(vec![]));
    assert_eq!(display.fill_solid::<(), ()>(Rect { x: 0, y: 0, width: 0, height: 4 }, 1), Ok(vec![]));
    // Partly outside: clipped to the visible 2x3 corner.
    let ops = display.fill_solid::<(), ()>(Rect { x: 170, y: -1, width: 10, height: 4 }, 0xABCD).unwrap();
    let writes = spi_writes(&ops);
    assert_eq!(writes[1], vec![0x00, 170 + 34, 0x00, 171 + 34]);
    assert_eq!(writes[3], vec![0x00, 0x00, 0x00, 0x02]);
    assert_eq!(writes[5], vec![0xAB, 0xCD, 0xAB, 0xCD, 0xAB, 0xCD, 0xAB, 0xCD, 0xAB, 0xCD, 0xAB, 0xCD]);
    // 100 pixels go out as 64 + 36.
    let ops = display.fill_solid::<(), ()>(Rect { x: 0, y: 0, width: 10, height: 10 }, 7).unwrap();
    let writes = spi_writes(&ops);
    assert_eq!(writes.len(), 7);
    assert_eq!(writes[5].len(), 128);
    assert_eq!(writes[6].len(), 72);
}

#[test]
fn clear_covers_whole_screen() {
    let display = display();
    let ops = display.clear::<(), ()>(0).unwrap();
    let writes = spi_writes(&ops);
    let streamed: usize = writes[5..].iter().map(|w| w.len()).sum();
    assert_eq!(streamed, 172 * 320 * 2);
    assert_eq!(writes[1], vec![0x00, 34, 0x00, 34 + 171]);
    assert_eq!(writes[3], vec![0x00, 0x00, 0x01, 0x3F]);
}

#[test]
fn release_returns_handles() {
    let display = Jd9853::new(1u8, 2u16, Some(3u32), Jd9853Config::default());
    assert_eq!(display.release(), (1u8, 2u16, Some(3u32)));
    let display = Jd9853Async::new(4u8, 5u16, None::<u32>, Jd9853Config::default());
    assert_eq!(display.size(), (172, 320));
    assert_eq!(display.release(), (4u8, 5u16, None));
}

#[test]
fn inversion_adds_one_command_to_init() {
    let mut plain = Jd9853Config::default();
    plain.invert_colors = false;
    let mut inverted = plain;
    inverted.invert_colors = true;
    let mut without: Jd9853<'static, (), (), ()> = Jd9853::new((), (), Some(()), plain);
    let mut with: Jd9853<'static, (), (), ()> = Jd9853::new((), (), Some(()), inverted);
    let mut expected = run_init(&mut without);
    expected.push(PanelOp::SetDc(false));
    expected.push(PanelOp::Write(vec![0x21]));
    assert_eq!(run_init(&mut with), expected);
}

#[test]
fn init_starts_with_wake_up_and_registers() {
    let mut display = display();
    assert_eq!(
        display.init(),
        vec![
            PanelOp::SetDc(false),
            PanelOp::Write(vec![0x11]),
            PanelOp::DelayMs(100),
            PanelOp::SetDc(false),
            PanelOp::Write(vec![0x36]),
            PanelOp::SetDc(true),
            PanelOp::Write(vec![0x00]),
            PanelOp::SetDc(false),
            PanelOp::Write(vec![0x3A]),
            PanelOp::SetDc(true),
            PanelOp::Write(vec![0x55]),
        ]
    );
    assert_eq!(
        display.init_step(),
        Some(vec![PanelOp::SetDc(false), PanelOp::Write(vec![0x11]), PanelOp::DelayMs(120)])
    );
}

#[test]
fn init_step_without_init_gives_nothing() {
    let mut display = display();
    assert_eq!(display.init_step(), None);
}

#[test]
fn interrupted_init_keeps_registers_of_entries_reached() {
    const TABLE: [InitCommand<'static>; 2] = [
        InitCommand { cmd: Command::MemoryAccessControl, data: &[0x48], delay_ms: 0 },
        InitCommand { cmd: Command::InterfacePixelFormat, data: &[0x05], delay_ms: 0 },
    ];
    let mut config = Jd9853Config::default();
    config.init_commands = &TABLE;
    let mut display = Jd9853::new((), (), Some(()), config);

    let _ = display.init();
    // Only the first entry is reached before the bus gives up.
    let _ = display.init_step();

    let again = spi_writes(&display.init());
    assert_eq!(again[2], vec![0x48]);
    assert_eq!(again[4], vec![0x55]);
}

#[test]
fn init_without_table_or_inversion_ends_after_prefix() {
    let mut config = Jd9853Config::default();
    config.init_commands = &[];
    let mut display = Jd9853::new((), (), Some(()), config);
    let _ = display.init();
    assert_eq!(display.init_step(), None);
    assert_eq!(display.init_step(), None);
}

#[test]
fn fill_solid_of_empty_area_past_coordinate_range_does_nothing() {
    let display = display();
    let area = Rect { x: i32::MAX, y: 0, width: 10, height: 0 };
    assert_eq!(display.fill_solid::<(), ()>(area, 0xFFFF), Ok(vec![]));
    let wide = Rect { x: 0, y: 5, width: u32::MAX, height: 0 };
    assert_eq!(display.fill_solid::<(), ()>(wide, 0xFFFF), Ok(vec![]));
}
