//! Driver logic for the JD9853 TFT panel controller on a 4-wire SPI bus.
//!
//! Every operation of the panel is planned here as a list of [`PanelOp`]s:
//! the data/command line levels, the bytes written on the bus, the reset line
//! levels and the pauses, in the order the controller must see them.
use vstd::prelude::*;

use crate::bus::{Fault, PanelOp, PanelOpView, panel_ops_view, push_panel_op};
use crate::geometry::{Rect, rect_contains, rect_intersection, rect_fits, rect_has_point, rect_is_empty, rects_overlap, rect_overlap};

verus! {

/// A command of the JD9853 command set.
#[derive(Debug, Clone, Copy, PartialEq, Eq, Structural)]
pub enum Command {
    SoftwareReset,
    SleepOut,
    InversionOff,
    InversionOn,
    DisplayOff,
    DisplayOn,
    ColumnAddressSet,
    RowAddressSet,
    MemoryWrite,
    MemoryAccessControl,
    InterfacePixelFormat,
    Raw(u8),
}

impl Command {
    /// The command byte of each command.
    pub open spec fn spec_code(self) -> u8 {
        match self {
            Command::SoftwareReset => 0x01,
            Command::SleepOut => 0x11,
            Command::InversionOff => 0x20,
            Command::InversionOn => 0x21,
            Command::DisplayOff => 0x28,
            Command::DisplayOn => 0x29,
            Command::ColumnAddressSet => 0x2A,
            Command::RowAddressSet => 0x2B,
            Command::MemoryWrite => 0x2C,
            Command::MemoryAccessControl => 0x36,
            Command::InterfacePixelFormat => 0x3A,
            Command::Raw(value) => value,
        }
    }

    /// The byte sent on the bus for this command.
    #[verifier::when_used_as_spec(spec_code)]
    pub fn code(self) -> (r: u8)
        ensures
            r == self.spec_code(),
    {
        match self {
            Command::SoftwareReset => 0x01,
            Command::SleepOut => 0x11,
            Command::InversionOff => 0x20,
            Command::InversionOn => 0x21,
            Command::DisplayOff => 0x28,
            Command::DisplayOn => 0x29,
            Command::ColumnAddressSet => 0x2A,
            Command::RowAddressSet => 0x2B,
            Command::MemoryWrite => 0x2C,
            Command::MemoryAccessControl => 0x36,
            Command::InterfacePixelFormat => 0x3A,
            Command::Raw(value) => value,
        }
    }
}

/// Order of the colour components in a pixel.
#[derive(Debug, Clone, Copy, PartialEq, Eq, Structural)]
pub enum ColorOrder {
    Rgb,
    Bgr,
}

/// Pixel format on the interface.
#[derive(Debug, Clone, Copy, PartialEq, Eq, Structural)]
pub enum PixelFormat {
    Rgb565,
    Rgb666,
}

impl PixelFormat {
    pub open spec fn spec_bytes_per_pixel(self) -> usize {
        match self {
            PixelFormat::Rgb565 => 2,
            PixelFormat::Rgb666 => 3,
        }
    }

    /// Bytes one pixel takes on the interface.
    #[verifier::when_used_as_spec(spec_bytes_per_pixel)]
    pub fn bytes_per_pixel(self) -> (r: usize)
        ensures
            r == self.spec_bytes_per_pixel(),
    {
        match self {
            PixelFormat::Rgb565 => 2,
            PixelFormat::Rgb666 => 3,
        }
    }
}

/// Orientation of the picture on the glass.
#[derive(Debug, Clone, Copy, PartialEq, Eq, Structural)]
pub enum Orientation {
    Portrait,
    Landscape,
    PortraitFlipped,
    LandscapeFlipped,
}

impl Orientation {
    pub open spec fn spec_swaps_axes(self) -> bool {
        self is Landscape || self is LandscapeFlipped
    }

    /// The landscape orientations exchange rows and columns.
    #[verifier::when_used_as_spec(spec_swaps_axes)]
    pub fn swaps_axes(self) -> (r: bool)
        ensures
            r == self.spec_swaps_axes(),
    {
        match self {
            Orientation::Landscape | Orientation::LandscapeFlipped => true,
            _ => false,
        }
    }
}

/// Bit of the memory access control byte that mirrors rows.
pub const MADCTL_MIRROR_Y: u8 = 0x80;
/// Bit of the memory access control byte that mirrors columns.
pub const MADCTL_MIRROR_X: u8 = 0x40;
/// Bit of the memory access control byte that exchanges rows and columns.
pub const MADCTL_SWAP_XY: u8 = 0x20;
/// Bit of the memory access control byte that selects BGR order.
pub const MADCTL_BGR_ORDER: u8 = 0x08;

/// The orientation bits of the memory access control byte.
pub open spec fn orientation_bits(orientation: Orientation) -> u8 {
    match orientation {
        Orientation::Portrait => 0,
        Orientation::Landscape => 0x60,
        Orientation::PortraitFlipped => 0xC0,
        Orientation::LandscapeFlipped => 0xA0,
    }
}

/// The colour-order bit of the memory access control byte.
pub open spec fn color_bits(color_order: ColorOrder) -> u8 {
    match color_order {
        ColorOrder::Rgb => 0,
        ColorOrder::Bgr => 0x08,
    }
}

/// The value of the memory access control register (MADCTL).
#[derive(Debug, Clone, Copy, PartialEq, Eq, Structural)]
pub struct MemoryAccessControl(u8);

impl MemoryAccessControl {
    /// The register byte.
    pub closed spec fn byte(self) -> u8 {
        self.0
    }

    /// The register value for an orientation and a colour order.
    pub fn from_parts(orientation: Orientation, color_order: ColorOrder) -> (r: Self)
        ensures
            r.byte() == orientation_bits(orientation) | color_bits(color_order),
    {
        let orientation_bits = match orientation {
            Orientation::Portrait => 0,
            Orientation::Landscape => MADCTL_SWAP_XY | MADCTL_MIRROR_X,
            Orientation::PortraitFlipped => MADCTL_MIRROR_X | MADCTL_MIRROR_Y,
            Orientation::LandscapeFlipped => MADCTL_SWAP_XY | MADCTL_MIRROR_Y,
        };
        let color_bits = match color_order {
            ColorOrder::Rgb => 0,
            ColorOrder::Bgr => MADCTL_BGR_ORDER,
        };
        assert(MADCTL_SWAP_XY | MADCTL_MIRROR_X == 0x60u8) by (bit_vector);
        assert(MADCTL_MIRROR_X | MADCTL_MIRROR_Y == 0xC0u8) by (bit_vector);
        assert(MADCTL_SWAP_XY | MADCTL_MIRROR_Y == 0xA0u8) by (bit_vector);
        MemoryAccessControl(orientation_bits | color_bits)
    }

    /// The register value for a raw byte.
    pub fn from_byte(byte: u8) -> (r: Self)
        ensures
            r.byte() == byte,
    {
        MemoryAccessControl(byte)
    }

    /// The register byte.
    pub fn into_byte(self) -> (r: u8)
        ensures
            r == self.byte(),
    {
        self.0
    }
}

/// The value of the interface pixel format register (COLMOD).
#[derive(Debug, Clone, Copy, PartialEq, Eq, Structural)]
pub struct InterfacePixelFormat(u8);

/// The COLMOD byte of each pixel format.
pub open spec fn pixel_format_byte(pixel_format: PixelFormat) -> u8 {
    match pixel_format {
        PixelFormat::Rgb565 => 0x55,
        PixelFormat::Rgb666 => 0x66,
    }
}

impl InterfacePixelFormat {
    /// The register byte.
    pub closed spec fn byte(self) -> u8 {
        self.0
    }

    /// The register value for a pixel format.
    pub fn from_pixel_format(pixel_format: PixelFormat) -> (r: Self)
        ensures
            r.byte() == pixel_format_byte(pixel_format),
    {
        match pixel_format {
            PixelFormat::Rgb565 => InterfacePixelFormat(0x55),
            PixelFormat::Rgb666 => InterfacePixelFormat(0x66),
        }
    }

    /// The register value for a raw byte.
    pub fn from_byte(byte: u8) -> (r: Self)
        ensures
            r.byte() == byte,
    {
        InterfacePixelFormat(byte)
    }

    /// The register byte.
    pub fn into_byte(self) -> (r: u8)
        ensures
            r == self.byte(),
    {
        self.0
    }
}

/// One entry of the initialisation sequence: a command, its parameter bytes and
/// a pause after it.
#[derive(Debug, Clone, Copy, PartialEq, Eq)]
pub struct InitCommand<'a> {
    pub cmd: Command,
    pub data: &'a [u8],
    pub delay_ms: u16,
}

/// Settings of a panel.
#[derive(Debug, Clone, Copy)]
pub struct Jd9853Config<'a> {
    pub width: u16,
    pub height: u16,
    pub x_offset: u16,
    pub y_offset: u16,
    pub color_order: ColorOrder,
    pub pixel_format: PixelFormat,
    pub reset_active_high: bool,
    pub invert_colors: bool,
    pub orientation: Orientation,
    pub init_commands: &'a [InitCommand<'a>],
}

/// An initialisation table as plain values: command, parameters, pause.
pub open spec fn init_table_view(table: Seq<InitCommand>) -> Seq<(Command, Seq<u8>, u16)> {
    table.map_values(|c: InitCommand| (c.cmd, c.data@, c.delay_ms))
}

/// The vendor initialisation sequence of the 1.47" 172x320 module.
pub open spec fn default_init_table() -> Seq<(Command, Seq<u8>, u16)> {
    seq![
        (Command::SleepOut, Seq::<u8>::empty(), 120u16),
        (Command::Raw(0xDF), seq![0x98u8, 0x53u8], 0u16),
        (Command::Raw(0xDF), seq![0x98u8, 0x53u8], 0u16),
        (Command::Raw(0xB2), seq![0x23u8], 0u16),
        (Command::Raw(0xB7), seq![0x00u8, 0x47u8, 0x00u8, 0x6Fu8], 0u16),
        (Command::Raw(0xBB), seq![0x1Cu8, 0x1Au8, 0x55u8, 0x73u8, 0x63u8, 0xF0u8], 0u16),
        (Command::Raw(0xC0), seq![0x44u8, 0xA4u8], 0u16),
        (Command::Raw(0xC1), seq![0x16u8], 0u16),
        (Command::Raw(0xC3), seq![0x7Du8, 0x07u8, 0x14u8, 0x06u8, 0xCFu8, 0x71u8, 0x72u8, 0x77u8], 0u16),
        (Command::Raw(0xC4), seq![0x00u8, 0x00u8, 0xA0u8, 0x79u8, 0x0Bu8, 0x0Au8, 0x16u8, 0x79u8, 0x0Bu8, 0x0Au8, 0x16u8, 0x82u8], 0u16),
        (Command::Raw(0xC8), seq![0x3Fu8, 0x32u8, 0x29u8, 0x29u8, 0x27u8, 0x2Bu8, 0x27u8, 0x28u8, 0x28u8, 0x26u8, 0x25u8, 0x17u8, 0x12u8, 0x0Du8, 0x04u8, 0x00u8, 0x3Fu8, 0x32u8, 0x29u8, 0x29u8, 0x27u8, 0x2Bu8, 0x27u8, 0x28u8, 0x28u8, 0x26u8, 0x25u8, 0x17u8, 0x12u8, 0x0Du8, 0x04u8, 0x00u8], 0u16),
        (Command::Raw(0xD0), seq![0x04u8, 0x06u8, 0x6Bu8, 0x0Fu8, 0x00u8], 0u16),
        (Command::Raw(0xD7), seq![0x00u8, 0x30u8], 0u16),
        (Command::Raw(0xE6), seq![0x14u8], 0u16),
        (Command::Raw(0xDE), seq![0x01u8], 0u16),
        (Command::Raw(0xB7), seq![0x03u8, 0x13u8, 0xEFu8, 0x35u8, 0x35u8], 0u16),
        (Command::Raw(0xC1), seq![0x14u8, 0x15u8, 0xC0u8], 0u16),
        (Command::Raw(0xC2), seq![0x06u8, 0x3Au8], 0u16),
        (Command::Raw(0xC4), seq![0x72u8, 0x12u8], 0u16),
        (Command::Raw(0xBE), seq![0x00u8], 0u16),
        (Command::Raw(0xDE), seq![0x02u8], 0u16),
        (Command::Raw(0xE5), seq![0x00u8, 0x02u8, 0x00u8], 0u16),
        (Command::Raw(0xE5), seq![0x01u8, 0x02u8, 0x00u8], 0u16),
        (Command::Raw(0xDE), seq![0x00u8], 0u16),
        (Command::Raw(0x35), seq![0x00u8], 0u16),
        (Command::InterfacePixelFormat, seq![0x05u8], 0u16),
        (Command::ColumnAddressSet, seq![0x00u8, 0x22u8, 0x00u8, 0xCDu8], 0u16),
        (Command::RowAddressSet, seq![0x00u8, 0x00u8, 0x01u8, 0x3Fu8], 0u16),
        (Command::Raw(0xDE), seq![0x02u8], 0u16),
        (Command::Raw(0xE5), seq![0x00u8, 0x02u8, 0x00u8], 0u16),
        (Command::Raw(0xDE), seq![0x00u8], 0u16),
        (Command::DisplayOn, Seq::<u8>::empty(), 0u16),    ]
}

/// The vendor initialisation sequence of the 1.47" 172x320 module.
pub fn default_init_commands() -> (r: &'static [InitCommand<'static>])
    ensures
        init_table_view(r@) == default_init_table(),
{
    let table: &'static [InitCommand<'static>] = &[
        InitCommand { cmd: Command::SleepOut, data: &[], delay_ms: 120 },
        InitCommand { cmd: Command::Raw(0xDF), data: &[0x98, 0x53], delay_ms: 0 },
        InitCommand { cmd: Command::Raw(0xDF), data: &[0x98, 0x53], delay_ms: 0 },
        InitCommand { cmd: Command::Raw(0xB2), data: &[0x23], delay_ms: 0 },
        InitCommand { cmd: Command::Raw(0xB7), data: &[0x00, 0x47, 0x00, 0x6F], delay_ms: 0 },
        InitCommand { cmd: Command::Raw(0xBB), data: &[0x1C, 0x1A, 0x55, 0x73, 0x63, 0xF0], delay_ms: 0 },
        InitCommand { cmd: Command::Raw(0xC0), data: &[0x44, 0xA4], delay_ms: 0 },
        InitCommand { cmd: Command::Raw(0xC1), data: &[0x16], delay_ms: 0 },
        InitCommand { cmd: Command::Raw(0xC3), data: &[0x7D, 0x07, 0x14, 0x06, 0xCF, 0x71, 0x72, 0x77], delay_ms: 0 },
        InitCommand { cmd: Command::Raw(0xC4), data: &[0x00, 0x00, 0xA0, 0x79, 0x0B, 0x0A, 0x16, 0x79, 0x0B, 0x0A, 0x16, 0x82], delay_ms: 0 },
        InitCommand { cmd: Command::Raw(0xC8), data: &[0x3F, 0x32, 0x29, 0x29, 0x27, 0x2B, 0x27, 0x28, 0x28, 0x26, 0x25, 0x17, 0x12, 0x0D, 0x04, 0x00, 0x3F, 0x32, 0x29, 0x29, 0x27, 0x2B, 0x27, 0x28, 0x28, 0x26, 0x25, 0x17, 0x12, 0x0D, 0x04, 0x00], delay_ms: 0 },
        InitCommand { cmd: Command::Raw(0xD0), data: &[0x04, 0x06, 0x6B, 0x0F, 0x00], delay_ms: 0 },
        InitCommand { cmd: Command::Raw(0xD7), data: &[0x00, 0x30], delay_ms: 0 },
        InitCommand { cmd: Command::Raw(0xE6), data: &[0x14], delay_ms: 0 },
        InitCommand { cmd: Command::Raw(0xDE), data: &[0x01], delay_ms: 0 },
        InitCommand { cmd: Command::Raw(0xB7), data: &[0x03, 0x13, 0xEF, 0x35, 0x35], delay_ms: 0 },
        InitCommand { cmd: Command::Raw(0xC1), data: &[0x14, 0x15, 0xC0], delay_ms: 0 },
        InitCommand { cmd: Command::Raw(0xC2), data: &[0x06, 0x3A], delay_ms: 0 },
        InitCommand { cmd: Command::Raw(0xC4), data: &[0x72, 0x12], delay_ms: 0 },
        InitCommand { cmd: Command::Raw(0xBE), data: &[0x00], delay_ms: 0 },
        InitCommand { cmd: Command::Raw(0xDE), data: &[0x02], delay_ms: 0 },
        InitCommand { cmd: Command::Raw(0xE5), data: &[0x00, 0x02, 0x00], delay_ms: 0 },
        InitCommand { cmd: Command::Raw(0xE5), data: &[0x01, 0x02, 0x00], delay_ms: 0 },
        InitCommand { cmd: Command::Raw(0xDE), data: &[0x00], delay_ms: 0 },
        InitCommand { cmd: Command::Raw(0x35), data: &[0x00], delay_ms: 0 },
        InitCommand { cmd: Command::InterfacePixelFormat, data: &[0x05], delay_ms: 0 },
        InitCommand { cmd: Command::ColumnAddressSet, data: &[0x00, 0x22, 0x00, 0xCD], delay_ms: 0 },
        InitCommand { cmd: Command::RowAddressSet, data: &[0x00, 0x00, 0x01, 0x3F], delay_ms: 0 },
        InitCommand { cmd: Command::Raw(0xDE), data: &[0x02], delay_ms: 0 },
        InitCommand { cmd: Command::Raw(0xE5), data: &[0x00, 0x02, 0x00], delay_ms: 0 },
        InitCommand { cmd: Command::Raw(0xDE), data: &[0x00], delay_ms: 0 },
        InitCommand { cmd: Command::DisplayOn, data: &[], delay_ms: 0 },    ];
    assert(table@.len() == 32);
    assert(init_table_view(table@)[0] == (Command::SleepOut, Seq::<u8>::empty(), 120u16));
    assert(init_table_view(table@)[1] == (Command::Raw(0xDF), seq![0x98u8, 0x53u8], 0u16));
    assert(init_table_view(table@)[2] == (Command::Raw(0xDF), seq![0x98u8, 0x53u8], 0u16));
    assert(init_table_view(table@)[3] == (Command::Raw(0xB2), seq![0x23u8], 0u16));
    assert(init_table_view(table@)[4] == (Command::Raw(0xB7), seq![0x00u8, 0x47u8, 0x00u8, 0x6Fu8], 0u16));
    assert(init_table_view(table@)[5] == (Command::Raw(0xBB), seq![0x1Cu8, 0x1Au8, 0x55u8, 0x73u8, 0x63u8, 0xF0u8], 0u16));
    assert(init_table_view(table@)[6] == (Command::Raw(0xC0), seq![0x44u8, 0xA4u8], 0u16));
    assert(init_table_view(table@)[7] == (Command::Raw(0xC1), seq![0x16u8], 0u16));
    assert(init_table_view(table@)[8] == (Command::Raw(0xC3), seq![0x7Du8, 0x07u8, 0x14u8, 0x06u8, 0xCFu8, 0x71u8, 0x72u8, 0x77u8], 0u16));
    assert(init_table_view(table@)[9] == (Command::Raw(0xC4), seq![0x00u8, 0x00u8, 0xA0u8, 0x79u8, 0x0Bu8, 0x0Au8, 0x16u8, 0x79u8, 0x0Bu8, 0x0Au8, 0x16u8, 0x82u8], 0u16));
    assert(init_table_view(table@)[10] == (Command::Raw(0xC8), seq![0x3Fu8, 0x32u8, 0x29u8, 0x29u8, 0x27u8, 0x2Bu8, 0x27u8, 0x28u8, 0x28u8, 0x26u8, 0x25u8, 0x17u8, 0x12u8, 0x0Du8, 0x04u8, 0x00u8, 0x3Fu8, 0x32u8, 0x29u8, 0x29u8, 0x27u8, 0x2Bu8, 0x27u8, 0x28u8, 0x28u8, 0x26u8, 0x25u8, 0x17u8, 0x12u8, 0x0Du8, 0x04u8, 0x00u8], 0u16));
    assert(init_table_view(table@)[11] == (Command::Raw(0xD0), seq![0x04u8, 0x06u8, 0x6Bu8, 0x0Fu8, 0x00u8], 0u16));
    assert(init_table_view(table@)[12] == (Command::Raw(0xD7), seq![0x00u8, 0x30u8], 0u16));
    assert(init_table_view(table@)[13] == (Command::Raw(0xE6), seq![0x14u8], 0u16));
    assert(init_table_view(table@)[14] == (Command::Raw(0xDE), seq![0x01u8], 0u16));
    assert(init_table_view(table@)[15] == (Command::Raw(0xB7), seq![0x03u8, 0x13u8, 0xEFu8, 0x35u8, 0x35u8], 0u16));
    assert(init_table_view(table@)[16] == (Command::Raw(0xC1), seq![0x14u8, 0x15u8, 0xC0u8], 0u16));
    assert(init_table_view(table@)[17] == (Command::Raw(0xC2), seq![0x06u8, 0x3Au8], 0u16));
    assert(init_table_view(table@)[18] == (Command::Raw(0xC4), seq![0x72u8, 0x12u8], 0u16));
    assert(init_table_view(table@)[19] == (Command::Raw(0xBE), seq![0x00u8], 0u16));
    assert(init_table_view(table@)[20] == (Command::Raw(0xDE), seq![0x02u8], 0u16));
    assert(init_table_view(table@)[21] == (Command::Raw(0xE5), seq![0x00u8, 0x02u8, 0x00u8], 0u16));
    assert(init_table_view(table@)[22] == (Command::Raw(0xE5), seq![0x01u8, 0x02u8, 0x00u8], 0u16));
    assert(init_table_view(table@)[23] == (Command::Raw(0xDE), seq![0x00u8], 0u16));
    assert(init_table_view(table@)[24] == (Command::Raw(0x35), seq![0x00u8], 0u16));
    assert(init_table_view(table@)[25] == (Command::InterfacePixelFormat, seq![0x05u8], 0u16));
    assert(init_table_view(table@)[26] == (Command::ColumnAddressSet, seq![0x00u8, 0x22u8, 0x00u8, 0xCDu8], 0u16));
    assert(init_table_view(table@)[27] == (Command::RowAddressSet, seq![0x00u8, 0x00u8, 0x01u8, 0x3Fu8], 0u16));
    assert(init_table_view(table@)[28] == (Command::Raw(0xDE), seq![0x02u8], 0u16));
    assert(init_table_view(table@)[29] == (Command::Raw(0xE5), seq![0x00u8, 0x02u8, 0x00u8], 0u16));
    assert(init_table_view(table@)[30] == (Command::Raw(0xDE), seq![0x00u8], 0u16));
    assert(init_table_view(table@)[31] == (Command::DisplayOn, Seq::<u8>::empty(), 0u16));
    assert(init_table_view(table@) =~= default_init_table());
    table
}

impl Default for Jd9853Config<'static> {
    fn default() -> (r: Self)
        ensures
            r.width == 172,
            r.height == 320,
            r.x_offset == 34,
            r.y_offset == 0,
            r.color_order == ColorOrder::Rgb,
            r.pixel_format == PixelFormat::Rgb565,
            r.reset_active_high,
            !r.invert_colors,
            r.orientation == Orientation::Portrait,
            init_table_view(r.init_commands@) == default_init_table(),
    {
        Jd9853Config {
            width: 172,
            height: 320,
            x_offset: 34,
            y_offset: 0,
            color_order: ColorOrder::Rgb,
            pixel_format: PixelFormat::Rgb565,
            reset_active_high: true,
            invert_colors: false,
            orientation: Orientation::Portrait,
            init_commands: default_init_commands(),
        }
    }
}


/// Errors of panel operations. The bus and pin variants carry the errors of
/// whoever performs the planned operations.
#[derive(Debug, Clone, Copy, PartialEq, Eq)]
pub enum Error<SpiError, PinError> {
    Spi(SpiError),
    Pin(PinError),
    InvalidInput,
    UnsupportedPixelFormat,
}

/// The error of a panel operation whose plan stopped on a failure: the SPI
/// device's error for a bus failure, the pin's for a pin failure.
pub fn panel_error<SE, PE>(fault: Fault<SE, PE>) -> (e: Error<SE, PE>)
    ensures
        e == match fault {
            Fault::Bus(error) => Error::<SE, PE>::Spi(error),
            Fault::Pin(error) => Error::<SE, PE>::Pin(error),
        },
{
    match fault {
        Fault::Bus(error) => Error::Spi(error),
        Fault::Pin(error) => Error::Pin(error),
    }
}

/// A pixel to draw: its position and its RGB565 colour.
#[derive(Debug, Clone, Copy, PartialEq, Eq, Structural)]
pub struct ColorPixel {
    pub x: i32,
    pub y: i32,
    pub color: u16,
}

/// A command byte: data/command line low, then the byte.
pub open spec fn command_ops(code: u8) -> Seq<PanelOpView> {
    seq![PanelOpView::SetDc(false), PanelOpView::Write(seq![code])]
}

/// Parameter bytes: nothing for no bytes, else data/command line high, then the bytes.
pub open spec fn data_ops(data: Seq<u8>) -> Seq<PanelOpView> {
    if data.len() == 0 {
        Seq::empty()
    } else {
        seq![PanelOpView::SetDc(true), PanelOpView::Write(data)]
    }
}

/// A command followed by its parameters.
pub open spec fn command_data_ops(code: u8, data: Seq<u8>) -> Seq<PanelOpView> {
    command_ops(code) + data_ops(data)
}

/// The pause after an initialisation entry, if it asks for one.
pub open spec fn pause_ops(ms: u16) -> Seq<PanelOpView> {
    if ms > 0 {
        seq![PanelOpView::DelayMs(ms as u32)]
    } else {
        Seq::empty()
    }
}

/// One initialisation entry: its command and parameters, then its pause.
pub open spec fn entry_ops(entry: InitCommand) -> Seq<PanelOpView> {
    command_data_ops(entry.cmd.spec_code(), entry.data@) + pause_ops(entry.delay_ms)
}

/// The first `n` entries of an initialisation table, sent in order.
pub open spec fn init_table_ops(table: Seq<InitCommand>, n: int) -> Seq<PanelOpView>
    decreases n,
{
    if n <= 0 {
        Seq::empty()
    } else {
        init_table_ops(table, n - 1) + entry_ops(table[n - 1])
    }
}

/// The memory access control byte after one entry: its first parameter when
/// the entry is a MADCTL command with parameters, else unchanged.
pub open spec fn madctl_step(entry: InitCommand, madctl: u8) -> u8 {
    if entry.cmd == Command::MemoryAccessControl && entry.data@.len() > 0 {
        entry.data@[0]
    } else {
        madctl
    }
}

/// The pixel format byte after one entry: its first parameter when the entry
/// is a COLMOD command with parameters, else unchanged.
pub open spec fn colmod_step(entry: InitCommand, colmod: u8) -> u8 {
    if entry.cmd == Command::InterfacePixelFormat && entry.data@.len() > 0 {
        entry.data@[0]
    } else {
        colmod
    }
}

/// The memory access control byte after the first `n` table entries: the first
/// parameter of the last MADCTL entry that has one, else `initial`.
pub open spec fn madctl_after(table: Seq<InitCommand>, n: int, initial: u8) -> u8
    decreases n,
{
    if n <= 0 {
        initial
    } else {
        madctl_step(table[n - 1], madctl_after(table, n - 1, initial))
    }
}

/// The pixel format byte after the first `n` table entries: the first parameter
/// of the last COLMOD entry that has one, else `initial`.
pub open spec fn colmod_after(table: Seq<InitCommand>, n: int, initial: u8) -> u8
    decreases n,
{
    if n <= 0 {
        initial
    } else {
        colmod_step(table[n - 1], colmod_after(table, n - 1, initial))
    }
}

/// The start of initialisation: sleep out, a 100 ms pause, then the register
/// values the driver holds for MADCTL and COLMOD.
pub open spec fn init_prefix_ops(madctl: u8, colmod: u8) -> Seq<PanelOpView> {
    command_ops(0x11) + seq![PanelOpView::DelayMs(100)] + command_data_ops(0x36, seq![madctl])
        + command_data_ops(0x3A, seq![colmod])
}

/// One step of an initialisation in progress, at `position` (the next table
/// entry; past the table, the closing inversion), with the registers holding
/// `madctl` and `colmod`: the operations of the step, if there is one, the
/// position after it, and the registers after it. A table entry changes the
/// registers before it is sent, as the panel will hold them once it is.
pub open spec fn init_advance(config: Jd9853Config, position: Option<int>, madctl: u8, colmod: u8) -> (
    Option<Seq<PanelOpView>>,
    Option<int>,
    u8,
    u8,
) {
    let table = config.init_commands@;
    match position {
        None => (None, None, madctl, colmod),
        Some(i) => if 0 <= i < table.len() {
            (Some(entry_ops(table[i])), Some(i + 1), madctl_step(table[i], madctl), colmod_step(table[i], colmod))
        } else if config.invert_colors {
            (Some(command_ops(0x21)), None, madctl, colmod)
        } else {
            (None, None, madctl, colmod)
        },
    }
}

/// How far an initialisation still has to go from `position`.
pub open spec fn init_remaining(config: Jd9853Config, position: Option<int>) -> nat {
    match position {
        None => 0,
        Some(i) => if 0 <= i <= config.init_commands@.len() {
            (config.init_commands@.len() - i + 1) as nat
        } else {
            1
        },
    }
}

/// Every step of an initialisation from `position` on, until no step is left:
/// all their operations in order, and the registers at the end.
pub open spec fn init_rest(config: Jd9853Config, position: Option<int>, madctl: u8, colmod: u8) -> (
    Seq<PanelOpView>,
    u8,
    u8,
)
    decreases init_remaining(config, position),
{
    let (ops, next, m, c) = init_advance(config, position, madctl, colmod);
    match ops {
        None => (Seq::empty(), madctl, colmod),
        Some(step) => {
            let rest = init_rest(config, next, m, c);
            (step + rest.0, rest.1, rest.2)
        },
    }
}

/// Width and height of the picture as the panel is oriented.
pub open spec fn panel_size(config: Jd9853Config) -> (u16, u16) {
    if config.orientation.spec_swaps_axes() {
        (config.height, config.width)
    } else {
        (config.width, config.height)
    }
}

/// The whole picture as a rectangle.
pub open spec fn panel_bounds(config: Jd9853Config) -> Rect {
    Rect { x: 0, y: 0, width: panel_size(config).0 as u32, height: panel_size(config).1 as u32 }
}

/// A window of at least one pixel that lies inside the picture.
pub open spec fn window_fits(config: Jd9853Config, x: int, y: int, width: int, height: int) -> bool {
    &&& width > 0
    &&& height > 0
    &&& 0 <= x
    &&& 0 <= y
    &&& x + width <= panel_size(config).0
    &&& y + height <= panel_size(config).1
}

/// The window's end addresses, offsets included, stay within 16 bits.
pub open spec fn window_addressable(config: Jd9853Config, x: int, y: int, width: int, height: int) -> bool {
    &&& x + config.x_offset + width <= 0xFFFF
    &&& y + config.y_offset + height <= 0xFFFF
}

/// An inclusive address range, big-endian.
pub open spec fn range_bytes(start: int, end: int) -> Seq<u8> {
    seq![(start / 256) as u8, (start % 256) as u8, (end / 256) as u8, (end % 256) as u8]
}

/// Column and row address ranges of a window, with the panel offsets applied.
pub open spec fn window_ops(config: Jd9853Config, x: int, y: int, width: int, height: int) -> Seq<PanelOpView> {
    let x_start = x + config.x_offset;
    let y_start = y + config.y_offset;
    command_data_ops(0x2A, range_bytes(x_start, x_start + width - 1)) + command_data_ops(
        0x2B,
        range_bytes(y_start, y_start + height - 1),
    )
}

/// The initialisation sequence for a panel whose registers hold `madctl` and `colmod`.
pub open spec fn init_ops(config: Jd9853Config, madctl: u8, colmod: u8) -> Seq<PanelOpView> {
    init_prefix_ops(madctl, colmod) + init_table_ops(config.init_commands@, config.init_commands@.len() as int)
        + if config.invert_colors {
        command_ops(0x21)
    } else {
        Seq::empty()
    }
}

/// The reset sequence: pulse the reset line when there is one, else the
/// software reset command.
pub open spec fn reset_ops(config: Jd9853Config, has_reset_pin: bool) -> Seq<PanelOpView> {
    if has_reset_pin {
        seq![
            PanelOpView::SetReset(config.reset_active_high),
            PanelOpView::DelayMs(10),
            PanelOpView::SetReset(!config.reset_active_high),
            PanelOpView::DelayMs(10),
        ]
    } else {
        command_ops(0x01) + seq![PanelOpView::DelayMs(20)]
    }
}

/// The two bytes of an RGB565 colour, big-endian.
pub open spec fn color_bytes(color: u16) -> Seq<u8> {
    seq![(color / 256) as u8, (color % 256) as u8]
}

/// One pixel: nothing when it lies outside the picture, else a 1x1 window and
/// the colour.
pub open spec fn pixel_ops(config: Jd9853Config, p: ColorPixel) -> Seq<PanelOpView> {
    if rect_has_point(panel_bounds(config), p.x as int, p.y as int) {
        window_ops(config, p.x as int, p.y as int, 1, 1) + command_ops(0x2C) + data_ops(
            color_bytes(p.color),
        )
    } else {
        Seq::empty()
    }
}

/// The first `n` pixels, in order.
pub open spec fn pixels_ops(config: Jd9853Config, pixels: Seq<ColorPixel>, n: int) -> Seq<PanelOpView>
    decreases n,
{
    if n <= 0 {
        Seq::empty()
    } else {
        pixels_ops(config, pixels, n - 1) + pixel_ops(config, pixels[n - 1])
    }
}

/// Every pixel that lies in the picture can be addressed.
pub open spec fn pixels_addressable(config: Jd9853Config, pixels: Seq<ColorPixel>) -> bool {
    forall|i: int|
        0 <= i < pixels.len() && rect_has_point(panel_bounds(config), #[trigger] pixels[i].x as int, pixels[i].y as int)
            ==> window_addressable(config, pixels[i].x as int, pixels[i].y as int, 1, 1)
}

/// Number of pixels one data transfer of a fill carries at most.
pub const FILL_CHUNK_PIXELS: usize = 64;

/// `count` pixels of one colour as bytes.
pub open spec fn pixel_run(count: int, color: u16) -> Seq<u8> {
    Seq::new((2 * count) as nat, |i: int| if i % 2 == 0 { (color / 256) as u8 } else { (color % 256) as u8 })
}

/// `remaining` pixels of one colour, streamed in transfers of at most 64 pixels.
pub open spec fn fill_stream_ops(remaining: nat, color: u16) -> Seq<PanelOpView>
    decreases remaining,
{
    if remaining == 0 {
        Seq::empty()
    } else {
        let chunk: nat = if remaining < 64 { remaining } else { 64 };
        data_ops(pixel_run(chunk as int, color)) + fill_stream_ops((remaining - chunk) as nat, color)
    }
}

/// Filling the part of a rectangle that lies in the picture.
pub open spec fn fill_ops(config: Jd9853Config, area: Rect, color: u16) -> Seq<PanelOpView> {
    if rects_overlap(area, panel_bounds(config)) {
        let a = rect_overlap(area, panel_bounds(config));
        window_ops(config, a.x as int, a.y as int, a.width as int, a.height as int) + command_ops(0x2C)
            + fill_stream_ops((a.width * a.height) as nat, color)
    } else {
        Seq::empty()
    }
}

/// The part of a rectangle that lies in the picture can be addressed.
pub open spec fn fill_addressable(config: Jd9853Config, area: Rect) -> bool {
    rects_overlap(area, panel_bounds(config)) ==> {
        let a = rect_overlap(area, panel_bounds(config));
        window_addressable(config, a.x as int, a.y as int, a.width as int, a.height as int)
    }
}

/// Big-endian packing of an inclusive address range.
pub fn pack_range(start: u16, end: u16) -> (r: [u8; 4])
    ensures
        r@ == range_bytes(start as int, end as int),
{
    let r = [(start >> 8) as u8, (start & 0xff) as u8, (end >> 8) as u8, (end & 0xff) as u8];
    assert(((start >> 8) as u8) == (start / 256) as u8 && ((start & 0xff) as u8) == (start % 256) as u8)
        by (bit_vector);
    assert(((end >> 8) as u8) == (end / 256) as u8 && ((end & 0xff) as u8) == (end % 256) as u8)
        by (bit_vector);
    assert(r@ =~= range_bytes(start as int, end as int));
    r
}

/// Appends a command byte to a plan.
fn push_command(ops: &mut Vec<PanelOp>, command: Command)
    ensures
        panel_ops_view(final(ops)@) == panel_ops_view(old(ops)@) + command_ops(command.spec_code()),
{
    push_panel_op(ops, PanelOp::SetDc(false));
    let code = command.code();
    let bytes = vec![code];
    assert(bytes@ =~= seq![code]);
    push_panel_op(ops, PanelOp::Write(bytes));
    assert(panel_ops_view(ops@) =~= panel_ops_view(old(ops)@) + command_ops(command.spec_code()));
}

/// Appends parameter bytes to a plan.
fn push_data(ops: &mut Vec<PanelOp>, data: &[u8])
    ensures
        panel_ops_view(final(ops)@) == panel_ops_view(old(ops)@) + data_ops(data@),
{
    if data.len() == 0 {
        assert(panel_ops_view(ops@) =~= panel_ops_view(old(ops)@) + data_ops(data@));
    } else {
        push_panel_op(ops, PanelOp::SetDc(true));
        push_panel_op(ops, PanelOp::Write(vstd::slice::slice_to_vec(data)));
        assert(panel_ops_view(ops@) =~= panel_ops_view(old(ops)@) + data_ops(data@));
    }
}

/// Appends a command and its parameters to a plan.
fn push_command_data(ops: &mut Vec<PanelOp>, command: Command, data: &[u8])
    ensures
        panel_ops_view(final(ops)@) == panel_ops_view(old(ops)@) + command_data_ops(command.spec_code(), data@),
{
    push_command(ops, command);
    push_data(ops, data);
    assert(panel_ops_view(ops@) =~= panel_ops_view(old(ops)@) + command_data_ops(command.spec_code(), data@));
}

/// Appends a pause to a plan.
fn push_delay(ops: &mut Vec<PanelOp>, ms: u32)
    ensures
        panel_ops_view(final(ops)@) == panel_ops_view(old(ops)@).push(PanelOpView::DelayMs(ms)),
{
    push_panel_op(ops, PanelOp::DelayMs(ms));
}

/// Appends the address window commands to a plan.
fn push_window(ops: &mut Vec<PanelOp>, config: &Jd9853Config, x: u16, y: u16, width: u16, height: u16)
    requires
        width > 0,
        height > 0,
        window_addressable(*config, x as int, y as int, width as int, height as int),
    ensures
        panel_ops_view(final(ops)@) == panel_ops_view(old(ops)@) + window_ops(
            *config,
            x as int,
            y as int,
            width as int,
            height as int,
        ),
{
    let x_start = x + config.x_offset;
    let x_end = x_start + width - 1;
    let y_start = y + config.y_offset;
    let y_end = y_start + height - 1;
    let columns = pack_range(x_start, x_end);
    let rows = pack_range(y_start, y_end);
    push_command_data(ops, Command::ColumnAddressSet, columns.as_slice());
    push_command_data(ops, Command::RowAddressSet, rows.as_slice());
    assert(panel_ops_view(ops@) =~= panel_ops_view(old(ops)@) + window_ops(
        *config,
        x as int,
        y as int,
        width as int,
        height as int,
    ));
}


/// The register state the driver keeps for a panel.
struct Panel<'a> {
    config: Jd9853Config<'a>,
    madctl: MemoryAccessControl,
    colmod: InterfacePixelFormat,
    init_next: Option<usize>,
}

/// A planned step, if any, as plain values.
pub open spec fn step_ops_view(step: Option<Vec<PanelOp>>) -> Option<Seq<PanelOpView>> {
    match step {
        Some(ops) => Some(panel_ops_view(ops@)),
        None => None,
    }
}

/// A position in an initialisation, as an integer.
pub open spec fn position_view(position: Option<usize>) -> Option<int> {
    match position {
        Some(i) => Some(i as int),
        None => None,
    }
}

impl<'a> Panel<'a> {
    fn new(config: Jd9853Config<'a>) -> (r: Self)
        ensures
            r.config == config,
            r.madctl.byte() == orientation_bits(config.orientation) | color_bits(config.color_order),
            r.colmod.byte() == pixel_format_byte(config.pixel_format),
            r.init_next is None,
    {
        let madctl = MemoryAccessControl::from_parts(config.orientation, config.color_order);
        let colmod = InterfacePixelFormat::from_pixel_format(config.pixel_format);
        Panel { config, madctl, colmod, init_next: None }
    }

    fn size(&self) -> (r: (u16, u16))
        ensures
            r == panel_size(self.config),
    {
        if self.config.orientation.swaps_axes() {
            (self.config.height, self.config.width)
        } else {
            (self.config.width, self.config.height)
        }
    }

    fn reset(&self, has_reset_pin: bool) -> (ops: Vec<PanelOp>)
        ensures
            panel_ops_view(ops@) == reset_ops(self.config, has_reset_pin),
    {
        let mut ops: Vec<PanelOp> = Vec::new();
        if has_reset_pin {
            push_panel_op(&mut ops, PanelOp::SetReset(self.config.reset_active_high));
            push_delay(&mut ops, 10);
            push_panel_op(&mut ops, PanelOp::SetReset(!self.config.reset_active_high));
            push_delay(&mut ops, 10);
        } else {
            push_command(&mut ops, Command::SoftwareReset);
            push_delay(&mut ops, 20);
        }
        assert(panel_ops_view(ops@) =~= reset_ops(self.config, has_reset_pin));
        ops
    }

    fn init(&mut self) -> (ops: Vec<PanelOp>)
        ensures
            panel_ops_view(ops@) == init_prefix_ops(old(self).madctl.byte(), old(self).colmod.byte()),
            final(self).config == old(self).config,
            final(self).madctl == old(self).madctl,
            final(self).colmod == old(self).colmod,
            final(self).init_next == Some(0usize),
    {
        let mut ops: Vec<PanelOp> = Vec::new();
        push_command(&mut ops, Command::SleepOut);
        push_delay(&mut ops, 100);
        let madctl = [self.madctl.into_byte()];
        push_command_data(&mut ops, Command::MemoryAccessControl, madctl.as_slice());
        let colmod = [self.colmod.into_byte()];
        push_command_data(&mut ops, Command::InterfacePixelFormat, colmod.as_slice());
        assert(madctl@ =~= seq![old(self).madctl.byte()]);
        assert(colmod@ =~= seq![old(self).colmod.byte()]);
        assert(panel_ops_view(ops@) =~= init_prefix_ops(old(self).madctl.byte(), old(self).colmod.byte()));
        self.init_next = Some(0);
        ops
    }

    fn init_step(&mut self) -> (r: Option<Vec<PanelOp>>)
        ensures
            (step_ops_view(r), position_view(final(self).init_next), final(self).madctl.byte(), final(self).colmod.byte())
                == init_advance(old(self).config, position_view(old(self).init_next), old(self).madctl.byte(), old(self).colmod.byte()),
            final(self).config == old(self).config,
    {
        match self.init_next {
            None => None,
            Some(i) => {
                let table = self.config.init_commands;
                if i < table.len() {
                    let command = table[i];
                    if command.cmd == Command::MemoryAccessControl && command.data.len() > 0 {
                        self.madctl = MemoryAccessControl::from_byte(command.data[0]);
                    } else if command.cmd == Command::InterfacePixelFormat && command.data.len() > 0 {
                        self.colmod = InterfacePixelFormat::from_byte(command.data[0]);
                    }
                    let mut ops: Vec<PanelOp> = Vec::new();
                    push_command_data(&mut ops, command.cmd, command.data);
                    if command.delay_ms > 0 {
                        push_delay(&mut ops, command.delay_ms as u32);
                    }
                    assert(panel_ops_view(ops@) =~= entry_ops(command));
                    self.init_next = Some(i + 1);
                    Some(ops)
                } else {
                    self.init_next = None;
                    if self.config.invert_colors {
                        let mut ops: Vec<PanelOp> = Vec::new();
                        push_command(&mut ops, Command::InversionOn);
                        assert(panel_ops_view(ops@) =~= command_ops(0x21));
                        Some(ops)
                    } else {
                        None
                    }
                }
            },
        }
    }

    fn set_orientation(&mut self, orientation: Orientation) -> (ops: Vec<PanelOp>)
        ensures
            final(self).config == (Jd9853Config { orientation, ..old(self).config }),
            final(self).madctl.byte() == orientation_bits(orientation) | color_bits(old(self).config.color_order),
            final(self).colmod == old(self).colmod,
            final(self).init_next == old(self).init_next,
            panel_ops_view(ops@) == command_data_ops(0x36, seq![final(self).madctl.byte()]),
    {
        self.config.orientation = orientation;
        self.madctl = MemoryAccessControl::from_parts(orientation, self.config.color_order);
        let mut ops: Vec<PanelOp> = Vec::new();
        let madctl = [self.madctl.into_byte()];
        push_command_data(&mut ops, Command::MemoryAccessControl, madctl.as_slice());
        assert(madctl@ =~= seq![self.madctl.byte()]);
        assert(panel_ops_view(ops@) =~= command_data_ops(0x36, seq![self.madctl.byte()]));
        ops
    }

    fn set_invert(&mut self, invert: bool) -> (ops: Vec<PanelOp>)
        ensures
            final(self).config == (Jd9853Config { invert_colors: invert, ..old(self).config }),
            final(self).madctl == old(self).madctl,
            final(self).colmod == old(self).colmod,
            final(self).init_next == old(self).init_next,
            panel_ops_view(ops@) == command_ops(if invert { 0x21u8 } else { 0x20u8 }),
    {
        self.config.invert_colors = invert;
        let mut ops: Vec<PanelOp> = Vec::new();
        push_command(&mut ops, if invert { Command::InversionOn } else { Command::InversionOff });
        assert(panel_ops_view(ops@) =~= command_ops(if invert { 0x21u8 } else { 0x20u8 }));
        ops
    }

    fn set_address_window<SE, PE>(&self, x: u16, y: u16, width: u16, height: u16) -> (r: Result<Vec<PanelOp>, Error<SE, PE>>)
        requires
            window_fits(self.config, x as int, y as int, width as int, height as int) ==> window_addressable(
                self.config,
                x as int,
                y as int,
                width as int,
                height as int,
            ),
        ensures
            r is Ok <==> window_fits(self.config, x as int, y as int, width as int, height as int),
            r matches Ok(ops) ==> panel_ops_view(ops@) == window_ops(
                self.config,
                x as int,
                y as int,
                width as int,
                height as int,
            ),
            r matches Err(e) ==> e is InvalidInput,
    {
        let (max_width, max_height) = self.size();
        if width == 0 || height == 0 || x >= max_width || y >= max_height || x.checked_add(width).is_none()
            || y.checked_add(height).is_none() || x + width > max_width || y + height > max_height {
            return Err(Error::InvalidInput);
        }
        let mut ops: Vec<PanelOp> = Vec::new();
        push_window(&mut ops, &self.config, x, y, width, height);
        assert(panel_ops_view(ops@) =~= window_ops(self.config, x as int, y as int, width as int, height as int));
        Ok(ops)
    }

    fn write_pixels<SE, PE>(&self, pixels: &[u8]) -> (r: Result<Vec<PanelOp>, Error<SE, PE>>)
        ensures
            r is Ok <==> (pixels@.len() > 0 && pixels@.len() % (self.config.pixel_format.spec_bytes_per_pixel() as nat) == 0),
            r matches Ok(ops) ==> panel_ops_view(ops@) == command_ops(0x2C) + data_ops(pixels@),
            r matches Err(e) ==> e is InvalidInput,
    {
        let bytes_per_pixel = self.config.pixel_format.bytes_per_pixel();
        if pixels.len() == 0 || pixels.len() % bytes_per_pixel != 0 {
            return Err(Error::InvalidInput);
        }
        let mut ops: Vec<PanelOp> = Vec::new();
        push_command(&mut ops, Command::MemoryWrite);
        push_data(&mut ops, pixels);
        assert(panel_ops_view(ops@) =~= command_ops(0x2C) + data_ops(pixels@));
        Ok(ops)
    }

    fn draw_iter<SE, PE>(&self, pixels: &[ColorPixel]) -> (r: Result<Vec<PanelOp>, Error<SE, PE>>)
        requires
            pixels_addressable(self.config, pixels@),
        ensures
            r is Err <==> self.config.pixel_format != PixelFormat::Rgb565,
            r matches Err(e) ==> e is UnsupportedPixelFormat,
            r matches Ok(ops) ==> panel_ops_view(ops@) == pixels_ops(self.config, pixels@, pixels@.len() as int),
    {
        if self.config.pixel_format != PixelFormat::Rgb565 {
            return Err(Error::UnsupportedPixelFormat);
        }
        let (width, height) = self.size();
        let bounds = Rect { x: 0, y: 0, width: width as u32, height: height as u32 };
        let mut ops: Vec<PanelOp> = Vec::new();
        let n = pixels.len();
        let mut i: usize = 0;
        while i < n
            invariant
                n == pixels@.len(),
                i <= n,
                bounds == panel_bounds(self.config),
                pixels_addressable(self.config, pixels@),
                panel_ops_view(ops@) == pixels_ops(self.config, pixels@, i as int),
            decreases n - i,
        {
            let pixel = pixels[i];
            let ghost before = panel_ops_view(ops@);
            if rect_contains(bounds, pixel.x, pixel.y) {
                push_window(&mut ops, &self.config, pixel.x as u16, pixel.y as u16, 1, 1);
                push_command(&mut ops, Command::MemoryWrite);
                let color = pixel.color;
                let bytes = [(color >> 8) as u8, (color & 0xff) as u8];
                assert(((color >> 8) as u8) == (color / 256) as u8 && ((color & 0xff) as u8) == (color % 256) as u8)
                    by (bit_vector);
                assert(bytes@ =~= color_bytes(color));
                push_data(&mut ops, bytes.as_slice());
            }
            i = i + 1;
            assert(panel_ops_view(ops@) =~= before + pixel_ops(self.config, pixel));
        }
        Ok(ops)
    }

    fn fill_solid<SE, PE>(&self, area: Rect, color: u16) -> (r: Result<Vec<PanelOp>, Error<SE, PE>>)
        requires
            !rect_is_empty(area) ==> rect_fits(area),
            fill_addressable(self.config, area),
        ensures
            r is Err <==> self.config.pixel_format != PixelFormat::Rgb565,
            r matches Err(e) ==> e is UnsupportedPixelFormat,
            r matches Ok(ops) ==> panel_ops_view(ops@) == fill_ops(self.config, area, color),
    {
        if self.config.pixel_format != PixelFormat::Rgb565 {
            return Err(Error::UnsupportedPixelFormat);
        }
        let mut ops: Vec<PanelOp> = Vec::new();
        if area.width == 0 || area.height == 0 {
            assert(panel_ops_view(ops@) =~= fill_ops(self.config, area, color));
            return Ok(ops);
        }
        let (width, height) = self.size();
        let bounds = Rect { x: 0, y: 0, width: width as u32, height: height as u32 };
        let clipped = rect_intersection(area, bounds);
        if clipped.width == 0 || clipped.height == 0 {
            assert(panel_ops_view(ops@) =~= fill_ops(self.config, area, color));
            return Ok(ops);
        }
        let clipped_width = clipped.width as u16;
        let clipped_height = clipped.height as u16;
        push_window(&mut ops, &self.config, clipped.x as u16, clipped.y as u16, clipped_width, clipped_height);

        let high = (color >> 8) as u8;
        let low = (color & 0xff) as u8;
        assert(((color >> 8) as u8) == (color / 256) as u8 && ((color & 0xff) as u8) == (color % 256) as u8)
            by (bit_vector);
        let mut buffer: Vec<u8> = Vec::new();
        let mut k: usize = 0;
        while k < FILL_CHUNK_PIXELS
            invariant
                k <= FILL_CHUNK_PIXELS,
                high == (color / 256) as u8,
                low == (color % 256) as u8,
                buffer@ =~= pixel_run(k as int, color),
            decreases FILL_CHUNK_PIXELS - k,
        {
            buffer.push(high);
            buffer.push(low);
            k = k + 1;
            assert(buffer@ =~= pixel_run(k as int, color));
        }

        push_command(&mut ops, Command::MemoryWrite);
        let ghost prefix = panel_ops_view(ops@);
        assert(clipped_width as int * clipped_height as int <= 0xFFFF * 0xFFFF) by (nonlinear_arith)
            requires
                clipped_width <= 0xFFFF,
                clipped_height <= 0xFFFF,
        ;
        let total: usize = clipped_width as usize * clipped_height as usize;
        let mut remaining: usize = total;
        while remaining > 0
            invariant
                remaining <= total,
                buffer@ == pixel_run(64, color),
                panel_ops_view(ops@) + fill_stream_ops(remaining as nat, color) == prefix + fill_stream_ops(total as nat, color),
            decreases remaining,
        {
            let chunk = if remaining < FILL_CHUNK_PIXELS { remaining } else { FILL_CHUNK_PIXELS };
            let part = vstd::slice::slice_subrange(buffer.as_slice(), 0, chunk * 2);
            assert(part@ =~= pixel_run(chunk as int, color));
            let ghost before = panel_ops_view(ops@);
            push_data(&mut ops, part);
            remaining = remaining - chunk;
            assert(fill_stream_ops((remaining + chunk) as nat, color) == data_ops(pixel_run(chunk as int, color))
                + fill_stream_ops(remaining as nat, color));
            assert(before + (data_ops(pixel_run(chunk as int, color)) + fill_stream_ops(remaining as nat, color))
                =~= (before + data_ops(pixel_run(chunk as int, color))) + fill_stream_ops(remaining as nat, color));
        }
        assert(panel_ops_view(ops@) =~= prefix + fill_stream_ops(total as nat, color));
        assert(panel_ops_view(ops@) =~= fill_ops(self.config, area, color));
        Ok(ops)
    }
}


/// A JD9853 panel on an SPI device with a data/command line and an optional
/// reset line. The driver keeps the bus handles and the register state; each
/// operation returns the [`PanelOp`]s to perform, in order.
pub struct Jd9853<'a, SPI, DC, RST> {
    spi: SPI,
    dc: DC,
    rst: Option<RST>,
    panel: Panel<'a>,
}

impl<'a, SPI, DC, RST> Jd9853<'a, SPI, DC, RST> {
    /// The settings the driver works with.
    pub closed spec fn spec_config(&self) -> Jd9853Config<'a> {
        self.panel.config
    }

    /// The memory access control byte the driver believes the panel holds.
    pub closed spec fn madctl(&self) -> u8 {
        self.panel.madctl.byte()
    }

    /// The pixel format byte the driver believes the panel holds.
    pub closed spec fn colmod(&self) -> u8 {
        self.panel.colmod.byte()
    }

    /// Where an initialisation in progress stands: the next table entry (past
    /// the table, the closing inversion), or none.
    pub closed spec fn init_position(&self) -> Option<int> {
        position_view(self.panel.init_next)
    }

    pub closed spec fn spi(&self) -> SPI {
        self.spi
    }

    pub closed spec fn dc(&self) -> DC {
        self.dc
    }

    pub closed spec fn rst(&self) -> Option<RST> {
        self.rst
    }

    /// Takes the bus handles and the settings; the registers are assumed to be
    /// programmed from the settings' orientation, colour order and pixel format.
    pub fn new(spi: SPI, dc: DC, rst: Option<RST>, config: Jd9853Config<'a>) -> (r: Self)
        ensures
            r.spi() == spi,
            r.dc() == dc,
            r.rst() == rst,
            r.spec_config() == config,
            r.madctl() == orientation_bits(config.orientation) | color_bits(config.color_order),
            r.colmod() == pixel_format_byte(config.pixel_format),
            r.init_position() is None,
    {
        Jd9853 { spi, dc, rst, panel: Panel::new(config) }
    }

    /// Gives the bus handles back.
    pub fn release(self) -> (r: (SPI, DC, Option<RST>))
        ensures
            r == (self.spi(), self.dc(), self.rst()),
    {
        (self.spi, self.dc, self.rst)
    }

    /// The bus handles, to perform planned operations with.
    pub fn bus(&mut self) -> (r: (&mut SPI, &mut DC, &mut Option<RST>))
        ensures
            *r.0 == old(self).spi(),
            *r.1 == old(self).dc(),
            *r.2 == old(self).rst(),
            final(self).spi() == *final(r.0),
            final(self).dc() == *final(r.1),
            final(self).rst() == *final(r.2),
            final(self).spec_config() == old(self).spec_config(),
            final(self).madctl() == old(self).madctl(),
            final(self).colmod() == old(self).colmod(),
            final(self).init_position() == old(self).init_position(),
    {
        (&mut self.spi, &mut self.dc, &mut self.rst)
    }

    /// The settings the driver works with.
    #[verifier::when_used_as_spec(spec_config)]
    pub fn config(&self) -> (r: Jd9853Config<'a>)
        ensures
            r == self.spec_config(),
    {
        self.panel.config
    }

    /// Width and height of the picture in the current orientation.
    pub fn size(&self) -> (r: (u16, u16))
        ensures
            r == panel_size(self.spec_config()),
    {
        self.panel.size()
    }

    /// Pulses the reset line if there is one, else sends the software reset.
    pub fn reset(&self) -> (ops: Vec<PanelOp>)
        ensures
            panel_ops_view(ops@) == reset_ops(self.spec_config(), self.rst() is Some),
    {
        self.panel.reset(self.rst.is_some())
    }

    /// Starts the initialisation: wakes the panel and programs orientation
    /// and pixel format. The initialisation table and, if asked for, colour
    /// inversion follow step by step through [`Self::init_step`], until it
    /// gives none.
    pub fn init(&mut self) -> (ops: Vec<PanelOp>)
        ensures
            panel_ops_view(ops@) == init_prefix_ops(old(self).madctl(), old(self).colmod()),
            final(self).init_position() == Some(0int),
            final(self).spec_config() == old(self).spec_config(),
            final(self).madctl() == old(self).madctl(),
            final(self).colmod() == old(self).colmod(),
            final(self).spi() == old(self).spi(),
            final(self).dc() == old(self).dc(),
            final(self).rst() == old(self).rst(),
    {
        self.panel.init()
    }

    /// The next step of the initialisation in progress: the next table entry,
    /// whose MADCTL or COLMOD parameter, if any, replaces the register state
    /// as it is planned; after the table, the inversion command if colour
    /// inversion is asked for. None when the initialisation is over (or none
    /// was started).
    pub fn init_step(&mut self) -> (r: Option<Vec<PanelOp>>)
        ensures
            (step_ops_view(r), final(self).init_position(), final(self).madctl(), final(self).colmod()) == init_advance(
                old(self).spec_config(),
                old(self).init_position(),
                old(self).madctl(),
                old(self).colmod(),
            ),
            final(self).spec_config() == old(self).spec_config(),
            final(self).spi() == old(self).spi(),
            final(self).dc() == old(self).dc(),
            final(self).rst() == old(self).rst(),
    {
        self.panel.init_step()
    }

    /// Turns the picture and programs the memory access control register.
    pub fn set_orientation(&mut self, orientation: Orientation) -> (ops: Vec<PanelOp>)
        ensures
            final(self).spec_config() == (Jd9853Config { orientation, ..old(self).spec_config() }),
            final(self).madctl() == orientation_bits(orientation) | color_bits(old(self).spec_config().color_order),
            final(self).colmod() == old(self).colmod(),
            final(self).init_position() == old(self).init_position(),
            panel_ops_view(ops@) == command_data_ops(0x36, seq![final(self).madctl()]),
            final(self).spi() == old(self).spi(),
            final(self).dc() == old(self).dc(),
            final(self).rst() == old(self).rst(),
    {
        self.panel.set_orientation(orientation)
    }

    /// Turns colour inversion on or off.
    pub fn set_invert(&mut self, invert: bool) -> (ops: Vec<PanelOp>)
        ensures
            final(self).spec_config() == (Jd9853Config { invert_colors: invert, ..old(self).spec_config() }),
            final(self).madctl() == old(self).madctl(),
            final(self).colmod() == old(self).colmod(),
            final(self).init_position() == old(self).init_position(),
            panel_ops_view(ops@) == command_ops(if invert { 0x21u8 } else { 0x20u8 }),
            final(self).spi() == old(self).spi(),
            final(self).dc() == old(self).dc(),
            final(self).rst() == old(self).rst(),
    {
        self.panel.set_invert(invert)
    }

    /// Turns the display output on or off.
    pub fn set_display_on(&self, on: bool) -> (ops: Vec<PanelOp>)
        ensures
            panel_ops_view(ops@) == command_ops(if on { 0x29u8 } else { 0x28u8 }),
    {
        self.write_command(if on { Command::DisplayOn } else { Command::DisplayOff })
    }

    /// Selects the window that the next pixel data fills. The window must be
    /// non-empty and lie inside the picture; the panel offsets are added.
    pub fn set_address_window<SE, PE>(&self, x: u16, y: u16, width: u16, height: u16) -> (r: Result<Vec<PanelOp>, Error<SE, PE>>)
        requires
            window_fits(self.spec_config(), x as int, y as int, width as int, height as int) ==> window_addressable(
                self.spec_config(),
                x as int,
                y as int,
                width as int,
                height as int,
            ),
        ensures
            r is Ok <==> window_fits(self.spec_config(), x as int, y as int, width as int, height as int),
            r matches Ok(ops) ==> panel_ops_view(ops@) == window_ops(
                self.spec_config(),
                x as int,
                y as int,
                width as int,
                height as int,
            ),
            r matches Err(e) ==> e is InvalidInput,
    {
        self.panel.set_address_window(x, y, width, height)
    }

    /// Streams pixel bytes into the current window. The bytes must be a
    /// non-empty whole number of pixels.
    pub fn write_pixels<SE, PE>(&self, pixels: &[u8]) -> (r: Result<Vec<PanelOp>, Error<SE, PE>>)
        ensures
            r is Ok <==> (pixels@.len() > 0 && pixels@.len() % (self.spec_config().pixel_format.spec_bytes_per_pixel() as nat) == 0),
            r matches Ok(ops) ==> panel_ops_view(ops@) == command_ops(0x2C) + data_ops(pixels@),
            r matches Err(e) ==> e is InvalidInput,
    {
        self.panel.write_pixels(pixels)
    }

    /// Sends one command byte.
    pub fn write_command(&self, command: Command) -> (ops: Vec<PanelOp>)
        ensures
            panel_ops_view(ops@) == command_ops(command.spec_code()),
    {
        let mut ops: Vec<PanelOp> = Vec::new();
        push_command(&mut ops, command);
        assert(panel_ops_view(ops@) =~= command_ops(command.spec_code()));
        ops
    }

    /// Sends a command and its parameter bytes, if any.
    pub fn write_command_data(&self, command: Command, data: &[u8]) -> (ops: Vec<PanelOp>)
        ensures
            panel_ops_view(ops@) == command_data_ops(command.spec_code(), data@),
    {
        let mut ops: Vec<PanelOp> = Vec::new();
        push_command_data(&mut ops, command, data);
        assert(panel_ops_view(ops@) =~= command_data_ops(command.spec_code(), data@));
        ops
    }

    /// Sends parameter or pixel bytes; nothing when there are none.
    pub fn write_data(&self, data: &[u8]) -> (ops: Vec<PanelOp>)
        ensures
            panel_ops_view(ops@) == data_ops(data@),
    {
        let mut ops: Vec<PanelOp> = Vec::new();
        push_data(&mut ops, data);
        assert(panel_ops_view(ops@) =~= data_ops(data@));
        ops
    }

    /// Draws single RGB565 pixels; those outside the picture are skipped.
    pub fn draw_iter<SE, PE>(&self, pixels: &[ColorPixel]) -> (r: Result<Vec<PanelOp>, Error<SE, PE>>)
        requires
            pixels_addressable(self.spec_config(), pixels@),
        ensures
            r is Err <==> self.spec_config().pixel_format != PixelFormat::Rgb565,
            r matches Err(e) ==> e is UnsupportedPixelFormat,
            r matches Ok(ops) ==> panel_ops_view(ops@) == pixels_ops(self.spec_config(), pixels@, pixels@.len() as int),
    {
        self.panel.draw_iter(pixels)
    }

    /// Fills the part of `area` that lies in the picture with one RGB565 colour.
    pub fn fill_solid<SE, PE>(&self, area: Rect, color: u16) -> (r: Result<Vec<PanelOp>, Error<SE, PE>>)
        requires
            !rect_is_empty(area) ==> rect_fits(area),
            fill_addressable(self.spec_config(), area),
        ensures
            r is Err <==> self.spec_config().pixel_format != PixelFormat::Rgb565,
            r matches Err(e) ==> e is UnsupportedPixelFormat,
            r matches Ok(ops) ==> panel_ops_view(ops@) == fill_ops(self.spec_config(), area, color),
    {
        self.panel.fill_solid(area, color)
    }

    /// Fills the whole picture with one RGB565 colour.
    pub fn clear<SE, PE>(&self, color: u16) -> (r: Result<Vec<PanelOp>, Error<SE, PE>>)
        requires
            fill_addressable(self.spec_config(), panel_bounds(self.spec_config())),
        ensures
            r is Err <==> self.spec_config().pixel_format != PixelFormat::Rgb565,
            r matches Err(e) ==> e is UnsupportedPixelFormat,
            r matches Ok(ops) ==> panel_ops_view(ops@) == fill_ops(self.spec_config(), panel_bounds(self.spec_config()), color),
    {
        let (width, height) = self.size();
        self.fill_solid(Rect { x: 0, y: 0, width: width as u32, height: height as u32 }, color)
    }
}

/// A JD9853 panel on an asynchronous SPI device with a data/command line and an optional
/// reset line. The driver keeps the bus handles and the register state; each
/// operation returns the [`PanelOp`]s to perform, in order.
pub struct Jd9853Async<'a, SPI, DC, RST> {
    spi: SPI,
    dc: DC,
    rst: Option<RST>,
    panel: Panel<'a>,
}

impl<'a, SPI, DC, RST> Jd9853Async<'a, SPI, DC, RST> {
    /// The settings the driver works with.
    pub closed spec fn spec_config(&self) -> Jd9853Config<'a> {
        self.panel.config
    }

    /// The memory access control byte the driver believes the panel holds.
    pub closed spec fn madctl(&self) -> u8 {
        self.panel.madctl.byte()
    }

    /// The pixel format byte the driver believes the panel holds.
    pub closed spec fn colmod(&self) -> u8 {
        self.panel.colmod.byte()
    }

    /// Where an initialisation in progress stands: the next table entry (past
    /// the table, the closing inversion), or none.
    pub closed spec fn init_position(&self) -> Option<int> {
        position_view(self.panel.init_next)
    }

    pub closed spec fn spi(&self) -> SPI {
        self.spi
    }

    pub closed spec fn dc(&self) -> DC {
        self.dc
    }

    pub closed spec fn rst(&self) -> Option<RST> {
        self.rst
    }

    /// Takes the bus handles and the settings; the registers are assumed to be
    /// programmed from the settings' orientation, colour order and pixel format.
    pub fn new(spi: SPI, dc: DC, rst: Option<RST>, config: Jd9853Config<'a>) -> (r: Self)
        ensures
            r.spi() == spi,
            r.dc() == dc,
            r.rst() == rst,
            r.spec_config() == config,
            r.madctl() == orientation_bits(config.orientation) | color_bits(config.color_order),
            r.colmod() == pixel_format_byte(config.pixel_format),
            r.init_position() is None,
    {
        Jd9853Async { spi, dc, rst, panel: Panel::new(config) }
    }

    /// Gives the bus handles back.
    pub fn release(self) -> (r: (SPI, DC, Option<RST>))
        ensures
            r == (self.spi(), self.dc(), self.rst()),
    {
        (self.spi, self.dc, self.rst)
    }

    /// The bus handles, to perform planned operations with.
    pub fn bus(&mut self) -> (r: (&mut SPI, &mut DC, &mut Option<RST>))
        ensures
            *r.0 == old(self).spi(),
            *r.1 == old(self).dc(),
            *r.2 == old(self).rst(),
            final(self).spi() == *final(r.0),
            final(self).dc() == *final(r.1),
            final(self).rst() == *final(r.2),
            final(self).spec_config() == old(self).spec_config(),
            final(self).madctl() == old(self).madctl(),
            final(self).colmod() == old(self).colmod(),
            final(self).init_position() == old(self).init_position(),
    {
        (&mut self.spi, &mut self.dc, &mut self.rst)
    }

    /// The settings the driver works with.
    #[verifier::when_used_as_spec(spec_config)]
    pub fn config(&self) -> (r: Jd9853Config<'a>)
        ensures
            r == self.spec_config(),
    {
        self.panel.config
    }

    /// Width and height of the picture in the current orientation.
    pub fn size(&self) -> (r: (u16, u16))
        ensures
            r == panel_size(self.spec_config()),
    {
        self.panel.size()
    }

    /// Pulses the reset line if there is one, else sends the software reset.
    pub fn reset(&self) -> (ops: Vec<PanelOp>)
        ensures
            panel_ops_view(ops@) == reset_ops(self.spec_config(), self.rst() is Some),
    {
        self.panel.reset(self.rst.is_some())
    }

    /// Starts the initialisation: wakes the panel and programs orientation
    /// and pixel format. The initialisation table and, if asked for, colour
    /// inversion follow step by step through [`Self::init_step`], until it
    /// gives none.
    pub fn init(&mut self) -> (ops: Vec<PanelOp>)
        ensures
            panel_ops_view(ops@) == init_prefix_ops(old(self).madctl(), old(self).colmod()),
            final(self).init_position() == Some(0int),
            final(self).spec_config() == old(self).spec_config(),
            final(self).madctl() == old(self).madctl(),
            final(self).colmod() == old(self).colmod(),
            final(self).spi() == old(self).spi(),
            final(self).dc() == old(self).dc(),
            final(self).rst() == old(self).rst(),
    {
        self.panel.init()
    }

    /// The next step of the initialisation in progress: the next table entry,
    /// whose MADCTL or COLMOD parameter, if any, replaces the register state
    /// as it is planned; after the table, the inversion command if colour
    /// inversion is asked for. None when the initialisation is over (or none
    /// was started).
    pub fn init_step(&mut self) -> (r: Option<Vec<PanelOp>>)
        ensures
            (step_ops_view(r), final(self).init_position(), final(self).madctl(), final(self).colmod()) == init_advance(
                old(self).spec_config(),
                old(self).init_position(),
                old(self).madctl(),
                old(self).colmod(),
            ),
            final(self).spec_config() == old(self).spec_config(),
            final(self).spi() == old(self).spi(),
            final(self).dc() == old(self).dc(),
            final(self).rst() == old(self).rst(),
    {
        self.panel.init_step()
    }

    /// Turns the picture and programs the memory access control register.
    pub fn set_orientation(&mut self, orientation: Orientation) -> (ops: Vec<PanelOp>)
        ensures
            final(self).spec_config() == (Jd9853Config { orientation, ..old(self).spec_config() }),
            final(self).madctl() == orientation_bits(orientation) | color_bits(old(self).spec_config().color_order),
            final(self).colmod() == old(self).colmod(),
            final(self).init_position() == old(self).init_position(),
            panel_ops_view(ops@) == command_data_ops(0x36, seq![final(self).madctl()]),
            final(self).spi() == old(self).spi(),
            final(self).dc() == old(self).dc(),
            final(self).rst() == old(self).rst(),
    {
        self.panel.set_orientation(orientation)
    }

    /// Turns colour inversion on or off.
    pub fn set_invert(&mut self, invert: bool) -> (ops: Vec<PanelOp>)
        ensures
            final(self).spec_config() == (Jd9853Config { invert_colors: invert, ..old(self).spec_config() }),
            final(self).madctl() == old(self).madctl(),
            final(self).colmod() == old(self).colmod(),
            final(self).init_position() == old(self).init_position(),
            panel_ops_view(ops@) == command_ops(if invert { 0x21u8 } else { 0x20u8 }),
            final(self).spi() == old(self).spi(),
            final(self).dc() == old(self).dc(),
            final(self).rst() == old(self).rst(),
    {
        self.panel.set_invert(invert)
    }

    /// Turns the display output on or off.
    pub fn set_display_on(&self, on: bool) -> (ops: Vec<PanelOp>)
        ensures
            panel_ops_view(ops@) == command_ops(if on { 0x29u8 } else { 0x28u8 }),
    {
        self.write_command(if on { Command::DisplayOn } else { Command::DisplayOff })
    }

    /// Selects the window that the next pixel data fills. The window must be
    /// non-empty and lie inside the picture; the panel offsets are added.
    pub fn set_address_window<SE, PE>(&self, x: u16, y: u16, width: u16, height: u16) -> (r: Result<Vec<PanelOp>, Error<SE, PE>>)
        requires
            window_fits(self.spec_config(), x as int, y as int, width as int, height as int) ==> window_addressable(
                self.spec_config(),
                x as int,
                y as int,
                width as int,
                height as int,
            ),
        ensures
            r is Ok <==> window_fits(self.spec_config(), x as int, y as int, width as int, height as int),
            r matches Ok(ops) ==> panel_ops_view(ops@) == window_ops(
                self.spec_config(),
                x as int,
                y as int,
                width as int,
                height as int,
            ),
            r matches Err(e) ==> e is InvalidInput,
    {
        self.panel.set_address_window(x, y, width, height)
    }

    /// Streams pixel bytes into the current window. The bytes must be a
    /// non-empty whole number of pixels.
    pub fn write_pixels<SE, PE>(&self, pixels: &[u8]) -> (r: Result<Vec<PanelOp>, Error<SE, PE>>)
        ensures
            r is Ok <==> (pixels@.len() > 0 && pixels@.len() % (self.spec_config().pixel_format.spec_bytes_per_pixel() as nat) == 0),
            r matches Ok(ops) ==> panel_ops_view(ops@) == command_ops(0x2C) + data_ops(pixels@),
            r matches Err(e) ==> e is InvalidInput,
    {
        self.panel.write_pixels(pixels)
    }

    /// Sends one command byte.
    pub fn write_command(&self, command: Command) -> (ops: Vec<PanelOp>)
        ensures
            panel_ops_view(ops@) == command_ops(command.spec_code()),
    {
        let mut ops: Vec<PanelOp> = Vec::new();
        push_command(&mut ops, command);
        assert(panel_ops_view(ops@) =~= command_ops(command.spec_code()));
        ops
    }

    /// Sends a command and its parameter bytes, if any.
    pub fn write_command_data(&self, command: Command, data: &[u8]) -> (ops: Vec<PanelOp>)
        ensures
            panel_ops_view(ops@) == command_data_ops(command.spec_code(), data@),
    {
        let mut ops: Vec<PanelOp> = Vec::new();
        push_command_data(&mut ops, command, data);
        assert(panel_ops_view(ops@) =~= command_data_ops(command.spec_code(), data@));
        ops
    }

    /// Sends parameter or pixel bytes; nothing when there are none.
    pub fn write_data(&self, data: &[u8]) -> (ops: Vec<PanelOp>)
        ensures
            panel_ops_view(ops@) == data_ops(data@),
    {
        let mut ops: Vec<PanelOp> = Vec::new();
        push_data(&mut ops, data);
        assert(panel_ops_view(ops@) =~= data_ops(data@));
        ops
    }

    /// Draws single RGB565 pixels; those outside the picture are skipped.
    pub fn draw_iter<SE, PE>(&self, pixels: &[ColorPixel]) -> (r: Result<Vec<PanelOp>, Error<SE, PE>>)
        requires
            pixels_addressable(self.spec_config(), pixels@),
        ensures
            r is Err <==> self.spec_config().pixel_format != PixelFormat::Rgb565,
            r matches Err(e) ==> e is UnsupportedPixelFormat,
            r matches Ok(ops) ==> panel_ops_view(ops@) == pixels_ops(self.spec_config(), pixels@, pixels@.len() as int),
    {
        self.panel.draw_iter(pixels)
    }

    /// Fills the part of `area` that lies in the picture with one RGB565 colour.
    pub fn fill_solid<SE, PE>(&self, area: Rect, color: u16) -> (r: Result<Vec<PanelOp>, Error<SE, PE>>)
        requires
            !rect_is_empty(area) ==> rect_fits(area),
            fill_addressable(self.spec_config(), area),
        ensures
            r is Err <==> self.spec_config().pixel_format != PixelFormat::Rgb565,
            r matches Err(e) ==> e is UnsupportedPixelFormat,
            r matches Ok(ops) ==> panel_ops_view(ops@) == fill_ops(self.spec_config(), area, color),
    {
        self.panel.fill_solid(area, color)
    }

    /// Fills the whole picture with one RGB565 colour.
    pub fn clear<SE, PE>(&self, color: u16) -> (r: Result<Vec<PanelOp>, Error<SE, PE>>)
        requires
            fill_addressable(self.spec_config(), panel_bounds(self.spec_config())),
        ensures
            r is Err <==> self.spec_config().pixel_format != PixelFormat::Rgb565,
            r matches Err(e) ==> e is UnsupportedPixelFormat,
            r matches Ok(ops) ==> panel_ops_view(ops@) == fill_ops(self.spec_config(), panel_bounds(self.spec_config()), color),
    {
        let (width, height) = self.size();
        self.fill_solid(Rect { x: 0, y: 0, width: width as u32, height: height as u32 }, color)
    }
}


/// Sum of the byte counts of the writes in a plan.
pub open spec fn bytes_written(ops: Seq<PanelOpView>) -> int
    decreases ops.len(),
{
    if ops.len() == 0 {
        0
    } else {
        bytes_written(ops.drop_last()) + match ops.last() {
            PanelOpView::Write(bytes) => bytes.len() as int,
            _ => 0,
        }
    }
}

/// Reading back the four address bytes gives the start and end address.
pub proof fn law_range_bytes_round_trip(start: u16, end: u16)
    ensures
        range_bytes(start as int, end as int)[0] * 256 + range_bytes(start as int, end as int)[1] == start,
        range_bytes(start as int, end as int)[2] * 256 + range_bytes(start as int, end as int)[3] == end,
{
}

/// The memory access control byte carries the orientation and colour order:
/// the row/column exchange bit is set exactly for the landscape orientations,
/// which are the orientations whose picture size is exchanged, and the BGR bit
/// exactly for BGR order.
pub proof fn law_madctl_reflects_settings(orientation: Orientation, color_order: ColorOrder)
    ensures
        ((orientation_bits(orientation) | color_bits(color_order)) & MADCTL_SWAP_XY != 0)
            == orientation.spec_swaps_axes(),
        ((orientation_bits(orientation) | color_bits(color_order)) & MADCTL_BGR_ORDER != 0)
            == (color_order == ColorOrder::Bgr),
        ((orientation_bits(orientation) | color_bits(color_order)) & MADCTL_MIRROR_X != 0)
            == (orientation is Landscape || orientation is PortraitFlipped),
        ((orientation_bits(orientation) | color_bits(color_order)) & MADCTL_MIRROR_Y != 0)
            == (orientation is PortraitFlipped || orientation is LandscapeFlipped),
{
    let o = orientation_bits(orientation);
    let c = color_bits(color_order);
    assert(o == 0 || o == 0x60 || o == 0xC0 || o == 0xA0);
    assert(c == 0 || c == 0x08);
    assert((o == 0 || o == 0x60 || o == 0xC0 || o == 0xA0) && (c == 0 || c == 0x08) ==> {
        &&& ((o | c) & 0x20 != 0) == (o == 0x60 || o == 0xA0)
        &&& ((o | c) & 0x08 != 0) == (c == 0x08)
        &&& ((o | c) & 0x40 != 0) == (o == 0x60 || o == 0xC0)
        &&& ((o | c) & 0x80 != 0) == (o == 0xC0 || o == 0xA0)
    }) by (bit_vector);
}

/// An accepted address window covers exactly the requested columns and rows,
/// shifted by the panel offsets.
pub proof fn law_window_covers_request(config: Jd9853Config, x: u16, y: u16, width: u16, height: u16)
    requires
        window_fits(config, x as int, y as int, width as int, height as int),
        window_addressable(config, x as int, y as int, width as int, height as int),
    ensures
        ({
            let ops = window_ops(config, x as int, y as int, width as int, height as int);
            &&& ops.len() == 8
            &&& ops[1] == PanelOpView::Write(seq![0x2Au8])
            &&& ops[5] == PanelOpView::Write(seq![0x2Bu8])
            &&& ops[3] matches PanelOpView::Write(columns) && columns.len() == 4
                && columns[0] * 256 + columns[1] == x + config.x_offset
                && (columns[2] * 256 + columns[3]) - (columns[0] * 256 + columns[1]) + 1 == width
            &&& ops[7] matches PanelOpView::Write(rows) && rows.len() == 4
                && rows[0] * 256 + rows[1] == y + config.y_offset
                && (rows[2] * 256 + rows[3]) - (rows[0] * 256 + rows[1]) + 1 == height
        }),
{
    let xs = x + config.x_offset;
    let ys = y + config.y_offset;
    law_range_bytes_round_trip(xs as u16, (xs + width - 1) as u16);
    law_range_bytes_round_trip(ys as u16, (ys + height - 1) as u16);
}

/// Streaming `n` pixels of one colour writes exactly two bytes per pixel.
pub proof fn law_fill_streams_two_bytes_per_pixel(n: nat, color: u16)
    ensures
        bytes_written(fill_stream_ops(n, color)) == 2 * n,
    decreases n,
{
    if n > 0 {
        let chunk: nat = if n < 64 { n } else { 64 };
        let head = data_ops(pixel_run(chunk as int, color));
        let tail = fill_stream_ops((n - chunk) as nat, color);
        law_fill_streams_two_bytes_per_pixel((n - chunk) as nat, color);
        lemma_bytes_written_concat(head, tail);
        assert(fill_stream_ops(n, color) == head + tail);
        reveal_with_fuel(bytes_written, 3);
        assert(head.drop_last() =~= seq![PanelOpView::SetDc(true)]);
        assert(head.drop_last().drop_last() =~= Seq::<PanelOpView>::empty());
    }
}

/// The bytes written by two plans in a row add up.
pub proof fn lemma_bytes_written_concat(a: Seq<PanelOpView>, b: Seq<PanelOpView>)
    ensures
        bytes_written(a + b) == bytes_written(a) + bytes_written(b),
    decreases b.len(),
{
    if b.len() == 0 {
        assert(a + b =~= a);
    } else {
        lemma_bytes_written_concat(a, b.drop_last());
        assert((a + b).drop_last() =~= a + b.drop_last());
    }
}

/// A command writes one byte.
pub proof fn lemma_command_bytes(code: u8)
    ensures
        bytes_written(command_ops(code)) == 1,
{
    reveal_with_fuel(bytes_written, 3);
    assert(command_ops(code).drop_last() =~= seq![PanelOpView::SetDc(false)]);
    assert(command_ops(code).drop_last().drop_last() =~= Seq::<PanelOpView>::empty());
}

/// Parameter bytes are written as they are.
pub proof fn lemma_data_bytes(data: Seq<u8>)
    ensures
        bytes_written(data_ops(data)) == data.len(),
{
    reveal_with_fuel(bytes_written, 3);
    if data.len() > 0 {
        assert(data_ops(data).drop_last() =~= seq![PanelOpView::SetDc(true)]);
        assert(data_ops(data).drop_last().drop_last() =~= Seq::<PanelOpView>::empty());
    }
}

/// The address window commands write ten bytes.
pub proof fn lemma_window_bytes(config: Jd9853Config, x: int, y: int, width: int, height: int)
    ensures
        bytes_written(window_ops(config, x, y, width, height)) == 10,
{
    let xs = x + config.x_offset;
    let ys = y + config.y_offset;
    let c = range_bytes(xs, xs + width - 1);
    let r = range_bytes(ys, ys + height - 1);
    lemma_command_bytes(0x2A);
    lemma_command_bytes(0x2B);
    lemma_data_bytes(c);
    lemma_data_bytes(r);
    lemma_bytes_written_concat(command_ops(0x2A), data_ops(c));
    lemma_bytes_written_concat(command_ops(0x2B), data_ops(r));
    lemma_bytes_written_concat(command_data_ops(0x2A, c), command_data_ops(0x2B, r));
}

/// Filling a rectangle streams two bytes for every pixel of the part of it that
/// lies in the picture, after the window and the memory write command.
pub proof fn law_fill_covers_visible_area(config: Jd9853Config, area: Rect, color: u16)
    ensures
        ({
            let ops = fill_ops(config, area, color);
            rects_overlap(area, panel_bounds(config)) ==> {
                let a = rect_overlap(area, panel_bounds(config));
                bytes_written(ops) == 11 + 2 * (a.width * a.height)
            }
        }),
        !rects_overlap(area, panel_bounds(config)) ==> fill_ops(config, area, color).len() == 0,
{
    if rects_overlap(area, panel_bounds(config)) {
        let a = rect_overlap(area, panel_bounds(config));
        let w = window_ops(config, a.x as int, a.y as int, a.width as int, a.height as int);
        let n = (a.width * a.height) as nat;
        law_fill_streams_two_bytes_per_pixel(n, color);
        lemma_bytes_written_concat(w + command_ops(0x2C), fill_stream_ops(n, color));
        lemma_bytes_written_concat(w, command_ops(0x2C));
        lemma_window_bytes(config, a.x as int, a.y as int, a.width as int, a.height as int);
        lemma_command_bytes(0x2C);
    }
}

/// The shipped initialisation table programs the pixel format 0x05 and leaves
/// the memory access control byte as it was.
pub proof fn law_default_table_register_effects(initial_madctl: u8, initial_colmod: u8, table: Seq<InitCommand>)
    requires
        init_table_view(table) == default_init_table(),
    ensures
        madctl_after(table, table.len() as int, initial_madctl) == initial_madctl,
        colmod_after(table, table.len() as int, initial_colmod) == 0x05,
{
    assert(table.len() == 32) by {
        assert(init_table_view(table).len() == table.len());
    }
    reveal_with_fuel(madctl_after, 33);
    reveal_with_fuel(colmod_after, 33);
    assert forall|i: int| 0 <= i < 32 implies (#[trigger] table[i]).cmd == default_init_table()[i].0
        && table[i].data@ == default_init_table()[i].1 by {
        assert(init_table_view(table)[i] == (table[i].cmd, table[i].data@, table[i].delay_ms));
    }
}

/// Turning the picture to an orientation gives the picture size of that
/// orientation: exchanged for the landscape orientations.
pub proof fn law_orientation_sets_size(config: Jd9853Config, orientation: Orientation)
    ensures
        panel_size(Jd9853Config { orientation, ..config }) == if orientation.spec_swaps_axes() {
            (config.height, config.width)
        } else {
            (config.width, config.height)
        },
{
}

/// Colour inversion chosen with `set_invert` is sent again at the end of every
/// initialisation; without it initialisation sends the same sequence minus the
/// inversion command.
pub proof fn law_inversion_survives_init(config: Jd9853Config, madctl: u8, colmod: u8)
    ensures
        init_ops(Jd9853Config { invert_colors: true, ..config }, madctl, colmod) == init_ops(
            Jd9853Config { invert_colors: false, ..config },
            madctl,
            colmod,
        ) + command_ops(0x21),
        init_ops(Jd9853Config { invert_colors: false, ..config }, madctl, colmod).len() + 2 == init_ops(
            Jd9853Config { invert_colors: true, ..config },
            madctl,
            colmod,
        ).len(),
{
    let on = Jd9853Config { invert_colors: true, ..config };
    let off = Jd9853Config { invert_colors: false, ..config };
    assert(init_ops(off, madctl, colmod) + Seq::<PanelOpView>::empty() =~= init_ops(off, madctl, colmod));
    assert(init_ops(on, madctl, colmod) =~= init_ops(off, madctl, colmod) + command_ops(0x21));
}

/// From table entry `i` on, the steps of an initialisation send the rest of
/// the table and the closing inversion, and leave the registers as the whole
/// table does.
proof fn lemma_init_rest_from(config: Jd9853Config, i: int, madctl: u8, colmod: u8)
    requires
        0 <= i <= config.init_commands@.len(),
    ensures
        ({
            let table = config.init_commands@;
            let n = table.len() as int;
            let rest = init_rest(config, Some(i), madctl_after(table, i, madctl), colmod_after(table, i, colmod));
            &&& init_table_ops(table, i) + rest.0 == init_table_ops(table, n) + if config.invert_colors {
                command_ops(0x21)
            } else {
                Seq::empty()
            }
            &&& rest.1 == madctl_after(table, n, madctl)
            &&& rest.2 == colmod_after(table, n, colmod)
        }),
    decreases config.init_commands@.len() - i,
{
    let table = config.init_commands@;
    let n = table.len() as int;
    let m = madctl_after(table, i, madctl);
    let c = colmod_after(table, i, colmod);
    if i == n {
        let done = init_rest(config, None, m, c);
        assert(done.0 =~= Seq::<PanelOpView>::empty());
        if config.invert_colors {
            assert(init_rest(config, Some(i), m, c).0 =~= command_ops(0x21) + done.0);
            assert(command_ops(0x21) + done.0 =~= command_ops(0x21));
        } else {
            assert(init_rest(config, Some(i), m, c).0 =~= Seq::<PanelOpView>::empty());
        }
        assert(init_table_ops(table, i) + init_rest(config, Some(i), m, c).0 =~= init_table_ops(table, n) + if config.invert_colors {
            command_ops(0x21)
        } else {
            Seq::empty()
        });
    } else {
        lemma_init_rest_from(config, i + 1, madctl, colmod);
        let next = init_rest(config, Some(i + 1), madctl_after(table, i + 1, madctl), colmod_after(table, i + 1, colmod));
        assert(init_rest(config, Some(i), m, c) == (entry_ops(table[i]) + next.0, next.1, next.2));
        assert(init_table_ops(table, i + 1) == init_table_ops(table, i) + entry_ops(table[i]));
        assert(init_table_ops(table, i) + (entry_ops(table[i]) + next.0) =~= (init_table_ops(table, i) + entry_ops(
            table[i],
        )) + next.0);
    }
}

/// Starting an initialisation and taking its steps until none is left sends
/// exactly the initialisation sequence, and leaves the registers as the table
/// sets them.
pub proof fn law_init_procedure_sends_init_ops(config: Jd9853Config, madctl: u8, colmod: u8)
    ensures
        ({
            let rest = init_rest(config, Some(0), madctl, colmod);
            &&& init_prefix_ops(madctl, colmod) + rest.0 == init_ops(config, madctl, colmod)
            &&& rest.1 == madctl_after(config.init_commands@, config.init_commands@.len() as int, madctl)
            &&& rest.2 == colmod_after(config.init_commands@, config.init_commands@.len() as int, colmod)
        }),
{
    let table = config.init_commands@;
    lemma_init_rest_from(config, 0, madctl, colmod);
    assert(init_table_ops(table, 0) =~= Seq::<PanelOpView>::empty());
    let rest = init_rest(config, Some(0), madctl, colmod);
    assert(init_table_ops(table, 0) + rest.0 =~= rest.0);
    assert(init_prefix_ops(madctl, colmod) + rest.0 =~= init_ops(config, madctl, colmod));
}

} // verus!
