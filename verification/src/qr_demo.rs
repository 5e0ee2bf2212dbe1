//! Logic of the QR demos: placing a QR symbol on the screen, and accepting the
//! text that a Bluetooth client writes for the symbol.
use vstd::prelude::*;

use embedded_qr::{EccLevel, QrBuilder, Version7};

use crate::geometry::{Point, Rect, trunc_div};

verus! {

pub const SCREEN_WIDTH: i32 = 172;
pub const SCREEN_HEIGHT: i32 = 320;
pub const HEADER_HEIGHT: i32 = 56;
/// Width of the light border around a symbol, in modules.
pub const QUIET_MODULES: i32 = 4;
/// Longest text the demo shows.
pub const QR_TEXT_MAX: usize = 96;
/// The text shown before a client writes one.
pub const DEFAULT_PAYLOAD: &'static str = "hello embassy";

/// Placement of a QR symbol: pixels per module, side of the whole square
/// (quiet border included) and its top-left corner.
#[derive(Debug, Clone, Copy, PartialEq, Eq, Structural)]
pub struct QrLayout {
    pub scale: i32,
    pub side: i32,
    pub origin_x: i32,
    pub origin_y: i32,
}

/// Modules across the symbol with its quiet border.
pub open spec fn full_modules(modules: int) -> int {
    modules + 2 * QUIET_MODULES
}

/// The largest whole number of pixels per module that fits the square in the
/// content area with an 8-pixel border, but at least one.
pub open spec fn layout_scale(modules: int) -> int {
    let full = full_modules(modules);
    let by_width = (SCREEN_WIDTH - 16) / full;
    let by_height = (SCREEN_HEIGHT - HEADER_HEIGHT - 16) / full;
    let fitting = if by_width <= by_height { by_width } else { by_height };
    if fitting >= 1 { fitting } else { 1 }
}

/// The square centred horizontally on the screen and vertically in the content area.
pub open spec fn layout_of(modules: int) -> QrLayout {
    let side = full_modules(modules) * layout_scale(modules);
    QrLayout {
        scale: layout_scale(modules) as i32,
        side: side as i32,
        origin_x: trunc_div(SCREEN_WIDTH - side, 2) as i32,
        origin_y: (HEADER_HEIGHT + trunc_div(SCREEN_HEIGHT - HEADER_HEIGHT - side, 2)) as i32,
    }
}

/// The top-left pixel of module `(x, y)`.
pub open spec fn module_corner(layout: QrLayout, x: int, y: int) -> Point {
    Point {
        x: (layout.origin_x + (x + QUIET_MODULES) * layout.scale) as i32,
        y: (layout.origin_y + (y + QUIET_MODULES) * layout.scale) as i32,
    }
}

/// The widest symbol there is: 177 modules across.
pub const QR_MAX_MODULES: i32 = 177;

/// The square a module covers on the screen.
pub open spec fn module_rect(layout: QrLayout, x: int, y: int) -> Rect {
    let corner = module_corner(layout, x, y);
    Rect { x: corner.x, y: corner.y, width: layout.scale as u32, height: layout.scale as u32 }
}

/// The squares of the dark modules among the first `n` modules of a symbol
/// `modules` wide, taken row by row.
pub open spec fn dark_module_rects(layout: QrLayout, modules: int, dark: Seq<bool>, n: int) -> Seq<Rect>
    decreases n,
{
    if n <= 0 {
        Seq::empty()
    } else if dark[n - 1] {
        dark_module_rects(layout, modules, dark, n - 1).push(module_rect(layout, (n - 1) % modules, (n - 1) / modules))
    } else {
        dark_module_rects(layout, modules, dark, n - 1)
    }
}

/// What drawing a symbol paints: the light square with its quiet border, then
/// the dark modules on it.
#[derive(Debug, Clone, PartialEq, Eq)]
pub struct QrPicture {
    pub background: Rect,
    pub dark_modules: Vec<Rect>,
}

/// The light square of a placed symbol.
pub open spec fn symbol_square(layout: QrLayout) -> Rect {
    Rect { x: layout.origin_x, y: layout.origin_y, width: layout.side as u32, height: layout.side as u32 }
}

/// The measures of a placed symbol of at most 177 modules: a scale of at
/// least one pixel and a square of at most 185 pixels.
proof fn lemma_layout_small(modules: int)
    requires
        0 <= modules <= QR_MAX_MODULES,
    ensures
        1 <= layout_scale(modules),
        layout_scale(modules) * full_modules(modules) <= 185,
        layout_of(modules).side == layout_scale(modules) * full_modules(modules),
        -7 <= layout_of(modules).origin_x <= 86,
        52 <= layout_of(modules).origin_y <= 188,
{
    let full = full_modules(modules);
    let scale = layout_scale(modules);
    if full <= 156 {
        assert(156int / full >= 1 && 156int / full <= 248int / full && full * (156int / full) <= 156) by (nonlinear_arith)
            requires
                0 < full <= 156,
        ;
        assert(scale == 156int / full);
    } else {
        assert(156int / full == 0) by (nonlinear_arith)
            requires
                full > 156,
        ;
        assert(scale == 1);
    }
    assert(scale * full == full * scale) by (nonlinear_arith);
}

/// Lays out a symbol of `modules` modules across, whose module `(x, y)` is dark
/// when `dark[y * modules + x]` is set: the light square and the squares of
/// the dark modules, row by row.
pub fn qr_picture(modules: i32, dark: &[bool]) -> (r: QrPicture)
    requires
        0 <= modules <= QR_MAX_MODULES,
        dark@.len() == modules * modules,
    ensures
        r.background == symbol_square(layout_of(modules as int)),
        r.dark_modules@ == dark_module_rects(layout_of(modules as int), modules as int, dark@, dark@.len() as int),
{
    let layout = qr_layout(modules);
    proof {
        lemma_layout_small(modules as int);
    }
    let background = Rect {
        x: layout.origin_x,
        y: layout.origin_y,
        width: layout.side as u32,
        height: layout.side as u32,
    };
    let m = modules as usize;
    let mut rects: Vec<Rect> = Vec::new();
    let mut k: usize = 0;
    while k < dark.len()
        invariant
            0 <= modules <= QR_MAX_MODULES,
            m == modules,
            dark@.len() == m * m,
            k <= dark@.len(),
            layout == layout_of(modules as int),
            1 <= layout.scale,
            layout.scale * full_modules(modules as int) <= 185,
            -7 <= layout.origin_x <= 86,
            52 <= layout.origin_y <= 188,
            rects@ == dark_module_rects(layout, modules as int, dark@, k as int),
        decreases dark@.len() - k,
    {
        proof {
            assert(m > 0) by (nonlinear_arith)
                requires
                    k < dark@.len(),
                    dark@.len() == m * m,
            ;
            assert(k / m < m && 0 <= k % m < m) by (nonlinear_arith)
                requires
                    m > 0,
                    k < m * m,
            ;
            let x = (k % m) as int;
            let y = (k / m) as int;
            let s = layout.scale as int;
            let f = full_modules(modules as int);
            assert((x + QUIET_MODULES) * s <= 185 && (y + QUIET_MODULES) * s <= 185 && 0 <= (x + QUIET_MODULES) * s
                && 0 <= (y + QUIET_MODULES) * s) by (nonlinear_arith)
                requires
                    0 <= x < m,
                    0 <= y < m,
                    m == modules,
                    f == modules + 8,
                    1 <= s,
                    s * f <= 185,
            ;
        }
        if dark[k] {
            let x = (k % m) as i32;
            let y = (k / m) as i32;
            let corner = module_origin(layout, x, y);
            rects.push(Rect { x: corner.x, y: corner.y, width: layout.scale as u32, height: layout.scale as u32 });
        }
        k = k + 1;
    }
    QrPicture { background, dark_modules: rects }
}

/// Modules across a version 7 symbol, the size the BLE demo draws.
pub const QR_VERSION7_MODULES: i32 = 45;

/// The symbol `embedded-qr` builds for the data at version 7 with error
/// correction level M: its dark modules row by row, or none when the data does
/// not fit.
pub uninterp spec fn qr_version7_m(data: Seq<u8>) -> Option<Seq<bool>>;

/// `QrBuilder::<Version7>::new().with_ecc_level(EccLevel::M).build(data)` of
/// `embedded-qr`, with the matrix read out by its row-major `iter`.
///
/// Claimed of the outside code: the result depends on the data alone; a built
/// symbol has `Version7::WIDTH` (45) modules across, so 2025 modules in all.
/// Which data fit, and which modules are dark, is left to the name.
#[verifier::external_body]
fn encode_qr_version7_m(data: &[u8]) -> (r: Option<Vec<bool>>)
    ensures
        match r {
            Some(modules) => qr_version7_m(data@) == Some(modules@) && modules@.len() == 45 * 45,
            None => qr_version7_m(data@) is None,
        },
{
    match QrBuilder::<Version7>::new().with_ecc_level(EccLevel::M).build(data) {
        Ok(matrix) => Some(matrix.iter().map(|module| module.2).collect()),
        Err(_) => None,
    }
}

/// A byte that a client may leave after its text.
pub open spec fn is_padding(b: u8) -> bool {
    b == 0 || b == 13 || b == 10
}

/// Length of the text without the padding bytes at its end.
pub open spec fn trimmed_len(s: Seq<u8>) -> nat
    decreases s.len(),
{
    if s.len() == 0 {
        0
    } else if is_padding(s.last()) {
        trimmed_len(s.drop_last())
    } else {
        s.len()
    }
}

/// The text without the padding bytes at its end.
pub open spec fn trimmed(s: Seq<u8>) -> Seq<u8> {
    s.subrange(0, trimmed_len(s) as int)
}

/// What happened to a text written by a client.
#[derive(Debug, Clone, Copy, PartialEq, Eq, Structural)]
pub enum PayloadUpdate {
    /// Nothing but padding: ignored.
    Empty,
    /// Longer than [`QR_TEXT_MAX`] bytes: ignored.
    TooLong,
    /// Not UTF-8: ignored.
    NotUtf8,
    /// The same text as shown.
    Unchanged,
    /// A new text, now shown.
    Changed,
}

/// How a written text is judged against the text shown.
pub open spec fn payload_verdict(current: Seq<u8>, incoming: Seq<u8>) -> PayloadUpdate {
    let text = trimmed(incoming);
    if text.len() == 0 {
        PayloadUpdate::Empty
    } else if text.len() > QR_TEXT_MAX {
        PayloadUpdate::TooLong
    } else if !vstd::utf8::valid_utf8(text) {
        PayloadUpdate::NotUtf8
    } else if text == current {
        PayloadUpdate::Unchanged
    } else {
        PayloadUpdate::Changed
    }
}

/// Places a symbol of `modules` modules across.
pub fn qr_layout(modules: i32) -> (r: QrLayout)
    requires
        0 <= modules <= i32::MAX - 2 * QUIET_MODULES,
    ensures
        r == layout_of(modules as int),
{
    let quiet_modules = QUIET_MODULES;
    let full_modules = modules + quiet_modules * 2;
    let available_w = SCREEN_WIDTH - 16;
    let available_h = SCREEN_HEIGHT - HEADER_HEIGHT - 16;
    let by_width = available_w / full_modules;
    let by_height = available_h / full_modules;
    let fitting = if by_width <= by_height { by_width } else { by_height };
    let scale = if fitting >= 1 { fitting } else { 1 };
    assert(full_modules * scale <= i32::MAX) by (nonlinear_arith)
        requires
            full_modules > 0,
            scale >= 1,
            scale == 1 || scale <= 156int / (full_modules as int),
            full_modules <= i32::MAX,
    ;
    let qr_side = full_modules * scale;
    let origin_x = (SCREEN_WIDTH - qr_side) / 2;
    let origin_y = HEADER_HEIGHT + (SCREEN_HEIGHT - HEADER_HEIGHT - qr_side) / 2;
    QrLayout { scale, side: qr_side, origin_x, origin_y }
}

/// The top-left pixel of module `(x, y)` of a placed symbol.
pub fn module_origin(layout: QrLayout, x: i32, y: i32) -> (r: Point)
    requires
        i32::MIN <= x + QUIET_MODULES <= i32::MAX,
        i32::MIN <= y + QUIET_MODULES <= i32::MAX,
        i32::MIN <= (x + QUIET_MODULES) * layout.scale <= i32::MAX,
        i32::MIN <= (y + QUIET_MODULES) * layout.scale <= i32::MAX,
        i32::MIN <= layout.origin_x + (x + QUIET_MODULES) * layout.scale <= i32::MAX,
        i32::MIN <= layout.origin_y + (y + QUIET_MODULES) * layout.scale <= i32::MAX,
    ensures
        r == module_corner(layout, x as int, y as int),
{
    Point {
        x: layout.origin_x + (x + QUIET_MODULES) * layout.scale,
        y: layout.origin_y + (y + QUIET_MODULES) * layout.scale,
    }
}

/// The picture of a text as the BLE demo shows it: a version 7 symbol with
/// error correction level M, or none when the text does not fit in one.
pub fn payload_picture(text: &[u8]) -> (r: Option<QrPicture>)
    ensures
        r is Some <==> qr_version7_m(text@) is Some,
        r matches Some(picture) ==> {
            &&& picture.background == symbol_square(layout_of(QR_VERSION7_MODULES as int))
            &&& picture.dark_modules@ == dark_module_rects(
                layout_of(QR_VERSION7_MODULES as int),
                QR_VERSION7_MODULES as int,
                qr_version7_m(text@)->0,
                45 * 45 as int,
            )
        },
{
    match encode_qr_version7_m(text) {
        Some(modules) => Some(qr_picture(QR_VERSION7_MODULES, modules.as_slice())),
        None => None,
    }
}

/// The text without the padding bytes at its end.
pub fn trim_payload(data: &[u8]) -> (r: &[u8])
    ensures
        r@ == trimmed(data@),
{
    let mut end = data.len();
    assert(data@.subrange(0, end as int) =~= data@);
    while end > 0
        invariant
            end <= data@.len(),
            trimmed_len(data@) == trimmed_len(data@.subrange(0, end as int)),
        ensures
            end <= data@.len(),
            trimmed_len(data@) == trimmed_len(data@.subrange(0, end as int)),
            end == 0 || !is_padding(data@[end - 1]),
        decreases end,
    {
        let b = data[end - 1];
        assert(data@.subrange(0, end as int).drop_last() =~= data@.subrange(0, end - 1));
        if b == 0 || b == 13 || b == 10 {
            end -= 1;
        } else {
            break;
        }
    }
    assert(data@.subrange(0, 0) =~= Seq::<u8>::empty());
    assert(trimmed_len(data@.subrange(0, end as int)) == end);
    vstd::slice::slice_subrange(data, 0, end)
}

/// `core::str::from_utf8` of std.
///
/// Claimed of the outside code: it succeeds exactly when the bytes are
/// well-formed UTF-8, as vstd's `valid_utf8` states it.
#[verifier::external_body]
fn is_utf8(bytes: &[u8]) -> (valid: bool)
    ensures
        valid == vstd::utf8::valid_utf8(bytes@),
{
    core::str::from_utf8(bytes).is_ok()
}

fn bytes_equal(a: &[u8], b: &[u8]) -> (r: bool)
    ensures
        r == (a@ == b@),
{
    if a.len() != b.len() {
        return false;
    }
    let mut i: usize = 0;
    while i < a.len()
        invariant
            a@.len() == b@.len(),
            i <= a@.len(),
            forall|k: int| 0 <= k < i ==> a@[k] == b@[k],
        decreases a@.len() - i,
    {
        if a[i] != b[i] {
            return false;
        }
        i += 1;
    }
    assert(a@ =~= b@);
    true
}

/// The text a QR demo shows.
pub struct QrPayload {
    text: Vec<u8>,
}

impl QrPayload {
    /// The text shown.
    pub closed spec fn spec_text(&self) -> Seq<u8> {
        self.text@
    }

    /// Starts with the given text.
    pub fn new(text: &[u8]) -> (r: Self)
        ensures
            r.spec_text() == text@,
    {
        QrPayload { text: vstd::slice::slice_to_vec(text) }
    }

    /// The text shown.
    pub fn text(&self) -> (r: &[u8])
        ensures
            r@ == self.spec_text(),
    {
        self.text.as_slice()
    }

    /// Takes a text written by a client: padding at its end is dropped, and
    /// the result replaces the text shown when it is non-empty, at most
    /// [`QR_TEXT_MAX`] bytes long and UTF-8.
    pub fn apply(&mut self, incoming: &[u8]) -> (r: PayloadUpdate)
        ensures
            r == payload_verdict(old(self).spec_text(), incoming@),
            final(self).spec_text() == (if r is Changed { trimmed(incoming@) } else { old(self).spec_text() }),
    {
        let text = trim_payload(incoming);
        if text.len() == 0 {
            PayloadUpdate::Empty
        } else if text.len() > QR_TEXT_MAX {
            PayloadUpdate::TooLong
        } else if !is_utf8(text) {
            PayloadUpdate::NotUtf8
        } else if bytes_equal(self.text.as_slice(), text) {
            PayloadUpdate::Unchanged
        } else {
            self.text = vstd::slice::slice_to_vec(text);
            PayloadUpdate::Changed
        }
    }
}


/// The trimmed text is a prefix of the written one, what was cut is all
/// padding, it does not end in padding, and trimming it again changes nothing.
pub proof fn law_trim_payload(s: Seq<u8>)
    ensures
        trimmed_len(s) <= s.len(),
        forall|i: int| trimmed_len(s) <= i < s.len() ==> is_padding(#[trigger] s[i]),
        trimmed_len(s) > 0 ==> !is_padding(s[trimmed_len(s) - 1]),
        trimmed(trimmed(s)) == trimmed(s),
    decreases s.len(),
{
    if s.len() > 0 && is_padding(s.last()) {
        law_trim_payload(s.drop_last());
        assert forall|i: int| trimmed_len(s) <= i < s.len() implies is_padding(#[trigger] s[i]) by {
            if i < s.len() - 1 {
                assert(s.drop_last()[i] == s[i]);
            }
        }
        assert(trimmed(s) == trimmed(s.drop_last())) by {
            assert(s.drop_last().subrange(0, trimmed_len(s) as int) =~= s.subrange(0, trimmed_len(s) as int));
        }
    } else if s.len() > 0 {
        assert(s.subrange(0, s.len() as int) =~= s);
    }
}

/// A symbol small enough to be shown at one pixel per module or more is
/// centred and lies entirely in the content area.
pub proof fn law_symbol_fits_content_area(modules: i32)
    requires
        0 <= modules,
        full_modules(modules as int) <= SCREEN_WIDTH - 16,
    ensures
        layout_of(modules as int).scale >= 1,
        layout_of(modules as int).origin_x >= 0,
        layout_of(modules as int).origin_x + layout_of(modules as int).side <= SCREEN_WIDTH,
        layout_of(modules as int).origin_y >= HEADER_HEIGHT,
        layout_of(modules as int).origin_y + layout_of(modules as int).side <= SCREEN_HEIGHT,
{
    let full = full_modules(modules as int);
    let scale = layout_scale(modules as int);
    assert(156int / full >= 1 && 156int / full <= 248int / full && full * (156int / full) <= 156 && full * (156int / full) >= full) by (nonlinear_arith)
        requires
            0 < full <= 156,
    ;
    assert(scale == 156int / full);
    assert(0 < full * scale <= 156);
}

/// Writing the same text twice changes the shown text at most once: the second
/// time it is reported unchanged.
pub proof fn law_payload_write_idempotent(current: Seq<u8>, incoming: Seq<u8>)
    requires
        payload_verdict(current, incoming) is Changed,
    ensures
        payload_verdict(trimmed(incoming), incoming) is Unchanged,
{
}

/// Every module square of a symbol lies inside its light square, clear of the
/// quiet border.
pub proof fn law_module_inside_quiet_border(modules: int, x: int, y: int)
    requires
        0 <= modules <= QR_MAX_MODULES,
        0 <= x < modules,
        0 <= y < modules,
    ensures
        ({
            let l = layout_of(modules);
            let r = module_rect(l, x, y);
            &&& l.origin_x + QUIET_MODULES * l.scale <= r.x
            &&& r.x + r.width <= l.origin_x + l.side - QUIET_MODULES * l.scale
            &&& l.origin_y + QUIET_MODULES * l.scale <= r.y
            &&& r.y + r.height <= l.origin_y + l.side - QUIET_MODULES * l.scale
        }),
{
    lemma_layout_small(modules);
    let l = layout_of(modules);
    let s = layout_scale(modules);
    let f = full_modules(modules);
    assert(4 * s <= (x + 4) * s && (x + 4) * s + s + 4 * s <= s * f && 4 * s <= (y + 4) * s && (y + 4) * s + s + 4 * s
        <= s * f && 0 <= (x + 4) * s <= 185 && 0 <= (y + 4) * s <= 185) by (nonlinear_arith)
        requires
            0 <= x < modules,
            0 <= y < modules,
            f == modules + 8,
            1 <= s,
            s * f <= 185,
    ;
    assert(l.scale == s && l.side == s * f);
    let r = module_rect(l, x, y);
    assert(r.x == l.origin_x + (x + 4) * s);
    assert(r.y == l.origin_y + (y + 4) * s);
    assert(r.width == s && r.height == s);
}

/// An acceptable text (non-empty once trimmed, at most `QR_TEXT_MAX` bytes,
/// UTF-8) is reported unchanged exactly when its trimmed bytes are the text
/// shown; any other such text is reported changed. Texts of equal length but
/// different bytes are therefore changes.
pub proof fn law_changed_exactly_when_bytes_differ(current: Seq<u8>, incoming: Seq<u8>)
    requires
        trimmed(incoming).len() > 0,
        trimmed(incoming).len() <= QR_TEXT_MAX,
        vstd::utf8::valid_utf8(trimmed(incoming)),
    ensures
        payload_verdict(current, incoming) is Unchanged <==> trimmed(incoming) =~= current,
        payload_verdict(current, incoming) is Changed <==> !(trimmed(incoming) =~= current),
        (trimmed(incoming).len() == current.len() && exists|i: int| 0 <= i < current.len() && trimmed(incoming)[i]
            != current[i]) ==> payload_verdict(current, incoming) is Changed,
{
}

} // verus!
