//! Pictures for the Waveshare 2.13" Touch e-Paper HAT (V4 hardware).
//!
//! # E-paper precautions (from the Waveshare datasheet)
//!
//! - **Full refresh only.** Partial refresh is never used.
//! - **Sleep after refresh.** The display sleeps immediately after every update.
//! - **Minimum 180 s between full refreshes.** The periodic task runs every 12 h.
//! - **Refresh at least once every 24 h.** The periodic task satisfies this.
//! - **Clear before long-term storage.** The display is cleared on exit.
//! - **Re-init after sleep.** Every update starts with the init sequence.

use vstd::prelude::*;

use crate::epd;
use crate::qr::{self, QrError, QrModules};

verus! {

/// A 1-bit framebuffer matching the display dimensions.
///
/// The bits are those of the display: 1 is white, 0 is black, the leftmost
/// pixel of a byte in its highest bit. A row is filled up to whole bytes with
/// six pixels that are never drawn.
#[derive(Debug, PartialEq, Eq)]
pub struct DisplayBuffer {
    buf: Vec<u8>,
}

/// Whether the bit of column `x` in row `y` of some bits is set.
pub open spec fn bit_at(bits: Seq<u8>, x: int, y: int) -> bool {
    bits[y * 16 + x / 8] & (0x80u8 >> ((x % 8) as u8)) != 0
}

proof fn lemma_bits(byte: u8, i: u8, j: u8)
    requires
        i < 8,
        j < 8,
    ensures
        ((byte | (0x80u8 >> i)) & (0x80u8 >> j) != 0) == (i == j || byte & (0x80u8 >> j) != 0),
        ((byte & !(0x80u8 >> i)) & (0x80u8 >> j) != 0) == (i != j && byte & (0x80u8 >> j) != 0),
        0xFFu8 & (0x80u8 >> j) != 0,
{
    assert(((byte | (0x80u8 >> i)) & (0x80u8 >> j) != 0) == (i == j || byte & (0x80u8 >> j) != 0))
        by (bit_vector)
        requires
            i < 8,
            j < 8,
    ;
    assert(((byte & !(0x80u8 >> i)) & (0x80u8 >> j) != 0) == (i != j && byte & (0x80u8 >> j) != 0))
        by (bit_vector)
        requires
            i < 8,
            j < 8,
    ;
    assert(0xFFu8 & (0x80u8 >> j) != 0) by (bit_vector)
        requires
            j < 8,
    ;
}

/// Whether a pixel is on the display.
pub open spec fn on_display(x: int, y: int) -> bool {
    0 <= x < epd::WIDTH && 0 <= y < epd::HEIGHT
}

/// Whether a pixel is on the display or among those that fill its row up.
pub open spec fn in_buffer(x: int, y: int) -> bool {
    0 <= x < 128 && 0 <= y < epd::HEIGHT
}

/// Whether a pixel is inside a rectangle.
pub open spec fn inside(x: int, y: int, left: int, top: int, width: int, height: int) -> bool {
    left <= x < left + width && top <= y < top + height
}

impl DisplayBuffer {
    /// Whether there is a byte for every eight pixels.
    pub closed spec fn wf(self) -> bool {
        self.buf@.len() == epd::BUF_LEN
    }

    /// The bytes that are sent to the display.
    pub closed spec fn bytes(self) -> Seq<u8> {
        self.buf@
    }

    /// Whether a pixel is black.
    pub open spec fn black(self, x: int, y: int) -> bool {
        !bit_at(self.bytes(), x, y)
    }

    /// Creates a white picture.
    pub fn new_white() -> (res: Self)
        ensures
            res.wf(),
            forall|x: int, y: int| in_buffer(x, y) ==> !#[trigger] res.black(x, y),
    {
        let mut buf: Vec<u8> = Vec::new();
        let mut i: usize = 0;
        while i < epd::BUF_LEN
            invariant
                i <= epd::BUF_LEN,
                buf@.len() == i,
                forall|j: int| 0 <= j < i ==> #[trigger] buf@[j] == 0xFF,
            decreases epd::BUF_LEN - i,
        {
            buf.push(0xFF);
            i += 1;
        }
        let res = DisplayBuffer { buf };
        assert forall|x: int, y: int| in_buffer(x, y) implies !#[trigger] res.black(x, y) by {
            lemma_bits(0xFF, 0, (x % 8) as u8);
            assert(res.buf@[y * 16 + x / 8] == 0xFF);
        }
        res
    }

    /// Returns the bytes to send to the display.
    pub fn buffer(&self) -> (res: &[u8])
        requires
            self.wf(),
        ensures
            res@ == self.bytes(),
            res@.len() == epd::BUF_LEN,
    {
        self.buf.as_slice()
    }

    /// Draws one pixel. One that is not on the display is left out.
    pub fn draw_pixel(&mut self, x: u32, y: u32, black: bool)
        requires
            old(self).wf(),
        ensures
            final(self).wf(),
            forall|px: int, py: int|
                in_buffer(px, py) ==> #[trigger] final(self).black(px, py) == if px == x && py == y
                    && on_display(px, py) {
                    black
                } else {
                    old(self).black(px, py)
                },
    {
        if x >= epd::WIDTH || y >= epd::HEIGHT {
            return;
        }
        let at: usize = y as usize * epd::ROW_BYTES + x as usize / 8;
        let place: u8 = (x % 8) as u8;
        let ghost before = self.buf@;
        let byte: u8 = self.buf[at];
        if black {
            self.buf.set(at, byte & !(0x80u8 >> place));
        } else {
            self.buf.set(at, byte | (0x80u8 >> place));
        }
        assert forall|px: int, py: int| in_buffer(px, py) implies #[trigger] self.black(px, py)
            == if px == x && py == y && on_display(px, py) {
            black
        } else {
            old(self).black(px, py)
        } by {
            lemma_bits(byte, place, (px % 8) as u8);
            if py * 16 + px / 8 == at {
                assert(py == y && px / 8 == x / 8);
            }
        }
    }

    /// Fills a rectangle. What is not on the display is left out.
    pub fn fill(&mut self, left: u32, top: u32, width: u32, height: u32, black: bool)
        requires
            old(self).wf(),
            left + width <= u32::MAX,
            top + height <= u32::MAX,
        ensures
            final(self).wf(),
            forall|px: int, py: int|
                in_buffer(px, py) ==> #[trigger] final(self).black(px, py) == if on_display(px, py)
                    && inside(px, py, left as int, top as int, width as int, height as int) {
                    black
                } else {
                    old(self).black(px, py)
                },
    {
        let mut y: u32 = top;
        while y < top + height && y < epd::HEIGHT
            invariant
                left + width <= u32::MAX,
                top + height <= u32::MAX,
                top <= y,
                y <= top + height,
                self.wf(),
                forall|px: int, py: int|
                    in_buffer(px, py) ==> #[trigger] self.black(px, py) == if on_display(px, py)
                        && inside(px, py, left as int, top as int, width as int, y - top) {
                        black
                    } else {
                        old(self).black(px, py)
                    },
            decreases top + height - y,
        {
            let mut x: u32 = left;
            while x < left + width && x < epd::WIDTH
                invariant
                    left + width <= u32::MAX,
                    top + height <= u32::MAX,
                    top <= y < top + height,
                    y < epd::HEIGHT,
                    left <= x <= left + width,
                    self.wf(),
                    forall|px: int, py: int|
                        in_buffer(px, py) ==> #[trigger] self.black(px, py) == if on_display(px, py)
                            && (inside(px, py, left as int, top as int, width as int, y - top) || (
                        py == y && left <= px < x)) {
                            black
                        } else {
                            old(self).black(px, py)
                        },
                decreases left + width - x,
            {
                self.draw_pixel(x, y, black);
                x += 1;
            }
            y += 1;
        }
    }
}

/// What drawing a text with `embedded_graphics` sets: for each row of the
/// display sixteen bytes, with a bit for each pixel that is ink, where the text
/// starts at column `x` with its baseline on row `y`.
pub uninterp spec fn label_bits(text: Seq<char>, x: int, y: int) -> Seq<u8>;

/// Draws a text in the font `FONT_4X6`, starting at column `x` with its baseline
/// on row `y`, and returns the ink as bits.
///
/// Calls `embedded_graphics::text::Text::draw` on a `Framebuffer` of the
/// display's size. What the glyphs look like is not stated. A row of the
/// framebuffer is 16 bytes and there are 250 rows.
#[verifier::external_body]
fn draw_label(text: &str, x: u32, y: u32) -> (res: Vec<u8>)
    requires
        text@.len() <= 1000,
        x <= 1000,
        y <= 1000,
    ensures
        res@ == label_bits(text@, x as int, y as int),
        res@.len() == epd::BUF_LEN,
{
    let font = &embedded_graphics::mono_font::ascii::FONT_4X6;
    let on = embedded_graphics::pixelcolor::BinaryColor::On;
    let style = embedded_graphics::mono_font::MonoTextStyle::new(font, on);
    let at = embedded_graphics::geometry::Point::new(x as i32, y as i32);
    let text = embedded_graphics::text::Text::new(text, at, style);
    let mut target = embedded_graphics::framebuffer::Framebuffer::<
        embedded_graphics::pixelcolor::BinaryColor,
        _,
        embedded_graphics::pixelcolor::raw::BigEndian,
        122,
        250,
        4000,
    >::new();
    let _ = embedded_graphics::Drawable::draw(&text, &mut target);
    target.data().to_vec()
}

/// Where a QR code and its label are drawn.
#[derive(Debug, Clone, Copy, PartialEq, Eq, Structural)]
pub struct QrLayout {
    /// Pixels per module.
    pub scale: u32,
    /// Pixels per side of the code.
    pub side: u32,
    /// The left edge of the code and its label.
    pub left: u32,
    /// The top edge of the code.
    pub top: u32,
}

impl QrLayout {
    /// The row of the label's baseline.
    pub open spec fn label_row(self) -> int {
        self.top + self.side + 8
    }
}

/// The layout of a code of this many modules per side.
pub open spec fn layout_of(modules: int) -> QrLayout {
    let scale = if 112int / modules > 1 {
        112int / modules
    } else {
        1
    };
    let side = modules * scale;
    QrLayout {
        scale: scale as u32,
        side: side as u32,
        left: (if side < 122 {
            (122 - side) / 2
        } else {
            0
        }) as u32,
        top: (if side < 236 {
            (236 - side) / 2
        } else {
            0
        }) as u32,
    }
}

/// Lays out a code of this many modules per side.
///
/// The code is scaled to fit within the narrower display dimension with a
/// margin, and centred above the room for the label. One that does not fit
/// keeps one pixel per module and is cut.
pub fn qr_layout(modules: usize) -> (res: QrLayout)
    requires
        1 <= modules <= 177,
    ensures
        res == layout_of(modules as int),
        1 <= res.scale <= 112,
        res.side == modules * res.scale,
        res.side <= 177,
        res.left <= 60,
        res.top <= 117,
{
    let fit: usize = 112 / modules;
    let scale: usize = if fit > 1 {
        fit
    } else {
        1
    };
    assert(modules * scale <= 177) by (nonlinear_arith)
        requires
            1 <= modules <= 177,
            scale == 1 || scale == 112usize / modules,
    ;
    assert(1 <= modules * scale) by (nonlinear_arith)
        requires
            1 <= modules,
            1 <= scale,
    ;
    assert(scale <= 112) by (nonlinear_arith)
        requires
            scale == 1 || scale == 112usize / modules,
            1 <= modules,
    ;
    let side: usize = modules * scale;
    let left: usize = if side < 122 {
        (122 - side) / 2
    } else {
        0
    };
    let top: usize = if side < 236 {
        (236 - side) / 2
    } else {
        0
    };
    QrLayout { scale: scale as u32, side: side as u32, left: left as u32, top: top as u32 }
}

/// Whether a pixel is inside a dark module of the code.
pub open spec fn in_dark_module(
    width: int,
    dark: Seq<bool>,
    layout: QrLayout,
    x: int,
    y: int,
) -> bool {
    &&& inside(
        x,
        y,
        layout.left as int,
        layout.top as int,
        layout.side as int,
        layout.side as int,
    )
    &&& dark[((y - layout.top) / (layout.scale as int)) * width + (x - layout.left) / (
    layout.scale as int)]
}

/// Whether a pixel of the ticket picture is black: it is inside a dark module,
/// or ink of the label.
pub open spec fn qr_black(width: int, dark: Seq<bool>, label: Seq<u8>, x: int, y: int) -> bool {
    on_display(x, y) && (in_dark_module(width, dark, layout_of(width), x, y) || bit_at(
        label,
        x,
        y,
    ))
}

/// A pixel is in the module whose square it is in.
proof fn lemma_module(offset: int, scale: int, module: int)
    requires
        scale >= 1,
        module >= 0,
    ensures
        (module * scale <= offset < module * scale + scale) == (offset >= 0 && offset / scale
            == module),
{
    if module * scale <= offset < module * scale + scale {
        assert(offset >= 0) by (nonlinear_arith)
            requires
                module * scale <= offset,
                module >= 0,
                scale >= 1,
        ;
        assert(offset / scale == module) by (nonlinear_arith)
            requires
                module * scale <= offset < module * scale + scale,
                scale >= 1,
        ;
    }
    if offset >= 0 && offset / scale == module {
        assert(module * scale <= offset < module * scale + scale) by (nonlinear_arith)
            requires
                offset / scale == module,
                scale >= 1,
        ;
    }
}

/// Draws the dark modules of a code.
fn draw_modules(display: &mut DisplayBuffer, code: &QrModules, layout: QrLayout)
    requires
        old(display).wf(),
        code.wf(),
        code.is_sized(),
        layout == layout_of(code.width as int),
        1 <= layout.scale <= 112,
        layout.side == code.width * layout.scale,
        layout.side <= 177,
        layout.left <= 60,
        layout.top <= 117,
    ensures
        final(display).wf(),
        forall|x: int, y: int|
            in_buffer(x, y) ==> #[trigger] final(display).black(x, y) == (old(display).black(x, y)
                || (on_display(x, y) && in_dark_module(
                code.width as int,
                code.dark@,
                layout,
                x,
                y,
            ))),
{
    let ghost width = code.width as int;
    let ghost scale = layout.scale as int;
    let mut my: usize = 0;
    while my < code.width
        invariant
            my <= code.width,
            width == code.width,
            scale == layout.scale,
            code.wf(),
            code.is_sized(),
            1 <= layout.scale <= 112,
            layout.side == code.width * layout.scale,
            layout.side <= 177,
            layout.left <= 60,
            layout.top <= 117,
            display.wf(),
            forall|x: int, y: int|
                in_buffer(x, y) ==> #[trigger] display.black(x, y) == (old(display).black(x, y) || (
                on_display(x, y) && in_dark_module(width, code.dark@, layout, x, y) && (y
                    - layout.top) / scale < my)),
        decreases code.width - my,
    {
        let mut mx: usize = 0;
        while mx < code.width
            invariant
                mx <= code.width,
                my < code.width,
                width == code.width,
                scale == layout.scale,
                code.wf(),
                code.is_sized(),
                1 <= layout.scale <= 112,
                layout.side == code.width * layout.scale,
                layout.side <= 177,
                layout.left <= 60,
                layout.top <= 117,
                display.wf(),
                forall|x: int, y: int|
                    in_buffer(x, y) ==> #[trigger] display.black(x, y) == (old(display).black(x, y)
                        || (on_display(x, y) && in_dark_module(width, code.dark@, layout, x, y) && (
                    (y - layout.top) / scale < my || ((y - layout.top) / scale == my && (x
                        - layout.left) / scale < mx)))),
            decreases code.width - mx,
        {
            proof {
                qr::lemma_place(my as int, mx as int, width);
                assert(width * width <= 177 * 177) by (nonlinear_arith)
                    requires
                        0 <= width <= 177,
                ;
                assert(mx * scale + scale <= layout.side) by (nonlinear_arith)
                    requires
                        mx + 1 <= width,
                        layout.side == width * scale,
                        scale >= 1,
                ;
                assert(my * scale + scale <= layout.side) by (nonlinear_arith)
                    requires
                        my + 1 <= width,
                        layout.side == width * scale,
                        scale >= 1,
                ;
                assert(0 <= mx * scale && 0 <= my * scale) by (nonlinear_arith)
                    requires
                        mx >= 0,
                        my >= 0,
                        scale >= 1,
                ;
            }
            let ghost before = *display;
            if code.dark[my * code.width + mx] {
                let left: u32 = layout.left + mx as u32 * layout.scale;
                let top: u32 = layout.top + my as u32 * layout.scale;
                display.fill(left, top, layout.scale, layout.scale, true);
            }
            assert forall|x: int, y: int| in_buffer(x, y) implies #[trigger] display.black(x, y)
                == (old(display).black(x, y) || (on_display(x, y) && in_dark_module(
                width,
                code.dark@,
                layout,
                x,
                y,
            ) && ((y - layout.top) / scale < my || ((y - layout.top) / scale == my && (x
                - layout.left) / scale < mx + 1)))) by {
                let _ = before.black(x, y);
                lemma_module(x - layout.left, scale, mx as int);
                lemma_module(y - layout.top, scale, my as int);
            }
            mx += 1;
        }
        assert forall|x: int, y: int| in_buffer(x, y) implies #[trigger] display.black(x, y) == (
        old(display).black(x, y) || (on_display(x, y) && in_dark_module(
            width,
            code.dark@,
            layout,
            x,
            y,
        ) && (y - layout.top) / scale < my + 1)) by {
            if in_dark_module(width, code.dark@, layout, x, y) {
                lemma_in_range(x - layout.left, scale, width);
            }
        }
        my += 1;
    }
    assert forall|x: int, y: int| in_buffer(x, y) implies #[trigger] display.black(x, y) == (old(
        display,
    ).black(x, y) || (on_display(x, y) && in_dark_module(
        width,
        code.dark@,
        layout,
        x,
        y,
    ))) by {
        if in_dark_module(width, code.dark@, layout, x, y) {
            lemma_in_range(y - layout.top, scale, width);
        }
    }
}

/// A pixel inside the code is inside one of its modules.
proof fn lemma_in_range(offset: int, scale: int, width: int)
    requires
        0 <= offset < width * scale,
        scale >= 1,
    ensures
        0 <= offset / scale < width,
{
    assert(0 <= offset / scale < width) by (nonlinear_arith)
        requires
            0 <= offset < width * scale,
            scale >= 1,
    ;
}

/// Draws the ticket picture: the code, and the ink of the label over it.
pub fn qr_picture(code: &QrModules, label: &Vec<u8>) -> (res: DisplayBuffer)
    requires
        code.wf(),
        code.is_sized(),
        label@.len() == epd::BUF_LEN,
    ensures
        res.wf(),
        forall|x: int, y: int|
            in_buffer(x, y) ==> #[trigger] res.black(x, y) == qr_black(
                code.width as int,
                code.dark@,
                label@,
                x,
                y,
            ),
{
    let layout = qr_layout(code.width);
    let mut display = DisplayBuffer::new_white();
    draw_modules(&mut display, code, layout);
    let ghost modules = display;
    let mut y: u32 = 0;
    while y < epd::HEIGHT
        invariant
            y <= epd::HEIGHT,
            label@.len() == epd::BUF_LEN,
            display.wf(),
            forall|px: int, py: int|
                in_buffer(px, py) ==> #[trigger] display.black(px, py) == (modules.black(px, py)
                    || (on_display(px, py) && py < y && bit_at(label@, px, py))),
        decreases epd::HEIGHT - y,
    {
        let mut x: u32 = 0;
        while x < epd::WIDTH
            invariant
                y < epd::HEIGHT,
                x <= epd::WIDTH,
                label@.len() == epd::BUF_LEN,
                display.wf(),
                forall|px: int, py: int|
                    in_buffer(px, py) ==> #[trigger] display.black(px, py) == (modules.black(px, py)
                        || (on_display(px, py) && (py < y || (py == y && px < x)) && bit_at(
                        label@,
                        px,
                        py,
                    ))),
            decreases epd::WIDTH - x,
        {
            let byte: u8 = label[y as usize * epd::ROW_BYTES + x as usize / 8];
            if byte & (0x80u8 >> ((x % 8) as u8)) != 0 {
                display.draw_pixel(x, y, true);
            }
            x += 1;
        }
        y += 1;
    }
    display
}

/// The picture of a code with its label, or why there is none.
pub open spec fn is_picture(
    res: Result<DisplayBuffer, QrError>,
    code: Result<(nat, Seq<bool>), QrError>,
) -> bool {
    match (res, code) {
        (Ok(display), Ok((width, dark))) => {
            let layout = layout_of(width as int);
            let label = label_bits("iroh-live"@, layout.left as int, layout.label_row());
            display.wf() && forall|x: int, y: int|
                in_buffer(x, y) ==> #[trigger] display.black(x, y) == qr_black(
                    width as int,
                    dark,
                    label,
                    x,
                    y,
                )
        },
        (Err(err), Err(why)) => err == why,
        _ => false,
    }
}

/// Generates a QR code from `data` and returns the picture of it to display,
/// with a small label below the code.
pub fn display_qr(data: &str) -> (res: Result<DisplayBuffer, QrError>)
    ensures
        is_picture(res, qr::qr_code(data@)),
{
    proof {
        reveal_strlit("iroh-live");
    }
    let code = match QrModules::encode(data) {
        Ok(code) => code,
        Err(err) => {
            return Err(err);
        },
    };
    let layout = qr_layout(code.width);
    let label = draw_label("iroh-live", layout.left, layout.top + layout.side + 8);
    Ok(qr_picture(&code, &label))
}

/// The side of a square of the test pattern, in pixels.
pub const CELL: u32 = 20;

/// Draws white squares, two cells apart in both directions, from `start` on.
fn white_cells(display: &mut DisplayBuffer, start: u32)
    requires
        old(display).wf(),
        start <= CELL,
    ensures
        final(display).wf(),
        forall|x: int, y: int|
            in_buffer(x, y) ==> #[trigger] final(display).black(x, y) == (old(display).black(x, y)
                && !(on_display(x, y) && x >= start && y >= start && (x - start) % 40 < 20 && (y
                - start) % 40 < 20)),
{
    let mut y: u32 = start;
    while y < epd::HEIGHT
        invariant
            start <= CELL,
            start <= y <= epd::HEIGHT + 40,
            (y - start) % 40 == 0,
            display.wf(),
            forall|px: int, py: int|
                in_buffer(px, py) ==> #[trigger] display.black(px, py) == (old(display).black(
                    px,
                    py,
                ) && !(on_display(px, py) && px >= start && py >= start && py < y && (px - start)
                    % 40 < 20 && (py - start) % 40 < 20)),
        decreases epd::HEIGHT + 40 - y,
    {
        let mut x: u32 = start;
        while x < epd::WIDTH
            invariant
                start <= CELL,
                start <= y < epd::HEIGHT,
                start <= x <= epd::WIDTH + 40,
                (x - start) % 40 == 0,
                (y - start) % 40 == 0,
                display.wf(),
                forall|px: int, py: int|
                    in_buffer(px, py) ==> #[trigger] display.black(px, py) == (old(display).black(
                        px,
                        py,
                    ) && !(on_display(px, py) && px >= start && py >= start && (px - start) % 40
                        < 20 && (py - start) % 40 < 20 && (py < y || (py < y + 40 && px < x)))),
            decreases epd::WIDTH + 40 - x,
        {
            let ghost before = *display;
            display.fill(x, y, CELL, CELL, false);
            assert forall|px: int, py: int| in_buffer(px, py) implies #[trigger] display.black(
                px,
                py,
            ) == (old(display).black(px, py) && !(on_display(px, py) && px >= start && py >= start
                && (px - start) % 40 < 20 && (py - start) % 40 < 20 && (py < y || (py < y + 40 && px
                < x + 40)))) by {
                let _ = before.black(px, py);
            }
            x += CELL * 2;
        }
        y += CELL * 2;
    }
}

/// The even cells start at 0 and every two cells behind it, and the odd ones a
/// cell further on.
proof fn lemma_cell(at: int)
    requires
        0 <= at,
    ensures
        (at % 40 < 20) == ((at / 20) % 2 == 0),
        at < 20 ==> (at / 20) % 2 == 0,
        at >= 20 ==> ((at - 20) % 40 < 20) == ((at / 20) % 2 == 1),
{
}

/// Returns the test pattern: the entire display as a checkerboard, with a white
/// square in the corner.
pub fn display_test_pattern() -> (res: DisplayBuffer)
    ensures
        res.wf(),
        forall|x: int, y: int|
            in_buffer(x, y) ==> #[trigger] res.black(x, y) == (on_display(x, y) && (x / 20) % 2 != (y
                / 20) % 2),
{
    let mut display = DisplayBuffer::new_white();
    display.fill(0, 0, epd::WIDTH, epd::HEIGHT, true);
    let ghost filled = display;
    white_cells(&mut display, 0);
    let ghost once = display;
    white_cells(&mut display, CELL);
    assert forall|x: int, y: int| in_buffer(x, y) implies #[trigger] display.black(x, y) == (
    on_display(x, y) && (x / 20) % 2 != (y / 20) % 2) by {
        let _ = once.black(x, y);
        let _ = filled.black(x, y);
        lemma_cell(x);
        lemma_cell(y);
    }
    display
}

/// A code of up to 112 modules per side is drawn whole, with room around it and
/// for the label, as large as its margin allows.
pub proof fn law_a_code_that_fits_is_drawn_whole(modules: int)
    requires
        1 <= modules <= 112,
    ensures
        ({
            let layout = layout_of(modules);
            &&& layout.side == modules * layout.scale
            &&& layout.side <= 112 < layout.side + modules
            &&& 5 <= layout.left
            &&& layout.left + layout.side <= 117
            &&& layout.label_row() <= 250
        }),
{
    let scale = 112int / modules;
    assert(scale >= 1 && modules * scale <= 112 < modules * scale + modules) by (nonlinear_arith)
        requires
            1 <= modules <= 112,
            scale == 112int / modules,
    ;
    assert(scale <= 112 && modules * 1 == modules) by (nonlinear_arith)
        requires
            1 <= modules,
            scale == 112int / modules,
    ;
    assert(1 <= modules * scale) by (nonlinear_arith)
        requires
            1 <= modules,
            1 <= scale,
    ;
}

/// Rows of sixteen bytes make the picture, and in each byte the leftmost pixel is
/// the highest bit. A set bit is white.
pub proof fn law_a_byte_holds_eight_pixels(bits: Seq<u8>, at: int, bit: int)
    requires
        0 <= at,
        0 <= bit < 8,
    ensures
        bit_at(bits, 8 * (at % 16) + bit, at / 16) == ((bits[at] >> ((7 - bit) as u8)) % 2 == 1),
{
    let x = 8 * (at % 16) + bit;
    assert(x / 8 == at % 16 && x % 8 == bit);
    assert((at / 16) * 16 + at % 16 == at);
    let byte = bits[at];
    let k = bit as u8;
    assert((byte & (0x80u8 >> k) != 0) == ((byte >> ((7 - k) as u8)) % 2 == 1)) by (bit_vector)
        requires
            k < 8,
    ;
}

/// The display has 122 columns and 250 rows, and the buffer six columns more.
pub proof fn law_the_display_is_within_the_buffer(x: int, y: int)
    ensures
        on_display(x, y) <==> 0 <= x <= 121 && 0 <= y <= 249,
        in_buffer(x, y) <==> 0 <= x <= 127 && 0 <= y <= 249,
        on_display(x, y) ==> in_buffer(x, y),
{
}

/// A rectangle of some width and height holds as many columns and rows.
pub proof fn law_a_rectangle_has_its_size(
    x: int,
    y: int,
    left: int,
    top: int,
    width: int,
    height: int,
)
    ensures
        inside(left + x, top + y, left, top, width, height) <==> 0 <= x < width && 0 <= y < height,
{
}

/// The code is as large as fits, in the middle of the display, above its label.
pub proof fn law_a_code_is_centered(modules: int)
    requires
        1 <= modules <= 177,
    ensures
        ({
            let layout = layout_of(modules);
            &&& layout.side == modules * layout.scale
            &&& layout.scale >= 1
            &&& modules > 56 ==> layout.scale == 1
            &&& modules <= 112 ==> modules * layout.scale <= 112 < modules * (layout.scale + 1)
            &&& layout.side <= 122 ==> 0 <= 122 - layout.side - 2 * layout.left <= 1
            &&& layout.side > 122 ==> layout.left == 0
            &&& 0 <= 236 - layout.side - 2 * layout.top <= 1
            &&& layout.label_row() == layout.top + layout.side + 8
        }),
{
    let scale = 112int / modules;
    assert(modules * scale <= 112 < modules * scale + modules) by (nonlinear_arith)
        requires
            modules >= 1,
            scale == 112int / modules,
    ;
    assert(modules > 56 ==> scale <= 1) by (nonlinear_arith)
        requires
            modules >= 1,
            modules * scale <= 112,
    ;
    assert(modules <= 112 ==> scale >= 1) by (nonlinear_arith)
        requires
            modules >= 1,
            112 < modules * scale + modules,
    ;
    assert(modules > 112 ==> scale <= 0) by (nonlinear_arith)
        requires
            modules >= 1,
            modules * scale <= 112,
    ;
    let kept = if scale > 1 {
        scale
    } else {
        1
    };
    assert(modules * 1 == modules);
    assert(modules * (kept + 1) == modules * kept + modules) by (nonlinear_arith);
    assert(1 <= modules * kept <= 177 && kept <= 112) by {
        if scale > 1 {
            assert(modules * scale <= 112);
            assert(scale <= 112) by (nonlinear_arith)
                requires
                    modules >= 1,
                    scale > 1,
                    modules * scale <= 112,
            ;
            assert(modules * scale >= 1) by (nonlinear_arith)
                requires
                    modules >= 1,
                    scale > 1,
            ;
        }
    }
}

/// Each module is a square of its own, as wide as the scale, and outside of the
/// code nothing is dark.
pub proof fn law_each_module_is_a_square(
    width: int,
    dark: Seq<bool>,
    layout: QrLayout,
    row: int,
    column: int,
    dx: int,
    dy: int,
)
    requires
        layout.side == width * layout.scale,
        layout.scale >= 1,
        0 <= row < width,
        0 <= column < width,
        0 <= dx < layout.scale,
        0 <= dy < layout.scale,
    ensures
        in_dark_module(
            width,
            dark,
            layout,
            layout.left + column * layout.scale + dx,
            layout.top + row * layout.scale + dy,
        ) == dark[row * width + column],
        !in_dark_module(width, dark, layout, layout.left - 1 - dx, layout.top + dy),
        !in_dark_module(width, dark, layout, layout.left + dx, layout.top - 1 - dy),
        !in_dark_module(width, dark, layout, layout.left + layout.side + dx, layout.top + dy),
        !in_dark_module(width, dark, layout, layout.left + dx, layout.top + layout.side + dy),
{
    let scale = layout.scale as int;
    lemma_module(column * scale + dx, scale, column);
    lemma_module(row * scale + dy, scale, row);
    assert(0 <= column * scale && column * scale + scale <= width * scale && 0 <= row * scale && row
        * scale + scale <= width * scale) by (nonlinear_arith)
        requires
            0 <= row < width,
            0 <= column < width,
            scale >= 1,
    ;
}

/// On the display a pixel is black where a module is dark or the label is drawn.
/// Outside of it none is.
pub proof fn law_a_picture_is_the_code_and_its_label(
    width: int,
    dark: Seq<bool>,
    label: Seq<u8>,
    x: int,
    y: int,
)
    ensures
        !on_display(x, y) ==> !qr_black(width, dark, label, x, y),
        on_display(x, y) && bit_at(label, x, y) ==> qr_black(width, dark, label, x, y),
        on_display(x, y) && !bit_at(label, x, y) ==> qr_black(width, dark, label, x, y)
            == in_dark_module(width, dark, layout_of(width), x, y),
{
}

/// There is a picture exactly where there is a code, with its label below, and an
/// error is handed on.
pub proof fn law_a_code_that_was_made_is_drawn(
    res: Result<DisplayBuffer, QrError>,
    code: Result<(nat, Seq<bool>), QrError>,
    x: int,
    y: int,
)
    requires
        is_picture(res, code),
        in_buffer(x, y),
    ensures
        res is Ok <==> code is Ok,
        res is Err ==> code is Err && res->Err_0 == code->Err_0,
        res is Ok ==> res->Ok_0.wf() && res->Ok_0.black(x, y) == qr_black(
            code->Ok_0.0 as int,
            code->Ok_0.1,
            label_bits(
                "iroh-live"@,
                layout_of(code->Ok_0.0 as int).left as int,
                layout_of(code->Ok_0.0 as int).top + layout_of(code->Ok_0.0 as int).side + 8,
            ),
            x,
            y,
        ),
{
}

} // verus!
