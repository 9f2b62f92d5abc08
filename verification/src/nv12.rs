//! Pictures in NV12 and I420: planes with row padding, packed for an encoder or
//! for a texture.
//!
//! NV12 interleaves its two chroma planes and pads its rows. I420 keeps them
//! apart and packs them.

use vstd::prelude::*;

use crate::text;

verus! {

/// One row of a strided plane, filled up with zeros where the plane ends early.
/// A row that starts past the end has nothing.
pub open spec fn stripped_row(data: Seq<u8>, row_bytes: nat, stride: nat, row: nat) -> Seq<u8> {
    let start = row * stride;
    if start < data.len() {
        Seq::new(
            row_bytes,
            |i: int|
                if start + i < data.len() {
                    data[start + i]
                } else {
                    0u8
                },
        )
    } else {
        seq![]
    }
}

/// The rows of a strided plane without their padding.
pub open spec fn stripped(data: Seq<u8>, row_bytes: nat, stride: nat, rows: nat) -> Seq<u8>
    decreases rows,
{
    if rows == 0 {
        seq![]
    } else {
        stripped(data, row_bytes, stride, (rows - 1) as nat) + stripped_row(
            data,
            row_bytes,
            stride,
            (rows - 1) as nat,
        )
    }
}

/// Copies strided pixel rows into a packed buffer without row padding.
///
/// A truncated last row is filled up with zeros.
pub fn strip_stride(data: &[u8], row_bytes: usize, stride: usize, rows: usize) -> (res: Vec<u8>)
    requires
        rows * stride + row_bytes <= usize::MAX,
    ensures
        res@ == stripped(data@, row_bytes as nat, stride as nat, rows as nat),
{
    let mut out: Vec<u8> = Vec::new();
    let mut y: usize = 0;
    while y < rows
        invariant
            y <= rows,
            rows * stride + row_bytes <= usize::MAX,
            out@ == stripped(data@, row_bytes as nat, stride as nat, y as nat),
        decreases rows - y,
    {
        assert(0 <= y * stride <= rows * stride) by (nonlinear_arith)
            requires
                0 <= y <= rows,
                0 <= stride,
        ;
        let start: usize = y * stride;
        if start < data.len() {
            let ghost before = out@;
            let ghost whole = stripped_row(data@, row_bytes as nat, stride as nat, y as nat);
            let mut i: usize = 0;
            while i < row_bytes
                invariant
                    i <= row_bytes,
                    start == y * stride,
                    start < data@.len(),
                    start + row_bytes <= usize::MAX,
                    whole == stripped_row(data@, row_bytes as nat, stride as nat, y as nat),
                    out@ =~= before + whole.take(i as int),
                decreases row_bytes - i,
            {
                let byte: u8 = if start + i < data.len() {
                    data[start + i]
                } else {
                    0
                };
                assert(whole[i as int] == byte);
                out.push(byte);
                i += 1;
            }
            assert(whole.take(row_bytes as int) =~= whole);
        } else {
            assert(out@ =~= out@ + stripped_row(data@, row_bytes as nat, stride as nat, y as nat));
        }
        y += 1;
    }
    out
}

/// The planes of an NV12 picture, packed for upload.
#[derive(Debug, PartialEq, Eq)]
pub struct Nv12Upload {
    pub y: Vec<u8>,
    /// The interleaved chroma plane, two bytes per texel.
    pub uv: Vec<u8>,
    /// Texels per row of the chroma plane.
    pub uv_width: u32,
    /// Rows of the chroma plane.
    pub uv_height: u32,
}

/// Half of a length, rounded up.
pub open spec fn half_up(length: int) -> int {
    (length + 1) / 2
}

/// A plane that is uploaded: as it is where its rows are packed, without its
/// padding where they are not.
pub open spec fn packed(data: Seq<u8>, row_bytes: int, stride: int, rows: int) -> Seq<u8> {
    if stride == row_bytes {
        data
    } else {
        stripped(data, row_bytes as nat, stride as nat, rows as nat)
    }
}

/// Returns a plane as it is uploaded.
fn pack(data: Vec<u8>, row_bytes: u32, stride: u32, rows: u32) -> (res: Vec<u8>)
    requires
        rows * stride + row_bytes <= usize::MAX,
    ensures
        res@ == packed(data@, row_bytes as int, stride as int, rows as int),
{
    if stride == row_bytes {
        data
    } else {
        strip_stride(data.as_slice(), row_bytes as usize, stride as usize, rows as usize)
    }
}

/// Whether a strided plane holds every byte of every row of a picture.
pub open spec fn covers(data: Seq<u8>, row_bytes: int, stride: int, rows: int) -> bool {
    row_bytes == 0 || rows == 0 || data.len() >= (rows - 1) * stride + row_bytes
}

/// A plane that holds every row of a picture strips to exactly those rows.
proof fn lemma_stripped_len(data: Seq<u8>, row_bytes: nat, stride: nat, rows: nat, count: nat)
    requires
        covers(data, row_bytes as int, stride as int, rows as int),
        count <= rows,
    ensures
        stripped(data, row_bytes, stride, count).len() == count * row_bytes,
    decreases count,
{
    if count > 0 {
        let row = (count - 1) as nat;
        lemma_stripped_len(data, row_bytes, stride, rows, row);
        if row_bytes > 0 {
            assert(row * stride <= (rows - 1) * stride) by (nonlinear_arith)
                requires
                    0 <= row <= rows - 1,
                    0 <= stride,
            ;
        }
        assert(count * row_bytes == row * row_bytes + row_bytes) by (nonlinear_arith)
            requires
                count == row + 1,
        ;
    } else {
        assert(count * row_bytes == 0) by (nonlinear_arith)
            requires
                count == 0,
        ;
    }
}

/// A plane that covers a picture is uploaded with a byte for each of its own.
proof fn lemma_packed_len(data: Seq<u8>, row_bytes: int, stride: int, rows: int)
    requires
        covers(data, row_bytes, stride, rows),
        0 <= row_bytes,
        0 <= stride,
        0 <= rows,
    ensures
        packed(data, row_bytes, stride, rows).len() >= row_bytes * rows,
{
    if stride == row_bytes {
        assert(row_bytes == 0 || rows == 0 ==> row_bytes * rows == 0) by (nonlinear_arith);
        assert((rows - 1) * row_bytes + row_bytes == row_bytes * rows) by (nonlinear_arith);
    } else {
        lemma_stripped_len(data, row_bytes as nat, stride as nat, rows as nat, rows as nat);
        assert(rows * row_bytes == row_bytes * rows) by (nonlinear_arith);
    }
}

/// Returns whether a plane holds every row of a picture.
fn holds(data: &Vec<u8>, row_bytes: u32, stride: u32, rows: u32) -> (res: bool)
    requires
        rows * stride + row_bytes <= usize::MAX,
    ensures
        res == covers(data@, row_bytes as int, stride as int, rows as int),
{
    if row_bytes == 0 || rows == 0 {
        return true;
    }
    assert(0 <= (rows - 1) * stride <= rows * stride) by (nonlinear_arith)
        requires
            1 <= rows,
            0 <= stride,
    ;
    let need: usize = (rows as usize - 1) * stride as usize + row_bytes as usize;
    data.len() >= need
}

/// Prepares an NV12 frame from CPU memory for upload, or returns `None` where a
/// plane is shorter than the picture. Strides are in bytes.
///
/// A plane is shorter where it ends before the last byte of the last row; the
/// padding behind that row may be missing.
///
/// GLES2 has no row length. Row padding must be stripped before upload, or it
/// shows up as a green stripe.
pub fn nv12_upload(
    y_data: Vec<u8>,
    y_stride: u32,
    uv_data: Vec<u8>,
    uv_stride: u32,
    width: u32,
    height: u32,
) -> (res: Option<Nv12Upload>)
    requires
        width < u32::MAX,
        height < u32::MAX,
        width * height <= u32::MAX,
        2 * half_up(width as int) * half_up(height as int) <= u32::MAX,
        height * y_stride + width <= usize::MAX,
        half_up(height as int) * uv_stride + 2 * half_up(width as int) <= usize::MAX,
    ensures
        ({
            let uv_row = 2 * half_up(width as int);
            let uv_rows = half_up(height as int);
            &&& res is Some <==> covers(y_data@, width as int, y_stride as int, height as int)
                && covers(uv_data@, uv_row, uv_stride as int, uv_rows)
            &&& res matches Some(upload) ==> {
                &&& upload.y@ == packed(y_data@, width as int, y_stride as int, height as int)
                &&& upload.uv@ == packed(uv_data@, uv_row, uv_stride as int, uv_rows)
                &&& upload.uv_width == half_up(width as int)
                &&& upload.uv_height == uv_rows
                &&& upload.y@.len() >= width * height
                &&& upload.uv@.len() >= uv_row * uv_rows
            }
        }),
{
    let uv_width: u32 = (width + 1) / 2;
    let uv_height: u32 = (height + 1) / 2;
    let row: u32 = uv_width * 2;
    if !holds(&y_data, width, y_stride, height) || !holds(&uv_data, row, uv_stride, uv_height) {
        return None;
    }
    proof {
        lemma_packed_len(y_data@, width as int, y_stride as int, height as int);
        lemma_packed_len(uv_data@, row as int, uv_stride as int, uv_height as int);
    }
    let y = pack(y_data, width, y_stride, height);
    let uv = pack(uv_data, row, uv_stride, uv_height);
    Some(Nv12Upload { y, uv, uv_width, uv_height })
}

/// Returns the width and height at which a picture is shown after a rotation: at
/// 90 or 270 degrees they swap.
pub fn rotated(width: u32, height: u32, degrees: u32) -> (res: (u32, u32))
    ensures
        res == if degrees == 90 || degrees == 270 {
            (height, width)
        } else {
            (width, height)
        },
{
    if degrees == 90 || degrees == 270 {
        (height, width)
    } else {
        (width, height)
    }
}

/// A viewport: its left and lower edge, its width and its height.
#[derive(Debug, Clone, Copy, PartialEq, Eq, Structural)]
pub struct Viewport {
    pub x: i32,
    pub y: i32,
    pub width: i32,
    pub height: i32,
}

/// How a picture fits a surface.
#[derive(Debug, Clone, Copy, PartialEq, Eq, Structural)]
pub enum Fit {
    /// It is wider than the surface, and this high at the surface's width.
    Wider(i32),
    /// It is not, and this wide at the surface's height.
    Taller(i32),
}

/// Returns whether a surface and a picture have an area to fit one into the
/// other.
pub fn has_area(surface_width: i32, surface_height: i32, width: u32, height: u32) -> (res: bool)
    ensures
        res == (surface_width > 0 && surface_height > 0 && width > 0 && height > 0),
{
    surface_width > 0 && surface_height > 0 && width > 0 && height > 0
}

/// Returns the centered viewport of a picture on a surface, with bars above and
/// below or left and right, or the whole surface where either has no area.
pub fn letterbox(surface_width: i32, surface_height: i32, fit: Option<Fit>) -> (res: Viewport)
    requires
        fit matches Some(fit) ==> surface_width > 0 && surface_height > 0 && match fit {
            Fit::Wider(height) => 0 <= height,
            Fit::Taller(width) => 0 <= width,
        },
    ensures
        res == match fit {
            None => Viewport {
                x: 0,
                y: 0,
                width: if surface_width > 1 {
                    surface_width
                } else {
                    1
                },
                height: if surface_height > 1 {
                    surface_height
                } else {
                    1
                },
            },
            Some(Fit::Wider(height)) => Viewport {
                x: 0,
                y: centered(surface_height, height),
                width: surface_width,
                height,
            },
            Some(Fit::Taller(width)) => Viewport {
                x: centered(surface_width, width),
                y: 0,
                width,
                height: surface_height,
            },
        },
{
    match fit {
        None => Viewport {
            x: 0,
            y: 0,
            width: if surface_width > 1 {
                surface_width
            } else {
                1
            },
            height: if surface_height > 1 {
                surface_height
            } else {
                1
            },
        },
        Some(Fit::Wider(height)) => Viewport {
            x: 0,
            y: margin(surface_height, height),
            width: surface_width,
            height,
        },
        Some(Fit::Taller(width)) => Viewport {
            x: margin(surface_width, width),
            y: 0,
            width,
            height: surface_height,
        },
    }
}

/// Half of what a length leaves of another, rounded towards zero.
pub open spec fn centered(whole: i32, length: i32) -> i32 {
    if whole >= length {
        ((whole - length) / 2) as i32
    } else {
        -((length - whole) / 2) as i32
    }
}

/// Returns half of what a length leaves of another, rounded towards zero.
fn margin(whole: i32, length: i32) -> (res: i32)
    requires
        whole > 0,
        length >= 0,
    ensures
        res == centered(whole, length),
{
    if whole >= length {
        (whole - length) / 2
    } else {
        -((length - whole) / 2)
    }
}

/// Why NV12 planes do not make a picture.
#[derive(Debug, Clone, Copy, PartialEq, Eq, Structural)]
pub enum Nv12Error {
    /// A row is narrower than the picture.
    Narrow,
    /// A plane is shorter than the picture.
    Short,
}

/// The planes and strides that a camera hands over.
#[derive(Debug, PartialEq, Eq)]
pub struct Nv12Planes {
    pub y: Vec<u8>,
    pub y_stride: usize,
    pub uv: Vec<u8>,
    pub uv_stride: usize,
}

impl Nv12Planes {
    /// Why the planes do not make a picture of this size, if they do not.
    pub open spec fn problem(self, width: int, height: int) -> Option<Nv12Error> {
        if self.y_stride < width || self.uv_stride < width / 2 * 2 {
            Some(Nv12Error::Narrow)
        } else if self.y@.len() < self.y_stride * height || self.uv@.len() < self.uv_stride * (height
            / 2) {
            Some(Nv12Error::Short)
        } else {
            None
        }
    }

    /// Returns the message for a problem. `size` is the text of the picture's
    /// size.
    pub fn message(&self, problem: Nv12Error, size: &str) -> (res: String)
        ensures
            res@ == match problem {
                Nv12Error::Narrow => "strides "@ + text::decimal(self.y_stride as nat) + "/"@
                    + text::decimal(self.uv_stride as nat) + " are narrower than "@ + size@,
                Nv12Error::Short => "planes are "@ + text::decimal(self.y@.len()) + "/"@
                    + text::decimal(self.uv@.len()) + " bytes, too short for "@ + size@
                    + " at strides "@ + text::decimal(self.y_stride as nat) + "/"@ + text::decimal(
                    self.uv_stride as nat,
                ),
            },
    {
        let y_stride = text::decimal_text(self.y_stride as u64);
        let uv_stride = text::decimal_text(self.uv_stride as u64);
        match problem {
            Nv12Error::Narrow => "strides ".to_owned().concat(y_stride.as_str()).concat(
                "/",
            ).concat(uv_stride.as_str()).concat(" are narrower than ").concat(size),
            Nv12Error::Short => "planes are ".to_owned().concat(
                text::decimal_text(self.y.len() as u64).as_str(),
            ).concat("/").concat(text::decimal_text(self.uv.len() as u64).as_str()).concat(
                " bytes, too short for ",
            ).concat(size).concat(" at strides ").concat(y_stride.as_str()).concat("/").concat(
                uv_stride.as_str(),
            ),
        }
    }

    /// The byte of the packed picture at a place: the luma plane row by row, then
    /// the two chroma planes, then nothing.
    pub open spec fn i420_byte(self, width: int, height: int, i: int) -> u8 {
        let luma = width * height;
        let row = width / 2;
        let chroma = row * (height / 2);
        if i < luma {
            self.y@[(i / width) * self.y_stride + i % width]
        } else if i < luma + chroma {
            self.uv@[((i - luma) / row) * self.uv_stride + 2 * ((i - luma) % row)]
        } else if i < luma + 2 * chroma {
            self.uv@[((i - luma - chroma) / row) * self.uv_stride + 2 * ((i - luma - chroma) % row)
                + 1]
        } else {
            0
        }
    }

    /// Deinterleaves NV12 planes into the packed I420 an encoder wants.
    ///
    /// NV12 rows carry driver padding and the chroma is interleaved, while I420
    /// is tightly packed and planar. `len` is the length of an I420 picture of
    /// this size.
    pub fn to_i420(&self, width: u32, height: u32, len: usize) -> (res: Result<Vec<u8>, Nv12Error>)
        requires
            width > 0,
            self.y_stride * height <= usize::MAX,
            self.uv_stride * (height / 2) <= usize::MAX,
            width * height + 2 * ((width / 2) * (height / 2)) <= len,
        ensures
            match self.problem(width as int, height as int) {
                Some(problem) => res == Err::<Vec<u8>, Nv12Error>(problem),
                None => res is Ok && res->Ok_0@ == Seq::new(
                    len as nat,
                    |i: int| self.i420_byte(width as int, height as int, i),
                ),
            },
    {
        let w: usize = width as usize;
        let h: usize = height as usize;
        let cw: usize = w / 2;
        let ch: usize = h / 2;
        if self.y_stride < w || self.uv_stride < cw * 2 {
            return Err(Nv12Error::Narrow);
        }
        assert(0 <= self.y_stride * h && 0 <= self.uv_stride * ch) by (nonlinear_arith)
            requires
                0 <= self.y_stride,
                0 <= h,
                0 <= self.uv_stride,
                0 <= ch,
        ;
        if self.y.len() < self.y_stride * h || self.uv.len() < self.uv_stride * ch {
            return Err(Nv12Error::Short);
        }
        let ghost whole = Seq::new(
            len as nat,
            |i: int| self.i420_byte(width as int, height as int, i),
        );
        let ghost luma = w * h;
        let ghost chroma = cw * ch;
        assert(0 <= luma && 0 <= chroma) by (nonlinear_arith)
            requires
                luma == w * h,
                chroma == cw * ch,
                0 <= w,
                0 <= h,
                0 <= cw,
                0 <= ch,
        ;
        let y_len: usize = self.y.len();
        let mut data: Vec<u8> = Vec::new();
        let mut row: usize = 0;
        assert(0 * w == 0);
        while row < h
            invariant
                row <= h,
                w == width,
                h == height,
                w > 0,
                luma == w * h,
                luma <= len,
                w <= self.y_stride,
                self.y_stride * h <= self.y@.len(),
                y_len == self.y@.len(),
                whole == Seq::new(
                    len as nat,
                    |i: int| self.i420_byte(width as int, height as int, i),
                ),
                data@ == whole.take(row * w),
                0 <= row * w <= luma,
            decreases h - row,
        {
            proof {
                lemma_rows(row as int, h as int, w as int, self.y_stride as int);
            }
            let start: usize = row * self.y_stride;
            let mut col: usize = 0;
            while col < w
                invariant
                    col <= w,
                    row < h,
                    w == width,
                    h == height,
                    w > 0,
                    start == row * self.y_stride,
                    start + w <= self.y@.len(),
                    y_len == self.y@.len(),
                    luma == w * h,
                    luma <= len,
                    0 <= row * w,
                    row * w + w <= luma,
                    whole == Seq::new(
                        len as nat,
                        |i: int| self.i420_byte(width as int, height as int, i),
                    ),
                    data@ == whole.take(row * w + col),
                decreases w - col,
            {
                let byte: u8 = self.y[start + col];
                proof {
                    lemma_place(row as int, col as int, w as int);
                    assert(whole[row * w + col] == byte);
                    assert(whole.take(row * w + col).push(byte) =~= whole.take(row * w + col + 1));
                }
                data.push(byte);
                col += 1;
            }
            assert((row + 1) * w == row * w + w) by (nonlinear_arith);
            row += 1;
        }
        assert(h * w == luma) by (nonlinear_arith)
            requires
                luma == w * h,
        ;
        assert(0 * chroma == 0 && 1 * chroma == chroma);
        self.push_chroma(&mut data, width, height, len, 0);
        self.push_chroma(&mut data, width, height, len, 1);
        let ghost done = luma + 2 * chroma;
        while data.len() < len
            invariant
                done <= data@.len() <= len,
                w == width,
                h == height,
                luma == w * h,
                chroma == cw * ch,
                cw == w / 2,
                ch == h / 2,
                done == luma + 2 * chroma,
                whole == Seq::new(
                    len as nat,
                    |i: int| self.i420_byte(width as int, height as int, i),
                ),
                data@ == whole.take(data@.len() as int),
            decreases len - data@.len(),
        {
            let ghost so_far = data@.len() as int;
            assert(whole[so_far] == 0u8) by {
                assert((w as int / 2) * (h as int / 2) == chroma);
            }
            assert(whole.take(so_far).push(0u8) =~= whole.take(so_far + 1));
            data.push(0);
        }
        assert(whole.take(len as int) =~= whole);
        Ok(data)
    }

    /// Appends one chroma plane, the first or the second of each pair.
    fn push_chroma(&self, data: &mut Vec<u8>, width: u32, height: u32, len: usize, second: usize)
        requires
            second <= 1,
            width > 0,
            self.uv_stride >= width / 2 * 2,
            self.uv_stride * (height / 2) <= self.uv@.len(),
            width * height + 2 * ((width / 2) * (height / 2)) <= len,
            old(data)@ == Seq::new(
                len as nat,
                |i: int| self.i420_byte(width as int, height as int, i),
            ).take(width * height + second * ((width / 2) * (height / 2))),
        ensures
            final(data)@ == Seq::new(
                len as nat,
                |i: int| self.i420_byte(width as int, height as int, i),
            ).take(width * height + (second + 1) * ((width / 2) * (height / 2))),
    {
        let cw: usize = width as usize / 2;
        let ch: usize = height as usize / 2;
        let len_uv: usize = self.uv.len();
        let ghost whole = Seq::new(
            len as nat,
            |i: int| self.i420_byte(width as int, height as int, i),
        );
        let ghost luma = width * height;
        let ghost chroma = cw * ch;
        let ghost start = luma + second * chroma;
        proof {
            assert(0 <= luma && 0 <= chroma) by (nonlinear_arith)
                requires
                    luma == width * height,
                    chroma == cw * ch,
                    0 <= width,
                    0 <= height,
                    0 <= cw,
                    0 <= ch,
            ;
            assert(second * chroma == if second == 0 {
                0
            } else {
                chroma
            }) by (nonlinear_arith)
                requires
                    second <= 1,
            ;
            assert((second + 1) * chroma == second * chroma + chroma) by (nonlinear_arith);
        }
        let mut row: usize = 0;
        assert(0 * cw == 0);
        while row < ch
            invariant
                row <= ch,
                second <= 1,
                cw == width as int / 2,
                ch == height as int / 2,
                luma == width * height,
                chroma == cw * ch,
                0 <= luma,
                0 <= chroma,
                start == luma + second * chroma,
                second * chroma == if second == 0 {
                    0
                } else {
                    chroma
                },
                luma + 2 * chroma <= len,
                cw * 2 <= self.uv_stride,
                self.uv_stride * ch <= self.uv@.len(),
                len_uv == self.uv@.len(),
                whole == Seq::new(
                    len as nat,
                    |i: int| self.i420_byte(width as int, height as int, i),
                ),
                data@ == whole.take(start + row * cw),
                0 <= row * cw <= chroma,
            decreases ch - row,
        {
            proof {
                lemma_rows(row as int, ch as int, cw as int, self.uv_stride as int);
                lemma_rows(row as int, ch as int, 2 * cw, self.uv_stride as int);
            }
            let from: usize = row * self.uv_stride;
            let mut col: usize = 0;
            while col < cw
                invariant
                    col <= cw,
                    row < ch,
                    second <= 1,
                    cw == width as int / 2,
                    ch == height as int / 2,
                    luma == width * height,
                    chroma == cw * ch,
                    0 <= luma,
                    0 <= chroma,
                    start == luma + second * chroma,
                    second * chroma == if second == 0 {
                        0
                    } else {
                        chroma
                    },
                    luma + 2 * chroma <= len,
                    from == row * self.uv_stride,
                    from + 2 * cw <= self.uv@.len(),
                    len_uv == self.uv@.len(),
                    0 <= row * cw,
                    row * cw + cw <= chroma,
                    whole == Seq::new(
                        len as nat,
                        |i: int| self.i420_byte(width as int, height as int, i),
                    ),
                    data@ == whole.take(start + row * cw + col),
                decreases cw - col,
            {
                let byte: u8 = self.uv[from + 2 * col + second];
                proof {
                    lemma_place(row as int, col as int, cw as int);
                    assert((width as int / 2) * (height as int / 2) == chroma);
                    let i = start + row * cw + col;
                    assert(whole[i] == byte);
                    assert(whole.take(i).push(byte) =~= whole.take(i + 1));
                }
                data.push(byte);
                col += 1;
            }
            assert((row + 1) * cw == row * cw + cw) by (nonlinear_arith);
            row += 1;
        }
        assert(ch * cw == chroma) by (nonlinear_arith)
            requires
                chroma == cw * ch,
        ;
    }
}

/// A row below the last ends within a plane of as many rows.
proof fn lemma_rows(row: int, rows: int, length: int, stride: int)
    requires
        0 <= row < rows,
        0 <= length <= stride,
    ensures
        0 <= row * stride,
        row * stride + length <= stride * rows,
        0 <= row * length,
        row * length + length <= length * rows,
{
    assert(0 <= row * stride && row * stride + stride <= stride * rows) by (nonlinear_arith)
        requires
            0 <= row < rows,
            0 <= stride,
    ;
    assert(0 <= row * length && row * length + length <= length * rows) by (nonlinear_arith)
        requires
            0 <= row < rows,
            0 <= length,
    ;
}

/// A place in a packed plane is found back by its row and column.
proof fn lemma_place(row: int, col: int, width: int)
    requires
        0 <= row,
        0 <= col < width,
    ensures
        (row * width + col) / width == row,
        (row * width + col) % width == col,
{
    assert((row * width + col) / width == row) by (nonlinear_arith)
        requires
            0 <= row,
            0 <= col < width,
    ;
    assert((row * width + col) % width == col) by (nonlinear_arith)
        requires
            0 <= row,
            0 <= col < width,
    ;
}

/// Two chroma planes interleaved, as far as both go.
pub open spec fn interleaved(u: Seq<u8>, v: Seq<u8>) -> Seq<u8> {
    let pairs = if u.len() <= v.len() {
        u.len()
    } else {
        v.len()
    };
    Seq::new(
        2 * pairs,
        |i: int|
            if i % 2 == 0 {
                u[i / 2]
            } else {
                v[i / 2]
            },
    )
}

/// Interleaves I420's separate chroma planes into NV12's single one.
pub fn interleave_chroma(u: &[u8], v: &[u8]) -> (res: Vec<u8>)
    ensures
        res@ == interleaved(u@, v@),
{
    let ghost whole = interleaved(u@, v@);
    let mut chroma: Vec<u8> = Vec::new();
    let mut i: usize = 0;
    while i < u.len() && i < v.len()
        invariant
            i <= u@.len(),
            i <= v@.len(),
            whole == interleaved(u@, v@),
            chroma@ == whole.take(2 * i),
        decreases u@.len() - i,
    {
        assert(whole[2 * i] == u@[i as int] && whole[2 * i + 1] == v@[i as int]);
        chroma.push(u[i]);
        chroma.push(v[i]);
        assert(chroma@ =~= whole.take(2 * (i + 1)));
        i += 1;
    }
    assert(chroma@ =~= whole);
    chroma
}

/// Interleaving two chroma planes of one length loses neither.
pub proof fn law_interleaving_keeps_both_planes(u: Seq<u8>, v: Seq<u8>, i: int)
    requires
        u.len() == v.len(),
        0 <= i < u.len(),
    ensures
        interleaved(u, v).len() == u.len() + v.len(),
        interleaved(u, v)[2 * i] == u[i],
        interleaved(u, v)[2 * i + 1] == v[i],
{
}

/// A plane that is long enough loses nothing but its padding.
pub proof fn law_stripping_keeps_the_picture(
    data: Seq<u8>,
    row_bytes: nat,
    stride: nat,
    rows: nat,
    row: nat,
    column: nat,
)
    requires
        row_bytes <= stride,
        rows > 0,
        (rows - 1) * stride + row_bytes <= data.len(),
        row < rows,
        column < row_bytes,
    ensures
        stripped(data, row_bytes, stride, rows).len() == rows * row_bytes,
        stripped(data, row_bytes, stride, rows)[(row * row_bytes + column) as int] == data[(row
            * stride + column) as int],
    decreases rows,
{
    let last = (rows - 1) as nat;
    let before = stripped(data, row_bytes, stride, last);
    assert(last * stride < data.len());
    let one = stripped_row(data, row_bytes, stride, last);
    assert(rows * row_bytes == last * row_bytes + row_bytes) by (nonlinear_arith)
        requires
            rows == last + 1,
    ;
    if last > 0 {
        assert((last - 1) * stride + row_bytes <= last * stride) by (nonlinear_arith)
            requires
                last > 0,
                row_bytes <= stride,
        ;
        if row < last {
            law_stripping_keeps_the_picture(data, row_bytes, stride, last, row, column);
            assert(row * row_bytes + column < last * row_bytes) by (nonlinear_arith)
                requires
                    row < last,
                    column < row_bytes,
            ;
        } else {
            law_stripping_keeps_the_picture(data, row_bytes, stride, last, 0, column);
        }
    } else {
        assert(before =~= seq![]);
        assert(last * row_bytes == 0 && last * stride == 0) by (nonlinear_arith)
            requires
                last == 0,
        ;
    }
    if row == last {
        assert(row * row_bytes == last * row_bytes);
        assert(one[column as int] == data[(row * stride + column) as int]);
    }
}

/// A picture that is packed for the encoder and interleaved again for a texture
/// keeps its chroma.
pub proof fn law_chroma_survives_both_ways(
    planes: Nv12Planes,
    width: int,
    height: int,
    len: nat,
    row: int,
    column: int,
)
    requires
        width > 0,
        height >= 0,
        width * height + 2 * ((width / 2) * (height / 2)) <= len,
        0 <= row < height / 2,
        0 <= column < width / 2,
    ensures
        ({
            let whole = Seq::new(len, |i: int| planes.i420_byte(width, height, i));
            let luma = width * height;
            let chroma = (width / 2) * (height / 2);
            let back = interleaved(
                whole.subrange(luma, luma + chroma),
                whole.subrange(luma + chroma, luma + 2 * chroma),
            );
            let place = row * (width / 2) + column;
            &&& back[2 * place] == planes.uv@[row * planes.uv_stride + 2 * column]
            &&& back[2 * place + 1] == planes.uv@[row * planes.uv_stride + 2 * column + 1]
        }),
{
    let half = width / 2;
    let luma = width * height;
    let chroma = half * (height / 2);
    let place = row * half + column;
    assert(0 <= luma) by (nonlinear_arith)
        requires
            luma == width * height,
            width > 0,
            height >= 0,
    ;
    lemma_rows(row, height / 2, half, half);
    lemma_place(row, column, half);
    let whole = Seq::new(len, |i: int| planes.i420_byte(width, height, i));
    assert(whole[luma + place] == planes.uv@[row * planes.uv_stride + 2 * column]);
    assert(whole[luma + chroma + place] == planes.uv@[row * planes.uv_stride + 2 * column + 1]);
    law_interleaving_keeps_both_planes(
        whole.subrange(luma, luma + chroma),
        whole.subrange(luma + chroma, luma + 2 * chroma),
        place,
    );
}

/// A packed picture holds the frame's luma plane row by row: each of its pixels
/// is the one at the same row and column of the frame.
pub proof fn law_every_luma_pixel_is_kept(
    planes: Nv12Planes,
    width: int,
    height: int,
    len: nat,
    row: int,
    column: int,
)
    requires
        0 <= row < height,
        0 <= column < width,
        width * height + 2 * ((width / 2) * (height / 2)) <= len,
    ensures
        ({
            let picture = Seq::new(len, |i: int| planes.i420_byte(width, height, i));
            picture[row * width + column] == planes.y@[row * planes.y_stride + column]
        }),
{
    lemma_rows(row, height, width, width);
    lemma_place(row, column, width);
    assert(0 <= (width / 2) * (height / 2)) by (nonlinear_arith)
        requires
            0 < width,
            0 < height,
    ;
}

/// A packed picture holds the two chroma planes behind the luma plane, row by
/// row: the first bytes of the frame's pairs, then the second ones. What is left
/// behind them is empty.
pub proof fn law_every_chroma_sample_is_kept(
    planes: Nv12Planes,
    width: int,
    height: int,
    len: nat,
    row: int,
    column: int,
    behind: int,
)
    requires
        width > 0,
        height >= 0,
        0 <= row < height / 2,
        0 <= column < width / 2,
        width * height + 2 * ((width / 2) * (height / 2)) <= len,
        width * height + 2 * ((width / 2) * (height / 2)) <= behind < len,
    ensures
        ({
            let picture = Seq::new(len, |i: int| planes.i420_byte(width, height, i));
            let luma = width * height;
            let chroma = (width / 2) * (height / 2);
            let pair = row * planes.uv_stride + 2 * column;
            &&& picture[luma + row * (width / 2) + column] == planes.uv@[pair]
            &&& picture[luma + chroma + row * (width / 2) + column] == planes.uv@[pair + 1]
            &&& picture[behind] == 0
        }),
{
    let half = width / 2;
    let luma = width * height;
    assert(0 <= luma) by (nonlinear_arith)
        requires
            luma == width * height,
            width > 0,
            height >= 0,
    ;
    lemma_rows(row, height / 2, half, half);
    lemma_place(row, column, half);
}

/// Planes make a picture exactly where their rows are as wide as it and every
/// row is there: then each pixel is read from inside its plane.
pub proof fn law_planes_that_hold_the_picture_are_taken(
    planes: Nv12Planes,
    width: int,
    height: int,
    row: int,
    column: int,
)
    requires
        width > 0,
        height >= 0,
    ensures
        planes.problem(width, height) is None <==> {
            &&& width <= planes.y_stride
            &&& 2 * (width / 2) <= planes.uv_stride
            &&& planes.y_stride * height <= planes.y@.len()
            &&& planes.uv_stride * (height / 2) <= planes.uv@.len()
        },
        planes.problem(width, height) == Some(Nv12Error::Narrow) <==> width > planes.y_stride || 2
            * (width / 2) > planes.uv_stride,
        planes.problem(width, height) is None && 0 <= row < height && 0 <= column < width ==> row
            * planes.y_stride + column < planes.y@.len(),
        planes.problem(width, height) is None && 0 <= row < height / 2 && 0 <= column < width / 2
            ==> row * planes.uv_stride + 2 * column + 1 < planes.uv@.len(),
{
    if planes.problem(width, height) is None {
        if 0 <= row < height && 0 <= column < width {
            lemma_rows(row, height, width, planes.y_stride as int);
        }
        if 0 <= row < height / 2 && 0 <= column < width / 2 {
            lemma_rows(row, height / 2, 2 * (width / 2), planes.uv_stride as int);
        }
    }
}

/// A plane that is uploaded is the picture's own rows, one behind the other,
/// whether they were padded or not.
pub proof fn law_an_upload_is_the_picture(
    data: Seq<u8>,
    row_bytes: int,
    stride: int,
    rows: int,
    row: int,
    column: int,
)
    requires
        0 < row_bytes <= stride,
        covers(data, row_bytes, stride, rows),
        0 <= row < rows,
        0 <= column < row_bytes,
    ensures
        packed(data, row_bytes, stride, rows)[row * row_bytes + column] == data[row * stride
            + column],
        stride > row_bytes ==> packed(data, row_bytes, stride, rows).len() == rows * row_bytes,
{
    if stride != row_bytes {
        law_stripping_keeps_the_picture(
            data,
            row_bytes as nat,
            stride as nat,
            rows as nat,
            row as nat,
            column as nat,
        );
    }
}

/// A plane covers a picture exactly where the last byte of its last row is there.
pub proof fn law_a_covering_plane_ends_with_the_last_pixel(
    data: Seq<u8>,
    row_bytes: int,
    stride: int,
    rows: int,
)
    requires
        row_bytes > 0,
        rows > 0,
        stride >= 0,
    ensures
        covers(data, row_bytes, stride, rows) <==> (rows - 1) * stride + (row_bytes - 1)
            < data.len(),
        half_up(2 * rows) == rows,
        half_up(2 * rows - 1) == rows,
{
}

/// A picture is centered: the bars on both sides differ by at most a pixel, and
/// with it they fill the surface.
pub proof fn law_a_picture_is_centered(whole: i32, length: i32)
    requires
        whole > 0,
        length >= 0,
    ensures
        ({
            let before = centered(whole, length) as int;
            let after = whole - length - before;
            &&& -1 <= after - before <= 1
            &&& length <= whole ==> before >= 0 && after >= 0
            &&& length >= whole ==> before <= 0 && after <= 0
        }),
{
}

/// A plane that ends early gives its last row filled up with zeros, and no row
/// past its end.
pub proof fn law_a_short_plane_is_filled_up(
    data: Seq<u8>,
    row_bytes: nat,
    stride: nat,
    row: nat,
    column: nat,
)
    requires
        column < row_bytes,
    ensures
        row * stride >= data.len() ==> stripped_row(data, row_bytes, stride, row).len() == 0,
        row * stride < data.len() ==> stripped_row(data, row_bytes, stride, row).len() == row_bytes,
        row * stride + column < data.len() ==> stripped_row(data, row_bytes, stride, row)[
            column as int
        ] == data[(row * stride + column) as int],
        row * stride < data.len() <= row * stride + column ==> stripped_row(
            data,
            row_bytes,
            stride,
            row,
        )[column as int] == 0,
        stripped(data, row_bytes, stride, 0).len() == 0,
        stripped(data, row_bytes, stride, row + 1) == stripped(data, row_bytes, stride, row)
            + stripped_row(data, row_bytes, stride, row),
{
}

} // verus!
