//! QR codes: a text as modules, and modules as pixels.

use vstd::prelude::*;

verus! {

/// Quiet zone around a rendered QR code, in modules.
///
/// The QR standard requires four. Without it, a camera finds the code but
/// cannot read it.
pub const QR_QUIET: usize = 4;

/// Why a text has no QR code.
#[derive(Debug, Clone, Copy, PartialEq, Eq, Structural)]
pub enum QrError {
    /// The text does not fit in the largest version.
    DataTooLong,
    /// The version and the error correction level do not go together.
    InvalidVersion,
    /// The version cannot hold a character of the text.
    UnsupportedCharacterSet,
    /// The ECI designator is out of range.
    InvalidEciDesignator,
    /// A character is outside its character set.
    InvalidCharacter,
}

/// A QR code as modules, `width` by `width`, rows packed.
#[derive(Debug, PartialEq, Eq)]
pub struct QrModules {
    /// Modules per side.
    pub width: usize,
    /// Which modules are dark.
    pub dark: Vec<bool>,
}

/// What `qrcode::QrCode::new` makes of `text`: the modules per side and which
/// of them are dark, or why there is no code.
pub uninterp spec fn qr_code(text: Seq<char>) -> Result<(nat, Seq<bool>), QrError>;

impl QrModules {
    /// Whether there is a module for each place.
    pub open spec fn wf(self) -> bool {
        self.dark@.len() == self.width * self.width
    }

    /// Whether there are as many modules per side as a version of a QR code has.
    pub open spec fn is_sized(self) -> bool {
        21 <= self.width <= 177
    }

    /// Encodes `text` as a QR code.
    ///
    /// Calls `qrcode::QrCode::new`, which picks the smallest version that holds
    /// the UTF-8 bytes of the text at medium error correction, then `width` and
    /// `to_colors`. Which modules are dark is not stated. A version has between
    /// 21 and 177 modules per side, and a color for each.
    #[verifier::external_body]
    pub(crate) fn encode(text: &str) -> (res: Result<QrModules, QrError>)
        ensures
            match res {
                Ok(code) => qr_code(text@) == Ok::<(nat, Seq<bool>), QrError>(
                    (code.width as nat, code.dark@),
                ) && code.wf() && code.is_sized(),
                Err(err) => qr_code(text@) == Err::<(nat, Seq<bool>), QrError>(err),
            },
    {
        let code = qrcode::QrCode::new(text).map_err(|err| match err {
            qrcode::types::QrError::DataTooLong => QrError::DataTooLong,
            qrcode::types::QrError::InvalidVersion => QrError::InvalidVersion,
            qrcode::types::QrError::UnsupportedCharacterSet => QrError::UnsupportedCharacterSet,
            qrcode::types::QrError::InvalidEciDesignator => QrError::InvalidEciDesignator,
            qrcode::types::QrError::InvalidCharacter => QrError::InvalidCharacter,
        })?;
        let colors = code.to_colors();
        let dark = colors.into_iter().map(|color| color == qrcode::Color::Dark).collect();
        Ok(QrModules { width: code.width(), dark })
    }
}

/// A QR code as grayscale pixels, one per module, `side` by `side`, rows packed.
#[derive(Debug, PartialEq, Eq)]
pub struct QrPixels {
    /// Pixels per side.
    pub side: usize,
    /// The pixels, black or white.
    pub gray: Vec<u8>,
}

/// The pixels of a code of `width` modules per side: black for a dark module,
/// white for a light one and for the quiet zone.
pub open spec fn code_pixels(width: nat, dark: Seq<bool>) -> Seq<u8> {
    let side = width as int + 8;
    Seq::new(
        (side * side) as nat,
        |i: int|
            {
                let row = i / side - 4;
                let column = i % side - 4;
                if 0 <= row < width && 0 <= column < width && dark[row * width + column] {
                    0u8
                } else {
                    255u8
                }
            },
    )
}

/// A rendering by its pixels, or why there is none.
pub open spec fn pixels_outcome(res: Result<QrPixels, QrError>) -> Result<
    (nat, Seq<u8>),
    QrError,
> {
    match res {
        Ok(pixels) => Ok((pixels.side as nat, pixels.gray@)),
        Err(err) => Err(err),
    }
}

/// The rendering of a code, or why there is none.
pub open spec fn rendering(code: Result<(nat, Seq<bool>), QrError>) -> Result<
    (nat, Seq<u8>),
    QrError,
> {
    match code {
        Ok((width, dark)) => Ok(((width + 8) as nat, code_pixels(width, dark))),
        Err(err) => Err(err),
    }
}

impl QrPixels {
    /// Renders `text` as a QR code with the standard quiet zone around it.
    ///
    /// Fails if `text` does not fit in the largest QR version.
    pub fn render(text: &str) -> (res: Result<Self, QrError>)
        ensures
            pixels_outcome(res) == rendering(qr_code(text@)),
    {
        match QrModules::encode(text) {
            Ok(code) => {
                assert((code.width + 8) * (code.width + 8) <= 185 * 185) by (nonlinear_arith)
                    requires
                        code.width <= 177,
                ;
                Ok(Self::of(&code))
            },
            Err(err) => Err(err),
        }
    }

    /// Renders the modules of a code with the standard quiet zone around them.
    pub fn of(code: &QrModules) -> (res: Self)
        requires
            code.wf(),
            (code.width + 8) * (code.width + 8) <= usize::MAX,
        ensures
            res.side == code.width + 8,
            res.gray@ == code_pixels(code.width as nat, code.dark@),
    {
        let modules: usize = code.width;
        assert(modules + 8 <= (modules + 8) * (modules + 8)) by (nonlinear_arith);
        let side: usize = modules + 2 * QR_QUIET;
        let ghost want = code_pixels(modules as nat, code.dark@);
        let mut gray: Vec<u8> = Vec::new();
        let mut row: usize = 0;
        while row < side
            invariant
                row <= side,
                code.wf(),
                modules == code.width,
                side == modules + 8,
                (modules + 8) * (modules + 8) <= usize::MAX,
                want == code_pixels(modules as nat, code.dark@),
                gray@.len() == row * side,
                forall|i: int| 0 <= i < gray@.len() ==> #[trigger] gray@[i] == want[i],
            decreases side - row,
        {
            let mut column: usize = 0;
            while column < side
                invariant
                    row < side,
                    column <= side,
                    code.wf(),
                    modules == code.width,
                    side == modules + 8,
                    (modules + 8) * (modules + 8) <= usize::MAX,
                    want == code_pixels(modules as nat, code.dark@),
                    gray@.len() == row * side + column,
                    forall|i: int| 0 <= i < gray@.len() ==> #[trigger] gray@[i] == want[i],
                decreases side - column,
            {
                let inside: bool = row >= QR_QUIET && row < modules + QR_QUIET && column >= QR_QUIET
                    && column < modules + QR_QUIET;
                let ghost at = row * side + column;
                proof {
                    lemma_place(row as int, column as int, side as int);
                }
                let dark: bool = if inside {
                    proof {
                        lemma_place(row - 4, column - 4, modules as int);
                        assert(modules * modules <= (modules + 8) * (modules + 8))
                            by (nonlinear_arith);
                    }
                    code.dark[(row - QR_QUIET) * modules + (column - QR_QUIET)]
                } else {
                    false
                };
                let value: u8 = if dark {
                    0
                } else {
                    255
                };
                gray.push(value);
                assert(want[at] == value);
                column += 1;
            }
            assert((row + 1) * side == row * side + side) by (nonlinear_arith);
            row += 1;
        }
        assert(gray@ =~= want);
        QrPixels { side, gray }
    }
}

/// A row and a column give a place below the square, and are found back from
/// it.
pub proof fn lemma_place(row: int, column: int, side: int)
    requires
        0 <= row < side,
        0 <= column < side,
    ensures
        0 <= row * side,
        0 <= row * side + column < side * side,
        (row * side + column) / side == row,
        (row * side + column) % side == column,
{
    assert(row * side + column < side * side) by (nonlinear_arith)
        requires
            0 <= row < side,
            0 <= column < side,
    ;
    assert(0 <= row * side) by (nonlinear_arith)
        requires
            0 <= row,
            0 <= side,
    ;
    vstd::arithmetic::div_mod::lemma_fundamental_div_mod_converse(
        row * side + column,
        side,
        row,
        column,
    );
}

/// A rendered code keeps a white quiet zone of four modules around it, and
/// inside it shows each dark module black and each light one white.
pub proof fn law_a_code_keeps_its_quiet_zone(
    width: nat,
    dark: Seq<bool>,
    row: int,
    column: int,
)
    requires
        dark.len() == width * width,
        0 <= row < width + 8,
        0 <= column < width + 8,
    ensures
        0 <= row * (width + 8) + column < code_pixels(width, dark).len(),
        code_pixels(width, dark)[row * (width + 8) + column] == if 4 <= row < width + 4 && 4
            <= column < width + 4 && dark[(row - 4) * width + (column - 4)] {
            0u8
        } else {
            255u8
        },
{
    lemma_place(row, column, width as int + 8);
}

/// A code that was made is rendered with its quiet zone, and an error is handed
/// on.
pub proof fn law_a_code_is_rendered_where_there_is_one(
    res: Result<QrPixels, QrError>,
    code: Result<(nat, Seq<bool>), QrError>,
)
    requires
        pixels_outcome(res) == rendering(code),
    ensures
        res is Ok <==> code is Ok,
        res is Ok ==> res->Ok_0.side == code->Ok_0.0 + 8 && res->Ok_0.gray@ == code_pixels(
            code->Ok_0.0,
            code->Ok_0.1,
        ),
        res is Err ==> res->Err_0 == code->Err_0,
{
}

} // verus!
