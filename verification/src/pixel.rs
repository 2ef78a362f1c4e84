//! One LED's cell on the wire: a header byte that carries the marker bits and
//! the brightness code, then blue, green and red.

use crate::bytes::bytes_of_array;
use vstd::prelude::*;

verus! {

/// A colour of the `rgb` crate: three channels that anyone may read.
#[verifier::external_type_specification]
#[verifier::reject_recursive_types(T)]
pub struct ExRgb<T>(rgb::Rgb<T>);

/// The three top bits that open every cell.
pub const LED_STRIP_SPI_FRAME_SK9822_LED_MSB3: u8 = 0xE0;

/// The five low bits of the header byte, which hold the brightness code.
pub const BRIGHTNESS_CODE_MASK: u8 = 0x1F;

/// The largest brightness code a cell can carry.
pub const MAX_BRIGHTNESS_CODE: u8 = 31;

/// The brightness, in percent, of a pixel that was given none.
pub const DEFAULT_BRIGHTNESS: u8 = 10;

/// The five-bit code that stands for a brightness given in percent.
///
/// Zero percent or less is dark, one to eight percent is the dimmest step, a
/// hundred percent or more is the brightest, and from nine to ninety-nine the
/// code is a third of what the request has above seven, rounded down.
pub open spec fn brightness_code(percent: int) -> int {
    if percent <= 0 {
        0
    } else if percent <= 8 {
        1
    } else if percent < 100 {
        (percent - 7) / 3
    } else {
        31
    }
}

/// The header byte of a cell: marker bits over the brightness code.
pub open spec fn header_byte(percent: int) -> u8 {
    LED_STRIP_SPI_FRAME_SK9822_LED_MSB3 | (brightness_code(percent) as u8)
}

/// The four bytes that a colour and a brightness become on the wire.
pub open spec fn encode(r: u8, g: u8, b: u8, percent: int) -> Seq<u8> {
    seq![header_byte(percent), b, g, r]
}

/// Whether four bytes are a cell that a chain accepts: the marker bits are
/// set. The five bits below them are then the brightness code.
pub open spec fn is_cell(bytes: Seq<u8>) -> bool {
    &&& bytes.len() == 4
    &&& bytes[0] & LED_STRIP_SPI_FRAME_SK9822_LED_MSB3 == LED_STRIP_SPI_FRAME_SK9822_LED_MSB3
}

/// The cell of a pixel that nobody has set yet: black, at the default
/// brightness.
pub open spec fn default_cell() -> Seq<u8> {
    encode(0, 0, 0, DEFAULT_BRIGHTNESS as int)
}

/// The default cell is black at the dimmest step.
pub proof fn lemma_default_cell()
    ensures
        default_cell() == seq![0xE1u8, 0, 0, 0],
{
    lemma_header_byte(DEFAULT_BRIGHTNESS as int);
    assert(default_cell() =~= seq![0xE1u8, 0, 0, 0]);
}

/// The brightness code never leaves the five bits it has.
pub proof fn lemma_code_in_range(percent: int)
    ensures
        0 <= brightness_code(percent) <= 31,
{
}

/// A brighter request never gives a smaller code, with one exception: nine
/// percent falls to code zero, below the dimmest step that one to eight
/// percent get.
pub proof fn lemma_code_monotonic(lower: int, higher: int)
    requires
        lower <= higher,
        !(0 < lower <= 8 && higher == 9),
    ensures
        brightness_code(lower) <= brightness_code(higher),
{
    if 8 < lower && lower < 100 {
        assert((lower - 7) / 3 <= 30) by (nonlinear_arith)
            requires
                lower < 100,
        ;
        if higher < 100 {
            assert((lower - 7) / 3 <= (higher - 7) / 3) by (nonlinear_arith)
                requires
                    lower <= higher,
            ;
        }
    } else if 8 < higher && higher < 100 {
        assert((higher - 7) / 3 >= 0) by (nonlinear_arith)
            requires
                higher > 8,
        ;
        if 0 < lower {
            assert((higher - 7) / 3 >= 1) by (nonlinear_arith)
                requires
                    higher > 9,
            ;
        }
    }
}

/// The header byte holds the marker in its top three bits and the brightness
/// code, unchanged, in the five bits below.
pub proof fn lemma_header_byte(percent: int)
    ensures
        header_byte(percent) & LED_STRIP_SPI_FRAME_SK9822_LED_MSB3
            == LED_STRIP_SPI_FRAME_SK9822_LED_MSB3,
        (header_byte(percent) & BRIGHTNESS_CODE_MASK) as int == brightness_code(percent),
        header_byte(percent) as int == 0xE0 + brightness_code(percent),
{
    let code = brightness_code(percent) as u8;
    assert(code <= 31 ==> (0xE0u8 | code) & 0xE0u8 == 0xE0u8) by (bit_vector);
    assert(code <= 31 ==> (0xE0u8 | code) & 0x1Fu8 == code) by (bit_vector);
    assert(code <= 31 ==> (0xE0u8 | code) == 0xE0u8 + code) by (bit_vector);
}

/// Every encoded colour is a cell.
pub proof fn lemma_encode_is_cell(r: u8, g: u8, b: u8, percent: int)
    ensures
        is_cell(encode(r, g, b, percent)),
{
    lemma_header_byte(percent);
}

/// One LED's colour and brightness, held as the cell that goes on the wire.
#[derive(Clone, Copy, Debug)]
pub struct Pixel {
    cell: [u8; 4],
}

impl View for Pixel {
    type V = Seq<u8>;

    closed spec fn view(&self) -> Seq<u8> {
        self.cell@
    }
}

impl Pixel {
    /// A pixel is well formed when its bytes are a cell.
    pub open spec fn wf(&self) -> bool {
        is_cell(self@)
    }

    /// The pixel that holds the cell of a colour and a brightness.
    pub closed spec fn encoded(r: u8, g: u8, b: u8, percent: int) -> Pixel {
        Pixel { cell: [header_byte(percent), b, g, r] }
    }

    /// The pixel of a colour and a brightness holds exactly their cell.
    pub proof fn lemma_encoded(r: u8, g: u8, b: u8, percent: int)
        ensures
            Pixel::encoded(r, g, b, percent)@ == encode(r, g, b, percent),
            Pixel::encoded(r, g, b, percent).wf(),
    {
        lemma_header_byte(percent);
        assert(Pixel::encoded(r, g, b, percent)@ =~= encode(r, g, b, percent));
    }

    /// Two pixels with the same cell are the same pixel.
    pub proof fn lemma_same_cell(self, other: Pixel)
        requires
            self@ == other@,
        ensures
            self == other,
    {
        assert(self.cell =~= other.cell);
    }

    /// Encodes a colour and a brightness in percent. A brightness above a
    /// hundred counts as a hundred.
    pub fn new(r: u8, g: u8, b: u8, brightness: u8) -> (pixel: Pixel)
        ensures
            pixel == Pixel::encoded(r, g, b, brightness as int),
            pixel@ == encode(r, g, b, brightness as int),
            pixel.wf(),
    {
        let code: u8 = if brightness >= 100 {
            MAX_BRIGHTNESS_CODE
        } else if brightness > 8 {
            (brightness - 7) / 3
        } else if brightness > 0 {
            1
        } else {
            0
        };
        proof {
            lemma_header_byte(brightness as int);
            assert(code <= 31 ==> code & 0x1Fu8 == code) by (bit_vector);
        }
        let header: u8 = LED_STRIP_SPI_FRAME_SK9822_LED_MSB3 | (code & BRIGHTNESS_CODE_MASK);
        let pixel = Pixel { cell: [header, b, g, r] };
        assert(pixel@ =~= encode(r, g, b, brightness as int));
        proof {
            Pixel::lemma_encoded(r, g, b, brightness as int);
            pixel.lemma_same_cell(Pixel::encoded(r, g, b, brightness as int));
        }
        pixel
    }

    /// The cell, as the four bytes that go on the wire.
    pub fn as_bytes(&self) -> (bytes: &[u8])
        ensures
            bytes@ == self@,
    {
        bytes_of_array(&self.cell)
    }
}

impl Default for Pixel {
    /// Black, at the default brightness.
    fn default() -> (pixel: Pixel)
        ensures
            pixel == Pixel::encoded(0, 0, 0, DEFAULT_BRIGHTNESS as int),
            pixel@ == default_cell(),
            pixel.wf(),
    {
        Pixel::new(0, 0, 0, DEFAULT_BRIGHTNESS)
    }
}

impl From<rgb::RGB8> for Pixel {
    /// The colour, at the default brightness.
    fn from(rgb: rgb::RGB8) -> (pixel: Pixel) {
        Pixel::new(rgb.r, rgb.g, rgb.b, DEFAULT_BRIGHTNESS)
    }
}

impl vstd::std_specs::convert::FromSpecImpl<rgb::RGB8> for Pixel {
    open spec fn obeys_from_spec() -> bool {
        true
    }

    open spec fn from_spec(rgb: rgb::RGB8) -> Pixel {
        Pixel::encoded(rgb.r, rgb.g, rgb.b, DEFAULT_BRIGHTNESS as int)
    }
}

} // verus!
