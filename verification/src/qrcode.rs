//! QR codes: encoding through the `qrcodegen` crate, with the resulting
//! pixel grid held as plain values.

use vstd::prelude::*;
use vstd::string::StringSliceAdditionalSpecFns;

verus! {

/// An error in building a QR code.
#[derive(Debug, Clone, Copy, PartialEq, Eq, Structural)]
pub enum QrCodeError {
    /// The given data is too long to fit in a QR code; carries its length.
    DataTooLong(usize),
}

#[verifier::external_type_specification]
#[verifier::external_body]
pub struct ExQrCode(qrcodegen::QrCode);

#[verifier::external_type_specification]
#[verifier::external_body]
pub struct ExQrCodeEcc(qrcodegen::QrCodeEcc);

#[verifier::external_type_specification]
#[verifier::external_body]
pub struct ExDataTooLong(qrcodegen::DataTooLong);

/// The side length of an encoded QR code.
pub uninterp spec fn qr_side(q: qrcodegen::QrCode) -> int;

/// The modules (pixels) of an encoded QR code, row-major.
pub uninterp spec fn qr_modules(q: qrcodegen::QrCode) -> Seq<bool>;

/// The side length of the QR code that encodes this text at low error
/// correction.
pub uninterp spec fn qr_side_of_str(s: Seq<char>) -> int;

/// The modules of the QR code that encodes this text at low error
/// correction, row-major.
pub uninterp spec fn qr_pixels_of_str(s: Seq<char>) -> Seq<bool>;

/// The side length of the QR code that encodes these bytes at low error
/// correction.
pub uninterp spec fn qr_side_of_data(d: Seq<u8>) -> int;

/// The modules of the QR code that encodes these bytes at low error
/// correction, row-major.
pub uninterp spec fn qr_pixels_of_data(d: Seq<u8>) -> Seq<bool>;

/// Relies on qrcodegen::QrCode::size: the side length, in 21..=177, with
/// one module per cell of the square.
pub assume_specification[ qrcodegen::QrCode::size ](q: &qrcodegen::QrCode) -> (r: i32)
    ensures
        r == qr_side(*q),
        21 <= r <= 177,
        qr_modules(*q).len() == r * r,
;

/// Relies on qrcodegen::QrCode::get_module: the module at (x, y), and
/// light (false) outside the square.
pub assume_specification[ qrcodegen::QrCode::get_module ](
    q: &qrcodegen::QrCode,
    x: i32,
    y: i32,
) -> (r: bool)
    ensures
        0 <= x < qr_side(*q) && 0 <= y < qr_side(*q) ==> r == qr_modules(*q)[y * qr_side(*q) + x],
        !(0 <= x < qr_side(*q) && 0 <= y < qr_side(*q)) ==> r == false,
;

/// Relies on qrcodegen::QrCode::encode_text at low error correction: the
/// result is a function of the text alone, and encoding is guaranteed to
/// succeed for up to 738 code points.
#[verifier::external_body]
fn qr_encode_text(s: &str) -> (r: Result<qrcodegen::QrCode, qrcodegen::DataTooLong>)
    ensures
        r matches Ok(q) ==> {
            &&& qr_side(q) == qr_side_of_str(s@)
            &&& qr_modules(q) == qr_pixels_of_str(s@)
        },
        s@.len() <= 738 ==> r is Ok,
{
    qrcodegen::QrCode::encode_text(s, qrcodegen::QrCodeEcc::Low)
}

/// Relies on qrcodegen::QrCode::encode_binary at low error correction:
/// the result is a function of the bytes alone, and encoding is
/// guaranteed to succeed for up to 2953 bytes.
#[verifier::external_body]
fn qr_encode_binary(data: &[u8]) -> (r: Result<qrcodegen::QrCode, qrcodegen::DataTooLong>)
    ensures
        r matches Ok(q) ==> {
            &&& qr_side(q) == qr_side_of_data(data@)
            &&& qr_modules(q) == qr_pixels_of_data(data@)
        },
        data@.len() <= 2953 ==> r is Ok,
{
    qrcodegen::QrCode::encode_binary(data, qrcodegen::QrCodeEcc::Low)
}

/// A QR code as a plain pixel grid. QR codes are strictly squares; `true`
/// is a dark pixel.
#[derive(Debug, Clone, PartialEq, Eq)]
pub struct QrGrid {
    pub side: usize,
    pub pixels: Vec<bool>,
}

impl QrGrid {
    /// A well-formed grid: a square of the side length, which is one a QR
    /// code can have.
    pub open spec fn wf(self) -> bool {
        &&& 21 <= self.side <= 177
        &&& self.pixels@.len() == self.side * self.side
    }

    /// The side length of the square.
    pub fn side_length(&self) -> (r: usize)
        ensures
            r == self.side,
    {
        self.side
    }

    /// The pixel at (x, y), if it is within the square.
    pub fn pixel(&self, x: usize, y: usize) -> (r: Option<bool>)
        requires
            self.wf(),
        ensures
            x < self.side && y < self.side ==> r == Some(self.pixels@[y * self.side + x]),
            !(x < self.side && y < self.side) ==> r is None,
    {
        if x < self.side && y < self.side {
            proof {
                assert(y * self.side + x < self.side * self.side) by (nonlinear_arith)
                    requires
                        x < self.side,
                        y < self.side,
                ;
                assert(y * self.side + x < 177 * 177) by (nonlinear_arith)
                    requires
                        x < self.side,
                        y < self.side,
                        self.side <= 177,
                ;
            }
            Some(self.pixels[y * self.side + x])
        } else {
            None
        }
    }

    /// The pixel at (x, y), or light when out of bounds.
    pub fn pixel_or_false(&self, x: usize, y: usize) -> (r: bool)
        requires
            self.wf(),
        ensures
            x < self.side && y < self.side ==> r == self.pixels@[y * self.side + x],
            !(x < self.side && y < self.side) ==> r == false,
    {
        match self.pixel(x, y) {
            Some(p) => p,
            None => false,
        }
    }

    /// The whole grid as a vector, row-major: everything needed to
    /// reconstruct the QR code, the side length being the square root of
    /// the vector's length.
    pub fn as_vec(&self) -> (r: Vec<bool>)
        requires
            self.wf(),
        ensures
            r@ == self.pixels@,
    {
        let n = self.pixels.len();
        let mut r: Vec<bool> = Vec::new();
        let mut i: usize = 0;
        while i < n
            invariant
                n == self.pixels@.len(),
                0 <= i <= n,
                r@ =~= self.pixels@.subrange(0, i as int),
            decreases n - i,
        {
            r.push(self.pixels[i]);
            proof {
                assert(r@ =~= self.pixels@.subrange(0, i + 1 as int));
            }
            i += 1;
        }
        proof {
            assert(self.pixels@.subrange(0, n as int) =~= self.pixels@);
        }
        r
    }
}

/// Reads the whole module grid of an encoded QR code into plain values.
fn qr_grid(q: &qrcodegen::QrCode) -> (r: QrGrid)
    ensures
        r.wf(),
        r.side == qr_side(*q),
        r.pixels@ == qr_modules(*q),
{
    let side_i32 = q.size();
    let side = side_i32 as usize;
    let mut pixels: Vec<bool> = Vec::new();
    let mut y: usize = 0;
    while y < side
        invariant
            side == qr_side(*q),
            21 <= side <= 177,
            qr_modules(*q).len() == side * side,
            0 <= y <= side,
            pixels@.len() == y * side,
            pixels@ =~= qr_modules(*q).subrange(0, (y * side) as int),
        decreases side - y,
    {
        let mut x: usize = 0;
        proof {
            assert((y + 1) * side == y * side + side) by (nonlinear_arith);
            assert(y * side + side <= side * side) by (nonlinear_arith)
                requires
                    y < side,
            ;
        }
        while x < side
            invariant
                side == qr_side(*q),
                21 <= side <= 177,
                qr_modules(*q).len() == side * side,
                y < side,
                y * side + side <= side * side,
                0 <= x <= side,
                pixels@.len() == y * side + x,
                pixels@ =~= qr_modules(*q).subrange(0, (y * side + x) as int),
            decreases side - x,
        {
            let m = q.get_module(x as i32, y as i32);
            proof {
                assert((y as i32) * qr_side(*q) + (x as i32) == y * side + x);
            }
            pixels.push(m);
            proof {
                assert(pixels@ =~= qr_modules(*q).subrange(0, (y * side + x + 1) as int));
            }
            x += 1;
        }
        proof {
            assert((y + 1) * side == y * side + side) by (nonlinear_arith);
        }
        y += 1;
    }
    proof {
        assert(y * side == side * side) by (nonlinear_arith)
            requires
                y == side,
        ;
        assert(qr_modules(*q).subrange(0, (side * side) as int) =~= qr_modules(*q));
    }
    QrGrid { side, pixels }
}

/// Constructs a QR code from a string, at low error correction.
pub fn qrcode_from_str(s: &str) -> (r: Result<QrGrid, QrCodeError>)
    ensures
        r matches Ok(code) ==> {
            &&& code.wf()
            &&& code.side == qr_side_of_str(s@)
            &&& code.pixels@ == qr_pixels_of_str(s@)
        },
        s@.len() <= 738 ==> r is Ok,
        r matches Err(e) ==> e == QrCodeError::DataTooLong(s.spec_bytes().len() as usize),
{
    match qr_encode_text(s) {
        Ok(q) => Ok(qr_grid(&q)),
        Err(_) => Err(QrCodeError::DataTooLong(s.len())),
    }
}

/// Constructs a QR code from binary data, at low error correction.
pub fn qrcode_from_data(data: &[u8]) -> (r: Result<QrGrid, QrCodeError>)
    ensures
        r matches Ok(code) ==> {
            &&& code.wf()
            &&& code.side == qr_side_of_data(data@)
            &&& code.pixels@ == qr_pixels_of_data(data@)
        },
        data@.len() <= 2953 ==> r is Ok,
        r matches Err(e) ==> e == QrCodeError::DataTooLong(data@.len() as usize),
{
    match qr_encode_binary(data) {
        Ok(q) => Ok(qr_grid(&q)),
        Err(_) => Err(QrCodeError::DataTooLong(data.len())),
    }
}

} // verus!
