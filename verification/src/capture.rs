//! Screen capture on OpenHarmony: this client only controls remote machines, so
//! there is a single virtual display and capturing a frame is unsupported.

use vstd::prelude::*;

verus! {

/// `std::io::Error`, carried through capture results.
#[verifier::external_type_specification]
#[verifier::external_body]
pub struct ExIoError(std::io::Error);

/// `std::io::ErrorKind`, the category of an I/O error; a plain enum whose
/// variants Verus reads.
#[verifier::external_type_specification]
pub struct ExIoErrorKind(std::io::ErrorKind);

/// What `std::io::Error::kind` returns for an error.
pub uninterp spec fn io_error_kind(e: std::io::Error) -> std::io::ErrorKind;

/// `std::io::Error::from(std::io::ErrorKind::Unsupported)`: an error whose kind is
/// `Unsupported`, as std documents for `From<ErrorKind> for io::Error`.
#[verifier::external_body]
fn unsupported_error() -> (e: std::io::Error)
    ensures
        io_error_kind(e) == std::io::ErrorKind::Unsupported,
{
    std::io::Error::from(std::io::ErrorKind::Unsupported)
}

/// Pixel layouts of captured frames.
#[derive(Clone, Copy, PartialEq, Eq, Structural, Debug)]
pub enum Pixfmt {
    BGRA,
    RGBA,
    RGB565LE,
    I420,
    NV12,
    I444,
}

/// What a display is, seen from outside.
pub struct DisplayView {
    pub primary: bool,
    pub width: usize,
    pub height: usize,
}

/// A display that frames could be captured from.
pub struct Display {
    default: bool,
    w: usize,
    h: usize,
}

impl View for Display {
    type V = DisplayView;

    closed spec fn view(&self) -> DisplayView {
        DisplayView { primary: self.default, width: self.w, height: self.h }
    }
}

/// The one display there is: primary and of size zero.
pub open spec fn primary_display() -> DisplayView {
    DisplayView { primary: true, width: 0, height: 0 }
}

impl Display {
    /// The primary display; it always exists.
    pub fn primary() -> (r: Result<Display, std::io::Error>)
        ensures
            r matches Ok(d) && d@ == primary_display(),
    {
        Ok(Display { default: true, w: 0, h: 0 })
    }

    /// All displays: the primary one alone.
    pub fn all() -> (r: Result<Vec<Display>, std::io::Error>)
        ensures
            r matches Ok(v) && v@.len() == 1 && v@[0]@ == primary_display(),
    {
        Ok(vec![Display::primary()?])
    }

    /// The width in pixels.
    pub fn width(&self) -> (w: usize)
        ensures
            w == self@.width,
    {
        self.w
    }

    /// The height in pixels.
    pub fn height(&self) -> (h: usize)
        ensures
            h == self@.height,
    {
        self.h
    }

    /// Where the display sits on the virtual desktop: the origin.
    pub fn origin(&self) -> (o: (i32, i32))
        ensures
            o == (0i32, 0i32),
    {
        (0, 0)
    }

    /// Whether the display is connected: always.
    pub fn is_online(&self) -> (b: bool)
        ensures
            b,
    {
        true
    }

    /// Whether this is the primary display.
    pub fn is_primary(&self) -> (b: bool)
        ensures
            b == self@.primary,
    {
        self.default
    }

    /// The display's name.
    pub fn name(&self) -> (s: String)
        ensures
            s@ == "OHOS"@,
    {
        "OHOS".to_owned()
    }

    /// Re-reads the display size; there is nothing to re-read.
    pub fn refresh_size() {
    }

    /// The quality factor capture is tuned with.
    pub fn fix_quality() -> (q: u16)
        ensures
            q == 1,
    {
        1
    }
}

/// Whether capture has been started: it never is.
pub fn is_start() -> (r: Option<bool>)
    ensures
        r == Some(false),
{
    Some(false)
}

/// Captures frames from one display.
pub struct Capturer {
    display: Display,
}

impl View for Capturer {
    type V = DisplayView;

    closed spec fn view(&self) -> DisplayView {
        self.display@
    }
}

impl Capturer {
    /// A capturer for `display`; making one always succeeds.
    pub fn new(display: Display) -> (r: Result<Capturer, std::io::Error>)
        ensures
            r matches Ok(c) && c@ == display@,
    {
        Ok(Capturer { display })
    }

    /// The width of the captured display.
    pub fn width(&self) -> (w: usize)
        ensures
            w == self@.width,
    {
        self.display.width()
    }

    /// The height of the captured display.
    pub fn height(&self) -> (h: usize)
        ensures
            h == self@.height,
    {
        self.display.height()
    }

    /// Captures a frame: unsupported on this platform, so always an error.
    pub fn frame<'a>(&'a mut self, timeout: core::time::Duration) -> (r: Result<
        PixelBuffer<'a>,
        std::io::Error,
    >)
        ensures
            r matches Err(e) && io_error_kind(e) == std::io::ErrorKind::Unsupported,
            final(self)@ == old(self)@,
    {
        Err(unsupported_error())
    }
}

/// What a pixel buffer is, seen from outside.
pub struct PixelBufferView {
    pub data: Seq<u8>,
    pub width: usize,
    pub height: usize,
    pub stride: Seq<usize>,
}

/// Pixels of a frame borrowed from elsewhere, with their layout.
pub struct PixelBuffer<'a> {
    data: &'a [u8],
    width: usize,
    height: usize,
    stride: Vec<usize>,
}

impl<'a> View for PixelBuffer<'a> {
    type V = PixelBufferView;

    closed spec fn view(&self) -> PixelBufferView {
        PixelBufferView {
            data: self.data@,
            width: self.width,
            height: self.height,
            stride: self.stride@,
        }
    }
}

/// The row stride of `len` bytes spread over `height` rows (zero when there are no rows).
pub open spec fn row_stride(len: nat, height: nat) -> nat {
    if height == 0 {
        0
    } else {
        len / height
    }
}

/// Each row of a pixel buffer fits in its data, and less than one more row is left over.
pub proof fn law_rows_fit(len: nat, height: nat)
    requires
        height > 0,
    ensures
        row_stride(len, height) * height <= len,
        len < (row_stride(len, height) + 1) * height,
{
    assert(row_stride(len, height) * height <= len < (row_stride(len, height) + 1) * height)
        by (nonlinear_arith)
        requires
            height > 0,
            row_stride(len, height) == len / height,
    ;
}

impl<'a> PixelBuffer<'a> {
    /// A buffer over `data` with one plane, whose stride spreads the data evenly
    /// over `height` rows.
    pub fn new(data: &'a [u8], width: usize, height: usize) -> (b: PixelBuffer<'a>)
        ensures
            b@.data == data@,
            b@.width == width,
            b@.height == height,
            b@.stride == seq![row_stride(data@.len(), height as nat) as usize],
    {
        let stride0 = if height == 0 {
            0
        } else {
            data.len() / if height > 1 {
                height
            } else {
                1
            }
        };
        let stride = vec![stride0];
        PixelBuffer { data, width, height, stride }
    }

    /// The pixel bytes.
    pub fn data(&self) -> (d: &[u8])
        ensures
            d@ == self@.data,
    {
        self.data
    }

    /// The width in pixels.
    pub fn width(&self) -> (w: usize)
        ensures
            w == self@.width,
    {
        self.width
    }

    /// The height in pixels.
    pub fn height(&self) -> (h: usize)
        ensures
            h == self@.height,
    {
        self.height
    }

    /// The stride of each plane.
    pub fn stride(&self) -> (s: Vec<usize>)
        ensures
            s@ == self@.stride,
    {
        let mut s: Vec<usize> = Vec::new();
        let mut i: usize = 0;
        while i < self.stride.len()
            invariant
                i <= self.stride@.len(),
                s@ == self.stride@.take(i as int),
            decreases self.stride@.len() - i,
        {
            s.push(self.stride[i]);
            i += 1;
            assert(s@ =~= self.stride@.take(i as int));
        }
        assert(self.stride@.take(self.stride@.len() as int) =~= self.stride@);
        s
    }

    /// The pixel layout: RGBA.
    pub fn pixfmt(&self) -> (f: Pixfmt)
        ensures
            f == Pixfmt::RGBA,
    {
        Pixfmt::RGBA
    }
}

} // verus!
