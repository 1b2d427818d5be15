//! The raster that markers are painted on, kept in a `tiny_skia::Pixmap`.
//!
//! Verus cannot look inside a pixmap. Its size and its pixels have names
//! here, and so has the outcome of each raster operation that the tile
//! performs: what flattening one pixmap onto another leaves, what filling an
//! outline leaves, and the PNG file that a pixmap encodes to.

use vstd::prelude::*;
use crate::color::Color;
use crate::error::RenderError;

verus! {

/// Width and height, in pixels, of every canvas.
pub const CANVAS_SIZE: u32 = 256;

/// `tiny_skia::Pixmap`, a raster of premultiplied RGBA pixels.
#[verifier::external_type_specification]
#[verifier::external_body]
pub struct ExPixmap(tiny_skia::Pixmap);

/// `tiny_skia::Path`, the outline of a shape.
#[verifier::external_type_specification]
#[verifier::external_body]
pub struct ExPath(tiny_skia::Path);

/// `png::EncodingError`, the error of `tiny_skia`'s PNG encoder.
#[verifier::external_type_specification]
#[verifier::external_body]
pub struct ExEncodingError(png::EncodingError);

/// The width of `pixmap`, in pixels.
pub uninterp spec fn pixmap_width(pixmap: tiny_skia::Pixmap) -> nat;

/// The height of `pixmap`, in pixels.
pub uninterp spec fn pixmap_height(pixmap: tiny_skia::Pixmap) -> nat;

/// The pixels of `pixmap`, row by row from the top, four bytes to a pixel:
/// red, green, blue, alpha, the colors premultiplied by alpha.
pub uninterp spec fn pixmap_data(pixmap: tiny_skia::Pixmap) -> Seq<u8>;

/// The pixels that `tiny_skia` leaves in a pixmap `width` pixels wide that
/// held `below`, after drawing one of the same size that holds `above` on top
/// of it: source-over blending, no offset, no scaling, full opacity.
pub uninterp spec fn source_over(width: nat, below: Seq<u8>, above: Seq<u8>) -> Seq<u8>;

/// The pixels that `tiny_skia` leaves in a pixmap `width` pixels wide that
/// held `pixels`, after filling `outline` with `color`: anti-aliased, by the
/// non-zero winding rule, blended source-over.
pub uninterp spec fn path_fill(
    width: nat,
    pixels: Seq<u8>,
    outline: tiny_skia::Path,
    color: Color,
) -> Seq<u8>;

/// The PNG file that `tiny_skia` encodes a pixmap `width` pixels wide that
/// holds `pixels` to, or `None` where the encoder reports an error.
pub uninterp spec fn png_encoding(width: nat, pixels: Seq<u8>) -> Option<Seq<u8>>;

/// The sizes that `tiny_skia` makes a pixmap of: neither side is zero, a row
/// of four-byte pixels fits in an `i32`, and the whole fits in a `usize`.
pub open spec fn pixmap_size_ok(width: u32, height: u32) -> bool {
    &&& width >= 1
    &&& height >= 1
    &&& 4 * width <= i32::MAX
    &&& 4 * width * height <= usize::MAX
}

/// Calls `tiny_skia::Pixmap::new`. The contract restates that function: it
/// makes a pixmap exactly for the sizes of [`pixmap_size_ok`], and every byte
/// of a new pixmap is zero, which is transparent black.
#[verifier::external_body]
fn new_pixmap(width: u32, height: u32) -> (r: Option<tiny_skia::Pixmap>)
    ensures
        r is Some <==> pixmap_size_ok(width, height),
        r matches Some(pixmap) ==> {
            &&& pixmap_width(pixmap) == width
            &&& pixmap_height(pixmap) == height
            &&& pixmap_data(pixmap) == Seq::new((4 * width * height) as nat, |i: int| 0u8)
        },
{
    tiny_skia::Pixmap::new(width, height)
}

/// Calls `tiny_skia::Pixmap::encode_png`. The contract only gives the
/// outcome a name.
#[verifier::external_body]
fn encode_pixmap(pixmap: &tiny_skia::Pixmap) -> (r: Result<Vec<u8>, png::EncodingError>)
    ensures
        r matches Ok(bytes) ==> png_encoding(pixmap_width(*pixmap), pixmap_data(*pixmap)) == Some(
            bytes@,
        ),
        r is Err ==> png_encoding(pixmap_width(*pixmap), pixmap_data(*pixmap)) is None,
{
    pixmap.encode_png()
}

/// `tiny_skia::Pixmap::width`: the contract names the answer.
pub assume_specification[ tiny_skia::Pixmap::width ](pixmap: &tiny_skia::Pixmap) -> (r: u32)
    ensures
        r == pixmap_width(*pixmap),
;

/// `tiny_skia::Pixmap::height`: the contract names the answer.
pub assume_specification[ tiny_skia::Pixmap::height ](pixmap: &tiny_skia::Pixmap) -> (r: u32)
    ensures
        r == pixmap_height(*pixmap),
;

/// `tiny_skia::Pixmap::data`: the pixels, as the bytes that the pixmap holds.
pub assume_specification<'a>[ tiny_skia::Pixmap::data ](pixmap: &'a tiny_skia::Pixmap) -> (r:
    &'a [u8])
    ensures
        r@ == pixmap_data(*pixmap),
;

/// The pixels of a canvas that nothing was painted on: all transparent.
pub open spec fn blank_pixels() -> Seq<u8> {
    Seq::new((4 * CANVAS_SIZE * CANVAS_SIZE) as nat, |i: int| 0u8)
}

/// What flattening a canvas that holds `above` onto one that holds `below`
/// leaves in the latter.
pub open spec fn flattened(below: Seq<u8>, above: Seq<u8>) -> Seq<u8> {
    source_over(CANVAS_SIZE as nat, below, above)
}

/// What filling `outline` with `color` leaves in a canvas that held `pixels`.
pub open spec fn filled(pixels: Seq<u8>, outline: tiny_skia::Path, color: Color) -> Seq<u8> {
    path_fill(CANVAS_SIZE as nat, pixels, outline, color)
}

/// The PNG file of a canvas that holds `pixels`, if it has one.
pub open spec fn png_of(pixels: Seq<u8>) -> Option<Seq<u8>> {
    png_encoding(CANVAS_SIZE as nat, pixels)
}

/// A raster of [`CANVAS_SIZE`] by [`CANVAS_SIZE`] pixels. Its view is its
/// pixels: row by row from the top, four bytes to a pixel (red, green, blue,
/// alpha), the colors premultiplied by alpha.
pub struct Canvas {
    pixmap: tiny_skia::Pixmap,
}

impl View for Canvas {
    type V = Seq<u8>;

    closed spec fn view(&self) -> Seq<u8> {
        pixmap_data(self.pixmap)
    }
}

impl Canvas {
    /// Every canvas has the one fixed size.
    #[verifier::type_invariant]
    spec fn has_canvas_size(self) -> bool {
        &&& pixmap_width(self.pixmap) == CANVAS_SIZE
        &&& pixmap_height(self.pixmap) == CANVAS_SIZE
    }

    /// A fully transparent canvas.
    pub fn new() -> (canvas: Canvas)
        ensures
            canvas@ == blank_pixels(),
    {
        let pixmap = new_pixmap(CANVAS_SIZE, CANVAS_SIZE);
        Canvas { pixmap: pixmap.unwrap() }
    }

    /// Flattens `above` onto this canvas, pixel over pixel.
    pub fn draw_canvas(&mut self, above: &Canvas)
        ensures
            final(self)@ == flattened(old(self)@, above@),
    {
        proof {
            use_type_invariant(&*self);
            use_type_invariant(above);
        }
        draw_over(self, above);
    }

    /// Fills `outline` with `color`. What lies outside the canvas is clipped
    /// away.
    pub fn fill_path(&mut self, outline: &tiny_skia::Path, color: Color)
        ensures
            final(self)@ == filled(old(self)@, *outline, color),
    {
        proof {
            use_type_invariant(&*self);
        }
        fill_outline(self, outline, color);
    }

    /// Encodes this canvas as a PNG file.
    pub fn encode_png(&self) -> (r: Result<Vec<u8>, RenderError>)
        ensures
            r matches Ok(bytes) ==> png_of(self@) == Some(bytes@),
            r matches Err(e) ==> e == RenderError::Encode && png_of(self@) is None,
    {
        proof {
            use_type_invariant(self);
        }
        match encode_pixmap(&self.pixmap) {
            Ok(bytes) => Ok(bytes),
            Err(_) => Err(RenderError::Encode),
        }
    }

    /// The width of this canvas in pixels: that of every canvas.
    pub fn width(&self) -> (width: u32)
        ensures
            width == CANVAS_SIZE,
    {
        proof {
            use_type_invariant(self);
        }
        self.pixmap.width()
    }

    /// The height of this canvas in pixels: that of every canvas.
    pub fn height(&self) -> (height: u32)
        ensures
            height == CANVAS_SIZE,
    {
        proof {
            use_type_invariant(self);
        }
        self.pixmap.height()
    }

    /// The pixels of this canvas.
    pub fn data(&self) -> (bytes: &[u8])
        ensures
            bytes@ == self@,
    {
        self.pixmap.data()
    }
}

/// Calls `tiny_skia::Pixmap::draw_pixmap` to draw the pixmap of `above` onto
/// that of `below` at offset (0, 0) with the default pixmap paint, the
/// identity transform and no mask. The contract says that the size of `below`
/// stays, and names the pixels it is left with.
#[verifier::external_body]
fn draw_over(below: &mut Canvas, above: &Canvas)
    requires
        pixmap_width(old(below).pixmap) == pixmap_width(above.pixmap),
        pixmap_height(old(below).pixmap) == pixmap_height(above.pixmap),
    ensures
        pixmap_width(final(below).pixmap) == pixmap_width(old(below).pixmap),
        pixmap_height(final(below).pixmap) == pixmap_height(old(below).pixmap),
        pixmap_data(final(below).pixmap) == source_over(
            pixmap_width(old(below).pixmap),
            pixmap_data(old(below).pixmap),
            pixmap_data(above.pixmap),
        ),
{
    below.pixmap.draw_pixmap(
        0,
        0,
        above.pixmap.as_ref(),
        &tiny_skia::PixmapPaint::default(),
        tiny_skia::Transform::identity(),
        None,
    );
}

/// Calls `tiny_skia::Pixmap::fill_path` on the pixmap of `canvas` with an
/// anti-aliasing paint of the solid color `color`, the winding fill rule, the
/// identity transform and no mask. The contract says that the size of the
/// pixmap stays, and names the pixels it is left with.
#[verifier::external_body]
fn fill_outline(canvas: &mut Canvas, outline: &tiny_skia::Path, color: Color)
    ensures
        pixmap_width(final(canvas).pixmap) == pixmap_width(old(canvas).pixmap),
        pixmap_height(final(canvas).pixmap) == pixmap_height(old(canvas).pixmap),
        pixmap_data(final(canvas).pixmap) == path_fill(
            pixmap_width(old(canvas).pixmap),
            pixmap_data(old(canvas).pixmap),
            *outline,
            color,
        ),
{
    let mut paint = tiny_skia::Paint::default();
    paint.anti_alias = true;
    paint.set_color_rgba8(color.red, color.green, color.blue, color.alpha);
    canvas.pixmap.fill_path(
        outline,
        &paint,
        tiny_skia::FillRule::Winding,
        tiny_skia::Transform::identity(),
        None,
    );
}

} // verus!
