//! Image assets: a full-resolution PNG and a thumbnail of bounded size for
//! every stored clipboard image.
//!
//! The functions here turn raw RGBA pixels into the bytes and the names of the
//! two files. Creating the directory and writing the files is the caller's
//! part.

use crate::hashing::hex_digits;
use image::codecs::png::PngEncoder;
use image::imageops::{resize, FilterType};
use image::{ExtendedColorType, ImageBuffer, ImageEncoder, ImageError, Rgba};
use uuid::Uuid;
use vstd::prelude::*;

verus! {

/// The error type of the `image` crate, carried through without a look
/// inside.
#[verifier::external_type_specification]
#[verifier::external_body]
pub struct ExImageError(ImageError);

/// Neither side of a thumbnail exceeds this many pixels.
pub const THUMBNAIL_BOUND: u32 = 200;

/// The directory, below the application's data directory, that holds the
/// image files.
pub const IMAGES_DIRECTORY: &'static str = "images";

/// Why an image could not be stored.
#[derive(Debug)]
pub enum StorageError {
    /// The byte buffer is not a `width x height` RGBA buffer.
    BufferMismatch,
    /// The images directory could not be created; the text says why.
    Directory(String),
    /// Resampling or PNG encoding failed; the text says why.
    Encode(String),
    /// A file could not be written; the text says why.
    Write(String),
}

impl StorageError {
    /// The text that describes this error.
    pub open spec fn message_spec(self) -> Seq<char> {
        match self {
            StorageError::BufferMismatch => "Failed to create image buffer"@,
            StorageError::Directory(text) => text@,
            StorageError::Encode(text) => text@,
            StorageError::Write(text) => text@,
        }
    }

    /// The text that describes this error.
    pub fn message(&self) -> (text: String)
        ensures
            text@ == self.message_spec(),
    {
        match self {
            StorageError::BufferMismatch => "Failed to create image buffer".to_string(),
            StorageError::Directory(text) => text.clone(),
            StorageError::Encode(text) => text.clone(),
            StorageError::Write(text) => text.clone(),
        }
    }
}

/// Where the two files of a stored image are.
#[derive(Debug, Clone)]
pub struct StoredImageAsset {
    pub full_path: String,
    pub thumbnail_path: String,
}

/// The file names of one stored image, without a directory.
#[derive(Debug)]
pub struct AssetNames {
    pub full: String,
    pub thumbnail: String,
}

/// An image as the clipboard hands it over: rows of four-byte RGBA pixels.
pub struct RgbaFrame {
    width: u32,
    height: u32,
    pixels: Vec<u8>,
}

/// The mathematical content of an `RgbaFrame`.
pub struct FrameView {
    pub width: int,
    pub height: int,
    pub pixels: Seq<u8>,
}

impl FrameView {
    /// The pixel buffer has exactly four bytes for each pixel.
    pub open spec fn well_formed(self) -> bool {
        &&& 0 <= self.width <= u32::MAX
        &&& 0 <= self.height <= u32::MAX
        &&& self.pixels.len() == 4 * self.width * self.height
    }

    /// No pixels at all.
    pub open spec fn is_empty(self) -> bool {
        self.width == 0 || self.height == 0
    }
}

/// Whether `len` bytes are a `width x height` RGBA buffer.
pub open spec fn fits_rgba(width: int, height: int, len: int) -> bool {
    &&& 0 <= width <= u32::MAX
    &&& 0 <= height <= u32::MAX
    &&& len == 4 * width * height
}

/// The shorter side of a thumbnail whose longer side is the bound:
/// `side * THUMBNAIL_BOUND / longer`, rounded to the nearest integer (halves
/// go up), but never rounded down to nothing.
#[verifier::inline]
pub open spec fn scaled_side(side: int, longer: int) -> int {
    let rounded = (2 * THUMBNAIL_BOUND * side + longer) / (2 * longer);
    if side > 0 && rounded == 0 {
        1
    } else {
        rounded
    }
}

/// The size of the thumbnail of a `width x height` image. An image that
/// already fits the bound keeps its size; a larger one is scaled down so that
/// its longer side becomes the bound.
#[verifier::inline]
pub open spec fn thumbnail_size(width: int, height: int) -> (int, int) {
    if width <= THUMBNAIL_BOUND && height <= THUMBNAIL_BOUND {
        (width, height)
    } else if width >= height {
        (THUMBNAIL_BOUND as int, scaled_side(height, width))
    } else {
        (scaled_side(width, height), THUMBNAIL_BOUND as int)
    }
}

/// How far a `thumb_width x thumb_height` thumbnail is from the proportions
/// of a `width x height` image, measured by cross-multiplication: zero means
/// the very same aspect ratio.
pub open spec fn aspect_error(width: int, height: int, thumb_width: int, thumb_height: int) -> int {
    let cross = thumb_width * height - thumb_height * width;
    if cross >= 0 {
        cross
    } else {
        -cross
    }
}

/// The longer of two sides.
pub open spec fn longer_side(width: int, height: int) -> int {
    if width >= height {
        width
    } else {
        height
    }
}

/// The scaled side stays within the bound and within the side it comes from,
/// and is off the exact proportion by less than a pixel.
proof fn lemma_scaled_side(side: int, longer: int)
    requires
        0 <= side <= longer,
        longer > THUMBNAIL_BOUND,
    ensures
        0 <= scaled_side(side, longer) <= THUMBNAIL_BOUND,
        scaled_side(side, longer) <= side,
        side >= 1 ==> scaled_side(side, longer) >= 1,
        aspect_error(longer, side, THUMBNAIL_BOUND as int, scaled_side(side, longer)) < longer,
        scaled_side(side, longer) != 1 ==> 2 * aspect_error(
            longer,
            side,
            THUMBNAIL_BOUND as int,
            scaled_side(side, longer),
        ) <= longer,
{
    let n = 400 * side + longer;
    let d = 2 * longer;
    let q = n / d;
    assert(q == (2 * THUMBNAIL_BOUND * side + longer) / (2 * longer));
    assert(0 <= q && q * d <= n < q * d + d) by (nonlinear_arith)
        requires
            q == n / d,
            d > 0,
            n >= 0,
    ;
    assert(q * d == 2 * (q * longer)) by (nonlinear_arith)
        requires
            d == 2 * longer,
    ;
    let p = q * longer;
    assert(2 * p <= 400 * side + longer < 2 * p + 2 * longer);
    // q <= 200: otherwise 2 * p >= 402 * longer, more than 400 * side + longer.
    assert(q <= 200) by (nonlinear_arith)
        requires
            p == q * longer,
            2 * p <= 400 * side + longer,
            0 <= side <= longer,
            longer > 0,
    ;
    // q <= side: otherwise 2 * p >= 2 * (side + 1) * longer, which is too much.
    assert(q <= side) by (nonlinear_arith)
        requires
            p == q * longer,
            2 * p <= 400 * side + longer,
            0 <= side <= longer,
            longer > 200,
    ;
    let s = scaled_side(side, longer);
    assert(aspect_error(longer, side, 200, q) == if 200 * side - p >= 0 {
        200 * side - p
    } else {
        p - 200 * side
    });
    if side > 0 && q == 0 {
        assert(s == 1);
        assert(p == 0) by (nonlinear_arith)
            requires
                q == 0,
                p == q * longer,
        ;
        assert(aspect_error(longer, side, 200, 1) == longer - 200 * side);
    } else {
        assert(s == q);
    }
}

/// A thumbnail fits the bound, is never larger than its image, has pixels
/// whenever the image has, and keeps the image's proportions: its sides are
/// within one pixel of the exact proportional size, and within half a pixel
/// unless a side had to be raised to one pixel.
pub proof fn lemma_thumbnail_size(width: int, height: int)
    requires
        0 <= width,
        0 <= height,
    ensures
        ({
            let (w, h) = thumbnail_size(width, height);
            &&& 0 <= w <= THUMBNAIL_BOUND
            &&& 0 <= h <= THUMBNAIL_BOUND
            &&& w <= width
            &&& h <= height
            &&& (width >= 1 && height >= 1 ==> w >= 1 && h >= 1)
            &&& (width <= THUMBNAIL_BOUND && height <= THUMBNAIL_BOUND ==> w == width && h
                == height)
            &&& (width > THUMBNAIL_BOUND || height > THUMBNAIL_BOUND ==> w == THUMBNAIL_BOUND
                || h == THUMBNAIL_BOUND)
            &&& (aspect_error(width, height, w, h) == 0 || aspect_error(width, height, w, h)
                < longer_side(width, height))
            &&& (w != 1 && h != 1 ==> 2 * aspect_error(width, height, w, h) <= longer_side(
                width,
                height,
            ))
        }),
{
    if width <= THUMBNAIL_BOUND && height <= THUMBNAIL_BOUND {
        assert(width * height - height * width == 0) by (nonlinear_arith);
    } else if width >= height {
        lemma_scaled_side(height, width);
    } else {
        lemma_scaled_side(width, height);
        let s = scaled_side(width, height);
        // The error is the same whichever side is called the width.
        assert(aspect_error(width, height, s, 200) == aspect_error(height, width, 200, s));
    }
}

fn scale_side(side: u32, longer: u32) -> (scaled: u32)
    requires
        side <= longer,
        longer > THUMBNAIL_BOUND,
    ensures
        scaled == scaled_side(side as int, longer as int),
{
    proof {
        lemma_scaled_side(side as int, longer as int);
    }
    let doubled_bound: u64 = 2 * (THUMBNAIL_BOUND as u64);
    assert(doubled_bound == 400);
    let rounded: u64 = (doubled_bound * (side as u64) + (longer as u64)) / (2 * (longer as u64));
    if side > 0 && rounded == 0 {
        1
    } else {
        rounded as u32
    }
}

/// The size of the thumbnail of a `width x height` image.
pub fn thumbnail_dimensions(width: u32, height: u32) -> (size: (u32, u32))
    ensures
        (size.0 as int, size.1 as int) == thumbnail_size(width as int, height as int),
        size.0 <= THUMBNAIL_BOUND,
        size.1 <= THUMBNAIL_BOUND,
        size.0 <= width,
        size.1 <= height,
{
    proof {
        lemma_thumbnail_size(width as int, height as int);
    }
    if width <= THUMBNAIL_BOUND && height <= THUMBNAIL_BOUND {
        (width, height)
    } else if width >= height {
        (THUMBNAIL_BOUND, scale_side(height, width))
    } else {
        (scale_side(width, height), THUMBNAIL_BOUND)
    }
}

/// The PNG file that the encoder writes for an 8-bit RGBA image.
pub uninterp spec fn png_rgba8(width: int, height: int, pixels: Seq<u8>) -> Seq<u8>;

/// The four bytes at `at`, read as one big-endian number.
pub open spec fn big_endian_u32(bytes: Seq<u8>, at: int) -> int {
    bytes[at] as int * 0x100_0000 + bytes[at + 1] as int * 0x1_0000 + bytes[at + 2] as int * 0x100
        + bytes[at + 3] as int
}

/// The first sixteen bytes of every PNG file: the signature, then the length
/// and the type of the header chunk.
pub open spec fn png_preamble() -> Seq<u8> {
    seq![137u8, 80, 78, 71, 13, 10, 26, 10, 0, 0, 0, 13, 73, 72, 68, 82]
}

/// `bytes` starts as a PNG file whose header declares an 8-bit RGBA image of
/// `width x height` pixels.
pub open spec fn png_declares(bytes: Seq<u8>, width: int, height: int) -> bool {
    &&& bytes.len() >= 33
    &&& bytes.subrange(0, 16) == png_preamble()
    &&& big_endian_u32(bytes, 16) == width
    &&& big_endian_u32(bytes, 20) == height
    &&& bytes[24] == 8
    &&& bytes[25] == 6
}

/// The text form of a random identifier: 32 lower-case hexadecimal digits in
/// groups of 8, 4, 4, 4 and 12, with a hyphen between groups.
pub open spec fn is_hyphenated_id(text: Seq<char>) -> bool {
    &&& text.len() == 36
    &&& forall|i: int|
        0 <= i < 36 ==> if i == 8 || i == 13 || i == 18 || i == 23 {
            #[trigger] text[i] == '-'
        } else {
            hex_digits().contains(#[trigger] text[i])
        }
}

/// Calls `PngEncoder::write_image` of the `image` crate on a fresh encoder
/// that writes to memory, with the colour type `Rgba8`. Assumed, not proved:
/// an image with pixels is always encoded and an image without pixels is
/// always refused; what is written depends on the image alone and starts with
/// the PNG signature and a header chunk that holds the two sides, the bit
/// depth 8 and the colour type 6.
#[verifier::external_body]
fn png_encode_rgba8(width: u32, height: u32, pixels: &[u8]) -> (outcome: Result<
    Vec<u8>,
    ImageError,
>)
    requires
        pixels@.len() == 4 * width * height,
    ensures
        outcome matches Ok(png) ==> png@ == png_rgba8(width as int, height as int, pixels@)
            && png_declares(png@, width as int, height as int),
        width >= 1 && height >= 1 ==> outcome is Ok,
        width == 0 || height == 0 ==> outcome is Err,
{
    let mut png = Vec::new();
    PngEncoder::new(&mut png).write_image(pixels, width, height, ExtendedColorType::Rgba8)?;
    Ok(png)
}

/// The message of an `image::ImageError`, as its `Display` impl writes it.
/// Nothing is claimed of the text.
#[verifier::external_body]
fn image_error_text(error: &ImageError) -> (text: String) {
    error.to_string()
}

/// Calls `image::imageops::resize` with the Lanczos filter of window 3 on an
/// `ImageBuffer` made of `pixels`. Assumed, not proved: the image that comes
/// back has the size asked for. Which colours it holds is left open.
#[verifier::external_body]
fn resample_lanczos3(
    width: u32,
    height: u32,
    pixels: &[u8],
    new_width: u32,
    new_height: u32,
) -> (resampled: Vec<u8>)
    requires
        pixels@.len() == 4 * width * height,
        1 <= new_width <= width,
        1 <= new_height <= height,
        16 * width * new_height <= isize::MAX,
    ensures
        resampled@.len() == 4 * new_width * new_height,
{
    let source: ImageBuffer<Rgba<u8>, &[u8]> = ImageBuffer::from_raw(width, height, pixels).unwrap();
    resize(&source, new_width, new_height, FilterType::Lanczos3).into_raw()
}

/// Calls `Uuid::new_v4` and writes the identifier in its default form.
/// Assumed, not proved: the text has the hyphenated shape. Two calls may give
/// any two identifiers. Like an allocation without memory, the call does not
/// come back where the system has no random numbers to give.
#[verifier::external_body]
fn random_id() -> (id: String)
    ensures
        is_hyphenated_id(id@),
{
    Uuid::new_v4().to_string()
}

impl FrameView {
    /// The size of this image's thumbnail.
    pub open spec fn thumbnail_size(self) -> (int, int) {
        thumbnail_size(self.width, self.height)
    }

    /// Whether the thumbnail has to be computed from the pixels: the image has
    /// pixels and is larger than the bound.
    pub open spec fn needs_resampling(self) -> bool {
        !self.is_empty() && self.thumbnail_size() != (self.width, self.height)
    }

    /// Whether this image has a thumbnail file: it has pixels and, where the
    /// thumbnail has to be resampled, resampling fits the machine's memory.
    pub open spec fn thumbnail_png_exists(self) -> bool {
        !self.is_empty() && (!self.needs_resampling() || self.resampling_fits_memory())
    }

    /// Whether the rows that resampling works on can be held in memory on this
    /// machine: sixteen bytes for each pixel of an image as wide as this one
    /// and as high as the thumbnail.
    pub open spec fn resampling_fits_memory(self) -> bool {
        16 * self.width * self.thumbnail_size().1 <= isize::MAX
    }
}

/// What becomes of the encoder's outcome: the file as it is, or the storage
/// error that carries the encoder's message.
pub open spec fn png_outcome_spec(
    outcome: Result<Vec<u8>, ImageError>,
    res: Result<Vec<u8>, StorageError>,
) -> bool {
    match outcome {
        Ok(png) => res == Ok::<Vec<u8>, StorageError>(png),
        Err(_) => res matches Err(StorageError::Encode(_)),
    }
}

/// Turns the encoder's outcome into the library's own result.
pub fn png_outcome(outcome: Result<Vec<u8>, ImageError>) -> (res: Result<Vec<u8>, StorageError>)
    ensures
        png_outcome_spec(outcome, res),
{
    match outcome {
        Ok(png) => Ok(png),
        Err(error) => Err(StorageError::Encode(image_error_text(&error))),
    }
}

/// The name of the full-resolution file made with the identifier `id`.
pub open spec fn full_name(id: Seq<char>) -> Seq<char> {
    id + ".png"@
}

/// The name of the thumbnail file made with the identifier `id`.
pub open spec fn thumbnail_name(id: Seq<char>) -> Seq<char> {
    id + "_thumb.png"@
}

/// Two identifiers of one length never lead to the same name for the image
/// and its thumbnail, not even when the identifiers are equal.
pub proof fn lemma_asset_names_differ(full_id: Seq<char>, thumbnail_id: Seq<char>)
    requires
        full_id.len() == thumbnail_id.len(),
    ensures
        full_name(full_id) != thumbnail_name(thumbnail_id),
{
    reveal_strlit(".png");
    reveal_strlit("_thumb.png");
    assert(full_name(full_id).len() == full_id.len() + 4);
    assert(thumbnail_name(thumbnail_id).len() == thumbnail_id.len() + 10);
}

/// The two file names made with the given identifiers.
pub fn asset_names(full_id: &str, thumbnail_id: &str) -> (names: AssetNames)
    ensures
        names.full@ == full_name(full_id@),
        names.thumbnail@ == thumbnail_name(thumbnail_id@),
{
    AssetNames {
        full: full_id.to_string().concat(".png"),
        thumbnail: thumbnail_id.to_string().concat("_thumb.png"),
    }
}

/// File names for a new image, each made with a random identifier of its
/// own. Whatever the identifiers are, the two names differ.
pub fn new_asset_names() -> (names: AssetNames)
    ensures
        exists|full_id: Seq<char>, thumbnail_id: Seq<char>|
            {
                &&& is_hyphenated_id(full_id)
                &&& is_hyphenated_id(thumbnail_id)
                &&& names.full@ == #[trigger] full_name(full_id)
                &&& names.thumbnail@ == #[trigger] thumbnail_name(thumbnail_id)
            },
        names.full@ != names.thumbnail@,
{
    let full_id = random_id();
    let thumbnail_id = random_id();
    proof {
        lemma_asset_names_differ(full_id@, thumbnail_id@);
    }
    asset_names(full_id.as_str(), thumbnail_id.as_str())
}

impl View for RgbaFrame {
    type V = FrameView;

    closed spec fn view(&self) -> FrameView {
        FrameView {
            width: self.width as int,
            height: self.height as int,
            pixels: self.pixels@,
        }
    }
}

impl RgbaFrame {
    #[verifier::type_invariant]
    spec fn pixels_match_size(self) -> bool {
        self.pixels@.len() == 4 * self.width * self.height
    }

    /// Takes `pixels` as a `width x height` RGBA image. The buffer must hold
    /// exactly four bytes for each pixel, and both sides must fit in 32 bits.
    pub fn from_raw(width: usize, height: usize, pixels: Vec<u8>) -> (res: Result<
        RgbaFrame,
        StorageError,
    >)
        ensures
            fits_rgba(width as int, height as int, pixels@.len() as int) ==> (res matches Ok(
                frame,
            ) && frame@.well_formed() && frame@ == (FrameView {
                width: width as int,
                height: height as int,
                pixels: pixels@,
            })),
            !fits_rgba(width as int, height as int, pixels@.len() as int) ==> res
                == Err::<RgbaFrame, StorageError>(StorageError::BufferMismatch),
    {
        if width > u32::MAX as usize || height > u32::MAX as usize {
            return Err(StorageError::BufferMismatch);
        }
        assert(width * height <= 0xFFFF_FFFF * 0xFFFF_FFFF && 4 * width * height == 4 * (width
            * height)) by (nonlinear_arith)
            requires
                width <= 0xFFFF_FFFF,
                height <= 0xFFFF_FFFF,
        ;
        let area: u64 = (width as u64) * (height as u64);
        let len: u64 = pixels.len() as u64;
        if len % 4 != 0 || len / 4 != area {
            return Err(StorageError::BufferMismatch);
        }
        Ok(RgbaFrame { width: width as u32, height: height as u32, pixels })
    }

    /// Width in pixels.
    pub fn width(&self) -> (width: u32)
        ensures
            width == self@.width,
            self@.well_formed(),
    {
        proof {
            use_type_invariant(self);
        }
        self.width
    }

    /// Height in pixels.
    pub fn height(&self) -> (height: u32)
        ensures
            height == self@.height,
            self@.well_formed(),
    {
        proof {
            use_type_invariant(self);
        }
        self.height
    }

    /// The pixel bytes, row by row.
    pub fn pixels(&self) -> (pixels: &[u8])
        ensures
            pixels@ == self@.pixels,
            self@.well_formed(),
    {
        proof {
            use_type_invariant(self);
        }
        self.pixels.as_slice()
    }

    /// The thumbnail of this image. An image within the bound is its own
    /// thumbnail; a larger one is resampled to `thumbnail_size`. The one
    /// failure is an image too wide for the machine's memory.
    pub fn thumbnail(&self) -> (res: Result<RgbaFrame, StorageError>)
        ensures
            self@.well_formed(),
            self@.needs_resampling() && !self@.resampling_fits_memory() ==> res matches Err(
                StorageError::Encode(_),
            ),
            !self@.needs_resampling() || self@.resampling_fits_memory() ==> (res matches Ok(thumb)
                && thumb@.well_formed() && (thumb@.width, thumb@.height) == self@.thumbnail_size()
                && (!self@.needs_resampling() ==> thumb@.pixels == self@.pixels)),
            res matches Ok(thumb) ==> thumb@.width <= THUMBNAIL_BOUND && thumb@.height
                <= THUMBNAIL_BOUND && thumb@.width <= self@.width && thumb@.height
                <= self@.height,
    {
        proof {
            use_type_invariant(self);
            lemma_thumbnail_size(self.width as int, self.height as int);
        }
        let (width, height) = thumbnail_dimensions(self.width, self.height);
        if self.width == 0 || self.height == 0 {
            assert(4 * width * height == 0 && 4 * self.width * self.height == 0)
                by (nonlinear_arith)
                requires
                    0 <= width <= self.width,
                    0 <= height <= self.height,
                    self.width == 0 || self.height == 0,
            ;
            assert(self.pixels@ =~= Seq::<u8>::empty());
            return Ok(RgbaFrame { width, height, pixels: Vec::new() });
        }
        if width == self.width && height == self.height {
            return Ok(RgbaFrame { width, height, pixels: self.pixels.clone() });
        }
        assert(16 * self.width * height <= 16 * 0xFFFF_FFFF * 200) by (nonlinear_arith)
            requires
                0 <= self.width <= 0xFFFF_FFFF,
                0 <= height <= 200,
        ;
        let rows: u64 = 16 * (self.width as u64) * (height as u64);
        if rows > isize::MAX as u64 {
            return Err(StorageError::Encode("image too large to resample".to_string()));
        }
        let pixels = resample_lanczos3(self.width, self.height, self.pixels.as_slice(), width, height);
        Ok(RgbaFrame { width, height, pixels })
    }

    /// This image as a PNG file. Every image with pixels has one; an image
    /// without pixels has none.
    pub fn encode_png(&self) -> (res: Result<Vec<u8>, StorageError>)
        ensures
            self@.well_formed(),
            !self@.is_empty() ==> (res matches Ok(png) && png@ == png_rgba8(
                self@.width,
                self@.height,
                self@.pixels,
            ) && png_declares(png@, self@.width, self@.height)),
            self@.is_empty() ==> res matches Err(StorageError::Encode(_)),
    {
        proof {
            use_type_invariant(self);
        }
        png_outcome(png_encode_rgba8(self.width, self.height, self.pixels.as_slice()))
    }

    /// The thumbnail of this image as a PNG file. Every image with pixels has
    /// one, unless it is too wide for the machine's memory (see `thumbnail`).
    /// The file declares the thumbnail's size, so neither of its sides exceeds
    /// the bound or the side of the image.
    pub fn thumbnail_png(&self) -> (res: Result<Vec<u8>, StorageError>)
        ensures
            self@.well_formed(),
            self@.thumbnail_png_exists() ==> (res matches Ok(png) && png_declares(
                png@,
                self@.thumbnail_size().0,
                self@.thumbnail_size().1,
            ) && (!self@.needs_resampling() ==> png@ == png_rgba8(
                self@.width,
                self@.height,
                self@.pixels,
            )) && (exists|pixels: Seq<u8>|
                pixels.len() == 4 * self@.thumbnail_size().0 * self@.thumbnail_size().1 && png@
                    == #[trigger] png_rgba8(
                    self@.thumbnail_size().0,
                    self@.thumbnail_size().1,
                    pixels,
                ))),
            !self@.thumbnail_png_exists() ==> res matches Err(StorageError::Encode(_)),
            res is Ok ==> self@.thumbnail_size().0 <= THUMBNAIL_BOUND && self@.thumbnail_size().1
                <= THUMBNAIL_BOUND,
    {
        proof {
            use_type_invariant(self);
            lemma_thumbnail_size(self.width as int, self.height as int);
        }
        match self.thumbnail() {
            Ok(thumb) => {
                let res = thumb.encode_png();
                proof {
                    if self@.is_empty() {
                        assert(thumb@.width * thumb@.height == 0) by (nonlinear_arith)
                            requires
                                0 <= thumb@.width <= self@.width,
                                0 <= thumb@.height <= self@.height,
                                self@.width == 0 || self@.height == 0,
                        ;
                    }
                }
                res
            },
            Err(error) => Err(error),
        }
    }
}

} // verus!
