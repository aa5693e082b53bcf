//! The window icon: from the bytes of a PNG file to pixels that the window
//! system takes.
//!
//! Decoding is the `png` crate's work. What is decided here is which images
//! are taken (8-bit RGBA and nothing else) and whether the pixels decoded fit
//! the dimensions announced. An image that fails is no reason to stop: the
//! window goes without an icon.

use vstd::prelude::*;

verus! {

/// Colour type of four samples per pixel: red, green, blue, alpha.
pub const COLOR_RGBA: u8 = 6;

/// Bit depth of one byte per sample.
pub const DEPTH_EIGHT: u8 = 8;

/// Bytes per pixel of an icon.
pub const PIXEL_SIZE: usize = 4;

/// What the decoder tells of an image before it decodes the pixels.
#[derive(Clone, Copy, Debug, PartialEq, Eq, Structural)]
pub struct PngHeader {
    /// Colour type of the decoded samples, by its number in the PNG format.
    pub color: u8,
    /// Bits per decoded sample.
    pub depth: u8,
    pub width: u32,
    pub height: u32,
    /// Bytes that the decoded image takes.
    pub buffer_size: usize,
}

/// Why there is no icon.
#[derive(Clone, Copy, Debug, PartialEq, Eq, Structural)]
pub enum IconError {
    /// The bytes are no PNG image that the decoder can start on.
    Undecodable,
    /// The image is not 8-bit RGBA.
    UnsupportedFormat { color: u8, depth: u8 },
    /// The header was fine but the pixels could not be decoded.
    Unreadable,
    /// The number of bytes is no multiple of four.
    ByteCount { byte_count: usize },
    /// The number of pixels is not the width times the height.
    Dimensions { width: u32, height: u32, pixel_count: usize },
}

/// Mathematical value of an icon.
pub struct IconView {
    pub rgba: Seq<u8>,
    pub width: u32,
    pub height: u32,
}

/// The header that `png::Decoder::read_info` finds in `bytes`, with the
/// decoder's default limits and no transformation; `None` where it fails.
pub uninterp spec fn png_header(bytes: Seq<u8>) -> Option<PngHeader>;

/// The first frame of the image in `bytes` as `png::Reader::next_frame` leaves
/// it in a buffer that held `buffer` before; `None` where the header or the
/// frame cannot be decoded or the buffer is too small.
pub uninterp spec fn png_frame(bytes: Seq<u8>, buffer: Seq<u8>) -> Option<Seq<u8>>;

/// A buffer of `size` zero bytes.
pub open spec fn blank(size: nat) -> Seq<u8> {
    Seq::new(size, |i: int| 0u8)
}

/// The number of bytes to decode into, where the header is one of an image
/// that is taken: every 8-bit RGBA image is, whatever its size.
pub open spec fn frame_size(header: PngHeader) -> Result<usize, IconError> {
    if header.color != COLOR_RGBA || header.depth != DEPTH_EIGHT {
        Err(IconError::UnsupportedFormat { color: header.color, depth: header.depth })
    } else {
        Ok(header.buffer_size)
    }
}

/// The icon made of `rgba`, where its length is four bytes for each of `width`
/// times `height` pixels.
pub open spec fn framed(rgba: Seq<u8>, width: u32, height: u32) -> Result<IconView, IconError> {
    if rgba.len() % (PIXEL_SIZE as nat) != 0 {
        Err(IconError::ByteCount { byte_count: rgba.len() as usize })
    } else if rgba.len() / (PIXEL_SIZE as nat) != width * height {
        Err(
            IconError::Dimensions {
                width,
                height,
                pixel_count: (rgba.len() / (PIXEL_SIZE as nat)) as usize,
            },
        )
    } else {
        Ok(IconView { rgba, width, height })
    }
}

/// The icon in `bytes`, or why there is none.
pub open spec fn icon_of(bytes: Seq<u8>) -> Result<IconView, IconError> {
    match png_header(bytes) {
        None => Err(IconError::Undecodable),
        Some(header) => match frame_size(header) {
            Err(error) => Err(error),
            Ok(size) => match png_frame(bytes, blank(size as nat)) {
                None => Err(IconError::Unreadable),
                Some(rgba) => framed(rgba, header.width, header.height),
            },
        },
    }
}

/// Pixels of an icon, four bytes each, row by row.
pub struct IconImage {
    rgba: Vec<u8>,
    width: u32,
    height: u32,
}

impl View for IconImage {
    type V = IconView;

    closed spec fn view(&self) -> IconView {
        IconView { rgba: self.rgba@, width: self.width, height: self.height }
    }
}

/// Starts `png::Decoder` on `bytes` and reads up to the image data with
/// `read_info`. Trusted: the header returned is what the crate's reader
/// reports through `output_color_type`, `info` and `output_buffer_size`, which
/// depends on `bytes` alone.
#[verifier::external_body]
fn read_header(bytes: &[u8]) -> (header: Option<PngHeader>)
    ensures
        header == png_header(bytes@),
{
    let reader = png::Decoder::new(bytes).read_info().ok()?;
    let (color, depth) = reader.output_color_type();
    let info = reader.info();
    Some(
        PngHeader {
            color: color as u8,
            depth: depth as u8,
            width: info.width,
            height: info.height,
            buffer_size: reader.output_buffer_size(),
        },
    )
}

/// Decodes the first frame of `bytes` with `png::Reader::next_frame` into
/// `buffer`. Trusted: what the buffer holds afterwards is what the crate wrote
/// over what it held before, which depends on `bytes` and on the buffer alone;
/// the buffer keeps its length, and a buffer that is too short is an error.
#[verifier::external_body]
fn read_frame(bytes: &[u8], buffer: &mut Vec<u8>) -> (decoded: bool)
    ensures
        final(buffer)@.len() == old(buffer)@.len(),
        decoded ==> png_frame(bytes@, old(buffer)@) == Some(final(buffer)@),
        !decoded ==> png_frame(bytes@, old(buffer)@) is None,
{
    match png::Decoder::new(bytes).read_info() {
        Ok(mut reader) => reader.next_frame(buffer.as_mut_slice()).is_ok(),
        Err(_) => false,
    }
}

/// Decides from the header whether the image is taken, and how many bytes to
/// decode into.
pub fn check_header(header: &PngHeader) -> (size: Result<usize, IconError>)
    ensures
        size == frame_size(*header),
{
    if header.color != COLOR_RGBA || header.depth != DEPTH_EIGHT {
        Err(IconError::UnsupportedFormat { color: header.color, depth: header.depth })
    } else {
        Ok(header.buffer_size)
    }
}

impl IconImage {
    #[verifier::type_invariant]
    spec fn well_formed(self) -> bool {
        self.rgba@.len() == PIXEL_SIZE as nat * (self.width * self.height)
    }

    /// Makes an icon of 32-bit RGBA pixels. The length of `rgba` must be a
    /// multiple of four, and a quarter of it must be `width` times `height`.
    pub fn from_rgba(rgba: Vec<u8>, width: u32, height: u32) -> (icon: Result<
        IconImage,
        IconError,
    >)
        ensures
            match icon {
                Ok(image) => framed(rgba@, width, height) == Ok::<IconView, IconError>(image@),
                Err(error) => framed(rgba@, width, height) == Err::<IconView, IconError>(error),
            },
    {
        let byte_count: usize = rgba.len();
        if byte_count % PIXEL_SIZE != 0 {
            return Err(IconError::ByteCount { byte_count });
        }
        let pixel_count: usize = byte_count / PIXEL_SIZE;
        assert(width * height <= u64::MAX) by (nonlinear_arith)
            requires
                width <= u32::MAX,
                height <= u32::MAX,
        ;
        let expected: u64 = (width as u64) * (height as u64);
        if pixel_count as u64 != expected {
            return Err(IconError::Dimensions { width, height, pixel_count });
        }
        Ok(IconImage { rgba, width, height })
    }

    /// Width in pixels.
    pub fn width(&self) -> (width: u32)
        ensures
            width == self@.width,
    {
        self.width
    }

    /// Height in pixels.
    pub fn height(&self) -> (height: u32)
        ensures
            height == self@.height,
    {
        self.height
    }

    /// The pixels: four bytes for each, `width` times `height` of them.
    pub fn rgba(&self) -> (rgba: &Vec<u8>)
        ensures
            rgba@ == self@.rgba,
            rgba@.len() == 4 * (self@.width * self@.height),
    {
        proof {
            use_type_invariant(self);
        }
        &self.rgba
    }

    /// Gives the pixels up.
    pub fn into_rgba(self) -> (rgba: Vec<u8>)
        ensures
            rgba@ == self@.rgba,
            rgba@.len() == 4 * (self@.width * self@.height),
    {
        proof {
            use_type_invariant(&self);
        }
        self.rgba
    }
}

/// Decodes the icon in `bytes`, the contents of a PNG file.
pub fn load_application_icon(bytes: &[u8]) -> (icon: Result<IconImage, IconError>)
    ensures
        match icon {
            Ok(image) => icon_of(bytes@) == Ok::<IconView, IconError>(image@),
            Err(error) => icon_of(bytes@) == Err::<IconView, IconError>(error),
        },
{
    let header = match read_header(bytes) {
        Some(header) => header,
        None => {
            return Err(IconError::Undecodable);
        },
    };
    let size = match check_header(&header) {
        Ok(size) => size,
        Err(error) => {
            return Err(error);
        },
    };
    let mut rgba: Vec<u8> = vec![0u8; size];
    assert(rgba@ =~= blank(size as nat));
    if read_frame(bytes, &mut rgba) {
        IconImage::from_rgba(rgba, header.width, header.height)
    } else {
        Err(IconError::Unreadable)
    }
}

/// There is an icon exactly when the header decodes, the image is 8-bit RGBA,
/// its first frame decodes, and the frame holds four bytes for every pixel of
/// the header's dimensions. The icon then has the header's dimensions and the
/// decoded bytes as they are.
pub proof fn lemma_icon_exactly_when(bytes: Seq<u8>)
    ensures
        match png_header(bytes) {
            None => icon_of(bytes) == Err::<IconView, IconError>(IconError::Undecodable),
            Some(header) => if header.color != COLOR_RGBA || header.depth != DEPTH_EIGHT {
                icon_of(bytes) == Err::<IconView, IconError>(
                    IconError::UnsupportedFormat { color: header.color, depth: header.depth },
                )
            } else {
                match png_frame(bytes, blank(header.buffer_size as nat)) {
                    None => icon_of(bytes) == Err::<IconView, IconError>(IconError::Unreadable),
                    Some(rgba) => if rgba.len() == 4 * (header.width * header.height) {
                        icon_of(bytes) == Ok::<IconView, IconError>(
                            IconView { rgba, width: header.width, height: header.height },
                        )
                    } else {
                        icon_of(bytes) is Err
                    },
                }
            },
        },
{
}

/// An icon that was made holds four bytes for every pixel of its dimensions.
pub proof fn lemma_framed_fits(rgba: Seq<u8>, width: u32, height: u32)
    ensures
        framed(rgba, width, height) matches Ok(icon) ==> icon.rgba == rgba && icon.width == width
            && icon.height == height && rgba.len() == 4 * (width * height),
        framed(rgba, width, height) is Ok <==> rgba.len() == 4 * (width * height),
{
}

} // verus!
