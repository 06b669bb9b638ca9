//! Raw RGBA images: four bytes for each pixel, row by row.

use crate::error::{ClipboardError, ErrorKind, Failure};
use vstd::prelude::*;
use vstd::string::*;

verus! {

/// An image as numbers: its size in pixels and its bytes.
pub struct Pixels {
    pub width: nat,
    pub height: nat,
    pub bytes: Seq<u8>,
}

impl Pixels {
    /// There are four bytes for each pixel, and each side fits in 32 bits.
    pub open spec fn well_formed(self) -> bool {
        &&& self.width <= u32::MAX
        &&& self.height <= u32::MAX
        &&& self.bytes.len() == self.width * self.height * 4
    }
}

/// The message of the failure that refuses an image whose bytes are not four
/// for each pixel, or whose sides do not fit in 32 bits.
pub open spec fn malformed_image_message() -> Seq<char> {
    "image data does not match its dimensions"@
}

/// The failure that refuses a malformed image.
pub open spec fn malformed_image() -> Failure {
    Failure { kind: ErrorKind::PlatformFailure, message: malformed_image_message() }
}

/// An RGBA image whose bytes are four for each pixel.
#[derive(Debug, PartialEq, Eq)]
pub struct ImageBuffer {
    width: u32,
    height: u32,
    bytes: Vec<u8>,
}

impl View for ImageBuffer {
    type V = Pixels;

    closed spec fn view(&self) -> Pixels {
        Pixels { width: self.width as nat, height: self.height as nat, bytes: self.bytes@ }
    }
}

impl Clone for ImageBuffer {
    fn clone(&self) -> (copy: ImageBuffer)
        ensures
            copy@ == self@,
    {
        proof {
            use_type_invariant(self);
        }
        let bytes = self.bytes.clone();
        ImageBuffer { width: self.width, height: self.height, bytes }
    }
}

impl ImageBuffer {
    #[verifier::type_invariant]
    spec fn four_bytes_per_pixel(self) -> bool {
        self.bytes@.len() == self.width * self.height * 4
    }

    /// An image of `width` by `height` pixels over `bytes`, where these are
    /// four for each pixel; the failure for a malformed image where not.
    pub fn new(width: u32, height: u32, bytes: Vec<u8>) -> (image: Result<
        ImageBuffer,
        ClipboardError,
    >)
        ensures
            (match image {
                Ok(buffer) => bytes@.len() == width * height * 4 && buffer@ == (Pixels {
                    width: width as nat,
                    height: height as nat,
                    bytes: bytes@,
                }),
                Err(error) => bytes@.len() != width * height * 4 && error@ == malformed_image(),
            }),
    {
        let pixels: u64 = Self::pixel_count(width, height);
        let length: u64 = bytes.len() as u64;
        if length % 4 == 0 && length / 4 == pixels {
            Ok(ImageBuffer { width, height, bytes })
        } else {
            Err(
                ClipboardError::PlatformFailure(
                    String::from_str("image data does not match its dimensions"),
                ),
            )
        }
    }

    /// The image that a platform handed over with sides as `usize`: accepted
    /// where each side fits in 32 bits and the bytes are four for each pixel.
    pub fn from_platform(width: usize, height: usize, bytes: Vec<u8>) -> (image: Result<
        ImageBuffer,
        ClipboardError,
    >)
        ensures
            (match image {
                Ok(buffer) => buffer@.well_formed() && buffer@ == (Pixels {
                    width: width as nat,
                    height: height as nat,
                    bytes: bytes@,
                }),
                Err(error) => !(Pixels {
                    width: width as nat,
                    height: height as nat,
                    bytes: bytes@,
                }).well_formed() && error@ == malformed_image(),
            }),
    {
        if width > u32::MAX as usize || height > u32::MAX as usize {
            return Err(
                ClipboardError::PlatformFailure(
                    String::from_str("image data does not match its dimensions"),
                ),
            );
        }
        Self::new(width as u32, height as u32, bytes)
    }

    /// The number of pixels of an image with these sides.
    fn pixel_count(width: u32, height: u32) -> (count: u64)
        ensures
            count == width * height,
    {
        assert(width * height <= 0xffff_ffff * 0xffff_ffff) by (nonlinear_arith)
            requires
                width <= 0xffff_ffff,
                height <= 0xffff_ffff,
        ;
        (width as u64) * (height as u64)
    }

    /// The width in pixels.
    pub fn width(&self) -> (width: u32)
        ensures
            width == self@.width,
    {
        self.width
    }

    /// The height in pixels.
    pub fn height(&self) -> (height: u32)
        ensures
            height == self@.height,
    {
        self.height
    }

    /// The bytes, four for each pixel.
    pub fn bytes(&self) -> (bytes: &Vec<u8>)
        ensures
            bytes@ == self@.bytes,
            bytes@.len() == self@.width * self@.height * 4,
            self@.well_formed(),
    {
        proof {
            use_type_invariant(self);
        }
        &self.bytes
    }

    /// Gives the bytes to the caller, who owns them from then on.
    pub fn into_bytes(self) -> (bytes: Vec<u8>)
        ensures
            bytes@ == self@.bytes,
            bytes@.len() == self@.width * self@.height * 4,
    {
        proof {
            use_type_invariant(&self);
        }
        self.bytes
    }
}

} // verus!
