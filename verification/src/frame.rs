//! Pictures: the frame of the video display processor as an image of three
//! bytes per pixel, and that image enlarged.

use vstd::prelude::*;
use vstd::arithmetic::div_mod::lemma_fundamental_div_mod_converse;

verus! {

/// By how much a frame is enlarged, in each direction.
pub const UPSCALE: usize = 4;

/// An image as a plain value: its size in pixels and its bytes, row by row
/// from the top, three bytes for each pixel: red, green, blue.
pub ghost struct ImageView {
    pub width: nat,
    pub height: nat,
    pub pixels: Seq<u8>,
}

/// Whether the image holds exactly the bytes of its pixels.
pub open spec fn well_formed(image: ImageView) -> bool {
    image.pixels.len() == image.width * image.height * 3
}

/// The index of the byte of channel `c` (0 red, 1 green, 2 blue) of the pixel
/// in column `x` of row `y`, in an image `width` pixels wide.
pub open spec fn channel_index(width: nat, x: int, y: int, c: int) -> int {
    (y * width + x) * 3 + c
}

/// One channel of a packed sample: red in bits 16 to 23, green in bits 8 to
/// 15, blue in bits 0 to 7. Bits 24 to 31 do not count.
pub open spec fn sample_channel(sample: u32, c: int) -> u8 {
    if c == 0 {
        (sample / 0x1_0000 % 0x100) as u8
    } else if c == 1 {
        (sample / 0x100 % 0x100) as u8
    } else {
        (sample % 0x100) as u8
    }
}

/// The bytes of the image that a frame of `width` by `height` samples makes:
/// sample after sample, three bytes each.
pub open spec fn frame_pixels(width: nat, height: nat, samples: Seq<u32>) -> Seq<u8> {
    Seq::new(width * height * 3, |i: int| sample_channel(samples[i / 3], i % 3))
}

/// The image that a frame makes.
pub open spec fn frame_view(width: nat, height: nat, samples: Seq<u32>) -> ImageView {
    ImageView { width, height, pixels: frame_pixels(width, height, samples) }
}

/// The enlarged image: four times as wide and as high, and each of its
/// pixels the pixel of the given image at a quarter of its column and row.
pub open spec fn enlarged(image: ImageView) -> ImageView {
    ImageView {
        width: image.width * 4,
        height: image.height * 4,
        pixels: Seq::new(
            (image.width * 4) * (image.height * 4) * 3,
            |i: int|
                {
                    let pixel = i / 3;
                    let x = pixel % (image.width * 4) as int;
                    let y = pixel / (image.width * 4) as int;
                    image.pixels[channel_index(image.width, x / 4, y / 4, i % 3)]
                },
        ),
    }
}

/// Whether the enlarged image of a `width` by `height` image can be held.
pub open spec fn enlarged_fits(width: nat, height: nat) -> bool {
    &&& width * 4 <= usize::MAX
    &&& height * 4 <= usize::MAX
    &&& (width * 4) * (height * 4) * 3 <= usize::MAX
}

/// How a flat index and a column, row and channel go together.
pub proof fn lemma_channel_index(width: nat, height: nat, x: int, y: int, c: int)
    requires
        0 <= x < width,
        0 <= y < height,
        0 <= c < 3,
    ensures
        0 <= y * width + x < width * height,
        0 <= channel_index(width, x, y, c) < width * height * 3,
        channel_index(width, x, y, c) / 3 == y * width + x,
        channel_index(width, x, y, c) % 3 == c,
        (y * width + x) / (width as int) == y,
        (y * width + x) % (width as int) == x,
{
    let w = width as int;
    let h = height as int;
    assert(0 <= y * w && y * w + w <= w * h) by (nonlinear_arith)
        requires
            0 <= y < h,
            0 <= w,
    ;
    lemma_fundamental_div_mod_converse(channel_index(width, x, y, c), 3, y * w + x, c);
    lemma_fundamental_div_mod_converse(y * w + x, w, y, x);
}

/// Each pixel of a frame's image is the sample at its place, channel by
/// channel.
pub proof fn frame_pixel_is_sample(
    width: nat,
    height: nat,
    samples: Seq<u32>,
    x: int,
    y: int,
    c: int,
)
    requires
        0 <= x < width,
        0 <= y < height,
        0 <= c < 3,
    ensures
        well_formed(frame_view(width, height, samples)),
        frame_view(width, height, samples).pixels[channel_index(width, x, y, c)] == sample_channel(
            samples[y * width + x],
            c,
        ),
{
    lemma_channel_index(width, height, x, y, c);
}

/// Each pixel of the enlarged image is the pixel of the given image at a
/// quarter of its column and a quarter of its row.
pub proof fn enlarged_pixel_is_nearest(image: ImageView, x: int, y: int, c: int)
    requires
        0 <= x < image.width * 4,
        0 <= y < image.height * 4,
        0 <= c < 3,
    ensures
        well_formed(enlarged(image)),
        enlarged(image).pixels[channel_index(image.width * 4, x, y, c)] == image.pixels[channel_index(
            image.width,
            x / 4,
            y / 4,
            c,
        )],
{
    lemma_channel_index(image.width * 4, image.height * 4, x, y, c);
}

/// An image of three bytes per pixel.
#[derive(Debug, Clone, PartialEq, Eq)]
pub struct Image {
    width: usize,
    height: usize,
    pixels: Vec<u8>,
}

impl View for Image {
    type V = ImageView;

    closed spec fn view(&self) -> ImageView {
        ImageView { width: self.width as nat, height: self.height as nat, pixels: self.pixels@ }
    }
}

/// Why a frame or an image could not be turned into a picture.
#[derive(Debug, Clone, Copy, PartialEq, Eq, Structural)]
pub enum FrameError {
    /// The frame holds fewer samples than its width and height ask for.
    TooFewSamples,
    /// The picture would hold more bytes than can be addressed, or more
    /// pixels in one direction than a picture file can tell.
    TooLarge,
    /// The encoder refused the picture.
    NotEncoded,
}

/// The plain value of an image that may have failed.
pub open spec fn result_view(image: Result<Image, FrameError>) -> Result<ImageView, FrameError> {
    match image {
        Ok(i) => Ok(i@),
        Err(e) => Err(e),
    }
}

/// What a frame of `width` by `height` samples makes: its image, unless it
/// holds too few samples or the image cannot be held.
pub open spec fn framed(width: nat, height: nat, samples: Seq<u32>) -> Result<
    ImageView,
    FrameError,
> {
    if samples.len() < width * height {
        Err(FrameError::TooFewSamples)
    } else if width * height * 3 > usize::MAX {
        Err(FrameError::TooLarge)
    } else {
        Ok(frame_view(width, height, samples))
    }
}

/// What enlarging an image makes: the enlarged image, unless it cannot be
/// held.
pub open spec fn enlarged_or_error(image: ImageView) -> Result<ImageView, FrameError> {
    if enlarged_fits(image.width, image.height) {
        Ok(enlarged(image))
    } else {
        Err(FrameError::TooLarge)
    }
}

/// The encoder's error.
#[verifier::external_type_specification]
#[verifier::external_body]
pub struct ExImageError(image::error::ImageError);

/// The bytes of the PNG file that the encoder makes of a picture of the
/// given size and bytes, or nothing where it refuses the picture.
pub uninterp spec fn png_of(width: u32, height: u32, pixels: Seq<u8>) -> Option<Seq<u8>>;

/// Encodes with `image::codecs::png::PngEncoder::write_image`, at the
/// encoder's own settings and for three bytes per pixel, into memory.
///
/// The encoder stops the program where the number of bytes is not that of
/// the pixels, so the contract asks for it. It claims one thing: whether the
/// encoder succeeds, and with what file, depends on the size and the bytes of
/// the picture and on nothing else.
#[verifier::external_body]
fn png_encode(width: u32, height: u32, pixels: &[u8]) -> (file: Result<
    Vec<u8>,
    image::error::ImageError,
>)
    requires
        pixels@.len() == width * height * 3,
    ensures
        match file {
            Ok(bytes) => png_of(width, height, pixels@) == Some(bytes@),
            Err(_) => png_of(width, height, pixels@).is_none(),
        },
{
    let mut file: Vec<u8> = Vec::new();
    let encoder = image::codecs::png::PngEncoder::new(&mut file);
    image::ImageEncoder::write_image(encoder, pixels, width, height, image::ColorType::Rgb8)?;
    Ok(file)
}

/// The PNG file of an image: what the encoder makes of it, unless the image
/// is wider or higher than a file can tell or the encoder refuses it.
pub open spec fn encoded(image: ImageView) -> Result<Seq<u8>, FrameError> {
    if image.width > u32::MAX || image.height > u32::MAX {
        Err(FrameError::TooLarge)
    } else {
        match png_of(image.width as u32, image.height as u32, image.pixels) {
            Some(bytes) => Ok(bytes),
            None => Err(FrameError::NotEncoded),
        }
    }
}

/// The plain value of a file that may have failed.
pub open spec fn file_view(file: Result<Vec<u8>, FrameError>) -> Result<Seq<u8>, FrameError> {
    match file {
        Ok(bytes) => Ok(bytes@),
        Err(e) => Err(e),
    }
}

/// `a * b` where it can be held.
fn product(a: usize, b: usize) -> (p: Option<usize>)
    ensures
        p == (if a * b <= usize::MAX { Some((a * b) as usize) } else { None }),
{
    a.checked_mul(b)
}

impl Image {
    /// Whether the image holds exactly the bytes of its pixels. Every image
    /// that this module hands out does.
    pub open spec fn wf(&self) -> bool {
        well_formed(self@)
    }

    /// The image of the given size over the given bytes, if they are the
    /// bytes of `width` times `height` pixels.
    pub fn from_rgb(width: usize, height: usize, pixels: Vec<u8>) -> (image: Option<Image>)
        ensures
            image.is_some() <==> pixels@.len() == width * height * 3,
            image matches Some(i) ==> i.wf() && i@ == (ImageView {
                width: width as nat,
                height: height as nat,
                pixels: pixels@,
            }),
    {
        let given: usize = pixels.len();
        let fits = match product(width, height) {
            None => false,
            Some(count) => match product(count, 3) {
                None => false,
                Some(bytes) => bytes == given,
            },
        };
        if fits {
            Some(Image { width, height, pixels })
        } else {
            None
        }
    }

    /// The width in pixels.
    pub fn width(&self) -> (w: usize)
        ensures
            w == self@.width,
    {
        self.width
    }

    /// The height in pixels.
    pub fn height(&self) -> (h: usize)
        ensures
            h == self@.height,
    {
        self.height
    }

    /// The bytes of the pixels.
    pub fn pixels(&self) -> (bytes: &Vec<u8>)
        ensures
            bytes@ == self@.pixels,
    {
        &self.pixels
    }

    /// The image that a frame of packed samples makes. The frame may hold
    /// more samples than `width * height`; those behind do not count.
    pub fn from_frame(width: usize, height: usize, samples: &[u32]) -> (image: Result<
        Image,
        FrameError,
    >)
        ensures
            result_view(image) == framed(width as nat, height as nat, samples@),
            image matches Ok(i) ==> i.wf(),
    {
        let given: usize = samples.len();
        let count = match product(width, height) {
            None => {
                return Err(FrameError::TooFewSamples);
            },
            Some(count) => count,
        };
        if count > given {
            return Err(FrameError::TooFewSamples);
        }
        let bytes = match product(count, 3) {
            None => {
                return Err(FrameError::TooLarge);
            },
            Some(bytes) => bytes,
        };
        let mut pixels: Vec<u8> = Vec::with_capacity(bytes);
        let mut i: usize = 0;
        while i < count
            invariant
                i <= count,
                count == width * height,
                count <= samples@.len(),
                count * 3 == bytes,
                pixels@.len() == i * 3,
                forall|k: int|
                    0 <= k < i * 3 ==> pixels@[k] == #[trigger] sample_channel(
                        samples@[k / 3],
                        k % 3,
                    ),
            decreases count - i,
        {
            let sample: u32 = samples[i];
            let ghost before = pixels@;
            pixels.push((sample / 0x1_0000 % 0x100) as u8);
            pixels.push((sample / 0x100 % 0x100) as u8);
            pixels.push((sample % 0x100) as u8);
            assert forall|k: int| 0 <= k < (i + 1) * 3 implies pixels@[k] == #[trigger] sample_channel(
                samples@[k / 3],
                k % 3,
            ) by {
                if k >= i * 3 {
                    lemma_fundamental_div_mod_converse(k, 3, i as int, k - i * 3);
                } else {
                    assert(pixels@[k] == before[k]);
                }
            }
            i += 1;
        }
        assert(pixels@ =~= frame_pixels(width as nat, height as nat, samples@));
        Ok(Image { width, height, pixels })
    }

    /// The image as the bytes of a PNG file.
    pub fn to_png(&self) -> (file: Result<Vec<u8>, FrameError>)
        requires
            self.wf(),
        ensures
            file_view(file) == encoded(self@),
    {
        if self.width > u32::MAX as usize || self.height > u32::MAX as usize {
            return Err(FrameError::TooLarge);
        }
        match png_encode(self.width as u32, self.height as u32, self.pixels.as_slice()) {
            Ok(bytes) => Ok(bytes),
            Err(_) => Err(FrameError::NotEncoded),
        }
    }

    /// The image enlarged four times in each direction, every pixel of the
    /// given image repeated in a block of four by four.
    pub fn enlarge(&self) -> (image: Result<Image, FrameError>)
        requires
            self.wf(),
        ensures
            result_view(image) == enlarged_or_error(self@),
            image matches Ok(i) ==> i.wf(),
    {
        let wide = match product(self.width, UPSCALE) {
            None => {
                return Err(FrameError::TooLarge);
            },
            Some(wide) => wide,
        };
        let high = match product(self.height, UPSCALE) {
            None => {
                return Err(FrameError::TooLarge);
            },
            Some(high) => high,
        };
        let count = match product(wide, high) {
            None => {
                return Err(FrameError::TooLarge);
            },
            Some(count) => count,
        };
        let bytes = match product(count, 3) {
            None => {
                return Err(FrameError::TooLarge);
            },
            Some(bytes) => bytes,
        };
        let width = self.width;
        let total: usize = self.pixels.len();
        let mut pixels: Vec<u8> = Vec::with_capacity(bytes);
        let mut y: usize = 0;
        while y < high
            invariant
                self.wf(),
                width == self@.width,
                wide == width * 4,
                high == self@.height * 4,
                wide * high * 3 == bytes,
                y <= high,
                total == self.pixels@.len(),
                total == width * self@.height * 3,
                pixels@.len() == y * wide * 3,
                forall|k: int| 0 <= k < pixels@.len() ==> pixels@[k] == #[trigger] enlarged(self@).pixels[k],
            decreases high - y,
        {
            let mut x: usize = 0;
            while x < wide
                invariant
                    self.wf(),
                    width == self@.width,
                    wide == width * 4,
                    high == self@.height * 4,
                    wide * high * 3 == bytes,
                    y < high,
                    x <= wide,
                    total == self.pixels@.len(),
                    total == width * self@.height * 3,
                    pixels@.len() == (y * wide + x) * 3,
                    forall|k: int| 0 <= k < pixels@.len() ==> pixels@[k] == #[trigger] enlarged(self@).pixels[k],
                decreases wide - x,
            {
                proof {
                    lemma_channel_index(wide as nat, high as nat, x as int, y as int, 0);
                    lemma_channel_index(wide as nat, high as nat, x as int, y as int, 1);
                    lemma_channel_index(wide as nat, high as nat, x as int, y as int, 2);
                    let sx = x as int / 4;
                    let sy = y as int / 4;
                    lemma_channel_index(width as nat, self@.height, sx, sy, 0);
                    lemma_channel_index(width as nat, self@.height, sx, sy, 1);
                    lemma_channel_index(width as nat, self@.height, sx, sy, 2);
                    assert(0 <= sy * width) by (nonlinear_arith)
                        requires
                            0 <= sy,
                            0 <= width,
                    ;
                    assert(channel_index(width as nat, sx, sy, 2) < total);
                    assert((sy * width + sx) * 3 + 2 < total);
                }
                let from: usize = ((y / 4) * width + x / 4) * 3;
                let ghost before = pixels@;
                pixels.push(self.pixels[from]);
                pixels.push(self.pixels[from + 1]);
                pixels.push(self.pixels[from + 2]);
                assert forall|k: int| 0 <= k < pixels@.len() implies pixels@[k] == #[trigger] enlarged(
                    self@,
                ).pixels[k] by {
                    if k < before.len() {
                        assert(pixels@[k] == before[k]);
                    } else {
                        let c = k - before.len();
                        assert(k == channel_index(wide as nat, x as int, y as int, c));
                    }
                }
                assert((y * wide + x) * 3 + 3 == (y * wide + (x + 1)) * 3) by (nonlinear_arith);
                x += 1;
            }
            assert((y * wide + wide) * 3 == (y + 1) * wide * 3) by (nonlinear_arith);
            y += 1;
        }
        assert(pixels@.len() == wide * high * 3) by (nonlinear_arith)
            requires
                pixels@.len() == y * wide * 3,
                y == high,
        ;
        assert(pixels@ =~= enlarged(self@).pixels);
        Ok(Image { width: wide, height: high, pixels })
    }
}

} // verus!
