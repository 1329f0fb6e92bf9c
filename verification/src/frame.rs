//! Captured frames, and the pictures that are made of them.
use vstd::prelude::*;

verus! {

/// How the four bytes of a pixel are laid out.
#[derive(Debug, Clone, Copy, PartialEq, Eq, Structural)]
pub enum VideoFormat {
    RGBA,
    BGRA,
    /// Some other layout, by its number.
    Other(u32),
}

/// The layout and the size of a frame.
#[derive(Debug, Clone, Copy, PartialEq, Eq, Structural)]
pub struct VideoInfoRaw {
    pub format: VideoFormat,
    pub width: u32,
    pub height: u32,
}

impl VideoInfoRaw {
    /// What is known before a format was agreed on.
    pub fn unknown() -> (info: Self)
        ensures
            info == (VideoInfoRaw { format: VideoFormat::Other(0), width: 0, height: 0 }),
    {
        VideoInfoRaw { format: VideoFormat::Other(0), width: 0, height: 0 }
    }
}

/// The frame that was captured last. It has no data once it was taken.
#[derive(Debug)]
pub struct LatestFrame {
    pub data: Vec<u8>,
    pub info: VideoInfoRaw,
    /// When it was captured, in nanoseconds from some fixed moment on.
    pub ts: u128,
}

impl Clone for LatestFrame {
    fn clone(&self) -> (res: Self)
        ensures
            res.data@ == self.data@,
            res.info == self.info,
            res.ts == self.ts,
    {
        let data = self.data.clone();
        assert(data@ =~= self.data@);
        LatestFrame { data, info: self.info, ts: self.ts }
    }
}

impl LatestFrame {
    /// No frame has been captured yet.
    pub fn new(ts: u128) -> (frame: Self)
        ensures
            frame.data@ == Seq::<u8>::empty(),
            frame.info == (VideoInfoRaw { format: VideoFormat::Other(0), width: 0, height: 0 }),
            frame.ts == ts,
    {
        LatestFrame { data: Vec::new(), info: VideoInfoRaw::unknown(), ts }
    }

    /// Takes the frame's data, leaving it empty, and copies its info and its time.
    pub fn take(&mut self) -> (taken: Self)
        ensures
            taken == *old(self),
            final(self).data@ == Seq::<u8>::empty(),
            final(self).info == old(self).info,
            final(self).ts == old(self).ts,
    {
        let mut out = LatestFrame { data: Vec::new(), info: self.info, ts: self.ts };
        std::mem::swap(&mut self.data, &mut out.data);
        out
    }

    /// Puts in a frame that was captured at `ts`.
    pub fn store(&mut self, data_bytes: &[u8], info: VideoInfoRaw, ts: u128)
        ensures
            final(self).data@ == data_bytes@,
            final(self).info == info,
            final(self).ts == ts,
    {
        self.ts = ts;
        self.info = info;
        if self.data.len() < data_bytes.len() {
            let mut data_copy = vstd::slice::slice_to_vec(data_bytes);
            std::mem::swap(&mut data_copy, &mut self.data);
        } else {
            self.data.truncate(data_bytes.len());
            let mut i: usize = 0;
            while i < data_bytes.len()
                invariant
                    i <= data_bytes@.len(),
                    self.data@.len() == data_bytes@.len(),
                    self.info == info,
                    self.ts == ts,
                    forall|j: int| 0 <= j < i ==> self.data@[j] == data_bytes@[j],
                decreases data_bytes@.len() - i,
            {
                self.data.set(i, data_bytes[i]);
                i += 1;
            }
            assert(self.data@ =~= data_bytes@);
        }
    }
}

/// `data` with the first and the third byte of each group of four exchanged. The last group may
/// lack its fourth byte.
pub open spec fn bgra_swapped(data: Seq<u8>) -> Seq<u8> {
    Seq::new(
        data.len(),
        |i: int|
            if i % 4 == 0 {
                data[i + 2]
            } else if i % 4 == 2 {
                data[i - 2]
            } else {
                data[i]
            },
    )
}

/// Every group of four bytes has a third one, the last group included.
pub open spec fn has_whole_pixels(data: Seq<u8>) -> bool {
    data.len() % 4 == 0 || data.len() % 4 == 3
}

/// Exchanges the first and the third byte of each pixel.
pub fn swap_red_and_blue(data: &mut Vec<u8>)
    requires
        has_whole_pixels(old(data)@),
    ensures
        final(data)@ == bgra_swapped(old(data)@),
{
    let ghost before = data@;
    let len = data.len();
    let mut i: usize = 0;
    while i < len
        invariant
            has_whole_pixels(before),
            len == before.len(),
            data@.len() == len,
            i <= len,
            i % 4 == 0 || i == len,
            forall|j: int| 0 <= j < i ==> data@[j] == bgra_swapped(before)[j],
            forall|j: int| i <= j < len ==> data@[j] == before[j],
        decreases len - i,
    {
        let first = data[i];
        let third = data[i + 2];
        data.set(i, third);
        data.set(i + 2, first);
        i = if len - i < 4 {
            len
        } else {
            i + 4
        };
    }
    assert(data@ =~= bgra_swapped(before));
}

/// What `png` fails with.
#[verifier::external_type_specification]
#[verifier::external_body]
pub struct ExEncodingError(png::EncodingError);

/// Neither side is zero, and there are four bytes for each pixel.
pub open spec fn is_picture(width: u32, height: u32, rgba: Seq<u8>) -> bool {
    &&& width > 0
    &&& height > 0
    &&& rgba.len() == 4 * width * height
}

/// The bytes of a row, with the one that goes before it, can be counted in 32 bits, and those of all
/// rows in a `usize`.
pub open spec fn is_countable(width: u32, height: u32) -> bool {
    &&& 4 * width + 1 <= u32::MAX
    &&& (4 * width + 1) * height <= usize::MAX
}

/// The PNG file that `png::Encoder` writes for a picture with eight-bit red, green, blue and alpha.
pub uninterp spec fn png_file(width: u32, height: u32, rgba: Seq<u8>) -> Seq<u8>;

/// `png::Encoder`, told the size and that the colors are `Rgba`, writes a header, the image data and
/// the end of a PNG file into a vector. It succeeds if neither side is zero and there are four bytes
/// for each pixel. It multiplies the sides without a check, and counts a run of zeros within a row in
/// 32 bits, so both must be in range. What it writes depends on nothing but the picture.
#[verifier::external_body]
fn encode_rgba(width: u32, height: u32, rgba: &[u8]) -> (file: Result<Vec<u8>, png::EncodingError>)
    requires
        is_countable(width, height),
    ensures
        file is Ok <==> is_picture(width, height, rgba@),
        file is Ok ==> file->Ok_0@ == png_file(width, height, rgba@),
{
    let mut file: Vec<u8> = Vec::new();
    let mut encoder = png::Encoder::new(&mut file, width, height);
    encoder.set_color(png::ColorType::Rgba);
    let mut writer = encoder.write_header()?;
    writer.write_image_data(rgba)?;
    writer.finish()?;
    Ok(file)
}

/// Why a frame cannot be made into a picture.
#[derive(Debug, Clone, Copy, PartialEq, Eq, Structural)]
pub enum EncodeError {
    ZeroWidth,
    ZeroHeight,
    /// The frame does not have four bytes for each pixel.
    BufferSize,
}

/// The PNG file for a picture with eight-bit red, green, blue and alpha.
pub fn encode_png(width: u32, height: u32, rgba: &[u8]) -> (file: Result<Vec<u8>, EncodeError>)
    requires
        is_countable(width, height),
    ensures
        match file {
            Ok(bytes) => is_picture(width, height, rgba@) && bytes@ == png_file(
                width,
                height,
                rgba@,
            ),
            Err(EncodeError::ZeroWidth) => width == 0,
            Err(EncodeError::ZeroHeight) => width > 0 && height == 0,
            Err(EncodeError::BufferSize) => width > 0 && height > 0 && rgba@.len() != 4 * width
                * height,
        },
{
    match encode_rgba(width, height, rgba) {
        Ok(bytes) => Ok(bytes),
        Err(_) => if width == 0 {
            Err(EncodeError::ZeroWidth)
        } else if height == 0 {
            Err(EncodeError::ZeroHeight)
        } else {
            Err(EncodeError::BufferSize)
        },
    }
}

impl LatestFrame {
    /// The pixels of the frame as red, green, blue and alpha, if its layout is one of the two that
    /// are asked for.
    pub open spec fn rgba(self) -> Seq<u8> {
        if self.info.format == VideoFormat::BGRA {
            bgra_swapped(self.data@)
        } else {
            self.data@
        }
    }

    /// The frame is one that can be looked at without going out of bounds or out of range.
    pub open spec fn is_sound(self) -> bool {
        &&& self.info.format == VideoFormat::BGRA ==> has_whole_pixels(self.data@)
        &&& is_countable(self.info.width, self.info.height)
    }

    /// Whether the frame can be looked at without going out of bounds or out of range.
    pub fn check_sound(&self) -> (sound: bool)
        ensures
            sound == self.is_sound(),
    {
        let len = self.data.len();
        let whole = self.info.format != VideoFormat::BGRA || len % 4 == 0 || len % 4 == 3;
        let width = self.info.width as u128;
        let height = self.info.height as u128;
        assert((4 * width + 1) * height <= 5 * 0xffff_ffff * 0xffff_ffff) by (nonlinear_arith)
            requires
                width <= 0xffff_ffff,
                height <= 0xffff_ffff,
        ;
        whole && 4 * width + 1 <= u32::MAX as u128 && (4 * width + 1) * height <= usize::MAX as u128
    }

    /// The PNG file of the frame, if it has data.
    pub fn screenshot(self) -> (file: Result<Option<Vec<u8>>, EncodeError>)
        requires
            self.data@.len() > 0 ==> self.is_sound(),
        ensures
            self.data@.len() == 0 ==> file == Ok::<Option<Vec<u8>>, EncodeError>(None),
            self.data@.len() > 0 ==> match file {
                Ok(Some(bytes)) => is_picture(self.info.width, self.info.height, self.rgba())
                    && bytes@ == png_file(self.info.width, self.info.height, self.rgba()),
                Ok(None) => false,
                Err(EncodeError::ZeroWidth) => self.info.width == 0,
                Err(EncodeError::ZeroHeight) => self.info.width > 0 && self.info.height == 0,
                Err(EncodeError::BufferSize) => self.info.width > 0 && self.info.height > 0
                    && self.data@.len() != 4 * self.info.width * self.info.height,
            },
    {
        if self.data.len() == 0 {
            return Ok(None);
        }
        let LatestFrame { mut data, info, .. } = self;
        if info.format == VideoFormat::BGRA {
            swap_red_and_blue(&mut data);
        }
        match encode_png(info.width, info.height, data.as_slice()) {
            Ok(file) => Ok(Some(file)),
            Err(problem) => Err(problem),
        }
    }
}

} // verus!
