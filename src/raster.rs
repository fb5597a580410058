use vstd::prelude::*;

verus! {

/// Bytes per pixel of the target layout: red, green, blue, alpha.
pub const BYTES_PER_PIXEL: usize = 4;

/// Size and native pixel format of the frames of one decode session.
#[derive(Clone, Copy, Debug, PartialEq, Eq, Structural)]
pub struct StreamInfo {
    pub width: i32,
    pub height: i32,
    pub format: i32,
}

/// The number of bytes of a dense RGBA raster of the given size.
pub open spec fn raster_len(width: int, height: int) -> int {
    width * height * 4
}

/// What the caller needs to convert one frame: its size and format, and the
/// exact length of the buffer that the conversion fills.
#[derive(Clone, Copy, Debug, PartialEq, Eq, Structural)]
pub struct ConvertPlan {
    pub info: StreamInfo,
    pub byte_len: usize,
}

impl ConvertPlan {
    pub open spec fn wf(&self) -> bool {
        &&& self.info.width > 0
        &&& self.info.height > 0
        &&& self.byte_len == raster_len(self.info.width as int, self.info.height as int)
    }
}

/// The conversion plan for a frame of this size and format, or `None` when the
/// size is not positive or its raster length does not fit in `usize`.
pub fn plan_conversion(info: StreamInfo) -> (r: Option<ConvertPlan>)
    ensures
        r is Some <==> info.width > 0 && info.height > 0
            && raster_len(info.width as int, info.height as int) <= usize::MAX,
        r is Some ==> r->Some_0.info == info && r->Some_0.wf(),
{
    if info.width <= 0 || info.height <= 0 {
        return None;
    }
    let w = info.width as usize;
    let h = info.height as usize;
    match w.checked_mul(h) {
        None => {
            proof {
                assert(w * h <= raster_len(w as int, h as int)) by (nonlinear_arith)
                    requires w > 0, h > 0;
            }
            None
        },
        Some(pixels) => match pixels.checked_mul(BYTES_PER_PIXEL) {
            None => None,
            Some(byte_len) => Some(ConvertPlan { info, byte_len }),
        },
    }
}

/// A dense RGBA raster: one byte per channel, row-major, no padding.
pub struct Raster {
    width: u32,
    height: u32,
    pixels: Vec<u8>,
}

impl Raster {
    #[verifier::type_invariant]
    spec fn dense(&self) -> bool {
        self.pixels@.len() == raster_len(self.width as int, self.height as int)
    }

    pub closed spec fn spec_width(&self) -> nat {
        self.width as nat
    }

    pub closed spec fn spec_height(&self) -> nat {
        self.height as nat
    }

    pub closed spec fn spec_pixels(&self) -> Seq<u8> {
        self.pixels@
    }

    /// The buffer holds exactly four bytes for every pixel.
    pub open spec fn wf(&self) -> bool {
        self.spec_pixels().len() == raster_len(self.spec_width() as int, self.spec_height() as int)
    }

    /// Takes a filled buffer as a raster of the given size, or hands it back when
    /// its length is not that of a dense RGBA raster of that size.
    pub fn from_pixels(width: u32, height: u32, pixels: Vec<u8>) -> (r: Result<Raster, Vec<u8>>)
        ensures
            r is Ok <==> pixels@.len() == raster_len(width as int, height as int),
            r is Ok ==> r->Ok_0.wf() && r->Ok_0.spec_width() == width
                && r->Ok_0.spec_height() == height && r->Ok_0.spec_pixels() == pixels@,
            r is Err ==> r->Err_0@ == pixels@,
    {
        let w = width as u64;
        let h = height as u64;
        proof {
            assert(w * h <= u32::MAX as int * u32::MAX as int) by (nonlinear_arith)
                requires w <= u32::MAX, h <= u32::MAX;
        }
        let n: u64 = w * h;
        let len = pixels.len();
        if n > (usize::MAX / 4) as u64 {
            assert(raster_len(width as int, height as int) > usize::MAX);
            return Err(pixels);
        }
        let expected: usize = (n as usize) * 4;
        if len == expected {
            Ok(Raster { width, height, pixels })
        } else {
            Err(pixels)
        }
    }

    pub fn width(&self) -> (r: u32)
        ensures
            r == self.spec_width(),
    {
        self.width
    }

    pub fn height(&self) -> (r: u32)
        ensures
            r == self.spec_height(),
    {
        self.height
    }

    /// The pixel bytes; every raster holds exactly four for each pixel.
    pub fn pixels(&self) -> (r: &Vec<u8>)
        ensures
            r@ == self.spec_pixels(),
            self.wf(),
    {
        proof {
            use_type_invariant(self);
        }
        &self.pixels
    }

    pub fn into_pixels(self) -> (r: Vec<u8>)
        ensures
            r@ == self.spec_pixels(),
            r@.len() == raster_len(self.spec_width() as int, self.spec_height() as int),
    {
        proof {
            use_type_invariant(&self);
        }
        self.pixels
    }
}

} // verus!
