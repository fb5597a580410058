use vstd::prelude::*;

verus! {

/// The block-based video codecs a decoder can be bound to.
#[derive(Clone, Copy, Debug, PartialEq, Eq, Structural)]
pub enum VpxCodec {
    VP8,
    VP9,
}

impl VpxCodec {
    /// The name under which the engine registers this codec's decoder.
    pub fn decoder_name(&self) -> (r: &'static str)
        ensures
            r@ == (match *self {
                VpxCodec::VP8 => "libvpx"@,
                VpxCodec::VP9 => "libvpx-vp9"@,
            }),
    {
        match *self {
            VpxCodec::VP8 => "libvpx",
            VpxCodec::VP9 => "libvpx-vp9",
        }
    }

    /// The name shown to a user when the decoder is missing.
    pub fn display_name(&self) -> (r: &'static str)
        ensures
            r@ == (match *self {
                VpxCodec::VP8 => "libvpx-vp8"@,
                VpxCodec::VP9 => "libvpx-vp9"@,
            }),
    {
        match *self {
            VpxCodec::VP8 => "libvpx-vp8",
            VpxCodec::VP9 => "libvpx-vp9",
        }
    }
}

} // verus!
