use vstd::prelude::*;

verus! {

// Native result codes of the decoding engine. Each categorized code is the
// negated little-endian four-byte tag shown beside it; the engine defines the
// three without a tag as plain negative numbers.
/// Tag 0xF8 'B' 'S' 'F'.
pub const AVERROR_BSF_NOT_FOUND: i32 = -1179861752;
/// Tag 'B' 'U' 'G' '!'.
pub const AVERROR_BUG: i32 = -558323010;
/// Tag 'B' 'U' 'F' 'S'.
pub const AVERROR_BUFFER_TOO_SMALL: i32 = -1397118274;
/// Tag 0xF8 'D' 'E' 'C'.
pub const AVERROR_DECODER_NOT_FOUND: i32 = -1128613112;
/// Tag 0xF8 'D' 'E' 'M'.
pub const AVERROR_DEMUXER_NOT_FOUND: i32 = -1296385272;
/// Tag 0xF8 'E' 'N' 'C'.
pub const AVERROR_ENCODER_NOT_FOUND: i32 = -1129203192;
/// Tag 'E' 'O' 'F' ' '.
pub const AVERROR_EOF: i32 = -541478725;
/// Tag 'E' 'X' 'I' 'T'.
pub const AVERROR_EXIT: i32 = -1414092869;
/// Tag 'E' 'X' 'T' ' '.
pub const AVERROR_EXTERNAL: i32 = -542398533;
/// Tag 0xF8 'F' 'I' 'L'.
pub const AVERROR_FILTER_NOT_FOUND: i32 = -1279870712;
/// Tag 'I' 'N' 'D' 'A'.
pub const AVERROR_INVALIDDATA: i32 = -1094995529;
/// Tag 0xF8 'M' 'U' 'X'.
pub const AVERROR_MUXER_NOT_FOUND: i32 = -1481985528;
/// Tag 0xF8 'O' 'P' 'T'.
pub const AVERROR_OPTION_NOT_FOUND: i32 = -1414549496;
/// Tag 'P' 'A' 'W' 'E'.
pub const AVERROR_PATCHWELCOME: i32 = -1163346256;
/// Tag 0xF8 'P' 'R' 'O'.
pub const AVERROR_PROTOCOL_NOT_FOUND: i32 = -1330794744;
/// Tag 0xF8 'S' 'T' 'R'.
pub const AVERROR_STREAM_NOT_FOUND: i32 = -1381258232;
/// Tag 'B' 'U' 'G' ' '.
pub const AVERROR_BUG2: i32 = -541545794;
/// Tag 'U' 'N' 'K' 'N'.
pub const AVERROR_UNKNOWN: i32 = -1313558101;
pub const AVERROR_EXPERIMENTAL: i32 = -733130664;
pub const AVERROR_INPUT_CHANGED: i32 = -1668179713;
pub const AVERROR_OUTPUT_CHANGED: i32 = -1668179714;
/// Tag 0xF8 '4' '0' '0'.
pub const AVERROR_HTTP_BAD_REQUEST: i32 = -808465656;
/// Tag 0xF8 '4' '0' '1'.
pub const AVERROR_HTTP_UNAUTHORIZED: i32 = -825242872;
/// Tag 0xF8 '4' '0' '3'.
pub const AVERROR_HTTP_FORBIDDEN: i32 = -858797304;
/// Tag 0xF8 '4' '0' '4'.
pub const AVERROR_HTTP_NOT_FOUND: i32 = -875574520;
/// Tag 0xF8 '4' 'X' 'X'.
pub const AVERROR_HTTP_OTHER_4XX: i32 = -1482175736;
/// Tag 0xF8 '5' 'X' 'X'.
pub const AVERROR_HTTP_SERVER_ERROR: i32 = -1482175992;

/// The `EAGAIN` errno (its value on Linux and Windows): as a native code
/// (`-EAGAIN`) it means "feed more input".
pub const EAGAIN: i32 = 11;

/// A categorized failure reported by the native engine.
///
/// Every code that is not one of the categorized tags is kept as `Other`,
/// holding the positive errno it wraps.
#[derive(Clone, Copy, Debug, PartialEq, Eq, Structural)]
pub enum AVError {
    BsfNotFound,
    Bug,
    BufferTooSmall,
    DecoderNotFound,
    DemuxerNotFound,
    EncoderNotFound,
    Eof,
    Exit,
    External,
    FilterNotFound,
    InvalidData,
    MuxerNotFound,
    OptionNotFound,
    PatchWelcome,
    ProtocolNotFound,
    StreamNotFound,
    Bug2,
    Unknown,
    Experimental,
    InputChanged,
    OutputChanged,
    HttpBadRequest,
    HttpUnauthorized,
    HttpForbidden,
    HttpNotFound,
    HttpOther4xx,
    HttpServerError,
    /// A native code that wraps a POSIX errno (for example `-EAGAIN`).
    Other(i32),
}

/// Negation as the engine performs it on 32-bit codes (the one value without a
/// positive counterpart stays as it is).
pub open spec fn neg_code(x: i32) -> i32 {
    if x == i32::MIN { x } else { (-x) as i32 }
}

/// The native code of a categorized kind; `Other(e)` stands for `-e`.
pub open spec fn code_of(e: AVError) -> i32 {
    match e {
        AVError::BsfNotFound => AVERROR_BSF_NOT_FOUND,
        AVError::Bug => AVERROR_BUG,
        AVError::BufferTooSmall => AVERROR_BUFFER_TOO_SMALL,
        AVError::DecoderNotFound => AVERROR_DECODER_NOT_FOUND,
        AVError::DemuxerNotFound => AVERROR_DEMUXER_NOT_FOUND,
        AVError::EncoderNotFound => AVERROR_ENCODER_NOT_FOUND,
        AVError::Eof => AVERROR_EOF,
        AVError::Exit => AVERROR_EXIT,
        AVError::External => AVERROR_EXTERNAL,
        AVError::FilterNotFound => AVERROR_FILTER_NOT_FOUND,
        AVError::InvalidData => AVERROR_INVALIDDATA,
        AVError::MuxerNotFound => AVERROR_MUXER_NOT_FOUND,
        AVError::OptionNotFound => AVERROR_OPTION_NOT_FOUND,
        AVError::PatchWelcome => AVERROR_PATCHWELCOME,
        AVError::ProtocolNotFound => AVERROR_PROTOCOL_NOT_FOUND,
        AVError::StreamNotFound => AVERROR_STREAM_NOT_FOUND,
        AVError::Bug2 => AVERROR_BUG2,
        AVError::Unknown => AVERROR_UNKNOWN,
        AVError::Experimental => AVERROR_EXPERIMENTAL,
        AVError::InputChanged => AVERROR_INPUT_CHANGED,
        AVError::OutputChanged => AVERROR_OUTPUT_CHANGED,
        AVError::HttpBadRequest => AVERROR_HTTP_BAD_REQUEST,
        AVError::HttpUnauthorized => AVERROR_HTTP_UNAUTHORIZED,
        AVError::HttpForbidden => AVERROR_HTTP_FORBIDDEN,
        AVError::HttpNotFound => AVERROR_HTTP_NOT_FOUND,
        AVError::HttpOther4xx => AVERROR_HTTP_OTHER_4XX,
        AVError::HttpServerError => AVERROR_HTTP_SERVER_ERROR,
        AVError::Other(errno) => neg_code(errno),
    }
}

/// Whether the kind is one of the categorized tags rather than a wrapped errno.
pub open spec fn is_categorized(e: AVError) -> bool {
    !(e is Other)
}

/// Whether a native code is the tag of some categorized kind.
pub open spec fn is_categorized_code(c: i32) -> bool {
    exists|e: AVError| is_categorized(e) && #[trigger] code_of(e) == c
}

/// The kind that a native code stands for.
pub open spec fn kind_of(c: i32) -> AVError {
    if is_categorized_code(c) {
        choose|e: AVError| is_categorized(e) && #[trigger] code_of(e) == c
    } else {
        AVError::Other(neg_code(c))
    }
}

/// No two categorized kinds share a code, so `kind_of` picks the one kind.
pub proof fn lemma_codes_distinct(a: AVError, b: AVError)
    requires
        is_categorized(a),
        is_categorized(b),
        code_of(a) == code_of(b),
    ensures
        a == b,
{
}

impl AVError {
    /// Maps a native result code to its kind: total, and without allocation.
    pub fn from_code(c: i32) -> (r: AVError)
        ensures
            r == kind_of(c),
            code_of(r) == c,
            forall|e: AVError| is_categorized(e) && #[trigger] code_of(e) == c ==> r == e,
    {
        let r = if c == AVERROR_BSF_NOT_FOUND {
            AVError::BsfNotFound
        } else if c == AVERROR_BUG {
            AVError::Bug
        } else if c == AVERROR_BUFFER_TOO_SMALL {
            AVError::BufferTooSmall
        } else if c == AVERROR_DECODER_NOT_FOUND {
            AVError::DecoderNotFound
        } else if c == AVERROR_DEMUXER_NOT_FOUND {
            AVError::DemuxerNotFound
        } else if c == AVERROR_ENCODER_NOT_FOUND {
            AVError::EncoderNotFound
        } else if c == AVERROR_EOF {
            AVError::Eof
        } else if c == AVERROR_EXIT {
            AVError::Exit
        } else if c == AVERROR_EXTERNAL {
            AVError::External
        } else if c == AVERROR_FILTER_NOT_FOUND {
            AVError::FilterNotFound
        } else if c == AVERROR_INVALIDDATA {
            AVError::InvalidData
        } else if c == AVERROR_MUXER_NOT_FOUND {
            AVError::MuxerNotFound
        } else if c == AVERROR_OPTION_NOT_FOUND {
            AVError::OptionNotFound
        } else if c == AVERROR_PATCHWELCOME {
            AVError::PatchWelcome
        } else if c == AVERROR_PROTOCOL_NOT_FOUND {
            AVError::ProtocolNotFound
        } else if c == AVERROR_STREAM_NOT_FOUND {
            AVError::StreamNotFound
        } else if c == AVERROR_BUG2 {
            AVError::Bug2
        } else if c == AVERROR_UNKNOWN {
            AVError::Unknown
        } else if c == AVERROR_EXPERIMENTAL {
            AVError::Experimental
        } else if c == AVERROR_INPUT_CHANGED {
            AVError::InputChanged
        } else if c == AVERROR_OUTPUT_CHANGED {
            AVError::OutputChanged
        } else if c == AVERROR_HTTP_BAD_REQUEST {
            AVError::HttpBadRequest
        } else if c == AVERROR_HTTP_UNAUTHORIZED {
            AVError::HttpUnauthorized
        } else if c == AVERROR_HTTP_FORBIDDEN {
            AVError::HttpForbidden
        } else if c == AVERROR_HTTP_NOT_FOUND {
            AVError::HttpNotFound
        } else if c == AVERROR_HTTP_OTHER_4XX {
            AVError::HttpOther4xx
        } else if c == AVERROR_HTTP_SERVER_ERROR {
            AVError::HttpServerError
        } else {
            let errno: i32 = if c == i32::MIN { c } else { -c };
            proof {
                assert forall|e: AVError| is_categorized(e) implies #[trigger] code_of(e) != c by {}
            }
            AVError::Other(errno)
        };
        proof {
            if is_categorized(r) {
                assert(code_of(r) == c);
                assert(is_categorized_code(c));
                let e = choose|e: AVError| is_categorized(e) && #[trigger] code_of(e) == c;
                lemma_codes_distinct(e, r);
                assert forall|e2: AVError| is_categorized(e2) && #[trigger] code_of(e2) == c implies r == e2 by {
                    lemma_codes_distinct(e2, r);
                }
            }
        }
        r
    }

    /// The native code that this kind stands for.
    pub fn code(&self) -> (r: i32)
        ensures
            r == code_of(*self),
    {
        match *self {
            AVError::BsfNotFound => AVERROR_BSF_NOT_FOUND,
            AVError::Bug => AVERROR_BUG,
            AVError::BufferTooSmall => AVERROR_BUFFER_TOO_SMALL,
            AVError::DecoderNotFound => AVERROR_DECODER_NOT_FOUND,
            AVError::DemuxerNotFound => AVERROR_DEMUXER_NOT_FOUND,
            AVError::EncoderNotFound => AVERROR_ENCODER_NOT_FOUND,
            AVError::Eof => AVERROR_EOF,
            AVError::Exit => AVERROR_EXIT,
            AVError::External => AVERROR_EXTERNAL,
            AVError::FilterNotFound => AVERROR_FILTER_NOT_FOUND,
            AVError::InvalidData => AVERROR_INVALIDDATA,
            AVError::MuxerNotFound => AVERROR_MUXER_NOT_FOUND,
            AVError::OptionNotFound => AVERROR_OPTION_NOT_FOUND,
            AVError::PatchWelcome => AVERROR_PATCHWELCOME,
            AVError::ProtocolNotFound => AVERROR_PROTOCOL_NOT_FOUND,
            AVError::StreamNotFound => AVERROR_STREAM_NOT_FOUND,
            AVError::Bug2 => AVERROR_BUG2,
            AVError::Unknown => AVERROR_UNKNOWN,
            AVError::Experimental => AVERROR_EXPERIMENTAL,
            AVError::InputChanged => AVERROR_INPUT_CHANGED,
            AVError::OutputChanged => AVERROR_OUTPUT_CHANGED,
            AVError::HttpBadRequest => AVERROR_HTTP_BAD_REQUEST,
            AVError::HttpUnauthorized => AVERROR_HTTP_UNAUTHORIZED,
            AVError::HttpForbidden => AVERROR_HTTP_FORBIDDEN,
            AVError::HttpNotFound => AVERROR_HTTP_NOT_FOUND,
            AVError::HttpOther4xx => AVERROR_HTTP_OTHER_4XX,
            AVError::HttpServerError => AVERROR_HTTP_SERVER_ERROR,
            AVError::Other(errno) => if errno == i32::MIN { errno } else { -errno },
        }
    }
}

/// Reading a code as a kind and writing the kind back gives the code again.
pub proof fn lemma_code_round_trip(c: i32)
    ensures
        code_of(kind_of(c)) == c,
{
    if is_categorized_code(c) {
        let e = choose|e: AVError| is_categorized(e) && #[trigger] code_of(e) == c;
        assert(code_of(e) == c);
    }
}

/// Checks a native result: a non-negative result is success, a negative one is
/// the failure that its code stands for.
pub fn cvt(ret: i32) -> (r: Result<(), AVError>)
    ensures
        ret >= 0 <==> r is Ok,
        ret < 0 ==> r == Err::<(), AVError>(kind_of(ret)),
{
    if ret >= 0 {
        Ok(())
    } else {
        Err(AVError::from_code(ret))
    }
}

} // verus!
