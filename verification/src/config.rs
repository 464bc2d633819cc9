//! The run configuration: the target URL, the output destination, the
//! viewport size, and the image format options, built once from the command
//! line and never mutated afterwards.

use vstd::prelude::*;
use vstd::string::StrSliceExecFns;

verus! {

/// The image format the browser is asked to encode the screenshot in.
#[derive(Clone, Copy, Debug, PartialEq, Eq, Structural)]
pub enum ImageFormat {
    Png,
    Jpeg,
}

/// The quality value sent with a capture request whenever the configured
/// quality does not apply (that is, whenever the format is not JPEG).
pub const DEFAULT_JPEG_QUALITY: u8 = 90;

/// One capture run's configuration.
pub struct Config {
    /// The URL the page is navigated to.
    pub url: String,
    /// The file path the image is written to when `base64` is not set.
    pub output: String,
    /// Viewport width, echoed into the result record.
    pub width: u32,
    /// Viewport height, echoed into the result record.
    pub height: u32,
    /// Capture beyond the visible viewport.
    pub full_page: bool,
    /// JPEG quality, 1 to 100; echoed for PNG but not applied.
    pub quality: u8,
    /// The requested image format.
    pub format: ImageFormat,
    /// Emit the image as a base64 payload instead of writing a file.
    pub base64: bool,
}

/// Character-for-character equality of two string slices.
pub fn str_eq(a: &str, b: &str) -> (r: bool)
    ensures
        r == (a@ == b@),
{
    let a_len: usize = a.unicode_len();
    let b_len: usize = b.unicode_len();
    if a_len != b_len {
        return false;
    }
    let mut i: usize = 0;
    while i < a_len
        invariant
            a_len == a@.len(),
            b_len == b@.len(),
            a_len == b_len,
            i <= a_len,
            forall|j: int| 0 <= j < i ==> a@[j] == b@[j],
        decreases a_len - i,
    {
        if a.get_char(i) != b.get_char(i) {
            return false;
        }
        i = i + 1;
    }
    proof {
        assert(a@ =~= b@);
    }
    true
}

/// The format selected by the format flag's text: "jpeg" and "jpg" select
/// JPEG, any other text selects PNG.
pub open spec fn spec_parse_format(s: Seq<char>) -> ImageFormat {
    if s == "jpeg"@ || s == "jpg"@ {
        ImageFormat::Jpeg
    } else {
        ImageFormat::Png
    }
}

/// Parse the format flag's text.
pub fn parse_format(s: &str) -> (r: ImageFormat)
    ensures
        r == spec_parse_format(s@),
{
    if str_eq(s, "jpeg") || str_eq(s, "jpg") {
        ImageFormat::Jpeg
    } else {
        ImageFormat::Png
    }
}

/// The canonical name of a format, as echoed in the result document.
pub open spec fn spec_format_name(f: ImageFormat) -> Seq<char> {
    match f {
        ImageFormat::Png => "png"@,
        ImageFormat::Jpeg => "jpeg"@,
    }
}

/// The canonical name of a format.
pub fn format_name(f: ImageFormat) -> (r: &'static str)
    ensures
        r@ == spec_format_name(f),
{
    match f {
        ImageFormat::Png => "png",
        ImageFormat::Jpeg => "jpeg",
    }
}

/// Parsing a format's canonical name yields that format back.
pub proof fn lemma_format_name_round_trip(f: ImageFormat)
    ensures
        spec_parse_format(spec_format_name(f)) == f,
{
    reveal_strlit("png");
    reveal_strlit("jpeg");
    reveal_strlit("jpg");
    assert("png"@.len() == 3);
    assert("jpeg"@.len() == 4);
    assert("png"@[0] == 'p');
    assert("jpg"@[0] == 'j');
}

} // verus!
