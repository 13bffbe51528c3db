//! The code scanner: it decodes the first code region found in a captured
//! frame and accepts the decoded string only when it carries the expected
//! login scheme; everything else counts as nothing found.

use vstd::prelude::*;
use vstd::string::StrSliceExecFns;

verus! {

/// One still frame from a display, as single-channel luminance values in
/// row-major order.
pub struct Frame {
    pub width: usize,
    pub height: usize,
    pub pixels: Vec<u8>,
}

impl Frame {
    /// The pixel buffer covers the stated dimensions exactly.
    pub open spec fn wf(&self) -> bool {
        self.pixels@.len() == self.width * self.height
    }

    /// Builds a frame, refusing a buffer that does not match the dimensions.
    pub fn new(width: usize, height: usize, pixels: Vec<u8>) -> (r: Option<Frame>)
        ensures
            pixels@.len() == width * height ==> (r matches Some(f)
                && f.width == width && f.height == height && f.pixels@ == pixels@ && f.wf()),
            pixels@.len() != width * height ==> r is None,
    {
        let len = pixels.len();
        match width.checked_mul(height) {
            Some(n) => {
                if n == len {
                    Some(Frame { width, height, pixels })
                } else {
                    None
                }
            },
            None => None,
        }
    }
}

/// The pattern stands in `s` at position `i`.
pub open spec fn contains_seq_at(s: Seq<char>, p: Seq<char>, i: int) -> bool {
    &&& 0 <= i
    &&& i + p.len() <= s.len()
    &&& forall|t: int| 0 <= t < p.len() ==> s[i + t] == p[t]
}

/// The pattern stands somewhere in `s`.
pub open spec fn contains_seq(s: Seq<char>, p: Seq<char>) -> bool {
    exists|i: int| contains_seq_at(s, p, i)
}

/// The scheme prefix a decoded string must carry to count as a login code.
pub open spec fn login_scheme() -> Seq<char> {
    "https://s.team/q/"@
}

/// A decoded string is a login code exactly when it carries the scheme.
pub open spec fn is_login_code(s: Seq<char>) -> bool {
    contains_seq(s, login_scheme())
}

/// The scheme prefix, for executable checks.
pub fn login_scheme_str() -> (p: &'static str)
    ensures
        p@ == login_scheme(),
{
    "https://s.team/q/"
}

/// The pattern matches `s` character by character at position `i`.
fn match_at(s: &str, p: &str, i: usize) -> (r: bool)
    requires
        i + p@.len() <= s@.len(),
        s@.len() <= usize::MAX,
    ensures
        r == contains_seq_at(s@, p@, i as int),
{
    let m = p.unicode_len();
    let mut j: usize = 0;
    while j < m
        invariant
            m == p@.len(),
            i + m <= s@.len(),
            s@.len() <= usize::MAX,
            j <= m,
            forall|t: int| 0 <= t < j ==> s@[i + t] == p@[t],
        decreases m - j,
    {
        if s.get_char(i + j) != p.get_char(j) {
            proof {
                assert(!(forall|t: int| 0 <= t < p@.len() ==> s@[i + t] == p@[t])) by {
                    assert(s@[i + j as int] != p@[j as int]);
                }
            }
            return false;
        }
        j = j + 1;
    }
    true
}

/// Whether `p` stands somewhere in `s`.
pub fn contains_pattern(s: &str, p: &str) -> (r: bool)
    ensures
        r == contains_seq(s@, p@),
{
    let n = s.unicode_len();
    let m = p.unicode_len();
    if m > n {
        proof {
            assert(forall|i: int| !contains_seq_at(s@, p@, i));
        }
        return false;
    }
    let mut i: usize = 0;
    while i <= n - m
        invariant
            n == s@.len(),
            m == p@.len(),
            m <= n,
            i <= n - m + 1,
            forall|t: int| 0 <= t < i ==> !contains_seq_at(s@, p@, t),
        decreases n - m + 1 - i,
    {
        if match_at(s, p, i) {
            proof {
                assert(contains_seq_at(s@, p@, i as int));
            }
            return true;
        }
        i = i + 1;
    }
    proof {
        assert(forall|t: int| i <= t ==> !contains_seq_at(s@, p@, t));
    }
    false
}

/// Outcome of scanning one frame.
pub enum ScanResult {
    /// A code carrying the login scheme, with its exact decoded text.
    Decoded(String),
    /// No code, an undecodable code, or a code of another scheme.
    NotFound,
}

/// Mathematical image of a `ScanResult`.
pub enum ScanResultView {
    Decoded(Seq<char>),
    NotFound,
}

impl View for ScanResult {
    type V = ScanResultView;

    open spec fn view(&self) -> ScanResultView {
        match self {
            ScanResult::Decoded(s) => ScanResultView::Decoded(s@),
            ScanResult::NotFound => ScanResultView::NotFound,
        }
    }
}

/// What an optional decoded string holds, as a mathematical value.
pub open spec fn code_view(r: Option<String>) -> Option<Seq<char>> {
    match r {
        Some(s) => Some(s@),
        None => None,
    }
}

/// What scanning yields for a given decode result: the exact decoded text
/// when it carries the login scheme, nothing otherwise.
pub open spec fn spec_classify(code: Option<Seq<char>>) -> ScanResultView {
    match code {
        Some(s) => if is_login_code(s) {
            ScanResultView::Decoded(s)
        } else {
            ScanResultView::NotFound
        },
        None => ScanResultView::NotFound,
    }
}

/// The decoded text of the first code region in a luminance image, if the
/// region decodes at all; a function of the pixel values alone.
pub uninterp spec fn first_code_of(width: nat, height: nat, pixels: Seq<u8>) -> Option<Seq<char>>;

/// Relies on rqrr: `PreparedImage::prepare_from_greyscale` builds the
/// detector's image from the given luminance values, `detect_grids` finds
/// the candidate code regions, and `Grid::decode` decodes the first one;
/// the outcome is computed from the pixel values alone.
#[verifier::external_body]
fn decode_first_code(frame: &Frame) -> (r: Option<String>)
    requires
        frame.wf(),
    ensures
        code_view(r) == first_code_of(frame.width as nat, frame.height as nat, frame.pixels@),
{
    let w = frame.width;
    let mut img = rqrr::PreparedImage::prepare_from_greyscale(w, frame.height, |x, y| {
        frame.pixels[y * w + x]
    });
    let grids = img.detect_grids();
    match grids.first() {
        None => None,
        Some(grid) => match grid.decode() {
            Ok((_, content)) => Some(content),
            Err(_) => None,
        },
    }
}

/// Scans one frame: decodes the first code region and validates the text
/// against the login scheme. A structurally valid code of another scheme is
/// indistinguishable from nothing found.
pub fn scan(frame: &Frame) -> (r: ScanResult)
    requires
        frame.wf(),
    ensures
        r@ == spec_classify(first_code_of(frame.width as nat, frame.height as nat, frame.pixels@)),
{
    classify_decoded(decode_first_code(frame))
}

/// Validates a decode result: the exact decoded text is kept when it carries
/// the login scheme, and everything else counts as nothing found.
pub fn classify_decoded(code: Option<String>) -> (r: ScanResult)
    ensures
        r@ == spec_classify(code_view(code)),
{
    match code {
        Some(s) => {
            if contains_pattern(s.as_str(), login_scheme_str()) {
                ScanResult::Decoded(s)
            } else {
                ScanResult::NotFound
            }
        },
        None => ScanResult::NotFound,
    }
}

} // verus!
