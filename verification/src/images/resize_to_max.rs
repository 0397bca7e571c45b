//! The resizer: decodes one source image, derives one JPEG per requested
//! breakpoint width, largest first, and reports one outcome per width.
//!
//! Policy choices this implementation makes, stated once here:
//! - Target dimensions for every breakpoint are computed from the source
//!   image's original dimensions, so rounding never compounds across
//!   breakpoints and the derived edge is exactly the rounded ratio.
//! - The working image is chained in memory: each breakpoint resizes the
//!   previous (larger) derivative rather than re-decoding the original,
//!   and a failed write keeps the in-memory image, so one breakpoint's
//!   write failure never cascades into the next.

use vstd::multiset::Multiset;
use vstd::prelude::*;

use crate::config::load::Config;
use crate::jobs::image_processing::JobDescriptor;
use crate::text::{push_decimal, spec_dec_digits};

verus! {

/// One resize request of the inline (synchronous) entry point: resize the
/// file at `path` once per entry of `max_sizes`, naming outputs after
/// `new_name` where one is given and after the source file's stem
/// otherwise.
#[derive(Debug)]
pub struct ResizeImageJob {
    pub max_sizes: Vec<u32>,
    pub path: String,
    pub new_name: Option<String>,
}

/// Everything that can go wrong in the pipeline.  The first two are
/// job-fatal: no derivative is produced.  The last two belong to a single
/// breakpoint and leave the rest of the job running.
#[derive(Debug, Clone, Copy, PartialEq, Eq, Structural)]
pub enum PipelineError {
    /// The source image could not be read or decoded.
    DecodeError,
    /// The static-files root is not configured.
    ConfigError,
    /// No valid target size exists for this breakpoint.
    ResizeError,
    /// The JPEG encode or the filesystem write failed.
    EncodeOrWriteError,
}

/// What one breakpoint came to: the width asked for, whether its
/// derivative was written, and where, relative to the static-files root.
#[derive(Debug, Clone)]
pub struct ResizeOutcome {
    pub width: u32,
    pub success: bool,
    pub relative_path: Option<String>,
}

// ------------------------------------------------------------------
// Target dimensions
// ------------------------------------------------------------------

/// The integer nearest to `a / d`, halves rounding up.
pub open spec fn spec_round_div(a: int, d: int) -> int
    recommends
        d > 0,
{
    (2 * a + d) / (2 * d)
}

/// The dimensions a breakpoint asks for: the long edge is constrained to
/// `b` (width for landscape and square sources, height for portrait) and
/// the other edge follows the source's aspect ratio, rounded to the
/// nearest pixel.
pub open spec fn spec_target_dims(w: int, h: int, b: int) -> (int, int)
    recommends
        w > 0,
        h > 0,
{
    if w >= h {
        (b, spec_round_div(h * b, w))
    } else {
        (spec_round_div(w * b, h), b)
    }
}

/// The plan for one breakpoint, if a representable one exists: both target
/// edges must come out between 1 and `u32::MAX`.
pub open spec fn spec_plan_dims(w: u32, h: u32, b: u32) -> Option<(u32, u32)> {
    if w == 0 || h == 0 || b == 0 {
        None
    } else {
        let t = spec_target_dims(w as int, h as int, b as int);
        if 1 <= t.0 && t.0 <= u32::MAX && 1 <= t.1 && t.1 <= u32::MAX {
            Some((t.0 as u32, t.1 as u32))
        } else {
            None
        }
    }
}

/// Computes the plan for one breakpoint.
pub fn plan_dims(w: u32, h: u32, b: u32) -> (r: Option<(u32, u32)>)
    ensures
        r == spec_plan_dims(w, h, b),
{
    if w == 0 || h == 0 || b == 0 {
        return None;
    }
    if w >= h {
        proof {
            assert((h as int) * (b as int) <= 0xffffffff_int * 0xffffffff_int)
                by (nonlinear_arith)
                requires
                    h as int <= 0xffffffff_int,
                    b as int <= 0xffffffff_int,
            {
            }
        }
        let hb: u128 = (h as u128) * (b as u128);
        let num: u128 = 2 * hb + (w as u128);
        let den: u128 = 2 * (w as u128);
        let th: u128 = num / den;
        proof {
            assert(th == spec_round_div((h as int) * (b as int), w as int));
        }
        if th >= 1 && th <= u32::MAX as u128 {
            Some((b, th as u32))
        } else {
            None
        }
    } else {
        proof {
            assert((w as int) * (b as int) <= 0xffffffff_int * 0xffffffff_int)
                by (nonlinear_arith)
                requires
                    w as int <= 0xffffffff_int,
                    b as int <= 0xffffffff_int,
            {
            }
        }
        let wb: u128 = (w as u128) * (b as u128);
        let num: u128 = 2 * wb + (h as u128);
        let den: u128 = 2 * (h as u128);
        let tw: u128 = num / den;
        proof {
            assert(tw == spec_round_div((w as int) * (b as int), h as int));
        }
        if tw >= 1 && tw <= u32::MAX as u128 {
            Some((tw as u32, b))
        } else {
            None
        }
    }
}

/// Computes the plan for one breakpoint, as the pipeline reports it: a
/// breakpoint without a representable target size is a `ResizeError`.
pub fn plan_breakpoint(w: u32, h: u32, b: u32) -> (r: Result<(u32, u32), PipelineError>)
    ensures
        match r {
            Ok(d) => spec_plan_dims(w, h, b) == Some(d),
            Err(e) => spec_plan_dims(w, h, b) is None && e == PipelineError::ResizeError,
        },
{
    match plan_dims(w, h, b) {
        Some(d) => Ok(d),
        None => Err(PipelineError::ResizeError),
    }
}

/// Aspect-ratio preservation.  For a landscape (or square) source `w` by
/// `h` and breakpoint `b`, the planned derivative is exactly `b` wide and
/// its height is the integer nearest to `h * b / w`: it differs from the
/// exact ratio by at most half a pixel, stated here as an inequality on
/// integers.  Portrait sources satisfy the symmetric bound.
pub proof fn lemma_aspect_ratio_preserved(w: u32, h: u32, b: u32, tw: u32, th: u32)
    requires
        w >= h,
        spec_plan_dims(w, h, b) == Some((tw, th)),
    ensures
        tw == b,
        2 * (w as int) * (th as int) <= 2 * (h as int) * (b as int) + (w as int),
        2 * (h as int) * (b as int) - (w as int) < 2 * (w as int) * (th as int),
{
    let wi = w as int;
    let hi = h as int;
    let bi = b as int;
    let num = 2 * (hi * bi) + wi;
    let den = 2 * wi;
    let q = spec_round_div(hi * bi, wi);
    vstd::arithmetic::div_mod::lemma_fundamental_div_mod(num, den);
    assert(num == den * (num / den) + num % den);
    vstd::arithmetic::div_mod::lemma_mod_bound(num, den);
    assert(th == q);
    assert(den * q <= num) by (nonlinear_arith)
        requires
            num == den * q + num % den,
            num % den >= 0,
    {
    }
    assert(num < den * (q + 1)) by (nonlinear_arith)
        requires
            num == den * q + num % den,
            num % den < den,
    {
    }
    assert(2 * wi * (th as int) <= 2 * hi * bi + wi) by (nonlinear_arith)
        requires
            den * (th as int) <= num,
            den == 2 * wi,
            num == 2 * (hi * bi) + wi,
    {
    }
    assert(2 * hi * bi - wi < 2 * wi * (th as int)) by (nonlinear_arith)
        requires
            num < den * ((th as int) + 1),
            den == 2 * wi,
            num == 2 * (hi * bi) + wi,
    {
    }
}

/// The portrait half of aspect-ratio preservation: the height is
/// constrained to `b` and the width is the integer nearest to `w * b / h`.
pub proof fn lemma_aspect_ratio_preserved_portrait(w: u32, h: u32, b: u32, tw: u32, th: u32)
    requires
        w < h,
        spec_plan_dims(w, h, b) == Some((tw, th)),
    ensures
        th == b,
        2 * (h as int) * (tw as int) <= 2 * (w as int) * (b as int) + (h as int),
        2 * (w as int) * (b as int) - (h as int) < 2 * (h as int) * (tw as int),
{
    let wi = w as int;
    let hi = h as int;
    let bi = b as int;
    let num = 2 * (wi * bi) + hi;
    let den = 2 * hi;
    let q = spec_round_div(wi * bi, hi);
    vstd::arithmetic::div_mod::lemma_fundamental_div_mod(num, den);
    assert(num == den * (num / den) + num % den);
    vstd::arithmetic::div_mod::lemma_mod_bound(num, den);
    assert(tw == q);
    assert(den * q <= num) by (nonlinear_arith)
        requires
            num == den * q + num % den,
            num % den >= 0,
    {
    }
    assert(num < den * (q + 1)) by (nonlinear_arith)
        requires
            num == den * q + num % den,
            num % den < den,
    {
    }
    assert(2 * hi * (tw as int) <= 2 * wi * bi + hi) by (nonlinear_arith)
        requires
            den * (tw as int) <= num,
            den == 2 * hi,
            num == 2 * (wi * bi) + hi,
    {
    }
    assert(2 * wi * bi - hi < 2 * hi * (tw as int)) by (nonlinear_arith)
        requires
            num < den * ((tw as int) + 1),
            den == 2 * hi,
            num == 2 * (wi * bi) + hi,
    {
    }
}

// ------------------------------------------------------------------
// Output paths
// ------------------------------------------------------------------

/// Where one derivative lives, relative to the static-files root:
/// `images/{name}_{width}.jpeg`.
pub open spec fn spec_rel_path(name: Seq<char>, width: nat) -> Seq<char> {
    "images/"@ + name + "_"@ + spec_dec_digits(width) + ".jpeg"@
}

/// The same path under the static-files root `dir`.
pub open spec fn spec_full_path(dir: Seq<char>, name: Seq<char>, width: nat) -> Seq<char> {
    dir + "/"@ + spec_rel_path(name, width)
}

/// Builds the relative path of one derivative.
pub fn derivative_rel_path(output_name: &str, width: u32) -> (r: String)
    ensures
        r@ == spec_rel_path(output_name@, width as nat),
{
    let mut s = String::from_str("images/");
    s.append(output_name);
    s.append("_");
    push_decimal(&mut s, width);
    s.append(".jpeg");
    proof {
        assert(s@ =~= spec_rel_path(output_name@, width as nat));
    }
    s
}

/// Builds the full path of one derivative.
pub fn derivative_full_path(dir: &str, output_name: &str, width: u32) -> (r: String)
    ensures
        r@ == spec_full_path(dir@, output_name@, width as nat),
{
    let rel = derivative_rel_path(output_name, width);
    let mut s = String::from_str(dir);
    s.append("/");
    s.append(rel.as_str());
    proof {
        assert(s@ =~= spec_full_path(dir@, output_name@, width as nat));
    }
    s
}

// ------------------------------------------------------------------
// File stems
// ------------------------------------------------------------------

/// The characters after the last `/` of `s`.
pub open spec fn spec_base_name(s: Seq<char>) -> Seq<char>
    decreases s.len(),
{
    if s.len() == 0 {
        s
    } else if s.last() == '/' {
        Seq::empty()
    } else {
        spec_base_name(s.drop_last()).push(s.last())
    }
}

/// The index of the last `.` of `s`, or `-1` if there is none.
pub open spec fn spec_last_dot(s: Seq<char>) -> int
    decreases s.len(),
{
    if s.len() == 0 {
        -1
    } else if s.last() == '.' {
        s.len() - 1
    } else {
        spec_last_dot(s.drop_last())
    }
}

/// The stem of the file a path points at: what stands after the last
/// slash, with the part from the last dot stripped, unless that dot leads
/// the name.
pub open spec fn spec_file_stem(path: Seq<char>) -> Seq<char> {
    let base = spec_base_name(path);
    let d = spec_last_dot(base);
    if d <= 0 {
        base
    } else {
        base.subrange(0, d)
    }
}

/// Where the base name (what follows the last slash) of `path` begins.
fn base_start(path: &str) -> (start: usize)
    ensures
        start <= path@.len(),
        spec_base_name(path@) == path@.subrange(start as int, path@.len() as int),
{
    let len = path.unicode_len();
    let mut start: usize = 0;
    let mut i: usize = 0;
    while i < len
        invariant
            0 <= start <= i <= len,
            len == path@.len(),
            spec_base_name(path@.subrange(0, i as int)) == path@.subrange(start as int, i as int),
        decreases len - i,
    {
        proof {
            assert(path@.subrange(0, i + 1).drop_last() =~= path@.subrange(0, i as int));
            assert(path@.subrange(0, i + 1).last() == path@[i as int]);
        }
        if path.get_char(i) == '/' {
            start = i + 1;
        }
        proof {
            assert(spec_base_name(path@.subrange(0, i + 1)) =~= path@.subrange(
                start as int,
                i + 1,
            ));
        }
        i = i + 1;
    }
    proof {
        assert(path@.subrange(0, len as int) =~= path@);
    }
    start
}

/// The position of the last dot of `s`, if it has one.
fn last_dot(s: &str) -> (r: Option<usize>)
    ensures
        match r {
            Option::Some(d) => d < s@.len() && spec_last_dot(s@) == d as int,
            Option::None => spec_last_dot(s@) == -1,
        },
{
    let blen = s.unicode_len();
    let mut dot: usize = 0;
    let mut found = false;
    let mut j: usize = 0;
    while j < blen
        invariant
            0 <= j <= blen,
            blen == s@.len(),
            found ==> dot < j,
            spec_last_dot(s@.subrange(0, j as int)) == if found {
                dot as int
            } else {
                -1
            },
        decreases blen - j,
    {
        proof {
            assert(s@.subrange(0, j + 1).drop_last() =~= s@.subrange(0, j as int));
            assert(s@.subrange(0, j + 1).last() == s@[j as int]);
        }
        if s.get_char(j) == '.' {
            dot = j;
            found = true;
        }
        j = j + 1;
    }
    proof {
        assert(s@.subrange(0, blen as int) =~= s@);
    }
    if found {
        Some(dot)
    } else {
        None
    }
}

/// Extracts the stem of the file `path` points at.
pub fn file_stem(path: &str) -> (r: String)
    ensures
        r@ == spec_file_stem(path@),
{
    let len = path.unicode_len();
    let start = base_start(path);
    let base = path.substring_char(start, len);
    match last_dot(base) {
        Some(d) if d > 0 => {
            let stem = base.substring_char(0, d);
            String::from_str(stem)
        }
        _ => String::from_str(base),
    }
}

// ------------------------------------------------------------------
// Sorting the breakpoints
// ------------------------------------------------------------------

/// Whether `s` never grows from left to right.
pub open spec fn spec_sorted_desc(s: Seq<u32>) -> bool {
    forall|i: int, j: int| 0 <= i < j < s.len() ==> s[i] >= s[j]
}

/// Sorts the breakpoint widths into the descending order the pipeline
/// processes them in.
pub fn sort_widths_desc(input: Vec<u32>) -> (r: Vec<u32>)
    ensures
        r@.to_multiset() == input@.to_multiset(),
        spec_sorted_desc(r@),
        r@.len() == input@.len(),
{
    proof {
        broadcast use vstd::seq_lib::group_to_multiset_ensures;
    }
    let mut rest = input;
    let mut out: Vec<u32> = Vec::new();
    proof {
        assert(out@.to_multiset().add(rest@.to_multiset()) =~= input@.to_multiset());
    }
    while rest.len() > 0
        invariant
            out@.to_multiset().add(rest@.to_multiset()) == input@.to_multiset(),
            spec_sorted_desc(out@),
            forall|x: int, y: int|
                0 <= x < out@.len() && 0 <= y < rest@.len() ==> out@[x] >= rest@[y],
            out@.len() + rest@.len() == input@.len(),
        decreases rest.len(),
    {
        proof {
            broadcast use vstd::seq_lib::group_to_multiset_ensures;
        }
        let mut mi: usize = 0;
        let mut k: usize = 1;
        while k < rest.len()
            invariant
                0 <= mi < rest@.len(),
                1 <= k <= rest@.len(),
                forall|t: int| 0 <= t < k ==> rest@[mi as int] >= rest@[t],
            decreases rest.len() - k,
        {
            if rest[k] > rest[mi] {
                mi = k;
            }
            k = k + 1;
        }
        let ghost old_out = out@;
        let ghost old_rest = rest@;
        let v = rest.remove(mi);
        out.push(v);
        proof {
            assert(old_rest.to_multiset().contains(v));
            assert(out@.to_multiset() =~= old_out.to_multiset().insert(v));
            assert(rest@.to_multiset() =~= old_rest.to_multiset().remove(v));
            assert(out@.to_multiset().add(rest@.to_multiset()) =~= input@.to_multiset()) by {
                assert forall|x: u32| true implies out@.to_multiset().add(
                    rest@.to_multiset(),
                ).count(x) == input@.to_multiset().count(x) by {
                    assert(old_out.to_multiset().add(old_rest.to_multiset()).count(x)
                        == input@.to_multiset().count(x));
                }
            }
            assert forall|y: int| 0 <= y < rest@.len() implies v >= rest@[y] by {
                if y < mi {
                    assert(rest@[y] == old_rest[y]);
                } else {
                    assert(rest@[y] == old_rest[y + 1]);
                }
            }
        }
    }
    proof {
        assert(rest@.to_multiset() =~= Multiset::<u32>::empty());
        assert(out@.to_multiset() =~= input@.to_multiset());
    }
    out
}

/// Two descending orderings of the same multiset of widths are the same
/// sequence: the processed order is fully determined by what was asked.
pub proof fn lemma_sorted_desc_unique(a: Seq<u32>, b: Seq<u32>)
    requires
        spec_sorted_desc(a),
        spec_sorted_desc(b),
        a.to_multiset() == b.to_multiset(),
    ensures
        a == b,
    decreases a.len(),
{
    broadcast use vstd::seq_lib::group_to_multiset_ensures;

    assert(a.to_multiset().len() == a.len());
    assert(b.to_multiset().len() == b.len());
    if a.len() == 0 {
        assert(a =~= b);
    } else {
        assert(b.len() == a.len());
        assert(b.contains(b[0]));
        assert(b.to_multiset().count(b[0]) > 0);
        assert(a.to_multiset().count(b[0]) > 0);
        assert(a.contains(b[0]));
        assert(a.contains(a[0]));
        assert(a.to_multiset().count(a[0]) > 0);
        assert(b.to_multiset().count(a[0]) > 0);
        assert(b.contains(a[0]));
        let i = choose|i: int| 0 <= i < a.len() && a[i] == b[0];
        let j = choose|j: int| 0 <= j < b.len() && b[j] == a[0];
        assert(a[0] >= a[i]);
        assert(b[0] >= b[j]);
        assert(a[0] == b[0]);
        let at = a.drop_first();
        let bt = b.drop_first();
        assert(at =~= a.remove(0));
        assert(bt =~= b.remove(0));
        assert(at.to_multiset() =~= a.to_multiset().remove(a[0]));
        assert(bt.to_multiset() =~= b.to_multiset().remove(b[0]));
        assert(spec_sorted_desc(at)) by {
            assert forall|x: int, y: int| 0 <= x < y < at.len() implies at[x] >= at[y] by {
                assert(at[x] == a[x + 1]);
                assert(at[y] == a[y + 1]);
            }
        }
        assert(spec_sorted_desc(bt)) by {
            assert forall|x: int, y: int| 0 <= x < y < bt.len() implies bt[x] >= bt[y] by {
                assert(bt[x] == b[x + 1]);
                assert(bt[y] == b[y + 1]);
            }
        }
        lemma_sorted_desc_unique(at, bt);
        assert forall|k: int| 0 <= k < a.len() implies a[k] == b[k] by {
            if k > 0 {
                assert(a[k] == at[k - 1]);
                assert(b[k] == bt[k - 1]);
            }
        }
        assert(a =~= b);
    }
}

/// When the requested widths hold no duplicate, the processed order is
/// strictly descending.
pub proof fn lemma_strictly_descending(requested: Seq<u32>, processed: Seq<u32>)
    requires
        requested.no_duplicates(),
        processed.to_multiset() == requested.to_multiset(),
        spec_sorted_desc(processed),
    ensures
        forall|i: int, j: int| 0 <= i < j < processed.len() ==> processed[i] > processed[j],
{
    requested.lemma_multiset_has_no_duplicates();
    processed.lemma_multiset_has_no_duplicates_conv();
    assert forall|i: int, j: int| 0 <= i < j < processed.len() implies processed[i]
        > processed[j] by {
        assert(processed[i] >= processed[j]);
        assert(processed[i] != processed[j]);
    }
}


// ------------------------------------------------------------------
// The image calls the pipeline rests on
// ------------------------------------------------------------------

#[verifier::external_type_specification]
#[verifier::external_body]
pub struct ExDynamicImage(image::DynamicImage);

/// A decoded raster image together with its pixel dimensions; the trusted
/// wrappers below are the only place the two are tied together.
pub struct LoadedImage {
    inner: image::DynamicImage,
    width: u32,
    height: u32,
}

impl LoadedImage {
    /// The image's width in pixels.
    pub closed spec fn spec_width(&self) -> u32 {
        self.width
    }

    /// The image's height in pixels.
    pub closed spec fn spec_height(&self) -> u32 {
        self.height
    }

    /// Reads the width.
    pub fn width(&self) -> (r: u32)
        ensures
            r == self.spec_width(),
    {
        self.width
    }

    /// Reads the height.
    pub fn height(&self) -> (r: u32)
        ensures
            r == self.spec_height(),
    {
        self.height
    }
}

/// Relies on image::open: decodes the file at `path` and reads its
/// dimensions.  What comes back depends on what is on disk, so nothing is
/// promised of the result; the callers handle every outcome.
#[verifier::external_body]
fn open_image(path: &str) -> (r: Option<LoadedImage>) {
    match image::open(path) {
        Ok(img) => {
            let width = img.width();
            let height = img.height();
            Some(LoadedImage { inner: img, width, height })
        }
        Err(_) => None,
    }
}

/// Relies on DynamicImage::resize_exact with the Lanczos3 filter: per its
/// documentation, `nwidth` and `nheight` are the new image's dimensions.
#[verifier::external_body]
fn resize_image(img: &LoadedImage, w: u32, h: u32) -> (r: LoadedImage)
    requires
        w >= 1,
        h >= 1,
    ensures
        r.spec_width() == w,
        r.spec_height() == h,
{
    let resized = img.inner.resize_exact(w, h, image::imageops::FilterType::Lanczos3);
    LoadedImage { inner: resized, width: w, height: h }
}

/// Relies on DynamicImage::to_rgb8 and save_with_format: encodes the image
/// as JPEG and writes it at `path`.  Success depends on the filesystem and
/// the encoder, so only which of the two outcomes happened is returned.
#[verifier::external_body]
fn save_jpeg(img: &LoadedImage, path: &str) -> (r: bool) {
    img.inner.to_rgb8().save_with_format(path, image::ImageFormat::Jpeg).is_ok()
}

/// Encodes one derivative as JPEG and writes it; a refusal, whatever the
/// filesystem's reason, is an `EncodeOrWriteError`.
pub fn save_derivative(img: &LoadedImage, path: &str) -> (r: Result<(), PipelineError>)
    ensures
        r is Err ==> r->Err_0 == PipelineError::EncodeOrWriteError,
{
    if save_jpeg(img, path) {
        Ok(())
    } else {
        Err(PipelineError::EncodeOrWriteError)
    }
}

// ------------------------------------------------------------------
// Running one job
// ------------------------------------------------------------------

/// The widths of a run's outcomes, in their reported order.
pub open spec fn spec_outcome_widths(outs: Seq<ResizeOutcome>) -> Seq<u32> {
    outs.map_values(|o: ResizeOutcome| o.width)
}

/// One outcome is sound: a success names exactly the relative path its
/// derivative was written at, a failure names none.
pub open spec fn spec_outcome_consistent(o: ResizeOutcome, name: Seq<char>) -> bool {
    if o.success {
        o.relative_path matches Some(p) && p@ == spec_rel_path(name, o.width as nat)
    } else {
        o.relative_path is None
    }
}

/// The shape every outcome vector has: one outcome per requested width,
/// ordered by descending width whatever order was requested, each sound.
pub open spec fn spec_outcomes_wf(
    outs: Seq<ResizeOutcome>,
    widths: Seq<u32>,
    name: Seq<char>,
) -> bool {
    &&& outs.len() == widths.len()
    &&& spec_outcome_widths(outs).to_multiset() == widths.to_multiset()
    &&& spec_sorted_desc(spec_outcome_widths(outs))
    &&& forall|i: int| 0 <= i < outs.len() ==> spec_outcome_consistent(#[trigger] outs[i], name)
}

/// Runs the per-width loop over an already-decoded source (or over the
/// fact that decoding failed).  Verified for every value the decoder can
/// hand over: a missing image fails every width and reports the job-fatal
/// `DecodeError`; otherwise each width is planned from the original
/// dimensions, resized from the in-memory working image, and written.
pub fn process_decoded(
    img: Option<LoadedImage>,
    widths: Vec<u32>,
    output_name: &str,
    output_dir: &str,
) -> (r: (Vec<ResizeOutcome>, Option<PipelineError>))
    ensures
        spec_outcomes_wf(r.0@, widths@, output_name@),
        r.1 == if img is None {
            Some(PipelineError::DecodeError)
        } else {
            Option::<PipelineError>::None
        },
        img is None ==> forall|i: int| 0 <= i < r.0@.len() ==> !(#[trigger] r.0@[i]).success,
        // A width with no representable plan is reported failed.
        img matches Some(src) ==> forall|i: int|
            0 <= i < r.0@.len() ==> (spec_plan_dims(
                src.spec_width(),
                src.spec_height(),
                (#[trigger] r.0@[i]).width,
            ) is None ==> !r.0@[i].success),
{
    let sorted = sort_widths_desc(widths);
    let ghost sorted_view = sorted@;
    match img {
        None => {
            let mut outs: Vec<ResizeOutcome> = Vec::new();
            let mut i: usize = 0;
            while i < sorted.len()
                invariant
                    i == outs@.len(),
                    i <= sorted@.len(),
                    sorted@ == sorted_view,
                    spec_outcome_widths(outs@) == sorted@.subrange(0, i as int),
                    forall|k: int|
                        0 <= k < i ==> !(#[trigger] outs@[k]).success && outs@[k].relative_path
                            is None,
                decreases sorted@.len() - i,
            {
                let ghost prev = outs@;
                outs.push(ResizeOutcome { width: sorted[i], success: false, relative_path: None });
                proof {
                    assert(spec_outcome_widths(outs@) =~= sorted@.subrange(0, i + 1));
                }
                i = i + 1;
            }
            proof {
                assert(sorted@.subrange(0, sorted@.len() as int) =~= sorted@);
            }
            (outs, Some(PipelineError::DecodeError))
        }
        Some(src) => {
            let orig_w = src.width();
            let orig_h = src.height();
            let mut working = src;
            let mut outs: Vec<ResizeOutcome> = Vec::new();
            let mut i: usize = 0;
            while i < sorted.len()
                invariant
                    i == outs@.len(),
                    i <= sorted@.len(),
                    sorted@ == sorted_view,
                    orig_w == src.spec_width(),
                    orig_h == src.spec_height(),
                    spec_outcome_widths(outs@) == sorted@.subrange(0, i as int),
                    forall|k: int|
                        0 <= k < i ==> spec_outcome_consistent(#[trigger] outs@[k], output_name@),
                    forall|k: int|
                        0 <= k < i ==> (spec_plan_dims(orig_w, orig_h, (#[trigger] outs@[k]).width)
                            is None ==> !outs@[k].success),
                decreases sorted@.len() - i,
            {
                let b = sorted[i];
                match plan_breakpoint(orig_w, orig_h, b) {
                    Ok(dims) => {
                        let resized = resize_image(&working, dims.0, dims.1);
                        let full = derivative_full_path(output_dir, output_name, b);
                        let saved = save_derivative(&resized, full.as_str());
                        // The freshly resized image feeds the next, smaller
                        // breakpoint, written or not.
                        working = resized;
                        match saved {
                            Ok(_) => {
                                let rel = derivative_rel_path(output_name, b);
                                outs.push(
                                    ResizeOutcome {
                                        width: b,
                                        success: true,
                                        relative_path: Some(rel),
                                    },
                                );
                            }
                            Err(_) => {
                                outs.push(
                                    ResizeOutcome { width: b, success: false, relative_path: None },
                                );
                            }
                        }
                    }
                    Err(_) => {
                        outs.push(ResizeOutcome { width: b, success: false, relative_path: None });
                    }
                }
                proof {
                    assert(spec_outcome_widths(outs@) =~= sorted@.subrange(0, i + 1));
                }
                i = i + 1;
            }
            proof {
                assert(sorted@.subrange(0, sorted@.len() as int) =~= sorted@);
            }
            (outs, None)
        }
    }
}

/// Copies a width list.
fn copy_widths(v: &Vec<u32>) -> (r: Vec<u32>)
    ensures
        r@ == v@,
{
    let mut out: Vec<u32> = Vec::new();
    let mut i: usize = 0;
    while i < v.len()
        invariant
            i == out@.len(),
            i <= v@.len(),
            out@ == v@.subrange(0, i as int),
        decreases v@.len() - i,
    {
        out.push(v[i]);
        proof {
            assert(out@ =~= v@.subrange(0, i + 1));
        }
        i = i + 1;
    }
    proof {
        assert(v@.subrange(0, v@.len() as int) =~= v@);
    }
    out
}

/// Decodes the descriptor's source and derives one JPEG per requested
/// width under the descriptor's output directory.  The outcome vector
/// holds one entry per width in descending order; a fatal error is
/// reported beside it and means the source could not be decoded, in which
/// case every width is marked failed and nothing was written.
pub fn process_job(desc: &JobDescriptor) -> (r: (Vec<ResizeOutcome>, Option<PipelineError>))
    ensures
        spec_outcomes_wf(r.0@, desc.widths@, desc.output_name@),
        r.1 is Some ==> r.1 == Some(PipelineError::DecodeError) && forall|i: int|
            0 <= i < r.0@.len() ==> !(#[trigger] r.0@[i]).success,
{
    let img = open_image(desc.source_path.as_str());
    process_decoded(img, copy_widths(&desc.widths), desc.output_name.as_str(), desc.output_dir.as_str())
}

/// The stem derivatives of this inline job are named after: the given
/// name where one was supplied, the source file's stem otherwise.
pub open spec fn spec_job_output_name(job: ResizeImageJob) -> Seq<char> {
    match job.new_name {
        Some(n) => n@,
        None => spec_file_stem(job.path@),
    }
}

/// Runs one inline job against the configuration.  A missing
/// configuration is job-fatal (`ConfigError`), and so is a source path
/// without a usable file stem (`DecodeError`, as with an unreadable
/// source); either way every width is marked failed and no file is
/// written.
pub fn run_resize_job(job: &ResizeImageJob, config: Option<&Config>) -> (r: (
    Vec<ResizeOutcome>,
    Option<PipelineError>,
))
    ensures
        spec_outcomes_wf(r.0@, job.max_sizes@, spec_job_output_name(*job)),
        config is None ==> r.1 == Some(PipelineError::ConfigError) && forall|i: int|
            0 <= i < r.0@.len() ==> !(#[trigger] r.0@[i]).success,
        config is Some && spec_job_output_name(*job).len() == 0 ==> r.1 == Some(
            PipelineError::DecodeError,
        ) && forall|i: int| 0 <= i < r.0@.len() ==> !(#[trigger] r.0@[i]).success,
        r.1 is Some ==> forall|i: int| 0 <= i < r.0@.len() ==> !(#[trigger] r.0@[i]).success,
        // A job-fatal ConfigError means exactly that: with a loaded
        // configuration the job never reports one.
        config is Some ==> r.1 != Some(PipelineError::ConfigError),
{
    let name: String = match &job.new_name {
        Some(n) => n.clone(),
        None => file_stem(job.path.as_str()),
    };
    match config {
        None => {
            let sorted = sort_widths_desc(copy_widths(&job.max_sizes));
            let mut outs: Vec<ResizeOutcome> = Vec::new();
            let mut i: usize = 0;
            while i < sorted.len()
                invariant
                    i == outs@.len(),
                    i <= sorted@.len(),
                    spec_outcome_widths(outs@) == sorted@.subrange(0, i as int),
                    forall|k: int|
                        0 <= k < i ==> !(#[trigger] outs@[k]).success && outs@[k].relative_path
                            is None,
                decreases sorted@.len() - i,
            {
                outs.push(ResizeOutcome { width: sorted[i], success: false, relative_path: None });
                proof {
                    assert(spec_outcome_widths(outs@) =~= sorted@.subrange(0, i + 1));
                }
                i = i + 1;
            }
            proof {
                assert(sorted@.subrange(0, sorted@.len() as int) =~= sorted@);
            }
            (outs, Some(PipelineError::ConfigError))
        }
        Some(c) => {
            let dir = c.static_files_dir.clone();
            if name.unicode_len() == 0 {
                process_decoded(None, copy_widths(&job.max_sizes), name.as_str(), dir.as_str())
            } else {
                let img = open_image(job.path.as_str());
                process_decoded(img, copy_widths(&job.max_sizes), name.as_str(), dir.as_str())
            }
        }
    }
}

/// The inline entry point the upload route calls: one flag per requested
/// width, in the descending order the widths were processed in.  Without
/// a loaded configuration every width fails.
pub fn resize_to_max(job: &ResizeImageJob, config: Option<&Config>) -> (r: Vec<bool>)
    ensures
        r@.len() == job.max_sizes@.len(),
        config is None ==> forall|i: int| 0 <= i < r@.len() ==> !(#[trigger] r@[i]),
{
    let outcomes = run_resize_job(job, config);
    let outs = outcomes.0;
    let mut flags: Vec<bool> = Vec::new();
    let mut i: usize = 0;
    while i < outs.len()
        invariant
            i == flags@.len(),
            i <= outs@.len(),
            forall|k: int| 0 <= k < i ==> flags@[k] == (#[trigger] outs@[k]).success,
        decreases outs@.len() - i,
    {
        flags.push(outs[i].success);
        i = i + 1;
    }
    proof {
        if config is None {
            assert forall|k: int| 0 <= k < flags@.len() implies !flags@[k] by {
                assert(!outs@[k].success);
            }
        }
    }
    flags
}


/// Idempotence of a whole run: two outcome vectors for the same requested
/// widths report the same widths in the same order, and for a source of
/// one fixed size the pipeline plans identical pixel dimensions for each
/// of them, so running the same job twice derives images of identical
/// dimensions both times.
pub proof fn lemma_outcomes_deterministic(
    o1: Seq<ResizeOutcome>,
    o2: Seq<ResizeOutcome>,
    widths: Seq<u32>,
    name: Seq<char>,
    w: u32,
    h: u32,
)
    requires
        spec_outcomes_wf(o1, widths, name),
        spec_outcomes_wf(o2, widths, name),
    ensures
        spec_outcome_widths(o1) == spec_outcome_widths(o2),
        forall|i: int|
            0 <= i < o1.len() ==> spec_plan_dims(w, h, (#[trigger] o1[i]).width)
                == spec_plan_dims(w, h, o2[i].width),
{
    lemma_sorted_desc_unique(spec_outcome_widths(o1), spec_outcome_widths(o2));
    assert forall|i: int|
        0 <= i < o1.len() implies spec_plan_dims(w, h, (#[trigger] o1[i]).width)
        == spec_plan_dims(w, h, o2[i].width) by {
        assert(spec_outcome_widths(o1)[i] == o1[i].width);
        assert(spec_outcome_widths(o2)[i] == o2[i].width);
    }
}

} // verus!
