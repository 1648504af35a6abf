use vstd::prelude::*;
use crate::key::{quantize, quantized, ImageKey, KeyView};
use crate::text::{decimal, push_decimal, push_str};

verus! {

/// Width of one terminal cell in pixels, as assumed for decode limits.
pub const CELL_WIDTH_PX: u32 = 8;

/// Height of one terminal cell in pixels, as assumed for decode limits.
pub const CELL_HEIGHT_PX: u32 = 16;

/// Largest width or height in pixels that a preview is decoded at.
pub const MAX_DECODE_PX: u32 = 2048;

/// Resolution at which the first page of a PDF is rasterized.
pub const PDF_DPI: u32 = 96;

/// Size of the preview pane, in terminal cells.
#[derive(Clone, Copy, Debug, PartialEq, Eq)]
pub struct CellBox {
    pub width: u16,
    pub height: u16,
}

/// A request to render the preview of `path` into a pane of size `inner`.
/// `request_id` is the generation the request was dispatched under.
#[derive(Clone, Debug)]
pub struct PreviewJob {
    pub request_id: u64,
    pub path: String,
    pub inner: CellBox,
    pub is_pdf: bool,
}

/// The cache key of a path shown in a pane of `width` by `height`.
pub open spec fn key_view(path: Seq<char>, width: u16, height: u16) -> KeyView {
    (path, quantized(width as int) as u16, quantized(height as int) as u16)
}

/// Builds the cache key of `path` shown in a pane of `width` by `height`.
pub fn cache_key(path: &String, width: u16, height: u16) -> (r: ImageKey)
    ensures
        r@ == key_view(path@, width, height),
{
    ImageKey { path: path.clone(), width: quantize(width), height: quantize(height) }
}

/// Two pane sizes that quantize alike give the same cache key for a path.
pub proof fn lemma_equal_buckets_same_key(path: Seq<char>, w1: u16, h1: u16, w2: u16, h2: u16)
    requires
        quantized(w1 as int) == quantized(w2 as int),
        quantized(h1 as int) == quantized(h2 as int),
    ensures
        key_view(path, w1, h1) == key_view(path, w2, h2),
{
}

/// The key under which the result of `job` is cached.
pub fn job_key(job: &PreviewJob) -> (r: ImageKey)
    ensures
        r@ == key_view(job.path@, job.inner.width, job.inner.height),
{
    cache_key(&job.path, job.inner.width, job.inner.height)
}

/// Keeps the newest of a backlog of jobs: `first` was received first, then
/// `rest` in order. Every earlier job is void.
pub fn coalesce(first: PreviewJob, rest: Vec<PreviewJob>) -> (r: PreviewJob)
    ensures
        rest@.len() == 0 ==> r == first,
        rest@.len() > 0 ==> r == rest@.last(),
{
    let mut rest = rest;
    match rest.pop() {
        Some(last) => last,
        None => first,
    }
}

/// Whether a job of generation `request_id` is still the live one, given the
/// value of the cancellation token.
pub fn is_live(request_id: u64, token: u64) -> (r: bool)
    ensures
        r == (request_id == token),
{
    request_id == token
}

/// `v` clamped to the range of decode sizes.
pub open spec fn clamp_px(v: int) -> int {
    if v > MAX_DECODE_PX {
        MAX_DECODE_PX as int
    } else if v < 1 {
        1
    } else {
        v
    }
}

/// The box in pixels that a job's image is decoded to fit in: the pane's
/// size in cells times the cell size, between one and the decode maximum.
pub fn decode_limits(inner: CellBox) -> (r: (u32, u32))
    ensures
        r.0 == clamp_px(inner.width as int * CELL_WIDTH_PX as int),
        r.1 == clamp_px(inner.height as int * CELL_HEIGHT_PX as int),
{
    let w = clamp_u32(inner.width as u32 * CELL_WIDTH_PX);
    let h = clamp_u32(inner.height as u32 * CELL_HEIGHT_PX);
    (w, h)
}

fn clamp_u32(v: u32) -> (r: u32)
    ensures
        r == clamp_px(v as int),
{
    if v > MAX_DECODE_PX {
        MAX_DECODE_PX
    } else if v < 1 {
        1
    } else {
        v
    }
}

/// Whether an image of `width` by `height` pixels fits in the box as it is.
/// Images that do not fit are scaled down; none is scaled up.
pub fn fits_within(width: u32, height: u32, max_width: u32, max_height: u32) -> (r: bool)
    ensures
        r == (width <= max_width && height <= max_height),
{
    width <= max_width && height <= max_height
}

/// The external program that rasterizes the first page of a PDF to PNG.
pub const RASTERIZER: &'static str = "pdftoppm";

/// Prefix of the files that PDF pages are rasterized into.
pub open spec fn pdf_output_prefix() -> Seq<char> {
    seq!['/', 't', 'm', 'p', '/', 'f', 'm', '_', 'p', 'r', 'e', 'v', 'i', 'e', 'w', '_']
}

/// The output base that the rasterizer is given for generation `request_id`.
pub open spec fn pdf_base_view(request_id: u64) -> Seq<char> {
    pdf_output_prefix() + decimal(request_id as nat)
}

/// The PNG file that the rasterizer writes for generation `request_id`.
pub open spec fn pdf_png_view(request_id: u64) -> Seq<char> {
    pdf_base_view(request_id) + seq!['.', 'p', 'n', 'g']
}

/// The output base handed to the rasterizer; it names the job's generation,
/// so successive jobs never share a file.
pub fn pdf_output_base(request_id: u64) -> (r: String)
    ensures
        r@ == pdf_base_view(request_id),
{
    let mut s = String::new();
    push_str(&mut s, "/tmp/fm_preview_");
    proof {
        reveal_strlit("/tmp/fm_preview_");
        assert(s@ =~= pdf_output_prefix());
    }
    push_decimal(&mut s, request_id);
    s
}

/// The PNG file the rasterizer writes for generation `request_id`.
pub fn pdf_output_png(request_id: u64) -> (r: String)
    ensures
        r@ == pdf_png_view(request_id),
{
    let mut s = pdf_output_base(request_id);
    push_str(&mut s, ".png");
    proof {
        reveal_strlit(".png");
        assert(s@ =~= pdf_png_view(request_id));
    }
    s
}

/// Arguments of the rasterizer for a PDF job: one PNG of the first page at
/// the fixed resolution, written under the generation's output base.
pub fn rasterizer_args(path: &String, request_id: u64) -> (r: Vec<String>)
    ensures
        r@.len() == 6,
        r@[0]@ == seq!['-', 'p', 'n', 'g'],
        r@[1]@ == seq!['-', 's', 'i', 'n', 'g', 'l', 'e', 'f', 'i', 'l', 'e'],
        r@[2]@ == seq!['-', 'r'],
        r@[3]@ == decimal(PDF_DPI as nat),
        r@[4]@ == path@,
        r@[5]@ == pdf_base_view(request_id),
{
    let mut args: Vec<String> = Vec::new();
    args.push("-png".to_owned());
    args.push("-singlefile".to_owned());
    args.push("-r".to_owned());
    let mut dpi = String::new();
    push_decimal(&mut dpi, PDF_DPI as u64);
    args.push(dpi);
    args.push(path.clone());
    args.push(pdf_output_base(request_id));
    proof {
        reveal_strlit("-png");
        reveal_strlit("-singlefile");
        reveal_strlit("-r");
        assert(args@[0]@ =~= seq!['-', 'p', 'n', 'g']);
        assert(args@[1]@ =~= seq!['-', 's', 'i', 'n', 'g', 'l', 'e', 'f', 'i', 'l', 'e']);
        assert(args@[2]@ =~= seq!['-', 'r']);
        assert(args@[3]@ =~= decimal(PDF_DPI as nat));
    }
    args
}

} // verus!
