use image::DynamicImage;
use ratatui::layout::Rect;
use ratatui_image::errors::Errors;
use ratatui_image::picker::Picker;
use ratatui_image::protocol::Protocol;
use ratatui_image::Resize;
use vstd::prelude::*;
use crate::cache::{put_result, PreviewCache};
use crate::job::{decode_limits, fits_within, job_key, key_view, CellBox, PreviewJob};

verus! {

#[verifier::external_type_specification]
#[verifier::external_body]
pub struct ExDynamicImage(DynamicImage);

#[verifier::external_type_specification]
#[verifier::external_body]
pub struct ExPicker(Picker);

#[verifier::external_type_specification]
#[verifier::external_body]
pub struct ExErrors(Errors);

/// Width in pixels of a decoded image.
pub uninterp spec fn image_width(img: DynamicImage) -> u32;

/// Height in pixels of a decoded image.
pub uninterp spec fn image_height(img: DynamicImage) -> u32;

/// Relies on `DynamicImage::width`.
#[verifier::external_body]
fn width_of(img: &DynamicImage) -> (r: u32)
    ensures
        r == image_width(*img),
{
    img.width()
}

/// Relies on `DynamicImage::height`.
#[verifier::external_body]
fn height_of(img: &DynamicImage) -> (r: u32)
    ensures
        r == image_height(*img),
{
    img.height()
}

/// Relies on `DynamicImage::thumbnail`: the image scaled down, aspect ratio
/// kept, to fit within `max_width` by `max_height`.
#[verifier::external_body]
fn thumbnail(img: &DynamicImage, max_width: u32, max_height: u32) -> (r: DynamicImage)
    requires
        max_width >= 1,
        max_height >= 1,
    ensures
        image_width(r) <= max_width,
        image_height(r) <= max_height,
{
    img.thumbnail(max_width, max_height)
}

/// Relies on `Picker::new_protocol`: encodes an image for the terminal,
/// fitted into an area of `area` cells. It may fail.
#[verifier::external_body]
fn new_protocol(picker: &Picker, img: DynamicImage, area: CellBox) -> (r: Result<Protocol, Errors>) {
    picker.new_protocol(img, Rect::new(0, 0, area.width, area.height), Resize::Fit(None))
}

/// Relies on the `Clone` of `Protocol`, which copies every field.
#[verifier::external_body]
fn clone_protocol(p: &Protocol) -> (r: Protocol)
    ensures
        r == *p,
{
    p.clone()
}

/// Scales `img` down to fit within `max_width` by `max_height`; an image that
/// already fits is kept as it is, and none is scaled up.
pub fn fit_to_box(img: DynamicImage, max_width: u32, max_height: u32) -> (r: DynamicImage)
    requires
        max_width >= 1,
        max_height >= 1,
    ensures
        image_width(img) <= max_width && image_height(img) <= max_height ==> r == img,
        image_width(r) <= max_width,
        image_height(r) <= max_height,
{
    let w = width_of(&img);
    let h = height_of(&img);
    if fits_within(w, h, max_width, max_height) {
        img
    } else {
        thumbnail(&img, max_width, max_height)
    }
}

/// Turns the decoded image of `job` into an artifact. `token` is the value of
/// the cancellation token read after the decode: when it has moved past the
/// job, the work is dropped. Otherwise the image is fitted to the job's
/// decode limits and encoded for the pane; `None` when encoding fails.
pub fn render_decoded(job: &PreviewJob, decoded: DynamicImage, token: u64, picker: &Picker) -> (r:
    Option<Protocol>)
    ensures
        token != job.request_id ==> r is None,
{
    if token != job.request_id {
        return None;
    }
    let (max_width, max_height) = decode_limits(job.inner);
    let fitted = fit_to_box(decoded, max_width, max_height);
    match new_protocol(picker, fitted, job.inner) {
        Ok(p) => Some(p),
        Err(_) => None,
    }
}

/// What the worker publishes for `job` once its artifact, if any, is known.
pub struct PreviewResult {
    pub generation: u64,
    pub artifact: Option<Protocol>,
}

/// Records the outcome of `job`: a produced artifact is stored in the cache
/// under the job's key, and the result carries the job's generation.
pub fn publish(cache: &mut PreviewCache, job: &PreviewJob, artifact: Option<Protocol>) -> (r:
    PreviewResult)
    requires
        old(cache).wf(),
    ensures
        final(cache).wf(),
        final(cache).capacity() == old(cache).capacity(),
        r.generation == job.request_id,
        r.artifact == artifact,
        artifact is None ==> final(cache)@ == old(cache)@,
        artifact is Some ==> final(cache)@ == put_result(
            old(cache)@,
            old(cache).capacity(),
            key_view(job.path@, job.inner.width, job.inner.height),
            artifact->0,
        ),
{
    match &artifact {
        Some(p) => {
            cache.put(job_key(job), clone_protocol(p));
        },
        None => {},
    }
    PreviewResult { generation: job.request_id, artifact }
}

/// What to publish for a job once its decode is done, or `None` when
/// nothing is: a failed decode is published with no artifact; a decode
/// whose job went stale meanwhile (`token` moved on) is dropped unpublished;
/// otherwise the image is fitted and encoded for the pane. No cache is
/// touched here, so the slow part runs without the cache's lock.
pub fn finish_decode(job: &PreviewJob, decoded: Option<DynamicImage>, token: u64, picker: &Picker) -> (r:
    Option<Option<Protocol>>)
    ensures
        decoded is None ==> r == Some(None::<Protocol>),
        decoded is Some && token != job.request_id ==> r is None,
        decoded is Some && token == job.request_id ==> r is Some,
{
    match decoded {
        None => Some(None),
        Some(img) => {
            if token != job.request_id {
                return None;
            }
            Some(render_decoded(job, img, token, picker))
        },
    }
}

} // verus!
