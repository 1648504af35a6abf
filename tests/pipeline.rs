use fren::cache::DEFAULT_CAPACITY;
use fren::job::{PDF_DPI, RASTERIZER};
use fren::preview::DEBOUNCE_MS;
use fren::{
    cache_key, coalesce, finish_decode, decode_limits, fit_to_box, fits_within, is_live, job_key,
    pdf_output_base, pdf_output_png, publish, quantize, rasterizer_args, render_decoded,
    CancelToken, CellBox, ImageKey, PaneView, PreviewCache, PreviewJob, PreviewResult,
    PreviewState, PreviewTarget,
};
use image::DynamicImage;
use ratatui::layout::Rect;
use ratatui_image::picker::Picker;
use ratatui_image::protocol::Protocol;
use ratatui_image::Resize;

fn picker() -> Picker {
    Picker::from_fontsize((8, 16))
}

fn artifact() -> Protocol {
    picker()
        .new_protocol(DynamicImage::new_rgb8(4, 4), Rect::new(0, 0, 2, 2), Resize::Fit(None))
        .unwrap()
}

fn key(path: &str, width: u16, height: u16) -> ImageKey {
    ImageKey { path: path.to_string(), width, height }
}

fn job(request_id: u64, path: &str, width: u16, height: u16, is_pdf: bool) -> PreviewJob {
    PreviewJob { request_id, path: path.to_string(), inner: CellBox { width, height }, is_pdf }
}

fn target(path: &str) -> Option<PreviewTarget> {
    Some(PreviewTarget { path: path.to_string(), is_pdf: path.ends_with(".pdf") })
}

#[test]
fn quantize_rounds_down_to_multiple_of_four() {
    assert_eq!(quantize(0), 0);
    assert_eq!(quantize(3), 0);
    assert_eq!(quantize(4), 4);
    assert_eq!(quantize(81), 80);
    assert_eq!(quantize(41), 40);
    assert_eq!(quantize(u16::MAX), 65532);
}

#[test]
fn quantize_is_idempotent_and_monotonic() {
    for v in 0..=200u16 {
        assert_eq!(quantize(quantize(v)), quantize(v));
        assert!(quantize(v) <= quantize(v + 1));
    }
}

#[test]
fn equal_buckets_give_equal_keys() {
    let path = "a.png".to_string();
    assert!(cache_key(&path, 80, 40) == cache_key(&path, 81, 41));
    assert!(cache_key(&path, 80, 40) == key("a.png", 80, 40));
    assert!(cache_key(&path, 80, 40) != cache_key(&path, 84, 40));
    assert!(job_key(&job(3, "a.png", 83, 43, false)) == key("a.png", 80, 40));
}

#[test]
fn cache_starts_empty_with_default_capacity() {
    let mut cache = PreviewCache::with_default_capacity();
    assert_eq!(cache.len(), 0);
    assert!(cache.get(&key("a.png", 80, 40)).is_none());
    for i in 0..(DEFAULT_CAPACITY + 5) {
        cache.put(key(&format!("f{}.png", i), 8, 8), artifact());
        assert!(cache.len() <= DEFAULT_CAPACITY);
    }
    assert_eq!(cache.len(), DEFAULT_CAPACITY);
}

#[test]
fn full_cache_evicts_least_recently_used() {
    let mut cache = PreviewCache::new(2);
    cache.put(key("a.png", 8, 8), artifact());
    cache.put(key("b.png", 8, 8), artifact());
    cache.put(key("c.png", 8, 8), artifact());
    assert_eq!(cache.len(), 2);
    assert!(cache.get(&key("a.png", 8, 8)).is_none());
    assert!(cache.get(&key("b.png", 8, 8)).is_some());
    assert!(cache.get(&key("c.png", 8, 8)).is_some());
}

#[test]
fn get_promotes_entry_before_eviction() {
    let mut cache = PreviewCache::new(2);
    cache.put(key("a.png", 8, 8), artifact());
    cache.put(key("b.png", 8, 8), artifact());
    assert!(cache.get(&key("a.png", 8, 8)).is_some());
    cache.put(key("c.png", 8, 8), artifact());
    assert!(cache.get(&key("b.png", 8, 8)).is_none());
    assert!(cache.get(&key("a.png", 8, 8)).is_some());
    assert!(cache.get(&key("c.png", 8, 8)).is_some());
}

#[test]
fn put_on_existing_key_overwrites_without_eviction() {
    let mut cache = PreviewCache::new(2);
    cache.put(key("a.png", 8, 8), artifact());
    cache.put(key("b.png", 8, 8), artifact());
    cache.put(key("a.png", 8, 8), artifact());
    assert_eq!(cache.len(), 2);
    cache.put(key("c.png", 8, 8), artifact());
    assert!(cache.get(&key("b.png", 8, 8)).is_none());
    assert!(cache.get(&key("a.png", 8, 8)).is_some());
}

#[test]
fn coalesce_keeps_newest_job() {
    let first = job(1, "a.png", 80, 40, false);
    assert_eq!(coalesce(first.clone(), vec![]).request_id, 1);
    let newest = coalesce(first, vec![job(2, "b.png", 80, 40, false), job(3, "c.png", 80, 40, false)]);
    assert_eq!(newest.request_id, 3);
    assert_eq!(newest.path, "c.png");
}

#[test]
fn liveness_follows_token() {
    assert!(is_live(4, 4));
    assert!(!is_live(3, 4));
    let token = CancelToken::new();
    assert_eq!(token.load(), 0);
    let worker_side = token.share();
    token.store(9);
    assert_eq!(worker_side.load(), 9);
}

#[test]
fn decode_limits_scale_cells_and_clamp() {
    assert_eq!(decode_limits(CellBox { width: 80, height: 40 }), (640, 640));
    assert_eq!(decode_limits(CellBox { width: 300, height: 200 }), (2048, 2048));
    assert_eq!(decode_limits(CellBox { width: 0, height: 0 }), (1, 1));
    assert_eq!(decode_limits(CellBox { width: 256, height: 128 }), (2048, 2048));
    assert_eq!(decode_limits(CellBox { width: 255, height: 127 }), (2040, 2032));
}

#[test]
fn fits_within_never_upscales() {
    assert!(fits_within(400, 300, 640, 640));
    assert!(fits_within(640, 640, 640, 640));
    assert!(!fits_within(641, 10, 640, 640));
    assert!(!fits_within(10, 641, 640, 640));
}

#[test]
fn fit_to_box_downscales_large_and_keeps_small() {
    let big = fit_to_box(DynamicImage::new_rgb8(400, 300), 80, 80);
    assert!(big.width() <= 80 && big.height() <= 80);
    assert!(big.width() < 400);
    let small = fit_to_box(DynamicImage::new_rgb8(40, 30), 80, 80);
    assert_eq!((small.width(), small.height()), (40, 30));
}

#[test]
fn pdf_output_is_named_by_generation() {
    assert_eq!(pdf_output_base(7), "/tmp/fm_preview_7");
    assert_eq!(pdf_output_base(0), "/tmp/fm_preview_0");
    assert_eq!(pdf_output_png(1234), "/tmp/fm_preview_1234.png");
    assert_eq!(pdf_output_png(u64::MAX), format!("/tmp/fm_preview_{}.png", u64::MAX));
    assert_ne!(pdf_output_png(1), pdf_output_png(2));
}

#[test]
fn rasterizer_args_ask_for_one_page_at_96_dpi() {
    assert_eq!(RASTERIZER, "pdftoppm");
    assert_eq!(PDF_DPI, 96);
    let args = rasterizer_args(&"doc.pdf".to_string(), 5);
    assert_eq!(
        args,
        vec!["-png", "-singlefile", "-r", "96", "doc.pdf", "/tmp/fm_preview_5"]
    );
}

#[test]
fn stale_decode_is_dropped() {
    let j = job(2, "a.png", 80, 40, false);
    assert!(render_decoded(&j, DynamicImage::new_rgb8(40, 30), 3, &picker()).is_none());
    assert!(render_decoded(&j, DynamicImage::new_rgb8(40, 30), 2, &picker()).is_some());
}

#[test]
fn publish_caches_only_produced_artifacts() {
    let mut cache = PreviewCache::new(4);
    let failed = publish(&mut cache, &job(1, "corrupt.jpg", 80, 40, false), None);
    assert_eq!(failed.generation, 1);
    assert!(failed.artifact.is_none());
    assert_eq!(cache.len(), 0);
    let done = publish(&mut cache, &job(2, "a.png", 81, 41, false), Some(artifact()));
    assert_eq!(done.generation, 2);
    assert!(done.artifact.is_some());
    assert_eq!(cache.len(), 1);
    assert!(cache.get(&key("a.png", 80, 40)).is_some());
}

#[test]
fn tick_outside_window_for_non_image_clears_state() {
    let mut state = PreviewState::new();
    let mut cache = PreviewCache::new(4);
    let token = CancelToken::new();
    let out = state.tick(0, vec![], None, CellBox { width: 80, height: 40 }, &mut cache, &token);
    assert_eq!(out.view, PaneView::NotPreviewable);
    assert!(out.job.is_none());
    assert!(!state.loading);
}

#[test]
fn image_is_decoded_once_then_served_from_cache() {
    let mut state = PreviewState::new();
    let mut cache = PreviewCache::new(DEFAULT_CAPACITY);
    let token = CancelToken::new();
    let pane = CellBox { width: 80, height: 40 };

    let out = state.tick(0, vec![], target("a.png"), pane, &mut cache, &token);
    assert_eq!(out.view, PaneView::Loading);
    let j = out.job.expect("a job for a.png");
    assert_eq!(j.request_id, 1);
    assert_eq!(j.path, "a.png");
    assert_eq!(token.load(), 1);
    assert!(state.loading);
    assert_eq!(state.deadline, Some(DEBOUNCE_MS));

    // the worker decodes a 400x300 image and publishes it
    let rendered = render_decoded(&j, DynamicImage::new_rgb8(400, 300), token.load(), &picker());
    let result = publish(&mut cache, &j, rendered);
    assert!(cache.get(&key("a.png", quantize(80), quantize(40))).is_some());

    let out = state.tick(100, vec![result], target("a.png"), pane, &mut cache, &token);
    assert_eq!(out.view, PaneView::Artifact);
    assert!(out.job.is_none());
    assert!(!state.loading);

    let resized = CellBox { width: 81, height: 41 };
    let out = state.tick(120, vec![], target("a.png"), resized, &mut cache, &token);
    assert_eq!(out.view, PaneView::Artifact);
    assert!(out.job.is_none());
    assert_eq!(token.load(), 1);
    assert_eq!(state.image_size, Some((81, 41)));
}

#[test]
fn pdf_job_names_its_output_by_generation() {
    let mut state = PreviewState::new();
    let mut cache = PreviewCache::new(4);
    let token = CancelToken::new();
    let out = state.tick(0, vec![], target("doc.pdf"), CellBox { width: 80, height: 40 }, &mut cache, &token);
    let j = out.job.expect("a job for doc.pdf");
    assert!(j.is_pdf);
    let args = rasterizer_args(&j.path, j.request_id);
    assert_eq!(args[3], "96");
    assert_eq!(args[5], format!("/tmp/fm_preview_{}", j.request_id));
    assert_eq!(pdf_output_png(j.request_id), format!("/tmp/fm_preview_{}.png", j.request_id));
}

#[test]
fn rapid_selection_dispatches_only_for_final_file() {
    let mut state = PreviewState::new();
    let mut cache = PreviewCache::new(4);
    let token = CancelToken::new();
    let pane = CellBox { width: 80, height: 40 };

    state.on_selection_change(0);
    let out = state.tick(16, vec![], target("a.png"), pane, &mut cache, &token);
    assert_eq!(out.view, PaneView::Settling);
    assert!(out.job.is_none());

    state.on_selection_change(30);
    let out = state.tick(46, vec![], target("b.png"), pane, &mut cache, &token);
    assert!(out.job.is_none());
    let out = state.tick(89, vec![], target("b.png"), pane, &mut cache, &token);
    assert!(out.job.is_none());

    let out = state.tick(90, vec![], target("b.png"), pane, &mut cache, &token);
    let j = out.job.expect("one job for b.png");
    assert_eq!(j.path, "b.png");
    assert_eq!(j.request_id, 1);

    // later ticks wait for that job's result instead of dispatching again
    for now in [100u64, 150, 151, 200, 300] {
        let out = state.tick(now, vec![], target("b.png"), pane, &mut cache, &token);
        assert!(out.job.is_none());
    }
    assert_eq!(token.load(), 1);
}

#[test]
fn failed_decode_shows_no_preview() {
    let mut state = PreviewState::new();
    let mut cache = PreviewCache::new(4);
    let token = CancelToken::new();
    let pane = CellBox { width: 80, height: 40 };

    let out = state.tick(0, vec![], target("corrupt.jpg"), pane, &mut cache, &token);
    let j = out.job.expect("a job for corrupt.jpg");
    let result = publish(&mut cache, &j, None);
    assert_eq!(cache.len(), 0);

    let out = state.tick(100, vec![result], target("corrupt.jpg"), pane, &mut cache, &token);
    assert_eq!(out.view, PaneView::NoPreview);
    assert!(out.job.is_none());
    assert!(!state.loading);
    assert!(state.image.is_none());
    assert_eq!(cache.len(), 0);

    // no automatic retry
    let out = state.tick(200, vec![], target("corrupt.jpg"), pane, &mut cache, &token);
    assert_eq!(out.view, PaneView::NoPreview);
    assert!(out.job.is_none());
}

#[test]
fn stale_result_does_not_replace_artifact() {
    let mut state = PreviewState::new();
    state.request_id = 5;
    state.loading = true;
    state.receive(vec![
        PreviewResult { generation: 3, artifact: Some(artifact()) },
        PreviewResult { generation: 4, artifact: None },
    ]);
    assert!(state.image.is_none());
    assert!(state.loading);
    state.receive(vec![
        PreviewResult { generation: 5, artifact: Some(artifact()) },
        PreviewResult { generation: 6, artifact: None },
    ]);
    assert!(state.image.is_some());
    assert!(!state.loading);
}

#[test]
fn small_pane_gets_placeholder_and_no_job() {
    let mut state = PreviewState::new();
    let mut cache = PreviewCache::new(4);
    let token = CancelToken::new();
    let out = state.tick(0, vec![], target("a.png"), CellBox { width: 9, height: 40 }, &mut cache, &token);
    assert_eq!(out.view, PaneView::Settling);
    assert!(out.job.is_none());
    let out = state.tick(0, vec![], target("a.png"), CellBox { width: 80, height: 4 }, &mut cache, &token);
    assert_eq!(out.view, PaneView::Settling);
    assert!(out.job.is_none());
    assert_eq!(token.load(), 0);
}

#[test]
fn selection_change_clears_association_and_arms_debounce() {
    let mut state = PreviewState::new();
    state.loading = true;
    state.image_path = Some("a.png".to_string());
    state.on_selection_change(1000);
    assert!(!state.loading);
    assert!(state.image_path.is_none());
    assert_eq!(state.deadline, Some(1000 + DEBOUNCE_MS));
    state.on_selection_change(u64::MAX - 1);
    assert_eq!(state.deadline, Some(u64::MAX));
}

#[test]
fn finish_decode_publishes_failure_and_drops_stale_work() {
    let j = job(7, "corrupt.jpg", 80, 40, false);
    let failed = finish_decode(&j, None, 7, &picker()).expect("failure is published");
    assert!(failed.is_none());

    let stale = finish_decode(&j, Some(DynamicImage::new_rgb8(8, 8)), 8, &picker());
    assert!(stale.is_none());

    let done = finish_decode(&j, Some(DynamicImage::new_rgb8(8, 8)), 7, &picker())
        .expect("live work is published");
    assert!(done.is_some());

    let mut cache = PreviewCache::new(4);
    let result = publish(&mut cache, &j, done);
    assert_eq!(result.generation, 7);
    assert!(cache.get(&key("corrupt.jpg", 80, 40)).is_some());
}
