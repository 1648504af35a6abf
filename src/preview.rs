use ratatui_image::protocol::Protocol;
use vstd::prelude::*;
use crate::cache::{has_key, promoted, Entry, PreviewCache};
use crate::engine::PreviewResult;
use crate::job::{cache_key, key_view, lemma_equal_buckets_same_key, CellBox, PreviewJob};
use crate::key::quantized;
use crate::token::CancelToken;

verus! {

/// Quiet time, in milliseconds, that selection changes must leave before a
/// preview is looked up or requested.
pub const DEBOUNCE_MS: u64 = 60;

/// Panes narrower than this many cells get no preview work.
pub const MIN_PANE_WIDTH: u16 = 10;

/// Panes lower than this many cells get no preview work.
pub const MIN_PANE_HEIGHT: u16 = 5;

/// What the preview pane shows after a tick.
#[derive(Clone, Copy, Debug, PartialEq, Eq, Structural)]
pub enum PaneView {
    /// A placeholder while input settles, or for a pane too small to use.
    Settling,
    /// The artifact held in `PreviewState::image`.
    Artifact,
    /// A request is in flight.
    Loading,
    /// The last request produced nothing.
    NoPreview,
    /// The selection is not an image or a PDF; other panels preview it.
    NotPreviewable,
}

/// The selected file, when it is an image or a PDF.
pub struct PreviewTarget {
    pub path: String,
    pub is_pdf: bool,
}

/// What a tick asks of the caller: what to draw, and a job to send to the
/// worker, if any.
pub struct TickOutcome {
    pub view: PaneView,
    pub job: Option<PreviewJob>,
}

/// The UI side of the preview pipeline. `request_id` is the generation of
/// the latest request; `deadline` (milliseconds) holds preview work back
/// until input has been quiet, and results that arrive meanwhile wait in
/// `inbox`.
pub struct PreviewState {
    pub image: Option<Protocol>,
    pub image_path: Option<String>,
    pub image_size: Option<(u16, u16)>,
    pub loading: bool,
    pub deadline: Option<u64>,
    pub request_id: u64,
    pub inbox: Vec<PreviewResult>,
}

/// The characters of an optional path.
pub open spec fn opt_view(o: Option<String>) -> Option<Seq<char>> {
    match o {
        Some(p) => Some(p@),
        None => None,
    }
}

/// The end of a debounce window opened at `now`.
pub open spec fn debounce_end(now: u64) -> u64 {
    if now + DEBOUNCE_MS > u64::MAX {
        u64::MAX
    } else {
        (now + DEBOUNCE_MS) as u64
    }
}

/// The generation after `id`, wrapping around.
pub open spec fn next_generation(id: u64) -> u64 {
    if id == u64::MAX {
        0
    } else {
        (id + 1) as u64
    }
}

/// Whether a tick at `now` is still held back by the debounce window.
pub open spec fn settling(s: PreviewState, now: u64) -> bool {
    s.deadline is Some && now < s.deadline->0
}

/// The shown artifact and loading flag after receiving `results` in order:
/// a result is adopted only when its generation is `id`, and the last such wins.
pub open spec fn adopt(image: Option<Protocol>, loading: bool, id: u64, results: Seq<PreviewResult>) -> (
    Option<Protocol>,
    bool,
)
    decreases results.len(),
{
    if results.len() == 0 {
        (image, loading)
    } else if results.last().generation == id {
        (results.last().artifact, false)
    } else {
        adopt(image, loading, id, results.drop_last())
    }
}

/// State `t` is state `s` after the selection or the pane changed at `now`.
pub open spec fn selection_changed(s: PreviewState, t: PreviewState, now: u64) -> bool {
    &&& !t.loading
    &&& t.image_path is None
    &&& t.deadline == Some(debounce_end(now))
    &&& t.image == s.image
    &&& t.image_size == s.image_size
    &&& t.request_id == s.request_id
    &&& t.inbox == s.inbox
}

/// Whether what is shown belongs to another path or another pane size.
pub open spec fn needs_reload(s: PreviewState, path: Seq<char>, pane: CellBox) -> bool {
    s.image_size != Some((pane.width, pane.height)) || opt_view(s.image_path) != Some(path)
}

/// Whether a pane is too small for a preview to be worth decoding.
pub open spec fn pane_too_small(pane: CellBox) -> bool {
    pane.width < MIN_PANE_WIDTH || pane.height < MIN_PANE_HEIGHT
}

/// Everything but the shown artifact and loading flag stays.
pub open spec fn keeps_association(s: PreviewState, t: PreviewState) -> bool {
    &&& t.image_path == s.image_path
    &&& t.image_size == s.image_size
    &&& t.request_id == s.request_id
}

/// The view of a pane with nothing new to do.
pub open spec fn idle_view(image: Option<Protocol>, loading: bool) -> PaneView {
    if image is Some {
        PaneView::Artifact
    } else if loading {
        PaneView::Loading
    } else {
        PaneView::NoPreview
    }
}

/// One redraw tick, from state `s` and cache entries `before` to state `t`,
/// cache entries `after` and outcome `out`.
pub open spec fn tick_spec(
    s: PreviewState,
    t: PreviewState,
    now: u64,
    results: Seq<PreviewResult>,
    target: Option<PreviewTarget>,
    pane: CellBox,
    before: Seq<Entry>,
    after: Seq<Entry>,
    out: TickOutcome,
) -> bool {
    if settling(s, now) {
        &&& t.image == s.image && t.loading == s.loading && t.deadline == s.deadline
        &&& keeps_association(s, t)
        &&& t.inbox@ == s.inbox@ + results
        &&& after == before
        &&& out.view == PaneView::Settling
        &&& out.job is None
    } else {
        let (image, loading) = adopt(s.image, s.loading, s.request_id, s.inbox@ + results);
        &&& t.inbox@.len() == 0
        &&& match target {
            None => {
                &&& after == before
                &&& out.view == PaneView::NotPreviewable
                &&& out.job is None
                &&& t.image is None && t.image_path is None && t.image_size is None
                &&& !t.loading && t.deadline is None && t.request_id == s.request_id
            },
            Some(tg) => {
                let k = key_view(tg.path@, pane.width, pane.height);
                if has_key(before, k) {
                    &&& exists|i: int|
                        0 <= i < before.len() && before[i].0 == k && t.image == Some(before[i].1)
                            && after == promoted(before, i)
                    &&& !t.loading && t.deadline is None && t.request_id == s.request_id
                    &&& opt_view(t.image_path) == Some(tg.path@)
                    &&& t.image_size == Some((pane.width, pane.height))
                    &&& out.view == PaneView::Artifact
                    &&& out.job is None
                } else if needs_reload(s, tg.path@, pane) && !loading && !pane_too_small(pane) {
                    let g = next_generation(s.request_id);
                    &&& after == before
                    &&& out.view == PaneView::Loading
                    &&& out.job is Some
                    &&& out.job->0.request_id == g && out.job->0.path@ == tg.path@
                    &&& out.job->0.inner == pane && out.job->0.is_pdf == tg.is_pdf
                    &&& t.request_id == g && t.image is None && t.loading
                    &&& t.deadline == Some(debounce_end(now))
                    &&& opt_view(t.image_path) == Some(tg.path@)
                    &&& t.image_size == Some((pane.width, pane.height))
                } else {
                    &&& after == before
                    &&& out.job is None
                    &&& t.image == image && t.loading == loading && t.deadline is None
                    &&& keeps_association(s, t)
                    &&& out.view == if needs_reload(s, tg.path@, pane) && !loading {
                        PaneView::Settling
                    } else {
                        idle_view(image, loading)
                    }
                }
            },
        }
    }
}

/// Results of other generations never change what is shown nor the
/// loading flag.
pub proof fn lemma_stale_results_ignored(
    image: Option<Protocol>,
    loading: bool,
    id: u64,
    results: Seq<PreviewResult>,
)
    requires
        forall|i: int| 0 <= i < results.len() ==> #[trigger] results[i].generation != id,
    ensures
        adopt(image, loading, id, results) == (image, loading),
    decreases results.len(),
{
    if results.len() > 0 {
        assert(results.last() == results[results.len() - 1]);
        lemma_stale_results_ignored(image, loading, id, results.drop_last());
    }
}

/// Selection changes within the debounce window cause no work: every tick
/// before the window ends dispatches nothing, leaves the cache and what is
/// shown as they are, and only queues the results it is handed.
pub proof fn lemma_selection_debounced(
    s: PreviewState,
    now: u64,
    t: PreviewState,
    later: u64,
    results: Seq<PreviewResult>,
    target: Option<PreviewTarget>,
    pane: CellBox,
    before: Seq<Entry>,
    after: Seq<Entry>,
    u: PreviewState,
    out: TickOutcome,
)
    requires
        selection_changed(s, t, now),
        later < debounce_end(now),
        tick_spec(t, u, later, results, target, pane, before, after, out),
    ensures
        out.job is None,
        out.view == PaneView::Settling,
        after == before,
        u.image == t.image && u.loading == t.loading && u.deadline == t.deadline,
        keeps_association(t, u),
        u.inbox@ == t.inbox@ + results,
{
}

/// After a tick dispatched a job, no later tick dispatches another until a
/// result of that job's generation comes back: one request per settled
/// selection.
pub proof fn lemma_one_dispatch_per_settle(
    s: PreviewState,
    t: PreviewState,
    now: u64,
    results: Seq<PreviewResult>,
    target: Option<PreviewTarget>,
    pane: CellBox,
    before: Seq<Entry>,
    after: Seq<Entry>,
    out: TickOutcome,
    u: PreviewState,
    later: u64,
    results2: Seq<PreviewResult>,
    target2: Option<PreviewTarget>,
    pane2: CellBox,
    after2: Seq<Entry>,
    out2: TickOutcome,
)
    requires
        tick_spec(s, t, now, results, target, pane, before, after, out),
        out.job is Some,
        tick_spec(t, u, later, results2, target2, pane2, after, after2, out2),
        forall|i: int| 0 <= i < results2.len() ==> #[trigger] results2[i].generation != t.request_id,
    ensures
        out2.job is None,
{
    lemma_stale_results_ignored(t.image, t.loading, t.request_id, results2);
}

/// Two pane sizes that quantize alike share one cache entry: once a preview
/// is cached for one, a tick for the other is served from the cache and
/// dispatches no job.
pub proof fn lemma_equal_bucket_served_from_cache(
    s: PreviewState,
    t: PreviewState,
    now: u64,
    results: Seq<PreviewResult>,
    tg: PreviewTarget,
    cached: CellBox,
    pane: CellBox,
    before: Seq<Entry>,
    after: Seq<Entry>,
    out: TickOutcome,
)
    requires
        quantized(cached.width as int) == quantized(pane.width as int),
        quantized(cached.height as int) == quantized(pane.height as int),
        has_key(before, key_view(tg.path@, cached.width, cached.height)),
        !settling(s, now),
        tick_spec(s, t, now, results, Some(tg), pane, before, after, out),
    ensures
        out.job is None,
        out.view == PaneView::Artifact,
        t.image is Some,
{
    lemma_equal_buckets_same_key(tg.path@, cached.width, cached.height, pane.width, pane.height);
}

fn same_path(shown: &Option<String>, path: &String) -> (r: bool)
    ensures
        r == (opt_view(*shown) == Some(path@)),
{
    match shown {
        Some(p) => *p == *path,
        None => false,
    }
}

fn same_size(shown: Option<(u16, u16)>, pane: CellBox) -> (r: bool)
    ensures
        r == (shown == Some((pane.width, pane.height))),
{
    match shown {
        Some((w, h)) => w == pane.width && h == pane.height,
        None => false,
    }
}

impl PreviewState {
    /// Nothing shown, nothing requested.
    pub fn new() -> (r: PreviewState)
        ensures
            r.image is None && r.image_path is None && r.image_size is None,
            !r.loading && r.deadline is None && r.request_id == 0,
            r.inbox@.len() == 0,
    {
        PreviewState {
            image: None,
            image_path: None,
            image_size: None,
            loading: false,
            deadline: None,
            request_id: 0,
            inbox: Vec::new(),
        }
    }

    /// The selection moved, or the pane was resized, at `now`: what is shown
    /// no longer belongs to the target, and preview work waits for the
    /// debounce window to pass.
    pub fn on_selection_change(&mut self, now: u64)
        ensures
            selection_changed(*old(self), *final(self), now),
    {
        self.loading = false;
        self.image_path = None;
        self.deadline = Some(now.saturating_add(DEBOUNCE_MS));
    }

    /// Takes in the worker's results, oldest first. Only a result of the
    /// current generation is adopted; any other is dropped.
    pub fn receive(&mut self, results: Vec<PreviewResult>)
        ensures
            (final(self).image, final(self).loading) == adopt(
                old(self).image,
                old(self).loading,
                old(self).request_id,
                results@,
            ),
            keeps_association(*old(self), *final(self)),
            final(self).deadline == old(self).deadline,
            final(self).inbox == old(self).inbox,
    {
        let mut rest = results;
        loop
            invariant
                adopt(old(self).image, old(self).loading, old(self).request_id, results@) == adopt(
                    self.image,
                    self.loading,
                    self.request_id,
                    rest@,
                ),
                keeps_association(*old(self), *self),
                self.deadline == old(self).deadline,
                self.inbox == old(self).inbox,
            decreases rest@.len(),
        {
            let ghost before = rest@;
            match rest.pop() {
                None => {
                    return;
                },
                Some(r) => {
                    if r.generation == self.request_id {
                        self.image = r.artifact;
                        self.loading = false;
                        return;
                    }
                    assert(before.drop_last() == rest@);
                },
            }
        }
    }

    /// One redraw tick at `now`: queues `results`, holds back while input
    /// settles, then takes in the queued results, serves the selection from `cache` when it can, and else
    /// dispatches one job under a new generation, published through `token`.
    pub fn tick(
        &mut self,
        now: u64,
        results: Vec<PreviewResult>,
        target: Option<PreviewTarget>,
        pane: CellBox,
        cache: &mut PreviewCache,
        token: &CancelToken,
    ) -> (r: TickOutcome)
        requires
            old(cache).wf(),
        ensures
            final(cache).wf(),
            final(cache).capacity() == old(cache).capacity(),
            tick_spec(*old(self), *final(self), now, results@, target, pane, old(cache)@, final(cache)@, r),
    {
        let mut results = results;
        self.inbox.append(&mut results);
        match self.deadline {
            Some(d) => {
                if now < d {
                    return TickOutcome { view: PaneView::Settling, job: None };
                }
                self.deadline = None;
            },
            None => {},
        }
        let mut pending: Vec<PreviewResult> = Vec::new();
        core::mem::swap(&mut pending, &mut self.inbox);
        self.receive(pending);
        let tg = match target {
            None => {
                self.image = None;
                self.image_path = None;
                self.image_size = None;
                self.loading = false;
                return TickOutcome { view: PaneView::NotPreviewable, job: None };
            },
            Some(tg) => tg,
        };
        let key = cache_key(&tg.path, pane.width, pane.height);
        match cache.get(&key) {
            Some(hit) => {
                self.image = Some(hit);
                self.loading = false;
                self.image_path = Some(tg.path.clone());
                self.image_size = Some((pane.width, pane.height));
                return TickOutcome { view: PaneView::Artifact, job: None };
            },
            None => {},
        }
        let reload = !same_size(self.image_size, pane) || !same_path(&self.image_path, &tg.path);
        if reload && !self.loading {
            if pane.width < MIN_PANE_WIDTH || pane.height < MIN_PANE_HEIGHT {
                return TickOutcome { view: PaneView::Settling, job: None };
            }
            let generation = if self.request_id == u64::MAX {
                0
            } else {
                self.request_id + 1
            };
            self.request_id = generation;
            token.store(generation);
            self.image = None;
            self.deadline = Some(now.saturating_add(DEBOUNCE_MS));
            self.image_size = Some((pane.width, pane.height));
            self.image_path = Some(tg.path.clone());
            self.loading = true;
            let job = PreviewJob { request_id: generation, path: tg.path, inner: pane, is_pdf: tg.is_pdf };
            return TickOutcome { view: PaneView::Loading, job: Some(job) };
        }
        let view = if self.image.is_some() {
            PaneView::Artifact
        } else if self.loading {
            PaneView::Loading
        } else {
            PaneView::NoPreview
        };
        TickOutcome { view, job: None }
    }
}

} // verus!
