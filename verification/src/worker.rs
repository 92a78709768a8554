//! The decisions of the rendering worker: which requests it serves with what it has loaded,
//! which tile requests are stale, and where a rendered tile lies.
use vstd::prelude::*;
use crate::numbers::{decimal, decimal_chars};
use crate::text::{from_chars, push_all, push_str};

verus! {

/// A request to the worker, as the values its decisions read.
#[derive(Debug, Clone, Copy, PartialEq, Eq, Structural)]
pub enum WorkerRequest {
    /// Render a tile of a page, for a view of the given generation.
    RenderTile { page_number: i32, generation: usize },
    LoadDocument,
    SetPage(i32),
    Shutdown,
    RefreshFile,
    ExtractText,
    ExtractLinks,
    ExtractOutline,
}

/// What the worker does with a request.
#[derive(Debug, Clone)]
pub enum WorkerStep {
    /// Stop serving requests.
    Stop,
    /// Drop the request: it belongs to an older view.
    Skip,
    /// Report this error and go on.
    Fail(String),
    Render,
    Load,
    LoadPage(i32),
    Refresh,
    ExtractText,
    ExtractLinks,
    ExtractOutline,
}

/// What the worker has loaded, and the newest view generation it has seen.
#[derive(Debug, Clone, Copy)]
pub struct WorkerState {
    pub has_path: bool,
    pub has_document: bool,
    pub has_page: bool,
    pub current_page_idx: i32,
    pub current_generation: usize,
}

/// The decimal text of `i`, with a minus sign when negative.
pub open spec fn signed_decimal(i: int) -> Seq<char> {
    if i < 0 { "-"@ + decimal((-i) as nat) } else { decimal(i as nat) }
}

/// The decimal text of `i`, with a minus sign when negative.
pub fn signed_decimal_chars(i: i32) -> (r: Vec<char>)
    ensures
        r@ == signed_decimal(i as int),
{
    if i < 0 {
        let magnitude = (-(i as i64)) as usize;
        let digits = decimal_chars(magnitude);
        let mut out: Vec<char> = Vec::new();
        push_str(&mut out, "-");
        push_all(&mut out, digits.as_slice());
        out
    } else {
        decimal_chars(i as usize)
    }
}

/// The error when a tile of page `requested` is asked of a worker holding page `held`.
pub open spec fn mismatch_message(held: i32, requested: i32) -> Seq<char> {
    "Page mismatch: worker has page "@ + signed_decimal(held as int) + ", request "@
        + signed_decimal(requested as int)
}

/// The worker's state after `request` in state `s`, and what it does with it (the error
/// text, for a failure). A tile request of a newer generation raises the current generation;
/// tile requests of older generations are dropped.
pub open spec fn worker_step_spec(s: WorkerState, request: WorkerRequest) -> (WorkerState, StepKind) {
    match request {
        WorkerRequest::RenderTile { page_number, generation } => {
            let g = if generation > s.current_generation { generation } else { s.current_generation };
            let s2 = WorkerState { current_generation: g, ..s };
            if generation != g {
                (s2, StepKind::Skip)
            } else if !s.has_page {
                (s2, StepKind::Fail("No page set"@))
            } else if s.current_page_idx != page_number {
                (s2, StepKind::Fail(mismatch_message(s.current_page_idx, page_number)))
            } else {
                (s2, StepKind::Render)
            }
        },
        WorkerRequest::LoadDocument => (s, StepKind::Load),
        WorkerRequest::SetPage(idx) => if s.has_document {
            (s, StepKind::LoadPage(idx))
        } else {
            (s, StepKind::Fail("No document loaded"@))
        },
        WorkerRequest::Shutdown => (s, StepKind::Stop),
        WorkerRequest::RefreshFile => if s.has_path {
            (s, StepKind::Refresh)
        } else {
            (s, StepKind::Fail("No document set"@))
        },
        WorkerRequest::ExtractText => if s.has_page {
            (s, StepKind::ExtractText)
        } else {
            (s, StepKind::Fail("Text extraction failed: No page set"@))
        },
        WorkerRequest::ExtractLinks => if s.has_page {
            (s, StepKind::ExtractLinks)
        } else {
            (s, StepKind::Fail("Link extraction failed: No page set"@))
        },
        WorkerRequest::ExtractOutline => if s.has_document {
            (s, StepKind::ExtractOutline)
        } else {
            (s, StepKind::Fail("Outline extraction failed: No document loaded"@))
        },
    }
}

/// A worker step as values (the failure's text as characters).
pub enum StepKind {
    Stop,
    Skip,
    Fail(Seq<char>),
    Render,
    Load,
    LoadPage(i32),
    Refresh,
    ExtractText,
    ExtractLinks,
    ExtractOutline,
}

/// A worker step as values.
pub open spec fn step_kind(step: WorkerStep) -> StepKind {
    match step {
        WorkerStep::Stop => StepKind::Stop,
        WorkerStep::Skip => StepKind::Skip,
        WorkerStep::Fail(m) => StepKind::Fail(m@),
        WorkerStep::Render => StepKind::Render,
        WorkerStep::Load => StepKind::Load,
        WorkerStep::LoadPage(i) => StepKind::LoadPage(i),
        WorkerStep::Refresh => StepKind::Refresh,
        WorkerStep::ExtractText => StepKind::ExtractText,
        WorkerStep::ExtractLinks => StepKind::ExtractLinks,
        WorkerStep::ExtractOutline => StepKind::ExtractOutline,
    }
}

impl WorkerState {
    /// A worker with nothing loaded.
    pub fn new() -> (r: Self)
        ensures
            !r.has_path,
            !r.has_document,
            !r.has_page,
            r.current_page_idx == -1,
            r.current_generation == 0,
    {
        WorkerState {
            has_path: false,
            has_document: false,
            has_page: false,
            current_page_idx: -1,
            current_generation: 0,
        }
    }

    /// Decides what to do with `request`.
    pub fn decide(&mut self, request: WorkerRequest) -> (r: WorkerStep)
        ensures
            (*final(self), step_kind(r)) == worker_step_spec(*old(self), request),
    {
        match request {
            WorkerRequest::RenderTile { page_number, generation } => {
                if generation > self.current_generation {
                    self.current_generation = generation;
                }
                if generation != self.current_generation {
                    WorkerStep::Skip
                } else if !self.has_page {
                    WorkerStep::Fail(String::from_str("No page set"))
                } else if self.current_page_idx != page_number {
                    let mut m: Vec<char> = Vec::new();
                    push_str(&mut m, "Page mismatch: worker has page ");
                    let held = signed_decimal_chars(self.current_page_idx);
                    push_all(&mut m, held.as_slice());
                    push_str(&mut m, ", request ");
                    let asked = signed_decimal_chars(page_number);
                    push_all(&mut m, asked.as_slice());
                    WorkerStep::Fail(from_chars(m.as_slice()))
                } else {
                    WorkerStep::Render
                }
            },
            WorkerRequest::LoadDocument => WorkerStep::Load,
            WorkerRequest::SetPage(idx) => if self.has_document {
                WorkerStep::LoadPage(idx)
            } else {
                WorkerStep::Fail(String::from_str("No document loaded"))
            },
            WorkerRequest::Shutdown => WorkerStep::Stop,
            WorkerRequest::RefreshFile => if self.has_path {
                WorkerStep::Refresh
            } else {
                WorkerStep::Fail(String::from_str("No document set"))
            },
            WorkerRequest::ExtractText => if self.has_page {
                WorkerStep::ExtractText
            } else {
                WorkerStep::Fail(String::from_str("Text extraction failed: No page set"))
            },
            WorkerRequest::ExtractLinks => if self.has_page {
                WorkerStep::ExtractLinks
            } else {
                WorkerStep::Fail(String::from_str("Link extraction failed: No page set"))
            },
            WorkerRequest::ExtractOutline => if self.has_document {
                WorkerStep::ExtractOutline
            } else {
                WorkerStep::Fail(String::from_str("Outline extraction failed: No document loaded"))
            },
        }
    }

    /// A document was opened: it replaces the previous one, and no page is set.
    pub fn document_loaded(&mut self)
        ensures
            final(self).has_path,
            final(self).has_document,
            !final(self).has_page,
            final(self).current_page_idx == -1,
            final(self).current_generation == old(self).current_generation,
    {
        self.has_path = true;
        self.has_document = true;
        self.has_page = false;
        self.current_page_idx = -1;
    }

    /// Page `idx` of the document was loaded and is now the current page.
    pub fn page_loaded(&mut self, idx: i32)
        ensures
            *final(self) == (WorkerState { has_page: true, current_page_idx: idx, ..*old(self) }),
    {
        self.has_page = true;
        self.current_page_idx = idx;
    }
}

/// The bounds of the tile at grid position (`x`, `y`) rendered as a `width` by `height`
/// image: `(width * x, height * y)` to `(width * x + width, height * y + height)`.
pub fn tile_bounds(width: u32, height: u32, x: i32, y: i32) -> (r: (i32, i32, i32, i32))
    requires
        width <= i32::MAX,
        height <= i32::MAX,
        i32::MIN <= width * x,
        width * x + width <= i32::MAX,
        i32::MIN <= height * y,
        height * y + height <= i32::MAX,
    ensures
        r == ((width * x) as i32, (height * y) as i32, (width * x + width) as i32, (height * y
            + height) as i32),
{
    let w = width as i32;
    let h = height as i32;
    (w * x, h * y, w * x + w, h * y + h)
}

/// The current generation never goes down, and a tile request is dropped exactly when an
/// newer generation was seen before it; no request but a tile request changes the state.
pub proof fn lemma_stale_tiles_are_dropped(s: WorkerState, request: WorkerRequest)
    ensures
        worker_step_spec(s, request).0.current_generation >= s.current_generation,
        request matches WorkerRequest::RenderTile { generation, .. } ==> ((
        worker_step_spec(s, request).1 is Skip) <==> generation < s.current_generation),
        !(request is RenderTile) ==> worker_step_spec(s, request).0 == s,
{
}

/// Each request is served by the work it asks for once what it needs is there: a worker with
/// a path refreshes the document on `RefreshFile`, one with a document loads page `idx` on
/// `SetPage(idx)` and extracts the outline, one with a page extracts its text and links, a
/// tile request of the current generation for the page held is rendered, `LoadDocument`
/// loads and `Shutdown` stops. Only a stale tile request is dropped, and only `Shutdown`
/// stops the worker. A request whose prerequisite is missing fails with the error that names
/// it, and a current tile request for another page than the one held fails with the
/// mismatch of the two pages. Deciding changes nothing the worker holds but the generation.
pub proof fn lemma_requests_get_their_work(s: WorkerState, request: WorkerRequest)
    ensures
        (worker_step_spec(s, request).1 is Skip) <==> (request matches WorkerRequest::RenderTile {
            generation,
            ..
        } && generation < s.current_generation),
        (worker_step_spec(s, request).1 is Stop) <==> request is Shutdown,
        worker_step_spec(s, request).0 == (WorkerState {
            current_generation: worker_step_spec(s, request).0.current_generation,
            ..s
        }),
        request is LoadDocument ==> worker_step_spec(s, request).1 == StepKind::Load,
        (request is RefreshFile && s.has_path) ==> worker_step_spec(s, request).1 == StepKind::Refresh,
        request matches WorkerRequest::SetPage(idx) ==> (s.has_document ==> worker_step_spec(
            s,
            request,
        ).1 == StepKind::LoadPage(idx)),
        (request is ExtractText && s.has_page) ==> worker_step_spec(s, request).1
            == StepKind::ExtractText,
        (request is ExtractLinks && s.has_page) ==> worker_step_spec(s, request).1
            == StepKind::ExtractLinks,
        (request is ExtractOutline && s.has_document) ==> worker_step_spec(s, request).1
            == StepKind::ExtractOutline,
        request matches WorkerRequest::RenderTile { page_number, generation } ==> ((generation
            >= s.current_generation && s.has_page && s.current_page_idx == page_number)
            ==> worker_step_spec(s, request).1 == StepKind::Render),
        (request is RefreshFile && !s.has_path) ==> worker_step_spec(s, request).1 == StepKind::Fail(
            "No document set"@,
        ),
        (request is SetPage && !s.has_document) ==> worker_step_spec(s, request).1 == StepKind::Fail(
            "No document loaded"@,
        ),
        (request is ExtractText && !s.has_page) ==> worker_step_spec(s, request).1 == StepKind::Fail(
            "Text extraction failed: No page set"@,
        ),
        (request is ExtractLinks && !s.has_page) ==> worker_step_spec(s, request).1 == StepKind::Fail(
            "Link extraction failed: No page set"@,
        ),
        (request is ExtractOutline && !s.has_document) ==> worker_step_spec(s, request).1
            == StepKind::Fail("Outline extraction failed: No document loaded"@),
        request matches WorkerRequest::RenderTile { page_number, generation } ==> ((generation
            >= s.current_generation && s.has_page && s.current_page_idx != page_number)
            ==> worker_step_spec(s, request).1 == StepKind::Fail(
            mismatch_message(s.current_page_idx, page_number),
        )),
{
}

/// Right after a document is loaded no tile can be rendered: a page must be set first.
pub proof fn lemma_render_needs_a_page(s: WorkerState, page_number: i32, generation: usize)
    requires
        !s.has_page,
        generation >= s.current_generation,
    ensures
        worker_step_spec(s, WorkerRequest::RenderTile { page_number, generation }).1 == StepKind::Fail(
            "No page set"@,
        ),
{
}

/// The newest view generation among the tile requests of `requests`, starting from `g0`.
pub open spec fn newest_generation(g0: usize, requests: Seq<WorkerRequest>) -> usize
    decreases requests.len(),
{
    if requests.len() == 0 {
        g0
    } else {
        let g = newest_generation(g0, requests.drop_last());
        match requests.last() {
            WorkerRequest::RenderTile { generation, .. } => if generation > g { generation } else { g },
            _ => g,
        }
    }
}

/// `states` are the worker's states as it takes `requests` one by one: each state's current
/// generation is the one its decision on the previous request left (what the worker loads
/// between decisions never changes the generation).
pub open spec fn generation_trace(states: Seq<WorkerState>, requests: Seq<WorkerRequest>) -> bool {
    &&& states.len() == requests.len() + 1
    &&& forall|j: int| 0 <= j < requests.len() ==> (#[trigger] states[j + 1]).current_generation
        == worker_step_spec(states[j], requests[j]).0.current_generation
}

/// Over any stream of requests, the worker's current generation is the newest one among the
/// tile requests seen so far, and a tile request is dropped exactly when a newer generation
/// was seen before it.
pub proof fn lemma_stale_tiles_dropped_over_stream(states: Seq<WorkerState>, requests: Seq<WorkerRequest>)
    requires
        generation_trace(states, requests),
    ensures
        forall|j: int| 0 <= j <= requests.len() ==> (#[trigger] states[j]).current_generation
            == newest_generation(states[0].current_generation, requests.take(j)),
        forall|j: int| 0 <= j < requests.len() ==> (#[trigger] requests[j] matches WorkerRequest::RenderTile { generation, .. }
            ==> ((worker_step_spec(states[j], requests[j]).1 is Skip) <==> generation
            < newest_generation(states[0].current_generation, requests.take(j)))),
    decreases requests.len(),
{
    let g0 = states[0].current_generation;
    if requests.len() > 0 {
        let n = requests.len() - 1;
        let sp = states.drop_last();
        let rp = requests.drop_last();
        assert forall|j: int| 0 <= j < rp.len() implies (#[trigger] sp[j + 1]).current_generation
            == worker_step_spec(sp[j], rp[j]).0.current_generation by {
            assert(sp[j + 1] == states[j + 1]);
            assert(states[j + 1].current_generation == worker_step_spec(states[j], requests[j]).0.current_generation);
        }
        lemma_stale_tiles_dropped_over_stream(sp, rp);
        assert forall|j: int| 0 <= j <= requests.len() implies (#[trigger] states[j]).current_generation
            == newest_generation(g0, requests.take(j)) by {
            if j <= n {
                assert(sp[j] == states[j]);
                assert(rp.take(j) =~= requests.take(j));
            } else {
                assert(sp[n] == states[n]);
                assert(rp.take(n) =~= requests.take(n));
                assert(requests.take(j).drop_last() =~= requests.take(n));
                assert(states[n + 1].current_generation == worker_step_spec(states[n], requests[n]).0.current_generation);
                lemma_stale_tiles_are_dropped(states[n], requests[n]);
            }
        }
        assert forall|j: int| 0 <= j < requests.len() implies (#[trigger] requests[j] matches WorkerRequest::RenderTile { generation, .. }
            ==> ((worker_step_spec(states[j], requests[j]).1 is Skip) <==> generation
            < newest_generation(g0, requests.take(j)))) by {
            assert(states[j].current_generation == newest_generation(g0, requests.take(j)));
            lemma_stale_tiles_are_dropped(states[j], requests[j]);
        }
    }
}

/// The requests a worker handles from `requests`: those up to and including the first
/// `Shutdown` (all of them when there is none).
pub open spec fn served(requests: Seq<WorkerRequest>) -> Seq<WorkerRequest>
    decreases requests.len(),
{
    if requests.len() == 0 {
        Seq::empty()
    } else if requests[0] is Shutdown {
        seq![requests[0]]
    } else {
        seq![requests[0]] + served(requests.drop_first())
    }
}

/// The worker stops exactly on `Shutdown`: in any stream, every request before the first
/// `Shutdown` is decided without stopping, so a worker that ends at its first stop handles
/// exactly `served(requests)` and nothing after the `Shutdown`.
pub proof fn lemma_stops_only_on_shutdown(states: Seq<WorkerState>, requests: Seq<WorkerRequest>)
    requires
        states.len() == requests.len() + 1,
    ensures
        forall|j: int| 0 <= j < requests.len() ==> ((worker_step_spec(states[j], #[trigger] requests[j]).1 is Stop)
            <==> requests[j] is Shutdown),
        served(requests).len() <= requests.len(),
        forall|j: int| 0 <= j < served(requests).len() ==> #[trigger] served(requests)[j] == requests[j],
        forall|j: int| 0 <= j < served(requests).len() - 1 ==> !(#[trigger] requests[j] is Shutdown),
        served(requests).len() < requests.len() ==> served(requests).last() is Shutdown,
    decreases requests.len(),
{
    if requests.len() > 0 && !(requests[0] is Shutdown) {
        lemma_stops_only_on_shutdown(states.drop_first(), requests.drop_first());
        let rest = served(requests.drop_first());
        assert forall|j: int| 0 <= j < served(requests).len() implies #[trigger] served(requests)[j] == requests[j] by {
            if j > 0 {
                assert(served(requests)[j] == rest[j - 1]);
                assert(requests.drop_first()[j - 1] == requests[j]);
            }
        }
        assert forall|j: int| 0 <= j < served(requests).len() - 1 implies !(#[trigger] requests[j] is Shutdown) by {
            if j > 0 {
                assert(requests.drop_first()[j - 1] == requests[j]);
            }
        }
        if served(requests).len() < requests.len() {
            assert(served(requests).last() == rest.last());
        }
    }
}

} // verus!
