//! The decisions of the single-threaded tile pool's worker.
//!
//! The worker serves one request at a time. It keeps the style it last loaded
//! successfully and loads a request's style only when it differs from that one.
//! The caller performs each [`TileAction`] and hands the outcome back to the
//! matching method, until the worker answers with [`TileAction::Reply`].
use vstd::prelude::*;
use crate::error::{IoError, RenderingError, SingleThreadedRenderPoolError};

verus! {

/// Whether two byte strings are equal.
pub fn bytes_equal(a: &Vec<u8>, b: &Vec<u8>) -> (res: bool)
    ensures
        res == (a@ == b@),
{
    if a.len() != b.len() {
        return false;
    }
    let mut i: usize = 0;
    while i < a.len()
        invariant
            a.len() == b.len(),
            i <= a.len(),
            forall|j: int| 0 <= j < i ==> a@[j] == b@[j],
        decreases a.len() - i,
    {
        if a[i] != b[i] {
            return false;
        }
        i = i + 1;
    }
    assert(a@ =~= b@);
    true
}

/// Where the worker stands in serving a request.
pub enum TilePhase {
    /// No request is being served.
    Idle,
    /// The request's style is being loaded; the tile comes next.
    AwaitingStyle { style: Vec<u8>, z: u8, x: u32, y: u32 },
    /// The tile is being rendered.
    AwaitingTile { z: u8, x: u32, y: u32 },
}

/// The mathematical value of a [`TilePhase`].
pub enum TilePhaseView {
    Idle,
    AwaitingStyle { style: Seq<u8>, z: u8, x: u32, y: u32 },
    AwaitingTile { z: u8, x: u32, y: u32 },
}

impl View for TilePhase {
    type V = TilePhaseView;

    open spec fn view(&self) -> TilePhaseView {
        match self {
            TilePhase::Idle => TilePhaseView::Idle,
            TilePhase::AwaitingStyle { style, z, x, y } => TilePhaseView::AwaitingStyle {
                style: style@,
                z: *z,
                x: *x,
                y: *y,
            },
            TilePhase::AwaitingTile { z, x, y } => TilePhaseView::AwaitingTile { z: *z, x: *x, y: *y },
        }
    }
}

/// The state of the tile pool's worker: the style it has loaded, keyed by the
/// bytes of the style's path, and where it stands in the current request.
pub struct TileWorker {
    cached_style: Option<Vec<u8>>,
    phase: TilePhase,
}

/// The mathematical value of a [`TileWorker`].
pub struct TileWorkerView {
    pub cached_style: Option<Seq<u8>>,
    pub phase: TilePhaseView,
}

impl View for TileWorker {
    type V = TileWorkerView;

    closed spec fn view(&self) -> TileWorkerView {
        TileWorkerView {
            cached_style: match self.cached_style {
                Some(s) => Some(s@),
                None => None,
            },
            phase: self.phase@,
        }
    }
}

/// What the worker asks its caller to do next.
pub enum TileAction<I> {
    /// Load the style of the current request into the renderer.
    LoadStyle,
    /// Render the tile at zoom `z` and column/row `x`, `y`.
    RenderTile { z: u8, x: u32, y: u32 },
    /// Send this reply to the request's sender; the worker is idle again.
    Reply(Result<I, SingleThreadedRenderPoolError>),
}

/// A request for `style` at tile `z`/`x`/`y`, made of an idle worker.
pub open spec fn begin_step<I>(w: TileWorkerView, style: Seq<u8>, z: u8, x: u32, y: u32) -> (
    TileWorkerView,
    TileAction<I>,
) {
    if w.cached_style == Some(style) {
        (
            TileWorkerView {
                cached_style: w.cached_style,
                phase: TilePhaseView::AwaitingTile { z, x, y },
            },
            TileAction::RenderTile { z, x, y },
        )
    } else {
        (
            TileWorkerView {
                cached_style: w.cached_style,
                phase: TilePhaseView::AwaitingStyle { style, z, x, y },
            },
            TileAction::LoadStyle,
        )
    }
}

/// The outcome of loading the pending request's style.
pub open spec fn style_loaded_step<I>(w: TileWorkerView, result: Result<(), IoError>) -> (
    TileWorkerView,
    TileAction<I>,
) {
    match w.phase {
        TilePhaseView::AwaitingStyle { style, z, x, y } => match result {
            Ok(_) => (
                TileWorkerView {
                    cached_style: Some(style),
                    phase: TilePhaseView::AwaitingTile { z, x, y },
                },
                TileAction::RenderTile { z, x, y },
            ),
            Err(e) => (
                TileWorkerView { cached_style: w.cached_style, phase: TilePhaseView::Idle },
                TileAction::Reply(Err(SingleThreadedRenderPoolError::IOError(e))),
            ),
        },
        _ => (w, TileAction::LoadStyle),
    }
}

/// What the request is answered when the renderer returns `result` for its tile.
pub open spec fn tile_reply<I>(result: Result<I, RenderingError>) -> Result<
    I,
    SingleThreadedRenderPoolError,
> {
    match result {
        Ok(image) => Ok(image),
        Err(e) => Err(SingleThreadedRenderPoolError::RenderingError(e)),
    }
}

/// The outcome of rendering the pending request's tile.
pub open spec fn tile_rendered_step<I>(w: TileWorkerView, result: Result<I, RenderingError>) -> (
    TileWorkerView,
    TileAction<I>,
) {
    (
        TileWorkerView { cached_style: w.cached_style, phase: TilePhaseView::Idle },
        TileAction::Reply(tile_reply(result)),
    )
}

/// Serving one request from an idle worker: the request is begun, its style is
/// loaded with outcome `load` when the worker asks for it, and its tile is
/// rendered with outcome `render` when the worker asks for it.
pub open spec fn serve_step<I>(
    w: TileWorkerView,
    style: Seq<u8>,
    z: u8,
    x: u32,
    y: u32,
    load: Result<(), IoError>,
    render: Result<I, RenderingError>,
) -> (TileWorkerView, TileAction<I>) {
    let (w1, a1) = begin_step::<I>(w, style, z, x, y);
    let (w2, a2) = if a1 is LoadStyle {
        style_loaded_step::<I>(w1, load)
    } else {
        (w1, a1)
    };
    if a2 is RenderTile {
        tile_rendered_step::<I>(w2, render)
    } else {
        (w2, a2)
    }
}

/// One request of a series for the same style: its tile and the outcomes
/// that loading and rendering would have.
pub struct TileRound<I> {
    pub z: u8,
    pub x: u32,
    pub y: u32,
    pub load: Result<(), IoError>,
    pub render: Result<I, RenderingError>,
}

/// How many times serving `rounds` one after the other, all for `style`,
/// loads the style.
pub open spec fn loads_in_series<I>(
    w: TileWorkerView,
    style: Seq<u8>,
    rounds: Seq<TileRound<I>>,
) -> nat
    decreases rounds.len(),
{
    if rounds.len() == 0 {
        0
    } else {
        let r = rounds[0];
        let loads: nat = if w.cached_style == Some(style) { 0 } else { 1 };
        let next = serve_step::<I>(w, style, r.z, r.x, r.y, r.load, r.render).0;
        loads + loads_in_series(next, style, rounds.drop_first())
    }
}

/// Whether serving a request for `style` gets the style loaded: it was loaded
/// already, or loading it succeeds with `load`.
pub open spec fn style_ready(w: TileWorkerView, style: Seq<u8>, load: Result<(), IoError>) -> bool {
    w.cached_style == Some(style) || load is Ok
}

/// A request's style is loaded exactly when it is not the style the worker
/// has loaded; otherwise the tile is rendered at once.
pub proof fn lemma_load_only_on_style_change<I>(
    w: TileWorkerView,
    style: Seq<u8>,
    z: u8,
    x: u32,
    y: u32,
)
    requires
        w.phase is Idle,
    ensures
        (begin_step::<I>(w, style, z, x, y).1 is LoadStyle) <==> (w.cached_style != Some(style)),
        w.cached_style == Some(style) ==> (begin_step::<I>(w, style, z, x, y).1 == (
        TileAction::<I>::RenderTile { z, x, y })),
        begin_step::<I>(w, style, z, x, y).0.cached_style == w.cached_style,
{
}

/// Every request is answered exactly once and leaves the worker idle: with the
/// I/O error when its style had to be loaded and failed to load, otherwise with
/// the renderer's result for its tile. Afterwards the loaded style is the
/// request's style when it was already loaded or loaded successfully, and is
/// unchanged when loading failed.
pub proof fn lemma_serve<I>(
    w: TileWorkerView,
    style: Seq<u8>,
    z: u8,
    x: u32,
    y: u32,
    load: Result<(), IoError>,
    render: Result<I, RenderingError>,
)
    requires
        w.phase is Idle,
    ensures
        serve_step::<I>(w, style, z, x, y, load, render).0.phase is Idle,
        style_ready(w, style, load) ==> (serve_step::<I>(w, style, z, x, y, load, render).1 == (
        TileAction::Reply(tile_reply(render)))),
        style_ready(w, style, load) ==> (serve_step::<I>(w, style, z, x, y, load, render).0.cached_style
            == Some(style)),
        !style_ready(w, style, load) ==> (serve_step::<I>(w, style, z, x, y, load, render).1 == (
        TileAction::<I>::Reply(Err(SingleThreadedRenderPoolError::IOError(load->Err_0))))),
        !style_ready(w, style, load) ==> (serve_step::<I>(w, style, z, x, y, load, render).0.cached_style
            == w.cached_style),
        style_ready(w, style, load) && render is Ok ==> (serve_step::<I>(w, style, z, x, y, load, render).1
            == TileAction::<I>::Reply(Ok(render->Ok_0))),
        style_ready(w, style, load) && render is Err ==> (serve_step::<I>(w, style, z, x, y, load, render).1
            == TileAction::<I>::Reply(Err(SingleThreadedRenderPoolError::RenderingError(render->Err_0)))),
{
}

/// A request is rendered at exactly the tile it asks for: at once when its
/// style is the loaded one, and right after a successful load of its style
/// otherwise, which also makes that style the loaded one. A failed load
/// answers the request with the load's error and keeps the loaded style.
pub proof fn lemma_request_renders_its_tile<I>(
    w: TileWorkerView,
    style: Seq<u8>,
    z: u8,
    x: u32,
    y: u32,
    e: IoError,
)
    requires
        w.phase is Idle,
    ensures
        !(begin_step::<I>(w, style, z, x, y).1 is LoadStyle) ==> (begin_step::<I>(w, style, z, x, y).1
            == (TileAction::<I>::RenderTile { z, x, y })),
        begin_step::<I>(w, style, z, x, y).1 is LoadStyle ==> (style_loaded_step::<I>(
            begin_step::<I>(w, style, z, x, y).0,
            Ok(()),
        ).1 == (TileAction::<I>::RenderTile { z, x, y })),
        begin_step::<I>(w, style, z, x, y).1 is LoadStyle ==> (style_loaded_step::<I>(
            begin_step::<I>(w, style, z, x, y).0,
            Ok(()),
        ).0 == (TileWorkerView {
            cached_style: Some(style),
            phase: TilePhaseView::AwaitingTile { z, x, y },
        })),
        begin_step::<I>(w, style, z, x, y).1 is LoadStyle ==> (style_loaded_step::<I>(
            begin_step::<I>(w, style, z, x, y).0,
            Err(e),
        ) == (TileWorkerView { cached_style: w.cached_style, phase: TilePhaseView::Idle },
        TileAction::<I>::Reply(Err(SingleThreadedRenderPoolError::IOError(e))))),
{
}

/// A worker waiting for the style of a request for tile `z`/`x`/`y` renders
/// exactly that tile once the style loads, and the style becomes the loaded one.
pub proof fn lemma_successful_load_renders_pending_tile<I>(
    cached: Option<Seq<u8>>,
    style: Seq<u8>,
    z: u8,
    x: u32,
    y: u32,
)
    ensures
        style_loaded_step::<I>(
            TileWorkerView { cached_style: cached, phase: TilePhaseView::AwaitingStyle { style, z, x, y } },
            Ok(()),
        ) == (TileWorkerView {
            cached_style: Some(style),
            phase: TilePhaseView::AwaitingTile { z, x, y },
        }, TileAction::<I>::RenderTile { z, x, y }),
{
}

/// The renderer's result for a tile is the request's answer: an image as it
/// is, a failure as a rendering error. The loaded style stays.
pub proof fn lemma_render_result_is_the_answer<I>(
    w: TileWorkerView,
    render: Result<I, RenderingError>,
)
    requires
        w.phase is AwaitingTile,
    ensures
        tile_rendered_step::<I>(w, render).0 == (TileWorkerView {
            cached_style: w.cached_style,
            phase: TilePhaseView::Idle,
        }),
        render is Ok ==> (tile_rendered_step::<I>(w, render).1 == TileAction::<I>::Reply(
            Ok(render->Ok_0),
        )),
        render is Err ==> (tile_rendered_step::<I>(w, render).1 == TileAction::<I>::Reply(
            Err(SingleThreadedRenderPoolError::RenderingError(render->Err_0)),
        )),
{
}

/// Once a request's style is loaded, the next request for the same style does
/// not load it again, whatever the renderer returned for the first tile.
pub proof fn lemma_loaded_style_is_reused<I>(
    w: TileWorkerView,
    style: Seq<u8>,
    z: u8,
    x: u32,
    y: u32,
    load: Result<(), IoError>,
    render: Result<I, RenderingError>,
    z2: u8,
    x2: u32,
    y2: u32,
)
    requires
        w.phase is Idle,
        style_ready(w, style, load),
    ensures
        begin_step::<I>(serve_step::<I>(w, style, z, x, y, load, render).0, style, z2, x2, y2).1
            == (TileAction::<I>::RenderTile { z: z2, x: x2, y: y2 }),
{
    lemma_serve::<I>(w, style, z, x, y, load, render);
}

/// A series of requests for the style the worker has loaded never loads it.
pub proof fn lemma_series_on_loaded_style<I>(
    w: TileWorkerView,
    style: Seq<u8>,
    rounds: Seq<TileRound<I>>,
)
    requires
        w.phase is Idle,
        w.cached_style == Some(style),
    ensures
        loads_in_series::<I>(w, style, rounds) == 0,
    decreases rounds.len(),
{
    if rounds.len() > 0 {
        let r = rounds[0];
        lemma_serve::<I>(w, style, r.z, r.x, r.y, r.load, r.render);
        let next = serve_step::<I>(w, style, r.z, r.x, r.y, r.load, r.render).0;
        lemma_series_on_loaded_style::<I>(next, style, rounds.drop_first());
    }
}

/// In a series of requests for one style, the style is loaded at most once
/// when its first load succeeds.
pub proof fn lemma_series_loads_at_most_once<I>(
    w: TileWorkerView,
    style: Seq<u8>,
    rounds: Seq<TileRound<I>>,
)
    requires
        w.phase is Idle,
        rounds.len() > 0,
        rounds[0].load is Ok,
    ensures
        loads_in_series::<I>(w, style, rounds) <= 1,
{
    let r = rounds[0];
    lemma_serve::<I>(w, style, r.z, r.x, r.y, r.load, r.render);
    let next = serve_step::<I>(w, style, r.z, r.x, r.y, r.load, r.render).0;
    lemma_series_on_loaded_style::<I>(next, style, rounds.drop_first());
}

impl TileWorker {
    /// A worker that has loaded no style and serves no request.
    pub fn new() -> (w: TileWorker)
        ensures
            w@ == (TileWorkerView { cached_style: None, phase: TilePhaseView::Idle }),
    {
        TileWorker { cached_style: None, phase: TilePhase::Idle }
    }

    /// Whether the worker serves no request at the moment.
    pub fn is_idle(&self) -> (res: bool)
        ensures
            res == (self@.phase is Idle),
    {
        match self.phase {
            TilePhase::Idle => true,
            _ => false,
        }
    }

    /// Whether `style` is the style the worker has loaded.
    pub fn has_loaded(&self, style: &Vec<u8>) -> (res: bool)
        ensures
            res == (self@.cached_style == Some(style@)),
    {
        match &self.cached_style {
            Some(cached) => bytes_equal(cached, style),
            None => false,
        }
    }

    /// Starts serving a request for the style whose path has the bytes `style`,
    /// at tile `z`/`x`/`y`: the style is loaded first exactly when it is not
    /// the one the worker has loaded.
    pub fn begin<I>(&mut self, style: Vec<u8>, z: u8, x: u32, y: u32) -> (a: TileAction<I>)
        requires
            old(self)@.phase is Idle,
        ensures
            (final(self)@, a) == begin_step::<I>(old(self)@, style@, z, x, y),
            final(self)@.cached_style == old(self)@.cached_style,
            old(self)@.cached_style == Some(style@) ==> (a == (TileAction::<I>::RenderTile { z, x, y })),
            old(self)@.cached_style == Some(style@) ==> (final(self)@.phase == (
            TilePhaseView::AwaitingTile { z, x, y })),
            old(self)@.cached_style != Some(style@) ==> (a is LoadStyle),
            old(self)@.cached_style != Some(style@) ==> (final(self)@.phase == (
            TilePhaseView::AwaitingStyle { style: style@, z, x, y })),
    {
        if self.has_loaded(&style) {
            self.phase = TilePhase::AwaitingTile { z, x, y };
            TileAction::RenderTile { z, x, y }
        } else {
            self.phase = TilePhase::AwaitingStyle { style, z, x, y };
            TileAction::LoadStyle
        }
    }

    /// Takes the outcome of loading the pending request's style: on success the
    /// style becomes the loaded one and the tile is rendered next; on failure
    /// the request is answered with the I/O error and the loaded style stays.
    pub fn style_loaded<I>(&mut self, result: Result<(), IoError>) -> (a: TileAction<I>)
        requires
            old(self)@.phase is AwaitingStyle,
        ensures
            (final(self)@, a) == style_loaded_step::<I>(old(self)@, result),
            result is Ok ==> (a == (TileAction::<I>::RenderTile {
                z: old(self)@.phase->AwaitingStyle_z,
                x: old(self)@.phase->AwaitingStyle_x,
                y: old(self)@.phase->AwaitingStyle_y,
            })),
            result is Ok ==> (final(self)@.cached_style == Some(old(self)@.phase->AwaitingStyle_style)),
            result is Err ==> (a == TileAction::<I>::Reply(
                Err(SingleThreadedRenderPoolError::IOError(result->Err_0)),
            )),
            result is Err ==> (final(self)@.cached_style == old(self)@.cached_style),
            result is Err ==> (final(self)@.phase is Idle),
    {
        let mut phase = TilePhase::Idle;
        std::mem::swap(&mut phase, &mut self.phase);
        match phase {
            TilePhase::AwaitingStyle { style, z, x, y } => match result {
                Ok(_) => {
                    self.cached_style = Some(style);
                    self.phase = TilePhase::AwaitingTile { z, x, y };
                    TileAction::RenderTile { z, x, y }
                },
                Err(e) => TileAction::Reply(Err(SingleThreadedRenderPoolError::IOError(e))),
            },
            TilePhase::Idle => TileAction::LoadStyle,
            TilePhase::AwaitingTile { .. } => TileAction::LoadStyle,
        }
    }

    /// Takes the renderer's result for the pending tile and answers the
    /// request with it, a rendering failure wrapped as such.
    pub fn tile_rendered<I>(&mut self, result: Result<I, RenderingError>) -> (a: TileAction<I>)
        requires
            old(self)@.phase is AwaitingTile,
        ensures
            (final(self)@, a) == tile_rendered_step::<I>(old(self)@, result),
            final(self)@.phase is Idle,
            final(self)@.cached_style == old(self)@.cached_style,
            result is Ok ==> (a == TileAction::<I>::Reply(Ok(result->Ok_0))),
            result is Err ==> (a == TileAction::<I>::Reply(
                Err(SingleThreadedRenderPoolError::RenderingError(result->Err_0)),
            )),
    {
        self.phase = TilePhase::Idle;
        match result {
            Ok(image) => TileAction::Reply(Ok(image)),
            Err(e) => TileAction::Reply(Err(SingleThreadedRenderPoolError::RenderingError(e))),
        }
    }
}

} // verus!
