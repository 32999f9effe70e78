//! The decisions of the static pool's worker.
//!
//! The worker loads one base style when it starts and renders it once to warm
//! it up. Each request then only replaces the data of a GeoJSON source and
//! renders with the request's camera; the style is never loaded again. When
//! the base style fails to load, the worker stays alive and answers every
//! request with an I/O error that names the failure.
//!
//! `C` is the caller's camera (latitude, longitude, zoom, bearing, pitch),
//! which the worker only hands on to the renderer.
use vstd::prelude::*;
use vstd::string::*;
use crate::error::{
    IoError, IoErrorKind, IoErrorView, PoolErrorView, RenderingError, StaticRenderPoolError,
};

verus! {

/// Where the worker stands.
pub enum StaticPhase<C> {
    /// The base style is being loaded; `warmup` is the camera of the warm-up render.
    LoadingBase { warmup: C },
    /// The warm-up render is running.
    WarmingUp,
    /// The base style is loaded and no request is being served.
    Ready,
    /// The request's GeoJSON data is being set; its camera comes next.
    SettingSource { camera: C },
    /// The request's image is being rendered.
    Rendering,
    /// The base style failed to load, displaying `reason`; no request can be rendered.
    Failed { reason: String },
}

/// The mathematical value of a [`StaticPhase`].
pub enum StaticPhaseView<C> {
    LoadingBase { warmup: C },
    WarmingUp,
    Ready,
    SettingSource { camera: C },
    Rendering,
    Failed { reason: Seq<char> },
}

impl<C> View for StaticPhase<C> {
    type V = StaticPhaseView<C>;

    open spec fn view(&self) -> StaticPhaseView<C> {
        match self {
            StaticPhase::LoadingBase { warmup } => StaticPhaseView::LoadingBase { warmup: *warmup },
            StaticPhase::WarmingUp => StaticPhaseView::WarmingUp,
            StaticPhase::Ready => StaticPhaseView::Ready,
            StaticPhase::SettingSource { camera } => StaticPhaseView::SettingSource {
                camera: *camera,
            },
            StaticPhase::Rendering => StaticPhaseView::Rendering,
            StaticPhase::Failed { reason } => StaticPhaseView::Failed { reason: reason@ },
        }
    }
}

/// Whether the worker waits for the next request.
pub open spec fn awaits_request<C>(p: StaticPhaseView<C>) -> bool {
    p is Ready || p is Failed
}

/// The state of the static pool's worker.
pub struct StaticWorker<C> {
    phase: StaticPhase<C>,
}

impl<C> View for StaticWorker<C> {
    type V = StaticPhaseView<C>;

    closed spec fn view(&self) -> StaticPhaseView<C> {
        self.phase@
    }
}

/// What the worker asks its caller to do next.
pub enum StaticAction<I, C> {
    /// Load the base style into the renderer.
    LoadBaseStyle,
    /// Render once with `camera` to finish loading the style; the result is not used.
    Warmup { camera: C },
    /// Wait for the next request.
    AwaitRequest,
    /// Set the data of the GeoJSON source `source_id` to `geojson`.
    SetSource { source_id: String, geojson: String },
    /// Render the image with `camera`.
    Render { camera: C },
    /// Send this reply to the request's sender, then wait for the next request.
    Reply(Result<I, StaticRenderPoolError>),
}

/// The mathematical value of a [`StaticAction`].
pub enum StaticActionView<I, C> {
    LoadBaseStyle,
    Warmup { camera: C },
    AwaitRequest,
    SetSource { source_id: Seq<char>, geojson: Seq<char> },
    Render { camera: C },
    Reply(Result<I, PoolErrorView>),
}

impl<I, C> View for StaticAction<I, C> {
    type V = StaticActionView<I, C>;

    open spec fn view(&self) -> StaticActionView<I, C> {
        match self {
            StaticAction::LoadBaseStyle => StaticActionView::LoadBaseStyle,
            StaticAction::Warmup { camera } => StaticActionView::Warmup { camera: *camera },
            StaticAction::AwaitRequest => StaticActionView::AwaitRequest,
            StaticAction::SetSource { source_id, geojson } => StaticActionView::SetSource {
                source_id: source_id@,
                geojson: geojson@,
            },
            StaticAction::Render { camera } => StaticActionView::Render { camera: *camera },
            StaticAction::Reply(r) => StaticActionView::Reply(
                match r {
                    Ok(image) => Ok(*image),
                    Err(e) => Err(e@),
                },
            ),
        }
    }
}

/// What every request is answered with once the base style failed to load
/// displaying `reason`.
pub open spec fn base_style_missing(reason: Seq<char>) -> IoErrorView {
    IoErrorView { kind: IoErrorKind::NotFound, message: "Base style not loaded: "@ + reason }
}

/// Starting the worker, with the camera of the warm-up render.
pub open spec fn start_step<I, C>(warmup: C) -> (StaticPhaseView<C>, StaticActionView<I, C>) {
    (StaticPhaseView::LoadingBase { warmup }, StaticActionView::LoadBaseStyle)
}

/// The outcome of loading the base style.
pub open spec fn base_loaded_step<I, C>(w: StaticPhaseView<C>, result: Result<(), IoErrorView>) -> (
    StaticPhaseView<C>,
    StaticActionView<I, C>,
) {
    match w {
        StaticPhaseView::LoadingBase { warmup } => match result {
            Ok(_) => (StaticPhaseView::WarmingUp, StaticActionView::Warmup { camera: warmup }),
            Err(e) => (StaticPhaseView::Failed { reason: e.message }, StaticActionView::AwaitRequest),
        },
        _ => (w, StaticActionView::AwaitRequest),
    }
}

/// The end of the warm-up render, whatever it returned.
pub open spec fn warmed_up_step<I, C>(w: StaticPhaseView<C>) -> (
    StaticPhaseView<C>,
    StaticActionView<I, C>,
) {
    (StaticPhaseView::Ready, StaticActionView::AwaitRequest)
}

/// A request to render `geojson` into the source `source_id` with `camera`.
pub open spec fn begin_step<I, C>(
    w: StaticPhaseView<C>,
    source_id: Seq<char>,
    geojson: Seq<char>,
    camera: C,
) -> (StaticPhaseView<C>, StaticActionView<I, C>) {
    match w {
        StaticPhaseView::Failed { reason } => (
            w,
            StaticActionView::Reply(Err(PoolErrorView::IOError(base_style_missing(reason)))),
        ),
        _ => (
            StaticPhaseView::SettingSource { camera },
            StaticActionView::SetSource { source_id, geojson },
        ),
    }
}

/// The outcome of setting the request's GeoJSON data.
pub open spec fn source_set_step<I, C>(w: StaticPhaseView<C>, result: Result<(), Seq<char>>) -> (
    StaticPhaseView<C>,
    StaticActionView<I, C>,
) {
    match w {
        StaticPhaseView::SettingSource { camera } => match result {
            Ok(_) => (StaticPhaseView::Rendering, StaticActionView::Render { camera }),
            Err(e) => (
                StaticPhaseView::Ready,
                StaticActionView::Reply(Err(PoolErrorView::RenderingError(e))),
            ),
        },
        _ => (w, StaticActionView::AwaitRequest),
    }
}

/// What the request is answered when the renderer returns `result` for its image.
pub open spec fn static_reply<I>(result: Result<I, Seq<char>>) -> Result<I, PoolErrorView> {
    match result {
        Ok(image) => Ok(image),
        Err(e) => Err(PoolErrorView::RenderingError(e)),
    }
}

/// The outcome of rendering the request's image.
pub open spec fn rendered_step<I, C>(w: StaticPhaseView<C>, result: Result<I, Seq<char>>) -> (
    StaticPhaseView<C>,
    StaticActionView<I, C>,
) {
    (StaticPhaseView::Ready, StaticActionView::Reply(static_reply(result)))
}

/// The view of a result whose error is an I/O error.
pub open spec fn io_result_view(r: Result<(), IoError>) -> Result<(), IoErrorView> {
    match r {
        Ok(_) => Ok(()),
        Err(e) => Err(e@),
    }
}

/// The view of a result whose error is a rendering error.
pub open spec fn render_result_view<T>(r: Result<T, RenderingError>) -> Result<T, Seq<char>> {
    match r {
        Ok(v) => Ok(v),
        Err(e) => Err(e@),
    }
}

/// Serving one request from a worker that waits for requests: the request is
/// begun, its GeoJSON data is set with outcome `set` when the worker asks for
/// it, and its image is rendered with outcome `render` when the worker asks.
pub open spec fn serve_step<I, C>(
    w: StaticPhaseView<C>,
    source_id: Seq<char>,
    geojson: Seq<char>,
    camera: C,
    set: Result<(), Seq<char>>,
    render: Result<I, Seq<char>>,
) -> (StaticPhaseView<C>, StaticActionView<I, C>) {
    let (w1, a1) = begin_step::<I, C>(w, source_id, geojson, camera);
    let (w2, a2) = if a1 is SetSource {
        source_set_step::<I, C>(w1, set)
    } else {
        (w1, a1)
    };
    if a2 is Render {
        rendered_step::<I, C>(w2, render)
    } else {
        (w2, a2)
    }
}

/// One request of a series, with the outcomes that setting its data and
/// rendering its image would have.
pub struct StaticRound<I, C> {
    pub source_id: Seq<char>,
    pub geojson: Seq<char>,
    pub camera: C,
    pub set: Result<(), Seq<char>>,
    pub render: Result<I, Seq<char>>,
}

/// The worker's state after serving `rounds` one after the other.
pub open spec fn after_series<I, C>(w: StaticPhaseView<C>, rounds: Seq<StaticRound<I, C>>) -> StaticPhaseView<C>
    decreases rounds.len(),
{
    if rounds.len() == 0 {
        w
    } else {
        let r = rounds[0];
        let next = serve_step::<I, C>(w, r.source_id, r.geojson, r.camera, r.set, r.render).0;
        after_series::<I, C>(next, rounds.drop_first())
    }
}

/// Starting the worker loads the base style; when that succeeds the warm-up
/// render uses the camera given at the start and, whatever it returns, the
/// worker then waits for requests with the style loaded; when it fails the
/// worker waits for requests with the failure's text kept.
pub proof fn lemma_start<I, C>(warmup: C, load: Result<(), IoErrorView>)
    ensures
        start_step::<I, C>(warmup).1 is LoadBaseStyle,
        load is Ok ==> (base_loaded_step::<I, C>(start_step::<I, C>(warmup).0, load).1 == (
        StaticActionView::<I, C>::Warmup { camera: warmup })),
        load is Ok ==> (warmed_up_step::<I, C>(base_loaded_step::<I, C>(start_step::<I, C>(warmup).0, load).0).0
            is Ready),
        load is Err ==> (base_loaded_step::<I, C>(start_step::<I, C>(warmup).0, load) == (
        StaticPhaseView::<C>::Failed { reason: load->Err_0.message },
        StaticActionView::<I, C>::AwaitRequest,
        )),
{
}

/// With the base style loaded, a request only sets the GeoJSON data it carries
/// into the source it names and renders with its camera; it never loads a
/// style. It is answered with the rendering error when setting the data fails,
/// otherwise with the renderer's result, and the worker waits for the next
/// request with the style still loaded.
pub proof fn lemma_serve_ready<I, C>(
    source_id: Seq<char>,
    geojson: Seq<char>,
    camera: C,
    set: Result<(), Seq<char>>,
    render: Result<I, Seq<char>>,
)
    ensures
        begin_step::<I, C>(StaticPhaseView::Ready, source_id, geojson, camera).1 == (
        StaticActionView::<I, C>::SetSource { source_id, geojson }),
        set is Ok ==> (source_set_step::<I, C>(
            begin_step::<I, C>(StaticPhaseView::Ready, source_id, geojson, camera).0,
            set,
        ).1 == (StaticActionView::<I, C>::Render { camera })),
        serve_step::<I, C>(StaticPhaseView::Ready, source_id, geojson, camera, set, render).0
            is Ready,
        set is Err ==> (serve_step::<I, C>(StaticPhaseView::Ready, source_id, geojson, camera, set, render).1
            == StaticActionView::<I, C>::Reply(Err(PoolErrorView::RenderingError(set->Err_0)))),
        set is Ok ==> (serve_step::<I, C>(StaticPhaseView::Ready, source_id, geojson, camera, set, render).1
            == StaticActionView::<I, C>::Reply(static_reply(render))),
        set is Ok && render is Ok ==> (serve_step::<I, C>(
            StaticPhaseView::Ready,
            source_id,
            geojson,
            camera,
            set,
            render,
        ).1 == StaticActionView::<I, C>::Reply(Ok(render->Ok_0))),
        set is Ok && render is Err ==> (serve_step::<I, C>(
            StaticPhaseView::Ready,
            source_id,
            geojson,
            camera,
            set,
            render,
        ).1 == StaticActionView::<I, C>::Reply(Err(PoolErrorView::RenderingError(render->Err_0)))),
{
}

/// A worker setting the data of a request renders with exactly that
/// request's camera once the data is set, and answers with the renderer's
/// result: an image as it is, a failure as a rendering error.
pub proof fn lemma_pending_camera_is_rendered<I, C>(
    camera: C,
    render: Result<I, Seq<char>>,
)
    ensures
        source_set_step::<I, C>(StaticPhaseView::SettingSource { camera }, Ok(())) == (
        StaticPhaseView::<C>::Rendering,
        StaticActionView::<I, C>::Render { camera },
        ),
        render is Ok ==> (rendered_step::<I, C>(StaticPhaseView::Rendering, render) == (
        StaticPhaseView::<C>::Ready,
        StaticActionView::<I, C>::Reply(Ok(render->Ok_0)),
        )),
        render is Err ==> (rendered_step::<I, C>(StaticPhaseView::Rendering, render) == (
        StaticPhaseView::<C>::Ready,
        StaticActionView::<I, C>::Reply(Err(PoolErrorView::RenderingError(render->Err_0))),
        )),
{
}

/// Without the base style, a request is answered at once with a not-found I/O
/// error that names the load failure, and the worker stays as it was.
pub proof fn lemma_serve_failed<I, C>(
    reason: Seq<char>,
    source_id: Seq<char>,
    geojson: Seq<char>,
    camera: C,
    set: Result<(), Seq<char>>,
    render: Result<I, Seq<char>>,
)
    ensures
        serve_step::<I, C>(StaticPhaseView::Failed { reason }, source_id, geojson, camera, set, render)
            == (StaticPhaseView::<C>::Failed { reason }, StaticActionView::<I, C>::Reply(
            Err(PoolErrorView::IOError(base_style_missing(reason))),
        )),
        serve_step::<I, C>(StaticPhaseView::Failed { reason }, source_id, geojson, camera, set, render).1
            == StaticActionView::<I, C>::Reply(Err(PoolErrorView::IOError(IoErrorView {
            kind: IoErrorKind::NotFound,
            message: "Base style not loaded: "@ + reason,
        }))),
{
}

/// Any series of requests leaves a worker with the base style loaded ready,
/// and a worker without it failed for the same reason: the style is loaded
/// once, at the start, and never again.
pub proof fn lemma_series_keeps_base_style<I, C>(w: StaticPhaseView<C>, rounds: Seq<StaticRound<I, C>>)
    requires
        awaits_request(w),
    ensures
        after_series::<I, C>(w, rounds) == w,
    decreases rounds.len(),
{
    if rounds.len() > 0 {
        let r = rounds[0];
        match w {
            StaticPhaseView::Failed { reason } => {
                lemma_serve_failed::<I, C>(reason, r.source_id, r.geojson, r.camera, r.set, r.render);
            },
            _ => {
                lemma_serve_ready::<I, C>(r.source_id, r.geojson, r.camera, r.set, r.render);
            },
        }
        lemma_series_keeps_base_style::<I, C>(w, rounds.drop_first());
    }
}

impl<C> StaticWorker<C> {
    /// Starts a worker, which first loads the base style; `warmup` is the
    /// camera of the render that follows a successful load.
    pub fn start<I>(warmup: C) -> (res: (StaticWorker<C>, StaticAction<I, C>))
        ensures
            (res.0@, res.1@) == start_step::<I, C>(warmup),
    {
        (StaticWorker { phase: StaticPhase::LoadingBase { warmup } }, StaticAction::LoadBaseStyle)
    }

    /// Whether the worker waits for the next request.
    pub fn awaits_request(&self) -> (res: bool)
        ensures
            res == awaits_request(self@),
    {
        match self.phase {
            StaticPhase::Ready => true,
            StaticPhase::Failed { .. } => true,
            _ => false,
        }
    }

    /// Takes the outcome of loading the base style: on success the warm-up
    /// render comes next; on failure the worker keeps the error's text and
    /// waits for requests, which it can only refuse.
    pub fn base_loaded<I>(&mut self, result: Result<(), IoError>) -> (a: StaticAction<I, C>)
        requires
            old(self)@ is LoadingBase,
        ensures
            (final(self)@, a@) == base_loaded_step::<I, C>(old(self)@, io_result_view(result)),
            result is Ok ==> (a@ == (StaticActionView::<I, C>::Warmup {
                camera: old(self)@->LoadingBase_warmup,
            })),
            result is Ok ==> (final(self)@ is WarmingUp),
            result is Err ==> (final(self)@ == (StaticPhaseView::<C>::Failed {
                reason: result->Err_0.message@,
            })),
            result is Err ==> (a@ is AwaitRequest),
    {
        let mut phase = StaticPhase::WarmingUp;
        std::mem::swap(&mut phase, &mut self.phase);
        match phase {
            StaticPhase::LoadingBase { warmup } => match result {
                Ok(_) => StaticAction::Warmup { camera: warmup },
                Err(e) => {
                    self.phase = StaticPhase::Failed { reason: e.message };
                    StaticAction::AwaitRequest
                },
            },
            _ => StaticAction::AwaitRequest,
        }
    }

    /// Ends the warm-up render; its result is not used.
    pub fn warmed_up<I, T>(&mut self, result: Result<T, RenderingError>) -> (a: StaticAction<I, C>)
        requires
            old(self)@ is WarmingUp,
        ensures
            (final(self)@, a@) == warmed_up_step::<I, C>(old(self)@),
            final(self)@ is Ready,
            a@ is AwaitRequest,
    {
        self.phase = StaticPhase::Ready;
        StaticAction::AwaitRequest
    }

    /// Starts serving a request to render `geojson` into the source
    /// `source_id` with `camera`: with the base style loaded the source data
    /// is set first; without it the request is refused at once.
    pub fn begin<I>(&mut self, source_id: String, geojson: String, camera: C) -> (a: StaticAction<
        I,
        C,
    >)
        requires
            awaits_request(old(self)@),
        ensures
            (final(self)@, a@) == begin_step::<I, C>(old(self)@, source_id@, geojson@, camera),
            old(self)@ is Ready ==> (a@ == (StaticActionView::<I, C>::SetSource {
                source_id: source_id@,
                geojson: geojson@,
            })),
            old(self)@ is Ready ==> (final(self)@ == (StaticPhaseView::<C>::SettingSource { camera })),
            old(self)@ is Failed ==> (final(self)@ == old(self)@),
            old(self)@ is Failed ==> (a@ == StaticActionView::<I, C>::Reply(
                Err(PoolErrorView::IOError(IoErrorView {
                    kind: IoErrorKind::NotFound,
                    message: "Base style not loaded: "@ + old(self)@->Failed_reason,
                })),
            )),
    {
        match &self.phase {
            StaticPhase::Failed { reason } => {
                let mut message = String::from_str("Base style not loaded: ");
                message.append(reason.as_str());
                proof {
                    reveal_strlit("Base style not loaded: ");
                }
                let e = IoError::new(IoErrorKind::NotFound, message);
                return StaticAction::Reply(Err(StaticRenderPoolError::IOError(e)));
            },
            _ => {},
        }
        self.phase = StaticPhase::SettingSource { camera };
        StaticAction::SetSource { source_id, geojson }
    }

    /// Takes the outcome of setting the request's GeoJSON data: on success
    /// the image is rendered with the request's camera; on failure the request
    /// is answered with the rendering error.
    pub fn source_set<I>(&mut self, result: Result<(), RenderingError>) -> (a: StaticAction<I, C>)
        requires
            old(self)@ is SettingSource,
        ensures
            (final(self)@, a@) == source_set_step::<I, C>(old(self)@, render_result_view(result)),
            result is Ok ==> (a@ == (StaticActionView::<I, C>::Render {
                camera: old(self)@->SettingSource_camera,
            })),
            result is Ok ==> (final(self)@ is Rendering),
            result is Err ==> (a@ == StaticActionView::<I, C>::Reply(
                Err(PoolErrorView::RenderingError(result->Err_0@)),
            )),
            result is Err ==> (final(self)@ is Ready),
    {
        let mut phase = StaticPhase::Rendering;
        std::mem::swap(&mut phase, &mut self.phase);
        match phase {
            StaticPhase::SettingSource { camera } => match result {
                Ok(_) => StaticAction::Render { camera },
                Err(e) => {
                    self.phase = StaticPhase::Ready;
                    StaticAction::Reply(Err(StaticRenderPoolError::RenderingError(e)))
                },
            },
            _ => StaticAction::AwaitRequest,
        }
    }

    /// Takes the renderer's result for the request's image and answers the
    /// request with it, a rendering failure wrapped as such.
    pub fn rendered<I>(&mut self, result: Result<I, RenderingError>) -> (a: StaticAction<I, C>)
        requires
            old(self)@ is Rendering,
        ensures
            (final(self)@, a@) == rendered_step::<I, C>(old(self)@, render_result_view(result)),
            final(self)@ is Ready,
            result is Ok ==> (a@ == StaticActionView::<I, C>::Reply(Ok(result->Ok_0))),
            result is Err ==> (a@ == StaticActionView::<I, C>::Reply(
                Err(PoolErrorView::RenderingError(result->Err_0@)),
            )),
    {
        self.phase = StaticPhase::Ready;
        match result {
            Ok(image) => StaticAction::Reply(Ok(image)),
            Err(e) => StaticAction::Reply(Err(StaticRenderPoolError::RenderingError(e))),
        }
    }
}

} // verus!
