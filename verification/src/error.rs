//! Error values of the two render pools, held as plain data.
use vstd::prelude::*;
use vstd::string::*;

verus! {

/// The category of an I/O error, as the renderer reports it.
#[derive(Debug, Clone, Copy, PartialEq, Eq, Structural)]
pub enum IoErrorKind {
    NotFound,
    PermissionDenied,
    ConnectionRefused,
    ConnectionReset,
    ConnectionAborted,
    NotConnected,
    AddrInUse,
    AddrNotAvailable,
    BrokenPipe,
    AlreadyExists,
    WouldBlock,
    InvalidInput,
    InvalidData,
    TimedOut,
    WriteZero,
    Interrupted,
    Unsupported,
    UnexpectedEof,
    OutOfMemory,
    Other,
}

/// An I/O error: its kind and the text it displays.
#[derive(Debug)]
pub struct IoError {
    pub kind: IoErrorKind,
    pub message: String,
}

/// The mathematical value of an [`IoError`].
pub struct IoErrorView {
    pub kind: IoErrorKind,
    pub message: Seq<char>,
}

impl View for IoError {
    type V = IoErrorView;

    open spec fn view(&self) -> IoErrorView {
        IoErrorView { kind: self.kind, message: self.message@ }
    }
}

impl IoError {
    /// An I/O error of the given kind that displays `message`.
    pub fn new(kind: IoErrorKind, message: String) -> (e: IoError)
        ensures
            e.kind == kind,
            e.message == message,
    {
        IoError { kind, message }
    }
}

/// An error reported by the map renderer, with the text it displays.
#[derive(Debug)]
pub struct RenderingError {
    pub message: String,
}

impl View for RenderingError {
    type V = Seq<char>;

    open spec fn view(&self) -> Seq<char> {
        self.message@
    }
}

impl RenderingError {
    /// A rendering error that displays `message`.
    pub fn new(message: String) -> (e: RenderingError)
        ensures
            e.message == message,
    {
        RenderingError { message }
    }
}

/// The mathematical value of a pool error; both pools share it.
pub enum PoolErrorView {
    IOError(IoErrorView),
    RenderingError(Seq<char>),
    FailedToSendRequest,
    FailedToReceiveResponse,
}

impl PoolErrorView {
    /// The text the error displays: the inner error's own text for the
    /// wrapped errors, a fixed sentence for the channel failures.
    pub open spec fn display(self) -> Seq<char> {
        match self {
            PoolErrorView::IOError(e) => e.message,
            PoolErrorView::RenderingError(m) => m,
            PoolErrorView::FailedToSendRequest => send_failed_text(),
            PoolErrorView::FailedToReceiveResponse => receive_failed_text(),
        }
    }
}

/// What a failed hand-over of a request to the worker displays.
pub open spec fn send_failed_text() -> Seq<char> {
    "Failed to send request to rendering thread"@
}

/// What a lost reply from the worker displays.
pub open spec fn receive_failed_text() -> Seq<char> {
    "Failed to receive response from rendering thread"@
}

fn send_failed_string() -> (s: String)
    ensures
        s@ == send_failed_text(),
{
    String::from_str("Failed to send request to rendering thread")
}

fn receive_failed_string() -> (s: String)
    ensures
        s@ == receive_failed_text(),
{
    String::from_str("Failed to receive response from rendering thread")
}

/// Errors that can occur in the single-threaded render pool.
#[derive(Debug)]
pub enum SingleThreadedRenderPoolError {
    /// An I/O error occurred during rendering operations.
    IOError(IoError),
    /// A rendering error occurred during map rendering.
    RenderingError(RenderingError),
    /// Failed to send a rendering request to the worker thread.
    FailedToSendRequest,
    /// Failed to receive a response from the worker thread.
    FailedToReceiveResponse,
}

impl View for SingleThreadedRenderPoolError {
    type V = PoolErrorView;

    open spec fn view(&self) -> PoolErrorView {
        match self {
            SingleThreadedRenderPoolError::IOError(e) => PoolErrorView::IOError(e@),
            SingleThreadedRenderPoolError::RenderingError(e) => PoolErrorView::RenderingError(e@),
            SingleThreadedRenderPoolError::FailedToSendRequest => PoolErrorView::FailedToSendRequest,
            SingleThreadedRenderPoolError::FailedToReceiveResponse => PoolErrorView::FailedToReceiveResponse,
        }
    }
}

impl SingleThreadedRenderPoolError {
    /// The text the error displays.
    pub fn to_string(&self) -> (s: String)
        ensures
            s@ == self@.display(),
    {
        match self {
            SingleThreadedRenderPoolError::IOError(e) => e.message.clone(),
            SingleThreadedRenderPoolError::RenderingError(e) => e.message.clone(),
            SingleThreadedRenderPoolError::FailedToSendRequest => send_failed_string(),
            SingleThreadedRenderPoolError::FailedToReceiveResponse => receive_failed_string(),
        }
    }
}

/// Errors that can occur in the static render pool.
#[derive(Debug)]
pub enum StaticRenderPoolError {
    /// An I/O error occurred during rendering operations.
    IOError(IoError),
    /// A rendering error occurred during map rendering.
    RenderingError(RenderingError),
    /// Failed to send a rendering request to the worker thread.
    FailedToSendRequest,
    /// Failed to receive a response from the worker thread.
    FailedToReceiveResponse,
}

impl View for StaticRenderPoolError {
    type V = PoolErrorView;

    open spec fn view(&self) -> PoolErrorView {
        match self {
            StaticRenderPoolError::IOError(e) => PoolErrorView::IOError(e@),
            StaticRenderPoolError::RenderingError(e) => PoolErrorView::RenderingError(e@),
            StaticRenderPoolError::FailedToSendRequest => PoolErrorView::FailedToSendRequest,
            StaticRenderPoolError::FailedToReceiveResponse => PoolErrorView::FailedToReceiveResponse,
        }
    }
}

impl StaticRenderPoolError {
    /// The text the error displays.
    pub fn to_string(&self) -> (s: String)
        ensures
            s@ == self@.display(),
    {
        match self {
            StaticRenderPoolError::IOError(e) => e.message.clone(),
            StaticRenderPoolError::RenderingError(e) => e.message.clone(),
            StaticRenderPoolError::FailedToSendRequest => send_failed_string(),
            StaticRenderPoolError::FailedToReceiveResponse => receive_failed_string(),
        }
    }
}

impl From<IoError> for SingleThreadedRenderPoolError {
    fn from(e: IoError) -> (r: Self) {
        SingleThreadedRenderPoolError::IOError(e)
    }
}

impl vstd::std_specs::convert::FromSpecImpl<IoError> for SingleThreadedRenderPoolError {
    open spec fn obeys_from_spec() -> bool {
        true
    }

    open spec fn from_spec(e: IoError) -> Self {
        SingleThreadedRenderPoolError::IOError(e)
    }
}

impl From<RenderingError> for SingleThreadedRenderPoolError {
    fn from(e: RenderingError) -> (r: Self) {
        SingleThreadedRenderPoolError::RenderingError(e)
    }
}

impl vstd::std_specs::convert::FromSpecImpl<RenderingError> for SingleThreadedRenderPoolError {
    open spec fn obeys_from_spec() -> bool {
        true
    }

    open spec fn from_spec(e: RenderingError) -> Self {
        SingleThreadedRenderPoolError::RenderingError(e)
    }
}

impl From<IoError> for StaticRenderPoolError {
    fn from(e: IoError) -> (r: Self) {
        StaticRenderPoolError::IOError(e)
    }
}

impl vstd::std_specs::convert::FromSpecImpl<IoError> for StaticRenderPoolError {
    open spec fn obeys_from_spec() -> bool {
        true
    }

    open spec fn from_spec(e: IoError) -> Self {
        StaticRenderPoolError::IOError(e)
    }
}

impl From<RenderingError> for StaticRenderPoolError {
    fn from(e: RenderingError) -> (r: Self) {
        StaticRenderPoolError::RenderingError(e)
    }
}

impl vstd::std_specs::convert::FromSpecImpl<RenderingError> for StaticRenderPoolError {
    open spec fn obeys_from_spec() -> bool {
        true
    }

    open spec fn from_spec(e: RenderingError) -> Self {
        StaticRenderPoolError::RenderingError(e)
    }
}

} // verus!
