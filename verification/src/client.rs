//! What a caller of either pool gets back from one call.
//!
//! A call hands its request to the worker and then waits for the worker's
//! reply. Failing to hand the request over and losing the reply are errors of
//! their own; otherwise the worker's reply is the result.
use vstd::prelude::*;
use crate::error::{SingleThreadedRenderPoolError, StaticRenderPoolError};

verus! {

/// The result of a call to the tile pool: `sent` tells whether the request
/// reached the worker, `reply` is the worker's reply when one arrived.
pub fn tile_call_result<I>(sent: bool, reply: Option<Result<I, SingleThreadedRenderPoolError>>) -> (r:
    Result<I, SingleThreadedRenderPoolError>)
    ensures
        !sent ==> r == Err::<I, SingleThreadedRenderPoolError>(
            SingleThreadedRenderPoolError::FailedToSendRequest,
        ),
        sent && reply is None ==> r == Err::<I, SingleThreadedRenderPoolError>(
            SingleThreadedRenderPoolError::FailedToReceiveResponse,
        ),
        sent && reply is Some ==> r == reply->0,
{
    if !sent {
        return Err(SingleThreadedRenderPoolError::FailedToSendRequest);
    }
    match reply {
        Some(result) => result,
        None => Err(SingleThreadedRenderPoolError::FailedToReceiveResponse),
    }
}

/// The result of a call to the static pool: `sent` tells whether the request
/// reached the worker, `reply` is the worker's reply when one arrived.
pub fn static_call_result<I>(sent: bool, reply: Option<Result<I, StaticRenderPoolError>>) -> (r:
    Result<I, StaticRenderPoolError>)
    ensures
        !sent ==> r == Err::<I, StaticRenderPoolError>(StaticRenderPoolError::FailedToSendRequest),
        sent && reply is None ==> r == Err::<I, StaticRenderPoolError>(
            StaticRenderPoolError::FailedToReceiveResponse,
        ),
        sent && reply is Some ==> r == reply->0,
{
    if !sent {
        return Err(StaticRenderPoolError::FailedToSendRequest);
    }
    match reply {
        Some(result) => result,
        None => Err(StaticRenderPoolError::FailedToReceiveResponse),
    }
}

} // verus!
