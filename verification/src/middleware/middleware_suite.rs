//! What a set of middleware has to offer.

use crate::middleware::layer::{plan_view, CorsSettings, Layer, LayerView};
use vstd::prelude::*;

verus! {

/// The layers that a server wraps round its routes, one method for each
/// concern.
pub trait MiddlewareSuite {
    /// The layer that logs requests and replies.
    fn trace(&self) -> (layer: Layer)
        ensures
            layer@ == LayerView::Trace,
    ;

    /// The layer that takes the trailing slash off a path.
    fn normalize_path(&self) -> (layer: Layer)
        ensures
            layer@ == LayerView::NormalizePath,
    ;

    /// The two layers that set the request id and copy it onto the reply,
    /// the outer one first. Both speak of the same header.
    fn request_id_stack(&self) -> (stack: Vec<Layer>)
        ensures
            stack@.len() == 2,
            stack@[0]@ is SetRequestId,
            stack@[1]@ is PropagateRequestId,
            stack@[0]@->SetRequestId_0 == stack@[1]@->PropagateRequestId_0,
    ;

    /// The layer that bounds the time a handler may take.
    fn timeout(&self) -> (layer: Layer)
        ensures
            layer@ is Timeout,
    ;

    /// The settings of the cross-origin layer, or `None` where there is to
    /// be none.
    fn cors_layer(&self) -> Option<CorsSettings>;
}

} // verus!
