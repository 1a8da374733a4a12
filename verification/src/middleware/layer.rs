//! One layer of the pipeline, with the settings that it is built from.

use vstd::prelude::*;

verus! {

/// A request method that the cross-origin settings can allow.
#[derive(Clone, Copy, Debug, PartialEq, Eq, Structural)]
pub enum Method {
    Get,
    Post,
    Put,
    Patch,
    Delete,
}

/// The origins that a cross-origin layer lets through.
#[derive(Debug, PartialEq, Eq)]
pub enum AllowedOrigins {
    /// Every origin: the reply names `*`.
    Any,
    /// The origins of this list: the reply names the origin of the request
    /// where the list holds exactly it, and none else.
    List(Vec<String>),
}

/// What an `AllowedOrigins` holds.
pub enum AllowedOriginsView {
    Any,
    List(Seq<Seq<char>>),
}

impl View for AllowedOrigins {
    type V = AllowedOriginsView;

    open spec fn view(&self) -> AllowedOriginsView {
        match self {
            AllowedOrigins::Any => AllowedOriginsView::Any,
            AllowedOrigins::List(list) => AllowedOriginsView::List(list.deep_view()),
        }
    }
}

/// The settings of a cross-origin layer.
#[derive(Debug, PartialEq, Eq)]
pub struct CorsSettings {
    /// The methods that a cross-origin request may use.
    pub methods: Vec<Method>,
    /// The request headers that it may carry, in lower case.
    pub headers: Vec<String>,
    /// Whether it may carry credentials.
    pub credentials: bool,
    /// The origins that it may come from.
    pub origins: AllowedOrigins,
}

/// What a `CorsSettings` holds.
pub struct CorsSettingsView {
    pub methods: Seq<Method>,
    pub headers: Seq<Seq<char>>,
    pub credentials: bool,
    pub origins: AllowedOriginsView,
}

impl View for CorsSettings {
    type V = CorsSettingsView;

    open spec fn view(&self) -> CorsSettingsView {
        CorsSettingsView {
            methods: self.methods@,
            headers: self.headers.deep_view(),
            credentials: self.credentials,
            origins: self.origins@,
        }
    }
}

/// One layer of the pipeline. A layer sees each request before the layers
/// inside it and each reply after them.
#[derive(Debug, PartialEq, Eq)]
pub enum Layer {
    /// Logs each request with its method and path, and its reply with the
    /// status and the time it took.
    Trace,
    /// Gives a request that comes without this header a fresh identifier
    /// under it; one that carries the header keeps its value.
    SetRequestId(String),
    /// Copies this header of the request onto the reply.
    PropagateRequestId(String),
    /// Ends the handling of a request that takes longer than this many
    /// seconds, drops the work in flight and replies with a timeout status.
    Timeout(u64),
    /// Takes a trailing slash off the path before the request is routed, so
    /// that `/todos/` is routed as `/todos`; the root path stays.
    NormalizePath,
    /// Adds the cross-origin headers that these settings allow.
    Cors(CorsSettings),
    /// Lets a request through only where its `Authorization` header is
    /// `Bearer ` followed by exactly this token; any other is refused as
    /// unauthorized before it reaches a layer inside.
    BearerAuth(String),
}

/// What a `Layer` holds.
pub enum LayerView {
    Trace,
    SetRequestId(Seq<char>),
    PropagateRequestId(Seq<char>),
    Timeout(u64),
    NormalizePath,
    Cors(CorsSettingsView),
    BearerAuth(Seq<char>),
}

impl View for Layer {
    type V = LayerView;

    open spec fn view(&self) -> LayerView {
        match self {
            Layer::Trace => LayerView::Trace,
            Layer::SetRequestId(header) => LayerView::SetRequestId(header@),
            Layer::PropagateRequestId(header) => LayerView::PropagateRequestId(header@),
            Layer::Timeout(secs) => LayerView::Timeout(*secs),
            Layer::NormalizePath => LayerView::NormalizePath,
            Layer::Cors(settings) => LayerView::Cors(settings@),
            Layer::BearerAuth(token) => LayerView::BearerAuth(token@),
        }
    }
}

/// The views of the layers of `plan`, in order.
pub open spec fn plan_view(plan: Seq<Layer>) -> Seq<LayerView> {
    Seq::new(plan.len(), |i: int| plan[i]@)
}

} // verus!
