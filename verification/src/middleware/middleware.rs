//! The middleware of the service, built from its configuration.

use crate::config::server_config::{CorsPolicy, CorsPolicyView, ServerConfig, ServerConfigView};
use crate::middleware::layer::{
    AllowedOrigins, AllowedOriginsView, CorsSettings, CorsSettingsView, Layer, LayerView, Method,
};
use crate::middleware::middleware_suite::MiddlewareSuite;
use vstd::prelude::*;
use vstd::string::*;

verus! {

/// The methods that a cross-origin request may use.
pub open spec fn default_methods_spec() -> Seq<Method> {
    seq![Method::Get, Method::Post, Method::Put, Method::Patch, Method::Delete]
}

/// The request headers that a cross-origin request may carry.
pub open spec fn default_headers_spec() -> Seq<Seq<char>> {
    seq!["content-type"@, "authorization"@]
}

/// The methods that a cross-origin request may use: the four that read or
/// write a resource, and `PATCH`.
#[inline]
pub fn default_methods() -> (methods: [Method; 5])
    ensures
        methods@ == default_methods_spec(),
{
    let methods = [Method::Get, Method::Post, Method::Put, Method::Patch, Method::Delete];
    assert(methods@ =~= default_methods_spec());
    methods
}

/// The request headers that a cross-origin request may carry:
/// `content-type` and `authorization`.
#[inline]
pub fn default_headers() -> (headers: [String; 2])
    ensures
        headers@.len() == 2,
        headers@[0]@ == default_headers_spec()[0],
        headers@[1]@ == default_headers_spec()[1],
{
    [String::from_str("content-type"), String::from_str("authorization")]
}

/// The settings that allow `origins` together with the default methods and
/// headers, and with credentials.
pub open spec fn with_defaults_spec(origins: AllowedOriginsView) -> CorsSettingsView {
    CorsSettingsView {
        methods: default_methods_spec(),
        headers: default_headers_spec(),
        credentials: true,
        origins,
    }
}

/// The settings of the cross-origin layer that a policy asks for: none where
/// it is disabled, every origin where it is permissive, else the origins of
/// its list.
pub open spec fn cors_settings(policy: CorsPolicyView) -> Option<CorsSettingsView> {
    match policy {
        CorsPolicyView::Disabled => None,
        CorsPolicyView::Permissive => Some(with_defaults_spec(AllowedOriginsView::Any)),
        CorsPolicyView::Allow(list) => Some(with_defaults_spec(AllowedOriginsView::List(list))),
    }
}

impl CorsSettings {
    /// The settings that allow `origins` together with the default methods
    /// and headers, and with credentials. Credentials are allowed for every
    /// origin too, though a browser refuses that pair, and a layer may
    /// refuse to be built from it.
    pub fn with_defaults(origins: AllowedOrigins) -> (settings: Self)
        ensures
            settings@ == with_defaults_spec(origins@),
    {
        let all_methods = default_methods();
        let mut methods: Vec<Method> = Vec::new();
        let mut i: usize = 0;
        while i < 5
            invariant
                i <= 5,
                all_methods@ == default_methods_spec(),
                methods@ == default_methods_spec().subrange(0, i as int),
            decreases 5 - i,
        {
            methods.push(all_methods[i]);
            assert(methods@ =~= default_methods_spec().subrange(0, i as int + 1));
            i = i + 1;
        }
        assert(methods@ =~= default_methods_spec());
        let all_headers = default_headers();
        let mut headers: Vec<String> = Vec::new();
        headers.push(all_headers[0].clone());
        headers.push(all_headers[1].clone());
        assert(headers.deep_view() =~= default_headers_spec());
        CorsSettings { methods, headers, credentials: true, origins }
    }
}

/// The middleware of the service: what its layers are built from.
#[derive(Debug)]
pub struct Middleware {
    request_id_header: String,
    timeout_secs: u64,
    cors: CorsPolicy,
}

impl View for Middleware {
    type V = ServerConfigView;

    closed spec fn view(&self) -> ServerConfigView {
        ServerConfigView {
            request_id_header: self.request_id_header@,
            timeout_secs: self.timeout_secs,
            cors: self.cors@,
        }
    }
}

impl Clone for Middleware {
    fn clone(&self) -> (r: Self)
        ensures
            r@ == self@,
    {
        Middleware {
            request_id_header: self.request_id_header.clone(),
            timeout_secs: self.timeout_secs,
            cors: self.cors.clone(),
        }
    }
}

impl Middleware {
    /// The middleware that `cfg` asks for: it holds what `cfg` holds.
    pub fn from(cfg: &ServerConfig) -> (mw: Self)
        ensures
            mw@ == cfg@,
    {
        Middleware {
            request_id_header: cfg.request_id_header.clone(),
            timeout_secs: cfg.timeout_secs,
            cors: cfg.cors.clone(),
        }
    }
}

impl MiddlewareSuite for Middleware {
    fn trace(&self) -> (layer: Layer) {
        Layer::Trace
    }

    fn normalize_path(&self) -> (layer: Layer) {
        Layer::NormalizePath
    }

    /// Both layers speak of the configured header.
    fn request_id_stack(&self) -> (stack: Vec<Layer>)
        ensures
            stack@[0]@ == LayerView::SetRequestId(self@.request_id_header),
            stack@[1]@ == LayerView::PropagateRequestId(self@.request_id_header),
    {
        let mut stack: Vec<Layer> = Vec::new();
        stack.push(Layer::SetRequestId(self.request_id_header.clone()));
        stack.push(Layer::PropagateRequestId(self.request_id_header.clone()));
        stack
    }

    /// The bound is the configured one.
    fn timeout(&self) -> (layer: Layer)
        ensures
            layer@ == LayerView::Timeout(self@.timeout_secs),
    {
        Layer::Timeout(self.timeout_secs)
    }

    /// The settings that the configured policy asks for.
    fn cors_layer(&self) -> (settings: Option<CorsSettings>)
        ensures
            match settings {
                Some(s) => cors_settings(self@.cors) == Some(s@),
                None => cors_settings(self@.cors) is None,
            },
    {
        match &self.cors {
            CorsPolicy::Disabled => None,
            CorsPolicy::Permissive => Some(CorsSettings::with_defaults(AllowedOrigins::Any)),
            CorsPolicy::Allow(list) => {
                let allow_values: Vec<String> = list.clone();
                assert(allow_values.deep_view() =~= list.deep_view());
                Some(CorsSettings::with_defaults(AllowedOrigins::List(allow_values)))
            },
        }
    }
}

} // verus!
