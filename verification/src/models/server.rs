//! The composition of the service: the layers round its routes, in order.

use crate::config::app_state::AppState;
use crate::config::server_config::{
    ConfigError, ConfigErrorView, CorsPolicyView, ServerConfigView,
};
use crate::header::{is_header_name, is_header_value, parse_header_value};
use crate::middleware::layer::{plan_view, AllowedOriginsView, Layer, LayerView};
use crate::middleware::middleware::{cors_settings, default_headers_spec, Middleware};
use crate::middleware::middleware_suite::MiddlewareSuite;
use vstd::prelude::*;

verus! {

/// The layers that wrap the routes, the outermost first: logging, the two
/// request-id layers, the timeout, path normalisation and, innermost, the
/// cross-origin layer where the policy asks for one.
pub open spec fn pipeline(cfg: ServerConfigView) -> Seq<LayerView> {
    seq![
        LayerView::Trace,
        LayerView::SetRequestId(cfg.request_id_header),
        LayerView::PropagateRequestId(cfg.request_id_header),
        LayerView::Timeout(cfg.timeout_secs),
        LayerView::NormalizePath,
    ] + match cors_settings(cfg.cors) {
        Some(settings) => seq![LayerView::Cors(settings)],
        None => Seq::<LayerView>::empty(),
    }
}

/// The pipeline behind the bearer-token guard: with an admin token the guard
/// is the outermost layer, without one there is none. A token that is no
/// header value cannot be asked for and is an error.
pub open spec fn guarded_pipeline(cfg: ServerConfigView, admin_token: Option<Seq<char>>) -> Result<
    Seq<LayerView>,
    ConfigErrorView,
> {
    match admin_token {
        None => Ok(pipeline(cfg)),
        Some(token) => if is_header_value(token) {
            Ok(seq![LayerView::BearerAuth(token)] + pipeline(cfg))
        } else {
            Err(ConfigErrorView::InvalidAdminToken)
        },
    }
}

/// The service: its shared state and the middleware built from the state's
/// configuration.
#[derive(Clone, Debug)]
pub struct Server<P> {
    pub state: AppState<P>,
    pub mw: Middleware,
}

impl<P> Server<P> {
    /// The server over `state`, with the middleware that the configuration
    /// in `state` asks for.
    pub fn new(state: AppState<P>) -> (server: Self)
        ensures
            server.state == state,
            server.mw@ == state.cfg@,
    {
        let mw = Middleware::from(&state.cfg);
        Self { state, mw }
    }

    /// The layers to wrap round the routes, the outermost first.
    pub fn router(&self) -> (plan: Vec<Layer>)
        ensures
            plan_view(plan@) == pipeline(self.mw@),
    {
        let mut plan: Vec<Layer> = Vec::new();
        plan.push(self.mw.trace());
        let mut stack = self.mw.request_id_stack();
        plan.append(&mut stack);
        plan.push(self.mw.timeout());
        plan.push(self.mw.normalize_path());
        if let Some(cors) = self.mw.cors_layer() {
            plan.push(Layer::Cors(cors));
        }
        assert(plan_view(plan@) =~= pipeline(self.mw@));
        plan
    }

    /// The layers of `router` behind the bearer-token guard that
    /// `admin_token` asks for.
    pub fn guarded_router(&self, admin_token: Option<String>) -> (r: Result<
        Vec<Layer>,
        ConfigError,
    >)
        ensures
            match r {
                Ok(plan) => guarded_pipeline(self.mw@, crate::config::server_config::text_of(
                    admin_token,
                )) == Ok::<Seq<LayerView>, ConfigErrorView>(plan_view(plan@)),
                Err(e) => guarded_pipeline(self.mw@, crate::config::server_config::text_of(
                    admin_token,
                )) == Err::<Seq<LayerView>, ConfigErrorView>(e@),
            },
    {
        let mut plan: Vec<Layer> = Vec::new();
        if let Some(token) = admin_token {
            match parse_header_value(token.as_str()) {
                Ok(_) => {
                    plan.push(Layer::BearerAuth(token));
                },
                Err(_) => {
                    return Err(ConfigError::InvalidAdminToken);
                },
            }
        }
        let ghost guard = plan_view(plan@);
        assert(guard =~= match admin_token {
            Some(token) => seq![LayerView::BearerAuth(token@)],
            None => Seq::<LayerView>::empty(),
        });
        let mut rest = self.router();
        let ghost inner = plan_view(rest@);
        plan.append(&mut rest);
        assert(plan_view(plan@) =~= guard + inner);
        assert(Seq::<LayerView>::empty() + inner =~= inner);
        Ok(plan)
    }
}

/// Whether the settings of a layer are well formed: a header it names is a
/// lower-case header name, an origin it lists and a token it asks for are
/// header values.
pub open spec fn layer_wf(layer: LayerView) -> bool {
    match layer {
        LayerView::SetRequestId(header) => is_header_name(header),
        LayerView::PropagateRequestId(header) => is_header_name(header),
        LayerView::Cors(settings) => {
            &&& forall|i: int|
                0 <= i < settings.headers.len() ==> is_header_name(#[trigger] settings.headers[i])
            &&& match settings.origins {
                AllowedOriginsView::Any => true,
                AllowedOriginsView::List(list) => forall|i: int|
                    0 <= i < list.len() ==> is_header_value(#[trigger] list[i]),
            }
        },
        LayerView::BearerAuth(token) => is_header_value(token),
        _ => true,
    }
}

/// The two headers that a cross-origin request may carry are lower-case
/// header names.
pub proof fn lemma_default_headers_are_names()
    ensures
        forall|i: int|
            0 <= i < default_headers_spec().len() ==> is_header_name(
                #[trigger] default_headers_spec()[i],
            ),
{
    reveal_strlit("content-type");
    reveal_strlit("authorization");
    let c = "content-type"@;
    let a = "authorization"@;
    assert(is_header_name(c)) by {
        assert(c.len() == 12);
        assert(c[0] == 'c' && c[1] == 'o' && c[2] == 'n' && c[3] == 't' && c[4] == 'e' && c[5]
            == 'n' && c[6] == 't' && c[7] == '-' && c[8] == 't' && c[9] == 'y' && c[10] == 'p'
            && c[11] == 'e');
    }
    assert(is_header_name(a)) by {
        assert(a.len() == 13);
        assert(a[0] == 'a' && a[1] == 'u' && a[2] == 't' && a[3] == 'h' && a[4] == 'o' && a[5]
            == 'r' && a[6] == 'i' && a[7] == 'z' && a[8] == 'a' && a[9] == 't' && a[10] == 'i'
            && a[11] == 'o' && a[12] == 'n');
    }
    assert forall|i: int| 0 <= i < default_headers_spec().len() implies is_header_name(
        #[trigger] default_headers_spec()[i],
    ) by {
        assert(default_headers_spec()[0] == c);
        assert(default_headers_spec()[1] == a);
    }
}

/// Every layer that is planned for a well-formed configuration is well
/// formed, and so is the guard for a token that was accepted.
pub proof fn lemma_planned_layers_are_wf(cfg: ServerConfigView, admin_token: Option<Seq<char>>)
    requires
        cfg.wf(),
        guarded_pipeline(cfg, admin_token) is Ok,
    ensures
        forall|i: int|
            0 <= i < guarded_pipeline(cfg, admin_token)->Ok_0.len() ==> layer_wf(
                #[trigger] guarded_pipeline(cfg, admin_token)->Ok_0[i],
            ),
{
    lemma_default_headers_are_names();
    let inner = pipeline(cfg);
    assert forall|i: int| 0 <= i < inner.len() implies layer_wf(#[trigger] inner[i]) by {
        if i == 5 {
            let settings = inner[5]->Cors_0;
            assert(settings.headers == default_headers_spec());
        }
    }
    let plan = guarded_pipeline(cfg, admin_token)->Ok_0;
    assert forall|i: int| 0 <= i < plan.len() implies layer_wf(#[trigger] plan[i]) by {
        match admin_token {
            Some(token) => {
                if i > 0 {
                    assert(plan[i] == inner[i - 1]);
                }
            },
            None => {},
        }
    }
}

/// In every pipeline the layer that sets the request id stands directly
/// outside the one that copies it onto the reply, both speak of the
/// configured header, and the timeout, with the configured bound, stands
/// directly inside them.
pub proof fn lemma_request_id_wraps_timeout(cfg: ServerConfigView)
    ensures
        exists|i: int|
            0 <= i && i + 2 < pipeline(cfg).len() && #[trigger] pipeline(cfg)[i]
                == LayerView::SetRequestId(cfg.request_id_header) && pipeline(cfg)[i + 1]
                == LayerView::PropagateRequestId(cfg.request_id_header) && pipeline(cfg)[i + 2]
                == LayerView::Timeout(cfg.timeout_secs),
{
    assert(pipeline(cfg)[1] == LayerView::SetRequestId(cfg.request_id_header));
}

/// A pipeline holds a cross-origin layer exactly where the policy is not the
/// disabled one.
pub proof fn lemma_cors_layer_iff_enabled(cfg: ServerConfigView)
    ensures
        (exists|i: int| 0 <= i < pipeline(cfg).len() && #[trigger] pipeline(cfg)[i] is Cors)
            <==> !(cfg.cors is Disabled),
{
    if !(cfg.cors is Disabled) {
        assert(pipeline(cfg)[5] is Cors);
    }
}

/// Under an allow-list every cross-origin layer of the pipeline holds
/// exactly the list as its allowed origins.
pub proof fn lemma_allow_list_reaches_cors_layer(cfg: ServerConfigView, i: int)
    requires
        cfg.cors is Allow,
        0 <= i < pipeline(cfg).len(),
        pipeline(cfg)[i] is Cors,
    ensures
        pipeline(cfg)[i]->Cors_0.origins == AllowedOriginsView::List(cfg.cors->Allow_0),
{
}

/// With an admin token that is a header value, the guard is the outermost
/// layer and the layers behind it are those of the pipeline without a guard,
/// in the same order.
pub proof fn lemma_guard_is_outermost(cfg: ServerConfigView, token: Seq<char>)
    requires
        is_header_value(token),
    ensures
        guarded_pipeline(cfg, Some(token)) is Ok,
        guarded_pipeline(cfg, Some(token))->Ok_0.first() == LayerView::BearerAuth(token),
        guarded_pipeline(cfg, Some(token))->Ok_0.drop_first() == pipeline(cfg),
{
    let p = guarded_pipeline(cfg, Some(token))->Ok_0;
    assert(p.drop_first() =~= pipeline(cfg));
}

} // verus!
