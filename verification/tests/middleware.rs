use todo_service::config::{CorsPolicy, ServerConfig};
use todo_service::middleware::{
    default_headers, default_methods, AllowedOrigins, CorsSettings, Layer, Method, Middleware,
    MiddlewareSuite,
};

fn config(cors: CorsPolicy) -> ServerConfig {
    ServerConfig { request_id_header: "x-trace-id".to_string(), timeout_secs: 3, cors }
}

#[test]
fn default_methods_are_the_five() {
    assert_eq!(
        default_methods(),
        [Method::Get, Method::Post, Method::Put, Method::Patch, Method::Delete]
    );
}

#[test]
fn default_headers_are_the_two() {
    assert_eq!(default_headers(), ["content-type".to_string(), "authorization".to_string()]);
}

#[test]
fn with_defaults_keeps_the_origins() {
    let settings = CorsSettings::with_defaults(AllowedOrigins::Any);
    assert_eq!(
        settings,
        CorsSettings {
            methods: vec![Method::Get, Method::Post, Method::Put, Method::Patch, Method::Delete],
            headers: vec!["content-type".to_string(), "authorization".to_string()],
            credentials: true,
            origins: AllowedOrigins::Any,
        }
    );
}

#[test]
fn fixed_layers() {
    let mw = Middleware::from(&config(CorsPolicy::Disabled));
    assert_eq!(mw.trace(), Layer::Trace);
    assert_eq!(mw.normalize_path(), Layer::NormalizePath);
}

#[test]
fn request_id_stack_uses_the_configured_header() {
    let mw = Middleware::from(&config(CorsPolicy::Disabled));
    assert_eq!(
        mw.request_id_stack(),
        vec![
            Layer::SetRequestId("x-trace-id".to_string()),
            Layer::PropagateRequestId("x-trace-id".to_string()),
        ]
    );
}

#[test]
fn timeout_uses_the_configured_bound() {
    let mw = Middleware::from(&config(CorsPolicy::Disabled));
    assert_eq!(mw.timeout(), Layer::Timeout(3));
    let mw = Middleware::from(&ServerConfig::default());
    assert_eq!(mw.timeout(), Layer::Timeout(15));
}

#[test]
fn cors_disabled_gives_no_layer() {
    let mw = Middleware::from(&config(CorsPolicy::Disabled));
    assert_eq!(mw.cors_layer(), None);
}

#[test]
fn cors_permissive_allows_any_origin() {
    let mw = Middleware::from(&config(CorsPolicy::Permissive));
    assert_eq!(mw.cors_layer(), Some(CorsSettings::with_defaults(AllowedOrigins::Any)));
}

#[test]
fn cors_allow_list_is_handed_on() {
    let list = vec!["https://a.example".to_string(), "https://b.example".to_string()];
    let mw = Middleware::from(&config(CorsPolicy::Allow(list.clone())));
    let settings = mw.cors_layer().unwrap();
    assert_eq!(settings.origins, AllowedOrigins::List(list));
    assert!(settings.credentials);
    assert_eq!(settings.methods.len(), 5);
    assert_eq!(settings.headers, vec!["content-type".to_string(), "authorization".to_string()]);
}
