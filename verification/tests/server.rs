use todo_service::config::{AppState, ConfigError, CorsPolicy, Environment, ServerConfig};
use todo_service::middleware::{AllowedOrigins, CorsSettings, Layer};
use todo_service::models::Server;

fn server(cfg: ServerConfig) -> Server<()> {
    Server::new(AppState::new((), cfg))
}

fn fixed(header: &str, secs: u64) -> Vec<Layer> {
    vec![
        Layer::Trace,
        Layer::SetRequestId(header.to_string()),
        Layer::PropagateRequestId(header.to_string()),
        Layer::Timeout(secs),
        Layer::NormalizePath,
    ]
}

#[test]
fn server_keeps_its_state() {
    let s = server(ServerConfig::default());
    assert_eq!(s.state.cfg, ServerConfig::default());
}

#[test]
fn router_of_the_default_config() {
    let mut expected = fixed("x-request-id", 15);
    expected.push(Layer::Cors(CorsSettings::with_defaults(AllowedOrigins::Any)));
    assert_eq!(server(ServerConfig::default()).router(), expected);
}

#[test]
fn router_without_cors() {
    let cfg = ServerConfig { cors: CorsPolicy::Disabled, ..ServerConfig::default() };
    let plan = server(cfg).router();
    assert_eq!(plan, fixed("x-request-id", 15));
    assert!(!plan.iter().any(|l| matches!(l, Layer::Cors(_))));
}

#[test]
fn router_with_cors_disabled_by_the_environment() {
    let env = Environment {
        request_id_header: None,
        timeout_secs: None,
        cors_allowed_origins: Some("https://a.example".to_string()),
        cors_disabled: Some("1".to_string()),
    };
    let plan = server(ServerConfig::load_from_env(&env).unwrap()).router();
    assert!(!plan.iter().any(|l| matches!(l, Layer::Cors(_))));
}

#[test]
fn router_with_an_allow_list_from_the_environment() {
    let env = Environment {
        request_id_header: Some("x-trace-id".to_string()),
        timeout_secs: Some("2".to_string()),
        cors_allowed_origins: Some("https://a.example".to_string()),
        cors_disabled: None,
    };
    let plan = server(ServerConfig::load_from_env(&env).unwrap()).router();
    let mut expected = fixed("x-trace-id", 2);
    expected.push(Layer::Cors(CorsSettings::with_defaults(AllowedOrigins::List(vec![
        "https://a.example".to_string(),
    ]))));
    assert_eq!(plan, expected);
}

#[test]
fn guarded_router_without_a_token_has_no_guard() {
    let s = server(ServerConfig::default());
    assert_eq!(s.guarded_router(None), Ok(s.router()));
}

#[test]
fn guarded_router_puts_the_guard_outermost() {
    let s = server(ServerConfig { cors: CorsPolicy::Disabled, ..ServerConfig::default() });
    let plan = s.guarded_router(Some("s3cret".to_string())).unwrap();
    assert_eq!(plan[0], Layer::BearerAuth("s3cret".to_string()));
    assert_eq!(plan[1..], s.router()[..]);
}

#[test]
fn guarded_router_refuses_a_token_that_is_no_header_value() {
    let s = server(ServerConfig::default());
    assert_eq!(s.guarded_router(Some("two\nlines".to_string())), Err(ConfigError::InvalidAdminToken));
}
