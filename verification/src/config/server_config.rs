//! Resolving the runtime policy from the values of the environment.

use crate::header::{is_header_name, is_header_value, parse_header_name, parse_header_value};
use crate::text::{entries, parse_u64, read_u64, split_entries};
use vstd::prelude::*;
use vstd::string::*;

verus! {

/// The timeout that holds where none is configured, in seconds.
pub const DEFAULT_TIMEOUT_SECS: u64 = 15;

/// Which origins may read the replies of the service.
#[derive(Debug, PartialEq, Eq)]
pub enum CorsPolicy {
    /// Every origin.
    Permissive,
    /// These origins, each compared exactly.
    Allow(Vec<String>),
    /// No origin: no cross-origin header is added at all.
    Disabled,
}

/// What a `CorsPolicy` holds.
pub enum CorsPolicyView {
    Permissive,
    Allow(Seq<Seq<char>>),
    Disabled,
}

impl View for CorsPolicy {
    type V = CorsPolicyView;

    open spec fn view(&self) -> CorsPolicyView {
        match self {
            CorsPolicy::Permissive => CorsPolicyView::Permissive,
            CorsPolicy::Allow(list) => CorsPolicyView::Allow(list.deep_view()),
            CorsPolicy::Disabled => CorsPolicyView::Disabled,
        }
    }
}

impl CorsPolicyView {
    /// An allow-list names at least one origin, and each of its entries is a
    /// header value.
    pub open spec fn wf(self) -> bool {
        match self {
            CorsPolicyView::Allow(list) => list.len() > 0 && forall|i: int|
                0 <= i < list.len() ==> is_header_value(#[trigger] list[i]),
            _ => true,
        }
    }
}

impl Clone for CorsPolicy {
    fn clone(&self) -> (r: Self)
        ensures
            r@ == self@,
    {
        match self {
            CorsPolicy::Permissive => CorsPolicy::Permissive,
            CorsPolicy::Allow(list) => {
                let copy = list.clone();
                assert(copy.deep_view() =~= list.deep_view());
                CorsPolicy::Allow(copy)
            },
            CorsPolicy::Disabled => CorsPolicy::Disabled,
        }
    }
}

/// The policy of the running service. It is resolved once, at startup.
#[derive(Debug, PartialEq, Eq)]
pub struct ServerConfig {
    /// The header that carries the request id, in lower case.
    pub request_id_header: String,
    /// How long a handler may take, in seconds.
    pub timeout_secs: u64,
    /// The cross-origin policy.
    pub cors: CorsPolicy,
}

/// What a `ServerConfig` holds.
pub struct ServerConfigView {
    pub request_id_header: Seq<char>,
    pub timeout_secs: u64,
    pub cors: CorsPolicyView,
}

impl View for ServerConfig {
    type V = ServerConfigView;

    open spec fn view(&self) -> ServerConfigView {
        ServerConfigView {
            request_id_header: self.request_id_header@,
            timeout_secs: self.timeout_secs,
            cors: self.cors@,
        }
    }
}

impl ServerConfigView {
    /// The request-id header is a lower-case header name and the
    /// cross-origin policy is well formed.
    pub open spec fn wf(self) -> bool {
        is_header_name(self.request_id_header) && self.cors.wf()
    }
}

impl Clone for ServerConfig {
    fn clone(&self) -> (r: Self)
        ensures
            r@ == self@,
    {
        ServerConfig {
            request_id_header: self.request_id_header.clone(),
            timeout_secs: self.timeout_secs,
            cors: self.cors.clone(),
        }
    }
}

/// The values of the variables that configure the service; `None` where a
/// variable is not set.
#[derive(Debug, PartialEq, Eq)]
pub struct Environment {
    /// `REQUEST_ID_HEADER`
    pub request_id_header: Option<String>,
    /// `TIMEOUT_SECS`
    pub timeout_secs: Option<String>,
    /// `CORS_ALLOWED_ORIGINS`, a comma-separated list
    pub cors_allowed_origins: Option<String>,
    /// `CORS_DISABLED`
    pub cors_disabled: Option<String>,
}

/// What an `Environment` holds.
pub struct EnvironmentView {
    pub request_id_header: Option<Seq<char>>,
    pub timeout_secs: Option<Seq<char>>,
    pub cors_allowed_origins: Option<Seq<char>>,
    pub cors_disabled: Option<Seq<char>>,
}

/// The text of an optional variable.
pub open spec fn text_of(v: Option<String>) -> Option<Seq<char>> {
    match v {
        Some(s) => Some(s@),
        None => None,
    }
}

impl View for Environment {
    type V = EnvironmentView;

    open spec fn view(&self) -> EnvironmentView {
        EnvironmentView {
            request_id_header: text_of(self.request_id_header),
            timeout_secs: text_of(self.timeout_secs),
            cors_allowed_origins: text_of(self.cors_allowed_origins),
            cors_disabled: text_of(self.cors_disabled),
        }
    }
}

/// Why an environment gives no configuration.
#[derive(Debug, PartialEq, Eq)]
pub enum ConfigError {
    /// `REQUEST_ID_HEADER` is no lower-case header name.
    InvalidRequestIdHeader,
    /// `TIMEOUT_SECS` is no unsigned 64-bit number of seconds.
    InvalidTimeout,
    /// This entry of `CORS_ALLOWED_ORIGINS` is no header value.
    InvalidOrigin(String),
    /// `ADMIN_TOKEN` is no header value.
    InvalidAdminToken,
}

/// What a `ConfigError` holds.
pub enum ConfigErrorView {
    InvalidRequestIdHeader,
    InvalidTimeout,
    InvalidOrigin(Seq<char>),
    InvalidAdminToken,
}

impl View for ConfigError {
    type V = ConfigErrorView;

    open spec fn view(&self) -> ConfigErrorView {
        match self {
            ConfigError::InvalidRequestIdHeader => ConfigErrorView::InvalidRequestIdHeader,
            ConfigError::InvalidTimeout => ConfigErrorView::InvalidTimeout,
            ConfigError::InvalidOrigin(entry) => ConfigErrorView::InvalidOrigin(entry@),
            ConfigError::InvalidAdminToken => ConfigErrorView::InvalidAdminToken,
        }
    }
}

/// The configuration that holds where no variable is set.
pub open spec fn default_config() -> ServerConfigView {
    ServerConfigView {
        request_id_header: "x-request-id"@,
        timeout_secs: DEFAULT_TIMEOUT_SECS,
        cors: CorsPolicyView::Permissive,
    }
}

/// The first of `list` that is no header value.
pub open spec fn first_bad_origin(list: Seq<Seq<char>>) -> Option<Seq<char>>
    decreases list.len(),
{
    if list.len() == 0 {
        None
    } else if !is_header_value(list.first()) {
        Some(list.first())
    } else {
        first_bad_origin(list.drop_first())
    }
}

/// The request-id header that the variable gives: the default where it is
/// not set, its value where that is a lower-case header name.
pub open spec fn resolve_request_id_header(v: Option<Seq<char>>) -> Result<
    Seq<char>,
    ConfigErrorView,
> {
    match v {
        None => Ok(default_config().request_id_header),
        Some(name) => if is_header_name(name) {
            Ok(name)
        } else {
            Err(ConfigErrorView::InvalidRequestIdHeader)
        },
    }
}

/// The timeout that the variable gives: the default where it is not set, the
/// number of seconds that it writes where it writes one.
pub open spec fn resolve_timeout(v: Option<Seq<char>>) -> Result<u64, ConfigErrorView> {
    match v {
        None => Ok(DEFAULT_TIMEOUT_SECS),
        Some(secs) => match parse_u64(secs) {
            Some(n) => Ok(n),
            None => Err(ConfigErrorView::InvalidTimeout),
        },
    }
}

/// The cross-origin policy that the two variables give. A disable flag that
/// is set to anything but the empty text wins. Else an allow-list counts
/// where it has an entry: each entry must be a header value, and the first
/// that is none is the error. Else the policy is permissive.
pub open spec fn resolve_cors(disabled: Option<Seq<char>>, allowed: Option<Seq<char>>) -> Result<
    CorsPolicyView,
    ConfigErrorView,
> {
    if disabled is Some && disabled->0.len() > 0 {
        Ok(CorsPolicyView::Disabled)
    } else {
        match allowed {
            None => Ok(CorsPolicyView::Permissive),
            Some(csv) => {
                let list = entries(csv, ',');
                match first_bad_origin(list) {
                    Some(bad) => Err(ConfigErrorView::InvalidOrigin(bad)),
                    None => if list.len() > 0 {
                        Ok(CorsPolicyView::Allow(list))
                    } else {
                        Ok(CorsPolicyView::Permissive)
                    },
                }
            },
        }
    }
}

/// The configuration that an environment gives. The variables are looked at
/// in the order request-id header, timeout, cross-origin policy, and the
/// first that is malformed is the error.
pub open spec fn resolve(env: EnvironmentView) -> Result<ServerConfigView, ConfigErrorView> {
    match resolve_request_id_header(env.request_id_header) {
        Err(e) => Err(e),
        Ok(request_id_header) => match resolve_timeout(env.timeout_secs) {
            Err(e) => Err(e),
            Ok(timeout_secs) => match resolve_cors(env.cors_disabled, env.cors_allowed_origins) {
                Err(e) => Err(e),
                Ok(cors) => Ok(ServerConfigView { request_id_header, timeout_secs, cors }),
            },
        },
    }
}

/// Where `list` has no bad origin, each of its entries is a header value.
proof fn lemma_no_bad_origin(list: Seq<Seq<char>>)
    requires
        first_bad_origin(list) is None,
    ensures
        forall|i: int| 0 <= i < list.len() ==> is_header_value(#[trigger] list[i]),
    decreases list.len(),
{
    if list.len() > 0 {
        let rest = list.drop_first();
        lemma_no_bad_origin(rest);
        assert forall|i: int| 0 <= i < list.len() implies is_header_value(#[trigger] list[i]) by {
            if i > 0 {
                assert(list[i] == rest[i - 1]);
            }
        }
    }
}

/// The first entry of `list` that is no header value, where there is one.
fn find_bad_origin(list: &Vec<String>) -> (bad: Option<String>)
    ensures
        text_of(bad) == first_bad_origin(list.deep_view()),
{
    let ghost all = list.deep_view();
    let mut i: usize = 0;
    assert(all.subrange(0, all.len() as int) =~= all);
    while i < list.len()
        invariant
            i <= list.len(),
            all == list.deep_view(),
            first_bad_origin(all) == first_bad_origin(all.subrange(i as int, all.len() as int)),
        decreases list.len() - i,
    {
        let ghost rest = all.subrange(i as int, all.len() as int);
        assert(rest.first() == list[i as int]@);
        assert(rest.drop_first() =~= all.subrange(i as int + 1, all.len() as int));
        match parse_header_value(list[i].as_str()) {
            Ok(_) => {},
            Err(_) => {
                return Some(list[i].clone());
            },
        }
        i = i + 1;
    }
    None
}

impl Default for ServerConfig {
    /// The configuration that holds where no variable is set: the header
    /// `x-request-id`, fifteen seconds, every origin allowed.
    fn default() -> (cfg: Self)
        ensures
            cfg@ == default_config(),
            cfg@.wf(),
    {
        let cfg = ServerConfig {
            request_id_header: String::from_str("x-request-id"),
            timeout_secs: DEFAULT_TIMEOUT_SECS,
            cors: CorsPolicy::Permissive,
        };
        proof {
            lemma_default_config_wf();
        }
        cfg
    }
}

/// The default configuration is well formed.
pub proof fn lemma_default_config_wf()
    ensures
        default_config().wf(),
{
    reveal_strlit("x-request-id");
    let s = "x-request-id"@;
    assert(s.len() == 12);
    assert forall|i: int| 0 <= i < s.len() implies crate::header::is_name_char(
        #[trigger] s[i],
    ) by {
        assert(s[0] == 'x' && s[1] == '-' && s[2] == 'r' && s[3] == 'e' && s[4] == 'q' && s[5]
            == 'u' && s[6] == 'e' && s[7] == 's' && s[8] == 't' && s[9] == '-' && s[10] == 'i'
            && s[11] == 'd');
    }
}

impl ServerConfig {
    /// Resolves the configuration from the values of the environment. Each
    /// variable is optional; a variable that is set and malformed is an
    /// error, and nothing is resolved then.
    pub fn load_from_env(env: &Environment) -> (r: Result<ServerConfig, ConfigError>)
        ensures
            match r {
                Ok(cfg) => resolve(env@) == Ok::<ServerConfigView, ConfigErrorView>(cfg@)
                    && cfg@.wf(),
                Err(e) => resolve(env@) == Err::<ServerConfigView, ConfigErrorView>(e@),
            },
    {
        let mut cfg = ServerConfig::default();
        if let Some(name) = &env.request_id_header {
            match parse_header_name(name.as_str()) {
                Ok(text) => {
                    cfg.request_id_header = text;
                },
                Err(_) => {
                    return Err(ConfigError::InvalidRequestIdHeader);
                },
            }
        }
        if let Some(secs) = &env.timeout_secs {
            match read_u64(secs.as_str()) {
                Some(n) => {
                    cfg.timeout_secs = n;
                },
                None => {
                    return Err(ConfigError::InvalidTimeout);
                },
            }
        }
        let disabled = match &env.cors_disabled {
            Some(flag) => flag.as_str().unicode_len() > 0,
            None => false,
        };
        if disabled {
            cfg.cors = CorsPolicy::Disabled;
        } else if let Some(csv) = &env.cors_allowed_origins {
            let origins = split_entries(csv.as_str(), ',');
            match find_bad_origin(&origins) {
                Some(bad) => {
                    return Err(ConfigError::InvalidOrigin(bad));
                },
                None => {},
            }
            proof {
                lemma_no_bad_origin(origins.deep_view());
            }
            if origins.len() > 0 {
                cfg.cors = CorsPolicy::Allow(origins);
            }
        }
        Ok(cfg)
    }
}

/// The text that reports an error.
pub open spec fn error_message(e: ConfigErrorView) -> Seq<char> {
    match e {
        ConfigErrorView::InvalidRequestIdHeader => "invalid REQUEST_ID_HEADER"@,
        ConfigErrorView::InvalidTimeout => "TIMEOUT_SECS must be u64"@,
        ConfigErrorView::InvalidOrigin(entry) => "invalid origin in CORS_ALLOWED_ORIGINS: "@
            + entry,
        ConfigErrorView::InvalidAdminToken => "invalid ADMIN_TOKEN"@,
    }
}

impl ConfigError {
    /// The text that reports this error; for a bad origin it ends with the
    /// entry.
    pub fn message(&self) -> (text: String)
        ensures
            text@ == error_message(self@),
    {
        match self {
            ConfigError::InvalidRequestIdHeader => String::from_str("invalid REQUEST_ID_HEADER"),
            ConfigError::InvalidTimeout => String::from_str("TIMEOUT_SECS must be u64"),
            ConfigError::InvalidOrigin(entry) => String::from_str(
                "invalid origin in CORS_ALLOWED_ORIGINS: ",
            ).concat(entry.as_str()),
            ConfigError::InvalidAdminToken => String::from_str("invalid ADMIN_TOKEN"),
        }
    }
}

/// A disable flag that is set to a non-empty text gives the disabled policy,
/// whatever the allow-list holds, be it malformed.
pub proof fn lemma_disabled_wins(flag: Seq<char>, allowed: Option<Seq<char>>)
    requires
        flag.len() > 0,
    ensures
        resolve_cors(Some(flag), allowed) == Ok::<CorsPolicyView, ConfigErrorView>(
            CorsPolicyView::Disabled,
        ),
{
}

/// An allow-list that is set but has no entry once its pieces are trimmed and
/// the empty ones dropped leaves the policy permissive; it is no error.
pub proof fn lemma_empty_allow_list_is_permissive(disabled: Option<Seq<char>>, csv: Seq<char>)
    requires
        disabled is None || disabled->0.len() == 0,
        entries(csv, ',').len() == 0,
    ensures
        resolve_cors(disabled, Some(csv)) == Ok::<CorsPolicyView, ConfigErrorView>(
            CorsPolicyView::Permissive,
        ),
{
}

/// With no variable set the configuration is the default one.
pub proof fn lemma_unset_environment_gives_default(env: EnvironmentView)
    requires
        env.request_id_header is None,
        env.timeout_secs is None,
        env.cors_allowed_origins is None,
        env.cors_disabled is None,
    ensures
        resolve(env) == Ok::<ServerConfigView, ConfigErrorView>(default_config()),
{
}

/// Every configuration that an environment gives is well formed.
pub proof fn lemma_resolved_config_wf(env: EnvironmentView)
    requires
        resolve(env) is Ok,
    ensures
        resolve(env)->Ok_0.wf(),
{
    lemma_default_config_wf();
    if !(env.cors_disabled is Some && env.cors_disabled->0.len() > 0) {
        if let Some(csv) = env.cors_allowed_origins {
            lemma_no_bad_origin(entries(csv, ','));
        }
    }
}

} // verus!
