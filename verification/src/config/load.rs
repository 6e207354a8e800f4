//! Loading: the built-in profile, the configuration files and the environment, one over
//! another.

use vstd::prelude::*;
use crate::config::env::{Variables, env_context, env_fault, with_env};
use crate::config::error::ConfigLoadError;
use crate::config::model::{Config, Settings, default_alpn, default_settings};
use crate::config::modes::{AlpnProtocol, HttpVersion, StorageMode, TransportMode};
use crate::config::patch::{
    ConfigPatch, MergeContext, context_after, empty_patch, finalized, no_context, with_patch,
};
use crate::config::profile::DeploymentProfile;
use crate::fields::{field_of, fields};
use crate::text::{joined, texts};

verus! {

/// Select configuration files and the profile.
#[derive(Debug, Clone)]
pub struct ConfigLoadOptions {
    /// Directory containing `default.toml`, `<profile>.toml`, and `local.toml`.
    pub config_dir: String,
    /// Named profile loaded after `default.toml`, for example `dev` or `prod-tls`.
    pub profile: DeploymentProfile,
    /// Optional extra TOML file merged after the standard config files.
    pub config_override: Option<String>,
}

impl ConfigLoadOptions {
    /// The names of the files that are looked for in the directory, in the order in which
    /// they are laid over one another.
    pub fn file_names(&self) -> (r: Vec<String>)
        ensures
            texts(r@) == seq!["default.toml"@, self.profile.label() + ".toml"@, "local.toml"@],
    {
        let mut names: Vec<String> = Vec::new();
        names.push("default.toml".to_owned());
        names.push(joined(self.profile.as_str(), ".toml"));
        names.push("local.toml".to_owned());
        assert(texts(names@) =~= seq![
            "default.toml"@,
            self.profile.label() + ".toml"@,
            "local.toml"@,
        ]);
        names
    }
}

/// The settings of production over others: wider limits and durable files on disk.
pub open spec fn with_prod(s: Settings) -> Settings {
    Settings {
        max_memory_bytes: 536_870_912,
        max_stream_bytes: 268_435_456,
        storage_mode: StorageMode::FileDurable,
        data_dir: "/var/lib/durable-streams"@,
        acid_shard_count: 16,
        ..s
    }
}

/// The settings of production with TLS over others: both HTTP versions.
pub open spec fn with_prod_tls(s: Settings, mode: TransportMode) -> Settings {
    Settings {
        transport_mode: mode,
        http_versions: seq![HttpVersion::Http1, HttpVersion::Http2],
        alpn_protocols: seq![AlpnProtocol::H2, AlpnProtocol::Http1_1],
        ..with_prod(s)
    }
}

/// The settings of a built-in profile over others.
pub open spec fn with_profile(s: Settings, profile: DeploymentProfile) -> Settings {
    match profile {
        DeploymentProfile::Default | DeploymentProfile::Named(_) => s,
        DeploymentProfile::Dev => Settings {
            bind_address: "127.0.0.1:4437"@,
            rust_log: "debug"@,
            ..s
        },
        DeploymentProfile::Prod => with_prod(s),
        DeploymentProfile::ProdTls => with_prod_tls(s, TransportMode::Tls),
        DeploymentProfile::ProdMtls => with_prod_tls(s, TransportMode::Mtls),
    }
}

/// What a built-in profile shows about the choice of transport.
pub open spec fn profile_context(profile: DeploymentProfile) -> MergeContext {
    MergeContext {
        explicit_transport_mode: profile is ProdTls || profile is ProdMtls,
        legacy_tls_seen: false,
    }
}

/// Shared defaults applied to every `prod*` profile: stricter limits and
/// file-durable on-disk storage.
fn prod_base_patch() -> (r: ConfigPatch)
    ensures
        forall|s: Settings| #[trigger] with_patch(s, r) == with_prod(s),
        context_after(no_context(), r) == no_context(),
        r.transport == empty_patch().transport,
        r.tls == empty_patch().tls,
        r.server == empty_patch().server,
{
    let mut r = ConfigPatch::default();
    r.limits.max_memory_bytes = Some(512 * 1024 * 1024);
    r.limits.max_stream_bytes = Some(256 * 1024 * 1024);
    r.storage.mode = Some(StorageMode::FileDurable);
    r.storage.data_dir = Some("/var/lib/durable-streams".to_owned());
    r.storage.acid_shard_count = Some(16);
    assert forall|s: Settings| #[trigger] with_patch(s, r) == with_prod(s) by {
        assert(with_patch(s, r) =~= with_prod(s));
    }
    r
}

/// Prod base extended with a TLS-family transport (TLS or mTLS) serving both
/// HTTP/1.1 and HTTP/2.
fn prod_tls_patch(mode: TransportMode) -> (r: ConfigPatch)
    ensures
        forall|s: Settings| #[trigger] with_patch(s, r) == with_prod_tls(s, mode),
        context_after(no_context(), r) == (MergeContext {
            explicit_transport_mode: true,
            legacy_tls_seen: false,
        }),
{
    let mut r = prod_base_patch();
    let ghost base = r;
    let mut versions: Vec<HttpVersion> = Vec::new();
    versions.push(HttpVersion::Http1);
    versions.push(HttpVersion::Http2);
    let ghost v = versions@;
    r.transport.mode = Some(mode);
    r.transport.http.versions = Some(versions);
    proof {
        assert(v =~= seq![HttpVersion::Http1, HttpVersion::Http2]);
        assert(v[0] == HttpVersion::Http1 && v[1] == HttpVersion::Http2);
        assert(default_alpn(v) =~= seq![AlpnProtocol::H2, AlpnProtocol::Http1_1]);
        assert forall|s: Settings| #[trigger] with_patch(s, r) == with_prod_tls(s, mode) by {
            assert(with_patch(s, base) == with_prod(s));
            assert(with_patch(s, r) =~= with_prod_tls(s, mode));
        }
    }
    r
}

/// The layer of a built-in profile, where it has one.
fn built_in_profile_patch(profile: &DeploymentProfile) -> (r: Option<ConfigPatch>)
    ensures
        match r {
            Some(p) => (forall|s: Settings| #[trigger] with_patch(s, p) == with_profile(s, *profile))
                && context_after(no_context(), p) == profile_context(*profile),
            None => (forall|s: Settings| #[trigger] with_profile(s, *profile) == s)
                && profile_context(*profile) == no_context(),
        },
{
    match profile {
        DeploymentProfile::Default | DeploymentProfile::Named(_) => None,
        DeploymentProfile::Dev => {
            let mut p = ConfigPatch::default();
            p.server.bind_address = Some("127.0.0.1:4437".to_owned());
            p.observability.rust_log = Some("debug".to_owned());
            assert forall|s: Settings| #[trigger] with_patch(s, p) == with_profile(s, *profile) by {
                assert(with_patch(s, p) =~= with_profile(s, *profile));
            }
            Some(p)
        },
        DeploymentProfile::Prod => Some(prod_base_patch()),
        DeploymentProfile::ProdTls => Some(prod_tls_patch(TransportMode::Tls)),
        DeploymentProfile::ProdMtls => Some(prod_tls_patch(TransportMode::Mtls)),
    }
}

/// Settings with layers over them, the last one on top, and what the layers have shown.
pub open spec fn with_layers(s: Settings, ctx: MergeContext, layers: Seq<ConfigPatch>) -> (
    Settings,
    MergeContext,
)
    decreases layers.len(),
{
    if layers.len() == 0 {
        (s, ctx)
    } else {
        let (t, c) = with_layers(s, ctx, layers.drop_last());
        (with_patch(t, layers.last()), context_after(c, layers.last()))
    }
}

/// The settings that a profile, layers and variables make.
pub open spec fn resolved(
    profile: DeploymentProfile,
    layers: Seq<ConfigPatch>,
    env: Variables,
) -> Settings {
    let (s, ctx) = with_layers(
        with_profile(default_settings(), profile),
        profile_context(profile),
        layers,
    );
    finalized(with_env(s, env), env_context(ctx, env))
}

impl Config {
    /// Load configuration from `DS_*` environment variables with sensible defaults.
    ///
    /// Used by tests and as a simple entry point when TOML layering is not needed.
    ///
    /// # Errors
    ///
    /// Returns an error when any `DS_*` environment variable is present but invalid.
    pub fn from_env(env: &Vec<(String, String)>) -> (r: Result<Self, ConfigLoadError>)
        ensures
            match r {
                Ok(c) => env_fault(fields(env@)) is None && c@ == finalized(
                    with_env(default_settings(), fields(env@)),
                    env_context(no_context(), fields(env@)),
                ),
                Err(e) => env_fault(fields(env@)) matches Some(f) && e.reports(f),
            },
    {
        let mut config = Config::default();
        let mut ctx = MergeContext::new();
        match config.apply_env_overrides(env, &mut ctx) {
            Ok(_) => {},
            Err(e) => return Err(e),
        }
        ctx.finalize(&mut config);
        Ok(config)
    }

    /// Load configuration from layers plus environment overrides.
    ///
    /// Order (later wins):
    /// 1. built-in defaults
    /// 2. built-in profile defaults
    /// 3. the layers, from first to last
    /// 4. `DS_*` env vars
    ///
    /// # Errors
    ///
    /// Returns an error when any `DS_*` environment variable is present but invalid.
    pub fn from_layers(
        profile: &DeploymentProfile,
        layers: Vec<ConfigPatch>,
        env: &Vec<(String, String)>,
    ) -> (r: Result<Self, ConfigLoadError>)
        ensures
            match r {
                Ok(c) => env_fault(fields(env@)) is None && c@ == resolved(
                    *profile,
                    layers@,
                    fields(env@),
                ),
                Err(e) => env_fault(fields(env@)) matches Some(f) && e.reports(f),
            },
    {
        let mut config = Config::default();
        let mut ctx = MergeContext::new();
        match built_in_profile_patch(profile) {
            Some(patch) => config.apply_patch(patch, &mut ctx),
            None => {},
        }
        let ghost s0 = with_profile(default_settings(), *profile);
        let ghost c0 = profile_context(*profile);
        assert(config@ == s0 && ctx == c0);
        for patch in it: layers
            invariant
                it.seq() == layers@,
                (config@, ctx) == with_layers(s0, c0, layers@.take(it.index() as int)),
        {
            let ghost i = it.index() as int;
            assert(layers@.take(i + 1).drop_last() =~= layers@.take(i));
            assert(layers@.take(i + 1).last() == patch);
            config.apply_patch(patch, &mut ctx);
        }
        assert(layers@.take(layers@.len() as int) =~= layers@);
        match config.apply_env_overrides(env, &mut ctx) {
            Ok(_) => {},
            Err(e) => return Err(e),
        }
        ctx.finalize(&mut config);
        Ok(config)
    }
}

/// Layers can be put together in any grouping: laying some over the settings and then the
/// others is laying all of them.
pub proof fn law_layers_compose(
    s: Settings,
    ctx: MergeContext,
    first: Seq<ConfigPatch>,
    more: Seq<ConfigPatch>,
)
    ensures
        ({
            let (t, c) = with_layers(s, ctx, first);
            with_layers(s, ctx, first + more) == with_layers(t, c, more)
        }),
    decreases more.len(),
{
    if more.len() == 0 {
        assert(first + more =~= first);
    } else {
        law_layers_compose(s, ctx, first, more.drop_last());
        assert((first + more).drop_last() =~= first + more.drop_last());
        assert((first + more).last() == more.last());
    }
}

/// A layer that sets nothing changes nothing.
pub proof fn law_empty_layer_changes_nothing(s: Settings, ctx: MergeContext)
    ensures
        with_patch(s, empty_patch()) == s,
        context_after(ctx, empty_patch()) == ctx,
{
    assert(with_patch(s, empty_patch()) =~= s);
}

/// Laying the same layer twice is laying it once.
pub proof fn law_layer_is_idempotent(s: Settings, layer: ConfigPatch)
    ensures
        with_patch(with_patch(s, layer), layer) == with_patch(s, layer),
{
    assert(with_patch(with_patch(s, layer), layer) =~= with_patch(s, layer));
}

/// What a variable sets is what the configuration holds in the end, whatever the profile and
/// the files say.
pub proof fn law_environment_wins(
    profile: DeploymentProfile,
    layers: Seq<ConfigPatch>,
    other_profile: DeploymentProfile,
    other_layers: Seq<ConfigPatch>,
    env: Variables,
)
    ensures
        field_of(env, "DS_SERVER__BIND_ADDRESS"@) matches Some(t) ==> resolved(
            profile,
            layers,
            env,
        ).bind_address == t,
        field_of(env, "DS_HTTP__CORS_ORIGINS"@) matches Some(t) ==> resolved(
            profile,
            layers,
            env,
        ).cors_origins == t,
        field_of(env, "DS_STORAGE__DATA_DIR"@) matches Some(t) ==> resolved(
            profile,
            layers,
            env,
        ).data_dir == t,
        env_fault(env) is None && field_of(env, "DS_STORAGE__MODE"@) is Some
            ==> resolved(profile, layers, env).storage_mode == resolved(
            other_profile,
            other_layers,
            env,
        ).storage_mode,
        env_fault(env) is None && field_of(env, "DS_TRANSPORT__MODE"@) is Some
            ==> resolved(profile, layers, env).transport_mode == resolved(
            other_profile,
            other_layers,
            env,
        ).transport_mode,
{
}

} // verus!
