//! Store access around the two transports: the connection configuration, the
//! exact request each transport is to make (URL, or bridge argument list),
//! and the reading of a bridge run's outcome. The surrounding program runs
//! the request and hands the outcome back.

use crate::irmin::http_client::spec_api_url;
use crate::irmin::http_client::spec_health_url;
use crate::irmin::http_client::api_url;
use crate::irmin::http_client::health_url;
use crate::irmin::http_client::IrminHttpConfig;
use crate::irmin::types::IrminNode;
use crate::irmin::types::Resource;
use crate::irmin::types::ResourceView;
use crate::irmin::types::StoreError;
use vstd::prelude::*;
use vstd::string::StringExecFns;

verus! {

/// Configuration of one store connection.
pub struct IrminConfig {
    /// Location argument handed to the bridge executable.
    pub store_path: String,
    /// Name of the bridge executable.
    pub bridge_executable: String,
    /// Base URL of the HTTP server, where one is configured.
    pub server_url: Option<String>,
    /// Whether to reach the store over HTTP rather than through the bridge.
    pub use_http: bool,
    /// Whether a failed fetch is answered with synthetic data instead of an
    /// error.
    pub fallback_enabled: bool,
}

impl IrminConfig {
    /// Defaults: the bridge transport against `./irmin_store` through
    /// `irmin-bridge-cli`, no HTTP server, strict mode (no fallback).
    pub fn new() -> (r: Self)
        ensures
            r.store_path@ == "./irmin_store"@,
            r.bridge_executable@ == "irmin-bridge-cli"@,
            r.server_url is None,
            !r.use_http,
            !r.fallback_enabled,
    {
        Self {
            store_path: String::from_str("./irmin_store"),
            bridge_executable: String::from_str("irmin-bridge-cli"),
            server_url: None,
            use_http: false,
            fallback_enabled: false,
        }
    }

    /// The same configuration with another store location.
    pub fn with_path(self, path: String) -> (r: Self)
        ensures
            r.store_path@ == path@,
            r.bridge_executable@ == self.bridge_executable@,
            r.server_url == self.server_url,
            r.use_http == self.use_http,
            r.fallback_enabled == self.fallback_enabled,
    {
        Self { store_path: path, ..self }
    }

    /// The same configuration turned to the HTTP transport against the given
    /// server.
    pub fn with_http_server(self, server_url: String) -> (r: Self)
        ensures
            r.store_path@ == self.store_path@,
            r.bridge_executable@ == self.bridge_executable@,
            r.server_url matches Some(u) && u@ == server_url@,
            r.use_http,
            r.fallback_enabled == self.fallback_enabled,
    {
        Self { server_url: Some(server_url), use_http: true, ..self }
    }

    /// The same configuration with the fallback policy set: under fallback,
    /// a failed fetch is answered with synthetic data; otherwise the failure
    /// is surfaced.
    pub fn with_fallback(self, enabled: bool) -> (r: Self)
        ensures
            r.store_path@ == self.store_path@,
            r.bridge_executable@ == self.bridge_executable@,
            r.server_url == self.server_url,
            r.use_http == self.use_http,
            r.fallback_enabled == enabled,
    {
        Self { fallback_enabled: enabled, ..self }
    }

    /// The server base URL this configuration reaches over HTTP: the
    /// configured one, or the default local server.
    pub open spec fn spec_base_url(self) -> Seq<char> {
        match self.server_url {
            Some(u) => u@,
            None => "http://localhost:8080"@,
        }
    }
}

/// The argument list of one bridge run: the resource selector with its
/// positional arguments, then `--path` and the store location.
pub open spec fn spec_bridge_args(resource: ResourceView, store_path: Seq<char>) -> Seq<
    Seq<char>,
> {
    let selector = match resource {
        ResourceView::Tree => seq!["tree"@],
        ResourceView::Commits => seq!["commits"@],
        ResourceView::Branches => seq!["branches"@],
        ResourceView::Diff { from, to } => seq!["diff"@, from, to],
        ResourceView::Search { query } => seq!["search"@, query],
    };
    selector + seq!["--path"@, store_path]
}

/// The views of a sequence of strings.
pub open spec fn string_views(s: Seq<String>) -> Seq<Seq<char>> {
    s.map_values(|x: String| x@)
}

/// Builds the argument list for one bridge run.
pub fn bridge_args(config: &IrminConfig, resource: &Resource) -> (r: Vec<String>)
    ensures
        string_views(r@) == spec_bridge_args(resource@, config.store_path@),
{
    let mut args: Vec<String> = Vec::new();
    match resource {
        Resource::Tree => {
            args.push(String::from_str("tree"));
        },
        Resource::Commits => {
            args.push(String::from_str("commits"));
        },
        Resource::Branches => {
            args.push(String::from_str("branches"));
        },
        Resource::Diff { from, to } => {
            args.push(String::from_str("diff"));
            args.push(from.clone());
            args.push(to.clone());
        },
        Resource::Search { query } => {
            args.push(String::from_str("search"));
            args.push(query.clone());
        },
    }
    args.push(String::from_str("--path"));
    args.push(config.store_path.clone());
    proof {
        assert(string_views(args@) =~= spec_bridge_args(resource@, config.store_path@));
    }
    args
}

/// The one request a transport is to make for a resource.
pub enum TransportPlan {
    /// One HTTP request against this URL, under this time limit in seconds.
    Http { url: String, timeout_secs: u64 },
    /// One run of this bridge executable with these arguments.
    Process { program: String, args: Vec<String> },
}

/// Plans the request for one resource: over HTTP where configured (against
/// the configured or default server), else as a bridge run.
pub fn plan_request(config: &IrminConfig, resource: &Resource) -> (r: TransportPlan)
    ensures
        config.use_http ==> (r matches TransportPlan::Http { url, timeout_secs } && url@
            == spec_api_url(config.spec_base_url(), resource@) && timeout_secs == 30),
        !config.use_http ==> (r matches TransportPlan::Process { program, args } && program@
            == config.bridge_executable@ && string_views(args@) == spec_bridge_args(
            resource@,
            config.store_path@,
        )),
{
    if config.use_http {
        let http_config = match &config.server_url {
            Some(u) => IrminHttpConfig::new().with_url(u.clone()),
            None => IrminHttpConfig::new(),
        };
        let url = api_url(&http_config, resource);
        TransportPlan::Http { url, timeout_secs: http_config.timeout_secs }
    } else {
        let args = bridge_args(config, resource);
        TransportPlan::Process { program: config.bridge_executable.clone(), args }
    }
}

/// Plans the reachability probe: over HTTP a call of the liveness endpoint;
/// through the bridge a full tree fetch, the cheapest probe that transport
/// offers.
pub fn connect_plan(config: &IrminConfig) -> (r: TransportPlan)
    ensures
        config.use_http ==> (r matches TransportPlan::Http { url, timeout_secs } && url@
            == spec_health_url(config.spec_base_url()) && timeout_secs == 30),
        !config.use_http ==> (r matches TransportPlan::Process { program, args } && program@
            == config.bridge_executable@ && string_views(args@) == spec_bridge_args(
            ResourceView::Tree,
            config.store_path@,
        )),
{
    if config.use_http {
        let http_config = match &config.server_url {
            Some(u) => IrminHttpConfig::new().with_url(u.clone()),
            None => IrminHttpConfig::new(),
        };
        let url = health_url(&http_config);
        TransportPlan::Http { url, timeout_secs: http_config.timeout_secs }
    } else {
        let args = bridge_args(config, &Resource::Tree);
        TransportPlan::Process { program: config.bridge_executable.clone(), args }
    }
}

/// What one bridge run produced, as the surrounding program saw it.
pub enum ProcessOutcome {
    /// The bridge ran to completion: whether it exited successfully, its
    /// standard output, and its standard error.
    Completed { exit_ok: bool, stdout: String, stderr: String },
    /// The bridge could not be started; the diagnostic of the spawn failure.
    SpawnFailed { detail: String },
}

/// Reads a bridge run: a successful exit yields standard output for parsing;
/// a non-zero exit is rejected with standard error as diagnostic; a bridge
/// that could not start is an unreachable transport.
pub fn interpret_process_outcome(outcome: ProcessOutcome) -> (r: Result<String, StoreError>)
    ensures
        r is Ok <==> outcome matches ProcessOutcome::Completed { exit_ok: true, .. },
        (outcome matches ProcessOutcome::Completed { exit_ok: true, stdout, .. } ==> r->Ok_0@
            == stdout@),
        (outcome matches ProcessOutcome::Completed { exit_ok: false, stderr, .. } ==> r->Err_0
            matches StoreError::RemoteRejected(d) && d@ == "Bridge command failed: "@ + stderr@),
        (outcome matches ProcessOutcome::SpawnFailed { detail } ==> r->Err_0 matches
            StoreError::TransportUnreachable(d) && d@ == detail@),
{
    match outcome {
        ProcessOutcome::Completed { exit_ok, stdout, stderr } => {
            if exit_ok {
                Ok(stdout)
            } else {
                let mut message = String::from_str("Bridge command failed: ");
                message.append(stderr.as_str());
                Err(StoreError::RemoteRejected(message))
            }
        },
        ProcessOutcome::SpawnFailed { detail } => {
            Err(StoreError::TransportUnreachable(detail))
        },
    }
}

/// Reads a tree fetch as a reachability probe: the store is reachable exactly
/// when the fetch succeeded.
pub fn probe_from_tree_fetch(fetched: Result<IrminNode, StoreError>) -> (r: Result<
    (),
    StoreError,
>)
    ensures
        r is Ok <==> fetched is Ok,
        fetched matches Err(e) ==> r->Err_0 == e,
{
    match fetched {
        Ok(_) => Ok(()),
        Err(e) => Err(e),
    }
}

} // verus!
