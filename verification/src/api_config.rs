//! The core process's HTTP API settings and the command line that sets them.
use vstd::prelude::*;

use crate::decimal::{parse_usize, parse_usize_spec};
use crate::text::{chars_of, has_prefix, owned, slice_chars, starts_with, str_eq, string_of};

verus! {

/// Worker threads the API uses unless told otherwise.
pub const DEFAULT_API_WORKER_THREADS: usize = 2;

/// The port the core API listens on by default.
pub const DEFAULT_API_PORT: u16 = 39580;

/// An IP address as plain values.
#[derive(Clone, Copy, Debug, PartialEq, Eq, Structural)]
pub enum IpAddress {
    V4(u8, u8, u8, u8),
    V6(u16, u16, u16, u16, u16, u16, u16, u16),
}

impl IpAddress {
    /// Whether the address is a loopback address: `127.0.0.0/8` for IPv4,
    /// exactly `::1` for IPv6, as `IpAddr::is_loopback` defines them.
    pub open spec fn spec_is_loopback(self) -> bool {
        match self {
            IpAddress::V4(a, _, _, _) => a == 127,
            IpAddress::V6(a, b, c, d, e, f, g, h) => a == 0 && b == 0 && c == 0 && d == 0 && e == 0
                && f == 0 && g == 0 && h == 1,
        }
    }

    pub fn is_loopback(&self) -> (r: bool)
        ensures
            r == self.spec_is_loopback(),
    {
        match self {
            IpAddress::V4(a, _, _, _) => *a == 127,
            IpAddress::V6(a, b, c, d, e, f, g, h) => *a == 0 && *b == 0 && *c == 0 && *d == 0 && *e
                == 0 && *f == 0 && *g == 0 && *h == 1,
        }
    }
}

/// A socket address: an IP address and a port.
#[derive(Clone, Copy, Debug, PartialEq, Eq, Structural)]
pub struct BindAddress {
    pub ip: IpAddress,
    pub port: u16,
}

impl BindAddress {
    /// `127.0.0.1:39580`.
    pub open spec fn spec_default() -> BindAddress {
        BindAddress { ip: IpAddress::V4(127u8, 0u8, 0u8, 1u8), port: DEFAULT_API_PORT }
    }

    pub fn default_local() -> (r: BindAddress)
        ensures
            r == Self::spec_default(),
    {
        BindAddress { ip: IpAddress::V4(127u8, 0u8, 0u8, 1u8), port: DEFAULT_API_PORT }
    }
}

/// `value` clamped to `1..=logical_cores`.
pub open spec fn clamp_workers(value: usize, logical_cores: usize) -> usize {
    if value < 1 {
        1
    } else if value > logical_cores {
        logical_cores
    } else {
        value
    }
}

/// Clamps a worker thread count to `1..=logical_cores`.
pub fn normalize_api_worker_threads(value: usize, logical_cores: usize) -> (r: usize)
    requires
        logical_cores >= 1,
    ensures
        r == clamp_workers(value, logical_cores),
        1 <= r <= logical_cores,
{
    if value < 1 {
        1
    } else if value > logical_cores {
        logical_cores
    } else {
        value
    }
}

/// The default worker thread count on a machine with `logical_cores` cores.
pub fn default_api_worker_threads(logical_cores: usize) -> (r: usize)
    requires
        logical_cores >= 1,
    ensures
        r == clamp_workers(DEFAULT_API_WORKER_THREADS, logical_cores),
{
    normalize_api_worker_threads(DEFAULT_API_WORKER_THREADS, logical_cores)
}

/// A worker thread count given as text, clamped to `1..=logical_cores`;
/// refused where the text is no unsigned integer.
pub fn parse_api_worker_threads(value: &str, logical_cores: usize) -> (r: Result<usize, ApiConfigError>)
    requires
        logical_cores >= 1,
    ensures
        match parse_usize_spec(value@) {
            Some(n) => r == Ok::<usize, ApiConfigError>(clamp_workers(n, logical_cores)),
            None => r matches Err(ApiConfigError::InvalidApiWorkers { value: v }) && v@ == value@,
        },
{
    match parse_usize(value) {
        Some(n) => Ok(normalize_api_worker_threads(n, logical_cores)),
        None => Err(ApiConfigError::InvalidApiWorkers { value: owned(value) }),
    }
}

/// The settings of the core HTTP API.
#[derive(Clone, Copy, Debug, PartialEq, Eq, Structural)]
pub struct CoreApiConfig {
    pub bind_addr: BindAddress,
    pub allow_non_loopback: bool,
    pub tray_enabled: bool,
    /// Worker threads of the API server of this process.
    pub api_worker_threads: usize,
    /// Whether the runtime starts on the selected profile before the API listens.
    pub auto_start_runtime: bool,
}

/// Why a command line or a configuration was refused.
#[derive(Clone, Debug, PartialEq, Eq)]
pub enum ApiConfigError {
    /// `--bind` came last, with no address after it.
    MissingBindAddress,
    /// The text given as bind address is no socket address.
    InvalidBindAddress { value: String },
    /// `--api-workers` came last, with no count after it.
    MissingApiWorkers,
    /// The text given as worker count is no unsigned integer.
    InvalidApiWorkers { value: String },
    /// `--help` or `-h` was given; the usage text is the answer.
    Usage,
    /// An argument that is no option of this program.
    UnknownArgument { argument: String },
    /// The bind address is not loopback and no override was given.
    NonLoopbackRefused { bind_addr: BindAddress },
}

/// An API error as plain values.
pub enum ApiConfigErrorView {
    MissingBindAddress,
    InvalidBindAddress(Seq<char>),
    MissingApiWorkers,
    InvalidApiWorkers(Seq<char>),
    Usage,
    UnknownArgument(Seq<char>),
    NonLoopbackRefused(BindAddress),
}

impl ApiConfigError {
    pub open spec fn view(self) -> ApiConfigErrorView {
        match self {
            ApiConfigError::MissingBindAddress => ApiConfigErrorView::MissingBindAddress,
            ApiConfigError::InvalidBindAddress { value } => ApiConfigErrorView::InvalidBindAddress(
                value@,
            ),
            ApiConfigError::MissingApiWorkers => ApiConfigErrorView::MissingApiWorkers,
            ApiConfigError::InvalidApiWorkers { value } => ApiConfigErrorView::InvalidApiWorkers(
                value@,
            ),
            ApiConfigError::Usage => ApiConfigErrorView::Usage,
            ApiConfigError::UnknownArgument { argument } => ApiConfigErrorView::UnknownArgument(
                argument@,
            ),
            ApiConfigError::NonLoopbackRefused { bind_addr } =>
                ApiConfigErrorView::NonLoopbackRefused(bind_addr),
        }
    }
}

/// The text after `--bind=` when `arg` has that form, else `arg` itself: the
/// text an address would be read from at that position.
pub open spec fn address_text(arg: Seq<char>) -> Seq<char> {
    if has_prefix(arg, "--bind="@) {
        arg.subrange(7, arg.len() as int)
    } else {
        arg
    }
}

/// The text after `--api-workers=` when `arg` has that form, else `arg`.
pub open spec fn workers_text(arg: Seq<char>) -> Seq<char> {
    if has_prefix(arg, "--api-workers="@) {
        arg.subrange(14, arg.len() as int)
    } else {
        arg
    }
}

/// What reading the command line `args` does from position `i` on, given the
/// configuration so far: `addrs[k]` is the socket address that
/// `address_text(args[k])` denotes, if any.
pub open spec fn scan_args(
    args: Seq<Seq<char>>,
    addrs: Seq<Option<BindAddress>>,
    logical_cores: usize,
    i: int,
    config: CoreApiConfig,
) -> Result<CoreApiConfig, ApiConfigErrorView>
    decreases args.len() - i,
{
    if i < 0 || i >= args.len() {
        Ok(config)
    } else {
        let arg = args[i];
        if has_prefix(arg, "--bind="@) {
            match addrs[i] {
                Some(a) => scan_args(
                    args,
                    addrs,
                    logical_cores,
                    i + 1,
                    CoreApiConfig { bind_addr: a, ..config },
                ),
                None => Err(ApiConfigErrorView::InvalidBindAddress(address_text(arg))),
            }
        } else if arg == "--bind"@ {
            if i + 1 >= args.len() {
                Err(ApiConfigErrorView::MissingBindAddress)
            } else if has_prefix(args[i + 1], "--bind="@) {
                // The value is read as written, and a socket address starts
                // with a digit or `[`, never with `-`.
                Err(ApiConfigErrorView::InvalidBindAddress(args[i + 1]))
            } else {
                match addrs[i + 1] {
                    Some(a) => scan_args(
                        args,
                        addrs,
                        logical_cores,
                        i + 2,
                        CoreApiConfig { bind_addr: a, ..config },
                    ),
                    None => Err(ApiConfigErrorView::InvalidBindAddress(args[i + 1])),
                }
            }
        } else if arg == "--allow-non-loopback"@ {
            scan_args(
                args,
                addrs,
                logical_cores,
                i + 1,
                CoreApiConfig { allow_non_loopback: true, ..config },
            )
        } else if arg == "--tray"@ {
            scan_args(args, addrs, logical_cores, i + 1, CoreApiConfig { tray_enabled: true, ..config })
        } else if arg == "--no-tray"@ {
            scan_args(
                args,
                addrs,
                logical_cores,
                i + 1,
                CoreApiConfig { tray_enabled: false, ..config },
            )
        } else if has_prefix(arg, "--api-workers="@) {
            match parse_usize_spec(workers_text(arg)) {
                Some(n) => scan_args(
                    args,
                    addrs,
                    logical_cores,
                    i + 1,
                    CoreApiConfig { api_worker_threads: clamp_workers(n, logical_cores), ..config },
                ),
                None => Err(ApiConfigErrorView::InvalidApiWorkers(workers_text(arg))),
            }
        } else if arg == "--api-workers"@ {
            if i + 1 >= args.len() {
                Err(ApiConfigErrorView::MissingApiWorkers)
            } else {
                match parse_usize_spec(args[i + 1]) {
                    Some(n) => scan_args(
                        args,
                        addrs,
                        logical_cores,
                        i + 2,
                        CoreApiConfig {
                            api_worker_threads: clamp_workers(n, logical_cores),
                            ..config
                        },
                    ),
                    None => Err(ApiConfigErrorView::InvalidApiWorkers(args[i + 1])),
                }
            }
        } else if arg == "--help"@ || arg == "-h"@ {
            Err(ApiConfigErrorView::Usage)
        } else {
            Err(ApiConfigErrorView::UnknownArgument(arg))
        }
    }
}

/// The loopback rule: a non-loopback bind needs the override.
pub open spec fn config_error(config: CoreApiConfig) -> Option<ApiConfigErrorView> {
    if !config.allow_non_loopback && !config.bind_addr.ip.spec_is_loopback() {
        Some(ApiConfigErrorView::NonLoopbackRefused(config.bind_addr))
    } else {
        None
    }
}

/// What `from_args` gives for a command line.
pub open spec fn from_args_spec(
    args: Seq<Seq<char>>,
    addrs: Seq<Option<BindAddress>>,
    logical_cores: usize,
) -> Result<CoreApiConfig, ApiConfigErrorView> {
    match scan_args(args, addrs, logical_cores, 0, CoreApiConfig::spec_default(logical_cores)) {
        Ok(c) => match config_error(c) {
            Some(e) => Err(e),
            None => Ok(c),
        },
        Err(e) => Err(e),
    }
}

/// The strings of `v` as character sequences.
pub open spec fn strings_view(v: Seq<String>) -> Seq<Seq<char>> {
    v.map_values(|s: String| s@)
}

/// `r` as plain values.
pub open spec fn result_view(r: Result<CoreApiConfig, ApiConfigError>) -> Result<
    CoreApiConfig,
    ApiConfigErrorView,
> {
    match r {
        Ok(c) => Ok(c),
        Err(e) => Err(e.view()),
    }
}

impl CoreApiConfig {
    /// Loopback on the default port, no tray, the default worker count, no auto-start.
    pub open spec fn spec_default(logical_cores: usize) -> CoreApiConfig {
        CoreApiConfig {
            bind_addr: BindAddress::spec_default(),
            allow_non_loopback: false,
            tray_enabled: false,
            api_worker_threads: clamp_workers(DEFAULT_API_WORKER_THREADS, logical_cores),
            auto_start_runtime: false,
        }
    }

    /// The default configuration on a machine with `logical_cores` cores.
    pub fn default_for(logical_cores: usize) -> (r: CoreApiConfig)
        requires
            logical_cores >= 1,
        ensures
            r == Self::spec_default(logical_cores),
    {
        CoreApiConfig {
            bind_addr: BindAddress::default_local(),
            allow_non_loopback: false,
            tray_enabled: false,
            api_worker_threads: default_api_worker_threads(logical_cores),
            auto_start_runtime: false,
        }
    }

    /// For each argument, the text a socket address would be read from there:
    /// what follows `--bind=`, or the argument itself.
    pub fn address_texts(args: &Vec<String>) -> (r: Vec<String>)
        ensures
            r@.len() == args@.len(),
            forall|k: int| 0 <= k < args@.len() ==> r@[k]@ == address_text(args@[k]@),
    {
        let mut out: Vec<String> = Vec::new();
        let mut i: usize = 0;
        while i < args.len()
            invariant
                i <= args.len(),
                out@.len() == i,
                forall|k: int| 0 <= k < i ==> out@[k]@ == address_text(args@[k]@),
            decreases args.len() - i,
        {
            let v = chars_of(args[i].as_str());
            let text = if starts_with(&v, "--bind=") {
                proof {
                    reveal_strlit("--bind=");
                }
                let rest = slice_chars(&v, 7, v.len());
                string_of(&rest)
            } else {
                string_of(&v)
            };
            out.push(text);
            i = i + 1;
        }
        out
    }

    /// Reads the command line of the core process. `addrs[k]` is the socket
    /// address that `address_texts(args)[k]` denotes, if any. The address
    /// after a bare `--bind` is read from that argument as written: one that
    /// starts with `--bind=` is refused whole.
    pub fn from_args(args: &Vec<String>, addrs: &Vec<Option<BindAddress>>, logical_cores: usize) -> (r:
        Result<CoreApiConfig, ApiConfigError>)
        requires
            logical_cores >= 1,
            addrs@.len() == args@.len(),
        ensures
            result_view(r) == from_args_spec(strings_view(args@), addrs@, logical_cores),
    {
        let ghost sargs = strings_view(args@);
        let mut config = Self::default_for(logical_cores);
        let mut i: usize = 0;
        while i < args.len()
            invariant
                i <= args.len(),
                logical_cores >= 1,
                addrs@.len() == args@.len(),
                sargs == strings_view(args@),
                scan_args(sargs, addrs@, logical_cores, 0, Self::spec_default(logical_cores))
                    == scan_args(sargs, addrs@, logical_cores, i as int, config),
            decreases args.len() - i,
        {
            let arg = args[i].as_str();
            let v = chars_of(arg);
            assert(sargs[i as int] == args@[i as int]@);
            if starts_with(&v, "--bind=") {
                proof {
                    reveal_strlit("--bind=");
                }
                match addrs[i] {
                    Some(a) => {
                        config = CoreApiConfig { bind_addr: a, ..config };
                        i = i + 1;
                    },
                    None => {
                        let rest = slice_chars(&v, 7, v.len());
                        return Err(ApiConfigError::InvalidBindAddress { value: string_of(&rest) });
                    },
                }
            } else if str_eq(arg, "--bind") {
                if i + 1 >= args.len() {
                    return Err(ApiConfigError::MissingBindAddress);
                }
                assert(sargs[i + 1] == args@[i + 1]@);
                let next = chars_of(args[i + 1].as_str());
                if starts_with(&next, "--bind=") {
                    proof {
                        reveal_strlit("--bind=");
                    }
                    return Err(ApiConfigError::InvalidBindAddress { value: args[i + 1].clone() });
                }
                proof {
                    reveal_strlit("--bind=");
                }
                match addrs[i + 1] {
                    Some(a) => {
                        config = CoreApiConfig { bind_addr: a, ..config };
                        i = i + 2;
                    },
                    None => {
                        return Err(
                            ApiConfigError::InvalidBindAddress { value: args[i + 1].clone() },
                        );
                    },
                }
            } else if str_eq(arg, "--allow-non-loopback") {
                config = CoreApiConfig { allow_non_loopback: true, ..config };
                i = i + 1;
            } else if str_eq(arg, "--tray") {
                config = CoreApiConfig { tray_enabled: true, ..config };
                i = i + 1;
            } else if str_eq(arg, "--no-tray") {
                config = CoreApiConfig { tray_enabled: false, ..config };
                i = i + 1;
            } else if starts_with(&v, "--api-workers=") {
                proof {
                    reveal_strlit("--api-workers=");
                }
                let rest = slice_chars(&v, 14, v.len());
                let text = string_of(&rest);
                match parse_usize(text.as_str()) {
                    Some(n) => {
                        config = CoreApiConfig {
                            api_worker_threads: normalize_api_worker_threads(n, logical_cores),
                            ..config
                        };
                        i = i + 1;
                    },
                    None => {
                        return Err(ApiConfigError::InvalidApiWorkers { value: text });
                    },
                }
            } else if str_eq(arg, "--api-workers") {
                if i + 1 >= args.len() {
                    return Err(ApiConfigError::MissingApiWorkers);
                }
                assert(sargs[i + 1] == args@[i + 1]@);
                match parse_usize(args[i + 1].as_str()) {
                    Some(n) => {
                        config = CoreApiConfig {
                            api_worker_threads: normalize_api_worker_threads(n, logical_cores),
                            ..config
                        };
                        i = i + 2;
                    },
                    None => {
                        return Err(ApiConfigError::InvalidApiWorkers { value: args[i + 1].clone() });
                    },
                }
            } else if str_eq(arg, "--help") || str_eq(arg, "-h") {
                return Err(ApiConfigError::Usage);
            } else {
                return Err(ApiConfigError::UnknownArgument { argument: owned(arg) });
            }
        }
        match config.validate() {
            Ok(()) => Ok(config),
            Err(e) => Err(e),
        }
    }

    /// Refuses a non-loopback bind address unless the override is set.
    pub fn validate(&self) -> (r: Result<(), ApiConfigError>)
        ensures
            match r {
                Ok(()) => config_error(*self) is None,
                Err(e) => config_error(*self) == Some(e.view()),
            },
    {
        if !self.allow_non_loopback && !self.bind_addr.ip.is_loopback() {
            return Err(ApiConfigError::NonLoopbackRefused { bind_addr: self.bind_addr });
        }
        Ok(())
    }

    /// The configured worker count clamped to `1..=logical_cores`.
    pub fn normalized_api_worker_threads(&self, logical_cores: usize) -> (r: usize)
        requires
            logical_cores >= 1,
        ensures
            r == clamp_workers(self.api_worker_threads, logical_cores),
    {
        normalize_api_worker_threads(self.api_worker_threads, logical_cores)
    }
}

} // verus!
