//! The addressing side of a client of the core HTTP API: its base URL and
//! the method and path of each request it makes.
use vstd::prelude::*;

use crate::runtime_config::trim_end_char;
use crate::text::{chars_of, owned, slice_chars, string_of};

verus! {

/// A client of the core API, by base URL.
#[derive(Clone, Debug, PartialEq, Eq)]
pub struct CoreApiClient {
    base_url: String,
}

/// `http://127.0.0.1:39580`, the address of a local core.
pub open spec fn default_base_url() -> Seq<char> {
    "http://127.0.0.1:39580"@
}

/// The HTTP methods the client uses.
#[derive(Clone, Copy, Debug, PartialEq, Eq, Structural)]
pub enum HttpMethod {
    Get,
    Post,
    Put,
}

/// The requests the client makes.
#[derive(Clone, Copy, Debug, PartialEq, Eq, Structural)]
pub enum CoreRequest {
    Status,
    Snapshot,
    ActiveProfile,
    SetActiveProfile,
    StartRuntime,
    StopRuntime,
}

impl CoreRequest {
    pub open spec fn spec_method(self) -> HttpMethod {
        match self {
            CoreRequest::Status | CoreRequest::Snapshot | CoreRequest::ActiveProfile => HttpMethod::Get,
            CoreRequest::SetActiveProfile => HttpMethod::Put,
            CoreRequest::StartRuntime | CoreRequest::StopRuntime => HttpMethod::Post,
        }
    }

    pub open spec fn spec_path(self) -> Seq<char> {
        match self {
            CoreRequest::Status => "/api/status"@,
            CoreRequest::Snapshot => "/api/profiles"@,
            CoreRequest::ActiveProfile => "/api/profiles/active"@,
            CoreRequest::SetActiveProfile => "/api/profiles/active"@,
            CoreRequest::StartRuntime => "/api/runtime/start"@,
            CoreRequest::StopRuntime => "/api/runtime/stop"@,
        }
    }

    /// The method of the request.
    pub fn method(self) -> (r: HttpMethod)
        ensures
            r == self.spec_method(),
    {
        match self {
            CoreRequest::Status | CoreRequest::Snapshot | CoreRequest::ActiveProfile => HttpMethod::Get,
            CoreRequest::SetActiveProfile => HttpMethod::Put,
            CoreRequest::StartRuntime | CoreRequest::StopRuntime => HttpMethod::Post,
        }
    }

    /// The path of the request.
    pub fn path(self) -> (r: &'static str)
        ensures
            r@ == self.spec_path(),
    {
        match self {
            CoreRequest::Status => "/api/status",
            CoreRequest::Snapshot => "/api/profiles",
            CoreRequest::ActiveProfile => "/api/profiles/active",
            CoreRequest::SetActiveProfile => "/api/profiles/active",
            CoreRequest::StartRuntime => "/api/runtime/start",
            CoreRequest::StopRuntime => "/api/runtime/stop",
        }
    }
}

impl CoreApiClient {
    pub closed spec fn spec_base_url(self) -> Seq<char> {
        self.base_url@
    }

    /// A client of the core at `base_url`, without its trailing `/`.
    pub fn new(base_url: &str) -> (r: Self)
        ensures
            r.spec_base_url() == trim_end_char(base_url@, '/'),
    {
        let v = chars_of(base_url);
        let mut end: usize = v.len();
        assert(v@.take(end as int) =~= v@);
        while end > 0 && v[end - 1] == '/'
            invariant
                end <= v.len(),
                trim_end_char(v@, '/') == trim_end_char(v@.take(end as int), '/'),
            decreases end,
        {
            assert(v@.take(end as int).drop_last() =~= v@.take(end as int - 1));
            end = end - 1;
        }
        let kept = slice_chars(&v, 0, end);
        assert(kept@ =~= v@.take(end as int));
        CoreApiClient { base_url: string_of(&kept) }
    }

    /// A client of the local core.
    pub fn local() -> (r: Self)
        ensures
            r.spec_base_url() == default_base_url(),
    {
        CoreApiClient { base_url: owned("http://127.0.0.1:39580") }
    }

    /// The base URL the client sends to.
    pub fn base_url(&self) -> (r: &str)
        ensures
            r@ == self.spec_base_url(),
    {
        self.base_url.as_str()
    }

    /// The URL of `path` on the core.
    pub fn endpoint(&self, path: &str) -> (r: String)
        ensures
            r@ == self.spec_base_url() + path@,
    {
        let mut v = chars_of(self.base_url.as_str());
        let w = chars_of(path);
        let ghost head = v@;
        let mut i: usize = 0;
        while i < w.len()
            invariant
                i <= w.len(),
                v@ == head + w@.take(i as int),
            decreases w.len() - i,
        {
            v.push(w[i]);
            assert(w@.take(i as int + 1) =~= w@.take(i as int).push(w@[i as int]));
            i = i + 1;
        }
        assert(w@.take(w.len() as int) =~= w@);
        string_of(&v)
    }
}

impl Default for CoreApiClient {
    fn default() -> (r: Self)
        ensures
            r.spec_base_url() == default_base_url(),
    {
        CoreApiClient::local()
    }
}

} // verus!
