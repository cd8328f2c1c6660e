//! The rules of the core HTTP API that do not touch the network: which
//! browser origins may call it, how server-sent events are framed, and the
//! defaults of its request bodies.
use vstd::prelude::*;

use crate::control::RuntimeStatus;
use crate::profile_schema::ProfileDocument;
use crate::text::{chars_of, has_prefix, slice_chars, starts_with, chars_eq_str, str_eq, string_of};

verus! {

broadcast use vstd::string::group_string_axioms;

/// The number of leading characters of `s` that are not stop characters.
pub open spec fn stop_index(s: Seq<char>, stop: spec_fn(char) -> bool) -> nat
    decreases s.len(),
{
    if s.len() == 0 {
        0
    } else if stop(s[0]) {
        0
    } else {
        1 + stop_index(s.drop_first(), stop)
    }
}

pub proof fn lemma_stop_index(s: Seq<char>, stop: spec_fn(char) -> bool, i: int)
    requires
        0 <= i <= s.len(),
        forall|j: int| 0 <= j < i ==> !stop(s[j]),
        i == s.len() || stop(s[i]),
    ensures
        stop_index(s, stop) == i,
    decreases i,
{
    if i > 0 {
        lemma_stop_index(s.drop_first(), stop, i - 1);
    }
}

/// Characters that end the authority part of a URL.
pub open spec fn ends_authority(c: char) -> bool {
    c == '/' || c == '?' || c == '#'
}

pub open spec fn is_colon(c: char) -> bool {
    c == ':'
}

pub open spec fn is_close_bracket(c: char) -> bool {
    c == ']'
}

/// The host an origin names, if it uses `http` or `https`: the authority up
/// to the first `/`, `?` or `#`; for a bracketed IPv6 host everything up to
/// and including the first `]`, else the part before the first `:`.
pub open spec fn origin_host(origin: Seq<char>) -> Option<Seq<char>> {
    let rest = if has_prefix(origin, "http://"@) {
        Some(origin.subrange(7, origin.len() as int))
    } else if has_prefix(origin, "https://"@) {
        Some(origin.subrange(8, origin.len() as int))
    } else {
        None
    };
    match rest {
        None => None,
        Some(r) => {
            let authority = r.subrange(0, stop_index(r, |c: char| ends_authority(c)) as int);
            if authority.len() > 0 && authority[0] == '[' {
                let end = stop_index(authority, |c: char| is_close_bracket(c));
                if end == authority.len() {
                    None
                } else {
                    Some(authority.subrange(0, end + 1int))
                }
            } else {
                Some(authority.subrange(0, stop_index(authority, |c: char| is_colon(c)) as int))
            }
        },
    }
}

/// Whether an origin is an `http`/`https` origin on this machine's loopback
/// host: `localhost`, `127.0.0.1` or `[::1]`, on any port.
pub open spec fn is_loopback_origin(origin: Seq<char>) -> bool {
    match origin_host(origin) {
        Some(h) => h == "localhost"@ || h == "127.0.0.1"@ || h == "[::1]"@,
        None => false,
    }
}

/// The origins the desktop shell's web view uses.
pub open spec fn is_webview_origin(origin: Seq<char>) -> bool {
    origin == "tauri://localhost"@ || origin == "http://tauri.localhost"@ || origin
        == "https://tauri.localhost"@
}

fn stop_at(v: &Vec<char>, which: u8) -> (r: usize)
    requires
        which < 3,
    ensures
        which == 0 ==> r == stop_index(v@, |c: char| ends_authority(c)),
        which == 1 ==> r == stop_index(v@, |c: char| is_close_bracket(c)),
        which == 2 ==> r == stop_index(v@, |c: char| is_colon(c)),
        r <= v.len(),
{
    let ghost stop = if which == 0 {
        |c: char| ends_authority(c)
    } else if which == 1 {
        |c: char| is_close_bracket(c)
    } else {
        |c: char| is_colon(c)
    };
    let mut i: usize = 0;
    while i < v.len()
        invariant
            i <= v.len(),
            which < 3,
            stop == (if which == 0 {
                |c: char| ends_authority(c)
            } else if which == 1 {
                |c: char| is_close_bracket(c)
            } else {
                |c: char| is_colon(c)
            }),
            forall|j: int| 0 <= j < i ==> !stop(v@[j]),
        decreases v.len() - i,
    {
        let c = v[i];
        let hit = if which == 0 {
            c == '/' || c == '?' || c == '#'
        } else if which == 1 {
            c == ']'
        } else {
            c == ':'
        };
        if hit {
            proof {
                lemma_stop_index(v@, stop, i as int);
            }
            return i;
        }
        i = i + 1;
    }
    proof {
        lemma_stop_index(v@, stop, i as int);
    }
    i
}

/// Whether an origin is an `http`/`https` origin on the loopback host.
pub fn is_loopback_http_origin(origin: &str) -> (r: bool)
    ensures
        r == is_loopback_origin(origin@),
{
    let v = chars_of(origin);
    let rest = if starts_with(&v, "http://") {
        proof {
            reveal_strlit("http://");
        }
        slice_chars(&v, 7, v.len())
    } else if starts_with(&v, "https://") {
        proof {
            reveal_strlit("https://");
        }
        slice_chars(&v, 8, v.len())
    } else {
        return false;
    };
    let a_end = stop_at(&rest, 0);
    let authority = slice_chars(&rest, 0, a_end);
    let host = if authority.len() > 0 && authority[0] == '[' {
        let end = stop_at(&authority, 1);
        if end == authority.len() {
            return false;
        }
        slice_chars(&authority, 0, end + 1)
    } else {
        let end = stop_at(&authority, 2);
        slice_chars(&authority, 0, end)
    };
    assert(origin_host(origin@) == Some(host@));
    chars_eq_str(&host, "localhost") || chars_eq_str(&host, "127.0.0.1") || chars_eq_str(
        &host,
        "[::1]",
    )
}

/// Whether a browser origin may call the core API: the desktop web view, or
/// a loopback `http`/`https` page.
pub fn is_allowed_core_api_origin(origin: &str) -> (r: bool)
    ensures
        r == (is_webview_origin(origin@) || is_loopback_origin(origin@)),
{
    str_eq(origin, "tauri://localhost") || str_eq(origin, "http://tauri.localhost") || str_eq(
        origin,
        "https://tauri.localhost",
    ) || is_loopback_http_origin(origin)
}

/// The decimal digits of `n`, most significant first, without leading zeros.
pub open spec fn decimal_digits(n: u64) -> Seq<char>
    decreases n,
{
    if n < 10 {
        seq![(('0' as u32) + n) as char]
    } else {
        decimal_digits(n / 10).push((('0' as u32) + n % 10) as char)
    }
}

fn digit_char(d: u64) -> (r: char)
    requires
        d < 10,
    ensures
        r == (('0' as u32) + d) as char,
{
    let b: u8 = (48 + d) as u8;
    b as char
}

/// The decimal digits of `n`.
pub fn decimal_chars(n: u64) -> (r: Vec<char>)
    ensures
        r@ == decimal_digits(n),
    decreases n,
{
    if n < 10 {
        let mut v: Vec<char> = Vec::new();
        v.push(digit_char(n));
        assert(v@ =~= decimal_digits(n));
        v
    } else {
        let mut v = decimal_chars(n / 10);
        v.push(digit_char(n % 10));
        v
    }
}

fn append_chars(out: &mut Vec<char>, s: &str)
    ensures
        final(out)@ == old(out)@ + s@,
{
    let w = chars_of(s);
    let mut i: usize = 0;
    let ghost start = out@;
    while i < w.len()
        invariant
            i <= w.len(),
            w@ == s@,
            out@ == start + w@.take(i as int),
        decreases w.len() - i,
    {
        out.push(w[i]);
        assert(out@ =~= start + w@.take(i as int + 1));
        i = i + 1;
    }
    assert(w@.take(w.len() as int) =~= w@);
}

/// One server-sent event: an optional `id:` line, the `event:` line, the
/// `data:` line and the blank line that ends the event.
pub open spec fn sse_frame(event_name: Seq<char>, id: Option<u64>, payload: Seq<char>) -> Seq<char> {
    let id_line = match id {
        Some(n) => "id: "@ + decimal_digits(n) + "\n"@,
        None => Seq::<char>::empty(),
    };
    id_line + "event: "@ + event_name + "\ndata: "@ + payload + "\n\n"@
}

/// Frames a JSON payload as one server-sent event.
pub fn format_sse_json(event_name: &str, id: Option<u64>, payload: &str) -> (r: String)
    ensures
        r@ == sse_frame(event_name@, id, payload@),
{
    let mut out: Vec<char> = Vec::new();
    match id {
        Some(n) => {
            append_chars(&mut out, "id: ");
            let digits = decimal_chars(n);
            let mut i: usize = 0;
            let ghost start = out@;
            while i < digits.len()
                invariant
                    i <= digits.len(),
                    out@ == start + digits@.take(i as int),
                decreases digits.len() - i,
            {
                out.push(digits[i]);
                assert(out@ =~= start + digits@.take(i as int + 1));
                i = i + 1;
            }
            assert(digits@.take(digits.len() as int) =~= digits@);
            append_chars(&mut out, "\n");
        },
        None => {},
    }
    append_chars(&mut out, "event: ");
    append_chars(&mut out, event_name);
    append_chars(&mut out, "\ndata: ");
    append_chars(&mut out, payload);
    append_chars(&mut out, "\n\n");
    let r = string_of(&out);
    assert(r@ =~= sse_frame(event_name@, id, payload@));
    r
}

/// Milliseconds between two telemetry samples on the stream endpoint.
pub const TELEMETRY_STREAM_INTERVAL_MS: u64 = 250;

/// Valid samples a neutral calibration collects unless told otherwise.
pub fn default_neutral_calibration_sample_count() -> (r: usize)
    ensures
        r == 45,
{
    45
}

/// Valid samples a face pose model collects unless told otherwise.
pub fn default_face_pose_model_sample_count() -> (r: usize)
    ensures
        r == 90,
{
    90
}

/// How long an analysis capture runs unless told otherwise, in milliseconds.
pub fn default_analysis_extras_duration_ms() -> (r: u64)
    ensures
        r == 1000,
{
    1000
}

/// The answer of the status endpoint.
#[derive(Clone, Debug, PartialEq)]
pub struct StatusResponse {
    pub status: RuntimeStatus,
}

/// The answer of the profile document endpoint.
#[derive(Clone, Debug, PartialEq)]
pub struct ProfileDocumentResponse {
    pub selection: ProfileDocument,
}

/// The body of a profile document replacement or sync.
#[derive(Clone, Debug, PartialEq)]
pub struct ProfileDocumentRequest {
    pub selection: ProfileDocument,
}

/// The body of a neutral calibration request.
#[derive(Clone, Debug, PartialEq, Eq)]
pub struct NeutralCalibrationRequest {
    pub valid_sample_count: usize,
    /// `U`, `T` or `I`; `U` where absent.
    pub pose: Option<String>,
}

impl NeutralCalibrationRequest {
    /// A request with every field at its default: 45 samples, no pose named.
    pub fn with_defaults() -> (r: Self)
        ensures
            r.valid_sample_count == 45,
            r.pose is None,
    {
        NeutralCalibrationRequest { valid_sample_count: default_neutral_calibration_sample_count(), pose: None }
    }
}

/// The body of a face pose model request.
#[derive(Clone, Copy, Debug, PartialEq, Eq, Structural)]
pub struct FacePoseModelBuildRequest {
    pub valid_sample_count: usize,
}

impl FacePoseModelBuildRequest {
    /// A request with the default of 90 samples.
    pub fn with_defaults() -> (r: Self)
        ensures
            r.valid_sample_count == 90,
    {
        FacePoseModelBuildRequest { valid_sample_count: default_face_pose_model_sample_count() }
    }
}

/// The body of an analysis capture request.
#[derive(Clone, Debug, PartialEq, Eq)]
pub struct AnalysisExtrasCaptureRequest {
    /// Where the samples are written.
    pub output_dir: String,
    pub duration_ms: u64,
}

impl AnalysisExtrasCaptureRequest {
    /// A request for `output_dir` with the default duration of one second.
    pub fn with_default_duration(output_dir: String) -> (r: Self)
        ensures
            r.output_dir == output_dir,
            r.duration_ms == 1000,
    {
        AnalysisExtrasCaptureRequest { output_dir, duration_ms: default_analysis_extras_duration_ms() }
    }
}

/// The answer of the health endpoint.
#[derive(Clone, Copy, Debug, PartialEq, Eq, Structural)]
pub struct HealthResponse {
    pub ok: bool,
}

/// What the health endpoint answers while the server runs.
pub fn health_response() -> (r: HealthResponse)
    ensures
        r.ok,
{
    HealthResponse { ok: true }
}

} // verus!
