//! Service status: the shape reported to callers and how it is derived
//! from the raw output of the OS service-manager query.

use vstd::prelude::*;

use crate::text::{str_contains, text_contains};

verus! {

/// The configured auto-launch policy of an installed service.
#[derive(Clone, Copy, Debug, PartialEq, Eq, Structural)]
pub enum StartType {
    Automatic,
    Manual,
    Disabled,
}

/// What the OS service manager reports of the service, derived fresh on
/// every query and never cached.
///
/// Well-formedness: a service that is not installed is neither running nor
/// has a start type.
#[derive(Clone, Copy, Debug, PartialEq, Eq, Structural)]
pub struct ServiceStatus {
    pub installed: bool,
    pub running: bool,
    pub start_type: Option<StartType>,
}

impl ServiceStatus {
    /// The invariant every status produced by this library satisfies.
    pub open spec fn wf(self) -> bool {
        !self.installed ==> !self.running && self.start_type is None
    }

    /// The fixed "service not present" shape: also what a platform without
    /// the service primitive reports, with no OS call attempted.
    pub fn not_present() -> (s: ServiceStatus)
        ensures
            s == (ServiceStatus { installed: false, running: false, start_type: None }),
            s.wf(),
    {
        ServiceStatus { installed: false, running: false, start_type: None }
    }
}

/// The error code with which the service manager reports a missing service.
pub open spec fn not_found_code() -> Seq<char> {
    "1060"@
}

/// The token in the query output that marks a running service.
pub open spec fn running_token() -> Seq<char> {
    "RUNNING"@
}

/// The start type read from the configuration-query output: the first of
/// the automatic, manual and disabled tokens that occurs, or none.
pub open spec fn spec_start_type(config: Seq<char>) -> Option<StartType> {
    if text_contains(config, "AUTO_START"@) {
        Some(StartType::Automatic)
    } else if text_contains(config, "DEMAND_START"@) {
        Some(StartType::Manual)
    } else if text_contains(config, "DISABLED"@) {
        Some(StartType::Disabled)
    } else {
        None
    }
}

/// The status derived from one query: the not-found code on either stream
/// means "not installed"; otherwise the service is installed, it is running
/// exactly when the output says so, and the start type comes from the
/// configuration query, where one was obtained.
pub open spec fn spec_interpret_query(
    query_out: Seq<char>,
    query_err: Seq<char>,
    config_out: Option<Seq<char>>,
) -> ServiceStatus {
    if text_contains(query_err, not_found_code()) || text_contains(query_out, not_found_code()) {
        ServiceStatus { installed: false, running: false, start_type: None }
    } else {
        ServiceStatus {
            installed: true,
            running: text_contains(query_out, running_token()),
            start_type: match config_out {
                Some(c) => spec_start_type(c),
                None => None,
            },
        }
    }
}

/// The status derived from the query's outcome as a whole. The status
/// query never fails: a query whose output could not be obtained at all
/// yields the not-present shape, like a platform without the primitive.
pub open spec fn spec_interpret_query_outcome(
    query: Option<(Seq<char>, Seq<char>)>,
    config_out: Option<Seq<char>>,
) -> ServiceStatus {
    match query {
        Some(streams) => spec_interpret_query(streams.0, streams.1, config_out),
        None => ServiceStatus { installed: false, running: false, start_type: None },
    }
}

/// Turns the outcome of the status query into a `ServiceStatus`, totally:
/// `query` holds the two captured output streams, or nothing when the
/// query could not be run at all — the caller always gets a status back.
pub fn interpret_query_outcome(query: Option<(&str, &str)>, config_out: Option<&str>) -> (s:
    ServiceStatus)
    ensures
        s == spec_interpret_query_outcome(
            match query {
                Some(streams) => Some((streams.0@, streams.1@)),
                None => None,
            },
            match config_out {
                Some(c) => Some(c@),
                None => None,
            },
        ),
        s.wf(),
{
    match query {
        Some(streams) => interpret_query(streams.0, streams.1, config_out),
        None => ServiceStatus { installed: false, running: false, start_type: None },
    }
}

/// Whether the query output reports the service as missing: the caller
/// can skip the configuration query in that case, as its result is not
/// read.
pub fn query_shows_missing(query_out: &str, query_err: &str) -> (r: bool)
    ensures
        r == (text_contains(query_err@, not_found_code()) || text_contains(
            query_out@,
            not_found_code(),
        )),
{
    str_contains(query_err, "1060") || str_contains(query_out, "1060")
}

/// Reads the configured start type out of the configuration-query output.
pub fn interpret_start_type(config_out: &str) -> (t: Option<StartType>)
    ensures
        t == spec_start_type(config_out@),
{
    if str_contains(config_out, "AUTO_START") {
        Some(StartType::Automatic)
    } else if str_contains(config_out, "DEMAND_START") {
        Some(StartType::Manual)
    } else if str_contains(config_out, "DISABLED") {
        Some(StartType::Disabled)
    } else {
        None
    }
}

/// Turns the captured output of the status query into a `ServiceStatus`.
///
/// `query_out` and `query_err` are the two output streams of the state
/// query; `config_out` is the output of the configuration query, where the
/// caller obtained one. The result is a pure function of these texts.
pub fn interpret_query(query_out: &str, query_err: &str, config_out: Option<&str>) -> (s:
    ServiceStatus)
    ensures
        s == spec_interpret_query(
            query_out@,
            query_err@,
            match config_out {
                Some(c) => Some(c@),
                None => None,
            },
        ),
        s.wf(),
{
    if str_contains(query_err, "1060") || str_contains(query_out, "1060") {
        ServiceStatus { installed: false, running: false, start_type: None }
    } else {
        let start_type = match config_out {
            Some(c) => interpret_start_type(c),
            None => None,
        };
        ServiceStatus { installed: true, running: str_contains(query_out, "RUNNING"), start_type }
    }
}

/// Equal query texts always yield equal statuses: the status is a pure
/// function of the observed output, never of hidden state, so two
/// back-to-back queries that observe the same output report the same thing.
pub proof fn lemma_query_deterministic(
    out1: Seq<char>,
    err1: Seq<char>,
    cfg1: Option<Seq<char>>,
    out2: Seq<char>,
    err2: Seq<char>,
    cfg2: Option<Seq<char>>,
)
    requires
        out1 == out2,
        err1 == err2,
        cfg1 == cfg2,
    ensures
        spec_interpret_query(out1, err1, cfg1) == spec_interpret_query(out2, err2, cfg2),
{
}

/// Every status a query can yield is well formed.
pub proof fn lemma_query_wf(out: Seq<char>, err: Seq<char>, cfg: Option<Seq<char>>)
    ensures
        spec_interpret_query(out, err, cfg).wf(),
{
}

} // verus!
