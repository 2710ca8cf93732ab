//! Completion polling: the log file is the only channel out of the
//! privileged child, and it is sampled a bounded number of times, stopping
//! early the moment a success marker or an `ERROR:` note appears.

use vstd::prelude::*;

use crate::text::{str_contains, text_contains};

verus! {

/// How many times the log is sampled before the wait is given up.
pub const POLL_ATTEMPTS: u32 = 10;

/// The note a failed checked step writes to the log.
pub open spec fn error_note() -> Seq<char> {
    "ERROR:"@
}

/// A terminal outcome is visible in a log sample: the success marker or an
/// `ERROR:` note. A missing log (the sample is `None`) shows neither — a
/// declined elevation never creates the log, and polling must run on.
pub open spec fn spec_sample_terminal(sample: Option<Seq<char>>, marker: Seq<char>) -> bool {
    match sample {
        Some(content) => text_contains(content, marker) || text_contains(content, error_note()),
        None => false,
    }
}

/// The view of one log sample.
pub open spec fn sample_view(sample: Option<&String>) -> Option<Seq<char>> {
    match sample {
        Some(content) => Some(content@),
        None => None,
    }
}

/// What the poller says after a sample: keep waiting, or stop and hand
/// over to verification.
#[derive(Clone, Copy, Debug, PartialEq, Eq, Structural)]
pub enum PollDecision {
    Wait,
    Stop,
}

/// Whether a log content shows a terminal outcome for the given marker.
pub fn sample_terminal(content: &str, marker: &str) -> (r: bool)
    ensures
        r == spec_sample_terminal(Some(content@), marker@),
{
    str_contains(content, marker) || str_contains(content, "ERROR:")
}

/// The bounded poller for one operation: it holds the operation's success
/// marker and how many samples are still allowed.
#[derive(Debug)]
pub struct CompletionPoller {
    pub marker: String,
    pub remaining: u32,
}

impl CompletionPoller {
    /// A fresh poller starts with the full budget of samples.
    pub fn new(marker: String) -> (p: CompletionPoller)
        ensures
            p.marker == marker,
            p.remaining == POLL_ATTEMPTS,
    {
        CompletionPoller { marker, remaining: POLL_ATTEMPTS }
    }

    /// Consumes one sample. The poller stops exactly when the sample shows
    /// a terminal outcome or this was the last allowed sample; a timeout
    /// is not a failure — the caller proceeds to verification either way.
    pub fn observe(&mut self, sample: Option<&String>) -> (d: PollDecision)
        requires
            old(self).remaining > 0,
        ensures
            final(self).marker == old(self).marker,
            final(self).remaining == old(self).remaining - 1,
            d == PollDecision::Stop <==> (spec_sample_terminal(
                sample_view(sample),
                old(self).marker@,
            ) || final(self).remaining == 0),
    {
        self.remaining = self.remaining - 1;
        let found = match sample {
            Some(content) => sample_terminal(content.as_str(), self.marker.as_str()),
            None => false,
        };
        if found || self.remaining == 0 {
            PollDecision::Stop
        } else {
            PollDecision::Wait
        }
    }
}

/// How many samples a poller with `remaining` allowed samples consumes
/// when it would observe `samples` in order: it takes one sample at a
/// time, as `observe` decides, and stops on a terminal sample or on its
/// last allowed one.
pub open spec fn spec_samples_consumed(
    remaining: nat,
    samples: Seq<Option<Seq<char>>>,
    marker: Seq<char>,
) -> nat
    decreases samples.len(),
{
    if samples.len() == 0 || remaining == 0 {
        0
    } else if spec_sample_terminal(samples[0], marker) || remaining == 1 {
        1
    } else {
        1 + spec_samples_consumed((remaining - 1) as nat, samples.drop_first(), marker)
    }
}

/// When the log never appears, no sample is ever terminal, so the wait is
/// given up only once the whole budget of samples is spent — never
/// earlier, and verification still follows.
pub proof fn lemma_absent_samples_spend_whole_budget(
    remaining: nat,
    samples: Seq<Option<Seq<char>>>,
    marker: Seq<char>,
)
    requires
        remaining <= samples.len(),
        forall|i: int| 0 <= i < samples.len() ==> samples[i] is None,
    ensures
        spec_samples_consumed(remaining, samples, marker) == remaining,
    decreases remaining,
{
    if remaining > 1 {
        let rest = samples.drop_first();
        assert(forall|i: int| 0 <= i < rest.len() ==> rest[i] is None);
        lemma_absent_samples_spend_whole_budget((remaining - 1) as nat, rest, marker);
    }
}

/// The wait stops the moment a terminal outcome appears: when the first
/// terminal sample is the `k`-th and the budget reaches it, exactly
/// `k + 1` samples are consumed — none of the remaining budget is spent.
pub proof fn lemma_terminal_sample_stops_early(
    remaining: nat,
    samples: Seq<Option<Seq<char>>>,
    marker: Seq<char>,
    k: int,
)
    requires
        0 <= k < samples.len(),
        k < remaining,
        spec_sample_terminal(samples[k], marker),
        forall|i: int| 0 <= i < k ==> !spec_sample_terminal(samples[i], marker),
    ensures
        spec_samples_consumed(remaining, samples, marker) == k + 1,
    decreases k,
{
    if k > 0 {
        let rest = samples.drop_first();
        assert(rest[k - 1] == samples[k]);
        assert(forall|i: int| 0 <= i < k - 1 ==> !spec_sample_terminal(rest[i], marker));
        lemma_terminal_sample_stops_early((remaining - 1) as nat, rest, marker, k - 1);
    }
}

} // verus!
