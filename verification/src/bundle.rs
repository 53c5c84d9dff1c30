//! The relay-bundle protocol: request shapes, response classification, and
//! the bounded polling machine that waits for a bundle to finalize.
//!
//! A bundle is sent once and then polled at a fixed interval until the
//! relay reports it finalized or the overall timeout passes. Only
//! "finalized" counts as success; the wait is abandoned, not retried, when
//! the timeout is reached.

use vstd::prelude::*;
use vstd::string::StringExecFns;

verus! {

/// The default overall confirmation timeout, in seconds.
pub const DEFAULT_CONFIRM_TIMEOUT_SECS: u64 = 100;

/// The default polling interval, in seconds.
pub const DEFAULT_POLL_INTERVAL_SECS: u64 = 5;

/// The two relay methods.
#[derive(Clone, Copy, Debug, PartialEq, Eq, Structural)]
pub enum Method {
    SendBundle,
    GetBundleStatuses,
}

impl Method {
    /// The method's wire name.
    pub fn as_str(&self) -> (r: &'static str)
        ensures
            match self {
                Method::SendBundle => r@ == "sendBundle"@,
                Method::GetBundleStatuses => r@ == "getBundleStatuses"@,
            },
    {
        match self {
            Method::SendBundle => "sendBundle",
            Method::GetBundleStatuses => "getBundleStatuses",
        }
    }
}

/// A JSON-RPC 2.0 request to the relay: a fixed protocol version and id,
/// the method, and one positional parameter list.
pub struct JsonRpcRequest {
    pub jsonrpc: String,
    pub id: u64,
    pub method: Method,
    pub params: [Vec<String>; 1],
}

impl JsonRpcRequest {
    pub fn new(method: Method, params: [Vec<String>; 1]) -> (r: Self)
        ensures
            r.jsonrpc@ == "2.0"@,
            r.id == 1,
            r.method == method,
            r.params@ == params@,
    {
        Self { jsonrpc: String::from_str("2.0"), id: 1, method, params }
    }
}

/// How far the relay reports a bundle's transactions have progressed.
#[derive(Clone, Copy, Debug, PartialEq, Eq, Structural)]
pub enum TransactionConfirmationStatus {
    Processed,
    Confirmed,
    Finalized,
}

impl TransactionConfirmationStatus {
    /// The status's wire name.
    pub open spec fn spec_wire_name(self) -> Seq<char> {
        match self {
            TransactionConfirmationStatus::Processed => "processed"@,
            TransactionConfirmationStatus::Confirmed => "confirmed"@,
            TransactionConfirmationStatus::Finalized => "finalized"@,
        }
    }

    pub fn as_str(&self) -> (r: &'static str)
        ensures
            r@ == self.spec_wire_name(),
    {
        match self {
            TransactionConfirmationStatus::Processed => "processed",
            TransactionConfirmationStatus::Confirmed => "confirmed",
            TransactionConfirmationStatus::Finalized => "finalized",
        }
    }

    /// Read a status from its wire name; the inverse of [`Self::as_str`].
    pub fn from_wire(name: &String) -> (r: Option<TransactionConfirmationStatus>)
        ensures
            r matches Some(st) ==> name@ == st.spec_wire_name(),
            r is None <==> (name@ != "processed"@ && name@ != "confirmed"@ && name@
                != "finalized"@),
    {
        if *name == String::from_str("processed") {
            Some(TransactionConfirmationStatus::Processed)
        } else if *name == String::from_str("confirmed") {
            Some(TransactionConfirmationStatus::Confirmed)
        } else if *name == String::from_str("finalized") {
            Some(TransactionConfirmationStatus::Finalized)
        } else {
            None
        }
    }
}

/// One bundle's status entry in a poll response.
pub struct BundleStatusValue {
    pub bundle_id: String,
    pub confirmation_status: TransactionConfirmationStatus,
}

/// The payload of a status poll: one optional entry per queried bundle id.
pub struct GetBundleStatusesResult {
    pub value: Vec<Option<BundleStatusValue>>,
}

/// A relay response's result: a bundle id for a send, statuses for a poll.
pub enum JsonRpcResponseResult {
    SendBundleResult(String),
    GetBundleStatuses(GetBundleStatusesResult),
}

/// Why a relay interaction failed.
#[derive(Clone, Copy, Debug, PartialEq, Eq, Structural)]
pub enum BundleError {
    /// The relay answered a send with something other than a bundle id, or
    /// a poll with something other than statuses.
    UnexpectedResponse,
}

/// Pull the bundle id out of a send response; any other result shape is
/// the error.
pub fn bundle_id_of_response(result: JsonRpcResponseResult) -> (r: Result<String, BundleError>)
    ensures
        match result {
            JsonRpcResponseResult::SendBundleResult(id) => r matches Ok(rid) && rid@ == id@,
            JsonRpcResponseResult::GetBundleStatuses(_) => r == Err::<String, BundleError>(
                BundleError::UnexpectedResponse,
            ),
        },
{
    match result {
        JsonRpcResponseResult::SendBundleResult(id) => Ok(id),
        JsonRpcResponseResult::GetBundleStatuses(_) => Err(BundleError::UnexpectedResponse),
    }
}

/// Whether a poll response reports the bundle finalized: its first entry
/// exists and carries the finalized status.
pub open spec fn spec_poll_finalized(statuses: Seq<Option<BundleStatusValue>>) -> bool {
    &&& statuses.len() > 0
    &&& statuses[0] matches Some(v)
    &&& v.confirmation_status is Finalized
}

/// Classify one poll response.
pub fn poll_is_finalized(result: &GetBundleStatusesResult) -> (r: bool)
    ensures
        r == spec_poll_finalized(result.value@),
{
    if result.value.len() == 0 {
        return false;
    }
    match &result.value[0] {
        None => false,
        Some(v) => match v.confirmation_status {
            TransactionConfirmationStatus::Finalized => true,
            _ => false,
        },
    }
}

/// How one polling step ends.
#[derive(Clone, Copy, Debug, PartialEq, Eq, Structural)]
pub enum PollStep {
    /// The relay reported the bundle finalized; the wait succeeded.
    Finalized,
    /// Not finalized yet and polls remain; sleep one interval and poll
    /// again.
    KeepWaiting,
    /// Not finalized and the poll budget is spent; the wait timed out.
    TimedOut,
}

/// The bounded wait for one bundle: polls the relay until the bundle is
/// finalized or the budget of `timeout / interval` polls is spent.
pub struct BundleConfirmation {
    /// How many polls fit in the overall timeout.
    pub max_polls: u64,
    /// How many polls have been consumed.
    pub polls_done: u64,
}

impl BundleConfirmation {
    /// The machine never consumes more polls than its budget.
    pub open spec fn wf(&self) -> bool {
        self.polls_done <= self.max_polls
    }

    /// Start a wait bounded by a timeout, polling at a fixed interval.
    pub fn new(timeout_secs: u64, interval_secs: u64) -> (r: Self)
        requires
            interval_secs > 0,
        ensures
            r.max_polls == timeout_secs / interval_secs,
            r.polls_done == 0,
            r.wf(),
    {
        BundleConfirmation { max_polls: timeout_secs / interval_secs, polls_done: 0 }
    }

    /// Whether the poll budget still allows another poll.
    pub fn can_poll(&self) -> (r: bool)
        ensures
            r == (self.polls_done < self.max_polls),
    {
        self.polls_done < self.max_polls
    }

    /// Account one poll response: success when it reports the bundle
    /// finalized; otherwise one poll of the budget is consumed and the
    /// wait either continues or, with the budget spent, times out.
    pub fn on_poll(&mut self, result: &GetBundleStatusesResult) -> (step: PollStep)
        requires
            old(self).wf(),
            old(self).polls_done < old(self).max_polls,
        ensures
            final(self).max_polls == old(self).max_polls,
            final(self).wf(),
            spec_poll_finalized(result.value@) ==> step is Finalized && *final(self) == *old(self),
            !spec_poll_finalized(result.value@) ==> {
                &&& final(self).polls_done == old(self).polls_done + 1
                &&& (step is TimedOut <==> final(self).polls_done == final(self).max_polls)
                &&& (step is KeepWaiting <==> final(self).polls_done < final(self).max_polls)
            },
    {
        if poll_is_finalized(result) {
            return PollStep::Finalized;
        }
        self.polls_done = self.polls_done + 1;
        if self.polls_done == self.max_polls {
            PollStep::TimedOut
        } else {
            PollStep::KeepWaiting
        }
    }
}

/// Run a whole wait against a pre-recorded list of poll responses, one per
/// poll in order. However the relay answers, no more than
/// `timeout / interval` polls happen: the wait finalizes on the first poll
/// that reports the bundle finalized, and otherwise times out exactly at
/// the poll budget. The result carries the verdict and the index of the
/// last poll examined (the budget itself on a timeout).
pub fn run_confirmation(
    responses: &Vec<GetBundleStatusesResult>,
    timeout_secs: u64,
    interval_secs: u64,
) -> (r: (PollStep, u64))
    requires
        interval_secs > 0,
        responses@.len() >= timeout_secs / interval_secs,
    ensures
        ({
            let max = timeout_secs / interval_secs;
            &&& r.1 <= max
            &&& !(r.0 is KeepWaiting)
            &&& (r.0 is Finalized <==> exists|j: int|
                0 <= j < max && spec_poll_finalized(#[trigger] responses@[j].value@))
            &&& (r.0 is TimedOut <==> forall|j: int|
                0 <= j < max ==> !spec_poll_finalized(#[trigger] responses@[j].value@))
            &&& (r.0 is TimedOut ==> r.1 == max)
            &&& (r.0 is Finalized ==> r.1 < max && spec_poll_finalized(responses@[r.1 as int].value@))
        }),
{
    let ghost max = timeout_secs / interval_secs;
    let mut m = BundleConfirmation::new(timeout_secs, interval_secs);
    let n = responses.len();
    let mut i: usize = 0;
    while m.polls_done < m.max_polls
        invariant
            max == timeout_secs / interval_secs,
            m.wf(),
            m.max_polls == max,
            i == m.polls_done,
            responses@.len() == n,
            n >= max,
            forall|j: int|
                0 <= j < m.polls_done ==> !spec_poll_finalized(#[trigger] responses@[j].value@),
        decreases m.max_polls - m.polls_done,
    {
        let step = m.on_poll(&responses[i]);
        match step {
            PollStep::Finalized => {
                proof {
                    assert(spec_poll_finalized(responses@[i as int].value@));
                }
                return (PollStep::Finalized, i as u64);
            },
            PollStep::KeepWaiting => {
                proof {
                    assert(!spec_poll_finalized(responses@[i as int].value@));
                }
                i = i + 1;
            },
            PollStep::TimedOut => {
                proof {
                    assert(!spec_poll_finalized(responses@[i as int].value@));
                    assert(forall|j: int|
                        0 <= j < max ==> !spec_poll_finalized(#[trigger] responses@[j].value@));
                }
                return (PollStep::TimedOut, m.polls_done);
            },
        }
    }
    (PollStep::TimedOut, m.polls_done)
}

} // verus!
