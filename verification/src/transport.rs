//! The packet-exchange state machine: correlation, bounded retries, and the
//! mandatory inter-command rate limit.
//!
//! The machine owns no I/O. The unverified shell writes the request bytes as
//! a feature report, sleeps the short firmware delay, reads a report back,
//! and hands what it got to [`ReportExchange::on_attempt`]; when the machine
//! reaches the rate-limit state the shell sleeps the inter-command delay and
//! acknowledges it through [`ReportExchange::delay_elapsed`]. Every path to
//! the final state passes through the rate-limit state exactly once, so the
//! delay is observed whatever the outcome.

use vstd::prelude::*;
use crate::packet::{
    PacketModel,
    RazerPacket,
    PACKET_LEN,
    RAZER_CMD_NOT_SUPPORTED,
    RAZER_CMD_SUCCESSFUL,
};
use crate::device::BHO_QUERY_COMMAND_ID;

verus! {

/// Total send attempts allowed per exchange.
pub const MAX_ATTEMPTS: u8 = 3;

/// Microseconds the shell sleeps between writing a request and reading the
/// response, to let the firmware process the command.
pub const FIRMWARE_PROCESS_DELAY_US: u64 = 1000;

/// Microseconds the shell sleeps after every exchange, whatever its outcome:
/// a hard rate limit the firmware demands, not an optimization.
pub const INTER_COMMAND_DELAY_US: u64 = 8000;

/// How one received response relates to the outstanding request.
#[derive(Clone, Copy, PartialEq, Eq, Structural, Debug)]
pub enum Verdict {
    /// The response answers the request: correlated and successful, or the
    /// out-of-band battery-health answer.
    Accept,
    /// The firmware refuses the command; retrying cannot help.
    Unsupported,
    /// Correlation mismatch or a non-success status: try again.
    Retry,
}

/// The verdict a response earns. The battery-health query is answered under
/// its own well-known command id whatever was sent, so that id is accepted
/// before correlation; a refusal stops the retry loop; a response whose
/// class, id or remaining-packet count does not match the request, or whose
/// status is not success, earns another attempt.
pub open spec fn spec_verdict(req: PacketModel, resp: PacketModel) -> Verdict {
    if resp.command_id == BHO_QUERY_COMMAND_ID {
        Verdict::Accept
    } else if resp.status == RAZER_CMD_NOT_SUPPORTED {
        Verdict::Unsupported
    } else if resp.remaining_packets != req.remaining_packets || resp.command_class
        != req.command_class || resp.command_id != req.command_id {
        Verdict::Retry
    } else if resp.status == RAZER_CMD_SUCCESSFUL {
        Verdict::Accept
    } else {
        Verdict::Retry
    }
}

/// Classify one received response against the outstanding request.
pub fn correlate(request: &RazerPacket, response: &RazerPacket) -> (r: Verdict)
    ensures
        r == spec_verdict(request@, response@),
{
    if response.command_id == BHO_QUERY_COMMAND_ID {
        Verdict::Accept
    } else if response.status == RAZER_CMD_NOT_SUPPORTED {
        Verdict::Unsupported
    } else if response.remaining_packets != request.remaining_packets || response.command_class
        != request.command_class || response.command_id != request.command_id {
        Verdict::Retry
    } else if response.status == RAZER_CMD_SUCCESSFUL {
        Verdict::Accept
    } else {
        Verdict::Retry
    }
}

/// Where an exchange stands.
#[derive(Clone, Copy, PartialEq, Eq, Structural, Debug)]
pub enum ExchangeState {
    /// A send-and-read attempt is owed.
    Exchanging,
    /// The outcome is decided; the inter-command delay is owed.
    RateLimit,
    /// Delay observed; the outcome may be taken.
    Done,
}

/// What an exchange ended with.
#[derive(Debug)]
pub enum ExchangeOutcome {
    /// An accepted response.
    Accepted(RazerPacket),
    /// The firmware refused the command.
    Unsupported,
    /// No attempt within the retry budget was accepted.
    TimedOut,
}

/// Model-level outcome, with `Pending` for an exchange still running.
pub ghost enum SpecOutcome {
    Pending,
    Accepted(PacketModel),
    Unsupported,
    TimedOut,
}

/// Mathematical model of one exchange.
#[verifier::ext_equal]
pub ghost struct ExchangeModel {
    pub request: PacketModel,
    pub attempt: int,
    pub state: ExchangeState,
    pub outcome: SpecOutcome,
}

impl ExchangeModel {
    pub open spec fn wf(self) -> bool {
        &&& 0 <= self.attempt <= MAX_ATTEMPTS
        &&& (self.state is Exchanging ==> self.outcome is Pending && self.attempt < MAX_ATTEMPTS)
        &&& (!(self.state is Exchanging) ==> !(self.outcome is Pending))
    }
}

/// What one attempt's event earns. The shell hands `None` when the write or
/// the read failed, and the raw bytes read otherwise; a buffer of the wrong
/// length earns another attempt, anything else goes by [`spec_verdict`].
pub open spec fn spec_attempt_verdict(req: PacketModel, ev: Option<Seq<u8>>) -> Verdict {
    match ev {
        None => Verdict::Retry,
        Some(bytes) => if bytes.len() != PACKET_LEN {
            Verdict::Retry
        } else {
            spec_verdict(req, PacketModel::decoded(bytes))
        },
    }
}

/// The machine after one attempt: an accepted response or a refusal decides
/// the outcome at once; a retry verdict decides a timeout only when it spends
/// the last attempt. Every decided exchange enters the rate-limit state, and
/// only [`ReportExchange::delay_elapsed`] leaves it.
pub open spec fn spec_step(m: ExchangeModel, ev: Option<Seq<u8>>) -> ExchangeModel {
    match spec_attempt_verdict(m.request, ev) {
        Verdict::Accept => ExchangeModel {
            attempt: m.attempt + 1,
            state: ExchangeState::RateLimit,
            outcome: SpecOutcome::Accepted(PacketModel::decoded(ev->Some_0)),
            ..m
        },
        Verdict::Unsupported => ExchangeModel {
            attempt: m.attempt + 1,
            state: ExchangeState::RateLimit,
            outcome: SpecOutcome::Unsupported,
            ..m
        },
        Verdict::Retry => if m.attempt + 1 >= MAX_ATTEMPTS {
            ExchangeModel {
                attempt: m.attempt + 1,
                state: ExchangeState::RateLimit,
                outcome: SpecOutcome::TimedOut,
                ..m
            }
        } else {
            ExchangeModel { attempt: m.attempt + 1, ..m }
        },
    }
}

/// One request/response exchange with the device.
pub struct ReportExchange {
    pub request: RazerPacket,
    pub attempt: u8,
    pub state: ExchangeState,
    pub outcome: Option<ExchangeOutcome>,
}

impl View for ReportExchange {
    type V = ExchangeModel;

    open spec fn view(&self) -> ExchangeModel {
        ExchangeModel {
            request: self.request@,
            attempt: self.attempt as int,
            state: self.state,
            outcome: match self.outcome {
                None => SpecOutcome::Pending,
                Some(ExchangeOutcome::Accepted(p)) => SpecOutcome::Accepted(p@),
                Some(ExchangeOutcome::Unsupported) => SpecOutcome::Unsupported,
                Some(ExchangeOutcome::TimedOut) => SpecOutcome::TimedOut,
            },
        }
    }
}

impl ReportExchange {
    /// Start an exchange: stamp the request's checksum and owe the first
    /// attempt.
    pub fn begin(request: RazerPacket) -> (r: ReportExchange)
        requires
            request@.wf(),
        ensures
            r@ == (ExchangeModel {
                request: request@.with_crc(),
                attempt: 0,
                state: ExchangeState::Exchanging,
                outcome: SpecOutcome::Pending,
            }),
            r@.wf(),
            r@.request.wf(),
    {
        let mut request = request;
        let _ = request.calc_crc();
        ReportExchange { request, attempt: 0, state: ExchangeState::Exchanging, outcome: None }
    }

    /// The bytes the shell must write as a feature report for each attempt.
    pub fn request_bytes(&self) -> (buf: Vec<u8>)
        requires
            self@.request.wf(),
        ensures
            buf@ == self@.request.wire_bytes(),
            buf@.len() == PACKET_LEN,
    {
        self.request.encode()
    }

    /// Feed one attempt's result: `None` when the write or read failed, the
    /// raw bytes read otherwise.
    pub fn on_attempt(&mut self, response: Option<Vec<u8>>)
        requires
            old(self)@.wf(),
            old(self)@.state is Exchanging,
        ensures
            final(self)@ == spec_step(
                old(self)@,
                match response {
                    Some(b) => Some(b@),
                    None => None,
                },
            ),
            final(self)@.wf(),
    {
        self.attempt = self.attempt + 1;
        let decided: Option<ExchangeOutcome> = match response {
            Some(bytes) => {
                match RazerPacket::decode(&bytes) {
                    Some(resp) => {
                        match correlate(&self.request, &resp) {
                            Verdict::Accept => Some(ExchangeOutcome::Accepted(resp)),
                            Verdict::Unsupported => Some(ExchangeOutcome::Unsupported),
                            Verdict::Retry => None,
                        }
                    },
                    None => None,
                }
            },
            None => None,
        };
        match decided {
            Some(outcome) => {
                self.state = ExchangeState::RateLimit;
                self.outcome = Some(outcome);
            },
            None => {
                if self.attempt >= MAX_ATTEMPTS {
                    self.state = ExchangeState::RateLimit;
                    self.outcome = Some(ExchangeOutcome::TimedOut);
                }
            },
        }
    }

    /// Acknowledge the mandatory inter-command delay. This is the only way
    /// into the final state, so the delay is observed exactly once per
    /// exchange, whatever the outcome.
    pub fn delay_elapsed(&mut self)
        requires
            old(self)@.wf(),
            old(self)@.state is RateLimit,
        ensures
            final(self)@ == (ExchangeModel { state: ExchangeState::Done, ..old(self)@ }),
            final(self)@.wf(),
    {
        self.state = ExchangeState::Done;
    }

    /// Take the outcome of a finished exchange, as the callers see it: the
    /// accepted response, or nothing on a refusal or a timeout.
    pub fn into_result(self) -> (r: Option<RazerPacket>)
        requires
            self@.state is Done,
            self@.wf(),
        ensures
            r matches Some(p) ==> self@.outcome == SpecOutcome::Accepted(p@),
            r is None <==> !(self@.outcome is Accepted),
    {
        match self.outcome {
            Some(ExchangeOutcome::Accepted(p)) => Some(p),
            _ => None,
        }
    }
}

/// An attempt never finishes the exchange on its own: whatever it decides,
/// the machine stops in the rate-limit state, and only acknowledging the
/// delay reaches the final state. Together with the contracts of
/// [`ReportExchange::on_attempt`] and [`ReportExchange::delay_elapsed`] this
/// says that exactly one inter-command delay is observed per exchange,
/// whatever its outcome.
pub proof fn lemma_one_delay_per_exchange(m: ExchangeModel, ev: Option<Seq<u8>>)
    requires
        m.state is Exchanging,
    ensures
        !(spec_step(m, ev).state is Done),
{
}

/// Retry policy, successful case: when the first two attempts earn a retry
/// verdict and the third is accepted, the exchange ends with that third
/// response, after all three attempts.
pub proof fn lemma_third_attempt_accepted(
    m: ExchangeModel,
    e1: Option<Seq<u8>>,
    e2: Option<Seq<u8>>,
    e3: Option<Seq<u8>>,
)
    requires
        m.wf(),
        m.state is Exchanging,
        m.attempt == 0,
        spec_attempt_verdict(m.request, e1) is Retry,
        spec_attempt_verdict(m.request, e2) is Retry,
        spec_attempt_verdict(m.request, e3) is Accept,
    ensures
        ({
            let end = spec_step(spec_step(spec_step(m, e1), e2), e3);
            &&& end.state is RateLimit
            &&& end.outcome == SpecOutcome::Accepted(PacketModel::decoded(e3->Some_0))
            &&& end.attempt == MAX_ATTEMPTS
        }),
{
}

/// Retry policy, failing case: when all three attempts earn a retry verdict,
/// the exchange ends with a timeout — and still owes the one inter-command
/// delay before it is final.
pub proof fn lemma_all_attempts_failed(
    m: ExchangeModel,
    e1: Option<Seq<u8>>,
    e2: Option<Seq<u8>>,
    e3: Option<Seq<u8>>,
)
    requires
        m.wf(),
        m.state is Exchanging,
        m.attempt == 0,
        spec_attempt_verdict(m.request, e1) is Retry,
        spec_attempt_verdict(m.request, e2) is Retry,
        spec_attempt_verdict(m.request, e3) is Retry,
    ensures
        ({
            let end = spec_step(spec_step(spec_step(m, e1), e2), e3);
            &&& end.state is RateLimit
            &&& end.outcome is TimedOut
            &&& end.attempt == MAX_ATTEMPTS
        }),
{
}

/// A refusal stops the retry loop at once: the exchange is decided against
/// the command on the very attempt that read the refusal.
pub proof fn lemma_unsupported_stops_retrying(m: ExchangeModel, ev: Option<Seq<u8>>)
    requires
        m.wf(),
        m.state is Exchanging,
        spec_attempt_verdict(m.request, ev) is Unsupported,
    ensures
        spec_step(m, ev).state is RateLimit,
        spec_step(m, ev).outcome is Unsupported,
{
}

} // verus!
