//! The submit/poll state machine and the classification of transport
//! outcomes into terminal results and errors.
//!
//! Every decision the protocol takes is a function of the transport
//! outcome alone; the embedding application performs the network call
//! and feeds the outcome back in.

use vstd::prelude::*;

use crate::msg::is_success_message;
use crate::msg::message_is_success;
use crate::msg::message_signals_error;
use crate::msg::signals_error;
use crate::types::BananaError;
use crate::types::BananaResponse;
use crate::types::ProtocolViolation;
use crate::types::TransportOutcome;

verus! {

/// State of one submit-and-wait run.
#[derive(Debug, PartialEq)]
pub enum RunState {
    /// Nothing sent yet; the next action is the submission call.
    Submitting,
    /// The job was accepted and is running; the next action is a status
    /// check with the stored handle.
    Polling(String),
    /// Terminal: the job finished with this result.
    Done(BananaResponse),
    /// Terminal: the run failed with this error.
    Failed(BananaError),
}

/// The network call a run state asks the transport to perform next.
#[derive(Debug, PartialEq)]
pub enum RunAction {
    /// Send the submission request.
    Submit,
    /// Send a status check for the job with this handle.
    Check(String),
    /// The run is terminal; no further call is made.
    Stop,
}

/// How one transport outcome is classified, shared by the submission
/// and the status-check path: transport failures map to their error
/// kind, a decoded response whose message signals an error becomes
/// [`BananaError::ModelError`], and any other decoded response is
/// handed on.
pub open spec fn spec_classify(out: TransportOutcome) -> Result<BananaResponse, BananaError> {
    match out {
        TransportOutcome::ConnectionFailure(reason) => Err(BananaError::ConnectionError(reason)),
        TransportOutcome::BadStatus(code) => Err(BananaError::ServerError(code)),
        TransportOutcome::DecodeFailure(reason) => Err(BananaError::JsonError(reason)),
        TransportOutcome::Response(res) => if signals_error(res.message@) {
            Err(BananaError::ModelError(res.message))
        } else {
            Ok(res)
        },
    }
}

/// Classifies the outcome of one transport call.
pub fn classify_response(out: TransportOutcome) -> (r: Result<BananaResponse, BananaError>)
    ensures
        r == spec_classify(out),
{
    match out {
        TransportOutcome::ConnectionFailure(reason) => Err(BananaError::ConnectionError(reason)),
        TransportOutcome::BadStatus(code) => Err(BananaError::ServerError(code)),
        TransportOutcome::DecodeFailure(reason) => Err(BananaError::JsonError(reason)),
        TransportOutcome::Response(res) => {
            if message_signals_error(res.message.as_str()) {
                Err(BananaError::ModelError(res.message))
            } else {
                Ok(res)
            }
        },
    }
}

/// Where a run stands after the submission call: a transport or model
/// error fails the run; a missing `finished` field or a missing handle
/// on an unfinished job is a protocol violation; `finished = true` is
/// done with that exact result; otherwise the run polls the handle.
pub open spec fn spec_after_submit(out: TransportOutcome) -> RunState {
    match spec_classify(out) {
        Err(e) => RunState::Failed(e),
        Ok(res) => match res.finished {
            None => RunState::Failed(
                BananaError::ResponseError(ProtocolViolation::FinishedMissing),
            ),
            Some(done) => if done {
                RunState::Done(res)
            } else {
                match res.call_i_d {
                    Some(handle) => RunState::Polling(handle),
                    None => RunState::Failed(
                        BananaError::ResponseError(ProtocolViolation::HandleMissing),
                    ),
                }
            },
        },
    }
}

/// Advances a run past its submission call.
pub fn after_submit(out: TransportOutcome) -> (st: RunState)
    ensures
        st == spec_after_submit(out),
{
    match classify_response(out) {
        Err(e) => RunState::Failed(e),
        Ok(res) => match res.finished {
            None => RunState::Failed(
                BananaError::ResponseError(ProtocolViolation::FinishedMissing),
            ),
            Some(done) => if done {
                RunState::Done(res)
            } else {
                match res.call_i_d {
                    Some(handle) => RunState::Polling(handle),
                    None => RunState::Failed(
                        BananaError::ResponseError(ProtocolViolation::HandleMissing),
                    ),
                }
            },
        },
    }
}

/// Where a poll on `handle` stands after one status check: a transport
/// or model error fails the run, a terminal-success message is done
/// with that exact result, and anything else keeps polling the same
/// handle.
pub open spec fn spec_after_check(handle: String, out: TransportOutcome) -> RunState {
    match spec_classify(out) {
        Err(e) => RunState::Failed(e),
        Ok(res) => if is_success_message(res.message@) {
            RunState::Done(res)
        } else {
            RunState::Polling(handle)
        },
    }
}

/// Advances a poll on `handle` past one status check.
pub fn after_check(handle: String, out: TransportOutcome) -> (st: RunState)
    ensures
        st == spec_after_check(handle, out),
{
    match classify_response(out) {
        Err(e) => RunState::Failed(e),
        Ok(res) => {
            if message_is_success(res.message.as_str()) {
                RunState::Done(res)
            } else {
                RunState::Polling(handle)
            }
        },
    }
}

/// The next network call a run state asks for: submitting submits, a
/// polling state checks its handle, a terminal state stops.
pub open spec fn spec_next_action(st: RunState) -> RunAction {
    match st {
        RunState::Submitting => RunAction::Submit,
        RunState::Polling(handle) => RunAction::Check(handle),
        RunState::Done(_) => RunAction::Stop,
        RunState::Failed(_) => RunAction::Stop,
    }
}

/// The next network call a run state asks for.
pub fn next_action(st: &RunState) -> (a: RunAction)
    ensures
        a == spec_next_action(*st),
{
    match st {
        RunState::Submitting => RunAction::Submit,
        RunState::Polling(handle) => RunAction::Check(handle.clone()),
        RunState::Done(_) => RunAction::Stop,
        RunState::Failed(_) => RunAction::Stop,
    }
}

/// Where a run stands after consuming check outcomes from `outs` one by
/// one: each outcome advances a polling state, a terminal state absorbs
/// the rest, and a run still polling when the outcomes end stays in its
/// polling state.
pub open spec fn spec_run_trace(st: RunState, outs: Seq<TransportOutcome>) -> RunState
    decreases outs.len(),
{
    match st {
        RunState::Polling(handle) => if outs.len() == 0 {
            RunState::Polling(handle)
        } else {
            spec_run_trace(spec_after_check(handle, outs[0]), outs.subrange(1, outs.len() as int))
        },
        _ => st,
    }
}

/// Runs the whole submit-and-wait state machine over a submission
/// outcome and a finite sequence of status-check outcomes, consuming
/// checks in order only while the run is still polling.
pub fn drive(submit: TransportOutcome, checks: Vec<TransportOutcome>) -> (st: RunState)
    ensures
        st == spec_run_trace(spec_after_submit(submit), checks@),
{
    let ghost all_checks: Seq<TransportOutcome> = checks@;
    let ghost start_state: RunState = spec_after_submit(submit);
    let mut st = after_submit(submit);
    let mut rest = checks;
    loop
        invariant
            all_checks == checks@,
            start_state == spec_after_submit(submit),
            spec_run_trace(st, rest@) == spec_run_trace(start_state, all_checks),
        decreases rest.len(),
    {
        match st {
            RunState::Polling(handle) => {
                if rest.len() == 0 {
                    return RunState::Polling(handle);
                }
                let ghost before: Seq<TransportOutcome> = rest@;
                let out = rest.remove(0);
                proof {
                    assert(before.remove(0) =~= before.subrange(1, before.len() as int));
                }
                st = after_check(handle, out);
            },
            other => {
                return other;
            },
        }
    }
}

/// What a submit-only call returns: the submission outcome is
/// classified as usual, and a successful response must carry a job
/// handle, which is returned alone; a response without one is a
/// protocol violation.
pub open spec fn spec_start_outcome(out: TransportOutcome) -> Result<String, BananaError> {
    match spec_classify(out) {
        Err(e) => Err(e),
        Ok(res) => match res.call_i_d {
            Some(handle) => Ok(handle),
            None => Err(BananaError::ResponseError(ProtocolViolation::HandleMissing)),
        },
    }
}

/// Interprets the submission outcome of a submit-only call, returning
/// just the job handle.
pub fn start_outcome(out: TransportOutcome) -> (r: Result<String, BananaError>)
    ensures
        r == spec_start_outcome(out),
{
    match classify_response(out) {
        Err(e) => Err(e),
        Ok(res) => match res.call_i_d {
            Some(handle) => Ok(handle),
            None => Err(BananaError::ResponseError(ProtocolViolation::HandleMissing)),
        },
    }
}

/// A terminal state is final: once a run is done or failed — or not
/// yet polling at all — no sequence of further check outcomes changes
/// it, and it asks for no check call.
pub proof fn lemma_terminal_states_absorb(st: RunState, outs: Seq<TransportOutcome>)
    requires
        !(st is Polling),
    ensures
        spec_run_trace(st, outs) == st,
        !(spec_next_action(st) is Check),
{
}

/// A submission whose response reports `finished = true` (and whose
/// message does not signal an error) is done at once with that exact
/// result: no sequence of later check outcomes changes it, and the run
/// asks for no further call.
pub proof fn lemma_finished_submission_needs_no_check(
    res: BananaResponse,
    checks: Seq<TransportOutcome>,
)
    requires
        !signals_error(res.message@),
        res.finished == Some(true),
    ensures
        spec_after_submit(TransportOutcome::Response(res)) == RunState::Done(res),
        spec_run_trace(RunState::Done(res), checks) == RunState::Done(res),
        spec_next_action(RunState::Done(res)) == RunAction::Stop,
{
}

/// A submission whose response reports `finished = false` and carries a
/// handle (and whose message does not signal an error) enters polling
/// on exactly that handle, and the run's next action is a status check
/// with exactly that handle.
pub proof fn lemma_running_submission_polls_the_handle(res: BananaResponse, handle: String)
    requires
        !signals_error(res.message@),
        res.finished == Some(false),
        res.call_i_d == Some(handle),
    ensures
        spec_after_submit(TransportOutcome::Response(res)) == RunState::Polling(handle),
        spec_next_action(RunState::Polling(handle)) == RunAction::Check(handle),
{
}

/// A check response whose message case-insensitively equals "success"
/// terminates the poll: the run is done with that exact result, and no
/// later check outcome changes it.
pub proof fn lemma_success_check_terminates(
    handle: String,
    res: BananaResponse,
    later: Seq<TransportOutcome>,
)
    requires
        is_success_message(res.message@),
    ensures
        spec_after_check(handle, TransportOutcome::Response(res)) == RunState::Done(res),
        spec_run_trace(RunState::Done(res), later) == RunState::Done(res),
{
    crate::msg::lemma_success_is_never_an_error(res.message@);
}

/// A response whose message signals an error — from the submission or
/// from a check — always classifies as `ModelError` carrying that
/// message, and never as a successful result.
pub proof fn lemma_error_message_never_succeeds(handle: String, res: BananaResponse)
    requires
        signals_error(res.message@),
    ensures
        spec_classify(TransportOutcome::Response(res)) == Err::<BananaResponse, BananaError>(
            BananaError::ModelError(res.message),
        ),
        spec_after_submit(TransportOutcome::Response(res)) == RunState::Failed(
            BananaError::ModelError(res.message),
        ),
        spec_after_check(handle, TransportOutcome::Response(res)) == RunState::Failed(
            BananaError::ModelError(res.message),
        ),
        spec_start_outcome(TransportOutcome::Response(res)) == Err::<String, BananaError>(
            BananaError::ModelError(res.message),
        ),
{
}

/// A submission response without a `finished` field is a protocol
/// violation: the run fails, and is never treated as either complete or
/// incomplete.
pub proof fn lemma_missing_finished_is_rejected(res: BananaResponse)
    requires
        !signals_error(res.message@),
        res.finished is None,
    ensures
        spec_after_submit(TransportOutcome::Response(res)) == RunState::Failed(
            BananaError::ResponseError(ProtocolViolation::FinishedMissing),
        ),
{
}

/// A submit-only call on a response lacking a handle is a protocol
/// violation; on a response with a handle (and a message that does not
/// signal an error) it returns exactly that handle.
pub proof fn lemma_start_returns_exactly_the_handle(res: BananaResponse, handle: String)
    requires
        !signals_error(res.message@),
    ensures
        res.call_i_d is None ==> spec_start_outcome(TransportOutcome::Response(res)) == Err::<
            String,
            BananaError,
        >(BananaError::ResponseError(ProtocolViolation::HandleMissing)),
        res.call_i_d == Some(handle) ==> spec_start_outcome(TransportOutcome::Response(res))
            == Ok::<String, BananaError>(handle),
{
}

/// A status check is stateless: a decoded response that is neither
/// terminal-success nor an error leaves the run polling exactly the
/// handle it already had, so repeating the same check on a
/// still-running job changes nothing.
pub proof fn lemma_check_on_running_job_is_stateless(handle: String, res: BananaResponse)
    requires
        !signals_error(res.message@),
        !is_success_message(res.message@),
    ensures
        spec_after_check(handle, TransportOutcome::Response(res)) == RunState::Polling(handle),
        spec_next_action(RunState::Polling(handle)) == RunAction::Check(handle),
{
}

} // verus!
