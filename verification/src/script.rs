//! A list of driver calls that is made in order and stops at the first failure.
use vstd::prelude::*;
use crate::error::{DriverCall, Error};
use crate::native::NativeCall;

verus! {

/// Where a script stands.
#[derive(Clone, Copy, Debug, PartialEq, Eq, Structural)]
pub enum Progress {
    /// This call is to be made next.
    Call(NativeCall),
    /// Every call was made, and none failed.
    Done,
    /// A call failed. No call is made after it.
    Failed(Error),
}

/// What a script stands for: its calls, how many of them were made with success, and the
/// failure that stopped it.
pub struct ScriptModel {
    pub calls: Seq<NativeCall>,
    pub position: nat,
    pub failure: Option<Error>,
}

/// A script that has not begun.
pub open spec fn fresh(calls: Seq<NativeCall>) -> ScriptModel {
    ScriptModel { calls, position: 0, failure: None }
}

/// Where the script stands: at its failure, at its next call, or at its end.
pub open spec fn progress(script: ScriptModel) -> Progress {
    match script.failure {
        Some(error) => Progress::Failed(error),
        None => if script.position < script.calls.len() {
            Progress::Call(script.calls[script.position as int])
        } else {
            Progress::Done
        },
    }
}

/// The script after the driver's answer to its next call. A status other than success,
/// from a call that reports one, stops the script at that call. A script that has ended
/// stays as it is.
pub open spec fn after_reply(script: ScriptModel, status: Result<(), i32>) -> ScriptModel {
    match progress(script) {
        Progress::Call(call) => match (status, call.status_of()) {
            (Err(code), Some(entry)) => ScriptModel {
                failure: Some(Error::DriverCallFailed { call: entry, code }),
                ..script
            },
            _ => ScriptModel { position: script.position + 1, ..script },
        },
        _ => script,
    }
}

/// The script after a row of answers, the first of them to its next call.
pub open spec fn after_replies(script: ScriptModel, statuses: Seq<Result<(), i32>>) -> ScriptModel
    decreases statuses.len(),
{
    if statuses.len() == 0 {
        script
    } else {
        after_replies(after_reply(script, statuses[0]), statuses.drop_first())
    }
}

/// A list of driver calls, and how far the caller has come with it.
#[derive(Debug)]
pub struct Script {
    calls: Vec<NativeCall>,
    position: usize,
    failure: Option<Error>,
}

impl View for Script {
    type V = ScriptModel;

    closed spec fn view(&self) -> ScriptModel {
        ScriptModel { calls: self.calls@, position: self.position as nat, failure: self.failure }
    }
}

impl Script {
    #[verifier::type_invariant]
    spec fn within_calls(self) -> bool {
        self.position <= self.calls@.len()
    }

    pub fn new(calls: Vec<NativeCall>) -> (script: Script)
        ensures
            script@ == fresh(calls@),
    {
        Script { calls, position: 0, failure: None }
    }

    /// What the caller does next.
    pub fn next(&self) -> (next: Progress)
        ensures
            self@.position <= self@.calls.len(),
            next == progress(self@),
    {
        proof {
            use_type_invariant(self);
        }
        match self.failure {
            Some(error) => Progress::Failed(error),
            None => if self.position < self.calls.len() {
                Progress::Call(self.calls[self.position])
            } else {
                Progress::Done
            },
        }
    }

    /// Takes the driver's answer to the call that `next` gave.
    pub fn reply(&mut self, status: Result<(), i32>)
        ensures
            final(self)@ == after_reply(old(self)@, status),
    {
        proof {
            use_type_invariant(&*self);
        }
        if self.failure.is_none() && self.position < self.calls.len() {
            let entry = self.calls[self.position].status_call();
            match (status, entry) {
                (Err(code), Some(call)) => {
                    self.failure = Some(Error::DriverCallFailed { call, code });
                },
                _ => {
                    self.position = self.position + 1;
                },
            }
        }
    }

    /// The calls of the script, made or not.
    pub fn calls(&self) -> (calls: &Vec<NativeCall>)
        ensures
            calls@ == self@.calls,
    {
        &self.calls
    }
}

/// Answers change neither the calls of a script nor their order, each answer moves the
/// script on by one call at most, and none moves it past its last call.
pub proof fn lemma_replies_are_counted(script: ScriptModel, statuses: Seq<Result<(), i32>>)
    ensures
        after_replies(script, statuses).calls == script.calls,
        script.position <= after_replies(script, statuses).position <= script.position + statuses.len(),
        script.position <= script.calls.len() ==> after_replies(script, statuses).position <= script.calls.len(),
    decreases statuses.len(),
{
    if statuses.len() > 0 {
        lemma_replies_are_counted(after_reply(script, statuses[0]), statuses.drop_first());
    }
}

/// A script ends with success only when every one of its calls was answered, the last
/// call among them.
pub proof fn lemma_done_after_every_call(calls: Seq<NativeCall>, statuses: Seq<Result<(), i32>>)
    requires
        progress(after_replies(fresh(calls), statuses)) == Progress::Done,
    ensures
        statuses.len() >= calls.len(),
        after_replies(fresh(calls), statuses).position == calls.len(),
        after_replies(fresh(calls), statuses).failure is None,
{
    lemma_replies_are_counted(fresh(calls), statuses);
}

/// A script that has failed stays failed, at the same call and with the same error,
/// whatever is answered afterwards: no call is tried again.
pub proof fn lemma_failure_is_final(script: ScriptModel, statuses: Seq<Result<(), i32>>)
    requires
        script.failure is Some,
    ensures
        after_replies(script, statuses) == script,
    decreases statuses.len(),
{
    if statuses.len() > 0 {
        lemma_failure_is_final(script, statuses.drop_first());
    }
}

/// A script whose every call is answered with success ends, with every call made.
pub proof fn lemma_success_reaches_the_end(script: ScriptModel, statuses: Seq<Result<(), i32>>)
    requires
        script.failure is None,
        script.position <= script.calls.len(),
        statuses.len() == script.calls.len() - script.position,
        forall|i: int| 0 <= i < statuses.len() ==> (#[trigger] statuses[i]) is Ok,
    ensures
        after_replies(script, statuses) == (ScriptModel { position: script.calls.len(), ..script }),
        progress(after_replies(script, statuses)) == Progress::Done,
    decreases statuses.len(),
{
    if statuses.len() > 0 {
        lemma_success_reaches_the_end(after_reply(script, statuses[0]), statuses.drop_first());
    }
}

/// A script stops at the first call that reports a failure: the calls before it were
/// made, the error names that call and carries its status, and nothing after it is made.
pub proof fn lemma_first_failure_stops(
    script: ScriptModel,
    statuses: Seq<Result<(), i32>>,
    failed: int,
    entry: DriverCall,
    code: i32,
)
    requires
        script.failure is None,
        0 <= failed < statuses.len(),
        script.position + failed < script.calls.len(),
        forall|i: int| 0 <= i < failed ==> (#[trigger] statuses[i]) is Ok,
        statuses[failed] == Err::<(), i32>(code),
        script.calls[script.position + failed].status_of() == Some(entry),
    ensures
        after_replies(script, statuses) == (ScriptModel {
            position: (script.position + failed) as nat,
            failure: Some(Error::DriverCallFailed { call: entry, code }),
            ..script
        }),
    decreases statuses.len(),
{
    let rest = statuses.drop_first();
    let next = after_reply(script, statuses[0]);
    if failed == 0 {
        lemma_failure_is_final(next, rest);
    } else {
        lemma_first_failure_stops(next, rest, failed - 1, entry, code);
    }
}

} // verus!
