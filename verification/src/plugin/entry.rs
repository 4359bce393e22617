//! Driving the host's setter through the calls of a manifest.
//!
//! The setter answers each call with zero for success.  Any other answer
//! ends the registration at once: no further call is made, and the entry
//! point answers the host with `ENTRY_FAILURE`.

use vstd::prelude::*;

verus! {

/// What the entry point answers when every call succeeded.
pub const ENTRY_SUCCESS: i32 = 0;

/// What the entry point answers when the setter refused a call.
pub const ENTRY_FAILURE: i32 = -1;

/// Where a registration stands.
#[derive(Clone, Copy, Debug, PartialEq, Eq, Structural)]
pub enum EntryState {
    /// The call at this place of the plan is to be made next.
    Call(usize),
    /// The registration is over; the entry point answers with this code.
    Done(i32),
}

/// How a registration ended.
#[derive(Clone, Copy, Debug, PartialEq, Eq, Structural)]
pub struct EntryOutcome {
    /// What the entry point answers to the host.
    pub code: i32,
    /// How many calls of the plan were made, from its start.
    pub issued: usize,
}

/// The setter's answer to the call at place `i`, where `answers` holds its
/// answers in the order of the calls.  A setter that was not asked is taken
/// to accept.
pub open spec fn spec_answer(answers: Seq<i32>, i: int) -> i32 {
    if 0 <= i < answers.len() {
        answers[i]
    } else {
        0
    }
}

/// Whether the setter accepts each of the first `n` calls.
pub open spec fn spec_accepts(answers: Seq<i32>, n: int) -> bool {
    forall|j: int| 0 <= j < n ==> spec_answer(answers, j) == 0
}

/// The state in which a registration of `len` calls starts.
pub open spec fn spec_entry_start(len: nat) -> EntryState {
    if len == 0 {
        EntryState::Done(ENTRY_SUCCESS)
    } else {
        EntryState::Call(0)
    }
}

/// The state after the setter answered `answer` to the call at place `at`
/// of a plan of `len` calls.
pub open spec fn spec_entry_next(len: nat, at: nat, answer: i32) -> EntryState {
    if answer != 0 {
        EntryState::Done(ENTRY_FAILURE)
    } else if at + 1 < len {
        EntryState::Call((at + 1) as usize)
    } else {
        EntryState::Done(ENTRY_SUCCESS)
    }
}

/// The state in which the registration of a plan of `len` calls starts.
pub fn entry_start(len: usize) -> (state: EntryState)
    ensures
        state == spec_entry_start(len as nat),
{
    if len == 0 {
        EntryState::Done(ENTRY_SUCCESS)
    } else {
        EntryState::Call(0)
    }
}

/// The state after the setter answered `answer` to the call at place `at`
/// of a plan of `len` calls.
pub fn entry_next(len: usize, at: usize, answer: i32) -> (state: EntryState)
    requires
        at < len,
    ensures
        state == spec_entry_next(len as nat, at as nat, answer),
{
    if answer != 0 {
        EntryState::Done(ENTRY_FAILURE)
    } else if at + 1 < len {
        EntryState::Call(at + 1)
    } else {
        EntryState::Done(ENTRY_SUCCESS)
    }
}

/// Runs the registration of a plan of `len` calls against a setter whose
/// answers are known: `answers` holds them in the order of the calls.
///
/// The calls are made from the start of the plan, up to and including the
/// first that the setter refuses.
pub fn run_entry(len: usize, answers: &Vec<i32>) -> (outcome: EntryOutcome)
    ensures
        outcome.issued <= len,
        outcome.code == ENTRY_SUCCESS || outcome.code == ENTRY_FAILURE,
        outcome.code == ENTRY_SUCCESS ==> outcome.issued == len && spec_accepts(
            answers@,
            len as int,
        ),
        outcome.code == ENTRY_FAILURE ==> outcome.issued >= 1 && spec_accepts(
            answers@,
            outcome.issued - 1,
        ) && spec_answer(answers@, outcome.issued - 1) != 0,
{
    let mut state = entry_start(len);
    let mut issued: usize = 0;
    loop
        invariant
            issued <= len,
            state matches EntryState::Call(at) ==> at == issued && at < len && spec_accepts(
                answers@,
                at as int,
            ),
            state matches EntryState::Done(code) ==> {
                &&& code == ENTRY_SUCCESS || code == ENTRY_FAILURE
                &&& code == ENTRY_SUCCESS ==> issued == len && spec_accepts(answers@, len as int)
                &&& code == ENTRY_FAILURE ==> issued >= 1 && spec_accepts(answers@, issued - 1)
                    && spec_answer(answers@, issued - 1) != 0
            },
        decreases
                len - issued + (if state is Call {
                    1nat
                } else {
                    0nat
                }),
    {
        match state {
            EntryState::Done(code) => {
                return EntryOutcome { code, issued };
            },
            EntryState::Call(at) => {
                let answer = if at < answers.len() {
                    answers[at]
                } else {
                    0
                };
                issued = at + 1;
                state = entry_next(len, at, answer);
            },
        }
    }
}

} // verus!
