//! The reasoning-step operation: each step is checked on its own, and a bad
//! step is answered, not refused.

use vstd::prelude::*;
use crate::requests::ThoughtData;

verus! {

/// The answer to one reasoning step.
#[derive(Debug)]
pub struct ThoughtResponse {
    pub session_id: String,
    pub thought_number: usize,
    pub total_thoughts: usize,
    pub next_thought_needed: bool,
    pub error: Option<String>,
    pub status: Option<String>,
}

/// What is wrong with a step, checked in this order, if anything is.
pub open spec fn thought_problem(t: ThoughtData) -> Option<Seq<char>> {
    step_problem(t.session_id@, t.thought@, t.thought_number as int, t.total_thoughts as int)
}

/// What is wrong with a step of this session, thought, number and total.
pub open spec fn step_problem(session: Seq<char>, thought: Seq<char>, number: int, total: int) -> Option<
    Seq<char>,
> {
    if session.len() == 0 {
        Some("Invalid sessionId: must be provided"@)
    } else if thought.len() == 0 {
        Some("Invalid thought: must be a string"@)
    } else if number == 0 {
        Some("Invalid thoughtNumber: must be a number greater than 0"@)
    } else if total == 0 {
        Some("Invalid totalThoughts: must be a number greater than 0"@)
    } else {
        None
    }
}

/// Checks a step: a session, a thought, and positive step numbers.
pub fn validate_thought_data(input_data: &ThoughtData) -> (r: Result<(), String>)
    ensures
        match thought_problem(*input_data) {
            Some(m) => r matches Err(e) && e@ == m,
            None => r is Ok,
        },
{
    if input_data.session_id.as_str().is_empty() {
        return Err("Invalid sessionId: must be provided".to_owned());
    }
    if input_data.thought.as_str().is_empty() {
        return Err("Invalid thought: must be a string".to_owned());
    }
    if input_data.thought_number == 0 {
        return Err("Invalid thoughtNumber: must be a number greater than 0".to_owned());
    }
    if input_data.total_thoughts == 0 {
        return Err("Invalid totalThoughts: must be a number greater than 0".to_owned());
    }
    Ok(())
}

/// Answers a step. A valid step comes back with its total raised to its
/// number where the number is larger; an invalid one comes back marked
/// `failed` with the reason, its numbers as they were given.
pub fn process_thought(input_data: ThoughtData) -> (r: ThoughtResponse)
    ensures
        r.session_id == input_data.session_id,
        r.thought_number == input_data.thought_number,
        r.next_thought_needed == input_data.next_thought_needed,
        match thought_problem(input_data) {
            Some(m) => {
                &&& r.total_thoughts == input_data.total_thoughts
                &&& r.error matches Some(e) && e@ == m
                &&& r.status matches Some(s) && s@ == "failed"@
            },
            None => {
                &&& r.total_thoughts == if input_data.thought_number > input_data.total_thoughts {
                    input_data.thought_number
                } else {
                    input_data.total_thoughts
                }
                &&& r.error is None
                &&& r.status is None
            },
        },
        input_data.thought_number == 0 || input_data.total_thoughts == 0 ==> {
            &&& r.status matches Some(s) && s@ == "failed"@
            &&& r.error matches Some(e) && e@.len() > 0
            &&& r.total_thoughts == input_data.total_thoughts
        },
        thought_problem(input_data) is None && input_data.thought_number > input_data.total_thoughts
            ==> r.total_thoughts == input_data.thought_number,
{
    proof {
        reveal_strlit("Invalid sessionId: must be provided");
        reveal_strlit("Invalid thought: must be a string");
        reveal_strlit("Invalid thoughtNumber: must be a number greater than 0");
        reveal_strlit("Invalid totalThoughts: must be a number greater than 0");
    }
    match validate_thought_data(&input_data) {
        Ok(()) => {
            let total_thoughts = if input_data.thought_number > input_data.total_thoughts {
                input_data.thought_number
            } else {
                input_data.total_thoughts
            };
            ThoughtResponse {
                session_id: input_data.session_id,
                thought_number: input_data.thought_number,
                total_thoughts,
                next_thought_needed: input_data.next_thought_needed,
                error: None,
                status: None,
            }
        },
        Err(e) => ThoughtResponse {
            session_id: input_data.session_id,
            thought_number: input_data.thought_number,
            total_thoughts: input_data.total_thoughts,
            next_thought_needed: input_data.next_thought_needed,
            error: Some(e),
            status: Some("failed".to_owned()),
        },
    }
}

} // verus!
