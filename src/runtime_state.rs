//! The mode a run is in: an ordinary run, a test run or a benchmark run.
use crate::text::{chars_of, lower_of, lowercase, range_is};
use vstd::prelude::*;

verus! {

/// Whether the runtime runs a module normally, its tests, or its benchmarks.
#[derive(Clone, Copy, Debug, PartialEq, Eq, Structural)]
pub enum RuntimeState {
    Default,
    Test,
    Bench,
}

/// The state that a lower-case name (a subcommand or a state's own name) stands for.
pub open spec fn state_named(name: Seq<char>) -> Option<RuntimeState> {
    if name == "run"@ || name == "default"@ {
        Some(RuntimeState::Default)
    } else if name == "test"@ {
        Some(RuntimeState::Test)
    } else if name == "bench"@ {
        Some(RuntimeState::Bench)
    } else {
        None
    }
}

pub open spec fn state_name(state: RuntimeState) -> Seq<char> {
    match state {
        RuntimeState::Default => "default"@,
        RuntimeState::Test => "test"@,
        RuntimeState::Bench => "bench"@,
    }
}

/// The state that the already lower-case `name` stands for; see `state_named`.
pub fn state_from_lowercase(name: &str) -> (r: Option<RuntimeState>)
    ensures
        r == state_named(name@),
{
    let v = chars_of(name);
    let n = v.len();
    assert(v@.subrange(0, n as int) =~= name@);
    if range_is(&v, 0, n, "run") || range_is(&v, 0, n, "default") {
        Some(RuntimeState::Default)
    } else if range_is(&v, 0, n, "test") {
        Some(RuntimeState::Test)
    } else if range_is(&v, 0, n, "bench") {
        Some(RuntimeState::Bench)
    } else {
        None
    }
}

impl RuntimeState {
    /// The state that `s` names, in any case; an unknown name is an error that says so.
    pub fn from_str(s: &str) -> (r: Result<RuntimeState, String>)
        ensures
            match r {
                Ok(state) => state_named(lower_of(s@)) == Some(state),
                Err(_) => state_named(lower_of(s@)) is None,
            },
    {
        let lower = lowercase(s);
        match state_from_lowercase(lower.as_str()) {
            Some(state) => Ok(state),
            None => {
                let mut message = String::from_str("Failed parsing ");
                message.append(lower.as_str());
                message.append(" to a runtime state");
                Err(message)
            },
        }
    }

    /// The state's own name.
    pub fn to_string(&self) -> (r: String)
        ensures
            r@ == state_name(*self),
    {
        match self {
            RuntimeState::Default => String::from_str("default"),
            RuntimeState::Test => String::from_str("test"),
            RuntimeState::Bench => String::from_str("bench"),
        }
    }
}

/// Every state's own name stands for that state.
pub proof fn lemma_name_round_trip(state: RuntimeState)
    ensures
        state_named(state_name(state)) == Some(state),
{
    reveal_strlit("default");
    reveal_strlit("test");
    reveal_strlit("bench");
    reveal_strlit("run");
    assert("default"@.len() != "run"@.len());
    assert("test"@.len() != "run"@.len() && "test"@.len() != "default"@.len());
    assert("bench"@.len() != "run"@.len() && "bench"@.len() != "default"@.len()
        && "bench"@.len() != "test"@.len());
}

} // verus!
