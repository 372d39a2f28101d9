//! The session cycle: resting until triggered, reading, displaying, resting again.
use crate::control::{is_result_message, is_trigger, message_of, result_message, trigger_word};
use crate::symbol::is_symbol;
use vstd::prelude::*;
use vstd::string::*;

verus! {

/// A session in state `S`, holding the symbols of the latest reading.
pub struct IOracle<S> {
    pub hexagram: String,
    pub related: String,
    pub state: S,
}

/// Waiting for a trigger.
pub struct Resting;

/// Acquiring a reading.
pub struct Reading;

/// Showing and reporting a reading.
pub struct Displaying;

/// The phase of a session.
#[derive(Clone, Copy, Debug, PartialEq, Eq, Structural)]
pub enum Phase {
    Idle,
    Acquire,
    Present,
}

/// The phase that follows `p` in the cycle.
pub open spec fn next_phase(p: Phase) -> Phase {
    match p {
        Phase::Idle => Phase::Acquire,
        Phase::Acquire => Phase::Present,
        Phase::Present => Phase::Idle,
    }
}

impl<S> IOracle<S> {
    /// Both symbols are six lines of '0' and '1'.
    pub open spec fn wf(&self) -> bool {
        is_symbol(self.hexagram@) && is_symbol(self.related@)
    }
}

impl IOracle<Resting> {
    /// A resting session with both symbols all Yin.
    pub fn new() -> (s: Self)
        ensures
            s.hexagram@ == seq!['0', '0', '0', '0', '0', '0'],
            s.related@ == seq!['0', '0', '0', '0', '0', '0'],
            s.wf(),
    {
        proof {
            reveal_strlit("000000");
        }
        let s = IOracle {
            hexagram: String::from_str("000000"),
            related: String::from_str("000000"),
            state: Resting,
        };
        assert(s.hexagram@ =~= seq!['0', '0', '0', '0', '0', '0']);
        assert(s.related@ =~= seq!['0', '0', '0', '0', '0', '0']);
        s
    }
}

impl From<IOracle<Resting>> for IOracle<Reading> {
    /// Resting to reading, keeping the symbols.
    fn from(val: IOracle<Resting>) -> IOracle<Reading> {
        IOracle { hexagram: val.hexagram, related: val.related, state: Reading }
    }
}

impl vstd::std_specs::convert::FromSpecImpl<IOracle<Resting>> for IOracle<Reading> {
    open spec fn obeys_from_spec() -> bool {
        true
    }

    open spec fn from_spec(val: IOracle<Resting>) -> IOracle<Reading> {
        IOracle { hexagram: val.hexagram, related: val.related, state: Reading }
    }
}

impl From<IOracle<Reading>> for IOracle<Displaying> {
    /// Reading to displaying, keeping the symbols.
    fn from(val: IOracle<Reading>) -> IOracle<Displaying> {
        IOracle { hexagram: val.hexagram, related: val.related, state: Displaying }
    }
}

impl vstd::std_specs::convert::FromSpecImpl<IOracle<Reading>> for IOracle<Displaying> {
    open spec fn obeys_from_spec() -> bool {
        true
    }

    open spec fn from_spec(val: IOracle<Reading>) -> IOracle<Displaying> {
        IOracle { hexagram: val.hexagram, related: val.related, state: Displaying }
    }
}

impl From<IOracle<Displaying>> for IOracle<Resting> {
    /// Displaying to resting, keeping the symbols.
    fn from(val: IOracle<Displaying>) -> IOracle<Resting> {
        IOracle { hexagram: val.hexagram, related: val.related, state: Resting }
    }
}

impl vstd::std_specs::convert::FromSpecImpl<IOracle<Displaying>> for IOracle<Resting> {
    open spec fn obeys_from_spec() -> bool {
        true
    }

    open spec fn from_spec(val: IOracle<Displaying>) -> IOracle<Resting> {
        IOracle { hexagram: val.hexagram, related: val.related, state: Resting }
    }
}

/// A session in whichever phase it is in.
pub enum IOracleWrapper {
    Resting(IOracle<Resting>),
    Reading(IOracle<Reading>),
    Displaying(IOracle<Displaying>),
}

impl IOracleWrapper {
    pub open spec fn phase(&self) -> Phase {
        match self {
            IOracleWrapper::Resting(_) => Phase::Idle,
            IOracleWrapper::Reading(_) => Phase::Acquire,
            IOracleWrapper::Displaying(_) => Phase::Present,
        }
    }

    /// The primary symbol held.
    pub open spec fn hexagram(&self) -> Seq<char> {
        match self {
            IOracleWrapper::Resting(v) => v.hexagram@,
            IOracleWrapper::Reading(v) => v.hexagram@,
            IOracleWrapper::Displaying(v) => v.hexagram@,
        }
    }

    /// The related symbol held.
    pub open spec fn related(&self) -> Seq<char> {
        match self {
            IOracleWrapper::Resting(v) => v.related@,
            IOracleWrapper::Reading(v) => v.related@,
            IOracleWrapper::Displaying(v) => v.related@,
        }
    }

    /// Both symbols are six lines of '0' and '1'.
    pub open spec fn wf(&self) -> bool {
        is_symbol(self.hexagram()) && is_symbol(self.related())
    }

    /// Moves to the next phase of the cycle, keeping the symbols.
    pub fn step(self) -> (next: Self)
        ensures
            next.phase() == next_phase(self.phase()),
            next.hexagram() == self.hexagram(),
            next.related() == self.related(),
    {
        match self {
            IOracleWrapper::Resting(val) => IOracleWrapper::Reading(IOracle::<Reading>::from(val)),
            IOracleWrapper::Reading(val) => IOracleWrapper::Displaying(
                IOracle::<Displaying>::from(val),
            ),
            IOracleWrapper::Displaying(val) => IOracleWrapper::Resting(
                IOracle::<Resting>::from(val),
            ),
        }
    }

    /// Handles one line from the control channel: a resting session starts a
    /// reading on the trigger line; everything else leaves the session as it is.
    pub fn command(self, line: &str) -> (next: Self)
        ensures
            next.phase() == if self.phase() == Phase::Idle && line@ == trigger_word() {
                Phase::Acquire
            } else {
                self.phase()
            },
            next.hexagram() == self.hexagram(),
            next.related() == self.related(),
    {
        match self {
            IOracleWrapper::Resting(_) => if is_trigger(line) {
                self.step()
            } else {
                self
            },
            _ => self,
        }
    }

    /// Ends a reading: the session holds the new symbols and moves on to display them.
    /// A session that is not reading is left as it is.
    pub fn complete_reading(self, hexagram: String, related: String) -> (next: Self)
        ensures
            self.phase() == Phase::Acquire ==> {
                &&& next.phase() == Phase::Present
                &&& next.hexagram() == hexagram@
                &&& next.related() == related@
            },
            self.phase() != Phase::Acquire ==> next == self,
    {
        match self {
            IOracleWrapper::Reading(_) => IOracleWrapper::Displaying(
                IOracle { hexagram, related, state: Displaying },
            ),
            _ => self,
        }
    }

    /// The message that reports the symbols held: primary, `|`, related.
    pub fn result_message(&self) -> (m: String)
        ensures
            m@ == message_of(self.hexagram(), self.related()),
            self.wf() ==> is_result_message(m@),
    {
        match self {
            IOracleWrapper::Resting(v) => result_message(v.hexagram.as_str(), v.related.as_str()),
            IOracleWrapper::Reading(v) => result_message(v.hexagram.as_str(), v.related.as_str()),
            IOracleWrapper::Displaying(v) => result_message(
                v.hexagram.as_str(),
                v.related.as_str(),
            ),
        }
    }
}

/// Three transitions bring any phase back to itself.
pub proof fn lemma_cycle_of_three(p: Phase)
    ensures
        next_phase(next_phase(next_phase(p))) == p,
{
}

} // verus!
