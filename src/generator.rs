//! The identifier generator: one clock reading, one state transition, and
//! the packed result.

use vstd::prelude::*;
use std::sync::atomic::{AtomicU64, Ordering};
use crate::clock::TimestampGenerator;
use crate::layout::{
    class_of, encode, lemma_tagging, node_of, pack, MAX_CLASS, MAX_TIMESTAMP,
};
use crate::sequence::{advance, lemma_issue_fits, transition, Transition};

verus! {

/// Largest node identity that a generator accepts.
pub const MAX_NODE_ID: u64 = 32;

/// How many times one request retries its compare-and-swap when other
/// threads move the state first.
pub const SWAP_ATTEMPTS: u64 = 1024;

/// How long, in milliseconds, a caller keeps waiting on a busy generator.
pub const WAIT_BUDGET_MS: u64 = 1000;

/// The kind of object an identifier was issued for.
#[derive(Debug, Clone, Copy, PartialEq, Eq)]
pub enum ObjectClass {
    Unknown,
    Project,
    Task,
    User,
    Comment,
    Download,
}

impl ObjectClass {
    /// The numeric tag of the class.
    pub open spec fn spec_code(self) -> u64 {
        match self {
            ObjectClass::Unknown => 0,
            ObjectClass::Project => 1,
            ObjectClass::Task => 2,
            ObjectClass::User => 3,
            ObjectClass::Comment => 4,
            ObjectClass::Download => 5,
        }
    }

    pub fn code(&self) -> (r: u64)
        ensures
            r == self.spec_code(),
            r <= MAX_CLASS,
    {
        match self {
            ObjectClass::Unknown => 0,
            ObjectClass::Project => 1,
            ObjectClass::Task => 2,
            ObjectClass::User => 3,
            ObjectClass::Comment => 4,
            ObjectClass::Download => 5,
        }
    }
}

/// A generator that cannot be built.
#[derive(Debug, Clone, Copy, PartialEq, Eq)]
pub enum ConfigError {
    /// The node identity is above `MAX_NODE_ID`.
    NodeIdOutOfRange { node_id: u64 },
}

/// Why a request gave no identifier.
#[derive(Debug, Clone, Copy, PartialEq, Eq)]
pub enum GenerateError {
    /// The clock gave no reading, or one that the timestamp field cannot hold.
    ClockFailure,
    /// The current tick has issued all 4096 sequence values.
    Saturated,
    /// Other threads kept moving the state during every attempt.
    Contended,
}

/// What a caller does after a request.
#[derive(Debug, Clone, Copy, PartialEq, Eq)]
pub enum RetryAction {
    /// Hand the identifier out.
    Return(u64),
    /// Wait one millisecond and request again.
    Wait,
    /// Stop and report the error.
    GiveUp(GenerateError),
}

/// Whether `id` packs `node`, `class` and the tick and sequence that the
/// transition of `word` on the reading `now` issues.
pub open spec fn issued_by(word: u64, now: u64, id: u64, node: u64, class: u64) -> bool {
    &&& now <= MAX_TIMESTAMP
    &&& (transition(word, now) matches Transition::Issue { tick, sequence, .. } && id == pack(
        tick,
        node,
        sequence,
        class,
    ))
}

/// Whether `clock` can give the reading `now`: any time for the wall clock,
/// one of its readings for a mock.
pub open spec fn can_read(clock: TimestampGenerator, now: u64) -> bool {
    clock matches TimestampGenerator::Mock(m) ==> m.readings().contains(now)
}

/// Whether `id` packs `node`, `class` and the tick and sequence that some
/// transition issues on a reading that `clock` can give.
pub open spec fn issued_as(id: u64, node: u64, class: u64, clock: TimestampGenerator) -> bool {
    exists|word: u64, now: u64|
        #[trigger] issued_by(word, now, id, node, class) && can_read(clock, now)
}

/// Whether a clock is one that the generator can always read.
pub open spec fn clock_is_readable(clock: TimestampGenerator) -> bool {
    clock matches TimestampGenerator::Mock(m) && m.readings().len() > 0 && forall|i: int|
        0 <= i < m.readings().len() ==> #[trigger] m.readings()[i] <= MAX_TIMESTAMP
}

/// Whether a clock can never be read.
pub open spec fn clock_is_empty(clock: TimestampGenerator) -> bool {
    clock matches TimestampGenerator::Mock(m) && m.readings().len() == 0
}

/// The retry policy for a request that came back with `outcome` after the
/// caller has waited `waited_ms` milliseconds: a busy generator is waited on
/// one millisecond at a time up to `WAIT_BUDGET_MS`; a clock failure ends it.
pub fn retry_action(outcome: Result<u64, GenerateError>, waited_ms: u64) -> (r: RetryAction)
    ensures
        outcome matches Ok(id) ==> r == RetryAction::Return(id),
        outcome matches Err(e) ==> r == if e != GenerateError::ClockFailure && waited_ms
            < WAIT_BUDGET_MS {
            RetryAction::Wait
        } else {
            RetryAction::GiveUp(e)
        },
{
    match outcome {
        Ok(id) => RetryAction::Return(id),
        Err(GenerateError::ClockFailure) => RetryAction::GiveUp(GenerateError::ClockFailure),
        Err(e) => {
            if waited_ms < WAIT_BUDGET_MS {
                RetryAction::Wait
            } else {
                RetryAction::GiveUp(e)
            }
        },
    }
}

/// An identifier generator for one node. It may be shared by many threads:
/// the last tick and its sequence live in one atomic word.
pub struct Sandflake {
    state: AtomicU64,
    node_id: u64,
    clock: TimestampGenerator,
}

impl Sandflake {
    /// The node identity packed into every identifier.
    pub closed spec fn node_identity(&self) -> u64 {
        self.node_id
    }

    /// The clock the generator reads.
    pub closed spec fn clock(&self) -> TimestampGenerator {
        self.clock
    }

    pub closed spec fn wf(&self) -> bool {
        self.node_id <= MAX_NODE_ID
    }

    /// A generator for `node_id` reading `timestamp_generator`; an error when
    /// `node_id` is above `MAX_NODE_ID`.
    pub fn new(node_id: u64, timestamp_generator: TimestampGenerator) -> (r: Result<
        Sandflake,
        ConfigError,
    >)
        ensures
            r is Ok <==> node_id <= MAX_NODE_ID,
            r matches Ok(s) ==> {
                &&& s.wf()
                &&& s.node_identity() == node_id
                &&& s.clock() == timestamp_generator
            },
            r matches Err(e) ==> e == (ConfigError::NodeIdOutOfRange { node_id }),
    {
        if node_id > MAX_NODE_ID {
            return Err(ConfigError::NodeIdOutOfRange { node_id });
        }
        Ok(Sandflake { state: AtomicU64::new(0), node_id, clock: timestamp_generator })
    }

    /// A generator for `node_id` reading the wall clock.
    pub fn default(node_id: u64) -> (r: Result<Sandflake, ConfigError>)
        ensures
            r is Ok <==> node_id <= MAX_NODE_ID,
            r matches Ok(s) ==> {
                &&& s.wf()
                &&& s.node_identity() == node_id
                &&& s.clock() == TimestampGenerator::Default
            },
            r matches Err(e) ==> e == (ConfigError::NodeIdOutOfRange { node_id }),
    {
        Sandflake::new(node_id, TimestampGenerator::Default)
    }

    /// One request for an untagged identifier. It reads the clock once and
    /// moves the state by one transition. When the tick is saturated it
    /// returns `Saturated`: the caller waits a millisecond and asks again.
    pub fn generate_id(&self) -> (r: Result<u64, GenerateError>)
        requires
            self.wf(),
        ensures
            r matches Ok(id) ==> {
                &&& issued_as(id, self.node_identity(), 0, self.clock())
                &&& node_of(id) == self.node_identity()
                &&& class_of(id) == 0
            },
            clock_is_empty(self.clock()) ==> r == Err::<u64, GenerateError>(
                GenerateError::ClockFailure,
            ),
            clock_is_readable(self.clock()) ==> r != Err::<u64, GenerateError>(
                GenerateError::ClockFailure,
            ),
    {
        let now = match self.clock.now_ms() {
            Some(t) => t,
            None => {
                return Err(GenerateError::ClockFailure);
            },
        };
        if now > MAX_TIMESTAMP {
            return Err(GenerateError::ClockFailure);
        }
        let mut attempts: u64 = 0;
        while attempts < SWAP_ATTEMPTS
            invariant
                self.wf(),
                now <= MAX_TIMESTAMP,
                !clock_is_empty(self.clock()),
                can_read(self.clock(), now),
            decreases SWAP_ATTEMPTS - attempts,
        {
            let word = self.state.load(Ordering::SeqCst);
            match advance(word, now) {
                Transition::Saturated => {
                    return Err(GenerateError::Saturated);
                },
                Transition::Issue { next, tick, sequence } => {
                    match self.state.compare_exchange(word, next, Ordering::SeqCst, Ordering::SeqCst) {
                        Ok(_) => {
                            proof {
                                lemma_issue_fits(word, now);
                            }
                            let id = encode(tick, self.node_id, sequence, 0);
                            assert(issued_by(word, now, id, self.node_id, 0));
                            return Ok(id);
                        },
                        Err(_) => {},
                    }
                },
            }
            attempts = attempts + 1;
        }
        Err(GenerateError::Contended)
    }

    /// One request for an identifier tagged with `object_class`: an untagged
    /// request with the class's code set in the class field.
    pub fn generate_object_id(&self, object_class: ObjectClass) -> (r: Result<u64, GenerateError>)
        requires
            self.wf(),
        ensures
            r matches Ok(id) ==> {
                &&& issued_as(id, self.node_identity(), object_class.spec_code(), self.clock())
                &&& node_of(id) == self.node_identity()
                &&& class_of(id) == object_class.spec_code()
            },
            clock_is_empty(self.clock()) ==> r == Err::<u64, GenerateError>(
                GenerateError::ClockFailure,
            ),
            clock_is_readable(self.clock()) ==> r != Err::<u64, GenerateError>(
                GenerateError::ClockFailure,
            ),
    {
        let cls = object_class.code();
        match self.generate_id() {
            Ok(id) => {
                let tagged = id | (cls << 18u64);
                proof {
                    let node = self.node_identity();
                    let (word, now) = choose|word: u64, now: u64|
                        issued_by(word, now, id, node, 0) && can_read(self.clock(), now);
                    lemma_issue_fits(word, now);
                    let tick = transition(word, now)->tick;
                    let sequence = transition(word, now)->sequence;
                    lemma_tagging(tick, node, sequence, cls);
                    crate::layout::lemma_round_trip(tick, node, sequence, cls);
                    assert(issued_by(word, now, tagged, node, cls));
                }
                Ok(tagged)
            },
            Err(e) => Err(e),
        }
    }
}

} // verus!
