//! The per-tick sequence state machine.
//!
//! The pair (last tick, sequence) lives in one word so that a single
//! compare-and-swap moves both at once. The word 0 means that nothing has
//! been issued yet; otherwise it is `(tick + 1) * 4096 + sequence`.

use vstd::prelude::*;
use crate::layout::{fields_fit, lemma_round_trip, pack, MAX_SEQUENCE, MAX_TIMESTAMP};

verus! {

/// Number of sequence values in one tick.
pub const TICK_SLOTS: u64 = 4096;

/// Largest state word that holds a tick within the timestamp field.
pub const MAX_STATE: u64 = 0x40_0000_0000_0fff;

/// Whether the word records an issued tick.
pub open spec fn holds_tick(word: u64) -> bool {
    TICK_SLOTS <= word <= MAX_STATE
}

/// Whether the word is one that the transitions below can produce or start from.
pub open spec fn state_is_valid(word: u64) -> bool {
    word <= MAX_STATE
}

/// The last tick recorded by a word that holds one.
pub open spec fn last_tick(word: u64) -> int {
    word as int / 4096 - 1
}

/// The last sequence value issued in that tick.
pub open spec fn last_sequence(word: u64) -> int {
    word as int % 4096
}

/// The word that records `sequence` as issued in `tick`.
pub open spec fn state_word(tick: int, sequence: int) -> int {
    (tick + 1) * 4096 + sequence
}

/// What one request for an identifier does to the state.
#[derive(Debug, Clone, Copy, PartialEq, Eq)]
pub enum Transition {
    /// Issue `sequence` in `tick` and store `next`.
    Issue { next: u64, tick: u64, sequence: u64 },
    /// The tick has issued all its sequence values: wait for the clock.
    Saturated,
}

/// The transition on a clock reading `now`. A reading at or before the
/// recorded tick continues that tick, so a clock that steps back never
/// reissues an identifier; a later reading starts a new tick at sequence 0.
pub open spec fn transition(word: u64, now: u64) -> Transition {
    if holds_tick(word) && now <= last_tick(word) {
        if last_sequence(word) == MAX_SEQUENCE {
            Transition::Saturated
        } else {
            Transition::Issue {
                next: (word + 1) as u64,
                tick: last_tick(word) as u64,
                sequence: (last_sequence(word) + 1) as u64,
            }
        }
    } else {
        Transition::Issue { next: state_word(now as int, 0) as u64, tick: now, sequence: 0 }
    }
}

/// Computes the transition of `word` on the clock reading `now`.
pub fn advance(word: u64, now: u64) -> (r: Transition)
    requires
        now <= MAX_TIMESTAMP,
    ensures
        r == transition(word, now),
{
    if TICK_SLOTS <= word && word <= MAX_STATE && now <= word / TICK_SLOTS - 1 {
        if word % TICK_SLOTS == MAX_SEQUENCE {
            Transition::Saturated
        } else {
            Transition::Issue {
                next: word + 1,
                tick: word / TICK_SLOTS - 1,
                sequence: word % TICK_SLOTS + 1,
            }
        }
    } else {
        Transition::Issue { next: (now + 1) * TICK_SLOTS, tick: now, sequence: 0 }
    }
}

/// An issue from a valid word stores a strictly larger valid word, which
/// records exactly the tick and sequence issued, both within their fields.
pub proof fn lemma_issue_advances(word: u64, now: u64)
    requires
        state_is_valid(word),
        now <= MAX_TIMESTAMP,
    ensures
        transition(word, now) matches Transition::Issue { next, tick, sequence } ==> {
            &&& state_is_valid(next)
            &&& holds_tick(next)
            &&& next > word
            &&& tick <= MAX_TIMESTAMP
            &&& sequence <= MAX_SEQUENCE
            &&& last_tick(next) == tick
            &&& last_sequence(next) == sequence
            &&& next == state_word(tick as int, sequence as int)
        },
{
}

/// Whatever the word, an issue stays within the timestamp and sequence fields.
pub proof fn lemma_issue_fits(word: u64, now: u64)
    requires
        now <= MAX_TIMESTAMP,
    ensures
        transition(word, now) matches Transition::Issue { tick, sequence, .. } ==> {
            &&& tick <= MAX_TIMESTAMP
            &&& sequence <= MAX_SEQUENCE
        },
{
}

/// The state after `n` requests in the same tick `now`, starting from `word`.
pub open spec fn repeat(word: u64, now: u64, n: nat) -> u64
    decreases n,
{
    if n == 0 {
        word
    } else {
        let before = repeat(word, now, (n - 1) as nat);
        match transition(before, now) {
            Transition::Issue { next, .. } => next,
            Transition::Saturated => before,
        }
    }
}

/// Within one tick the sequence counts up from 0: starting from a state whose
/// tick is earlier than `now` (or from no tick), the request numbered `n`
/// (counting from 0) issues sequence `n` in tick `now`, for every `n` below 4096.
pub proof fn lemma_tick_counts_up(word: u64, now: u64, n: nat)
    requires
        state_is_valid(word),
        now <= MAX_TIMESTAMP,
        !holds_tick(word) || last_tick(word) < now,
        n < 4096,
    ensures
        n > 0 ==> repeat(word, now, n) == state_word(now as int, n - 1),
        transition(repeat(word, now, n), now) == (Transition::Issue {
            next: state_word(now as int, n as int) as u64,
            tick: now,
            sequence: n as u64,
        }),
    decreases n,
{
    if n > 0 {
        lemma_tick_counts_up(word, now, (n - 1) as nat);
    }
}

/// The request after 4096 in one tick finds the tick saturated, and the
/// first request with a later clock reading issues sequence 0 in that reading.
pub proof fn lemma_saturation_then_next_tick(word: u64, now: u64, later: u64)
    requires
        state_is_valid(word),
        now < later <= MAX_TIMESTAMP,
        !holds_tick(word) || last_tick(word) < now,
    ensures
        transition(repeat(word, now, 4096), now) == Transition::Saturated,
        transition(repeat(word, now, 4096), later) == (Transition::Issue {
            next: state_word(later as int, 0) as u64,
            tick: later,
            sequence: 0,
        }),
{
    lemma_tick_counts_up(word, now, 4095);
    assert(repeat(word, now, 4096) == state_word(now as int, 4095));
}

/// Identifiers issued by two transitions on one state word differ when the
/// second starts from a word at or above the one that the first stored. The
/// word only grows (see `lemma_issue_advances`), so this holds of every pair
/// of issues in the order in which their compare-and-swaps succeeded.
pub proof fn lemma_later_issue_differs(
    first: u64,
    first_now: u64,
    second: u64,
    second_now: u64,
    node: u64,
    class: u64,
)
    requires
        state_is_valid(first),
        state_is_valid(second),
        first_now <= MAX_TIMESTAMP,
        second_now <= MAX_TIMESTAMP,
        node <= 63,
        class <= 15,
        transition(first, first_now) is Issue,
        transition(second, second_now) is Issue,
        second >= transition(first, first_now)->next,
    ensures
        pack(
            transition(first, first_now)->tick,
            node,
            transition(first, first_now)->sequence,
            class,
        ) != pack(
            transition(second, second_now)->tick,
            node,
            transition(second, second_now)->sequence,
            class,
        ),
{
    lemma_issue_advances(first, first_now);
    lemma_issue_advances(second, second_now);
    let t1 = transition(first, first_now)->tick;
    let s1 = transition(first, first_now)->sequence;
    let t2 = transition(second, second_now)->tick;
    let s2 = transition(second, second_now)->sequence;
    lemma_round_trip(t1, node, s1, class);
    lemma_round_trip(t2, node, s2, class);
    assert(fields_fit(t1, node, s1, class));
}

} // verus!
