//! The roulette engine: the phase state machine, the spin plan, the
//! per-frame animation tick, and the row-crossing click rule.
//!
//! A spin scrolls from offset zero to a target computed so that the
//! winner's row lands under the viewport marker after at least three
//! full loops through the listing and at least one hundred virtual
//! rows, with a small random jitter so that stops are not visually
//! identical. Each tick moves the offset along the braking curve and
//! fires one click whenever the scroll enters a row not yet clicked.

use vstd::prelude::*;
use crate::easing::{
    compute_eased, eased_offset, MAX_DURATION_MS, MAX_TARGET_MILLI, MIN_DURATION_MS,
};
use crate::random_source::{rand_i64_between, rand_index, rand_u64_between};
use crate::records::ServerItem;
use crate::{ROW_HEIGHT_MILLI, SNAP_EPSILON_MILLI};
use vstd::arithmetic::div_mod::{
    lemma_fundamental_div_mod, lemma_mod_division_less_than_divisor,
};
use vstd::arithmetic::mul::{lemma_mul_inequality, lemma_mul_is_commutative};

verus! {

/// Largest listing a spin accepts: keeps the target offset inside the
/// animation arithmetic's range, far above what five pages can hold.
pub const MAX_LISTING_LEN: usize = 5_000;

/// Largest magnitude of the random sub-row jitter, in milli-units
/// (30 distance units; the jitter is drawn from the half-open range).
pub const JITTER_MAX_MILLI: i64 = 30_000;

/// The phases of the roulette.
#[derive(Clone, Copy, Debug, PartialEq, Eq, Structural)]
pub enum Phase {
    /// A listing is (or may be) at hand and no spin is running.
    Idle,
    /// A fetch cycle is in flight.
    Loading,
    /// The reveal animation is running.
    Spinning,
    /// The animation has converged on the winner (or a fetch came back
    /// empty and there is nothing to spin).
    Settled,
}

/// The virtual row under the viewport marker at a scroll offset:
/// offsets within half a row height of a row's position map to it.
pub open spec fn row_of(offset: int) -> int {
    (offset + ROW_HEIGHT_MILLI as int / 2) / (ROW_HEIGHT_MILLI as int)
}

/// Whether entering virtual row `row` fires a click, given the last
/// row already clicked: strictly monotone comparison, so a row is
/// never clicked twice and rows never attained are never clicked.
pub open spec fn click_fires(last: int, row: int) -> bool {
    row > last
}

/// Full loops through a listing of `len` records before the winner's
/// row: at least three, and enough to pass one hundred virtual rows.
pub open spec fn loops_for(len: int) -> int {
    let c = (100 + len - 1) / len;
    if c < 3 {
        3
    } else {
        c
    }
}

/// The target offset of a spin, in milli-units: the winner's row after
/// the full loops, plus the sub-row jitter.
pub open spec fn spin_target(len: int, winner_idx: int, jitter: int) -> int {
    (loops_for(len) * len + winner_idx) * (ROW_HEIGHT_MILLI as int) + jitter
}

/// The loop count always gives at least three full loops and carries
/// the scroll past at least one hundred virtual rows.
pub proof fn lemma_spin_covers_hundred_rows(len: int)
    requires
        1 <= len,
    ensures
        loops_for(len) >= 3,
        loops_for(len) * len >= 100,
{
    let c = (100 + len - 1) / len;
    lemma_fundamental_div_mod(99 + len, len);
    lemma_mod_division_less_than_divisor(99 + len, len);
    lemma_mul_is_commutative(len, c);
    if c < 3 {
        lemma_mul_inequality(c, 3, len);
        lemma_mul_is_commutative(c, len);
        lemma_mul_is_commutative(3, len);
    }
}

/// The roulette engine's whole state.
pub struct Engine {
    /// Lower bound of the player-count filter.
    pub min_players: u32,
    /// Upper bound of the player-count filter.
    pub max_players: u32,
    /// The current listing, replaced wholesale by each fetch.
    pub listing: Vec<ServerItem>,
    /// The winner of the current spin, once one was picked.
    pub selected: Option<ServerItem>,
    /// Where in the fetch/spin lifecycle the engine stands.
    pub phase: Phase,
    /// Duration of the running spin, in milliseconds.
    pub duration_ms: u64,
    /// Scroll offset the running spin started from, in milli-units.
    pub start_milli: i64,
    /// Scroll offset the running spin converges to, in milli-units.
    pub target_milli: i64,
    /// The scroll offset right now, in milli-units.
    pub current_milli: i64,
    /// The last virtual row a click was fired for; -1 before any.
    pub last_click_row: i64,
    /// Whether the filter range changed since the listing was fetched.
    pub needs_update: bool,
}

impl Engine {
    /// The engine's invariant: the animation fields stay inside the
    /// range the easing arithmetic accepts.
    pub open spec fn wf(self) -> bool {
        &&& 0 < self.duration_ms <= MAX_DURATION_MS
        &&& self.start_milli == 0
        &&& 0 <= self.current_milli <= self.target_milli <= MAX_TARGET_MILLI
        &&& self.last_click_row >= -1
    }

    /// Everything a tick may never touch.
    pub open spec fn same_but_animation(pre: Engine, post: Engine) -> bool {
        &&& post.min_players == pre.min_players
        &&& post.max_players == pre.max_players
        &&& post.listing == pre.listing
        &&& post.selected == pre.selected
        &&& post.needs_update == pre.needs_update
        &&& post.duration_ms == pre.duration_ms
        &&& post.start_milli == pre.start_milli
        &&& post.target_milli == pre.target_milli
    }

    /// A spin may start: the listing is fresh, non-empty and within
    /// the spin cap, and no fetch or spin is already in progress.
    pub open spec fn can_spin(self) -> bool {
        &&& !self.needs_update
        &&& self.phase != Phase::Loading
        &&& self.phase != Phase::Spinning
        &&& 0 < self.listing.len() <= MAX_LISTING_LEN
    }

    /// A fresh engine: default filter range, nothing fetched yet.
    pub fn new() -> (e: Engine)
        ensures
            e.min_players == 60,
            e.max_players == 100,
            e.listing@ == Seq::<ServerItem>::empty(),
            e.selected is None,
            e.phase == Phase::Idle,
            e.duration_ms == MIN_DURATION_MS,
            e.current_milli == 0,
            e.target_milli == 0,
            e.last_click_row == -1,
            e.needs_update,
            e.wf(),
    {
        Engine {
            min_players: 60,
            max_players: 100,
            listing: Vec::new(),
            selected: None,
            phase: Phase::Idle,
            duration_ms: MIN_DURATION_MS,
            start_milli: 0,
            target_milli: 0,
            current_milli: 0,
            last_click_row: -1,
            needs_update: true,
        }
    }

    /// Moves the lower player-count bound; the listing goes stale the
    /// moment the value actually changes.
    pub fn set_min_players(&mut self, v: u32)
        requires
            v <= 100,
            old(self).wf(),
        ensures
            final(self).wf(),
            final(self).min_players == v,
            final(self).needs_update == (old(self).needs_update || v != old(self).min_players),
            final(self).max_players == old(self).max_players,
            final(self).listing == old(self).listing,
            final(self).selected == old(self).selected,
            final(self).phase == old(self).phase,
            final(self).duration_ms == old(self).duration_ms,
            final(self).start_milli == old(self).start_milli,
            final(self).target_milli == old(self).target_milli,
            final(self).current_milli == old(self).current_milli,
            final(self).last_click_row == old(self).last_click_row,
    {
        if v != self.min_players {
            self.needs_update = true;
        }
        self.min_players = v;
    }

    /// Moves the upper player-count bound; the listing goes stale the
    /// moment the value actually changes.
    pub fn set_max_players(&mut self, v: u32)
        requires
            v <= 100,
            old(self).wf(),
        ensures
            final(self).wf(),
            final(self).max_players == v,
            final(self).needs_update == (old(self).needs_update || v != old(self).max_players),
            final(self).min_players == old(self).min_players,
            final(self).listing == old(self).listing,
            final(self).selected == old(self).selected,
            final(self).phase == old(self).phase,
            final(self).duration_ms == old(self).duration_ms,
            final(self).start_milli == old(self).start_milli,
            final(self).target_milli == old(self).target_milli,
            final(self).current_milli == old(self).current_milli,
            final(self).last_click_row == old(self).last_click_row,
    {
        if v != self.max_players {
            self.needs_update = true;
        }
        self.max_players = v;
    }

    /// Begins a fetch cycle: rejected while one is already in flight;
    /// otherwise the listing and the winner are cleared and the engine
    /// loads. Returns whether the caller should start the transport.
    pub fn begin_fetch(&mut self) -> (started: bool)
        requires
            old(self).wf(),
        ensures
            final(self).wf(),
            old(self).phase == Phase::Loading ==> *final(self) == *old(self) && !started,
            old(self).phase != Phase::Loading ==> {
                &&& started
                &&& final(self).listing@ == Seq::<ServerItem>::empty()
                &&& final(self).selected is None
                &&& final(self).phase == Phase::Loading
                &&& !final(self).needs_update
                &&& final(self).min_players == old(self).min_players
                &&& final(self).max_players == old(self).max_players
                &&& final(self).duration_ms == old(self).duration_ms
                &&& final(self).start_milli == old(self).start_milli
                &&& final(self).target_milli == old(self).target_milli
                &&& final(self).current_milli == old(self).current_milli
                &&& final(self).last_click_row == old(self).last_click_row
            },
    {
        if self.phase == Phase::Loading {
            return false;
        }
        self.listing = Vec::new();
        self.selected = None;
        self.phase = Phase::Loading;
        self.needs_update = false;
        true
    }

    /// Takes delivery of a completed fetch: the listing is replaced
    /// wholesale. If the engine was loading, an empty result settles it
    /// (nothing to spin) and a non-empty one makes it idle.
    pub fn deliver_listing(&mut self, servers: Vec<ServerItem>)
        requires
            old(self).wf(),
        ensures
            final(self).wf(),
            final(self).listing == servers,
            old(self).phase == Phase::Loading && servers@.len() == 0 ==> final(self).phase
                == Phase::Settled,
            old(self).phase == Phase::Loading && servers@.len() > 0 ==> final(self).phase
                == Phase::Idle,
            old(self).phase != Phase::Loading ==> final(self).phase == old(self).phase,
            final(self).selected == old(self).selected,
            final(self).min_players == old(self).min_players,
            final(self).max_players == old(self).max_players,
            final(self).needs_update == old(self).needs_update,
            final(self).duration_ms == old(self).duration_ms,
            final(self).start_milli == old(self).start_milli,
            final(self).target_milli == old(self).target_milli,
            final(self).current_milli == old(self).current_milli,
            final(self).last_click_row == old(self).last_click_row,
    {
        let empty = servers.len() == 0;
        self.listing = servers;
        if self.phase == Phase::Loading {
            self.phase = if empty {
                Phase::Settled
            } else {
                Phase::Idle
            };
        }
    }

    /// Whether the spin control should be enabled right now.
    pub fn spin_allowed(&self) -> (b: bool)
        ensures
            b == self.can_spin(),
    {
        !self.needs_update && self.phase != Phase::Loading && self.phase != Phase::Spinning
            && self.listing.len() > 0 && self.listing.len() <= MAX_LISTING_LEN
    }

    /// Starts the spin whose random draws are given: the winner's
    /// index, the duration, and the sub-row jitter. The winner is the
    /// listing record at the drawn index, and the target offset puts
    /// its row under the marker after the full loops.
    pub fn start_spin_with(&mut self, winner_idx: usize, duration_ms: u64, jitter_milli: i64)
        requires
            old(self).wf(),
            old(self).can_spin(),
            winner_idx < old(self).listing.len(),
            MIN_DURATION_MS <= duration_ms < MAX_DURATION_MS,
            -JITTER_MAX_MILLI <= jitter_milli < JITTER_MAX_MILLI,
        ensures
            final(self).wf(),
            final(self).selected == Some(old(self).listing[winner_idx as int]),
            final(self).duration_ms == duration_ms,
            final(self).target_milli == spin_target(
                old(self).listing.len() as int,
                winner_idx as int,
                jitter_milli as int,
            ),
            final(self).start_milli == 0,
            final(self).current_milli == 0,
            final(self).last_click_row == -1,
            final(self).phase == Phase::Spinning,
            final(self).listing == old(self).listing,
            final(self).min_players == old(self).min_players,
            final(self).max_players == old(self).max_players,
            final(self).needs_update == old(self).needs_update,
    {
        let len = self.listing.len();
        let c: usize = (100 + len - 1) / len;
        let loops: usize = if c < 3 {
            3
        } else {
            c
        };
        proof {
            let lv = len as int;
            lemma_fundamental_div_mod(99 + lv, lv);
            lemma_mod_division_less_than_divisor(99 + lv, lv);
            lemma_mul_is_commutative(lv, c as int);
            lemma_spin_covers_hundred_rows(lv);
        }
        let vrow: usize = loops * len + winner_idx;
        assert(1 <= vrow <= 20_000);
        let target: i64 = (vrow as i64) * ROW_HEIGHT_MILLI + jitter_milli;
        let winner = self.listing[winner_idx].clone();
        self.selected = Some(winner);
        self.duration_ms = duration_ms;
        self.target_milli = target;
        self.start_milli = 0;
        self.current_milli = 0;
        self.last_click_row = -1;
        self.phase = Phase::Spinning;
    }

    /// Starts a spin with fresh random draws: a winner uniform over
    /// the listing, a duration uniform over the ten-to-fifteen-second
    /// range, and a uniform sub-row jitter. Rejected — no state change
    /// — while the listing is stale, empty or over the spin cap, or a
    /// fetch or spin is already in progress.
    pub fn start_spin(&mut self) -> (started: bool)
        requires
            old(self).wf(),
        ensures
            final(self).wf(),
            !old(self).can_spin() ==> *final(self) == *old(self) && !started,
            old(self).can_spin() ==> {
                &&& started
                &&& final(self).phase == Phase::Spinning
                &&& MIN_DURATION_MS <= final(self).duration_ms < MAX_DURATION_MS
                &&& final(self).current_milli == 0
                &&& final(self).start_milli == 0
                &&& final(self).last_click_row == -1
                &&& exists|i: int, j: int|
                    #![trigger spin_target(old(self).listing.len() as int, i, j)]
                    {
                        &&& 0 <= i < old(self).listing.len()
                        &&& -JITTER_MAX_MILLI <= j < JITTER_MAX_MILLI
                        &&& final(self).selected == Some(old(self).listing[i])
                        &&& final(self).target_milli == spin_target(
                            old(self).listing.len() as int,
                            i,
                            j,
                        )
                    }
                &&& final(self).listing == old(self).listing
                &&& final(self).min_players == old(self).min_players
                &&& final(self).max_players == old(self).max_players
                &&& final(self).needs_update == old(self).needs_update
            },
    {
        if !self.spin_allowed() {
            return false;
        }
        let idx = rand_index(self.listing.len());
        let dur = rand_u64_between(MIN_DURATION_MS, MAX_DURATION_MS);
        let jit = rand_i64_between(-JITTER_MAX_MILLI, JITTER_MAX_MILLI);
        let ghost pre = *self;
        self.start_spin_with(idx, dur, jit);
        proof {
            assert(self.target_milli == spin_target(pre.listing.len() as int, idx as int, jit as int));
        }
        true
    }

    /// One animation frame, `elapsed_ms` after the spin began. While
    /// spinning, the offset follows the braking curve; once the
    /// remaining distance drops under half a unit, or the duration has
    /// run out, the offset snaps to the target and the engine settles.
    /// The result says whether a click fires: exactly when the scroll
    /// entered a virtual row beyond the last one clicked. In any phase
    /// but Spinning — Settled above all — the call changes nothing.
    pub fn tick(&mut self, elapsed_ms: u64) -> (clicked: bool)
        requires
            old(self).wf(),
        ensures
            final(self).wf(),
            Engine::same_but_animation(*old(self), *final(self)),
            old(self).phase != Phase::Spinning ==> *final(self) == *old(self) && !clicked,
            old(self).phase == Phase::Spinning && elapsed_ms >= old(self).duration_ms ==> {
                &&& final(self).current_milli == old(self).target_milli
                &&& final(self).phase == Phase::Settled
                &&& final(self).last_click_row == old(self).last_click_row
                &&& !clicked
            },
            old(self).phase == Phase::Spinning && elapsed_ms < old(self).duration_ms ==> {
                let next = eased_offset(
                    old(self).start_milli as int,
                    old(self).target_milli as int,
                    elapsed_ms as int,
                    old(self).duration_ms as int,
                );
                &&& (old(self).target_milli - next < SNAP_EPSILON_MILLI ==> {
                    &&& final(self).current_milli == old(self).target_milli
                    &&& final(self).phase == Phase::Settled
                    &&& final(self).last_click_row == old(self).last_click_row
                    &&& !clicked
                })
                &&& (old(self).target_milli - next >= SNAP_EPSILON_MILLI ==> {
                    &&& final(self).current_milli == next
                    &&& final(self).phase == Phase::Spinning
                    &&& clicked == click_fires(old(self).last_click_row as int, row_of(next))
                    &&& final(self).last_click_row == if clicked {
                        row_of(next)
                    } else {
                        old(self).last_click_row as int
                    }
                })
            },
    {
        if self.phase != Phase::Spinning {
            return false;
        }
        if elapsed_ms >= self.duration_ms {
            self.current_milli = self.target_milli;
            self.phase = Phase::Settled;
            return false;
        }
        let next = compute_eased(self.start_milli, self.target_milli, elapsed_ms, self.duration_ms);
        if self.target_milli - next < SNAP_EPSILON_MILLI {
            self.current_milli = self.target_milli;
            self.phase = Phase::Settled;
            false
        } else {
            self.current_milli = next;
            let row = (((next + 40_000) as u64) / 80_000) as i64;
            assert(row == row_of(next as int));
            if row > self.last_click_row {
                self.last_click_row = row;
                true
            } else {
                false
            }
        }
    }
}

/// A sequence of offsets that never moves backwards.
pub open spec fn monotone(rows: Seq<int>) -> bool {
    forall|i: int, j: int| 0 <= i <= j < rows.len() ==> rows[i] <= rows[j]
}

/// The last clicked row after the click rule ran over a whole sequence
/// of attained rows, starting from `last0`.
pub open spec fn detector_last(rows: Seq<int>, last0: int) -> int
    decreases rows.len(),
{
    if rows.len() == 0 {
        last0
    } else {
        let prev = detector_last(rows.drop_last(), last0);
        if click_fires(prev, rows.last()) {
            rows.last()
        } else {
            prev
        }
    }
}

/// How many clicks the click rule fires over a whole sequence of
/// attained rows, starting from `last0`.
pub open spec fn clicks_count(rows: Seq<int>, last0: int) -> int
    decreases rows.len(),
{
    if rows.len() == 0 {
        0
    } else {
        clicks_count(rows.drop_last(), last0) + if click_fires(
            detector_last(rows.drop_last(), last0),
            rows.last(),
        ) {
            1int
        } else {
            0int
        }
    }
}

/// How many distinct values a non-decreasing sequence holds: runs of
/// equal neighbours count once.
pub open spec fn distinct_count(rows: Seq<int>) -> int
    decreases rows.len(),
{
    if rows.len() == 0 {
        0
    } else if rows.len() == 1 {
        1
    } else {
        distinct_count(rows.drop_last()) + if rows.last() == rows[rows.len() - 2] {
            0int
        } else {
            1int
        }
    }
}

/// After the click rule ran over a non-decreasing sequence of rows all
/// beyond `last0`, the last clicked row is the last row attained.
proof fn lemma_detector_last_is_max(rows: Seq<int>, last0: int)
    requires
        monotone(rows),
        forall|i: int| 0 <= i < rows.len() ==> rows[i] > last0,
    ensures
        rows.len() == 0 ==> detector_last(rows, last0) == last0,
        rows.len() > 0 ==> detector_last(rows, last0) == rows.last(),
    decreases rows.len(),
{
    if rows.len() > 0 {
        let head = rows.drop_last();
        assert(forall|i: int| 0 <= i < head.len() ==> head[i] == rows[i]);
        lemma_detector_last_is_max(head, last0);
    }
}

/// The click rule fires exactly once per virtual row passed through:
/// over any non-decreasing sequence of attained rows, all beyond the
/// row last clicked before, the number of clicks equals the number of
/// distinct rows attained — whatever the tick granularity that
/// produced the sequence.
pub proof fn lemma_clicks_once_per_row(rows: Seq<int>, last0: int)
    requires
        monotone(rows),
        forall|i: int| 0 <= i < rows.len() ==> rows[i] > last0,
    ensures
        clicks_count(rows, last0) == distinct_count(rows),
    decreases rows.len(),
{
    if rows.len() > 0 {
        let head = rows.drop_last();
        assert(forall|i: int| 0 <= i < head.len() ==> head[i] == rows[i]);
        lemma_detector_last_is_max(head, last0);
        lemma_clicks_once_per_row(head, last0);
    }
}

} // verus!
