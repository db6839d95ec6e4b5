//! Keeps the number of logic ticks per displayed frame in step with the
//! display rate that the frontend selected.
//!
//! The negotiator never talks to the frontend. Its caller asks the frontend
//! whether any option changed, reads the selected display rate where the
//! negotiator wants it, and sends the frontend the timing that a
//! renegotiation hands back.

use vstd::prelude::*;
use crate::av_info::{av_info_at, frame_rate, timing_for, SystemAvInfo};
use crate::rate_table::{
    advertised_rates,
    lemma_multiplier_is_nearest,
    lemma_table_matches_advertised,
    table_entry,
    CoreLogicRate,
    RateTable,
};

verus! {

/// What a negotiator holds.
pub struct NegotiatorState {
    /// The logic rate whose table is consulted.
    pub rate: CoreLogicRate,
    /// The multiplier in force; `None` once the first lookup has failed.
    pub cached: Option<u32>,
    /// Whether no display rate has been looked up yet.
    pub first_time: bool,
}

/// What one query of the negotiator comes to.
#[derive(Clone, Copy, Debug, PartialEq, Eq)]
pub struct Negotiation {
    /// The multiplier for this displayed frame; `None` where the selected
    /// display rate has none.
    pub multiplier: Option<u32>,
    /// The timing to send to the frontend, where the multiplier has changed.
    pub push: Option<SystemAvInfo>,
}

/// The state after the selected display rate has been looked up. A rate with
/// a multiplier replaces the cached one. A rate without one leaves a cached
/// multiplier that was negotiated before as it is; on the first lookup
/// nothing was negotiated before, and no multiplier is left.
pub open spec fn renegotiated(state: NegotiatorState, selected: Seq<char>) -> NegotiatorState {
    NegotiatorState {
        rate: state.rate,
        cached: match table_entry(state.rate, selected) {
            Some(multiplier) => Some(multiplier),
            None => if state.first_time {
                None
            } else {
                state.cached
            },
        },
        first_time: false,
    }
}

/// What looking up the selected display rate hands back: the multiplier of
/// the rate, and the new timing where that multiplier is not the cached one.
pub open spec fn renegotiation(state: NegotiatorState, selected: Seq<char>) -> Negotiation {
    match table_entry(state.rate, selected) {
        Some(multiplier) => Negotiation {
            multiplier: Some(multiplier),
            push: if state.cached == Some(multiplier) {
                None
            } else {
                Some(av_info_at(frame_rate(state.rate, multiplier)))
            },
        },
        None => Negotiation { multiplier: None, push: None },
    }
}

/// Whether a query must look the selected display rate up: on the first
/// query, and whenever the frontend reports a changed option.
pub open spec fn refresh_needed(state: NegotiatorState, changed: bool) -> bool {
    state.first_time || changed
}

/// The state after a query.
pub open spec fn queried(state: NegotiatorState, changed: bool, selected: Seq<char>)
    -> NegotiatorState {
    if refresh_needed(state, changed) {
        renegotiated(state, selected)
    } else {
        state
    }
}

/// What a query hands back.
pub open spec fn query_result(state: NegotiatorState, changed: bool, selected: Seq<char>)
    -> Negotiation {
    if refresh_needed(state, changed) {
        renegotiation(state, selected)
    } else {
        Negotiation { multiplier: state.cached, push: None }
    }
}

/// Whether a state can be reached: a cached multiplier is positive, and once
/// a display rate has been looked up it is a multiplier of the table.
pub open spec fn reachable(state: NegotiatorState) -> bool {
    match state.cached {
        Some(multiplier) => multiplier > 0 && (state.first_time || exists|text: Seq<char>|
            table_entry(state.rate, text) == Some(multiplier)),
        None => !state.first_time,
    }
}

/// A query leads from a state that can be reached to one that can be
/// reached: the cached multiplier stays positive and of the table.
pub proof fn lemma_query_keeps_reachable(state: NegotiatorState, changed: bool, selected: Seq<char>)
    requires
        reachable(state),
    ensures
        reachable(queried(state, changed, selected)),
{
    if refresh_needed(state, changed) {
        match table_entry(state.rate, selected) {
            Some(multiplier) => {
                lemma_multiplier_is_nearest(state.rate, selected);
            },
            None => {},
        }
    }
}

/// A display rate that the profile does not offer has no multiplier. Where
/// the frontend reports a change and then holds such a rate, a multiplier
/// that was negotiated before stays cached, the query hands back no
/// multiplier, and nothing is sent to the frontend.
pub proof fn lemma_unsupported_rate_keeps_cached(state: NegotiatorState, selected: Seq<char>)
    requires
        !state.first_time,
        !advertised_rates(state.rate).contains(selected),
    ensures
        table_entry(state.rate, selected) is None,
        queried(state, true, selected) == state,
        query_result(state, true, selected) == (Negotiation { multiplier: None, push: None }),
{
    lemma_table_matches_advertised(state.rate, selected);
}

/// After any query, a query for which the frontend reports no change hands
/// back the cached multiplier, sends nothing to the frontend and leaves the
/// state as it is, whatever display rate is passed along.
pub proof fn lemma_quiet_query_is_idempotent(
    state: NegotiatorState,
    changed: bool,
    selected: Seq<char>,
    ignored: Seq<char>,
)
    ensures
        ({
            let after = queried(state, changed, selected);
            &&& queried(after, false, ignored) == after
            &&& query_result(after, false, ignored) == (Negotiation {
                multiplier: after.cached,
                push: None,
            })
        }),
{
}

/// Timing is sent to the frontend exactly when the selected display rate has
/// a multiplier that is not the cached one, and then it holds the logic rate
/// over that multiplier as its frame rate.
pub proof fn lemma_push_follows_change(state: NegotiatorState, changed: bool, selected: Seq<char>)
    ensures
        ({
            let outcome = query_result(state, changed, selected);
            let entry = table_entry(state.rate, selected);
            &&& outcome.push is Some <==> refresh_needed(state, changed) && entry is Some && entry
                != state.cached
            &&& outcome.push matches Some(info) ==> info.timing.fps.numerator == state.rate.nominal()
                && Some(info.timing.fps.denominator) == queried(state, changed, selected).cached
        }),
{
}

/// The cached multiplier is the one that was accepted last: where a query
/// hands back a multiplier, that multiplier is cached after it; and the
/// cache changes only where a query looks a display rate up.
pub proof fn lemma_cache_holds_last_accepted(
    state: NegotiatorState,
    changed: bool,
    selected: Seq<char>,
)
    ensures
        ({
            let outcome = query_result(state, changed, selected);
            let after = queried(state, changed, selected);
            &&& outcome.multiplier is Some ==> after.cached == outcome.multiplier
            &&& !refresh_needed(state, changed) ==> after.cached == state.cached
            &&& after.rate == state.rate
        }),
{
}

/// The cache of the tick multiplier.
pub struct RateNegotiator {
    rate: CoreLogicRate,
    cached_frame_mult: Option<u32>,
    first_time: bool,
}

impl View for RateNegotiator {
    type V = NegotiatorState;

    closed spec fn view(&self) -> NegotiatorState {
        NegotiatorState {
            rate: self.rate,
            cached: self.cached_frame_mult,
            first_time: self.first_time,
        }
    }
}

impl RateNegotiator {
    #[verifier::type_invariant]
    closed spec fn well_formed(&self) -> bool {
        reachable(self@)
    }

    /// A negotiator that has not looked up any display rate yet. Until it
    /// has, it takes one tick per displayed frame as the multiplier that the
    /// frontend knows.
    pub fn new(rate: CoreLogicRate) -> (negotiator: RateNegotiator)
        ensures
            negotiator@ == (NegotiatorState { rate, cached: Some(1u32), first_time: true }),
    {
        RateNegotiator { rate, cached_frame_mult: Some(1), first_time: true }
    }

    /// The logic rate whose table is consulted.
    pub fn rate(&self) -> (rate: CoreLogicRate)
        ensures
            rate == self@.rate,
    {
        self.rate
    }

    /// The multiplier in force, which is positive.
    pub fn cached_multiplier(&self) -> (cached: Option<u32>)
        ensures
            cached == self@.cached,
            reachable(self@),
            cached matches Some(multiplier) ==> multiplier > 0,
    {
        proof {
            use_type_invariant(self);
        }
        self.cached_frame_mult
    }

    /// Whether the next query must be given the display rate that the
    /// frontend selected.
    pub fn needs_refresh(&self, changed: bool) -> (needed: bool)
        ensures
            needed == refresh_needed(self@, changed),
    {
        self.first_time || changed
    }

    /// Looks the selected display rate up and takes its multiplier.
    pub fn renegotiate(&mut self, selected: &str) -> (outcome: Negotiation)
        ensures
            final(self)@ == renegotiated(old(self)@, selected@),
            outcome == renegotiation(old(self)@, selected@),
    {
        proof {
            use_type_invariant(&*self);
        }
        let rate = self.rate;
        let new_frame_mult = RateTable::new(rate).lookup(selected);
        match new_frame_mult {
            Some(multiplier) => {
                proof {
                    lemma_multiplier_is_nearest(rate, selected@);
                    assert(table_entry(rate, selected@) == Some(multiplier));
                }
                let unchanged = match self.cached_frame_mult {
                    Some(cached) => cached == multiplier,
                    None => false,
                };
                *self = RateNegotiator {
                    rate,
                    cached_frame_mult: Some(multiplier),
                    first_time: false,
                };
                if unchanged {
                    Negotiation { multiplier: Some(multiplier), push: None }
                } else {
                    Negotiation {
                        multiplier: Some(multiplier),
                        push: Some(timing_for(rate, multiplier)),
                    }
                }
            },
            None => {
                let kept = if self.first_time {
                    None
                } else {
                    self.cached_frame_mult
                };
                *self = RateNegotiator { rate, cached_frame_mult: kept, first_time: false };
                Negotiation { multiplier: None, push: None }
            },
        }
    }

    /// The multiplier for the displayed frame that begins. `changed` is what
    /// the frontend answered when asked whether any option changed since it
    /// was last asked; `selected` is the display rate that it holds, and is
    /// read only where `needs_refresh(changed)` holds.
    pub fn get_multiplier(&mut self, changed: bool, selected: &str) -> (outcome: Negotiation)
        ensures
            final(self)@ == queried(old(self)@, changed, selected@),
            outcome == query_result(old(self)@, changed, selected@),
    {
        if self.first_time || changed {
            self.renegotiate(selected)
        } else {
            Negotiation { multiplier: self.cached_frame_mult, push: None }
        }
    }
}

} // verus!
