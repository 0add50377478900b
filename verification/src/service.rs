//! The whole core behind one synchronized boundary: the refresh gate and the
//! history ledger as one state value, so a caller that serializes access to
//! it (a mutex, an actor) gets the atomic append-and-prune the design asks
//! for. A read runs gate check, optional refresh, then projection, in that
//! order; the outside work between the steps — fetching the upstream
//! documents — happens between the calls, at the caller's edge.

use vstd::prelude::*;
use crate::clock::local_hour_of_millis;
use crate::gate::{refresh_due, RefreshGate};
use crate::history::{appended, retained, wf_seq, History};
use crate::page::{read, resolved_index, PageResult};
use crate::snapshot::{assemble_spec, Snapshot};

verus! {

/// The core's state: the shared last-refresh cell and the snapshot history.
pub struct WeatherService {
    gate: RefreshGate,
    history: History,
}

impl View for WeatherService {
    type V = Seq<Snapshot>;

    closed spec fn view(&self) -> Seq<Snapshot> {
        self.history@
    }
}

impl WeatherService {
    /// The instant of the last claimed refresh.
    pub closed spec fn last_refresh(&self) -> int {
        self.gate.last_refresh()
    }

    /// Well-formed service: the history is well formed and nothing in it was
    /// accepted after the last claimed refresh.
    pub open spec fn wf(&self) -> bool {
        &&& wf_seq(self@)
        &&& self@.len() > 0 ==> self@.last().timestamp <= self.last_refresh()
    }

    /// A fresh service: empty history, last refresh at the epoch, so the
    /// first read claims a refresh at once.
    pub fn new() -> (r: Self)
        ensures
            r@ =~= Seq::<Snapshot>::empty(),
            r.last_refresh() == 0,
            r.wf(),
    {
        WeatherService { gate: RefreshGate::new(), history: History::new() }
    }

    /// The instant of the last claimed refresh, as a plain value.
    pub fn last_refresh_millis(&self) -> (r: i64)
        ensures
            r == self.last_refresh(),
    {
        self.gate.last_refresh_millis()
    }

    /// The claim step of a read: takes the refresh slot if and only if a
    /// refresh falls due at `now`. Check and claim are one step, so two
    /// concurrent reads serialized on this state cannot both claim.
    pub fn check_and_claim(&mut self, now: i64) -> (due: bool)
        requires
            old(self).wf(),
        ensures
            due == refresh_due(old(self).last_refresh(), now as int),
            due ==> final(self).last_refresh() == now,
            !due ==> final(self).last_refresh() == old(self).last_refresh(),
            final(self)@ == old(self)@,
            final(self).wf(),
    {
        self.gate.check_and_claim(now)
    }

    /// Hand one assembled snapshot to the ledger. Claim-then-fetch stamps
    /// the snapshot with the claim instant, so the snapshot carries `now`
    /// and the refresh state already holds it.
    pub fn accept_snapshot(&mut self, s: Snapshot, now: i64)
        requires
            old(self).wf(),
            s.wf(),
            s.timestamp == now,
            old(self).last_refresh() == now,
        ensures
            final(self)@ == appended(old(self)@, s, now as int),
            final(self).last_refresh() == now,
            final(self).wf(),
    {
        self.history.append(s, now);
        proof {
            assert(retained(s, now as int));
        }
    }

    /// One whole refresh: derive the local hour of day of `now`, assemble a
    /// snapshot from the settled adapter outcomes, and merge it into the
    /// history. The hour comes from the machine's time zone, so the contract
    /// states it only as some valid hour.
    pub fn refresh_with(
        &mut self,
        now: i64,
        aws: Option<String>,
        forecast: Option<String>,
        forest_fire: Option<String>,
        particulates: Option<String>,
    )
        requires
            old(self).wf(),
            old(self).last_refresh() == now,
        ensures
            final(self).last_refresh() == now,
            final(self).wf(),
            exists|h: u8|
                h < 24 && final(self)@ == appended(
                    old(self)@,
                    assemble_spec(now, h, aws, forecast, forest_fire, particulates),
                    now as int,
                ),
    {
        let hour: u8 = match local_hour_of_millis(now) {
            Some(h) => if h < 24 {
                h as u8
            } else {
                0
            },
            None => 0,
        };
        let s = Snapshot::assemble(now, hour, aws, forecast, forest_fire, particulates);
        self.accept_snapshot(s, now);
        proof {
            assert(hour < 24 && self@ == appended(
                old(self)@,
                assemble_spec(now, hour, aws, forecast, forest_fire, particulates),
                now as int,
            ));
        }
    }

    /// Serve one snapshot by ordinal position from the current history,
    /// defaulting to the latest; an out-of-range index is a soft miss.
    pub fn read_page(&self, index: Option<usize>) -> (r: PageResult)
        ensures
            r.length == self@.len(),
            r.current == resolved_index(index, self@.len() as int),
            r.current < self@.len() ==> (r.data matches Some(s) && s == self@[r.current as int]),
            r.current >= self@.len() ==> r.data is None,
    {
        read(&self.history, index)
    }
}

} // verus!
