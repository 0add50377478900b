//! Shared data types: the per-source result and the aggregated snapshot.
//!
//! A snapshot is one complete aggregated reading across all sources at a
//! point in time. The core does not interpret the per-source payloads; each
//! is an opaque string handed over by a source adapter, or explicitly absent
//! when that adapter failed to fetch or parse its upstream document.

use vstd::prelude::*;

verus! {

/// One source adapter's output: an opaque payload, or explicitly absent.
/// Absence is a representable field state, never a propagated error.
pub enum SourceResult {
    Present(String),
    Absent,
}

impl SourceResult {
    /// Collapse an adapter outcome to a field state: a fetch or parse
    /// failure arrives here as `None` and becomes `Absent`.
    pub fn from_adapter(outcome: Option<String>) -> (r: Self)
        ensures
            r == source_result_spec(outcome),
    {
        match outcome {
            Some(payload) => SourceResult::Present(payload),
            None => SourceResult::Absent,
        }
    }
}

impl Clone for SourceResult {
    fn clone(&self) -> (r: Self)
        ensures
            r == *self,
    {
        match self {
            SourceResult::Present(payload) => SourceResult::Present(payload.clone()),
            SourceResult::Absent => SourceResult::Absent,
        }
    }
}

/// The field state that an adapter outcome collapses to.
pub open spec fn source_result_spec(outcome: Option<String>) -> SourceResult {
    match outcome {
        Some(payload) => SourceResult::Present(payload),
        None => SourceResult::Absent,
    }
}

/// One aggregated reading: the acceptance instant (Unix milliseconds), its
/// local hour of day, and one result per source role.
pub struct Snapshot {
    pub timestamp: i64,
    pub hour: u8,
    pub aws: SourceResult,
    pub forecast: SourceResult,
    pub forest_fire: SourceResult,
    pub particulates: SourceResult,
}

impl Snapshot {
    /// An hour of day is a value in 0..24.
    pub open spec fn wf(&self) -> bool {
        self.hour < 24
    }

    /// Fan-in of the aggregator: assemble one structurally complete snapshot
    /// from the settled adapter outcomes. Fields are assigned by role; a
    /// failed adapter contributes an absent field and never aborts the whole
    /// aggregation.
    pub fn assemble(
        timestamp: i64,
        hour: u8,
        aws: Option<String>,
        forecast: Option<String>,
        forest_fire: Option<String>,
        particulates: Option<String>,
    ) -> (r: Self)
        requires
            hour < 24,
        ensures
            r == assemble_spec(timestamp, hour, aws, forecast, forest_fire, particulates),
            r.wf(),
    {
        Snapshot {
            timestamp,
            hour,
            aws: SourceResult::from_adapter(aws),
            forecast: SourceResult::from_adapter(forecast),
            forest_fire: SourceResult::from_adapter(forest_fire),
            particulates: SourceResult::from_adapter(particulates),
        }
    }
}

impl Clone for Snapshot {
    fn clone(&self) -> (r: Self)
        ensures
            r == *self,
    {
        Snapshot {
            timestamp: self.timestamp,
            hour: self.hour,
            aws: self.aws.clone(),
            forecast: self.forecast.clone(),
            forest_fire: self.forest_fire.clone(),
            particulates: self.particulates.clone(),
        }
    }
}

/// The snapshot that `Snapshot::assemble` builds from the adapter outcomes.
pub open spec fn assemble_spec(
    timestamp: i64,
    hour: u8,
    aws: Option<String>,
    forecast: Option<String>,
    forest_fire: Option<String>,
    particulates: Option<String>,
) -> Snapshot {
    Snapshot {
        timestamp,
        hour,
        aws: source_result_spec(aws),
        forecast: source_result_spec(forecast),
        forest_fire: source_result_spec(forest_fire),
        particulates: source_result_spec(particulates),
    }
}

/// If every source adapter fails, the aggregation still yields a structurally
/// complete snapshot: the instant is kept and every per-source field is
/// absent.
pub proof fn lemma_all_adapters_failed(timestamp: i64, hour: u8)
    requires
        hour < 24,
    ensures
        ({
            let s = assemble_spec(timestamp, hour, None, None, None, None);
            &&& s.timestamp == timestamp
            &&& s.hour == hour
            &&& s.wf()
            &&& s.aws is Absent
            &&& s.forecast is Absent
            &&& s.forest_fire is Absent
            &&& s.particulates is Absent
        }),
{
}

} // verus!
