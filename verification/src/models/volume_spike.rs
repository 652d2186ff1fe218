//! Volume spikes: the volume of a day against the average of the days before.
use crate::date::Date;
use crate::models::technical_analysis::{DerivedFact, MetricKind};
use crate::price::Price;
use vstd::prelude::*;

verus! {

/// The ratio of a day's volume to the average volume of the `period` days before it.
#[derive(Debug, Copy, Clone, PartialEq, Default)]
pub struct VolumeSpike {
    pub date: Date,
    pub period: u32,
    pub value: Price,
}

/// Volume ratios over `PERIOD` days, in date order.
#[derive(Debug, Clone, PartialEq, Default)]
pub struct VolumeSpikes<const PERIOD: usize>(pub Vec<VolumeSpike>);

/// The value of a day as a derived fact of its period.
pub open spec fn spec_volume_spike_fact(x: VolumeSpike) -> DerivedFact {
    DerivedFact { metric: MetricKind::VolumeRatio, date: x.date, value: x.value, period: Some(x.period) }
}

impl<const PERIOD: usize> VolumeSpikes<PERIOD> {
    /// Each value as a derived fact, in order.
    pub fn to_derived_facts(&self) -> (r: Vec<DerivedFact>)
        ensures
            r@ == self.0@.map_values(|x: VolumeSpike| spec_volume_spike_fact(x)),
    {
        let mut out: Vec<DerivedFact> = Vec::new();
        let mut i: usize = 0;
        while i < self.0.len()
            invariant
                i <= self.0@.len(),
                out@ == self.0@.take(i as int).map_values(|x: VolumeSpike| spec_volume_spike_fact(x)),
            decreases self.0.len() - i,
        {
            let x = &self.0[i];
            out.push(
                DerivedFact {
                    metric: MetricKind::VolumeRatio,
                    date: x.date,
                    value: x.value,
                    period: Some(x.period),
                },
            );
            i = i + 1;
            assert(out@ =~= self.0@.take(i as int).map_values(|x: VolumeSpike| spec_volume_spike_fact(x)));
        }
        assert(self.0@.take(self.0@.len() as int) == self.0@);
        out
    }

    pub fn len(&self) -> (n: usize)
        ensures
            n == self.0@.len(),
    {
        self.0.len()
    }

    pub fn is_empty(&self) -> (b: bool)
        ensures
            b == (self.0@.len() == 0),
    {
        self.0.len() == 0
    }
}

} // verus!
