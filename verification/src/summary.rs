//! What a track file tells about the activity beside the track itself.

use vstd::prelude::*;
use crate::track::TrackPoint;

verus! {

/// The totals and samples of an activity read from a TCX file.
#[derive(Debug, Clone, Default)]
pub struct TcxExtraData {
    pub sport: Option<String>,
    pub total_time_ms: u64,
    pub total_distance_mm: u64,
    pub total_calories: u64,
    /// Millimetres per second.
    pub max_speed: u64,
    /// Beats per minute.
    pub heart_rates: Vec<u32>,
    /// Per minute.
    pub cadences: Vec<u32>,
}

/// The totals and samples of an activity read from a FIT file.
#[derive(Debug, Clone, Default)]
pub struct FitExtraData {
    pub sport: Option<String>,
    pub device_name: Option<String>,
    pub manufacturer: Option<String>,
    pub total_time_ms: u64,
    pub total_distance_mm: u64,
    pub total_calories: u64,
    /// Millimetres per second.
    pub max_speed: u64,
    /// Beats per minute.
    pub heart_rates: Vec<u32>,
    /// Per minute.
    pub cadences: Vec<u32>,
    /// Millimetres per second.
    pub speeds: Vec<u32>,
    /// Watts.
    pub powers: Vec<u32>,
}

/// A track read from a file of any kind, with the totals and samples where
/// the kind of file tells them.
pub struct TrackFileData {
    pub track: Vec<TrackPoint>,
    pub extra_data: Option<TcxExtraData>,
}

/// The sum of the values.
pub open spec fn sum_of(values: Seq<u32>) -> nat
    decreases values.len(),
{
    if values.len() == 0 {
        0
    } else {
        sum_of(values.drop_last()) + values.last() as nat
    }
}

/// The mean of the values, rounded down; none of no values.
pub open spec fn mean_of(values: Seq<u32>) -> Option<u32> {
    if values.len() == 0 {
        None
    } else {
        Some((sum_of(values) / values.len()) as u32)
    }
}

/// Whether `m` is the largest of the values.
pub open spec fn is_largest(m: u32, values: Seq<u32>) -> bool {
    &&& exists|i: int| 0 <= i < values.len() && #[trigger] values[i] == m
    &&& forall|i: int| 0 <= i < values.len() ==> #[trigger] values[i] <= m
}

/// The sum of the values is at most as many times the largest number of
/// their type.
pub proof fn lemma_sum_bounded(values: Seq<u32>)
    ensures
        sum_of(values) <= values.len() * u32::MAX,
    decreases values.len(),
{
    if values.len() > 0 {
        lemma_sum_bounded(values.drop_last());
        assert((values.len() - 1) * u32::MAX + u32::MAX == values.len() * u32::MAX)
            by (nonlinear_arith);
    }
}

/// The mean of the values, rounded down; none of no values.
pub fn mean(values: &Vec<u32>) -> (m: Option<u32>)
    ensures
        m == mean_of(values@),
{
    if values.len() == 0 {
        return None;
    }
    let mut sum: u128 = 0;
    let mut i: usize = 0;
    while i < values.len()
        invariant
            i <= values.len(),
            sum == sum_of(values@.take(i as int)),
        decreases values.len() - i,
    {
        proof {
            lemma_sum_bounded(values@.take(i as int));
            assert(values@.take(i + 1).drop_last() =~= values@.take(i as int));
            assert(i * u32::MAX + u32::MAX <= u128::MAX) by (nonlinear_arith)
                requires
                    0 <= i <= 0xffff_ffff_ffff_ffff,
            ;
        }
        sum = sum + (values[i] as u128);
        i += 1;
    }
    assert(values@.take(i as int) =~= values@);
    proof {
        lemma_sum_bounded(values@);
        let n = values@.len() as int;
        assert(sum_of(values@) / (n as nat) <= u32::MAX) by (nonlinear_arith)
            requires
                sum_of(values@) <= n * u32::MAX,
                n > 0,
        ;
        assert(sum_of(values@) / (n as nat) >= 0) by (nonlinear_arith)
            requires
                n > 0,
        ;
    }
    Some((sum / (values.len() as u128)) as u32)
}

/// The largest of the values; none of no values.
pub fn largest(values: &Vec<u32>) -> (m: Option<u32>)
    ensures
        match m {
            Some(x) => is_largest(x, values@),
            None => values.len() == 0,
        },
{
    if values.len() == 0 {
        return None;
    }
    let mut best: u32 = values[0];
    let mut i: usize = 1;
    while i < values.len()
        invariant
            1 <= i <= values.len(),
            exists|k: int| 0 <= k < i && #[trigger] values[k] == best,
            forall|k: int| 0 <= k < i ==> #[trigger] values[k] <= best,
        decreases values.len() - i,
    {
        if values[i] > best {
            best = values[i];
        }
        i += 1;
    }
    Some(best)
}

/// Millimetres per second for a distance covered in a time, rounded down;
/// none where no time has passed.
pub open spec fn pace_of(distance_mm: u64, time_ms: u64) -> Option<u128> {
    if time_ms > 0 {
        Some(((distance_mm * 1000) / (time_ms as int)) as u128)
    } else {
        None
    }
}

impl TcxExtraData {
    /// The mean heart rate in beats per minute.
    pub fn average_heart_rate(&self) -> (m: Option<u32>)
        ensures
            m == mean_of(self.heart_rates@),
    {
        mean(&self.heart_rates)
    }

    /// The highest heart rate in beats per minute.
    pub fn max_heart_rate(&self) -> (m: Option<u32>)
        ensures
            match m {
                Some(x) => is_largest(x, self.heart_rates@),
                None => self.heart_rates.len() == 0,
            },
    {
        largest(&self.heart_rates)
    }

    /// The mean cadence per minute.
    pub fn average_cadence(&self) -> (m: Option<u32>)
        ensures
            m == mean_of(self.cadences@),
    {
        mean(&self.cadences)
    }

    /// The highest cadence per minute.
    pub fn max_cadence(&self) -> (m: Option<u32>)
        ensures
            match m {
                Some(x) => is_largest(x, self.cadences@),
                None => self.cadences.len() == 0,
            },
    {
        largest(&self.cadences)
    }

    /// The mean speed in millimetres per second: the whole distance over
    /// the whole time. None where no time was recorded.
    pub fn average_speed(&self) -> (v: Option<u128>)
        ensures
            v == pace_of(self.total_distance_mm, self.total_time_ms),
    {
        if self.total_time_ms > 0 {
            let wide: u128 = (self.total_distance_mm as u128) * 1000;
            Some(wide / (self.total_time_ms as u128))
        } else {
            None
        }
    }
}

impl FitExtraData {
    /// The same activity as the totals and samples of a TCX file.
    pub fn to_tcx_extra_data(self) -> (data: TcxExtraData)
        ensures
            data.sport == self.sport,
            data.total_time_ms == self.total_time_ms,
            data.total_distance_mm == self.total_distance_mm,
            data.total_calories == self.total_calories,
            data.max_speed == self.max_speed,
            data.heart_rates == self.heart_rates,
            data.cadences == self.cadences,
    {
        TcxExtraData {
            sport: self.sport,
            total_time_ms: self.total_time_ms,
            total_distance_mm: self.total_distance_mm,
            total_calories: self.total_calories,
            max_speed: self.max_speed,
            heart_rates: self.heart_rates,
            cadences: self.cadences,
        }
    }

    /// The mean heart rate in beats per minute.
    pub fn average_heart_rate(&self) -> (m: Option<u32>)
        ensures
            m == mean_of(self.heart_rates@),
    {
        mean(&self.heart_rates)
    }

    /// The mean cadence per minute.
    pub fn average_cadence(&self) -> (m: Option<u32>)
        ensures
            m == mean_of(self.cadences@),
    {
        mean(&self.cadences)
    }

    /// The mean of the speeds sampled, in millimetres per second.
    pub fn average_speed(&self) -> (m: Option<u32>)
        ensures
            m == mean_of(self.speeds@),
    {
        mean(&self.speeds)
    }

    /// The mean power in watts.
    pub fn average_power(&self) -> (m: Option<u32>)
        ensures
            m == mean_of(self.powers@),
    {
        mean(&self.powers)
    }

    /// The highest heart rate in beats per minute.
    pub fn max_heart_rate(&self) -> (m: Option<u32>)
        ensures
            match m {
                Some(x) => is_largest(x, self.heart_rates@),
                None => self.heart_rates.len() == 0,
            },
    {
        largest(&self.heart_rates)
    }

    /// The highest cadence per minute.
    pub fn max_cadence(&self) -> (m: Option<u32>)
        ensures
            match m {
                Some(x) => is_largest(x, self.cadences@),
                None => self.cadences.len() == 0,
            },
    {
        largest(&self.cadences)
    }

    /// The highest power in watts.
    pub fn max_power(&self) -> (m: Option<u32>)
        ensures
            match m {
                Some(x) => is_largest(x, self.powers@),
                None => self.powers.len() == 0,
            },
    {
        largest(&self.powers)
    }
}

} // verus!
