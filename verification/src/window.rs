//! Bounded, auto-scaling time-series windows of the telemetry.
//!
//! One window per metric holds `(timestamp, value)` samples newest-first,
//! bounded by a time horizon measured against the newest sample's timestamp,
//! never against wall-clock time, so a paused client never silently empties
//! its buffer. Display bounds only ever grow on out-of-range samples; every
//! mutation clears the render-cache flag.
//!
//! Timestamps are milliseconds; measurements are fixed-point values in
//! hundredths of the metric's physical unit, which keeps the proportional
//! headroom rule exact integer arithmetic.

use std::collections::VecDeque;
use vstd::prelude::*;

verus! {

/// The retention horizon: a sample older than this, measured against the
/// newest sample's timestamp, is evicted.
pub const TIME_HORIZON_MS: i64 = 300_000;

/// Largest admissible magnitude of a sample value, in hundredths of a unit.
pub const VALUE_LIMIT: i64 = 1_000_000_000_000;

/// Largest magnitude the display bounds can reach: an out-of-range sample
/// expands a bound by a twentieth of its distance to the opposite bound, so
/// bounds stay within this limit whenever samples stay within `VALUE_LIMIT`.
pub const BOUND_LIMIT: i64 = 1_200_000_000_000;

/// Largest admissible timestamp, in milliseconds.
pub const TS_LIMIT: i64 = 4_000_000_000_000_000;

/// One timestamped snapshot of the telemetry. The scalar fields are read from
/// the device one after another, not atomically: later fields may reflect a
/// slightly later device state than earlier ones in the same snapshot.
pub struct MonitoringData {
    /// Capture-start time, milliseconds.
    pub timestamp: i64,
    pub tec_temperature: i64,
    pub pcb_temperature: i64,
    pub humidity: i64,
    pub dew_point_temperature: i64,
    pub tec_voltage: i64,
    pub tec_current: i64,
    /// Power level in whole percent, as the device reports it.
    pub tec_power_level: u8,
}

impl MonitoringData {
    pub open spec fn wf(self) -> bool {
        &&& 0 <= self.timestamp <= TS_LIMIT
        &&& -VALUE_LIMIT <= self.tec_temperature <= VALUE_LIMIT
        &&& -VALUE_LIMIT <= self.pcb_temperature <= VALUE_LIMIT
        &&& -VALUE_LIMIT <= self.humidity <= VALUE_LIMIT
        &&& -VALUE_LIMIT <= self.dew_point_temperature <= VALUE_LIMIT
        &&& -VALUE_LIMIT <= self.tec_voltage <= VALUE_LIMIT
        &&& -VALUE_LIMIT <= self.tec_current <= VALUE_LIMIT
    }
}

/// The upper display bound after seeing `value`: unchanged while the value is
/// within it, expanded past the value by a twentieth of the value's distance
/// to the lower bound otherwise.
pub open spec fn spec_rescaled_max(min: int, max: int, value: int) -> int {
    if value > max {
        value + (value - min) / 20
    } else {
        max
    }
}

/// The lower display bound after seeing `value`, symmetric to
/// `spec_rescaled_max`.
pub open spec fn spec_rescaled_min(min: int, max: int, value: int) -> int {
    if value < min {
        value - (min - value) / 20
    } else {
        min
    }
}

/// Whether a sample at `sample_ms` leaves the window whose newest sample is
/// at `cur_ms`: it is older than the horizon, or newer than the reference
/// instant itself (a negative age, which the horizon arithmetic treats as
/// out of range).
pub open spec fn spec_should_evict(cur_ms: int, sample_ms: int, limit_ms: int) -> bool {
    cur_ms - sample_ms > limit_ms || cur_ms - sample_ms < 0
}

/// The sequence left after evicting from the back while the oldest retained
/// sample is out of the horizon measured at `cur_ms`.
pub open spec fn spec_evict(data: Seq<(i64, i64)>, cur_ms: int, limit_ms: int) -> Seq<(i64, i64)>
    decreases data.len(),
{
    if data.len() > 0 && spec_should_evict(cur_ms, data.last().0 as int, limit_ms) {
        spec_evict(data.drop_last(), cur_ms, limit_ms)
    } else {
        data
    }
}

/// Eviction strips a suffix: what remains is an unchanged prefix of the
/// sequence it started from.
pub proof fn lemma_evict_is_prefix(data: Seq<(i64, i64)>, cur_ms: int, limit_ms: int)
    ensures
        spec_evict(data, cur_ms, limit_ms).len() <= data.len(),
        forall|i: int|
            0 <= i < spec_evict(data, cur_ms, limit_ms).len() ==> spec_evict(
                data,
                cur_ms,
                limit_ms,
            )[i] == data[i],
    decreases data.len(),
{
    if data.len() > 0 && spec_should_evict(cur_ms, data.last().0 as int, limit_ms) {
        lemma_evict_is_prefix(data.drop_last(), cur_ms, limit_ms);
        let kept = spec_evict(data, cur_ms, limit_ms);
        assert forall|i: int| 0 <= i < kept.len() implies kept[i] == data[i] by {
            assert(kept[i] == data.drop_last()[i]);
        }
    }
}

/// A rolling time window of one metric's samples, newest at the front, with
/// its auto-scaling display bounds and the render-cache flag the drawing
/// layer may use to skip a redraw.
pub struct MonitoringChart {
    pub title: String,
    pub min: i64,
    pub max: i64,
    pub unit: String,
    pub cache_valid: bool,
    pub data_points: VecDeque<(i64, i64)>,
    pub limit_ms: i64,
}

impl MonitoringChart {
    /// Well-formedness: the display bounds are ordered and within the range
    /// the expansion rule preserves, the horizon is the fixed retention
    /// horizon, and every retained timestamp is admissible.
    pub open spec fn wf(self) -> bool {
        &&& -BOUND_LIMIT <= self.min
        &&& self.min <= self.max
        &&& self.max <= BOUND_LIMIT
        &&& self.limit_ms == TIME_HORIZON_MS
        &&& forall|i: int|
            0 <= i < self.data_points@.len() ==> 0 <= #[trigger] self.data_points@[i].0
                <= TS_LIMIT
    }

    /// How one appended sample relates the window after to the window
    /// before: bounds rescaled by the headroom rule, the sample inserted at
    /// the front, the out-of-horizon tail evicted with the new sample's
    /// timestamp as the reference instant, and the render cache invalidated.
    pub open spec fn spec_push_rel(
        pre: MonitoringChart,
        post: MonitoringChart,
        time_ms: i64,
        value: i64,
    ) -> bool {
        &&& post.title@ == pre.title@
        &&& post.unit@ == pre.unit@
        &&& post.limit_ms == pre.limit_ms
        &&& post.min == spec_rescaled_min(pre.min as int, pre.max as int, value as int)
        &&& post.max == spec_rescaled_max(pre.min as int, pre.max as int, value as int)
        &&& post.data_points@ == spec_evict(
            seq![(time_ms, value)] + pre.data_points@,
            time_ms as int,
            pre.limit_ms as int,
        )
        &&& !post.cache_valid
    }

    /// Builds a window over the given samples (newest first) with its label,
    /// unit and initial display range. The range seeds the auto-scale; it is
    /// no hard clamp.
    pub fn new(data: Vec<(i64, i64)>, title: String, min: i64, max: i64, unit: String) -> (r:
        MonitoringChart)
        requires
            -BOUND_LIMIT <= min <= max <= BOUND_LIMIT,
            forall|i: int| 0 <= i < data@.len() ==> 0 <= #[trigger] data@[i].0 <= TS_LIMIT,
        ensures
            r.wf(),
            r.title@ == title@,
            r.unit@ == unit@,
            r.min == min,
            r.max == max,
            r.data_points@ == data@,
            !r.cache_valid,
    {
        let mut points: VecDeque<(i64, i64)> = VecDeque::new();
        let mut idx: usize = 0;
        while idx < data.len()
            invariant
                idx <= data@.len(),
                points@ == data@.take(idx as int),
            decreases data@.len() - idx,
        {
            points.push_back(data[idx]);
            idx = idx + 1;
            proof {
                assert(data@.take(idx as int) =~= data@.take(idx - 1).push(data@[idx - 1]));
            }
        }
        proof {
            assert(data@.take(data@.len() as int) =~= data@);
        }
        MonitoringChart {
            title,
            min,
            max,
            unit,
            cache_valid: false,
            data_points: points,
            limit_ms: TIME_HORIZON_MS,
        }
    }

    /// Appends one sample: rescales the bounds if the value falls outside
    /// them, inserts the sample at the front, evicts from the back every
    /// sample out of the horizon measured against this sample's timestamp,
    /// and marks the render cache dirty. Bounds only ever grow here; they
    /// are never shrunk by new samples.
    pub fn push_data(&mut self, time_ms: i64, value: i64)
        requires
            old(self).wf(),
            -VALUE_LIMIT <= value <= VALUE_LIMIT,
            0 <= time_ms <= TS_LIMIT,
        ensures
            final(self).wf(),
            MonitoringChart::spec_push_rel(*old(self), *final(self), time_ms, value),
    {
        if value > self.max {
            let span = value - self.min;
            self.max = value + span / 20;
        }
        if value < self.min {
            let span = self.min - value;
            self.min = value - span / 20;
        }
        self.data_points.push_front((time_ms, value));
        let ghost s0 = self.data_points@;
        let ghost pre = *self;
        loop
            invariant
                self.title == pre.title,
                self.unit == pre.unit,
                self.min == pre.min,
                self.max == pre.max,
                self.cache_valid == pre.cache_valid,
                self.limit_ms == pre.limit_ms,
                0 <= time_ms <= TS_LIMIT,
                forall|i: int|
                    0 <= i < self.data_points@.len() ==> 0 <= #[trigger] self.data_points@[i].0
                        <= TS_LIMIT,
                spec_evict(self.data_points@, time_ms as int, self.limit_ms as int) == spec_evict(
                    s0,
                    time_ms as int,
                    self.limit_ms as int,
                ),
            ensures
                self.data_points@ == spec_evict(s0, time_ms as int, self.limit_ms as int),
            decreases self.data_points@.len(),
        {
            let n = self.data_points.len();
            if n == 0 {
                break;
            }
            let last: (i64, i64) = self.data_points[n - 1];
            let diff = time_ms - last.0;
            if diff > self.limit_ms || diff < 0 {
                let ghost before = self.data_points@;
                self.data_points.pop_back();
                proof {
                    assert(self.data_points@ =~= before.drop_last());
                    assert(spec_evict(before, time_ms as int, self.limit_ms as int) == spec_evict(
                        before.drop_last(),
                        time_ms as int,
                        self.limit_ms as int,
                    ));
                }
            } else {
                break;
            }
        }
        self.cache_valid = false;
        proof {
            lemma_evict_is_prefix(s0, time_ms as int, pre.limit_ms as int);
        }
    }

    pub fn data_len(&self) -> (r: usize)
        ensures
            r == self.data_points@.len(),
    {
        self.data_points.len()
    }

    /// The retained sample at `index`, newest first.
    pub fn sample_at(&self, index: usize) -> (r: (i64, i64))
        requires
            index < self.data_points@.len(),
        ensures
            r == self.data_points@[index as int],
    {
        self.data_points[index]
    }

    /// The current display bounds, `(min, max)`.
    pub fn bounds(&self) -> (r: (i64, i64))
        ensures
            r.0 == self.min,
            r.1 == self.max,
    {
        (self.min, self.max)
    }

    /// The metric's semantic label.
    pub fn title(&self) -> (r: &String)
        ensures
            r@ == self.title@,
    {
        &self.title
    }

    /// The metric's physical unit string.
    pub fn unit(&self) -> (r: &String)
        ensures
            r@ == self.unit@,
    {
        &self.unit
    }

    pub fn is_cache_valid(&self) -> (r: bool)
        ensures
            r == self.cache_valid,
    {
        self.cache_valid
    }

    /// The drawing layer calls this after rendering the window, so redraws
    /// can be skipped until the next mutation.
    pub fn mark_cache_drawn(&mut self)
        ensures
            *final(self) == (MonitoringChart { cache_valid: true, ..*old(self) }),
    {
        self.cache_valid = true;
    }
}

/// Auto-scale growth: the display bounds never shrink on a new sample, stay
/// ordered, and stay exactly where they were for a sample already inside
/// them.
pub proof fn lemma_auto_scale_monotonic(min: int, max: int, value: int)
    requires
        min <= max,
    ensures
        spec_rescaled_max(min, max, value) >= max,
        spec_rescaled_min(min, max, value) <= min,
        spec_rescaled_min(min, max, value) <= spec_rescaled_max(min, max, value),
        min <= value <= max ==> spec_rescaled_max(min, max, value) == max && spec_rescaled_min(
            min,
            max,
            value,
        ) == min,
{
}

/// Whether the window's samples are ordered by arrival: newest first, so
/// timestamps never increase from front to back.
pub open spec fn spec_time_ordered(data: Seq<(i64, i64)>) -> bool {
    forall|i: int, j: int| 0 <= i <= j < data.len() ==> (#[trigger] data[i]).0 >= (#[trigger] data[j]).0
}

/// Time-horizon eviction: when samples arrive in time order and the
/// reference instant is the newest sample's timestamp, every retained sample
/// is within the horizon of that instant — strictly older samples leave, a
/// sample exactly at the horizon stays.
pub proof fn lemma_time_horizon_eviction(data: Seq<(i64, i64)>, cur_ms: int, limit_ms: int)
    requires
        spec_time_ordered(data),
        data.len() > 0 ==> cur_ms >= data[0].0,
        limit_ms >= 0,
    ensures
        forall|i: int|
            0 <= i < spec_evict(data, cur_ms, limit_ms).len() ==> 0 <= cur_ms - (
            #[trigger] spec_evict(data, cur_ms, limit_ms)[i]).0 <= limit_ms,
        spec_time_ordered(spec_evict(data, cur_ms, limit_ms)),
    decreases data.len(),
{
    lemma_evict_is_prefix(data, cur_ms, limit_ms);
    let kept = spec_evict(data, cur_ms, limit_ms);
    if data.len() > 0 && spec_should_evict(cur_ms, data.last().0 as int, limit_ms) {
        assert(spec_time_ordered(data.drop_last()));
        lemma_time_horizon_eviction(data.drop_last(), cur_ms, limit_ms);
        assert(kept == spec_evict(data.drop_last(), cur_ms, limit_ms));
    } else {
        if data.len() > 0 {
            assert forall|i: int| 0 <= i < kept.len() implies 0 <= cur_ms - (
            #[trigger] kept[i]).0 <= limit_ms by {
                assert(kept[i] == data[i]);
                assert(data[i].0 >= data.last().0);
                assert(data[0].0 >= data[i].0);
            }
        }
    }
}

/// The telemetry windows of all monitored metrics, one per field of a
/// snapshot.
pub struct ChartGroup {
    pub tec_temp_chart: MonitoringChart,
    pub pcb_temp_chart: MonitoringChart,
    pub humidty_chart: MonitoringChart,
    pub dew_point_chart: MonitoringChart,
    pub tec_voltage_chart: MonitoringChart,
    pub tec_current_chart: MonitoringChart,
    pub tec_power_chart: MonitoringChart,
}

impl ChartGroup {
    pub open spec fn wf(self) -> bool {
        &&& self.tec_temp_chart.wf()
        &&& self.pcb_temp_chart.wf()
        &&& self.humidty_chart.wf()
        &&& self.dew_point_chart.wf()
        &&& self.tec_voltage_chart.wf()
        &&& self.tec_current_chart.wf()
        &&& self.tec_power_chart.wf()
    }

    /// Feeds one snapshot into every window: each metric's window receives
    /// `(timestamp, value)` for its own field, the power level scaled from
    /// whole percent to hundredths.
    pub fn update(&mut self, data: MonitoringData)
        requires
            old(self).wf(),
            data.wf(),
        ensures
            final(self).wf(),
            MonitoringChart::spec_push_rel(
                old(self).tec_temp_chart,
                final(self).tec_temp_chart,
                data.timestamp,
                data.tec_temperature,
            ),
            MonitoringChart::spec_push_rel(
                old(self).pcb_temp_chart,
                final(self).pcb_temp_chart,
                data.timestamp,
                data.pcb_temperature,
            ),
            MonitoringChart::spec_push_rel(
                old(self).humidty_chart,
                final(self).humidty_chart,
                data.timestamp,
                data.humidity,
            ),
            MonitoringChart::spec_push_rel(
                old(self).dew_point_chart,
                final(self).dew_point_chart,
                data.timestamp,
                data.dew_point_temperature,
            ),
            MonitoringChart::spec_push_rel(
                old(self).tec_voltage_chart,
                final(self).tec_voltage_chart,
                data.timestamp,
                data.tec_voltage,
            ),
            MonitoringChart::spec_push_rel(
                old(self).tec_current_chart,
                final(self).tec_current_chart,
                data.timestamp,
                data.tec_current,
            ),
            MonitoringChart::spec_push_rel(
                old(self).tec_power_chart,
                final(self).tec_power_chart,
                data.timestamp,
                (data.tec_power_level * 100) as i64,
            ),
    {
        self.tec_temp_chart.push_data(data.timestamp, data.tec_temperature);
        self.pcb_temp_chart.push_data(data.timestamp, data.pcb_temperature);
        self.humidty_chart.push_data(data.timestamp, data.humidity);
        self.dew_point_chart.push_data(data.timestamp, data.dew_point_temperature);
        self.tec_voltage_chart.push_data(data.timestamp, data.tec_voltage);
        self.tec_current_chart.push_data(data.timestamp, data.tec_current);
        self.tec_power_chart.push_data(data.timestamp, data.tec_power_level as i64 * 100);
    }
}

impl Default for ChartGroup {
    /// Empty windows with each metric's label, unit and seed display range,
    /// in hundredths of the unit.
    fn default() -> (r: ChartGroup)
        ensures
            r.wf(),
            r.tec_temp_chart.min == 0 && r.tec_temp_chart.max == 2000,
            r.pcb_temp_chart.min == 2000 && r.pcb_temp_chart.max == 3000,
            r.humidty_chart.min == 4500 && r.humidty_chart.max == 5500,
            r.dew_point_chart.min == 1000 && r.dew_point_chart.max == 2000,
            r.tec_voltage_chart.min == 1100 && r.tec_voltage_chart.max == 1300,
            r.tec_current_chart.min == 0 && r.tec_current_chart.max == 1000,
            r.tec_power_chart.min == 0 && r.tec_power_chart.max == 10000,
            r.tec_temp_chart.title@ == "TEC Temp"@ && r.tec_temp_chart.unit@ == "C"@,
            r.pcb_temp_chart.title@ == "PCB Temp"@ && r.pcb_temp_chart.unit@ == "C"@,
            r.humidty_chart.title@ == "Humidity"@ && r.humidty_chart.unit@ == "%"@,
            r.dew_point_chart.title@ == "Dew Point"@ && r.dew_point_chart.unit@ == "C"@,
            r.tec_voltage_chart.title@ == "TEC Voltage"@ && r.tec_voltage_chart.unit@ == "V"@,
            r.tec_current_chart.title@ == "TEC Current"@ && r.tec_current_chart.unit@ == "A"@,
            r.tec_power_chart.title@ == "TEC Power Level"@ && r.tec_power_chart.unit@ == "%"@,
            r.tec_temp_chart.data_points@.len() == 0,
            r.pcb_temp_chart.data_points@.len() == 0,
            r.humidty_chart.data_points@.len() == 0,
            r.dew_point_chart.data_points@.len() == 0,
            r.tec_voltage_chart.data_points@.len() == 0,
            r.tec_current_chart.data_points@.len() == 0,
            r.tec_power_chart.data_points@.len() == 0,
    {
        ChartGroup {
            tec_temp_chart: MonitoringChart::new(
                Vec::new(),
                "TEC Temp".to_owned(),
                0,
                2000,
                "C".to_owned(),
            ),
            pcb_temp_chart: MonitoringChart::new(
                Vec::new(),
                "PCB Temp".to_owned(),
                2000,
                3000,
                "C".to_owned(),
            ),
            humidty_chart: MonitoringChart::new(
                Vec::new(),
                "Humidity".to_owned(),
                4500,
                5500,
                "%".to_owned(),
            ),
            dew_point_chart: MonitoringChart::new(
                Vec::new(),
                "Dew Point".to_owned(),
                1000,
                2000,
                "C".to_owned(),
            ),
            tec_voltage_chart: MonitoringChart::new(
                Vec::new(),
                "TEC Voltage".to_owned(),
                1100,
                1300,
                "V".to_owned(),
            ),
            tec_current_chart: MonitoringChart::new(
                Vec::new(),
                "TEC Current".to_owned(),
                0,
                1000,
                "A".to_owned(),
            ),
            tec_power_chart: MonitoringChart::new(
                Vec::new(),
                "TEC Power Level".to_owned(),
                0,
                10000,
                "%".to_owned(),
            ),
        }
    }
}

} // verus!
