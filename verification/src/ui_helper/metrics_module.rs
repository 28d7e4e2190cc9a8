//! The metrics page of the overlay: the average duration of the frames of
//! the last second, and the frames of the last seconds to plot.
//!
//! Time comes in as nanoseconds on a clock that never runs backwards.

use vstd::prelude::*;
use crate::info::AppInfo;

verus! {

/// How far back, in seconds, the plot reaches.
pub const PLOT_SAMPLE_WINDOW_IN_SECS: u64 = 5;

/// After how many seconds the average is taken anew.
pub const AVERAGE_SAMPLE_WINDOW_IN_SECS: u64 = 1;

pub const NANOS_PER_SEC: u64 = 1_000_000_000;

/// The number of frames that the profiler records unless told otherwise.
pub const DEFAULT_FRAMES_TO_RECORD: usize = 60;

/// What is kept of a frame.
#[derive(Clone, Copy, Debug, PartialEq, Eq, Structural)]
pub struct Frame {
    /// The number of the frame.
    pub number: usize,
    /// How long the frame before it took, in nanoseconds.
    pub previous_duration: u64,
}

/// A frame together with the moment at which it was recorded.
#[derive(Clone, Copy, Debug, PartialEq, Eq, Structural)]
pub struct Sample {
    pub instant: u64,
    pub frame: Frame,
}

/// Whether more than `window` seconds have passed from `since` to `now`.
pub open spec fn spec_elapsed(since: u64, now: u64, window: u64) -> bool {
    now >= since && now - since > window * NANOS_PER_SEC
}

/// Whether more than `window` seconds have passed from `since` to `now`.
#[verifier::when_used_as_spec(spec_elapsed)]
pub fn elapsed(since: u64, now: u64, window: u64) -> (passed: bool)
    ensures
        passed == spec_elapsed(since, now, window),
{
    match window.checked_mul(NANOS_PER_SEC) {
        Some(limit) => now >= since && now - since > limit,
        None => false,
    }
}

/// The durations of `frames`, added up.
pub open spec fn total_duration(frames: Seq<Frame>) -> nat
    decreases frames.len(),
{
    if frames.len() == 0 {
        0
    } else {
        total_duration(frames.drop_last()) + frames.last().previous_duration as nat
    }
}

/// The average duration of `frames`, rounded down; 0 where there are none.
pub open spec fn average_duration(frames: Seq<Frame>) -> nat {
    if frames.len() == 0 {
        0
    } else {
        total_duration(frames) / frames.len()
    }
}

/// Those of `samples` that lie within the plot window at `now`, in their
/// order.
pub open spec fn within_window(samples: Seq<Sample>, now: u64) -> Seq<Sample>
    decreases samples.len(),
{
    if samples.len() == 0 {
        samples
    } else {
        let earlier = within_window(samples.drop_last(), now);
        if elapsed(samples.last().instant, now, PLOT_SAMPLE_WINDOW_IN_SECS) {
            earlier
        } else {
            earlier.push(samples.last())
        }
    }
}

/// The durations of frames add up to no more than as many times the
/// longest duration that can be kept.
pub proof fn lemma_total_duration_bounded(frames: Seq<Frame>)
    ensures
        total_duration(frames) <= frames.len() * u64::MAX,
    decreases frames.len(),
{
    if frames.len() > 0 {
        lemma_total_duration_bounded(frames.drop_last());
    }
}

/// The average of durations is itself a duration that can be kept.
pub proof fn lemma_average_duration_bounded(frames: Seq<Frame>)
    ensures
        average_duration(frames) <= u64::MAX,
{
    if frames.len() > 0 {
        lemma_total_duration_bounded(frames);
        let total = total_duration(frames) as int;
        let count = frames.len() as int;
        assert(total / count <= u64::MAX) by (nonlinear_arith)
            requires
                count > 0,
                0 <= total <= count * u64::MAX,
        ;
    }
}

/// The memory of the metrics page.
pub struct MetricsModule {
    app_info: AppInfo,
    show_plot: bool,
    plot_frames: Vec<Sample>,
    average_frames: Vec<Frame>,
    instant_since_last_average_calculation: u64,
    last_average: u64,
    frames_to_record: usize,
}

/// The average duration of `frames`.
fn average_of(frames: &Vec<Frame>) -> (average: u64)
    ensures
        average == average_duration(frames@),
{
    if frames.len() == 0 {
        return 0;
    }
    let mut sum: u128 = 0;
    let mut index: usize = 0;
    while index < frames.len()
        invariant
            index <= frames.len(),
            sum == total_duration(frames@.take(index as int)),
        decreases frames.len() - index,
    {
        proof {
            assert(frames@.take(index + 1).drop_last() =~= frames@.take(index as int));
            lemma_total_duration_bounded(frames@.take(index + 1));
        }
        sum = sum + frames[index].previous_duration as u128;
        index = index + 1;
    }
    proof {
        assert(frames@.take(index as int) =~= frames@);
        lemma_average_duration_bounded(frames@);
    }
    (sum / (frames.len() as u128)) as u64
}

/// Those of `samples` that lie within the plot window at `now`.
fn kept_samples(samples: &Vec<Sample>, now: u64) -> (kept: Vec<Sample>)
    ensures
        kept@ == within_window(samples@, now),
{
    let mut kept: Vec<Sample> = Vec::new();
    let mut index: usize = 0;
    while index < samples.len()
        invariant
            index <= samples.len(),
            kept@ == within_window(samples@.take(index as int), now),
        decreases samples.len() - index,
    {
        proof {
            assert(samples@.take(index + 1).drop_last() =~= samples@.take(index as int));
        }
        let sample = samples[index];
        if !elapsed(sample.instant, now, PLOT_SAMPLE_WINDOW_IN_SECS) {
            kept.push(sample);
        }
        index = index + 1;
    }
    proof {
        assert(samples@.take(index as int) =~= samples@);
    }
    kept
}

impl MetricsModule {
    /// What the page was made for.
    pub closed spec fn app_info(&self) -> AppInfo {
        self.app_info
    }

    /// Whether the plot is shown.
    pub closed spec fn spec_show_plot(&self) -> bool {
        self.show_plot
    }

    /// The samples to plot, oldest first.
    pub closed spec fn samples(&self) -> Seq<Sample> {
        self.plot_frames@
    }

    /// The frames recorded since the average was last taken.
    pub closed spec fn average_frames(&self) -> Seq<Frame> {
        self.average_frames@
    }

    /// The moment at which the average was last taken.
    pub closed spec fn last_calculation(&self) -> u64 {
        self.instant_since_last_average_calculation
    }

    /// The average last taken, in nanoseconds.
    pub closed spec fn spec_last_average(&self) -> u64 {
        self.last_average
    }

    /// The number of frames that the profiler is to record.
    pub closed spec fn spec_frames_to_record(&self) -> usize {
        self.frames_to_record
    }

    /// All that the page was made with and has recorded: whatever the two
    /// settings of the page do not touch.
    pub open spec fn recorded(&self) -> (AppInfo, Seq<Sample>, Seq<Frame>, u64, u64) {
        (
            self.app_info(),
            self.samples(),
            self.average_frames(),
            self.last_calculation(),
            self.last_average(),
        )
    }

    /// A page made at the moment `now`: the plot is shown, nothing is
    /// recorded, and the average is 0.
    pub fn new(app_info: &AppInfo, now: u64) -> (module: Box<MetricsModule>)
        ensures
            module.app_info() == *app_info,
            module.show_plot(),
            module.samples() == Seq::<Sample>::empty(),
            module.average_frames() == Seq::<Frame>::empty(),
            module.last_calculation() == now,
            module.last_average() == 0,
            module.frames_to_record() == DEFAULT_FRAMES_TO_RECORD,
    {
        Box::new(
            MetricsModule {
                app_info: *app_info,
                show_plot: true,
                plot_frames: Vec::new(),
                average_frames: Vec::new(),
                instant_since_last_average_calculation: now,
                last_average: 0,
                frames_to_record: DEFAULT_FRAMES_TO_RECORD,
            },
        )
    }

    /// The title of the page.
    pub fn name(&self) -> (name: &'static str)
        ensures
            name@ == "metrics"@,
    {
        "metrics"
    }

    /// Whether the plot is shown.
    #[verifier::when_used_as_spec(spec_show_plot)]
    pub fn show_plot(&self) -> (shown: bool)
        ensures
            shown == self.spec_show_plot(),
    {
        self.show_plot
    }

    /// Shows or hides the plot.
    pub fn set_show_plot(&mut self, show_plot: bool)
        ensures
            final(self).show_plot() == show_plot,
            final(self).frames_to_record() == old(self).frames_to_record(),
            final(self).recorded() == old(self).recorded(),
    {
        self.show_plot = show_plot;
    }

    /// The number of frames that the profiler is to record.
    #[verifier::when_used_as_spec(spec_frames_to_record)]
    pub fn frames_to_record(&self) -> (frames: usize)
        ensures
            frames == self.spec_frames_to_record(),
    {
        self.frames_to_record
    }

    /// Sets the number of frames that the profiler is to record.
    pub fn set_frames_to_record(&mut self, frames_to_record: usize)
        ensures
            final(self).frames_to_record() == frames_to_record,
            final(self).show_plot() == old(self).show_plot(),
            final(self).recorded() == old(self).recorded(),
    {
        self.frames_to_record = frames_to_record;
    }

    /// The average last taken, in nanoseconds.
    #[verifier::when_used_as_spec(spec_last_average)]
    pub fn last_average(&self) -> (average: u64)
        ensures
            average == self.spec_last_average(),
    {
        self.last_average
    }

    /// The samples to plot, oldest first.
    pub fn plot_frames(&self) -> (samples: &Vec<Sample>)
        ensures
            samples@ == self.samples(),
    {
        &self.plot_frames
    }

    /// Records `frame` at the moment `now`.
    ///
    /// The frame joins those to average and those to plot. Where more than
    /// a second has passed since the average was last taken, it is taken
    /// anew, over the frames recorded since then, this one included, and
    /// they are forgotten. The samples to plot that are older than the plot
    /// window are dropped.
    pub fn record(&mut self, now: u64, frame: Frame)
        ensures
            final(self).app_info() == old(self).app_info(),
            final(self).show_plot() == old(self).show_plot(),
            final(self).frames_to_record() == old(self).frames_to_record(),
            final(self).samples() == within_window(
                old(self).samples().push(Sample { instant: now, frame }),
                now,
            ),
            if elapsed(old(self).last_calculation(), now, AVERAGE_SAMPLE_WINDOW_IN_SECS) {
                &&& final(self).last_calculation() == now
                &&& final(self).last_average() == average_duration(
                    old(self).average_frames().push(frame),
                )
                &&& final(self).average_frames() == Seq::<Frame>::empty()
            } else {
                &&& final(self).last_calculation() == old(self).last_calculation()
                &&& final(self).last_average() == old(self).last_average()
                &&& final(self).average_frames() == old(self).average_frames().push(frame)
            },
    {
        self.plot_frames.push(Sample { instant: now, frame });
        self.average_frames.push(frame);
        if elapsed(
            self.instant_since_last_average_calculation,
            now,
            AVERAGE_SAMPLE_WINDOW_IN_SECS,
        ) {
            self.instant_since_last_average_calculation = now;
            self.last_average = average_of(&self.average_frames);
            self.average_frames.clear();
        }
        self.plot_frames = kept_samples(&self.plot_frames, now);
    }
}

} // verus!
