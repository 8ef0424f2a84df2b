use crate::pipeline::{PipelineError, ResultRecord};
use crate::statistic::{bucket_of, Statistic, BUCKETS};
use std::collections::VecDeque;
use vstd::prelude::*;

verus! {

/// Columns of the grid in which the rolling window is shown.
pub const WINDOW_COLUMNS: usize = 13;

/// Most statistics that the rolling window holds between two appends.
pub const WINDOW_CAP: usize = 208;

/// Number of oldest statistics that leave the window at once.
pub const EVICTION_BATCH: usize = 13;

/// Delay after which the presenter asks to be drawn again, in milliseconds.
pub const REDRAW_DELAY_MS: u64 = 30;

/// The window after `value` is appended: with `value` last, and without
/// its thirteen oldest entries where it would otherwise exceed the cap.
pub open spec fn appended(window: Seq<Statistic>, value: Statistic) -> Seq<Statistic> {
    let grown = window.push(value);
    if grown.len() > WINDOW_CAP {
        grown.skip(EVICTION_BATCH as int)
    } else {
        grown
    }
}

/// Sum of the bucket counts.
pub open spec fn total(counts: Seq<u64>) -> nat
    decreases counts.len(),
{
    if counts.len() == 0 {
        0
    } else {
        total(counts.drop_last()) + counts.last() as nat
    }
}

/// The counts after one more statistic fell into `bucket`.
pub open spec fn counted(counts: Seq<u64>, bucket: int) -> Seq<u64> {
    counts.update(bucket, (counts[bucket] + 1) as u64)
}

/// No bucket counts more than all buckets together.
pub proof fn lemma_count_within_total(counts: Seq<u64>, bucket: int)
    requires
        0 <= bucket < counts.len(),
    ensures
        counts[bucket] <= total(counts),
    decreases counts.len(),
{
    if bucket < counts.len() - 1 {
        lemma_count_within_total(counts.drop_last(), bucket);
    }
}

/// Counting one statistic raises the sum of the counts by one and lowers
/// no bucket.
pub proof fn lemma_counting_adds_one(counts: Seq<u64>, bucket: int)
    requires
        0 <= bucket < counts.len(),
        total(counts) < u64::MAX,
    ensures
        total(counted(counts, bucket)) == total(counts) + 1,
        counted(counts, bucket).len() == counts.len(),
        forall|i: int| 0 <= i < counts.len() ==> counts[i] <= #[trigger] counted(counts, bucket)[i],
    decreases counts.len(),
{
    lemma_count_within_total(counts, bucket);
    let after = counted(counts, bucket);
    if bucket == counts.len() - 1 {
        assert(after.drop_last() =~= counts.drop_last());
    } else {
        lemma_counting_adds_one(counts.drop_last(), bucket);
        assert(after.drop_last() =~= counted(counts.drop_last(), bucket));
    }
}

/// Buckets that count nothing sum to nothing.
pub proof fn lemma_empty_counts_total(buckets: nat)
    ensures
        total(Seq::new(buckets, |i: int| 0u64)) == 0,
    decreases buckets,
{
    if buckets > 0 {
        lemma_empty_counts_total((buckets - 1) as nat);
        assert(Seq::new(buckets, |i: int| 0u64).drop_last() =~= Seq::new(
            (buckets - 1) as nat,
            |i: int| 0u64,
        ));
    }
}

/// An append never leaves the window above its cap; where the cap would be
/// exceeded exactly the thirteen oldest entries leave, and otherwise none.
pub proof fn lemma_window_within_cap(window: Seq<Statistic>, value: Statistic)
    requires
        window.len() <= WINDOW_CAP,
    ensures
        appended(window, value).len() <= WINDOW_CAP,
        appended(window, value).last() == value,
        window.len() < WINDOW_CAP ==> appended(window, value) == window.push(value),
        window.len() == WINDOW_CAP ==> appended(window, value) == window.skip(
            EVICTION_BATCH as int,
        ).push(value),
{
    if window.len() == WINDOW_CAP {
        assert(appended(window, value) =~= window.skip(EVICTION_BATCH as int).push(value));
    }
}

/// The most recent statistics, oldest first.
pub struct RollingWindow {
    values: VecDeque<Statistic>,
}

impl View for RollingWindow {
    type V = Seq<Statistic>;

    closed spec fn view(&self) -> Seq<Statistic> {
        self.values@
    }
}

impl RollingWindow {
    pub open spec fn wf(&self) -> bool {
        self@.len() <= WINDOW_CAP
    }

    pub fn new() -> (window: RollingWindow)
        ensures
            window.wf(),
            window@ == Seq::<Statistic>::empty(),
    {
        RollingWindow { values: VecDeque::new() }
    }

    /// Appends a statistic and evicts the oldest batch where the cap is exceeded.
    pub fn push(&mut self, value: Statistic)
        requires
            old(self).wf(),
        ensures
            final(self).wf(),
            final(self)@ == appended(old(self)@, value),
    {
        self.values.push_back(value);
        if self.values.len() > WINDOW_CAP {
            let ghost grown = self.values@;
            let mut evicted: usize = 0;
            while evicted < EVICTION_BATCH
                invariant
                    evicted <= EVICTION_BATCH,
                    grown.len() == WINDOW_CAP + 1,
                    self.values@ == grown.skip(evicted as int),
                decreases EVICTION_BATCH - evicted,
            {
                let _ = self.values.pop_front();
                evicted = evicted + 1;
                assert(self.values@ =~= grown.skip(evicted as int));
            }
        }
    }

    pub fn len(&self) -> (len: usize)
        ensures
            len == self@.len(),
    {
        self.values.len()
    }

    /// The statistic at `index`, counted from the oldest.
    pub fn get(&self, index: usize) -> (value: Statistic)
        requires
            index < self@.len(),
        ensures
            value == self@[index as int],
    {
        self.values[index]
    }

    /// Whether the entry at `index` is the last of its row in the grid.
    pub fn ends_row(index: usize) -> (last: bool)
        ensures
            last == (index % WINDOW_COLUMNS == WINDOW_COLUMNS - 1),
    {
        index % WINDOW_COLUMNS == WINDOW_COLUMNS - 1
    }
}

/// How many statistics fell into each hundredth of the unit interval.
pub struct Histogram {
    counts: Vec<u64>,
}

impl View for Histogram {
    type V = Seq<u64>;

    closed spec fn view(&self) -> Seq<u64> {
        self.counts@
    }
}

impl Histogram {
    pub open spec fn wf(&self) -> bool {
        self@.len() == BUCKETS
    }

    /// A histogram that has counted nothing.
    pub fn new() -> (histogram: Histogram)
        ensures
            histogram.wf(),
            histogram@ == Seq::new(BUCKETS as nat, |i: int| 0u64),
    {
        let mut counts: Vec<u64> = Vec::new();
        while counts.len() < BUCKETS
            invariant
                counts@.len() <= BUCKETS,
                forall|i: int| 0 <= i < counts@.len() ==> counts@[i] == 0,
            decreases BUCKETS - counts@.len(),
        {
            counts.push(0);
        }
        assert(counts@ =~= Seq::new(BUCKETS as nat, |i: int| 0u64));
        Histogram { counts }
    }

    /// Counts one statistic in `bucket`.
    pub fn count(&mut self, bucket: usize)
        requires
            old(self).wf(),
            bucket < BUCKETS,
            total(old(self)@) < u64::MAX,
        ensures
            final(self).wf(),
            final(self)@ == counted(old(self)@, bucket as int),
    {
        proof {
            lemma_count_within_total(self@, bucket as int);
        }
        let raised: u64 = self.counts[bucket] + 1;
        self.counts.set(bucket, raised);
    }

    /// The count of `bucket`.
    pub fn get(&self, bucket: usize) -> (count: u64)
        requires
            self.wf(),
            bucket < BUCKETS,
        ensures
            count == self@[bucket as int],
    {
        self.counts[bucket]
    }

    /// All counts, by bucket.
    pub fn counts(&self) -> (counts: &Vec<u64>)
        ensures
            counts@ == self@,
    {
        &self.counts
    }
}

/// What the presenter holds, mathematically.
pub struct AggregatorView {
    /// The rolling window, oldest statistic first.
    pub window: Seq<Statistic>,
    /// The histogram's counts, by bucket.
    pub counts: Seq<u64>,
    /// Number of records taken in so far.
    pub frames: nat,
    /// The encoded frame on display; empty before the first record.
    pub frame_bytes: Seq<u8>,
    /// The encoded difference image on display; empty before the first record.
    pub difference_bytes: Seq<u8>,
    /// The fault that the pipeline reported, if it reported one.
    pub fault: Option<PipelineError>,
}

impl AggregatorView {
    /// The window is within its cap, there is one count per bucket, and the
    /// counts sum to the number of records taken in.
    pub open spec fn wf(self) -> bool {
        &&& self.window.len() <= WINDOW_CAP
        &&& self.counts.len() == BUCKETS
        &&& total(self.counts) == self.frames
        &&& self.frames <= u64::MAX
    }

    /// The presenter before anything arrived.
    pub open spec fn initial() -> AggregatorView {
        AggregatorView {
            window: Seq::empty(),
            counts: Seq::new(BUCKETS as nat, |i: int| 0u64),
            frames: 0,
            frame_bytes: Seq::empty(),
            difference_bytes: Seq::empty(),
            fault: None,
        }
    }

    /// The presenter after it took in a record with these contents.
    pub open spec fn observed(
        self,
        statistic: Statistic,
        frame_bytes: Seq<u8>,
        difference_bytes: Seq<u8>,
    ) -> AggregatorView {
        AggregatorView {
            window: appended(self.window, statistic),
            counts: counted(self.counts, bucket_of(statistic.numerator as int)),
            frames: self.frames + 1,
            frame_bytes,
            difference_bytes,
            fault: self.fault,
        }
    }

    /// The presenter after the pipeline reported `fault`.
    pub open spec fn faulted(self, fault: PipelineError) -> AggregatorView {
        AggregatorView { fault: Some(fault), ..self }
    }
}

/// Taking in a record keeps the presenter well formed: the window stays
/// within its cap, no count drops, and the counts again sum to the number
/// of records taken in.
pub proof fn lemma_observation_preserves_invariant(
    view: AggregatorView,
    statistic: Statistic,
    frame_bytes: Seq<u8>,
    difference_bytes: Seq<u8>,
)
    requires
        view.wf(),
        view.frames < u64::MAX,
    ensures
        view.observed(statistic, frame_bytes, difference_bytes).wf(),
        total(view.observed(statistic, frame_bytes, difference_bytes).counts) == view.frames + 1,
        forall|bucket: int|
            0 <= bucket < BUCKETS ==> view.counts[bucket] <= #[trigger] view.observed(
                statistic,
                frame_bytes,
                difference_bytes,
            ).counts[bucket],
{
    lemma_counting_adds_one(view.counts, bucket_of(statistic.numerator as int));
    lemma_window_within_cap(view.window, statistic);
}

/// What a render cycle leaves for the window to do.
#[derive(Clone, Copy, Debug, PartialEq, Eq, Structural)]
pub struct Cycle {
    /// Whether what is on display changed in this cycle.
    pub changed: bool,
    /// Milliseconds after which the next cycle is due.
    pub redraw_after_ms: u64,
}

/// The consumer's state: the rolling window, the histogram, the images on
/// display and the number of records taken in.
pub struct Aggregator {
    window: RollingWindow,
    histogram: Histogram,
    frames: u64,
    frame_bytes: Vec<u8>,
    difference_bytes: Vec<u8>,
    fault: Option<PipelineError>,
}

impl View for Aggregator {
    type V = AggregatorView;

    closed spec fn view(&self) -> AggregatorView {
        AggregatorView {
            window: self.window@,
            counts: self.histogram@,
            frames: self.frames as nat,
            frame_bytes: self.frame_bytes@,
            difference_bytes: self.difference_bytes@,
            fault: self.fault,
        }
    }
}

impl Aggregator {
    pub open spec fn wf(&self) -> bool {
        self@.wf()
    }

    pub fn new() -> (aggregator: Aggregator)
        ensures
            aggregator.wf(),
            aggregator@ == AggregatorView::initial(),
    {
        proof {
            lemma_empty_counts_total(BUCKETS as nat);
        }
        Aggregator {
            window: RollingWindow::new(),
            histogram: Histogram::new(),
            frames: 0,
            frame_bytes: Vec::new(),
            difference_bytes: Vec::new(),
            fault: None,
        }
    }

    /// Takes in one record: appends its statistic to the window, counts it
    /// in the histogram and puts its images on display.
    pub fn observe(&mut self, record: ResultRecord)
        requires
            old(self).wf(),
            old(self)@.frames < u64::MAX,
        ensures
            final(self).wf(),
            final(self)@ == old(self)@.observed(
                record.statistic,
                record.frame_bytes@,
                record.difference_bytes@,
            ),
    {
        proof {
            lemma_observation_preserves_invariant(
                self@,
                record.statistic,
                record.frame_bytes@,
                record.difference_bytes@,
            );
        }
        self.window.push(record.statistic);
        self.histogram.count(record.statistic.bucket());
        self.frames = self.frames + 1;
        self.frame_bytes = record.frame_bytes;
        self.difference_bytes = record.difference_bytes;
    }

    /// One render cycle: takes in what the pipeline delivered, if anything.
    /// A record is observed, a fault is kept for display, and without a
    /// delivery nothing changes. Whatever arrived, the next cycle is due
    /// after the redraw delay.
    pub fn poll(&mut self, delivery: Option<Result<ResultRecord, PipelineError>>) -> (cycle: Cycle)
        requires
            old(self).wf(),
            delivery matches Some(Ok(_)) ==> old(self)@.frames < u64::MAX,
        ensures
            final(self).wf(),
            cycle.redraw_after_ms == REDRAW_DELAY_MS,
            match delivery {
                Some(Ok(record)) => cycle.changed && final(self)@ == old(self)@.observed(
                    record.statistic,
                    record.frame_bytes@,
                    record.difference_bytes@,
                ),
                Some(Err(fault)) => cycle.changed && final(self)@ == old(self)@.faulted(fault),
                None => !cycle.changed && final(self)@ == old(self)@,
            },
    {
        let changed: bool = match delivery {
            Some(Ok(record)) => {
                self.observe(record);
                true
            },
            Some(Err(fault)) => {
                self.fault = Some(fault);
                true
            },
            None => false,
        };
        Cycle { changed, redraw_after_ms: REDRAW_DELAY_MS }
    }

    /// Number of records taken in so far.
    pub fn frames(&self) -> (frames: u64)
        ensures
            frames == self@.frames,
    {
        self.frames
    }

    /// Whether another record can be counted.
    pub fn has_room(&self) -> (room: bool)
        ensures
            room == (self@.frames < u64::MAX),
    {
        self.frames < u64::MAX
    }

    pub fn window(&self) -> (window: &RollingWindow)
        ensures
            window@ == self@.window,
    {
        &self.window
    }

    pub fn histogram(&self) -> (histogram: &Histogram)
        ensures
            histogram@ == self@.counts,
    {
        &self.histogram
    }

    /// The encoded frame on display.
    pub fn frame_bytes(&self) -> (bytes: &Vec<u8>)
        ensures
            bytes@ == self@.frame_bytes,
    {
        &self.frame_bytes
    }

    /// The encoded difference image on display.
    pub fn difference_bytes(&self) -> (bytes: &Vec<u8>)
        ensures
            bytes@ == self@.difference_bytes,
    {
        &self.difference_bytes
    }

    /// The fault that the pipeline reported, if it reported one.
    pub fn fault(&self) -> (fault: Option<PipelineError>)
        ensures
            fault == self@.fault,
    {
        self.fault
    }
}

} // verus!
