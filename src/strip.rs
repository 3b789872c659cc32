//! The colors pushed to the LED strip.
use crate::color::{ms2rgb, sample_rgb, Rgb};
use crate::window::{
    lemma_window_order, lemma_window_size, window_after, window_push, SampleWindow,
};
use vstd::prelude::*;

verus! {

/// The colors of a window's entries, one per entry, in the window's order.
pub open spec fn rendered(samples: Seq<Option<u64>>, max_ms: u64) -> Seq<Rgb> {
    Seq::new(samples.len(), |i: int| sample_rgb(samples[i], max_ms))
}

/// Maps each entry of a window snapshot to its color, keeping the order: the
/// most recent sample drives the first pixel.
pub fn render(snapshot: &Vec<Option<u64>>, max_ms: u64) -> (r: Vec<Rgb>)
    requires
        max_ms > 0,
    ensures
        r@ == rendered(snapshot@, max_ms),
{
    let mut out: Vec<Rgb> = Vec::new();
    let mut i: usize = 0;
    while i < snapshot.len()
        invariant
            max_ms > 0,
            i <= snapshot@.len(),
            out@ == rendered(snapshot@.take(i as int), max_ms),
        decreases snapshot@.len() - i,
    {
        out.push(ms2rgb(snapshot[i], max_ms));
        i = i + 1;
        assert(out@ =~= rendered(snapshot@.take(i as int), max_ms));
    }
    assert(snapshot@.take(i as int) =~= snapshot@);
    out
}

/// Color of a lit pixel of the progress display.
pub open spec fn stage_on() -> Rgb {
    Rgb { r: 100, g: 50, b: 75 }
}

/// Color of an unlit pixel of the progress display.
pub open spec fn stage_off() -> Rgb {
    Rgb { r: 0, g: 0, b: 50 }
}

/// The progress display for a start-up stage: the first `stage` of
/// `led_count` pixels lit, the others dim blue.
pub fn debug_lights(stage: u32, led_count: u32) -> (r: Vec<Rgb>)
    ensures
        r@.len() == led_count,
        forall|n: int|
            0 <= n < led_count ==> #[trigger] r@[n] == if n < stage {
                stage_on()
            } else {
                stage_off()
            },
{
    let mut out: Vec<Rgb> = Vec::new();
    let mut n: u32 = 0;
    while n < led_count
        invariant
            n <= led_count,
            out@.len() == n,
            forall|k: int|
                0 <= k < n ==> #[trigger] out@[k] == if k < stage {
                    stage_on()
                } else {
                    stage_off()
                },
        decreases led_count - n,
    {
        if n < stage {
            out.push(Rgb { r: 100, g: 50, b: 75 });
        } else {
            out.push(Rgb { r: 0, g: 0, b: 50 });
        }
        n = n + 1;
    }
    out
}

/// The time between two probe cycles: one sweep of the strip spread evenly
/// over its pixels.
pub fn cadence_ms(strip_duration_ms: u64, led_count: u32) -> (r: u64)
    requires
        led_count > 0,
    ensures
        r == strip_duration_ms / (led_count as u64),
{
    strip_duration_ms / (led_count as u64)
}

/// The sample/render pipeline of one run: the window of recent samples and
/// the threshold that their colors are measured against.
pub struct Gauge {
    pub window: SampleWindow,
    pub max_ms: u64,
}

impl Gauge {
    /// Well formed: a valid window and a positive threshold.
    pub open spec fn wf(&self) -> bool {
        self.window.wf() && self.max_ms > 0
    }

    /// An empty gauge for a strip of `led_count` pixels.
    pub fn new(led_count: usize, max_ms: u64) -> (r: Gauge)
        requires
            max_ms > 0,
        ensures
            r.wf(),
            r.window@ == Seq::<Option<u64>>::empty(),
            r.window.capacity_spec() == led_count,
            r.max_ms == max_ms,
    {
        Gauge { window: SampleWindow::new(led_count), max_ms }
    }

    /// Records a new sample as the most recent one and returns the colors of
    /// the whole window, most recent first, for the strip.
    pub fn record(&mut self, sample: Option<u64>) -> (r: Vec<Rgb>)
        requires
            old(self).wf(),
        ensures
            final(self).wf(),
            final(self).max_ms == old(self).max_ms,
            final(self).window.capacity_spec() == old(self).window.capacity_spec(),
            final(self).window@ == window_push(
                old(self).window@,
                sample,
                old(self).window.capacity_spec(),
            ),
            r@ == rendered(final(self).window@, final(self).max_ms),
    {
        self.window.push_front(sample);
        let snap = self.window.snapshot();
        render(&snap, self.max_ms)
    }
}

/// When a gauge's window holds the history `xs` and `s` is recorded, the
/// window becomes the history `xs` followed by `s`, and the colors returned are
/// as many as the samples recorded, but never more than the capacity; the first
/// is the color of `s` (for a positive capacity), and each next one is the
/// color of the sample recorded just before, newest first.
pub proof fn lemma_record_shows_history(
    capacity: nat,
    max_ms: u64,
    xs: Seq<Option<u64>>,
    s: Option<u64>,
)
    ensures
        window_push(window_after(capacity, xs), s, capacity) == window_after(capacity, xs.push(s)),
        rendered(window_after(capacity, xs.push(s)), max_ms).len() == if xs.len() + 1 < capacity {
            xs.len() + 1
        } else {
            capacity
        },
        capacity > 0 ==> rendered(window_after(capacity, xs.push(s)), max_ms)[0] == sample_rgb(
            s,
            max_ms,
        ),
        forall|i: int|
            0 <= i < rendered(window_after(capacity, xs.push(s)), max_ms).len() ==> #[trigger] rendered(
                window_after(capacity, xs.push(s)),
                max_ms,
            )[i] == sample_rgb(xs.push(s)[xs.len() - i], max_ms),
{
    let ys = xs.push(s);
    assert(ys.drop_last() =~= xs);
    lemma_window_size(capacity, ys);
    lemma_window_order(capacity, ys);
}

} // verus!
