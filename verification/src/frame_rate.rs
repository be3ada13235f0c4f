//! The frame rate of a session: frames are counted over short windows of
//! time, and the counts of the last few windows are averaged.

use circular_queue::CircularQueue;
use vstd::prelude::*;

verus! {

/// The number of windows whose counts are kept.
pub const WINDOW_COUNT: usize = 5;

/// The least time that a window lasts before it is closed, in milliseconds:
/// a window is closed by the first frame after more than this.
pub const WINDOW_MILLIS: u64 = 33;

/// `circular_queue::CircularQueue`, a queue of a fixed capacity that
/// overwrites its oldest item when it is full. Its inside is not looked at;
/// what it holds is told by `queue_items` and `queue_capacity`.
#[verifier::external_type_specification]
#[verifier::external_body]
#[verifier::reject_recursive_types(T)]
pub struct ExCircularQueue<T>(CircularQueue<T>);

/// The items of a queue in the order in which its iterator gives them: from
/// the most recently pushed to the oldest.
pub uninterp spec fn queue_items(queue: CircularQueue<i32>) -> Seq<i32>;

/// The capacity that a queue was made with.
pub uninterp spec fn queue_capacity(queue: CircularQueue<i32>) -> nat;

/// The items of a queue after `x` was pushed. A queue without capacity
/// stays empty. A queue that is not full takes `x` in front; a full one also
/// drops its oldest item.
pub open spec fn pushed_items(items: Seq<i32>, capacity: nat, x: i32) -> Seq<i32> {
    if capacity == 0 {
        items
    } else if items.len() != capacity {
        seq![x] + items
    } else {
        seq![x] + items.drop_last()
    }
}

/// The item that a push drops: the oldest item of a full queue.
pub open spec fn dropped_item(items: Seq<i32>, capacity: nat) -> Option<i32> {
    if capacity != 0 && items.len() == capacity {
        Some(items.last())
    } else {
        None
    }
}

/// An empty queue of the capacity `capacity`.
///
/// This is `CircularQueue::with_capacity`, which reserves room for
/// `capacity` items at once; the bound keeps that room within what a vector
/// can be asked for.
#[verifier::external_body]
fn queue_with_capacity(capacity: usize) -> (queue: CircularQueue<i32>)
    requires
        capacity <= 0x1fff_ffff,
    ensures
        queue_items(queue) == Seq::<i32>::empty(),
        queue_capacity(queue) == capacity,
{
    CircularQueue::with_capacity(capacity)
}

/// Pushes `x` into the queue and returns the item that had to leave.
///
/// This is `CircularQueue::push`. It does nothing to a queue without
/// capacity. Otherwise `x` becomes the most recent item; where the queue
/// was full, its oldest item is overwritten and returned.
#[verifier::external_body]
fn queue_push(queue: &mut CircularQueue<i32>, x: i32) -> (dropped: Option<i32>)
    ensures
        queue_capacity(*final(queue)) == queue_capacity(*old(queue)),
        queue_items(*final(queue)) == pushed_items(
            queue_items(*old(queue)),
            queue_capacity(*old(queue)),
            x,
        ),
        dropped == dropped_item(queue_items(*old(queue)), queue_capacity(*old(queue))),
{
    queue.push(x)
}

/// The items of the queue from the most recent to the oldest.
///
/// This is `CircularQueue::iter`, whose items are copied into a vector in
/// the order in which the iterator gives them.
#[verifier::external_body]
fn queue_to_vec(queue: &CircularQueue<i32>) -> (items: Vec<i32>)
    ensures
        items@ == queue_items(*queue),
{
    queue.iter().copied().collect()
}

/// The sum of the items.
pub open spec fn sum_of(items: Seq<i32>) -> int
    decreases items.len(),
{
    if items.len() == 0 {
        0
    } else {
        sum_of(items.drop_last()) + items.last()
    }
}

/// The sum of a few items is small.
proof fn lemma_sum_bounds(items: Seq<i32>)
    ensures
        -0x8000_0000 * items.len() <= sum_of(items) <= 0x7fff_ffff * items.len(),
    decreases items.len(),
{
    if items.len() > 0 {
        lemma_sum_bounds(items.drop_last());
    }
}

/// The sum of the items.
fn sum_items(items: &Vec<i32>) -> (sum: i64)
    requires
        items@.len() <= WINDOW_COUNT,
    ensures
        sum == sum_of(items@),
{
    let mut sum: i64 = 0;
    let mut i: usize = 0;
    while i < items.len()
        invariant
            i <= items@.len() <= WINDOW_COUNT,
            sum == sum_of(items@.take(i as int)),
        decreases items@.len() - i,
    {
        proof {
            lemma_sum_bounds(items@.take(i as int));
            assert(items@.take(i + 1).drop_last() =~= items@.take(i as int));
        }
        sum = sum + items[i] as i64;
        i = i + 1;
    }
    assert(items@.take(i as int) =~= items@);
    sum
}

/// The frames counted over the last windows: their sum and the number of
/// windows. The mean number of frames in a window is the quotient of the
/// two.
#[derive(Clone, Copy, Debug, PartialEq, Eq, Structural)]
pub struct FrameRate {
    pub frames: i64,
    pub windows: usize,
}

/// What a `FrameRateCounter` stands for.
pub struct FrameRateState {
    /// The frames counted in the open window.
    pub frame_counter: i32,
    /// The counts of the closed windows, the most recent first.
    pub fps_values: Seq<i32>,
    /// The moment at which the open window was opened.
    pub time_of_last_update: u64,
}

impl FrameRateState {
    /// The invariant of a counter: it keeps at most five closed windows.
    pub open spec fn wf(self) -> bool {
        self.fps_values.len() <= WINDOW_COUNT
    }

    /// The count of the open window with one more frame. It stops at the
    /// largest number that it can hold.
    pub open spec fn counted(self) -> i32 {
        if self.frame_counter == i32::MAX {
            self.frame_counter
        } else {
            (self.frame_counter + 1) as i32
        }
    }

    /// Whether the frame at the moment `now` closes the open window.
    pub open spec fn closes_window(self, now: u64) -> bool {
        now > self.time_of_last_update && now - self.time_of_last_update > WINDOW_MILLIS
    }

    /// The state after the frame at the moment `now`.
    pub open spec fn after_frame(self, now: u64) -> FrameRateState {
        if self.closes_window(now) {
            FrameRateState {
                frame_counter: 0,
                fps_values: pushed_items(self.fps_values, WINDOW_COUNT as nat, self.counted()),
                time_of_last_update: now,
            }
        } else {
            FrameRateState { frame_counter: self.counted(), ..self }
        }
    }
}

/// Counts frames and keeps the counts of the last five windows.
pub struct FrameRateCounter {
    frame_counter: i32,
    fps_values: CircularQueue<i32>,
    time_of_last_fps_counter_update: u64,
}

impl View for FrameRateCounter {
    type V = FrameRateState;

    closed spec fn view(&self) -> FrameRateState {
        FrameRateState {
            frame_counter: self.frame_counter,
            fps_values: queue_items(self.fps_values),
            time_of_last_update: self.time_of_last_fps_counter_update,
        }
    }
}

impl FrameRateCounter {
    /// The invariant of a counter.
    pub closed spec fn wf(&self) -> bool {
        &&& queue_capacity(self.fps_values) == WINDOW_COUNT
        &&& self@.wf()
    }

    /// A counter whose first window opens at the moment `now`.
    pub fn new(now: u64) -> (counter: Self)
        ensures
            counter.wf(),
            counter@ == (FrameRateState {
                frame_counter: 0,
                fps_values: Seq::<i32>::empty(),
                time_of_last_update: now,
            }),
    {
        FrameRateCounter {
            frame_counter: 0,
            fps_values: queue_with_capacity(WINDOW_COUNT),
            time_of_last_fps_counter_update: now,
        }
    }

    /// Counts the frame at the moment `now`. Where the frame closes the open
    /// window, the frames of the last windows are returned.
    pub fn frame(&mut self, now: u64) -> (rate: Option<FrameRate>)
        requires
            old(self).wf(),
        ensures
            final(self).wf(),
            final(self)@ == old(self)@.after_frame(now),
            rate == if old(self)@.closes_window(now) {
                Some(
                    FrameRate {
                        frames: sum_of(final(self)@.fps_values) as i64,
                        windows: final(self)@.fps_values.len() as usize,
                    },
                )
            } else {
                None
            },
            rate matches Some(r) ==> r.windows >= 1,
    {
        if self.frame_counter < i32::MAX {
            self.frame_counter = self.frame_counter + 1;
        }
        if now.saturating_sub(self.time_of_last_fps_counter_update) > WINDOW_MILLIS {
            self.time_of_last_fps_counter_update = now;
            let _ = queue_push(&mut self.fps_values, self.frame_counter);
            self.frame_counter = 0;
            let items = queue_to_vec(&self.fps_values);
            proof {
                lemma_sum_bounds(items@);
            }
            let fps_sum = sum_items(&items);
            Some(FrameRate { frames: fps_sum, windows: items.len() })
        } else {
            None
        }
    }
}

} // verus!
