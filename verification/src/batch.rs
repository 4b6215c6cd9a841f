//! Input event batching: collect events into batches to cut virtio queue
//! operations and context switches. Timestamps come in from the caller as
//! plain microsecond counts.

use std::collections::VecDeque;

use vstd::prelude::*;

use crate::event::{InputError, InputEvent, InputRequest, KeyboardEvent, MouseEvent};

verus! {

/// Default batch size in events.
pub const DEFAULT_BATCH_SIZE: usize = 16;

/// Default flush interval in microseconds (1ms).
pub const DEFAULT_FLUSH_INTERVAL_US: u64 = 1000;

/// Event batcher configuration.
#[derive(Clone, Debug, PartialEq, Eq, Structural)]
pub struct BatchConfig {
    /// Maximum events per batch
    pub max_batch_size: usize,
    /// Maximum microseconds to wait before flushing
    pub flush_interval_us: u64,
    /// Enable adaptive batch sizing
    pub adaptive: bool,
}

impl Default for BatchConfig {
    /// The default configuration: 16-event batches flushed after 1ms,
    /// adaptively tuned.
    fn default() -> (r: Self)
        ensures
            r == (BatchConfig {
                max_batch_size: DEFAULT_BATCH_SIZE,
                flush_interval_us: DEFAULT_FLUSH_INTERVAL_US,
                adaptive: true,
            }),
    {
        BatchConfig {
            max_batch_size: DEFAULT_BATCH_SIZE,
            flush_interval_us: DEFAULT_FLUSH_INTERVAL_US,
            adaptive: true,
        }
    }
}

/// A batched event container.
#[derive(Clone, Debug)]
pub struct EventBatch {
    /// Keyboard events
    pub keyboard: Vec<KeyboardEvent>,
    /// Mouse events
    pub mouse: Vec<MouseEvent>,
    /// Creation timestamp, in caller-supplied microseconds
    pub created_at_us: u64,
}

impl Default for EventBatch {
    /// The default batch is empty with a zero timestamp.
    fn default() -> (r: Self)
        ensures
            r.keyboard@.len() == 0,
            r.mouse@.len() == 0,
            r.created_at_us == 0,
    {
        Self::new()
    }
}

impl EventBatch {
    /// Create an empty batch with a zero creation timestamp.
    pub fn new() -> (r: Self)
        ensures
            r.keyboard@.len() == 0,
            r.mouse@.len() == 0,
            r.created_at_us == 0,
    {
        Self { keyboard: Vec::new(), mouse: Vec::new(), created_at_us: 0 }
    }

    /// Create an empty batch stamped with the given creation time.
    pub fn with_capacity(now_us: u64) -> (r: Self)
        ensures
            r.keyboard@.len() == 0,
            r.mouse@.len() == 0,
            r.created_at_us == now_us,
    {
        Self { keyboard: Vec::new(), mouse: Vec::new(), created_at_us: now_us }
    }

    /// Add a keyboard event.
    pub fn push_keyboard(&mut self, event: KeyboardEvent)
        ensures
            final(self).keyboard@ == old(self).keyboard@.push(event),
            final(self).mouse@ == old(self).mouse@,
            final(self).created_at_us == old(self).created_at_us,
    {
        self.keyboard.push(event);
    }

    /// Add a mouse event.
    pub fn push_mouse(&mut self, event: MouseEvent)
        ensures
            final(self).mouse@ == old(self).mouse@.push(event),
            final(self).keyboard@ == old(self).keyboard@,
            final(self).created_at_us == old(self).created_at_us,
    {
        self.mouse.push(event);
    }

    /// Add a generic event, dispatching on its kind.
    pub fn push(&mut self, event: InputEvent)
        ensures
            event matches InputEvent::Keyboard(kb) ==> final(self).keyboard@ == old(self).keyboard@.push(kb) && final(self).mouse@ == old(self).mouse@,
            event matches InputEvent::Mouse(m) ==> final(self).mouse@ == old(self).mouse@.push(m)
                && final(self).keyboard@ == old(self).keyboard@,
            final(self).created_at_us == old(self).created_at_us,
    {
        match event {
            InputEvent::Keyboard(kb) => self.keyboard.push(kb),
            InputEvent::Mouse(m) => self.mouse.push(m),
        }
    }

    /// The total event count.
    pub fn len(&self) -> (r: usize)
        requires
            self.keyboard@.len() + self.mouse@.len() <= usize::MAX,
        ensures
            r == self.keyboard@.len() + self.mouse@.len(),
    {
        self.keyboard.len() + self.mouse.len()
    }

    /// Check whether the batch is empty.
    pub fn is_empty(&self) -> (r: bool)
        ensures
            r == (self.keyboard@.len() == 0 && self.mouse@.len() == 0),
    {
        self.keyboard.len() == 0 && self.mouse.len() == 0
    }

    /// Clear the batch and restamp it with the given time.
    pub fn clear(&mut self, now_us: u64)
        ensures
            final(self).keyboard@.len() == 0,
            final(self).mouse@.len() == 0,
            final(self).created_at_us == now_us,
    {
        self.keyboard.clear();
        self.mouse.clear();
        self.created_at_us = now_us;
    }

    /// Convert the batch into an injection request with no backend
    /// override.
    pub fn into_request(self) -> (r: InputRequest)
        ensures
            r.backend is None,
            r.keyboard@ == self.keyboard@,
            r.mouse@ == self.mouse@,
    {
        InputRequest { backend: None, keyboard: self.keyboard, mouse: self.mouse }
    }

    /// The batch's age at the given time; a clock that moved backwards
    /// reads as age zero.
    pub fn age(&self, now_us: u64) -> (r: u64)
        ensures
            now_us >= self.created_at_us ==> r == now_us - self.created_at_us,
            now_us < self.created_at_us ==> r == 0,
    {
        if now_us >= self.created_at_us {
            now_us - self.created_at_us
        } else {
            0
        }
    }

    /// Whether the batch should be flushed at the given time: it holds
    /// events and has reached the flush interval.
    pub fn should_flush(&self, now_us: u64, interval_us: u64) -> (r: bool)
        ensures
            r == (!(self.keyboard@.len() == 0 && self.mouse@.len() == 0) && (if now_us
                >= self.created_at_us {
                now_us - self.created_at_us
            } else {
                0int
            }) >= interval_us),
    {
        !self.is_empty() && self.age(now_us) >= interval_us
    }
}

/// Batch statistics for adaptive tuning. The average batch size is the
/// exact quotient of the processed totals.
#[derive(Clone, Debug, PartialEq, Eq, Structural)]
pub struct BatchStats {
    /// Total batches processed
    pub batches_processed: u64,
    /// Total events processed
    pub events_processed: u64,
    /// Average batch size (rounded down)
    pub avg_batch_size: u64,
}

impl Default for BatchStats {
    /// Default statistics are all zero.
    fn default() -> (r: Self)
        ensures
            r == (BatchStats { batches_processed: 0, events_processed: 0, avg_batch_size: 0 }),
    {
        BatchStats { batches_processed: 0, events_processed: 0, avg_batch_size: 0 }
    }
}

/// Event batcher: fills a current batch and moves it to a pending queue
/// when full or when the flush interval passes.
pub struct EventBatcher {
    /// Configuration
    config: BatchConfig,
    /// Current batch being filled
    current_batch: EventBatch,
    /// Pending batches queue
    pending: VecDeque<EventBatch>,
    /// Statistics
    stats: BatchStats,
}

impl EventBatcher {
    /// The configuration.
    pub closed spec fn spec_config(&self) -> BatchConfig {
        self.config
    }

    /// The batch currently being filled.
    pub closed spec fn spec_current(&self) -> EventBatch {
        self.current_batch
    }

    /// The pending batches, oldest first.
    pub closed spec fn spec_pending(&self) -> Seq<EventBatch> {
        self.pending@
    }

    /// The statistics.
    pub closed spec fn spec_stats(&self) -> BatchStats {
        self.stats
    }

    /// The current batch's event count.
    pub open spec fn current_len(&self) -> int {
        self.spec_current().keyboard@.len() as int + self.spec_current().mouse@.len() as int
    }

    /// Create a batcher with a configuration.
    pub fn new(config: BatchConfig) -> (r: Self)
        ensures
            r.spec_config() == config,
            r.current_len() == 0,
            r.spec_pending().len() == 0,
            r.spec_stats() == (BatchStats {
                batches_processed: 0,
                events_processed: 0,
                avg_batch_size: 0,
            }),
    {
        Self {
            config,
            current_batch: EventBatch::new(),
            pending: VecDeque::new(),
            stats: BatchStats::default(),
        }
    }

    /// Create a batcher with the default configuration.
    pub fn default_batcher() -> (r: Self)
        ensures
            r.spec_config() == (BatchConfig {
                max_batch_size: DEFAULT_BATCH_SIZE,
                flush_interval_us: DEFAULT_FLUSH_INTERVAL_US,
                adaptive: true,
            }),
            r.current_len() == 0,
            r.spec_pending().len() == 0,
    {
        Self::new(BatchConfig::default())
    }

    /// Move the current batch to the pending queue when it holds events,
    /// updating the statistics.
    fn flush_current(&mut self)
        requires
            old(self).current_len() <= usize::MAX,
        ensures
            final(self).spec_config() == old(self).spec_config(),
            old(self).current_len() == 0 ==> *final(self) == *old(self),
            old(self).current_len() > 0 ==> {
                &&& final(self).spec_pending() == old(self).spec_pending().push(
                    old(self).spec_current(),
                )
                &&& final(self).current_len() == 0
                &&& final(self).spec_stats().batches_processed == (if old(self).spec_stats().batches_processed < u64::MAX {
                    old(self).spec_stats().batches_processed + 1
                } else {
                    old(self).spec_stats().batches_processed as int
                })
            },
    {
        if self.current_batch.is_empty() {
            return ;
        }
        // Update the statistics
        let batch_size = self.current_batch.len();
        if self.stats.batches_processed < u64::MAX {
            self.stats.batches_processed = self.stats.batches_processed + 1;
        }
        if self.stats.events_processed <= u64::MAX - batch_size as u64 {
            self.stats.events_processed = self.stats.events_processed + batch_size as u64;
        }
        self.stats.avg_batch_size = self.stats.events_processed / self.stats.batches_processed;

        // Move the batch to the pending queue
        let mut batch = EventBatch::new();
        std::mem::swap(&mut batch, &mut self.current_batch);
        self.pending.push_back(batch);
    }

    /// Push an event; a batch that reaches the size limit is flushed.
    pub fn push(&mut self, event: InputEvent)
        requires
            old(self).current_len() < usize::MAX,
        ensures
            final(self).spec_config() == old(self).spec_config(),
            old(self).current_len() + 1 >= old(self).spec_config().max_batch_size ==> final(self).current_len() == 0 && final(self).spec_pending().len() == old(self).spec_pending().len() + 1,
            old(self).current_len() + 1 < old(self).spec_config().max_batch_size ==> final(self).current_len() == old(self).current_len() + 1 && final(self).spec_pending() == old(self).spec_pending(),
    {
        self.current_batch.push(event);
        if self.current_batch.len() >= self.config.max_batch_size {
            self.flush_current();
        }
    }

    /// Push a keyboard event; a batch that reaches the size limit is
    /// flushed.
    pub fn push_keyboard(&mut self, event: KeyboardEvent)
        requires
            old(self).current_len() < usize::MAX,
        ensures
            final(self).spec_config() == old(self).spec_config(),
            old(self).current_len() + 1 >= old(self).spec_config().max_batch_size ==> final(self).current_len() == 0 && final(self).spec_pending().len() == old(self).spec_pending().len() + 1,
            old(self).current_len() + 1 < old(self).spec_config().max_batch_size ==> final(self).current_len() == old(self).current_len() + 1 && final(self).spec_pending() == old(self).spec_pending(),
    {
        self.current_batch.push_keyboard(event);
        if self.current_batch.len() >= self.config.max_batch_size {
            self.flush_current();
        }
    }

    /// Push a mouse event; a batch that reaches the size limit is
    /// flushed.
    pub fn push_mouse(&mut self, event: MouseEvent)
        requires
            old(self).current_len() < usize::MAX,
        ensures
            final(self).spec_config() == old(self).spec_config(),
            old(self).current_len() + 1 >= old(self).spec_config().max_batch_size ==> final(self).current_len() == 0 && final(self).spec_pending().len() == old(self).spec_pending().len() + 1,
            old(self).current_len() + 1 < old(self).spec_config().max_batch_size ==> final(self).current_len() == old(self).current_len() + 1 && final(self).spec_pending() == old(self).spec_pending(),
    {
        self.current_batch.push_mouse(event);
        if self.current_batch.len() >= self.config.max_batch_size {
            self.flush_current();
        }
    }

    /// Push every event of a request, keyboard first.
    pub fn push_request(&mut self, request: InputRequest)
        requires
            old(self).spec_config().max_batch_size > 1,
            old(self).current_len() < old(self).spec_config().max_batch_size,
        ensures
            final(self).spec_config() == old(self).spec_config(),
    {
        let kb_count = request.keyboard.len();
        let mut i: usize = 0;
        while i < kb_count
            invariant
                kb_count == request.keyboard@.len(),
                i <= kb_count,
                self.spec_config() == old(self).spec_config(),
                self.spec_config().max_batch_size > 1,
                self.current_len() < self.spec_config().max_batch_size,
            decreases kb_count - i,
        {
            self.push_keyboard(request.keyboard[i]);
            i = i + 1;
        }
        let mouse_count = request.mouse.len();
        let mut j: usize = 0;
        while j < mouse_count
            invariant
                mouse_count == request.mouse@.len(),
                j <= mouse_count,
                self.spec_config() == old(self).spec_config(),
                self.spec_config().max_batch_size > 1,
                self.current_len() < self.spec_config().max_batch_size,
            decreases mouse_count - j,
        {
            self.push_mouse(request.mouse[j]);
            j = j + 1;
        }
    }

    /// Whether the current batch has aged past the flush interval.
    pub fn should_timer_flush(&self, now_us: u64) -> (r: bool)
        ensures
            r == (!(self.spec_current().keyboard@.len() == 0 && self.spec_current().mouse@.len()
                == 0) && (if now_us >= self.spec_current().created_at_us {
                now_us - self.spec_current().created_at_us
            } else {
                0int
            }) >= self.spec_config().flush_interval_us),
    {
        self.current_batch.should_flush(now_us, self.config.flush_interval_us)
    }

    /// Flush the current batch when it has aged past the flush interval.
    pub fn timer_flush(&mut self, now_us: u64)
        requires
            old(self).current_len() <= usize::MAX,
        ensures
            final(self).spec_config() == old(self).spec_config(),
            final(self).spec_pending().len() >= old(self).spec_pending().len(),
    {
        if self.should_timer_flush(now_us) {
            self.flush_current();
        }
    }

    /// Take the next pending batch, oldest first.
    pub fn pop_batch(&mut self) -> (r: Option<EventBatch>)
        ensures
            old(self).spec_pending().len() == 0 ==> r is None && final(self).spec_pending() == old(self).spec_pending(),
            old(self).spec_pending().len() > 0 ==> r == Some(old(self).spec_pending()[0]) && final(self).spec_pending() == old(self).spec_pending().skip(1),
            final(self).spec_config() == old(self).spec_config(),
            final(self).spec_current() == old(self).spec_current(),
            final(self).spec_stats() == old(self).spec_stats(),
    {
        let r = self.pending.pop_front();
        proof {
            if old(self).pending@.len() > 0 {
                assert(old(self).pending@.subrange(1, old(self).pending@.len() as int) =~= old(self).pending@.skip(1));
            }
        }
        r
    }

    /// Take the next pending batch as an injection request.
    pub fn pop_request(&mut self) -> (r: Option<InputRequest>)
        ensures
            old(self).spec_pending().len() == 0 ==> r is None,
            old(self).spec_pending().len() > 0 ==> r is Some && r->Some_0.keyboard@ == old(self).spec_pending()[0].keyboard@ && r->Some_0.mouse@ == old(self).spec_pending()[0].mouse@
                && final(self).spec_pending() == old(self).spec_pending().skip(1),
            final(self).spec_config() == old(self).spec_config(),
            final(self).spec_current() == old(self).spec_current(),
    {
        match self.pop_batch() {
            Some(b) => Some(b.into_request()),
            None => None,
        }
    }

    /// Look at the next pending batch without removing it.
    pub fn peek_batch(&self) -> (r: Option<&EventBatch>)
        ensures
            self.spec_pending().len() == 0 ==> r is None,
            self.spec_pending().len() > 0 ==> r == Some(&self.spec_pending()[0]),
    {
        if self.pending.len() > 0 {
            Some(&self.pending[0])
        } else {
            None
        }
    }

    /// The number of pending batches.
    pub fn pending_count(&self) -> (r: usize)
        ensures
            r == self.spec_pending().len(),
    {
        self.pending.len()
    }

    /// Check whether batches are pending.
    pub fn has_pending(&self) -> (r: bool)
        ensures
            r == (self.spec_pending().len() > 0),
    {
        self.pending.len() != 0
    }

    /// Force-flush the current batch.
    pub fn flush_all(&mut self)
        requires
            old(self).current_len() <= usize::MAX,
        ensures
            final(self).spec_config() == old(self).spec_config(),
            old(self).current_len() == 0 ==> *final(self) == *old(self),
            old(self).current_len() > 0 ==> final(self).spec_pending() == old(self).spec_pending().push(old(self).spec_current()) && final(self).current_len() == 0,
    {
        self.flush_current();
    }

    /// Get the statistics.
    pub fn stats(&self) -> (r: &BatchStats)
        ensures
            r == self.spec_stats(),
    {
        &self.stats
    }

    /// Reset the statistics.
    pub fn reset_stats(&mut self)
        ensures
            final(self).spec_stats() == (BatchStats {
                batches_processed: 0,
                events_processed: 0,
                avg_batch_size: 0,
            }),
            final(self).spec_config() == old(self).spec_config(),
            final(self).spec_current() == old(self).spec_current(),
            final(self).spec_pending() == old(self).spec_pending(),
    {
        self.stats = BatchStats::default();
    }

    /// Replace the configuration.
    pub fn set_config(&mut self, config: BatchConfig)
        ensures
            final(self).spec_config() == config,
            final(self).spec_current() == old(self).spec_current(),
            final(self).spec_pending() == old(self).spec_pending(),
            final(self).spec_stats() == old(self).spec_stats(),
    {
        self.config = config;
    }

    /// Get the configuration.
    pub fn config(&self) -> (r: &BatchConfig)
        ensures
            r == self.spec_config(),
    {
        &self.config
    }

    /// Adaptive tuning: once enough batches have been processed, an
    /// average near the limit doubles the batch size (up to 128), a very
    /// low average halves it (down to 4). Does nothing with adaptivity
    /// off.
    pub fn adaptive_tune(&mut self)
        ensures
            final(self).spec_current() == old(self).spec_current(),
            final(self).spec_pending() == old(self).spec_pending(),
            final(self).spec_stats() == old(self).spec_stats(),
            !old(self).spec_config().adaptive ==> *final(self) == *old(self),
            final(self).spec_config().flush_interval_us == old(self).spec_config().flush_interval_us,
            final(self).spec_config().adaptive == old(self).spec_config().adaptive,
            final(self).spec_config().max_batch_size <= 128 || final(self).spec_config().max_batch_size <= old(self).spec_config().max_batch_size,
    {
        if !self.config.adaptive {
            return ;
        }
        if self.stats.batches_processed > 100 {
            let avg = if self.stats.avg_batch_size < 0x1000_0000 {
                self.stats.avg_batch_size
            } else {
                0x1000_0000
            };
            let max = if self.config.max_batch_size < 0x1000_0000 {
                self.config.max_batch_size as u64
            } else {
                0x1000_0000
            };

            // An average within a fifth of the limit doubles the batch
            // size; an average under a fifth of it halves the size
            if avg * 5 > max * 4 {
                let doubled = if self.config.max_batch_size <= 64 {
                    self.config.max_batch_size * 2
                } else {
                    128
                };
                self.config.max_batch_size = if doubled > 128 {
                    128
                } else {
                    doubled
                };
            } else if avg * 5 < max {
                let halved = self.config.max_batch_size / 2;
                self.config.max_batch_size = if halved < 4 {
                    4
                } else {
                    halved
                };
            }
        }
    }
}

impl Default for EventBatcher {
    /// The default batcher uses the default configuration.
    fn default() -> (r: Self)
        ensures
            r.current_len() == 0,
            r.spec_pending().len() == 0,
    {
        Self::default_batcher()
    }
}

/// Custom processing logic for drained batches.
pub trait BatchProcessor {
    /// Process one batch of events.
    fn process_batch(&mut self, batch: EventBatch) -> Result<(), InputError>;

    /// Flush any internal buffers.
    fn flush(&mut self) -> Result<(), InputError>;
}

} // verus!
