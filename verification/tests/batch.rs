//! Tests for event batching.

use devices::batch::{BatchConfig, EventBatch, EventBatcher};
use devices::event::{KeyboardAction, KeyboardEvent, MouseAction, MouseButton, MouseEvent};

#[test]
fn test_event_batch() {
    let mut batch = EventBatch::new();

    batch.push_keyboard(KeyboardEvent {
        action: KeyboardAction::Press,
        code: 0x1E,
        modifiers: Default::default(),
    });
    batch.push_mouse(MouseEvent {
        action: MouseAction::Move,
        x: 10,
        y: 20,
        z: 0,
        button: None,
        buttons: Default::default(),
    });

    assert_eq!(batch.len(), 2);
    assert!(!batch.is_empty());
}

#[test]
fn test_batcher_basic() {
    let config = BatchConfig {
        max_batch_size: 4,
        flush_interval_us: 1000000, // 1 second
        adaptive: false,
    };
    let mut batcher = EventBatcher::new(config);

    // Add events
    for i in 0..3 {
        batcher.push_keyboard(KeyboardEvent {
            action: KeyboardAction::Press,
            code: i,
            modifiers: Default::default(),
        });
    }

    // No flush yet
    assert!(!batcher.has_pending());

    // One more triggers the flush
    batcher.push_keyboard(KeyboardEvent {
        action: KeyboardAction::Press,
        code: 3,
        modifiers: Default::default(),
    });

    // A batch is pending now
    assert!(batcher.has_pending());

    let batch = batcher.pop_batch().unwrap();
    assert_eq!(batch.len(), 4);
}

#[test]
fn test_batch_into_request() {
    let mut batch = EventBatch::new();
    batch.push_keyboard(KeyboardEvent {
        action: KeyboardAction::Type,
        code: 0x1E,
        modifiers: Default::default(),
    });
    batch.push_mouse(MouseEvent {
        action: MouseAction::Click,
        x: 0,
        y: 0,
        z: 0,
        button: Some(MouseButton::Left),
        buttons: Default::default(),
    });

    let request = batch.into_request();
    assert_eq!(request.keyboard.len(), 1);
    assert_eq!(request.mouse.len(), 1);
    assert_eq!(request.event_count(), 2);
}

#[test]
fn test_stats() {
    let mut batcher = EventBatcher::default_batcher();

    for i in 0..20 {
        batcher.push_keyboard(KeyboardEvent {
            action: KeyboardAction::Press,
            code: i,
            modifiers: Default::default(),
        });
    }

    let stats = batcher.stats();
    assert!(stats.batches_processed > 0);
    assert!(stats.events_processed > 0);
}

#[test]
fn test_batch_age_and_flush_interval() {
    let batch = EventBatch::with_capacity(1000);
    assert_eq!(batch.age(1500), 500);
    assert_eq!(batch.age(500), 0);
    // An empty batch never asks for a flush
    assert!(!batch.should_flush(1_000_000, 10));
    let mut batch = EventBatch::with_capacity(1000);
    batch.push_keyboard(KeyboardEvent {
        action: KeyboardAction::Press,
        code: 1,
        modifiers: Default::default(),
    });
    assert!(batch.should_flush(2000, 1000));
    assert!(!batch.should_flush(1500, 1000));
}
