use pkg_updates_notifier::events::{ItemState, OutputError, ProgressOutput, UnitText};
use pkg_updates_notifier::protocol::{dispatch, run_callbacks, Callback};
use pkg_updates_notifier::sink::AptAcquireProgress;

fn no_units() -> UnitText {
    UnitText {
        size: String::new(),
        elapsed: String::new(),
        rate: String::new(),
    }
}

#[test]
fn drain_returns_events_in_callback_order() {
    let mut sink = AptAcquireProgress::new();
    sink.start();
    sink.hit(1, "index-a".to_string());
    sink.pulse();
    sink.fetch(2, "index-b".to_string(), 2048);
    sink.done();
    sink.fail(3, "index-c".to_string(), 3, "boom".to_string());
    sink.stop(5, 6, 7, false);
    let log = sink.drain();
    assert_eq!(log.len(), 4);
    match &log[0] {
        ProgressOutput::Hit(id, d) => {
            assert_eq!(*id, 1);
            assert_eq!(d, "index-a");
        }
        _ => panic!("expected a hit first"),
    }
    match &log[1] {
        ProgressOutput::Fetch(id, d, size) => {
            assert_eq!(*id, 2);
            assert_eq!(d, "index-b");
            assert_eq!(*size, 2048);
        }
        _ => panic!("expected a fetch second"),
    }
    match &log[2] {
        ProgressOutput::Fail(id, d, state, text) => {
            assert_eq!(*id, 3);
            assert_eq!(d, "index-c");
            assert_eq!(*state, ItemState::StatError);
            assert_eq!(text, "boom");
        }
        _ => panic!("expected a failure third"),
    }
    assert!(matches!(&log[3], ProgressOutput::Stop(5, 6, 7)));
}

#[test]
fn drain_leaves_the_sink_reusable() {
    let mut sink = AptAcquireProgress::new();
    sink.hit(9, "x".to_string());
    assert_eq!(sink.drain().len(), 1);
    assert_eq!(sink.drain().len(), 0);
    sink.hit(10, "y".to_string());
    assert_eq!(sink.drain().len(), 1);
}

#[test]
fn stop_with_pending_errors_records_nothing() {
    let mut sink = AptAcquireProgress::new();
    sink.hit(1, "a".to_string());
    sink.fail(2, "b".to_string(), 4, "bad signature".to_string());
    sink.stop(100, 10, 10, true);
    let log = sink.drain();
    assert_eq!(log.len(), 2);
    for event in &log {
        assert!(!matches!(event, ProgressOutput::Stop(..)));
    }
}

#[test]
fn pulse_interval_keeps_the_backend_default() {
    let sink = AptAcquireProgress::new();
    assert_eq!(sink.pulse_interval(), 0);
}

#[test]
fn dispatched_callbacks_match_direct_calls() {
    let mut sink = AptAcquireProgress::new();
    let calls = vec![
        Callback::Start,
        Callback::Hit(1, "a".to_string()),
        Callback::Pulse,
        Callback::Fetch(2, "b".to_string(), 3),
        Callback::Fail(4, "c".to_string(), 0, String::new()),
        Callback::Done,
        Callback::Stop(0, 1, 2, false),
    ];
    run_callbacks(&mut sink, &calls);
    let log = sink.drain();
    assert_eq!(log.len(), 4);
    assert!(matches!(&log[0], ProgressOutput::Hit(1, _)));
    assert!(matches!(&log[1], ProgressOutput::Fetch(2, _, 3)));
    assert!(matches!(&log[2], ProgressOutput::Fail(4, _, ItemState::StatIdle, _)));
    assert!(matches!(&log[3], ProgressOutput::Stop(0, 1, 2)));
}

#[test]
fn a_burst_of_callbacks_loses_and_duplicates_nothing() {
    let mut sink = AptAcquireProgress::new();
    let mut recording = 0u32;
    for i in 0..100u32 {
        match i % 5 {
            0 => {
                dispatch(&mut sink, &Callback::Hit(i, format!("item-{}", i)));
                recording += 1;
            }
            1 => {
                dispatch(&mut sink, &Callback::Fetch(i, format!("item-{}", i), u64::from(i)));
                recording += 1;
            }
            2 => dispatch(&mut sink, &Callback::Pulse),
            3 => {
                dispatch(&mut sink, &Callback::Fail(i, format!("item-{}", i), 5, "net".to_string()));
                recording += 1;
            }
            _ => dispatch(&mut sink, &Callback::Done),
        }
    }
    let log = sink.drain();
    assert_eq!(log.len(), recording as usize);
    for event in log.iter() {
        match event {
            ProgressOutput::Hit(id, d) => assert_eq!(d, &format!("item-{}", id)),
            ProgressOutput::Fetch(id, d, size) => {
                assert_eq!(d, &format!("item-{}", id));
                assert_eq!(*size, u64::from(*id));
            }
            ProgressOutput::Fail(id, d, state, _) => {
                assert_eq!(d, &format!("item-{}", id));
                assert_eq!(*state, ItemState::StatTransientNetworkError);
            }
            _ => panic!("unexpected event kind in the burst"),
        }
    }
}

#[test]
fn failed_items_render_ignored_or_failed() {
    let mut sink = AptAcquireProgress::new();
    sink.fail(1, "pkg".to_string(), 0, String::new());
    sink.fail(2, "pkg2".to_string(), 3, "timeout".to_string());
    let log = sink.drain();
    assert_eq!(log[0].render(&no_units()), "Ign:1 pkg");
    assert_eq!(log[1].render(&no_units()), "Err:2 pkg2");
}

#[test]
fn item_state_decodes_the_closed_range_only() {
    assert_eq!(ItemState::try_from(0), Ok(ItemState::StatIdle));
    assert_eq!(ItemState::try_from(1), Ok(ItemState::StatFetching));
    assert_eq!(ItemState::try_from(2), Ok(ItemState::StatDone));
    assert_eq!(ItemState::try_from(3), Ok(ItemState::StatError));
    assert_eq!(ItemState::try_from(4), Ok(ItemState::StatAuthError));
    assert_eq!(ItemState::try_from(5), Ok(ItemState::StatTransientNetworkError));
    assert_eq!(ItemState::try_from(6), Err(()));
    assert_eq!(ItemState::try_from(u32::MAX), Err(()));
}

#[test]
fn output_error_classifies_by_prefix() {
    assert!(matches!(OutputError::try_from("E: broken"), Ok(OutputError::Error(_))));
    assert!(matches!(OutputError::try_from("W: odd"), Ok(OutputError::Warning(_))));
    assert!(matches!(OutputError::try_from("N: note"), Ok(OutputError::Notice(_))));
    assert!(matches!(OutputError::try_from("D: dump"), Ok(OutputError::Debug(_))));
    assert!(matches!(OutputError::try_from("Z: bad"), Err(m) if m == "Z: bad"));
    assert!(matches!(OutputError::try_from(""), Err(m) if m.is_empty()));
    assert!(matches!(OutputError::try_from("E"), Err(m) if m == "E"));
}
