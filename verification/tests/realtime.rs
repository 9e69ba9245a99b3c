//! What the audio callback relies on: handing values back never blocks and
//! never drops a value, and every bus write lands in storage that was
//! allocated up front.
use brainwash_gui::handoff::{return_retired_track, set_playing, AudioCommandRejected, Handoff};
use brainwash_gui::telemetry::{
    meter_value_index, next_probe_cursor, probe_value_index, METER_INPUTS, METER_SLOTS,
    METER_VALUES, PROBE_HISTORY, PROBE_SLOTS, PROBE_VALUES, VOICES,
};
use rtrb::RingBuffer;

#[test]
fn audio_realtime_source_excludes_forbidden_primitives() {
    let (producer, mut input) = RingBuffer::<u32>::new(1);
    let mut output = Handoff::new(producer);
    let mut retired = Some(7);
    return_retired_track(&mut output, &mut retired);
    assert_eq!(retired, None);
    assert_eq!(input.pop(), Ok(7));

    assert!(output.offer(1).is_none());
    let mut held = Some(9);
    return_retired_track(&mut output, &mut held);
    assert_eq!(held, Some(9));
    return_retired_track(&mut output, &mut held);
    assert_eq!(held, Some(9));
    assert_eq!(input.pop(), Ok(1));
    return_retired_track(&mut output, &mut held);
    assert_eq!(held, None);
    assert_eq!(input.pop(), Ok(9));

    let mut nothing: Option<u32> = None;
    return_retired_track(&mut output, &mut nothing);
    assert_eq!(nothing, None);
    assert!(input.pop().is_err());
}

#[test]
fn audio_callback_functions_exclude_allocator_shapes() {
    let mut seen = vec![false; PROBE_VALUES];
    for voice in 0..VOICES {
        for slot in 0..PROBE_SLOTS {
            for cursor in [0, 1, PROBE_HISTORY / 2, PROBE_HISTORY - 1] {
                let index = probe_value_index(voice, slot, cursor);
                assert!(index < PROBE_VALUES);
                assert!(!seen[index]);
                seen[index] = true;
            }
        }
    }
    let mut meters = vec![false; METER_VALUES];
    for voice in 0..VOICES {
        for slot in 0..METER_SLOTS {
            for input in 0..METER_INPUTS {
                let index = meter_value_index(voice, slot, input);
                assert!(!meters[index]);
                meters[index] = true;
            }
        }
    }
    assert!(meters.iter().all(|written| *written));
    assert_eq!(next_probe_cursor(PROBE_HISTORY - 1), 0);
    assert_eq!(next_probe_cursor(0), 1);
}

#[test]
fn set_playing_reports_rejection_when_queue_is_full() {
    let (producer, _consumer) = RingBuffer::<bool>::new(2);
    let mut play_pending = Handoff::new(producer);

    assert_eq!(set_playing(&mut play_pending, true), Ok(()));
    assert_eq!(set_playing(&mut play_pending, false), Ok(()));
    assert_eq!(set_playing(&mut play_pending, true), Err(AudioCommandRejected));
}

#[test]
fn an_offer_to_a_full_queue_comes_back_unchanged() {
    let (producer, mut consumer) = RingBuffer::<u32>::new(1);
    let mut queue = Handoff::new(producer);
    assert_eq!(queue.offer(3), None);
    assert_eq!(queue.offer(4), Some(4));
    assert_eq!(consumer.pop(), Ok(3));
    assert_eq!(queue.offer(4), None);
    assert_eq!(consumer.pop(), Ok(4));
}
