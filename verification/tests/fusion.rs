//! Tests of the channels, the selector, the fusion state and the broadcast.

use tempcore::temperature::channel::Channel;
use tempcore::temperature::channel::ChannelSelect;
use tempcore::temperature::channel::TemperatureWithID;
use tempcore::temperature::process_temperature_step;
use tempcore::temperature::source;
use tempcore::temperature::Broadcast;
use tempcore::temperature::FusedValue;
use tempcore::temperature::Fusion;

#[test]
fn source_intervals_are_the_documented_ones() {
    assert_eq!(tempcore::temperature::channel::CHANNEL_SIZE, 1);
    assert_eq!(source::LM75B_MEASUREMENT_INTERVAL_MS, 500);
    assert_eq!(source::DS3231_MEASUREMENT_INTERVAL_MS, 2000);
    assert_eq!(tempcore::sensors::lm75::MEASUREMENT_INTERVAL_MS, 100);
}

#[test]
fn channel_is_a_single_slot_mailbox() {
    let mut ch = Channel::new();
    assert_eq!(ch.peek(), None);
    assert!(ch.try_send(215));
    assert_eq!(ch.peek(), Some(215));
    // Back-pressure: a second send is refused, the slot keeps its reading.
    assert!(!ch.try_send(999));
    assert_eq!(ch.try_receive(), Some(215));
    assert_eq!(ch.try_receive(), None);
    assert!(ch.try_send(999));
}

#[test]
fn select_takes_the_lowest_ready_index() {
    let mut channels = vec![Channel::new(), Channel::new(), Channel::new()];
    assert!(channels[1].try_send(200));
    assert!(channels[2].try_send(300));
    let select = ChannelSelect::new();
    assert_eq!(select.poll(&mut channels), Some(TemperatureWithID(1, 200)));
    assert_eq!(select.poll(&mut channels), Some(TemperatureWithID(2, 300)));
    assert_eq!(select.poll(&mut channels), None);
}

#[test]
fn source_init_builds_empty_channels() {
    let chs = source::init();
    assert_eq!(chs.len(), source::MAX_SOURCES);
    for ch in &chs {
        assert_eq!(ch.peek(), None);
    }
}

#[test]
fn source_step_applies_back_pressure() {
    let mut ch = Channel::new();
    // A failed read sends nothing.
    assert!(!source::read_temperature_step(&mut ch, None));
    assert_eq!(ch.peek(), None);
    // A successful read fills the free slot.
    assert!(source::read_temperature_step(&mut ch, Some(215)));
    assert_eq!(ch.peek(), Some(215));
    // A full slot refuses the next reading; the producer must retry later.
    assert!(!source::read_temperature_step(&mut ch, Some(230)));
    assert_eq!(ch.peek(), Some(215));
}

#[test]
fn fusion_starts_at_the_sentinel() {
    let fusion = Fusion::new(3);
    assert_eq!(fusion.source_count(), 3);
    for i in 0..3 {
        assert_eq!(fusion.last_reading(i), 0);
    }
}

#[test]
fn scenario_three_sources_in_sequence() {
    // Sources report 10.0, 20.0 and 30.0 degrees (100, 200, 300 tenths) in
    // sequence; the sentinel is 0. The fused mean is exact as sum / count:
    // 100/3 tenths, then 300/3 = 100 tenths (10.0), then 600/3 = 200 (20.0).
    let mut fusion = Fusion::new(3);
    let f0 = fusion.publish(0, 100);
    assert_eq!(f0, FusedValue { sum: 100, count: 3 });
    let f1 = fusion.publish(1, 200);
    assert_eq!(f1, FusedValue { sum: 300, count: 3 });
    let f2 = fusion.publish(2, 300);
    assert_eq!(f2, FusedValue { sum: 600, count: 3 });
    assert_eq!(fusion.last_reading(0), 100);
    assert_eq!(fusion.last_reading(1), 200);
    assert_eq!(fusion.last_reading(2), 300);
}

#[test]
fn publish_is_idempotent() {
    let mut fusion = Fusion::new(3);
    fusion.publish(1, 200);
    let first = fusion.publish(0, 150);
    let second = fusion.publish(0, 150);
    assert_eq!(first, second);
    assert_eq!(first, FusedValue { sum: 350, count: 3 });
}

#[test]
fn publish_overwrites_instead_of_averaging_over_time() {
    let mut fusion = Fusion::new(2);
    fusion.publish(0, 100);
    let f = fusion.publish(0, 300);
    // The mean is over the latest reading per source, not over history.
    assert_eq!(f, FusedValue { sum: 300, count: 2 });
}

#[test]
fn negative_readings_are_fused_exactly() {
    let mut fusion = Fusion::new(2);
    fusion.publish(0, -300);
    let f = fusion.publish(1, 100);
    assert_eq!(f, FusedValue { sum: -200, count: 2 });
}

#[test]
fn broadcast_delivers_only_the_latest() {
    let mut out = Broadcast::new();
    let mut sub = out.subscriber();
    assert_eq!(sub.next_message(&out), None);

    out.publish_immediate(FusedValue { sum: 100, count: 3 });
    out.publish_immediate(FusedValue { sum: 300, count: 3 });
    // The intermediate value is missed, not queued.
    assert_eq!(sub.next_message(&out), Some(FusedValue { sum: 300, count: 3 }));
    assert_eq!(sub.next_message(&out), None);
}

#[test]
fn late_subscriber_sees_only_future_values() {
    let mut out = Broadcast::new();
    out.publish_immediate(FusedValue { sum: 100, count: 3 });
    let mut sub = out.subscriber();
    assert_eq!(sub.next_message(&out), None);
    out.publish_immediate(FusedValue { sum: 300, count: 3 });
    assert_eq!(sub.next_message(&out), Some(FusedValue { sum: 300, count: 3 }));
}

#[test]
fn broadcast_fans_out_to_every_subscriber() {
    let mut out = Broadcast::new();
    let mut sub1 = out.subscriber();
    let mut sub2 = out.subscriber();
    out.publish_immediate(FusedValue { sum: 600, count: 3 });
    assert_eq!(sub1.next_message(&out), Some(FusedValue { sum: 600, count: 3 }));
    assert_eq!(sub2.next_message(&out), Some(FusedValue { sum: 600, count: 3 }));
}

#[test]
fn scenario_pipeline_steps_three_sources() {
    let mut fusion = Fusion::new(3);
    let mut channels = vec![Channel::new(), Channel::new(), Channel::new()];
    let mut out = Broadcast::new();
    let mut sub = out.subscriber();

    // Nothing ready: the step changes nothing.
    assert!(!process_temperature_step(&mut fusion, &mut channels, &mut out));
    assert_eq!(sub.next_message(&out), None);

    assert!(channels[0].try_send(100));
    assert!(process_temperature_step(&mut fusion, &mut channels, &mut out));
    assert_eq!(sub.next_message(&out), Some(FusedValue { sum: 100, count: 3 }));

    assert!(channels[1].try_send(200));
    assert!(process_temperature_step(&mut fusion, &mut channels, &mut out));
    assert_eq!(sub.next_message(&out), Some(FusedValue { sum: 300, count: 3 }));

    assert!(channels[2].try_send(300));
    assert!(process_temperature_step(&mut fusion, &mut channels, &mut out));
    assert_eq!(sub.next_message(&out), Some(FusedValue { sum: 600, count: 3 }));

    assert_eq!(channels[0].peek(), None);
    assert_eq!(channels[1].peek(), None);
    assert_eq!(channels[2].peek(), None);
}

#[test]
fn pipeline_breaks_ties_by_source_index() {
    let mut fusion = Fusion::new(2);
    let mut channels = vec![Channel::new(), Channel::new()];
    let mut out = Broadcast::new();
    let mut sub = out.subscriber();

    assert!(channels[0].try_send(100));
    assert!(channels[1].try_send(200));
    assert!(process_temperature_step(&mut fusion, &mut channels, &mut out));
    // Source 0 won the tie: only its reading is fused so far.
    assert_eq!(sub.next_message(&out), Some(FusedValue { sum: 100, count: 2 }));
    assert_eq!(channels[0].peek(), None);
    assert_eq!(channels[1].peek(), Some(200));
}
