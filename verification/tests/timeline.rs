use minimap_renderer::decoder::Ribbon;
use minimap_renderer::timeline::{GameClock, GameTimeline, TimelineEvent};

fn clock(secs: f32) -> GameClock {
    GameClock(secs.to_bits())
}

fn sample() -> GameTimeline {
    let mut t = GameTimeline::new();
    for (s, e) in [(1.0f32, 1u32), (2.0, 2), (2.0, 3), (3.5, 4), (10.0, 5)] {
        assert!(t.accepts(clock(s)));
        t.push(clock(s), TimelineEvent::SmokeScreenDestroyed { entity_id: e });
    }
    t
}

fn ids(events: &[minimap_renderer::timeline::TimestampedEvent]) -> Vec<u32> {
    events
        .iter()
        .map(|e| match e.event {
            TimelineEvent::SmokeScreenDestroyed { entity_id } => entity_id,
            _ => panic!("unexpected event"),
        })
        .collect()
}

#[test]
fn new_timeline_is_empty() {
    let t = GameTimeline::new();
    assert!(t.is_empty());
    assert_eq!(t.len(), 0);
    assert!(t.events().is_empty());
}

#[test]
fn pushed_events_come_back_in_order() {
    let t = sample();
    assert_eq!(t.len(), 5);
    assert!(!t.is_empty());
    assert_eq!(ids(t.events()), vec![1, 2, 3, 4, 5]);
}

#[test]
fn an_earlier_clock_is_not_accepted() {
    let t = sample();
    assert!(!t.accepts(clock(9.0)));
    assert!(t.accepts(clock(10.0)));
    assert!(t.accepts(clock(11.0)));
}

#[test]
fn events_in_range_is_half_open() {
    let t = sample();
    assert_eq!(ids(t.events_in_range(clock(2.0), clock(3.5))), vec![2, 3]);
    assert_eq!(ids(t.events_in_range(clock(0.0), clock(100.0))), vec![1, 2, 3, 4, 5]);
    assert_eq!(ids(t.events_in_range(clock(3.5), clock(3.5))), Vec::<u32>::new());
    assert_eq!(ids(t.events_in_range(clock(1.5), clock(10.0))), vec![2, 3, 4]);
    assert_eq!(ids(t.events_in_range(clock(11.0), clock(12.0))), Vec::<u32>::new());
}

#[test]
fn events_keep_their_payload() {
    let mut t = GameTimeline::new();
    t.push(clock(0.5), TimelineEvent::Ribbon(Ribbon::Citadel));
    match &t.events()[0] {
        e => {
            assert_eq!(e.clock, clock(0.5));
            assert!(matches!(e.event, TimelineEvent::Ribbon(Ribbon::Citadel)));
        }
    }
}

#[test]
fn adjacent_windows_join() {
    let t = sample();
    let mut joined = ids(t.events_in_range(clock(1.5), clock(3.0)));
    joined.extend(ids(t.events_in_range(clock(3.0), clock(10.5))));
    assert_eq!(joined, ids(t.events_in_range(clock(1.5), clock(10.5))));
}
