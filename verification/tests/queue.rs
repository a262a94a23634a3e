use rigidbody2d::action::{ActionQueue, ApplyAction};
use rigidbody2d::math::{Real, Vector2};

fn num(value: f32) -> Real {
    Real::from_bits(value.to_bits())
}

fn vector(x: f32, y: f32) -> Vector2 {
    Vector2::new(num(x), num(y))
}

#[test]
fn new_queue_is_empty() {
    let mut queue = ActionQueue::new();
    assert!(queue.is_empty());
    assert_eq!(queue.len(), 0);
    assert_eq!(queue.drain(), vec![]);
}

#[test]
fn default_queue_is_empty() {
    let mut queue = ActionQueue::default();
    assert!(queue.is_empty());
    assert_eq!(queue.drain(), vec![]);
}

#[test]
fn drain_returns_actions_in_order_of_arrival() {
    let mut queue = ActionQueue::new();
    let actions = vec![
        ApplyAction::Force(vector(1.0, 2.0)),
        ApplyAction::Torque(num(0.5)),
        ApplyAction::ForceAtPoint { force: vector(1.0, 0.0), point: vector(3.0, 4.0) },
        ApplyAction::Impulse(vector(-1.0, 0.0)),
        ApplyAction::TorqueImpulse(num(-2.0)),
        ApplyAction::ImpulseAtPoint { impulse: vector(0.0, 1.0), point: vector(5.0, 6.0) },
        ApplyAction::WakeUp,
    ];
    for action in actions.iter() {
        queue.enqueue(*action);
    }
    assert_eq!(queue.len(), 7);
    assert!(!queue.is_empty());
    assert_eq!(queue.drain(), actions);
    assert!(queue.is_empty());
    assert_eq!(queue.len(), 0);
}

#[test]
fn drain_of_an_emptied_queue_returns_nothing() {
    let mut queue = ActionQueue::new();
    queue.enqueue(ApplyAction::WakeUp);
    queue.enqueue(ApplyAction::WakeUp);
    assert_eq!(queue.drain().len(), 2);
    assert_eq!(queue.drain(), vec![]);
    assert_eq!(queue.drain(), vec![]);
}

#[test]
fn equal_actions_are_all_kept() {
    let mut queue = ActionQueue::new();
    for _ in 0..100 {
        queue.enqueue(ApplyAction::Torque(num(1.0)));
    }
    let drained = queue.drain();
    assert_eq!(drained.len(), 100);
    assert!(drained.iter().all(|action| *action == ApplyAction::Torque(num(1.0))));
}

#[test]
fn queue_is_usable_again_after_drain() {
    let mut queue = ActionQueue::new();
    queue.enqueue(ApplyAction::Torque(num(1.0)));
    assert_eq!(queue.drain(), vec![ApplyAction::Torque(num(1.0))]);
    queue.enqueue(ApplyAction::Torque(num(2.0)));
    queue.enqueue(ApplyAction::WakeUp);
    assert_eq!(queue.drain(), vec![ApplyAction::Torque(num(2.0)), ApplyAction::WakeUp]);
}

#[test]
fn interleaved_producers_keep_their_own_order() {
    // Three producers take turns in an uneven pattern; each numbers its torques.
    let pattern = [0usize, 1, 1, 2, 0, 2, 2, 1, 0, 0, 1, 2];
    let mut next = [0u32; 3];
    let mut queue = ActionQueue::new();
    for producer in pattern {
        let tag = (producer as u32) * 1000 + next[producer];
        next[producer] += 1;
        queue.enqueue(ApplyAction::Torque(Real::from_bits(tag)));
    }
    let drained: Vec<u32> = queue
        .drain()
        .into_iter()
        .map(|action| match action {
            ApplyAction::Torque(torque) => torque.to_bits(),
            other => panic!("unexpected action {:?}", other),
        })
        .collect();
    assert_eq!(drained.len(), pattern.len());
    for producer in 0..3u32 {
        let own: Vec<u32> = drained.iter().copied().filter(|tag| tag / 1000 == producer).collect();
        let expected: Vec<u32> = (0..4).map(|i| producer * 1000 + i).collect();
        assert_eq!(own, expected);
    }
}
