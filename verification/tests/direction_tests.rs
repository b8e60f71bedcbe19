use snake_core::Direction;
use snake_core::InputQueue;
use snake_core::check_directions;

#[test]
fn opposite_pairs_are_rejected() {
    assert!(!check_directions(&Direction::Up, Direction::Down));
    assert!(!check_directions(&Direction::Down, Direction::Up));
    assert!(!check_directions(&Direction::Left, Direction::Right));
    assert!(!check_directions(&Direction::Right, Direction::Left));
}

#[test]
fn non_opposite_pairs_are_accepted() {
    assert!(check_directions(&Direction::Up, Direction::Up));
    assert!(check_directions(&Direction::Up, Direction::Left));
    assert!(check_directions(&Direction::Up, Direction::Right));
    assert!(check_directions(&Direction::Down, Direction::Down));
    assert!(check_directions(&Direction::Down, Direction::Left));
    assert!(check_directions(&Direction::Down, Direction::Right));
    assert!(check_directions(&Direction::Left, Direction::Up));
    assert!(check_directions(&Direction::Left, Direction::Down));
    assert!(check_directions(&Direction::Left, Direction::Left));
    assert!(check_directions(&Direction::Right, Direction::Up));
    assert!(check_directions(&Direction::Right, Direction::Down));
    assert!(check_directions(&Direction::Right, Direction::Right));
}

#[test]
fn queue_accepts_non_opposite_and_rejects_opposite() {
    let mut q = InputQueue::new();
    assert!(!q.try_enqueue(Direction::Right, Direction::Left));
    assert_eq!(q.len(), 0);
    assert!(q.try_enqueue(Direction::Right, Direction::Up));
    assert_eq!(q.entries, vec![Direction::Up]);
}

#[test]
fn queue_validates_against_last_entry_when_nonempty() {
    let mut q = InputQueue::new();
    assert!(q.try_enqueue(Direction::Right, Direction::Up));
    // Down reverses the last queued entry (Up), not the current direction.
    assert!(!q.try_enqueue(Direction::Right, Direction::Down));
    assert_eq!(q.entries, vec![Direction::Up]);
}

#[test]
fn queue_accepts_equal_direction() {
    let mut q = InputQueue::new();
    assert!(q.try_enqueue(Direction::Right, Direction::Right));
    assert_eq!(q.entries, vec![Direction::Right]);
}

#[test]
fn queue_soft_cap_drops_oldest() {
    let mut q = InputQueue::new();
    assert!(q.try_enqueue(Direction::Right, Direction::Up));
    assert!(q.try_enqueue(Direction::Right, Direction::Left));
    assert!(q.try_enqueue(Direction::Right, Direction::Down));
    assert_eq!(q.entries, vec![Direction::Left, Direction::Down]);
}

#[test]
fn queue_dequeues_oldest_first() {
    let mut q = InputQueue::new();
    assert!(q.try_enqueue(Direction::Right, Direction::Up));
    assert!(q.try_enqueue(Direction::Right, Direction::Left));
    assert_eq!(q.dequeue_next(), Some(Direction::Up));
    assert_eq!(q.dequeue_next(), Some(Direction::Left));
    assert_eq!(q.dequeue_next(), None);
}
