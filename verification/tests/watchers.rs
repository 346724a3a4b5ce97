use openzwave_adapter::taxonomy::{Getter, Id};
use openzwave_adapter::watchers::Watchers;

fn getter(label: &str) -> Id<Getter> {
    Id::new(label)
}

#[test]
fn new_registry_has_no_active_channel() {
    let watchers: Watchers<u32> = Watchers::new();
    assert_eq!(watchers.get_from_tax_id(&getter("door")), None);
    assert_eq!(watchers.get(0), None);
}

#[test]
fn subscription_makes_its_channel_active() {
    let mut watchers: Watchers<u32> = Watchers::new();
    let guard = watchers.push(getter("door"), 7);
    assert_eq!(guard.index(), 0);
    assert_eq!(watchers.get_from_tax_id(&getter("door")), Some(vec![7]));
    assert_eq!(watchers.get_from_tax_id(&getter("window")), None);
    assert_eq!(watchers.get(0), Some(7));
}

#[test]
fn indexes_follow_one_another() {
    let mut watchers: Watchers<u32> = Watchers::new();
    let first = watchers.push(getter("door"), 1);
    let second = watchers.push(getter("window"), 2);
    let third = watchers.push(getter("door"), 3);
    assert_eq!((first.index(), second.index(), third.index()), (0, 1, 2));
    assert_eq!(watchers.get(1), Some(2));
    assert_eq!(watchers.get(3), None);
}

#[test]
fn released_subscription_is_no_longer_active() {
    let mut watchers: Watchers<u32> = Watchers::new();
    let guard = watchers.push(getter("door"), 7);
    watchers.release(guard);
    assert_eq!(watchers.get_from_tax_id(&getter("door")), None);
    assert_eq!(watchers.get(0), None);
}

#[test]
fn release_leaves_the_other_subscriptions_of_the_getter() {
    let mut watchers: Watchers<u32> = Watchers::new();
    let first = watchers.push(getter("door"), 1);
    let second = watchers.push(getter("door"), 2);
    let third = watchers.push(getter("door"), 3);
    assert_eq!(watchers.get_from_tax_id(&getter("door")), Some(vec![1, 2, 3]));
    watchers.release(second);
    assert_eq!(watchers.get_from_tax_id(&getter("door")), Some(vec![1, 3]));
    watchers.release(first);
    assert_eq!(watchers.get_from_tax_id(&getter("door")), Some(vec![3]));
    watchers.release(third);
    assert_eq!(watchers.get_from_tax_id(&getter("door")), None);
}

#[test]
fn index_of_a_released_subscription_is_not_handed_out_again() {
    let mut watchers: Watchers<u32> = Watchers::new();
    let first = watchers.push(getter("door"), 1);
    watchers.release(first);
    let second = watchers.push(getter("door"), 2);
    assert_eq!(second.index(), 1);
    assert_eq!(watchers.get_from_tax_id(&getter("door")), Some(vec![2]));
}

#[test]
fn one_channel_may_watch_several_getters_and_one_getter_twice() {
    let mut watchers: Watchers<u32> = Watchers::new();
    let door = watchers.push(getter("door"), 9);
    let _window = watchers.push(getter("window"), 9);
    let _again = watchers.push(getter("door"), 9);
    assert_eq!(watchers.get_from_tax_id(&getter("door")), Some(vec![9, 9]));
    assert_eq!(watchers.get_from_tax_id(&getter("window")), Some(vec![9]));
    watchers.release(door);
    assert_eq!(watchers.get_from_tax_id(&getter("door")), Some(vec![9]));
    assert_eq!(watchers.get_from_tax_id(&getter("window")), Some(vec![9]));
}
