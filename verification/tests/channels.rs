use openzwave_adapter::adapter::OpenzwaveAdapter;
use openzwave_adapter::dispatch::Action;
use openzwave_adapter::driver::{
    CommandClass, Controller, Notification, ValueGenre, ValueID, ValueReport, ValueType,
    SENSOR_BINARY,
};
use openzwave_adapter::taxonomy::{Getter, Id, OpenClosed, Value, WatchEvent};
use transformable_channels::mpsc::{channel, ExtSender, RawSender, Receiver};

fn door(raw: Option<bool>) -> ValueReport {
    ValueReport {
        id: ValueID::from_packed_id(42, 9),
        genre: ValueGenre::User,
        command_class: Some(CommandClass { code: SENSOR_BINARY }),
        value_type: ValueType::Bool,
        label: String::from("Door"),
        read_only: true,
        write_only: false,
        is_set: raw.is_some(),
        as_bool: raw,
    }
}

fn getter() -> Id<Getter> {
    Id::new("OpenZWave/9 (Door)")
}

/// Makes the calls that the adapter asked for; returns how many went to the
/// registry.
fn carry_out(actions: Vec<Action<RawSender<WatchEvent>>>) -> usize {
    let mut registry: usize = 0;
    for action in actions {
        match action {
            Action::Send { channel, event } => {
                let _ = channel.send(event);
            }
            _ => registry += 1,
        }
    }
    registry
}

fn received(receiver: &Receiver<WatchEvent>) -> Vec<WatchEvent> {
    receiver.try_iter().collect()
}

#[test]
fn subscriber_receives_one_event_with_the_open_state() {
    let mut adapter: OpenzwaveAdapter<RawSender<WatchEvent>> = OpenzwaveAdapter::new();
    let ready = adapter.handle_notification(Notification::ControllerReady(Controller::new(42)));
    assert_eq!(carry_out(ready), 1);
    let added = adapter.handle_notification(Notification::ValueAdded(door(None)));
    assert_eq!(carry_out(added), 1);
    let (sender, receiver) = channel();
    let answers = adapter.register_watch(vec![(getter(), None)], sender, |_| door(None));
    assert_eq!(answers[0].initial, None);
    let changed = adapter.handle_notification(Notification::ValueChanged(door(Some(true))));
    assert_eq!(carry_out(changed), 0);
    assert_eq!(
        received(&receiver),
        vec![WatchEvent::Enter { id: getter(), value: Value::OpenClosed(OpenClosed::Open) }]
    );
}

#[test]
fn subscriber_whose_guard_was_released_receives_nothing_more() {
    let mut adapter: OpenzwaveAdapter<RawSender<WatchEvent>> = OpenzwaveAdapter::new();
    adapter.handle_notification(Notification::ControllerReady(Controller::new(42)));
    adapter.handle_notification(Notification::ValueAdded(door(None)));
    let (sender, receiver) = channel();
    let (other, other_receiver) = channel();
    let mut answers =
        adapter.register_watch(vec![(getter(), None)], sender.clone(), |_| door(Some(false)));
    let _kept = adapter.register_watch(vec![(getter(), None)], other, |_| door(None));
    let first = answers.remove(0);
    if let Some(event) = first.initial {
        let _ = sender.send(event);
    }
    assert_eq!(
        received(&receiver),
        vec![WatchEvent::Enter { id: getter(), value: Value::OpenClosed(OpenClosed::Closed) }]
    );
    adapter.release_watch(first.guard.unwrap());
    let changed = adapter.handle_notification(Notification::ValueChanged(door(Some(true))));
    assert_eq!(changed.len(), 1);
    carry_out(changed);
    assert_eq!(received(&receiver), vec![]);
    assert_eq!(
        received(&other_receiver),
        vec![WatchEvent::Enter { id: getter(), value: Value::OpenClosed(OpenClosed::Open) }]
    );
}

#[test]
fn receiver_that_hung_up_does_not_disturb_the_others() {
    let mut adapter: OpenzwaveAdapter<RawSender<WatchEvent>> = OpenzwaveAdapter::new();
    adapter.handle_notification(Notification::ControllerReady(Controller::new(42)));
    adapter.handle_notification(Notification::ValueAdded(door(None)));
    let (gone, gone_receiver) = channel();
    let (kept, kept_receiver) = channel();
    let _first = adapter.register_watch(vec![(getter(), None)], gone, |_| door(None));
    let _second = adapter.register_watch(vec![(getter(), None)], kept, |_| door(None));
    drop(gone_receiver);
    let changed = adapter.handle_notification(Notification::ValueChanged(door(Some(false))));
    assert_eq!(changed.len(), 2);
    carry_out(changed);
    assert_eq!(
        received(&kept_receiver),
        vec![WatchEvent::Enter { id: getter(), value: Value::OpenClosed(OpenClosed::Closed) }]
    );
}
