use openzwave_adapter::adapter::{announce, read_values, OpenzwaveAdapter, Pending, Registration};
use openzwave_adapter::reading::{current_value, initial_event};
use openzwave_adapter::driver::{
    CommandClass, Controller, DriverError, Notification, ValueGenre, ValueID, ValueReport,
    ValueType, SENSOR_BINARY,
};
use openzwave_adapter::error::Error;
use openzwave_adapter::taxonomy::{
    Getter, Id, OpenClosed, Range, Setter, TaxError, Value, WatchEvent,
};

fn report(id: u64, label: &str, value_type: ValueType, raw: Option<bool>) -> ValueReport {
    ValueReport {
        id: ValueID::from_packed_id(42, id),
        genre: ValueGenre::User,
        command_class: Some(CommandClass { code: SENSOR_BINARY }),
        value_type,
        label: String::from(label),
        read_only: true,
        write_only: false,
        is_set: true,
        as_bool: raw,
    }
}

fn unset(id: u64, label: &str) -> ValueReport {
    let mut report = report(id, label, ValueType::Bool, None);
    report.is_set = false;
    report
}

/// An adapter that knows the getters "OpenZWave/1 (Door)", a boolean, and
/// "OpenZWave/2 (Level)", a byte.
fn adapter() -> OpenzwaveAdapter<u32> {
    let mut adapter: OpenzwaveAdapter<u32> = OpenzwaveAdapter::new();
    adapter.handle_notification(Notification::ControllerReady(Controller::new(42)));
    adapter.handle_notification(Notification::ValueAdded(unset(1, "Door")));
    adapter.handle_notification(Notification::ValueAdded(report(2, "Level", ValueType::Byte, None)));
    adapter
}

fn door() -> Id<Getter> {
    Id::new("OpenZWave/1 (Door)")
}

fn level() -> Id<Getter> {
    Id::new("OpenZWave/2 (Level)")
}

fn open_door(value: ValueID) -> ValueReport {
    assert_eq!(value, ValueID::from_packed_id(42, 1));
    report(1, "Door", ValueType::Bool, Some(true))
}

#[test]
fn driver_that_runs_gives_a_fresh_adapter() {
    let adapter: OpenzwaveAdapter<u32> = OpenzwaveAdapter::init(Ok(())).unwrap().unwrap();
    assert_eq!(adapter.id(), Id::new("OpenZwave Adapter"));
    assert_eq!(adapter.name(), "OpenZwave Adapter");
    assert_eq!(adapter.vendor(), "Mozilla");
    assert_eq!(adapter.version(), &[1, 0, 0, 0]);
    let answers = adapter.fetch_values(vec![door()], open_door);
    assert_eq!(answers, vec![(door(), Err(TaxError::NoSuchGetter(door())))]);
}

#[test]
fn machine_without_a_device_gives_no_adapter_and_no_error() {
    let outcome: Result<Option<OpenzwaveAdapter<u32>>, Error> =
        OpenzwaveAdapter::init(Err(DriverError::NoDeviceFound(String::from("no device"))));
    assert!(matches!(outcome, Ok(None)));
}

#[test]
fn any_other_failure_of_the_driver_is_handed_on() {
    let failure = DriverError::Failure(String::from("device is busy"));
    let outcome: Result<Option<OpenzwaveAdapter<u32>>, Error> =
        OpenzwaveAdapter::init(Err(failure.clone()));
    assert!(matches!(outcome, Err(Error::OpenzwaveError(cause)) if cause == failure));
}

#[test]
fn unknown_getter_is_an_error_of_its_own_identifier() {
    let adapter = adapter();
    let stranger: Id<Getter> = Id::new("OpenZWave/3 (Window)");
    let answers = adapter.fetch_values(vec![stranger.clone(), door()], open_door);
    assert_eq!(
        answers,
        vec![
            (stranger.clone(), Err(TaxError::NoSuchGetter(stranger))),
            (door(), Ok(Some(Value::OpenClosed(OpenClosed::Open)))),
        ]
    );
}

#[test]
fn value_that_was_never_set_reads_as_nothing() {
    let adapter = adapter();
    let answers = adapter.fetch_values(vec![door()], |_| unset(1, "Door"));
    assert_eq!(answers, vec![(door(), Ok(None))]);
}

#[test]
fn boolean_reads_as_open_or_closed() {
    let adapter = adapter();
    let answers = adapter.fetch_values(vec![door()], |_| report(1, "Door", ValueType::Bool, Some(false)));
    assert_eq!(answers, vec![(door(), Ok(Some(Value::OpenClosed(OpenClosed::Closed))))]);
}

#[test]
fn boolean_that_cannot_be_read_reads_as_nothing() {
    let adapter = adapter();
    let answers = adapter.fetch_values(vec![door()], |_| report(1, "Door", ValueType::Bool, None));
    assert_eq!(answers, vec![(door(), Ok(None))]);
}

#[test]
fn value_of_another_type_reads_as_unit() {
    let adapter = adapter();
    let answers = adapter.fetch_values(vec![level()], |value| {
        assert_eq!(value, ValueID::from_packed_id(42, 2));
        report(2, "Level", ValueType::Byte, None)
    });
    assert_eq!(answers, vec![(level(), Ok(Some(Value::Unit)))]);
    let button = report(2, "Level", ValueType::Button, Some(true));
    assert_eq!(current_value(&button), Some(Value::Unit));
}

#[test]
fn empty_request_reads_nothing() {
    let adapter = adapter();
    assert_eq!(adapter.fetch_values(vec![], open_door), vec![]);
    assert_eq!(adapter.send_values(vec![]), vec![]);
}

#[test]
fn writing_is_not_implemented() {
    let adapter = adapter();
    let lamp: Id<Setter> = Id::new("OpenZWave/4 (Lamp)");
    let lock: Id<Setter> = Id::new("OpenZWave/5 (Lock)");
    let answers = adapter.send_values(vec![
        (lamp.clone(), Value::Unit),
        (lock.clone(), Value::OpenClosed(OpenClosed::Closed)),
    ]);
    assert_eq!(
        answers,
        vec![(lamp, Err(TaxError::NotImplemented)), (lock, Err(TaxError::NotImplemented))]
    );
}

#[test]
fn watcher_of_a_set_boolean_is_told_its_state_at_once() {
    let mut adapter = adapter();
    let answers = adapter.register_watch(vec![(door(), None)], 5, open_door);
    assert_eq!(answers.len(), 1);
    let Registration { id, guard, initial } = &answers[0];
    assert_eq!(*id, door());
    assert_eq!(guard.as_ref().map(|guard| guard.index()), Ok(0));
    assert_eq!(
        *initial,
        Some(WatchEvent::Enter { id: door(), value: Value::OpenClosed(OpenClosed::Open) })
    );
}

#[test]
fn watcher_of_an_unset_value_is_told_nothing_at_once() {
    let mut adapter = adapter();
    let answers = adapter.register_watch(vec![(door(), None)], 5, |_| unset(1, "Door"));
    assert_eq!(answers[0].initial, None);
}

#[test]
fn watcher_of_a_value_of_another_type_is_told_nothing_at_once() {
    let mut adapter = adapter();
    let answers = adapter.register_watch(vec![(level(), None)], 5, |_| {
        report(2, "Level", ValueType::Byte, None)
    });
    assert_eq!(answers[0].initial, None);
    let button = report(2, "Level", ValueType::Button, Some(true));
    assert_eq!(initial_event(&level(), &button), None);
}

#[test]
fn watch_of_an_unknown_getter_is_an_error_of_its_own_identifier() {
    let mut adapter = adapter();
    let stranger: Id<Getter> = Id::new("OpenZWave/3 (Window)");
    let answers = adapter.register_watch(vec![(stranger.clone(), None)], 5, |_| unreachable!());
    assert_eq!(
        answers,
        vec![Registration {
            id: stranger.clone(),
            guard: Err(TaxError::NoSuchGetter(stranger)),
            initial: None,
        }]
    );
    assert!(adapter.has_room_for(usize::MAX));
}

#[test]
fn watch_of_an_unknown_getter_takes_no_index_and_hears_nothing() {
    let mut adapter = adapter();
    let stranger: Id<Getter> = Id::new("OpenZWave/3 (Window)");
    let answers = adapter.register_watch(
        vec![(stranger.clone(), None), (door(), None), (stranger.clone(), None), (door(), None)],
        5,
        open_door,
    );
    let guards: Vec<Result<usize, TaxError>> = answers
        .iter()
        .map(|answer| answer.guard.as_ref().map(|guard| guard.index()).map_err(|err| err.clone()))
        .collect();
    assert_eq!(
        guards,
        vec![
            Err(TaxError::NoSuchGetter(stranger.clone())),
            Ok(0),
            Err(TaxError::NoSuchGetter(stranger.clone())),
            Ok(1),
        ]
    );
    assert!(answers[0].initial.is_none() && answers[2].initial.is_none());
    assert!(answers[1].initial.is_some() && answers[3].initial.is_some());
    // The getter appears later: the refused watch is not there to hear of it.
    let mut window = unset(3, "Window");
    window.value_type = ValueType::Bool;
    adapter.handle_notification(Notification::ValueAdded(window.clone()));
    window.is_set = true;
    window.as_bool = Some(true);
    assert_eq!(adapter.handle_notification(Notification::ValueChanged(window)), vec![]);
}

#[test]
fn reading_in_two_steps_gives_what_reading_in_one_gives() {
    let adapter = adapter();
    let stranger: Id<Getter> = Id::new("OpenZWave/3 (Window)");
    let set = vec![door(), stranger.clone(), level()];
    let found = adapter.find_getters(set.clone());
    assert_eq!(
        found,
        vec![
            (door(), Some(ValueID::from_packed_id(42, 1))),
            (stranger.clone(), None),
            (level(), Some(ValueID::from_packed_id(42, 2))),
        ]
    );
    let read = |value: ValueID| {
        if value == ValueID::from_packed_id(42, 1) {
            report(1, "Door", ValueType::Bool, Some(true))
        } else {
            report(2, "Level", ValueType::Byte, None)
        }
    };
    let values = read_values(found, read);
    assert_eq!(
        values,
        vec![
            (door(), Ok(Some(Value::OpenClosed(OpenClosed::Open)))),
            (stranger.clone(), Err(TaxError::NoSuchGetter(stranger))),
            (level(), Ok(Some(Value::Unit))),
        ]
    );
    assert_eq!(values, adapter.fetch_values(set, read));
}

#[test]
fn watching_in_two_steps_gives_what_watching_in_one_gives() {
    let stranger: Id<Getter> = Id::new("OpenZWave/3 (Window)");
    let requests = vec![(door(), None), (stranger.clone(), None)];
    let mut apart = adapter();
    let pending = apart.subscribe(requests.clone(), 5);
    assert_eq!(pending.len(), 2);
    assert_eq!(pending[0].id, door());
    assert_eq!(pending[0].guard.as_ref().map(|guard| guard.index()), Ok(0));
    assert_eq!(pending[0].value, Some(ValueID::from_packed_id(42, 1)));
    assert_eq!(
        pending[1],
        Pending { id: stranger.clone(), guard: Err(TaxError::NoSuchGetter(stranger)), value: None }
    );
    let answers = announce(pending, open_door);
    let mut together = adapter();
    assert_eq!(answers, together.register_watch(requests, 5, open_door));
    assert_eq!(
        answers[0].initial,
        Some(WatchEvent::Enter { id: door(), value: Value::OpenClosed(OpenClosed::Open) })
    );
    assert_eq!(answers[0].guard.as_ref().map(|guard| guard.index()), Ok(0));
}

#[test]
fn range_of_a_request_is_not_applied() {
    let mut adapter = adapter();
    let closed = Some(Range::Eq(Value::OpenClosed(OpenClosed::Closed)));
    let answers = adapter.register_watch(vec![(door(), closed)], 5, open_door);
    assert_eq!(
        answers[0].initial,
        Some(WatchEvent::Enter { id: door(), value: Value::OpenClosed(OpenClosed::Open) })
    );
}

#[test]
fn requests_of_one_call_get_indexes_that_follow_one_another() {
    let mut adapter = adapter();
    let first = adapter.register_watch(vec![(door(), None)], 1, open_door);
    let more = adapter.register_watch(
        vec![(level(), None), (door(), None), (door(), None)],
        2,
        |value| {
            if value == ValueID::from_packed_id(42, 1) {
                report(1, "Door", ValueType::Bool, Some(false))
            } else {
                report(2, "Level", ValueType::Byte, None)
            }
        },
    );
    assert_eq!(first[0].guard.as_ref().map(|guard| guard.index()), Ok(0));
    let indexes: Vec<usize> =
        more.iter().map(|answer| answer.guard.as_ref().unwrap().index()).collect();
    assert_eq!(indexes, vec![1, 2, 3]);
    let ids: Vec<Id<Getter>> = more.iter().map(|answer| answer.id.clone()).collect();
    assert_eq!(ids, vec![level(), door(), door()]);
    let closed = WatchEvent::Enter { id: door(), value: Value::OpenClosed(OpenClosed::Closed) };
    let initial: Vec<Option<WatchEvent>> =
        more.iter().map(|answer| answer.initial.clone()).collect();
    assert_eq!(initial, vec![None, Some(closed.clone()), Some(closed)]);
}
