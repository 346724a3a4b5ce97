//! From what the driver reports of a value to what the registry is told.
//!
//! A value of the command class of binary sensors is offered as a channel
//! of contacts, every other value as a channel without payload, whatever
//! the driver knows of its command class. Of the
//! states of a value only a boolean is passed on: `true` is an open
//! contact, `false` a closed one.

use crate::driver::{CommandClass, ValueReport, ValueReportView, ValueType, SENSOR_BINARY};
use crate::taxonomy::{ChannelKind, Getter, Id, OpenClosed, Value, WatchEvent, WatchEventView};
use vstd::prelude::*;

verus! {

/// The kind of channel a value is offered as: a channel of contacts where
/// the value belongs to the command class of binary sensors, a channel
/// without payload in every other case, also where the driver does not know
/// the command class.
pub open spec fn kind_of(report: ValueReportView) -> Option<ChannelKind> {
    Some(
        if report.command_class == Some(CommandClass { code: SENSOR_BINARY }) {
            ChannelKind::OpenClosed
        } else {
            ChannelKind::Ready
        },
    )
}

/// The contact state that a boolean reading stands for.
pub open spec fn open_closed_of(report: ValueReportView) -> Option<Value> {
    match report.as_bool {
        Some(raw) => Some(
            Value::OpenClosed(
                if raw {
                    OpenClosed::Open
                } else {
                    OpenClosed::Closed
                },
            ),
        ),
        None => None,
    }
}

/// The value that a read of a getter returns, from what the driver knows of
/// the value at that moment: nothing where the value was never set, the
/// contact state where it is boolean, a value without payload otherwise.
pub open spec fn reading_of(report: ValueReportView) -> Option<Value> {
    if !report.is_set {
        None
    } else if report.value_type == ValueType::Bool {
        open_closed_of(report)
    } else {
        Some(Value::Unit)
    }
}

/// The event that a new watcher of the getter `id` is told at once: the
/// present state of the value, where it is set, boolean and readable.
pub open spec fn first_event(id: Seq<char>, report: ValueReportView) -> Option<WatchEventView> {
    if report.is_set && report.value_type == ValueType::Bool {
        match open_closed_of(report) {
            Some(value) => Some(WatchEventView::Enter { id, value }),
            None => None,
        }
    } else {
        None
    }
}

/// The view of an event that may be missing.
pub open spec fn event_view(event: Option<WatchEvent>) -> Option<WatchEventView> {
    match event {
        Some(event) => Some(event@),
        None => None,
    }
}

/// A watcher of a getter whose value is set, boolean and readable is told
/// the state of the value at once, in one event: open where the value reads
/// `true`, closed where it reads `false`.
pub proof fn set_boolean_value_is_announced(id: Seq<char>, report: ValueReportView)
    requires
        report.is_set,
        report.value_type == ValueType::Bool,
        report.as_bool is Some,
    ensures
        first_event(id, report) == Some(
            WatchEventView::Enter {
                id,
                value: Value::OpenClosed(
                    if report.as_bool.unwrap() {
                        OpenClosed::Open
                    } else {
                        OpenClosed::Closed
                    },
                ),
            },
        ),
{
}

/// The kind of channel that `value` is offered as. Every value has one: a
/// value whose command class the driver does not know is offered as a
/// channel without payload, like every value that is no binary sensor.
pub fn kind_from_value(value: &ValueReport) -> (kind: Option<ChannelKind>)
    ensures
        kind == kind_of(value@),
        kind is Some,
{
    match value.command_class {
        Some(class) => {
            if class.code == SENSOR_BINARY {
                Some(ChannelKind::OpenClosed)
            } else {
                Some(ChannelKind::Ready)
            }
        },
        None => Some(ChannelKind::Ready),
    }
}

/// The contact state of a boolean `value`: open where it reads `true`,
/// closed where it reads `false`, `None` where the driver could not read it.
pub fn to_open_closed(value: &ValueReport) -> (state: Option<Value>)
    requires
        value.value_type == ValueType::Bool,
    ensures
        state == open_closed_of(value@),
{
    match value.as_bool {
        Some(raw) => {
            if raw {
                Some(Value::OpenClosed(OpenClosed::Open))
            } else {
                Some(Value::OpenClosed(OpenClosed::Closed))
            }
        },
        None => None,
    }
}

/// The value that a read of a getter returns, from the report that the
/// driver gave of the value.
pub fn current_value(report: &ValueReport) -> (value: Option<Value>)
    ensures
        value == reading_of(report@),
{
    if !report.is_set {
        return None;
    }
    match report.value_type {
        ValueType::Bool => to_open_closed(report),
        _ => Some(Value::Unit),
    }
}

/// The event that a new watcher of the getter `id` is told at once, from
/// the report that the driver gave of the getter's value.
pub fn initial_event(id: &Id<Getter>, report: &ValueReport) -> (event: Option<WatchEvent>)
    ensures
        event_view(event) == first_event(id@, report@),
{
    if !report.is_set {
        return None;
    }
    match report.value_type {
        ValueType::Bool => match to_open_closed(report) {
            Some(value) => Some(WatchEvent::Enter { id: id.clone(), value }),
            None => None,
        },
        _ => None,
    }
}

} // verus!
