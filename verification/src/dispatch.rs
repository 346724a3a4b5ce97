//! What the adapter remembers and what a notification leads to, as
//! mathematics.
//!
//! [`AdapterView`] is the state of the adapter with every identifier as its
//! label. [`AdapterView::step`] says for each notification what the adapter
//! remembers afterwards and which calls it asks its host to make.

use crate::driver::{Controller, NotificationView, ValueGenre, ValueID, ValueReportView, ValueType};
use crate::id_map::{
    first_with_handle, id_of, ids_unique, lemma_first_with_handle_is_one, lemma_id_is_missing,
};
use crate::label::{service_label_is_one_to_one, service_label_of, value_label_of};
use crate::reading::{kind_of, open_closed_of};
use crate::taxonomy::{
    Channel, ChannelKind, ChannelView, Getter, OpenClosed, Service, ServiceView, Setter, Value,
    WatchEvent, WatchEventView,
};
use crate::watchers::WatchersView;
use vstd::prelude::*;

verus! {

/// A call that the adapter asks its host to make.
#[derive(Clone, Debug, PartialEq, Eq)]
pub enum Action<C> {
    /// Announce a service to the registry.
    AddService(Service),
    /// Announce a readable channel to the registry.
    AddGetter(Channel<Getter>),
    /// Announce a writable channel to the registry.
    AddSetter(Channel<Setter>),
    /// Push `event` into the watcher's `channel`.
    Send { channel: C, event: WatchEvent },
}

/// An [`Action`] with its identifiers as labels.
pub enum ActionView<C> {
    AddService(ServiceView),
    AddGetter(ChannelView<Getter>),
    AddSetter(ChannelView<Setter>),
    Send { channel: C, event: WatchEventView },
}

impl<C> View for Action<C> {
    type V = ActionView<C>;

    open spec fn view(&self) -> ActionView<C> {
        match self {
            Action::AddService(service) => ActionView::AddService(service@),
            Action::AddGetter(channel) => ActionView::AddGetter(channel@),
            Action::AddSetter(channel) => ActionView::AddSetter(channel@),
            Action::Send { channel, event } => ActionView::Send {
                channel: *channel,
                event: event@,
            },
        }
    }
}

/// `done` is the action `planned`, its channel a clone of the planned one.
pub open spec fn carries_out<C: Clone>(planned: ActionView<C>, done: ActionView<C>) -> bool {
    match planned {
        ActionView::Send { channel, event } => match done {
            ActionView::Send { channel: handed, event: sent } => cloned(channel, handed) && sent
                == event,
            _ => false,
        },
        _ => done == planned,
    }
}

/// `done` carries out `planned`, action by action.
pub open spec fn carry_out<C: Clone>(planned: Seq<ActionView<C>>, done: Seq<Action<C>>) -> bool {
    &&& done.len() == planned.len()
    &&& forall|i: int| 0 <= i < planned.len() ==> carries_out(planned[i], (#[trigger] done[i])@)
}

/// What the adapter remembers, as a mathematical value.
pub struct AdapterView<C> {
    /// The adapter's own identifier.
    pub id: Seq<char>,
    /// The controllers that reported ready, each under its service.
    pub controllers: Seq<(Seq<char>, Controller)>,
    /// The values that can be read, each under its getter.
    pub getters: Seq<(Seq<char>, ValueID)>,
    /// The values that can be written, each under its setter.
    pub setters: Seq<(Seq<char>, ValueID)>,
    pub watchers: WatchersView<C>,
}

impl<C> AdapterView<C> {
    /// Every controller is remembered under the service derived from its
    /// home id, and the registry of watchers is well formed.
    pub open spec fn wf(self) -> bool {
        &&& self.watchers.wf()
        &&& forall|i: int|
            0 <= i < self.controllers.len() ==> (#[trigger] self.controllers[i]).0
                == service_label_of(self.controllers[i].1.home_id)
    }

    /// A controller was discovered: it is remembered under the service
    /// derived from its home id, and the service is announced.
    pub open spec fn controller_ready(self, controller: Controller) -> (Self, Seq<ActionView<C>>) {
        let service = service_label_of(controller.home_id);
        (
            AdapterView { controllers: self.controllers.push((service, controller)), ..self },
            seq![
                ActionView::AddService(
                    ServiceView { id: service, adapter: self.id, tags: Seq::empty() },
                ),
            ],
        )
    }

    /// The service and the kind under which the value of `report` is
    /// offered; `None` where the value is not offered at all, which is
    /// where it is not of the user's genre or its controller has not
    /// reported ready.
    pub open spec fn offered(self, report: ValueReportView) -> Option<(Seq<char>, ChannelKind)> {
        if report.genre != ValueGenre::User {
            None
        } else {
            match id_of(self.controllers, Controller { home_id: report.id.home_id }) {
                Some(service) => Some((service, kind_of(report).unwrap())),
                None => None,
            }
        }
    }

    /// A value was discovered: where it is offered, it is remembered as a
    /// getter unless it is write-only and as a setter unless it is
    /// read-only, and each of the two is announced.
    pub open spec fn value_added(self, report: ValueReportView) -> (Self, Seq<ActionView<C>>) {
        match self.offered(report) {
            Some((service, kind)) => {
                let id = value_label_of(report.id.id, report.label);
                let getter = ActionView::AddGetter(
                    ChannelView {
                        id,
                        service,
                        adapter: self.id,
                        tags: Seq::empty(),
                        mechanism: Getter { kind },
                    },
                );
                let setter = ActionView::AddSetter(
                    ChannelView {
                        id,
                        service,
                        adapter: self.id,
                        tags: Seq::empty(),
                        mechanism: Setter { kind },
                    },
                );
                (
                    AdapterView {
                        getters: if report.write_only {
                            self.getters
                        } else {
                            self.getters.push((id, report.id))
                        },
                        setters: if report.read_only {
                            self.setters
                        } else {
                            self.setters.push((id, report.id))
                        },
                        ..self
                    },
                    (if report.write_only {
                        Seq::empty()
                    } else {
                        seq![getter]
                    }) + (if report.read_only {
                        Seq::empty()
                    } else {
                        seq![setter]
                    }),
                )
            },
            None => (self, Seq::empty()),
        }
    }

    /// The event that tells of the new state of a value; `None` where the
    /// value is not boolean, is no getter, or could not be read.
    pub open spec fn change_event(self, report: ValueReportView) -> Option<WatchEventView> {
        if report.value_type != ValueType::Bool {
            None
        } else {
            match id_of(self.getters, report.id) {
                Some(id) => match open_closed_of(report) {
                    Some(value) => Some(WatchEventView::Enter { id, value }),
                    None => None,
                },
                None => None,
            }
        }
    }

    /// A value has changed: its new state is pushed to every living watcher
    /// of its getter, oldest first.
    pub open spec fn value_changed(self, report: ValueReportView) -> Seq<ActionView<C>> {
        match self.change_event(report) {
            Some(event) => self.watchers.active(event->Enter_id).map_values(
                |channel: C| ActionView::Send { channel, event },
            ),
            None => Seq::empty(),
        }
    }

    /// What the adapter remembers after `notification`, and the calls it
    /// asks for.
    pub open spec fn step(self, notification: NotificationView) -> (Self, Seq<ActionView<C>>) {
        match notification {
            NotificationView::ControllerReady(controller) => self.controller_ready(controller),
            NotificationView::ValueAdded(report) => self.value_added(report),
            NotificationView::ValueChanged(report) => (self, self.value_changed(report)),
            _ => (self, Seq::empty()),
        }
    }
}

/// A change of a value that nobody watches has no effect: where the getter
/// of the value has no active channel, or the value is no getter at all,
/// the adapter remembers what it did and asks for no call.
pub proof fn change_without_watchers_is_silent<C>(adapter: AdapterView<C>, report: ValueReportView)
    requires
        forall|id: Seq<char>|
            id_of(adapter.getters, report.id) == Some(id) ==> #[trigger] adapter.watchers.active(
                id,
            ).len() == 0,
    ensures
        adapter.step(NotificationView::ValueChanged(report)) == (
            adapter,
            Seq::<ActionView<C>>::empty(),
        ),
{
    match adapter.change_event(report) {
        Some(event) => {
            let id = event->Enter_id;
        },
        None => {},
    }
}

/// No notification but the discovery of a controller or of a value changes
/// what the adapter remembers, and none but these and the change of a value
/// asks for a call.
pub proof fn other_notifications_are_ignored<C>(
    adapter: AdapterView<C>,
    notification: NotificationView,
)
    ensures
        !(notification is ControllerReady || notification is ValueAdded) ==> adapter.step(
            notification,
        ).0 == adapter,
        !(notification is ControllerReady || notification is ValueAdded
            || notification is ValueChanged) ==> adapter.step(notification).1 == Seq::<
            ActionView<C>,
        >::empty(),
{
}

/// The adapter forgets nothing: whatever the notification, the pairs it
/// remembered stand where they stood, new ones come behind them, and the
/// registry of watchers is as it was.
pub proof fn nothing_is_forgotten<C>(adapter: AdapterView<C>, notification: NotificationView)
    ensures
        adapter.controllers.is_prefix_of(adapter.step(notification).0.controllers),
        adapter.getters.is_prefix_of(adapter.step(notification).0.getters),
        adapter.setters.is_prefix_of(adapter.step(notification).0.setters),
        adapter.step(notification).0.watchers == adapter.watchers,
        adapter.step(notification).0.id == adapter.id,
{
}

/// A value is offered exactly when it is of the user's genre and its
/// controller has reported ready; its command class decides the kind it is
/// offered as and never whether it is offered.
pub proof fn value_is_offered_whatever_its_class<C>(
    adapter: AdapterView<C>,
    report: ValueReportView,
)
    ensures
        adapter.offered(report) is Some <==> report.genre == ValueGenre::User && id_of(
            adapter.controllers,
            Controller { home_id: report.id.home_id },
        ) is Some,
        report.command_class is None ==> kind_of(report) == Some(ChannelKind::Ready),
{
}

/// A value outside the user's genre is not offered: the adapter remembers
/// what it did and announces neither a getter nor a setter. The same holds
/// of a value whose controller has not reported ready.
pub proof fn unoffered_value_is_ignored<C>(adapter: AdapterView<C>, report: ValueReportView)
    requires
        report.genre != ValueGenre::User || id_of(
            adapter.controllers,
            Controller { home_id: report.id.home_id },
        ) is None,
    ensures
        adapter.step(NotificationView::ValueAdded(report)) == (
            adapter,
            Seq::<ActionView<C>>::empty(),
        ),
{
}

/// Once a controller has reported ready, its values are offered under its
/// service: every value of the user's genre is offered under the service
/// derived from the home id.
pub proof fn ready_controller_offers_its_values<C>(
    adapter: AdapterView<C>,
    controller: Controller,
    report: ValueReportView,
)
    requires
        adapter.wf(),
        report.id.home_id == controller.home_id,
        report.genre == ValueGenre::User,
    ensures
        adapter.controller_ready(controller).0.wf(),
        adapter.controller_ready(controller).0.offered(report) == Some(
            (service_label_of(controller.home_id), kind_of(report).unwrap()),
        ),
{
    // The controller stands in the last pair, so a first pair holds it, and
    // every pair that holds it names the service of its home id.
    let after = adapter.controller_ready(controller).0;
    let last = adapter.controllers.len() as int;
    assert(after.controllers[last].1 == controller);
    lemma_id_is_missing(after.controllers, controller);
    let at = choose|at: int| first_with_handle(after.controllers, controller, at);
    assert(after.controllers[at].0 == service_label_of(after.controllers[at].1.home_id));
    assert(after.wf());
}

/// A controller that reports ready for the first time gets a service of
/// its own: where no two controllers shared a service before, none do
/// after.
pub proof fn new_controller_gets_its_own_service<C>(adapter: AdapterView<C>, controller: Controller)
    requires
        adapter.wf(),
        ids_unique(adapter.controllers),
        id_of(adapter.controllers, controller) is None,
    ensures
        ids_unique(adapter.controller_ready(controller).0.controllers),
{
    let after = adapter.controller_ready(controller).0.controllers;
    let last = adapter.controllers.len() as int;
    lemma_id_is_missing(adapter.controllers, controller);
    assert forall|i: int, j: int| 0 <= i < j < after.len() implies (#[trigger] after[i]).0 != (
    #[trigger] after[j]).0 by {
        // An older pair holds another controller, and the services of two
        // controllers differ.
        if j == last && after[i].0 == after[j].0 {
            service_label_is_one_to_one(adapter.controllers[i].1.home_id, controller.home_id);
        }
    }
}

/// A value that has become a getter reports its changes under the
/// identifier it was announced with: once a value that was no getter before
/// is added as a readable value, a change of it to a boolean that can be
/// read is told as the state of that getter, open for `true` and closed for
/// `false`.
pub proof fn new_getter_reports_its_changes<C>(
    adapter: AdapterView<C>,
    added: ValueReportView,
    changed: ValueReportView,
)
    requires
        adapter.offered(added) is Some,
        !added.write_only,
        id_of(adapter.getters, added.id) is None,
        changed.id == added.id,
        changed.value_type == ValueType::Bool,
        changed.as_bool is Some,
    ensures
        adapter.value_added(added).0.change_event(changed) == Some(
            WatchEventView::Enter {
                id: value_label_of(added.id.id, added.label),
                value: Value::OpenClosed(
                    if changed.as_bool.unwrap() {
                        OpenClosed::Open
                    } else {
                        OpenClosed::Closed
                    },
                ),
            },
        ),
{
    let after = adapter.value_added(added).0;
    let last = adapter.getters.len() as int;
    lemma_id_is_missing(adapter.getters, added.id);
    assert(first_with_handle(after.getters, added.id, last));
    lemma_first_with_handle_is_one(
        after.getters,
        added.id,
        last,
        choose|at: int| first_with_handle(after.getters, added.id, at),
    );
}

} // verus!
