//! The adapter: how it answers the driver's notifications, and what it
//! offers to the registry's callers.
//!
//! The adapter neither talks to the driver nor to the registry. A
//! notification comes in as a value and the calls it asks for go out as a
//! list of [`Action`]s; where an operation needs the present state of a
//! value, the caller hands in the function that reads it from the driver.

use crate::dispatch::{carries_out, carry_out, Action, AdapterView};
use crate::driver::{
    Controller, DriverError, Notification, ValueGenre, ValueID, ValueReport, ValueType,
};
use crate::error::Error;
use crate::id_map::{handle_of, lemma_handle_is_held, IdMap};
use crate::label::{service_label, service_label_of, value_label};
use crate::reading::{
    current_value, event_view, first_event, initial_event, kind_from_value, reading_of,
    to_open_closed,
};
use crate::taxonomy::{
    AdapterId, Channel, Getter, Id, Range, Service, ServiceId, Setter, TaxError, TaxErrorView,
    Value, WatchEvent, WatchEventView,
};
use crate::watchers::{subscribed_channel_is_active, WatcherGuard, Watchers, WatchersView};
use vstd::prelude::*;

verus! {

/// `probe` can be asked about every value of `pairs`.
pub open spec fn reads_all<F: Fn(ValueID) -> ValueReport>(
    probe: F,
    pairs: Seq<(Seq<char>, ValueID)>,
) -> bool {
    forall|i: int| 0 <= i < pairs.len() ==> call_requires(probe, ((#[trigger] pairs[i]).1,))
}

/// `probe` can be asked about `value`, where there is one.
pub open spec fn reads<F: Fn(ValueID) -> ValueReport>(probe: F, value: Option<ValueID>) -> bool {
    match value {
        Some(handle) => call_requires(probe, (handle,)),
        None => true,
    }
}

/// `got` answers a read of the getter `id`, whose value is `value`: the
/// error that no such getter exists where there is no value, else the
/// reading of a report that `probe` gave of the value.
pub open spec fn fetched<F: Fn(ValueID) -> ValueReport>(
    value: Option<ValueID>,
    id: Seq<char>,
    probe: F,
    got: Result<Option<Value>, TaxError>,
) -> bool {
    match value {
        Some(handle) => exists|report: ValueReport| #[trigger]
            call_ensures(probe, (handle,), report) && got == Ok::<Option<Value>, TaxError>(
                reading_of(report@),
            ),
        None => got matches Err(error) && error@ == TaxErrorView::NoSuchGetter(id),
    }
}

/// `initial` is what a new watcher of the getter `id`, whose value is
/// `value`, is told at once: nothing where there is no value, else the
/// first event of a report that `probe` gave of the value.
pub open spec fn announced<F: Fn(ValueID) -> ValueReport>(
    value: Option<ValueID>,
    id: Seq<char>,
    probe: F,
    initial: Option<WatchEvent>,
) -> bool {
    match value {
        Some(handle) => exists|report: ValueReport| #[trigger]
            call_ensures(probe, (handle,), report) && event_view(initial) == first_event(
                id,
                report@,
            ),
        None => initial is None,
    }
}

/// `guard` answers a request to watch the getter `id`, whose value is
/// `value`: the guard of the subscription `key` where there is a value,
/// else the error that no such getter exists.
pub open spec fn answered(
    value: Option<ValueID>,
    id: Seq<char>,
    key: int,
    guard: Result<WatcherGuard, TaxError>,
) -> bool {
    match value {
        Some(_) => guard matches Ok(subscription) && subscription.key() == key,
        None => guard matches Err(error) && error@ == TaxErrorView::NoSuchGetter(id),
    }
}

/// Keeps an identifier under which `getters` knows a getter.
pub open spec fn known(getters: Seq<(Seq<char>, ValueID)>) -> spec_fn(Seq<char>) -> Option<
    Seq<char>,
> {
    |id: Seq<char>|
        if handle_of(getters, id) is Some {
            Some(id)
        } else {
            None
        }
}

/// Those of `ids` under which `getters` knows a getter, in their order.
/// These are the requests of a watch that are served.
pub open spec fn served(getters: Seq<(Seq<char>, ValueID)>, ids: Seq<Seq<char>>) -> Seq<
    Seq<char>,
> {
    ids.filter_map(known(getters))
}

/// Of the first requests no more are served than of all.
pub proof fn lemma_served_grows(getters: Seq<(Seq<char>, ValueID)>, ids: Seq<Seq<char>>, upto: int)
    requires
        0 <= upto <= ids.len(),
    ensures
        served(getters, ids.take(upto)).len() <= served(getters, ids).len(),
        served(getters, ids.take(upto)).len() <= upto,
    decreases ids.len() - upto,
{
    if upto < ids.len() {
        ids.lemma_filter_map_take_succ(known(getters), upto);
        lemma_served_grows(getters, ids, upto + 1);
    } else {
        assert(ids.take(upto) =~= ids);
    }
    lemma_served_counts(getters, ids, upto);
}

/// Of the first `upto` requests at most `upto` are served.
proof fn lemma_served_counts(getters: Seq<(Seq<char>, ValueID)>, ids: Seq<Seq<char>>, upto: int)
    requires
        0 <= upto <= ids.len(),
    ensures
        served(getters, ids.take(upto)).len() <= upto,
    decreases upto,
{
    if upto > 0 {
        ids.lemma_filter_map_take_succ(known(getters), upto - 1);
        lemma_served_counts(getters, ids, upto - 1);
    } else {
        assert(ids.take(0) =~= Seq::<Seq<char>>::empty());
    }
}

/// A single request is served exactly when its getter is known.
pub proof fn one_request_is_served_when_known(getters: Seq<(Seq<char>, ValueID)>, id: Seq<char>)
    ensures
        served(getters, seq![id]) == if handle_of(getters, id) is Some {
            seq![id]
        } else {
            Seq::<Seq<char>>::empty()
        },
{
    let ids = seq![id];
    assert(ids.take(0) =~= Seq::<Seq<char>>::empty());
    assert(ids.take(1) =~= ids);
    ids.lemma_filter_map_take_succ(known(getters), 0);
}

/// `after` is `before` with one more subscription for each of `ids`, in
/// their order, each with a clone of `sender` as its channel.
pub open spec fn registered_all<C: Clone>(
    before: WatchersView<C>,
    ids: Seq<Seq<char>>,
    sender: C,
    after: WatchersView<C>,
) -> bool {
    &&& after.next == before.next + ids.len()
    &&& after.interest == before.interest + Seq::new(
        ids.len(),
        |i: int| (ids[i], (before.next + i) as usize),
    )
    &&& forall|key: usize| #[trigger]
        after.live.contains_key(key) <==> before.live.contains_key(key) || before.next <= key
            < before.next + ids.len()
    &&& forall|key: usize| #[trigger]
        before.live.contains_key(key) ==> after.live[key] == before.live[key]
    &&& forall|key: usize|
        before.next <= key < before.next + ids.len() ==> cloned(sender, #[trigger] after.live[key])
}

/// A watcher that was registered under one getter is the youngest active
/// one of that getter: after the registration the active channels of the
/// getter are those it had, followed by the clone of the sender that was
/// registered, and every other getter has the active channels it had.
pub proof fn registered_watcher_is_active<C: Clone>(
    before: WatchersView<C>,
    getter: Seq<char>,
    sender: C,
    after: WatchersView<C>,
    other: Seq<char>,
)
    requires
        before.wf(),
        before.next < usize::MAX,
        registered_all(before, seq![getter], sender, after),
    ensures
        after == before.subscribed(getter, after.live[before.next]),
        cloned(sender, after.live[before.next]),
        after.active(getter) == before.active(getter).push(after.live[before.next]),
        other != getter ==> after.active(other) == before.active(other),
{
    let channel = after.live[before.next];
    let expected = before.subscribed(getter, channel);
    assert(after.interest =~= expected.interest);
    assert(after.live =~= expected.live);
    subscribed_channel_is_active(before, getter, channel, other);
}

/// The getters that `requests` name, in their order.
pub open spec fn requested(requests: Seq<(Id<Getter>, Option<Range>)>) -> Seq<Seq<char>> {
    requests.map_values(|request: (Id<Getter>, Option<Range>)| request.0@)
}

/// A request of a watch after it was registered and before its watcher
/// was told anything.
#[derive(Debug, PartialEq, Eq)]
pub struct Pending {
    /// The getter that the request named.
    pub id: Id<Getter>,
    /// The guard of the new subscription, or why there is none.
    pub guard: Result<WatcherGuard, TaxError>,
    /// The value to read for the watcher's first event, where the getter is
    /// known.
    pub value: Option<ValueID>,
}

/// The answer to one request of a watch.
#[derive(Debug, PartialEq, Eq)]
pub struct Registration {
    /// The getter that the request named.
    pub id: Id<Getter>,
    /// The guard of the new subscription, or why there is none.
    pub guard: Result<WatcherGuard, TaxError>,
    /// The event to push into the watcher's channel before anything else.
    pub initial: Option<WatchEvent>,
}

/// Reads the values that were found for the getters of `found`, each
/// through `probe`: for every identifier, in the order of `found`, the value
/// read or the error that no such getter is known.
pub fn read_values<F: Fn(ValueID) -> ValueReport>(
    found: Vec<(Id<Getter>, Option<ValueID>)>,
    probe: F,
) -> (values: Vec<(Id<Getter>, Result<Option<Value>, TaxError>)>)
    requires
        forall|i: int| 0 <= i < found@.len() ==> reads(probe, (#[trigger] found@[i]).1),
    ensures
        values@.len() == found@.len(),
        forall|i: int|
            0 <= i < found@.len() ==> (#[trigger] values@[i]).0@ == found@[i].0@ && fetched(
                found@[i].1,
                found@[i].0@,
                probe,
                values@[i].1,
            ),
{
    let mut values: Vec<(Id<Getter>, Result<Option<Value>, TaxError>)> = Vec::new();
    let ghost asked = found@;
    for entry in it: found
        invariant
            it.seq() == asked,
            forall|i: int| 0 <= i < asked.len() ==> reads(probe, (#[trigger] asked[i]).1),
            values@.len() == it.index(),
            forall|i: int|
                0 <= i < it.index() ==> (#[trigger] values@[i]).0@ == asked[i].0@ && fetched(
                    asked[i].1,
                    asked[i].0@,
                    probe,
                    values@[i].1,
                ),
    {
        let ghost at = it.index();
        assert(reads(probe, asked[at].1));
        let (id, value) = entry;
        let got = match value {
            Some(handle) => {
                let report = probe(handle);
                Ok(current_value(&report))
            },
            None => Err(TaxError::NoSuchGetter(id.clone())),
        };
        values.push((id, got));
    }
    values
}

/// Reads through `probe` what the watcher of each registered request is to
/// be told at once, and completes the answers, in the order of `pending`.
pub fn announce<F: Fn(ValueID) -> ValueReport>(pending: Vec<Pending>, probe: F) -> (answers: Vec<
    Registration,
>)
    requires
        forall|i: int| 0 <= i < pending@.len() ==> reads(probe, (#[trigger] pending@[i]).value),
    ensures
        answers@.len() == pending@.len(),
        forall|i: int|
            0 <= i < pending@.len() ==> {
                &&& (#[trigger] answers@[i]).id@ == pending@[i].id@
                &&& answers@[i].guard == pending@[i].guard
                &&& announced(pending@[i].value, pending@[i].id@, probe, answers@[i].initial)
            },
{
    let mut answers: Vec<Registration> = Vec::new();
    let ghost asked = pending@;
    for entry in it: pending
        invariant
            it.seq() == asked,
            forall|i: int| 0 <= i < asked.len() ==> reads(probe, (#[trigger] asked[i]).value),
            answers@.len() == it.index(),
            forall|i: int|
                0 <= i < it.index() ==> {
                    &&& (#[trigger] answers@[i]).id@ == asked[i].id@
                    &&& answers@[i].guard == asked[i].guard
                    &&& announced(asked[i].value, asked[i].id@, probe, answers@[i].initial)
                },
    {
        let ghost at = it.index();
        assert(reads(probe, asked[at].value));
        let Pending { id, guard, value } = entry;
        let initial = match value {
            Some(handle) => {
                let report = probe(handle);
                initial_event(&id, &report)
            },
            None => None,
        };
        answers.push(Registration { id, guard, initial });
    }
    answers
}

/// One adapter for all controllers of the driver.
pub struct OpenzwaveAdapter<C> {
    id: Id<AdapterId>,
    name: String,
    vendor: String,
    version: [u32; 4],
    controller_map: IdMap<ServiceId, Controller>,
    getter_map: IdMap<Getter, ValueID>,
    setter_map: IdMap<Setter, ValueID>,
    watchers: Watchers<C>,
}

impl<C> View for OpenzwaveAdapter<C> {
    type V = AdapterView<C>;

    closed spec fn view(&self) -> AdapterView<C> {
        AdapterView {
            id: self.id@,
            controllers: self.controller_map@,
            getters: self.getter_map@,
            setters: self.setter_map@,
            watchers: self.watchers@,
        }
    }
}

/// The name under which the adapter registers.
pub open spec fn adapter_name() -> Seq<char> {
    "OpenZwave Adapter"@
}

/// The vendor the adapter names.
pub open spec fn adapter_vendor() -> Seq<char> {
    "Mozilla"@
}

impl<C: Clone> OpenzwaveAdapter<C> {
    /// The adapter carries its own name, vendor and version.
    pub closed spec fn labelled(&self) -> bool {
        &&& self.id@ == adapter_name()
        &&& self.name@ == adapter_name()
        &&& self.vendor@ == adapter_vendor()
        &&& self.version@ == seq![1u32, 0u32, 0u32, 0u32]
    }

    /// Whether the adapter is in a state that its own operations lead to.
    pub open spec fn wf(&self) -> bool {
        &&& self.labelled()
        &&& self@.wf()
    }

    /// An adapter that has seen nothing of the driver yet.
    pub fn new() -> (adapter: Self)
        ensures
            adapter.wf(),
            adapter@ == (AdapterView::<C> {
                id: adapter_name(),
                controllers: Seq::empty(),
                getters: Seq::empty(),
                setters: Seq::empty(),
                watchers: WatchersView::empty(),
            }),
    {
        let name = String::from_str("OpenZwave Adapter");
        let adapter = OpenzwaveAdapter {
            id: Id::new(name.as_str()),
            name,
            vendor: String::from_str("Mozilla"),
            version: [1, 0, 0, 0],
            controller_map: IdMap::new(),
            getter_map: IdMap::new(),
            setter_map: IdMap::new(),
            watchers: Watchers::new(),
        };
        adapter
    }

    /// Decides how the adapter starts, from the outcome of starting the
    /// driver: a fresh adapter where the driver runs, no adapter and no
    /// error where the machine has no Z-Wave device, the driver's error in
    /// every other case.
    pub fn init(started: Result<(), DriverError>) -> (outcome: Result<Option<Self>, Error>)
        ensures
            match started {
                Ok(_) => outcome matches Ok(Some(adapter)) && adapter.wf() && adapter@ == (
                AdapterView::<C> {
                    id: adapter_name(),
                    controllers: Seq::empty(),
                    getters: Seq::empty(),
                    setters: Seq::empty(),
                    watchers: WatchersView::empty(),
                }),
                Err(DriverError::NoDeviceFound(_)) => outcome matches Ok(None),
                Err(other) => outcome matches Err(Error::OpenzwaveError(cause)) && cause == other,
            },
    {
        match started {
            Ok(_) => Ok(Some(Self::new())),
            Err(DriverError::NoDeviceFound(_)) => Ok(None),
            Err(other) => Err(Error::OpenzwaveError(other)),
        }
    }

    /// The adapter's own identifier.
    pub fn id(&self) -> (id: Id<AdapterId>)
        requires
            self.wf(),
        ensures
            id@ == self@.id,
            id@ == adapter_name(),
    {
        self.id.clone()
    }

    /// The name under which the adapter registers.
    pub fn name(&self) -> (name: &str)
        requires
            self.wf(),
        ensures
            name@ == adapter_name(),
    {
        self.name.as_str()
    }

    /// The vendor the adapter names.
    pub fn vendor(&self) -> (vendor: &str)
        requires
            self.wf(),
        ensures
            vendor@ == adapter_vendor(),
    {
        self.vendor.as_str()
    }

    /// The adapter's version.
    pub fn version(&self) -> (version: &[u32; 4])
        requires
            self.wf(),
        ensures
            version@ == seq![1u32, 0u32, 0u32, 0u32],
    {
        &self.version
    }

    fn controller_ready(&mut self, controller: Controller) -> (actions: Vec<Action<C>>)
        requires
            old(self).wf(),
        ensures
            final(self).wf(),
            final(self)@ == old(self)@.controller_ready(controller).0,
            carry_out(old(self)@.controller_ready(controller).1, actions@),
    {
        let service = service_label(controller.get_home_id());
        let service_id: Id<ServiceId> = Id::new(service.as_str());
        self.controller_map.push(service_id.clone(), controller);
        let mut actions: Vec<Action<C>> = Vec::new();
        actions.push(Action::AddService(Service::empty(service_id, self.id.clone())));
        proof {
            // The pairs that stood before still name the services of their
            // controllers, and so does the new one.
            assert forall|i: int| 0 <= i < self@.controllers.len() implies (
            #[trigger] self@.controllers[i]).0 == service_label_of(
                self@.controllers[i].1.home_id,
            ) by {
                if i < old(self)@.controllers.len() {
                    assert(self@.controllers[i] == old(self)@.controllers[i]);
                }
            }
        }
        actions
    }

    fn value_added(&mut self, value: ValueReport) -> (actions: Vec<Action<C>>)
        requires
            old(self).wf(),
        ensures
            final(self).wf(),
            final(self)@ == old(self)@.value_added(value@).0,
            carry_out(old(self)@.value_added(value@).1, actions@),
    {
        let mut actions: Vec<Action<C>> = Vec::new();
        match value.genre {
            ValueGenre::User => {},
            _ => {
                return actions;
            },
        }
        let value_id = value_label(value.id.get_id(), value.label.as_str());
        let controller_id = match self.controller_map.find_tax_id_from_ozw(
            &value.id.get_controller(),
        ) {
            Some(id) => id,
            None => {
                return actions;
            },
        };
        let has_getter = !value.write_only;
        let has_setter = !value.read_only;
        let kind = kind_from_value(&value).unwrap();
        if has_getter {
            let getter_id: Id<Getter> = Id::new(value_id.as_str());
            self.getter_map.push(getter_id.clone(), value.id);
            actions.push(
                Action::AddGetter(
                    Channel::untagged(
                        getter_id,
                        controller_id.clone(),
                        self.id.clone(),
                        Getter { kind },
                    ),
                ),
            );
        }
        if has_setter {
            let setter_id: Id<Setter> = Id::new(value_id.as_str());
            self.setter_map.push(setter_id.clone(), value.id);
            actions.push(
                Action::AddSetter(
                    Channel::untagged(setter_id, controller_id, self.id.clone(), Setter { kind }),
                ),
            );
        }
        proof {
            let planned = old(self)@.value_added(value@).1;
            assert forall|i: int| 0 <= i < planned.len() implies carries_out(
                planned[i],
                (#[trigger] actions@[i])@,
            ) by {}
        }
        actions
    }

    fn value_changed(&self, value: ValueReport) -> (actions: Vec<Action<C>>)
        requires
            self.wf(),
        ensures
            carry_out(self@.value_changed(value@), actions@),
    {
        let mut actions: Vec<Action<C>> = Vec::new();
        match value.value_type {
            ValueType::Bool => {},
            _ => {
                return actions;
            },
        }
        let tax_id = match self.getter_map.find_tax_id_from_ozw(&value.id) {
            Some(id) => id,
            None => {
                return actions;
            },
        };
        let watchers = match self.watchers.get_from_tax_id(&tax_id) {
            Some(watchers) => watchers,
            None => {
                return actions;
            },
        };
        let state = match to_open_closed(&value) {
            Some(state) => state,
            None => {
                return actions;
            },
        };
        let ghost planned = self@.value_changed(value@);
        let ghost handed = watchers@;
        for sender in it: watchers
            invariant
                it.seq() == handed,
                planned == self@.value_changed(value@),
                planned.len() == handed.len(),
                self@.change_event(value@) == Some(
                    WatchEventView::Enter { id: tax_id@, value: state },
                ),
                forall|i: int|
                    0 <= i < handed.len() ==> cloned(
                        self@.watchers.active(tax_id@)[i],
                        #[trigger] handed[i],
                    ),
                actions@.len() == it.index(),
                forall|i: int|
                    0 <= i < it.index() ==> carries_out(planned[i], (#[trigger] actions@[i])@),
        {
            actions.push(
                Action::Send {
                    channel: sender,
                    event: WatchEvent::Enter { id: tax_id.clone(), value: state },
                },
            );
        }
        actions
    }

    /// Takes one notification of the driver: updates what the adapter
    /// remembers and returns the calls to make, in their order.
    pub fn handle_notification(&mut self, notification: Notification) -> (actions: Vec<Action<C>>)
        requires
            old(self).wf(),
        ensures
            final(self).wf(),
            final(self)@ == old(self)@.step(notification@).0,
            carry_out(old(self)@.step(notification@).1, actions@),
    {
        match notification {
            Notification::ControllerReady(controller) => self.controller_ready(controller),
            Notification::ValueAdded(value) => self.value_added(value),
            Notification::ValueChanged(value) => self.value_changed(value),
            _ => Vec::new(),
        }
    }

    /// The value of each getter of `set`, in the order of `set`; `None`
    /// where no getter is known under the identifier.
    pub fn find_getters(&self, set: Vec<Id<Getter>>) -> (found: Vec<(Id<Getter>, Option<ValueID>)>)
        ensures
            found@.len() == set@.len(),
            forall|i: int|
                0 <= i < set@.len() ==> (#[trigger] found@[i]).0@ == set@[i]@ && found@[i].1
                    == handle_of(self@.getters, set@[i]@),
    {
        let mut found: Vec<(Id<Getter>, Option<ValueID>)> = Vec::new();
        let ghost asked = set@;
        for id in it: set
            invariant
                it.seq() == asked,
                found@.len() == it.index(),
                forall|i: int|
                    0 <= i < it.index() ==> (#[trigger] found@[i]).0@ == asked[i]@ && found@[i].1
                        == handle_of(self@.getters, asked[i]@),
        {
            let value = self.getter_map.find_ozw_from_tax_id(&id);
            found.push((id, value));
        }
        found
    }

    /// Reads the getters of `set`, each through `probe`: for every
    /// identifier, in the order of `set`, the value read or the error that
    /// no such getter is known.
    ///
    /// This is [`find_getters`](Self::find_getters) followed by
    /// [`read_values`]; a host that shares the adapter calls the two apart
    /// and reads the driver in between without holding the adapter.
    pub fn fetch_values<F: Fn(ValueID) -> ValueReport>(&self, set: Vec<Id<Getter>>, probe: F) -> (values:
        Vec<(Id<Getter>, Result<Option<Value>, TaxError>)>)
        requires
            reads_all(probe, self@.getters),
        ensures
            values@.len() == set@.len(),
            forall|i: int|
                0 <= i < set@.len() ==> (#[trigger] values@[i]).0@ == set@[i]@ && fetched(
                    handle_of(self@.getters, set@[i]@),
                    set@[i]@,
                    probe,
                    values@[i].1,
                ),
    {
        let found = self.find_getters(set);
        proof {
            assert forall|i: int| 0 <= i < found@.len() implies reads(
                probe,
                (#[trigger] found@[i]).1,
            ) by {
                if found@[i].1 is Some {
                    lemma_handle_is_held(self@.getters, found@[i].0@);
                }
            }
        }
        read_values(found, probe)
    }

    /// Answers every request to write with the error that writing is not
    /// offered yet, in the order of `values`.
    pub fn send_values(&self, values: Vec<(Id<Setter>, Value)>) -> (answers: Vec<
        (Id<Setter>, Result<(), TaxError>),
    >)
        ensures
            answers@.len() == values@.len(),
            forall|i: int|
                0 <= i < values@.len() ==> (#[trigger] answers@[i]).0@ == values@[i].0@
                    && answers@[i].1 == Err::<(), TaxError>(TaxError::NotImplemented),
    {
        let mut answers: Vec<(Id<Setter>, Result<(), TaxError>)> = Vec::new();
        let ghost asked = values@;
        for request in it: values
            invariant
                it.seq() == asked,
                answers@.len() == it.index(),
                forall|i: int|
                    0 <= i < it.index() ==> (#[trigger] answers@[i]).0@ == asked[i].0@
                        && answers@[i].1 == Err::<(), TaxError>(TaxError::NotImplemented),
        {
            answers.push((request.0, Err(TaxError::NotImplemented)));
        }
        answers
    }

    /// Registers a clone of `sender` as a watcher of every getter of `values`
    /// that is known, and answers every other request with the error that
    /// no such getter is known.
    ///
    /// The answers stand in the order of `values`. The indexes of the
    /// subscriptions that were made follow one another from the first free
    /// one. The range of a request is accepted and not applied.
    pub fn subscribe(&mut self, values: Vec<(Id<Getter>, Option<Range>)>, sender: C) -> (pending:
        Vec<Pending>)
        requires
            old(self).wf(),
            old(self)@.watchers.next + served(old(self)@.getters, requested(values@)).len()
                <= usize::MAX,
        ensures
            final(self).wf(),
            final(self)@.id == old(self)@.id,
            final(self)@.controllers == old(self)@.controllers,
            final(self)@.getters == old(self)@.getters,
            final(self)@.setters == old(self)@.setters,
            registered_all(
                old(self)@.watchers,
                served(old(self)@.getters, requested(values@)),
                sender,
                final(self)@.watchers,
            ),
            pending@.len() == values@.len(),
            forall|i: int|
                0 <= i < values@.len() ==> {
                    &&& (#[trigger] pending@[i]).id@ == values@[i].0@
                    &&& pending@[i].value == handle_of(old(self)@.getters, values@[i].0@)
                    &&& answered(
                        pending@[i].value,
                        values@[i].0@,
                        old(self)@.watchers.next + served(
                            old(self)@.getters,
                            requested(values@).take(i),
                        ).len(),
                        pending@[i].guard,
                    )
                },
    {
        let mut pending: Vec<Pending> = Vec::new();
        let ghost asked = values@;
        let ghost ids = requested(values@);
        let ghost before = self@;
        proof {
            // Before the first request nothing is served and nothing is
            // registered.
            let none = served(before.getters, ids.take(0));
            assert(ids.take(0) =~= Seq::<Seq<char>>::empty());
            assert(before.watchers.interest + Seq::new(
                none.len(),
                |i: int| (none[i], (before.watchers.next + i) as usize),
            ) =~= before.watchers.interest);
        }
        for request in it: values
            invariant
                it.seq() == asked,
                ids == requested(asked),
                self.wf(),
                self@.id == before.id,
                self@.controllers == before.controllers,
                self@.getters == before.getters,
                self@.setters == before.setters,
                before.watchers.wf(),
                before.watchers.next + served(before.getters, ids).len() <= usize::MAX,
                registered_all(
                    before.watchers,
                    served(before.getters, ids.take(it.index())),
                    sender,
                    self@.watchers,
                ),
                pending@.len() == it.index(),
                forall|i: int|
                    0 <= i < it.index() ==> {
                        &&& (#[trigger] pending@[i]).id@ == asked[i].0@
                        &&& pending@[i].value == handle_of(before.getters, asked[i].0@)
                        &&& answered(
                            pending@[i].value,
                            asked[i].0@,
                            before.watchers.next + served(before.getters, ids.take(i)).len(),
                            pending@[i].guard,
                        )
                    },
        {
            let ghost done = it.index();
            let ghost earlier = served(before.getters, ids.take(done));
            let (id, _) = request;
            proof {
                assert(ids[done] == id@);
                ids.lemma_filter_map_take_succ(known(before.getters), done);
                lemma_served_grows(before.getters, ids, done + 1);
            }
            match self.getter_map.find_ozw_from_tax_id(&id) {
                Some(handle) => {
                    let guard = self.watchers.push(id.clone(), sender.clone());
                    pending.push(Pending { id, guard: Ok(guard), value: Some(handle) });
                    proof {
                        let now = served(before.getters, ids.take(done + 1));
                        let later = self@.watchers;
                        assert(now =~= earlier.push(ids[done]));
                        assert(later.interest =~= before.watchers.interest + Seq::new(
                            now.len(),
                            |i: int| (now[i], (before.watchers.next + i) as usize),
                        ));
                        assert(forall|key: usize| #[trigger]
                            before.watchers.live.contains_key(key) ==> later.live[key]
                                == before.watchers.live[key]);
                    }
                },
                None => {
                    let error = TaxError::NoSuchGetter(id.clone());
                    pending.push(Pending { id, guard: Err(error), value: None });
                    proof {
                        assert(served(before.getters, ids.take(done + 1)) =~= earlier);
                    }
                },
            }
        }
        proof {
            assert(ids.take(asked.len() as int) =~= ids);
        }
        pending
    }

    /// Registers a clone of `sender` as a watcher of every getter of `values`
    /// that is known, and reads through `probe` what each new watcher is to
    /// be told at once. A request that names no known getter is answered
    /// with the error that no such getter is known, and nothing is
    /// registered for it.
    ///
    /// The answers stand in the order of `values`. The indexes of the
    /// subscriptions that were made follow one another from the first free
    /// one. The range of a request is accepted and not applied.
    ///
    /// This is [`subscribe`](Self::subscribe) followed by [`announce`]; a
    /// host that shares the adapter calls the two apart and reads the driver
    /// in between without holding the adapter.
    pub fn register_watch<F: Fn(ValueID) -> ValueReport>(
        &mut self,
        values: Vec<(Id<Getter>, Option<Range>)>,
        sender: C,
        probe: F,
    ) -> (answers: Vec<Registration>)
        requires
            old(self).wf(),
            old(self)@.watchers.next + served(old(self)@.getters, requested(values@)).len()
                <= usize::MAX,
            reads_all(probe, old(self)@.getters),
        ensures
            final(self).wf(),
            final(self)@.id == old(self)@.id,
            final(self)@.controllers == old(self)@.controllers,
            final(self)@.getters == old(self)@.getters,
            final(self)@.setters == old(self)@.setters,
            registered_all(
                old(self)@.watchers,
                served(old(self)@.getters, requested(values@)),
                sender,
                final(self)@.watchers,
            ),
            answers@.len() == values@.len(),
            forall|i: int|
                0 <= i < values@.len() ==> {
                    &&& (#[trigger] answers@[i]).id@ == values@[i].0@
                    &&& answered(
                        handle_of(old(self)@.getters, values@[i].0@),
                        values@[i].0@,
                        old(self)@.watchers.next + served(
                            old(self)@.getters,
                            requested(values@).take(i),
                        ).len(),
                        answers@[i].guard,
                    )
                    &&& announced(
                        handle_of(old(self)@.getters, values@[i].0@),
                        values@[i].0@,
                        probe,
                        answers@[i].initial,
                    )
                },
    {
        let ghost getters = self@.getters;
        let pending = self.subscribe(values, sender);
        proof {
            assert forall|i: int| 0 <= i < pending@.len() implies reads(
                probe,
                (#[trigger] pending@[i]).value,
            ) by {
                if pending@[i].value is Some {
                    lemma_handle_is_held(getters, pending@[i].id@);
                }
            }
        }
        announce(pending, probe)
    }

    /// Whether `requests` more subscriptions can still get an index.
    pub fn has_room_for(&self, requests: usize) -> (room: bool)
        ensures
            room == (self@.watchers.next + requests <= usize::MAX),
    {
        requests <= usize::MAX - self.watchers.next_index()
    }

    /// Ends the subscription that `guard` stands for.
    pub fn release_watch(&mut self, guard: WatcherGuard)
        requires
            old(self).wf(),
        ensures
            final(self).wf(),
            final(self)@ == (AdapterView {
                watchers: old(self)@.watchers.released(guard.key()),
                ..old(self)@
            }),
    {
        self.watchers.release(guard);
    }
}

} // verus!
