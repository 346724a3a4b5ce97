//! Identifiers and descriptors exchanged with the service registry.
//!
//! Every type that carries text has a view in which the text is a
//! `Seq<char>`; contracts throughout the crate speak of those views.

use std::marker::PhantomData;
use vstd::prelude::*;
use vstd::std_specs::cmp::PartialEqSpecImpl;

verus! {

/// Role tag of identifiers that name a service.
#[derive(Clone, Copy, Debug, PartialEq, Eq, Hash)]
pub struct ServiceId;

/// Role tag of identifiers that name an adapter.
#[derive(Clone, Copy, Debug, PartialEq, Eq, Hash)]
pub struct AdapterId;

/// Role tag of identifiers that name a tag.
#[derive(Clone, Copy, Debug, PartialEq, Eq, Hash)]
pub struct TagId;

/// The logical kind of a channel.
#[derive(Clone, Copy, Debug, PartialEq, Eq, Hash, Structural)]
pub enum ChannelKind {
    /// A binary contact: a door or a window.
    OpenClosed,
    /// A channel whose values carry no payload.
    Ready,
}

/// The read mechanism of a channel; also the role tag of getter identifiers.
#[derive(Clone, Copy, Debug, PartialEq, Eq, Hash, Structural)]
pub struct Getter {
    pub kind: ChannelKind,
}

/// The write mechanism of a channel; also the role tag of setter identifiers.
#[derive(Clone, Copy, Debug, PartialEq, Eq, Hash, Structural)]
pub struct Setter {
    pub kind: ChannelKind,
}

/// A stable identifier, tagged with the role `K` of what it names.
///
/// Two identifiers of one role are the same identifier exactly when their
/// labels are the same text.
#[derive(Debug, Hash)]
pub struct Id<K> {
    label: String,
    role: PhantomData<K>,
}

impl<K> View for Id<K> {
    type V = Seq<char>;

    closed spec fn view(&self) -> Seq<char> {
        self.label@
    }
}

impl<K> Id<K> {
    /// Derives the identifier that `label` stands for.
    pub fn new(label: &str) -> (id: Self)
        ensures
            id@ == label@,
    {
        Id { label: String::from_str(label), role: PhantomData }
    }

    /// The label this identifier was derived from.
    pub fn as_str(&self) -> (label: &str)
        ensures
            label@ == self@,
    {
        self.label.as_str()
    }
}

impl<K> Clone for Id<K> {
    fn clone(&self) -> (copy: Self)
        ensures
            copy@ == self@,
    {
        Id { label: self.label.clone(), role: PhantomData }
    }
}

impl<K> PartialEq for Id<K> {
    fn eq(&self, other: &Self) -> (same: bool) {
        self.label == other.label
    }
}

impl<K> PartialEqSpecImpl for Id<K> {
    open spec fn obeys_eq_spec() -> bool {
        true
    }

    open spec fn eq_spec(&self, other: &Self) -> bool {
        self@ == other@
    }
}

impl<K> Eq for Id<K> {

}

/// Whether a binary contact is open or closed.
#[derive(Clone, Copy, Debug, PartialEq, Eq, Hash, Structural)]
pub enum OpenClosed {
    Open,
    Closed,
}

/// The state of a data point, as the registry understands it.
#[derive(Clone, Copy, Debug, PartialEq, Eq, Hash, Structural)]
pub enum Value {
    /// A value without payload.
    Unit,
    /// The state of a binary contact.
    OpenClosed(OpenClosed),
}

/// A condition on values that a watcher may attach to a request.
#[derive(Clone, Copy, Debug, PartialEq, Eq, Structural)]
pub enum Range {
    /// Values no greater than the bound.
    Leq(Value),
    /// Values no smaller than the bound.
    Geq(Value),
    /// Values between the two bounds, bounds included.
    BetweenEq { min: Value, max: Value },
    /// Values outside the two bounds.
    OutOfStrict { min: Value, max: Value },
    /// Exactly this value.
    Eq(Value),
}

/// The labels of `ids`, in their order.
pub open spec fn labels<K>(ids: Seq<Id<K>>) -> Seq<Seq<char>> {
    ids.map_values(|id: Id<K>| id@)
}

/// What the registry is told of a service that was discovered.
#[derive(Clone, Debug, PartialEq, Eq)]
pub struct Service {
    pub id: Id<ServiceId>,
    /// The adapter that looks after the service.
    pub adapter: Id<AdapterId>,
    pub tags: Vec<Id<TagId>>,
}

/// A [`Service`] with its identifiers as labels.
pub struct ServiceView {
    pub id: Seq<char>,
    pub adapter: Seq<char>,
    pub tags: Seq<Seq<char>>,
}

impl View for Service {
    type V = ServiceView;

    open spec fn view(&self) -> ServiceView {
        ServiceView { id: self.id@, adapter: self.adapter@, tags: labels(self.tags@) }
    }
}

impl Service {
    /// A service without tags.
    pub fn empty(id: Id<ServiceId>, adapter: Id<AdapterId>) -> (service: Service)
        ensures
            service@ == (ServiceView { id: id@, adapter: adapter@, tags: Seq::empty() }),
    {
        let service = Service { id, adapter, tags: Vec::new() };
        assert(labels(service.tags@) =~= Seq::empty());
        service
    }
}

/// What the registry is told of a channel that was discovered; `M` is the
/// mechanism of the channel, [`Getter`] or [`Setter`].
#[derive(Clone, Debug, PartialEq, Eq)]
pub struct Channel<M> {
    pub id: Id<M>,
    /// The service the channel belongs to.
    pub service: Id<ServiceId>,
    /// The adapter that looks after the channel.
    pub adapter: Id<AdapterId>,
    pub tags: Vec<Id<TagId>>,
    pub mechanism: M,
}

/// A [`Channel`] with its identifiers as labels.
pub struct ChannelView<M> {
    pub id: Seq<char>,
    pub service: Seq<char>,
    pub adapter: Seq<char>,
    pub tags: Seq<Seq<char>>,
    pub mechanism: M,
}

impl<M> View for Channel<M> {
    type V = ChannelView<M>;

    open spec fn view(&self) -> ChannelView<M> {
        ChannelView {
            id: self.id@,
            service: self.service@,
            adapter: self.adapter@,
            tags: labels(self.tags@),
            mechanism: self.mechanism,
        }
    }
}

impl<M> Channel<M> {
    /// A channel without tags.
    pub fn untagged(
        id: Id<M>,
        service: Id<ServiceId>,
        adapter: Id<AdapterId>,
        mechanism: M,
    ) -> (channel: Channel<M>)
        ensures
            channel@ == (ChannelView {
                id: id@,
                service: service@,
                adapter: adapter@,
                tags: Seq::empty(),
                mechanism,
            }),
    {
        let channel = Channel { id, service, adapter, tags: Vec::new(), mechanism };
        assert(labels(channel.tags@) =~= Seq::empty());
        channel
    }
}

/// What a watcher is told.
#[derive(Clone, Debug, PartialEq, Eq)]
pub enum WatchEvent {
    /// The getter `id` has entered the state `value`.
    Enter { id: Id<Getter>, value: Value },
    /// The getter `id` has left the state `value`.
    Exit { id: Id<Getter>, value: Value },
}

/// A [`WatchEvent`] with its identifier as a label.
pub enum WatchEventView {
    Enter { id: Seq<char>, value: Value },
    Exit { id: Seq<char>, value: Value },
}

impl View for WatchEvent {
    type V = WatchEventView;

    open spec fn view(&self) -> WatchEventView {
        match self {
            WatchEvent::Enter { id, value } => WatchEventView::Enter { id: id@, value: *value },
            WatchEvent::Exit { id, value } => WatchEventView::Exit { id: id@, value: *value },
        }
    }
}

/// Why a request on one identifier was not served.
#[derive(Clone, Debug, PartialEq, Eq)]
pub enum TaxError {
    /// No getter is known under this identifier.
    NoSuchGetter(Id<Getter>),
    /// No setter is known under this identifier.
    NoSuchSetter(Id<Setter>),
    /// The adapter does not offer the operation yet.
    NotImplemented,
    /// The registry turned a request down, with its account of why.
    Refused(String),
}

/// A [`TaxError`] with its texts as sequences of characters.
pub enum TaxErrorView {
    NoSuchGetter(Seq<char>),
    NoSuchSetter(Seq<char>),
    NotImplemented,
    Refused(Seq<char>),
}

impl View for TaxError {
    type V = TaxErrorView;

    open spec fn view(&self) -> TaxErrorView {
        match self {
            TaxError::NoSuchGetter(id) => TaxErrorView::NoSuchGetter(id@),
            TaxError::NoSuchSetter(id) => TaxErrorView::NoSuchSetter(id@),
            TaxError::NotImplemented => TaxErrorView::NotImplemented,
            TaxError::Refused(account) => TaxErrorView::Refused(account@),
        }
    }
}

impl TaxError {
    /// The account of the error in words.
    pub open spec fn message_of(&self) -> Seq<char> {
        match self {
            TaxError::NoSuchGetter(id) => "No such getter: "@ + id@,
            TaxError::NoSuchSetter(id) => "No such setter: "@ + id@,
            TaxError::NotImplemented => "Not implemented"@,
            TaxError::Refused(account) => account@,
        }
    }

    /// The account of the error in words.
    pub fn message(&self) -> (text: String)
        ensures
            text@ == self.message_of(),
    {
        match self {
            TaxError::NoSuchGetter(id) => {
                let mut text = String::from_str("No such getter: ");
                text.append(id.as_str());
                text
            },
            TaxError::NoSuchSetter(id) => {
                let mut text = String::from_str("No such setter: ");
                text.append(id.as_str());
                text
            },
            TaxError::NotImplemented => String::from_str("Not implemented"),
            TaxError::Refused(account) => account.clone(),
        }
    }
}

} // verus!
