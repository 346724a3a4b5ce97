//! The registry of subscriptions.
//!
//! Each subscription gets the next index. A table keyed by that index holds
//! the subscriber's channel for as long as the subscription lives. A second
//! list remembers, in the order of registration, under which getter each
//! index was registered; it only grows, and an entry whose index has left the
//! table is skipped whenever the list is read.

use crate::taxonomy::{Getter, Id};
use std::collections::HashMap;
use vstd::prelude::*;

verus! {

/// The registry as a mathematical value.
pub struct WatchersView<C> {
    /// The index the next subscription gets.
    pub next: usize,
    /// The channel of every living subscription, by index.
    pub live: Map<usize, C>,
    /// The getter and the index of every subscription ever made, oldest
    /// first.
    pub interest: Seq<(Seq<char>, usize)>,
}

impl<C> WatchersView<C> {
    /// A registry in which nothing was ever registered.
    pub open spec fn empty() -> Self {
        WatchersView { next: 0, live: Map::empty(), interest: Seq::empty() }
    }

    /// Indexes are handed out in rising order, and only handed-out indexes
    /// are alive.
    pub open spec fn wf(self) -> bool {
        &&& self.live.dom().finite()
        &&& forall|key: usize| #[trigger] self.live.contains_key(key) ==> key < self.next
        &&& forall|i: int|
            0 <= i < self.interest.len() ==> (#[trigger] self.interest[i]).1 < self.next
        &&& forall|i: int, j: int|
            0 <= i < j < self.interest.len() ==> (#[trigger] self.interest[i]).1 < (
            #[trigger] self.interest[j]).1
        &&& forall|key: usize| #[trigger]
            self.live.contains_key(key) ==> exists|i: int|
                0 <= i < self.interest.len() && (#[trigger] self.interest[i]).1 == key
    }

    /// The registry after `channel` was registered under `getter`.
    pub open spec fn subscribed(self, getter: Seq<char>, channel: C) -> Self {
        WatchersView {
            next: (self.next + 1) as usize,
            live: self.live.insert(self.next, channel),
            interest: self.interest.push((getter, self.next)),
        }
    }

    /// The registry after the subscription `key` was given up.
    pub open spec fn released(self, key: usize) -> Self {
        WatchersView { next: self.next, live: self.live.remove(key), interest: self.interest }
    }

    /// The channel of the subscription `key`, while it lives.
    pub open spec fn resolved(self, key: usize) -> Option<C> {
        if self.live.contains_key(key) {
            Some(self.live[key])
        } else {
            None
        }
    }

    /// The channels of the living subscriptions under `getter`, oldest
    /// first.
    pub open spec fn active(self, getter: Seq<char>) -> Seq<C> {
        self.interest.filter_map(reachable(self.live, getter))
    }
}

/// The channel that an entry of the interest list leads to, where the entry
/// is under `getter` and its subscription is in `live`.
pub open spec fn reachable<C>(live: Map<usize, C>, getter: Seq<char>) -> spec_fn(
    (Seq<char>, usize),
) -> Option<C> {
    |entry: (Seq<char>, usize)|
        if entry.0 == getter && live.contains_key(entry.1) {
            Some(live[entry.1])
        } else {
            None
        }
}

/// Two ways to pick from a list that agree on each of its items pick the
/// same.
proof fn lemma_filter_map_agrees<A, B>(
    items: Seq<A>,
    f: spec_fn(A) -> Option<B>,
    g: spec_fn(A) -> Option<B>,
)
    requires
        forall|i: int| 0 <= i < items.len() ==> f(#[trigger] items[i]) == g(items[i]),
    ensures
        items.filter_map(f) == items.filter_map(g),
    decreases items.len(),
{
    if items.len() > 0 {
        let rest = items.drop_last();
        assert(forall|i: int| 0 <= i < rest.len() ==> f(#[trigger] rest[i]) == g(rest[i]));
        lemma_filter_map_agrees(rest, f, g);
        assert(f(items.last()) == g(items.last()));
    }
}

/// After `channel` was registered under `getter` and the new subscription
/// was released, `any` has the active channels it had before.
proof fn released_subscription_leaves_no_trace<C>(
    watchers: WatchersView<C>,
    getter: Seq<char>,
    channel: C,
    any: Seq<char>,
)
    requires
        watchers.wf(),
    ensures
        watchers.subscribed(getter, channel).released(watchers.next).active(any)
            == watchers.active(any),
{
    // The new index was not alive before, so what is alive after the
    // release is what was alive before; the new entry of the list leads
    // nowhere.
    let after = watchers.subscribed(getter, channel).released(watchers.next);
    assert(!watchers.live.contains_key(watchers.next));
    assert(after.live =~= watchers.live);
    assert(after.interest.drop_last() =~= watchers.interest);
}

/// A subscription that is given up at once leaves no trace among the
/// active channels: after `channel` was registered under `getter` and the
/// new subscription was released, every getter has the active channels it
/// had before. Where it had none, it has none.
pub proof fn released_subscription_is_inactive<C>(
    watchers: WatchersView<C>,
    getter: Seq<char>,
    channel: C,
    any: Seq<char>,
)
    requires
        watchers.wf(),
    ensures
        watchers.subscribed(getter, channel).released(watchers.next).active(any)
            == watchers.active(any),
        watchers.active(getter).len() == 0 ==> watchers.subscribed(getter, channel).released(
            watchers.next,
        ).active(getter).len() == 0,
        watchers.subscribed(getter, channel).released(watchers.next).resolved(watchers.next)
            is None,
{
    released_subscription_leaves_no_trace(watchers, getter, channel, getter);
    released_subscription_leaves_no_trace(watchers, getter, channel, any);
}

/// A new subscription is the youngest active one of its getter and of no
/// other: after `channel` was registered under `getter`, the active
/// channels of `getter` are those it had, followed by `channel`, and every
/// other getter has the active channels it had.
pub proof fn subscribed_channel_is_active<C>(
    watchers: WatchersView<C>,
    getter: Seq<char>,
    channel: C,
    other: Seq<char>,
)
    requires
        watchers.wf(),
    ensures
        watchers.subscribed(getter, channel).active(getter) == watchers.active(getter).push(
            channel,
        ),
        other != getter ==> watchers.subscribed(getter, channel).active(other) == watchers.active(
            other,
        ),
{
    // Every older entry of the list has an index below the new one, so it
    // leads where it led before.
    let after = watchers.subscribed(getter, channel);
    assert(after.interest.drop_last() =~= watchers.interest);
    assert(forall|i: int|
        0 <= i < watchers.interest.len() ==> reachable(after.live, getter)(
            #[trigger] watchers.interest[i],
        ) == reachable(watchers.live, getter)(watchers.interest[i]));
    lemma_filter_map_agrees(
        watchers.interest,
        reachable(after.live, getter),
        reachable(watchers.live, getter),
    );
    if other != getter {
        assert(forall|i: int|
            0 <= i < watchers.interest.len() ==> reachable(after.live, other)(
                #[trigger] watchers.interest[i],
            ) == reachable(watchers.live, other)(watchers.interest[i]));
        lemma_filter_map_agrees(
            watchers.interest,
            reachable(after.live, other),
            reachable(watchers.live, other),
        );
    }
}

/// Each item of `copies` is a clone of the item of `sources` at its place.
pub open spec fn all_cloned<C: Clone>(sources: Seq<C>, copies: Seq<C>) -> bool {
    &&& copies.len() == sources.len()
    &&& forall|i: int| 0 <= i < sources.len() ==> cloned(sources[i], #[trigger] copies[i])
}

/// The token of one subscription. Handing it back to
/// [`Watchers::release`] ends the subscription.
///
/// A guard holds nothing but the index of its subscription: it ends the
/// subscription of that index in the registry it is handed to, so it belongs
/// with the registry that made it.
#[derive(Debug, PartialEq, Eq)]
pub struct WatcherGuard {
    key: usize,
}

impl WatcherGuard {
    /// The index of the subscription this guard stands for.
    pub closed spec fn key(&self) -> usize {
        self.key
    }

    /// The index of the subscription this guard stands for.
    pub fn index(&self) -> (key: usize)
        ensures
            key == self.key(),
    {
        self.key
    }
}

/// The living subscriptions and the getters they were made under.
pub struct Watchers<C> {
    current_index: usize,
    map: HashMap<usize, C>,
    getter_map: Vec<(Id<Getter>, usize)>,
}

impl<C> View for Watchers<C> {
    type V = WatchersView<C>;

    closed spec fn view(&self) -> WatchersView<C> {
        WatchersView {
            next: self.current_index,
            live: self.map@,
            interest: Seq::new(
                self.getter_map@.len(),
                |i: int| (self.getter_map@[i].0@, self.getter_map@[i].1),
            ),
        }
    }
}

impl<C: Clone> Watchers<C> {
    /// Whether the registry is in a state that its own operations lead to.
    pub open spec fn wf(&self) -> bool {
        self@.wf()
    }

    /// A registry without subscriptions.
    pub fn new() -> (watchers: Self)
        ensures
            watchers.wf(),
            watchers@ == WatchersView::<C>::empty(),
    {
        let watchers = Watchers { current_index: 0, map: HashMap::new(), getter_map: Vec::new() };
        assert(watchers@.interest =~= Seq::empty());
        watchers
    }

    /// The index that the next subscription gets.
    pub fn next_index(&self) -> (next: usize)
        ensures
            next == self@.next,
    {
        self.current_index
    }

    /// Registers `watcher` under `tax_id` and returns the guard of the new
    /// subscription.
    pub fn push(&mut self, tax_id: Id<Getter>, watcher: C) -> (guard: WatcherGuard)
        requires
            old(self).wf(),
            old(self)@.next < usize::MAX,
        ensures
            final(self).wf(),
            final(self)@ == old(self)@.subscribed(tax_id@, watcher),
            guard.key() == old(self)@.next,
    {
        broadcast use vstd::std_specs::hash::group_hash_axioms;

        let index: usize = self.current_index;
        self.current_index = index + 1;
        self.map.insert(index, watcher);
        self.getter_map.push((tax_id, index));
        proof {
            let before = old(self)@;
            let after = self@;
            assert(after.interest =~= before.interest.push((tax_id@, index)));
            assert forall|key: usize| #[trigger] after.live.contains_key(key) implies exists|i: int|
                0 <= i < after.interest.len() && (#[trigger] after.interest[i]).1 == key by {
                if key == index {
                    assert(after.interest[before.interest.len() as int].1 == key);
                } else {
                    let i = choose|i: int|
                        0 <= i < before.interest.len() && (#[trigger] before.interest[i]).1 == key;
                    assert(after.interest[i].1 == key);
                }
            }
        }
        WatcherGuard { key: index }
    }

    /// The channel of the subscription `index`, while it lives.
    pub fn get(&self, index: usize) -> (found: Option<C>)
        ensures
            match found {
                Some(channel) => self@.resolved(index) is Some && cloned(
                    self@.resolved(index).unwrap(),
                    channel,
                ),
                None => self@.resolved(index) is None,
            },
    {
        broadcast use vstd::std_specs::hash::group_hash_axioms;

        match self.map.get(&index) {
            Some(channel) => Some(channel.clone()),
            None => None,
        }
    }

    /// The channels of the living subscriptions under `tax_id`, oldest
    /// first; `None` where there is none.
    pub fn get_from_tax_id(&self, tax_id: &Id<Getter>) -> (found: Option<Vec<C>>)
        ensures
            match found {
                Some(channels) => channels@.len() > 0 && all_cloned(
                    self@.active(tax_id@),
                    channels@,
                ),
                None => self@.active(tax_id@).len() == 0,
            },
    {
        broadcast use vstd::std_specs::hash::group_hash_axioms;

        let ghost view = self@;
        let ghost reach = reachable(view.live, tax_id@);
        let mut channels: Vec<C> = Vec::new();
        let mut at: usize = 0;
        while at < self.getter_map.len()
            invariant
                at <= self.getter_map.len(),
                view == self@,
                reach == reachable(view.live, tax_id@),
                view.interest.len() == self.getter_map.len(),
                all_cloned(view.interest.take(at as int).filter_map(reach), channels@),
            decreases self.getter_map.len() - at,
        {
            proof {
                view.interest.lemma_filter_map_take_succ(reach, at as int);
            }
            if self.getter_map[at].0 == *tax_id {
                match self.map.get(&self.getter_map[at].1) {
                    Some(channel) => {
                        channels.push(channel.clone());
                    },
                    None => {},
                }
            }
            at += 1;
        }
        proof {
            assert(view.interest.take(at as int) =~= view.interest);
        }
        if channels.len() == 0 {
            None
        } else {
            Some(channels)
        }
    }

    /// Ends the subscription that `guard` stands for.
    pub fn release(&mut self, guard: WatcherGuard)
        requires
            old(self).wf(),
        ensures
            final(self).wf(),
            final(self)@ == old(self)@.released(guard.key()),
    {
        broadcast use vstd::std_specs::hash::group_hash_axioms;

        self.map.remove(&guard.key);
        proof {
            let before = old(self)@;
            let after = self@;
            assert(after.interest =~= before.interest);
            assert forall|key: usize| #[trigger] after.live.contains_key(key) implies exists|i: int|
                0 <= i < after.interest.len() && (#[trigger] after.interest[i]).1 == key by {
                let i = choose|i: int|
                    0 <= i < before.interest.len() && (#[trigger] before.interest[i]).1 == key;
                assert(after.interest[i].1 == key);
            }
        }
    }
}

} // verus!
