//! The association between identifiers and the driver's handles.
//!
//! An [`IdMap`] is a list of pairs that only grows. Its view is the sequence
//! of pairs in the order in which they were pushed, each identifier as its
//! label. A lookup returns the first pair that matches.

use crate::driver::DriverHandle;
use crate::taxonomy::Id;
use vstd::prelude::*;

verus! {

/// The pair at `at` is the first one of `pairs` whose identifier is `id`.
pub open spec fn first_with_id<T>(pairs: Seq<(Seq<char>, T)>, id: Seq<char>, at: int) -> bool {
    &&& 0 <= at < pairs.len()
    &&& pairs[at].0 == id
    &&& forall|before: int| 0 <= before < at ==> (#[trigger] pairs[before]).0 != id
}

/// The pair at `at` is the first one of `pairs` whose handle is `handle`.
pub open spec fn first_with_handle<T>(pairs: Seq<(Seq<char>, T)>, handle: T, at: int) -> bool {
    &&& 0 <= at < pairs.len()
    &&& pairs[at].1 == handle
    &&& forall|before: int| 0 <= before < at ==> (#[trigger] pairs[before]).1 != handle
}

/// The handle that stands beside `id` in the first pair that holds `id`.
pub open spec fn handle_of<T>(pairs: Seq<(Seq<char>, T)>, id: Seq<char>) -> Option<T> {
    if exists|at: int| first_with_id(pairs, id, at) {
        Some(pairs[choose|at: int| first_with_id(pairs, id, at)].1)
    } else {
        None
    }
}

/// The identifier that stands beside `handle` in the first pair that holds
/// `handle`.
pub open spec fn id_of<T>(pairs: Seq<(Seq<char>, T)>, handle: T) -> Option<Seq<char>> {
    if exists|at: int| first_with_handle(pairs, handle, at) {
        Some(pairs[choose|at: int| first_with_handle(pairs, handle, at)].0)
    } else {
        None
    }
}

/// No two pairs of `pairs` share an identifier.
pub open spec fn ids_unique<T>(pairs: Seq<(Seq<char>, T)>) -> bool {
    forall|i: int, j: int|
        0 <= i < j < pairs.len() ==> (#[trigger] pairs[i]).0 != (#[trigger] pairs[j]).0
}

/// Two first matches of one identifier are the same pair.
pub proof fn lemma_first_with_id_is_one<T>(
    pairs: Seq<(Seq<char>, T)>,
    id: Seq<char>,
    a: int,
    b: int,
)
    requires
        first_with_id(pairs, id, a),
        first_with_id(pairs, id, b),
    ensures
        a == b,
{
}

/// Two first matches of one handle are the same pair.
pub proof fn lemma_first_with_handle_is_one<T>(
    pairs: Seq<(Seq<char>, T)>,
    handle: T,
    a: int,
    b: int,
)
    requires
        first_with_handle(pairs, handle, a),
        first_with_handle(pairs, handle, b),
    ensures
        a == b,
{
}

/// The handle found for an identifier stands in one of the pairs.
pub proof fn lemma_handle_is_held<T>(pairs: Seq<(Seq<char>, T)>, id: Seq<char>)
    requires
        handle_of(pairs, id) is Some,
    ensures
        exists|at: int|
            first_with_id(pairs, id, at) && (#[trigger] pairs[at]).1 == handle_of(
                pairs,
                id,
            ).unwrap(),
{
    let at = choose|at: int| first_with_id(pairs, id, at);
    assert(pairs[at].1 == handle_of(pairs, id).unwrap());
}

/// Where some pair before `bound` holds `id`, one of them is the first.
proof fn lemma_some_pair_is_first_with_id<T>(pairs: Seq<(Seq<char>, T)>, id: Seq<char>, bound: int)
    requires
        0 <= bound <= pairs.len(),
        exists|i: int| 0 <= i < bound && (#[trigger] pairs[i]).0 == id,
    ensures
        exists|at: int| first_with_id(pairs, id, at),
    decreases bound,
{
    if exists|i: int| 0 <= i < bound - 1 && (#[trigger] pairs[i]).0 == id {
        lemma_some_pair_is_first_with_id(pairs, id, bound - 1);
    } else {
        assert(first_with_id(pairs, id, bound - 1));
    }
}

/// Where some pair before `bound` holds `handle`, one of them is the first.
proof fn lemma_some_pair_is_first_with_handle<T>(
    pairs: Seq<(Seq<char>, T)>,
    handle: T,
    bound: int,
)
    requires
        0 <= bound <= pairs.len(),
        exists|i: int| 0 <= i < bound && (#[trigger] pairs[i]).1 == handle,
    ensures
        exists|at: int| first_with_handle(pairs, handle, at),
    decreases bound,
{
    if exists|i: int| 0 <= i < bound - 1 && (#[trigger] pairs[i]).1 == handle {
        lemma_some_pair_is_first_with_handle(pairs, handle, bound - 1);
    } else {
        assert(first_with_handle(pairs, handle, bound - 1));
    }
}

/// The handle of an identifier is missing exactly when no pair holds the
/// identifier.
pub proof fn lemma_handle_is_missing<T>(pairs: Seq<(Seq<char>, T)>, id: Seq<char>)
    ensures
        handle_of(pairs, id) is None <==> forall|i: int|
            0 <= i < pairs.len() ==> (#[trigger] pairs[i]).0 != id,
{
    if exists|i: int| 0 <= i < pairs.len() && (#[trigger] pairs[i]).0 == id {
        lemma_some_pair_is_first_with_id(pairs, id, pairs.len() as int);
    }
}

/// The identifier of a handle is missing exactly when no pair holds the
/// handle.
pub proof fn lemma_id_is_missing<T>(pairs: Seq<(Seq<char>, T)>, handle: T)
    ensures
        id_of(pairs, handle) is None <==> forall|i: int|
            0 <= i < pairs.len() ==> (#[trigger] pairs[i]).1 != handle,
{
    if exists|i: int| 0 <= i < pairs.len() && (#[trigger] pairs[i]).1 == handle {
        lemma_some_pair_is_first_with_handle(pairs, handle, pairs.len() as int);
    }
}

/// A lookup finds nothing exactly when no pair matches: the handle of an
/// identifier is missing exactly when no pair holds the identifier, and the
/// identifier of a handle is missing exactly when no pair holds the handle.
/// In a map without pairs every lookup finds nothing.
pub proof fn lookup_misses_what_no_pair_holds<T>(
    pairs: Seq<(Seq<char>, T)>,
    id: Seq<char>,
    handle: T,
)
    ensures
        handle_of(pairs, id) is None <==> forall|i: int|
            0 <= i < pairs.len() ==> (#[trigger] pairs[i]).0 != id,
        id_of(pairs, handle) is None <==> forall|i: int|
            0 <= i < pairs.len() ==> (#[trigger] pairs[i]).1 != handle,
        pairs.len() == 0 ==> handle_of(pairs, id) is None && id_of(pairs, handle) is None,
{
    lemma_handle_is_missing(pairs, id);
    lemma_id_is_missing(pairs, handle);
}

/// A pair of the map is found from both sides, as long as no other pair
/// holds its handle: in a map whose identifiers are unique, the lookup of
/// the pair's identifier returns its handle and the lookup of its handle
/// returns its identifier.
pub proof fn pair_is_found_from_both_sides<T>(pairs: Seq<(Seq<char>, T)>, at: int)
    requires
        0 <= at < pairs.len(),
        ids_unique(pairs),
        forall|other: int|
            0 <= other < pairs.len() && other != at ==> (#[trigger] pairs[other]).1 != pairs[at].1,
    ensures
        handle_of(pairs, pairs[at].0) == Some(pairs[at].1),
        id_of(pairs, pairs[at].1) == Some(pairs[at].0),
{
    let (id, handle) = pairs[at];
    assert(first_with_id(pairs, id, at));
    assert(first_with_handle(pairs, handle, at));
    lemma_first_with_id_is_one(pairs, id, at, choose|c: int| first_with_id(pairs, id, c));
    lemma_first_with_handle_is_one(
        pairs,
        handle,
        at,
        choose|c: int| first_with_handle(pairs, handle, c),
    );
}

/// What a lookup has found, it finds after every later push: a pair that
/// comes behind the others takes nothing from them.
pub proof fn push_keeps_what_was_found<T>(pairs: Seq<(Seq<char>, T)>, pair: (Seq<char>, T))
    ensures
        forall|id: Seq<char>| #[trigger]
            handle_of(pairs, id) is Some ==> handle_of(pairs.push(pair), id) == handle_of(
                pairs,
                id,
            ),
        forall|handle: T| #[trigger]
            id_of(pairs, handle) is Some ==> id_of(pairs.push(pair), handle) == id_of(
                pairs,
                handle,
            ),
{
    let longer = pairs.push(pair);
    assert forall|id: Seq<char>| #[trigger] handle_of(pairs, id) is Some implies handle_of(
        longer,
        id,
    ) == handle_of(pairs, id) by {
        let at = choose|at: int| first_with_id(pairs, id, at);
        assert(first_with_id(longer, id, at));
        lemma_first_with_id_is_one(longer, id, at, choose|c: int| first_with_id(longer, id, c));
    }
    assert forall|handle: T| #[trigger] id_of(pairs, handle) is Some implies id_of(longer, handle)
        == id_of(pairs, handle) by {
        let at = choose|at: int| first_with_handle(pairs, handle, at);
        assert(first_with_handle(longer, handle, at));
        lemma_first_with_handle_is_one(
            longer,
            handle,
            at,
            choose|c: int| first_with_handle(longer, handle, c),
        );
    }
}

/// A growing list of pairs of an identifier of role `K` and a handle.
pub struct IdMap<K, T> {
    map: Vec<(Id<K>, T)>,
}

impl<K, T> View for IdMap<K, T> {
    type V = Seq<(Seq<char>, T)>;

    closed spec fn view(&self) -> Seq<(Seq<char>, T)> {
        Seq::new(self.map@.len(), |i: int| (self.map@[i].0@, self.map@[i].1))
    }
}

impl<K, T: DriverHandle> IdMap<K, T> {
    /// A map without pairs.
    pub fn new() -> (map: Self)
        ensures
            map@ == Seq::<(Seq<char>, T)>::empty(),
    {
        IdMap { map: Vec::new() }
    }

    /// How many pairs the map holds.
    pub fn len(&self) -> (len: usize)
        ensures
            len == self@.len(),
    {
        self.map.len()
    }

    /// Adds the pair of `id` and `ozw_object` behind all others.
    pub fn push(&mut self, id: Id<K>, ozw_object: T)
        ensures
            final(self)@ == old(self)@.push((id@, ozw_object)),
    {
        self.map.push((id, ozw_object));
    }

    /// The identifier of the first pair whose handle is `needle`; `None`
    /// where no pair holds `needle`.
    pub fn find_tax_id_from_ozw(&self, needle: &T) -> (found: Option<Id<K>>)
        ensures
            match found {
                Some(id) => id_of(self@, *needle) == Some(id@),
                None => id_of(self@, *needle) == None::<Seq<char>>,
            },
            found is None <==> forall|i: int|
                0 <= i < self@.len() ==> (#[trigger] self@[i]).1 != *needle,
    {
        proof {
            lemma_id_is_missing(self@, *needle);
        }
        let mut at: usize = 0;
        while at < self.map.len()
            invariant
                at <= self.map.len(),
                forall|before: int| 0 <= before < at ==> (#[trigger] self@[before]).1 != *needle,
            decreases self.map.len() - at,
        {
            if self.map[at].1.same(needle) {
                let id = self.map[at].0.clone();
                proof {
                    assert(first_with_handle(self@, *needle, at as int));
                    let chosen = choose|c: int| first_with_handle(self@, *needle, c);
                    lemma_first_with_handle_is_one(self@, *needle, at as int, chosen);
                }
                return Some(id);
            }
            at += 1;
        }
        assert(forall|c: int| !first_with_handle(self@, *needle, c));
        None
    }

    /// The handle of the first pair whose identifier is `needle`; `None`
    /// where no pair holds `needle`.
    pub fn find_ozw_from_tax_id(&self, needle: &Id<K>) -> (found: Option<T>)
        ensures
            found == handle_of(self@, needle@),
            found is None <==> forall|i: int|
                0 <= i < self@.len() ==> (#[trigger] self@[i]).0 != needle@,
    {
        proof {
            lemma_handle_is_missing(self@, needle@);
        }
        let mut at: usize = 0;
        while at < self.map.len()
            invariant
                at <= self.map.len(),
                forall|before: int| 0 <= before < at ==> (#[trigger] self@[before]).0 != needle@,
            decreases self.map.len() - at,
        {
            if self.map[at].0 == *needle {
                let handle = self.map[at].1;
                proof {
                    assert(first_with_id(self@, needle@, at as int));
                    let chosen = choose|c: int| first_with_id(self@, needle@, c);
                    lemma_first_with_id_is_one(self@, needle@, at as int, chosen);
                }
                return Some(handle);
            }
            at += 1;
        }
        assert(forall|c: int| !first_with_id(self@, needle@, c));
        None
    }
}

} // verus!
