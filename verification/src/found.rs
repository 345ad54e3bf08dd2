//! Elements that were found, each of them once.
use crate::webelement::WebElement;
use vstd::prelude::*;

verus! {

/// `indexmap::IndexMap`: a map that keeps the order in which its keys came.
#[verifier::external_type_specification]
#[verifier::external_body]
#[verifier::reject_recursive_types(K)]
#[verifier::reject_recursive_types(V)]
#[verifier::reject_recursive_types(S)]
pub struct ExIndexMap<K, V, S>(indexmap::IndexMap<K, V, S>);

/// The keys of a map with their values, in their order.
pub uninterp spec fn entries_of(map: indexmap::IndexMap<String, usize>) -> Seq<(Seq<char>, usize)>;

/// The first place of a key.
pub open spec fn place_of(entries: Seq<(Seq<char>, usize)>, key: Seq<char>, i: nat) -> Option<int>
    decreases entries.len() - i,
{
    if i >= entries.len() {
        None
    } else if entries[i as int].0 == key {
        Some(i as int)
    } else {
        place_of(entries, key, i + 1)
    }
}

/// `indexmap::IndexMap::new`: a map without keys.
#[verifier::external_body]
fn map_new() -> (r: indexmap::IndexMap<String, usize>)
    ensures
        entries_of(r) == Seq::<(Seq<char>, usize)>::empty(),
{
    indexmap::IndexMap::new()
}

/// `indexmap::IndexMap::insert`: a key that is there keeps its place and gets the value, and any
/// other key comes last. The value that the key had is returned.
#[verifier::external_body]
fn map_insert(map: &mut indexmap::IndexMap<String, usize>, key: String, value: usize) -> (r: Option<
    usize,
>)
    ensures
        match place_of(entries_of(*old(map)), key@, 0) {
            Some(k) => entries_of(*final(map)) == entries_of(*old(map)).update(k, (key@, value))
                && r == Some(entries_of(*old(map))[k].1),
            None => entries_of(*final(map)) == entries_of(*old(map)).push((key@, value))
                && r is None,
        },
{
    map.insert(key, value)
}

/// `indexmap::IndexMap::into_values`: the values in the order of their keys.
#[verifier::external_body]
fn map_values(map: indexmap::IndexMap<String, usize>) -> (r: Vec<usize>)
    ensures
        r.len() == entries_of(map).len(),
        forall|i: int| 0 <= i < r.len() ==> r[i] == (#[trigger] entries_of(map)[i]).1,
{
    map.into_values().collect()
}

/// The first place of the element with an id.
pub open spec fn place_of_id<D>(found: Seq<WebElement<D>>, id: Seq<char>, i: nat) -> Option<int>
    decreases found.len() - i,
{
    if i >= found.len() {
        None
    } else if found[i as int].element_id@ == id {
        Some(i as int)
    } else {
        place_of_id(found, id, i + 1)
    }
}

/// The elements with one more: it takes the place of the element with the same id, and else comes
/// last.
pub open spec fn with_element<'a, D>(found: Seq<WebElement<'a, D>>, e: WebElement<'a, D>) -> Seq<
    WebElement<'a, D>,
> {
    match place_of_id(found, e.element_id@, 0) {
        Some(k) => found.update(k, e),
        None => found.push(e),
    }
}

/// The elements with more of them, up to `n`.
pub open spec fn with_elements<'a, D>(
    found: Seq<WebElement<'a, D>>,
    more: Seq<WebElement<'a, D>>,
    n: nat,
) -> Seq<WebElement<'a, D>>
    decreases n,
{
    if n == 0 {
        found
    } else {
        with_element(with_elements(found, more, (n - 1) as nat), more[n - 1])
    }
}

/// Whether no two elements have the same id.
pub open spec fn different<D>(found: Seq<WebElement<D>>) -> bool {
    forall|i: int, j: int|
        0 <= i < j < found.len() ==> (#[trigger] found[i]).element_id@ != (
        #[trigger] found[j]).element_id@
}

/// A place is that of the id, and where there is none, no element has the id.
proof fn lemma_place_of_id<D>(found: Seq<WebElement<D>>, id: Seq<char>, i: nat)
    ensures
        match place_of_id(found, id, i) {
            Some(k) => i <= k < found.len() && found[k].element_id@ == id,
            None => forall|j: int| i <= j < found.len() ==> (#[trigger] found[j]).element_id@ != id,
        },
    decreases found.len() - i,
{
    if i < found.len() && found[i as int].element_id@ != id {
        lemma_place_of_id(found, id, i + 1);
    }
}

/// One more element leaves no two with the same id, if there were none, and it is among them.
pub proof fn lemma_with_element<'a, D>(found: Seq<WebElement<'a, D>>, e: WebElement<'a, D>)
    requires
        different(found),
    ensures
        different(with_element(found, e)),
        with_element(found, e).contains(e),
        found.len() <= with_element(found, e).len(),
        forall|j: int|
            0 <= j < found.len() ==> (#[trigger] with_element(found, e)[j]).element_id@
                == found[j].element_id@,
{
    lemma_place_of_id(found, e.element_id@, 0);
    match place_of_id(found, e.element_id@, 0) {
        Some(k) => {
            assert(with_element(found, e)[k] == e);
        },
        None => {
            assert(with_element(found, e)[found.len() as int] == e);
        },
    }
}

/// However many elements come, no two of those that were found have the same id.
pub proof fn lemma_with_elements<'a, D>(
    found: Seq<WebElement<'a, D>>,
    more: Seq<WebElement<'a, D>>,
    n: nat,
)
    requires
        different(found),
        n <= more.len(),
    ensures
        different(with_elements(found, more, n)),
        found.len() <= with_elements(found, more, n).len(),
    decreases n,
{
    if n > 0 {
        lemma_with_elements(found, more, (n - 1) as nat);
        lemma_with_element(with_elements(found, more, (n - 1) as nat), more[n - 1]);
    }
}

/// Elements that were found, each of them once.
pub struct Found<'a, D> {
    ids: indexmap::IndexMap<String, usize>,
    elements: Vec<WebElement<'a, D>>,
}

impl<'a, D> Found<'a, D> {
    /// The elements, in the order in which they were found first.
    pub closed spec fn view(&self) -> Seq<WebElement<'a, D>> {
        Seq::new(
            entries_of(self.ids).len(),
            |i: int| self.elements[entries_of(self.ids)[i].1 as int],
        )
    }

    /// Each id leads to an element that has it, and there is no element without an id.
    pub closed spec fn wf(&self) -> bool {
        &&& entries_of(self.ids).len() == 0 <==> self.elements.len() == 0
        &&& forall|i: int|
            0 <= i < entries_of(self.ids).len() ==> (#[trigger] entries_of(self.ids)[i]).1
                < self.elements.len() && self.elements[entries_of(self.ids)[i].1 as int].element_id@
                == entries_of(self.ids)[i].0
    }

    /// The place of a key is that of the element with the id.
    proof fn lemma_places(&self, id: Seq<char>, i: nat)
        requires
            self.wf(),
        ensures
            place_of(entries_of(self.ids), id, i) == place_of_id(self@, id, i),
            place_of(entries_of(self.ids), id, i) matches Some(k) ==> i <= k < entries_of(
                self.ids,
            ).len(),
        decreases entries_of(self.ids).len() - i,
    {
        if i < entries_of(self.ids).len() {
            assert(self@[i as int].element_id@ == entries_of(self.ids)[i as int].0);
            self.lemma_places(id, i + 1);
        }
    }

    /// No elements.
    pub fn new() -> (r: Self)
        ensures
            r.wf(),
            r@ == Seq::<WebElement<'a, D>>::empty(),
    {
        let r: Self = Found { ids: map_new(), elements: Vec::new() };
        assert(r@ == Seq::<WebElement<'a, D>>::empty());
        r
    }

    /// Whether there are no elements.
    pub fn is_empty(&self) -> (r: bool)
        requires
            self.wf(),
        ensures
            r == (self@.len() == 0),
    {
        self.elements.len() == 0
    }

    /// Adds an element, in place of the one with the same id.
    pub fn insert(&mut self, e: WebElement<'a, D>)
        requires
            old(self).wf(),
        ensures
            final(self).wf(),
            final(self)@ == with_element(old(self)@, e),
    {
        let ghost before = *self;
        let value: usize = self.elements.len();
        let key: String = e.element_id.as_str().to_owned();
        proof {
            before.lemma_places(e.element_id@, 0);
        }
        self.elements.push(e);
        let replaced: Option<usize> = map_insert(&mut self.ids, key, value);
        proof {
            let entries = entries_of(before.ids);
            assert forall|i: int| 0 <= i < entries.len() implies before.elements[(
            #[trigger] entries[i]).1 as int] == self.elements[entries[i].1 as int] by {}
            assert(self@ == with_element(before@, e));
        }
    }

    /// Adds elements one after the other.
    pub fn insert_all(&mut self, more: Vec<WebElement<'a, D>>)
        requires
            old(self).wf(),
        ensures
            final(self).wf(),
            final(self)@ == with_elements(old(self)@, more@, more@.len()),
    {
        let mut i: usize = 0;
        while i < more.len()
            invariant
                i <= more.len(),
                self.wf(),
                self@ == with_elements(old(self)@, more@, i as nat),
            decreases more.len() - i,
        {
            self.insert(more[i].clone());
            i = i + 1;
        }
    }

    /// The elements.
    pub fn into_elements(self) -> (r: Vec<WebElement<'a, D>>)
        requires
            self.wf(),
        ensures
            r@ == self@,
    {
        let ghost all = self@;
        let ghost entries = entries_of(self.ids);
        let elements: Vec<WebElement<'a, D>> = self.elements;
        let places: Vec<usize> = map_values(self.ids);
        let mut r: Vec<WebElement<'a, D>> = Vec::new();
        let mut i: usize = 0;
        while i < places.len()
            invariant
                i <= places.len(),
                r@ == all.take(i as int),
                all.len() == places.len(),
                entries.len() == places.len(),
                forall|j: int| 0 <= j < places.len() ==> places@[j] == (#[trigger] entries[j]).1,
                forall|j: int|
                    0 <= j < places.len() ==> (#[trigger] entries[j]).1 < elements.len() && all[j]
                        == elements@[entries[j].1 as int],
            decreases places.len() - i,
        {
            proof {
                let x = entries[i as int];
                assert(all.take(i + 1) == all.take(i as int).push(all[i as int]));
            }
            r.push(elements[places[i]].clone());
            i = i + 1;
        }
        assert(all.take(i as int) == all);
        r
    }
}

} // verus!
