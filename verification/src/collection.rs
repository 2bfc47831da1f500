use vstd::prelude::*;
use vstd::hash_map::StringHashMap;

use crate::error::Error;

verus! {

/// Whether two strings hold the same characters.
pub fn same_text(a: &str, b: &str) -> (r: bool)
    ensures
        r == (a@ == b@),
{
    let a_owned: String = a.to_owned();
    let b_owned: String = b.to_owned();
    a_owned == b_owned
}

/// An object that is known by a textual identifier.
pub trait Id {
    /// The identifier, as text.
    spec fn spec_id(&self) -> Seq<char>;

    fn id(&self) -> (r: &str)
        ensures
            r@ == self.spec_id(),
    ;
}

/// The identifiers of a sequence of objects, in order.
pub open spec fn ids_of<T: Id>(s: Seq<T>) -> Seq<Seq<char>> {
    s.map_values(|x: T| x.spec_id())
}

/// No two objects of `s` share an identifier.
pub open spec fn ids_distinct<T: Id>(s: Seq<T>) -> bool {
    forall|i: int, j: int|
        0 <= i < j < s.len() ==> #[trigger] s[i].spec_id() != #[trigger] s[j].spec_id()
}

/// `j` is the first position of `s` whose identifier already occurs before it.
pub open spec fn is_first_repeat<T: Id>(s: Seq<T>, j: int) -> bool {
    &&& 0 <= j < s.len()
    &&& exists|i: int| 0 <= i < j && #[trigger] s[i].spec_id() == s[j].spec_id()
    &&& ids_distinct(s.take(j))
}

/// `i` is the first position of `s` that holds an object with identifier `id`.
pub open spec fn is_first_with_id<T: Id>(s: Seq<T>, id: Seq<char>, i: int) -> bool {
    &&& 0 <= i < s.len()
    &&& s[i].spec_id() == id
    &&& forall|j: int| 0 <= j < i ==> #[trigger] s[j].spec_id() != id
}

/// The first position of `s` holding an object with identifier `id`, if any.
pub open spec fn position_of_id<T: Id>(s: Seq<T>, id: Seq<char>) -> Option<int> {
    if exists|i: int| is_first_with_id(s, id, i) {
        Some(choose|i: int| is_first_with_id(s, id, i))
    } else {
        None
    }
}

/// The object of `s` with identifier `id`, if any (the first one when several share it).
pub open spec fn find_by_id<T: Id>(s: Seq<T>, id: Seq<char>) -> Option<T> {
    match position_of_id(s, id) {
        Some(i) => Some(s[i]),
        None => None,
    }
}

/// Two positions that are both first with a given identifier are the same one.
pub proof fn lemma_first_with_id_unique<T: Id>(s: Seq<T>, id: Seq<char>, i: int, k: int)
    requires
        is_first_with_id(s, id, i),
        is_first_with_id(s, id, k),
    ensures
        i == k,
{
    if i < k {
        assert(s[i].spec_id() != id);
    } else if k < i {
        assert(s[k].spec_id() != id);
    }
}

/// When `i` is the first position with identifier `id`, that is what `position_of_id` gives.
pub proof fn lemma_position_of_id<T: Id>(s: Seq<T>, id: Seq<char>, i: int)
    requires
        is_first_with_id(s, id, i),
    ensures
        position_of_id(s, id) == Some(i),
{
    let k = choose|k: int| is_first_with_id(s, id, k);
    lemma_first_with_id_unique(s, id, i, k);
}

/// In a sequence whose identifiers are distinct, an object with identifier `id` is the one
/// `find_by_id` gives.
pub proof fn lemma_find_by_id_distinct<T: Id>(s: Seq<T>, id: Seq<char>, i: int)
    requires
        ids_distinct(s),
        0 <= i < s.len(),
        s[i].spec_id() == id,
    ensures
        position_of_id(s, id) == Some(i),
        find_by_id(s, id) == Some(s[i]),
{
    assert forall|j: int| 0 <= j < i implies #[trigger] s[j].spec_id() != id by {
        assert(s[j].spec_id() != s[i].spec_id());
    }
    lemma_position_of_id(s, id, i);
}

/// Looking an identifier up finds nothing exactly when no object carries it; what it finds is
/// an object of the sequence with that identifier, with no earlier object carrying it.
pub proof fn law_find_by_id<T: Id>(s: Seq<T>, id: Seq<char>)
    ensures
        find_by_id(s, id) is None <==> forall|i: int| 0 <= i < s.len() ==> #[trigger] s[i].spec_id()
            != id,
        find_by_id(s, id) is Some ==> exists|i: int|
            0 <= i < s.len() && s[i] == find_by_id(s, id).unwrap() && #[trigger] s[i].spec_id() == id
                && (forall|j: int| 0 <= j < i ==> #[trigger] s[j].spec_id() != id),
{
    if exists|i: int| 0 <= i < s.len() && #[trigger] s[i].spec_id() == id {
        let k = lemma_first_with_id_exists(s, id, s.len() as int);
        lemma_position_of_id(s, id, k);
    } else {
        if exists|i: int| is_first_with_id(s, id, i) {
            let k = choose|i: int| is_first_with_id(s, id, i);
            assert(s[k].spec_id() == id);
        }
    }
}

/// Where some object of `s` before position `n` carries `id`, there is a first one.
proof fn lemma_first_with_id_exists<T: Id>(s: Seq<T>, id: Seq<char>, n: int) -> (k: int)
    requires
        0 <= n <= s.len(),
        exists|i: int| 0 <= i < n && #[trigger] s[i].spec_id() == id,
    ensures
        is_first_with_id(s, id, k),
    decreases n,
{
    if exists|i: int| 0 <= i < n - 1 && #[trigger] s[i].spec_id() == id {
        lemma_first_with_id_exists(s, id, n - 1)
    } else {
        assert(s[n - 1].spec_id() == id);
        n - 1
    }
}

/// The position of an object inside a collection.
#[derive(Clone, Copy, Debug, PartialEq, Eq, Structural)]
pub struct Idx(usize);

impl View for Idx {
    type V = nat;

    closed spec fn view(&self) -> nat {
        self.0 as nat
    }
}

impl Idx {
    /// The position, as a number.
    pub fn get(&self) -> (r: usize)
        ensures
            r == self@,
    {
        self.0
    }
}

/// A sequence of objects, kept in the order they were given.
#[derive(Debug)]
pub struct Collection<T> {
    objects: Vec<T>,
}

impl<T> View for Collection<T> {
    type V = Seq<T>;

    closed spec fn view(&self) -> Seq<T> {
        self.objects@
    }
}

impl<T> Collection<T> {
    /// A collection holding `v`, in order.
    pub fn new(v: Vec<T>) -> (r: Self)
        ensures
            r@ == v@,
    {
        Collection { objects: v }
    }

    /// The number of objects.
    pub fn len(&self) -> (r: usize)
        ensures
            r == self@.len(),
    {
        self.objects.len()
    }

    /// The objects, in order.
    pub fn values(&self) -> (r: &[T])
        ensures
            r@ == self@,
    {
        self.objects.as_slice()
    }

    /// Removes every object and hands them out, in order.
    pub fn take(&mut self) -> (r: Vec<T>)
        ensures
            r@ == old(self)@,
            final(self)@ == Seq::<T>::empty(),
    {
        let mut v: Vec<T> = Vec::new();
        std::mem::swap(&mut v, &mut self.objects);
        v
    }
}

impl<T> Default for Collection<T> {
    /// A collection with no object.
    fn default() -> (r: Self)
        ensures
            r@ == Seq::<T>::empty(),
    {
        Collection { objects: Vec::new() }
    }
}

/// A sequence of objects with pairwise distinct identifiers, kept in the order they were
/// given, with an index from identifier to position.
pub struct CollectionWithId<T: Id> {
    objects: Vec<T>,
    id_to_idx: StringHashMap<usize>,
}

impl<T: Id> View for CollectionWithId<T> {
    type V = Seq<T>;

    closed spec fn view(&self) -> Seq<T> {
        self.objects@
    }
}

impl<T: Id> Default for CollectionWithId<T> {
    /// A collection with no object.
    fn default() -> (r: Self)
        ensures
            r@ == Seq::<T>::empty(),
    {
        CollectionWithId { objects: Vec::new(), id_to_idx: StringHashMap::new() }
    }
}

/// `m` maps the identifier of each object of `s` to its position, and nothing else.
pub open spec fn indexes<T: Id>(m: Map<Seq<char>, usize>, s: Seq<T>) -> bool {
    &&& forall|i: int|
        0 <= i < s.len() ==> #[trigger] m.contains_key(s[i].spec_id()) && m[s[i].spec_id()] == i
    &&& forall|k: Seq<char>|
        #[trigger] m.contains_key(k) ==> m[k] < s.len() && s[m[k] as int].spec_id() == k
}

impl<T: Id> CollectionWithId<T> {
    #[verifier::type_invariant]
    spec fn well_formed(self) -> bool {
        indexes(self.id_to_idx@, self.objects@)
    }

    /// Builds the collection of `v`. It is refused, with the identifier, when an object carries
    /// an identifier that an earlier object of `v` carries already.
    pub fn new(v: Vec<T>) -> (r: Result<Self, Error>)
        ensures
            r is Ok <==> ids_distinct(v@),
            r matches Ok(c) ==> c@ == v@,
            r is Err ==> r matches Err(Error::IdentifierAlreadyExists(_)),
            r matches Err(Error::IdentifierAlreadyExists(id)) ==> exists|j: int|
                is_first_repeat(v@, j) && #[trigger] v@[j].spec_id() == id@,
            r matches Err(Error::IdentifierAlreadyExists(id)) ==> exists|i: int, j: int|
                0 <= i < j < v@.len() && #[trigger] v@[i].spec_id() == id@ && #[trigger] v@[j].spec_id()
                    == id@ && (forall|a: int, b: int|
                    0 <= a < b < j ==> #[trigger] v@[a].spec_id() != #[trigger] v@[b].spec_id()),
    {
        let mut id_to_idx: StringHashMap<usize> = StringHashMap::new();
        let n = v.len();
        let mut j: usize = 0;
        while j < n
            invariant
                n == v@.len(),
                j <= n,
                indexes(id_to_idx@, v@.take(j as int)),
                ids_distinct(v@.take(j as int)),
            decreases n - j,
        {
            let id = v[j].id();
            if id_to_idx.contains_key(id) {
                proof {
                    let i = id_to_idx@[id@] as int;
                    assert(v@.take(j as int)[i] == v@[i]);
                    assert(is_first_repeat(v@, j as int));
                    assert(!ids_distinct(v@)) by {
                        assert(v@[i].spec_id() == v@[j as int].spec_id());
                    }
                    assert forall|a: int, b: int| 0 <= a < b < j implies #[trigger] v@[a].spec_id()
                        != #[trigger] v@[b].spec_id() by {
                        assert(v@.take(j as int)[a] == v@[a]);
                        assert(v@.take(j as int)[b] == v@[b]);
                    }
                    assert(v@[i].spec_id() == id@ && v@[j as int].spec_id() == id@);
                }
                return Err(Error::IdentifierAlreadyExists(id.to_owned()));
            }
            let ghost before = id_to_idx@;
            id_to_idx.insert(id.to_owned(), j);
            proof {
                let t = v@.take(j as int + 1);
                assert forall|i: int| 0 <= i < t.len() implies
                    #[trigger] id_to_idx@.contains_key(t[i].spec_id())
                    && id_to_idx@[t[i].spec_id()] == i by {
                    if i < j {
                        assert(t[i] == v@.take(j as int)[i]);
                    }
                }
                assert forall|k: Seq<char>| #[trigger] id_to_idx@.contains_key(k) implies
                    id_to_idx@[k] < t.len() && t[id_to_idx@[k] as int].spec_id() == k by {
                    if k != v@[j as int].spec_id() {
                        assert(v@.take(j as int)[before[k] as int] == t[before[k] as int]);
                    }
                }
                assert forall|a: int, b: int| 0 <= a < b < t.len() implies
                    #[trigger] t[a].spec_id() != #[trigger] t[b].spec_id() by {
                    if b < j {
                        assert(t[a] == v@.take(j as int)[a]);
                        assert(t[b] == v@.take(j as int)[b]);
                    } else {
                        assert(t[a] == v@.take(j as int)[a]);
                    }
                }
            }
            j = j + 1;
        }
        assert(v@.take(n as int) == v@);
        Ok(CollectionWithId { objects: v, id_to_idx })
    }

    /// No two objects of the collection share an identifier.
    pub fn ids_are_distinct(&self)
        ensures
            ids_distinct(self@),
    {
        proof {
            use_type_invariant(self);
            assert forall|a: int, b: int| 0 <= a < b < self@.len() implies
                #[trigger] self@[a].spec_id() != #[trigger] self@[b].spec_id() by {
                assert(self.id_to_idx@.contains_key(self@[a].spec_id()));
                assert(self.id_to_idx@.contains_key(self@[b].spec_id()));
            }
        }
    }

    /// The number of objects.
    pub fn len(&self) -> (r: usize)
        ensures
            r == self@.len(),
    {
        self.objects.len()
    }

    /// The objects, in order.
    pub fn values(&self) -> (r: &[T])
        ensures
            r@ == self@,
    {
        self.objects.as_slice()
    }

    /// The position of the object with identifier `id`, if there is one.
    pub fn get_idx(&self, id: &str) -> (r: Option<Idx>)
        ensures
            match position_of_id(self@, id@) {
                Some(i) => r matches Some(x) && x@ == i,
                None => r is None,
            },
    {
        proof {
            use_type_invariant(self);
        }
        match self.id_to_idx.get(id) {
            Some(i) => {
                self.ids_are_distinct();
                proof {
                    lemma_find_by_id_distinct(self@, id@, *i as int);
                }
                Some(Idx(*i))
            },
            None => {
                proof {
                    if exists|i: int| is_first_with_id(self@, id@, i) {
                        let i = choose|i: int| is_first_with_id(self@, id@, i);
                        assert(self.id_to_idx@.contains_key(self@[i].spec_id()));
                    }
                }
                None
            },
        }
    }

    /// The object with identifier `id`, if there is one.
    pub fn get(&self, id: &str) -> (r: Option<&T>)
        ensures
            match find_by_id(self@, id@) {
                Some(x) => r == Some(&x),
                None => r is None,
            },
            r is None <==> forall|i: int| 0 <= i < self@.len() ==> #[trigger] self@[i].spec_id() != id@,
            r matches Some(x) ==> x.spec_id() == id@ && exists|i: int|
                0 <= i < self@.len() && #[trigger] self@[i] == *x,
    {
        proof {
            law_find_by_id(self@, id@);
        }
        match self.get_idx(id) {
            Some(idx) => Some(self.at(idx)),
            None => None,
        }
    }

    /// The object at position `idx`.
    pub fn at(&self, idx: Idx) -> (r: &T)
        requires
            idx@ < self@.len(),
        ensures
            *r == self@[idx@ as int],
    {
        &self.objects[idx.0]
    }

    /// Removes every object and hands them out, in order.
    pub fn take(&mut self) -> (r: Vec<T>)
        ensures
            r@ == old(self)@,
            final(self)@ == Seq::<T>::empty(),
    {
        let mut other = Self::default();
        std::mem::swap(&mut other, self);
        other.objects
    }
}

} // verus!
