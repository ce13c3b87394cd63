//! Entities are held in flat collections and refer to one another by
//! identifier. A reference is resolved by a search for the first entity of the
//! category that carries the identifier.

use vstd::prelude::*;

verus! {

/// An entity with an identifier.
pub trait Keyed {
    /// The identifier.
    spec fn ident(&self) -> String;

    fn id(&self) -> (r: &String)
        ensures
            *r == self.ident(),
    ;
}

/// The first position at or after `start` whose entity carries `id`.
pub open spec fn find_from<T: Keyed>(items: Seq<T>, id: Seq<char>, start: int) -> Option<int>
    decreases items.len() - start,
{
    if start < 0 || start >= items.len() {
        None
    } else if items[start].ident()@ == id {
        Some(start)
    } else {
        find_from(items, id, start + 1)
    }
}

/// The position of the first entity that carries `id`.
pub open spec fn position<T: Keyed>(items: Seq<T>, id: Seq<char>) -> Option<int> {
    find_from(items, id, 0)
}

/// Whether some entity carries `id`.
pub open spec fn known<T: Keyed>(items: Seq<T>, id: Seq<char>) -> bool {
    position(items, id) is Some
}

/// What `find_from` finds is in range, carries the identifier, and is the
/// first to do so; it finds nothing only where no entity carries it.
pub proof fn lemma_find_from<T: Keyed>(items: Seq<T>, id: Seq<char>, start: int)
    requires
        0 <= start,
    ensures
        match find_from(items, id, start) {
            Some(i) => {
                &&& start <= i < items.len()
                &&& items[i].ident()@ == id
                &&& forall|j: int| start <= j < i ==> items[j].ident()@ != id
            },
            None => forall|j: int| start <= j < items.len() ==> items[j].ident()@ != id,
        },
    decreases items.len() - start,
{
    if start < items.len() && items[start].ident()@ != id {
        lemma_find_from(items, id, start + 1);
    }
}

/// `position` in terms of the identifiers alone.
pub proof fn lemma_position<T: Keyed>(items: Seq<T>, id: Seq<char>)
    ensures
        match position(items, id) {
            Some(i) => {
                &&& 0 <= i < items.len()
                &&& items[i].ident()@ == id
                &&& forall|j: int| 0 <= j < i ==> items[j].ident()@ != id
            },
            None => forall|j: int| 0 <= j < items.len() ==> items[j].ident()@ != id,
        },
{
    lemma_find_from(items, id, 0);
}

/// Searches `items` for the first entity that carries `id`.
pub fn find<T: Keyed>(items: &Vec<T>, id: &String) -> (r: Option<usize>)
    ensures
        match r {
            Some(i) => position(items@, id@) == Some(i as int) && i < items.len(),
            None => position(items@, id@) is None,
        },
{
    let mut i: usize = 0;
    while i < items.len()
        invariant
            i <= items.len(),
            find_from(items@, id@, 0) == find_from(items@, id@, i as int),
        decreases items.len() - i,
    {
        if *items[i].id() == *id {
            return Some(i);
        }
        i = i + 1;
    }
    None
}

} // verus!
