//! A fixed population and the positional identifiers that address it.

use vstd::prelude::*;

verus! {

/// Data pertaining to a single individual; names are not necessarily unique.
pub struct Person {
    pub name: String,
}

/// An opaque handle for one member of one `PersonList`, equal to the
/// member's position in that list. A 64-bit value is used so that an ID does
/// not depend on the host's pointer width.
///
/// An ID produced by one list must not be used against another.
#[derive(Clone, Copy, Debug, PartialEq, Eq, Structural)]
pub struct PersonId(pub u64);

impl PersonId {
    /// Should only be used when `n` is a valid index into a `PersonList`,
    /// or the result might be an invalid ID.
    pub fn from_usize(n: usize) -> (id: Self)
        ensures
            id.0 == n,
    {
        PersonId(n as u64)
    }
}

/// A population, with unique individuals discriminated by an ID
/// (equivalent to the index of the person in the list).
///
/// The list never reorders or removes members once built, so IDs stay valid.
pub struct PersonList(Vec<Person>);

impl View for PersonList {
    type V = Seq<Person>;

    closed spec fn view(&self) -> Seq<Person> {
        self.0@
    }
}

impl PersonList {
    pub fn from_vec(people: Vec<Person>) -> (list: Self)
        ensures
            list@ == people@,
    {
        PersonList(people)
    }

    pub fn len(&self) -> (n: u64)
        ensures
            n == self@.len(),
    {
        self.0.len() as u64
    }

    /// The person an ID stands for.
    pub fn get(&self, id: PersonId) -> (p: &Person)
        requires
            id.0 < self@.len(),
        ensures
            *p == self@[id.0 as int],
    {
        let n: usize = self.0.len();
        assert(id.0 < n);
        &self.0[id.0 as usize]
    }

    /// The ID of a uniformly random person in the list.
    pub fn rand_choice(&self) -> (id: PersonId)
        requires
            self@.len() > 0,
        ensures
            id.0 < self@.len(),
    {
        let picks = crate::sampling::sample_indices(self.0.len(), 1);
        PersonId::from_usize(picks[0])
    }

    /// `n` unique IDs of people in the list, drawn uniformly without
    /// replacement. Fails, changing nothing, iff `n` exceeds the number of
    /// people in the list.
    pub fn rand_choices(&self, n: u64) -> (r: Result<Vec<PersonId>, ()>)
        ensures
            r is Ok <==> n <= self@.len(),
            r matches Ok(v) ==> {
                &&& v@.len() == n
                &&& v@.no_duplicates()
                &&& forall|i: int| 0 <= i < v@.len() ==> v@[i].0 < self@.len()
            },
    {
        let len: usize = self.0.len();
        if n <= len as u64 {
            let picks = crate::sampling::sample_indices(len, n as usize);
            let mut out: Vec<PersonId> = Vec::new();
            let mut i: usize = 0;
            while i < picks.len()
                invariant
                    i <= picks@.len(),
                    out@.len() == i,
                    picks@.len() == n,
                    picks@.no_duplicates(),
                    forall|j: int| 0 <= j < picks@.len() ==> picks@[j] < len,
                    forall|j: int| 0 <= j < i ==> out@[j].0 == picks@[j],
                decreases picks@.len() - i,
            {
                out.push(PersonId::from_usize(picks[i]));
                i = i + 1;
            }
            proof {
                assert forall|j: int, k: int|
                    0 <= j < out@.len() && 0 <= k < out@.len() && j != k implies out@[j]
                    != out@[k] by {
                    assert(picks@[j] != picks@[k]);
                };
                assert forall|j: int| 0 <= j < out@.len() implies out@[j].0 < self@.len() by {
                    assert(out@[j].0 == picks@[j]);
                    assert(picks@[j] < len);
                };
            }
            Ok(out)
        } else {
            Err(())
        }
    }

    /// The full ordered set of IDs: one for each member, in list order.
    pub fn ids(&self) -> (r: Vec<PersonId>)
        ensures
            r@.len() == self@.len(),
            forall|i: int| 0 <= i < r@.len() ==> r@[i].0 == i,
    {
        let mut r: Vec<PersonId> = Vec::new();
        let mut i: usize = 0;
        while i < self.0.len()
            invariant
                i <= self@.len(),
                r@.len() == i,
                forall|j: int| 0 <= j < i ==> r@[j].0 == j,
            decreases self@.len() - i,
        {
            r.push(PersonId::from_usize(i));
            i = i + 1;
        }
        r
    }
}

/// Whether `id` occurs in `ids`.
pub(crate) fn contains_id(ids: &Vec<PersonId>, id: PersonId) -> (r: bool)
    ensures
        r == ids@.contains(id),
{
    let mut i: usize = 0;
    while i < ids.len()
        invariant
            i <= ids@.len(),
            forall|j: int| 0 <= j < i ==> ids@[j] != id,
        decreases ids@.len() - i,
    {
        if ids[i] == id {
            assert(ids@[i as int] == id);
            return true;
        }
        i = i + 1;
    }
    false
}

} // verus!
