//! Requests that were sent to a helper and not answered yet. Each carries
//! an identifier; an answer is accepted once, by the identifier it echoes.

use crate::chars::{clone_names, contains_name, views};
use vstd::prelude::*;

verus! {

/// `i` is the first place where `id` stands in `pending`.
pub open spec fn is_first_position(pending: Seq<Seq<char>>, id: Seq<char>, i: int) -> bool {
    &&& 0 <= i < pending.len()
    &&& pending[i] == id
    &&& forall|j: int| 0 <= j < i ==> pending[j] != id
}

/// `pending` without the first entry that equals `id`; `pending` itself if
/// there is none.
pub open spec fn without_first(pending: Seq<Seq<char>>, id: Seq<char>) -> Seq<Seq<char>> {
    if pending.contains(id) {
        pending.remove(choose|i: int| is_first_position(pending, id, i))
    } else {
        pending
    }
}

/// How often `id` stands in `pending`.
pub open spec fn occurrences(pending: Seq<Seq<char>>, id: Seq<char>) -> nat
    decreases pending.len(),
{
    if pending.len() == 0 {
        0
    } else {
        occurrences(pending.drop_last(), id) + if pending.last() == id {
            1nat
        } else {
            0nat
        }
    }
}

/// The first position of an entry is unique.
pub proof fn lemma_first_position_unique(pending: Seq<Seq<char>>, id: Seq<char>, i: int, j: int)
    requires
        is_first_position(pending, id, i),
        is_first_position(pending, id, j),
    ensures
        i == j,
{
}

/// An entry that occurs has a first position, at `k` or before it.
pub proof fn lemma_first_position_exists(pending: Seq<Seq<char>>, id: Seq<char>, k: int) -> (i:
    int)
    requires
        0 <= k < pending.len(),
        pending[k] == id,
    ensures
        is_first_position(pending, id, i),
        i <= k,
    decreases k,
{
    if exists|j: int| 0 <= j < k && pending[j] == id {
        let j = choose|j: int| 0 <= j < k && pending[j] == id;
        lemma_first_position_exists(pending, id, j)
    } else {
        k
    }
}

/// Removing an entry at its first position is what `without_first` does.
pub proof fn lemma_without_first_at(pending: Seq<Seq<char>>, id: Seq<char>, i: int)
    requires
        is_first_position(pending, id, i),
    ensures
        pending.contains(id),
        without_first(pending, id) == pending.remove(i),
{
    let k = choose|k: int| is_first_position(pending, id, k);
    lemma_first_position_unique(pending, id, i, k);
}

/// `c` is a digit of a number in base 16, written in lower case.
pub open spec fn is_lower_hex(c: char) -> bool {
    ('0' <= c && c <= '9') || ('a' <= c && c <= 'f')
}

/// `id` has the form of a random UUID in its hyphenated form: 36
/// characters, hyphens after the 8th, 12th, 16th and 20th digit, lower-case
/// digits of base 16 everywhere else, the digit `4` for the version at the
/// head of the third group, and `8`, `9`, `a` or `b` for the variant at the
/// head of the fourth.
pub open spec fn is_request_id(id: Seq<char>) -> bool {
    &&& id.len() == 36
    &&& forall|i: int|
        0 <= i < 36 ==> if i == 8 || i == 13 || i == 18 || i == 23 {
            #[trigger] id[i] == '-'
        } else {
            is_lower_hex(id[i])
        }
    &&& id[14] == '4'
    &&& (id[19] == '8' || id[19] == '9' || id[19] == 'a' || id[19] == 'b')
}

/// `Uuid::new_v4` of the crate `uuid`, written out by `to_string`. The
/// crate draws 128 random bits, sets the four bits of the version to 4 and
/// the two bits of the variant to `10`, and writes the result as 32
/// lower-case digits of base 16 in groups of 8, 4, 4, 4 and 12 with hyphens
/// between them. The contract claims this form and nothing of which
/// identifier comes back, nor that two calls differ. The call panics if the
/// operating system cannot supply random bytes.
#[verifier::external_body]
pub(crate) fn fresh_request_id() -> (id: String)
    ensures
        is_request_id(id@),
{
    uuid::Uuid::new_v4().to_string()
}

/// The identifiers of the requests that wait for an answer, oldest first.
#[derive(Debug)]
pub struct AsyncRequestTable {
    pending: Vec<String>,
}

impl View for AsyncRequestTable {
    type V = Seq<Seq<char>>;

    closed spec fn view(&self) -> Seq<Seq<char>> {
        views(self.pending@)
    }
}

impl AsyncRequestTable {
    /// A table with no request in it.
    pub fn new() -> (table: AsyncRequestTable)
        ensures
            table@ == Seq::<Seq<char>>::empty(),
    {
        let table = AsyncRequestTable { pending: Vec::new() };
        assert(table@ =~= Seq::<Seq<char>>::empty());
        table
    }

    /// The number of requests that wait for an answer.
    pub fn len(&self) -> (len: usize)
        ensures
            len == self@.len(),
    {
        self.pending.len()
    }

    /// Whether a request with the identifier `id` waits for an answer.
    pub fn is_pending(&self, id: &String) -> (found: bool)
        ensures
            found == self@.contains(id@),
    {
        contains_name(&self.pending, id)
    }

    /// The identifiers that wait for an answer, oldest first.
    pub fn pending(&self) -> (ids: Vec<String>)
        ensures
            views(ids@) == self@,
    {
        clone_names(&self.pending)
    }

    /// Records a request with the identifier `id` as sent.
    pub fn issue(&mut self, id: String)
        ensures
            final(self)@ == old(self)@.push(id@),
    {
        self.pending.push(id);
        assert(self@ =~= old(self)@.push(id@));
    }

    /// Draws a fresh identifier and records a request with it as sent.
    /// Returns the identifier.
    pub fn issue_fresh(&mut self) -> (id: String)
        ensures
            is_request_id(id@),
            final(self)@ == old(self)@.push(id@),
    {
        let id = fresh_request_id();
        self.issue(id.clone());
        id
    }

    /// Takes an answer that echoes the identifier `id`. If a request with
    /// that identifier waits, the oldest such request is removed and the
    /// answer is accepted; if none does, nothing changes and the answer is
    /// to be dropped.
    pub fn resolve(&mut self, id: &String) -> (accepted: bool)
        ensures
            accepted == old(self)@.contains(id@),
            final(self)@ == without_first(old(self)@, id@),
    {
        let mut i: usize = 0;
        while i < self.pending.len()
            invariant
                i <= self.pending@.len(),
                self.pending == old(self).pending,
                forall|j: int| 0 <= j < i ==> views(self.pending@)[j] != id@,
            decreases self.pending@.len() - i,
        {
            if self.pending[i] == *id {
                proof {
                    assert(views(self.pending@)[i as int] == id@);
                    lemma_without_first_at(old(self)@, id@, i as int);
                }
                self.pending.remove(i);
                assert(self@ =~= old(self)@.remove(i as int));
                return true;
            }
            i += 1;
        }
        false
    }
}

impl Default for AsyncRequestTable {
    fn default() -> (table: AsyncRequestTable)
        ensures
            table@ == Seq::<Seq<char>>::empty(),
    {
        AsyncRequestTable::new()
    }
}

/// Two requests are sent with different identifiers, and then an answer
/// comes for the second. The answer is accepted, the second request is no
/// longer recorded, and the first one still waits: what is left is the
/// table as it was before the second request, the first one in it.
pub proof fn lemma_answer_resolves_only_its_request(
    pending: Seq<Seq<char>>,
    a: Seq<char>,
    b: Seq<char>,
)
    requires
        a != b,
        !pending.contains(b),
    ensures
        pending.push(a).push(b).contains(b),
        without_first(pending.push(a).push(b), b) == pending.push(a),
        without_first(pending.push(a).push(b), b).contains(a),
{
    let both = pending.push(a).push(b);
    let last = both.len() - 1;
    assert(both[last] == b);
    assert forall|j: int| 0 <= j < last implies both[j] != b by {
        if j < pending.len() {
            assert(pending[j] == both[j]);
        }
    }
    assert(is_first_position(both, b, last));
    lemma_without_first_at(both, b, last);
    assert(both.remove(last) =~= pending.push(a));
    assert(pending.push(a)[pending.len() as int] == a);
}

/// An answer changes nothing of the requests that carry another
/// identifier: each of them is recorded as often as before, whatever else
/// the table holds. The answered identifier is recorded once less, if it
/// was recorded at all.
pub proof fn lemma_answer_keeps_other_requests(
    pending: Seq<Seq<char>>,
    answered: Seq<char>,
    other: Seq<char>,
)
    requires
        other != answered,
    ensures
        occurrences(without_first(pending, answered), other) == occurrences(pending, other),
        without_first(pending, answered).contains(other) == pending.contains(other),
        pending.contains(answered) ==> occurrences(without_first(pending, answered), answered)
            + 1 == occurrences(pending, answered),
        !pending.contains(answered) ==> without_first(pending, answered) == pending,
{
    if pending.contains(answered) {
        let k = choose|k: int| 0 <= k < pending.len() && pending[k] == answered;
        let i = lemma_first_position_exists(pending, answered, k);
        lemma_without_first_at(pending, answered, i);
        lemma_occurrences_remove(pending, i, other);
        lemma_occurrences_remove(pending, i, answered);
        lemma_occurrences_contains(pending, other);
        lemma_occurrences_contains(pending.remove(i), other);
    }
}

/// An identifier occurs in a table exactly if it is counted at least once.
pub proof fn lemma_occurrences_contains(pending: Seq<Seq<char>>, id: Seq<char>)
    ensures
        pending.contains(id) <==> occurrences(pending, id) > 0,
    decreases pending.len(),
{
    if pending.len() > 0 {
        lemma_occurrences_contains(pending.drop_last(), id);
        if pending.contains(id) {
            let i = choose|i: int| 0 <= i < pending.len() && pending[i] == id;
            if i < pending.len() - 1 {
                assert(pending.drop_last()[i] == id);
            }
        }
        if pending.drop_last().contains(id) {
            let i = choose|i: int|
                0 <= i < pending.drop_last().len() && pending.drop_last()[i] == id;
            assert(pending[i] == id);
        }
    }
}

/// Removing one entry lowers the count of that entry by one and leaves the
/// count of every other identifier.
pub proof fn lemma_occurrences_remove(pending: Seq<Seq<char>>, i: int, id: Seq<char>)
    requires
        0 <= i < pending.len(),
    ensures
        occurrences(pending.remove(i), id) + (if pending[i] == id {
            1nat
        } else {
            0nat
        }) == occurrences(pending, id),
    decreases pending.len(),
{
    if i == pending.len() - 1 {
        assert(pending.remove(i) =~= pending.drop_last());
    } else {
        lemma_occurrences_remove(pending.drop_last(), i, id);
        assert(pending.remove(i).drop_last() =~= pending.drop_last().remove(i));
        assert(pending.remove(i).last() == pending.last());
    }
}

} // verus!
