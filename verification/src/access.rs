//! Read/write access descriptors over an identifier space, with the conflict
//! test the scheduler uses to decide which systems may safely overlap in time.

use vstd::prelude::*;

verus! {

/// Mathematical content of an [`Access`]: the set of identifiers touched at
/// all (read or written) and the subset that is written.
pub ghost struct AccessView {
    pub reads_and_writes: Set<u64>,
    pub writes: Set<u64>,
}

impl AccessView {
    /// An identifier in the write set is always also counted as touched.
    pub open spec fn wf(self) -> bool {
        self.writes.subset_of(self.reads_and_writes)
    }

    pub open spec fn empty() -> AccessView {
        AccessView { reads_and_writes: Set::empty(), writes: Set::empty() }
    }

    pub open spec fn with_read(self, id: u64) -> AccessView {
        AccessView { reads_and_writes: self.reads_and_writes.insert(id), writes: self.writes }
    }

    pub open spec fn with_write(self, id: u64) -> AccessView {
        AccessView {
            reads_and_writes: self.reads_and_writes.insert(id),
            writes: self.writes.insert(id),
        }
    }

    pub open spec fn union(self, other: AccessView) -> AccessView {
        AccessView {
            reads_and_writes: self.reads_and_writes.union(other.reads_and_writes),
            writes: self.writes.union(other.writes),
        }
    }

    /// Two descriptors are compatible when neither writes anything the other
    /// touches; otherwise they conflict.
    pub open spec fn compatible(self, other: AccessView) -> bool {
        self.writes.disjoint(other.reads_and_writes) && other.writes.disjoint(
            self.reads_and_writes,
        )
    }
}

/// A set of read/write identifier claims. Systems merge one of these per
/// declared parameter; the scheduler tests pairs of merged descriptors for
/// conflict before letting two systems run at the same time.
pub struct Access {
    reads_and_writes: Vec<u64>,
    writes: Vec<u64>,
}

impl View for Access {
    type V = AccessView;

    closed spec fn view(&self) -> AccessView {
        AccessView {
            reads_and_writes: self.reads_and_writes@.to_set(),
            writes: self.writes@.to_set(),
        }
    }
}

/// True when `id` occurs in `v`.
fn vec_contains(v: &Vec<u64>, id: u64) -> (present: bool)
    ensures
        present == v@.contains(id),
{
    let mut i: usize = 0;
    while i < v.len()
        invariant
            i <= v.len(),
            forall|k: int| 0 <= k < i ==> v@[k] != id,
        decreases v.len() - i,
    {
        if v[i] == id {
            return true;
        }
        i += 1;
    }
    false
}

/// True when no element of `a` occurs in `b`.
fn vecs_disjoint(a: &Vec<u64>, b: &Vec<u64>) -> (disjoint: bool)
    ensures
        disjoint == a@.to_set().disjoint(b@.to_set()),
{
    let mut i: usize = 0;
    while i < a.len()
        invariant
            i <= a.len(),
            forall|k: int| 0 <= k < i ==> !b@.contains(#[trigger] a@[k]),
        decreases a.len() - i,
    {
        if vec_contains(b, a[i]) {
            assert(!a@.to_set().disjoint(b@.to_set())) by {
                assert(a@.to_set().contains(a@[i as int]));
            }
            return false;
        }
        i += 1;
    }
    assert forall|id: u64| a@.to_set().contains(id) implies !b@.to_set().contains(id) by {
        let k = choose|k: int| 0 <= k < a@.len() && a@[k] == id;
        assert(!b@.contains(a@[k]));
    }
    true
}

impl Access {
    /// A descriptor with no claims at all.
    pub fn new() -> (access: Access)
        ensures
            access@ == AccessView::empty(),
            access@.wf(),
    {
        let access = Access { reads_and_writes: Vec::new(), writes: Vec::new() };
        proof {
            assert(access@.reads_and_writes =~= Set::<u64>::empty());
            assert(access@.writes =~= Set::<u64>::empty());
        }
        access
    }

    /// Claims read access to `id`.
    pub fn add_read(&mut self, id: u64)
        ensures
            final(self)@ == old(self)@.with_read(id),
            old(self)@.wf() ==> final(self)@.wf(),
    {
        let ghost before = self.reads_and_writes@;
        self.reads_and_writes.push(id);
        proof {
            before.lemma_push_to_set_commute(id);
            assert(self@.reads_and_writes =~= old(self)@.reads_and_writes.insert(id));
            assert(self@ == old(self)@.with_read(id));
        }
    }

    /// Claims write access to `id`; a write always counts as a touch, so the
    /// identifier joins both sets.
    pub fn add_write(&mut self, id: u64)
        ensures
            final(self)@ == old(self)@.with_write(id),
            old(self)@.wf() ==> final(self)@.wf(),
    {
        let ghost before_rw = self.reads_and_writes@;
        let ghost before_w = self.writes@;
        self.reads_and_writes.push(id);
        self.writes.push(id);
        proof {
            before_rw.lemma_push_to_set_commute(id);
            before_w.lemma_push_to_set_commute(id);
            assert(self@.reads_and_writes =~= old(self)@.reads_and_writes.insert(id));
            assert(self@.writes =~= old(self)@.writes.insert(id));
            assert(self@ == old(self)@.with_write(id));
        }
    }

    /// Merges every claim of `other` into `self`.
    pub fn extend(&mut self, other: &Access)
        ensures
            final(self)@ == old(self)@.union(other@),
            old(self)@.wf() && other@.wf() ==> final(self)@.wf(),
    {
        let mut i: usize = 0;
        while i < other.reads_and_writes.len()
            invariant
                i <= other.reads_and_writes.len(),
                self.writes == old(self).writes,
                self.reads_and_writes@.to_set() =~= old(self)@.reads_and_writes.union(
                    other.reads_and_writes@.take(i as int).to_set(),
                ),
            decreases other.reads_and_writes.len() - i,
        {
            let ghost prefix = other.reads_and_writes@.take(i as int);
            let ghost before = self.reads_and_writes@;
            self.reads_and_writes.push(other.reads_and_writes[i]);
            proof {
                let id = other.reads_and_writes@[i as int];
                before.lemma_push_to_set_commute(id);
                assert(other.reads_and_writes@.take(i + 1) =~= prefix.push(id));
                prefix.lemma_push_to_set_commute(id);
                assert(self.reads_and_writes@.to_set() =~= old(self)@.reads_and_writes.union(
                    other.reads_and_writes@.take(i + 1).to_set(),
                ));
            }
            i += 1;
        }
        proof {
            assert(other.reads_and_writes@.take(other.reads_and_writes@.len() as int)
                =~= other.reads_and_writes@);
        }
        let mut j: usize = 0;
        while j < other.writes.len()
            invariant
                j <= other.writes.len(),
                self.reads_and_writes@.to_set() =~= old(self)@.reads_and_writes.union(
                    other@.reads_and_writes,
                ),
                self.writes@.to_set() =~= old(self)@.writes.union(
                    other.writes@.take(j as int).to_set(),
                ),
            decreases other.writes.len() - j,
        {
            let ghost prefix = other.writes@.take(j as int);
            let ghost before = self.writes@;
            self.writes.push(other.writes[j]);
            proof {
                let id = other.writes@[j as int];
                before.lemma_push_to_set_commute(id);
                assert(other.writes@.take(j + 1) =~= prefix.push(id));
                prefix.lemma_push_to_set_commute(id);
                assert(self.writes@.to_set() =~= old(self)@.writes.union(
                    other.writes@.take(j + 1).to_set(),
                ));
            }
            j += 1;
        }
        proof {
            assert(other.writes@.take(other.writes@.len() as int) =~= other.writes@);
            assert(self@.reads_and_writes =~= old(self)@.union(other@).reads_and_writes);
            assert(self@.writes =~= old(self)@.union(other@).writes);
            assert(self@ == old(self)@.union(other@));
        }
    }

    /// True when `id` is touched at all.
    pub fn has_read(&self, id: u64) -> (present: bool)
        ensures
            present == self@.reads_and_writes.contains(id),
    {
        vec_contains(&self.reads_and_writes, id)
    }

    /// True when `id` is written.
    pub fn has_write(&self, id: u64) -> (present: bool)
        ensures
            present == self@.writes.contains(id),
    {
        vec_contains(&self.writes, id)
    }

    /// True when the two descriptors may be active at the same time: neither
    /// writes an identifier the other touches.
    pub fn is_compatible(&self, other: &Access) -> (compatible: bool)
        ensures
            compatible == self@.compatible(other@),
    {
        vecs_disjoint(&self.writes, &other.reads_and_writes) && vecs_disjoint(
            &other.writes,
            &self.reads_and_writes,
        )
    }

    /// The conflict test: intersecting write sets, or a write set meeting the
    /// other side's touched set.
    pub fn conflicts(&self, other: &Access) -> (conflict: bool)
        ensures
            conflict == !self@.compatible(other@),
    {
        !self.is_compatible(other)
    }
}

/// The conflict test is symmetric: no ordering of a pair hides a conflict.
pub proof fn lemma_compatible_symmetric(a: AccessView, b: AccessView)
    ensures
        a.compatible(b) == b.compatible(a),
{
}

/// Descriptors over fully disjoint identifier sets never conflict.
pub proof fn lemma_disjoint_never_conflicts(a: AccessView, b: AccessView)
    requires
        a.reads_and_writes.disjoint(b.reads_and_writes),
        a.wf(),
        b.wf(),
    ensures
        a.compatible(b),
{
    assert forall|id: u64| a.writes.contains(id) implies !b.reads_and_writes.contains(id) by {
        assert(a.reads_and_writes.contains(id));
    }
    assert forall|id: u64| b.writes.contains(id) implies !a.reads_and_writes.contains(id) by {
        assert(b.reads_and_writes.contains(id));
    }
}

/// An identifier written on both sides always conflicts.
pub proof fn lemma_write_write_conflicts(a: AccessView, b: AccessView, id: u64)
    requires
        a.writes.contains(id),
        b.writes.contains(id),
        b.wf(),
    ensures
        !a.compatible(b),
{
    assert(b.reads_and_writes.contains(id));
}

/// An identifier written on one side and touched on the other always
/// conflicts.
pub proof fn lemma_write_read_conflicts(a: AccessView, b: AccessView, id: u64)
    requires
        a.writes.contains(id),
        b.reads_and_writes.contains(id),
    ensures
        !a.compatible(b),
{
}

/// Compatible descriptors write nothing the other touches, so neither can
/// disturb data the other reads: the scheduler may overlap them.
pub proof fn lemma_compatible_writes_disjoint(a: AccessView, b: AccessView, id: u64)
    requires
        a.compatible(b),
        a.writes.contains(id),
    ensures
        !b.reads_and_writes.contains(id),
        !b.writes.contains(id) || !b.wf(),
{
    if b.wf() && b.writes.contains(id) {
        assert(b.reads_and_writes.contains(id));
    }
}

} // verus!
