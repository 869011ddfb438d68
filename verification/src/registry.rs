use vstd::prelude::*;

verus! {

/// The registration guard's answer for one announcement of a document.
#[derive(Clone, Copy, Debug, PartialEq, Eq, Structural)]
pub enum AttachResult {
    Attached,
    AlreadyAttached,
}

/// The document identities already attached to the dispatcher, in order of
/// first sighting. Grows monotonically for the process lifetime: identities
/// are never removed. The caller keeps the registry under one exclusive lock,
/// which makes each check-and-insert atomic with respect to concurrent
/// announcements; the host is assumed never to reuse an identity for a
/// different logical document within one process lifetime.
#[derive(Debug)]
pub struct DocumentRegistry {
    pub ids: Vec<u64>,
}

/// What the guard answers for `doc` when the registry holds `s`.
pub open spec fn attach_decision(s: Seq<u64>, doc: u64) -> AttachResult {
    if s.contains(doc) {
        AttachResult::AlreadyAttached
    } else {
        AttachResult::Attached
    }
}

/// The registry the guard leaves behind.
pub open spec fn attach_next(s: Seq<u64>, doc: u64) -> Seq<u64> {
    if s.contains(doc) {
        s
    } else {
        s.push(doc)
    }
}

impl DocumentRegistry {
    /// No identity is recorded twice.
    pub open spec fn wf(self) -> bool {
        forall|i: int, j: int| 0 <= i < j < self.ids@.len() ==> self.ids@[i] != self.ids@[j]
    }

    /// Whether `doc` has been attached already.
    pub open spec fn contains_spec(self, doc: u64) -> bool {
        self.ids@.contains(doc)
    }

    /// An empty registry: no document has been attached yet.
    pub fn new() -> (r: DocumentRegistry)
        ensures
            r.wf(),
            r.ids@ =~= Seq::<u64>::empty(),
    {
        DocumentRegistry { ids: Vec::new() }
    }

    /// How many distinct documents have been attached.
    pub fn len(&self) -> (n: usize)
        ensures
            n == self.ids@.len(),
    {
        self.ids.len()
    }

    /// Whether `doc` has been attached already.
    pub fn contains(&self, doc: u64) -> (r: bool)
        ensures
            r == self.contains_spec(doc),
    {
        let mut i: usize = 0;
        while i < self.ids.len()
            invariant
                i <= self.ids@.len(),
                forall|j: int| 0 <= j < i ==> self.ids@[j] != doc,
            decreases self.ids@.len() - i,
        {
            if self.ids[i] == doc {
                return true;
            }
            i = i + 1;
        }
        false
    }

    /// The guard's check-and-insert: answers Attached exactly on the first
    /// sighting of `doc` and records it; every repeated announcement answers
    /// AlreadyAttached and leaves the registry unchanged.
    pub fn try_attach(&mut self, doc: u64) -> (r: AttachResult)
        requires
            old(self).wf(),
        ensures
            final(self).wf(),
            r == attach_decision(old(self).ids@, doc),
            final(self).ids@ == attach_next(old(self).ids@, doc),
            final(self).contains_spec(doc),
            old(self).contains_spec(doc) ==> final(self).ids@ == old(self).ids@,
            !old(self).contains_spec(doc) ==> final(self).ids@.len() == old(self).ids@.len() + 1,
    {
        if self.contains(doc) {
            AttachResult::AlreadyAttached
        } else {
            let ghost before = self.ids@;
            self.ids.push(doc);
            proof {
                assert(self.ids@[before.len() as int] == doc);
            }
            AttachResult::Attached
        }
    }
}

/// The registry after `n` consecutive guard calls for the same identity.
pub open spec fn run_attach(s: Seq<u64>, doc: u64, n: nat) -> Seq<u64>
    decreases n,
{
    if n == 0 {
        s
    } else {
        attach_next(run_attach(s, doc, (n - 1) as nat), doc)
    }
}

/// How many of `n` consecutive guard calls for the same identity answered
/// Attached.
pub open spec fn attached_count(s: Seq<u64>, doc: u64, n: nat) -> nat
    decreases n,
{
    if n == 0 {
        0
    } else {
        attached_count(s, doc, (n - 1) as nat) + (if attach_decision(
            run_attach(s, doc, (n - 1) as nat),
            doc,
        ) == AttachResult::Attached {
            1nat
        } else {
            0nat
        })
    }
}

/// Registration guard law: however many times (N >= 1) the host announces one
/// fresh identity, exactly one call — the first — answers Attached, every
/// later call answers AlreadyAttached, and the registry grows by exactly one
/// entry.
pub proof fn lemma_attach_exactly_once(s: Seq<u64>, doc: u64, n: nat)
    requires
        n >= 1,
        !s.contains(doc),
    ensures
        attach_decision(s, doc) == AttachResult::Attached,
        forall|j: nat|
            1 <= j < n ==> attach_decision(run_attach(s, doc, j), doc)
                == AttachResult::AlreadyAttached,
        attached_count(s, doc, n) == 1,
        run_attach(s, doc, n) == s.push(doc),
        run_attach(s, doc, n).len() == s.len() + 1,
    decreases n,
{
    assert(s.push(doc).contains(doc)) by {
        assert(s.push(doc)[s.len() as int] == doc);
    }
    if n == 1 {
        assert(run_attach(s, doc, 0) == s);
        assert(attached_count(s, doc, 0) == 0);
    } else {
        lemma_attach_exactly_once(s, doc, (n - 1) as nat);
        assert(attach_decision(run_attach(s, doc, (n - 1) as nat), doc)
            == AttachResult::AlreadyAttached);
    }
}

} // verus!
