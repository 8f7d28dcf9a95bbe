//! The registry of active recording sessions: the single authority for
//! "is this id currently recording". A start inserts, a stop removes; two
//! operations on the same id can never both succeed.
use vstd::prelude::*;

verus! {

use crate::errors::RecordingError;
use crate::session::RecordingSessionMeta;

/// The active sessions, each under its sanitized id. Ids are unique; the
/// caller serializes access (one lock around the whole registry).
pub struct SessionRegistry {
    entries: Vec<RecordingSessionMeta>,
}

impl SessionRegistry {
    /// The metadata of the active sessions, in insertion order.
    pub closed spec fn sessions(self) -> Seq<RecordingSessionMeta> {
        self.entries@
    }

    /// No two active sessions share an id.
    pub open spec fn wf(self) -> bool {
        forall|i: int, j: int|
            0 <= i < j < self.sessions().len() ==> self.sessions()[i].id@ != self.sessions()[j].id@
    }

    /// Whether an id denotes an active session.
    pub open spec fn contains_id(self, id: Seq<char>) -> bool {
        exists|i: int| 0 <= i < self.sessions().len() && self.sessions()[i].id@ == id
    }

    /// The position of the session with this id.
    pub open spec fn index_of(self, id: Seq<char>) -> int {
        choose|i: int| 0 <= i < self.sessions().len() && self.sessions()[i].id@ == id
    }

    /// The sessions after a start of `meta`: unchanged when the id is
    /// already active, else extended by one session.
    pub open spec fn spec_after_insert(self, meta: RecordingSessionMeta) -> Seq<
        RecordingSessionMeta,
    > {
        if self.contains_id(meta.id@) {
            self.sessions()
        } else {
            self.sessions().push(meta)
        }
    }

    /// The sessions after a stop of `id`: unchanged when the id is not
    /// active, else with that one session removed.
    pub open spec fn spec_after_remove(self, id: Seq<char>) -> Seq<RecordingSessionMeta> {
        if self.contains_id(id) {
            self.sessions().remove(self.index_of(id))
        } else {
            self.sessions()
        }
    }

    /// An empty registry: the process starts with no active session.
    pub fn new() -> (r: SessionRegistry)
        ensures
            r.wf(),
            r.sessions().len() == 0,
    {
        SessionRegistry { entries: Vec::new() }
    }

    /// How many sessions are active.
    pub fn len(&self) -> (r: usize)
        ensures
            r == self.sessions().len(),
    {
        self.entries.len()
    }

    fn find(&self, id: &String) -> (r: Option<usize>)
        requires
            self.wf(),
        ensures
            match r {
                Some(i) => i < self.sessions().len() && self.sessions()[i as int].id@ == id@
                    && i == self.index_of(id@),
                None => !self.contains_id(id@),
            },
    {
        let n = self.entries.len();
        let mut i: usize = 0;
        while i < n
            invariant
                self.wf(),
                n == self.sessions().len(),
                i <= n,
                forall|k: int| 0 <= k < i ==> self.sessions()[k].id@ != id@,
            decreases n - i,
        {
            if self.entries[i].id.eq(id) {
                proof {
                    self.lemma_index_unique(i as int, id@);
                }
                return Some(i);
            }
            i += 1;
        }
        None
    }

    proof fn lemma_index_unique(self, i: int, id: Seq<char>)
        requires
            self.wf(),
            0 <= i < self.sessions().len(),
            self.sessions()[i].id@ == id,
        ensures
            self.index_of(id) == i,
    {
        let j = self.index_of(id);
        assert(0 <= j < self.sessions().len() && self.sessions()[j].id@ == id);
        if i < j {
            assert(self.sessions()[i].id@ != self.sessions()[j].id@);
        } else if j < i {
            assert(self.sessions()[j].id@ != self.sessions()[i].id@);
        }
    }

    /// Whether an id denotes an active session.
    pub fn is_active(&self, id: &String) -> (r: bool)
        requires
            self.wf(),
        ensures
            r == self.contains_id(id@),
    {
        self.find(id).is_some()
    }

    /// Registers a starting session. Fails with the duplicate-id start
    /// error, leaving the registry unchanged, exactly when the id is
    /// already active.
    pub fn insert(&mut self, meta: RecordingSessionMeta) -> (r: Result<(), RecordingError>)
        requires
            old(self).wf(),
        ensures
            final(self).wf(),
            final(self).sessions() == old(self).spec_after_insert(meta),
            r is Ok <==> !old(self).contains_id(meta.id@),
            match r {
                Ok(_) => true,
                Err(e) => e matches RecordingError::Start(m) && m@ == "duplicate recording id"@,
            },
    {
        if self.find(&meta.id).is_some() {
            Err(RecordingError::Start(String::from_str("duplicate recording id")))
        } else {
            proof {
                assert forall|i: int, j: int|
                    0 <= i < j < self.sessions().push(meta).len() implies self.sessions().push(
                    meta,
                )[i].id@ != self.sessions().push(meta)[j].id@ by {
                    if j < self.sessions().len() {
                        assert(self.sessions()[i].id@ != self.sessions()[j].id@);
                    } else {
                        assert(self.sessions()[i].id@ != meta.id@);
                    }
                }
            }
            self.entries.push(meta);
            Ok(())
        }
    }

    /// Unregisters a stopping session, returning its metadata. Fails with
    /// the not-found error, leaving the registry unchanged, exactly when
    /// the id is not active.
    pub fn remove(&mut self, id: &String) -> (r: Result<RecordingSessionMeta, RecordingError>)
        requires
            old(self).wf(),
        ensures
            final(self).wf(),
            final(self).sessions() == old(self).spec_after_remove(id@),
            r is Ok <==> old(self).contains_id(id@),
            match r {
                Ok(m) => m == old(self).sessions()[old(self).index_of(id@)] && m.id@ == id@,
                Err(e) => e == RecordingError::NotFound,
            },
    {
        match self.find(id) {
            None => Err(RecordingError::NotFound),
            Some(i) => {
                let m = self.entries.remove(i);
                proof {
                    let after = old(self).sessions().remove(i as int);
                    assert forall|p: int, q: int|
                        0 <= p < q < after.len() implies after[p].id@ != after[q].id@ by {
                        let p0 = if p < i {
                            p
                        } else {
                            p + 1
                        };
                        let q0 = if q < i {
                            q
                        } else {
                            q + 1
                        };
                        assert(after[p] == old(self).sessions()[p0]);
                        assert(after[q] == old(self).sessions()[q0]);
                    }
                }
                Ok(m)
            },
        }
    }
}

/// A second start under an id that is already active changes nothing:
/// the registry after the refused insert is the registry as it was, and the
/// first session is still present, so a stop of that id still succeeds.
pub proof fn lemma_duplicate_start_keeps_first(r: SessionRegistry, meta: RecordingSessionMeta)
    requires
        r.wf(),
        r.contains_id(meta.id@),
    ensures
        r.spec_after_insert(meta) == r.sessions(),
        exists|i: int|
            0 <= i < r.spec_after_insert(meta).len() && r.spec_after_insert(meta)[i].id@
                == meta.id@,
{
}

/// A stop removes its id: after a successful stop the id is no longer
/// active, so stopping the same id again fails with the not-found error.
pub proof fn lemma_stop_removes_id(r: SessionRegistry, id: Seq<char>)
    requires
        r.wf(),
        r.contains_id(id),
    ensures
        forall|p: int| 0 <= p < r.spec_after_remove(id).len() ==> r.spec_after_remove(id)[p].id@ != id,
{
    let k = r.index_of(id);
    let after = r.spec_after_remove(id);
    assert forall|p: int| 0 <= p < after.len() implies after[p].id@ != id by {
        let p0 = if p < k {
            p
        } else {
            p + 1
        };
        assert(after[p] == r.sessions()[p0]);
        if p0 != k {
            if p0 < k {
                assert(r.sessions()[p0].id@ != r.sessions()[k].id@);
            } else {
                assert(r.sessions()[k].id@ != r.sessions()[p0].id@);
            }
        }
    }
}

} // verus!
