//! Where the status reports of running indexers wait to be consumed.
use vstd::prelude::*;
use crate::error::IndexerManagerError;
use crate::indexer::IndexerKey;
use crate::keyed::{holds_key, keyed_map, keys_unique, lemma_keyed_at, lemma_keyed_push, lemma_keyed_remove, lemma_keyed_update};

verus! {

/// A status receiver waiting under the key of its indexer.
#[derive(Debug)]
pub struct StatusEntry<R> {
    pub key: IndexerKey,
    pub comm: R,
}

/// Keeps the runner that indexing tasks are handed to, and one status
/// receiver per registered indexer until it is consumed.
#[derive(Debug)]
pub struct IndexerManager<R, A> {
    runner: A,
    comms: Vec<StatusEntry<R>>,
}

/// The status entries as (key, receiver) pairs.
pub open spec fn comm_pairs<R>(s: Seq<StatusEntry<R>>) -> Seq<(IndexerKey, R)> {
    s.map_values(|e: StatusEntry<R>| (e.key, e.comm))
}

/// Whether no two status entries share a key.
pub open spec fn comm_keys_distinct<R>(s: Seq<StatusEntry<R>>) -> bool {
    keys_unique(comm_pairs(s))
}

/// Whether some status entry is kept under `k`.
pub open spec fn has_comm<R>(s: Seq<StatusEntry<R>>, k: IndexerKey) -> bool {
    holds_key(comm_pairs(s), k)
}

/// The status entries seen as a map from indexer keys to receivers.
pub open spec fn comms_map<R>(s: Seq<StatusEntry<R>>) -> Map<IndexerKey, R> {
    keyed_map(comm_pairs(s))
}

impl<R, A> IndexerManager<R, A> {
    pub closed spec fn entries(self) -> Seq<StatusEntry<R>> {
        self.comms@
    }

    pub closed spec fn runner_ref(self) -> A {
        self.runner
    }

    /// No key occurs twice.
    #[verifier::type_invariant]
    spec fn wf(self) -> bool {
        comm_keys_distinct(self.comms@)
    }

    /// The waiting receivers by indexer key.
    pub open spec fn view(self) -> Map<IndexerKey, R> {
        comms_map(self.entries())
    }

    /// A manager handing tasks to `runner`, with no receiver waiting.
    pub fn new(runner: A) -> (m: Self)
        ensures
            m@ == Map::<IndexerKey, R>::empty(),
            m.runner_ref() == runner,
    {
        let m = IndexerManager { runner, comms: Vec::new() };
        assert(m@ =~= Map::<IndexerKey, R>::empty());
        m
    }

    /// The runner that indexing tasks are handed to.
    pub fn get_runner(&self) -> (runner: &A)
        ensures
            *runner == self.runner_ref(),
    {
        &self.runner
    }

    fn find(&self, key: &IndexerKey) -> (pos: Option<usize>)
        ensures
            match pos {
                Some(i) => i < self.entries().len() && self.entries()[i as int].key == *key,
                None => !has_comm(self.entries(), *key),
            },
    {
        let mut i: usize = 0;
        while i < self.comms.len()
            invariant
                i <= self.comms@.len(),
                forall|j: int| 0 <= j < i ==> self.comms@[j].key != *key,
            decreases self.comms@.len() - i,
        {
            if self.comms[i].key == *key {
                return Some(i);
            }
            i = i + 1;
        }
        None
    }

    /// Keeps `comm` as the status receiver of the indexer `key`, replacing
    /// any receiver waiting under that key.
    pub fn insert_comm(&mut self, key: IndexerKey, comm: R)
        ensures
            final(self)@ == old(self)@.insert(key, comm),
            final(self).runner_ref() == old(self).runner_ref(),
    {
        proof {
            use_type_invariant(&*self);
        }
        let ghost old_entries = self.entries();
        let ghost c = comm;
        let pos = self.find(&key);
        let mut comms: Vec<StatusEntry<R>> = Vec::new();
        std::mem::swap(&mut comms, &mut self.comms);
        match pos {
            Some(i) => {
                comms.set(i, StatusEntry { key, comm });
                proof {
                    assert(comm_pairs(comms@) =~= comm_pairs(old_entries).update(i as int, (key, c)));
                    lemma_keyed_update(comm_pairs(old_entries), i as int, c);
                }
            },
            None => {
                comms.push(StatusEntry { key, comm });
                proof {
                    assert(comm_pairs(comms@) =~= comm_pairs(old_entries).push((key, c)));
                    lemma_keyed_push(comm_pairs(old_entries), key, c);
                }
            },
        }
        self.comms = comms;
    }

    /// Hands out the status receiver of the indexer `key`; it can be consumed
    /// once.
    pub fn consume_status(&mut self, key: &IndexerKey) -> (r: Result<R, IndexerManagerError>)
        ensures
            final(self).runner_ref() == old(self).runner_ref(),
            match r {
                Ok(comm) => old(self)@.contains_key(*key) && comm == old(self)@[*key]
                    && final(self)@ == old(self)@.remove(*key),
                Err(e) => !old(self)@.contains_key(*key) && final(self)@ == old(self)@
                    && (e matches IndexerManagerError::NoSuchCommError(m) && m@ == key.spec_text()),
            },
    {
        proof {
            use_type_invariant(&*self);
        }
        let ghost old_entries = self.entries();
        match self.find(key) {
            Some(i) => {
                proof {
                    lemma_keyed_at(comm_pairs(old_entries), i as int);
                }
                let mut comms: Vec<StatusEntry<R>> = Vec::new();
                std::mem::swap(&mut comms, &mut self.comms);
                let entry = comms.remove(i);
                proof {
                    assert(comm_pairs(comms@) =~= comm_pairs(old_entries).remove(i as int));
                    lemma_keyed_remove(comm_pairs(old_entries), i as int);
                }
                self.comms = comms;
                Ok(entry.comm)
            },
            None => Err(IndexerManagerError::NoSuchCommError(key.to_string())),
        }
    }
}

/// A receiver kept for an indexer is what consuming its status gives.
pub proof fn law_consume_after_insert<R>(before: Map<IndexerKey, R>, key: IndexerKey, comm: R)
    ensures
        before.insert(key, comm).contains_key(key),
        before.insert(key, comm)[key] == comm,
{
}

/// A status can be consumed once: afterwards nothing waits under its key.
pub proof fn law_consume_once<R>(before: Map<IndexerKey, R>, key: IndexerKey)
    ensures
        !before.remove(key).contains_key(key),
{
}

} // verus!
