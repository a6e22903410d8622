use vstd::prelude::*;

use crate::entities::Source;
use crate::errors::SourceError;

verus! {

/// An opaque reference to one loaded plugin instance.  The token identifies
/// the instance to the execution collaborator; the registry entry for an id
/// exclusively owns it, so there is at most one live handle per id.
#[derive(Clone, Copy, Debug, PartialEq, Eq, Structural)]
pub struct Handle {
    pub token: u64,
}

/// One registry entry: the metadata of the loaded package and the handle of
/// its running instance.
#[derive(Debug)]
pub struct SourceEntry {
    pub source: Source,
    pub handle: Handle,
}

/// The ids of `s` are pairwise distinct.
pub open spec fn unique_ids(s: Seq<SourceEntry>) -> bool {
    forall|i: int, j: int|
        0 <= i < s.len() && 0 <= j < s.len() && i != j ==> #[trigger] s[i].source.id
            != #[trigger] s[j].source.id
}

/// The registry contents as a map from source id to entry.
pub open spec fn reg_map(s: Seq<SourceEntry>) -> Map<i64, SourceEntry>
    decreases s.len(),
{
    if s.len() == 0 {
        Map::empty()
    } else {
        reg_map(s.drop_last()).insert(s.last().source.id, s.last())
    }
}

/// The extension registry: the bus that holds every currently loaded plugin,
/// keyed by source id and kept in ascending id order.
pub struct SourceBus {
    entries: Vec<SourceEntry>,
}

impl View for SourceBus {
    type V = Map<i64, SourceEntry>;

    closed spec fn view(&self) -> Map<i64, SourceEntry> {
        reg_map(self.entries@)
    }
}

proof fn lemma_reg_map_props(s: Seq<SourceEntry>)
    requires
        unique_ids(s),
    ensures
        forall|id: i64|
            #[trigger] reg_map(s).contains_key(id) <==> exists|i: int|
                0 <= i < s.len() && #[trigger] s[i].source.id == id,
        forall|i: int|
            0 <= i < s.len() ==> reg_map(s).contains_key(#[trigger] s[i].source.id) && reg_map(
                s,
            )[s[i].source.id] == s[i],
    decreases s.len(),
{
    if s.len() > 0 {
        let t = s.drop_last();
        assert(unique_ids(t));
        lemma_reg_map_props(t);
        assert forall|id: i64| #[trigger] reg_map(s).contains_key(id) implies exists|i: int|
            0 <= i < s.len() && #[trigger] s[i].source.id == id by {
            if id == s.last().source.id {
                assert(s[s.len() - 1].source.id == id);
            } else {
                assert(reg_map(t).contains_key(id));
                let i = choose|i: int| 0 <= i < t.len() && #[trigger] t[i].source.id == id;
                assert(t[i] == s[i]);
                assert(s[i].source.id == id);
            }
        }
        assert forall|i: int| 0 <= i < s.len() implies reg_map(s).contains_key(
            #[trigger] s[i].source.id,
        ) && reg_map(s)[s[i].source.id] == s[i] by {
            if i < s.len() - 1 {
                assert(t[i] == s[i]);
                assert(s[i].source.id != s.last().source.id);
            }
        }
    }
}

/// Inserting an entry whose id is fresh adds exactly that key to the map.
proof fn lemma_reg_map_insert(s: Seq<SourceEntry>, k: int, e: SourceEntry)
    requires
        0 <= k <= s.len(),
        unique_ids(s),
        forall|i: int| 0 <= i < s.len() ==> #[trigger] s[i].source.id != e.source.id,
    ensures
        reg_map(s.insert(k, e)) == reg_map(s).insert(e.source.id, e),
    decreases s.len(),
{
    let t = s.insert(k, e);
    if k == s.len() {
        assert(t.drop_last() =~= s);
        assert(t.last() == e);
    } else {
        assert(t.drop_last() =~= s.drop_last().insert(k, e));
        assert(t.last() == s.last());
        assert(unique_ids(s.drop_last()));
        lemma_reg_map_insert(s.drop_last(), k, e);
        let base = reg_map(s.drop_last());
        let last = s.last();
        assert(e.source.id != last.source.id) by {
            assert(s[s.len() - 1].source.id != e.source.id);
        }
        assert(base.insert(e.source.id, e).insert(last.source.id, last) =~= base.insert(
            last.source.id,
            last,
        ).insert(e.source.id, e));
    }
}

/// Removing the entry at `k` removes exactly its key from the map.
proof fn lemma_reg_map_remove(s: Seq<SourceEntry>, k: int)
    requires
        0 <= k < s.len(),
        unique_ids(s),
    ensures
        reg_map(s.remove(k)) == reg_map(s).remove(s[k].source.id),
    decreases s.len(),
{
    let t = s.remove(k);
    if k == s.len() - 1 {
        assert(t =~= s.drop_last());
        assert(unique_ids(s.drop_last()));
        lemma_reg_map_props(s.drop_last());
        assert(!reg_map(s.drop_last()).contains_key(s.last().source.id));
        assert(reg_map(s.drop_last()) =~= reg_map(s.drop_last()).insert(
            s.last().source.id,
            s.last(),
        ).remove(s.last().source.id));
    } else {
        assert(t.drop_last() =~= s.drop_last().remove(k));
        assert(t.last() == s.last());
        assert(unique_ids(s.drop_last()));
        lemma_reg_map_remove(s.drop_last(), k);
        let base = reg_map(s.drop_last());
        let last = s.last();
        assert(s[k].source.id != last.source.id) by {
            assert(s[s.len() - 1].source.id != s[k].source.id);
        }
        assert(base.remove(s[k].source.id).insert(last.source.id, last) =~= base.insert(
            last.source.id,
            last,
        ).remove(s[k].source.id));
    }
}

impl SourceBus {
    /// The entries in registry order.
    pub closed spec fn entries_seq(self) -> Seq<SourceEntry> {
        self.entries@
    }

    /// The stored source records, in ascending id order.
    pub open spec fn sources(self) -> Seq<Source> {
        self.entries_seq().map_values(|e: SourceEntry| e.source)
    }

    /// Well-formedness: entries are strictly ascending by id, so ids are
    /// unique and `list` needs no sorting.
    pub closed spec fn wf(self) -> bool {
        forall|i: int, j: int|
            0 <= i < j < self.entries@.len() ==> #[trigger] self.entries@[i].source.id
                < #[trigger] self.entries@[j].source.id
    }

    proof fn lemma_wf_unique(self)
        requires
            self.wf(),
        ensures
            unique_ids(self.entries@),
    {
        assert forall|i: int, j: int|
            0 <= i < self.entries@.len() && 0 <= j < self.entries@.len() && i
                != j implies #[trigger] self.entries@[i].source.id
            != #[trigger] self.entries@[j].source.id by {
            if i < j {
                assert(self.entries@[i].source.id < self.entries@[j].source.id);
            } else {
                assert(self.entries@[j].source.id < self.entries@[i].source.id);
            }
        }
    }

    /// The registry never holds two entries for one id: distinct positions
    /// hold distinct ids, so there is at most one live handle per id.
    pub proof fn lemma_no_duplicate_ids(self)
        requires
            self.wf(),
        ensures
            forall|i: int, j: int|
                0 <= i < self.sources().len() && 0 <= j < self.sources().len() && i != j
                    ==> #[trigger] self.sources()[i].id != #[trigger] self.sources()[j].id,
    {
        self.lemma_wf_unique();
        assert forall|i: int, j: int|
            0 <= i < self.sources().len() && 0 <= j < self.sources().len() && i
                != j implies #[trigger] self.sources()[i].id != #[trigger] self.sources()[j].id by {
            assert(self.sources()[i] == self.entries@[i].source);
            assert(self.sources()[j] == self.entries@[j].source);
            assert(self.entries@[i].source.id != self.entries@[j].source.id);
        }
    }

    /// The listed sources are exactly the registered ids: every element of
    /// `sources()` is the stored record for its id, and every id the
    /// registry holds appears among them — nothing is invented and nothing
    /// is dropped.
    pub proof fn lemma_sources_complete(self)
        requires
            self.wf(),
        ensures
            forall|i: int|
                0 <= i < self.sources().len() ==> self@.contains_key(
                    #[trigger] self.sources()[i].id,
                ) && self@[self.sources()[i].id].source == self.sources()[i],
            forall|id: i64|
                #[trigger] self@.contains_key(id) ==> exists|i: int|
                    0 <= i < self.sources().len() && #[trigger] self.sources()[i].id == id,
    {
        self.lemma_view_entries();
        assert forall|i: int| 0 <= i < self.sources().len() implies self@.contains_key(
            #[trigger] self.sources()[i].id,
        ) && self@[self.sources()[i].id].source == self.sources()[i] by {
            assert(self.sources()[i] == self.entries@[i].source);
        }
        assert forall|id: i64| #[trigger] self@.contains_key(id) implies exists|i: int|
            0 <= i < self.sources().len() && #[trigger] self.sources()[i].id == id by {
            let i = choose|i: int|
                0 <= i < self.entries@.len() && #[trigger] self.entries@[i].source.id == id;
            assert(self.sources()[i] == self.entries@[i].source);
            assert(self.sources()[i].id == id);
        }
    }

    /// Each stored entry is the map's entry for its id, and every key of the
    /// map is the id of some stored entry.
    proof fn lemma_view_entries(self)
        requires
            self.wf(),
        ensures
            forall|id: i64|
                #[trigger] self@.contains_key(id) <==> exists|i: int|
                    0 <= i < self.entries@.len() && #[trigger] self.entries@[i].source.id == id,
            forall|i: int|
                0 <= i < self.entries@.len() ==> self@.contains_key(
                    #[trigger] self.entries@[i].source.id,
                ) && self@[self.entries@[i].source.id] == self.entries@[i],
    {
        self.lemma_wf_unique();
        lemma_reg_map_props(self.entries@);
    }

    /// An empty registry.
    pub fn new() -> (r: SourceBus)
        ensures
            r.wf(),
            r@ == Map::<i64, SourceEntry>::empty(),
            r.sources() == Seq::<Source>::empty(),
    {
        let bus = SourceBus { entries: Vec::new() };
        proof {
            assert(bus.sources() =~= Seq::<Source>::empty());
        }
        bus
    }

    /// Whether the registry holds a source with this id.
    pub fn contains(&self, id: i64) -> (r: bool)
        requires
            self.wf(),
        ensures
            r == self@.contains_key(id),
    {
        proof {
            self.lemma_view_entries();
        }
        let mut i: usize = 0;
        while i < self.entries.len()
            invariant
                self.wf(),
                0 <= i <= self.entries@.len(),
                forall|k: int| 0 <= k < i ==> #[trigger] self.entries@[k].source.id != id,
            decreases self.entries@.len() - i,
        {
            if self.entries[i].source.id == id {
                proof {
                    self.lemma_view_entries();
                    assert(self.entries@[i as int].source.id == id);
                }
                return true;
            }
            i += 1;
        }
        false
    }

    /// The stored record for `id`, or `NotFound`.
    pub fn get_source_info(&self, id: i64) -> (r: Result<Source, SourceError>)
        requires
            self.wf(),
        ensures
            self@.contains_key(id) ==> (r matches Ok(s) && s == self@[id].source),
            !self@.contains_key(id) ==> r == Err::<Source, SourceError>(SourceError::NotFound),
    {
        proof {
            self.lemma_view_entries();
        }
        let mut i: usize = 0;
        while i < self.entries.len()
            invariant
                self.wf(),
                0 <= i <= self.entries@.len(),
                forall|k: int| 0 <= k < i ==> #[trigger] self.entries@[k].source.id != id,
            decreases self.entries@.len() - i,
        {
            if self.entries[i].source.id == id {
                proof {
                    self.lemma_view_entries();
                    assert(self.entries@[i as int].source.id == id);
                }
                return Ok(self.entries[i].source.duplicate());
            }
            i += 1;
        }
        Err(SourceError::NotFound)
    }

    /// The handle for `id`, or `NotFound`.  Dispatch resolves plugin calls
    /// through this.
    pub fn resolve(&self, id: i64) -> (r: Result<Handle, SourceError>)
        requires
            self.wf(),
        ensures
            self@.contains_key(id) ==> r == Ok::<Handle, SourceError>(self@[id].handle),
            !self@.contains_key(id) ==> r == Err::<Handle, SourceError>(SourceError::NotFound),
    {
        proof {
            self.lemma_view_entries();
        }
        let mut i: usize = 0;
        while i < self.entries.len()
            invariant
                self.wf(),
                0 <= i <= self.entries@.len(),
                forall|k: int| 0 <= k < i ==> #[trigger] self.entries@[k].source.id != id,
            decreases self.entries@.len() - i,
        {
            if self.entries[i].source.id == id {
                proof {
                    self.lemma_view_entries();
                    assert(self.entries@[i as int].source.id == id);
                }
                return Ok(self.entries[i].handle);
            }
            i += 1;
        }
        Err(SourceError::NotFound)
    }

    /// Every stored source record, in ascending id order regardless of the
    /// order of registration.  Reading mutates nothing, so two reads with no
    /// mutation in between return the same sequence.
    pub fn list(&self) -> (r: Vec<Source>)
        requires
            self.wf(),
        ensures
            r@ == self.sources(),
            forall|i: int, j: int| 0 <= i < j < r@.len() ==> r@[i].id < r@[j].id,
    {
        let mut out: Vec<Source> = Vec::new();
        let mut i: usize = 0;
        while i < self.entries.len()
            invariant
                self.wf(),
                0 <= i <= self.entries@.len(),
                out@ =~= self.entries@.subrange(0, i as int).map_values(
                    |e: SourceEntry| e.source,
                ),
            decreases self.entries@.len() - i,
        {
            out.push(self.entries[i].source.duplicate());
            proof {
                assert(self.entries@.subrange(0, i as int + 1).drop_last() =~= self.entries@
                    .subrange(0, i as int));
                assert(out@ =~= self.entries@.subrange(0, i as int + 1).map_values(
                    |e: SourceEntry| e.source,
                ));
            }
            i += 1;
        }
        proof {
            assert(self.entries@.subrange(0, self.entries@.len() as int) =~= self.entries@);
            assert(out@ =~= self.sources());
        }
        out
    }

    /// Inserts a fully constructed entry for `source.id`; never a silent
    /// overwrite: when the id is already present the call fails with
    /// `AlreadyInstalled` and the registry is unchanged, so of two attempts
    /// to register the same absent id, exactly one succeeds.
    pub fn register(&mut self, source: Source, handle: Handle) -> (r: Result<(), SourceError>)
        requires
            old(self).wf(),
        ensures
            final (self).wf(),
            old(self)@.contains_key(source.id) ==> r == Err::<(), SourceError>(
                SourceError::AlreadyInstalled,
            ) && final (self)@ == old(self)@ && final (self).sources() == old(self).sources(),
            !old(self)@.contains_key(source.id) ==> r == Ok::<(), SourceError>(())
                && final (self)@ == old(self)@.insert(source.id, SourceEntry { source, handle }),
    {
        proof {
            self.lemma_view_entries();
        }
        let ghost s0 = self.entries@;
        let id = source.id;
        let mut i: usize = 0;
        while i < self.entries.len() && self.entries[i].source.id < id
            invariant
                self.wf(),
                0 <= i <= self.entries@.len(),
                self.entries@ == s0,
                forall|k: int| 0 <= k < i ==> #[trigger] self.entries@[k].source.id < id,
            decreases self.entries@.len() - i,
        {
            i += 1;
        }
        if i < self.entries.len() && self.entries[i].source.id == id {
            proof {
                self.lemma_view_entries();
                assert(self.entries@[i as int].source.id == id);
            }
            return Err(SourceError::AlreadyInstalled);
        }
        proof {
            self.lemma_wf_unique();
            assert forall|k: int|
                0 <= k < self.entries@.len() implies #[trigger] self.entries@[k].source.id
                != id by {
                if k >= i {
                    assert(self.entries@[i as int].source.id > id);
                    if k > i {
                        assert(self.entries@[i as int].source.id < self.entries@[k].source.id);
                    }
                }
            }
            lemma_reg_map_insert(self.entries@, i as int, SourceEntry { source, handle });
        }
        let entry = SourceEntry { source, handle };
        self.entries.insert(i, entry);
        proof {
            assert forall|p: int, q: int|
                0 <= p < q < self.entries@.len() implies #[trigger] self.entries@[p].source.id
                < #[trigger] self.entries@[q].source.id by {
                let t = self.entries@;
                assert(t == s0.insert(i as int, SourceEntry { source, handle }));
                if q < i {
                    assert(t[p] == s0[p] && t[q] == s0[q]);
                } else if q == i {
                    assert(t[p] == s0[p] && s0[p].source.id < id);
                } else {
                    assert(t[q] == s0[q - 1]);
                    assert(i as int <= q - 1);
                    assert(s0[q - 1].source.id >= s0[i as int].source.id);
                    assert(s0[q - 1].source.id > id);
                    if p < i {
                        assert(t[p] == s0[p] && s0[p].source.id < id);
                    } else if p == i {
                        assert(t[p].source.id == id);
                    } else {
                        assert(t[p] == s0[p - 1]);
                        assert(s0[p - 1].source.id < s0[q - 1].source.id);
                    }
                }
            }
        }
        Ok(())
    }

    /// Removes and returns the entry for `id`; fails with `NotFound` and
    /// leaves the registry unchanged when the id is absent.
    pub fn unregister(&mut self, id: i64) -> (r: Result<Handle, SourceError>)
        requires
            old(self).wf(),
        ensures
            final (self).wf(),
            !old(self)@.contains_key(id) ==> r == Err::<Handle, SourceError>(SourceError::NotFound)
                && final (self)@ == old(self)@ && final (self).sources() == old(self).sources(),
            old(self)@.contains_key(id) ==> r == Ok::<Handle, SourceError>(old(self)@[id].handle)
                && final (self)@ == old(self)@.remove(id),
    {
        proof {
            self.lemma_view_entries();
        }
        let ghost s0 = self.entries@;
        let mut i: usize = 0;
        while i < self.entries.len() && self.entries[i].source.id != id
            invariant
                self.wf(),
                0 <= i <= self.entries@.len(),
                self.entries@ == s0,
                forall|k: int| 0 <= k < i ==> #[trigger] self.entries@[k].source.id != id,
            decreases self.entries@.len() - i,
        {
            i += 1;
        }
        if i >= self.entries.len() {
            return Err(SourceError::NotFound);
        }
        proof {
            self.lemma_wf_unique();
            assert(self.entries@[i as int].source.id == id);
            lemma_reg_map_remove(self.entries@, i as int);
        }
        let entry = self.entries.remove(i);
        proof {
            assert forall|p: int, q: int|
                0 <= p < q < self.entries@.len() implies #[trigger] self.entries@[p].source.id
                < #[trigger] self.entries@[q].source.id by {
                let t = self.entries@;
                assert(t == s0.remove(i as int));
                if q < i {
                    assert(t[p] == s0[p] && t[q] == s0[q]);
                } else if p < i {
                    assert(t[p] == s0[p] && t[q] == s0[q + 1]);
                    assert(s0[p].source.id < s0[q + 1].source.id);
                } else {
                    assert(t[p] == s0[p + 1] && t[q] == s0[q + 1]);
                    assert(s0[p + 1].source.id < s0[q + 1].source.id);
                }
            }
        }
        Ok(entry.handle)
    }
}

} // verus!
