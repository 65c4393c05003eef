//! The status table: the latest known status of each device, keyed by
//! device identifier, in the order devices were first written. Each
//! operation is one atomic step; callers that share a table between
//! producers hold it under one lock for the length of each call.
use vstd::prelude::*;
use crate::keyed::{
    find, find_value, keys_of, lemma_find_upserted, lemma_upserted_keys, unique_keys, upsert_entry,
    upserted,
};
use crate::render::Fragment;

verus! {

/// What is known of one device: its rendered status, once there is one,
/// and its online flag, once one was reported.
#[derive(Debug)]
pub struct StatusEntry {
    pub fragment: Option<Fragment>,
    pub online: Option<bool>,
}

impl StatusEntry {
    /// An equal copy of this entry.
    pub fn duplicate(&self) -> (r: StatusEntry)
        ensures
            r == *self,
    {
        let fragment = match &self.fragment {
            Some(f) => Some(f.duplicate()),
            None => None,
        };
        StatusEntry { fragment, online: self.online }
    }
}

/// The entry an online report leaves for a device whose entry was `prior`:
/// the rendered status kept, the flag set.
pub open spec fn with_online(prior: Option<StatusEntry>, online: bool) -> StatusEntry {
    match prior {
        Some(e) => StatusEntry { fragment: e.fragment, online: Some(online) },
        None => StatusEntry { fragment: None, online: Some(online) },
    }
}

/// The table that results from writing each entry of `writes` in turn.
pub open spec fn applied(
    s: Seq<(String, StatusEntry)>,
    writes: Seq<(String, StatusEntry)>,
) -> Seq<(String, StatusEntry)>
    decreases writes.len(),
{
    if writes.len() == 0 {
        s
    } else {
        upserted(applied(s, writes.drop_last()), writes.last())
    }
}

/// The latest status of each device, by identifier.
pub struct StatusTable {
    entries: Vec<(String, StatusEntry)>,
}

impl StatusTable {
    /// The entries, in the order their identifiers were first written.
    pub closed spec fn entries(&self) -> Seq<(String, StatusEntry)> {
        self.entries@
    }

    /// Each identifier has one entry.
    pub open spec fn wf(&self) -> bool {
        unique_keys(self.entries())
    }

    /// The entry of device `id`.
    pub open spec fn entry(&self, id: Seq<char>) -> Option<StatusEntry> {
        find(self.entries(), id)
    }

    /// An empty table.
    pub fn new() -> (r: StatusTable)
        ensures
            r.wf(),
            r.entries().len() == 0,
    {
        StatusTable { entries: Vec::new() }
    }

    /// Replaces the entry of device `id`, or adds it after all others.
    pub fn upsert(&mut self, id: String, entry: StatusEntry)
        requires
            old(self).wf(),
        ensures
            final(self).wf(),
            final(self).entries() == upserted(old(self).entries(), (id, entry)),
            forall|k: Seq<char>|
                final(self).entry(k) == if k == id@ {
                    Some(entry)
                } else {
                    old(self).entry(k)
                },
            keys_of(final(self).entries()) == if keys_of(old(self).entries()).contains(id@) {
                keys_of(old(self).entries())
            } else {
                keys_of(old(self).entries()).push(id@)
            },
    {
        proof {
            lemma_upserted_keys(self.entries@, (id, entry));
            assert forall|k: Seq<char>|
                find(upserted(self.entries@, (id, entry)), k) == if k == id@ {
                    Some(entry)
                } else {
                    find(self.entries@, k)
                } by {
                lemma_find_upserted(self.entries@, (id, entry), k);
            }
        }
        upsert_entry(&mut self.entries, id, entry);
    }

    /// Sets the online flag of device `id`, keeping its rendered status; a
    /// device not yet in the table gets an entry with the flag alone.
    pub fn merge_field(&mut self, id: String, online: bool)
        requires
            old(self).wf(),
        ensures
            final(self).wf(),
            final(self).entries() == upserted(
                old(self).entries(),
                (id, with_online(old(self).entry(id@), online)),
            ),
            forall|k: Seq<char>|
                final(self).entry(k) == if k == id@ {
                    Some(with_online(old(self).entry(id@), online))
                } else {
                    old(self).entry(k)
                },
    {
        let fragment = match find_value(&self.entries, id.as_str()) {
            Some(e) => match &e.fragment {
                Some(f) => Some(f.duplicate()),
                None => None,
            },
            None => None,
        };
        self.upsert(id, StatusEntry { fragment, online: Some(online) });
    }

    /// A copy of every entry, in table order.
    pub fn snapshot(&self) -> (r: Vec<(String, StatusEntry)>)
        ensures
            r@ == self.entries(),
    {
        let mut out: Vec<(String, StatusEntry)> = Vec::new();
        let mut i: usize = 0;
        while i < self.entries.len()
            invariant
                i <= self.entries@.len(),
                out@ == self.entries@.subrange(0, i as int),
            decreases self.entries@.len() - i,
        {
            let id = self.entries[i].0.clone();
            let entry = self.entries[i].1.duplicate();
            out.push((id, entry));
            i = i + 1;
            proof {
                assert(out@ =~= self.entries@.subrange(0, i as int));
            }
        }
        proof {
            assert(self.entries@.subrange(0, i as int) =~= self.entries@);
        }
        out
    }
}

/// No write is lost: after any sequence of writes, each identifier that is
/// not written again later holds the value of its write. Writes that two
/// producers make under one lock form such a sequence, whatever their
/// interleaving.
pub proof fn lemma_no_lost_updates(
    s: Seq<(String, StatusEntry)>,
    writes: Seq<(String, StatusEntry)>,
    i: int,
)
    requires
        0 <= i < writes.len(),
        forall|j: int| i < j < writes.len() ==> writes[j].0@ != writes[i].0@,
    ensures
        find(applied(s, writes), writes[i].0@) == Some(writes[i].1),
    decreases writes.len(),
{
    let last = writes.last();
    let before = writes.drop_last();
    lemma_find_upserted(applied(s, before), last, writes[i].0@);
    if i < writes.len() - 1 {
        lemma_no_lost_updates(s, before, i);
    }
}

/// Whether some write in `writes` is for identifier `k`.
pub open spec fn written(writes: Seq<(String, StatusEntry)>, k: Seq<char>) -> bool {
    exists|j: int| 0 <= j < writes.len() && writes[j].0@ == k
}

/// Writes keep one entry per identifier, and the table holds exactly the
/// identifiers it held before together with those written.
pub proof fn lemma_applied_keys(s: Seq<(String, StatusEntry)>, writes: Seq<(String, StatusEntry)>)
    requires
        unique_keys(s),
    ensures
        unique_keys(applied(s, writes)),
        forall|k: Seq<char>|
            #[trigger] keys_of(applied(s, writes)).contains(k) <==> (keys_of(s).contains(k)
                || written(writes, k)),
    decreases writes.len(),
{
    if writes.len() > 0 {
        let before = writes.drop_last();
        lemma_applied_keys(s, before);
        lemma_upserted_keys(applied(s, before), writes.last());
        let kb = keys_of(applied(s, before));
        assert(applied(s, writes) == upserted(applied(s, before), writes.last()));
        assert(writes.last() == writes[writes.len() - 1]);
        let w = writes.last().0@;
        let ka = keys_of(applied(s, writes));
        assert forall|k: Seq<char>| ka.contains(k) <==> (kb.contains(k) || k == w) by {
            if !kb.contains(w) {
                let kp = kb.push(w);
                assert(kp[kb.len() as int] == w);
                if kp.contains(k) {
                    let m = choose|m: int| 0 <= m < kp.len() && kp[m] == k;
                    if m < kb.len() {
                        assert(kb[m] == k);
                    }
                }
                if kb.contains(k) {
                    let m = choose|m: int| 0 <= m < kb.len() && kb[m] == k;
                    assert(kp[m] == k);
                }
            }
        }
        assert forall|k: Seq<char>| written(writes, k) <==> (written(before, k) || k == w) by {
            if exists|j: int| 0 <= j < writes.len() && writes[j].0@ == k {
                let j = choose|j: int| 0 <= j < writes.len() && writes[j].0@ == k;
                if j < writes.len() - 1 {
                    assert(before[j].0@ == k);
                }
            }
            if exists|j: int| 0 <= j < before.len() && before[j].0@ == k {
                let j = choose|j: int| 0 <= j < before.len() && before[j].0@ == k;
                assert(writes[j].0@ == k);
            }
            if k == w {
                assert(writes[writes.len() - 1].0@ == k);
            }
        }
        assert forall|k: Seq<char>|
            ka.contains(k) <==> (keys_of(s).contains(k) || written(writes, k)) by {
            assert(ka.contains(k) <==> (kb.contains(k) || k == w));
            assert(written(writes, k) <==> (written(before, k) || k == w));
            assert(kb.contains(k) <==> (keys_of(s).contains(k) || written(before, k)));
        }
    } else {
        assert(applied(s, writes) == s);
        assert forall|k: Seq<char>| !written(writes, k) by {}
    }
}

} // verus!
