//! Ordered lists of entries keyed by text, with at most one entry per key:
//! the storage behind the door history and the status table.
use vstd::prelude::*;
use crate::text::str_eq;

verus! {

/// The value of the first entry with key `key`.
pub open spec fn find<V>(s: Seq<(String, V)>, key: Seq<char>) -> Option<V>
    decreases s.len(),
{
    if s.len() == 0 {
        None
    } else if s[0].0@ == key {
        Some(s[0].1)
    } else {
        find(s.drop_first(), key)
    }
}

/// `s` with the entry for `entry`'s key replaced in place, or, where the key
/// is new, with `entry` added at the end.
pub open spec fn upserted<V>(s: Seq<(String, V)>, entry: (String, V)) -> Seq<(String, V)>
    decreases s.len(),
{
    if s.len() == 0 {
        seq![entry]
    } else if s[0].0@ == entry.0@ {
        seq![entry] + s.drop_first()
    } else {
        seq![s[0]] + upserted(s.drop_first(), entry)
    }
}

/// No key occurs twice.
pub open spec fn unique_keys<V>(s: Seq<(String, V)>) -> bool {
    forall|i: int, j: int| 0 <= i < j < s.len() ==> s[i].0@ != s[j].0@
}

/// The keys, in entry order.
pub open spec fn keys_of<V>(s: Seq<(String, V)>) -> Seq<Seq<char>> {
    s.map_values(|e: (String, V)| e.0@)
}

pub proof fn lemma_find_upserted<V>(s: Seq<(String, V)>, entry: (String, V), key: Seq<char>)
    ensures
        find(upserted(s, entry), key) == if key == entry.0@ {
            Some(entry.1)
        } else {
            find(s, key)
        },
    decreases s.len(),
{
    let u = upserted(s, entry);
    if s.len() == 0 {
        assert(u =~= seq![entry]);
        assert(u[0] == entry);
        if key != entry.0@ {
            lemma_find_skip_key(u, key);
            assert(u.drop_first().len() == 0);
        }
    } else if s[0].0@ != entry.0@ {
        lemma_find_upserted(s.drop_first(), entry, key);
        assert(u[0] == s[0]);
        assert(u.drop_first() =~= upserted(s.drop_first(), entry));
        if s[0].0@ != key {
            lemma_find_skip_key(s, key);
            lemma_find_skip_key(u, key);
        }
    } else {
        assert(u[0] == entry);
        assert(u.drop_first() =~= s.drop_first());
        if key != entry.0@ {
            lemma_find_skip_key(s, key);
            lemma_find_skip_key(u, key);
        }
    }
}

proof fn lemma_find_skip_key<V>(s: Seq<(String, V)>, key: Seq<char>)
    requires
        s.len() > 0,
        s[0].0@ != key,
    ensures
        find(s, key) == find(s.drop_first(), key),
{
}

pub proof fn lemma_upserted_keys<V>(s: Seq<(String, V)>, entry: (String, V))
    ensures
        keys_of(upserted(s, entry)) == if keys_of(s).contains(entry.0@) {
            keys_of(s)
        } else {
            keys_of(s).push(entry.0@)
        },
        unique_keys(s) ==> unique_keys(upserted(s, entry)),
    decreases s.len(),
{
    let u = upserted(s, entry);
    if s.len() == 0 {
        assert(keys_of(u) =~= seq![entry.0@]);
        assert(keys_of(s).push(entry.0@) =~= seq![entry.0@]);
    } else {
        let rest = s.drop_first();
        lemma_upserted_keys(rest, entry);
        assert(keys_of(s) =~= seq![s[0].0@] + keys_of(rest));
        if s[0].0@ == entry.0@ {
            assert(keys_of(u) =~= keys_of(s));
            assert(keys_of(s)[0] == entry.0@);
            if unique_keys(s) {
                assert forall|i: int, j: int| 0 <= i < j < u.len() implies u[i].0@ != u[j].0@ by {
                    assert(u[i].0@ == s[i].0@);
                    assert(u[j].0@ == s[j].0@);
                }
            }
        } else {
            assert(u =~= seq![s[0]] + upserted(rest, entry));
            assert(keys_of(u) =~= seq![s[0].0@] + keys_of(upserted(rest, entry)));
            if keys_of(s).contains(entry.0@) {
                let k = choose|k: int| 0 <= k < keys_of(s).len() && keys_of(s)[k] == entry.0@;
                assert(k > 0);
                assert(keys_of(rest)[k - 1] == entry.0@);
                assert(keys_of(u) =~= keys_of(s));
            } else {
                assert forall|k: int| 0 <= k < keys_of(rest).len() implies keys_of(rest)[k]
                    != entry.0@ by {
                    assert(keys_of(s)[k + 1] == keys_of(rest)[k]);
                }
                assert(keys_of(u) =~= keys_of(s).push(entry.0@));
            }
            if unique_keys(s) {
                assert(unique_keys(rest)) by {
                    assert forall|i: int, j: int| 0 <= i < j < rest.len() implies rest[i].0@
                        != rest[j].0@ by {
                        assert(rest[i] == s[i + 1] && rest[j] == s[j + 1]);
                    }
                }
                assert forall|i: int, j: int| 0 <= i < j < u.len() implies u[i].0@ != u[j].0@ by {
                    if i == 0 {
                        assert(keys_of(u)[j] == u[j].0@);
                        assert(keys_of(u)[0] == s[0].0@);
                        if keys_of(s).contains(entry.0@) {
                            assert(keys_of(u)[j] == keys_of(s)[j]);
                        } else if j < s.len() {
                            assert(keys_of(u)[j] == keys_of(s)[j]);
                        } else {
                            assert(keys_of(u)[j] == entry.0@);
                        }
                    } else {
                        assert(u[i] == upserted(rest, entry)[i - 1]);
                        assert(u[j] == upserted(rest, entry)[j - 1]);
                    }
                }
            }
        }
    }
}

/// The position of the entry with key `key`, if any.
pub fn position<V>(entries: &Vec<(String, V)>, key: &str) -> (r: Option<usize>)
    ensures
        match r {
            Some(i) => i < entries@.len() && entries@[i as int].0@ == key@ && forall|j: int|
                0 <= j < i ==> entries@[j].0@ != key@,
            None => forall|j: int| 0 <= j < entries@.len() ==> entries@[j].0@ != key@,
        },
{
    let mut i: usize = 0;
    while i < entries.len()
        invariant
            i <= entries@.len(),
            forall|j: int| 0 <= j < i ==> entries@[j].0@ != key@,
        decreases entries@.len() - i,
    {
        if str_eq(entries[i].0.as_str(), key) {
            return Some(i);
        }
        i = i + 1;
    }
    None
}

proof fn lemma_find_position<V>(s: Seq<(String, V)>, key: Seq<char>, i: int)
    requires
        0 <= i < s.len(),
        s[i].0@ == key,
        forall|j: int| 0 <= j < i ==> s[j].0@ != key,
    ensures
        find(s, key) == Some(s[i].1),
    decreases i,
{
    if i > 0 {
        lemma_find_position(s.drop_first(), key, i - 1);
    }
}

proof fn lemma_find_absent<V>(s: Seq<(String, V)>, key: Seq<char>)
    requires
        forall|j: int| 0 <= j < s.len() ==> s[j].0@ != key,
    ensures
        find(s, key) is None,
    decreases s.len(),
{
    if s.len() > 0 {
        lemma_find_absent(s.drop_first(), key);
    }
}

proof fn lemma_upserted_position<V>(s: Seq<(String, V)>, entry: (String, V), i: int)
    requires
        0 <= i < s.len(),
        s[i].0@ == entry.0@,
        forall|j: int| 0 <= j < i ==> s[j].0@ != entry.0@,
    ensures
        upserted(s, entry) == s.update(i, entry),
    decreases i,
{
    if i > 0 {
        lemma_upserted_position(s.drop_first(), entry, i - 1);
        assert(upserted(s, entry) =~= s.update(i, entry));
    } else {
        assert(upserted(s, entry) =~= s.update(i, entry));
    }
}

proof fn lemma_upserted_absent<V>(s: Seq<(String, V)>, entry: (String, V))
    requires
        forall|j: int| 0 <= j < s.len() ==> s[j].0@ != entry.0@,
    ensures
        upserted(s, entry) == s.push(entry),
    decreases s.len(),
{
    if s.len() > 0 {
        lemma_upserted_absent(s.drop_first(), entry);
        assert(upserted(s, entry) =~= s.push(entry));
    } else {
        assert(upserted(s, entry) =~= s.push(entry));
    }
}

/// The value stored under `key`, if any.
pub fn find_value<'a, V>(entries: &'a Vec<(String, V)>, key: &str) -> (r: Option<&'a V>)
    ensures
        match r {
            Some(v) => find(entries@, key@) == Some(*v),
            None => find(entries@, key@) is None,
        },
{
    match position(entries, key) {
        Some(i) => {
            proof {
                lemma_find_position(entries@, key@, i as int);
            }
            Some(&entries[i].1)
        },
        None => {
            proof {
                lemma_find_absent(entries@, key@);
            }
            None
        },
    }
}

/// Takes out the value stored under `key`, if any, giving up the rest.
pub fn take_value<V>(entries: Vec<(String, V)>, key: &str) -> (r: Option<V>)
    ensures
        r == find(entries@, key@),
{
    let mut entries = entries;
    match position(&entries, key) {
        Some(i) => {
            proof {
                lemma_find_position(entries@, key@, i as int);
            }
            let (_, v) = entries.remove(i);
            Some(v)
        },
        None => {
            proof {
                lemma_find_absent(entries@, key@);
            }
            None
        },
    }
}

/// Replaces the entry with `key`, or adds one at the end.
pub fn upsert_entry<V>(entries: &mut Vec<(String, V)>, key: String, value: V)
    ensures
        final(entries)@ == upserted(old(entries)@, (key, value)),
{
    match position(entries, key.as_str()) {
        Some(i) => {
            proof {
                lemma_upserted_position(entries@, (key, value), i as int);
            }
            entries[i] = (key, value);
        },
        None => {
            proof {
                lemma_upserted_absent(entries@, (key, value));
            }
            entries.push((key, value));
        },
    }
}

} // verus!
