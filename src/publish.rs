//! Merging the fragments of all devices into the one payload a status bar
//! shows: texts joined by a separator, tooltips one per line.
use vstd::prelude::*;
use crate::render::Fragment;
use crate::table::StatusEntry;

verus! {

/// `parts` joined with `sep` between each two.
pub open spec fn join(parts: Seq<Seq<char>>, sep: Seq<char>) -> Seq<char>
    decreases parts.len(),
{
    if parts.len() == 0 {
        Seq::empty()
    } else if parts.len() == 1 {
        parts[0]
    } else {
        join(parts.drop_last(), sep) + sep + parts.last()
    }
}

pub open spec fn texts(fragments: Seq<Fragment>) -> Seq<Seq<char>> {
    fragments.map_values(|f: Fragment| f.text@)
}

pub open spec fn tooltips(fragments: Seq<Fragment>) -> Seq<Seq<char>> {
    fragments.map_values(|f: Fragment| f.tooltip@)
}

/// The rendered fragments of a table's entries, in table order; entries
/// with no rendered status yet are left out.
pub open spec fn fragments_of(entries: Seq<(String, StatusEntry)>) -> Seq<Fragment>
    decreases entries.len(),
{
    if entries.len() == 0 {
        Seq::empty()
    } else {
        let rest = fragments_of(entries.drop_last());
        match entries.last().1.fragment {
            Some(f) => rest.push(f),
            None => rest,
        }
    }
}

/// Whether `r` is the merge of `fragments`: nothing for no fragment, else
/// their texts joined by `sep` and their tooltips joined by newlines.
pub open spec fn merge_of(r: Option<Fragment>, fragments: Seq<Fragment>, sep: Seq<char>) -> bool {
    &&& r is None <==> fragments.len() == 0
    &&& r matches Some(f) ==> f.text@ == join(texts(fragments), sep) && f.tooltip@ == join(
        tooltips(fragments),
        "\n"@,
    )
}

/// Merges device fragments into one: `None` when there are none.
pub fn merge_outputs(outputs: &Vec<Fragment>, separator: &str) -> (r: Option<Fragment>)
    ensures
        merge_of(r, outputs@, separator@),
{
    let n = outputs.len();
    if n == 0 {
        return None;
    }
    let mut text = outputs[0].text.clone();
    let mut tooltip = outputs[0].tooltip.clone();
    let mut i: usize = 1;
    proof {
        let first = outputs@.subrange(0, 1);
        assert(texts(first) =~= seq![outputs@[0].text@]);
        assert(tooltips(first) =~= seq![outputs@[0].tooltip@]);
    }
    while i < n
        invariant
            n == outputs@.len(),
            1 <= i <= n,
            text@ == join(texts(outputs@.subrange(0, i as int)), separator@),
            tooltip@ == join(tooltips(outputs@.subrange(0, i as int)), "\n"@),
        decreases n - i,
    {
        proof {
            let before = outputs@.subrange(0, i as int);
            let after = outputs@.subrange(0, i + 1);
            assert(texts(after).drop_last() =~= texts(before));
            assert(tooltips(after).drop_last() =~= tooltips(before));
            assert(texts(after).last() == outputs@[i as int].text@);
            assert(tooltips(after).last() == outputs@[i as int].tooltip@);
        }
        text.append(separator);
        text.append(outputs[i].text.as_str());
        tooltip.append("\n");
        tooltip.append(outputs[i].tooltip.as_str());
        i = i + 1;
    }
    proof {
        assert(outputs@.subrange(0, n as int) =~= outputs@);
    }
    Some(Fragment { text, tooltip })
}

/// The merged payload of a table snapshot: the rendered fragments of its
/// entries, in table order, merged; `None` when there are none.
pub fn publish(snapshot: &Vec<(String, StatusEntry)>, separator: &str) -> (r: Option<Fragment>)
    ensures
        merge_of(r, fragments_of(snapshot@), separator@),
{
    let mut outputs: Vec<Fragment> = Vec::new();
    let mut i: usize = 0;
    while i < snapshot.len()
        invariant
            i <= snapshot@.len(),
            outputs@ == fragments_of(snapshot@.subrange(0, i as int)),
        decreases snapshot@.len() - i,
    {
        proof {
            assert(snapshot@.subrange(0, i + 1).drop_last() =~= snapshot@.subrange(0, i as int));
        }
        match &snapshot[i].1.fragment {
            Some(f) => outputs.push(f.duplicate()),
            None => {},
        }
        i = i + 1;
    }
    proof {
        assert(snapshot@.subrange(0, i as int) =~= snapshot@);
    }
    merge_outputs(&outputs, separator)
}

} // verus!
