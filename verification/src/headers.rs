//! Header maps for trace-context extraction: header names are compared without
//! regard to case, by lower-casing them.
use vstd::prelude::*;

use crate::text::{ascii_lowercase, is_ascii_chars, owned, spec_to_lowercase, to_lowercase};

verus! {

/// The map that a list of header pairs gives when each name is lower-cased and
/// later pairs replace earlier ones with the same lower-cased name.
pub open spec fn header_map(pairs: Seq<(Seq<char>, Seq<char>)>) -> Map<Seq<char>, Seq<char>>
    decreases pairs.len(),
{
    if pairs.len() == 0 {
        Map::empty()
    } else {
        header_map(pairs.drop_last()).insert(spec_to_lowercase(pairs.last().0), pairs.last().1)
    }
}

/// The character sequences of a list of string-slice pairs.
pub open spec fn pair_views(pairs: Seq<(&str, &str)>) -> Seq<(Seq<char>, Seq<char>)> {
    pairs.map_values(|p: (&str, &str)| (p.0@, p.1@))
}

/// No two entries share a name.
pub open spec fn distinct_names(e: Seq<(String, String)>) -> bool {
    forall|i: int, j: int|
        0 <= i < e.len() && 0 <= j < e.len() && i != j ==> (#[trigger] e[i]).0@ != (#[trigger] e[j]).0@
}

/// The map from names to values that a list of entries holds.
pub open spec fn entries_map(e: Seq<(String, String)>) -> Map<Seq<char>, Seq<char>> {
    Map::new(
        |k: Seq<char>| exists|i: int| 0 <= i < e.len() && (#[trigger] e[i]).0@ == k,
        |k: Seq<char>| e[choose|i: int| 0 <= i < e.len() && (#[trigger] e[i]).0@ == k].1@,
    )
}

proof fn lemma_entries_map(e: Seq<(String, String)>)
    requires
        distinct_names(e),
    ensures
        forall|i: int|
            0 <= i < e.len() ==> entries_map(e).dom().contains((#[trigger] e[i]).0@) && entries_map(
                e,
            )[e[i].0@] == e[i].1@,
        forall|k: Seq<char>|
            #[trigger] entries_map(e).dom().contains(k) ==> exists|i: int|
                0 <= i < e.len() && (#[trigger] e[i]).0@ == k,
{
    assert forall|i: int| 0 <= i < e.len() implies entries_map(e).dom().contains(
        (#[trigger] e[i]).0@,
    ) && entries_map(e)[e[i].0@] == e[i].1@ by {
        let k = e[i].0@;
        assert(exists|j: int| 0 <= j < e.len() && (#[trigger] e[j]).0@ == k);
        let j = choose|j: int| 0 <= j < e.len() && (#[trigger] e[j]).0@ == k;
        assert(j == i);
    }
}

/// Header extractor: a case-insensitive map from header names to values.
pub struct HeaderExtractor {
    entries: Vec<(String, String)>,
}

impl HeaderExtractor {
    /// The map from lower-cased names to values.
    pub closed spec fn view(&self) -> Map<Seq<char>, Seq<char>> {
        entries_map(self.entries@)
    }

    /// The entries hold no name twice.
    #[verifier::type_invariant]
    spec fn wf(&self) -> bool {
        distinct_names(self.entries@)
    }

    /// An extractor with no headers.
    pub fn empty() -> (r: Self)
        ensures
            r.view() == Map::<Seq<char>, Seq<char>>::empty(),
    {
        let r = HeaderExtractor { entries: Vec::new() };
        assert(r.view() =~= Map::<Seq<char>, Seq<char>>::empty());
        r
    }

    /// Records `value` under a name that is already lower-cased, replacing any
    /// value held under that name.
    pub fn insert_lowercased(&mut self, name: String, value: String)
        ensures
            final(self).view() == old(self).view().insert(name@, value@),
    {
        proof {
            use_type_invariant(&*self);
        }
        let mut entries: Vec<(String, String)> = Vec::new();
        std::mem::swap(&mut entries, &mut self.entries);
        let ghost e0 = entries@;
        assert(old(self).view() == entries_map(e0));
        proof {
            lemma_entries_map(e0);
        }
        let mut i: usize = 0;
        while i < entries.len()
            invariant
                entries@ == e0,
                self.entries@.len() == 0,
                old(self).view() == entries_map(e0),
                distinct_names(e0),
                i <= e0.len(),
                forall|k: int| 0 <= k < i ==> (#[trigger] e0[k]).0@ != name@,
            decreases e0.len() - i,
        {
            if entries[i].0 == name {
                let ghost k0 = name@;
                let ghost v0 = value@;
                entries.set(i, (name, value));
                let ghost e1 = entries@;
                assert(e1[i as int].1@ == v0);
                assert(distinct_names(e1)) by {
                    assert forall|a: int, b: int|
                        0 <= a < e1.len() && 0 <= b < e1.len() && a != b implies (#[trigger] e1[a]).0@
                        != (#[trigger] e1[b]).0@ by {
                        assert(e0[a].0@ != e0[b].0@);
                    }
                }
                proof {
                    lemma_entries_map(e1);
                }
                assert(entries_map(e1) =~= entries_map(e0).insert(k0, e1[i as int].1@)) by {
                    assert forall|k: Seq<char>| #[trigger]
                        entries_map(e1).dom().contains(k) <==> entries_map(e0).insert(
                            k0,
                            e1[i as int].1@,
                        ).dom().contains(k) by {
                        if entries_map(e1).dom().contains(k) {
                            let j = choose|j: int| 0 <= j < e1.len() && (#[trigger] e1[j]).0@ == k;
                            assert(e0[j].0@ == e1[j].0@);
                        }
                        if entries_map(e0).dom().contains(k) {
                            let j = choose|j: int| 0 <= j < e0.len() && (#[trigger] e0[j]).0@ == k;
                            assert(e0[j].0@ == e1[j].0@);
                        }
                    }
                    assert forall|k: Seq<char>| #[trigger]
                        entries_map(e1).dom().contains(k) implies entries_map(e1)[k]
                        == entries_map(e0).insert(k0, e1[i as int].1@)[k] by {
                        let j = choose|j: int| 0 <= j < e1.len() && (#[trigger] e1[j]).0@ == k;
                        if j != i {
                            assert(e0[j] == e1[j]);
                        }
                    }
                }
                self.entries = entries;
                assert(self.view() == entries_map(e1));
                return;
            }
            i = i + 1;
        }
        let ghost k0 = name@;
        let ghost v0 = value@;
        entries.push((name, value));
        let ghost e1 = entries@;
        assert(distinct_names(e1)) by {
            assert forall|a: int, b: int|
                0 <= a < e1.len() && 0 <= b < e1.len() && a != b implies (#[trigger] e1[a]).0@ != (
            #[trigger] e1[b]).0@ by {
                if a < e0.len() && b < e0.len() {
                    assert(e0[a] == e1[a] && e0[b] == e1[b]);
                } else if a < e0.len() {
                    assert(e0[a] == e1[a]);
                } else if b < e0.len() {
                    assert(e0[b] == e1[b]);
                }
            }
        }
        proof {
            lemma_entries_map(e1);
        }
        assert(entries_map(e1) =~= entries_map(e0).insert(k0, v0)) by {
            assert(e1[e0.len() as int].0@ == k0);
            assert forall|k: Seq<char>| #[trigger]
                entries_map(e1).dom().contains(k) <==> entries_map(e0).insert(
                    k0,
                    v0,
                ).dom().contains(k) by {
                if entries_map(e1).dom().contains(k) {
                    let j = choose|j: int| 0 <= j < e1.len() && (#[trigger] e1[j]).0@ == k;
                    if j < e0.len() {
                        assert(e0[j] == e1[j]);
                    }
                }
                if entries_map(e0).dom().contains(k) {
                    let j = choose|j: int| 0 <= j < e0.len() && (#[trigger] e0[j]).0@ == k;
                    assert(e0[j] == e1[j]);
                }
            }
            assert forall|k: Seq<char>| #[trigger]
                entries_map(e1).dom().contains(k) implies entries_map(e1)[k] == entries_map(
                e0,
            ).insert(k0, v0)[k] by {
                let j = choose|j: int| 0 <= j < e1.len() && (#[trigger] e1[j]).0@ == k;
                if j < e0.len() {
                    assert(e0[j] == e1[j]);
                }
            }
        }
        self.entries = entries;
    }

    /// Create an extractor from header name/value pairs.  Names are lower-cased;
    /// of two pairs whose names lower-case alike, the later one's value is kept.
    pub fn new(headers: Vec<(&str, &str)>) -> (r: Self)
        ensures
            r.view() == header_map(pair_views(headers@)),
            forall|j: int|
                0 <= j < headers@.len() && is_ascii_chars(#[trigger] headers@[j].0@)
                    ==> spec_to_lowercase(headers@[j].0@) == ascii_lowercase(headers@[j].0@),
    {
        let mut r = Self::empty();
        let ghost pv = pair_views(headers@);
        let mut i: usize = 0;
        assert(pv.take(0) =~= Seq::<(Seq<char>, Seq<char>)>::empty());
        while i < headers.len()
            invariant
                i <= headers@.len(),
                pv == pair_views(headers@),
                r.view() == header_map(pv.take(i as int)),
                forall|j: int|
                    0 <= j < i && is_ascii_chars(#[trigger] headers@[j].0@) ==> spec_to_lowercase(
                        headers@[j].0@,
                    ) == ascii_lowercase(headers@[j].0@),
            decreases headers@.len() - i,
        {
            let (k, v) = headers[i];
            let name = to_lowercase(k);
            let value = owned(v);
            r.insert_lowercased(name, value);
            assert(pv.take(i + 1).drop_last() =~= pv.take(i as int));
            assert(pv[i as int] == (k@, v@));
            i = i + 1;
        }
        assert(pv.take(i as int) =~= pv);
        r
    }

    /// The value held under a name that is already lower-cased.
    pub fn get_lowercased(&self, name: &str) -> (r: Option<&str>)
        ensures
            r is Some <==> self.view().dom().contains(name@),
            r matches Some(v) ==> v@ == self.view()[name@],
    {
        proof {
            use_type_invariant(self);
            lemma_entries_map(self.entries@);
        }
        let wanted = owned(name);
        let mut i: usize = 0;
        while i < self.entries.len()
            invariant
                i <= self.entries@.len(),
                wanted@ == name@,
                distinct_names(self.entries@),
                forall|k: int| 0 <= k < i ==> (#[trigger] self.entries@[k]).0@ != name@,
            decreases self.entries@.len() - i,
        {
            if self.entries[i].0 == wanted {
                assert(self.entries@[i as int].0@ == name@);
                proof {
                    lemma_entries_map(self.entries@);
                }
                assert(self.view()[name@] == self.entries@[i as int].1@);
                return Some(self.entries[i].1.as_str());
            }
            i = i + 1;
        }
        None
    }

    /// The value of a header, looked up by its lower-cased name.
    pub fn get(&self, key: &str) -> (r: Option<&str>)
        ensures
            r is Some <==> self.view().dom().contains(spec_to_lowercase(key@)),
            r matches Some(v) ==> v@ == self.view()[spec_to_lowercase(key@)],
            is_ascii_chars(key@) ==> spec_to_lowercase(key@) == ascii_lowercase(key@),
    {
        let name = to_lowercase(key);
        self.get_lowercased(name.as_str())
    }

    /// The (lower-cased) names held, each once.
    pub fn keys(&self) -> (r: Vec<&str>)
        ensures
            r@.len() == self.view().dom().len(),
            forall|i: int| 0 <= i < r@.len() ==> self.view().dom().contains((#[trigger] r@[i])@),
            forall|k: Seq<char>|
                #[trigger] self.view().dom().contains(k) ==> exists|i: int|
                    0 <= i < r@.len() && (#[trigger] r@[i])@ == k,
    {
        proof {
            use_type_invariant(self);
            lemma_entries_map(self.entries@);
        }
        let mut out: Vec<&str> = Vec::new();
        let mut i: usize = 0;
        while i < self.entries.len()
            invariant
                i <= self.entries@.len(),
                out@.len() == i,
                forall|k: int| 0 <= k < i ==> (#[trigger] out@[k])@ == self.entries@[k].0@,
            decreases self.entries@.len() - i,
        {
            out.push(self.entries[i].0.as_str());
            i = i + 1;
        }
        let ghost e = self.entries@;
        let ghost names = e.map_values(|p: (String, String)| p.0@);
        assert(names.no_duplicates()) by {
            assert forall|a: int, b: int|
                0 <= a < names.len() && 0 <= b < names.len() && a != b implies names[a]
                != names[b] by {
                assert(e[a].0@ != e[b].0@);
            }
        }
        assert(self.view().dom() =~= names.to_set()) by {
            assert forall|k: Seq<char>| #[trigger]
                self.view().dom().contains(k) <==> names.to_set().contains(k) by {
                if self.view().dom().contains(k) {
                    let j = choose|j: int| 0 <= j < e.len() && (#[trigger] e[j]).0@ == k;
                    assert(names[j] == k);
                }
                if names.to_set().contains(k) {
                    let j = choose|j: int| 0 <= j < names.len() && names[j] == k;
                    assert(e[j].0@ == k);
                }
            }
        }
        proof {
            names.unique_seq_to_set();
        }
        assert forall|k: Seq<char>| #[trigger] self.view().dom().contains(k) implies exists|i: int|
            0 <= i < out@.len() && (#[trigger] out@[i])@ == k by {
            let j = choose|j: int| 0 <= j < e.len() && (#[trigger] e[j]).0@ == k;
            assert(out@[j]@ == k);
        }
        out
    }
}

/// A header map holds a name exactly when some pair's name lower-cases to it.
pub proof fn lemma_header_map_has(pairs: Seq<(Seq<char>, Seq<char>)>, lk: Seq<char>)
    ensures
        header_map(pairs).dom().contains(lk) <==> exists|i: int|
            0 <= i < pairs.len() && spec_to_lowercase((#[trigger] pairs[i]).0) == lk,
    decreases pairs.len(),
{
    if pairs.len() > 0 {
        let init = pairs.drop_last();
        lemma_header_map_has(init, lk);
        if exists|i: int| 0 <= i < init.len() && spec_to_lowercase((#[trigger] init[i]).0) == lk {
            let i = choose|i: int| 0 <= i < init.len() && spec_to_lowercase((#[trigger] init[i]).0) == lk;
            assert(pairs[i] == init[i]);
        }
        if exists|i: int| 0 <= i < pairs.len() && spec_to_lowercase((#[trigger] pairs[i]).0) == lk {
            let i = choose|i: int| 0 <= i < pairs.len() && spec_to_lowercase((#[trigger] pairs[i]).0) == lk;
            if i < init.len() {
                assert(pairs[i] == init[i]);
            }
        }
    }
}

/// Looking a header up by any spelling of its name finds the value of the last
/// pair whose name lower-cases alike.
pub proof fn lemma_header_map_last_wins(pairs: Seq<(Seq<char>, Seq<char>)>, i: int, key: Seq<char>)
    requires
        0 <= i < pairs.len(),
        spec_to_lowercase(pairs[i].0) == spec_to_lowercase(key),
        forall|j: int| i < j < pairs.len() ==> spec_to_lowercase((#[trigger] pairs[j]).0)
            != spec_to_lowercase(key),
    ensures
        header_map(pairs).dom().contains(spec_to_lowercase(key)),
        header_map(pairs)[spec_to_lowercase(key)] == pairs[i].1,
    decreases pairs.len(),
{
    let init = pairs.drop_last();
    if i < pairs.len() - 1 {
        assert(spec_to_lowercase(pairs[pairs.len() - 1].0) != spec_to_lowercase(key));
        assert(init[i] == pairs[i]);
        assert forall|j: int| i < j < init.len() implies spec_to_lowercase((#[trigger] init[j]).0)
            != spec_to_lowercase(key) by {
            assert(init[j] == pairs[j]);
        }
        lemma_header_map_last_wins(init, i, key);
    }
}

} // verus!
