//! The handler ids a client connection has already obtained by name, so that
//! each name is asked for once per connection.

use vstd::prelude::*;

verus! {

/// Known handler ids by handler name.
pub struct TargetRouter {
    known: Vec<(String, u64)>,
}

/// The map from names to ids that a list of entries holds (no name occurs
/// twice in it).
pub open spec fn entries_map(e: Seq<(String, u64)>) -> Map<Seq<char>, u64>
    decreases e.len(),
{
    if e.len() == 0 {
        Map::empty()
    } else {
        entries_map(e.drop_last()).insert(e.last().0@, e.last().1)
    }
}

/// No name occurs twice.
pub open spec fn distinct_names(e: Seq<(String, u64)>) -> bool {
    forall|i: int, j: int| 0 <= i < j < e.len() ==> (#[trigger] e[i]).0@ != (#[trigger] e[j]).0@
}

proof fn lemma_entries_map(e: Seq<(String, u64)>)
    requires
        distinct_names(e),
    ensures
        forall|i: int|
            0 <= i < e.len() ==> entries_map(e).contains_key((#[trigger] e[i]).0@) && entries_map(e)[e[i].0@]
                == e[i].1,
        forall|n: Seq<char>| #[trigger] entries_map(e).contains_key(n) ==> exists|i: int| 0 <= i < e.len() && e[i].0@ == n,
    decreases e.len(),
{
    if e.len() > 0 {
        let p = e.drop_last();
        assert forall|i: int, j: int| 0 <= i < j < p.len() implies (#[trigger] p[i]).0@ != (#[trigger] p[j]).0@ by {
            assert(p[i] == e[i] && p[j] == e[j]);
        }
        lemma_entries_map(p);
        assert forall|i: int| 0 <= i < e.len() implies entries_map(e).contains_key((#[trigger] e[i]).0@)
            && entries_map(e)[e[i].0@] == e[i].1 by {
            if i < e.len() - 1 {
                assert(e[i] == p[i]);
                assert(e[i].0@ != e[e.len() - 1].0@);
            }
        }
        assert forall|n: Seq<char>| #[trigger] entries_map(e).contains_key(n) implies exists|i: int|
            0 <= i < e.len() && e[i].0@ == n by {
            if n != e.last().0@ {
                assert(entries_map(p).contains_key(n));
                let i = choose|i: int| 0 <= i < p.len() && p[i].0@ == n;
                assert(e[i] == p[i]);
            } else {
                assert(e[e.len() - 1].0@ == n);
            }
        }
    }
}

impl TargetRouter {
    #[verifier::type_invariant]
    spec fn names_distinct(&self) -> bool {
        distinct_names(self.known@)
    }

    /// The known ids by name.
    pub closed spec fn known_ids(&self) -> Map<Seq<char>, u64> {
        entries_map(self.known@)
    }

    /// No id known yet.
    pub fn new() -> (r: TargetRouter)
        ensures
            r.known_ids() == Map::<Seq<char>, u64>::empty(),
    {
        TargetRouter { known: Vec::new() }
    }

    /// The id known for `name`, if any.
    pub fn lookup(&self, name: &String) -> (r: Option<u64>)
        ensures
            self.known_ids().contains_key(name@) ==> r == Some(self.known_ids()[name@]),
            !self.known_ids().contains_key(name@) ==> r is None,
    {
        proof {
            use_type_invariant(self);
            lemma_entries_map(self.known@);
        }
        let mut i: usize = 0;
        while i < self.known.len()
            invariant
                i <= self.known@.len(),
                forall|j: int| 0 <= j < i ==> (#[trigger] self.known@[j]).0@ != name@,
            decreases self.known@.len() - i,
        {
            if self.known[i].0 == *name {
                proof {
                    use_type_invariant(self);
                    lemma_entries_map(self.known@);
                    assert(self.known@[i as int].0@ == name@);
                }
                return Some(self.known[i].1);
            }
            i = i + 1;
        }
        None
    }

    /// Records `id` as the id of `name`, replacing any id known for it.
    pub fn remember(&mut self, name: String, id: u64)
        ensures
            final(self).known_ids() == old(self).known_ids().insert(name@, id),
    {
        proof {
            use_type_invariant(&*self);
        }
        let mut known: Vec<(String, u64)> = Vec::new();
        std::mem::swap(&mut known, &mut self.known);
        let ghost old_known = known@;
        let mut kept: Vec<(String, u64)> = Vec::new();
        let mut i: usize = 0;
        while i < known.len()
            invariant
                known@ == old_known,
                distinct_names(old_known),
                i <= old_known.len(),
                distinct_names(kept@),
                forall|j: int| 0 <= j < kept@.len() ==> (#[trigger] kept@[j]).0@ != name@,
                entries_map(kept@) == entries_map(old_known.subrange(0, i as int)).remove(name@),
                forall|j: int, k: int| 0 <= j < kept@.len() && i <= k < old_known.len() ==> (#[trigger] kept@[j]).0@
                    != (#[trigger] old_known[k]).0@,
            decreases old_known.len() - i,
        {
            let ghost before = kept@;
            assert(old_known.subrange(0, i + 1).drop_last() =~= old_known.subrange(0, i as int));
            if known[i].0 != name {
                kept.push((known[i].0.clone(), known[i].1));
                assert(kept@.drop_last() =~= before);
                assert(entries_map(kept@) =~= entries_map(old_known.subrange(0, i + 1)).remove(name@));
            } else {
                assert(entries_map(kept@) =~= entries_map(old_known.subrange(0, i + 1)).remove(name@));
            }
            i = i + 1;
        }
        assert(old_known.subrange(0, old_known.len() as int) =~= old_known);
        let ghost kept_before = kept@;
        kept.push((name, id));
        assert(kept@.drop_last() =~= kept_before);
        assert(entries_map(kept@) =~= entries_map(old_known).insert(name@, id));
        self.known = kept;
    }
}

} // verus!
