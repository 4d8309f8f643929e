//! Environment variables: a table from names to values.
use vstd::prelude::*;

verus! {

/// The table that a list of pairs describes: of two pairs with one name the later counts.
pub open spec fn env_of(pairs: Seq<(Seq<char>, Seq<char>)>) -> Map<Seq<char>, Seq<char>>
    decreases pairs.len(),
{
    if pairs.len() == 0 {
        Map::empty()
    } else {
        env_of(pairs.drop_last()).insert(pairs.last().0, pairs.last().1)
    }
}

/// Whether no name stands twice in a list of pairs.
pub open spec fn distinct_names(pairs: Seq<(Seq<char>, Seq<char>)>) -> bool {
    forall|i: int, j: int| 0 <= i < j < pairs.len() ==> pairs[i].0 != pairs[j].0
}

/// Environment variables, each with one value.
#[derive(Debug)]
pub struct EnvMap {
    entries: Vec<(String, String)>,
}

impl EnvMap {
    /// The variables as a list, in the order in which they are kept.
    pub closed spec fn listing(self) -> Seq<(Seq<char>, Seq<char>)> {
        self.entries.deep_view()
    }

    #[verifier::type_invariant]
    spec fn well_formed(self) -> bool {
        distinct_names(self.entries.deep_view())
    }

    /// No variables.
    pub fn new() -> (env: Self)
        ensures
            env.deep_view() == Map::<Seq<char>, Seq<char>>::empty(),
    {
        EnvMap { entries: Vec::new() }
    }

    /// The variables of a list of pairs: of two pairs with one name the later counts.
    pub fn from_pairs(pairs: Vec<(String, String)>) -> (env: Self)
        ensures
            env.deep_view() == env_of(pairs.deep_view()),
    {
        let mut entries: Vec<(String, String)> = Vec::new();
        let ghost all = pairs.deep_view();
        for i in 0..pairs.len()
            invariant
                all == pairs.deep_view(),
                distinct_names(entries.deep_view()),
                env_of(entries.deep_view()) == env_of(all.take(i as int)),
        {
            let ghost before = entries.deep_view();
            let name = pairs[i].0.clone();
            let value = pairs[i].1.clone();
            let ghost pair = (name@, value@);
            let at = position(&entries, &name);
            match at {
                Some(place) => {
                    entries[place] = (name, value);
                    proof {
                        assert(entries.deep_view() =~= before.update(place as int, pair));
                        lemma_update(before, place as int, pair);
                    }
                },
                None => {
                    entries.push((name, value));
                    proof {
                        assert(entries.deep_view() =~= before.push(pair));
                        assert(entries.deep_view().drop_last() =~= before);
                    }
                },
            }
            proof {
                let next = all.take(i + 1);
                assert(next.drop_last() =~= all.take(i as int));
                assert(next.last() == pair);
            }
        }
        proof {
            assert(all.take(pairs.len() as int) =~= all);
        }
        EnvMap { entries }
    }

    /// The variables as pairs, each once, in no particular order.
    pub fn into_pairs(self) -> (pairs: Vec<(String, String)>)
        ensures
            distinct_names(pairs.deep_view()),
            env_of(pairs.deep_view()) == self.deep_view(),
    {
        proof {
            use_type_invariant(&self);
        }
        self.entries
    }
}

impl Clone for EnvMap {
    fn clone(&self) -> (env: Self)
        ensures
            env.deep_view() == self.deep_view(),
    {
        proof {
            use_type_invariant(self);
        }
        let mut entries: Vec<(String, String)> = Vec::new();
        let ghost all = self.entries.deep_view();
        for i in 0..self.entries.len()
            invariant
                all == self.entries.deep_view(),
                entries.deep_view() == all.take(i as int),
        {
            let ghost before = entries.deep_view();
            entries.push((self.entries[i].0.clone(), self.entries[i].1.clone()));
            proof {
                assert(all.take(i + 1) =~= all.take(i as int).push(all[i as int]));
                assert(entries.deep_view() =~= before.push(all[i as int]));
            }
        }
        proof {
            assert(all.take(self.entries.len() as int) =~= all);
        }
        EnvMap { entries }
    }
}

impl DeepView for EnvMap {
    type V = Map<Seq<char>, Seq<char>>;

    open spec fn deep_view(&self) -> Map<Seq<char>, Seq<char>> {
        env_of(self.listing())
    }
}

/// Where a name stands in a list of pairs, if it does.
fn position(entries: &Vec<(String, String)>, name: &String) -> (result: Option<usize>)
    ensures
        match result {
            Some(place) => place < entries.len() && entries[place as int].0@ == name@,
            None => forall|i: int|
                0 <= i < entries.len() ==> (#[trigger] entries.deep_view()[i]).0 != name@,
        },
{
    for i in 0..entries.len()
        invariant
            forall|j: int| 0 <= j < i ==> (#[trigger] entries.deep_view()[j]).0 != name@,
    {
        if entries[i].0 == *name {
            return Some(i);
        }
    }
    None
}

/// Of a list without a name that stands twice, two pairs have two names; any other list has a name
/// that stands twice.
pub proof fn distinct_pairs_have_distinct_names(pairs: Seq<(Seq<char>, Seq<char>)>, i: int, j: int)
    requires
        0 <= i < pairs.len(),
        0 <= j < pairs.len(),
        i != j,
    ensures
        distinct_names(pairs) ==> pairs[i].0 != pairs[j].0,
        !distinct_names(pairs) ==> exists|k: int, l: int|
            0 <= k < l < pairs.len() && (#[trigger] pairs[k]).0 == (#[trigger] pairs[l]).0,
{
}

/// A variable has the value of the last pair with its name.
pub proof fn last_pair_counts(pairs: Seq<(Seq<char>, Seq<char>)>, i: int)
    requires
        0 <= i < pairs.len(),
        forall|j: int| i < j < pairs.len() ==> (#[trigger] pairs[j]).0 != pairs[i].0,
    ensures
        env_of(pairs).contains_key(pairs[i].0),
        env_of(pairs)[pairs[i].0] == pairs[i].1,
    decreases pairs.len(),
{
    if i < pairs.len() - 1 {
        last_pair_counts(pairs.drop_last(), i);
    }
}

/// There are no variables but those that a pair names.
pub proof fn variables_are_named(pairs: Seq<(Seq<char>, Seq<char>)>, name: Seq<char>)
    requires
        forall|i: int| 0 <= i < pairs.len() ==> (#[trigger] pairs[i]).0 != name,
    ensures
        !env_of(pairs).contains_key(name),
    decreases pairs.len(),
{
    if pairs.len() > 0 {
        assert forall|i: int| 0 <= i < pairs.drop_last().len() implies (
        #[trigger] pairs.drop_last()[i]).0 != name by {
            assert(pairs.drop_last()[i] == pairs[i]);
        }
        variables_are_named(pairs.drop_last(), name);
        assert(pairs.last() == pairs[pairs.len() - 1]);
    }
}

/// A pair put in the place of the one with its name acts like one put at the end.
proof fn lemma_update(pairs: Seq<(Seq<char>, Seq<char>)>, place: int, pair: (Seq<char>, Seq<char>))
    requires
        distinct_names(pairs),
        0 <= place < pairs.len(),
        pairs[place].0 == pair.0,
    ensures
        distinct_names(pairs.update(place, pair)),
        env_of(pairs.update(place, pair)) == env_of(pairs).insert(pair.0, pair.1),
    decreases pairs.len(),
{
    let updated = pairs.update(place, pair);
    if place == pairs.len() - 1 {
        assert(updated.drop_last() =~= pairs.drop_last());
        assert(env_of(updated) =~= env_of(pairs).insert(pair.0, pair.1));
    } else {
        lemma_update(pairs.drop_last(), place, pair);
        assert(updated.drop_last() =~= pairs.drop_last().update(place, pair));
        assert(pairs.last().0 != pair.0);
        assert(env_of(updated) =~= env_of(pairs).insert(pair.0, pair.1));
    }
}

} // verus!
