//! Name and value pairs kept in a vector, read as a mapping from names to
//! values in which a later pair overrides an earlier one of the same name.

use vstd::prelude::*;
use vstd::string::*;

verus! {

/// The mapping that a sequence of pairs stands for.
pub open spec fn pairs_map(pairs: Seq<(String, String)>) -> Map<Seq<char>, Seq<char>>
    decreases pairs.len(),
{
    if pairs.len() == 0 {
        Map::empty()
    } else {
        pairs_map(pairs.drop_last()).insert(pairs.last().0@, pairs.last().1@)
    }
}

/// No name occurs in two pairs.
pub open spec fn distinct_keys(pairs: Seq<(String, String)>) -> bool {
    forall|i: int, j: int| 0 <= i < j < pairs.len() ==> pairs[i].0@ != pairs[j].0@
}

/// A name is mapped exactly when some pair carries it.
pub proof fn lemma_pairs_map_dom(pairs: Seq<(String, String)>, key: Seq<char>)
    ensures
        pairs_map(pairs).dom().contains(key) <==> exists|i: int|
            0 <= i < pairs.len() && pairs[i].0@ == key,
    decreases pairs.len(),
{
    if pairs.len() > 0 {
        let front = pairs.drop_last();
        lemma_pairs_map_dom(front, key);
        if pairs_map(pairs).dom().contains(key) {
            if pairs.last().0@ == key {
                assert(pairs[pairs.len() - 1].0@ == key);
            } else {
                let i = choose|i: int| 0 <= i < front.len() && front[i].0@ == key;
                assert(pairs[i].0@ == key);
            }
        }
        if exists|i: int| 0 <= i < pairs.len() && pairs[i].0@ == key {
            let i = choose|i: int| 0 <= i < pairs.len() && pairs[i].0@ == key;
            if i < front.len() {
                assert(front[i].0@ == key);
            }
        }
    }
}

/// The last pair that carries a name gives the name's value.
pub proof fn lemma_pairs_map_last(pairs: Seq<(String, String)>, i: int)
    requires
        0 <= i < pairs.len(),
        forall|j: int| i < j < pairs.len() ==> pairs[j].0@ != pairs[i].0@,
    ensures
        pairs_map(pairs).dom().contains(pairs[i].0@),
        pairs_map(pairs)[pairs[i].0@] == pairs[i].1@,
    decreases pairs.len(),
{
    if i < pairs.len() - 1 {
        let front = pairs.drop_last();
        assert(front[i] == pairs[i]);
        assert forall|j: int| i < j < front.len() implies front[j].0@ != front[i].0@ by {
            assert(front[j] == pairs[j]);
        }
        lemma_pairs_map_last(front, i);
    }
}

/// Adding a pair at the end maps its name to its value.
pub proof fn lemma_pairs_map_push(pairs: Seq<(String, String)>, pair: (String, String))
    ensures
        pairs_map(pairs.push(pair)) == pairs_map(pairs).insert(pair.0@, pair.1@),
{
    assert(pairs.push(pair).drop_last() =~= pairs);
}

/// Replacing the last pair that carries a name by a pair of the same name
/// maps the name to the new value and changes nothing else.
pub proof fn lemma_pairs_map_update(pairs: Seq<(String, String)>, i: int, pair: (String, String))
    requires
        0 <= i < pairs.len(),
        pair.0@ == pairs[i].0@,
        forall|j: int| i < j < pairs.len() ==> pairs[j].0@ != pair.0@,
    ensures
        pairs_map(pairs.update(i, pair)) == pairs_map(pairs).insert(pair.0@, pair.1@),
        distinct_keys(pairs) ==> distinct_keys(pairs.update(i, pair)),
    decreases pairs.len(),
{
    let updated = pairs.update(i, pair);
    let front = pairs.drop_last();
    if i == pairs.len() - 1 {
        assert(updated.drop_last() =~= front);
        assert(pairs_map(updated) =~= pairs_map(pairs).insert(pair.0@, pair.1@));
    } else {
        assert(front[i] == pairs[i]);
        assert forall|j: int| i < j < front.len() implies front[j].0@ != pair.0@ by {
            assert(front[j] == pairs[j]);
        }
        lemma_pairs_map_update(front, i, pair);
        assert(updated.drop_last() =~= front.update(i, pair));
        assert(updated.last() == pairs.last());
        assert(pairs.last().0@ != pair.0@);
        assert(pairs_map(updated) =~= pairs_map(pairs).insert(pair.0@, pair.1@));
    }
}

/// Sets the value of `key`: in place of the last pair that carries the name,
/// else in a new pair at the end.
pub fn insert_pair(pairs: &mut Vec<(String, String)>, key: String, value: String)
    ensures
        pairs_map(final(pairs)@) == pairs_map(old(pairs)@).insert(key@, value@),
        distinct_keys(old(pairs)@) ==> distinct_keys(final(pairs)@),
        final(pairs)@.len() == if pairs_map(old(pairs)@).dom().contains(key@) {
            old(pairs)@.len()
        } else {
            old(pairs)@.len() + 1
        },
{
    let mut i: usize = pairs.len();
    while i > 0
        invariant
            i <= pairs.len(),
            pairs@ == old(pairs)@,
            forall|j: int| i <= j < pairs.len() ==> pairs@[j].0@ != key@,
        decreases i,
    {
        i -= 1;
        if pairs[i].0 == key {
            proof {
                lemma_pairs_map_update(pairs@, i as int, (key, value));
                lemma_pairs_map_dom(pairs@, key@);
            }
            pairs.set(i, (key, value));
            return ;
        }
    }
    proof {
        lemma_pairs_map_push(pairs@, (key, value));
        lemma_pairs_map_dom(pairs@, key@);
    }
    pairs.push((key, value));
}

/// The value that the pairs give to `key`.
pub fn lookup(pairs: &Vec<(String, String)>, key: &str) -> (value: Option<String>)
    ensures
        match value {
            Some(v) => pairs_map(pairs@).dom().contains(key@) && pairs_map(pairs@)[key@] == v@,
            None => !pairs_map(pairs@).dom().contains(key@),
        },
{
    let wanted = String::from_str(key);
    let mut i: usize = pairs.len();
    while i > 0
        invariant
            i <= pairs.len(),
            wanted@ == key@,
            forall|j: int| i <= j < pairs.len() ==> pairs@[j].0@ != key@,
        decreases i,
    {
        i -= 1;
        if pairs[i].0 == wanted {
            proof {
                lemma_pairs_map_last(pairs@, i as int);
            }
            return Some(pairs[i].1.clone());
        }
    }
    proof {
        lemma_pairs_map_dom(pairs@, key@);
    }
    None
}

/// A copy of the pairs, each name and value as it was.
pub fn clone_pairs(pairs: &Vec<(String, String)>) -> (copy: Vec<(String, String)>)
    ensures
        copy@.len() == pairs@.len(),
        forall|i: int| 0 <= i < pairs@.len() ==> copy@[i].0@ == pairs@[i].0@ && copy@[i].1@ == pairs@[i].1@,
        pairs_map(copy@) == pairs_map(pairs@),
        distinct_keys(pairs@) ==> distinct_keys(copy@),
{
    let mut copy: Vec<(String, String)> = Vec::new();
    let mut i: usize = 0;
    while i < pairs.len()
        invariant
            i <= pairs.len(),
            copy@.len() == i,
            forall|j: int| 0 <= j < i ==> copy@[j].0@ == pairs@[j].0@ && copy@[j].1@ == pairs@[j].1@,
            pairs_map(copy@) == pairs_map(pairs@.take(i as int)),
        decreases pairs.len() - i,
    {
        let key = pairs[i].0.clone();
        let value = pairs[i].1.clone();
        proof {
            lemma_pairs_map_push(copy@, (key, value));
            assert(pairs@.take(i + 1).drop_last() =~= pairs@.take(i as int));
        }
        copy.push((key, value));
        i += 1;
    }
    proof {
        assert(pairs@.take(i as int) =~= pairs@);
    }
    copy
}

} // verus!
