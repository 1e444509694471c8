//! Texts as sequences of characters, and their concatenation.

use vstd::prelude::*;
use vstd::string::StringExecFns;

verus! {

/// The texts of a sequence of strings.
pub open spec fn texts(strings: Seq<String>) -> Seq<Seq<char>> {
    strings.map_values(|string: String| string@)
}

/// The parts written one after another, with nothing between them.
pub open spec fn concat(parts: Seq<Seq<char>>) -> Seq<char>
    decreases parts.len(),
{
    if parts.len() == 0 {
        Seq::empty()
    } else {
        concat(parts.drop_last()) + parts.last()
    }
}

/// Concatenation keeps the order of the parts and puts nothing between them: the
/// concatenation of two runs of parts is the concatenation of the first run followed
/// by that of the second.
pub proof fn lemma_concat_append(first: Seq<Seq<char>>, second: Seq<Seq<char>>)
    ensures
        concat(first + second) == concat(first) + concat(second),
    decreases second.len(),
{
    if second.len() == 0 {
        assert(first + second =~= first);
    } else {
        assert((first + second).drop_last() =~= first + second.drop_last());
        lemma_concat_append(first, second.drop_last());
    }
}

/// A single part is its own concatenation, and two parts concatenate to the first
/// directly followed by the second.
pub proof fn lemma_concat_small(first: Seq<char>, second: Seq<char>)
    ensures
        concat(seq![first]) == first,
        concat(seq![first, second]) == first + second,
{
    reveal_with_fuel(concat, 3);
    assert(seq![first].drop_last() =~= Seq::<Seq<char>>::empty());
    assert(seq![first, second].drop_last() =~= seq![first]);
    assert(Seq::<char>::empty() + first =~= first);
}

/// Concatenation is what `Seq::flatten` computes.
pub proof fn lemma_concat_is_flatten(parts: Seq<Seq<char>>)
    ensures
        concat(parts) == parts.flatten(),
    decreases parts.len(),
{
    parts.lemma_flatten_and_flatten_alt_are_equivalent();
    if parts.len() > 0 {
        lemma_concat_is_flatten(parts.drop_last());
        parts.drop_last().lemma_flatten_and_flatten_alt_are_equivalent();
    }
}

/// Writes the parts one after another into one string.
pub fn join(parts: &Vec<String>) -> (joined: String)
    ensures
        joined@ == concat(texts(parts@)),
{
    let mut joined = String::new();
    let mut i: usize = 0;
    assert(texts(parts@).take(0) =~= Seq::empty());
    while i < parts.len()
        invariant
            i <= parts.len(),
            joined@ == concat(texts(parts@).take(i as int)),
        decreases parts.len() - i,
    {
        proof {
            let next = texts(parts@).take(i + 1);
            assert(next.drop_last() =~= texts(parts@).take(i as int));
            assert(next.last() == parts@[i as int]@);
        }
        joined.append(parts[i].as_str());
        i += 1;
    }
    assert(texts(parts@).take(parts.len() as int) =~= texts(parts@));
    joined
}

} // verus!
