//! The auxiliary vector: what the kernel tells a new process beside its
//! arguments and its environment.

use vstd::prelude::*;

verus! {

/// The key that ends the auxiliary vector.
pub const AT_NULL: usize = 0;

/// The pairs of key and value that `words` hold, up to the first pair whose
/// key is [`AT_NULL`], or up to the last whole pair.
pub open spec fn aux_pairs(words: Seq<usize>) -> Seq<(usize, usize)>
    decreases words.len(),
{
    if words.len() < 2 || words[0] == AT_NULL {
        Seq::empty()
    } else {
        seq![(words[0], words[1])] + aux_pairs(words.skip(2))
    }
}

/// The value that `pairs` give for `key`: that of the first pair with this key.
pub open spec fn aux_lookup(pairs: Seq<(usize, usize)>, key: usize) -> Option<usize>
    decreases pairs.len(),
{
    if pairs.len() == 0 {
        None
    } else if pairs[0].0 == key {
        Some(pairs[0].1)
    } else {
        aux_lookup(pairs.drop_first(), key)
    }
}

/// The auxiliary vector: what the kernel tells the process beside arguments
/// and environment, as pairs of key and value. It is parsed once and only
/// read after that.
#[derive(Clone, Debug)]
pub struct AuxiliaryVector {
    entries: Vec<(usize, usize)>,
}

impl View for AuxiliaryVector {
    type V = Seq<(usize, usize)>;

    closed spec fn view(&self) -> Seq<(usize, usize)> {
        self.entries@
    }
}

impl AuxiliaryVector {
    /// Reads the pairs from the words behind the environment.
    pub fn parse(words: &[usize]) -> (auxv: AuxiliaryVector)
        ensures
            auxv@ == aux_pairs(words@),
    {
        let mut entries: Vec<(usize, usize)> = Vec::new();
        let mut i: usize = 0;
        assert(words@.skip(0) =~= words@);
        assert(entries@ + aux_pairs(words@) =~= aux_pairs(words@));
        while i < words.len() && words.len() - i >= 2 && words[i] != AT_NULL
            invariant
                i <= words@.len(),
                entries@ + aux_pairs(words@.skip(i as int)) == aux_pairs(words@),
            decreases words@.len() - i,
        {
            proof {
                let rest = words@.skip(i as int);
                assert(rest.skip(2) =~= words@.skip(i + 2));
                assert(entries@.push((words@[i as int], words@[i + 1])) + aux_pairs(rest.skip(2))
                    =~= entries@ + aux_pairs(rest));
            }
            entries.push((words[i], words[i + 1]));
            i += 2;
        }
        assert(aux_pairs(words@.skip(i as int)) =~= Seq::empty());
        assert(entries@ + Seq::<(usize, usize)>::empty() =~= entries@);
        AuxiliaryVector { entries }
    }

    /// The number of pairs.
    pub fn len(&self) -> (n: usize)
        ensures
            n == self@.len(),
    {
        self.entries.len()
    }

    /// The value under `key`, if the vector has one.
    pub fn get(&self, key: usize) -> (value: Option<usize>)
        ensures
            value == aux_lookup(self@, key),
    {
        let mut i: usize = 0;
        assert(self.entries@.skip(0) =~= self.entries@);
        while i < self.entries.len()
            invariant
                i <= self.entries@.len(),
                aux_lookup(self.entries@, key) == aux_lookup(self.entries@.skip(i as int), key),
            decreases self.entries@.len() - i,
        {
            if self.entries[i].0 == key {
                return Some(self.entries[i].1);
            }
            assert(self.entries@.skip(i as int).drop_first() =~= self.entries@.skip(i + 1));
            i += 1;
        }
        None
    }
}

} // verus!
