//! A set of native keys.
use vstd::prelude::*;

verus! {

/// Whether a word has a bit.
pub open spec fn has_bit(word: u64, bit: u64) -> bool {
    word & (1u64 << bit) != 0
}

/// Native keys, as one bit for each of the 256 codes.
#[derive(Debug, Clone, Copy)]
pub struct KeySet {
    words: [u64; 4],
}

impl View for KeySet {
    type V = Set<u32>;

    closed spec fn view(&self) -> Set<u32> {
        Set::new(
            |key: u32|
                key < 256 && has_bit(self.words@[key as int / 64], (key % 64) as u64),
        )
    }
}

proof fn lemma_set_bit(word: u64, bit: u64, other: u64)
    requires
        bit < 64,
        other < 64,
    ensures
        has_bit(word | (1u64 << bit), other) == (other == bit || has_bit(word, other)),
        has_bit(word & !(1u64 << bit), other) == (other != bit && has_bit(word, other)),
{
    assert(((word | (1u64 << bit)) & (1u64 << other) != 0) == (other == bit || word & (1u64
        << other) != 0)) by (bit_vector)
        requires
            bit < 64,
            other < 64,
    ;
    assert(((word & !(1u64 << bit)) & (1u64 << other) != 0) == (other != bit && word & (1u64
        << other) != 0)) by (bit_vector)
        requires
            bit < 64,
            other < 64,
    ;
}

impl KeySet {
    /// Only the 256 key codes can be in the set.
    pub proof fn lemma_codes(&self, key: u32)
        ensures
            self@.contains(key) ==> key < 256,
    {
    }

    /// The set without keys.
    pub fn empty() -> (r: Self)
        ensures
            r@ == Set::<u32>::empty(),
    {
        let r = KeySet { words: [0, 0, 0, 0] };
        assert forall|key: u32| !r@.contains(key) by {
            if key < 256 {
                let bit = (key % 64) as u64;
                assert(0u64 & (1u64 << bit) == 0) by (bit_vector);
            }
        }
        assert(r@ =~= Set::<u32>::empty());
        r
    }

    /// Whether a key is in the set.
    pub fn contains(&self, key: u32) -> (r: bool)
        ensures
            r == self@.contains(key),
    {
        key < 256 && self.words[(key / 64) as usize] & (1u64 << (key % 64) as u64) != 0
    }

    /// Puts a key into the set or takes it out. Codes beyond the last key are
    /// ignored.
    pub fn record(&mut self, key: u32, present: bool)
        ensures
            final(self)@ == (if key >= 256 {
                old(self)@
            } else if present {
                old(self)@.insert(key)
            } else {
                old(self)@.remove(key)
            }),
    {
        if key < 256 {
            let at: usize = (key / 64) as usize;
            let bit: u64 = (key % 64) as u64;
            let mask: u64 = 1u64 << bit;
            let mut words = self.words;
            let word: u64 = words[at];
            words[at] = if present {
                word | mask
            } else {
                word & !mask
            };
            self.words = words;
            assert forall|other: u32|
                #![trigger self@.contains(other)]
                self@.contains(other) == (if present {
                    old(self)@.insert(key)
                } else {
                    old(self)@.remove(key)
                }).contains(other) by {
                if other < 256 {
                    lemma_set_bit(word, bit, (other % 64) as u64);
                }
            }
            assert(self@ =~= (if present {
                old(self)@.insert(key)
            } else {
                old(self)@.remove(key)
            }));
        }
    }
}

} // verus!
