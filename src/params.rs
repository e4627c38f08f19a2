//! The parameter block: a fixed layout of 32-bit words (the bit patterns of
//! the shader's scalars) that only user edit requests change, a whole
//! request at a time and between frames.
use vstd::prelude::*;

verus! {

/// One edited field: the word at `index` gets `bits`.
#[derive(Clone, Copy, Debug, PartialEq, Eq, Structural)]
pub struct ParamEdit {
    pub index: usize,
    pub bits: u32,
}

/// Why a request's edits were refused.
#[derive(Clone, Copy, Debug, PartialEq, Eq, Structural)]
pub enum ParamError {
    /// An edit names a word past the end of the block.
    OutOfRange,
}

/// `words` after `edits`, applied in order (a later edit of a word wins).
pub open spec fn edited(words: Seq<u32>, edits: Seq<ParamEdit>) -> Seq<u32>
    decreases edits.len(),
{
    if edits.len() == 0 {
        words
    } else {
        let e = edits.last();
        edited(words, edits.drop_last()).update(e.index as int, e.bits)
    }
}

/// Whether every edit names a word of a block of `len` words.
pub open spec fn edits_in_range(edits: Seq<ParamEdit>, len: nat) -> bool {
    forall|i: int| 0 <= i < edits.len() ==> (#[trigger] edits[i]).index < len
}

proof fn lemma_edited_len(words: Seq<u32>, edits: Seq<ParamEdit>)
    requires
        edits_in_range(edits, words.len()),
    ensures
        edited(words, edits).len() == words.len(),
    decreases edits.len(),
{
    if edits.len() > 0 {
        let rest = edits.drop_last();
        assert forall|i: int| 0 <= i < rest.len() implies (#[trigger] rest[i]).index < words.len() by {
            assert(rest[i] == edits[i]);
        }
        lemma_edited_len(words, rest);
        assert(edits[edits.len() - 1].index < words.len());
    }
}

/// The words of a parameter block, uploaded as they are.
#[derive(Clone, Debug)]
pub struct ParameterBlock {
    pub words: Vec<u32>,
}

impl ParameterBlock {
    /// A block holding `words`.
    pub fn new(words: Vec<u32>) -> (r: ParameterBlock)
        ensures
            r.words@ == words@,
    {
        ParameterBlock { words }
    }

    /// Applies the edits of one request: all of them, in order, or, if one
    /// names a word past the end, none.
    pub fn apply_edits(&mut self, edits: &[ParamEdit]) -> (r: Result<(), ParamError>)
        ensures
            r is Ok <==> edits_in_range(edits@, old(self).words@.len()),
            r is Ok ==> final(self).words@ == edited(old(self).words@, edits@),
            r is Err ==> r == Err::<(), ParamError>(ParamError::OutOfRange) && final(self).words@ == old(
                self,
            ).words@,
    {
        let n = self.words.len();
        let mut i: usize = 0;
        while i < edits.len()
            invariant
                i <= edits@.len(),
                n == self.words@.len(),
                self.words@ == old(self).words@,
                forall|k: int| 0 <= k < i ==> (#[trigger] edits@[k]).index < n,
            decreases edits@.len() - i,
        {
            if edits[i].index >= n {
                return Err(ParamError::OutOfRange);
            }
            i = i + 1;
        }
        let ghost start = self.words@;
        let mut j: usize = 0;
        while j < edits.len()
            invariant
                j <= edits@.len(),
                edits_in_range(edits@, n as nat),
                n == start.len(),
                self.words@ == edited(start, edits@.subrange(0, j as int)),
            decreases edits@.len() - j,
        {
            let e = edits[j];
            proof {
                let done = edits@.subrange(0, j as int);
                assert forall|k: int| 0 <= k < done.len() implies (#[trigger] done[k]).index < start.len() by {
                    assert(done[k] == edits@[k]);
                }
                lemma_edited_len(start, done);
                assert(edits@[j as int] == e);
                assert(edits@.subrange(0, j + 1).drop_last() =~= edits@.subrange(0, j as int));
                assert(edits@.subrange(0, j + 1).last() == e);
            }
            self.words.set(e.index, e.bits);
            j = j + 1;
        }
        proof {
            assert(edits@.subrange(0, edits@.len() as int) =~= edits@);
        }
        Ok(())
    }
}

} // verus!
