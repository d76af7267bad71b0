//! Whole-sequence and in-place application of the window evaluator.
use vstd::prelude::*;

use crate::window::{evaluate_window, window_value};

verus! {

/// The sentinel pair written before and after a sequence: `MAX, MIN`.
pub open spec fn sentinels() -> Seq<i32> {
    seq![i32::MAX, i32::MIN]
}

/// A sequence with two sentinels on each side; its length is `x.len() + 4`.
pub open spec fn padded(x: Seq<i32>) -> Seq<i32> {
    sentinels() + x + sentinels()
}

/// The value of the window that starts at `i` of `p` (its centre is `p[i + 2]`).
pub open spec fn window_at(p: Seq<i32>, i: int) -> i32 {
    window_value(p[i], p[i + 1], p[i + 2], p[i + 3], p[i + 4])
}

/// The cleaned signal: each sample replaced by the value of its window in
/// the padded sequence.
pub open spec fn cleaned(x: Seq<i32>) -> Seq<i32> {
    Seq::new(x.len(), |i: int| window_at(padded(x), i))
}

/// Indexing into the padded sequence.
pub proof fn lemma_padded_index(x: Seq<i32>, j: int)
    requires
        0 <= j < x.len() + 4,
    ensures
        padded(x).len() == x.len() + 4,
        j == 0 ==> padded(x)[j] == i32::MAX,
        j == 1 ==> padded(x)[j] == i32::MIN,
        2 <= j < x.len() + 2 ==> padded(x)[j] == x[j - 2],
        j == x.len() + 2 ==> padded(x)[j] == i32::MAX,
        j == x.len() + 3 ==> padded(x)[j] == i32::MIN,
{
}

/// Returns the cleaned copy of `data`: sample `i` of the result is the value
/// of the window `padded[i..i + 5]`.
pub fn clean_data(data: &[i32]) -> (r: Vec<i32>)
    ensures
        r@ == cleaned(data@),
{
    let n = data.len();
    let mut data_copy: Vec<i32> = Vec::new();
    data_copy.push(i32::MAX);
    data_copy.push(i32::MIN);
    let mut i: usize = 0;
    while i < n
        invariant
            n == data@.len(),
            i <= n,
            data_copy@ == sentinels() + data@.subrange(0, i as int),
        decreases n - i,
    {
        data_copy.push(data[i]);
        i = i + 1;
        assert(data_copy@ =~= sentinels() + data@.subrange(0, i as int));
    }
    data_copy.push(i32::MAX);
    data_copy.push(i32::MIN);
    assert(data@.subrange(0, n as int) =~= data@);
    assert(data_copy@ =~= padded(data@));
    let len = data_copy.len();
    let mut out: Vec<i32> = Vec::new();
    let mut i: usize = 0;
    while i < n
        invariant
            n == data@.len(),
            len == n + 4,
            data_copy@ == padded(data@),
            i <= n,
            out@.len() == i,
            forall|k: int| 0 <= k < i ==> out@[k] == window_at(padded(data@), k),
        decreases n - i,
    {
        let v = evaluate_window(
            data_copy[i],
            data_copy[i + 1],
            data_copy[i + 2],
            data_copy[i + 3],
            data_copy[i + 4],
        );
        out.push(v);
        i = i + 1;
    }
    assert(out@ =~= cleaned(data@));
    out
}

/// Cleans `data` in place, using `working_buffer` for the padded copy so that
/// no allocation takes place.  Only `data` is meaningful afterwards.
pub fn clean_data_in_place(data: &mut [i32], working_buffer: &mut [i32])
    requires
        old(working_buffer)@.len() >= old(data)@.len() + 4,
    ensures
        final(data)@ == cleaned(old(data)@),
        final(working_buffer)@.len() == old(working_buffer)@.len(),
{
    let n = data.len();
    let wlen = working_buffer.len();
    let ghost input = data@;
    working_buffer[0] = i32::MAX;
    working_buffer[1] = i32::MIN;
    let mut i: usize = 0;
    while i < n
        invariant
            n == data@.len(),
            data@ == input,
            working_buffer@.len() == wlen,
            wlen >= n + 4,
            i <= n,
            working_buffer@.subrange(0, i + 2) == sentinels() + input.subrange(0, i as int),
        decreases n - i,
    {
        let ghost before = working_buffer@;
        working_buffer[i + 2] = data[i];
        assert(working_buffer@.subrange(0, i + 2) =~= before.subrange(0, i + 2));
        i = i + 1;
        assert(working_buffer@.subrange(0, i + 2) =~= sentinels() + input.subrange(0, i as int));
    }
    working_buffer[n + 2] = i32::MAX;
    working_buffer[n + 3] = i32::MIN;
    assert(input.subrange(0, n as int) =~= input);
    let ghost p = working_buffer@.subrange(0, n + 4);
    assert(p =~= padded(input));
    let mut i: usize = 0;
    while i < n
        invariant
            n == data@.len(),
            n == input.len(),
            working_buffer@.len() == wlen,
            wlen >= n + 4,
            working_buffer@.subrange(0, n + 4) == padded(input),
            i <= n,
            forall|k: int| 0 <= k < i ==> data@[k] == window_at(padded(input), k),
        decreases n - i,
    {
        proof {
            assert(working_buffer@.subrange(0, n + 4)[i + 4] == working_buffer@[i + 4]);
        }
        let v = evaluate_window(
            working_buffer[i],
            working_buffer[i + 1],
            working_buffer[i + 2],
            working_buffer[i + 3],
            working_buffer[i + 4],
        );
        data[i] = v;
        i = i + 1;
    }
    assert(data@ =~= cleaned(input));
}

/// A streaming cleaner: owns a scratch buffer sized once for the largest
/// block it will be handed, and cleans each block in place without
/// allocating.
pub struct BlockCleaner {
    working_buffer: Vec<i32>,
}

impl BlockCleaner {
    /// The largest block length that the scratch buffer can take.
    pub closed spec fn max_block_size(&self) -> nat {
        (self.working_buffer@.len() - 4) as nat
    }

    /// The scratch buffer holds at least the two pairs of sentinels.
    pub closed spec fn wf(&self) -> bool {
        self.working_buffer@.len() >= 4
    }

    /// A cleaner whose scratch buffer takes blocks of up to `max_block_size` samples.
    pub fn new(max_block_size: usize) -> (r: Self)
        requires
            max_block_size + 4 <= usize::MAX,
        ensures
            r.wf(),
            r.max_block_size() == max_block_size,
    {
        let target: usize = max_block_size + 4;
        let mut working_buffer: Vec<i32> = Vec::new();
        while working_buffer.len() < target
            invariant
                working_buffer@.len() <= target,
            decreases target - working_buffer@.len(),
        {
            working_buffer.push(0);
        }
        BlockCleaner { working_buffer }
    }

    /// Cleans one block in place; the block is padded on its own, so samples
    /// near its edges see sentinels rather than the neighbouring blocks.
    pub fn clean_block(&mut self, data: &mut [i32])
        requires
            old(self).wf(),
            old(data)@.len() <= old(self).max_block_size(),
        ensures
            final(self).wf(),
            final(self).max_block_size() == old(self).max_block_size(),
            final(data)@ == cleaned(old(data)@),
    {
        clean_data_in_place(data, self.working_buffer.as_mut_slice());
    }
}

} // verus!
