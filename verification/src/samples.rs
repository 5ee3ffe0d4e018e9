//! The sample set handed to the engine: a flat buffer of concatenated sample
//! documents together with the length of each sample.
//!
//! The engine walks the buffer by the length sequence, so the two must agree
//! exactly: the buffer's length must equal the sum of the recorded sizes.
//! That consistency is checked here, eagerly, before any engine call.

use vstd::prelude::*;

verus! {

/// The sum of a sequence of sample sizes, as a mathematical integer.
pub open spec fn sum_sizes(sizes: Seq<usize>) -> int
    decreases sizes.len(),
{
    if sizes.len() == 0 {
        0
    } else {
        sum_sizes(sizes.drop_last()) + sizes.last()
    }
}

/// Extending a prefix by one element adds exactly that element to its sum.
proof fn lemma_sum_sizes_take_step(sizes: Seq<usize>, i: int)
    requires
        0 <= i < sizes.len(),
    ensures
        sum_sizes(sizes.take(i + 1)) == sum_sizes(sizes.take(i)) + sizes[i],
{
    let extended = sizes.take(i + 1);
    assert(extended.drop_last() =~= sizes.take(i));
    assert(extended.last() == sizes[i]);
}

/// Prefix sums never decrease: the sizes are unsigned.
proof fn lemma_sum_sizes_take_monotonic(sizes: Seq<usize>, i: int, j: int)
    requires
        0 <= i <= j <= sizes.len(),
    ensures
        sum_sizes(sizes.take(i)) <= sum_sizes(sizes.take(j)),
    decreases j - i,
{
    if i < j {
        lemma_sum_sizes_take_step(sizes, j - 1);
        lemma_sum_sizes_take_monotonic(sizes, i, j - 1);
    }
}

/// Sum the sample sizes, reporting `None` when the true sum does not fit in
/// `usize` (in which case it cannot possibly equal any buffer length).
pub fn checked_sum(sizes: &[usize]) -> (r: Option<usize>)
    ensures
        match r {
            Some(total) => total == sum_sizes(sizes@),
            None => sum_sizes(sizes@) > usize::MAX,
        },
{
    let mut total: usize = 0;
    let mut i: usize = 0;
    while i < sizes.len()
        invariant
            i <= sizes@.len(),
            total == sum_sizes(sizes@.take(i as int)),
        decreases sizes@.len() - i,
    {
        let size = sizes[i];
        proof {
            lemma_sum_sizes_take_step(sizes@, i as int);
        }
        match total.checked_add(size) {
            Some(t) => {
                total = t;
            },
            None => {
                proof {
                    lemma_sum_sizes_take_monotonic(sizes@, i as int + 1, sizes@.len() as int);
                    assert(sizes@.take(sizes@.len() as int) =~= sizes@);
                }
                return None;
            },
        }
        i = i + 1;
    }
    proof {
        assert(sizes@.take(sizes@.len() as int) =~= sizes@);
    }
    Some(total)
}

/// Decide whether a flat sample buffer and a size sequence form a consistent
/// sample set: the buffer's length equals the sum of the sizes.
pub fn sample_set_consistent(samples: &[u8], sizes: &[usize]) -> (r: bool)
    ensures
        r == (samples@.len() == sum_sizes(sizes@)),
{
    let buffer_len = samples.len();
    match checked_sum(sizes) {
        Some(total) => buffer_len == total,
        None => false,
    }
}

/// A validated sample set: the concatenated sample documents and their
/// individual lengths, known to agree.  Every value of this type satisfies
/// `wf`, because construction rejects mismatched inputs before any engine
/// call could see them.
pub struct SampleSet {
    samples: Vec<u8>,
    sizes: Vec<usize>,
}

impl SampleSet {
    /// The concatenated sample bytes.
    pub closed spec fn samples_spec(self) -> Seq<u8> {
        self.samples@
    }

    /// The recorded length of each sample, in order.
    pub closed spec fn sizes_spec(self) -> Seq<usize> {
        self.sizes@
    }

    /// The sample-set invariant: the flat buffer holds exactly as many bytes
    /// as the size sequence accounts for.
    pub open spec fn wf(self) -> bool {
        self.samples_spec().len() == sum_sizes(self.sizes_spec())
    }

    /// Build a sample set, rejecting inputs whose buffer length does not
    /// equal the sum of the sizes.  Succeeds exactly on consistent inputs.
    pub fn new(samples: Vec<u8>, sizes: Vec<usize>) -> (r: Option<SampleSet>)
        ensures
            r is Some <==> samples@.len() == sum_sizes(sizes@),
            r is Some ==> r->0.samples_spec() == samples@ && r->0.sizes_spec() == sizes@
                && r->0.wf(),
    {
        if sample_set_consistent(samples.as_slice(), sizes.as_slice()) {
            Some(SampleSet { samples, sizes })
        } else {
            None
        }
    }

    /// The flat buffer of concatenated samples.
    pub fn samples(&self) -> (r: &Vec<u8>)
        ensures
            r@ == self.samples_spec(),
    {
        &self.samples
    }

    /// The per-sample length sequence.
    pub fn sizes(&self) -> (r: &Vec<usize>)
        ensures
            r@ == self.sizes_spec(),
    {
        &self.sizes
    }

    /// The number of samples, in the engine's count representation; a count
    /// beyond `u32::MAX` wraps, exactly as the cast in the contract states.
    pub fn sample_count(&self) -> (r: u32)
        ensures
            r == self.sizes_spec().len() as u32,
    {
        #[verifier::truncate]
        let count = self.sizes.len() as u32;
        count
    }
}

} // verus!
