use vstd::prelude::*;

verus! {

/// One sample: input text and expected output text.
pub struct SampleCase {
    pub input: String,
    pub output: String,
}

/// Problem data handed back by the problem source.
pub struct Problem {
    pub memory_limit: u64,
    pub time_limit: u64,
    pub tests: Vec<SampleCase>,
}

/// Contents to write at one sample index.
pub struct SampleWrite {
    pub index: u64,
    pub input: String,
    pub output: String,
}

/// `w` writes the samples `tests` at indices `1..=tests.len()`, in order.
pub open spec fn is_sample_plan(tests: Seq<SampleCase>, w: Seq<SampleWrite>) -> bool {
    &&& w.len() == tests.len()
    &&& forall|j: int|
        0 <= j < w.len() ==> {
            &&& #[trigger] w[j].index == j + 1
            &&& w[j].input@ == tests[j].input@
            &&& w[j].output@ == tests[j].output@
        }
}

impl Problem {
    /// The writes that materialize the samples: the i-th sample (from 1) goes
    /// to index i, over whatever is there; no other index is touched.
    pub fn dump_samples(&self) -> (r: Vec<SampleWrite>)
        requires
            self.tests@.len() < u64::MAX,
        ensures
            is_sample_plan(self.tests@, r@),
    {
        let mut plan: Vec<SampleWrite> = Vec::new();
        let mut i: usize = 0;
        while i < self.tests.len()
            invariant
                i <= self.tests@.len(),
                self.tests@.len() < u64::MAX,
                is_sample_plan(self.tests@.subrange(0, i as int), plan@),
            decreases self.tests@.len() - i,
        {
            let t = &self.tests[i];
            plan.push(
                SampleWrite { index: (i + 1) as u64, input: t.input.clone(), output: t.output.clone() },
            );
            i = i + 1;
            assert(self.tests@.subrange(0, i as int) =~= self.tests@.subrange(0, i - 1).push(
                self.tests@[i - 1],
            ));
        }
        assert(self.tests@.subrange(0, i as int) =~= self.tests@);
        plan
    }
}

/// Materializing writes exactly the indices `1..=N` of `N` samples: a sample
/// at a later index is left untouched.
pub proof fn materialize_index_range(tests: Seq<SampleCase>, w: Seq<SampleWrite>, k: int)
    requires
        is_sample_plan(tests, w),
    ensures
        (exists|j: int| 0 <= j < w.len() && w[j].index == k) <==> 1 <= k <= tests.len(),
{
    if 1 <= k <= tests.len() {
        assert(w[k - 1].index == k);
    }
}

} // verus!
