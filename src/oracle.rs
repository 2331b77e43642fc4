use vstd::prelude::*;
use crate::texel::Rgba;

verus! {

/// The outcome of comparing one readback with the value a conforming driver
/// must produce. A failure carries the bytes that were actually read.
#[derive(Clone, Copy, Debug, PartialEq, Eq, Structural)]
pub enum Verdict {
    Pass,
    Fail(Rgba),
}

/// Byte-exact comparison, with no tolerance.
pub open spec fn verdict_of(actual: Rgba, expected: Rgba) -> Verdict {
    if actual == expected {
        Verdict::Pass
    } else {
        Verdict::Fail(actual)
    }
}

/// What a readback is meant to show. A failed `Sanity` check points at the
/// harness itself (the setup did not take effect); a failed `Defect` check is
/// a finding about the driver.
#[derive(Clone, Copy, Debug, PartialEq, Eq, Structural)]
pub enum CheckKind {
    Sanity,
    Defect,
}

/// A judged readback.
#[derive(Clone, Copy, Debug, PartialEq, Eq, Structural)]
pub struct Finding {
    pub kind: CheckKind,
    pub verdict: Verdict,
}

impl Verdict {
    pub fn is_pass(&self) -> (b: bool)
        ensures
            b == (*self is Pass),
    {
        match self {
            Verdict::Pass => true,
            Verdict::Fail(_) => false,
        }
    }
}

impl Finding {
    /// A failure that says the harness is broken rather than the driver.
    pub fn is_harness_fault(&self) -> (b: bool)
        ensures
            b == (self.kind == CheckKind::Sanity && self.verdict is Fail),
    {
        match self.kind {
            CheckKind::Sanity => !self.verdict.is_pass(),
            CheckKind::Defect => false,
        }
    }

    /// A failure that reports a driver defect.
    pub fn is_defect(&self) -> (b: bool)
        ensures
            b == (self.kind == CheckKind::Defect && self.verdict is Fail),
    {
        match self.kind {
            CheckKind::Sanity => false,
            CheckKind::Defect => !self.verdict.is_pass(),
        }
    }
}

/// Compares a readback with the expected pixel, byte for byte.
pub fn judge(actual: Rgba, expected: Rgba) -> (v: Verdict)
    ensures
        v == verdict_of(actual, expected),
        v is Pass <==> actual == expected,
{
    if actual == expected {
        Verdict::Pass
    } else {
        Verdict::Fail(actual)
    }
}

/// The verdicts for a run of readbacks, pairwise with their expected pixels.
pub open spec fn verdicts_of(actual: Seq<Rgba>, expected: Seq<Rgba>) -> Seq<Verdict> {
    Seq::new(actual.len(), |i: int| verdict_of(actual[i], expected[i]))
}

/// Judges each readback against the pixel expected at the same position.
pub fn judge_all(actual: &Vec<Rgba>, expected: &Vec<Rgba>) -> (v: Vec<Verdict>)
    requires
        actual@.len() == expected@.len(),
    ensures
        v@ == verdicts_of(actual@, expected@),
{
    let mut v: Vec<Verdict> = Vec::new();
    let mut i: usize = 0;
    while i < actual.len()
        invariant
            i <= actual@.len(),
            actual@.len() == expected@.len(),
            v@ == verdicts_of(actual@, expected@).take(i as int),
        decreases actual@.len() - i,
    {
        let one = judge(actual[i], expected[i]);
        v.push(one);
        assert(v@ =~= verdicts_of(actual@, expected@).take(i + 1));
        i = i + 1;
    }
    assert(v@ =~= verdicts_of(actual@, expected@));
    v
}

} // verus!
