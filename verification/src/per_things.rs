//! Parts-per-million fractions, computed with `sp_runtime::Permill`.

use vstd::prelude::*;

verus! {

/// Parts in one whole.
pub const PERMILL_ACCURACY: u32 = 1_000_000;

/// The parts of `p * q` for two fractions given by their parts: the product
/// divided by one million, rounded down.
pub open spec fn mul_parts(p: u32, q: u32) -> u32 {
    ((p as int * q as int) / 1_000_000) as u32
}

/// The parts of a percentage: capped at one hundred percent.
pub open spec fn percent_parts(x: u32) -> u32 {
    if x > 100 { 1_000_000 } else { (x * 10_000) as u32 }
}

/// `Permill::from_percent(x).deconstruct()`.
/// Claimed: the parts are `min(x, 100) * 10_000`.
#[verifier::external_body]
fn sp_from_percent(x: u32) -> (r: u32)
    ensures
        r == percent_parts(x),
{
    sp_runtime::Permill::from_percent(x).deconstruct()
}

/// `Permill * Permill` on fractions given by their parts.
/// Claimed: the parts of the product are `p * q / 1_000_000`, rounded down.
#[verifier::external_body]
fn sp_mul(p: u32, q: u32) -> (r: u32)
    requires
        p <= 1_000_000,
        q <= 1_000_000,
    ensures
        r == mul_parts(p, q),
{
    (sp_runtime::Permill::from_parts(p) * sp_runtime::Permill::from_parts(q)).deconstruct()
}

/// `Permill - Permill` on fractions given by their parts.
/// Claimed: the parts of the difference are `p - q` (the subtraction overflows when `q > p`).
#[verifier::external_body]
fn sp_sub(p: u32, q: u32) -> (r: u32)
    requires
        q <= p <= 1_000_000,
    ensures
        r == p - q,
{
    (sp_runtime::Permill::from_parts(p) - sp_runtime::Permill::from_parts(q)).deconstruct()
}

/// `Permill::from_parts(p).deconstruct()`.
/// Claimed: the parts are `p` capped at one million.
#[verifier::external_body]
fn sp_from_parts(p: u32) -> (r: u32)
    ensures
        r == (if p > 1_000_000 { 1_000_000 } else { p }),
{
    sp_runtime::Permill::from_parts(p).deconstruct()
}

pub proof fn lemma_mul_parts_le(p: u32, q: u32)
    requires
        p <= 1_000_000,
        q <= 1_000_000,
    ensures
        mul_parts(p, q) <= q,
        mul_parts(p, q) <= p,
{
    assert((p as int * q as int) / 1_000_000 <= q as int) by (nonlinear_arith)
        requires
            0 <= p <= 1_000_000,
            0 <= q <= 1_000_000,
    ;
    assert((p as int * q as int) / 1_000_000 <= p as int) by (nonlinear_arith)
        requires
            0 <= p <= 1_000_000,
            0 <= q <= 1_000_000,
    ;
    assert((p as int * q as int) / 1_000_000 >= 0) by (nonlinear_arith)
        requires
            0 <= p <= 1_000_000,
            0 <= q <= 1_000_000,
    ;
}

/// A fraction in parts per million, never above one whole.
#[derive(Clone, Copy, Debug, PartialEq, Eq, Structural)]
pub struct Permill {
    parts: u32,
}

impl Permill {
    #[verifier::type_invariant]
    spec fn at_most_one(self) -> bool {
        self.parts <= 1_000_000
    }

    pub closed spec fn spec_parts(self) -> u32 {
        self.parts
    }

    /// The fraction of `parts` millionths.
    pub closed spec fn spec_from_parts(parts: u32) -> Permill {
        Permill { parts }
    }

    pub broadcast proof fn lemma_spec_from_parts(parts: u32)
        ensures
            #[trigger] Permill::spec_from_parts(parts).spec_parts() == parts,
    {
    }

    pub broadcast proof fn lemma_parts_determine(a: Permill, b: Permill)
        ensures
            #![trigger a.spec_parts(), b.spec_parts()]
            a.spec_parts() == b.spec_parts() ==> a == b,
    {
    }

    /// The fraction of `parts` millionths, capped at one whole.
    pub fn from_parts(parts: u32) -> (r: Permill)
        ensures
            r.spec_parts() == (if parts > 1_000_000 { 1_000_000 } else { parts }),
    {
        Permill { parts: sp_from_parts(parts) }
    }

    /// The fraction of `x` percent, capped at one hundred percent.
    pub fn from_percent(x: u32) -> (r: Permill)
        ensures
            r.spec_parts() == percent_parts(x),
    {
        Permill { parts: sp_from_percent(x) }
    }

    /// The parts per million.
    pub fn deconstruct(self) -> (r: u32)
        ensures
            r == self.spec_parts(),
            r <= 1_000_000,
    {
        proof {
            use_type_invariant(self);
        }
        self.parts
    }

    /// The product of two fractions, rounded down.
    pub fn mul(self, other: Permill) -> (r: Permill)
        ensures
            r.spec_parts() == mul_parts(self.spec_parts(), other.spec_parts()),
            r.spec_parts() <= self.spec_parts(),
            r.spec_parts() <= other.spec_parts(),
            r.spec_parts() <= 1_000_000,
    {
        proof {
            use_type_invariant(self);
            use_type_invariant(other);
            lemma_mul_parts_le(self.parts, other.parts);
        }
        Permill { parts: sp_mul(self.parts, other.parts) }
    }

    /// The difference of two fractions; `other` may not exceed `self`.
    pub fn sub(self, other: Permill) -> (r: Permill)
        requires
            other.spec_parts() <= self.spec_parts(),
        ensures
            r.spec_parts() == self.spec_parts() - other.spec_parts(),
    {
        proof {
            use_type_invariant(self);
        }
        Permill { parts: sp_sub(self.parts, other.parts) }
    }
}

} // verus!
