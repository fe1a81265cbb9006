//! What holds of every version: of its equality, of its order, and of reading
//! it from a report.

use crate::error::Error;
use crate::report::Release;
use crate::version::{is_outcome_of, is_reading_of, precedes, Version};
use std::cmp::Ordering;
use vstd::prelude::*;
use vstd::std_specs::cmp::{PartialEqSpec, PartialOrdSpec};

verus! {

/// Two releases have the same three numbers.
pub open spec fn same_numbers(a: Release, b: Release) -> bool {
    a.major == b.major && a.minor == b.minor && a.patch == b.patch
}

/// Two outcomes say the same: versions that agree in all four fields, or the
/// same failure.
pub open spec fn same_outcome(first: Result<Version, Error>, second: Result<Version, Error>) -> bool {
    match first {
        Ok(a) => second matches Ok(b) && a@ == b@,
        Err(e) => second matches Err(f) && e == f,
    }
}

/// Every version is equal to itself.
pub proof fn lemma_equal_to_itself(v: Version)
    ensures
        v.eq_spec(&v),
{
}

/// Equality looks at all four fields: versions are equal exactly when their
/// numbers and their tags are.
pub proof fn lemma_equality_by_fields(a: Version, b: Version)
    ensures
        a.eq_spec(&b) <==> same_numbers(a@, b@) && a@.extra == b@.extra,
{
}

/// Any two versions are comparable, and exactly one of three things holds:
/// the first comes before the second, the second before the first, or they
/// have the same numbers.
pub proof fn lemma_order_total(a: Version, b: Version)
    ensures
        a.partial_cmp_spec(&b) is Some,
        a.partial_cmp_spec(&b) == Some(Ordering::Less) <==> precedes(a@, b@),
        a.partial_cmp_spec(&b) == Some(Ordering::Greater) <==> precedes(b@, a@),
        a.partial_cmp_spec(&b) == Some(Ordering::Equal) <==> same_numbers(a@, b@),
        !(precedes(a@, b@) && precedes(b@, a@)),
        !(precedes(a@, b@) && same_numbers(a@, b@)),
        !(precedes(b@, a@) && same_numbers(a@, b@)),
{
}

/// No version comes before itself.
pub proof fn lemma_order_irreflexive(a: Version)
    ensures
        a.partial_cmp_spec(&a) == Some(Ordering::Equal),
{
}

/// Turning a comparison round turns its result round.
pub proof fn lemma_order_antisymmetric(a: Version, b: Version)
    ensures
        a.partial_cmp_spec(&b) == Some(Ordering::Less) <==> b.partial_cmp_spec(&a) == Some(
            Ordering::Greater,
        ),
        a.partial_cmp_spec(&b) == Some(Ordering::Equal) <==> b.partial_cmp_spec(&a) == Some(
            Ordering::Equal,
        ),
{
}

/// What comes before a version comes before all that it comes before.
pub proof fn lemma_order_transitive(a: Version, b: Version, c: Version)
    requires
        a.partial_cmp_spec(&b) == Some(Ordering::Less),
        b.partial_cmp_spec(&c) == Some(Ordering::Less),
    ensures
        a.partial_cmp_spec(&c) == Some(Ordering::Less),
{
}

/// Versions with the same numbers stand alike to every third version.
pub proof fn lemma_order_respects_same_numbers(a: Version, b: Version, c: Version)
    requires
        a.partial_cmp_spec(&b) == Some(Ordering::Equal),
    ensures
        a.partial_cmp_spec(&c) == b.partial_cmp_spec(&c),
        c.partial_cmp_spec(&a) == c.partial_cmp_spec(&b),
{
}

/// The tag has no part in the order: versions with the same numbers compare
/// as equal whatever their tags, also where they are not equal.
pub proof fn lemma_order_ignores_tag(a: Version, b: Version)
    requires
        same_numbers(a@, b@),
    ensures
        a.partial_cmp_spec(&b) == Some(Ordering::Equal),
        a@.extra != b@.extra ==> !a.eq_spec(&b),
{
}

/// Equal versions compare as equal.
pub proof fn lemma_equal_versions_compare_equal(a: Version, b: Version)
    requires
        a.eq_spec(&b),
    ensures
        a.partial_cmp_spec(&b) == Some(Ordering::Equal),
{
}

/// Reading is a function of the text: two readings of one report give equal
/// versions, or fail for the same reason.
pub proof fn lemma_reading_is_repeatable(
    text: Seq<char>,
    first: Result<Version, Error>,
    second: Result<Version, Error>,
)
    requires
        is_reading_of(first, text),
        is_reading_of(second, text),
    ensures
        same_outcome(first, second),
        first matches Ok(a) ==> second matches Ok(b) && a.eq_spec(&b),
{
}

/// The outcome of a run is a function of its exit status and its output.
pub proof fn lemma_outcome_is_repeatable(
    success: bool,
    stdout: Seq<u8>,
    first: Result<Version, Error>,
    second: Result<Version, Error>,
)
    requires
        is_outcome_of(first, success, stdout),
        is_outcome_of(second, success, stdout),
    ensures
        same_outcome(first, second),
        first matches Ok(a) ==> second matches Ok(b) && a.eq_spec(&b),
{
}

/// A run that failed gives a toolchain error, whatever it printed.
pub proof fn lemma_failed_run(stdout: Seq<u8>, res: Result<Version, Error>)
    requires
        is_outcome_of(res, false, stdout),
    ensures
        res == Err::<Version, Error>(Error::Toolchain),
{
}

} // verus!
