//! Classifying the change between two record counts.
//!
//! A tolerance band surrounds the old count. Its upper edge is the old count
//! scaled by 1.0075 and its lower edge the old count scaled by 0.9975, each
//! rounded to the nearest integer with halves rounded up. A new count inside
//! the band is an ordinary change; one outside it is unusual.

use vstd::prelude::*;

verus! {

/// How a new record count relates to the old one.
#[derive(Debug, Clone, Copy, PartialEq, Eq, Structural)]
pub enum RecordCountComparison {
    UnusuallySmaller,
    Smaller,
    Same,
    Larger,
    UnusuallyLarger,
}

/// The upper edge of the tolerance band: `old_count * 403 / 400`, rounded to
/// the nearest integer, halves up.
pub open spec fn upper_threshold(old_count: int) -> int {
    (403 * old_count + 200) / 400
}

/// The lower edge of the tolerance band: `old_count * 399 / 400`, rounded to
/// the nearest integer, halves up.
pub open spec fn lower_threshold(old_count: int) -> int {
    (399 * old_count + 200) / 400
}

/// The classification of the change from `old_count` to `new_count`.
pub open spec fn classify(old_count: int, new_count: int) -> RecordCountComparison {
    if new_count > upper_threshold(old_count) {
        RecordCountComparison::UnusuallyLarger
    } else if new_count > old_count {
        RecordCountComparison::Larger
    } else if new_count == old_count {
        RecordCountComparison::Same
    } else if new_count >= lower_threshold(old_count) {
        RecordCountComparison::Smaller
    } else {
        RecordCountComparison::UnusuallySmaller
    }
}

/// The name of a classification, as reports show it.
pub open spec fn tag_text(comparison: RecordCountComparison) -> Seq<char> {
    match comparison {
        RecordCountComparison::UnusuallySmaller => "UnusuallySmaller"@,
        RecordCountComparison::Smaller => "Smaller"@,
        RecordCountComparison::Same => "Same"@,
        RecordCountComparison::Larger => "Larger"@,
        RecordCountComparison::UnusuallyLarger => "UnusuallyLarger"@,
    }
}

impl RecordCountComparison {
    /// The name of the classification, as reports show it.
    pub fn tag(&self) -> (tag: &'static str)
        ensures
            tag@ == tag_text(*self),
    {
        match self {
            RecordCountComparison::UnusuallySmaller => "UnusuallySmaller",
            RecordCountComparison::Smaller => "Smaller",
            RecordCountComparison::Same => "Same",
            RecordCountComparison::Larger => "Larger",
            RecordCountComparison::UnusuallyLarger => "UnusuallyLarger",
        }
    }

    /// Classifies the change from `old_count` to `new_count`.
    pub fn compare(old_count: u32, new_count: u32) -> (result: RecordCountComparison)
        ensures
            result == classify(old_count as int, new_count as int),
    {
        proof {
            lemma_band_holds_old_count(old_count as int);
        }
        if Self::is_too_big(old_count, new_count) {
            RecordCountComparison::UnusuallyLarger
        } else if new_count > old_count {
            RecordCountComparison::Larger
        } else if Self::is_too_small(old_count, new_count) {
            RecordCountComparison::UnusuallySmaller
        } else if new_count < old_count {
            RecordCountComparison::Smaller
        } else {
            RecordCountComparison::Same
        }
    }

    /// Whether `new_count` lies above the tolerance band of `old_count`.
    pub fn is_too_big(old_count: u32, new_count: u32) -> (result: bool)
        ensures
            result == (new_count > upper_threshold(old_count as int)),
    {
        let threshold: u64 = (old_count as u64 * 403 + 200) / 400;
        new_count as u64 > threshold
    }

    /// Whether `new_count` lies below the tolerance band of `old_count`.
    pub fn is_too_small(old_count: u32, new_count: u32) -> (result: bool)
        ensures
            result == (new_count < lower_threshold(old_count as int)),
    {
        let threshold: u64 = (old_count as u64 * 399 + 200) / 400;
        (new_count as u64) < threshold
    }
}

/// The tolerance band of a count contains the count itself.
pub proof fn lemma_band_holds_old_count(old_count: int)
    requires
        0 <= old_count,
    ensures
        0 <= lower_threshold(old_count) <= old_count <= upper_threshold(old_count),
{
}

/// The classification is the first of these tests that succeeds, taken in
/// this order: above the upper edge, above the old count, below the lower
/// edge, below the old count; when none succeeds the counts are the same.
pub proof fn lemma_classify_in_order(old_count: int, new_count: int)
    requires
        0 <= old_count,
        0 <= new_count,
    ensures
        classify(old_count, new_count) == (if new_count > upper_threshold(old_count) {
            RecordCountComparison::UnusuallyLarger
        } else if new_count > old_count {
            RecordCountComparison::Larger
        } else if new_count < lower_threshold(old_count) {
            RecordCountComparison::UnusuallySmaller
        } else if new_count < old_count {
            RecordCountComparison::Smaller
        } else {
            RecordCountComparison::Same
        }),
{
    lemma_band_holds_old_count(old_count);
}

/// A count compared with itself is `Same`.
pub proof fn lemma_equal_counts_are_same(count: int)
    requires
        0 <= count,
    ensures
        classify(count, count) == RecordCountComparison::Same,
{
    lemma_band_holds_old_count(count);
}

/// From an old count of zero every growth is `UnusuallyLarger`, and nothing
/// is smaller.
pub proof fn lemma_zero_old_count(new_count: int)
    requires
        0 <= new_count,
    ensures
        upper_threshold(0) == 0,
        lower_threshold(0) == 0,
        classify(0, new_count) == (if new_count > 0 {
            RecordCountComparison::UnusuallyLarger
        } else {
            RecordCountComparison::Same
        }),
{
}

/// The upper edge belongs to the band: a new count one above it is
/// `UnusuallyLarger`, a new count on it is not.
pub proof fn lemma_upper_edge(old_count: int)
    requires
        0 <= old_count,
    ensures
        classify(old_count, upper_threshold(old_count) + 1)
            == RecordCountComparison::UnusuallyLarger,
        classify(old_count, upper_threshold(old_count)) != RecordCountComparison::UnusuallyLarger,
{
    lemma_band_holds_old_count(old_count);
}

/// The lower edge belongs to the band: below a positive old count there is
/// a count one under the edge, and it is `UnusuallySmaller`; a new count on
/// the edge is not.
pub proof fn lemma_lower_edge(old_count: int)
    requires
        0 < old_count,
    ensures
        0 <= lower_threshold(old_count) - 1,
        classify(old_count, lower_threshold(old_count) - 1)
            == RecordCountComparison::UnusuallySmaller,
        classify(old_count, lower_threshold(old_count)) != RecordCountComparison::UnusuallySmaller,
{
    lemma_band_holds_old_count(old_count);
}

/// Growth that stays within the upper edge is `Larger`.
pub proof fn lemma_growth_within_band(old_count: int, new_count: int)
    requires
        0 <= old_count < new_count <= upper_threshold(old_count),
    ensures
        classify(old_count, new_count) == RecordCountComparison::Larger,
{
}

/// Shrinkage that stays within the lower edge is `Smaller`.
pub proof fn lemma_shrinkage_within_band(old_count: int, new_count: int)
    requires
        0 <= old_count,
        lower_threshold(old_count) <= new_count < old_count,
    ensures
        classify(old_count, new_count) == RecordCountComparison::Smaller,
{
    lemma_band_holds_old_count(old_count);
}

} // verus!
