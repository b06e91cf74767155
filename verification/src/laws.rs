//! What holds of the filter on every report, and of the knowledge base on
//! every call, proved from their contracts and definitions.

use crate::binary_format::BinaryFormat;
use crate::filter::{advisory_applies, applies_to, is_constrained, is_filtered, retained};
use crate::platform::PlatformSet;
use crate::registry::apple_platform_names;
use crate::report::{Affected, Report, Vulnerability};
use vstd::prelude::*;

verus! {

/// Whether `at` picks `kept` out of `list` without changing the order:
/// `kept[k]` is `list[at[k]]`, and the positions `at[k]` rise with `k`.
pub open spec fn picks_in_order(kept: Seq<Vulnerability>, list: Seq<Vulnerability>, at: Seq<int>) -> bool {
    &&& at.len() == kept.len()
    &&& forall|k: int| 0 <= k < at.len() ==> 0 <= #[trigger] at[k] < list.len() && kept[k] == list[at[k]]
    &&& forall|j: int, k: int| 0 <= j < k < at.len() ==> at[j] < at[k]
}

/// The filter keeps the order: the vulnerabilities that it retains stand in
/// the result as they stood in the list, each at a later position of the
/// list than the one before it.
pub proof fn lemma_filter_preserves_order(
    list: Seq<Vulnerability>,
    format: BinaryFormat,
    apple: Set<Seq<char>>,
)
    ensures
        exists|at: Seq<int>| picks_in_order(retained(list, format, apple), list, at),
    decreases list.len(),
{
    reveal(Seq::filter);
    let test = applies_to(format, apple);
    if list.len() == 0 {
        assert(picks_in_order(retained(list, format, apple), list, Seq::<int>::empty()));
    } else {
        let front = list.drop_last();
        lemma_filter_preserves_order(front, format, apple);
        let at_front = choose|at: Seq<int>| picks_in_order(retained(front, format, apple), front, at);
        let kept_front = front.filter(test);
        if test(list.last()) {
            let at = at_front.push(list.len() - 1);
            let kept = kept_front.push(list.last());
            assert(retained(list, format, apple) == kept);
            assert forall|k: int| 0 <= k < at.len() implies 0 <= #[trigger] at[k] < list.len()
                && kept[k] == list[at[k]] by {
                if k < at_front.len() {
                    assert(at[k] == at_front[k]);
                    assert(kept[k] == kept_front[k]);
                    assert(front[at_front[k]] == list[at_front[k]]);
                }
            }
            assert forall|j: int, k: int| 0 <= j < k < at.len() implies at[j] < at[k] by {
                assert(at[j] == at_front[j]);
                if k < at_front.len() {
                    assert(at[k] == at_front[k]);
                }
            }
            assert(picks_in_order(kept, list, at));
        } else {
            assert(retained(list, format, apple) == kept_front);
            assert forall|k: int| 0 <= k < at_front.len() implies 0 <= #[trigger] at_front[k]
                < list.len() && kept_front[k] == list[at_front[k]] by {
                assert(front[at_front[k]] == list[at_front[k]]);
            }
            assert(picks_in_order(kept_front, list, at_front));
        }
    }
}

/// The filter retains exactly what passes its test: a vulnerability is in the
/// result if and only if it is in the list and its advisory can affect a
/// binary of the given format.
pub proof fn lemma_filter_retains_exactly(
    list: Seq<Vulnerability>,
    format: BinaryFormat,
    apple: Set<Seq<char>>,
    vuln: Vulnerability,
)
    ensures
        retained(list, format, apple).contains(vuln) <==> list.contains(vuln) && advisory_applies(
            format,
            vuln.affected,
            apple,
        ),
{
    let test = applies_to(format, apple);
    let kept = list.filter(test);
    if kept.contains(vuln) {
        list.lemma_filter_contains_rev(test, vuln);
    }
    if list.contains(vuln) && test(vuln) {
        let i = choose|i: int| 0 <= i < list.len() && list[i] == vuln;
        list.lemma_filter_contains(test, i);
    }
}

/// An advisory that restricts nothing is never filtered out: whatever the
/// format, a vulnerability without platform restrictions, or with an empty
/// list of operating systems, stays in the list.
pub proof fn lemma_unconstrained_is_retained(
    list: Seq<Vulnerability>,
    i: int,
    format: BinaryFormat,
    apple: Set<Seq<char>>,
)
    requires
        0 <= i < list.len(),
        !is_constrained(list[i].affected),
    ensures
        advisory_applies(format, list[i].affected, apple),
        retained(list, format, apple).contains(list[i]),
{
    list.lemma_filter_contains(applies_to(format, apple), i);
}

/// For a binary of unknown format every advisory applies, whatever operating
/// systems it names, and the filter removes nothing.
pub proof fn lemma_unknown_format_retains_all(
    list: Seq<Vulnerability>,
    affected: Option<Affected>,
    apple: Set<Seq<char>>,
)
    ensures
        advisory_applies(BinaryFormat::Unknown, affected, apple),
        retained(list, BinaryFormat::Unknown, apple) == list,
{
    lemma_filter_of_passing(list, applies_to(BinaryFormat::Unknown, apple));
}

/// A list whose elements all pass the test is its own filter.
proof fn lemma_filter_of_passing(list: Seq<Vulnerability>, test: spec_fn(Vulnerability) -> bool)
    requires
        forall|i: int| 0 <= i < list.len() ==> test(#[trigger] list[i]),
    ensures
        list.filter(test) == list,
    decreases list.len(),
{
    reveal(Seq::filter);
    if list.len() != 0 {
        let front = list.drop_last();
        assert forall|i: int| 0 <= i < front.len() implies test(#[trigger] front[i]) by {
            assert(front[i] == list[i]);
        }
        lemma_filter_of_passing(front, test);
        assert(front.push(list.last()) =~= list);
    }
}

/// Filtering again changes nothing: the list that the filter leaves is its
/// own filter for the same format.
pub proof fn lemma_retained_is_stable(
    list: Seq<Vulnerability>,
    format: BinaryFormat,
    apple: Set<Seq<char>>,
)
    ensures
        retained(retained(list, format, apple), format, apple) == retained(list, format, apple),
{
    let test = applies_to(format, apple);
    let kept = list.filter(test);
    assert forall|i: int| 0 <= i < kept.len() implies test(#[trigger] kept[i]) by {
        list.lemma_filter_pred(test, i);
    }
    lemma_filter_of_passing(kept, test);
}

/// The filter is idempotent: a report that was filtered for a format, when
/// filtered for that format again, keeps its list, its count, its `found`
/// flag and its warnings.
pub proof fn lemma_filter_is_idempotent(
    report: Report,
    once: Report,
    twice: Report,
    format: BinaryFormat,
    apple: Set<Seq<char>>,
)
    requires
        is_filtered(report, once, format, apple),
        is_filtered(once, twice, format, apple),
    ensures
        twice.vulnerabilities.list@ == once.vulnerabilities.list@,
        twice.vulnerabilities.count == once.vulnerabilities.count,
        twice.vulnerabilities.found == once.vulnerabilities.found,
        twice.warnings == once.warnings,
{
    lemma_retained_is_stable(report.vulnerabilities.list@, format, apple);
}

/// A filtered report is consistent, whatever it was filtered from: its count
/// is the length of its list, and `found` says that the count is not zero.
pub proof fn lemma_filtered_is_consistent(
    before: Report,
    after: Report,
    format: BinaryFormat,
    apple: Set<Seq<char>>,
)
    requires
        is_filtered(before, after, format, apple),
    ensures
        after.vulnerabilities.is_consistent(),
        after.vulnerabilities.list@.len() <= before.vulnerabilities.list@.len(),
{
    before.vulnerabilities.list@.lemma_filter_len(applies_to(format, apple));
}

/// The knowledge base gives the same answer every time: two sets that it
/// gave as the Apple platform set, at whatever times, have the same members.
pub proof fn lemma_apple_platforms_agree(first: PlatformSet, second: PlatformSet, os: Seq<char>)
    requires
        first@ == apple_platform_names(),
        second@ == apple_platform_names(),
    ensures
        first@ == second@,
        first@.contains(os) == second@.contains(os),
{
}

} // verus!
