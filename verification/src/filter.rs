//! Which advisories can affect a binary of a given container format, and the
//! filter that removes the others from a report.

use crate::binary_format::BinaryFormat;
use crate::platform::{windows_name, Os, PlatformSet};
use crate::registry::{apple_platform_names, PlatformKnowledgeBase};
use crate::report::{Affected, Report, Vulnerability};
use vstd::prelude::*;

verus! {

/// Whether a binary of the given format can run on the operating system
/// named `os`, as far as the format tells.
///
/// A PE binary runs on Windows only. A Mach-O binary runs on Apple's systems.
/// An ELF binary is taken to run on every system that is neither Windows nor
/// one of Apple's. Of a binary of unknown format nothing is ruled out.
pub open spec fn os_runs_binary(format: BinaryFormat, os: Seq<char>, apple: Set<Seq<char>>) -> bool {
    match format {
        BinaryFormat::PE => os == windows_name(),
        BinaryFormat::Macho => apple.contains(os),
        BinaryFormat::Elf32 { .. } | BinaryFormat::Elf64 { .. } => os != windows_name()
            && !apple.contains(os),
        BinaryFormat::Unknown => true,
    }
}

/// Whether at least one operating system of the list runs binaries of the
/// given format. For the unknown format this holds of every list.
pub open spec fn some_os_runs_binary(
    format: BinaryFormat,
    os_list: Seq<Os>,
    apple: Set<Seq<char>>,
) -> bool {
    format is Unknown || exists|i: int|
        0 <= i < os_list.len() && os_runs_binary(format, (#[trigger] os_list[i])@, apple)
}

/// Whether an advisory restricts the platforms that it affects.
pub open spec fn is_constrained(affected: Option<Affected>) -> bool {
    affected matches Some(a) && a.os@.len() != 0
}

/// Whether an advisory with the given platform restrictions can affect a
/// binary of the given format: it restricts nothing, or one of the operating
/// systems that it names runs such binaries.
pub open spec fn advisory_applies(
    format: BinaryFormat,
    affected: Option<Affected>,
    apple: Set<Seq<char>>,
) -> bool {
    match affected {
        None => true,
        Some(a) => a.os@.len() == 0 || some_os_runs_binary(format, a.os@, apple),
    }
}

/// Whether a binary of the given format can run on the operating system.
fn runs_binary(binary_type: &BinaryFormat, os: &Os, windows: &Os, apple: &PlatformSet) -> (runs:
    bool)
    requires
        windows@ == windows_name(),
    ensures
        runs == os_runs_binary(*binary_type, os@, apple@),
{
    match binary_type {
        BinaryFormat::PE => os.same_as(windows),
        BinaryFormat::Macho => apple.contains(os),
        BinaryFormat::Elf32 { byte_order: _ } | BinaryFormat::Elf64 { byte_order: _ } => {
            !os.same_as(windows) && !apple.contains(os)
        },
        BinaryFormat::Unknown => true,
    }
}

/// Whether at least one operating system of the list runs binaries of the
/// given format, where `apple` is the set of Apple's systems.
pub fn at_least_one_os_runs_binary(
    binary_type: &BinaryFormat,
    os_list: &[Os],
    apple: &PlatformSet,
) -> (runs: bool)
    ensures
        runs == some_os_runs_binary(*binary_type, os_list@, apple@),
{
    if let BinaryFormat::Unknown = binary_type {
        return true;
    }
    let windows = Os::windows();
    let mut i: usize = 0;
    while i < os_list.len()
        invariant
            i <= os_list@.len(),
            windows@ == windows_name(),
            forall|j: int| 0 <= j < i ==> !os_runs_binary(*binary_type, (#[trigger] os_list@[j])@, apple@),
        decreases os_list@.len() - i,
    {
        if runs_binary(binary_type, &os_list[i], &windows, apple) {
            return true;
        }
        i += 1;
    }
    false
}

/// Whether an advisory with the given platform restrictions can affect a
/// binary of the given format, where `apple` is the set of Apple's systems.
pub fn advisory_applicable_to_binary(
    binary_type: &BinaryFormat,
    affected: &Option<Affected>,
    apple: &PlatformSet,
) -> (applicable: bool)
    ensures
        applicable == advisory_applies(*binary_type, *affected, apple@),
{
    if let Some(affected) = affected {
        if affected.os.len() == 0 {
            true
        } else {
            at_least_one_os_runs_binary(binary_type, affected.os.as_slice(), apple)
        }
    } else {
        true
    }
}

/// The test that the filter applies to each vulnerability.
pub open spec fn applies_to(format: BinaryFormat, apple: Set<Seq<char>>) -> spec_fn(
    Vulnerability,
) -> bool {
    |vuln: Vulnerability| advisory_applies(format, vuln.affected, apple)
}

/// The vulnerabilities of `list` whose advisory can affect a binary of the
/// given format, in the order in which `list` holds them.
pub open spec fn retained(list: Seq<Vulnerability>, format: BinaryFormat, apple: Set<Seq<char>>) -> Seq<
    Vulnerability,
> {
    list.filter(applies_to(format, apple))
}

/// Whether `after` is `before` filtered for the given format: it holds the
/// vulnerabilities of `before` that can affect such a binary, in their
/// order; its summary agrees with its list; its warnings are those of
/// `before`, unfiltered.
pub open spec fn is_filtered(
    before: Report,
    after: Report,
    format: BinaryFormat,
    apple: Set<Seq<char>>,
) -> bool {
    &&& after.vulnerabilities.list@ == retained(before.vulnerabilities.list@, format, apple)
    &&& after.vulnerabilities.count == after.vulnerabilities.list@.len()
    &&& after.vulnerabilities.found == (after.vulnerabilities.count != 0)
    &&& after.warnings == before.warnings
}

/// Removes from the report the vulnerabilities whose advisory cannot affect
/// a binary of the given format, where `apple` is the set of Apple's systems,
/// and brings the summary up to date. The warnings are left as they are.
///
/// The count of the report must be the length of its list.
pub fn retain_applicable(binary_type: &BinaryFormat, report: &mut Report, apple: &PlatformSet)
    requires
        old(report).vulnerabilities.count_matches_list(),
    ensures
        is_filtered(*old(report), *final(report), *binary_type, apple@),
        final(report).vulnerabilities.is_consistent(),
{
    let mut all: Vec<Vulnerability> = Vec::new();
    core::mem::swap(&mut all, &mut report.vulnerabilities.list);
    let ghost before = all@;
    let ghost test = applies_to(*binary_type, apple@);
    let mut kept: Vec<Vulnerability> = Vec::new();
    for vuln in it: all
        invariant
            it.seq() == before,
            test == applies_to(*binary_type, apple@),
            kept@ == before.take(it.index() as int).filter(test),
    {
        proof {
            let seen = before.take(it.index() as int);
            assert(before.take(it.index() + 1) =~= seen.push(vuln));
            Seq::filter_distributes_over_add(seen, seq![vuln], test);
            assert(seen.push(vuln) =~= seen + seq![vuln]);
            reveal_with_fuel(Seq::filter, 2);
        }
        if advisory_applicable_to_binary(binary_type, &vuln.affected, apple) {
            kept.push(vuln);
        }
    }
    assert(before.take(before.len() as int) =~= before);
    report.vulnerabilities.count = kept.len();
    report.vulnerabilities.found = kept.len() != 0;
    report.vulnerabilities.list = kept;
}

/// Removes from the report the vulnerabilities whose advisory cannot affect
/// a binary of the given format, and brings the summary up to date. Which
/// systems are Apple's is asked of the knowledge base. The warnings are left
/// as they are.
///
/// The count of the report must be the length of its list.
pub fn filter_report_by_binary_type(
    binary_type: &BinaryFormat,
    report: &mut Report,
    platforms: &PlatformKnowledgeBase,
)
    requires
        old(report).vulnerabilities.count_matches_list(),
    ensures
        is_filtered(*old(report), *final(report), *binary_type, apple_platform_names()),
        final(report).vulnerabilities.is_consistent(),
{
    retain_applicable(binary_type, report, platforms.apple_platforms());
}

} // verus!
