//! What the platform registry knows: which operating systems run on the
//! platforms that a wildcard pattern selects, and which of them are Apple's.

use crate::error::{Error, ErrorKind};
use crate::platform::{spelled, PlatformSet};
use once_cell::sync::OnceCell;
use platforms::PlatformReq;
use std::str::FromStr;
use vstd::prelude::*;

verus! {

/// The write-once cell of the `once_cell` crate.
#[verifier::external_type_specification]
#[verifier::external_body]
#[verifier::reject_recursive_types(T)]
pub struct ExOnceCell<T>(OnceCell<T>);

/// The operating systems of the registry's platforms whose target triple
/// matches `pattern`, by name: one entry for each matching platform, in the
/// registry's order. It stands for what `PlatformReq::matching_platforms`
/// yields for the requirement that the pattern spells, which depends on the
/// pattern and on the registry's fixed table alone.
pub uninterp spec fn matching_target_oses(pattern: Seq<char>) -> Seq<Seq<char>>;

/// Asks the registry for the platforms that match `pattern`, and gives the
/// name of each one's operating system.
///
/// Calls `PlatformReq::from_str`, then `PlatformReq::matching_platforms`, and
/// names each platform's `target_os` with `OS::as_str`. `from_str` refuses the
/// empty pattern and a pattern that no platform of the registry matches, and
/// nothing else: then the answer is `None`. The names come in the registry's
/// order.
#[verifier::external_body]
fn query_matching_oses(pattern: &str) -> (answer: Option<Vec<String>>)
    ensures
        answer is None <==> pattern@.len() == 0 || matching_target_oses(pattern@).len() == 0,
        answer matches Some(names) ==> spelled(names@) == matching_target_oses(pattern@),
{
    let req = PlatformReq::from_str(pattern).ok()?;
    Some(req.matching_platforms().map(|platform| platform.target_os.as_str().to_owned()).collect())
}

/// Whether the registry accepts `pattern`: it is not empty, and at least one
/// platform matches it.
pub open spec fn pattern_accepted(pattern: Seq<char>) -> bool {
    pattern.len() != 0 && matching_target_oses(pattern).len() != 0
}

/// The set of operating systems that run on the platforms matching `pattern`.
pub open spec fn matching_os_names(pattern: Seq<char>) -> Set<Seq<char>> {
    matching_target_oses(pattern).to_set()
}

/// The message of the error for a pattern that the registry does not accept.
pub open spec fn rejected_pattern_message() -> Seq<char> {
    "no platform matches the pattern"@
}

/// The operating systems of the platforms that match `pattern`, as a set.
///
/// A pattern that the registry does not accept is a bad parameter.
pub fn platforms_matching(pattern: &str) -> (answer: Result<PlatformSet, Error>)
    ensures
        answer is Ok <==> pattern_accepted(pattern@),
        answer matches Ok(set) ==> set@ == matching_os_names(pattern@),
        answer matches Err(e) ==> e.kind() == ErrorKind::BadParam && e.msg()@
            == rejected_pattern_message(),
{
    match query_matching_oses(pattern) {
        Some(names) => Ok(PlatformSet::from_names(names)),
        None => {
            broadcast use vstd::string::to_string_from_display_ensures_for_str;

            Err(Error::new(ErrorKind::BadParam, "no platform matches the pattern"))
        },
    }
}

/// The pattern that selects Apple's platforms.
pub open spec fn apple_pattern() -> Seq<char> {
    "*apple*"@
}

/// The operating systems of Apple's platforms: those that run on a platform
/// of the registry whose target triple contains `apple`.
pub open spec fn apple_platform_names() -> Set<Seq<char>> {
    matching_os_names(apple_pattern())
}

/// The Apple platform set, asked of the registry. It is the empty set if the
/// registry lists no Apple platform.
pub fn query_apple_platforms() -> (set: PlatformSet)
    ensures
        set@ == apple_platform_names(),
{
    match platforms_matching("*apple*") {
        Ok(set) => set,
        Err(_) => {
            proof {
                reveal_strlit("*apple*");
                assert(matching_target_oses(apple_pattern()) =~= Seq::empty());
                assert(apple_platform_names() =~= Set::<Seq<char>>::empty());
            }
            PlatformSet::new()
        },
    }
}

/// The registry's answer to the query for Apple's platforms.
struct AppleAnswer {
    set: PlatformSet,
}

impl AppleAnswer {
    #[verifier::type_invariant]
    spec fn is_the_registry_answer(self) -> bool {
        self.set@ == apple_platform_names()
    }

    /// Asks the registry which systems are Apple's.
    fn ask() -> (answer: AppleAnswer)
        ensures
            answer.set@ == apple_platform_names(),
    {
        AppleAnswer { set: query_apple_platforms() }
    }
}

/// `OnceCell::new` gives a cell. Nothing is claimed of it.
pub assume_specification<T>[ OnceCell::<T>::new ]() -> (cell: OnceCell<T>)
;

/// Reads the cell with `OnceCell::get_or_init`, which fills an empty cell
/// with the registry's answer first. Nothing is claimed of the result: that
/// it is the registry's answer follows from its type.
#[verifier::external_body]
fn cached_or_asked(cell: &OnceCell<AppleAnswer>) -> (answer: &AppleAnswer) {
    cell.get_or_init(AppleAnswer::ask)
}

/// The platform knowledge base. It asks the registry for Apple's platforms
/// when they are first needed, and keeps the answer from then on.
pub struct PlatformKnowledgeBase {
    apple: OnceCell<AppleAnswer>,
}

impl PlatformKnowledgeBase {
    /// A knowledge base that has not asked the registry yet.
    pub fn new() -> (base: PlatformKnowledgeBase) {
        PlatformKnowledgeBase { apple: OnceCell::new() }
    }

    /// The Apple platform set. Every call gives a set of the same members;
    /// only the first one asks the registry.
    pub fn apple_platforms(&self) -> (set: &PlatformSet)
        ensures
            set@ == apple_platform_names(),
    {
        let answer = cached_or_asked(&self.apple);
        proof {
            use_type_invariant(answer);
        }
        &answer.set
    }
}

} // verus!
