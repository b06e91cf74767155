//! Operating system identifiers and sets of them.

use vstd::prelude::*;

verus! {

/// The name under which the platform registry lists Windows.
pub open spec fn windows_name() -> Seq<char> {
    "windows"@
}

/// An operating system, identified by the name that the platform registry
/// gives it (`"windows"`, `"macos"`, `"linux"`, ...).
///
/// Two identifiers stand for the same system exactly when their names are
/// equal, and they are ordered as their names are; the view of an identifier
/// is its name.
#[derive(Debug, PartialEq, Eq, PartialOrd, Ord, Hash)]
pub struct Os {
    name: String,
}

impl View for Os {
    type V = Seq<char>;

    closed spec fn view(&self) -> Seq<char> {
        self.name@
    }
}

impl Clone for Os {
    fn clone(&self) -> (copy: Os)
        ensures
            copy@ == self@,
    {
        Os { name: self.name.clone() }
    }
}

impl Os {
    /// The identifier of the system with the given name.
    pub fn new(name: &str) -> (os: Os)
        ensures
            os@ == name@,
    {
        Os { name: name.to_owned() }
    }

    /// The identifier of Windows.
    pub fn windows() -> (os: Os)
        ensures
            os@ == windows_name(),
    {
        Os::new("windows")
    }

    /// The name of the system.
    pub fn name(&self) -> (name: &str)
        ensures
            name@ == self@,
    {
        self.name.as_str()
    }

    /// Whether two identifiers stand for the same system.
    pub fn same_as(&self, other: &Os) -> (same: bool)
        ensures
            same == (self@ == other@),
    {
        self.name == other.name
    }
}

/// The names of the systems in a list, in the list's order.
pub open spec fn names_of(list: Seq<Os>) -> Seq<Seq<char>> {
    list.map_values(|os: Os| os@)
}

/// What a list of strings spells, in the list's order.
pub open spec fn spelled(strings: Seq<String>) -> Seq<Seq<char>> {
    strings.map_values(|s: String| s@)
}

/// A finite set of operating systems.
///
/// The members are kept without repetition; the view of the set is the set
/// of their names.
#[derive(Debug)]
pub struct PlatformSet {
    members: Vec<Os>,
}

impl View for PlatformSet {
    type V = Set<Seq<char>>;

    closed spec fn view(&self) -> Set<Seq<char>> {
        names_of(self.members@).to_set()
    }
}

impl PlatformSet {
    #[verifier::type_invariant]
    spec fn no_member_twice(self) -> bool {
        names_of(self.members@).no_duplicates()
    }

    /// The empty set.
    pub fn new() -> (set: PlatformSet)
        ensures
            set@ == Set::<Seq<char>>::empty(),
    {
        let set = PlatformSet { members: Vec::new() };
        assert(names_of(set.members@).to_set() =~= Set::<Seq<char>>::empty());
        set
    }

    /// The set of the systems that the list names. A system that is named
    /// more than once is a member once.
    pub fn from_names(names: Vec<String>) -> (set: PlatformSet)
        ensures
            set@ == spelled(names@).to_set(),
    {
        let ghost listed = spelled(names@);
        let ghost strings = names@;
        let mut set = PlatformSet::new();
        assert(listed.take(0).to_set() =~= Set::<Seq<char>>::empty());
        for name in it: names
            invariant
                it.seq() == strings,
                listed == spelled(strings),
                set@ == listed.take(it.index() as int).to_set(),
        {
            proof {
                let taken = listed.take(it.index() as int);
                assert(listed.take(it.index() + 1) =~= taken.push(name@));
                taken.lemma_push_to_set_commute(name@);
            }
            set.insert(Os { name });
        }
        assert(listed.take(listed.len() as int) =~= listed);
        set
    }

    /// The number of systems in the set.
    pub fn len(&self) -> (n: usize)
        ensures
            n == self@.len(),
            self@.finite(),
    {
        proof {
            use_type_invariant(self);
            names_of(self.members@).unique_seq_to_set();
        }
        self.members.len()
    }

    /// Whether the set has no member.
    pub fn is_empty(&self) -> (empty: bool)
        ensures
            empty == (self@ == Set::<Seq<char>>::empty()),
    {
        proof {
            if self.members@.len() > 0 {
                assert(names_of(self.members@)[0] == self.members@[0]@);
                assert(self@.contains(self.members@[0]@));
            } else {
                assert(self@ =~= Set::<Seq<char>>::empty());
            }
        }
        self.members.len() == 0
    }

    /// Whether the system is a member of the set.
    pub fn contains(&self, os: &Os) -> (found: bool)
        ensures
            found == self@.contains(os@),
    {
        let mut i: usize = 0;
        while i < self.members.len()
            invariant
                i <= self.members.len(),
                forall|j: int| 0 <= j < i ==> self.members@[j]@ != os@,
            decreases self.members.len() - i,
        {
            if self.members[i].same_as(os) {
                proof {
                    assert(names_of(self.members@)[i as int] == os@);
                }
                return true;
            }
            i += 1;
        }
        proof {
            assert forall|j: int| 0 <= j < names_of(self.members@).len() implies names_of(
                self.members@,
            )[j] != os@ by {
                assert(names_of(self.members@)[j] == self.members@[j]@);
            }
        }
        false
    }

    /// Adds the system to the set; says whether it was new.
    pub fn insert(&mut self, os: Os) -> (added: bool)
        ensures
            final(self)@ == old(self)@.insert(os@),
            added == !old(self)@.contains(os@),
    {
        if self.contains(&os) {
            assert(self@ =~= self@.insert(os@));
            false
        } else {
            proof {
                use_type_invariant(&*self);
            }
            let ghost before = names_of(self.members@);
            let mut members: Vec<Os> = Vec::new();
            core::mem::swap(&mut self.members, &mut members);
            members.push(os);
            proof {
                let after = names_of(members@);
                assert(after =~= before.push(os@));
                before.lemma_push_to_set_commute(os@);
                assert forall|i: int, j: int|
                    0 <= i < after.len() && 0 <= j < after.len() && i != j implies after[i]
                    != after[j] by {
                    if i < before.len() {
                        assert(before[i] == after[i]);
                    }
                    if j < before.len() {
                        assert(before[j] == after[j]);
                    }
                }
            }
            core::mem::swap(&mut self.members, &mut members);
            true
        }
    }
}

} // verus!
