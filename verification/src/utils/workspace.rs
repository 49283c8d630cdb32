//! Members of the workspace and the filters that select among them.

use vstd::prelude::*;

use crate::commands::Target;

verus! {

/// The sort of a workspace member.
#[derive(Clone, Copy, Debug, PartialEq, Eq, Structural)]
pub enum WorkspaceMemberType {
    /// A library or binary crate.
    Crate,
    /// An example crate.
    Example,
}

impl WorkspaceMemberType {
    /// The target that selects exactly the members of this sort.
    pub open spec fn target_spec(self) -> Target {
        match self {
            WorkspaceMemberType::Crate => Target::Crates,
            WorkspaceMemberType::Example => Target::Examples,
        }
    }

    /// The target that selects exactly the members of this sort.
    pub fn target(&self) -> (target: Target)
        ensures
            target == self.target_spec(),
    {
        match self {
            WorkspaceMemberType::Crate => Target::Crates,
            WorkspaceMemberType::Example => Target::Examples,
        }
    }
}

/// Whether the filters keep the member called `name`: it is not among the
/// excluded names and, where the list of exclusive names is not empty, it is
/// among those.
pub open spec fn keeps_spec(excluded: Seq<Seq<char>>, only: Seq<Seq<char>>, name: Seq<char>) -> bool {
    !excluded.contains(name) && (only.len() == 0 || only.contains(name))
}

/// The members that the filters keep, in the order of `members`.
pub open spec fn kept(members: Seq<Seq<char>>, excluded: Seq<Seq<char>>, only: Seq<Seq<char>>) -> Seq<
    Seq<char>,
> {
    members.filter(|name: Seq<char>| keeps_spec(excluded, only, name))
}

/// Whether `name` is one of `names`.
pub fn contains_name(names: &Vec<String>, name: &String) -> (found: bool)
    ensures
        found == names.deep_view().contains(name@),
{
    let mut i: usize = 0;
    while i < names.len()
        invariant
            i <= names.len(),
            forall|j: int| 0 <= j < i ==> names.deep_view()[j] != name@,
        decreases names.len() - i,
    {
        if names[i] == *name {
            assert(names.deep_view()[i as int] == name@);
            return true;
        }
        i = i + 1;
    }
    false
}

/// Whether the filters keep the member called `name`.
pub fn keeps(excluded: &Vec<String>, only: &Vec<String>, name: &String) -> (keep: bool)
    ensures
        keep == keeps_spec(excluded.deep_view(), only.deep_view(), name@),
{
    !contains_name(excluded, name) && (only.len() == 0 || contains_name(only, name))
}

/// The filters select a part of the members: a name is kept if and only if
/// it is a member, is not excluded and, where the list of exclusive names is
/// not empty, is among those. So what is kept has nothing in common with
/// what is excluded, and lies within the exclusive names where there are
/// any.
pub proof fn lemma_kept_is_selected(
    members: Seq<Seq<char>>,
    excluded: Seq<Seq<char>>,
    only: Seq<Seq<char>>,
)
    ensures
        forall|name: Seq<char>| #[trigger]
            kept(members, excluded, only).contains(name) <==> members.contains(name)
                && !excluded.contains(name) && (only.len() == 0 || only.contains(name)),
        kept(members, excluded, only).to_set().disjoint(excluded.to_set()),
        kept(members, excluded, only).to_set().subset_of(members.to_set()),
        only.len() > 0 ==> kept(members, excluded, only).to_set().subset_of(only.to_set()),
        kept(members, excluded, only).len() <= members.len(),
{
    let keep = |name: Seq<char>| keeps_spec(excluded, only, name);
    members.lemma_filter_len(keep);
    assert forall|name: Seq<char>| #[trigger]
        kept(members, excluded, only).contains(name) <==> members.contains(name)
            && !excluded.contains(name) && (only.len() == 0 || only.contains(name)) by {
        if kept(members, excluded, only).contains(name) {
            let i = choose|i: int|
                0 <= i < members.filter(keep).len() && members.filter(keep)[i] == name;
            members.lemma_filter_pred(keep, i);
            members.lemma_filter_contains_rev(keep, name);
        }
        if members.contains(name) && keep(name) {
            let i = choose|i: int| 0 <= i < members.len() && members[i] == name;
            members.lemma_filter_contains(keep, i);
        }
    }
}

/// Filtering the members of two listings one after the other keeps what
/// filtering each of them keeps, in the same order.
pub proof fn lemma_kept_of_both(
    first: Seq<Seq<char>>,
    second: Seq<Seq<char>>,
    excluded: Seq<Seq<char>>,
    only: Seq<Seq<char>>,
)
    ensures
        kept(first + second, excluded, only) == kept(first, excluded, only) + kept(
            second,
            excluded,
            only,
        ),
{
    Seq::filter_distributes_over_add(
        first,
        second,
        |name: Seq<char>| keeps_spec(excluded, only, name),
    );
}

} // verus!
