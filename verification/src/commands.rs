//! The commands of the runner and the values that select their scope.

use vstd::prelude::*;

use crate::utils::same_text;

pub mod check;
pub mod dependencies;

verus! {

/// What is said on a toolchain that is not a nightly one where a command
/// needs one.
pub const CARGO_NIGHTLY_MSG: &'static str =
    "You must use 'cargo +nightly' to run nightly checks.\nInstall a nightly toolchain with 'rustup toolchain install nightly'.";

/// Why a name stands for no variant.
#[derive(Clone, Copy, Debug, PartialEq, Eq, Structural)]
pub enum ParseError {
    /// No variant has the name.
    VariantNotFound,
}

/// The part of the workspace that a command applies to.
#[derive(Clone, Copy, Debug, PartialEq, Eq, Structural)]
pub enum Target {
    /// The library and binary crates.
    Crates,
    /// The example crates.
    Examples,
    /// Every member of the workspace, crates and examples alike.
    Workspace,
}

/// The build profile that a command applies to.
#[derive(Clone, Copy, Debug, PartialEq, Eq, Structural)]
pub enum Profile {
    /// Every profile.
    All,
    /// The debug profile.
    Debug,
    /// The release profile.
    Release,
}

impl Target {
    /// The name of the variant, in lower case.
    pub open spec fn name_spec(self) -> Seq<char> {
        match self {
            Target::Crates => "crates"@,
            Target::Examples => "examples"@,
            Target::Workspace => "workspace"@,
        }
    }

    /// The variant of the given name, if there is one. Names are matched
    /// letter for letter.
    pub open spec fn named(name: Seq<char>) -> Option<Target> {
        if name == "crates"@ {
            Some(Target::Crates)
        } else if name == "examples"@ {
            Some(Target::Examples)
        } else if name == "workspace"@ {
            Some(Target::Workspace)
        } else {
            None
        }
    }

    /// The variants, in the order of their declaration.
    pub open spec fn variants_spec() -> Seq<Target> {
        seq![Target::Crates, Target::Examples, Target::Workspace]
    }

    /// The name of the variant, in lower case.
    pub fn to_string(&self) -> (name: String)
        ensures
            name@ == self.name_spec(),
    {
        match self {
            Target::Crates => "crates".to_owned(),
            Target::Examples => "examples".to_owned(),
            Target::Workspace => "workspace".to_owned(),
        }
    }

    /// The variant of the given name, or the error where no variant has
    /// that name.
    pub fn from_str(name: &str) -> (found: Result<Target, ParseError>)
        ensures
            found == match Target::named(name@) {
                Some(variant) => Ok::<Target, ParseError>(variant),
                None => Err::<Target, ParseError>(ParseError::VariantNotFound),
            },
    {
        if same_text(name, "crates") {
            Ok(Target::Crates)
        } else if same_text(name, "examples") {
            Ok(Target::Examples)
        } else if same_text(name, "workspace") {
            Ok(Target::Workspace)
        } else {
            Err(ParseError::VariantNotFound)
        }
    }

    /// The variants, in the order of their declaration.
    pub fn variants() -> (all: Vec<Target>)
        ensures
            all@ == Target::variants_spec(),
    {
        let mut all: Vec<Target> = Vec::new();
        all.push(Target::Crates);
        all.push(Target::Examples);
        all.push(Target::Workspace);
        assert(all@ =~= Target::variants_spec());
        all
    }

    /// A name stands for one variant only: the variant named by the name of
    /// a variant is that variant. Every variant is among the variants.
    pub proof fn lemma_named(self)
        ensures
            Target::named(self.name_spec()) == Some(self),
            Target::variants_spec().contains(self),
    {
        reveal_strlit("crates");
        reveal_strlit("examples");
        reveal_strlit("workspace");
        assert("crates"@.len() == 6 && "crates"@[0] == 'c');
        assert("examples"@.len() == 8 && "examples"@[0] == 'e');
        assert("workspace"@.len() == 9 && "workspace"@[0] == 'w');
        assert(Target::variants_spec()[0] == Target::Crates);
        assert(Target::variants_spec()[1] == Target::Examples);
        assert(Target::variants_spec()[2] == Target::Workspace);
    }
}

impl Default for Target {
    fn default() -> (variant: Target)
        ensures
            variant == Target::Workspace,
    {
        Target::Workspace
    }
}

impl Profile {
    /// The name of the variant, in lower case.
    pub open spec fn name_spec(self) -> Seq<char> {
        match self {
            Profile::All => "all"@,
            Profile::Debug => "debug"@,
            Profile::Release => "release"@,
        }
    }

    /// The variant of the given name, if there is one. Names are matched
    /// letter for letter.
    pub open spec fn named(name: Seq<char>) -> Option<Profile> {
        if name == "all"@ {
            Some(Profile::All)
        } else if name == "debug"@ {
            Some(Profile::Debug)
        } else if name == "release"@ {
            Some(Profile::Release)
        } else {
            None
        }
    }

    /// The variants, in the order of their declaration.
    pub open spec fn variants_spec() -> Seq<Profile> {
        seq![Profile::All, Profile::Debug, Profile::Release]
    }

    /// The name of the variant, in lower case.
    pub fn to_string(&self) -> (name: String)
        ensures
            name@ == self.name_spec(),
    {
        match self {
            Profile::All => "all".to_owned(),
            Profile::Debug => "debug".to_owned(),
            Profile::Release => "release".to_owned(),
        }
    }

    /// The variant of the given name, or the error where no variant has
    /// that name.
    pub fn from_str(name: &str) -> (found: Result<Profile, ParseError>)
        ensures
            found == match Profile::named(name@) {
                Some(variant) => Ok::<Profile, ParseError>(variant),
                None => Err::<Profile, ParseError>(ParseError::VariantNotFound),
            },
    {
        if same_text(name, "all") {
            Ok(Profile::All)
        } else if same_text(name, "debug") {
            Ok(Profile::Debug)
        } else if same_text(name, "release") {
            Ok(Profile::Release)
        } else {
            Err(ParseError::VariantNotFound)
        }
    }

    /// The variants, in the order of their declaration.
    pub fn variants() -> (all: Vec<Profile>)
        ensures
            all@ == Profile::variants_spec(),
    {
        let mut all: Vec<Profile> = Vec::new();
        all.push(Profile::All);
        all.push(Profile::Debug);
        all.push(Profile::Release);
        assert(all@ =~= Profile::variants_spec());
        all
    }

    /// A name stands for one variant only: the variant named by the name of
    /// a variant is that variant. Every variant is among the variants.
    pub proof fn lemma_named(self)
        ensures
            Profile::named(self.name_spec()) == Some(self),
            Profile::variants_spec().contains(self),
    {
        reveal_strlit("all");
        reveal_strlit("debug");
        reveal_strlit("release");
        assert("all"@.len() == 3 && "all"@[0] == 'a');
        assert("debug"@.len() == 5 && "debug"@[0] == 'd');
        assert("release"@.len() == 7 && "release"@[0] == 'r');
        assert(Profile::variants_spec()[0] == Profile::All);
        assert(Profile::variants_spec()[1] == Profile::Debug);
        assert(Profile::variants_spec()[2] == Profile::Release);
    }
}

impl Default for Profile {
    fn default() -> (variant: Profile)
        ensures
            variant == Profile::Debug,
    {
        Profile::Debug
    }
}

} // verus!
