//! The kind of deployment an application was built for.

use crate::text::{lowercase, same_text, to_lowercase};
use vstd::prelude::*;

verus! {

/// The deployment a build targets.
#[derive(Debug, Clone, Copy, PartialEq, Eq, Structural)]
pub enum EnvironmentType {
    Development,
    Production,
    GitHubPages,
}

/// The six accepted names have six different lengths.
pub proof fn lemma_names_differ()
    ensures
        "development"@.len() == 11,
        "dev"@.len() == 3,
        "production"@.len() == 10,
        "prod"@.len() == 4,
        "github-pages"@.len() == 12,
        "github"@.len() == 6,
{
    reveal_strlit("development");
    reveal_strlit("dev");
    reveal_strlit("production");
    reveal_strlit("prod");
    reveal_strlit("github-pages");
    reveal_strlit("github");
}

impl EnvironmentType {
    /// The type that a lowercased name stands for. `development` and `dev`
    /// name `Development`, `production` and `prod` name `Production`,
    /// `github-pages` and `github` name `GitHubPages`; every other text
    /// falls back to `Development`.
    pub open spec fn parse_lowercase(lowered: Seq<char>) -> EnvironmentType {
        if lowered == "development"@ || lowered == "dev"@ {
            EnvironmentType::Development
        } else if lowered == "production"@ || lowered == "prod"@ {
            EnvironmentType::Production
        } else if lowered == "github-pages"@ || lowered == "github"@ {
            EnvironmentType::GitHubPages
        } else {
            EnvironmentType::Development
        }
    }

    /// The type that a name stands for, whatever the case of its letters.
    pub open spec fn parse(s: Seq<char>) -> EnvironmentType {
        Self::parse_lowercase(lowercase(s))
    }

    /// The canonical name of the type.
    pub open spec fn name(self) -> Seq<char> {
        match self {
            EnvironmentType::Development => "development"@,
            EnvironmentType::Production => "production"@,
            EnvironmentType::GitHubPages => "github-pages"@,
        }
    }

    /// The name of the variant as it is written in code.
    pub open spec fn variant_name(self) -> Seq<char> {
        match self {
            EnvironmentType::Development => "Development"@,
            EnvironmentType::Production => "Production"@,
            EnvironmentType::GitHubPages => "GitHubPages"@,
        }
    }

    /// Reads an environment type from a name that is already in lowercase.
    /// Never fails: a name that is not recognised gives `Development`.
    pub fn from_lowercase(lowered: &str) -> (r: Self)
        ensures
            r == Self::parse_lowercase(lowered@),
    {
        if same_text(lowered, "development") || same_text(lowered, "dev") {
            EnvironmentType::Development
        } else if same_text(lowered, "production") || same_text(lowered, "prod") {
            EnvironmentType::Production
        } else if same_text(lowered, "github-pages") || same_text(lowered, "github") {
            EnvironmentType::GitHubPages
        } else {
            EnvironmentType::Development
        }
    }

    /// Reads an environment type from a name, ignoring the case of its
    /// letters. Never fails: a name that is not recognised gives
    /// `Development`.
    pub fn from_str(s: &str) -> (r: Self)
        ensures
            r == Self::parse(s@),
    {
        let lowered = to_lowercase(s);
        Self::from_lowercase(lowered.as_str())
    }

    /// The canonical name of the type.
    pub fn to_string(&self) -> (r: String)
        ensures
            r@ == self.name(),
    {
        match self {
            EnvironmentType::Development => String::from_str("development"),
            EnvironmentType::Production => String::from_str("production"),
            EnvironmentType::GitHubPages => String::from_str("github-pages"),
        }
    }
}

/// Reading a name ignores the case of its letters: two names with the same
/// lowercase form stand for the same type.
pub proof fn lemma_parse_ignores_case(a: Seq<char>, b: Seq<char>)
    ensures
        lowercase(a) == lowercase(b) ==> EnvironmentType::parse(a) == EnvironmentType::parse(b),
{
}

/// The canonical name of a type, in lowercase as it is, stands for that
/// type.
pub proof fn lemma_canonical_name_parses_back(env_type: EnvironmentType)
    ensures
        EnvironmentType::parse_lowercase(env_type.name()) == env_type,
{
    lemma_names_differ();
}

} // verus!
