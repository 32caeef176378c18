//! Environment categories and the tokens they are reported under.

use vstd::prelude::*;

verus! {

/// How an environment came to be: who installed or created it.
#[derive(Clone, Copy, Debug, PartialEq, Eq, Structural)]
pub enum PythonEnvironmentCategory {
    System,
    Homebrew,
    Conda,
    Pyenv,
    PyenvVirtualEnv,
    WindowsStore,
    WindowsRegistry,
    Pipenv,
    VirtualEnvWrapper,
    Venv,
    VirtualEnv,
    Unknown,
}

impl Default for PythonEnvironmentCategory {
    /// An environment that nothing has classified is `Unknown`.
    fn default() -> (category: PythonEnvironmentCategory)
        ensures
            category == PythonEnvironmentCategory::Unknown,
    {
        PythonEnvironmentCategory::Unknown
    }
}

/// The token a category is reported under. The tokens are frozen: they are
/// what readers of a report match on, whatever the variants are called.
pub open spec fn category_token(category: PythonEnvironmentCategory) -> Seq<char> {
    match category {
        PythonEnvironmentCategory::System => "system"@,
        PythonEnvironmentCategory::Homebrew => "homebrew"@,
        PythonEnvironmentCategory::Conda => "conda"@,
        PythonEnvironmentCategory::Pyenv => "pyenv"@,
        PythonEnvironmentCategory::PyenvVirtualEnv => "pyenv-virtualenv"@,
        PythonEnvironmentCategory::WindowsStore => "windows-store"@,
        PythonEnvironmentCategory::WindowsRegistry => "windows-registry"@,
        PythonEnvironmentCategory::Pipenv => "pipenv"@,
        PythonEnvironmentCategory::VirtualEnvWrapper => "virtualenvwrapper"@,
        PythonEnvironmentCategory::Venv => "venv"@,
        PythonEnvironmentCategory::VirtualEnv => "virtualenv"@,
        PythonEnvironmentCategory::Unknown => "unknown"@,
    }
}

/// Whether a text is the token of some category.
pub open spec fn is_category_token(text: Seq<char>) -> bool {
    exists|category: PythonEnvironmentCategory| #[trigger] category_token(category) == text
}

/// Maps a category to its token. The match is exhaustive, so a new variant
/// does not build until it has a token of its own.
pub fn python_category_to_string(category: &PythonEnvironmentCategory) -> (token: &'static str)
    ensures
        token@ == category_token(*category),
        is_category_token(token@),
        token@.len() > 0,
{
    proof {
        lemma_category_token_total(*category);
    }
    match category {
        PythonEnvironmentCategory::System => "system",
        PythonEnvironmentCategory::Homebrew => "homebrew",
        PythonEnvironmentCategory::Conda => "conda",
        PythonEnvironmentCategory::Pyenv => "pyenv",
        PythonEnvironmentCategory::PyenvVirtualEnv => "pyenv-virtualenv",
        PythonEnvironmentCategory::WindowsStore => "windows-store",
        PythonEnvironmentCategory::WindowsRegistry => "windows-registry",
        PythonEnvironmentCategory::Pipenv => "pipenv",
        PythonEnvironmentCategory::VirtualEnvWrapper => "virtualenvwrapper",
        PythonEnvironmentCategory::Venv => "venv",
        PythonEnvironmentCategory::VirtualEnv => "virtualenv",
        PythonEnvironmentCategory::Unknown => "unknown",
    }
}

/// Makes the characters of every category token known to the solver.
proof fn reveal_category_tokens()
    ensures
        "system"@ =~= seq!['s', 'y', 's', 't', 'e', 'm'],
        "homebrew"@ =~= seq!['h', 'o', 'm', 'e', 'b', 'r', 'e', 'w'],
        "conda"@ =~= seq!['c', 'o', 'n', 'd', 'a'],
        "pyenv"@ =~= seq!['p', 'y', 'e', 'n', 'v'],
        "pyenv-virtualenv"@ =~= seq![
            'p', 'y', 'e', 'n', 'v', '-', 'v', 'i', 'r', 't', 'u', 'a', 'l', 'e', 'n', 'v',
        ],
        "windows-store"@ =~= seq![
            'w', 'i', 'n', 'd', 'o', 'w', 's', '-', 's', 't', 'o', 'r', 'e',
        ],
        "windows-registry"@ =~= seq![
            'w', 'i', 'n', 'd', 'o', 'w', 's', '-', 'r', 'e', 'g', 'i', 's', 't', 'r', 'y',
        ],
        "pipenv"@ =~= seq!['p', 'i', 'p', 'e', 'n', 'v'],
        "virtualenvwrapper"@ =~= seq![
            'v', 'i', 'r', 't', 'u', 'a', 'l', 'e', 'n', 'v', 'w', 'r', 'a', 'p', 'p', 'e', 'r',
        ],
        "venv"@ =~= seq!['v', 'e', 'n', 'v'],
        "virtualenv"@ =~= seq!['v', 'i', 'r', 't', 'u', 'a', 'l', 'e', 'n', 'v'],
        "unknown"@ =~= seq!['u', 'n', 'k', 'n', 'o', 'w', 'n'],
{
    reveal_strlit("system");
    reveal_strlit("homebrew");
    reveal_strlit("conda");
    reveal_strlit("pyenv");
    reveal_strlit("pyenv-virtualenv");
    reveal_strlit("windows-store");
    reveal_strlit("windows-registry");
    reveal_strlit("pipenv");
    reveal_strlit("virtualenvwrapper");
    reveal_strlit("venv");
    reveal_strlit("virtualenv");
    reveal_strlit("unknown");
}

/// Every category has a token, and that token is never empty.
pub proof fn lemma_category_token_total(category: PythonEnvironmentCategory)
    ensures
        is_category_token(category_token(category)),
        category_token(category).len() > 0,
{
    reveal_category_tokens();
}

/// No two categories share a token: a reader can tell from the token alone
/// which category was meant.
pub proof fn lemma_category_token_distinct(
    a: PythonEnvironmentCategory,
    b: PythonEnvironmentCategory,
)
    requires
        category_token(a) == category_token(b),
    ensures
        a == b,
{
    reveal_category_tokens();
    let s = category_token(a);
    let t = category_token(b);
    assert(s.len() == t.len());
    assert(s[0] == t[0]);
    assert(s[1] == t[1]);
}

} // verus!
