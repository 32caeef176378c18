//! CPU architectures and the tokens they are reported under.

use vstd::prelude::*;

verus! {

/// The architecture a Python executable was built for.
#[derive(Clone, Copy, Debug, PartialEq, Eq, Structural)]
pub enum Architecture {
    X64,
    X86,
}

/// The token an architecture is reported under. The tokens are frozen: they
/// are what readers of a report match on, whatever the variants are called.
pub open spec fn architecture_token(arch: Architecture) -> Seq<char> {
    match arch {
        Architecture::X64 => "x64"@,
        Architecture::X86 => "x86"@,
    }
}

/// Whether a text is the token of some architecture.
pub open spec fn is_architecture_token(text: Seq<char>) -> bool {
    exists|arch: Architecture| #[trigger] architecture_token(arch) == text
}

/// Maps an architecture to its token. The match is exhaustive, so a new
/// variant does not build until it has a token of its own.
pub fn architecture_to_string(arch: &Architecture) -> (token: &'static str)
    ensures
        token@ == architecture_token(*arch),
        is_architecture_token(token@),
        token@.len() > 0,
{
    proof {
        lemma_architecture_token_total(*arch);
    }
    match arch {
        Architecture::X64 => "x64",
        Architecture::X86 => "x86",
    }
}

/// Every architecture has a token, and that token is never empty.
pub proof fn lemma_architecture_token_total(arch: Architecture)
    ensures
        is_architecture_token(architecture_token(arch)),
        architecture_token(arch).len() > 0,
{
    reveal_strlit("x64");
    reveal_strlit("x86");
}

/// No two architectures share a token.
pub proof fn lemma_architecture_token_distinct(a: Architecture, b: Architecture)
    requires
        architecture_token(a) == architecture_token(b),
    ensures
        a == b,
{
    reveal_strlit("x64");
    reveal_strlit("x86");
    assert("x64"@[1] == '6');
    assert("x86"@[1] == '8');
}

} // verus!
