//! The mode type, its canonical tokens and the predicates over raw text.

use std::sync::Arc;
use vstd::prelude::*;
use vstd::std_specs::convert::FromSpecImpl;

verus! {

/// The environment a piece of configuration applies to.
#[derive(Debug, Clone, Copy, PartialEq, Eq, Hash, Structural)]
pub enum EnvMode {
    /// Development.
    Dev,
    /// Production.
    Prd,
    /// Staging.
    Stg,
}

impl EnvMode {
    /// The canonical token of a mode: three lowercase letters, nothing around
    /// them.
    pub open spec fn token(self) -> Seq<char> {
        match self {
            EnvMode::Dev => seq!['d', 'e', 'v'],
            EnvMode::Prd => seq!['p', 'r', 'd'],
            EnvMode::Stg => seq!['s', 't', 'g'],
        }
    }

    /// The mode that `text` names, if it names one. The match is exact: no
    /// trimming, no change of case.
    pub open spec fn named_by(text: Seq<char>) -> Option<EnvMode> {
        if text == EnvMode::Dev.token() {
            Some(EnvMode::Dev)
        } else if text == EnvMode::Prd.token() {
            Some(EnvMode::Prd)
        } else if text == EnvMode::Stg.token() {
            Some(EnvMode::Stg)
        } else {
            None
        }
    }

    /// `text` is the token of the development mode.
    pub open spec fn spec_is_dev(text: Seq<char>) -> bool {
        text == EnvMode::Dev.token()
    }

    /// `text` is the token of the production mode.
    pub open spec fn spec_is_prd(text: Seq<char>) -> bool {
        text == EnvMode::Prd.token()
    }

    /// `text` is the token of the staging mode.
    pub open spec fn spec_is_stg(text: Seq<char>) -> bool {
        text == EnvMode::Stg.token()
    }

    /// `text` names a mode.
    pub open spec fn spec_is_valid(text: Seq<char>) -> bool {
        EnvMode::named_by(text) is Some
    }

    /// Whether `mode` is exactly `dev`.
    pub fn is_dev(mode: &str) -> (r: bool)
        ensures
            r == EnvMode::spec_is_dev(mode@),
    {
        proof {
            lemma_token_literals();
        }
        mode.eq("dev")
    }

    /// Whether `mode` is exactly `prd`.
    pub fn is_prd(mode: &str) -> (r: bool)
        ensures
            r == EnvMode::spec_is_prd(mode@),
    {
        proof {
            lemma_token_literals();
        }
        mode.eq("prd")
    }

    /// Whether `mode` is exactly `stg`.
    pub fn is_stg(mode: &str) -> (r: bool)
        ensures
            r == EnvMode::spec_is_stg(mode@),
    {
        proof {
            lemma_token_literals();
        }
        mode.eq("stg")
    }

    /// Whether `mode` is one of the three canonical tokens.
    pub fn is_valid(mode: &str) -> (r: bool)
        ensures
            r == EnvMode::spec_is_valid(mode@),
            r == (EnvMode::spec_is_dev(mode@) || EnvMode::spec_is_prd(mode@)
                || EnvMode::spec_is_stg(mode@)),
    {
        Self::is_dev(mode) || Self::is_prd(mode) || Self::is_stg(mode)
    }

    /// The mode that a canonical token names.
    ///
    /// The caller has validated `value` beforehand: any other text is outside
    /// this function's domain, and there is no error to recover from. Verified
    /// callers prove that; a caller that Verus does not see and that passes
    /// other text stops the process in the last branch.
    pub fn from_token(value: &str) -> (mode: EnvMode)
        requires
            EnvMode::spec_is_valid(value@),
        ensures
            EnvMode::named_by(value@) == Some(mode),
            mode.token() == value@,
    {
        if Self::is_dev(value) {
            EnvMode::Dev
        } else if Self::is_prd(value) {
            EnvMode::Prd
        } else if Self::is_stg(value) {
            EnvMode::Stg
        } else {
            vstd::pervasive::unreached()
        }
    }

    /// The mode that a shared canonical token names; the same conversion as
    /// [`EnvMode::from_token`], for text held behind an `Arc`.
    pub fn from_shared_token(value: &Arc<str>) -> (mode: EnvMode)
        requires
            EnvMode::spec_is_valid((**value)@),
        ensures
            EnvMode::named_by((**value)@) == Some(mode),
            mode.token() == (**value)@,
    {
        Self::from_token(&**value)
    }
}

/// `String::from(mode)` does not go through `from_spec`: a `String` cannot be
/// written down in ghost code. What the conversion returns is stated on
/// `from` itself, below.
impl FromSpecImpl<EnvMode> for String {
    open spec fn obeys_from_spec() -> bool {
        false
    }

    open spec fn from_spec(value: EnvMode) -> String {
        arbitrary()
    }
}

impl From<EnvMode> for String {
    /// The canonical token of `value`, as an owned string.
    fn from(value: EnvMode) -> (text: String)
        ensures
            text@ == value.token(),
    {
        proof {
            lemma_token_literals();
        }
        match value {
            EnvMode::Dev => "dev".to_string(),
            EnvMode::Prd => "prd".to_string(),
            EnvMode::Stg => "stg".to_string(),
        }
    }
}

/// The string literals `"dev"`, `"prd"` and `"stg"` are the canonical tokens.
pub proof fn lemma_token_literals()
    ensures
        "dev"@ == EnvMode::Dev.token(),
        "prd"@ == EnvMode::Prd.token(),
        "stg"@ == EnvMode::Stg.token(),
{
    reveal_strlit("dev");
    reveal_strlit("prd");
    reveal_strlit("stg");
    assert("dev"@ =~= EnvMode::Dev.token());
    assert("prd"@ =~= EnvMode::Prd.token());
    assert("stg"@ =~= EnvMode::Stg.token());
}

/// Every mode's canonical token is valid text: it passes each check that
/// asks for a mode's name.
pub proof fn lemma_canonical_token_is_valid(mode: EnvMode)
    ensures
        EnvMode::spec_is_valid(mode.token()),
{
    lemma_mode_round_trip(mode);
}

/// From a mode to its token and back gives the same mode.
pub proof fn lemma_mode_round_trip(mode: EnvMode)
    ensures
        EnvMode::named_by(mode.token()) == Some(mode),
{
    lemma_tokens_differ();
}

/// Each of the texts `dev`, `prd` and `stg` is valid, and going from it to
/// the mode it names and back to text gives the same text, character for
/// character.
pub proof fn lemma_canonical_text_round_trip(text: Seq<char>)
    requires
        text == "dev"@ || text == "prd"@ || text == "stg"@,
    ensures
        EnvMode::spec_is_valid(text),
        EnvMode::named_by(text) matches Some(mode) && mode.token() == text,
{
    lemma_token_literals();
}

/// Any text other than `dev`, `prd` and `stg` is invalid: it names no mode,
/// and every single-mode predicate is false on it.
pub proof fn lemma_other_text_is_rejected(text: Seq<char>)
    requires
        text != "dev"@,
        text != "prd"@,
        text != "stg"@,
    ensures
        !EnvMode::spec_is_valid(text),
        EnvMode::named_by(text) is None,
        !EnvMode::spec_is_dev(text),
        !EnvMode::spec_is_prd(text),
        !EnvMode::spec_is_stg(text),
{
    lemma_token_literals();
}

/// Text is valid exactly when one of the three single-mode predicates
/// accepts it.
pub proof fn lemma_valid_is_any_of_three(text: Seq<char>)
    ensures
        EnvMode::spec_is_valid(text) == (EnvMode::spec_is_dev(text) || EnvMode::spec_is_prd(text)
            || EnvMode::spec_is_stg(text)),
{
}

/// Text is valid exactly when it is the canonical token of some mode.
pub proof fn lemma_valid_is_some_token(text: Seq<char>)
    ensures
        EnvMode::spec_is_valid(text) <==> exists|mode: EnvMode| #[trigger] mode.token() == text,
{
    if EnvMode::spec_is_valid(text) {
        assert(EnvMode::named_by(text)->0.token() == text);
    }
    if exists|mode: EnvMode| #[trigger] mode.token() == text {
        let mode = choose|mode: EnvMode| #[trigger] mode.token() == text;
        lemma_canonical_token_is_valid(mode);
    }
}

/// On a canonical token each single-mode predicate answers for its own mode
/// and for no other.
pub proof fn lemma_predicates_tell_modes_apart(mode: EnvMode)
    ensures
        EnvMode::spec_is_dev(mode.token()) == (mode == EnvMode::Dev),
        EnvMode::spec_is_prd(mode.token()) == (mode == EnvMode::Prd),
        EnvMode::spec_is_stg(mode.token()) == (mode == EnvMode::Stg),
{
    lemma_tokens_differ();
}

/// Two modes with the same token are the same mode.
pub proof fn lemma_token_is_injective(a: EnvMode, b: EnvMode)
    requires
        a.token() == b.token(),
    ensures
        a == b,
{
    lemma_tokens_differ();
}

/// The three canonical tokens are pairwise different.
pub proof fn lemma_tokens_differ()
    ensures
        EnvMode::Dev.token() != EnvMode::Prd.token(),
        EnvMode::Dev.token() != EnvMode::Stg.token(),
        EnvMode::Prd.token() != EnvMode::Stg.token(),
{
    assert(EnvMode::Dev.token()[0] == 'd');
    assert(EnvMode::Prd.token()[0] == 'p');
    assert(EnvMode::Stg.token()[0] == 's');
}

} // verus!
