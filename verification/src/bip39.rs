use vstd::prelude::*;
use crate::errors::InputError;

verus! {

/// What the BIP39 collaborator makes of a phrase: `None` where the phrase is
/// not a valid English mnemonic (wrong word count, unknown word, bad
/// checksum), otherwise the canonical word sequence, single-space separated.
/// The outcome depends on the phrase alone.
pub uninterp spec fn mnemonic_words_of(s: Seq<char>) -> Option<Seq<char>>;

/// Whether a phrase is a valid English mnemonic.
pub open spec fn mnemonic_is_valid(s: Seq<char>) -> bool {
    mnemonic_words_of(s) is Some
}

/// Relies on bip39's `Mnemonic::parse_in` (reached through bdk), a pure
/// function of the phrase, and on `Mnemonic`'s `Display`, which writes the
/// parsed words separated by single spaces.
#[verifier::external_body]
fn parse_mnemonic_words(phrase: &str) -> (r: Option<String>)
    ensures
        r is Some <==> mnemonic_words_of(phrase@) is Some,
        r matches Some(c) ==> Some(c@) == mnemonic_words_of(phrase@),
{
    match bdk::keys::bip39::Mnemonic::parse_in(bdk::keys::bip39::Language::English, phrase) {
        Ok(m) => Some(m.to_string()),
        Err(_) => None,
    }
}

/// Key material recovered from a seed phrase, held as the canonical word
/// sequence. The derivation collaborator re-reads it from [`Self::phrase`].
#[derive(Clone, Debug)]
pub struct Mnemonic {
    words: String,
}

impl View for Mnemonic {
    type V = Seq<char>;

    closed spec fn view(&self) -> Seq<char> {
        self.words@
    }
}

impl Mnemonic {
    /// The canonical phrase.
    pub fn phrase(&self) -> (r: &str)
        ensures
            r@ == self@,
    {
        self.words.as_str()
    }
}

/// Parses a seed phrase. Exactly the valid English mnemonics are accepted —
/// a wrong word count or an unknown word fails here, before any derivation —
/// and the key material recovered is a function of the phrase alone.
pub fn parse_mnemonic(phrase: &str) -> (r: Result<Mnemonic, InputError>)
    ensures
        r is Ok <==> mnemonic_is_valid(phrase@),
        r matches Ok(m) ==> Some(m@) == mnemonic_words_of(phrase@),
        r matches Err(e) ==> e == InputError::InvalidMnemonic,
{
    match parse_mnemonic_words(phrase) {
        Some(words) => Ok(Mnemonic { words }),
        None => Err(InputError::InvalidMnemonic),
    }
}

/// Parsing a phrase is deterministic: any two successful parses of the same
/// phrase recover the same key material.
pub proof fn lemma_mnemonic_deterministic(phrase: Seq<char>, a: Seq<char>, b: Seq<char>)
    requires
        Some(a) == mnemonic_words_of(phrase),
        Some(b) == mnemonic_words_of(phrase),
    ensures
        a == b,
{
}

} // verus!
