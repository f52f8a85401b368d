use vstd::prelude::*;
use crate::errors::InputError;

verus! {

/// The network a run targets. Mirrors the three selectors the tool accepts.
#[derive(Clone, Copy, Debug, PartialEq, Eq, Structural)]
pub enum Network {
    Mainnet,
    Testnet,
    Regtest,
}

/// ASCII lowercasing of a single character; other characters are unchanged.
pub open spec fn lower_char(c: char) -> char {
    if 'A' <= c && c <= 'Z' {
        ((c as u32) + 32) as char
    } else {
        c
    }
}

/// Case-insensitive (ASCII) equality of a character sequence with an
/// all-lowercase pattern.
pub open spec fn eq_ignore_ascii_case(s: Seq<char>, pat: Seq<char>) -> bool {
    s.len() == pat.len() && forall|i: int| 0 <= i < s.len() ==> lower_char(#[trigger] s[i]) == pat[i]
}

/// Which network, if any, a selector string names. The match ignores ASCII
/// case, as the selector is operator input.
pub open spec fn network_of(s: Seq<char>) -> Option<Network> {
    if eq_ignore_ascii_case(s, "mainnet"@) {
        Some(Network::Mainnet)
    } else if eq_ignore_ascii_case(s, "testnet"@) {
        Some(Network::Testnet)
    } else if eq_ignore_ascii_case(s, "regtest"@) {
        Some(Network::Regtest)
    } else {
        None
    }
}

fn lower_char_exec(c: char) -> (r: char)
    ensures
        r == lower_char(c),
{
    if 'A' <= c && c <= 'Z' {
        (((c as u32) + 32) as u8) as char
    } else {
        c
    }
}

fn matches_ignore_ascii_case(s: &str, pat: &str) -> (r: bool)
    ensures
        r == eq_ignore_ascii_case(s@, pat@),
{
    let n = s.unicode_len();
    if n != pat.unicode_len() {
        return false;
    }
    for i in 0..n
        invariant
            n == s@.len(),
            n == pat@.len(),
            forall|j: int| 0 <= j < i ==> lower_char(#[trigger] s@[j]) == pat@[j],
    {
        if lower_char_exec(s.get_char(i)) != pat.get_char(i) {
            return false;
        }
    }
    true
}

/// Resolves a network selector. Exactly the selectors `"mainnet"`,
/// `"testnet"` and `"regtest"`, in any ASCII case, are accepted; anything
/// else is an input error and no wallet work starts.
pub fn create_network(selector: &str) -> (r: Result<Network, InputError>)
    ensures
        r matches Ok(n) ==> network_of(selector@) == Some(n),
        r is Err <==> network_of(selector@) is None,
        r matches Err(e) ==> e == InputError::InvalidNetwork,
{
    if matches_ignore_ascii_case(selector, "mainnet") {
        Ok(Network::Mainnet)
    } else if matches_ignore_ascii_case(selector, "testnet") {
        Ok(Network::Testnet)
    } else if matches_ignore_ascii_case(selector, "regtest") {
        Ok(Network::Regtest)
    } else {
        Err(InputError::InvalidNetwork)
    }
}

} // verus!
