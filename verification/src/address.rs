use vstd::prelude::*;
use crate::errors::InputError;
use crate::network::Network;

verus! {

/// What the address collaborator makes of a destination string on a given
/// network: `None` where the string is not a well-formed address usable on
/// that network, otherwise its canonical text. The outcome depends on the
/// string and the network alone.
pub uninterp spec fn addr_canon_for(s: Seq<char>, n: Network) -> Option<Seq<char>>;

/// Whether a destination string is a valid address for a network.
pub open spec fn addr_valid_for(s: Seq<char>, n: Network) -> bool {
    addr_canon_for(s, n) is Some
}

/// Relies on bitcoin's address handling (reached through bdk):
/// `Address::from_str` accepts exactly the well-formed address strings,
/// `require_network` accepts exactly those usable on the given network, and
/// `Display` writes the canonical text, which parses back to the same
/// address (shown by the round-trip tests beside those functions).
#[verifier::external_body]
fn parse_address_canon(input: &str, network: Network) -> (r: Option<String>)
    ensures
        r is Some <==> addr_canon_for(input@, network) is Some,
        r matches Some(c) ==> Some(c@) == addr_canon_for(input@, network),
        r matches Some(c) ==> addr_canon_for(c@, network) == Some(c@),
{
    let net = match network {
        Network::Mainnet => bdk::bitcoin::Network::Bitcoin,
        Network::Testnet => bdk::bitcoin::Network::Testnet,
        Network::Regtest => bdk::bitcoin::Network::Regtest,
    };
    match input.parse::<bdk::bitcoin::Address<bdk::bitcoin::address::NetworkUnchecked>>() {
        Ok(a) => match a.require_network(net) {
            Ok(checked) => Some(checked.to_string()),
            Err(_) => None,
        },
        Err(_) => None,
    }
}

/// A destination address validated for the run's network, held in canonical
/// form.
#[derive(Clone, Debug)]
pub struct Address {
    text: String,
    network: Network,
}

impl Address {
    /// The canonical address text.
    pub closed spec fn spec_text(&self) -> Seq<char> {
        self.text@
    }

    /// The network the address was validated for.
    pub closed spec fn spec_network(&self) -> Network {
        self.network
    }

    /// A well-formed destination is canonical for its network: validating it
    /// again changes nothing.
    pub open spec fn wf(&self) -> bool {
        addr_canon_for(self.spec_text(), self.spec_network()) == Some(self.spec_text())
    }

    /// The canonical address text.
    pub fn text(&self) -> (r: &str)
        ensures
            r@ == self.spec_text(),
    {
        self.text.as_str()
    }

    /// The network the address was validated for.
    pub fn network(&self) -> (r: Network)
        ensures
            r == self.spec_network(),
    {
        self.network
    }
}

/// Validates a destination address against the selected network, before any
/// wallet work starts. Exactly the strings the address collaborator accepts
/// for that network are accepted; the result carries the canonical text,
/// which re-validates to itself.
pub fn create_address(input: &str, network: Network) -> (r: Result<Address, InputError>)
    ensures
        r is Ok <==> addr_valid_for(input@, network),
        r matches Ok(a) ==> Some(a.spec_text()) == addr_canon_for(input@, network)
            && a.spec_network() == network && a.wf(),
        r matches Err(e) ==> e == InputError::InvalidAddress,
{
    match parse_address_canon(input, network) {
        Some(text) => Ok(Address { text, network }),
        None => Err(InputError::InvalidAddress),
    }
}

/// A destination that validated for a network, validated again, comes back
/// unchanged: the canonical form is a fixed point of validation.
pub fn renormalize_address(address: &Address) -> (r: Result<Address, InputError>)
    ensures
        address.wf() ==> r is Ok,
        address.wf() ==> (r matches Ok(b) ==> b.spec_text() == address.spec_text()
            && b.spec_network() == address.spec_network() && b.wf()),
{
    create_address(address.text(), address.network())
}

} // verus!
