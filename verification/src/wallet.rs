use vstd::prelude::*;
use crate::errors::InputError;
use crate::network::Network;
use crate::path::{parse_path, DerivationPath, create_derivation_paths_with_last_index};

verus! {

/// One candidate account of a run: a catalog template bound to the run's
/// network, with the receive and change paths the template yields. Exactly
/// one candidate is planned per (template, network) pair; its state store is
/// owned by it alone.
#[derive(Clone, Debug)]
pub struct CandidateWallet {
    pub template_index: usize,
    pub network: Network,
    pub external_path: DerivationPath,
    pub internal_path: DerivationPath,
}

/// What a well-planned candidate looks like for a template: its paths are
/// the template's text with the receive index `0` and the change index `1`.
pub open spec fn candidate_ok(
    w: &CandidateWallet,
    template: Seq<char>,
    index: int,
    network: Network,
) -> bool {
    &&& w.template_index == index
    &&& w.network == network
    &&& parse_path(template + "0"@) == Some(w.external_path@)
    &&& parse_path(template + "1"@) == Some(w.internal_path@)
}

/// Plans the candidate account of one template. The descriptor collaborator
/// and the state store get involved only later, from the planned paths; a
/// template whose composed paths do not parse is rejected here.
pub fn create_wallet(template: &str, template_index: usize, network: Network) -> (r: Result<
    CandidateWallet,
    InputError,
>)
    ensures
        r matches Ok(w) ==> candidate_ok(&w, template@, template_index as int, network),
        r is Err <==> parse_path(template@ + "0"@) is None || parse_path(template@ + "1"@)
            is None,
        r matches Err(e) ==> e == InputError::InvalidPath,
{
    let (external_path, internal_path) = match create_derivation_paths_with_last_index(template) {
        Ok(pair) => pair,
        Err(e) => {
            return Err(e);
        },
    };
    Ok(CandidateWallet { template_index, network, external_path, internal_path })
}

/// Plans one candidate per template, in catalog order. A bad template
/// yields its error in place and never disturbs the other templates.
#[verifier::loop_isolation(false)]
pub fn plan_candidates(templates: &Vec<&str>, network: Network) -> (r: Vec<
    Result<CandidateWallet, InputError>,
>)
    ensures
        r@.len() == templates@.len(),
        forall|i: int|
            0 <= i < r@.len() ==> {
                &&& (#[trigger] r@[i] matches Ok(w) ==> candidate_ok(
                    &w,
                    templates@[i]@,
                    i,
                    network,
                ))
                &&& (r@[i] is Err <==> parse_path(templates@[i]@ + "0"@) is None || parse_path(
                    templates@[i]@ + "1"@,
                ) is None)
                &&& (r@[i] matches Err(e) ==> e == InputError::InvalidPath)
            },
{
    let n = templates.len();
    let mut r: Vec<Result<CandidateWallet, InputError>> = Vec::new();
    for i in 0..n
        invariant
            r@.len() == i,
            forall|k: int|
                0 <= k < i ==> {
                    &&& (#[trigger] r@[k] matches Ok(w) ==> candidate_ok(
                        &w,
                        templates@[k]@,
                        k,
                        network,
                    ))
                    &&& (r@[k] is Err <==> parse_path(templates@[k]@ + "0"@) is None
                        || parse_path(templates@[k]@ + "1"@) is None)
                    &&& (r@[k] matches Err(e) ==> e == InputError::InvalidPath)
                },
    {
        let planned = create_wallet(templates[i], i, network);
        r.push(planned);
    }
    r
}

} // verus!
