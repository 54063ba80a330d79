//! The path parameters of a request, as the `router` crate hands them out.

use router::Params;
use vstd::prelude::*;

verus! {

/// The parameter set of the `router` crate, `router::Params`, whose inside
/// is not looked into.
#[verifier::external_type_specification]
#[verifier::external_body]
pub struct ExParams(Params);

/// The parameters that a `router::Params` holds: their texts by name.
pub uninterp spec fn path_params(params: Params) -> Map<Seq<char>, Seq<char>>;

/// Calls `Params::find`. Trusted: the result is the text that the set holds
/// under the name, and `None` where it holds none.
#[verifier::external_body]
pub(crate) fn find_param<'a>(params: &'a Params, name: &str) -> (found: Option<&'a str>)
    ensures
        match found {
            Some(text) => path_params(*params).contains_key(name@) && path_params(*params)[name@]
                == text@,
            None => !path_params(*params).contains_key(name@),
        },
{
    params.find(name)
}

} // verus!
