//! Reading the address of an instantiated contract out of a reply.
use vstd::prelude::*;

verus! {

/// The contract address that the protobuf message `data` (an instantiation
/// response) carries, or `None` where `data` is no such message.
pub uninterp spec fn instantiated_address(data: Seq<u8>) -> Option<Seq<char>>;

/// Relies on cw0::parse_instantiate_response_data, which decodes an
/// instantiation response by hand: its first field is the contract address,
/// and an empty message decodes to an empty address. Its error type is not
/// exported by cw0, so a failure is reported as `None`.
#[verifier::external_body]
fn parse_instantiate_response(data: &Vec<u8>) -> (r: Option<String>)
    ensures
        match r {
            Some(a) => instantiated_address(data@) == Some(a@) && (data@.len() == 0 ==> a@.len()
                == 0),
            None => instantiated_address(data@) is None && data@.len() != 0,
        },
{
    cw0::parse_instantiate_response_data(data.as_slice()).ok().map(|resp| resp.contract_address)
}

/// The address of the contract whose instantiation a reply reports: `data`
/// is the reply's payload, absent where the reply carried none.
pub fn contract_address_of(data: &Option<Vec<u8>>) -> (r: Option<String>)
    ensures
        data is None ==> r is None,
        data matches Some(d) ==> match r {
            Some(a) => instantiated_address(d@) == Some(a@),
            None => instantiated_address(d@) is None,
        },
{
    match data {
        Some(d) => parse_instantiate_response(d),
        None => None,
    }
}

} // verus!
