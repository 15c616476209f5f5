use neutron_sdk::bindings::msg::MsgRegisterInterchainQueryResponse;
use vstd::prelude::*;

verus! {

/// The watch id that an acknowledgment payload encodes, or `None` where the payload is not the
/// JSON text of a registration response.
///
/// This names what `serde_json_wasm::from_slice` makes of the bytes; nothing in this crate says
/// which bytes decode to which id.
pub uninterp spec fn registered_query_id(payload: Seq<u8>) -> Option<u64>;

/// Decodes an acknowledgment payload with `serde_json_wasm::from_slice`, read as the query
/// subsystem's `MsgRegisterInterchainQueryResponse`, and hands back the `id` field.
///
/// Trusted: that the outcome depends on the bytes alone, so that it can be called
/// [`registered_query_id`] of them. A parse error of any kind becomes `None`.
#[verifier::external_body]
pub(crate) fn parse_registration_response(payload: &[u8]) -> (id: Option<u64>)
    ensures
        id == registered_query_id(payload@),
{
    match serde_json_wasm::from_slice::<MsgRegisterInterchainQueryResponse>(payload) {
        Ok(response) => Some(response.id),
        Err(_) => None,
    }
}

} // verus!
