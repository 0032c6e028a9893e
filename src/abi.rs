//! Ethereum ABI encoding and decoding through ethers, and the 4-byte selector
//! that starts every contract call.
use vstd::prelude::*;
use ethers::abi::{ParamType, Token};

verus! {

#[verifier::external_type_specification]
pub struct ExParamType(ParamType);

#[verifier::external_type_specification]
pub struct ExToken(Token);

/// What `ethers::abi::decode` returns for these parameter types and bytes:
/// `None` where it fails.
pub uninterp spec fn abi_decoding(types: Seq<ParamType>, data: Seq<u8>) -> Option<Seq<Token>>;

/// What `ethers::abi::encode` returns for these tokens.
pub uninterp spec fn abi_encoding(tokens: Seq<Token>) -> Seq<u8>;

/// The first four bytes of the Keccak-256 digest of a function signature,
/// as `ethers::utils::id` computes them.
pub uninterp spec fn selector_of(signature: Seq<char>) -> Seq<u8>;

/// The parameter types that the decoder hands to ethabi: integers,
/// addresses and arrays of addresses. ethabi's `take_bytes` adds offsets
/// unchecked for the byte types, so those stay out.
pub open spec fn is_call_param(t: ParamType) -> bool {
    ||| t is Uint
    ||| t is Address
    ||| t == ParamType::Array(Box::new(ParamType::Address))
}

/// Relies on `ethers::abi::decode` (ethabi): decodes `data` as values of
/// `types`, or fails; trailing bytes are ignored.
#[verifier::external_body]
pub(crate) fn abi_decode(types: &[ParamType], data: &[u8]) -> (r: Option<Vec<Token>>)
    requires
        forall|i: int| 0 <= i < types@.len() ==> is_call_param(#[trigger] types@[i]),
    ensures
        r is Some <==> abi_decoding(types@, data@) is Some,
        r matches Some(v) ==> abi_decoding(types@, data@) == Some(v@),
{
    ethers::abi::decode(types, data).ok()
}

/// Relies on `ethers::abi::encode` (ethabi): the ABI encoding of `tokens`.
#[verifier::external_body]
pub(crate) fn abi_encode(tokens: &[Token]) -> (r: Vec<u8>)
    ensures
        r@ == abi_encoding(tokens@),
{
    ethers::abi::encode(tokens)
}

/// Relies on `ethers::utils::id`: the first four bytes of the Keccak-256
/// digest of the signature text.
#[verifier::external_body]
pub(crate) fn function_selector(signature: &str) -> (r: [u8; 4])
    ensures
        r@ == selector_of(signature@),
{
    ethers::utils::id(signature)
}

/// The call data of a contract call: the selector of `signature` followed by
/// the ABI encoding of the arguments.
pub fn encode_call(signature: &str, args: &[Token]) -> (r: Vec<u8>)
    ensures
        r@ == selector_of(signature@) + abi_encoding(args@),
{
    let selector = function_selector(signature);
    let mut out: Vec<u8> = Vec::new();
    let mut i: usize = 0;
    while i < 4
        invariant
            i <= 4,
            out@ == selector@.subrange(0, i as int),
        decreases 4 - i,
    {
        out.push(selector[i]);
        i = i + 1;
    }
    let encoded = abi_encode(args);
    let mut j: usize = 0;
    while j < encoded.len()
        invariant
            j <= encoded@.len(),
            out@ == selector@ + encoded@.subrange(0, j as int),
        decreases encoded@.len() - j,
    {
        out.push(encoded[j]);
        j = j + 1;
    }
    assert(encoded@.subrange(0, encoded@.len() as int) =~= encoded@);
    out
}

} // verus!
