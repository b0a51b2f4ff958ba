use vstd::prelude::*;

verus! {

/// The Bitcoin base58 alphabet: the digit of value `d` is its `d`-th character.
pub open spec fn base58_alphabet() -> Seq<char> {
    "123456789ABCDEFGHJKLMNPQRSTUVWXYZabcdefghijkmnopqrstuvwxyz"@
}

/// The number of zero bytes that the bytes begin with.
pub open spec fn leading_zero_bytes(bytes: Seq<u8>) -> nat
    decreases bytes.len(),
{
    if bytes.len() > 0 && bytes[0] == 0 {
        1 + leading_zero_bytes(bytes.drop_first())
    } else {
        0
    }
}

/// The number whose big-endian bytes these are.
pub open spec fn big_endian_value(bytes: Seq<u8>) -> nat
    decreases bytes.len(),
{
    if bytes.len() == 0 {
        0
    } else {
        big_endian_value(bytes.drop_last()) * 256 + bytes.last() as nat
    }
}

/// The base58 digits of a number, most significant first; none for zero.
pub open spec fn base58_digits(n: nat) -> Seq<char>
    decreases n,
{
    if n == 0 {
        Seq::empty()
    } else {
        base58_digits(n / 58).push(base58_alphabet()[(n % 58) as int])
    }
}

/// The base58 text of a byte string: a `1` for each leading zero byte, then the base58
/// digits of the number whose big-endian bytes they are. Opaque: `reveal(base58)` unfolds it.
#[verifier::opaque]
pub open spec fn base58(bytes: Seq<u8>) -> Seq<char> {
    Seq::new(leading_zero_bytes(bytes), |i: int| '1') + base58_digits(big_endian_value(bytes))
}

/// Calls `bs58::encode(bytes).into_string()` (the Bitcoin alphabet, which is the default).
/// Trusted: the returned string is the base58 text of the bytes, as `base58` states it.
#[verifier::external_body]
pub(crate) fn encode_base58(bytes: &[u8]) -> (text: String)
    ensures
        text@ == base58(bytes@),
{
    bs58::encode(bytes).into_string()
}

} // verus!
