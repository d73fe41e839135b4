//! Account addresses as 32 raw bytes, with their base58 text form.
use std::str::FromStr;
use vstd::prelude::*;

verus! {

/// Number of bytes in an account address.
pub const ADDRESS_BYTES: usize = 32;

/// An on-chain account address (a 32-byte public key).
#[derive(Clone, Copy, Debug)]
pub struct Address {
    pub bytes: [u8; 32],
}

impl View for Address {
    type V = Seq<u8>;

    open spec fn view(&self) -> Seq<u8> {
        self.bytes@
    }
}

impl PartialEq for Address {
    fn eq(&self, other: &Address) -> (r: bool)
        ensures
            r == (self@ == other@),
    {
        let mut i: usize = 0;
        while i < ADDRESS_BYTES
            invariant
                0 <= i <= 32,
                forall|k: int| 0 <= k < i ==> self@[k] == other@[k],
            decreases 32 - i,
        {
            if self.bytes[i] != other.bytes[i] {
                return false;
            }
            i = i + 1;
        }
        assert(self@ =~= other@);
        true
    }
}

impl vstd::std_specs::cmp::PartialEqSpecImpl for Address {
    open spec fn obeys_eq_spec() -> bool {
        true
    }

    open spec fn eq_spec(&self, other: &Address) -> bool {
        self@ == other@
    }
}

impl Eq for Address {}

/// What base58 decoding of a text into exactly 32 bytes yields, if anything.
pub uninterp spec fn decoded_address(text: Seq<char>) -> Option<Seq<u8>>;

/// The base58 text of a 32-byte address.
pub uninterp spec fn address_text(bytes: Seq<u8>) -> Seq<char>;

/// Relies on `Pubkey::from_str` of solana-sdk: base58 decoding of at most 44
/// characters into exactly 32 bytes; the result depends on the text alone.
#[verifier::external_body]
fn decode_base58_address(text: &str) -> (r: Option<[u8; 32]>)
    ensures
        match r {
            Some(b) => decoded_address(text@) == Some(b@),
            None => decoded_address(text@) is None,
        },
{
    solana_sdk::pubkey::Pubkey::from_str(text).ok().map(|p| p.to_bytes())
}

/// Relies on the `Display` of solana-sdk's `Pubkey`: the base58 text of the
/// 32 bytes; it depends on the bytes alone.
#[verifier::external_body]
fn encode_base58_address(bytes: &[u8; 32]) -> (r: String)
    ensures
        r@ == address_text(bytes@),
{
    solana_sdk::pubkey::Pubkey::new_from_array(*bytes).to_string()
}

/// The 32 bytes of the token program's address
/// (`TokenkegQfeZyiNwAJbNbGKPFXCWuBvf9Ss623VQ5DA`).
pub open spec fn token_program_bytes() -> Seq<u8> {
    seq![
        6u8, 221u8, 246u8, 225u8, 215u8, 101u8, 161u8, 147u8, 217u8, 203u8, 225u8, 70u8,
        206u8, 235u8, 121u8, 172u8, 28u8, 180u8, 133u8, 237u8, 95u8, 91u8, 55u8, 145u8,
        58u8, 140u8, 245u8, 133u8, 126u8, 255u8, 0u8, 169u8,
    ]
}

/// The 32 bytes of the system program's address (`11111111111111111111111111111111`).
pub open spec fn system_program_bytes() -> Seq<u8> {
    Seq::new(32, |i: int| 0u8)
}

/// Relies on `spl_token::id()`: the token program's declared address.
#[verifier::external_body]
fn token_program_id() -> (r: [u8; 32])
    ensures
        r@ == token_program_bytes(),
{
    spl_token::id().to_bytes()
}

/// Relies on `solana_sdk::system_program::id()`: the system program's declared address.
#[verifier::external_body]
fn system_program_id() -> (r: [u8; 32])
    ensures
        r@ == system_program_bytes(),
{
    solana_sdk::system_program::id().to_bytes()
}

impl Address {
    /// The address with the given bytes.
    pub fn from_bytes(bytes: [u8; 32]) -> (r: Address)
        ensures
            r@ == bytes@,
    {
        Address { bytes }
    }

    /// Parses the base58 text of an address; `None` when the text is not one.
    pub fn parse(text: &str) -> (r: Option<Address>)
        ensures
            match r {
                Some(a) => decoded_address(text@) == Some(a@),
                None => decoded_address(text@) is None,
            },
    {
        match decode_base58_address(text) {
            Some(b) => Some(Address { bytes: b }),
            None => None,
        }
    }

    /// The base58 text of the address.
    pub fn to_text(&self) -> (r: String)
        ensures
            r@ == address_text(self@),
    {
        encode_base58_address(&self.bytes)
    }

    /// The token program's address.
    pub fn token_program() -> (r: Address)
        ensures
            r@ == token_program_bytes(),
    {
        Address { bytes: token_program_id() }
    }

    /// The system program's address.
    pub fn system_program() -> (r: Address)
        ensures
            r@ == system_program_bytes(),
    {
        Address { bytes: system_program_id() }
    }
}

} // verus!
