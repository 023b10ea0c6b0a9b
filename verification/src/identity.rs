//! Identities: thirty-two bytes that name a party or a stored account.

use anchor_lang::prelude::Pubkey;
use anchor_lang::solana_program::pubkey::ParsePubkeyError;
use core::str::FromStr;
use vstd::prelude::*;
use vstd::std_specs::cmp::PartialEqSpecImpl;

verus! {

/// The name of a party or of a stored account.
#[derive(Clone, Copy, Debug)]
pub struct Identity {
    pub bytes: [u8; 32],
}

impl View for Identity {
    type V = Seq<u8>;

    open spec fn view(&self) -> Seq<u8> {
        self.bytes@
    }
}

/// The bytes of the null identity: thirty-two zeros.
pub open spec fn null_bytes() -> Seq<u8> {
    Seq::new(32, |i: int| 0u8)
}

impl Identity {
    /// Whether this is the null identity, the owner of a record nobody has funded yet.
    pub open spec fn is_null(&self) -> bool {
        self@ == null_bytes()
    }

    /// The identity with the given bytes.
    pub fn new(bytes: [u8; 32]) -> (id: Identity)
        ensures
            id.bytes == bytes,
            id@ == bytes@,
    {
        Identity { bytes }
    }

    /// The bytes of this identity.
    pub fn to_vec(&self) -> (bytes: Vec<u8>)
        ensures
            bytes@ == self@,
    {
        let mut bytes: Vec<u8> = Vec::new();
        let mut i: usize = 0;
        while i < 32
            invariant
                i <= 32,
                bytes@.len() == i,
                forall|j: int| 0 <= j < i ==> bytes@[j] == self.bytes@[j],
            decreases 32 - i,
        {
            bytes.push(self.bytes[i]);
            i += 1;
        }
        assert(bytes@ =~= self@);
        bytes
    }

    /// Tells whether this is the null identity.
    pub fn check_null(&self) -> (null: bool)
        ensures
            null == self.is_null(),
    {
        let mut i: usize = 0;
        while i < 32
            invariant
                i <= 32,
                forall|j: int| 0 <= j < i ==> self.bytes@[j] == 0u8,
            decreases 32 - i,
        {
            if self.bytes[i] != 0 {
                assert(self@[i as int] != null_bytes()[i as int]);
                return false;
            }
            i += 1;
        }
        assert(self@ =~= null_bytes());
        true
    }
}

/// Two identities are the same value exactly when their bytes agree.
pub proof fn lemma_identity_by_bytes(a: Identity, b: Identity)
    ensures
        (a == b) <==> (a@ == b@),
{
    if a@ == b@ {
        assert(a.bytes =~= b.bytes);
    }
}

impl Default for Identity {
    /// The null identity.
    fn default() -> (id: Identity)
        ensures
            id.is_null(),
    {
        let id = Identity { bytes: [0u8; 32] };
        assert(id@ =~= null_bytes());
        id
    }
}

impl PartialEq for Identity {
    fn eq(&self, other: &Identity) -> (same: bool) {
        let mut i: usize = 0;
        while i < 32
            invariant
                i <= 32,
                forall|j: int| 0 <= j < i ==> self.bytes@[j] == other.bytes@[j],
            decreases 32 - i,
        {
            if self.bytes[i] != other.bytes[i] {
                assert(self@[i as int] != other@[i as int]);
                return false;
            }
            i += 1;
        }
        assert(self@ =~= other@);
        true
    }
}

impl PartialEqSpecImpl for Identity {
    open spec fn obeys_eq_spec() -> bool {
        true
    }

    open spec fn eq_spec(&self, other: &Identity) -> bool {
        self@ == other@
    }
}

impl Eq for Identity {}

/// An identity, or the lack of one, as plain values.
pub open spec fn identity_view(id: Option<Identity>) -> Option<Seq<u8>> {
    match id {
        Some(id) => Some(id@),
        None => None,
    }
}

/// What `Pubkey::from_str` makes of a text: the thirty-two bytes that the text
/// spells in base 58, or nothing where it spells none.
pub uninterp spec fn base58_identity(text: Seq<char>) -> Option<Seq<u8>>;

/// Makes `ParsePubkeyError` known: the reason `Pubkey::from_str` gives for a
/// text it cannot read. Nothing is said of what a value of it holds.
#[verifier::external_type_specification]
#[verifier::external_body]
pub struct ExParsePubkeyError(ParsePubkeyError);

/// The outcome of reading a text as plain values: the bytes that were read, or
/// nothing where the text was refused.
pub open spec fn parsed_view(parsed: Result<Identity, ParsePubkeyError>) -> Option<Seq<u8>> {
    match parsed {
        Ok(id) => Some(id@),
        Err(_) => None,
    }
}

/// Calls `Pubkey::from_str`, which decodes a base-58 text into a key or says why
/// the text is none. The contract only names the outcome: it is
/// `base58_identity` of the text, so the call fails exactly where that is `None`.
#[verifier::external_body]
fn pubkey_from_str(text: &str) -> (parsed: Result<Identity, ParsePubkeyError>)
    ensures
        parsed_view(parsed) == base58_identity(text@),
{
    match Pubkey::from_str(text) {
        Ok(key) => Ok(Identity { bytes: key.to_bytes() }),
        Err(e) => Err(e),
    }
}

impl Identity {
    /// Reads an identity from its base-58 spelling.
    pub fn parse(text: &str) -> (id: Option<Identity>)
        ensures
            identity_view(id) == base58_identity(text@),
    {
        match pubkey_from_str(text) {
            Ok(id) => Some(id),
            Err(_) => None,
        }
    }
}

} // verus!
