use crate::error::SolclawError;
use anchor_lang::prelude::Pubkey;
use vstd::prelude::*;
use vstd::std_specs::cmp::PartialEqSpecImpl;
use vstd::utf8::encode_utf8;

verus! {

/// A 32-byte ledger address: an identity, the location of a record, or a
/// vault.
#[derive(Clone, Copy, Debug, Eq, Hash)]
pub struct Address {
    pub bytes: [u8; 32],
}

impl PartialEq for Address {
    fn eq(&self, other: &Address) -> (r: bool) {
        let mut i: usize = 0;
        while i < 32
            invariant
                i <= 32,
                forall|j: int| 0 <= j < i ==> self.bytes@[j] == other.bytes@[j],
            decreases 32 - i,
        {
            if self.bytes[i] != other.bytes[i] {
                return false;
            }
            i += 1;
        }
        assert(self.bytes =~= other.bytes);
        true
    }
}

impl PartialEqSpecImpl for Address {
    open spec fn obeys_eq_spec() -> bool {
        true
    }

    open spec fn eq_spec(&self, other: &Address) -> bool {
        *self == *other
    }
}

impl View for Address {
    type V = Seq<u8>;

    open spec fn view(&self) -> Seq<u8> {
        self.bytes@
    }
}

/// Two addresses with the same bytes are the same address.
pub proof fn lemma_address_by_bytes(a: Address, b: Address)
    requires
        a@ == b@,
    ensures
        a == b,
{
    assert(a.bytes =~= b.bytes);
}

/// Longest name, in bytes, that a record location can be derived from.
pub const MAX_NAME_LEN: usize = 32;

/// The fixed-width index key of a name: its bytes, cut to 32 and padded
/// with zero bytes.
pub open spec fn padded_name(name: Seq<u8>) -> Seq<u8> {
    Seq::new(
        32,
        |i: int|
            if i < name.len() {
                name[i]
            } else {
                0u8
            },
    )
}

/// Computes the fixed-width index key of `name`.
pub fn name_hash(name: &str) -> (hash: [u8; 32])
    ensures
        hash@ == padded_name(encode_utf8(name@)),
{
    let bytes = name.as_bytes();
    let kept: usize = if bytes.len() < MAX_NAME_LEN {
        bytes.len()
    } else {
        MAX_NAME_LEN
    };
    let mut hash = [0u8; 32];
    let mut i: usize = 0;
    while i < kept
        invariant
            i <= kept <= 32,
            kept <= bytes@.len(),
            forall|j: int| 0 <= j < i ==> hash@[j] == bytes@[j],
            forall|j: int| i <= j < 32 ==> hash@[j] == 0u8,
        decreases kept - i,
    {
        hash[i] = bytes[i];
        i += 1;
    }
    assert(hash@ =~= padded_name(encode_utf8(name@)));
    hash
}

/// Tells whether `hash` is the fixed-width index key of `name`.
pub fn name_matches(hash: &[u8; 32], name: &str) -> (matches: bool)
    ensures
        matches == (hash@ == padded_name(encode_utf8(name@))),
{
    let expected = name_hash(name);
    let mut i: usize = 0;
    while i < 32
        invariant
            i <= 32,
            expected@ == padded_name(encode_utf8(name@)),
            forall|j: int| 0 <= j < i ==> hash@[j] == expected@[j],
        decreases 32 - i,
    {
        if hash[i] != expected[i] {
            return false;
        }
        i += 1;
    }
    assert(hash@ =~= expected@);
    true
}

/// The address, and the bump seed found with it, that the host derives for a
/// program from a list of seeds; `None` where it derives none.
pub uninterp spec fn program_address(seeds: Seq<Seq<u8>>, program_id: Seq<u8>) -> Option<
    (Seq<u8>, u8),
>;

/// The address part of a derivation result, as bytes.
pub open spec fn found_address(found: Option<(Address, u8)>) -> Option<(Seq<u8>, u8)> {
    match found {
        Some((address, bump)) => Some((address@, bump)),
        None => None,
    }
}

/// `Pubkey::try_find_program_address` of solana-program, on the two seeds
/// `namespace` and `key`. The result is a function of the seeds and the
/// program alone, and there is none where a seed is longer than 32 bytes;
/// nothing else is claimed of it.
#[verifier::external_body]
fn try_find_program_address(namespace: &str, key: &str, program_id: &Address) -> (found: Option<
    (Address, u8),
>)
    ensures
        found_address(found) == program_address(
            seq![encode_utf8(namespace@), encode_utf8(key@)],
            program_id@,
        ),
        encode_utf8(namespace@).len() > 32 || encode_utf8(key@).len() > 32 ==> found is None,
{
    let program = Pubkey::new_from_array(program_id.bytes);
    match Pubkey::try_find_program_address(&[namespace.as_bytes(), key.as_bytes()], &program) {
        Some((address, bump)) => Some((Address { bytes: address.to_bytes() }, bump)),
        None => None,
    }
}

/// The location of the record of the agent called `name`, if one can be
/// derived: the address derived for the program from the seeds `agent` and
/// the name.
pub open spec fn agent_address(name: Seq<char>, program_id: Address) -> Option<Seq<u8>> {
    match program_address(seq![encode_utf8("agent"@), encode_utf8(name)], program_id@) {
        Some((address, _)) => Some(address),
        None => None,
    }
}

/// The location of the vault of the agent called `name`, if one can be
/// derived: the address derived for the program from the seeds `vault` and
/// the name.
pub open spec fn vault_address(name: Seq<char>, program_id: Address) -> Option<Seq<u8>> {
    match program_address(seq![encode_utf8("vault"@), encode_utf8(name)], program_id@) {
        Some((address, _)) => Some(address),
        None => None,
    }
}

/// The bytes of an address that may be absent.
pub open spec fn address_bytes(address: Option<Address>) -> Option<Seq<u8>> {
    match address {
        Some(address) => Some(address@),
        None => None,
    }
}

/// Derives the location of the record of the agent called `name`.
pub fn find_agent_address(name: &str, program_id: &Address) -> (address: Option<Address>)
    ensures
        address_bytes(address) == agent_address(name@, *program_id),
        encode_utf8(name@).len() > 32 ==> address is None,
{
    match try_find_program_address("agent", name, program_id) {
        Some((address, _)) => Some(address),
        None => None,
    }
}

/// Derives the location of the vault of the agent called `name`.
pub fn find_vault_address(name: &str, program_id: &Address) -> (address: Option<Address>)
    ensures
        address_bytes(address) == vault_address(name@, *program_id),
        encode_utf8(name@).len() > 32 ==> address is None,
{
    match try_find_program_address("vault", name, program_id) {
        Some((address, _)) => Some(address),
        None => None,
    }
}

/// Holds the record and vault locations that a caller supplied for a
/// recipient against the ones derived from the recipient's name. A record
/// location other than the derived one is a name mismatch; failing that, a
/// vault location other than the derived one is a vault mismatch. A name
/// that no location can be derived from matches nothing.
pub fn match_recipient(
    expected_registry: Option<Address>,
    expected_vault: Option<Address>,
    registry: &Address,
    vault: &Address,
) -> (r: Result<(), SolclawError>)
    ensures
        r == (if expected_registry != Some(*registry) {
            Err::<(), SolclawError>(SolclawError::NameMismatch)
        } else if expected_vault != Some(*vault) {
            Err(SolclawError::VaultMismatch)
        } else {
            Ok(())
        }),
{
    match expected_registry {
        Some(expected) => {
            if expected != *registry {
                return Err(SolclawError::NameMismatch);
            }
        },
        None => {
            return Err(SolclawError::NameMismatch);
        },
    }
    match expected_vault {
        Some(expected) => {
            if expected != *vault {
                return Err(SolclawError::VaultMismatch);
            }
        },
        None => {
            return Err(SolclawError::VaultMismatch);
        },
    }
    Ok(())
}

/// Why the locations supplied for the recipient called `name` are refused,
/// if they are.
pub open spec fn recipient_error(
    program_id: Address,
    name: Seq<char>,
    registry: Address,
    vault: Address,
) -> Option<SolclawError> {
    if agent_address(name, program_id) != Some(registry@) {
        Some(SolclawError::NameMismatch)
    } else if vault_address(name, program_id) != Some(vault@) {
        Some(SolclawError::VaultMismatch)
    } else {
        None
    }
}

/// Derives the record and vault locations of the recipient called `name`
/// and holds the supplied ones against them.
pub fn check_recipient(program_id: &Address, name: &str, registry: &Address, vault: &Address) -> (r:
    Result<(), SolclawError>)
    ensures
        match r {
            Ok(()) => recipient_error(*program_id, name@, *registry, *vault) is None,
            Err(e) => recipient_error(*program_id, name@, *registry, *vault) == Some(e),
        },
        encode_utf8(name@).len() > 32 ==> r == Err::<(), SolclawError>(SolclawError::NameMismatch),
{
    let expected_registry = find_agent_address(name, program_id);
    let expected_vault = find_vault_address(name, program_id);
    proof {
        if expected_registry is Some && expected_registry->0@ == registry@ {
            lemma_address_by_bytes(expected_registry->0, *registry);
        }
        if expected_vault is Some && expected_vault->0@ == vault@ {
            lemma_address_by_bytes(expected_vault->0, *vault);
        }
    }
    match_recipient(expected_registry, expected_vault, registry, vault)
}

} // verus!
