//! Addresses and deterministic address derivation.
//!
//! Every persistent record lives at an address derived from a tag, the
//! addresses it depends on and the identity of the program that owns it.
//! Such an address has no private key: only the deriving program can act
//! as it, by presenting the same seeds and the stored bump again.

use vstd::prelude::*;
use vstd::std_specs::cmp::PartialEqSpecImpl;
use vstd::string::StrSliceExecFns;
use vstd::string::StringSliceAdditionalSpecFns;

verus! {

/// A 32-byte address.
#[derive(Clone, Copy, Debug)]
pub struct Pubkey {
    pub bytes: [u8; 32],
}

impl View for Pubkey {
    type V = Seq<u8>;

    open spec fn view(&self) -> Seq<u8> {
        self.bytes@
    }
}

impl PartialEq for Pubkey {
    fn eq(&self, other: &Pubkey) -> (r: bool) {
        let mut i: usize = 0;
        while i < 32
            invariant
                i <= 32,
                forall|j: int| 0 <= j < i ==> self.bytes@[j] == other.bytes@[j],
            decreases 32 - i,
        {
            if self.bytes[i] != other.bytes[i] {
                return false;
            }
            i += 1;
        }
        proof {
            assert(self.bytes =~= other.bytes);
        }
        true
    }
}

impl PartialEqSpecImpl for Pubkey {
    open spec fn obeys_eq_spec() -> bool {
        true
    }

    open spec fn eq_spec(&self, other: &Pubkey) -> bool {
        *self == *other
    }
}

impl Eq for Pubkey {

}

/// Two addresses with the same bytes are the same address.
pub proof fn lemma_pubkey_view_injective(a: Pubkey, b: Pubkey)
    ensures
        a@ == b@ <==> a == b,
        a@.len() == 32,
{
    if a@ == b@ {
        assert(a.bytes =~= b.bytes);
    }
}

impl Pubkey {
    /// The address made of the given bytes.
    pub fn new_from_array(bytes: [u8; 32]) -> (r: Pubkey)
        ensures
            r.bytes == bytes,
    {
        Pubkey { bytes }
    }

    /// The bytes of the address, as a growable vector.
    pub fn to_vec(&self) -> (r: Vec<u8>)
        ensures
            r@ == self@,
    {
        let mut v: Vec<u8> = Vec::new();
        let mut i: usize = 0;
        while i < 32
            invariant
                i <= 32,
                v@ == self@.subrange(0, i as int),
            decreases 32 - i,
        {
            v.push(self.bytes[i]);
            i += 1;
        }
        v
    }
}

/// Identity of the yield engine program.
pub fn mock_yield_source_id() -> (r: Pubkey)
    ensures
        r == spec_mock_yield_source_id(),
{
    Pubkey {
        bytes: [
            195u8, 237, 201, 134, 110, 39, 246, 40, 249, 167, 159, 221, 180, 235, 182, 20,
            188, 159, 111, 137, 25, 151, 219, 14, 49, 123, 50, 39, 31, 162, 175, 247,
        ],
    }
}

/// Identity of the billing program.
pub fn vaultpay_id() -> (r: Pubkey)
    ensures
        r == spec_vaultpay_id(),
{
    Pubkey {
        bytes: [
            160u8, 183, 123, 95, 97, 88, 4, 91, 225, 183, 228, 115, 25, 138, 55, 241,
            150, 220, 253, 74, 89, 150, 166, 98, 205, 181, 121, 172, 87, 83, 48, 188,
        ],
    }
}

pub open spec fn spec_mock_yield_source_id() -> Pubkey {
    Pubkey {
        bytes: [
            195u8, 237, 201, 134, 110, 39, 246, 40, 249, 167, 159, 221, 180, 235, 182, 20,
            188, 159, 111, 137, 25, 151, 219, 14, 49, 123, 50, 39, 31, 162, 175, 247,
        ],
    }
}

pub open spec fn spec_vaultpay_id() -> Pubkey {
    Pubkey {
        bytes: [
            160u8, 183, 123, 95, 97, 88, 4, 91, 225, 183, 228, 115, 25, 138, 55, 241,
            150, 220, 253, 74, 89, 150, 166, 98, 205, 181, 121, 172, 87, 83, 48, 188,
        ],
    }
}

/// What the platform's address search returns for a list of seeds and a
/// program identity: the derived address with its bump, or nothing when no
/// address can be derived from them.
pub uninterp spec fn spec_try_find_program_address(
    seeds: Seq<Seq<u8>>,
    program_id: Seq<u8>,
) -> Option<(Seq<u8>, u8)>;

/// The byte strings held by a list of seeds.
pub open spec fn seeds_view(seeds: Seq<Vec<u8>>) -> Seq<Seq<u8>> {
    seeds.map_values(|s: Vec<u8>| s@)
}

/// A derived address and bump, as byte strings.
pub open spec fn derived_view(r: Option<(Pubkey, u8)>) -> Option<(Seq<u8>, u8)> {
    match r {
        Some((address, bump)) => Some((address@, bump)),
        None => None,
    }
}

/// The address whose bytes are `bytes`.
pub open spec fn pubkey_of(bytes: Seq<u8>) -> Pubkey {
    choose|k: Pubkey| k@ == bytes
}

/// Reading an address back from its own bytes gives the address.
pub proof fn lemma_pubkey_of_view(k: Pubkey)
    ensures
        pubkey_of(k@) == k,
{
    let found = pubkey_of(k@);
    assert(found@ == k@);
    lemma_pubkey_view_injective(found, k);
}

/// The address and bump derived from `seeds` for `program_id`, if any.
pub open spec fn spec_find_program_address(seeds: Seq<Seq<u8>>, program_id: Pubkey) -> Option<
    (Pubkey, u8),
> {
    match spec_try_find_program_address(seeds, program_id@) {
        Some((address, bump)) => Some((pubkey_of(address), bump)),
        None => None,
    }
}

/// Calls `Pubkey::try_find_program_address` of `anchor_lang` (the platform's
/// search for a program-derived address). Nothing is proved of it: the
/// contract only names its result as a function of the seeds' bytes and the
/// program identity.
#[verifier::external_body]
fn try_find_program_address(seeds: &Vec<Vec<u8>>, program_id: &Pubkey) -> (r: Option<(Pubkey, u8)>)
    ensures
        derived_view(r) == spec_try_find_program_address(seeds_view(seeds@), program_id@),
{
    let parts: Vec<&[u8]> = seeds.iter().map(|s| s.as_slice()).collect();
    let id = anchor_lang::prelude::Pubkey::new_from_array(program_id.bytes);
    match anchor_lang::prelude::Pubkey::try_find_program_address(&parts, &id) {
        Some((address, bump)) => Some((Pubkey { bytes: address.to_bytes() }, bump)),
        None => None,
    }
}

/// Derives the address that `program_id` owns for `seeds`, with its bump.
pub fn find_program_address(seeds: &Vec<Vec<u8>>, program_id: &Pubkey) -> (r: Option<(Pubkey, u8)>)
    ensures
        r == spec_find_program_address(seeds_view(seeds@), *program_id),
{
    let r = try_find_program_address(seeds, program_id);
    proof {
        match r {
            Some((address, bump)) => {
                assert(derived_view(r) == Some((address@, bump)));
                lemma_pubkey_of_view(address);
            },
            None => {
                assert(derived_view(r) == None::<(Seq<u8>, u8)>);
            },
        }
    }
    r
}

/// Seeds of a record whose address depends on one other address.
pub open spec fn seeds_of_one(tag: Seq<u8>, a: Pubkey) -> Seq<Seq<u8>> {
    seq![tag, a@]
}

/// Seeds of a record whose address depends on two other addresses.
pub open spec fn seeds_of_two(tag: Seq<u8>, a: Pubkey, b: Pubkey) -> Seq<Seq<u8>> {
    seq![tag, a@, b@]
}

fn find_with_one(tag: &str, a: &Pubkey, program_id: &Pubkey) -> (r: Option<(Pubkey, u8)>)
    ensures
        r == spec_find_program_address(seeds_of_one(tag.spec_bytes(), *a), *program_id),
{
    let mut seeds: Vec<Vec<u8>> = Vec::new();
    seeds.push(tag.as_bytes_vec());
    seeds.push(a.to_vec());
    proof {
        assert(seeds_view(seeds@) =~= seeds_of_one(tag.spec_bytes(), *a));
    }
    find_program_address(&seeds, program_id)
}

fn find_with_two(tag: &str, a: &Pubkey, b: &Pubkey, program_id: &Pubkey) -> (r: Option<
    (Pubkey, u8),
>)
    ensures
        r == spec_find_program_address(seeds_of_two(tag.spec_bytes(), *a, *b), *program_id),
{
    let mut seeds: Vec<Vec<u8>> = Vec::new();
    seeds.push(tag.as_bytes_vec());
    seeds.push(a.to_vec());
    seeds.push(b.to_vec());
    proof {
        assert(seeds_view(seeds@) =~= seeds_of_two(tag.spec_bytes(), *a, *b));
    }
    find_program_address(&seeds, program_id)
}

/// Address of the reserve of one asset.
pub open spec fn spec_yield_reserve_address(token_mint: Pubkey) -> Option<(Pubkey, u8)> {
    spec_find_program_address(
        seeds_of_one("yield_reserve".spec_bytes(), token_mint),
        spec_mock_yield_source_id(),
    )
}

/// Address of the yield account that `authority` holds in a reserve.
pub open spec fn spec_yield_account_address(yield_reserve: Pubkey, authority: Pubkey) -> Option<
    (Pubkey, u8),
> {
    spec_find_program_address(
        seeds_of_two("yield_account".spec_bytes(), yield_reserve, authority),
        spec_mock_yield_source_id(),
    )
}

/// Address of the billing configuration of one asset and owner.
pub open spec fn spec_config_address(token_mint: Pubkey, owner: Pubkey) -> Option<(Pubkey, u8)> {
    spec_find_program_address(
        seeds_of_two("config".spec_bytes(), token_mint, owner),
        spec_vaultpay_id(),
    )
}

/// Address of the vendor record of one authority under a configuration.
pub open spec fn spec_vendor_address(config: Pubkey, authority: Pubkey) -> Option<(Pubkey, u8)> {
    spec_find_program_address(
        seeds_of_two("vendor".spec_bytes(), config, authority),
        spec_vaultpay_id(),
    )
}

/// Address of the subscription of one user with one vendor.
pub open spec fn spec_subscription_address(vendor: Pubkey, user: Pubkey) -> Option<(Pubkey, u8)> {
    spec_find_program_address(
        seeds_of_two("subscription".spec_bytes(), vendor, user),
        spec_vaultpay_id(),
    )
}

/// Address of the authority that acts for one user under a configuration.
pub open spec fn spec_vaultpay_authority_address(config: Pubkey, user: Pubkey) -> Option<
    (Pubkey, u8),
> {
    spec_find_program_address(
        seeds_of_two("vaultpay_authority".spec_bytes(), config, user),
        spec_vaultpay_id(),
    )
}

/// Derives the address of the reserve of `token_mint`.
pub fn find_yield_reserve_address(token_mint: &Pubkey) -> (r: Option<(Pubkey, u8)>)
    ensures
        r == spec_yield_reserve_address(*token_mint),
{
    find_with_one("yield_reserve", token_mint, &mock_yield_source_id())
}

/// Derives the address of the yield account of `authority` in `yield_reserve`.
pub fn find_yield_account_address(yield_reserve: &Pubkey, authority: &Pubkey) -> (r: Option<
    (Pubkey, u8),
>)
    ensures
        r == spec_yield_account_address(*yield_reserve, *authority),
{
    find_with_two("yield_account", yield_reserve, authority, &mock_yield_source_id())
}

/// Derives the address of the configuration of `token_mint` and `owner`.
pub fn find_config_address(token_mint: &Pubkey, owner: &Pubkey) -> (r: Option<(Pubkey, u8)>)
    ensures
        r == spec_config_address(*token_mint, *owner),
{
    find_with_two("config", token_mint, owner, &vaultpay_id())
}

/// Derives the address of the vendor record of `authority` under `config`.
pub fn find_vendor_address(config: &Pubkey, authority: &Pubkey) -> (r: Option<(Pubkey, u8)>)
    ensures
        r == spec_vendor_address(*config, *authority),
{
    find_with_two("vendor", config, authority, &vaultpay_id())
}

/// Derives the address of the subscription of `user` with `vendor`.
pub fn find_subscription_address(vendor: &Pubkey, user: &Pubkey) -> (r: Option<(Pubkey, u8)>)
    ensures
        r == spec_subscription_address(*vendor, *user),
{
    find_with_two("subscription", vendor, user, &vaultpay_id())
}

/// Derives the address of the authority that acts for `user` under `config`.
pub fn find_vaultpay_authority_address(config: &Pubkey, user: &Pubkey) -> (r: Option<
    (Pubkey, u8),
>)
    ensures
        r == spec_vaultpay_authority_address(*config, *user),
{
    find_with_two("vaultpay_authority", config, user, &vaultpay_id())
}

/// Whether `key` with `bump` is the address derived for a record.
pub open spec fn spec_is_derived(derived: Option<(Pubkey, u8)>, key: Pubkey, bump: u8) -> bool {
    derived == Some((key, bump))
}

/// Tells whether `key` and `bump` are what a derivation gave.
pub fn is_derived(derived: &Option<(Pubkey, u8)>, key: &Pubkey, bump: u8) -> (r: bool)
    ensures
        r == spec_is_derived(*derived, *key, bump),
{
    match derived {
        Some((address, found)) => *address == *key && *found == bump,
        None => false,
    }
}

/// Whether `key` is the address derived for a record, whatever its bump.
pub open spec fn spec_is_address(derived: Option<(Pubkey, u8)>, key: Pubkey) -> bool {
    derived matches Some((address, _)) && address == key
}

/// Tells whether `key` is the address that a derivation gave.
pub fn is_address(derived: &Option<(Pubkey, u8)>, key: &Pubkey) -> (r: bool)
    ensures
        r == spec_is_address(*derived, *key),
{
    match derived {
        Some((address, _)) => *address == *key,
        None => false,
    }
}

/// The bump of a derivation that gave `key`, if it did.
pub open spec fn spec_bump_for(derived: Option<(Pubkey, u8)>, key: Pubkey) -> Option<u8> {
    match derived {
        Some((address, bump)) => if address == key {
            Some(bump)
        } else {
            None
        },
        None => None,
    }
}

/// Returns the bump to store with a record at `key`, when `key` is the
/// address that the derivation gave.
pub fn bump_for(derived: &Option<(Pubkey, u8)>, key: &Pubkey) -> (r: Option<u8>)
    ensures
        r == spec_bump_for(*derived, *key),
        r is Some <==> spec_is_address(*derived, *key),
{
    match derived {
        Some((address, bump)) => if *address == *key {
            Some(*bump)
        } else {
            None
        },
        None => None,
    }
}

} // verus!
