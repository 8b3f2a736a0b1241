//! Account addresses and the deterministic derivation of the escrow's four
//! program-owned addresses.

use vstd::prelude::*;
use vstd::slice::slice_to_vec;
use vstd::std_specs::cmp::PartialEqSpecImpl;

verus! {

/// A 32-byte account address.
#[derive(Debug, Clone, Copy, Eq)]
pub struct Address {
    pub bytes: [u8; 32],
}

impl View for Address {
    type V = Seq<u8>;

    open spec fn view(&self) -> Seq<u8> {
        self.bytes@
    }
}

impl PartialEq for Address {
    fn eq(&self, other: &Address) -> (same: bool) {
        let same: bool = self.has_bytes(&other.bytes);
        proof {
            if same {
                Address::lemma_view_is_injective(*self, *other);
            }
        }
        same
    }
}

impl PartialEqSpecImpl for Address {
    open spec fn obeys_eq_spec() -> bool {
        true
    }

    open spec fn eq_spec(&self, other: &Address) -> bool {
        *self == *other
    }
}

impl Address {
    /// The address with the given bytes.
    pub fn new(bytes: [u8; 32]) -> (address: Address)
        ensures
            address.bytes == bytes,
    {
        Address { bytes }
    }

    /// Whether the address consists of the given bytes.
    pub fn has_bytes(&self, bytes: &[u8; 32]) -> (same: bool)
        ensures
            same == (self@ == bytes@),
    {
        let mut i: usize = 0;
        while i < 32
            invariant
                i <= 32,
                forall|j: int| 0 <= j < i ==> self.bytes@[j] == bytes@[j],
            decreases 32 - i,
        {
            if self.bytes[i] != bytes[i] {
                return false;
            }
            i += 1;
        }
        assert(self.bytes@ =~= bytes@);
        true
    }

    /// Addresses with the same bytes are the same address.
    pub proof fn lemma_view_is_injective(a: Address, b: Address)
        requires
            a@ == b@,
        ensures
            a == b,
    {
        assert(a.bytes =~= b.bytes);
    }
}

/// The oracle program that a sale may be bound to.
pub const CHAINLINK_PROGRAM_ID: [u8; 32] = [
    241, 75, 246, 90, 213, 107, 210, 186, 113, 94, 69, 116, 44, 35, 31, 39,
    214, 54, 33, 207, 91, 119, 143, 55, 193, 162, 72, 149, 29, 23, 86, 2,
];

/// The SOL/USD price feed that a sale may be bound to.
pub const SOL_USD_FEED: [u8; 32] = [
    120, 245, 122, 225, 25, 94, 140, 73, 122, 139, 224, 84, 173, 82, 173, 244,
    200, 151, 111, 132, 54, 115, 35, 9, 226, 42, 247, 6, 119, 36, 173, 150,
];

/// The token program.
pub const TOKEN_PROGRAM_ID: [u8; 32] = [
    6, 221, 246, 225, 215, 101, 161, 147, 217, 203, 225, 70, 206, 235, 121, 172,
    28, 180, 133, 237, 95, 91, 55, 145, 58, 140, 245, 133, 126, 255, 0, 169,
];

/// The associated-token-account program.
pub const ASSOCIATED_TOKEN_PROGRAM_ID: [u8; 32] = [
    140, 151, 37, 143, 78, 36, 137, 241, 187, 61, 16, 41, 20, 142, 13, 131,
    11, 90, 19, 153, 218, 255, 16, 132, 4, 142, 123, 216, 219, 233, 248, 89,
];

/// The system program.
pub const SYSTEM_PROGRAM_ID: [u8; 32] = [
    0, 0, 0, 0, 0, 0, 0, 0, 0, 0, 0, 0, 0, 0, 0, 0,
    0, 0, 0, 0, 0, 0, 0, 0, 0, 0, 0, 0, 0, 0, 0, 0,
];

/// Role tag of the sale record: the bytes of `global_escrow`.
pub const GLOBAL_ESCROW_SEED: [u8; 13] = [
    103, 108, 111, 98, 97, 108, 95, 101, 115, 99, 114, 111, 119,
];

/// Role tag of an investor's position: the bytes of `investor`.
pub const INVESTOR_SEED: [u8; 8] = [105, 110, 118, 101, 115, 116, 111, 114];

/// Role tag of the token custody pool: the bytes of `token_vault`.
pub const TOKEN_VAULT_SEED: [u8; 11] = [116, 111, 107, 101, 110, 95, 118, 97, 117, 108, 116];

/// Role tag of an investor's fund-lock pool: the bytes of `sol_vault`.
pub const SOL_VAULT_SEED: [u8; 9] = [115, 111, 108, 95, 118, 97, 117, 108, 116];

/// The program-derived address for a list of seeds under a program, with
/// its bump seed; `None` where no bump seed yields an address off the curve
/// or the seeds are too many or too long.
pub uninterp spec fn program_address(seeds: Seq<Seq<u8>>, program_id: Seq<u8>) -> Option<
    (Address, u8),
>;

/// The byte strings held by a list of seeds.
pub open spec fn seed_bytes(seeds: Seq<Vec<u8>>) -> Seq<Seq<u8>> {
    Seq::new(seeds.len(), |i: int| seeds[i]@)
}

/// Calls `solana_program::pubkey::Pubkey::try_find_program_address`, which
/// searches the bump seeds from 255 down for the first one whose hash with
/// the seeds and the program id is a valid derived address. The result
/// depends on the seeds and the program id alone; the contract names it
/// `program_address` and claims nothing else of it.
#[verifier::external_body]
fn try_find_program_address(seeds: &Vec<Vec<u8>>, program_id: &Address) -> (found: Option<
    (Address, u8),
>)
    ensures
        found == program_address(seed_bytes(seeds@), program_id@),
{
    let parts: Vec<&[u8]> = seeds.iter().map(|seed| seed.as_slice()).collect();
    let id = solana_program::pubkey::Pubkey::new_from_array(program_id.bytes);
    match solana_program::pubkey::Pubkey::try_find_program_address(&parts, &id) {
        Some((key, bump)) => Some((Address { bytes: key.to_bytes() }, bump)),
        None => None,
    }
}

/// Seeds of the sale record of an operator and a token.
pub open spec fn global_escrow_seeds(initializer: Seq<u8>, token_mint: Seq<u8>) -> Seq<Seq<u8>> {
    seq![GLOBAL_ESCROW_SEED@, initializer, token_mint]
}

/// Seeds of an investor's position in a sale.
pub open spec fn investor_seeds(investor: Seq<u8>, global_escrow: Seq<u8>) -> Seq<Seq<u8>> {
    seq![INVESTOR_SEED@, investor, global_escrow]
}

/// Seeds of the token custody pool of a sale.
pub open spec fn token_vault_seeds(global_escrow: Seq<u8>) -> Seq<Seq<u8>> {
    seq![TOKEN_VAULT_SEED@, global_escrow]
}

/// Seeds of an investor's fund-lock pool in a sale.
pub open spec fn sol_vault_seeds(investor: Seq<u8>, global_escrow: Seq<u8>) -> Seq<Seq<u8>> {
    seq![SOL_VAULT_SEED@, investor, global_escrow]
}

/// Seeds of the associated token account of a wallet for a mint.
pub open spec fn associated_token_seeds(wallet: Seq<u8>, token_mint: Seq<u8>) -> Seq<Seq<u8>> {
    seq![wallet, TOKEN_PROGRAM_ID@, token_mint]
}

/// The four roles never share a seed list, whatever the keys: the first
/// seed of each is its own role tag, and no two tags are alike. Within a
/// role, other keys give another seed list: two investors, two sales, two
/// operators or two tokens are never derived from the same seeds.
pub proof fn lemma_seeds_tell_roles_and_keys_apart(
    first: Seq<u8>,
    second: Seq<u8>,
    other_first: Seq<u8>,
    other_second: Seq<u8>,
)
    ensures
        global_escrow_seeds(first, second) != investor_seeds(other_first, other_second),
        global_escrow_seeds(first, second) != token_vault_seeds(other_first),
        global_escrow_seeds(first, second) != sol_vault_seeds(other_first, other_second),
        investor_seeds(first, second) != token_vault_seeds(other_first),
        investor_seeds(first, second) != sol_vault_seeds(other_first, other_second),
        token_vault_seeds(first) != sol_vault_seeds(other_first, other_second),
        global_escrow_seeds(first, second) == global_escrow_seeds(other_first, other_second)
            ==> first == other_first && second == other_second,
        investor_seeds(first, second) == investor_seeds(other_first, other_second) ==> first
            == other_first && second == other_second,
        sol_vault_seeds(first, second) == sol_vault_seeds(other_first, other_second) ==> first
            == other_first && second == other_second,
        token_vault_seeds(first) == token_vault_seeds(other_first) ==> first == other_first,
{
    let sale = global_escrow_seeds(first, second);
    let position = investor_seeds(first, second);
    let vault = token_vault_seeds(first);
    let pool = sol_vault_seeds(first, second);
    let other_sale = global_escrow_seeds(other_first, other_second);
    let other_position = investor_seeds(other_first, other_second);
    let other_vault = token_vault_seeds(other_first);
    let other_pool = sol_vault_seeds(other_first, other_second);
    assert(sale[0].len() == 13 && position[0].len() == 8 && vault[0].len() == 11 && pool[0].len()
        == 9);
    assert(other_position[0].len() == 8 && other_vault[0].len() == 11 && other_pool[0].len()
        == 9);
    assert(sale[1] == first && sale[2] == second && other_sale[1] == other_first
        && other_sale[2] == other_second);
    assert(position[1] == first && position[2] == second && other_position[1] == other_first
        && other_position[2] == other_second);
    assert(pool[1] == first && pool[2] == second && other_pool[1] == other_first
        && other_pool[2] == other_second);
    assert(vault[1] == first && other_vault[1] == other_first);
}

/// The bytes of a seed list one after the other: what the derivation
/// hashes before the bump seed and the program id.
pub open spec fn seed_stream(seeds: Seq<Seq<u8>>) -> Seq<u8>
    decreases seeds.len(),
{
    if seeds.len() == 0 {
        Seq::empty()
    } else {
        seed_stream(seeds.drop_last()) + seeds.last()
    }
}

/// The stream of two seeds is the one after the other.
proof fn lemma_stream_of_two(a: Seq<u8>, b: Seq<u8>)
    ensures
        seed_stream(seq![a, b]) == a + b,
{
    let two = seq![a, b];
    let one = two.drop_last();
    assert(one =~= seq![a]);
    assert(one.drop_last() =~= Seq::<Seq<u8>>::empty());
    assert(seed_stream(one.drop_last()) =~= Seq::<u8>::empty());
    assert(seed_stream(one) =~= a);
    assert(seed_stream(two) =~= a + b);
}

/// The stream of three seeds is the one after the other.
proof fn lemma_stream_of_three(a: Seq<u8>, b: Seq<u8>, c: Seq<u8>)
    ensures
        seed_stream(seq![a, b, c]) == a + b + c,
{
    let three = seq![a, b, c];
    assert(three.drop_last() =~= seq![a, b]);
    lemma_stream_of_two(a, b);
    assert(seed_stream(three) =~= a + b + c);
}

/// Not only the seed lists but the bytes that are hashed tell the roles and
/// the keys apart. Seeds are hashed one after the other, so two seed lists
/// with the same stream of bytes give the same address; for the escrow's
/// four roles over addresses that does not happen: the streams of two roles
/// differ in length, and within a role the stream gives the keys back.
pub proof fn lemma_streams_tell_roles_and_keys_apart(
    first: Address,
    second: Address,
    other_first: Address,
    other_second: Address,
)
    ensures
        seed_stream(global_escrow_seeds(first@, second@)) != seed_stream(
            investor_seeds(other_first@, other_second@),
        ),
        seed_stream(global_escrow_seeds(first@, second@)) != seed_stream(
            token_vault_seeds(other_first@),
        ),
        seed_stream(global_escrow_seeds(first@, second@)) != seed_stream(
            sol_vault_seeds(other_first@, other_second@),
        ),
        seed_stream(investor_seeds(first@, second@)) != seed_stream(
            token_vault_seeds(other_first@),
        ),
        seed_stream(investor_seeds(first@, second@)) != seed_stream(
            sol_vault_seeds(other_first@, other_second@),
        ),
        seed_stream(token_vault_seeds(first@)) != seed_stream(
            sol_vault_seeds(other_first@, other_second@),
        ),
        seed_stream(global_escrow_seeds(first@, second@)) == seed_stream(
            global_escrow_seeds(other_first@, other_second@),
        ) ==> first == other_first && second == other_second,
        seed_stream(investor_seeds(first@, second@)) == seed_stream(
            investor_seeds(other_first@, other_second@),
        ) ==> first == other_first && second == other_second,
        seed_stream(sol_vault_seeds(first@, second@)) == seed_stream(
            sol_vault_seeds(other_first@, other_second@),
        ) ==> first == other_first && second == other_second,
        seed_stream(token_vault_seeds(first@)) == seed_stream(token_vault_seeds(other_first@))
            ==> first == other_first,
{
    lemma_stream_of_three(GLOBAL_ESCROW_SEED@, first@, second@);
    lemma_stream_of_three(GLOBAL_ESCROW_SEED@, other_first@, other_second@);
    lemma_stream_of_three(INVESTOR_SEED@, first@, second@);
    lemma_stream_of_three(INVESTOR_SEED@, other_first@, other_second@);
    lemma_stream_of_three(SOL_VAULT_SEED@, first@, second@);
    lemma_stream_of_three(SOL_VAULT_SEED@, other_first@, other_second@);
    lemma_stream_of_two(TOKEN_VAULT_SEED@, first@);
    lemma_stream_of_two(TOKEN_VAULT_SEED@, other_first@);
    let sale = GLOBAL_ESCROW_SEED@ + first@ + second@;
    let other_sale = GLOBAL_ESCROW_SEED@ + other_first@ + other_second@;
    let position = INVESTOR_SEED@ + first@ + second@;
    let other_position = INVESTOR_SEED@ + other_first@ + other_second@;
    let pool = SOL_VAULT_SEED@ + first@ + second@;
    let other_pool = SOL_VAULT_SEED@ + other_first@ + other_second@;
    let vault = TOKEN_VAULT_SEED@ + first@;
    let other_vault = TOKEN_VAULT_SEED@ + other_first@;
    assert(sale.len() == 77 && position.len() == 72 && pool.len() == 73 && vault.len() == 43);
    assert(other_position.len() == 72 && other_pool.len() == 73 && other_vault.len() == 43);
    if sale == other_sale {
        assert(first@ =~= sale.subrange(13, 45));
        assert(other_first@ =~= other_sale.subrange(13, 45));
        assert(second@ =~= sale.subrange(45, 77));
        assert(other_second@ =~= other_sale.subrange(45, 77));
        Address::lemma_view_is_injective(first, other_first);
        Address::lemma_view_is_injective(second, other_second);
    }
    if position == other_position {
        assert(first@ =~= position.subrange(8, 40));
        assert(other_first@ =~= other_position.subrange(8, 40));
        assert(second@ =~= position.subrange(40, 72));
        assert(other_second@ =~= other_position.subrange(40, 72));
        Address::lemma_view_is_injective(first, other_first);
        Address::lemma_view_is_injective(second, other_second);
    }
    if pool == other_pool {
        assert(first@ =~= pool.subrange(9, 41));
        assert(other_first@ =~= other_pool.subrange(9, 41));
        assert(second@ =~= pool.subrange(41, 73));
        assert(other_second@ =~= other_pool.subrange(41, 73));
        Address::lemma_view_is_injective(first, other_first);
        Address::lemma_view_is_injective(second, other_second);
    }
    if vault == other_vault {
        assert(first@ =~= vault.subrange(11, 43));
        assert(other_first@ =~= other_vault.subrange(11, 43));
        Address::lemma_view_is_injective(first, other_first);
    }
}

/// The address derived under a program from two or three seeds, of which
/// the later ones are addresses.
fn derive(first: &[u8], second: &Address, third: Option<&Address>, program_id: &Address) -> (found:
    Option<(Address, u8)>)
    ensures
        found == program_address(
            match third {
                Some(key) => seq![first@, second@, key@],
                None => seq![first@, second@],
            },
            program_id@,
        ),
{
    let mut seeds: Vec<Vec<u8>> = Vec::new();
    seeds.push(slice_to_vec(first));
    seeds.push(slice_to_vec(second.bytes.as_slice()));
    match third {
        Some(key) => {
            seeds.push(slice_to_vec(key.bytes.as_slice()));
            assert(seed_bytes(seeds@) =~= seq![first@, second@, key@]);
        },
        None => {
            assert(seed_bytes(seeds@) =~= seq![first@, second@]);
        },
    }
    try_find_program_address(&seeds, program_id)
}

/// Address and bump seed of the sale record of an operator and a token.
pub fn find_global_escrow_pda(initializer: &Address, token_mint: &Address, program_id: &Address) -> (found:
    Option<(Address, u8)>)
    ensures
        found == program_address(global_escrow_seeds(initializer@, token_mint@), program_id@),
{
    derive(GLOBAL_ESCROW_SEED.as_slice(), initializer, Some(token_mint), program_id)
}

/// Address and bump seed of an investor's position in a sale.
pub fn find_investor_pda(investor: &Address, global_escrow: &Address, program_id: &Address) -> (found:
    Option<(Address, u8)>)
    ensures
        found == program_address(investor_seeds(investor@, global_escrow@), program_id@),
{
    derive(INVESTOR_SEED.as_slice(), investor, Some(global_escrow), program_id)
}

/// Address and bump seed of the token custody pool of a sale.
pub fn find_token_vault_pda(global_escrow: &Address, program_id: &Address) -> (found: Option<
    (Address, u8),
>)
    ensures
        found == program_address(token_vault_seeds(global_escrow@), program_id@),
{
    derive(TOKEN_VAULT_SEED.as_slice(), global_escrow, None, program_id)
}

/// Address and bump seed of an investor's fund-lock pool in a sale.
pub fn find_sol_vault_pda(investor: &Address, global_escrow: &Address, program_id: &Address) -> (found:
    Option<(Address, u8)>)
    ensures
        found == program_address(sol_vault_seeds(investor@, global_escrow@), program_id@),
{
    derive(SOL_VAULT_SEED.as_slice(), investor, Some(global_escrow), program_id)
}

/// Address of the associated token account of a wallet for a mint: the
/// address derived from the wallet, the token program and the mint under the
/// associated-token-account program.
pub fn find_associated_token_address(wallet: &Address, token_mint: &Address) -> (found: Option<
    Address,
>)
    ensures
        found == match program_address(
            associated_token_seeds(wallet@, token_mint@),
            ASSOCIATED_TOKEN_PROGRAM_ID@,
        ) {
            Some((address, _)) => Some(address),
            None => None,
        },
{
    let token_program: Address = Address::new(TOKEN_PROGRAM_ID);
    let program: Address = Address::new(ASSOCIATED_TOKEN_PROGRAM_ID);
    match derive(wallet.bytes.as_slice(), &token_program, Some(token_mint), &program) {
        Some((address, _)) => Some(address),
        None => None,
    }
}

} // verus!
