//! Addresses, and the addresses a program derives from seeds.
//!
//! The booth record and both vaults live at addresses that anyone can
//! recompute from a seed tuple and the program's identity. Deriving yields
//! the address together with a bump: the value that, appended to the seeds,
//! lets the program authorise a transfer for that address without a key.

use vstd::prelude::*;

verus! {

/// A 32-byte address: of an account, an asset or a program.
#[derive(Debug, Clone, Copy, Eq)]
pub struct Pubkey(pub [u8; 32]);

impl View for Pubkey {
    type V = Seq<u8>;

    open spec fn view(&self) -> Seq<u8> {
        self.0@
    }
}

impl PartialEq for Pubkey {
    fn eq(&self, other: &Pubkey) -> (same: bool) {
        let mut i: usize = 0;
        while i < 32
            invariant
                i <= 32,
                forall|j: int| 0 <= j < i ==> self.0[j] == other.0[j],
            decreases 32 - i,
        {
            if self.0[i] != other.0[i] {
                return false;
            }
            i += 1;
        }
        proof {
            assert(self.0 =~= other.0);
        }
        true
    }
}

impl vstd::std_specs::cmp::PartialEqSpecImpl for Pubkey {
    open spec fn obeys_eq_spec() -> bool {
        true
    }

    open spec fn eq_spec(&self, other: &Pubkey) -> bool {
        *self == *other
    }
}

impl Pubkey {
    /// The address made of the given bytes.
    pub fn new_from_array(bytes: [u8; 32]) -> (key: Pubkey)
        ensures
            key.0 == bytes,
    {
        Pubkey(bytes)
    }

    /// The bytes of the address.
    pub fn to_bytes(&self) -> (bytes: [u8; 32])
        ensures
            bytes == self.0,
    {
        self.0
    }
}

/// Two addresses are the same address exactly when they hold the same bytes.
pub proof fn lemma_pubkey_by_bytes(a: Pubkey, b: Pubkey)
    ensures
        (a == b) <==> (a@ == b@),
{
    if a@ == b@ {
        assert(a.0 =~= b.0);
    }
}

/// The address that holds the first 32 of the given bytes.
pub open spec fn pubkey_of(bytes: Seq<u8>) -> Pubkey {
    Pubkey(
        [
            bytes[0],
            bytes[1],
            bytes[2],
            bytes[3],
            bytes[4],
            bytes[5],
            bytes[6],
            bytes[7],
            bytes[8],
            bytes[9],
            bytes[10],
            bytes[11],
            bytes[12],
            bytes[13],
            bytes[14],
            bytes[15],
            bytes[16],
            bytes[17],
            bytes[18],
            bytes[19],
            bytes[20],
            bytes[21],
            bytes[22],
            bytes[23],
            bytes[24],
            bytes[25],
            bytes[26],
            bytes[27],
            bytes[28],
            bytes[29],
            bytes[30],
            bytes[31],
        ],
    )
}

/// An address and its 32 bytes stand for each other.
pub proof fn lemma_pubkey_of(key: Pubkey, bytes: Seq<u8>)
    ensures
        pubkey_of(key@) == key,
        bytes.len() == 32 ==> pubkey_of(bytes)@ == bytes,
{
    assert(pubkey_of(key@).0 =~= key.0);
    if bytes.len() == 32 {
        assert(pubkey_of(bytes)@ =~= bytes);
    }
}

impl Pubkey {
    /// Reads the address stored in the 32 bytes of `data` from `offset` on;
    /// `None` where `data` ends before them.
    pub fn read(data: &[u8], offset: usize) -> (key: Option<Pubkey>)
        ensures
            key == if offset + 32 <= data@.len() {
                Some(pubkey_of(data@.subrange(offset as int, offset + 32)))
            } else {
                None
            },
    {
        if data.len() < 32 || offset > data.len() - 32 {
            return None;
        }
        let mut bytes: [u8; 32] = [0u8; 32];
        let mut i: usize = 0;
        while i < 32
            invariant
                i <= 32,
                offset + 32 <= data.len(),
                forall|j: int| 0 <= j < i ==> bytes[j] == data@[offset + j],
            decreases 32 - i,
        {
            bytes[i] = data[offset + i];
            i += 1;
        }
        let key = Pubkey(bytes);
        proof {
            assert(key@ =~= data@.subrange(offset as int, offset + 32));
            lemma_pubkey_of(key, key@);
        }
        Some(key)
    }

    /// Appends the 32 bytes of the address to `out`.
    pub fn write(&self, out: &mut Vec<u8>)
        ensures
            final(out)@ == old(out)@ + self@,
    {
        let mut i: usize = 0;
        while i < 32
            invariant
                i <= 32,
                out@ == old(out)@ + self@.take(i as int),
            decreases 32 - i,
        {
            out.push(self.0[i]);
            proof {
                assert(self@.take(i + 1) =~= self@.take(i as int).push(self@[i as int]));
            }
            i += 1;
        }
        proof {
            assert(self@.take(32) =~= self@);
        }
    }
}

/// The domain tag that opens every seed tuple: the ASCII bytes of `xbooth`.
pub open spec fn seed_tag() -> Seq<u8> {
    seq![120u8, 98u8, 111u8, 111u8, 116u8, 104u8]
}

/// The address and bump that the host's derivation yields for a sequence of
/// seeds under a program, or `None` where it yields none.
pub uninterp spec fn derived_address(seeds: Seq<Seq<u8>>, program_id: Pubkey) -> Option<
    (Pubkey, u8),
>;

/// Calls `Pubkey::try_find_program_address` of `solana_program` on the four
/// seeds in the order given. The result depends on the seeds and the program
/// alone: the function hashes them with each bump from 255 downwards and
/// returns the first hash that is no curve point, with that bump, or `None`
/// when no bump gives one or a seed is longer than the host admits.
#[verifier::external_body]
fn try_find_program_address(
    tag: &[u8],
    first: &Pubkey,
    second: &Pubkey,
    third: &Pubkey,
    program_id: &Pubkey,
) -> (found: Option<(Pubkey, u8)>)
    ensures
        found == derived_address(seq![tag@, first@, second@, third@], *program_id),
{
    let program = solana_program::pubkey::Pubkey::new_from_array(program_id.0);
    let seeds: [&[u8]; 4] = [tag, &first.0, &second.0, &third.0];
    match solana_program::pubkey::Pubkey::try_find_program_address(&seeds, &program) {
        Some((address, bump)) => Some((Pubkey(address.to_bytes()), bump)),
        None => None,
    }
}

/// The values an address is derived from, after the domain tag: the
/// administrator and two further addresses.
///
/// The booth's tuple holds the two assets; a vault's tuple holds the vault's
/// asset and the booth's address.
#[derive(Debug, Clone, Copy, PartialEq, Eq)]
pub struct SeedTuple {
    /// The administrator of the booth.
    pub admin: Pubkey,
    /// Asset A for the booth; the vault's asset for a vault.
    pub second: Pubkey,
    /// Asset B for the booth; the booth's address for a vault.
    pub third: Pubkey,
}

impl SeedTuple {
    /// The seeds of the booth's address.
    pub open spec fn booth_spec(admin: Pubkey, mint_a: Pubkey, mint_b: Pubkey) -> SeedTuple {
        SeedTuple { admin, second: mint_a, third: mint_b }
    }

    /// The seeds of the address of the vault for `mint` under `booth`.
    pub open spec fn vault_spec(admin: Pubkey, mint: Pubkey, booth: Pubkey) -> SeedTuple {
        SeedTuple { admin, second: mint, third: booth }
    }

    /// The seeds as the byte strings that are hashed, in order.
    pub open spec fn seed_bytes(self) -> Seq<Seq<u8>> {
        seq![seed_tag(), self.admin@, self.second@, self.third@]
    }

    /// What deriving from these seeds under `program_id` yields.
    pub open spec fn derived(self, program_id: Pubkey) -> Option<(Pubkey, u8)> {
        derived_address(self.seed_bytes(), program_id)
    }

    /// The seeds of the booth's address.
    pub fn booth(admin: &Pubkey, mint_a: &Pubkey, mint_b: &Pubkey) -> (seeds: SeedTuple)
        ensures
            seeds == Self::booth_spec(*admin, *mint_a, *mint_b),
    {
        SeedTuple { admin: *admin, second: *mint_a, third: *mint_b }
    }

    /// The seeds of the address of the vault for `mint` under `booth`.
    pub fn vault(admin: &Pubkey, mint: &Pubkey, booth: &Pubkey) -> (seeds: SeedTuple)
        ensures
            seeds == Self::vault_spec(*admin, *mint, *booth),
    {
        SeedTuple { admin: *admin, second: *mint, third: *booth }
    }

    /// Derives the address and bump of these seeds under `program_id`.
    ///
    /// The result is a function of the seeds and the program alone, so two
    /// derivations from equal inputs agree.
    pub fn derive(&self, program_id: &Pubkey) -> (found: Option<(Pubkey, u8)>)
        ensures
            found == self.derived(*program_id),
    {
        let tag: [u8; 6] = [120, 98, 111, 111, 116, 104];
        let found = try_find_program_address(
            tag.as_slice(),
            &self.admin,
            &self.second,
            &self.third,
            program_id,
        );
        proof {
            assert(tag@ =~= seed_tag());
        }
        found
    }

    /// Derives again and compares: the bump, where `expected` is the
    /// address these seeds derive under `program_id`, and `None` where it
    /// is another address or nothing can be derived.
    pub fn verify(&self, expected: &Pubkey, program_id: &Pubkey) -> (bump: Option<u8>)
        ensures
            bump == matching_bump(self.derived(*program_id), *expected),
    {
        check_derived(self.derive(program_id), expected)
    }
}

/// The bump of a derivation that yielded `expected`; `None` for a
/// derivation that yielded another address or none.
pub open spec fn matching_bump(derived: Option<(Pubkey, u8)>, expected: Pubkey) -> Option<u8> {
    match derived {
        Some((address, bump)) => if address == expected {
            Some(bump)
        } else {
            None
        },
        None => None,
    }
}

/// Compares the outcome of a derivation with the address a caller supplied.
pub fn check_derived(derived: Option<(Pubkey, u8)>, expected: &Pubkey) -> (bump: Option<u8>)
    ensures
        bump == matching_bump(derived, *expected),
{
    match derived {
        Some((address, bump)) => {
            if address == *expected {
                Some(bump)
            } else {
                None
            }
        },
        None => None,
    }
}

/// What authorises a transfer out of a derived address: the seeds the
/// address comes from, and the bump found with them.
#[derive(Debug, Clone, Copy, PartialEq, Eq)]
pub struct DerivationProof {
    /// The seeds of the address.
    pub seeds: SeedTuple,
    /// The bump that completes them.
    pub bump: u8,
}

impl DerivationProof {
    /// The byte strings that sign for the address: the seeds, then the bump
    /// as a single byte.
    pub open spec fn signer_seeds_spec(self) -> Seq<Seq<u8>> {
        self.seeds.seed_bytes().push(seq![self.bump])
    }

    /// The byte strings to sign with, in order.
    pub fn signer_seeds(&self) -> (seeds: Vec<Vec<u8>>)
        ensures
            seeds@.map_values(|seed: Vec<u8>| seed@) == self.signer_seeds_spec(),
    {
        let tag: [u8; 6] = [120, 98, 111, 111, 116, 104];
        let mut seeds: Vec<Vec<u8>> = Vec::new();
        seeds.push(bytes_of(tag.as_slice()));
        seeds.push(bytes_of(self.seeds.admin.0.as_slice()));
        seeds.push(bytes_of(self.seeds.second.0.as_slice()));
        seeds.push(bytes_of(self.seeds.third.0.as_slice()));
        let mut last: Vec<u8> = Vec::new();
        last.push(self.bump);
        seeds.push(last);
        proof {
            assert(tag@ =~= seed_tag());
            assert(seeds[4]@ =~= seq![self.bump]);
            assert(seeds@.map_values(|seed: Vec<u8>| seed@) =~= self.signer_seeds_spec());
        }
        seeds
    }
}

/// Copies a slice of bytes into a vector.
fn bytes_of(source: &[u8]) -> (copy: Vec<u8>)
    ensures
        copy@ == source@,
{
    let mut copy: Vec<u8> = Vec::new();
    let mut i: usize = 0;
    while i < source.len()
        invariant
            i <= source.len(),
            copy@ == source@.take(i as int),
        decreases source.len() - i,
    {
        copy.push(source[i]);
        proof {
            assert(source@.take(i + 1) =~= source@.take(i as int).push(source@[i as int]));
        }
        i += 1;
    }
    proof {
        assert(source@.take(source.len() as int) =~= source@);
    }
    copy
}

/// Deriving is a function of the bytes of the seeds and of the program:
/// seed tuples and programs that hold the same bytes derive the same
/// address and the same bump, however often they are derived.
pub proof fn lemma_derive_is_deterministic(
    first: SeedTuple,
    second: SeedTuple,
    program_id: Pubkey,
    other_program_id: Pubkey,
)
    requires
        first.seed_bytes() == second.seed_bytes(),
        program_id@ == other_program_id@,
    ensures
        first.derived(program_id) == second.derived(other_program_id),
{
    lemma_pubkey_by_bytes(program_id, other_program_id);
}

} // verus!
