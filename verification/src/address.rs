use crate::pubkey::Pubkey;
use vstd::prelude::*;
use vstd::slice::slice_subrange;
use vstd::string::*;
use vstd::utf8::encode_utf8;

verus! {

/// The longest seed, in bytes, that address derivation takes in one piece.
pub const MAX_SEED_LEN: usize = 32;

/// The program-derived address of `seeds` under `program_id`, and the bump
/// seed that it was found with; `None` where no bump seed gives one.
pub uninterp spec fn program_address(seeds: Seq<Seq<u8>>, program_id: Seq<u8>) -> Option<
    (Seq<u8>, u8),
>;

/// The program-derived address of `seeds`, the last of which is a bump seed,
/// under `program_id`; `None` where the seeds give none.
pub uninterp spec fn seeded_address(seeds: Seq<Seq<u8>>, program_id: Seq<u8>) -> Option<Seq<u8>>;

/// The seeds of a call, as byte strings.
pub open spec fn seed_bytes(seeds: Seq<&[u8]>) -> Seq<Seq<u8>> {
    Seq::new(seeds.len(), |i: int| seeds[i]@)
}

/// A derived address and its bump seed, as mathematical values.
pub open spec fn derived(found: Option<(Pubkey, u8)>) -> Option<(Seq<u8>, u8)> {
    match found {
        Some((address, bump)) => Some((address@, bump)),
        None => None,
    }
}

/// An address that was made from seeds, as a mathematical value.
pub open spec fn made(address: Option<Pubkey>) -> Option<Seq<u8>> {
    match address {
        Some(address) => Some(address@),
        None => None,
    }
}

/// Calls `Pubkey::try_find_program_address` of `anchor_lang` (Solana's
/// program-derived addresses) on the seeds and the program id.
///
/// Trusted: what comes back depends on the seeds and the program id alone;
/// and an address that is found is the one that `create_program_address`
/// makes of the same seeds with the bump seed, as one byte, after them.
/// Nothing is claimed of which address or bump seed it is, nor of when there
/// is none.
#[verifier::external_body]
pub(crate) fn try_find_program_address(seeds: &[&[u8]], program_id: &Pubkey) -> (found: Option<
    (Pubkey, u8),
>)
    ensures
        derived(found) == program_address(seed_bytes(seeds@), program_id@),
        found matches Some((address, bump)) ==> seeded_address(
            seed_bytes(seeds@).push(seq![bump]),
            program_id@,
        ) == Some(address@),
{
    let id = anchor_lang::prelude::Pubkey::new_from_array(program_id.bytes);
    match anchor_lang::prelude::Pubkey::try_find_program_address(seeds, &id) {
        Some((address, bump)) => Some((Pubkey { bytes: address.to_bytes() }, bump)),
        None => None,
    }
}

/// Calls `Pubkey::create_program_address` of `anchor_lang` on the seeds, the
/// last of which is a bump seed, and the program id.
///
/// Trusted: what comes back depends on the seeds and the program id alone.
/// Nothing is claimed of which address it is, nor of when there is none.
#[verifier::external_body]
pub(crate) fn create_program_address(seeds: &[&[u8]], program_id: &Pubkey) -> (address: Option<
    Pubkey,
>)
    ensures
        made(address) == seeded_address(seed_bytes(seeds@), program_id@),
{
    let id = anchor_lang::prelude::Pubkey::new_from_array(program_id.bytes);
    match anchor_lang::prelude::Pubkey::create_program_address(seeds, &id) {
        Ok(address) => Some(Pubkey { bytes: address.to_bytes() }),
        Err(_) => None,
    }
}

/// The first seed of a name: the name itself, or its first 32 bytes where it
/// is longer.
pub open spec fn seed_head(seed_name: Seq<u8>) -> Seq<u8> {
    if seed_name.len() <= MAX_SEED_LEN {
        seed_name
    } else {
        seed_name.subrange(0, MAX_SEED_LEN as int)
    }
}

/// The second seed of a name: what is left of it after its first 32 bytes.
pub open spec fn seed_tail(seed_name: Seq<u8>) -> Seq<u8> {
    if seed_name.len() <= MAX_SEED_LEN {
        Seq::empty()
    } else {
        seed_name.subrange(MAX_SEED_LEN as int, seed_name.len() as int)
    }
}

/// The seeds of a commitment record: its name, then its authority.
///
/// Derivation takes no seed of more than 32 bytes, and it hashes the seeds one
/// after the other. So the name goes in as two seeds, its first 32 bytes and
/// the rest: together they are the name, whatever its length.
pub open spec fn storage_seeds(seed_name: Seq<u8>, authority: Seq<u8>) -> Seq<Seq<u8>> {
    seq![seed_head(seed_name), seed_tail(seed_name), authority]
}

/// The tag that sets the seeds of a batch record apart: the bytes of `batch`.
pub open spec fn batch_tag() -> Seq<u8> {
    seq![98u8, 97u8, 116u8, 99u8, 104u8]
}

/// The seeds of a batch record: the tag, the batch root, the authority.
pub open spec fn batch_seeds(batch_root: Seq<u8>, authority: Seq<u8>) -> Seq<Seq<u8>> {
    seq![batch_tag(), batch_root, authority]
}

/// Where the commitment record of `authority` under `seed_name` stands, and
/// its bump seed.
pub open spec fn storage_address(program_id: Seq<u8>, seed_name: Seq<char>, authority: Seq<u8>) -> Option<
    (Seq<u8>, u8),
> {
    program_address(storage_seeds(encode_utf8(seed_name), authority), program_id)
}

/// Where the batch record of `authority` for `batch_root` stands, and its
/// bump seed.
pub open spec fn batch_address(program_id: Seq<u8>, batch_root: Seq<u8>, authority: Seq<u8>) -> Option<
    (Seq<u8>, u8),
> {
    program_address(batch_seeds(batch_root, authority), program_id)
}

/// Where the commitment record of `authority` under `seed_name` stands if its
/// bump seed is `bump`: the address that the record's own fields give back,
/// without a search.
pub open spec fn storage_address_with_bump(
    program_id: Seq<u8>,
    seed_name: Seq<char>,
    authority: Seq<u8>,
    bump: u8,
) -> Option<Seq<u8>> {
    seeded_address(
        storage_seeds(encode_utf8(seed_name), authority).push(seq![bump]),
        program_id,
    )
}

/// Where the batch record of `authority` for `batch_root` stands if its bump
/// seed is `bump`.
pub open spec fn batch_address_with_bump(
    program_id: Seq<u8>,
    batch_root: Seq<u8>,
    authority: Seq<u8>,
    bump: u8,
) -> Option<Seq<u8>> {
    seeded_address(batch_seeds(batch_root, authority).push(seq![bump]), program_id)
}

/// Cuts a name into its two seeds.
pub fn split_seed_name(seed_name: &[u8]) -> (parts: (&[u8], &[u8]))
    ensures
        parts.0@ == seed_head(seed_name@),
        parts.1@ == seed_tail(seed_name@),
        parts.0@ + parts.1@ == seed_name@,
        parts.0@.len() <= MAX_SEED_LEN,
{
    let len = seed_name.len();
    let cut = if len <= MAX_SEED_LEN {
        len
    } else {
        MAX_SEED_LEN
    };
    let head = slice_subrange(seed_name, 0, cut);
    let tail = slice_subrange(seed_name, cut, len);
    assert(head@ =~= seed_head(seed_name@));
    assert(tail@ =~= seed_tail(seed_name@));
    assert(head@ + tail@ =~= seed_name@);
    (head, tail)
}

/// Derives the address of the commitment record that `authority` holds under
/// `seed_name`, and the bump seed that gives it: always the same two for the
/// same name, authority and program. With the bump seed the address can be
/// made again without a search.
pub fn find_storage_address(program_id: &Pubkey, seed_name: &str, authority: &Pubkey) -> (found:
    Option<(Pubkey, u8)>)
    ensures
        derived(found) == storage_address(program_id@, seed_name@, authority@),
        found matches Some((address, bump)) ==> storage_address_with_bump(
            program_id@,
            seed_name@,
            authority@,
            bump,
        ) == Some(address@),
{
    let (head, tail) = split_seed_name(seed_name.as_bytes());
    let mut seeds: Vec<&[u8]> = Vec::new();
    seeds.push(head);
    seeds.push(tail);
    seeds.push(authority.bytes.as_slice());
    assert(seed_bytes(seeds@) =~= storage_seeds(encode_utf8(seed_name@), authority@));
    try_find_program_address(seeds.as_slice(), program_id)
}

/// Derives the address of the batch record that `authority` holds for
/// `batch_root`, and the bump seed that gives it: always the same two for the
/// same root, authority and program.
pub fn find_batch_address(program_id: &Pubkey, batch_root: &[u8; 32], authority: &Pubkey) -> (found:
    Option<(Pubkey, u8)>)
    ensures
        derived(found) == batch_address(program_id@, batch_root@, authority@),
        found matches Some((address, bump)) ==> batch_address_with_bump(
            program_id@,
            batch_root@,
            authority@,
            bump,
        ) == Some(address@),
{
    let tag: [u8; 5] = [98, 97, 116, 99, 104];
    assert(tag@ =~= batch_tag());
    let mut seeds: Vec<&[u8]> = Vec::new();
    seeds.push(tag.as_slice());
    seeds.push(batch_root.as_slice());
    seeds.push(authority.bytes.as_slice());
    assert(seed_bytes(seeds@) =~= batch_seeds(batch_root@, authority@));
    try_find_program_address(seeds.as_slice(), program_id)
}

/// Makes the address of a commitment record from its name, its authority and
/// the bump seed that was recorded when it was created, without a search.
pub fn make_storage_address(
    program_id: &Pubkey,
    seed_name: &str,
    authority: &Pubkey,
    bump: u8,
) -> (address: Option<Pubkey>)
    ensures
        made(address) == storage_address_with_bump(program_id@, seed_name@, authority@, bump),
{
    let (head, tail) = split_seed_name(seed_name.as_bytes());
    let last: [u8; 1] = [bump];
    assert(last@ =~= seq![bump]);
    let mut seeds: Vec<&[u8]> = Vec::new();
    seeds.push(head);
    seeds.push(tail);
    seeds.push(authority.bytes.as_slice());
    seeds.push(last.as_slice());
    assert(seed_bytes(seeds@) =~= storage_seeds(encode_utf8(seed_name@), authority@).push(
        seq![bump],
    ));
    create_program_address(seeds.as_slice(), program_id)
}

/// Makes the address of a batch record from its root, its authority and the
/// bump seed that was recorded when it was created, without a search.
pub fn make_batch_address(
    program_id: &Pubkey,
    batch_root: &[u8; 32],
    authority: &Pubkey,
    bump: u8,
) -> (address: Option<Pubkey>)
    ensures
        made(address) == batch_address_with_bump(program_id@, batch_root@, authority@, bump),
{
    let tag: [u8; 5] = [98, 97, 116, 99, 104];
    assert(tag@ =~= batch_tag());
    let last: [u8; 1] = [bump];
    assert(last@ =~= seq![bump]);
    let mut seeds: Vec<&[u8]> = Vec::new();
    seeds.push(tag.as_slice());
    seeds.push(batch_root.as_slice());
    seeds.push(authority.bytes.as_slice());
    seeds.push(last.as_slice());
    assert(seed_bytes(seeds@) =~= batch_seeds(batch_root@, authority@).push(seq![bump]));
    create_program_address(seeds.as_slice(), program_id)
}

} // verus!
