use vstd::prelude::*;
use anchor_lang::prelude::Pubkey;
use crate::schedule::CrankAccounts;
use crate::tomo::Address;

verus! {

/// The namespace of creature records: `b"tomo1"`.
pub open spec fn tomo_namespace() -> Seq<u8> {
    seq![116u8, 111, 109, 111, 49]
}

/// The namespace of companion payer records: `b"crank_payer"`.
pub open spec fn crank_payer_namespace() -> Seq<u8> {
    seq![99u8, 114, 97, 110, 107, 95, 112, 97, 121, 101, 114]
}

/// The seed of the program's oracle identity: `b"identity"`.
pub open spec fn identity_namespace() -> Seq<u8> {
    seq![105u8, 100, 101, 110, 116, 105, 116, 121]
}

/// Seeds as plain byte sequences.
pub open spec fn seeds_view(seeds: Seq<Vec<u8>>) -> Seq<Seq<u8>> {
    seeds.map_values(|s: Vec<u8>| s@)
}

/// The address and bump that `program` derives from `seeds`, or `None` when
/// the seeds are unusable or no bump gives a valid derived address.
pub uninterp spec fn program_address_of(seeds: Seq<Seq<u8>>, program: Seq<u8>) -> Option<(Seq<u8>, u8)>;

/// Relies on Pubkey::try_find_program_address: the derived address and bump
/// of `seeds` under `program`, which depend on those alone, or `None`.
#[verifier::external_body]
fn try_find_program_address(seeds: &Vec<Vec<u8>>, program: &Address) -> (r: Option<(Address, u8)>)
    ensures
        r is None <==> program_address_of(seeds_view(seeds@), program@) is None,
        r matches Some(p) ==> program_address_of(seeds_view(seeds@), program@) == Some((p.0@, p.1)),
{
    let s: Vec<&[u8]> = seeds.iter().map(|v| v.as_slice()).collect();
    Pubkey::try_find_program_address(&s, &Pubkey::new_from_array(*program)).map(|(a, b)| (a.to_bytes(), b))
}

fn bytes_of(s: &[u8]) -> (r: Vec<u8>)
    ensures
        r@ == s@,
{
    let mut r: Vec<u8> = Vec::new();
    let mut i: usize = 0;
    while i < s.len()
        invariant
            i <= s@.len(),
            r@ == s@.subrange(0, i as int),
        decreases s@.len() - i,
    {
        r.push(s[i]);
        i = i + 1;
        assert(r@ =~= s@.subrange(0, i as int));
    }
    assert(r@ =~= s@);
    r
}

fn tomo_seed() -> (r: Vec<u8>)
    ensures
        r@ == tomo_namespace(),
{
    let r = vec![116u8, 111, 109, 111, 49];
    assert(r@ =~= tomo_namespace());
    r
}

fn crank_payer_seed() -> (r: Vec<u8>)
    ensures
        r@ == crank_payer_namespace(),
{
    let r = vec![99u8, 114, 97, 110, 107, 95, 112, 97, 121, 101, 114];
    assert(r@ =~= crank_payer_namespace());
    r
}

fn identity_seed() -> (r: Vec<u8>)
    ensures
        r@ == identity_namespace(),
{
    let r = vec![105u8, 100, 101, 110, 116, 105, 116, 121];
    assert(r@ =~= identity_namespace());
    r
}

/// The address of the creature record keyed by the bytes `uid`, derived by
/// `program` from the creature namespace and `uid`.
pub fn tomo_address(uid: &[u8], program: &Address) -> (r: Option<(Address, u8)>)
    ensures
        r is None <==> program_address_of(seq![tomo_namespace(), uid@], program@) is None,
        r matches Some(p) ==> program_address_of(seq![tomo_namespace(), uid@], program@) == Some(
            (p.0@, p.1),
        ),
{
    let mut seeds: Vec<Vec<u8>> = Vec::new();
    seeds.push(tomo_seed());
    seeds.push(bytes_of(uid));
    assert(seeds_view(seeds@) =~= seq![tomo_namespace(), uid@]);
    try_find_program_address(&seeds, program)
}

/// The address of the companion payer of the creature record at `tomo`,
/// derived by `program` from the companion namespace and `tomo`.
pub fn crank_payer_address(tomo: &Address, program: &Address) -> (r: Option<(Address, u8)>)
    ensures
        r is None <==> program_address_of(seq![crank_payer_namespace(), tomo@], program@) is None,
        r matches Some(p) ==> program_address_of(seq![crank_payer_namespace(), tomo@], program@)
            == Some((p.0@, p.1)),
{
    let mut seeds: Vec<Vec<u8>> = Vec::new();
    seeds.push(crank_payer_seed());
    seeds.push(bytes_of(tomo.as_slice()));
    assert(seeds_view(seeds@) =~= seq![crank_payer_namespace(), tomo@]);
    try_find_program_address(&seeds, program)
}

/// The address of `program`'s oracle identity.
pub fn program_identity_address(program: &Address) -> (r: Option<(Address, u8)>)
    ensures
        r is None <==> program_address_of(seq![identity_namespace()], program@) is None,
        r matches Some(p) ==> program_address_of(seq![identity_namespace()], program@) == Some(
            (p.0@, p.1),
        ),
{
    let mut seeds: Vec<Vec<u8>> = Vec::new();
    seeds.push(identity_seed());
    assert(seeds_view(seeds@) =~= seq![identity_namespace()]);
    try_find_program_address(&seeds, program)
}

/// The accounts of the scheduled random event on the record at `tomo`: its
/// companion and the program's oracle identity are derived by `program`;
/// `None` when either derivation fails.
pub fn crank_accounts_for(
    tomo: Address,
    oracle_queue: Address,
    program: Address,
    vrf_program: Address,
    slot_hashes: Address,
    system_program: Address,
) -> (r: Option<CrankAccounts>)
    ensures
        r is None <==> (program_address_of(seq![crank_payer_namespace(), tomo@], program@) is None
            || program_address_of(seq![identity_namespace()], program@) is None),
        r matches Some(c) ==> {
            &&& c.tomo@ == tomo@
            &&& c.oracle_queue@ == oracle_queue@
            &&& program_address_of(seq![crank_payer_namespace(), tomo@], program@) matches Some(p)
                && c.crank_payer@ == p.0
            &&& program_address_of(seq![identity_namespace()], program@) matches Some(p)
                && c.program_identity@ == p.0
            &&& c.vrf_program@ == vrf_program@
            &&& c.slot_hashes@ == slot_hashes@
            &&& c.system_program@ == system_program@
        },
{
    let crank_payer = match crank_payer_address(&tomo, &program) {
        Some(p) => p.0,
        None => {
            return None;
        },
    };
    let identity = match program_identity_address(&program) {
        Some(p) => p.0,
        None => {
            return None;
        },
    };
    Some(
        CrankAccounts {
            tomo,
            oracle_queue,
            crank_payer,
            program_identity: identity,
            vrf_program,
            slot_hashes,
            system_program,
        },
    )
}

} // verus!
