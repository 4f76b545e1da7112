use vstd::prelude::*;
use crate::tomo::{is_full, Address, Tomo};

verus! {

/// The operation the oracle invokes with its answer.
#[derive(Clone, Copy, Debug, PartialEq, Eq, Structural)]
pub enum Callback {
    ConsumeRandomness,
    ConsumeRandomEvent,
}

/// An account that an invocation touches, with how it is touched.
#[derive(Clone, Copy, Debug)]
pub struct AccountRef {
    pub address: Address,
    pub is_signer: bool,
    pub is_writable: bool,
}

/// Who pays for and signs a randomness request.
#[derive(Clone, Copy, Debug, PartialEq, Eq, Structural)]
pub enum Payer {
    /// The external caller, with its own key.
    Caller,
    /// The companion record, signing through its derived address.
    Companion,
}

/// An outbound request for randomness. The oracle answers later by invoking
/// `callback` of `callback_program` on `accounts`.
pub struct RandomnessRequest {
    pub payer: Address,
    pub signer: Payer,
    pub oracle_queue: Address,
    pub callback_program: Address,
    pub callback: Callback,
    pub seed: [u8; 32],
    pub accounts: Vec<AccountRef>,
}

/// The seed of a request made with `client_seed`: that byte, repeated.
pub open spec fn request_seed(client_seed: u8) -> Seq<u8> {
    Seq::new(32, |i: int| client_seed)
}

/// Whether `r` is the request that `payer`, signing as `signer`, makes on
/// the queue `queue` for `callback` of `program` to touch the record at
/// `tomo`, writable, with `client_seed`.
pub open spec fn is_request_for(
    r: RandomnessRequest,
    payer: Address,
    signer: Payer,
    queue: Address,
    program: Address,
    callback: Callback,
    tomo: Address,
    client_seed: u8,
) -> bool {
    &&& r.payer@ == payer@
    &&& r.signer == signer
    &&& r.oracle_queue@ == queue@
    &&& r.callback_program@ == program@
    &&& r.callback == callback
    &&& r.seed@ == request_seed(client_seed)
    &&& r.accounts@.len() == 1
    &&& r.accounts@[0].address@ == tomo@
    &&& !r.accounts@[0].is_signer
    &&& r.accounts@[0].is_writable
}

fn build_request(
    payer: Address,
    signer: Payer,
    queue: Address,
    program: Address,
    callback: Callback,
    tomo: Address,
    client_seed: u8,
) -> (r: RandomnessRequest)
    ensures
        is_request_for(r, payer, signer, queue, program, callback, tomo, client_seed),
{
    let seed = [client_seed; 32];
    assert(seed@ =~= request_seed(client_seed));
    let mut accounts: Vec<AccountRef> = Vec::new();
    accounts.push(AccountRef { address: tomo, is_signer: false, is_writable: true });
    RandomnessRequest {
        payer,
        signer,
        oracle_queue: queue,
        callback_program: program,
        callback,
        seed,
        accounts,
    }
}

/// Asks the oracle for the randomness that opens the pending item drop of
/// `tomo`, stored at `tomo_address`. Nothing is asked, and `None` comes back,
/// when no drop is pending or the inventory has no empty slot.
pub fn open_item_drop(
    tomo: &Tomo,
    tomo_address: Address,
    payer: Address,
    queue: Address,
    program: Address,
    client_seed: u8,
) -> (r: Option<RandomnessRequest>)
    ensures
        r is None <==> (!tomo.item_drop || is_full(tomo.inventory@)),
        r matches Some(q) ==> is_request_for(
            q,
            payer,
            Payer::Caller,
            queue,
            program,
            Callback::ConsumeRandomness,
            tomo_address,
            client_seed,
        ),
{
    if !tomo.item_drop {
        return None;
    }
    if crate::tomo::lowest_empty_slot(&tomo.inventory).is_none() {
        return None;
    }
    Some(
        build_request(
            payer,
            Payer::Caller,
            queue,
            program,
            Callback::ConsumeRandomness,
            tomo_address,
            client_seed,
        ),
    )
}

/// Asks the oracle for the randomness of a random event on the record at
/// `tomo_address`, paid for by `payer`.
pub fn random_event(
    tomo_address: Address,
    payer: Address,
    queue: Address,
    program: Address,
    client_seed: u8,
) -> (r: RandomnessRequest)
    ensures
        is_request_for(
            r,
            payer,
            Payer::Caller,
            queue,
            program,
            Callback::ConsumeRandomEvent,
            tomo_address,
            client_seed,
        ),
{
    build_request(
        payer,
        Payer::Caller,
        queue,
        program,
        Callback::ConsumeRandomEvent,
        tomo_address,
        client_seed,
    )
}

/// The random event request that a scheduled tick makes: the record's
/// companion at `crank_payer` pays and signs through its derived address, so
/// no external key is needed. Repeating it only asks for randomness again.
pub fn random_event_crank(
    tomo_address: Address,
    crank_payer: Address,
    queue: Address,
    program: Address,
    client_seed: u8,
) -> (r: RandomnessRequest)
    ensures
        is_request_for(
            r,
            crank_payer,
            Payer::Companion,
            queue,
            program,
            Callback::ConsumeRandomEvent,
            tomo_address,
            client_seed,
        ),
{
    build_request(
        crank_payer,
        Payer::Companion,
        queue,
        program,
        Callback::ConsumeRandomEvent,
        tomo_address,
        client_seed,
    )
}

} // verus!
