use vstd::prelude::*;
use crate::request::AccountRef;
use crate::tomo::{Address, TomoError};
use magicblock_magic_program_api::args::ScheduleTaskArgs;
use magicblock_magic_program_api::instruction::MagicBlockInstruction;
use magicblock_magic_program_api::compat::{AccountMeta, Instruction, Pubkey};

verus! {

/// The client seed that every scheduled random event uses.
pub const CRANK_CLIENT_SEED: u8 = 42;

/// The largest value the scheduler accepts for a task id, an interval or an
/// iteration count.
pub const MAX_SCHEDULE_ARG: u64 = 0x7fff_ffff_ffff_ffff;

/// What the caller asks the scheduler for.
#[derive(Clone, Copy, Debug, PartialEq, Eq, Structural)]
pub struct ScheduleCrankArgs {
    pub task_id: u64,
    pub execution_interval_millis: u64,
    pub iterations: u64,
}

/// The addresses that a scheduled random event touches.
#[derive(Clone, Copy, Debug)]
pub struct CrankAccounts {
    pub tomo: Address,
    pub oracle_queue: Address,
    pub crank_payer: Address,
    pub program_identity: Address,
    pub vrf_program: Address,
    pub slot_hashes: Address,
    pub system_program: Address,
}

/// A fully bound invocation: the program, every account it touches, and its
/// encoded arguments.
pub struct BoundOperation {
    pub program: Address,
    pub accounts: Vec<AccountRef>,
    pub data: Vec<u8>,
}

/// The registration to hand to the scheduler: its encoded instruction, and
/// the accounts it must be given.
pub struct ScheduleRequest {
    pub data: Vec<u8>,
    pub accounts: Vec<AccountRef>,
}

/// An account reference as plain values.
pub open spec fn account_view(a: AccountRef) -> (Seq<u8>, bool, bool) {
    (a.address@, a.is_signer, a.is_writable)
}

/// A list of account references as plain values.
pub open spec fn accounts_view(s: Seq<AccountRef>) -> Seq<(Seq<u8>, bool, bool)> {
    s.map_values(|a: AccountRef| account_view(a))
}

/// The accounts a scheduled random event touches, in order: the record, the
/// queue and the companion writable, the rest read-only, none signing.
pub open spec fn crank_account_list(c: CrankAccounts) -> Seq<(Seq<u8>, bool, bool)> {
    seq![
        (c.tomo@, false, true),
        (c.oracle_queue@, false, true),
        (c.crank_payer@, false, true),
        (c.program_identity@, false, false),
        (c.vrf_program@, false, false),
        (c.slot_hashes@, false, false),
        (c.system_program@, false, false),
    ]
}

/// The bytes the scheduler's program decodes for a task `task_id` that runs
/// every `interval` milliseconds for `iterations` ticks the single
/// instruction of `program` on `accounts` with `data`.
pub uninterp spec fn schedule_task_encoding(
    task_id: int,
    interval: int,
    iterations: int,
    program: Seq<u8>,
    accounts: Seq<(Seq<u8>, bool, bool)>,
    data: Seq<u8>,
) -> Seq<u8>;

/// bincode's error, carried through as an opaque value.
#[verifier::external_type_specification]
#[verifier::external_body]
pub struct ExBincodeErrorKind(bincode::ErrorKind);

/// Relies on bincode::serialize of
/// magicblock_magic_program_api::instruction::MagicBlockInstruction::ScheduleTask
/// holding one instruction: the bytes the scheduler's program decodes. The
/// default options set no size limit and every sequence here has a known
/// length, so the encoding always succeeds.
#[verifier::external_body]
fn serialize_schedule_task(task_id: i64, interval: i64, iterations: i64, op: &BoundOperation) -> (r:
    Result<Vec<u8>, Box<bincode::ErrorKind>>)
    ensures
        r is Ok,
        r matches Ok(b) ==> b@ == schedule_task_encoding(
            task_id as int,
            interval as int,
            iterations as int,
            op.program@,
            accounts_view(op.accounts@),
            op.data@,
        ),
{
    let accounts = op.accounts.iter().map(
        |a| AccountMeta { pubkey: Pubkey::from(a.address), is_signer: a.is_signer, is_writable: a.is_writable },
    ).collect();
    let ix = Instruction { program_id: Pubkey::from(op.program), accounts, data: op.data.clone() };
    bincode::serialize(
        &MagicBlockInstruction::ScheduleTask(
            ScheduleTaskArgs { task_id, execution_interval_millis: interval, iterations, instructions: vec![ix] },
        ),
    )
}

/// The accounts the scheduler must be given to register the crank: the
/// paying caller, writable and signing, then every account of the scheduled
/// operation.
pub open spec fn schedule_account_list(payer: Address, c: CrankAccounts) -> Seq<(Seq<u8>, bool, bool)> {
    seq![(payer@, true, true)] + crank_account_list(c)
}

/// The encoded arguments of a scheduled random event invoked through
/// `selector`.
pub open spec fn crank_data(selector: Seq<u8>) -> Seq<u8> {
    selector.push(CRANK_CLIENT_SEED)
}

/// Whether every scheduling argument fits the scheduler's encoding.
pub open spec fn args_fit(args: ScheduleCrankArgs) -> bool {
    &&& args.task_id <= MAX_SCHEDULE_ARG
    &&& args.execution_interval_millis <= MAX_SCHEDULE_ARG
    &&& args.iterations <= MAX_SCHEDULE_ARG
}

fn push_account(v: &mut Vec<AccountRef>, address: Address, is_signer: bool, is_writable: bool)
    ensures
        accounts_view(final(v)@) == accounts_view(old(v)@).push((address@, is_signer, is_writable)),
{
    v.push(AccountRef { address, is_signer, is_writable });
    assert(accounts_view(v@) =~= accounts_view(old(v)@).push((address@, is_signer, is_writable)));
}

fn push_crank_accounts(v: &mut Vec<AccountRef>, c: &CrankAccounts)
    ensures
        accounts_view(final(v)@) == accounts_view(old(v)@) + crank_account_list(*c),
{
    push_account(v, c.tomo, false, true);
    push_account(v, c.oracle_queue, false, true);
    push_account(v, c.crank_payer, false, true);
    push_account(v, c.program_identity, false, false);
    push_account(v, c.vrf_program, false, false);
    push_account(v, c.slot_hashes, false, false);
    push_account(v, c.system_program, false, false);
    assert(accounts_view(v@) =~= accounts_view(old(v)@) + crank_account_list(*c));
}

/// The random event that each scheduled tick runs: `program`'s operation
/// named by `selector`, bound to the accounts `c` and the fixed crank seed.
pub fn crank_operation(c: &CrankAccounts, program: Address, selector: [u8; 8]) -> (r: BoundOperation)
    ensures
        r.program@ == program@,
        accounts_view(r.accounts@) == crank_account_list(*c),
        r.data@ == crank_data(selector@),
{
    let mut accounts: Vec<AccountRef> = Vec::new();
    push_crank_accounts(&mut accounts, c);
    assert(accounts_view(Seq::<AccountRef>::empty()) =~= Seq::empty());
    assert(accounts_view(accounts@) =~= crank_account_list(*c));
    let mut data: Vec<u8> = Vec::new();
    let mut i: usize = 0;
    while i < 8
        invariant
            i <= 8,
            selector@.len() == 8,
            data@ == selector@.subrange(0, i as int),
        decreases 8 - i,
    {
        data.push(selector[i]);
        i = i + 1;
        assert(data@ =~= selector@.subrange(0, i as int));
    }
    data.push(CRANK_CLIENT_SEED);
    assert(data@ =~= crank_data(selector@));
    BoundOperation { program, accounts, data }
}

/// Registers a recurring random event with the scheduler: every
/// `execution_interval_millis` milliseconds, `iterations` times, the crank
/// operation of `program` (invoked through `selector`) runs on the accounts
/// `c`, paid by the record's companion. Refused with `InvalidArgument` when
/// an argument does not fit the scheduler's encoding; it succeeds otherwise.
pub fn start_random_events(
    args: ScheduleCrankArgs,
    payer: Address,
    c: &CrankAccounts,
    program: Address,
    selector: [u8; 8],
) -> (r: Result<ScheduleRequest, TomoError>)
    ensures
        !args_fit(args) <==> r == Err::<ScheduleRequest, TomoError>(TomoError::InvalidArgument),
        args_fit(args) ==> r is Ok,
        r matches Ok(q) ==> {
            &&& q.data@ == schedule_task_encoding(
                args.task_id as int,
                args.execution_interval_millis as int,
                args.iterations as int,
                program@,
                crank_account_list(*c),
                crank_data(selector@),
            )
            &&& accounts_view(q.accounts@) == schedule_account_list(payer, *c)
        },
{
    if args.task_id > MAX_SCHEDULE_ARG || args.execution_interval_millis > MAX_SCHEDULE_ARG
        || args.iterations > MAX_SCHEDULE_ARG {
        return Err(TomoError::InvalidArgument);
    }
    let op = crank_operation(c, program, selector);
    let data = match serialize_schedule_task(
        args.task_id as i64,
        args.execution_interval_millis as i64,
        args.iterations as i64,
        &op,
    ) {
        Ok(d) => d,
        Err(_) => {
            return Err(TomoError::SerializationFailed);
        },
    };
    let mut accounts: Vec<AccountRef> = Vec::new();
    push_account(&mut accounts, payer, true, true);
    push_crank_accounts(&mut accounts, c);
    assert(accounts_view(Seq::<AccountRef>::empty()) =~= Seq::empty());
    assert(accounts_view(accounts@) =~= schedule_account_list(payer, *c));
    Ok(ScheduleRequest { data, accounts })
}

} // verus!
