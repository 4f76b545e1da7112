use tomo::delegation::{Placement, Venue};
use tomo::draw::draw_in_range;
use tomo::request::{open_item_drop, random_event, random_event_crank, Callback, Payer};
use tomo::schedule::{crank_operation, start_random_events, CrankAccounts, ScheduleCrankArgs};
use tomo::store::RecordStore;
use tomo::tomo::{lowest_empty_slot, same_address, ItemRange, Tomo, TomoError};

const ALICE: [u8; 32] = [7; 32];
const MALLORY: [u8; 32] = [9; 32];
const ORACLE: [u8; 32] = [1; 32];

fn fresh() -> Tomo {
    Tomo::init(ALICE, "alice", 1_000).unwrap()
}

fn bytes_ending_in(last: u8) -> [u8; 32] {
    let mut b = [0u8; 32];
    b[31] = last;
    b
}

#[test]
fn init_creates_full_hunger_record() {
    let t = fresh();
    assert_eq!(t.owner, ALICE);
    assert_eq!(t.uid, "alice");
    assert_eq!(t.hunger, 100);
    assert_eq!(t.coins, 0);
    assert_eq!(t.last_fed, 1_000);
    assert!(!t.item_drop);
    assert_eq!(t.inventory, [0u8; 8]);
}

#[test]
fn init_refuses_long_uid() {
    let long = "a".repeat(33);
    assert!(matches!(Tomo::init(ALICE, &long, 0), Err(TomoError::UidTooLong)));
    assert!(Tomo::init(ALICE, &"a".repeat(32), 0).is_ok());
}

#[test]
fn ten_coins_then_feed() {
    let mut t = fresh();
    for _ in 0..10 {
        t.get_coin();
    }
    assert_eq!(t.coins, 10);
    assert!(t.feed(2_000).is_ok());
    assert_eq!(t.coins, 0);
    assert_eq!(t.hunger, 70);
    assert_eq!(t.last_fed, 2_000);
}

#[test]
fn feed_again_without_coins_fails() {
    let mut t = fresh();
    for _ in 0..10 {
        t.get_coin();
    }
    t.feed(2_000).unwrap();
    assert_eq!(t.feed(3_000), Err(TomoError::NotEnoughCoins));
    assert_eq!(t.coins, 0);
    assert_eq!(t.hunger, 70);
    assert_eq!(t.last_fed, 2_000);
}

#[test]
fn feed_with_too_few_coins_changes_nothing() {
    let mut t = fresh();
    t.coins = 9;
    t.hunger = 55;
    assert_eq!(t.feed(5_000), Err(TomoError::NotEnoughCoins));
    assert_eq!(t.coins, 9);
    assert_eq!(t.hunger, 55);
    assert_eq!(t.last_fed, 1_000);
}

#[test]
fn feed_spends_ten_and_relieves_thirty() {
    let mut t = fresh();
    t.coins = 37;
    t.hunger = 50;
    t.feed(4_000).unwrap();
    assert_eq!(t.coins, 27);
    assert_eq!(t.hunger, 20);
}

#[test]
fn feed_saturates_hunger_at_zero() {
    let mut t = fresh();
    t.coins = 10;
    t.hunger = 10;
    t.feed(4_000).unwrap();
    assert_eq!(t.hunger, 0);
    assert_eq!(t.coins, 0);
}

#[test]
fn get_coin_counts_calls_between_other_operations() {
    let mut t = fresh();
    t.coins = 5;
    t.get_coin();
    t.trigger_item_drop();
    t.get_coin();
    assert_eq!(t.use_item(3), None);
    t.consume_random_event(&ORACLE, &ORACLE, &bytes_ending_in(50)).unwrap();
    t.get_coin();
    assert_eq!(t.coins, 8);
}

#[test]
fn trigger_item_drop_is_idempotent() {
    let mut t = fresh();
    t.trigger_item_drop();
    assert!(t.item_drop);
    t.trigger_item_drop();
    assert!(t.item_drop);
}

#[test]
fn item_drop_round_trip() {
    let mut t = fresh();
    t.trigger_item_drop();
    let req = open_item_drop(&t, [3; 32], ALICE, [4; 32], [5; 32], 11).unwrap();
    assert!(req.callback == Callback::ConsumeRandomness);
    assert_eq!(req.seed, [11u8; 32]);
    // the range [1, 9] reduces the last byte 2 to code 3
    t.consume_randomness(&ORACLE, &ORACLE, &bytes_ending_in(2), ItemRange::standard()).unwrap();
    assert_eq!(t.inventory, [3, 0, 0, 0, 0, 0, 0, 0]);
    assert!(!t.item_drop);
    assert_eq!(t.use_item(0), Some(3));
    assert_eq!(t.inventory, [0u8; 8]);
}

#[test]
fn consume_randomness_spends_drop_when_full() {
    let mut t = fresh();
    t.inventory = [1, 2, 3, 4, 5, 6, 7, 8];
    t.item_drop = true;
    t.consume_randomness(&ORACLE, &ORACLE, &bytes_ending_in(2), ItemRange::standard()).unwrap();
    assert!(!t.item_drop);
    assert_eq!(t.inventory, [1, 2, 3, 4, 5, 6, 7, 8]);
}

#[test]
fn consume_randomness_fills_lowest_empty_slot() {
    let mut t = fresh();
    t.inventory = [4, 4, 0, 7, 0, 0, 1, 0];
    t.item_drop = true;
    // the last byte is 255, above the threshold 252, so byte 30 (= 4) is used
    let mut b = bytes_ending_in(255);
    b[30] = 4;
    t.consume_randomness(&ORACLE, &ORACLE, &b, ItemRange::standard()).unwrap();
    assert_eq!(t.inventory, [4, 4, 5, 7, 0, 0, 1, 0]);
}

#[test]
fn consume_randomness_uses_configured_range() {
    let mut t = fresh();
    let narrow = ItemRange::new(1, 4).unwrap();
    t.consume_randomness(&ORACLE, &ORACLE, &bytes_ending_in(9), narrow).unwrap();
    assert_eq!(t.inventory[0], 2);
    assert!(ItemRange::new(0, 4).is_none());
    assert!(ItemRange::new(5, 4).is_none());
}

#[test]
fn callbacks_reject_other_callers() {
    let mut t = fresh();
    t.item_drop = true;
    assert_eq!(
        t.consume_randomness(&MALLORY, &ORACLE, &bytes_ending_in(2), ItemRange::standard()),
        Err(TomoError::Unauthorized)
    );
    assert!(t.item_drop);
    assert_eq!(t.inventory, [0u8; 8]);
    t.item_drop = false;
    assert_eq!(t.consume_random_event(&MALLORY, &ORACLE, &bytes_ending_in(0)), Err(TomoError::Unauthorized));
    assert!(!t.item_drop);
}

#[test]
fn use_item_absorbs_bad_index_and_empty_slot() {
    let mut t = fresh();
    t.inventory = [0, 6, 0, 0, 0, 0, 0, 2];
    assert_eq!(t.use_item(8), None);
    assert_eq!(t.use_item(200), None);
    assert_eq!(t.use_item(0), None);
    assert_eq!(t.inventory, [0, 6, 0, 0, 0, 0, 0, 2]);
    assert_eq!(t.use_item(7), Some(2));
    assert_eq!(t.inventory, [0, 6, 0, 0, 0, 0, 0, 0]);
}

#[test]
fn random_event_low_roll_grants_drop() {
    let mut t = fresh();
    // roll = 1 + 19 % 100 = 20
    t.consume_random_event(&ORACLE, &ORACLE, &bytes_ending_in(19)).unwrap();
    assert!(t.item_drop);
    t.consume_random_event(&ORACLE, &ORACLE, &bytes_ending_in(0)).unwrap();
    assert!(t.item_drop);
}

#[test]
fn random_event_high_roll_changes_nothing() {
    let mut t = fresh();
    // roll = 1 + 20 % 100 = 21
    t.consume_random_event(&ORACLE, &ORACLE, &bytes_ending_in(20)).unwrap();
    assert!(!t.item_drop);
    t.item_drop = true;
    t.consume_random_event(&ORACLE, &ORACLE, &bytes_ending_in(99)).unwrap();
    assert!(t.item_drop);
}

#[test]
fn apply_event_roll_threshold() {
    let mut t = fresh();
    t.apply_event_roll(21);
    assert!(!t.item_drop);
    t.apply_event_roll(20);
    assert!(t.item_drop);
}

#[test]
fn draw_scans_from_the_last_byte() {
    // every byte at or above the threshold 200: the last byte is reduced
    assert_eq!(draw_in_range(&[250u8; 32], 1, 100), 51);
    let mut b = [0u8; 32];
    b[31] = 250;
    assert_eq!(draw_in_range(&b, 1, 100), 1);
    b[31] = 200;
    b[30] = 7;
    assert_eq!(draw_in_range(&b, 1, 100), 8);
    assert_eq!(draw_in_range(&[255u8; 32], 1, 9), 1 + 255 % 9);
    assert_eq!(draw_in_range(&[42u8; 32], 7, 7), 7);
}

#[test]
fn lowest_empty_slot_and_same_address() {
    assert_eq!(lowest_empty_slot(&[1, 0, 0, 0, 0, 0, 0, 0]), Some(1));
    assert_eq!(lowest_empty_slot(&[1; 8]), None);
    assert!(same_address(&ALICE, &ALICE));
    assert!(!same_address(&ALICE, &MALLORY));
}

#[test]
fn open_item_drop_needs_drop_and_space() {
    let mut t = fresh();
    assert!(open_item_drop(&t, [3; 32], ALICE, [4; 32], [5; 32], 1).is_none());
    t.item_drop = true;
    t.inventory = [1; 8];
    assert!(open_item_drop(&t, [3; 32], ALICE, [4; 32], [5; 32], 1).is_none());
    t.inventory[5] = 0;
    let r = open_item_drop(&t, [3; 32], ALICE, [4; 32], [5; 32], 1).unwrap();
    assert_eq!(r.payer, ALICE);
    assert_eq!(r.oracle_queue, [4; 32]);
    assert_eq!(r.callback_program, [5; 32]);
    assert_eq!(r.accounts.len(), 1);
    assert_eq!(r.accounts[0].address, [3; 32]);
    assert!(r.accounts[0].is_writable && !r.accounts[0].is_signer);
}

#[test]
fn random_event_requests() {
    let r = random_event([3; 32], ALICE, [4; 32], [5; 32], 8);
    assert!(r.callback == Callback::ConsumeRandomEvent);
    assert!(r.signer == Payer::Caller);
    assert_eq!(r.seed, [8u8; 32]);
    let c = random_event_crank([3; 32], [6; 32], [4; 32], [5; 32], 42);
    assert!(c.callback == Callback::ConsumeRandomEvent);
    assert!(c.signer == Payer::Companion);
    assert_eq!(c.payer, [6; 32]);
    assert_eq!(c.accounts[0].address, [3; 32]);
}

#[test]
fn delegate_then_undelegate_keeps_record() {
    let mut t = fresh();
    t.coins = 12;
    t.inventory[2] = 4;
    let mut p = Placement::new(t.snapshot());
    assert!(p.delegate().is_ok());
    assert!(p.tomo_venue() == Venue::Auxiliary);
    assert!(p.crank_payer_venue == Venue::Auxiliary);
    assert!(p.undelegate().is_ok());
    assert!(p.tomo_venue() == Venue::Primary);
    let back = p.primary_view();
    assert_eq!(back.coins, 12);
    assert_eq!(back.inventory, t.inventory);
    assert_eq!(back.uid, t.uid);
    assert_eq!(back.hunger, t.hunger);
}

#[test]
fn delegated_mutations_are_invisible_until_commit() {
    let mut p = Placement::new(fresh());
    p.delegate().unwrap();
    assert_eq!(p.delegate(), Err(TomoError::AlreadyDelegated));
    let mut t = p.authoritative().snapshot();
    t.get_coin();
    p.apply(t);
    assert_eq!(p.authoritative().coins, 1);
    assert_eq!(p.primary_view().coins, 0);
    p.undelegate().unwrap();
    assert_eq!(p.primary_view().coins, 1);
    assert_eq!(p.undelegate(), Err(TomoError::NotDelegated));
    // the companion stays delegated; delegating again leaves it so
    assert!(p.crank_payer_venue == Venue::Auxiliary);
    p.delegate().unwrap();
    assert!(p.crank_payer_venue == Venue::Auxiliary);
}

const PROGRAM: [u8; 32] = [5; 32];

#[test]
fn store_keeps_one_record_per_uid() {
    let mut s = RecordStore::new();
    let alice = s.create(ALICE, "alice", &PROGRAM, 10).unwrap();
    assert_eq!(alice, tomo::address::tomo_address(b"alice", &PROGRAM).unwrap().0);
    assert_eq!(s.create(MALLORY, "alice", &PROGRAM, 11), Err(TomoError::AlreadyExists));
    assert_eq!(s.create(ALICE, &"x".repeat(40), &PROGRAM, 11), Err(TomoError::UidTooLong));
    let bob = s.create(MALLORY, "bob", &PROGRAM, 12).unwrap();
    assert_ne!(alice, bob);
    assert_eq!(s.len(), 2);
    let i = s.find(&bob).unwrap();
    assert_eq!(s.get(i).tomo.owner, MALLORY);
    assert_eq!(s.get(i).tomo.uid, "bob");
    assert!(s.get(i).crank_payer.initialized);
}

#[test]
fn store_delete_needs_owner() {
    let mut s = RecordStore::new();
    let alice = s.create(ALICE, "alice", &PROGRAM, 10).unwrap();
    assert_eq!(s.delete(&MALLORY, &alice), Err(TomoError::Unauthorized));
    assert_eq!(s.len(), 1);
    assert_eq!(s.delete(&ALICE, &alice), Ok(ALICE));
    assert_eq!(s.len(), 0);
    assert_eq!(s.delete(&ALICE, &alice), Err(TomoError::NotFound));
    assert!(s.create(MALLORY, "alice", &PROGRAM, 20).is_ok());
}

fn crank_accounts() -> CrankAccounts {
    CrankAccounts {
        tomo: [11; 32],
        oracle_queue: [12; 32],
        crank_payer: [13; 32],
        program_identity: [14; 32],
        vrf_program: [15; 32],
        slot_hashes: [16; 32],
        system_program: [17; 32],
    }
}

#[test]
fn crank_operation_binds_accounts_and_seed() {
    let op = crank_operation(&crank_accounts(), [5; 32], [1, 2, 3, 4, 5, 6, 7, 8]);
    assert_eq!(op.program, [5; 32]);
    assert_eq!(op.data, vec![1, 2, 3, 4, 5, 6, 7, 8, 42]);
    assert_eq!(op.accounts.len(), 7);
    assert_eq!(op.accounts[0].address, [11; 32]);
    assert!(op.accounts[2].is_writable);
    assert!(!op.accounts[3].is_writable);
    assert!(op.accounts.iter().all(|a| !a.is_signer));
}

#[test]
fn start_random_events_encodes_task() {
    let args = ScheduleCrankArgs { task_id: 3, execution_interval_millis: 1_000, iterations: 5 };
    let r = start_random_events(args, ALICE, &crank_accounts(), [5; 32], [0; 8]).unwrap();
    assert_eq!(r.accounts.len(), 8);
    assert_eq!(r.accounts[0].address, ALICE);
    assert!(r.accounts[0].is_signer && r.accounts[0].is_writable);
    assert_eq!(r.accounts[1].address, [11; 32]);
    assert_eq!(&r.data[0..4], &[6, 0, 0, 0]);
    assert_eq!(&r.data[4..12], &3i64.to_le_bytes());
    assert_eq!(&r.data[12..20], &1_000i64.to_le_bytes());
    assert_eq!(&r.data[20..28], &5i64.to_le_bytes());
}

#[test]
fn start_random_events_rejects_oversized_args() {
    let big = ScheduleCrankArgs { task_id: u64::MAX, execution_interval_millis: 1, iterations: 1 };
    assert!(matches!(
        start_random_events(big, ALICE, &crank_accounts(), [5; 32], [0; 8]),
        Err(TomoError::InvalidArgument)
    ));
    let big = ScheduleCrankArgs { task_id: 1, execution_interval_millis: 1, iterations: 1 << 63 };
    assert!(matches!(
        start_random_events(big, ALICE, &crank_accounts(), [5; 32], [0; 8]),
        Err(TomoError::InvalidArgument)
    ));
}

#[test]
fn derived_addresses_are_deterministic_and_distinct() {
    let program = [5u8; 32];
    let a = tomo::address::tomo_address(b"alice", &program).unwrap();
    let again = tomo::address::tomo_address(b"alice", &program).unwrap();
    let b = tomo::address::tomo_address(b"bob", &program).unwrap();
    assert_eq!(a, again);
    assert_ne!(a.0, b.0);
    assert_ne!(a.0, program);
    let payer = tomo::address::crank_payer_address(&a.0, &program).unwrap();
    assert_ne!(payer.0, a.0);
    assert!(tomo::address::tomo_address(&[b'x'; 33], &program).is_none());
}

#[test]
fn crank_accounts_use_derived_addresses() {
    let program = [5u8; 32];
    let t = [11u8; 32];
    let c = tomo::address::crank_accounts_for(t, [12; 32], program, [15; 32], [16; 32], [17; 32]).unwrap();
    assert_eq!(c.tomo, t);
    assert_eq!(c.crank_payer, tomo::address::crank_payer_address(&t, &program).unwrap().0);
    assert_eq!(c.program_identity, tomo::address::program_identity_address(&program).unwrap().0);
    assert_ne!(c.crank_payer, c.program_identity);
    assert_eq!(c.vrf_program, [15; 32]);
}

#[test]
fn duplicate_event_delivery_is_harmless() {
    let mut once = fresh();
    once.consume_random_event(&ORACLE, &ORACLE, &bytes_ending_in(3)).unwrap();
    let mut twice = fresh();
    twice.consume_random_event(&ORACLE, &ORACLE, &bytes_ending_in(3)).unwrap();
    twice.consume_random_event(&ORACLE, &ORACLE, &bytes_ending_in(3)).unwrap();
    assert!(once.item_drop && twice.item_drop);
    assert_eq!(once.inventory, twice.inventory);
    assert_eq!(once.coins, twice.coins);
}

#[test]
fn get_coin_counts_calls_between_feedings() {
    let mut t = fresh();
    t.coins = 3;
    for _ in 0..12 {
        t.get_coin();
    }
    t.feed(2_000).unwrap();
    t.get_coin();
    assert_eq!(t.feed(2_500), Err(TomoError::NotEnoughCoins));
    t.trigger_item_drop();
    t.get_coin();
    // 3 + 14 calls - 10 for the one successful feeding
    assert_eq!(t.coins, 7);
}
