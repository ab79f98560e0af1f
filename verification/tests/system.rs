use rsm_en::runtime::RuntimeConfig;
use rsm_en::system::{Pallet, SystemConfig};

#[derive(Debug)]
struct Narrow;

impl SystemConfig for Narrow {
    type AccountId = String;
    type BlockNumber = u8;
    type Nonce = u8;
}

fn name(s: &str) -> String {
    s.to_string()
}

#[test]
fn new_system_starts_at_zero() {
    let system: Pallet<RuntimeConfig> = Pallet::new();
    assert_eq!(system.block_number(), 0);
    assert_eq!(system.get_nonce(name("Alice")), 0);
}

#[test]
fn inc_block_number_once() {
    let mut system: Pallet<RuntimeConfig> = Pallet::new();
    system.inc_block_number();
    assert_eq!(system.block_number(), 1);
}

#[test]
fn inc_block_number_leaves_nonces_alone() {
    let mut system: Pallet<RuntimeConfig> = Pallet::new();
    system.inc_nonce(name("Alice"));
    system.inc_block_number();
    system.inc_block_number();
    assert_eq!(system.block_number(), 2);
    assert_eq!(system.get_nonce(name("Alice")), 1);
}

#[test]
fn inc_nonce_once() {
    let mut system: Pallet<RuntimeConfig> = Pallet::new();
    system.inc_nonce(name("Alice"));
    assert_eq!(system.get_nonce(name("Alice")), 1);
    assert_eq!(system.get_nonce(name("Bob")), 0);
    assert_eq!(system.block_number(), 0);
}

#[test]
fn inc_nonce_many_times() {
    let mut system: Pallet<RuntimeConfig> = Pallet::new();
    for _ in 0..1000 {
        system.inc_nonce(name("Alice"));
    }
    for _ in 0..3 {
        system.inc_nonce(name("Bob"));
    }
    assert_eq!(system.get_nonce(name("Alice")), 1000);
    assert_eq!(system.get_nonce(name("Bob")), 3);
}

#[test]
fn block_counter_resets_after_top_of_range() {
    let mut system: Pallet<Narrow> = Pallet::new();
    for _ in 0..255 {
        system.inc_block_number();
    }
    assert_eq!(system.block_number(), 255);
    system.inc_block_number();
    assert_eq!(system.block_number(), 0);
    system.inc_block_number();
    assert_eq!(system.block_number(), 1);
}

#[test]
fn nonce_resets_after_top_of_range() {
    let mut system: Pallet<Narrow> = Pallet::new();
    for _ in 0..255 {
        system.inc_nonce(name("Alice"));
    }
    system.inc_nonce(name("Bob"));
    assert_eq!(system.get_nonce(name("Alice")), 255);
    system.inc_nonce(name("Alice"));
    assert_eq!(system.get_nonce(name("Alice")), 0);
    assert_eq!(system.get_nonce(name("Bob")), 1);
}
