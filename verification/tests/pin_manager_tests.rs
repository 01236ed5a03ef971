use std::cell::RefCell;

use knockknock::pin::config::{flag_means_enabled, load_pin_enabled, save_pin_enabled};
use knockknock::pin::lockout::{check_against, record_failure, MIN_PIN_LEN};
use knockknock::pin::{
    lockout_remaining_at, LockoutState, PinManager, PinState, PinStore, LOCKOUT_DURATION, MAX_ATTEMPTS,
};

#[derive(Default)]
struct MemStore {
    hash: RefCell<Option<String>>,
    lockout: RefCell<Option<LockoutState>>,
    flag: RefCell<Option<String>>,
}

impl MemStore {
    fn with_pin(pin: &str) -> MemStore {
        let store = MemStore::default();
        *store.hash.borrow_mut() = Some(bcrypt::hash(pin, 4).unwrap());
        store
    }
}

impl PinStore for MemStore {
    fn load_pin_hash(&self) -> Result<Option<String>, String> {
        Ok(self.hash.borrow().clone())
    }
    fn save_pin_hash(&self, hash: &str) -> Result<(), String> {
        *self.hash.borrow_mut() = Some(hash.to_string());
        Ok(())
    }
    fn remove_pin_hash(&self) -> Result<(), String> {
        *self.hash.borrow_mut() = None;
        Ok(())
    }
    fn load_lockout_state(&self) -> Result<LockoutState, String> {
        Ok(self.lockout.borrow().unwrap_or_default())
    }
    fn save_lockout_state(&self, state: &LockoutState) -> Result<(), String> {
        *self.lockout.borrow_mut() = Some(*state);
        Ok(())
    }
    fn clear_lockout_state(&self) -> Result<(), String> {
        *self.lockout.borrow_mut() = None;
        Ok(())
    }
    fn read_enabled_flag(&self) -> Result<Option<String>, String> {
        Ok(self.flag.borrow().clone())
    }
    fn write_enabled_flag(&self, text: &str) -> Result<(), String> {
        *self.flag.borrow_mut() = Some(text.to_string());
        Ok(())
    }
}

#[test]
fn three_wrong_pins_lock_for_five_minutes() {
    let mut manager = PinManager::new(MemStore::with_pin("123456"));
    let now = 1_000;
    assert_eq!(manager.verify_pin_at("000000", now), Ok(false));
    assert_eq!(manager.verify_pin_at("000000", now), Ok(false));
    assert_eq!(manager.lockout_remaining_at(now), None);
    assert_eq!(manager.verify_pin_at("000000", now), Ok(false));
    assert_eq!(manager.lockout_remaining_at(now), Some(LOCKOUT_DURATION));
    assert_eq!(manager.current_state().failed_attempts, MAX_ATTEMPTS);
}

#[test]
fn a_locked_manager_refuses_even_the_right_pin() {
    let mut manager = PinManager::new(MemStore::with_pin("123456"));
    for _ in 0..3 {
        let _ = manager.verify_pin_at("000000", 50);
    }
    let before = manager.current_state();
    assert_eq!(
        manager.verify_pin_at("123456", 60),
        Err("PIN entry is locked. Try again in 290 seconds.".to_string())
    );
    assert_eq!(manager.current_state(), before);
}

#[test]
fn the_lockout_expires_and_the_right_pin_resets_it() {
    let mut manager = PinManager::new(MemStore::with_pin("123456"));
    for _ in 0..3 {
        let _ = manager.verify_pin_at("000000", 50);
    }
    assert_eq!(manager.lockout_remaining_at(50 + LOCKOUT_DURATION), None);
    assert_eq!(manager.verify_pin_at("123456", 50 + LOCKOUT_DURATION), Ok(true));
    assert_eq!(manager.current_state(), PinState::new());
}

#[test]
fn the_lockout_survives_a_restart() {
    let store = MemStore::with_pin("123456");
    let mut manager = PinManager::new(store);
    for _ in 0..3 {
        let _ = manager.verify_pin_at("000000", 50);
    }
    let persisted = manager.current_state();
    let restarted_store = MemStore::with_pin("123456");
    *restarted_store.lockout.borrow_mut() = Some(LockoutState {
        failed_attempts: persisted.failed_attempts,
        lockout_until_unix: persisted.lockout_until_unix,
    });
    let mut restarted = PinManager::new(restarted_store);
    assert_eq!(restarted.lockout_remaining_at(60), None);
    restarted.init_lockout_state().unwrap();
    assert_eq!(restarted.lockout_remaining_at(60), Some(290));
}

#[test]
fn malformed_attempts_are_not_counted() {
    let mut manager = PinManager::new(MemStore::with_pin("123456"));
    assert!(manager.verify_pin_at("12", 5).is_err());
    assert!(manager.verify_pin_at("abcdef", 5).is_err());
    assert_eq!(manager.current_state().failed_attempts, 0);
}

#[test]
fn without_a_pin_every_well_formed_attempt_passes() {
    let mut manager = PinManager::new(MemStore::default());
    assert!(!manager.is_pin_enabled());
    assert_eq!(manager.verify_pin_at("999999", 5), Ok(true));
}

#[test]
fn setting_up_a_pin_stores_a_hash_that_verifies() {
    let store = MemStore::default();
    let mut manager = PinManager::new(store);
    manager.setup_pin("246810").unwrap();
    assert!(manager.is_pin_enabled());
    assert_eq!(manager.verify_pin_at("246810", 7), Ok(true));
}

#[test]
fn a_badly_formed_new_pin_is_refused() {
    let mut manager = PinManager::new(MemStore::default());
    assert_eq!(
        manager.setup_pin("123"),
        Err("PIN must be between 6 and 32 characters".to_string())
    );
    assert_eq!(manager.setup_pin("12345x"), Err("PIN must contain only digits".to_string()));
    assert!(!manager.is_pin_enabled());
}

#[test]
fn reset_and_disable_remove_the_pin() {
    let mut manager = PinManager::new(MemStore::with_pin("123456"));
    assert_eq!(manager.reset_app("000000"), Err("Current PIN is incorrect".to_string()));
    assert!(manager.is_pin_enabled());
    manager.disable_pin().unwrap();
    assert!(!manager.is_pin_enabled());
    assert_eq!(manager.current_state(), PinState::new());
}

#[test]
fn failures_saturate_and_extend_the_lockout() {
    let state = PinState { failed_attempts: u32::MAX, lockout_until_unix: None };
    let next = record_failure(&state, u64::MAX - 10);
    assert_eq!(next.failed_attempts, u32::MAX);
    assert_eq!(next.lockout_until_unix, Some(u64::MAX));
    let two = record_failure(&record_failure(&PinState::new(), 9), 10);
    assert_eq!(two.lockout_until_unix, None);
    assert_eq!(lockout_remaining_at(&two, 10), None);
}

#[test]
fn the_enabled_flag_round_trips() {
    let store = MemStore::default();
    assert_eq!(load_pin_enabled(&store), Ok(false));
    save_pin_enabled(&store, true).unwrap();
    assert_eq!(store.flag.borrow().as_deref(), Some("1"));
    assert_eq!(load_pin_enabled(&store), Ok(true));
    save_pin_enabled(&store, false).unwrap();
    assert_eq!(load_pin_enabled(&store), Ok(false));
    assert!(flag_means_enabled(" 1\n"));
    assert!(!flag_means_enabled("true"));
}

#[test]
fn pin_length_counts_bytes() {
    assert_eq!(MIN_PIN_LEN, 6);
    assert!(knockknock::pin::validate_pin_format("１２３").is_err());
}

/// A store shared between the manager and the test, standing in for the
/// configuration directory that survives the manager.
#[derive(Clone, Default)]
struct SharedStore(std::rc::Rc<MemStore>);

impl PinStore for SharedStore {
    fn load_pin_hash(&self) -> Result<Option<String>, String> {
        self.0.load_pin_hash()
    }
    fn save_pin_hash(&self, hash: &str) -> Result<(), String> {
        self.0.save_pin_hash(hash)
    }
    fn remove_pin_hash(&self) -> Result<(), String> {
        self.0.remove_pin_hash()
    }
    fn load_lockout_state(&self) -> Result<LockoutState, String> {
        self.0.load_lockout_state()
    }
    fn save_lockout_state(&self, state: &LockoutState) -> Result<(), String> {
        self.0.save_lockout_state(state)
    }
    fn clear_lockout_state(&self) -> Result<(), String> {
        self.0.clear_lockout_state()
    }
    fn read_enabled_flag(&self) -> Result<Option<String>, String> {
        self.0.read_enabled_flag()
    }
    fn write_enabled_flag(&self, text: &str) -> Result<(), String> {
        self.0.write_enabled_flag(text)
    }
}

fn now_unix() -> u64 {
    std::time::SystemTime::now().duration_since(std::time::UNIX_EPOCH).unwrap().as_secs()
}

fn manager_with_lockout(failed_attempts: u32, until: Option<u64>) -> PinManager<SharedStore> {
    let store = SharedStore::default();
    *store.0.lockout.borrow_mut() = Some(LockoutState { failed_attempts, lockout_until_unix: until });
    let mut manager = PinManager::new(store);
    manager.init_lockout_state().unwrap();
    manager
}

#[test]
fn lockout_remaining_none_when_unlocked() {
    let manager = PinManager::new(SharedStore::default());
    assert_eq!(manager.lockout_remaining().unwrap(), None);
    assert!(!manager.is_pin_locked().unwrap());
}

#[test]
fn setup_pin_resets_lockout_state() {
    let mut manager = manager_with_lockout(MAX_ATTEMPTS, Some(now_unix() + 1000));
    assert!(manager.is_pin_locked().unwrap());

    manager.setup_pin("123456").unwrap();
    assert!(!manager.is_pin_locked().unwrap());
    assert_eq!(manager.lockout_remaining().unwrap(), None);
}

#[test]
fn verify_pin_blocks_when_locked() {
    let mut manager = manager_with_lockout(MAX_ATTEMPTS, Some(now_unix() + 60));
    let result = manager.verify_pin("123456");
    assert!(result.is_err(), "expected Err while locked, got {:?}", result);
}

#[test]
fn lockout_expires_after_duration() {
    let manager = manager_with_lockout(MAX_ATTEMPTS, Some(now_unix().saturating_sub(1)));
    assert!(!manager.is_pin_locked().unwrap());
    assert_eq!(manager.lockout_remaining().unwrap(), None);
}

#[test]
fn lockout_state_persists_to_disk() {
    let store = SharedStore::default();
    let mut manager = PinManager::new(store.clone());
    manager.persist_state(&PinState { failed_attempts: 2, lockout_until_unix: None }).unwrap();
    let loaded = store.load_lockout_state().unwrap();
    assert_eq!(loaded.failed_attempts, 2);
    assert!(loaded.lockout_until_unix.is_none());
}

#[test]
fn init_lockout_state_restores_from_disk() {
    let store = SharedStore::default();
    let locked = LockoutState { failed_attempts: MAX_ATTEMPTS, lockout_until_unix: Some(now_unix() + 120) };
    store.save_lockout_state(&locked).unwrap();

    let mut manager = PinManager::new(store);
    assert_eq!(manager.current_state().failed_attempts, 0);

    manager.init_lockout_state().unwrap();
    assert_eq!(manager.current_state().failed_attempts, MAX_ATTEMPTS);
    assert!(manager.current_state().lockout_until_unix.is_some());
}

#[test]
fn reset_app_requires_valid_pin() {
    let mut manager = PinManager::new(SharedStore::default());
    manager.setup_pin("654321").unwrap();

    assert!(manager.reset_app("000000").is_err());
    assert!(manager.is_pin_enabled());

    assert!(manager.reset_app("654321").is_ok());
    assert!(!manager.is_pin_enabled());
}

#[test]
fn change_pin_rejects_wrong_old_pin() {
    let mut manager = PinManager::new(SharedStore::default());
    manager.setup_pin("111111").unwrap();

    assert!(manager.change_pin("000000", "222222").is_err());
    assert_eq!(manager.verify_pin("111111").unwrap(), true);
    assert_eq!(manager.verify_pin("222222").unwrap(), false);
}

#[test]
fn change_pin_accepts_correct_old_pin() {
    let mut manager = PinManager::new(SharedStore::default());
    manager.setup_pin("111111").unwrap();
    manager.change_pin("111111", "222222").unwrap();

    assert_eq!(manager.verify_pin("222222").unwrap(), true);
    assert_eq!(manager.verify_pin("111111").unwrap(), false);
}

#[test]
fn a_pin_is_checked_against_the_stored_hash() {
    assert_eq!(check_against(None, "123456"), Ok(true));
    let hash = bcrypt::hash("123456", 4).unwrap();
    assert_eq!(check_against(Some(hash.clone()), "123456"), Ok(true));
    assert_eq!(check_against(Some(hash), "654321"), Ok(false));
    assert!(check_against(Some("not a hash".to_string()), "123456").is_err());
}

#[test]
fn protection_changes_need_the_current_pin() {
    let mut manager = PinManager::new(MemStore::with_pin("123456"));
    assert_eq!(manager.set_pin_enabled("000000", true), Err("PIN is incorrect".to_string()));
    assert_eq!(manager.authorize("000000"), Err("PIN is incorrect".to_string()));
    manager.set_pin_enabled("123456", true).unwrap();
    manager.authorize("123456").unwrap();

    let mut open = PinManager::new(MemStore::default());
    open.set_pin_enabled("", false).unwrap();
    open.authorize("").unwrap();
}
