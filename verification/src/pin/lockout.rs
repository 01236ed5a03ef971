//! The PIN lockout state machine and the PIN operations built on it.

use vstd::prelude::*;
use crate::pin::config::{LockoutState, PinStore};
use crate::text::{cat3, chars_of, u64_to_string};
use crate::clock::unix_now_secs;

verus! {

/// Failed attempts that trigger a lockout.
pub const MAX_ATTEMPTS: u32 = 3;

/// Length of a lockout, in seconds.
pub const LOCKOUT_DURATION: u64 = 300;

/// Shortest accepted PIN, in bytes.
pub const MIN_PIN_LEN: usize = 6;

/// Longest accepted PIN, in bytes.
pub const MAX_PIN_LEN: usize = 32;

/// What bcrypt's `verify` returns for a password and a stored hash: `None`
/// when the hash cannot be parsed, otherwise whether the password matches.
pub uninterp spec fn bcrypt_verify_result(password: Seq<char>, hash: Seq<char>) -> Option<bool>;

/// `bcrypt::hash` with the default cost. The hash carries a fresh random
/// salt, so nothing is stated of its text; bcrypt documents that `verify`
/// accepts the password against any hash it produced, which is all this
/// contract claims.
#[verifier::external_body]
fn bcrypt_hash(password: &str) -> (r: Result<String, String>)
    ensures
        r matches Ok(h) ==> bcrypt_verify_result(password@, h@) == Some(true),
{
    bcrypt::hash(password, bcrypt::DEFAULT_COST).map_err(|e| format!("Failed to hash PIN: {}", e))
}

/// `bcrypt::verify`: its answer for the password and the stored hash, an
/// error exactly when the hash cannot be parsed.
#[verifier::external_body]
fn bcrypt_verify(password: &str, hash: &str) -> (r: Result<bool, String>)
    ensures
        r matches Ok(b) ==> bcrypt_verify_result(password@, hash@) == Some(b),
        r is Err <==> bcrypt_verify_result(password@, hash@) is None,
{
    bcrypt::verify(password, hash).map_err(|e| format!("PIN verification failed: {}", e))
}

/// The number of bytes a character takes in UTF-8.
pub open spec fn utf8_width(c: char) -> nat {
    if (c as u32) < 0x80 { 1 } else if (c as u32) < 0x800 { 2 } else if (c as u32) < 0x10000 { 3 } else { 4 }
}

/// The UTF-8 length of a text, in bytes.
pub open spec fn utf8_len(s: Seq<char>) -> nat
    decreases s.len(),
{
    if s.len() == 0 { 0 } else { utf8_len(s.drop_last()) + utf8_width(s.last()) }
}

/// A PIN of 6 to 32 bytes, all ASCII digits.
pub open spec fn pin_format_ok(pin: Seq<char>) -> bool {
    MIN_PIN_LEN <= utf8_len(pin) <= MAX_PIN_LEN && forall|i: int| 0 <= i < pin.len() ==> '0' <= #[trigger] pin[i] && pin[i] <= '9'
}

/// Checks a PIN's format: 6 to 32 bytes, then ASCII digits only.
pub fn validate_pin_format(pin: &str) -> (r: Result<(), String>)
    ensures
        r is Ok <==> pin_format_ok(pin@),
        !(MIN_PIN_LEN <= utf8_len(pin@) <= MAX_PIN_LEN) ==> (r matches Err(m)
            && m@ == "PIN must be between 6 and 32 characters"@),
{
    let c = chars_of(pin);
    let mut bytes: u128 = 0;
    let mut i: usize = 0;
    while i < c.len()
        invariant
            i <= c@.len(),
            c@ == pin@,
            bytes == utf8_len(c@.subrange(0, i as int)),
            bytes <= 4 * i,
        decreases c.len() - i,
    {
        let code: u32 = c[i] as u32;
        let w: u128 = if code < 0x80 { 1 } else if code < 0x800 { 2 } else if code < 0x10000 { 3 } else { 4 };
        assert(c@.subrange(0, i + 1).drop_last() =~= c@.subrange(0, i as int));
        bytes = bytes + w;
        i = i + 1;
    }
    assert(c@.subrange(0, c@.len() as int) =~= c@);
    if bytes < 6 || bytes > 32 {
        return Err(String::from_str("PIN must be between 6 and 32 characters"));
    }
    let mut k: usize = 0;
    while k < c.len()
        invariant
            k <= c@.len(),
            c@ == pin@,
            bytes == utf8_len(pin@),
            6 <= bytes <= 32,
            forall|q: int| 0 <= q < k ==> '0' <= #[trigger] c@[q] && c@[q] <= '9',
        decreases c.len() - k,
    {
        if !('0' <= c[k] && c[k] <= '9') {
            assert(!('0' <= pin@[k as int] && pin@[k as int] <= '9'));
            return Err(String::from_str("PIN must contain only digits"));
        }
        k = k + 1;
    }
    Ok(())
}

/// The in-memory lockout state.
#[derive(Debug, Clone, Copy, PartialEq, Eq, Structural)]
pub struct PinState {
    pub failed_attempts: u32,
    pub lockout_until_unix: Option<u64>,
}

impl PinState {
    /// No failures and no lockout.
    pub fn new() -> (r: Self)
        ensures
            r == fresh_state(),
    {
        PinState { failed_attempts: 0, lockout_until_unix: None }
    }
}

/// No failures and no lockout.
pub open spec fn fresh_state() -> PinState {
    PinState { failed_attempts: 0, lockout_until_unix: None }
}

/// The state after a wrong PIN at time `now`: one more failure, and from the
/// third failure on a lockout of five minutes from now.
pub open spec fn failed_state(s: PinState, now: u64) -> PinState {
    let failed = if s.failed_attempts == u32::MAX { u32::MAX } else { (s.failed_attempts + 1) as u32 };
    PinState {
        failed_attempts: failed,
        lockout_until_unix: if failed >= MAX_ATTEMPTS {
            Some(if now + LOCKOUT_DURATION > u64::MAX { u64::MAX } else { (now + LOCKOUT_DURATION) as u64 })
        } else {
            s.lockout_until_unix
        },
    }
}

/// Seconds of lockout left at time `now`, if any.
pub open spec fn remaining_at(s: PinState, now: u64) -> Option<u64> {
    match s.lockout_until_unix {
        None => None,
        Some(until) => if until <= now { None } else { Some((until - now) as u64) },
    }
}

/// Seconds of lockout left at time `now`, if any.
pub fn lockout_remaining_at(state: &PinState, now: u64) -> (r: Option<u64>)
    ensures
        r == remaining_at(*state, now),
{
    match state.lockout_until_unix {
        None => None,
        Some(until) => if until <= now { None } else { Some(until - now) },
    }
}

/// Records a wrong PIN at time `now`.
pub fn record_failure(state: &PinState, now: u64) -> (r: PinState)
    ensures
        r == failed_state(*state, now),
{
    let failed = state.failed_attempts.saturating_add(1);
    let lockout_until_unix = if failed >= MAX_ATTEMPTS {
        Some(now.saturating_add(LOCKOUT_DURATION))
    } else {
        state.lockout_until_unix
    };
    PinState { failed_attempts: failed, lockout_until_unix }
}

/// Three wrong PINs in a row, at one moment, from a clean state, lock PIN
/// entry for exactly the lockout duration.
pub proof fn lemma_three_failures_lock(now: u64)
    requires
        now + LOCKOUT_DURATION <= u64::MAX,
    ensures
        remaining_at(failed_state(failed_state(failed_state(fresh_state(), now), now), now), now)
            == Some(LOCKOUT_DURATION),
{
}

/// Fewer than three wrong PINs from a clean state never lock.
pub proof fn lemma_two_failures_do_not_lock(t1: u64, t2: u64, now: u64)
    ensures
        remaining_at(failed_state(failed_state(fresh_state(), t1), t2), now) is None,
{
}

/// Once locked, every further wrong PIN keeps PIN entry locked at that moment.
pub proof fn lemma_failure_keeps_lock(s: PinState, now: u64)
    requires
        s.failed_attempts >= MAX_ATTEMPTS,
        now + LOCKOUT_DURATION <= u64::MAX,
    ensures
        remaining_at(failed_state(s, now), now) == Some(LOCKOUT_DURATION),
{
}

/// A lockout set at time `now` is over once its duration has passed.
pub proof fn lemma_lockout_expires(s: PinState, now: u64, later: u64)
    requires
        failed_state(s, now).lockout_until_unix == Some((now + LOCKOUT_DURATION) as u64),
        now + LOCKOUT_DURATION <= later,
    ensures
        remaining_at(failed_state(s, now), later) is None,
{
}

/// A correct PIN clears every failure and any lockout.
pub proof fn lemma_success_resets(now: u64)
    ensures
        remaining_at(fresh_state(), now) is None,
        fresh_state().failed_attempts == 0,
{
}

/// The message shown while PIN entry is locked.
pub open spec fn locked_message(remaining: u64) -> Seq<char> {
    "PIN entry is locked. Try again in "@ + crate::text::decimal(remaining as nat) + " seconds."@
}

/// What a PIN attempt at time `now` does: while locked it is refused with
/// the remaining time and the state stays; a badly formed PIN is refused
/// without counting; a wrong PIN counts as a failure; a right one may reset
/// the state; nothing else changes it.
pub open spec fn verify_outcome(before: PinState, after: PinState, pin: Seq<char>, now: u64, r: Result<bool, String>) -> bool {
    &&& (remaining_at(before, now) matches Some(s) ==> (r matches Err(m) && m@ == locked_message(s)) && after == before)
    &&& (remaining_at(before, now) is None && !pin_format_ok(pin) ==> r is Err && after == before)
    &&& (r matches Ok(false) ==> after == failed_state(before, now)
        && exists|h: Seq<char>| #[trigger] bcrypt_verify_result(pin, h) == Some(false))
    &&& (r matches Ok(true) && after != before ==> exists|h: Seq<char>| #[trigger] bcrypt_verify_result(pin, h) == Some(true))
    &&& (r matches Ok(true) ==> after == before || after == fresh_state())
    &&& (after == before || after == fresh_state() || after == failed_state(before, now))
}

/// A call a PIN manager made to its store, with what the store answered
/// (`None` for an error).
pub enum StoreCall {
    LoadHash { answer: Option<Option<Seq<char>>> },
    SaveHash { hash: Seq<char>, ok: bool },
    RemoveHash { ok: bool },
    LoadLockout { answer: Option<PinState> },
    SaveLockout { state: PinState, ok: bool },
    ClearLockout { ok: bool },
    WriteFlag { text: Seq<char>, ok: bool },
}

/// The first call of an attempt loaded the stored hash, and the PIN checked
/// against it gave `b`.
pub open spec fn checked_against_store(t: Seq<StoreCall>, pin: Seq<char>, b: bool) -> bool {
    t.len() >= 1 && (t[0] matches StoreCall::LoadHash { answer: Some(stored) } && pin_check(stored, pin) == Some(b))
}

/// Whether a PIN passes against the stored hash: with none stored every
/// well-formed PIN passes; otherwise bcrypt's answer, `None` when the hash
/// cannot be read.
pub open spec fn pin_check(stored: Option<Seq<char>>, pin: Seq<char>) -> Option<bool> {
    match stored {
        None => Some(true),
        Some(h) => bcrypt_verify_result(pin, h),
    }
}

/// The text of an optional stored hash.
pub open spec fn hash_text(stored: Option<String>) -> Option<Seq<char>> {
    match stored {
        Some(h) => Some(h@),
        None => None,
    }
}

/// What a load of the stored hash answered, as text; `None` for an error.
pub open spec fn hash_answer(loaded: Result<Option<String>, String>) -> Option<Option<Seq<char>>> {
    match loaded {
        Ok(stored) => Some(hash_text(stored)),
        Err(_) => None,
    }
}

/// Checks a PIN against the stored hash.
pub fn check_against(stored: Option<String>, pin: &str) -> (r: Result<bool, String>)
    ensures
        match pin_check(hash_text(stored), pin@) {
            Some(b) => r == Ok::<bool, String>(b),
            None => r is Err,
        },
{
    match stored {
        None => Ok(true),
        Some(h) => bcrypt_verify(pin, h.as_str()),
    }
}

/// The store calls of a PIN attempt that got past the lockout and format
/// checks, with the state and result they lead to: the hash is loaded; a
/// failed load or an unreadable hash is an error that changes nothing;
/// without a hash the attempt passes; a right PIN clears the lockout (the
/// state is fresh even if clearing the stored counter fails), a wrong one
/// counts a failure and stores the new counter.
pub open spec fn attempt_run(
    t: Seq<StoreCall>,
    before: PinState,
    after: PinState,
    pin: Seq<char>,
    now: u64,
    r: Result<bool, String>,
) -> bool {
    t.len() >= 1 && match t[0] {
        StoreCall::LoadHash { answer: None } => t.len() == 1 && r is Err && after == before,
        StoreCall::LoadHash { answer: Some(stored) } => match pin_check(stored, pin) {
            None => t.len() == 1 && r is Err && after == before,
            Some(true) => if stored is None {
                t.len() == 1 && r == Ok::<bool, String>(true) && after == before
            } else {
                &&& after == fresh_state()
                &&& t.len() == 2
                &&& t[1] matches StoreCall::ClearLockout { ok }
                &&& (if t[1]->ClearLockout_ok { r == Ok::<bool, String>(true) } else { r is Err })
            },
            Some(false) => {
                &&& after == failed_state(before, now)
                &&& t.len() == 2
                &&& t[1] == (StoreCall::SaveLockout { state: after, ok: t[1]->SaveLockout_ok })
                &&& (if t[1]->SaveLockout_ok { r == Ok::<bool, String>(false) } else { r is Err })
            },
        },
        _ => false,
    }
}

/// PIN operations on the persisted configuration, with the lockout state
/// held in memory and mirrored to the store.
pub struct PinManager<S: PinStore> {
    state: PinState,
    store: S,
    /// Every call made to the store, in order, with its answer.
    calls: Ghost<Seq<StoreCall>>,
}

/// `after` keeps the calls of `before` and adds calls at the end.
pub open spec fn store_calls_extend(before: Seq<StoreCall>, after: Seq<StoreCall>) -> bool {
    before.len() <= after.len() && forall|i: int| 0 <= i < before.len() ==> #[trigger] after[i] == before[i]
}

/// The calls made to the store between two moments.
pub open spec fn calls_between(before: Seq<StoreCall>, after: Seq<StoreCall>) -> Seq<StoreCall> {
    after.subrange(before.len() as int, after.len() as int)
}

impl<S: PinStore> PinManager<S> {
    /// A manager with a clean in-memory state.
    pub fn new(store: S) -> (r: Self)
        ensures
            r.state() == fresh_state(),
            r.store_calls().len() == 0,
    {
        PinManager { state: PinState::new(), store, calls: Ghost(Seq::empty()) }
    }

    /// The in-memory lockout state.
    pub closed spec fn state(&self) -> PinState {
        self.state
    }

    /// The calls made to the store so far.
    pub closed spec fn store_calls(&self) -> Seq<StoreCall> {
        self.calls@
    }

    /// The in-memory lockout state.
    pub fn current_state(&self) -> (r: PinState)
        ensures
            r == self.state(),
    {
        self.state
    }

    /// Loads the persisted lockout state into memory, so that a relaunch does
    /// not lift a lockout. On failure the in-memory state is unchanged.
    pub fn init_lockout_state(&mut self) -> (r: Result<(), String>)
        ensures
            store_calls_extend(old(self).store_calls(), final(self).store_calls()),
            calls_between(old(self).store_calls(), final(self).store_calls()).len() == 1,
            calls_between(old(self).store_calls(), final(self).store_calls())[0] matches StoreCall::LoadLockout { answer }
                && match answer {
                    None => r is Err && final(self).state() == old(self).state(),
                    Some(loaded) => r is Ok && final(self).state() == loaded,
                },
    {
        let ghost before = self.calls@;
        let loaded = self.store.load_lockout_state();
        let answer = match &loaded {
            Ok(l) => Some(PinState { failed_attempts: l.failed_attempts, lockout_until_unix: l.lockout_until_unix }),
            Err(_) => None,
        };
        self.calls = Ghost(self.calls@.push(StoreCall::LoadLockout { answer }));
        assert(calls_between(before, self.calls@) =~= seq![StoreCall::LoadLockout { answer }]);
        let loaded = loaded?;
        self.state = PinState { failed_attempts: loaded.failed_attempts, lockout_until_unix: loaded.lockout_until_unix };
        Ok(())
    }

    /// Mirrors a state to the store.
    pub fn persist_state(&mut self, state: &PinState) -> (r: Result<(), String>)
        ensures
            final(self).state() == old(self).state(),
            final(self).store_calls() == old(self).store_calls().push(StoreCall::SaveLockout { state: *state, ok: r is Ok }),
    {
        let r = self.store.save_lockout_state(
            &LockoutState { failed_attempts: state.failed_attempts, lockout_until_unix: state.lockout_until_unix },
        );
        self.calls = Ghost(self.calls@.push(StoreCall::SaveLockout { state: *state, ok: r is Ok }));
        r
    }

    /// Configures a new PIN, replacing any existing one, and clears the
    /// lockout once the hash is stored. The stored hash is one bcrypt
    /// accepts the PIN against.
    pub fn setup_pin(&mut self, pin: &str) -> (r: Result<(), String>)
        ensures
            !pin_format_ok(pin@) ==> r is Err && final(self).state() == old(self).state()
                && final(self).store_calls() == old(self).store_calls(),
            r is Ok ==> final(self).state() == fresh_state(),
            r is Ok ==> exists|h: Seq<char>| #[trigger] bcrypt_verify_result(pin@, h) == Some(true),
            store_calls_extend(old(self).store_calls(), final(self).store_calls()),
            pin_format_ok(pin@) ==> setup_run(calls_between(old(self).store_calls(), final(self).store_calls()),
                old(self).state(), final(self).state(), pin@, r),
    {
        let ghost before = self.calls@;
        validate_pin_format(pin)?;
        let hashed = match bcrypt_hash(pin) {
            Ok(h) => h,
            Err(e) => {
                assert(calls_between(before, self.calls@) =~= Seq::<StoreCall>::empty());
                return Err(e);
            },
        };
        assert(bcrypt_verify_result(pin@, hashed@) == Some(true));
        let saved = self.store.save_pin_hash(hashed.as_str());
        let ghost c0 = StoreCall::SaveHash { hash: hashed@, ok: saved is Ok };
        self.calls = Ghost(self.calls@.push(c0));
        if let Err(e) = saved {
            assert(calls_between(before, self.calls@) =~= seq![c0]);
            return Err(e);
        }
        self.state = PinState::new();
        let cleared = self.store.clear_lockout_state();
        let ghost c1 = StoreCall::ClearLockout { ok: cleared is Ok };
        self.calls = Ghost(self.calls@.push(c1));
        assert(calls_between(before, self.calls@) =~= seq![c0, c1]);
        cleared?;
        Ok(())
    }

    /// Seconds of lockout left at time `now`, if any.
    pub fn lockout_remaining_at(&self, now: u64) -> (r: Option<u64>)
        ensures
            r == remaining_at(self.state(), now),
    {
        lockout_remaining_at(&self.state, now)
    }

    /// Seconds of lockout left now, if any.
    pub fn lockout_remaining(&self) -> (r: Result<Option<u64>, String>)
        ensures
            r matches Ok(v) && exists|now: u64| v == #[trigger] remaining_at(self.state(), now),
    {
        Ok(lockout_remaining_at(&self.state, unix_now_secs()))
    }

    /// Whether PIN entry is locked now.
    pub fn is_pin_locked(&self) -> (r: Result<bool, String>)
        ensures
            r matches Ok(locked) && exists|now: u64| locked == (#[trigger] remaining_at(self.state(), now)) is Some,
            self.state().lockout_until_unix is None ==> r == Ok::<bool, String>(false),
    {
        Ok(lockout_remaining_at(&self.state, unix_now_secs()).is_some())
    }

    /// Checks a PIN attempt at time `now`. While locked the attempt is
    /// refused before anything else and the state stays as it is; a badly
    /// formed PIN is refused without counting; without a configured PIN
    /// every well-formed attempt passes. A correct PIN clears the lockout
    /// state; a wrong one counts as a failure and may start a lockout. What
    /// the store answered decides, as `attempt_run` states.
    pub fn verify_pin_at(&mut self, pin: &str, now: u64) -> (r: Result<bool, String>)
        ensures
            verify_outcome(old(self).state(), final(self).state(), pin@, now, r),
            store_calls_extend(old(self).store_calls(), final(self).store_calls()),
            (remaining_at(old(self).state(), now) is Some || !pin_format_ok(pin@))
                ==> final(self).store_calls() == old(self).store_calls(),
            (remaining_at(old(self).state(), now) is None && pin_format_ok(pin@)) ==> attempt_run(
                calls_between(old(self).store_calls(), final(self).store_calls()), old(self).state(),
                final(self).state(), pin@, now, r),
            r matches Ok(b) ==> checked_against_store(calls_between(old(self).store_calls(), final(self).store_calls()), pin@, b),
    {
        let ghost before = self.calls@;
        let ghost state0 = self.state;
        if let Some(remaining) = lockout_remaining_at(&self.state, now) {
            let secs = u64_to_string(remaining);
            return Err(cat3("PIN entry is locked. Try again in ", secs.as_str(), " seconds."));
        }
        validate_pin_format(pin)?;
        let loaded = self.store.load_pin_hash();
        let ghost c0 = StoreCall::LoadHash { answer: hash_answer(loaded) };
        self.calls = Ghost(self.calls@.push(c0));
        assert(calls_between(before, self.calls@) =~= seq![c0]);
        let stored = loaded?;
        let ghost stored_text: Option<Seq<char>> = hash_text(stored);
        let configured = stored.is_some();
        let valid = check_against(stored, pin)?;
        if !configured {
            return Ok(true);
        }
        assert(bcrypt_verify_result(pin@, stored_text->Some_0) == Some(valid));
        if valid {
            self.state = PinState::new();
            let cleared = self.store.clear_lockout_state();
            let ghost c1 = StoreCall::ClearLockout { ok: cleared is Ok };
            self.calls = Ghost(self.calls@.push(c1));
            assert(calls_between(before, self.calls@) =~= seq![c0, c1]);
            cleared?;
        } else {
            self.state = record_failure(&self.state, now);
            let snapshot = self.state;
            let saved = self.persist_state(&snapshot);
            assert(calls_between(before, self.calls@) =~= seq![c0, self.calls@.last()]);
            saved?;
        }
        Ok(valid)
    }

    /// Checks a PIN attempt now.
    pub fn verify_pin(&mut self, pin: &str) -> (r: Result<bool, String>)
        ensures
            exists|now: u64| #[trigger] verify_outcome(old(self).state(), final(self).state(), pin@, now, r),
            store_calls_extend(old(self).store_calls(), final(self).store_calls()),
            r matches Ok(b) ==> checked_against_store(calls_between(old(self).store_calls(), final(self).store_calls()), pin@, b),
    {
        let now = unix_now_secs();
        self.verify_pin_at(pin, now)
    }

    /// Changes the PIN; the current PIN must be accepted first.
    pub fn change_pin(&mut self, old_pin: &str, new_pin: &str) -> (r: Result<(), String>)
        ensures
            r is Ok ==> pin_format_ok(old_pin@) && pin_format_ok(new_pin@) && final(self).state() == fresh_state(),
            r is Ok ==> exists|h: Seq<char>| #[trigger] bcrypt_verify_result(new_pin@, h) == Some(true),
            !pin_format_ok(new_pin@) ==> r is Err,
            store_calls_extend(old(self).store_calls(), final(self).store_calls()),
            r is Ok ==> checked_against_store(calls_between(old(self).store_calls(), final(self).store_calls()), old_pin@, true),
            r is Ok ==> exists|k: int| old(self).store_calls().len() <= k < final(self).store_calls().len()
                && (#[trigger] final(self).store_calls()[k] matches StoreCall::SaveHash { hash, ok: true }
                && bcrypt_verify_result(new_pin@, hash) == Some(true)),
    {
        let ghost before = self.calls@;
        if !self.verify_pin(old_pin)? {
            return Err(String::from_str("Current PIN is incorrect"));
        }
        let ghost mid = self.calls@;
        let r = self.setup_pin(new_pin);
        proof {
            let all = calls_between(old(self).store_calls(), self.calls@);
            let first = calls_between(old(self).store_calls(), mid);
            assert(all[0] == first[0]);
            if r is Ok {
                let t = calls_between(mid, self.calls@);
                assert(t[0] == self.calls@[mid.len() as int]);
            }
        }
        r
    }

    /// Removes the PIN and the lockout state; the current PIN must be
    /// accepted first. A refused PIN is answered with "Current PIN is
    /// incorrect" and removes nothing.
    pub fn reset_app(&mut self, current_pin: &str) -> (r: Result<(), String>)
        ensures
            r is Ok ==> pin_format_ok(current_pin@) && final(self).state() == fresh_state(),
            store_calls_extend(old(self).store_calls(), final(self).store_calls()),
            r is Ok ==> removal_run(calls_between(old(self).store_calls(), final(self).store_calls()).skip(
                calls_between(old(self).store_calls(), final(self).store_calls()).len() - 2)),
            r is Ok ==> checked_against_store(calls_between(old(self).store_calls(), final(self).store_calls()), current_pin@, true),
    {
        if !self.verify_pin(current_pin)? {
            return Err(String::from_str("Current PIN is incorrect"));
        }
        let ghost mid = self.calls@;
        let r = self.remove_pin_and_lockout();
        proof {
            let all = calls_between(old(self).store_calls(), self.calls@);
            let first = calls_between(old(self).store_calls(), mid);
            assert(all[0] == first[0]);
            if r is Ok {
                let t = calls_between(mid, self.calls@);
                assert(all.skip(all.len() - 2) =~= t);
            }
        }
        r
    }

    /// Whether a PIN is configured; a store that cannot be read counts as none.
    pub fn is_pin_enabled(&self) -> (r: bool) {
        match self.store.load_pin_hash() {
            Ok(Some(_)) => true,
            _ => false,
        }
    }

    fn remove_pin_and_lockout(&mut self) -> (r: Result<(), String>)
        ensures
            store_calls_extend(old(self).store_calls(), final(self).store_calls()),
            r is Ok <==> removal_run(calls_between(old(self).store_calls(), final(self).store_calls())),
            r is Ok ==> final(self).state() == fresh_state(),
            r is Err ==> final(self).state() == old(self).state(),
            calls_between(old(self).store_calls(), final(self).store_calls()).len() >= 1,
            calls_between(old(self).store_calls(), final(self).store_calls())[0] matches StoreCall::RemoveHash { .. },
    {
        let ghost before = self.calls@;
        let removed = self.store.remove_pin_hash();
        let ghost c0 = StoreCall::RemoveHash { ok: removed is Ok };
        self.calls = Ghost(self.calls@.push(c0));
        if let Err(e) = removed {
            assert(calls_between(before, self.calls@) =~= seq![c0]);
            return Err(e);
        }
        let cleared = self.store.clear_lockout_state();
        let ghost c1 = StoreCall::ClearLockout { ok: cleared is Ok };
        self.calls = Ghost(self.calls@.push(c1));
        assert(calls_between(before, self.calls@) =~= seq![c0, c1]);
        cleared?;
        self.state = PinState::new();
        Ok(())
    }

    /// Lets a protected action go ahead: when a PIN is configured the
    /// current PIN must be accepted, and a refused PIN is answered with "PIN
    /// is incorrect"; without a configured PIN nothing is asked.
    pub fn authorize(&mut self, current_pin: &str) -> (r: Result<(), String>)
        ensures
            store_calls_extend(old(self).store_calls(), final(self).store_calls()),
            calls_between(old(self).store_calls(), final(self).store_calls()).len() >= 1,
            calls_between(old(self).store_calls(), final(self).store_calls())[0] matches StoreCall::LoadHash { .. },
            r is Ok && (calls_between(old(self).store_calls(), final(self).store_calls())[0]
                matches StoreCall::LoadHash { answer: Some(Some(_)) }) ==> checked_against_store(
                calls_between(old(self).store_calls(), final(self).store_calls()).drop_first(), current_pin@, true),
    {
        let ghost before = self.calls@;
        let loaded = self.store.load_pin_hash();
        let ghost c0 = StoreCall::LoadHash { answer: hash_answer(loaded) };
        self.calls = Ghost(self.calls@.push(c0));
        let configured = match loaded {
            Ok(Some(_)) => true,
            _ => false,
        };
        if configured {
            let ghost mid = self.calls@;
            let accepted = self.verify_pin(current_pin)?;
            proof {
                let all = calls_between(before, self.calls@);
                let t = calls_between(mid, self.calls@);
                assert(all =~= seq![c0] + t);
                assert(all.drop_first() =~= t);
            }
            if !accepted {
                return Err(String::from_str("PIN is incorrect"));
            }
        }
        proof {
            let all = calls_between(before, self.calls@);
            assert(all[0] == self.calls@[before.len() as int]);
        }
        Ok(())
    }

    /// Turns PIN protection on or off. When a PIN is configured the current
    /// PIN must be accepted first; a refused PIN is answered with "PIN is
    /// incorrect" and nothing is written. The flag is written last.
    pub fn set_pin_enabled(&mut self, current_pin: &str, enabled: bool) -> (r: Result<(), String>)
        ensures
            store_calls_extend(old(self).store_calls(), final(self).store_calls()),
            r is Ok ==> calls_between(old(self).store_calls(), final(self).store_calls()).last()
                == (StoreCall::WriteFlag { text: crate::pin::config::enabled_flag_text(enabled), ok: true }),
            r is Ok && (calls_between(old(self).store_calls(), final(self).store_calls())[0]
                matches StoreCall::LoadHash { answer: Some(Some(_)) }) ==> checked_against_store(
                calls_between(old(self).store_calls(), final(self).store_calls()).drop_first(), current_pin@, true),
            calls_between(old(self).store_calls(), final(self).store_calls()).len() >= 1,
            calls_between(old(self).store_calls(), final(self).store_calls())[0] matches StoreCall::LoadHash { .. },
    {
        let ghost before = self.calls@;
        let loaded = self.store.load_pin_hash();
        let ghost c0 = StoreCall::LoadHash { answer: hash_answer(loaded) };
        self.calls = Ghost(self.calls@.push(c0));
        let configured = match loaded {
            Ok(Some(_)) => true,
            _ => false,
        };
        let ghost mut verify_calls: Seq<StoreCall> = Seq::empty();
        if configured {
            let ghost mid = self.calls@;
            let accepted = self.verify_pin(current_pin)?;
            proof {
                verify_calls = calls_between(mid, self.calls@);
            }
            if !accepted {
                return Err(String::from_str("PIN is incorrect"));
            }
        }
        let ghost mid2 = self.calls@;
        let text = if enabled { "1" } else { "0" };
        proof {
            reveal_strlit("1");
            reveal_strlit("0");
        }
        let written = self.store.write_enabled_flag(text);
        let ghost w = StoreCall::WriteFlag { text: text@, ok: written is Ok };
        self.calls = Ghost(self.calls@.push(w));
        proof {
            let all = calls_between(before, self.calls@);
            assert(all =~= seq![c0] + verify_calls + seq![w]);
            if configured {
                assert(all.drop_first() =~= verify_calls + seq![w]);
                assert(all.drop_first()[0] == verify_calls[0]);
            }
        }
        written
    }

    /// Removes the PIN and the lockout state without a check: the hash is
    /// removed, then the stored counter; only when both succeeded is the
    /// in-memory state cleared.
    pub fn disable_pin(&mut self) -> (r: Result<(), String>)
        ensures
            store_calls_extend(old(self).store_calls(), final(self).store_calls()),
            r is Ok <==> removal_run(calls_between(old(self).store_calls(), final(self).store_calls())),
            r is Ok ==> final(self).state() == fresh_state(),
            r is Err ==> final(self).state() == old(self).state(),
    {
        self.remove_pin_and_lockout()
    }
}

/// The store calls of a PIN setup past the format check: the new hash is
/// saved (one bcrypt accepts the PIN against), then the stored counter is
/// cleared; the in-memory state is fresh once the hash is saved. Nothing is
/// called when hashing fails.
pub open spec fn setup_run(t: Seq<StoreCall>, before: PinState, after: PinState, pin: Seq<char>, r: Result<(), String>) -> bool {
    if t.len() == 0 {
        r is Err && after == before
    } else {
        &&& t[0] matches StoreCall::SaveHash { hash, ok } && bcrypt_verify_result(pin, hash) == Some(true)
        &&& if !t[0]->SaveHash_ok {
            t.len() == 1 && r is Err && after == before
        } else {
            &&& after == fresh_state()
            &&& t.len() == 2
            &&& t[1] matches StoreCall::ClearLockout { ok }
            &&& (r is Ok <==> t[1]->ClearLockout_ok)
        }
    }
}

/// A successful removal: the hash, then the stored counter, both removed.
pub open spec fn removal_run(t: Seq<StoreCall>) -> bool {
    t == seq![StoreCall::RemoveHash { ok: true }, StoreCall::ClearLockout { ok: true }]
}

} // verus!
