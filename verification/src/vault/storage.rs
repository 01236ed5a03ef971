//! File persistence of the encrypted vault: one JSON file holding the
//! encrypted target list, replaced atomically through a unique temporary
//! file on every save.

use vstd::prelude::*;
use crate::pathname::{file_name, join, join_path, parent_path};
use crate::shredder::root_execution::types::{TargetKind, VaultError, VaultSchemaSource, VaultTarget};
use crate::text::{cat, cat4, decimal, seq_starts_with, u64_to_string};
use crate::vault::crypto::{aes_gcm_open, decrypt, encrypt, pbkdf2_key, sealed_from, EncryptedData, NONCE_LEN, VAULT_VERSION};

verus! {

/// The schema of the list the vault stores.
#[derive(Debug, Clone)]
pub struct VaultPayloadV2 {
    pub schema_version: u32,
    pub targets: Vec<VaultTarget>,
}

/// What loading the vault gives: the targets and the schema they came from.
#[derive(Debug, Clone)]
pub struct VaultLoadDto {
    pub source_schema: VaultSchemaSource,
    pub migration_required: bool,
    pub targets: Vec<VaultTarget>,
}

/// The shape of a decrypted vault payload as a JSON parser saw it.
#[derive(Debug)]
pub enum PayloadShape {
    /// Not JSON; the parser's message.
    Invalid(String),
    /// A JSON array, read as a list of paths (the first schema).
    Array(Result<Vec<String>, String>),
    /// A JSON object: its `schema_version` when it is a number, and the
    /// object read as the second schema.
    Object { schema_version: Option<u64>, payload: Result<Vec<VaultTarget>, String> },
    /// Any other JSON value.
    Other,
}

/// Why a temporary vault could not be created.
#[derive(Debug)]
pub enum CreateTempError {
    /// A file of that name exists already.
    AlreadyExists(VaultError),
    /// Any other failure.
    Failed(VaultError),
}

/// The views of a target list.
pub open spec fn target_paths(v: Seq<VaultTarget>) -> Seq<Seq<char>> {
    Seq::new(v.len(), |i: int| v[i].path@)
}

/// How a decrypted payload decodes: a path list becomes targets of legacy
/// kind that need migration; an object must carry schema version 2.
pub open spec fn decoded(shape: PayloadShape, r: Result<VaultLoadDto, VaultError>) -> bool {
    match shape {
        PayloadShape::Invalid(m) => r matches Err(VaultError::Decode(d)) && d@ == m@,
        PayloadShape::Other => r matches Err(VaultError::Decode(d))
            && d@ == "Vault payload must be a V1 array or V2 object"@,
        PayloadShape::Array(Err(m)) => r matches Err(VaultError::Decode(d)) && d@ == m@,
        PayloadShape::Array(Ok(paths)) => r matches Ok(dto) && dto.source_schema == VaultSchemaSource::V1
            && dto.migration_required && dto.targets@.len() == paths@.len()
            && forall|i: int| 0 <= i < paths@.len() ==> (#[trigger] dto.targets@[i]).path@ == paths@[i]@
                && dto.targets@[i].kind == TargetKind::UnknownLegacy,
        PayloadShape::Object { schema_version: None, .. } => r matches Err(VaultError::Decode(d))
            && d@ == "Missing schema_version"@,
        PayloadShape::Object { schema_version: Some(v), payload } => if v > u32::MAX {
            r matches Err(VaultError::UnsupportedSchema(s)) && s == u32::MAX
        } else if v != 2 {
            r matches Err(VaultError::UnsupportedSchema(s)) && s == v
        } else {
            match payload {
                Err(m) => r matches Err(VaultError::Decode(d)) && d@ == m@,
                Ok(targets) => r matches Ok(dto) && dto.source_schema == VaultSchemaSource::V2
                    && !dto.migration_required && dto.targets@ == targets@,
            }
        },
    }
}

/// Decodes a decrypted payload.
pub fn decode_payload(shape: PayloadShape) -> (r: Result<VaultLoadDto, VaultError>)
    ensures
        decoded(shape, r),
{
    match shape {
        PayloadShape::Invalid(m) => Err(VaultError::Decode(m)),
        PayloadShape::Other => Err(VaultError::Decode(String::from_str("Vault payload must be a V1 array or V2 object"))),
        PayloadShape::Array(Err(m)) => Err(VaultError::Decode(m)),
        PayloadShape::Array(Ok(paths)) => {
            let mut targets: Vec<VaultTarget> = Vec::new();
            let mut i: usize = 0;
            while i < paths.len()
                invariant
                    i <= paths@.len(),
                    targets@.len() == i,
                    forall|k: int| 0 <= k < i ==> (#[trigger] targets@[k]).path@ == paths@[k]@
                        && targets@[k].kind == TargetKind::UnknownLegacy,
                decreases paths.len() - i,
            {
                targets.push(VaultTarget { path: paths[i].clone(), kind: TargetKind::UnknownLegacy });
                i = i + 1;
            }
            Ok(VaultLoadDto { source_schema: VaultSchemaSource::V1, migration_required: true, targets })
        },
        PayloadShape::Object { schema_version: None, .. } => Err(VaultError::Decode(String::from_str("Missing schema_version"))),
        PayloadShape::Object { schema_version: Some(v), payload } => {
            if v > 4294967295 {
                return Err(VaultError::UnsupportedSchema(4294967295));
            }
            let version: u32 = v as u32;
            if version != 2 {
                return Err(VaultError::UnsupportedSchema(version));
            }
            match payload {
                Err(m) => Err(VaultError::Decode(m)),
                Ok(targets) => Ok(VaultLoadDto { source_schema: VaultSchemaSource::V2, migration_required: false, targets }),
            }
        },
    }
}

/// The message for a vault file whose nonce has the wrong length.
pub open spec fn bad_nonce_message() -> Seq<char> {
    "Decryption failed (wrong PIN or corrupted vault): invalid nonce length"@
}

/// Decrypts a vault file's blob under the PIN: a blob of another version is
/// an unsupported schema, a nonce of the wrong length a cryptographic error,
/// and otherwise the plaintext comes back exactly when the ciphertext
/// authenticates under the PIN's key.
pub fn open_vault_file(file: &EncryptedData, pin: &str) -> (r: Result<Vec<u8>, VaultError>)
    ensures
        file.version != VAULT_VERSION ==> (r matches Err(VaultError::UnsupportedSchema(v)) && v == file.version),
        file.version == VAULT_VERSION && file.nonce@.len() != NONCE_LEN
            ==> (r matches Err(VaultError::Crypto(m)) && m@ == bad_nonce_message()),
        file.version == VAULT_VERSION && file.nonce@.len() == NONCE_LEN ==> match aes_gcm_open(
            pbkdf2_key(pin@, file.salt@),
            file.nonce@,
            file.ciphertext@,
        ) {
            Some(p) => (r matches Ok(q) && q@ == p),
            None => r matches Err(VaultError::Crypto(_)),
        },
{
    if file.version != VAULT_VERSION {
        return Err(VaultError::UnsupportedSchema(file.version));
    }
    if file.nonce.len() != NONCE_LEN {
        return Err(VaultError::Crypto(String::from_str("Decryption failed (wrong PIN or corrupted vault): invalid nonce length")));
    }
    match decrypt(file, pin) {
        Ok(p) => Ok(p),
        Err(m) => Err(VaultError::Crypto(m)),
    }
}

/// Decimal digits of a 128-bit number.
pub fn u128_to_string(n: u128) -> (r: String)
    ensures
        r@ == decimal(n as nat),
    decreases n,
{
    let d: u128 = n % 10;
    let c = crate::text::char_from_ascii(48 + d as u32);
    if n < 10 {
        let mut r = String::new();
        crate::text::push_char(&mut r, c);
        assert(r@ =~= decimal(n as nat));
        r
    } else {
        let mut r = u128_to_string(n / 10);
        crate::text::push_char(&mut r, c);
        r
    }
}

/// The name of a temporary vault: hidden, tagged with the process and a
/// stamp, next to the vault.
pub open spec fn temp_path_text(parent: Seq<char>, name: Seq<char>, pid: u32, stamp: u128) -> Seq<char> {
    join_path(parent, "."@ + name + "."@ + decimal(pid as nat) + "."@ + decimal(stamp as nat) + ".tmp"@)
}

/// The temporary path for one attempt.
pub fn temp_path_for(parent: &str, name: &str, pid: u32, stamp: u128) -> (r: String)
    ensures
        r@ == temp_path_text(parent@, name@, pid, stamp),
{
    let p = u64_to_string(pid as u64);
    let s = u128_to_string(stamp);
    let head = cat4(".", name, ".", p.as_str());
    let tail = crate::text::cat3(".", s.as_str(), ".tmp");
    let file = cat(head.as_str(), tail.as_str());
    assert(file@ =~= "."@ + name@ + "."@ + decimal(pid as nat) + "."@ + decimal(stamp as nat) + ".tmp"@);
    join(parent, file.as_str())
}

/// A call a vault store made to its storage and codec, with its answer.
/// Creating the temporary file is not listed: it never touches the vault.
pub enum VaultCall {
    /// Whether the vault file exists.
    Exists { answer: bool },
    /// The vault file was read.
    Read { ok: bool },
    /// The file's JSON was decoded into the encrypted blob.
    DecodeFile { answer: Option<EncryptedData> },
    /// A decrypted payload was parsed.
    DecodePayload { plaintext: Seq<u8>, shape: PayloadShape },
    /// The target list was encoded as the payload.
    EncodePayload { targets: Seq<VaultTarget>, output: Option<Seq<u8>> },
    /// The encrypted blob was encoded as the file's JSON.
    EncodeFile { data: EncryptedData, output: Option<Seq<u8>> },
    /// The file bytes were written to the temporary file.
    WriteTemp { bytes: Seq<u8>, ok: bool },
    /// The temporary file was flushed.
    SyncTemp { ok: bool },
    /// The temporary file replaced (or became) the vault.
    Replace { ok: bool },
    /// The vault's directory was flushed.
    SyncParent { ok: bool },
    /// The temporary file was removed after a failure.
    CleanupTemp { ok: bool },
}

/// The bytes an encoding gave, or `None` when it failed.
pub open spec fn ok_bytes(r: Result<Vec<u8>, String>) -> Option<Seq<u8>> {
    match r {
        Ok(b) => Some(b@),
        Err(_) => None,
    }
}

/// The blob a decoding gave, or `None` when it failed.
pub open spec fn ok_file(r: Result<EncryptedData, String>) -> Option<EncryptedData> {
    match r {
        Ok(f) => Some(f),
        Err(_) => None,
    }
}

/// The calls made between two moments of a log.
pub open spec fn vault_calls_between(before: Seq<VaultCall>, after: Seq<VaultCall>) -> Seq<VaultCall> {
    after.subrange(before.len() as int, after.len() as int)
}

/// `after` keeps `before` and adds calls at the end.
pub open spec fn vault_log_extends(before: Seq<VaultCall>, after: Seq<VaultCall>) -> bool {
    before.len() <= after.len() && forall|i: int| 0 <= i < before.len() ==> #[trigger] after[i] == before[i]
}

/// A save that went through: the targets were encoded, sealed under the PIN
/// (a fresh salt and nonce), encoded as the file, written to a temporary
/// file, flushed, swapped in for the vault, and the directory flushed.
pub open spec fn saved_run(t: Seq<VaultCall>, targets: Seq<VaultTarget>, pin: Seq<char>) -> bool {
    &&& t.len() == 7
    &&& t[0] matches VaultCall::EncodePayload { targets: encoded, output: Some(plain) }
    &&& t[1] matches VaultCall::EncodeFile { data, output: Some(bytes) }
    &&& t[0]->EncodePayload_targets == targets
    &&& sealed_from(t[1]->EncodeFile_data, t[0]->EncodePayload_output->Some_0, pin)
    &&& t[2] == (VaultCall::WriteTemp { bytes: t[1]->EncodeFile_output->Some_0, ok: true })
    &&& t[3] == (VaultCall::SyncTemp { ok: true })
    &&& t[4] is Exists
    &&& t[5] == (VaultCall::Replace { ok: true })
    &&& t[6] == (VaultCall::SyncParent { ok: true })
}

/// No call of `t` swapped a temporary file in for the vault.
pub open spec fn vault_untouched(t: Seq<VaultCall>) -> bool {
    forall|i: int| 0 <= i < t.len() ==> #[trigger] t[i] != (VaultCall::Replace { ok: true })
}

/// A load: a missing vault gives an empty target list of the current
/// schema; otherwise the file is read and decoded, opened with the PIN
/// (an unknown version, a bad nonce and a failed authentication are
/// refused), and the payload decodes as `decoded` states.
pub open spec fn loaded_run(t: Seq<VaultCall>, pin: Seq<char>, r: Result<VaultLoadDto, VaultError>) -> bool {
    t.len() >= 1 && match t[0] {
        VaultCall::Exists { answer: false } => t.len() == 1 && (r matches Ok(d) && d.source_schema == VaultSchemaSource::V2
            && !d.migration_required && d.targets@.len() == 0),
        VaultCall::Exists { answer: true } => t.len() >= 2 && match t[1] {
            VaultCall::Read { ok: false } => t.len() == 2 && r is Err,
            VaultCall::Read { ok: true } => t.len() >= 3 && match t[2] {
                VaultCall::DecodeFile { answer: None } => t.len() == 3 && r matches Err(VaultError::Decode(_)),
                VaultCall::DecodeFile { answer: Some(file) } => if file.version != VAULT_VERSION {
                    t.len() == 3 && (r matches Err(VaultError::UnsupportedSchema(v)) && v == file.version)
                } else if file.nonce@.len() != NONCE_LEN {
                    t.len() == 3 && (r matches Err(VaultError::Crypto(m)) && m@ == bad_nonce_message())
                } else {
                    match aes_gcm_open(pbkdf2_key(pin, file.salt@), file.nonce@, file.ciphertext@) {
                        None => t.len() == 3 && r matches Err(VaultError::Crypto(_)),
                        Some(p) => t.len() == 4 && (t[3] matches VaultCall::DecodePayload { plaintext, shape }
                            && plaintext == p && decoded(shape, r)),
                    }
                },
                _ => false,
            },
            _ => false,
        },
        _ => false,
    }
}

/// What a save did: exactly `saved_run` when it succeeded; when it failed,
/// no file was swapped in for the vault, unless every step up to the swap
/// went through and only the directory flush after it failed.
pub open spec fn saved_or_refused(t: Seq<VaultCall>, targets: Seq<VaultTarget>, pin: Seq<char>, r: Result<(), VaultError>) -> bool {
    &&& r is Ok <==> saved_run(t, targets, pin)
    &&& r is Err ==> vault_untouched(t) || (t.len() == 7 && t[6] == (VaultCall::SyncParent { ok: false }))
}

/// A re-encryption: whether the vault exists is asked first; a missing vault
/// is left alone and the answer is `Ok`; otherwise it is loaded under the
/// old PIN (as `loaded_run` states); a failed load is returned as it is
/// with nothing saved, and a loaded target list is saved under the new PIN
/// (as `saved_or_refused` states).
pub open spec fn rekeyed_run(t: Seq<VaultCall>, old_pin: Seq<char>, new_pin: Seq<char>, r: Result<(), VaultError>) -> bool {
    t.len() >= 1 && match t[0] {
        VaultCall::Exists { answer: false } => t.len() == 1 && r is Ok,
        VaultCall::Exists { answer: true } => exists|k: int, loaded: Result<VaultLoadDto, VaultError>|
            #![trigger loaded_run(t.subrange(1, k), old_pin, loaded)]
            1 <= k <= t.len() && loaded_run(t.subrange(1, k), old_pin, loaded) && match loaded {
                Err(e) => r == Err::<(), VaultError>(e) && k == t.len(),
                Ok(d) => saved_or_refused(t.skip(k), d.targets@, new_pin, r),
            },
        _ => false,
    }
}

/// The largest number of temporary names tried before saving gives up.
pub const MAX_TEMP_ATTEMPTS: u32 = 128;

/// Storage, clock and JSON codec used by the vault. Nothing is assumed of
/// what an implementation returns.
pub trait VaultIo {
    /// An open temporary file.
    type Handle;
    /// Whether the path exists.
    fn path_exists(&self, path: &str) -> bool;
    /// The bytes of a file.
    fn read(&self, path: &str) -> Result<Vec<u8>, VaultError>;
    /// Reads the vault file's JSON into the encrypted blob.
    fn decode_file(&self, bytes: &[u8]) -> Result<EncryptedData, String>;
    /// Parses a decrypted payload's JSON.
    fn decode_payload(&self, plaintext: &[u8]) -> PayloadShape;
    /// Writes the payload as JSON.
    fn encode_payload(&self, payload: &VaultPayloadV2) -> Result<Vec<u8>, String>;
    /// Writes the encrypted blob as the vault file's JSON.
    fn encode_file(&self, data: &EncryptedData) -> Result<Vec<u8>, String>;
    /// The current process identifier.
    fn process_id(&self) -> u32;
    /// Nanoseconds since the Unix epoch, zero before it.
    fn now_nanos(&self) -> u128;
    /// Creates a new file, failing when it exists.
    fn create_temp(&self, path: &str) -> Result<Self::Handle, CreateTempError>;
    /// Writes the bytes and restricts the file to its owner.
    fn write_temp(&self, file: &mut Self::Handle, path: &str, bytes: &[u8]) -> Result<(), VaultError>;
    /// Flushes the file to stable storage.
    fn sync_temp(&self, file: &Self::Handle, path: &str) -> Result<(), VaultError>;
    /// Moves the temporary file to the vault path when no vault exists.
    fn replace(&self, temporary: &str, vault: &str) -> Result<(), VaultError>;
    /// Atomically replaces an existing vault with the temporary file.
    fn replace_existing(&self, temporary: &str, vault: &str) -> Result<(), VaultError>;
    /// Flushes the vault's directory entry.
    fn sync_parent(&self, vault: &str) -> Result<(), VaultError>;
    /// Removes a temporary file; one that is already gone is fine.
    fn cleanup_temp(&self, temporary: &str) -> Result<(), VaultError>;
    /// Removes a file; `Err` carries the failure text.
    fn remove(&self, path: &str) -> Result<(), String>;
}

/// The error reported when a save failed: the save's own error if the
/// temporary file was cleaned up, otherwise one naming both failures.
pub fn save_failure_report(primary: VaultError, cleanup: Result<(), VaultError>) -> (r: VaultError)
    ensures
        cleanup is Ok ==> r == primary,
        cleanup is Err ==> (r matches VaultError::Io { action, .. }
            && action@ == "save V2 vault and clean up temporary file"@),
{
    match cleanup {
        Ok(()) => primary,
        Err(c) => {
            let p = primary.message();
            let m = c.message();
            VaultError::Io {
                action: String::from_str("save V2 vault and clean up temporary file"),
                source: cat4("primary error: ", p.as_str(), "; cleanup error: ", m.as_str()),
            }
        },
    }
}

fn copy_targets(targets: &[VaultTarget]) -> (r: Vec<VaultTarget>)
    ensures
        r@ == targets@,
{
    let mut out: Vec<VaultTarget> = Vec::new();
    let mut i: usize = 0;
    while i < targets.len()
        invariant
            i <= targets@.len(),
            out@ == targets@.subrange(0, i as int),
        decreases targets.len() - i,
    {
        out.push(VaultTarget { path: targets[i].path.clone(), kind: targets[i].kind });
        assert(out@[i as int] == targets@[i as int]);
        i = i + 1;
    }
    assert(targets@.subrange(0, targets@.len() as int) =~= targets@);
    out
}

/// The encrypted vault at one path.
pub struct VaultStore<I: VaultIo> {
    vault_path: String,
    io: I,
}

impl<I: VaultIo> VaultStore<I> {
    /// The vault inside the application's data directory, once that
    /// directory could be resolved.
    pub fn production(data_dir: Result<String, String>, io: I) -> (r: Result<Self, VaultError>)
        ensures
            data_dir matches Ok(d) ==> (r matches Ok(s) && s.path()@ == join_path(d@, "vault.json"@)),
            data_dir matches Err(m) ==> (r matches Err(VaultError::Io { action, source })
                && action@ == "resolve vault path"@ && source@ == m@),
    {
        match data_dir {
            Ok(d) => Ok(VaultStore { vault_path: join(d.as_str(), "vault.json"), io }),
            Err(m) => Err(VaultError::Io { action: String::from_str("resolve vault path"), source: m }),
        }
    }

    /// The vault at a given path.
    pub fn at(vault_path: String, io: I) -> (r: Self)
        ensures
            r.path()@ == vault_path@,
    {
        VaultStore { vault_path, io }
    }

    /// Where the vault is stored.
    pub closed spec fn path(&self) -> String {
        self.vault_path
    }

    /// Where the vault is stored.
    pub fn location(&self) -> (r: &str)
        ensures
            r@ == self.path()@,
    {
        self.vault_path.as_str()
    }

    /// Loads and decrypts the vault. A missing vault is an empty list of the
    /// current schema; a file of another version, one that does not decrypt
    /// under the PIN, or a payload that does not decode is an error.
    pub fn load(&self, pin: &str) -> (r: Result<VaultLoadDto, VaultError>)
        ensures
            r matches Ok(d) ==> d.migration_required == (d.source_schema == VaultSchemaSource::V1),
            exists|t: Seq<VaultCall>| #[trigger] loaded_run(t, pin@, r),
    {
        let mut log = Ghost(Seq::empty());
        let r = self.load_logged(pin, &mut log);
        assert(loaded_run(vault_calls_between(Seq::empty(), log@), pin@, r));
        r
    }

    /// Loads the vault with the PIN, with the storage and codec calls
    /// logged, as `loaded_run` states.
    pub fn load_logged(&self, pin: &str, log: &mut Ghost<Seq<VaultCall>>) -> (r: Result<VaultLoadDto, VaultError>)
        ensures
            r matches Ok(d) ==> d.migration_required == (d.source_schema == VaultSchemaSource::V1),
            vault_log_extends(old(log)@, final(log)@),
            loaded_run(vault_calls_between(old(log)@, final(log)@), pin@, r),
    {
        let ghost before = log@;
        let path = self.vault_path.as_str();
        let present = self.io.path_exists(path);
        let ghost c0 = VaultCall::Exists { answer: present };
        *log = Ghost(log@.push(c0));
        if !present {
            assert(vault_calls_between(before, log@) =~= seq![c0]);
            return Ok(VaultLoadDto { source_schema: VaultSchemaSource::V2, migration_required: false, targets: Vec::new() });
        }
        let read = self.io.read(path);
        let ghost c1 = VaultCall::Read { ok: read is Ok };
        *log = Ghost(log@.push(c1));
        let bytes = match read {
            Ok(b) => b,
            Err(e) => {
                assert(vault_calls_between(before, log@) =~= seq![c0, c1]);
                return Err(e);
            },
        };
        let decoded_file = self.io.decode_file(bytes.as_slice());
        let ghost c2 = VaultCall::DecodeFile { answer: ok_file(decoded_file) };
        *log = Ghost(log@.push(c2));
        let file = match decoded_file {
            Ok(f) => f,
            Err(m) => {
                assert(vault_calls_between(before, log@) =~= seq![c0, c1, c2]);
                return Err(VaultError::Decode(m));
            },
        };
        let opened = open_vault_file(&file, pin);
        let plaintext = match opened {
            Ok(p) => p,
            Err(e) => {
                assert(vault_calls_between(before, log@) =~= seq![c0, c1, c2]);
                return Err(e);
            },
        };
        let shape = self.io.decode_payload(plaintext.as_slice());
        let ghost c3 = VaultCall::DecodePayload { plaintext: plaintext@, shape };
        *log = Ghost(log@.push(c3));
        assert(vault_calls_between(before, log@) =~= seq![c0, c1, c2, c3]);
        decode_payload(shape)
    }

    /// Creates a temporary file next to the vault under a name no file has,
    /// trying successive stamps; gives up after a fixed number of collisions.
    fn create_unique_temp(&self) -> (r: Result<(String, I::Handle), VaultError>)
    {
        let path = self.vault_path.as_str();
        let parent = match parent_path(path) {
            Some(p) => p,
            None => String::from_str("."),
        };
        let name = match file_name(path) {
            Some(n) => n,
            None => String::from_str("vault.json"),
        };
        let stamp = self.io.now_nanos();
        let pid = self.io.process_id();
        let mut attempt: u32 = 0;
        while attempt < MAX_TEMP_ATTEMPTS
            invariant
                attempt <= MAX_TEMP_ATTEMPTS,
            decreases MAX_TEMP_ATTEMPTS - attempt,
        {
            let temporary = temp_path_for(parent.as_str(), name.as_str(), pid, stamp.saturating_add(attempt as u128));
            match self.io.create_temp(temporary.as_str()) {
                Ok(file) => return Ok((temporary, file)),
                Err(CreateTempError::AlreadyExists(_)) => {},
                Err(CreateTempError::Failed(e)) => return Err(e),
            }
            attempt = attempt + 1;
        }
        Err(VaultError::Io {
            action: String::from_str("create unique temporary vault"),
            source: String::from_str("temporary vault name collision limit reached"),
        })
    }

    /// Encrypts the targets under the PIN with the current schema and
    /// replaces the vault atomically: the temporary file is written and
    /// flushed before it replaces the vault, and removed again when any of
    /// those steps fails.
    pub fn save_v2(&self, targets: &[VaultTarget], pin: &str) -> (r: Result<(), VaultError>)
        ensures
            exists|t: Seq<VaultCall>| #[trigger] saved_or_refused(t, targets@, pin@, r),
    {
        let mut log = Ghost(Seq::empty());
        let r = self.save_v2_logged(targets, pin, &mut log);
        assert(saved_or_refused(vault_calls_between(Seq::empty(), log@), targets@, pin@, r));
        r
    }

    /// Saves the targets under the PIN, with the storage and codec calls
    /// logged: it succeeds exactly when the run is `saved_run`, and a failed
    /// save never swaps a file in, unless only the final directory flush
    /// failed.
    pub fn save_v2_logged(&self, targets: &[VaultTarget], pin: &str, log: &mut Ghost<Seq<VaultCall>>) -> (r: Result<(), VaultError>)
        ensures
            vault_log_extends(old(log)@, final(log)@),
            saved_or_refused(vault_calls_between(old(log)@, final(log)@), targets@, pin@, r),
    {
        let ghost before = log@;
        let payload = VaultPayloadV2 { schema_version: 2, targets: copy_targets(targets) };
        let encoded = self.io.encode_payload(&payload);
        let ghost c0 = VaultCall::EncodePayload { targets: payload.targets@, output: ok_bytes(encoded) };
        *log = Ghost(log@.push(c0));
        let plaintext = match encoded {
            Ok(p) => p,
            Err(m) => {
                assert(vault_calls_between(before, log@) =~= seq![c0]);
                return Err(VaultError::Decode(m));
            },
        };
        let encrypted = match encrypt(plaintext.as_slice(), pin) {
            Ok(e) => e,
            Err(m) => {
                assert(vault_calls_between(before, log@) =~= seq![c0]);
                return Err(VaultError::Crypto(m));
            },
        };
        let file_bytes = self.io.encode_file(&encrypted);
        let ghost c1 = VaultCall::EncodeFile { data: encrypted, output: ok_bytes(file_bytes) };
        *log = Ghost(log@.push(c1));
        let bytes = match file_bytes {
            Ok(b) => b,
            Err(m) => {
                assert(vault_calls_between(before, log@) =~= seq![c0, c1]);
                return Err(VaultError::Decode(m));
            },
        };
        let (temporary, mut file) = match self.create_unique_temp() {
            Ok(t) => t,
            Err(e) => {
                assert(vault_calls_between(before, log@) =~= seq![c0, c1]);
                return Err(e);
            },
        };
        let tmp = temporary.as_str();
        let written = self.io.write_temp(&mut file, tmp, bytes.as_slice());
        let ghost c2 = VaultCall::WriteTemp { bytes: bytes@, ok: written is Ok };
        *log = Ghost(log@.push(c2));
        if let Err(e) = written {
            let cleaned = self.io.cleanup_temp(tmp);
            let ghost c = VaultCall::CleanupTemp { ok: cleaned is Ok };
            *log = Ghost(log@.push(c));
            assert(vault_calls_between(before, log@) =~= seq![c0, c1, c2, c]);
            return Err(save_failure_report(e, cleaned));
        }
        let synced = self.io.sync_temp(&file, tmp);
        let ghost c3 = VaultCall::SyncTemp { ok: synced is Ok };
        *log = Ghost(log@.push(c3));
        if let Err(e) = synced {
            let cleaned = self.io.cleanup_temp(tmp);
            let ghost c = VaultCall::CleanupTemp { ok: cleaned is Ok };
            *log = Ghost(log@.push(c));
            assert(vault_calls_between(before, log@) =~= seq![c0, c1, c2, c3, c]);
            return Err(save_failure_report(e, cleaned));
        }
        let vault = self.vault_path.as_str();
        let present = self.io.path_exists(vault);
        let ghost c4 = VaultCall::Exists { answer: present };
        *log = Ghost(log@.push(c4));
        let replacement = if present {
            self.io.replace_existing(tmp, vault)
        } else {
            self.io.replace(tmp, vault)
        };
        let ghost c5 = VaultCall::Replace { ok: replacement is Ok };
        *log = Ghost(log@.push(c5));
        if let Err(e) = replacement {
            let cleaned = self.io.cleanup_temp(tmp);
            let ghost c = VaultCall::CleanupTemp { ok: cleaned is Ok };
            *log = Ghost(log@.push(c));
            assert(vault_calls_between(before, log@) =~= seq![c0, c1, c2, c3, c4, c5, c]);
            return Err(save_failure_report(e, cleaned));
        }
        let flushed = self.io.sync_parent(vault);
        let ghost c6 = VaultCall::SyncParent { ok: flushed is Ok };
        *log = Ghost(log@.push(c6));
        assert(vault_calls_between(before, log@) =~= seq![c0, c1, c2, c3, c4, c5, c6]);
        assert(payload.targets@ == targets@);
        flushed
    }

    /// Whether a vault file is stored.
    pub fn is_stored(&self) -> bool {
        self.io.path_exists(self.vault_path.as_str())
    }

    /// Deletes the stored vault, if there is one.
    pub fn clear(&self) -> (r: Result<(), String>)
        ensures
            r matches Err(m) ==> seq_starts_with(m@, "Failed to delete vault: "@),
    {
        let path = self.vault_path.as_str();
        if self.io.path_exists(path) {
            if let Err(e) = self.io.remove(path) {
                let m = cat("Failed to delete vault: ", e.as_str());
                proof {
                    assert(m@.subrange(0, "Failed to delete vault: "@.len() as int) =~= "Failed to delete vault: "@);
                }
                return Err(m);
            }
        }
        Ok(())
    }

    /// Re-encrypts the vault from the old PIN to the new one. A missing vault
    /// is left as it is; a vault that does not load under the old PIN is
    /// left as it is and its load error returned; a failed save is an error.
    pub fn rekey(&self, old_pin: &str, new_pin: &str) -> (r: Result<(), VaultError>)
        ensures
            exists|t: Seq<VaultCall>| #[trigger] rekeyed_run(t, old_pin@, new_pin@, r),
    {
        let mut log = Ghost(Seq::empty());
        let r = self.rekey_logged(old_pin, new_pin, &mut log);
        assert(rekeyed_run(vault_calls_between(Seq::empty(), log@), old_pin@, new_pin@, r));
        r
    }

    /// Re-encrypts the vault, with the calls logged, as `rekeyed_run`
    /// states.
    pub fn rekey_logged(&self, old_pin: &str, new_pin: &str, log: &mut Ghost<Seq<VaultCall>>) -> (r: Result<(), VaultError>)
        ensures
            vault_log_extends(old(log)@, final(log)@),
            rekeyed_run(vault_calls_between(old(log)@, final(log)@), old_pin@, new_pin@, r),
    {
        let ghost before = log@;
        let present = self.io.path_exists(self.vault_path.as_str());
        let ghost c0 = VaultCall::Exists { answer: present };
        *log = Ghost(log@.push(c0));
        if !present {
            assert(vault_calls_between(before, log@) =~= seq![c0]);
            return Ok(());
        }
        let ghost m1 = log@;
        let loaded = self.load_logged(old_pin, log);
        let ghost m2 = log@;
        let ghost loaded0 = loaded;
        let r = match loaded {
            Err(e) => Err(e),
            Ok(payload) => self.save_v2_logged(payload.targets.as_slice(), new_pin, log),
        };
        proof {
            let t = vault_calls_between(before, log@);
            let lt = vault_calls_between(m1, m2);
            let st = vault_calls_between(m2, log@);
            assert(t =~= seq![c0] + lt + st);
            assert(t.drop_first() =~= lt + st);
            assert((lt + st).subrange(0, lt.len() as int) =~= lt);
            assert((lt + st).skip(lt.len() as int) =~= st);
            if loaded0 is Err {
                assert(st =~= Seq::<VaultCall>::empty());
            }
            let k = 1 + lt.len();
            assert(t.subrange(1, k as int) =~= lt);
            assert(t.skip(k as int) =~= st);
            assert(loaded_run(t.subrange(1, k as int), old_pin@, loaded0));
        }
        r
    }
}

} // verus!
