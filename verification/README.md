# knockknock

A local data deletion library with machine-checked contracts, and the
desktop glue around it.

- `src/` is the verified library: path rules and root validation, the batch
  executor that plans and destroys deletion roots through a handle-based
  tree adapter, the overwrite lifecycle, the deletion journal and its
  recovery, PIN lockout rules, the encrypted target vault, browser profile
  discovery and data collection, drive classification from platform tool
  output, and the decisions behind the interface commands. Every function
  there is verified by Verus. Where a result depends on what a host adapter,
  store or probe answers, the contract states what holds for every answer;
  the batch executor, the overwrite and the PIN manager also keep a ghost
  record of the calls they made, and their contracts say how the result
  follows from those answers. Some adapter-driven functions (journal and
  vault storage, path inspection, browser discovery) state less. The few calls
  into outside crates (bcrypt, PBKDF2, AES-GCM, ChaCha20, the random
  number generators, the clock) sit behind small trusted wrappers whose contracts
  are documented where they are declared.
- `app/` implements the library's query traits on the host: descriptor-based
  Unix tree access, writing and reading back the library's pass streams, the JSON
  formats of the journal, vault and PIN files, drive probes built on `df`,
  `lsblk`, `diskutil` and `statvfs`, and the commands as plain functions.
- `tests/` exercises the library on concrete inputs, with in-memory
  implementations of the query traits.
