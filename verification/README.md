# philharmonic-store

Storage substrate of the Philharmonic workflow orchestration system:
content-addressed blobs, `(internal, public)` identity pairs, and entities
with append-only revision logs.

- `src/` is the verified library (Verus). It holds the data shapes shared by
  all backends (`EntityRow`, `RevisionInput`, `RevisionRow`, `RevisionRef`,
  `EntityRefValue`, `StoreError`, `BackendError`) and the decisions that the
  typed store operations make on the outcomes of the backends' calls: identity typing (UUIDv7 internal, UUIDv4
  public), kind checks on entity reads, the decision that precedes a typed revision
  append or read, content digests, and the outcome of minting an entity.
  UUIDs are carried as their 128-bit values and digests as 32 raw bytes.
- `app/` holds the async store traits (`ContentStore`, `IdentityStore`,
  `EntityStore`) that backends implement, their typed extension traits, and
  error types implementing `std::error::Error`. Each typed operation awaits
  the backend's calls and hands their outcomes to the library.
- `tests/` exercises the library on concrete values.
