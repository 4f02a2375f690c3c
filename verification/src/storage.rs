use crate::postgres::Postgres;
use crate::postgres::postgres_payload;
use vstd::prelude::*;

verus! {

/// The fixed payload returned by the no-op driver: the sentinel that makes an
/// unrecognized driver name observable without touching any backend.
pub open spec fn noop_sentinel() -> Seq<char> {
    "fetching batch from noop"@
}

/// The driver names the factory recognizes: the built-in default backend
/// name and its short alias, both selecting the PostgreSQL backend. Every
/// other name falls back to the no-op driver.
pub open spec fn recognized(name: Seq<char>) -> bool {
    name == "postgresql"@ || name == "postgres"@
}

/// The capability a storage backend provides: fetch one batch of egress
/// traffic events. `fetch_spec` is the backend's mathematical description of
/// what a fetch returns; `fetch_batch` is bound to it exactly, and a
/// successful fetch always carries non-empty evidence of success.
pub trait Storage {
    spec fn fetch_spec(&self, batch_id: Seq<char>) -> Seq<char>;

    fn fetch_batch(&self, batch_id: String) -> (r: String)
        ensures
            r@ == self.fetch_spec(batch_id@),
            r@.len() > 0,
    ;
}

/// The fallback backend: performs no external work and always succeeds
/// immediately with the fixed sentinel payload. Doubles as a test backend.
pub struct NoopStorage;

impl Storage for NoopStorage {
    open spec fn fetch_spec(&self, batch_id: Seq<char>) -> Seq<char> {
        noop_sentinel()
    }

    fn fetch_batch(&self, _batch_id: String) -> (r: String) {
        proof {
            reveal_strlit("fetching batch from noop");
        }
        "fetching batch from noop".to_owned()
    }
}

/// Tagged selection of a concrete backend, the factory's result. Keeping the
/// fallback as an explicit variant makes the degraded mode observable and
/// testable rather than an accidental default.
pub enum StorageDriver {
    Postgres(Postgres),
    Noop(NoopStorage),
}

impl Storage for StorageDriver {
    open spec fn fetch_spec(&self, batch_id: Seq<char>) -> Seq<char> {
        match self {
            StorageDriver::Postgres(p) => p.fetch_spec(batch_id),
            StorageDriver::Noop(n) => n.fetch_spec(batch_id),
        }
    }

    fn fetch_batch(&self, batch_id: String) -> (r: String) {
        match self {
            StorageDriver::Postgres(p) => p.fetch_batch(batch_id),
            StorageDriver::Noop(n) => n.fetch_batch(batch_id),
        }
    }
}

/// What the factory yields for a given driver name.
pub open spec fn spec_new_storage(name: Seq<char>) -> StorageDriver {
    if recognized(name) {
        StorageDriver::Postgres(Postgres)
    } else {
        StorageDriver::Noop(NoopStorage)
    }
}

/// Exact string comparison, verified down to the character sequences.
fn str_eq(a: &str, b: &str) -> (r: bool)
    ensures
        r == (a@ == b@),
{
    let a_owned: String = a.to_owned();
    let b_owned: String = b.to_owned();
    a_owned == b_owned
}

/// The driver factory: a total, pure mapping from a driver name to a
/// backend. A recognized name yields its concrete driver, whose fetch speaks
/// only for that backend; every other name — empty, typo, case mismatch,
/// future-reserved — degrades to the inert no-op driver rather than failing
/// startup.
pub fn new_storage(driver: &str) -> (s: StorageDriver)
    ensures
        s == spec_new_storage(driver@),
        recognized(driver@) ==> (s matches StorageDriver::Postgres(_)),
        !recognized(driver@) ==> (s matches StorageDriver::Noop(_)),
        forall|id: Seq<char>|
            #[trigger] s.fetch_spec(id) == if recognized(driver@) {
                postgres_payload()
            } else {
                noop_sentinel()
            },
{
    if str_eq(driver, "postgresql") || str_eq(driver, "postgres") {
        StorageDriver::Postgres(Postgres::new())
    } else {
        StorageDriver::Noop(NoopStorage)
    }
}

} // verus!
