use crate::storage::Storage;
use vstd::prelude::*;

verus! {

/// The PostgreSQL-backed driver. The wire protocol to the database is an
/// external collaborator outside this core; this backend currently reports a
/// fixed acknowledgement payload for each batch it is asked to fetch.
pub struct Postgres;

/// The payload the PostgreSQL driver returns for a fetch.
pub open spec fn postgres_payload() -> Seq<char> {
    "getting batch with psql"@
}

impl Storage for Postgres {
    open spec fn fetch_spec(&self, batch_id: Seq<char>) -> Seq<char> {
        postgres_payload()
    }

    fn fetch_batch(&self, _batch_id: String) -> (r: String) {
        proof {
            reveal_strlit("getting batch with psql");
        }
        "getting batch with psql".to_owned()
    }
}

impl Postgres {
    pub fn new() -> (p: Postgres)
        ensures
            forall|id: Seq<char>| #[trigger] p.fetch_spec(id) == postgres_payload(),
    {
        Postgres
    }
}

} // verus!
