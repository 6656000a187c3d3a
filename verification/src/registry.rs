//! The integration registry: create, list and soft-delete of
//! `ExternalIntegration` records.
//!
//! The registry owns the stored records. Creation assigns a fresh id and a
//! store-assigned timestamp and activates the record; deletion deactivates
//! the matching record and never removes it; listing returns the active
//! records only. Deleting an id that no record carries succeeds and changes
//! nothing.
//!
//! All contracts are stated over the registry's view, a sequence of
//! `IntegrationModel` values, through the spec functions below.

use vstd::prelude::*;
use vstd::seq_lib::*;

use crate::error::IntegrationBrokerError;
use crate::models::{
    deactivated, CreateIntegrationRequest, ExternalIntegration, IntegrationModel,
    IntegrationStatus,
};

verus! {

/// The views of a sequence of stored records, in order.
pub open spec fn models_of(s: Seq<ExternalIntegration>) -> Seq<IntegrationModel> {
    s.map_values(|r: ExternalIntegration| r@)
}

/// Whether some record of `s` carries `id`.
pub open spec fn contains_id(s: Seq<IntegrationModel>, id: u128) -> bool {
    exists|i: int| 0 <= i < s.len() && s[i].id == id
}

/// The active records of `s`, in order.
pub open spec fn active_only(s: Seq<IntegrationModel>) -> Seq<IntegrationModel> {
    s.filter(|m: IntegrationModel| m.status == IntegrationStatus::Active)
}

/// `s` after a soft delete of `id`: the same records in the same order, with
/// every record carrying `id` moved to `Inactive`.
pub open spec fn deactivate_all(s: Seq<IntegrationModel>, id: u128) -> Seq<IntegrationModel> {
    Seq::new(s.len(), |i: int| if s[i].id == id {
        deactivated(s[i])
    } else {
        s[i]
    })
}

/// Ids are pairwise distinct.
pub open spec fn unique_ids(s: Seq<IntegrationModel>) -> bool {
    forall|i: int, j: int| 0 <= i < j < s.len() ==> s[i].id != s[j].id
}

/// The registry of external systems.
///
/// Records live here for good: a delete only flips a record's status. The
/// well-formedness invariant is that ids are pairwise distinct, which
/// `insert_integration` maintains by rejecting a duplicate id the way the
/// store rejects a key-constraint violation.
pub struct IntegrationRegistry {
    records: Vec<ExternalIntegration>,
}

impl View for IntegrationRegistry {
    type V = Seq<IntegrationModel>;

    closed spec fn view(&self) -> Seq<IntegrationModel> {
        models_of(self.records@)
    }
}

impl IntegrationRegistry {
    /// Well-formedness: no two records share an id.
    pub open spec fn wf(&self) -> bool {
        unique_ids(self@)
    }

    /// An empty registry.
    pub fn new() -> (r: Self)
        ensures
            r@ == Seq::<IntegrationModel>::empty(),
            r.wf(),
    {
        let r = IntegrationRegistry { records: Vec::new() };
        proof {
            assert(r@ =~= Seq::<IntegrationModel>::empty());
        }
        r
    }

    /// Whether a stored record carries `id`.
    fn holds_id(&self, id: u128) -> (r: bool)
        ensures
            r == contains_id(self@, id),
    {
        let n = self.records.len();
        let mut i: usize = 0;
        while i < n
            invariant
                n == self.records.len(),
                i <= n,
                forall|j: int| 0 <= j < i ==> self@[j].id != id,
            decreases n - i,
        {
            if self.records[i].id == id {
                proof {
                    assert(self@[i as int].id == id);
                }
                return true;
            }
            i += 1;
        }
        false
    }

    /// Persists one new record, exactly as the store would: the record is
    /// activated and stamped, and a duplicate id is rejected as a
    /// key-constraint violation. Returns the stored record.
    pub fn insert_integration(
        &mut self,
        request: CreateIntegrationRequest,
        id: u128,
        created_at: i64,
    ) -> (r: Result<ExternalIntegration, IntegrationBrokerError>)
        requires
            old(self).wf(),
        ensures
            final(self).wf(),
            contains_id(old(self)@, id) ==> (r matches Err(e)
                && e matches IntegrationBrokerError::StorageFailure(_)
                && final(self)@ == old(self)@),
            !contains_id(old(self)@, id) ==> (r matches Ok(rec)
                && rec@ == (IntegrationModel {
                    id,
                    system_name: request.system_name@,
                    api_endpoint: request.api_endpoint@,
                    auth_type: request.auth_type@,
                    credentials: request.credentials@,
                    status: IntegrationStatus::Active,
                    created_at,
                })
                && final(self)@ == old(self)@.push(rec@)),
    {
        if self.holds_id(id) {
            return Err(IntegrationBrokerError::StorageFailure(String::from_str(
                "duplicate integration id",
            )));
        }
        let stored = ExternalIntegration {
            id,
            system_name: request.system_name,
            api_endpoint: request.api_endpoint,
            auth_type: request.auth_type,
            credentials: request.credentials,
            status: IntegrationStatus::Active,
            created_at,
        };
        let returned = stored.clone();
        let ghost before = self@;
        self.records.push(stored);
        proof {
            assert(self@ =~= before.push(returned@));
            assert forall|i: int, j: int| 0 <= i < j < self@.len() implies self@[i].id
                != self@[j].id by {
                if j < before.len() {
                } else {
                    assert(self@[j].id == id);
                    if before[i].id == id {
                        assert(contains_id(before, id));
                    }
                }
            }
        }
        Ok(returned)
    }

    /// Registers a new external system: generates a fresh id, stamps the
    /// record with the store's current time, persists it as active, and
    /// returns the stored record.
    ///
    /// The id comes from a random generator, so a collision with an existing
    /// record — the one way this can fail — cannot be ruled out; it surfaces
    /// as the same `StorageFailure` a store-level key violation would. On an
    /// empty registry creation always succeeds.
    pub fn create_integration(&mut self, request: CreateIntegrationRequest) -> (r: Result<
        ExternalIntegration,
        IntegrationBrokerError,
    >)
        requires
            old(self).wf(),
        ensures
            final(self).wf(),
            r matches Ok(rec) ==> (rec@.status == IntegrationStatus::Active
                && rec@.system_name == request.system_name@
                && rec@.api_endpoint == request.api_endpoint@
                && rec@.auth_type == request.auth_type@
                && rec@.credentials == request.credentials@
                && !contains_id(old(self)@, rec@.id)
                && final(self)@ == old(self)@.push(rec@)),
            r matches Err(e) ==> (e matches IntegrationBrokerError::StorageFailure(_)
                && final(self)@ == old(self)@
                && old(self)@.len() > 0),
            old(self)@.len() == 0 ==> r is Ok,
    {
        let id = fresh_id();
        let created_at = now_micros();
        let r = self.insert_integration(request, id, created_at);
        proof {
            if contains_id(old(self)@, id) {
                let i = choose|i: int| 0 <= i < old(self)@.len() && old(self)@[i].id == id;
                assert(old(self)@.len() > 0);
            }
        }
        r
    }

    /// Returns every active record, in storage order. The in-memory store
    /// cannot fail a read, so the result is always `Ok`; the `Result` keeps
    /// the shape a fallible store reports through.
    pub fn list_integrations(&self) -> (r: Result<Vec<ExternalIntegration>, IntegrationBrokerError>)
        ensures
            r matches Ok(v) && models_of(v@) == active_only(self@),
    {
        let n = self.records.len();
        let mut out: Vec<ExternalIntegration> = Vec::new();
        let mut i: usize = 0;
        proof {
            assert(models_of(out@) =~= Seq::<IntegrationModel>::empty());
            assert(self@.take(0) =~= Seq::<IntegrationModel>::empty());
        }
        while i < n
            invariant
                n == self.records.len(),
                i <= n,
                models_of(out@) == active_only(self@.take(i as int)),
            decreases n - i,
        {
            let ghost prev = out@;
            let rec = &self.records[i];
            if rec.status == IntegrationStatus::Active {
                out.push(rec.clone());
            }
            proof {
                broadcast use Seq::lemma_filter_push;

                let ghost s = self@;
                let ghost elem = s[i as int];
                assert(s.take(i + 1) =~= s.take(i as int).push(elem));
                assert(active_only(s.take(i as int).push(elem)) == (if elem.status
                    == IntegrationStatus::Active {
                    active_only(s.take(i as int)).push(elem)
                } else {
                    active_only(s.take(i as int))
                }));
                if elem.status == IntegrationStatus::Active {
                    assert(models_of(out@) =~= models_of(prev).push(elem));
                } else {
                    assert(out@ == prev);
                }
            }
            i += 1;
        }
        proof {
            assert(self@.take(n as int) =~= self@);
        }
        Ok(out)
    }

    /// Soft-deletes `id`: every record carrying it is moved to `Inactive`,
    /// nothing is removed, and every other record is untouched. Deleting an
    /// id that no record carries, or one already inactive, succeeds with no
    /// observable change; the in-memory store cannot fail the update.
    pub fn delete_integration(&mut self, id: u128) -> (r: Result<(), IntegrationBrokerError>)
        requires
            old(self).wf(),
        ensures
            final(self).wf(),
            r is Ok,
            final(self)@ == deactivate_all(old(self)@, id),
    {
        let n = self.records.len();
        let mut i: usize = 0;
        while i < n
            invariant
                n == self.records.len(),
                i <= n,
                forall|j: int| i <= j < n ==> self@[j] == old(self)@[j],
                forall|j: int| 0 <= j < i ==> self@[j] == (if old(self)@[j].id == id {
                    deactivated(old(self)@[j])
                } else {
                    old(self)@[j]
                }),
            decreases n - i,
        {
            let ghost before = self@;
            if self.records[i].id == id {
                self.records[i].status = IntegrationStatus::Inactive;
            }
            proof {
                assert(self@.len() == before.len());
                assert forall|j: int| 0 <= j < i + 1 implies self@[j] == (if old(
                    self,
                )@[j].id == id {
                    deactivated(old(self)@[j])
                } else {
                    old(self)@[j]
                }) by {
                    if j == i {
                        assert(before[j] == old(self)@[j]);
                        assert(self@[j] == (if before[j].id == id {
                            deactivated(before[j])
                        } else {
                            before[j]
                        }));
                    } else {
                        assert(self@[j] == self.records@[j]@);
                        assert(self@[j] == before[j]);
                    }
                }
            }
            i += 1;
        }
        proof {
            assert(self@ =~= deactivate_all(old(self)@, id));
            assert forall|a: int, b: int| 0 <= a < b < self@.len() implies self@[a].id
                != self@[b].id by {
                assert(self@[a].id == old(self)@[a].id);
                assert(self@[b].id == old(self)@[b].id);
            }
        }
        Ok(())
    }
}

/// Relies on `uuid::Uuid::new_v4`: a freshly generated random (version 4)
/// UUID, taken as its 128-bit value. Nothing is promised of a random value.
#[verifier::external_body]
fn fresh_id() -> u128 {
    uuid::Uuid::new_v4().as_u128()
}

/// Relies on `chrono::Utc::now`: the current UTC wall-clock time, taken as
/// microseconds since the Unix epoch. Nothing is promised of a clock
/// reading.
#[verifier::external_body]
fn now_micros() -> i64 {
    chrono::Utc::now().timestamp_micros()
}

/// Law: after a soft delete of `id`, the listing — the active records —
/// contains no record carrying that id.
pub proof fn lemma_deleted_never_listed(s: Seq<IntegrationModel>, id: u128)
    ensures
        forall|i: int| 0 <= i < active_only(deactivate_all(s, id)).len()
            ==> (#[trigger] active_only(deactivate_all(s, id))[i]).id != id,
{
    let d = deactivate_all(s, id);
    let listed = active_only(d);
    assert forall|i: int| 0 <= i < listed.len() implies (#[trigger] listed[i]).id != id by {
        assert(listed.contains(listed[i]));
        d.lemma_filter_contains_rev(
            |m: IntegrationModel| m.status == IntegrationStatus::Active,
            listed[i],
        );
        let j = choose|j: int| 0 <= j < d.len() && d[j] == listed[i];
        assert(d[j].id == id ==> d[j].status == IntegrationStatus::Inactive);
    }
}

/// Law: deactivation is permanent across deletes: a record inactive before
/// a delete is inactive after it, whatever id that delete names.
pub proof fn lemma_inactive_stays_inactive(s: Seq<IntegrationModel>, id: u128, j: int)
    requires
        0 <= j < s.len(),
        s[j].status == IntegrationStatus::Inactive,
    ensures
        deactivate_all(s, id)[j].status == IntegrationStatus::Inactive,
{
}

/// Law: deleting an id that no record carries leaves the records — and with
/// them the listing — unchanged.
pub proof fn lemma_delete_absent_unchanged(s: Seq<IntegrationModel>, id: u128)
    requires
        !contains_id(s, id),
    ensures
        deactivate_all(s, id) == s,
        active_only(deactivate_all(s, id)) == active_only(s),
{
    assert forall|i: int| 0 <= i < s.len() implies s[i].id != id by {
        assert(!(0 <= i < s.len() && s[i].id == id));
    }
    assert(deactivate_all(s, id) =~= s);
}

} // verus!
