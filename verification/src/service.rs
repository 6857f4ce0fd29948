//! The operation layer: one create/get/update/delete/list set per
//! entity, composing the identifier allocator and the four stores,
//! and enforcing the validation and referential-integrity rules.
//!
//! Every operation either completes and reports `Ok`, or fails its
//! checks and leaves the whole registry untouched: no partial effect
//! is ever visible, and a failed create consumes no id.

use vstd::prelude::*;

use crate::counter::IdAllocator;
use crate::records::Error;
use crate::records::HealthRecord;
use crate::records::HealthRecordPayload;
use crate::records::MedicationReminder;
use crate::records::MedicationReminderPayload;
use crate::records::User;
use crate::records::UserPayload;
use crate::records::VirtualConsultation;
use crate::records::VirtualConsultationPayload;
use crate::records::consultation_from_payload;
use crate::records::consultation_merged;
use crate::records::consultation_payload_valid;
use crate::records::health_record_from_payload;
use crate::records::health_record_merged;
use crate::records::health_record_payload_valid;
use crate::records::reminder_from_payload;
use crate::records::reminder_merged;
use crate::records::reminder_payload_valid;
use crate::records::user_from_payload;
use crate::records::user_merged;
use crate::records::user_payload_valid;
use crate::store::Store;

verus! {

/// The whole persistent state: four independent entity stores and the
/// shared id counter.
pub struct Registry {
    ids: IdAllocator,
    users: Store<User>,
    health_records: Store<HealthRecord>,
    reminders: Store<MedicationReminder>,
    consultations: Store<VirtualConsultation>,
}

impl Registry {
    /// The last id handed out; ids are unique across all four maps.
    pub closed spec fn id_counter(self) -> u64 {
        self.ids.value()
    }

    /// The stored users, by id.
    pub closed spec fn user_map(self) -> Map<u64, User> {
        self.users.as_map()
    }

    /// The stored health records, by id.
    pub closed spec fn health_record_map(self) -> Map<u64, HealthRecord> {
        self.health_records.as_map()
    }

    /// The stored medication reminders, by id.
    pub closed spec fn reminder_map(self) -> Map<u64, MedicationReminder> {
        self.reminders.as_map()
    }

    /// The stored virtual consultations, by id.
    pub closed spec fn consultation_map(self) -> Map<u64, VirtualConsultation> {
        self.consultations.as_map()
    }

    /// Every store is well formed, every stored record sits under its
    /// own id, and every id in use was handed out by the allocator —
    /// which is what makes a freshly allocated id globally unique.
    pub closed spec fn wf(self) -> bool {
        &&& self.users.wf()
        &&& self.health_records.wf()
        &&& self.reminders.wf()
        &&& self.consultations.wf()
        &&& forall|k: u64|
            #[trigger] self.users.as_map().contains_key(k) ==> 1 <= k && k <= self.ids.value()
                && self.users.as_map()[k].id == k
        &&& forall|k: u64|
            #[trigger] self.health_records.as_map().contains_key(k) ==> 1 <= k && k
                <= self.ids.value() && self.health_records.as_map()[k].id == k
        &&& forall|k: u64|
            #[trigger] self.reminders.as_map().contains_key(k) ==> 1 <= k && k
                <= self.ids.value() && self.reminders.as_map()[k].id == k
        &&& forall|k: u64|
            #[trigger] self.consultations.as_map().contains_key(k) ==> 1 <= k && k
                <= self.ids.value() && self.consultations.as_map()[k].id == k
    }

    /// The last id handed out, as an executable value, so that a
    /// caller outside the proof can check there is room for another
    /// allocation before asking for one.
    pub fn current_id(&self) -> (r: u64)
        ensures
            r == self.id_counter(),
    {
        self.ids.current()
    }

    /// Law: the id the next successful create will receive is not in
    /// use by any entity of any type — ids are globally unique across
    /// the four maps, because every id in use was handed out by the
    /// one shared allocator and the allocator never repeats a value.
    pub proof fn lemma_next_id_globally_unused(self)
        requires
            self.wf(),
            self.id_counter() < u64::MAX,
        ensures
            !self.user_map().contains_key((self.id_counter() + 1) as u64),
            !self.health_record_map().contains_key((self.id_counter() + 1) as u64),
            !self.reminder_map().contains_key((self.id_counter() + 1) as u64),
            !self.consultation_map().contains_key((self.id_counter() + 1) as u64),
    {
    }

    /// A fresh registry: nothing stored, no id handed out yet.
    pub fn new() -> (r: Self)
        ensures
            r.wf(),
            r.id_counter() == 0,
            r.user_map() == Map::<u64, User>::empty(),
            r.health_record_map() == Map::<u64, HealthRecord>::empty(),
            r.reminder_map() == Map::<u64, MedicationReminder>::empty(),
            r.consultation_map() == Map::<u64, VirtualConsultation>::empty(),
    {
        Registry {
            ids: IdAllocator::new(),
            users: Store::new(),
            health_records: Store::new(),
            reminders: Store::new(),
            consultations: Store::new(),
        }
    }

    /// Create a user: both strings must be non-empty; on success the
    /// user is built from the payload, stamped with a fresh id and
    /// `now`, and durably stored. On failure nothing changes.
    pub fn create_user(&mut self, payload: UserPayload, now: u64) -> (r: Result<User, String>)
        requires
            old(self).wf(),
            old(self).id_counter() < u64::MAX,
        ensures
            final(self).wf(),
            (r is Ok) == user_payload_valid(payload),
            r matches Ok(u) ==> u == user_from_payload(
                payload,
                (old(self).id_counter() + 1) as u64,
                now,
            ),
            r matches Ok(u) ==> !old(self).user_map().contains_key(u.id) && !old(
                self,
            ).health_record_map().contains_key(u.id) && !old(self).reminder_map().contains_key(u.id)
                && !old(self).consultation_map().contains_key(u.id),
            r matches Ok(u) ==> final(self).user_map() == old(self).user_map().insert(u.id, u),
            r is Ok ==> final(self).id_counter() == old(self).id_counter() + 1,
            final(self).health_record_map() == old(self).health_record_map(),
            final(self).reminder_map() == old(self).reminder_map(),
            final(self).consultation_map() == old(self).consultation_map(),
            r matches Err(m) ==> m@ == "Name and contact cannot be empty"@ && *final(self) == *old(
                self,
            ),
    {
        if payload.name.as_str().is_empty() || payload.contact.as_str().is_empty() {
            return Err("Name and contact cannot be empty".to_owned());
        }
        let id = self.ids.increment_id();
        let user = User {
            id,
            name: payload.name,
            contact: payload.contact,
            user_type: payload.user_type,
            created_at: now,
        };
        let stored = user.dup();
        let _prev = self.users.insert(id, stored);
        proof {
            assert forall|k: u64| #[trigger] self.users.as_map().contains_key(k) implies 1 <= k && k
                <= self.ids.value() && self.users.as_map()[k].id == k by {
                if k != id {
                    assert(old(self).users.as_map().contains_key(k));
                }
            }
        }
        Ok(user)
    }

    /// Look a user up by id; absence is a `NotFound` error.
    pub fn get_user_by_id(&self, user_id: u64) -> (r: Result<User, Error>)
        requires
            self.wf(),
        ensures
            (r is Ok) == self.user_map().contains_key(user_id),
            r matches Ok(u) ==> u == self.user_map()[user_id] && u.id == user_id,
            r matches Err(e) ==> e matches Error::NotFound { msg } && msg@ == "User not found."@,
    {
        match self.users.get(user_id) {
            Some(u) => Ok(u.dup()),
            None => Err(Error::NotFound { msg: "User not found.".to_owned() }),
        }
    }

    /// Replace every caller-supplied field of an existing user,
    /// keeping its id and original creation timestamp. An unknown id
    /// is an error; there is no create-on-update.
    pub fn update_user(&mut self, user_id: u64, payload: UserPayload) -> (r: Result<User, String>)
        requires
            old(self).wf(),
        ensures
            final(self).wf(),
            (r is Ok) == old(self).user_map().contains_key(user_id),
            r matches Ok(u) ==> u == user_merged(old(self).user_map()[user_id], payload) && u.id
                == user_id && u.created_at == old(self).user_map()[user_id].created_at,
            r matches Ok(u) ==> final(self).user_map() == old(self).user_map().insert(user_id, u),
            r matches Err(m) ==> m@ == "User not found"@ && *final(self) == *old(self),
            final(self).id_counter() == old(self).id_counter(),
            final(self).health_record_map() == old(self).health_record_map(),
            final(self).reminder_map() == old(self).reminder_map(),
            final(self).consultation_map() == old(self).consultation_map(),
    {
        match self.users.remove(user_id) {
            Some(prev) => {
                let updated = User {
                    id: prev.id,
                    name: payload.name,
                    contact: payload.contact,
                    user_type: payload.user_type,
                    created_at: prev.created_at,
                };
                let stored = updated.dup();
                let _p = self.users.insert(user_id, stored);
                proof {
                    assert(self.users.as_map() =~= old(self).users.as_map().insert(
                        user_id,
                        updated,
                    ));
                    assert forall|k: u64| #[trigger] self.users.as_map().contains_key(k) implies 1
                        <= k && k <= self.ids.value() && self.users.as_map()[k].id == k by {
                        if k != user_id {
                            assert(old(self).users.as_map().contains_key(k));
                        }
                    }
                }
                Ok(updated)
            }
            None => Err("User not found".to_owned()),
        }
    }

    /// Delete a user by id; absence is an error and changes nothing.
    /// Dependent records are not cascaded: their references may
    /// dangle afterwards, by design.
    pub fn delete_user(&mut self, user_id: u64) -> (r: Result<(), String>)
        requires
            old(self).wf(),
        ensures
            final(self).wf(),
            (r is Ok) == old(self).user_map().contains_key(user_id),
            final(self).user_map() == old(self).user_map().remove(user_id),
            r matches Err(m) ==> m@ == "User not found"@ && *final(self) == *old(self),
            final(self).id_counter() == old(self).id_counter(),
            final(self).health_record_map() == old(self).health_record_map(),
            final(self).reminder_map() == old(self).reminder_map(),
            final(self).consultation_map() == old(self).consultation_map(),
    {
        match self.users.remove(user_id) {
            Some(_prev) => {
                proof {
                    assert forall|k: u64| #[trigger] self.users.as_map().contains_key(k) implies 1
                        <= k && k <= self.ids.value() && self.users.as_map()[k].id == k by {
                        assert(old(self).users.as_map().contains_key(k));
                    }
                }
                Ok(())
            }
            None => Err("User not found".to_owned()),
        }
    }

    /// Every stored user, in ascending id order; an empty store is
    /// reported as an error, not as an empty list.
    pub fn get_all_users(&self) -> (r: Result<Vec<User>, String>)
        requires
            self.wf(),
        ensures
            (r is Ok) == (exists|k: u64| self.user_map().contains_key(k)),
            r matches Err(m) ==> m@ == "No users found."@,
            r matches Ok(v) ==> v@.len() > 0,
            r matches Ok(v) ==> forall|i: int|
                #![trigger v@[i]]
                0 <= i < v@.len() ==> self.user_map().contains_key(v@[i].id) && v@[i]
                    == self.user_map()[v@[i].id],
            r matches Ok(v) ==> forall|i: int, j: int|
                #![trigger v@[i], v@[j]]
                0 <= i < j < v@.len() ==> v@[i].id < v@[j].id,
            r matches Ok(v) ==> forall|k: u64|
                #[trigger] self.user_map().contains_key(k) ==> exists|i: int|
                    0 <= i < v@.len() && v@[i].id == k,
    {
        let n = self.users.len();
        if n == 0 {
            return Err("No users found.".to_owned());
        }
        let mut out: Vec<User> = Vec::new();
        let mut i: usize = 0;
        while i < n
            invariant
                self.wf(),
                n == self.users.key_seq().len(),
                i <= n,
                out@.len() == i,
                forall|j: int|
                    #![trigger out@[j]]
                    0 <= j < i ==> out@[j].id == self.users.key_seq()[j]
                        && self.users.as_map().contains_key(out@[j].id) && out@[j]
                        == self.users.as_map()[out@[j].id],
                forall|p: int, q: int|
                    #![trigger out@[p], out@[q]]
                    0 <= p < q < i ==> out@[p].id < out@[q].id,
            decreases n - i,
        {
            let pair = self.users.pair_at(i);
            out.push(pair.1.dup());
            i = i + 1;
        }
        proof {
            self.users.lemma_keys();
            assert(self.user_map().contains_key(out@[0].id));
            assert forall|k: u64| #[trigger] self.users.as_map().contains_key(k) implies exists|
                ii: int,
            | 0 <= ii < out@.len() && out@[ii].id == k by {
                let j = choose|j: int|
                    0 <= j < self.users.key_seq().len() && self.users.key_seq()[j] == k;
                assert(out@[j].id == k);
            }
        }
        Ok(out)
    }

    /// Create a health record: both strings must be non-empty and
    /// `user_id` must name an existing user. Checks run before any
    /// allocation, so a failed create consumes no id.
    pub fn create_health_record(&mut self, payload: HealthRecordPayload, now: u64) -> (r: Result<
        HealthRecord,
        String,
    >)
        requires
            old(self).wf(),
            old(self).id_counter() < u64::MAX,
        ensures
            final(self).wf(),
            (r is Ok) == (health_record_payload_valid(payload) && old(
                self,
            ).user_map().contains_key(payload.user_id)),
            r matches Ok(h) ==> h == health_record_from_payload(
                payload,
                (old(self).id_counter() + 1) as u64,
                now,
            ),
            r matches Ok(h) ==> !old(self).user_map().contains_key(h.id) && !old(
                self,
            ).health_record_map().contains_key(h.id) && !old(self).reminder_map().contains_key(h.id)
                && !old(self).consultation_map().contains_key(h.id),
            r matches Ok(h) ==> final(self).health_record_map() == old(
                self,
            ).health_record_map().insert(h.id, h),
            r is Ok ==> final(self).id_counter() == old(self).id_counter() + 1,
            final(self).user_map() == old(self).user_map(),
            final(self).reminder_map() == old(self).reminder_map(),
            final(self).consultation_map() == old(self).consultation_map(),
            !health_record_payload_valid(payload) ==> (r matches Err(m) && m@
                == "All fields must be provided."@),
            health_record_payload_valid(payload) && !old(self).user_map().contains_key(
                payload.user_id,
            ) ==> (r matches Err(m) && m@ == "User ID does not exist."@),
            r is Err ==> *final(self) == *old(self),
    {
        if payload.blood_pressure.as_str().is_empty() || payload.activity_level.as_str().is_empty()
        {
            return Err("All fields must be provided.".to_owned());
        }
        if !self.users.contains(payload.user_id) {
            return Err("User ID does not exist.".to_owned());
        }
        let id = self.ids.increment_id();
        let record = HealthRecord {
            id,
            user_id: payload.user_id,
            heart_rate: payload.heart_rate,
            blood_pressure: payload.blood_pressure,
            activity_level: payload.activity_level,
            status: payload.status,
            recorded_at: now,
        };
        let stored = record.dup();
        let _prev = self.health_records.insert(id, stored);
        proof {
            assert forall|k: u64| #[trigger] self.health_records.as_map().contains_key(k) implies 1
                <= k && k <= self.ids.value() && self.health_records.as_map()[k].id == k by {
                if k != id {
                    assert(old(self).health_records.as_map().contains_key(k));
                }
            }
        }
        Ok(record)
    }

    /// Look a health record up by id; absence is a `NotFound` error.
    pub fn get_health_record_by_id(&self, record_id: u64) -> (r: Result<HealthRecord, Error>)
        requires
            self.wf(),
        ensures
            (r is Ok) == self.health_record_map().contains_key(record_id),
            r matches Ok(h) ==> h == self.health_record_map()[record_id] && h.id == record_id,
            r matches Err(e) ==> e matches Error::NotFound { msg } && msg@
                == "Health record not found."@,
    {
        match self.health_records.get(record_id) {
            Some(h) => Ok(h.dup()),
            None => Err(Error::NotFound { msg: "Health record not found.".to_owned() }),
        }
    }

    /// Replace every caller-supplied field of an existing health
    /// record, keeping its id and original `recorded_at` timestamp.
    /// The new `user_id` is not re-checked against the user map.
    pub fn update_health_record(&mut self, record_id: u64, payload: HealthRecordPayload) -> (r:
        Result<HealthRecord, String>)
        requires
            old(self).wf(),
        ensures
            final(self).wf(),
            (r is Ok) == old(self).health_record_map().contains_key(record_id),
            r matches Ok(h) ==> h == health_record_merged(
                old(self).health_record_map()[record_id],
                payload,
            ) && h.id == record_id && h.recorded_at == old(
                self,
            ).health_record_map()[record_id].recorded_at,
            r matches Ok(h) ==> final(self).health_record_map() == old(
                self,
            ).health_record_map().insert(record_id, h),
            r matches Err(m) ==> m@ == "Health record not found"@ && *final(self) == *old(self),
            final(self).id_counter() == old(self).id_counter(),
            final(self).user_map() == old(self).user_map(),
            final(self).reminder_map() == old(self).reminder_map(),
            final(self).consultation_map() == old(self).consultation_map(),
    {
        match self.health_records.remove(record_id) {
            Some(prev) => {
                let updated = HealthRecord {
                    id: prev.id,
                    user_id: payload.user_id,
                    heart_rate: payload.heart_rate,
                    blood_pressure: payload.blood_pressure,
                    activity_level: payload.activity_level,
                    status: payload.status,
                    recorded_at: prev.recorded_at,
                };
                let stored = updated.dup();
                let _p = self.health_records.insert(record_id, stored);
                proof {
                    assert(self.health_records.as_map() =~= old(
                        self,
                    ).health_records.as_map().insert(record_id, updated));
                    assert forall|k: u64| #[trigger] self.health_records.as_map().contains_key(
                        k,
                    ) implies 1 <= k && k <= self.ids.value() && self.health_records.as_map()[k].id
                        == k by {
                        if k != record_id {
                            assert(old(self).health_records.as_map().contains_key(k));
                        }
                    }
                }
                Ok(updated)
            }
            None => Err("Health record not found".to_owned()),
        }
    }

    /// Delete a health record by id; absence is an error and changes
    /// nothing.
    pub fn delete_health_record(&mut self, record_id: u64) -> (r: Result<(), String>)
        requires
            old(self).wf(),
        ensures
            final(self).wf(),
            (r is Ok) == old(self).health_record_map().contains_key(record_id),
            final(self).health_record_map() == old(self).health_record_map().remove(record_id),
            r matches Err(m) ==> m@ == "Health record not found"@ && *final(self) == *old(self),
            final(self).id_counter() == old(self).id_counter(),
            final(self).user_map() == old(self).user_map(),
            final(self).reminder_map() == old(self).reminder_map(),
            final(self).consultation_map() == old(self).consultation_map(),
    {
        match self.health_records.remove(record_id) {
            Some(_prev) => {
                proof {
                    assert forall|k: u64| #[trigger] self.health_records.as_map().contains_key(
                        k,
                    ) implies 1 <= k && k <= self.ids.value() && self.health_records.as_map()[k].id
                        == k by {
                        assert(old(self).health_records.as_map().contains_key(k));
                    }
                }
                Ok(())
            }
            None => Err("Health record not found".to_owned()),
        }
    }

    /// Every stored health record, in ascending id order; an empty
    /// store is reported as an error, not as an empty list.
    pub fn get_all_health_records(&self) -> (r: Result<Vec<HealthRecord>, String>)
        requires
            self.wf(),
        ensures
            (r is Ok) == (exists|k: u64| self.health_record_map().contains_key(k)),
            r matches Err(m) ==> m@ == "No health records found."@,
            r matches Ok(v) ==> v@.len() > 0,
            r matches Ok(v) ==> forall|i: int|
                #![trigger v@[i]]
                0 <= i < v@.len() ==> self.health_record_map().contains_key(v@[i].id) && v@[i]
                    == self.health_record_map()[v@[i].id],
            r matches Ok(v) ==> forall|i: int, j: int|
                #![trigger v@[i], v@[j]]
                0 <= i < j < v@.len() ==> v@[i].id < v@[j].id,
            r matches Ok(v) ==> forall|k: u64|
                #[trigger] self.health_record_map().contains_key(k) ==> exists|i: int|
                    0 <= i < v@.len() && v@[i].id == k,
    {
        let n = self.health_records.len();
        if n == 0 {
            return Err("No health records found.".to_owned());
        }
        let mut out: Vec<HealthRecord> = Vec::new();
        let mut i: usize = 0;
        while i < n
            invariant
                self.wf(),
                n == self.health_records.key_seq().len(),
                i <= n,
                out@.len() == i,
                forall|j: int|
                    #![trigger out@[j]]
                    0 <= j < i ==> out@[j].id == self.health_records.key_seq()[j]
                        && self.health_records.as_map().contains_key(out@[j].id) && out@[j]
                        == self.health_records.as_map()[out@[j].id],
                forall|p: int, q: int|
                    #![trigger out@[p], out@[q]]
                    0 <= p < q < i ==> out@[p].id < out@[q].id,
            decreases n - i,
        {
            let pair = self.health_records.pair_at(i);
            out.push(pair.1.dup());
            i = i + 1;
        }
        proof {
            self.health_records.lemma_keys();
            assert(self.health_record_map().contains_key(out@[0].id));
            assert forall|k: u64| #[trigger] self.health_records.as_map().contains_key(
                k,
            ) implies exists|ii: int| 0 <= ii < out@.len() && out@[ii].id == k by {
                let j = choose|j: int|
                    0 <= j < self.health_records.key_seq().len() && self.health_records.key_seq()[j]
                        == k;
                assert(out@[j].id == k);
            }
        }
        Ok(out)
    }

    /// Create a medication reminder: all three strings must be
    /// non-empty and `user_id` must name an existing user. Checks run
    /// before any allocation, so a failed create consumes no id.
    pub fn create_medication_reminder(
        &mut self,
        payload: MedicationReminderPayload,
        now: u64,
    ) -> (r: Result<MedicationReminder, String>)
        requires
            old(self).wf(),
            old(self).id_counter() < u64::MAX,
        ensures
            final(self).wf(),
            (r is Ok) == (reminder_payload_valid(payload) && old(self).user_map().contains_key(
                payload.user_id,
            )),
            r matches Ok(m) ==> m == reminder_from_payload(
                payload,
                (old(self).id_counter() + 1) as u64,
                now,
            ),
            r matches Ok(m) ==> !old(self).user_map().contains_key(m.id) && !old(
                self,
            ).health_record_map().contains_key(m.id) && !old(self).reminder_map().contains_key(m.id)
                && !old(self).consultation_map().contains_key(m.id),
            r matches Ok(m) ==> final(self).reminder_map() == old(self).reminder_map().insert(
                m.id,
                m,
            ),
            r is Ok ==> final(self).id_counter() == old(self).id_counter() + 1,
            final(self).user_map() == old(self).user_map(),
            final(self).health_record_map() == old(self).health_record_map(),
            final(self).consultation_map() == old(self).consultation_map(),
            !reminder_payload_valid(payload) ==> (r matches Err(m) && m@
                == "All fields must be provided."@),
            reminder_payload_valid(payload) && !old(self).user_map().contains_key(payload.user_id)
                ==> (r matches Err(m) && m@ == "User ID does not exist."@),
            r is Err ==> *final(self) == *old(self),
    {
        if payload.medication_name.as_str().is_empty() || payload.dosage.as_str().is_empty()
            || payload.schedule.as_str().is_empty() {
            return Err("All fields must be provided.".to_owned());
        }
        if !self.users.contains(payload.user_id) {
            return Err("User ID does not exist.".to_owned());
        }
        let id = self.ids.increment_id();
        let reminder = MedicationReminder {
            id,
            user_id: payload.user_id,
            medication_name: payload.medication_name,
            dosage: payload.dosage,
            schedule: payload.schedule,
            created_at: now,
        };
        let stored = reminder.dup();
        let _prev = self.reminders.insert(id, stored);
        proof {
            assert forall|k: u64| #[trigger] self.reminders.as_map().contains_key(k) implies 1 <= k
                && k <= self.ids.value() && self.reminders.as_map()[k].id == k by {
                if k != id {
                    assert(old(self).reminders.as_map().contains_key(k));
                }
            }
        }
        Ok(reminder)
    }

    /// Look a medication reminder up by id; absence is a `NotFound`
    /// error.
    pub fn get_medication_reminder_by_id(&self, reminder_id: u64) -> (r: Result<
        MedicationReminder,
        Error,
    >)
        requires
            self.wf(),
        ensures
            (r is Ok) == self.reminder_map().contains_key(reminder_id),
            r matches Ok(m) ==> m == self.reminder_map()[reminder_id] && m.id == reminder_id,
            r matches Err(e) ==> e matches Error::NotFound { msg } && msg@
                == "Medication reminder not found."@,
    {
        match self.reminders.get(reminder_id) {
            Some(m) => Ok(m.dup()),
            None => Err(Error::NotFound { msg: "Medication reminder not found.".to_owned() }),
        }
    }

    /// Replace every caller-supplied field of an existing reminder,
    /// keeping its id and original creation timestamp. The new
    /// `user_id` is not re-checked against the user map.
    pub fn update_medication_reminder(
        &mut self,
        reminder_id: u64,
        payload: MedicationReminderPayload,
    ) -> (r: Result<MedicationReminder, String>)
        requires
            old(self).wf(),
        ensures
            final(self).wf(),
            (r is Ok) == old(self).reminder_map().contains_key(reminder_id),
            r matches Ok(m) ==> m == reminder_merged(old(self).reminder_map()[reminder_id], payload)
                && m.id == reminder_id && m.created_at == old(
                self,
            ).reminder_map()[reminder_id].created_at,
            r matches Ok(m) ==> final(self).reminder_map() == old(self).reminder_map().insert(
                reminder_id,
                m,
            ),
            r matches Err(m) ==> m@ == "Medication reminder not found"@ && *final(self) == *old(
                self,
            ),
            final(self).id_counter() == old(self).id_counter(),
            final(self).user_map() == old(self).user_map(),
            final(self).health_record_map() == old(self).health_record_map(),
            final(self).consultation_map() == old(self).consultation_map(),
    {
        match self.reminders.remove(reminder_id) {
            Some(prev) => {
                let updated = MedicationReminder {
                    id: prev.id,
                    user_id: payload.user_id,
                    medication_name: payload.medication_name,
                    dosage: payload.dosage,
                    schedule: payload.schedule,
                    created_at: prev.created_at,
                };
                let stored = updated.dup();
                let _p = self.reminders.insert(reminder_id, stored);
                proof {
                    assert(self.reminders.as_map() =~= old(self).reminders.as_map().insert(
                        reminder_id,
                        updated,
                    ));
                    assert forall|k: u64| #[trigger] self.reminders.as_map().contains_key(
                        k,
                    ) implies 1 <= k && k <= self.ids.value() && self.reminders.as_map()[k].id
                        == k by {
                        if k != reminder_id {
                            assert(old(self).reminders.as_map().contains_key(k));
                        }
                    }
                }
                Ok(updated)
            }
            None => Err("Medication reminder not found".to_owned()),
        }
    }

    /// Delete a medication reminder by id; absence is an error and
    /// changes nothing.
    pub fn delete_medication_reminder(&mut self, reminder_id: u64) -> (r: Result<(), String>)
        requires
            old(self).wf(),
        ensures
            final(self).wf(),
            (r is Ok) == old(self).reminder_map().contains_key(reminder_id),
            final(self).reminder_map() == old(self).reminder_map().remove(reminder_id),
            r matches Err(m) ==> m@ == "Medication reminder not found"@ && *final(self) == *old(
                self,
            ),
            final(self).id_counter() == old(self).id_counter(),
            final(self).user_map() == old(self).user_map(),
            final(self).health_record_map() == old(self).health_record_map(),
            final(self).consultation_map() == old(self).consultation_map(),
    {
        match self.reminders.remove(reminder_id) {
            Some(_prev) => {
                proof {
                    assert forall|k: u64| #[trigger] self.reminders.as_map().contains_key(
                        k,
                    ) implies 1 <= k && k <= self.ids.value() && self.reminders.as_map()[k].id
                        == k by {
                        assert(old(self).reminders.as_map().contains_key(k));
                    }
                }
                Ok(())
            }
            None => Err("Medication reminder not found".to_owned()),
        }
    }

    /// Every stored medication reminder, in ascending id order; an
    /// empty store is reported as an error, not as an empty list.
    pub fn get_all_medication_reminders(&self) -> (r: Result<Vec<MedicationReminder>, String>)
        requires
            self.wf(),
        ensures
            (r is Ok) == (exists|k: u64| self.reminder_map().contains_key(k)),
            r matches Err(m) ==> m@ == "No medication reminders found."@,
            r matches Ok(v) ==> v@.len() > 0,
            r matches Ok(v) ==> forall|i: int|
                #![trigger v@[i]]
                0 <= i < v@.len() ==> self.reminder_map().contains_key(v@[i].id) && v@[i]
                    == self.reminder_map()[v@[i].id],
            r matches Ok(v) ==> forall|i: int, j: int|
                #![trigger v@[i], v@[j]]
                0 <= i < j < v@.len() ==> v@[i].id < v@[j].id,
            r matches Ok(v) ==> forall|k: u64|
                #[trigger] self.reminder_map().contains_key(k) ==> exists|i: int|
                    0 <= i < v@.len() && v@[i].id == k,
    {
        let n = self.reminders.len();
        if n == 0 {
            return Err("No medication reminders found.".to_owned());
        }
        let mut out: Vec<MedicationReminder> = Vec::new();
        let mut i: usize = 0;
        while i < n
            invariant
                self.wf(),
                n == self.reminders.key_seq().len(),
                i <= n,
                out@.len() == i,
                forall|j: int|
                    #![trigger out@[j]]
                    0 <= j < i ==> out@[j].id == self.reminders.key_seq()[j]
                        && self.reminders.as_map().contains_key(out@[j].id) && out@[j]
                        == self.reminders.as_map()[out@[j].id],
                forall|p: int, q: int|
                    #![trigger out@[p], out@[q]]
                    0 <= p < q < i ==> out@[p].id < out@[q].id,
            decreases n - i,
        {
            let pair = self.reminders.pair_at(i);
            out.push(pair.1.dup());
            i = i + 1;
        }
        proof {
            self.reminders.lemma_keys();
            assert(self.reminder_map().contains_key(out@[0].id));
            assert forall|k: u64| #[trigger] self.reminders.as_map().contains_key(k) implies exists|
                ii: int,
            | 0 <= ii < out@.len() && out@[ii].id == k by {
                let j = choose|j: int|
                    0 <= j < self.reminders.key_seq().len() && self.reminders.key_seq()[j] == k;
                assert(out@[j].id == k);
            }
        }
        Ok(out)
    }

    /// Create a virtual consultation: both ids must be non-zero, the
    /// status string non-empty, and both `user_id` and `provider_id`
    /// must name existing users. Checks run before any allocation, so
    /// a failed create consumes no id.
    pub fn create_virtual_consultation(
        &mut self,
        payload: VirtualConsultationPayload,
        now: u64,
    ) -> (r: Result<VirtualConsultation, String>)
        requires
            old(self).wf(),
            old(self).id_counter() < u64::MAX,
        ensures
            final(self).wf(),
            (r is Ok) == (consultation_payload_valid(payload) && old(self).user_map().contains_key(
                payload.user_id,
            ) && old(self).user_map().contains_key(payload.provider_id)),
            r matches Ok(c) ==> c == consultation_from_payload(
                payload,
                (old(self).id_counter() + 1) as u64,
                now,
            ),
            r matches Ok(c) ==> !old(self).user_map().contains_key(c.id) && !old(
                self,
            ).health_record_map().contains_key(c.id) && !old(self).reminder_map().contains_key(c.id)
                && !old(self).consultation_map().contains_key(c.id),
            r matches Ok(c) ==> final(self).consultation_map() == old(
                self,
            ).consultation_map().insert(c.id, c),
            r is Ok ==> final(self).id_counter() == old(self).id_counter() + 1,
            final(self).user_map() == old(self).user_map(),
            final(self).health_record_map() == old(self).health_record_map(),
            final(self).reminder_map() == old(self).reminder_map(),
            !consultation_payload_valid(payload) ==> (r matches Err(m) && m@
                == "All fields must be provided."@),
            consultation_payload_valid(payload) && !old(self).user_map().contains_key(
                payload.user_id,
            ) ==> (r matches Err(m) && m@ == "User ID does not exist."@),
            consultation_payload_valid(payload) && old(self).user_map().contains_key(
                payload.user_id,
            ) && !old(self).user_map().contains_key(payload.provider_id) ==> (r matches Err(m) && m@
                == "Provider ID does not exist."@),
            r is Err ==> *final(self) == *old(self),
    {
        if payload.user_id == 0 || payload.provider_id == 0 || payload.status.as_str().is_empty() {
            return Err("All fields must be provided.".to_owned());
        }
        if !self.users.contains(payload.user_id) {
            return Err("User ID does not exist.".to_owned());
        }
        if !self.users.contains(payload.provider_id) {
            return Err("Provider ID does not exist.".to_owned());
        }
        let id = self.ids.increment_id();
        let consultation = VirtualConsultation {
            id,
            user_id: payload.user_id,
            provider_id: payload.provider_id,
            scheduled_at: payload.scheduled_at,
            status: payload.status,
            created_at: now,
        };
        let stored = consultation.dup();
        let _prev = self.consultations.insert(id, stored);
        proof {
            assert forall|k: u64| #[trigger] self.consultations.as_map().contains_key(k) implies 1
                <= k && k <= self.ids.value() && self.consultations.as_map()[k].id == k by {
                if k != id {
                    assert(old(self).consultations.as_map().contains_key(k));
                }
            }
        }
        Ok(consultation)
    }

    /// Look a virtual consultation up by id; absence is a `NotFound`
    /// error.
    pub fn get_virtual_consultation_by_id(&self, consultation_id: u64) -> (r: Result<
        VirtualConsultation,
        Error,
    >)
        requires
            self.wf(),
        ensures
            (r is Ok) == self.consultation_map().contains_key(consultation_id),
            r matches Ok(c) ==> c == self.consultation_map()[consultation_id] && c.id
                == consultation_id,
            r matches Err(e) ==> e matches Error::NotFound { msg } && msg@
                == "Virtual consultation not found."@,
    {
        match self.consultations.get(consultation_id) {
            Some(c) => Ok(c.dup()),
            None => Err(Error::NotFound { msg: "Virtual consultation not found.".to_owned() }),
        }
    }

    /// Replace every caller-supplied field of an existing
    /// consultation, keeping its id and original creation timestamp.
    /// The new ids are not re-checked against the user map.
    pub fn update_virtual_consultation(
        &mut self,
        consultation_id: u64,
        payload: VirtualConsultationPayload,
    ) -> (r: Result<VirtualConsultation, String>)
        requires
            old(self).wf(),
        ensures
            final(self).wf(),
            (r is Ok) == old(self).consultation_map().contains_key(consultation_id),
            r matches Ok(c) ==> c == consultation_merged(
                old(self).consultation_map()[consultation_id],
                payload,
            ) && c.id == consultation_id && c.created_at == old(
                self,
            ).consultation_map()[consultation_id].created_at,
            r matches Ok(c) ==> final(self).consultation_map() == old(
                self,
            ).consultation_map().insert(consultation_id, c),
            r matches Err(m) ==> m@ == "Virtual consultation not found"@ && *final(self) == *old(
                self,
            ),
            final(self).id_counter() == old(self).id_counter(),
            final(self).user_map() == old(self).user_map(),
            final(self).health_record_map() == old(self).health_record_map(),
            final(self).reminder_map() == old(self).reminder_map(),
    {
        match self.consultations.remove(consultation_id) {
            Some(prev) => {
                let updated = VirtualConsultation {
                    id: prev.id,
                    user_id: payload.user_id,
                    provider_id: payload.provider_id,
                    scheduled_at: payload.scheduled_at,
                    status: payload.status,
                    created_at: prev.created_at,
                };
                let stored = updated.dup();
                let _p = self.consultations.insert(consultation_id, stored);
                proof {
                    assert(self.consultations.as_map() =~= old(self).consultations.as_map().insert(
                        consultation_id,
                        updated,
                    ));
                    assert forall|k: u64| #[trigger] self.consultations.as_map().contains_key(
                        k,
                    ) implies 1 <= k && k <= self.ids.value() && self.consultations.as_map()[k].id
                        == k by {
                        if k != consultation_id {
                            assert(old(self).consultations.as_map().contains_key(k));
                        }
                    }
                }
                Ok(updated)
            }
            None => Err("Virtual consultation not found".to_owned()),
        }
    }

    /// Delete a virtual consultation by id; absence is an error and
    /// changes nothing.
    pub fn delete_virtual_consultation(&mut self, consultation_id: u64) -> (r: Result<(), String>)
        requires
            old(self).wf(),
        ensures
            final(self).wf(),
            (r is Ok) == old(self).consultation_map().contains_key(consultation_id),
            final(self).consultation_map() == old(self).consultation_map().remove(consultation_id),
            r matches Err(m) ==> m@ == "Virtual consultation not found"@ && *final(self) == *old(
                self,
            ),
            final(self).id_counter() == old(self).id_counter(),
            final(self).user_map() == old(self).user_map(),
            final(self).health_record_map() == old(self).health_record_map(),
            final(self).reminder_map() == old(self).reminder_map(),
    {
        match self.consultations.remove(consultation_id) {
            Some(_prev) => {
                proof {
                    assert forall|k: u64| #[trigger] self.consultations.as_map().contains_key(
                        k,
                    ) implies 1 <= k && k <= self.ids.value() && self.consultations.as_map()[k].id
                        == k by {
                        assert(old(self).consultations.as_map().contains_key(k));
                    }
                }
                Ok(())
            }
            None => Err("Virtual consultation not found".to_owned()),
        }
    }

    /// Every stored virtual consultation, in ascending id order; an
    /// empty store is reported as an error, not as an empty list.
    pub fn get_all_virtual_consultations(&self) -> (r: Result<Vec<VirtualConsultation>, String>)
        requires
            self.wf(),
        ensures
            (r is Ok) == (exists|k: u64| self.consultation_map().contains_key(k)),
            r matches Err(m) ==> m@ == "No virtual consultations found."@,
            r matches Ok(v) ==> v@.len() > 0,
            r matches Ok(v) ==> forall|i: int|
                #![trigger v@[i]]
                0 <= i < v@.len() ==> self.consultation_map().contains_key(v@[i].id) && v@[i]
                    == self.consultation_map()[v@[i].id],
            r matches Ok(v) ==> forall|i: int, j: int|
                #![trigger v@[i], v@[j]]
                0 <= i < j < v@.len() ==> v@[i].id < v@[j].id,
            r matches Ok(v) ==> forall|k: u64|
                #[trigger] self.consultation_map().contains_key(k) ==> exists|i: int|
                    0 <= i < v@.len() && v@[i].id == k,
    {
        let n = self.consultations.len();
        if n == 0 {
            return Err("No virtual consultations found.".to_owned());
        }
        let mut out: Vec<VirtualConsultation> = Vec::new();
        let mut i: usize = 0;
        while i < n
            invariant
                self.wf(),
                n == self.consultations.key_seq().len(),
                i <= n,
                out@.len() == i,
                forall|j: int|
                    #![trigger out@[j]]
                    0 <= j < i ==> out@[j].id == self.consultations.key_seq()[j]
                        && self.consultations.as_map().contains_key(out@[j].id) && out@[j]
                        == self.consultations.as_map()[out@[j].id],
                forall|p: int, q: int|
                    #![trigger out@[p], out@[q]]
                    0 <= p < q < i ==> out@[p].id < out@[q].id,
            decreases n - i,
        {
            let pair = self.consultations.pair_at(i);
            out.push(pair.1.dup());
            i = i + 1;
        }
        proof {
            self.consultations.lemma_keys();
            assert(self.consultation_map().contains_key(out@[0].id));
            assert forall|k: u64| #[trigger] self.consultations.as_map().contains_key(
                k,
            ) implies exists|ii: int| 0 <= ii < out@.len() && out@[ii].id == k by {
                let j = choose|j: int|
                    0 <= j < self.consultations.key_seq().len() && self.consultations.key_seq()[j]
                        == k;
                assert(out@[j].id == k);
            }
        }
        Ok(out)
    }
}

} // verus!
