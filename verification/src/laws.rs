//! The laws the operation layer obeys, stated over the registry's
//! mathematical model: maps from id to record, the payload spec
//! functions, and the allocator counter. Each is proved here once and
//! holds together with the operations' own contracts.

use vstd::prelude::*;

use crate::records::HealthRecord;
use crate::records::HealthRecordPayload;
use crate::records::MedicationReminder;
use crate::records::MedicationReminderPayload;
use crate::records::User;
use crate::records::UserPayload;
use crate::records::VirtualConsultation;
use crate::records::VirtualConsultationPayload;
use crate::records::consultation_merged;
use crate::records::health_record_merged;
use crate::records::reminder_merged;
use crate::records::user_merged;

verus! {

/// Law: after a record is stored under a fresh id, looking that id up
/// yields exactly the stored record. Together with the create
/// contracts — which say the new map is the old map with the built
/// record inserted, and that the returned record is that same value —
/// this is the create-then-get round trip for every entity type.
pub proof fn lemma_create_then_get<V>(m: Map<u64, V>, id: u64, v: V)
    ensures
        m.insert(id, v).contains_key(id),
        m.insert(id, v)[id] == v,
{
}

/// Law: identifiers handed out by successive allocations are strictly
/// increasing, whatever entity types the allocations serve: each
/// allocation returns one more than the counter and leaves the
/// counter at the returned value.
pub proof fn lemma_ids_strictly_increasing(
    before_first: u64,
    after_first: u64,
    first_id: u64,
    second_id: u64,
)
    requires
        first_id == before_first + 1,
        after_first == first_id,
        second_id == after_first + 1,
    ensures
        first_id < second_id,
{
}

/// Law: a full-replacement user update preserves the id and the
/// original creation timestamp, overwrites every other field with the
/// payload's values, and a lookup afterwards sees exactly the merged
/// record.
pub proof fn lemma_update_then_get_user(users: Map<u64, User>, id: u64, p: UserPayload)
    requires
        users.contains_key(id),
        users[id].id == id,
    ensures
        ({
            let u = user_merged(users[id], p);
            &&& u.id == id
            &&& u.created_at == users[id].created_at
            &&& u.name == p.name
            &&& u.contact == p.contact
            &&& u.user_type == p.user_type
            &&& users.insert(id, u).contains_key(id)
            &&& users.insert(id, u)[id] == u
        }),
{
}

/// Law: a full-replacement health-record update preserves the id and
/// the original `recorded_at` timestamp, overwrites every other field
/// with the payload's values, and a lookup afterwards sees exactly
/// the merged record.
pub proof fn lemma_update_then_get_health_record(
    records: Map<u64, HealthRecord>,
    id: u64,
    p: HealthRecordPayload,
)
    requires
        records.contains_key(id),
        records[id].id == id,
    ensures
        ({
            let h = health_record_merged(records[id], p);
            &&& h.id == id
            &&& h.recorded_at == records[id].recorded_at
            &&& h.user_id == p.user_id
            &&& h.heart_rate == p.heart_rate
            &&& h.blood_pressure == p.blood_pressure
            &&& h.activity_level == p.activity_level
            &&& h.status == p.status
            &&& records.insert(id, h).contains_key(id)
            &&& records.insert(id, h)[id] == h
        }),
{
}

/// Law: a full-replacement reminder update preserves the id and the
/// original creation timestamp, overwrites every other field with the
/// payload's values, and a lookup afterwards sees exactly the merged
/// record.
pub proof fn lemma_update_then_get_reminder(
    reminders: Map<u64, MedicationReminder>,
    id: u64,
    p: MedicationReminderPayload,
)
    requires
        reminders.contains_key(id),
        reminders[id].id == id,
    ensures
        ({
            let m = reminder_merged(reminders[id], p);
            &&& m.id == id
            &&& m.created_at == reminders[id].created_at
            &&& m.user_id == p.user_id
            &&& m.medication_name == p.medication_name
            &&& m.dosage == p.dosage
            &&& m.schedule == p.schedule
            &&& reminders.insert(id, m).contains_key(id)
            &&& reminders.insert(id, m)[id] == m
        }),
{
}

/// Law: a full-replacement consultation update preserves the id and
/// the original creation timestamp, overwrites every other field with
/// the payload's values, and a lookup afterwards sees exactly the
/// merged record.
pub proof fn lemma_update_then_get_consultation(
    consultations: Map<u64, VirtualConsultation>,
    id: u64,
    p: VirtualConsultationPayload,
)
    requires
        consultations.contains_key(id),
        consultations[id].id == id,
    ensures
        ({
            let c = consultation_merged(consultations[id], p);
            &&& c.id == id
            &&& c.created_at == consultations[id].created_at
            &&& c.user_id == p.user_id
            &&& c.provider_id == p.provider_id
            &&& c.scheduled_at == p.scheduled_at
            &&& c.status == p.status
            &&& consultations.insert(id, c).contains_key(id)
            &&& consultations.insert(id, c)[id] == c
        }),
{
}

/// Law: after a delete the deleted id is gone, so a lookup yields
/// absence; and deleting an id that is not present leaves the map
/// exactly as it was.
pub proof fn lemma_delete_then_get<V>(m: Map<u64, V>, id: u64)
    ensures
        !m.remove(id).contains_key(id),
        !m.contains_key(id) ==> m.remove(id) == m,
{
    if !m.contains_key(id) {
        assert(m.remove(id) =~= m);
    }
}

} // verus!
