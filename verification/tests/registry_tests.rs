//! End-to-end behaviour of the registry: round trips, id allocation,
//! updates, deletes and the listing policy.

use health_registry::records::Error;
use health_registry::records::HealthRecordPayload;
use health_registry::records::HealthStatus;
use health_registry::records::MedicationReminderPayload;
use health_registry::records::UserPayload;
use health_registry::records::UserType;
use health_registry::records::VirtualConsultationPayload;
use health_registry::service::Registry;

fn user_payload(name: &str, contact: &str, user_type: UserType) -> UserPayload {
    UserPayload { name: name.to_string(), contact: contact.to_string(), user_type }
}

fn health_payload(user_id: u64, heart_rate: u8, bp: &str, activity: &str, status: HealthStatus) -> HealthRecordPayload {
    HealthRecordPayload {
        user_id,
        heart_rate,
        blood_pressure: bp.to_string(),
        activity_level: activity.to_string(),
        status,
    }
}

fn reminder_payload(user_id: u64, name: &str, dosage: &str, schedule: &str) -> MedicationReminderPayload {
    MedicationReminderPayload {
        user_id,
        medication_name: name.to_string(),
        dosage: dosage.to_string(),
        schedule: schedule.to_string(),
    }
}

fn consultation_payload(user_id: u64, provider_id: u64, scheduled_at: u64, status: &str) -> VirtualConsultationPayload {
    VirtualConsultationPayload { user_id, provider_id, scheduled_at, status: status.to_string() }
}

#[test]
fn create_user_then_get_returns_equal_record() {
    let mut r = Registry::new();
    let created = r
        .create_user(user_payload("Alice", "a@x.com", UserType::Elderly), 100)
        .unwrap();
    assert_eq!(created.id, 1);
    assert_eq!(created.name, "Alice");
    assert_eq!(created.contact, "a@x.com");
    assert_eq!(created.user_type, UserType::Elderly);
    assert_eq!(created.created_at, 100);
    let fetched = r.get_user_by_id(created.id).unwrap();
    assert_eq!(fetched, created);
}

#[test]
fn create_health_record_then_get_returns_equal_record() {
    let mut r = Registry::new();
    r.create_user(user_payload("Alice", "a@x.com", UserType::Elderly), 1).unwrap();
    let created = r
        .create_health_record(health_payload(1, 72, "120/80", "moderate", HealthStatus::Stable), 7)
        .unwrap();
    assert_eq!(created.id, 2);
    assert_eq!(created.user_id, 1);
    assert_eq!(created.heart_rate, 72);
    assert_eq!(created.recorded_at, 7);
    let fetched = r.get_health_record_by_id(2).unwrap();
    assert_eq!(fetched, created);
}

#[test]
fn create_reminder_then_get_returns_equal_record() {
    let mut r = Registry::new();
    r.create_user(user_payload("Bob", "b@x.com", UserType::Caregiver), 1).unwrap();
    let created = r
        .create_medication_reminder(reminder_payload(1, "aspirin", "100mg", "daily"), 9)
        .unwrap();
    assert_eq!(created.id, 2);
    assert_eq!(created.created_at, 9);
    let fetched = r.get_medication_reminder_by_id(2).unwrap();
    assert_eq!(fetched, created);
}

#[test]
fn create_consultation_then_get_returns_equal_record() {
    let mut r = Registry::new();
    r.create_user(user_payload("Ann", "a@x.com", UserType::Elderly), 1).unwrap();
    r.create_user(user_payload("Dr. Lee", "d@x.com", UserType::HealthcareProvider), 2).unwrap();
    let created = r
        .create_virtual_consultation(consultation_payload(1, 2, 5000, "scheduled"), 11)
        .unwrap();
    assert_eq!(created.id, 3);
    assert_eq!(created.user_id, 1);
    assert_eq!(created.provider_id, 2);
    assert_eq!(created.scheduled_at, 5000);
    assert_eq!(created.created_at, 11);
    let fetched = r.get_virtual_consultation_by_id(3).unwrap();
    assert_eq!(fetched, created);
}

#[test]
fn ids_strictly_increase_across_entity_types() {
    let mut r = Registry::new();
    let u1 = r.create_user(user_payload("A", "a@x", UserType::Elderly), 1).unwrap();
    let h = r
        .create_health_record(health_payload(u1.id, 60, "110/70", "low", HealthStatus::Stable), 2)
        .unwrap();
    let m = r.create_medication_reminder(reminder_payload(u1.id, "x", "y", "z"), 3).unwrap();
    let u2 = r.create_user(user_payload("B", "b@x", UserType::HealthcareProvider), 4).unwrap();
    let c = r
        .create_virtual_consultation(consultation_payload(u1.id, u2.id, 10, "pending"), 5)
        .unwrap();
    let ids = [u1.id, h.id, m.id, u2.id, c.id];
    assert_eq!(ids, [1, 2, 3, 4, 5]);
    for w in ids.windows(2) {
        assert!(w[0] < w[1]);
    }
}

#[test]
fn update_user_preserves_id_and_timestamp_and_overwrites_rest() {
    let mut r = Registry::new();
    let created = r.create_user(user_payload("Alice", "a@x.com", UserType::Elderly), 100).unwrap();
    let updated = r
        .update_user(created.id, user_payload("Alicia", "alicia@x.com", UserType::Caregiver))
        .unwrap();
    assert_eq!(updated.id, created.id);
    assert_eq!(updated.created_at, 100);
    assert_eq!(updated.name, "Alicia");
    assert_eq!(updated.contact, "alicia@x.com");
    assert_eq!(updated.user_type, UserType::Caregiver);
    let fetched = r.get_user_by_id(created.id).unwrap();
    assert_eq!(fetched, updated);
}

#[test]
fn update_health_record_overwrites_every_supplied_field() {
    let mut r = Registry::new();
    r.create_user(user_payload("A", "a@x", UserType::Elderly), 1).unwrap();
    r.create_user(user_payload("B", "b@x", UserType::Elderly), 1).unwrap();
    let created = r
        .create_health_record(health_payload(1, 72, "120/80", "moderate", HealthStatus::Stable), 50)
        .unwrap();
    let updated = r
        .update_health_record(
            created.id,
            health_payload(2, 95, "140/90", "high", HealthStatus::Critical),
        )
        .unwrap();
    assert_eq!(updated.id, created.id);
    assert_eq!(updated.recorded_at, 50);
    assert_eq!(updated.user_id, 2);
    assert_eq!(updated.heart_rate, 95);
    assert_eq!(updated.blood_pressure, "140/90");
    assert_eq!(updated.activity_level, "high");
    assert_eq!(updated.status, HealthStatus::Critical);
    assert_eq!(r.get_health_record_by_id(created.id).unwrap(), updated);
}

#[test]
fn update_without_existing_id_is_not_an_upsert() {
    let mut r = Registry::new();
    let res = r.update_user(42, user_payload("X", "x@x", UserType::Elderly));
    assert_eq!(res.unwrap_err(), "User not found");
    assert!(matches!(r.get_user_by_id(42), Err(Error::NotFound { .. })));
}

#[test]
fn delete_then_get_yields_not_found() {
    let mut r = Registry::new();
    let created = r.create_user(user_payload("Alice", "a@x.com", UserType::Elderly), 1).unwrap();
    assert!(r.delete_user(created.id).is_ok());
    match r.get_user_by_id(created.id) {
        Err(Error::NotFound { msg }) => assert_eq!(msg, "User not found."),
        other => panic!("expected NotFound, got {:?}", other),
    }
}

#[test]
fn delete_nonexistent_yields_not_found_and_changes_nothing() {
    let mut r = Registry::new();
    r.create_user(user_payload("Alice", "a@x.com", UserType::Elderly), 1).unwrap();
    assert_eq!(r.delete_user(999).unwrap_err(), "User not found");
    let all = r.get_all_users().unwrap();
    assert_eq!(all.len(), 1);
    assert_eq!(all[0].name, "Alice");
}

#[test]
fn failed_create_consumes_no_id() {
    let mut r = Registry::new();
    r.create_user(user_payload("Alice", "a@x.com", UserType::Elderly), 1).unwrap();
    let bad = r.create_health_record(health_payload(77, 72, "120/80", "low", HealthStatus::Stable), 2);
    assert_eq!(bad.unwrap_err(), "User ID does not exist.");
    let next = r
        .create_health_record(health_payload(1, 72, "120/80", "low", HealthStatus::Stable), 3)
        .unwrap();
    assert_eq!(next.id, 2);
}

#[test]
fn list_all_is_sorted_ascending_by_id() {
    let mut r = Registry::new();
    for (n, c) in [("A", "a@x"), ("B", "b@x"), ("C", "c@x")] {
        r.create_user(user_payload(n, c, UserType::Elderly), 1).unwrap();
    }
    r.delete_user(2).unwrap();
    r.create_user(user_payload("D", "d@x", UserType::Caregiver), 2).unwrap();
    let all = r.get_all_users().unwrap();
    let ids: Vec<u64> = all.iter().map(|u| u.id).collect();
    assert_eq!(ids, vec![1, 3, 4]);
}

#[test]
fn empty_lists_are_errors() {
    let r = Registry::new();
    assert_eq!(r.get_all_users().unwrap_err(), "No users found.");
    assert_eq!(r.get_all_health_records().unwrap_err(), "No health records found.");
    assert_eq!(r.get_all_medication_reminders().unwrap_err(), "No medication reminders found.");
    assert_eq!(r.get_all_virtual_consultations().unwrap_err(), "No virtual consultations found.");
}

#[test]
fn counter_state_survives_in_allocator() {
    let mut a = health_registry::counter::IdAllocator::new();
    assert_eq!(a.current(), 0);
    assert_eq!(a.increment_id(), 1);
    assert_eq!(a.increment_id(), 2);
    assert_eq!(a.increment_id(), 3);
    assert_eq!(a.current(), 3);
}

#[test]
fn update_reminder_full_replacement() {
    let mut r = Registry::new();
    r.create_user(user_payload("A", "a@x", UserType::Elderly), 1).unwrap();
    r.create_user(user_payload("B", "b@x", UserType::Elderly), 1).unwrap();
    let created = r
        .create_medication_reminder(reminder_payload(1, "aspirin", "100mg", "daily"), 30)
        .unwrap();
    let updated = r
        .update_medication_reminder(created.id, reminder_payload(2, "ibuprofen", "200mg", "weekly"))
        .unwrap();
    assert_eq!(updated.id, created.id);
    assert_eq!(updated.created_at, 30);
    assert_eq!(updated.user_id, 2);
    assert_eq!(updated.medication_name, "ibuprofen");
    assert_eq!(updated.dosage, "200mg");
    assert_eq!(updated.schedule, "weekly");
    assert_eq!(r.get_medication_reminder_by_id(created.id).unwrap(), updated);
}

#[test]
fn update_consultation_full_replacement() {
    let mut r = Registry::new();
    r.create_user(user_payload("A", "a@x", UserType::Elderly), 1).unwrap();
    r.create_user(user_payload("P", "p@x", UserType::HealthcareProvider), 1).unwrap();
    let created = r
        .create_virtual_consultation(consultation_payload(1, 2, 500, "pending"), 40)
        .unwrap();
    let updated = r
        .update_virtual_consultation(created.id, consultation_payload(2, 1, 900, "done"))
        .unwrap();
    assert_eq!(updated.id, created.id);
    assert_eq!(updated.created_at, 40);
    assert_eq!(updated.user_id, 2);
    assert_eq!(updated.provider_id, 1);
    assert_eq!(updated.scheduled_at, 900);
    assert_eq!(updated.status, "done");
    assert_eq!(r.get_virtual_consultation_by_id(created.id).unwrap(), updated);
}

#[test]
fn delete_each_dependent_entity_then_get_not_found() {
    let mut r = Registry::new();
    r.create_user(user_payload("A", "a@x", UserType::Elderly), 1).unwrap();
    let h = r
        .create_health_record(health_payload(1, 70, "120/80", "low", HealthStatus::Stable), 2)
        .unwrap();
    let m = r.create_medication_reminder(reminder_payload(1, "a", "b", "c"), 3).unwrap();
    let c = r.create_virtual_consultation(consultation_payload(1, 1, 10, "pending"), 4).unwrap();
    r.delete_health_record(h.id).unwrap();
    r.delete_medication_reminder(m.id).unwrap();
    r.delete_virtual_consultation(c.id).unwrap();
    assert!(matches!(r.get_health_record_by_id(h.id), Err(Error::NotFound { .. })));
    assert!(matches!(r.get_medication_reminder_by_id(m.id), Err(Error::NotFound { .. })));
    assert!(matches!(r.get_virtual_consultation_by_id(c.id), Err(Error::NotFound { .. })));
}

#[test]
fn list_dependent_entities_sorted_by_id() {
    let mut r = Registry::new();
    r.create_user(user_payload("A", "a@x", UserType::Elderly), 1).unwrap();
    for _ in 0..3 {
        r.create_health_record(health_payload(1, 70, "120/80", "low", HealthStatus::Stable), 2)
            .unwrap();
        r.create_medication_reminder(reminder_payload(1, "a", "b", "c"), 3).unwrap();
        r.create_virtual_consultation(consultation_payload(1, 1, 10, "pending"), 4).unwrap();
    }
    let hr_ids: Vec<u64> = r.get_all_health_records().unwrap().iter().map(|x| x.id).collect();
    let mr_ids: Vec<u64> = r.get_all_medication_reminders().unwrap().iter().map(|x| x.id).collect();
    let vc_ids: Vec<u64> = r.get_all_virtual_consultations().unwrap().iter().map(|x| x.id).collect();
    assert_eq!(hr_ids, vec![2, 5, 8]);
    assert_eq!(mr_ids, vec![3, 6, 9]);
    assert_eq!(vc_ids, vec![4, 7, 10]);
}
