//! Validation and referential-integrity behaviour: exact error
//! messages, the checks that run before any allocation, and the two
//! scenarios around dangling references and missing providers.

use health_registry::records::Error;
use health_registry::records::HealthRecordPayload;
use health_registry::records::HealthStatus;
use health_registry::records::MedicationReminderPayload;
use health_registry::records::UserPayload;
use health_registry::records::UserType;
use health_registry::records::VirtualConsultationPayload;
use health_registry::service::Registry;

fn named_user(name: &str, contact: &str) -> UserPayload {
    UserPayload { name: name.to_string(), contact: contact.to_string(), user_type: UserType::Elderly }
}

#[test]
fn user_with_empty_name_or_contact_is_rejected() {
    let mut r = Registry::new();
    assert_eq!(
        r.create_user(named_user("", "a@x.com"), 1).unwrap_err(),
        "Name and contact cannot be empty"
    );
    assert_eq!(
        r.create_user(named_user("Alice", ""), 1).unwrap_err(),
        "Name and contact cannot be empty"
    );
    let ok = r.create_user(named_user("Alice", "a@x.com"), 1).unwrap();
    assert_eq!(ok.id, 1);
}

#[test]
fn health_record_with_empty_fields_is_rejected() {
    let mut r = Registry::new();
    r.create_user(named_user("Alice", "a@x.com"), 1).unwrap();
    let p = HealthRecordPayload {
        user_id: 1,
        heart_rate: 70,
        blood_pressure: String::new(),
        activity_level: "low".to_string(),
        status: HealthStatus::Stable,
    };
    assert_eq!(r.create_health_record(p, 2).unwrap_err(), "All fields must be provided.");
}

#[test]
fn reminder_with_empty_fields_is_rejected() {
    let mut r = Registry::new();
    r.create_user(named_user("Alice", "a@x.com"), 1).unwrap();
    let p = MedicationReminderPayload {
        user_id: 1,
        medication_name: "aspirin".to_string(),
        dosage: String::new(),
        schedule: "daily".to_string(),
    };
    assert_eq!(r.create_medication_reminder(p, 2).unwrap_err(), "All fields must be provided.");
}

#[test]
fn consultation_with_zero_ids_or_empty_status_is_rejected() {
    let mut r = Registry::new();
    r.create_user(named_user("Alice", "a@x.com"), 1).unwrap();
    let zero_user = VirtualConsultationPayload {
        user_id: 0,
        provider_id: 1,
        scheduled_at: 10,
        status: "pending".to_string(),
    };
    assert_eq!(
        r.create_virtual_consultation(zero_user, 2).unwrap_err(),
        "All fields must be provided."
    );
    let empty_status = VirtualConsultationPayload {
        user_id: 1,
        provider_id: 1,
        scheduled_at: 10,
        status: String::new(),
    };
    assert_eq!(
        r.create_virtual_consultation(empty_status, 2).unwrap_err(),
        "All fields must be provided."
    );
}

#[test]
fn dependent_creates_require_existing_user() {
    let mut r = Registry::new();
    let hp = HealthRecordPayload {
        user_id: 5,
        heart_rate: 70,
        blood_pressure: "120/80".to_string(),
        activity_level: "low".to_string(),
        status: HealthStatus::Stable,
    };
    assert_eq!(r.create_health_record(hp, 1).unwrap_err(), "User ID does not exist.");
    let mp = MedicationReminderPayload {
        user_id: 5,
        medication_name: "aspirin".to_string(),
        dosage: "100mg".to_string(),
        schedule: "daily".to_string(),
    };
    assert_eq!(r.create_medication_reminder(mp, 1).unwrap_err(), "User ID does not exist.");
    let created = r.create_user(named_user("Alice", "a@x.com"), 1).unwrap();
    assert_eq!(created.id, 1);
}

#[test]
fn not_found_messages_for_each_entity() {
    let r = Registry::new();
    match r.get_user_by_id(1) {
        Err(Error::NotFound { msg }) => assert_eq!(msg, "User not found."),
        other => panic!("unexpected {:?}", other),
    }
    match r.get_health_record_by_id(1) {
        Err(Error::NotFound { msg }) => assert_eq!(msg, "Health record not found."),
        other => panic!("unexpected {:?}", other),
    }
    match r.get_medication_reminder_by_id(1) {
        Err(Error::NotFound { msg }) => assert_eq!(msg, "Medication reminder not found."),
        other => panic!("unexpected {:?}", other),
    }
    match r.get_virtual_consultation_by_id(1) {
        Err(Error::NotFound { msg }) => assert_eq!(msg, "Virtual consultation not found."),
        other => panic!("unexpected {:?}", other),
    }
}

#[test]
fn update_and_delete_not_found_messages() {
    let mut r = Registry::new();
    let hp = HealthRecordPayload {
        user_id: 1,
        heart_rate: 70,
        blood_pressure: "120/80".to_string(),
        activity_level: "low".to_string(),
        status: HealthStatus::Stable,
    };
    let mp = MedicationReminderPayload {
        user_id: 1,
        medication_name: "a".to_string(),
        dosage: "b".to_string(),
        schedule: "c".to_string(),
    };
    let cp = VirtualConsultationPayload {
        user_id: 1,
        provider_id: 1,
        scheduled_at: 10,
        status: "pending".to_string(),
    };
    assert_eq!(r.update_health_record(1, hp).unwrap_err(), "Health record not found");
    assert_eq!(r.update_medication_reminder(1, mp).unwrap_err(), "Medication reminder not found");
    assert_eq!(r.update_virtual_consultation(1, cp).unwrap_err(), "Virtual consultation not found");
    assert_eq!(r.delete_health_record(1).unwrap_err(), "Health record not found");
    assert_eq!(r.delete_medication_reminder(1).unwrap_err(), "Medication reminder not found");
    assert_eq!(r.delete_virtual_consultation(1).unwrap_err(), "Virtual consultation not found");
}

#[test]
fn deleting_a_user_leaves_dependents_dangling() {
    let mut r = Registry::new();
    let alice = r.create_user(named_user("Alice", "a@x.com"), 10).unwrap();
    assert_eq!(alice.id, 1);
    let hp = HealthRecordPayload {
        user_id: 1,
        heart_rate: 72,
        blood_pressure: "120/80".to_string(),
        activity_level: "moderate".to_string(),
        status: HealthStatus::Stable,
    };
    let record = r.create_health_record(hp, 11).unwrap();
    assert_eq!(record.id, 2);
    assert_eq!(record.user_id, 1);
    let users = r.get_all_users().unwrap();
    assert_eq!(users.len(), 1);
    assert_eq!(users[0], alice);
    r.delete_user(1).unwrap();
    let still_there = r.get_health_record_by_id(2).unwrap();
    assert_eq!(still_there, record);
    assert_eq!(r.get_all_users().unwrap_err(), "No users found.");
}

#[test]
fn consultation_provider_must_exist_and_no_id_is_consumed() {
    let mut r = Registry::new();
    r.create_user(named_user("Alice", "a@x.com"), 1).unwrap();
    let p = VirtualConsultationPayload {
        user_id: 1,
        provider_id: 77,
        scheduled_at: 10,
        status: "pending".to_string(),
    };
    assert_eq!(
        r.create_virtual_consultation(p, 2).unwrap_err(),
        "Provider ID does not exist."
    );
    let next = r.create_user(named_user("Bob", "b@x.com"), 3).unwrap();
    assert_eq!(next.id, 2);
}
