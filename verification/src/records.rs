//! The four entity types, their creation/update payloads, the
//! validation rules that guard every create, and the error type
//! returned by lookups.

use vstd::prelude::*;

verus! {

/// The role a user plays in the system.
#[derive(Clone, Copy, Debug, PartialEq, Eq, Structural)]
pub enum UserType {
    Elderly,
    Caregiver,
    HealthcareProvider,
}

/// Caller-supplied condition carried on a health record.
#[derive(Clone, Copy, Debug, PartialEq, Eq, Structural)]
pub enum HealthStatus {
    Stable,
    Critical,
}

/// A registered user. `id` is unique across every entity type;
/// `created_at` is stamped once at creation and never changes.
#[derive(Clone, Debug, PartialEq, Eq)]
pub struct User {
    pub id: u64,
    pub name: String,
    pub contact: String,
    pub user_type: UserType,
    pub created_at: u64,
}

/// A health measurement attached to a user. `user_id` is checked to
/// exist when the record is created, and only then.
#[derive(Clone, Debug, PartialEq, Eq)]
pub struct HealthRecord {
    pub id: u64,
    pub user_id: u64,
    pub heart_rate: u8,
    pub blood_pressure: String,
    pub activity_level: String,
    pub status: HealthStatus,
    pub recorded_at: u64,
}

/// A medication schedule attached to a user.
#[derive(Clone, Debug, PartialEq, Eq)]
pub struct MedicationReminder {
    pub id: u64,
    pub user_id: u64,
    pub medication_name: String,
    pub dosage: String,
    pub schedule: String,
    pub created_at: u64,
}

/// A consultation between a user and a provider; both ids are checked
/// to exist when the consultation is created.
#[derive(Clone, Debug, PartialEq, Eq)]
pub struct VirtualConsultation {
    pub id: u64,
    pub user_id: u64,
    pub provider_id: u64,
    pub scheduled_at: u64,
    pub status: String,
    pub created_at: u64,
}

/// Everything a caller supplies to create or update a user.
#[derive(Clone, Debug, PartialEq, Eq)]
pub struct UserPayload {
    pub name: String,
    pub contact: String,
    pub user_type: UserType,
}

/// Everything a caller supplies to create or update a health record.
#[derive(Clone, Debug, PartialEq, Eq)]
pub struct HealthRecordPayload {
    pub user_id: u64,
    pub heart_rate: u8,
    pub blood_pressure: String,
    pub activity_level: String,
    pub status: HealthStatus,
}

/// Everything a caller supplies to create or update a reminder.
#[derive(Clone, Debug, PartialEq, Eq)]
pub struct MedicationReminderPayload {
    pub user_id: u64,
    pub medication_name: String,
    pub dosage: String,
    pub schedule: String,
}

/// Everything a caller supplies to create or update a consultation.
#[derive(Clone, Debug, PartialEq, Eq)]
pub struct VirtualConsultationPayload {
    pub user_id: u64,
    pub provider_id: u64,
    pub scheduled_at: u64,
    pub status: String,
}

/// Error returned by the lookup operations. `UnAuthorized` is part of
/// the taxonomy but no operation produces it.
#[derive(Clone, Debug, PartialEq, Eq)]
pub enum Error {
    NotFound { msg: String },
    UnAuthorized { msg: String },
}

/// A user payload passes validation when both strings are non-empty.
pub open spec fn user_payload_valid(p: UserPayload) -> bool {
    p.name@.len() > 0 && p.contact@.len() > 0
}

/// A health-record payload passes field validation when both strings
/// are non-empty (the referential check on `user_id` is separate).
pub open spec fn health_record_payload_valid(p: HealthRecordPayload) -> bool {
    p.blood_pressure@.len() > 0 && p.activity_level@.len() > 0
}

/// A reminder payload passes field validation when all three strings
/// are non-empty.
pub open spec fn reminder_payload_valid(p: MedicationReminderPayload) -> bool {
    p.medication_name@.len() > 0 && p.dosage@.len() > 0 && p.schedule@.len() > 0
}

/// A consultation payload passes field validation when both ids are
/// non-zero and the status string is non-empty.
pub open spec fn consultation_payload_valid(p: VirtualConsultationPayload) -> bool {
    p.user_id != 0 && p.provider_id != 0 && p.status@.len() > 0
}

/// The user built from a payload, a fresh id and a timestamp.
pub open spec fn user_from_payload(p: UserPayload, id: u64, now: u64) -> User {
    User { id, name: p.name, contact: p.contact, user_type: p.user_type, created_at: now }
}

/// The health record built from a payload, a fresh id and a timestamp.
pub open spec fn health_record_from_payload(p: HealthRecordPayload, id: u64, now: u64) -> HealthRecord {
    HealthRecord {
        id,
        user_id: p.user_id,
        heart_rate: p.heart_rate,
        blood_pressure: p.blood_pressure,
        activity_level: p.activity_level,
        status: p.status,
        recorded_at: now,
    }
}

/// The reminder built from a payload, a fresh id and a timestamp.
pub open spec fn reminder_from_payload(p: MedicationReminderPayload, id: u64, now: u64) -> MedicationReminder {
    MedicationReminder {
        id,
        user_id: p.user_id,
        medication_name: p.medication_name,
        dosage: p.dosage,
        schedule: p.schedule,
        created_at: now,
    }
}

/// The consultation built from a payload, a fresh id and a timestamp.
pub open spec fn consultation_from_payload(p: VirtualConsultationPayload, id: u64, now: u64) -> VirtualConsultation {
    VirtualConsultation {
        id,
        user_id: p.user_id,
        provider_id: p.provider_id,
        scheduled_at: p.scheduled_at,
        status: p.status,
        created_at: now,
    }
}

/// The user after a full-replacement update: `id` and `created_at`
/// are kept, every other field comes from the payload.
pub open spec fn user_merged(prev: User, p: UserPayload) -> User {
    User {
        id: prev.id,
        name: p.name,
        contact: p.contact,
        user_type: p.user_type,
        created_at: prev.created_at,
    }
}

/// The health record after a full-replacement update: `id` and
/// `recorded_at` are kept, every other field comes from the payload.
pub open spec fn health_record_merged(prev: HealthRecord, p: HealthRecordPayload) -> HealthRecord {
    HealthRecord {
        id: prev.id,
        user_id: p.user_id,
        heart_rate: p.heart_rate,
        blood_pressure: p.blood_pressure,
        activity_level: p.activity_level,
        status: p.status,
        recorded_at: prev.recorded_at,
    }
}

/// The reminder after a full-replacement update: `id` and
/// `created_at` are kept, every other field comes from the payload.
pub open spec fn reminder_merged(prev: MedicationReminder, p: MedicationReminderPayload) -> MedicationReminder {
    MedicationReminder {
        id: prev.id,
        user_id: p.user_id,
        medication_name: p.medication_name,
        dosage: p.dosage,
        schedule: p.schedule,
        created_at: prev.created_at,
    }
}

/// The consultation after a full-replacement update: `id` and
/// `created_at` are kept, every other field comes from the payload.
pub open spec fn consultation_merged(prev: VirtualConsultation, p: VirtualConsultationPayload) -> VirtualConsultation {
    VirtualConsultation {
        id: prev.id,
        user_id: p.user_id,
        provider_id: p.provider_id,
        scheduled_at: p.scheduled_at,
        status: p.status,
        created_at: prev.created_at,
    }
}

impl User {
    /// An owned copy equal to `self`.
    pub fn dup(&self) -> (r: Self)
        ensures
            r == *self,
    {
        User {
            id: self.id,
            name: self.name.clone(),
            contact: self.contact.clone(),
            user_type: self.user_type,
            created_at: self.created_at,
        }
    }
}

impl HealthRecord {
    /// An owned copy equal to `self`.
    pub fn dup(&self) -> (r: Self)
        ensures
            r == *self,
    {
        HealthRecord {
            id: self.id,
            user_id: self.user_id,
            heart_rate: self.heart_rate,
            blood_pressure: self.blood_pressure.clone(),
            activity_level: self.activity_level.clone(),
            status: self.status,
            recorded_at: self.recorded_at,
        }
    }
}

impl MedicationReminder {
    /// An owned copy equal to `self`.
    pub fn dup(&self) -> (r: Self)
        ensures
            r == *self,
    {
        MedicationReminder {
            id: self.id,
            user_id: self.user_id,
            medication_name: self.medication_name.clone(),
            dosage: self.dosage.clone(),
            schedule: self.schedule.clone(),
            created_at: self.created_at,
        }
    }
}

impl VirtualConsultation {
    /// An owned copy equal to `self`.
    pub fn dup(&self) -> (r: Self)
        ensures
            r == *self,
    {
        VirtualConsultation {
            id: self.id,
            user_id: self.user_id,
            provider_id: self.provider_id,
            scheduled_at: self.scheduled_at,
            status: self.status.clone(),
            created_at: self.created_at,
        }
    }
}

} // verus!
