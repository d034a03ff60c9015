//! The stored entities: their fields, builders and partial updates.

pub mod stage;
pub mod question;
pub mod booth;
pub mod booth_booking;
pub mod event;
pub mod lead_provenance;
pub mod lead_request;
pub mod lead_rule;
pub mod lead_rule_predicate;
pub mod mail_registration;
pub mod mail_slot;
pub mod registration;
pub mod registration_question;
pub mod slot;
pub mod ticket;
pub mod type_mail;
