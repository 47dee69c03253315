//! Mentor vouching: verified mentors vouch for learners, which raises the
//! learner's reputation by a boost that is taken back, clamped to the
//! learner's pre-vouch baseline, when the vouch is revoked or expires.
pub mod errors;
pub mod safe_math;
pub mod types;
pub mod accounting;
pub mod contract;
