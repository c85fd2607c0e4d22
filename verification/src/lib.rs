//! Student risk-trajectory scoring engine for a school-management
//! application, together with the pure decision rules of the surrounding
//! surface (role checks, photo-path validation, import summaries).
//!
//! The engine is deterministic and total: it maps raw behavioural signals
//! (attendance counts, assessment scores, submission recency, missing work)
//! to a normalized six-dimensional state vector, a bounded risk score, a
//! performance band and a ranked, never-empty list of intervention
//! recommendations. All quantities are fixed-point integers; fractional
//! values are carried in millionths of a unit, so every formula is exact
//! integer arithmetic with documented rounding.

pub mod auth;
pub mod models;
pub mod recommend;
pub mod storage;
pub mod trajectory;
