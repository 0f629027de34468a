pub mod auth;
pub mod checkin;
pub mod error;
pub mod flow;
pub mod joining;
pub mod laws;
pub mod runs;
pub mod password;
pub mod queries;
pub mod register;
pub mod submission;
pub mod text;
pub mod validation;
