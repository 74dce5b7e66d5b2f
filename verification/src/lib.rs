//! Recovery of saved wireless credentials: enumerate the adapters visible
//! through a session with the platform wireless-configuration service, list
//! each adapter's saved profiles, fetch each profile's configuration
//! document, and extract the plaintext credential stored under a nested
//! element path.
//!
//! The platform service itself is an external collaborator: a driver
//! performs the blocking service calls and feeds their outcomes to the
//! [`engine::Engine`] here, which makes every decision, keeps the
//! acquire/release discipline for service-owned lists and documents, and
//! collects the findings.

pub mod doc;
pub mod engine;
pub mod run;
pub mod wide;
