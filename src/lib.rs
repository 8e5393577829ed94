//! Idempotent request processing for the farms service: validated
//! idempotency keys, exact capture and replay of responses, a reservation
//! store with expiry, and the coordinator that decides, per request attempt,
//! whether to process or to replay; with the validators of the farm records
//! that such requests create.

pub mod text;
pub mod config;
pub mod key;
pub mod response;
pub mod store;
pub mod coordinator;
pub mod canton;
pub mod address;
pub mod name;
pub mod farm_name;
pub mod categories;
pub mod routes;
