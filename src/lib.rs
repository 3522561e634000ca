/// Current time, read through chrono.
pub mod clock;
/// The worker's line protocol: decoding, folding into the status, log records.
pub mod event;
/// The JSON values the worker sends, read through serde_json.
pub mod json;
/// What holds of the status over sequences of changes.
pub mod laws;
/// Locating the worker's repository and its interpreter.
pub mod paths;
/// The indicator's look and tooltip, derived from the status.
pub mod presentation;
/// The aggregated status of the worker and its changes.
pub mod status;
/// The supervisor's decisions: start, stop, the watchdog, stamped changes.
pub mod supervisor;
/// Decimal notation.
pub mod text;
