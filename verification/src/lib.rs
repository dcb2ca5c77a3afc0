//! Rule-based filtering of container-runtime events, with the decision
//! logic of a notification dispatch loop.
//!
//! Events are matched against user-configured rules built from optional
//! criteria: a missing criterion is a wildcard, a single value must match,
//! and a list matches when any element does. Matched events are turned
//! into notification payloads for delivery to a gateway.

pub mod criterion;
pub mod rules;
pub mod subscription;
pub mod dispatch;
