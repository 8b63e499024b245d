//! Scheduling and command dispatch for a single networked light fixture:
//! an hour/minute/weekday time model with wrap-around arithmetic, recurring
//! rules expanded into one-shot triggers, a once-per-minute scheduler check,
//! a deferred-callback queue between request handlers and the dispatch loop,
//! a rate-limited pending-state queue with retry, and a sunrise
//! brightness/color ramp generator.

pub mod api_request;
pub mod constants;
pub mod dispatch;
pub mod fn_queue;
pub mod govee;
pub mod govee_secrets;
pub mod state;
pub mod timeday;
pub mod timer;
pub mod validate;
