//! A single-use, server-side TCP connection handle.
//!
//! The `connection` module holds the verified lifecycle state machine of the
//! handle: the reuse guard, the recording of a resolved ephemeral port, the
//! recording of an accepted stream, and idempotent teardown. The socket calls
//! themselves (bind, accept, shutdown) are performed by an unverified shell
//! that drives this state machine and hands it the outcome of each call.
//!
//! The `decimal` module renders the port number that the operating system
//! assigned as a decimal string, as the handle stores ports in string form.

pub mod connection;
pub mod decimal;
