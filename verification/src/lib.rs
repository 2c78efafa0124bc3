//! Decision logic of a single-board telemetry node.
//!
//! The node reports an on-die temperature over a message bus whenever a
//! button is pressed, a timer fires or a request arrives on the bus. This
//! crate holds the rules of that node as plain state machines: every wait and
//! every transfer is left to the caller, which performs the action a step
//! returns and hands the outcome back as the next event.
//!
//! - [`slot`] and [`source`]: the single-value slot the event sources write to.
//! - [`dispatch`] and [`payload`]: the dispatcher and the reports it makes.
//! - [`wifi`]: the supervisor of the wireless link.
//! - [`netstack`]: address configuration, sockets and endpoints.
//! - [`mqtt`]: the session with the broker.
//! - [`startup`]: the order in which all of this comes up.

pub mod dispatch;
pub mod mqtt;
pub mod netstack;
pub mod payload;
pub mod slot;
pub mod source;
pub mod startup;
pub mod wifi;
