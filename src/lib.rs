// Decision logic for a device that keeps one encrypted session to a fixed
// peer alive over a wireless link. Each part is a state machine that takes
// the outcome of outside work as an event and names the next outside step
// as an action; a runner performs the actions (radio, network stack, TLS,
// timers) and feeds the outcomes back.
//
// - `link`: keeps the radio associated, reconnecting after each disconnect.
// - readiness barrier: holds the pipeline until the stack has a link and an
//   address.
// - `session`: one attempt: transport connect, session layering, handshake.
// - `orchestrator`: waits on the readiness barrier once, then runs attempts
//   forever with fixed delays around each.
// - `credentials`: the network name and passphrase, checked against the
//   radio's limits.

pub mod credentials;
pub mod gate;
pub mod link;
pub mod orchestrator;
pub mod session;
