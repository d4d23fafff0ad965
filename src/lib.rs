//! Crash reporting through a second process: the naming of the rendezvous
//! channel, the decisions of the client's connect loop, the scope that the
//! reporter mirrors from the application, the reporter's serve loop, and the
//! composition of the crash event that the reporter submits.
pub mod channel;
pub mod keyed;
pub mod launcher;
pub mod reporter;
pub mod scope;
pub mod session;

pub use reporter::Handler;
pub use scope::ScopeUpdate;
