//! The traits a session implements to run inside a client component.

use vstd::prelude::*;

verus! {

/// A session that runs on a multicast bus.  It is created from its
/// configuration and arguments, yielding the receiver and the messages
/// that the bus is created with; it is then started with the stream
/// parties that the bus lists.
pub trait MulticastClientSession<Recv, Msgs, Parties, Args>: Sized {
    type Config;
    type CreateError: std::fmt::Debug + std::fmt::Display;
    type StartError: std::fmt::Debug + std::fmt::Display;
    type Cleanup: ClientSessionCleanup;

    fn create(config: Self::Config, args: Args) -> Result<(Self, Recv, Msgs), Self::CreateError>;

    fn start(self, parties: Parties) -> Result<Self::Cleanup, Self::StartError>;
}

/// A session that runs on a unicast bus.  It is created from its
/// configuration and arguments, yielding the receiver and the messages
/// that the bus is created with; it is then started.
pub trait UnicastClientSession<Recv, Msgs, Args>: Sized {
    type Config;
    type CreateError: std::fmt::Debug + std::fmt::Display;
    type StartError: std::fmt::Display;
    type Cleanup: ClientSessionCleanup;

    fn create(config: Self::Config, args: Args) -> Result<(Self, Recv, Msgs), Self::CreateError>;

    fn start(self) -> Result<Self::Cleanup, Self::StartError>;
}

/// What a started session leaves behind, to be cleaned up when the
/// component is torn down.
pub trait ClientSessionCleanup {
    fn cleanup(self);
}

} // verus!
