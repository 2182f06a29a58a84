use vstd::prelude::*;

verus! {

/// Configuration of a multicast client: the party identifying this node,
/// the configuration of the multicast bus, and the configuration of the
/// session that runs on top of it.
#[derive(Clone, Debug, PartialEq, PartialOrd)]
pub struct MulticastClientConfig<Session, PartyID, Bus> {
    self_party: PartyID,
    multicast: Bus,
    session: Session,
}

impl<Session, PartyID, Bus> MulticastClientConfig<Session, PartyID, Bus> {
    /// The party identifying this node.
    pub closed spec fn spec_self_party(&self) -> PartyID {
        self.self_party
    }

    /// The multicast bus configuration.
    pub closed spec fn spec_multicast(&self) -> Bus {
        self.multicast
    }

    /// The session configuration.
    pub closed spec fn spec_session(&self) -> Session {
        self.session
    }

    /// The configuration made of the given parts.
    pub closed spec fn spec_new(self_party: PartyID, multicast: Bus, session: Session) -> Self {
        MulticastClientConfig { self_party, multicast, session }
    }

    /// Builds the configuration from its parts.
    pub fn new(self_party: PartyID, multicast: Bus, session: Session) -> (res: Self)
        ensures
            res == Self::spec_new(self_party, multicast, session),
            res.spec_self_party() == self_party,
            res.spec_multicast() == multicast,
            res.spec_session() == session,
    {
        MulticastClientConfig { self_party: self_party, multicast: multicast, session: session }
    }

    /// The party identifying this node.
    pub fn self_party(&self) -> (res: &PartyID)
        ensures
            *res == self.spec_self_party(),
    {
        &self.self_party
    }

    /// The multicast bus configuration.
    pub fn multicast(&self) -> (res: &Bus)
        ensures
            *res == self.spec_multicast(),
    {
        &self.multicast
    }

    /// Gives back the party, the bus configuration and the session
    /// configuration.
    pub fn take(self) -> (res: (PartyID, Bus, Session))
        ensures
            res == (self.spec_self_party(), self.spec_multicast(), self.spec_session()),
    {
        (self.self_party, self.multicast, self.session)
    }
}

/// Configuration of a unicast client: the configuration of the unicast
/// bus, and the configuration of the session that runs on top of it.
#[derive(Clone, Debug, PartialEq, PartialOrd)]
pub struct UnicastClientConfig<Session, Bus> {
    unicast: Bus,
    session: Session,
}

impl<Session, Bus> UnicastClientConfig<Session, Bus> {
    /// The unicast bus configuration.
    pub closed spec fn spec_unicast(&self) -> Bus {
        self.unicast
    }

    /// The session configuration.
    pub closed spec fn spec_session(&self) -> Session {
        self.session
    }

    /// The configuration made of the given parts.
    pub closed spec fn spec_new(unicast: Bus, session: Session) -> Self {
        UnicastClientConfig { unicast, session }
    }

    /// Builds the configuration from its parts.
    pub fn new(unicast: Bus, session: Session) -> (res: Self)
        ensures
            res == Self::spec_new(unicast, session),
            res.spec_unicast() == unicast,
            res.spec_session() == session,
    {
        UnicastClientConfig { unicast: unicast, session: session }
    }

    /// The unicast bus configuration.
    pub fn unicast(&self) -> (res: &Bus)
        ensures
            *res == self.spec_unicast(),
    {
        &self.unicast
    }

    /// Gives back the bus configuration and the session configuration.
    pub fn take(self) -> (res: (Bus, Session))
        ensures
            res == (self.spec_unicast(), self.spec_session()),
    {
        (self.unicast, self.session)
    }
}

/// A multicast configuration gives back the parts it was made of, and is
/// nothing but those parts: rebuilding it from its parts gives it back,
/// and two configurations are equal exactly when their parts are.
pub proof fn lemma_multicast_config_parts<Session, PartyID, Bus>(
    config: MulticastClientConfig<Session, PartyID, Bus>,
    other: MulticastClientConfig<Session, PartyID, Bus>,
    self_party: PartyID,
    multicast: Bus,
    session: Session,
)
    ensures
        MulticastClientConfig::spec_new(self_party, multicast, session).spec_self_party() == self_party,
        MulticastClientConfig::spec_new(self_party, multicast, session).spec_multicast() == multicast,
        MulticastClientConfig::spec_new(self_party, multicast, session).spec_session() == session,
        config == MulticastClientConfig::spec_new(
            config.spec_self_party(),
            config.spec_multicast(),
            config.spec_session(),
        ),
        config == other <==> (config.spec_self_party(), config.spec_multicast(), config.spec_session())
            == (other.spec_self_party(), other.spec_multicast(), other.spec_session()),
{
}

/// A unicast configuration gives back the parts it was made of, and is
/// nothing but those parts: rebuilding it from its parts gives it back,
/// and two configurations are equal exactly when their parts are.
pub proof fn lemma_unicast_config_parts<Session, Bus>(
    config: UnicastClientConfig<Session, Bus>,
    other: UnicastClientConfig<Session, Bus>,
    unicast: Bus,
    session: Session,
)
    ensures
        UnicastClientConfig::spec_new(unicast, session).spec_unicast() == unicast,
        UnicastClientConfig::spec_new(unicast, session).spec_session() == session,
        config == UnicastClientConfig::spec_new(config.spec_unicast(), config.spec_session()),
        config == other <==> (config.spec_unicast(), config.spec_session()) == (
            other.spec_unicast(),
            other.spec_session(),
        ),
{
}

} // verus!
