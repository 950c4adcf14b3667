//! Configuration of a device before its session is opened.
use vstd::prelude::*;
use vstd::string::*;
use crate::config::{
    broker_url, broker_url_of, option_view, resolve_identifier, resolved_identifier,
    DeviceDefaults, SessionConfig,
};
use crate::error::{Error, Result};
use crate::router::{EventRouter, Ignore};
use crate::topics::{command_topic_of, Topics};

verus! {

/// Collects the options of a device: its identifier, whether the session is
/// secured, its two handlers and an updater of the transport configuration.
pub struct Builder<H, K, U> {
    id: Option<String>,
    secure: bool,
    handler: H,
    command_handler: K,
    config: Option<U>,
}

/// Everything needed to open the session of a device.
pub struct Setup<H, K, U> {
    pub config: SessionConfig,
    pub topics: Topics,
    /// Endpoint of the broker.
    pub url: String,
    pub router: EventRouter<H, K>,
    /// Transport-specific overrides, applied to the configuration before the
    /// resolved identifier is written into it.
    pub updater: Option<U>,
}

impl Builder<Ignore, Ignore, ()> {
    /// A builder with no identifier, a secured session and handlers that
    /// ignore every event.
    pub fn new() -> (r: Self)
        ensures
            r.id_view() is None,
            r.secure_view(),
            r.updater_view() is None,
    {
        Builder { id: None, secure: true, handler: Ignore, command_handler: Ignore, config: None }
    }
}

impl<H, K, U> Builder<H, K, U> {
    pub closed spec fn id_view(&self) -> Option<Seq<char>> {
        option_view(self.id)
    }

    pub closed spec fn secure_view(&self) -> bool {
        self.secure
    }

    pub closed spec fn handler_view(&self) -> H {
        self.handler
    }

    pub closed spec fn command_handler_view(&self) -> K {
        self.command_handler
    }

    pub closed spec fn updater_view(&self) -> Option<U> {
        self.config
    }

    /// Sets the device identifier. It is preferred over the build-time
    /// default and over any identifier the updater sets.
    pub fn id(self, id: &str) -> (r: Self)
        ensures
            r.id_view() == Some(id@),
            r.secure_view() == self.secure_view(),
            r.handler_view() == self.handler_view(),
            r.command_handler_view() == self.command_handler_view(),
            r.updater_view() == self.updater_view(),
    {
        Builder { id: Some(String::from_str(id)), ..self }
    }

    /// Chooses a TLS session (the default) or a plain TCP one.
    pub fn secure(self, secure: bool) -> (r: Self)
        ensures
            r.id_view() == self.id_view(),
            r.secure_view() == secure,
            r.handler_view() == self.handler_view(),
            r.command_handler_view() == self.command_handler_view(),
            r.updater_view() == self.updater_view(),
    {
        Builder { secure, ..self }
    }

    /// Sets the handler of every event that is not a command.
    pub fn handler<G>(self, handler: G) -> (r: Builder<G, K, U>)
        ensures
            r.id_view() == self.id_view(),
            r.secure_view() == self.secure_view(),
            r.handler_view() == handler,
            r.command_handler_view() == self.command_handler_view(),
            r.updater_view() == self.updater_view(),
    {
        Builder {
            id: self.id,
            secure: self.secure,
            handler,
            command_handler: self.command_handler,
            config: self.config,
        }
    }

    /// Sets the handler of commands received on the command topic.
    pub fn command_handler<L>(self, command_handler: L) -> (r: Builder<H, L, U>)
        ensures
            r.id_view() == self.id_view(),
            r.secure_view() == self.secure_view(),
            r.handler_view() == self.handler_view(),
            r.command_handler_view() == command_handler,
            r.updater_view() == self.updater_view(),
    {
        Builder {
            id: self.id,
            secure: self.secure,
            handler: self.handler,
            command_handler,
            config: self.config,
        }
    }

    /// Sets the updater of the transport configuration.
    pub fn config<V>(self, updater: V) -> (r: Builder<H, K, V>)
        ensures
            r.id_view() == self.id_view(),
            r.secure_view() == self.secure_view(),
            r.handler_view() == self.handler_view(),
            r.command_handler_view() == self.command_handler_view(),
            r.updater_view() == Some(updater),
    {
        Builder {
            id: self.id,
            secure: self.secure,
            handler: self.handler,
            command_handler: self.command_handler,
            config: Some(updater),
        }
    }

    /// Resolves the identifier and derives the configuration, topics,
    /// endpoint and router of the device. Fails before anything is opened
    /// when no identifier resolves.
    pub fn prepare(self, defaults: &DeviceDefaults) -> (r: Result<Setup<H, K, U>>)
        ensures
            match resolved_identifier(self.id_view(), defaults.device_id@) {
                None => r is Err && r->Err_0 == Error::MissingIdentifier,
                Some(id) => r is Ok && {
                    let s = r->Ok_0;
                    &&& s.config.settled(defaults, self.secure_view(), id)
                    &&& s.topics.derived_from(id)
                    &&& s.url@ == broker_url_of(self.secure_view())
                    &&& s.router.command_topic_view() == command_topic_of(id)
                    &&& s.router.handler_view() == self.handler_view()
                    &&& s.router.command_handler_view() == self.command_handler_view()
                    &&& s.updater == self.updater_view()
                },
            },
    {
        let id = match resolve_identifier(&self.id, defaults.device_id.as_str()) {
            Ok(id) => id,
            Err(e) => return Err(e),
        };
        let topics = Topics::new(id.as_str());
        let router = EventRouter::new(topics.command.clone(), self.handler, self.command_handler);
        let config = SessionConfig::new(defaults, self.secure, id);
        let url = broker_url(self.secure);
        Ok(Setup { config, topics, url, router, updater: self.config })
    }
}

} // verus!
