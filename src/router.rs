//! Classification and dispatch of inbound transport events.
use vstd::prelude::*;

verus! {

/// One event delivered by the transport session.
pub enum InboundEvent {
    BeforeConnect,
    Connected(bool),
    Disconnected,
    Subscribed(u32),
    Unsubscribed(u32),
    Published(u32),
    /// A message, or one chunk of it when `complete` is false.
    Received { id: u32, topic: Option<String>, data: Vec<u8>, complete: bool },
    Deleted(u32),
    /// The transport reported an error code.
    Error(i32),
}

/// Whether `event` is a whole message delivered on `command_topic`.
pub open spec fn is_command_delivery(command_topic: Seq<char>, event: InboundEvent) -> bool {
    match event {
        InboundEvent::Received { topic: Some(t), complete, .. } => complete && t@ == command_topic,
        _ => false,
    }
}

/// The body of a command delivery.
pub open spec fn command_body(event: InboundEvent) -> Seq<u8> {
    match event {
        InboundEvent::Received { data, .. } => data@,
        _ => Seq::empty(),
    }
}

/// Receives every event that is not a command delivery.
///
/// The spec functions have closed defaults, so nothing is known of them for a
/// handler that does not define them; a verified handler defines them.
pub trait EventHandler: Sized {
    /// Whether `after` is a state this handler may reach by handling `event`.
    closed spec fn handled(&self, event: InboundEvent, after: Self) -> bool {
        true
    }

    fn on_event(&mut self, event: &InboundEvent)
        ensures
            old(self).handled(*event, *final(self)),
    ;
}

/// Turns command bodies into commands and reacts to them.
///
/// As for `EventHandler`, the spec functions' defaults are closed.
pub trait CommandHandler: Sized {
    type Command;

    /// The command carried by `body`, or `None` when it is malformed.
    closed spec fn decoded(&self, body: Seq<u8>) -> Option<Self::Command> {
        None
    }

    /// Whether `after` is a state this handler may reach by handling
    /// `command`.
    closed spec fn handled_command(&self, command: Self::Command, after: Self) -> bool {
        true
    }

    fn decode(&self, body: &[u8]) -> (r: Option<Self::Command>)
        ensures
            r == self.decoded(body@),
    ;

    fn on_command(&mut self, command: &Self::Command)
        ensures
            old(self).handled_command(*command, *final(self)),
    ;
}

/// A handler that ignores what it is given and decodes no command.
pub struct Ignore;

impl EventHandler for Ignore {
    open spec fn handled(&self, event: InboundEvent, after: Self) -> bool {
        true
    }

    fn on_event(&mut self, event: &InboundEvent) {
    }
}

impl CommandHandler for Ignore {
    type Command = ();

    open spec fn decoded(&self, body: Seq<u8>) -> Option<()> {
        None
    }

    open spec fn handled_command(&self, command: (), after: Self) -> bool {
        true
    }

    fn decode(&self, body: &[u8]) -> (r: Option<()>) {
        None
    }

    fn on_command(&mut self, command: &()) {
    }
}

/// Where an inbound event was routed.
pub enum Route<'a> {
    /// A command delivery, with its body.
    Command(&'a [u8]),
    /// Any other event.
    Generic,
}

/// What the router did with one event.
#[derive(Debug, Clone, Copy, PartialEq, Eq, Structural)]
pub enum Dispatch {
    /// The command handler received the decoded command.
    Delivered,
    /// A command delivery whose body did not decode; no handler ran.
    Dropped,
    /// The generic handler received the event.
    Forwarded,
}

/// Routes inbound events of one device to its two handlers.
pub struct EventRouter<H, K> {
    command_topic: String,
    handler: H,
    command_handler: K,
}

impl<H, K> EventRouter<H, K> {
    /// The command topic the router was made with.
    pub closed spec fn command_topic_view(&self) -> Seq<char> {
        self.command_topic@
    }

    pub closed spec fn handler_view(&self) -> H {
        self.handler
    }

    pub closed spec fn command_handler_view(&self) -> K {
        self.command_handler
    }

    pub fn new(command_topic: String, handler: H, command_handler: K) -> (r: Self)
        ensures
            r.command_topic_view() == command_topic@,
            r.handler_view() == handler,
            r.command_handler_view() == command_handler,
    {
        EventRouter { command_topic, handler, command_handler }
    }

    /// The generic event handler.
    pub fn handler(&self) -> (r: &H)
        ensures
            *r == self.handler_view(),
    {
        &self.handler
    }

    /// The command handler.
    pub fn command_handler(&self) -> (r: &K)
        ensures
            *r == self.command_handler_view(),
    {
        &self.command_handler
    }

    pub fn command_topic(&self) -> (r: &str)
        ensures
            r@ == self.command_topic_view(),
    {
        self.command_topic.as_str()
    }

    /// Decides where `event` goes.
    pub fn classify<'a>(&self, event: &'a InboundEvent) -> (r: Route<'a>)
        ensures
            is_command_delivery(self.command_topic_view(), *event) <==> r is Command,
            r matches Route::Command(body) ==> body@ == command_body(*event),
    {
        match event {
            InboundEvent::Received { topic: Some(topic), data, complete, .. } => {
                if *complete && *topic == self.command_topic {
                    Route::Command(data.as_slice())
                } else {
                    Route::Generic
                }
            },
            _ => Route::Generic,
        }
    }

    /// Finishes a command delivery whose body decoded to `decoded`: a command
    /// goes to the command handler, a failed decode is dropped, and the
    /// generic handler is left alone either way.
    pub fn deliver(&mut self, decoded: Option<K::Command>) -> (r: Dispatch) where
        K: CommandHandler,

        ensures
            final(self).command_topic_view() == old(self).command_topic_view(),
            final(self).handler_view() == old(self).handler_view(),
            r == (if decoded is Some {
                Dispatch::Delivered
            } else {
                Dispatch::Dropped
            }),
            decoded is Some ==> old(self).command_handler_view().handled_command(
                decoded->0,
                final(self).command_handler_view(),
            ),
            decoded is None ==> final(self).command_handler_view()
                == old(self).command_handler_view(),
    {
        match decoded {
            Some(command) => {
                self.command_handler.on_command(&command);
                Dispatch::Delivered
            },
            None => Dispatch::Dropped,
        }
    }

    /// Hands `event` to at most one handler: a command delivery goes to the
    /// command handler when its body decodes and is dropped otherwise; every
    /// other event goes to the generic handler unchanged.
    pub fn dispatch(&mut self, event: &InboundEvent) -> (r: Dispatch) where
        H: EventHandler,
        K: CommandHandler,

        ensures
            final(self).command_topic_view() == old(self).command_topic_view(),
            !is_command_delivery(old(self).command_topic_view(), *event) ==> {
                &&& r == Dispatch::Forwarded
                &&& old(self).handler_view().handled(*event, final(self).handler_view())
                &&& final(self).command_handler_view() == old(self).command_handler_view()
            },
            is_command_delivery(old(self).command_topic_view(), *event) ==> {
                let decoded = old(self).command_handler_view().decoded(command_body(*event));
                &&& final(self).handler_view() == old(self).handler_view()
                &&& match decoded {
                    Some(command) => {
                        &&& r == Dispatch::Delivered
                        &&& old(self).command_handler_view().handled_command(
                            command,
                            final(self).command_handler_view(),
                        )
                    },
                    None => {
                        &&& r == Dispatch::Dropped
                        &&& final(self).command_handler_view() == old(
                            self,
                        ).command_handler_view()
                    },
                }
            },
    {
        match self.classify(event) {
            Route::Command(body) => {
                let decoded = self.command_handler.decode(body);
                self.deliver(decoded)
            },
            Route::Generic => {
                self.handler.on_event(event);
                Dispatch::Forwarded
            },
        }
    }
}

} // verus!
