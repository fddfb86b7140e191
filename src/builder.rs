//! Configuration of a session before it starts: the protocol spoken, the
//! transport, and the handler registered for each message type.
use vstd::prelude::*;

verus! {

/// The sub-protocols a session may speak.
#[derive(Debug, Clone, Copy, PartialEq, Eq, Structural)]
pub enum Protocol {
    TemplateDistribution,
}

/// Why a configuration step was refused.
#[derive(Debug, Clone, Copy, PartialEq, Eq, Structural)]
pub enum BuilderError {
    /// The protocol was declared already.
    CapabilityAlreadySet,
    /// No protocol was declared yet, or a transport is attached already.
    TransportAttachError,
    /// A handler is registered for that message type already.
    DuplicateHandler,
    /// The protocol or the transport is missing.
    IncompleteConfiguration,
}

/// The handler registered for each message type: handler `i` takes the messages
/// whose type is `handlers[i]`.
pub struct Routing {
    pub handlers: Vec<u8>,
}

/// No message type has two handlers.
pub open spec fn distinct_tags(tags: Seq<u8>) -> bool {
    forall|i: int, j: int| 0 <= i < j < tags.len() ==> tags[i] != tags[j]
}

impl Routing {
    pub open spec fn wf(&self) -> bool {
        distinct_tags(self.handlers@)
    }

    /// The handler that takes messages of type `tag`, or `None` when no handler
    /// listens and the message is dropped.
    pub fn route(&self, tag: u8) -> (r: Option<usize>)
        requires
            self.wf(),
        ensures
            match r {
                Some(i) => i < self.handlers@.len() && self.handlers@[i as int] == tag,
                None => !self.handlers@.contains(tag),
            },
    {
        let mut i: usize = 0;
        while i < self.handlers.len()
            invariant
                0 <= i <= self.handlers@.len(),
                forall|k: int| 0 <= k < i ==> self.handlers@[k] != tag,
            decreases self.handlers@.len() - i,
        {
            if self.handlers[i] == tag {
                return Some(i);
            }
            i = i + 1;
        }
        None
    }
}

/// A session's configuration while it is being assembled.
pub struct SessionBuilder {
    pub capability: Option<Protocol>,
    pub transport_attached: bool,
    pub handlers: Vec<u8>,
}

impl SessionBuilder {
    pub open spec fn wf(&self) -> bool {
        distinct_tags(self.handlers@)
    }

    /// A builder with nothing configured.
    pub fn new() -> (b: SessionBuilder)
        ensures
            b.wf(),
            b.capability is None,
            !b.transport_attached,
            b.handlers@ == Seq::<u8>::empty(),
    {
        SessionBuilder { capability: None, transport_attached: false, handlers: Vec::new() }
    }

    /// Declares the protocol the session speaks; it can be declared once.
    pub fn declare_capability(&mut self, p: Protocol) -> (r: Result<(), BuilderError>)
        requires
            old(self).wf(),
        ensures
            final(self).wf(),
            final(self).transport_attached == old(self).transport_attached,
            final(self).handlers@ == old(self).handlers@,
            match old(self).capability {
                Some(_) => r == Err::<(), BuilderError>(BuilderError::CapabilityAlreadySet)
                    && final(self).capability == old(self).capability,
                None => r is Ok && final(self).capability == Some(p),
            },
    {
        match self.capability {
            Some(_) => Err(BuilderError::CapabilityAlreadySet),
            None => {
                self.capability = Some(p);
                Ok(())
            },
        }
    }

    /// Records that the transport is attached; the protocol must be declared
    /// first, and only one transport can be attached.
    pub fn attach_transport(&mut self) -> (r: Result<(), BuilderError>)
        requires
            old(self).wf(),
        ensures
            final(self).wf(),
            final(self).capability == old(self).capability,
            final(self).handlers@ == old(self).handlers@,
            if old(self).capability is Some && !old(self).transport_attached {
                r is Ok && final(self).transport_attached
            } else {
                r == Err::<(), BuilderError>(BuilderError::TransportAttachError)
                    && final(self).transport_attached == old(self).transport_attached
            },
    {
        if self.capability.is_some() && !self.transport_attached {
            self.transport_attached = true;
            Ok(())
        } else {
            Err(BuilderError::TransportAttachError)
        }
    }

    /// Registers a handler for messages of type `tag`; a type has one handler.
    pub fn register_handler(&mut self, tag: u8) -> (r: Result<(), BuilderError>)
        requires
            old(self).wf(),
        ensures
            final(self).wf(),
            final(self).capability == old(self).capability,
            final(self).transport_attached == old(self).transport_attached,
            if old(self).handlers@.contains(tag) {
                r == Err::<(), BuilderError>(BuilderError::DuplicateHandler)
                    && final(self).handlers@ == old(self).handlers@
            } else {
                r is Ok && final(self).handlers@ == old(self).handlers@.push(tag)
            },
    {
        let routing = Routing { handlers: self.handlers.clone() };
        assert(routing.handlers@ =~= self.handlers@);
        match routing.route(tag) {
            Some(_) => Err(BuilderError::DuplicateHandler),
            None => {
                self.handlers.push(tag);
                Ok(())
            },
        }
    }

    /// The routing of the session, once the protocol and the transport are set.
    pub fn build(self) -> (r: Result<Routing, BuilderError>)
        requires
            self.wf(),
        ensures
            match r {
                Ok(routing) => self.capability is Some && self.transport_attached && routing.wf()
                    && routing.handlers@ == self.handlers@,
                Err(e) => e == BuilderError::IncompleteConfiguration && (self.capability is None
                    || !self.transport_attached),
            },
    {
        if self.capability.is_some() && self.transport_attached {
            Ok(Routing { handlers: self.handlers })
        } else {
            Err(BuilderError::IncompleteConfiguration)
        }
    }
}

} // verus!
