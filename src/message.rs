use vstd::prelude::*;

verus! {

/// A point in time, in whole seconds since the Unix epoch.
pub type Timestamp = i64;

/// One note on the board, as the message table stores it.
pub struct Message {
    /// Assigned by the board, never by a client.
    pub id: i64,
    pub text: String,
    /// Set once, when the message is stored.
    pub created_at: Timestamp,
    /// `None` for a message that never expires.
    pub expires_at: Option<Timestamp>,
}

impl Clone for Message {
    fn clone(&self) -> (r: Message)
        ensures
            r == *self,
    {
        Message {
            id: self.id,
            text: self.text.clone(),
            created_at: self.created_at,
            expires_at: self.expires_at,
        }
    }
}

/// What a client submits to create a message: the id and the creation time
/// are never taken from it.
pub struct NewMessage {
    pub text: String,
    pub expires_at: Option<Timestamp>,
}

impl Clone for NewMessage {
    fn clone(&self) -> (r: NewMessage)
        ensures
            r == *self,
    {
        NewMessage { text: self.text.clone(), expires_at: self.expires_at }
    }
}

impl Message {
    /// Not expired at `now`: no expiration at all, or one that lies after `now`.
    pub open spec fn unexpired_at(self, now: Timestamp) -> bool {
        match self.expires_at {
            Some(t) => now < t,
            None => true,
        }
    }

    /// Eligible for a random draw at `now`: an expiration that lies after `now`.
    /// A message without expiration is never drawn.
    pub open spec fn drawable_at(self, now: Timestamp) -> bool {
        match self.expires_at {
            Some(t) => now < t,
            None => false,
        }
    }

    /// The message after a soft delete at `now`.
    pub open spec fn expired_at(self, now: Timestamp) -> Message {
        Message { expires_at: Some(now), ..self }
    }

    pub fn is_unexpired_at(&self, now: Timestamp) -> (r: bool)
        ensures
            r == self.unexpired_at(now),
    {
        match self.expires_at {
            Some(t) => now < t,
            None => true,
        }
    }

    pub fn is_drawable_at(&self, now: Timestamp) -> (r: bool)
        ensures
            r == self.drawable_at(now),
    {
        match self.expires_at {
            Some(t) => now < t,
            None => false,
        }
    }

    /// Soft delete: the message expires at `now`; nothing else changes.
    pub fn expire(&mut self, now: Timestamp)
        ensures
            *final(self) == old(self).expired_at(now),
            !final(self).unexpired_at(now),
            !final(self).drawable_at(now),
    {
        self.expires_at = Some(now);
    }
}

/// Expiring twice at the same instant is the same as expiring once.
pub proof fn lemma_expire_idempotent(m: Message, now: Timestamp)
    ensures
        m.expired_at(now).expired_at(now) == m.expired_at(now),
{
}

} // verus!
