//! The uniform decoding contract: every wire format turns a raw byte
//! payload into an ordered sequence of events, or reports why the payload
//! cannot be interpreted as that format.
//!
//! Decoders hand their events back in an [`EventBuffer`], backed by a
//! `smallvec::SmallVec` sized for the common case of exactly one event per
//! payload. What the buffer holds is named by [`buffer_events`] and pinned
//! down by the trusted wrappers around the `SmallVec` methods this layer
//! calls.

use crate::config::LogNamespace;
use crate::event::{ContentsView, Event};
use vstd::prelude::*;

verus! {

/// The failure a decoder reports when a payload does not conform to its
/// format, carrying enough context for the caller to log and drop or
/// quarantine the payload.
#[derive(Debug, Clone, PartialEq, Eq)]
pub struct DecodeError {
    /// Why the payload could not be interpreted.
    pub reason: String,
}

/// An ordered buffer of decoded events, backed by a `smallvec::SmallVec`
/// whose inline capacity fits the common case of one event per payload.
#[verifier::external_body]
pub struct EventBuffer {
    items: smallvec::SmallVec<[Event; 1]>,
}

/// The events an `EventBuffer` holds, in order.
pub uninterp spec fn buffer_events(events: EventBuffer) -> Seq<Event>;

impl EventBuffer {
    /// Relies on smallvec::SmallVec::new: a freshly created vector holds no
    /// items.
    #[verifier::external_body]
    pub(crate) fn empty() -> (events: EventBuffer)
        ensures
            buffer_events(events) == Seq::<Event>::empty(),
    {
        EventBuffer { items: smallvec::SmallVec::new() }
    }

    /// Relies on smallvec::SmallVec::push: appends the item at the back and
    /// keeps the items already held, in order.
    #[verifier::external_body]
    pub(crate) fn push(&mut self, event: Event)
        ensures
            buffer_events(*final(self)) == buffer_events(*old(self)).push(event),
    {
        self.items.push(event)
    }

    /// Relies on smallvec::SmallVec::len: the number of items held.
    #[verifier::external_body]
    pub fn len(&self) -> (n: usize)
        ensures
            n == buffer_events(*self).len(),
    {
        self.items.len()
    }

    /// Relies on the slice `get` reached through smallvec::SmallVec's deref:
    /// the item at `i`, present exactly when `i` is within the length.
    #[verifier::external_body]
    pub fn get(&self, i: usize) -> (r: Option<&Event>)
        ensures
            match r {
                Some(event) => i < buffer_events(*self).len() && *event == buffer_events(
                    *self,
                )[i as int],
                None => i >= buffer_events(*self).len(),
            },
    {
        self.items.get(i)
    }

    /// Relies on smallvec::SmallVec::into_vec: hands the items out as a
    /// `Vec`, unchanged and in order.
    #[verifier::external_body]
    pub fn into_vec(self) -> (r: Vec<Event>)
        ensures
            r@ == buffer_events(self),
    {
        self.items.into_vec()
    }
}

/// The uniform parse entry point across all concrete wire formats.
pub trait Deserializer {
    /// The events this decoder yields for a payload under a namespace, in
    /// production order, or nothing when the payload does not conform to
    /// the decoder's format.
    spec fn decoded(&self, bytes: Seq<u8>, log_namespace: LogNamespace) -> Option<Seq<ContentsView>>;

    /// Decodes the payload into the ordered sequence of events the decoder
    /// declares for it, and fails exactly on the payloads for which it
    /// declares none. The input buffer is only read, never altered or
    /// consumed.
    fn parse(&self, bytes: &Vec<u8>, log_namespace: LogNamespace) -> (r: Result<
        EventBuffer,
        DecodeError,
    >)
        ensures
            match r {
                Ok(events) => Some(buffer_events(events).map_values(|e: Event| e@))
                    == self.decoded(bytes@, log_namespace),
                Err(_) => self.decoded(bytes@, log_namespace) is None,
            },
    ;
}

} // verus!
