//! The vocabulary in which a protocol talks to whoever drives its stream.
//!
//! A protocol of this library never touches a socket. It is a value that says which stream
//! operation comes next; the driver performs it and hands back what became of it.

use vstd::prelude::*;

verus! {

/// What became of the stream operation that a protocol asked for.
pub enum Event {
    /// A read brought these bytes.
    Read(Vec<u8>),
    /// A write went out whole.
    Written,
    /// The operation failed, or the stream ended before it was complete.
    Failed,
}

/// An [`Event`] with its bytes as a mathematical sequence.
pub enum EventView {
    Read(Seq<u8>),
    Written,
    Failed,
}

impl View for Event {
    type V = EventView;

    open spec fn view(&self) -> EventView {
        match self {
            Event::Read(bytes) => EventView::Read(bytes@),
            Event::Written => EventView::Written,
            Event::Failed => EventView::Failed,
        }
    }
}

impl EventView {
    /// Whether the event is a read of exactly `count` bytes.
    pub open spec fn is_read_of(self, count: nat) -> bool {
        match self {
            EventView::Read(bytes) => bytes.len() == count,
            _ => false,
        }
    }

    /// The bytes that were read.
    pub open spec fn bytes(self) -> Seq<u8> {
        match self {
            EventView::Read(bytes) => bytes,
            _ => Seq::empty(),
        }
    }
}

impl Event {
    /// The bytes of a read of exactly `count` bytes; nothing of any other event.
    pub fn read_of(self, count: usize) -> (bytes: Option<Vec<u8>>)
        ensures
            match bytes {
                Some(bytes) => self@.is_read_of(count as nat) && bytes@ == self@.bytes(),
                None => !self@.is_read_of(count as nat),
            },
    {
        match self {
            Event::Read(bytes) => if bytes.len() == count {
                Some(bytes)
            } else {
                None
            },
            _ => None,
        }
    }

    /// Whether the event is a completed write.
    pub fn is_written(&self) -> (written: bool)
        ensures
            written == (self@ == EventView::Written),
    {
        match self {
            Event::Written => true,
            _ => false,
        }
    }
}

/// What a protocol wants next: a stream operation, after which it goes on as `M`, or nothing more,
/// with the result `T`.
pub enum Turn<M, T> {
    /// Read exactly this many bytes, then go on.
    Read(M, usize),
    /// Write all of these bytes, then go on.
    Write(M, Vec<u8>),
    /// The protocol is over.
    Finish(T),
}

/// A [`Turn`] over the views of its parts.
pub enum TurnView<M, T> {
    Read(M, nat),
    Write(M, Seq<u8>),
    Finish(T),
}

impl<M: View, T: View> View for Turn<M, T> {
    type V = TurnView<M::V, T::V>;

    open spec fn view(&self) -> TurnView<M::V, T::V> {
        match self {
            Turn::Read(then, count) => TurnView::Read(then@, *count as nat),
            Turn::Write(then, bytes) => TurnView::Write(then@, bytes@),
            Turn::Finish(result) => TurnView::Finish(result@),
        }
    }
}

/// A read of so many bytes is an event that brought just as many, and those are its bytes.
pub proof fn law_reads_bring_their_bytes(event: EventView, count: nat)
    ensures
        match event {
            EventView::Read(bytes) => event.bytes() == bytes && (event.is_read_of(count)
                <==> bytes.len() == count),
            _ => !event.is_read_of(count),
        },
{
}

} // verus!
