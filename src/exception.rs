use vstd::prelude::*;

verus! {

/// Bytes that a slot keeps in place before it moves a payload to the heap.
pub const SLOT_BYTES: usize = 64;

/// The layout that a payload has when it is kept in place: a tag word beside the value.
#[allow(dead_code)]
struct Just<T> {
    discriminant: usize,
    value: T,
}

/// Where a slot keeps its payload.
enum Stored<E> {
    Inline(E),
    Boxed(Box<E>),
}

/// The exception slot: storage for at most one error value in flight.
///
/// A carried failure travels in its own slot, from the place where it was raised to the place
/// where it is materialized, so no two unwind episodes ever share storage. Small payloads are kept
/// in place; larger ones are moved to the heap and only the box is kept.
pub struct Exception<E> {
    content: Option<Stored<E>>,
}

impl<E> View for Exception<E> {
    type V = Option<E>;

    closed spec fn view(&self) -> Option<E> {
        match self.content {
            None => None,
            Some(Stored::Inline(e)) => Some(e),
            Some(Stored::Boxed(b)) => Some(*b),
        }
    }
}

impl<E> Exception<E> {
    /// An empty slot.
    pub(crate) fn new() -> (r: Self)
        ensures
            r@ is None,
    {
        Exception { content: None }
    }

    /// Whether a payload of type `E`, with its tag, fits in the slot's own bytes.
    pub(crate) fn is_small() -> (r: bool)
        ensures
            r == (vstd::layout::size_of::<Just<E>>() <= SLOT_BYTES),
    {
        core::mem::size_of::<Just<E>>() <= SLOT_BYTES
    }

    /// Stores `value`, in place when it is small and boxed otherwise.
    pub(crate) fn write(&mut self, value: E)
        ensures
            final(self)@ == Some(value),
    {
        if Self::is_small() {
            self.content = Some(Stored::Inline(value));
        } else {
            self.content = Some(Stored::Boxed(Box::new(value)));
        }
    }

    /// Reads the payload and removes it: the slot is empty afterwards.
    pub(crate) fn read(&mut self) -> (r: Option<E>)
        ensures
            r == old(self)@,
            final(self)@ is None,
    {
        match self.content.take() {
            None => None,
            Some(Stored::Inline(e)) => Some(e),
            Some(Stored::Boxed(b)) => Some(*b),
        }
    }
}

} // verus!
