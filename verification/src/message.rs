use vstd::prelude::*;

verus! {

/// A multipart message: the parts that ZeroMQ delivers together, in order.
#[derive(Debug)]
pub struct Multipart {
    parts: Vec<Vec<u8>>,
}

impl View for Multipart {
    type V = Seq<Vec<u8>>;

    closed spec fn view(&self) -> Seq<Vec<u8>> {
        self.parts@
    }
}

impl Multipart {
    /// A multipart message without parts.
    pub fn new() -> (m: Multipart)
        ensures
            m@ == Seq::<Vec<u8>>::empty(),
    {
        Multipart { parts: Vec::new() }
    }

    /// The multipart message made of `parts`, in their order.
    pub fn from_parts(parts: Vec<Vec<u8>>) -> (m: Multipart)
        ensures
            m@ == parts@,
    {
        Multipart { parts }
    }

    /// The parts of this message, in order.
    pub fn into_parts(self) -> (parts: Vec<Vec<u8>>)
        ensures
            parts@ == self@,
    {
        self.parts
    }

    /// Appends a part at the end.
    pub fn push_back(&mut self, part: Vec<u8>)
        ensures
            final(self)@ == old(self)@.push(part),
    {
        self.parts.push(part);
    }

    /// The number of parts.
    pub fn len(&self) -> (n: usize)
        ensures
            n == self@.len(),
    {
        self.parts.len()
    }

    /// Whether the message has no part.
    pub fn is_empty(&self) -> (b: bool)
        ensures
            b == (self@.len() == 0),
    {
        self.parts.len() == 0
    }

    /// Takes the parts out, leaving a message without parts.
    pub fn take(&mut self) -> (m: Multipart)
        ensures
            m@ == old(self)@,
            final(self)@ == Seq::<Vec<u8>>::empty(),
    {
        let mut parts = Vec::new();
        std::mem::swap(&mut parts, &mut self.parts);
        Multipart { parts }
    }
}

} // verus!
