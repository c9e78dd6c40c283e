//! Data chunks: a four-byte identifier paired with a payload buffer.
use vstd::prelude::*;
use vstd::string::*;

use crate::fourcc::{length_error, FourCC, FourCCParseError};

verus! {

/// Relies on Vec::capacity: a vector can always hold at least as many
/// elements as it holds now.
#[verifier::external_body]
fn vec_capacity(v: &Vec<u8>) -> (r: usize)
    ensures
        r >= v@.len(),
{
    v.capacity()
}

/// A data chunk: one identifier and the bytes of its payload.
#[derive(Debug)]
pub struct Chunk {
    id: FourCC,
    content: Vec<u8>,
}

impl Chunk {
    /// The identifier of the chunk.
    pub closed spec fn spec_id(&self) -> FourCC {
        self.id
    }

    /// The bytes of the payload.
    pub closed spec fn spec_payload(&self) -> Seq<u8> {
        self.content@
    }

    /// Creates an empty chunk, whose text identifier must encode to exactly
    /// four bytes. A refused identifier is handed back as its parse error.
    pub fn new(id: &str) -> (r: Result<Chunk, FourCCParseError>)
        ensures
            match r {
                Ok(c) => length_error(id.spec_bytes().len() as int) is None && c.spec_id()@
                    == id.spec_bytes() && c.spec_payload().len() == 0,
                Err(e) => length_error(id.spec_bytes().len() as int) == Some(e@),
            },
    {
        match FourCC::from_str(id) {
            Ok(f) => Ok(Chunk { id: f, content: Vec::new() }),
            Err(e) => Err(e),
        }
    }

    /// Creates an empty chunk whose payload has room for at least `capacity`
    /// bytes. The identifier is checked as by `new`.
    pub fn with_capacity(id: &str, capacity: usize) -> (r: Result<Chunk, FourCCParseError>)
        requires
            capacity <= isize::MAX,
        ensures
            match r {
                Ok(c) => length_error(id.spec_bytes().len() as int) is None && c.spec_id()@
                    == id.spec_bytes() && c.spec_payload().len() == 0,
                Err(e) => length_error(id.spec_bytes().len() as int) == Some(e@),
            },
    {
        match FourCC::from_str(id) {
            Ok(f) => Ok(Chunk { id: f, content: Vec::with_capacity(capacity) }),
            Err(e) => Err(e),
        }
    }

    /// The identifier of the chunk.
    pub fn id(&self) -> (r: &FourCC)
        ensures
            *r == self.spec_id(),
    {
        &self.id
    }

    /// The payload buffer.
    pub fn payload(&self) -> (r: &Vec<u8>)
        ensures
            r@ == self.spec_payload(),
    {
        &self.content
    }

    /// Number of payload bytes present.
    pub fn len(&self) -> (r: usize)
        ensures
            r == self.spec_payload().len(),
    {
        self.content.len()
    }

    /// Whether the payload holds no bytes.
    pub fn is_empty(&self) -> (r: bool)
        ensures
            r == (self.spec_payload().len() == 0),
    {
        self.content.len() == 0
    }

    /// Number of payload bytes the buffer can hold without growing; never
    /// below the number present.
    pub fn capacity(&self) -> (r: usize)
        ensures
            r >= self.spec_payload().len(),
    {
        vec_capacity(&self.content)
    }
}

} // verus!
