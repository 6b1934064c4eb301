use vstd::prelude::*;
use vstd::utf8::*;

use crate::error::{spec_utf8_error_bytes, FetchError};
use crate::headers::string_from_utf8;

verus! {

/// A buffered HTTP body: the data that is still to be read.
///
/// A body is read once: reading hands out what is left and leaves the body at
/// its end.
pub struct Body {
    data: Option<Vec<u8>>,
}

impl View for Body {
    type V = Seq<u8>;

    /// The bytes still to be read.
    closed spec fn view(&self) -> Seq<u8> {
        match self.data {
            Some(d) => d@,
            None => Seq::empty(),
        }
    }
}

impl Body {
    #[verifier::type_invariant]
    closed spec fn pending_not_empty(&self) -> bool {
        self.data matches Some(d) ==> d@.len() > 0
    }

    /// Creates an empty body.
    pub fn empty() -> (b: Self)
        ensures
            b@ == Seq::<u8>::empty(),
    {
        Body { data: None }
    }

    /// Creates a body from bytes.
    pub fn from_bytes(data: Vec<u8>) -> (b: Self)
        ensures
            b@ == data@,
    {
        if data.len() == 0 {
            let b = Body { data: None };
            assert(b@ =~= data@);
            b
        } else {
            Body { data: Some(data) }
        }
    }

    /// Reads the next chunk: all that is left, or `None` at the end.
    pub fn chunk(&mut self) -> (r: Option<Vec<u8>>)
        ensures
            old(self)@.len() == 0 ==> r is None,
            old(self)@.len() > 0 ==> (r matches Some(c) && c@ == old(self)@),
            final(self)@ == Seq::<u8>::empty(),
    {
        proof {
            use_type_invariant(&*self);
        }
        let mut data: Option<Vec<u8>> = None;
        std::mem::swap(&mut data, &mut self.data);
        data
    }

    /// Consumes the body and gives all its bytes.
    pub fn bytes(self) -> (r: Vec<u8>)
        ensures
            r@ == self@,
    {
        match self.data {
            Some(d) => d,
            None => Vec::new(),
        }
    }

    /// Consumes the body and reads it as UTF-8 text.
    pub fn text(self) -> (r: Result<String, FetchError>)
        ensures
            r is Ok <==> valid_utf8(self@),
            r matches Ok(s) ==> s@ == decode_utf8(self@),
            r matches Err(e) ==> (e matches FetchError::Utf8(x) && spec_utf8_error_bytes(x) == self@),
    {
        match string_from_utf8(self.bytes()) {
            Ok(s) => Ok(s),
            Err(e) => Err(FetchError::Utf8(e)),
        }
    }

    /// Whether the body has been read to its end.
    pub fn is_end_stream(&self) -> (b: bool)
        ensures
            b == (self@.len() == 0),
    {
        proof {
            use_type_invariant(self);
        }
        self.data.is_none()
    }
}

/// The bytes of any text read back as text give that text.
pub proof fn law_text_reads_back(s: Seq<char>)
    ensures
        valid_utf8(encode_utf8(s)),
        decode_utf8(encode_utf8(s)) == s,
{
    encode_utf8_valid_utf8(s);
    encode_utf8_decode_utf8(s);
}

/// A frame of a streamed response body, as the transport hands it over.
pub enum Frame {
    /// A frame of data.
    Data(Vec<u8>),
    /// A frame of trailers.
    Trailers,
    /// The stream failed.
    Failed,
    /// The stream ended.
    End,
}

/// What reading a chunk does with a frame of a streamed body.
pub enum ChunkStep {
    /// The data is the chunk.
    Chunk(Vec<u8>),
    /// Trailers are skipped: the next frame is read.
    Skip,
    /// The body is at its end, after the stream ended or failed.
    Finished,
}

/// Decides what reading a chunk does with a frame of a streamed body: data is
/// handed out, trailers are skipped, and a failure ends the body as its end
/// does.
pub fn chunk_step(frame: Frame) -> (s: ChunkStep)
    ensures
        frame matches Frame::Data(d) ==> (s matches ChunkStep::Chunk(c) && c@ == d@),
        frame is Trailers ==> s is Skip,
        (frame is Failed || frame is End) ==> s is Finished,
{
    match frame {
        Frame::Data(d) => ChunkStep::Chunk(d),
        Frame::Trailers => ChunkStep::Skip,
        Frame::Failed | Frame::End => ChunkStep::Finished,
    }
}

} // verus!
