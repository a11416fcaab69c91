//! The [`Encodable`] trait and the sinks that drive it.
//!
//! A command value encodes itself by appending one IRC line to a text
//! sink; the spec function [`Encodable::encoded`] names exactly the text
//! that is appended. [`Encoder`] wraps a sink and flushes per message;
//! [`AsyncEncoder`] buffers each message in full before handing it on.

use vstd::prelude::*;

verus! {

/// A value that can be written to a text sink in its protocol wire form.
pub trait Encodable {
    /// The exact text this value puts on the wire.
    spec fn encoded(&self) -> Seq<char>;

    /// Append this value's wire form to `buf`.
    fn encode(&self, buf: &mut String)
        ensures
            final(buf)@ == old(buf)@ + self.encoded(),
    ;
}

impl Encodable for str {
    open spec fn encoded(&self) -> Seq<char> {
        self@
    }

    fn encode(&self, buf: &mut String) {
        buf.append(self);
    }
}

impl Encodable for String {
    open spec fn encoded(&self) -> Seq<char> {
        self@
    }

    fn encode(&self, buf: &mut String) {
        buf.append(self.as_str());
    }
}

impl<T: Encodable + ?Sized> Encodable for &T {
    open spec fn encoded(&self) -> Seq<char> {
        (**self).encoded()
    }

    fn encode(&self, buf: &mut String) {
        (**self).encode(buf);
    }
}

/// A synchronous encoder: a sink plus per-message flushing. Encoding is
/// offered on text sinks; an I/O transport is driven by an adapter that
/// takes the encoded text from here.
#[derive(Debug, Clone)]
pub struct Encoder<W> {
    writer: W,
}

impl<W> Encoder<W> {
    /// The sink held by this encoder.
    pub closed spec fn sink(&self) -> W {
        self.writer
    }

    /// Create a new encoder over this sink.
    pub fn new(writer: W) -> (r: Self)
        ensures
            r.sink() == writer,
    {
        Self { writer }
    }

    /// Get the inner sink out.
    pub fn into_inner(self) -> (r: W)
        ensures
            r == self.sink(),
    {
        self.writer
    }
}

impl Encoder<String> {
    /// Encode this message to the sink in full.
    pub fn encode<M: Encodable>(&mut self, msg: M)
        ensures
            final(self).sink()@ == old(self).sink()@ + msg.encoded(),
    {
        msg.encode(&mut self.writer);
    }
}

/// A buffering encoder: each message is staged in an internal buffer in
/// full, then drained to the sink. The buffer is empty between calls.
/// This is the staging core for transports that suspend on writes; the
/// suspension itself happens outside the library.
#[derive(Debug)]
pub struct AsyncEncoder<W> {
    writer: W,
    data: String,
}

impl<W> AsyncEncoder<W> {
    /// The sink held by this encoder.
    pub closed spec fn sink(&self) -> W {
        self.writer
    }

    /// The staged text not yet handed to the sink.
    pub closed spec fn buffered(&self) -> Seq<char> {
        self.data@
    }

    /// The buffer holds nothing between messages: each call drains it in
    /// full.
    pub open spec fn wf(&self) -> bool {
        self.buffered().len() == 0
    }

    /// Create a new encoder over this sink.
    pub fn new(writer: W) -> (r: Self)
        ensures
            r.sink() == writer,
            r.wf(),
    {
        Self { writer, data: String::new() }
    }
}

impl AsyncEncoder<String> {
    /// Stage this message in the buffer, then drain the buffer to the
    /// sink in full.
    pub fn encode_sync<M: Encodable>(&mut self, msg: M)
        requires
            old(self).wf(),
        ensures
            final(self).sink()@ == old(self).sink()@ + msg.encoded(),
            final(self).wf(),
    {
        msg.encode(&mut self.data);
        self.writer.append(self.data.as_str());
        self.data = String::new();
    }

    /// Get the inner sink out, draining any staged text into it first.
    pub fn into_inner(self) -> (r: String)
        ensures
            r@ == self.sink()@ + self.buffered(),
    {
        let AsyncEncoder { mut writer, data } = self;
        writer.append(data.as_str());
        writer
    }
}

/// For a single producer, messages encoded one after the other stand in
/// the sink in that order, each contiguous: after a first and then a
/// second message are appended, the first occupies the stretch right
/// after the old sink text and the second the stretch after that.
pub proof fn lemma_encode_order(sink: Seq<char>, first: Seq<char>, second: Seq<char>)
    ensures
        (sink + first + second).subrange(
            sink.len() as int,
            (sink.len() + first.len()) as int,
        ) == first,
        (sink + first + second).subrange(
            (sink.len() + first.len()) as int,
            (sink + first + second).len() as int,
        ) == second,
{
    assert((sink + first + second).subrange(
        sink.len() as int,
        (sink.len() + first.len()) as int,
    ) =~= first);
    assert((sink + first + second).subrange(
        (sink.len() + first.len()) as int,
        (sink + first + second).len() as int,
    ) =~= second);
}

} // verus!
