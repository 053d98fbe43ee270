//! The verified core of the HTTP client: how a session-opening call and a
//! fetch are configured, how the platform's returned handles are validated,
//! how the status query's outcome is read, and the state machine that
//! streams a response body byte by byte out of fixed-size chunks.
//!
//! The platform calls themselves are blocking foreign calls that the
//! embedding program performs; it hands their raw outcomes (a handle value,
//! a success flag, a chunk of bytes) to the functions here, which decide
//! everything else.

use vstd::prelude::*;
use crate::wide_string::WideString;
use crate::wide_string::utf16_encode;

verus! {

/// How a session reaches the network: directly, or through a named proxy.
#[derive(Clone, Copy, Debug, PartialEq, Eq, Structural)]
pub enum AccessType {
    Direct,
    Proxy,
}

/// The fixed behaviour flags of a fetch, as a set of named flags: bypass the
/// cache when fetching, do not store the result in it, treat the payload as
/// opaque bytes, and require a secure connection.
#[derive(Clone, Copy, Debug, PartialEq, Eq, Structural)]
pub struct RequestFlags {
    pub reload: bool,
    pub no_cache: bool,
    pub raw_data: bool,
    pub secure: bool,
}

/// Everything a session-opening platform call is to be invoked with.
pub struct OpenRequest {
    /// The user-agent identifier, null-terminated UTF-16.
    pub agent: WideString,
    /// Proxy exactly when a proxy address was given; never a silent fallback.
    pub access: AccessType,
    /// The proxy address, null-terminated UTF-16, when one was given.
    pub proxy: Option<WideString>,
}

/// Everything a fetch platform call on an open session is to be invoked with.
pub struct GetRequest {
    /// The URL, null-terminated UTF-16.
    pub url: WideString,
    /// The extra request headers, null-terminated UTF-16, when any were given.
    pub headers: Option<WideString>,
    /// The fixed flag set: reload, no cache, raw data, secure.
    pub flags: RequestFlags,
}

/// An open client session: the owner of one non-null platform handle.
/// Closing the handle, exactly once, is the embedding program's duty when
/// the wrapper's life ends; nothing here may duplicate the handle.
pub struct Internet {
    handle: usize,
}

impl Internet {
    /// The owned raw handle value.
    pub closed spec fn spec_handle(&self) -> usize {
        self.handle
    }

    /// A session wrapper is well formed when it owns a non-null handle.
    pub open spec fn wf(&self) -> bool {
        self.spec_handle() != 0
    }

    /// The first half of opening a session: everything decided before the
    /// platform call. The agent name is encoded as a terminated wide string;
    /// the access type is proxy exactly when a proxy address is given, and
    /// that address is encoded alongside.
    pub fn open(agent: &str, proxy: Option<&str>) -> (r: OpenRequest)
        ensures
            r.agent@ == utf16_encode(agent@).push(0u16),
            (r.access is Proxy) <==> proxy is Some,
            (r.proxy is Some) <==> proxy is Some,
            proxy is Some ==> r.proxy.unwrap()@ == utf16_encode(proxy.unwrap()@).push(0u16),
    {
        match proxy {
            Some(p) => OpenRequest {
                agent: WideString::from(agent),
                access: AccessType::Proxy,
                proxy: Some(WideString::from(p)),
            },
            None => OpenRequest {
                agent: WideString::from(agent),
                access: AccessType::Direct,
                proxy: None,
            },
        }
    }

    /// The second half of opening a session: judge the handle the platform
    /// call returned. A null handle is the one observable failure and yields
    /// no session; any other handle yields the owning wrapper.
    pub fn from_handle(raw: usize) -> (r: Option<Internet>)
        ensures
            (r is Some) <==> raw != 0,
            r is Some ==> r.unwrap().spec_handle() == raw && r.unwrap().wf(),
    {
        if raw == 0 {
            None
        } else {
            Some(Internet { handle: raw })
        }
    }

    /// The raw handle, for the embedding program's platform calls.
    pub fn raw_handle(&self) -> (h: usize)
        ensures
            h == self.spec_handle(),
    {
        self.handle
    }

    /// The fetch configuration for a URL on this session: the wide URL, the
    /// wide headers when any are given, and the fixed flag set.
    pub fn get(&self, url: &str, headers: Option<&str>) -> (r: GetRequest)
        ensures
            r.url@ == utf16_encode(url@).push(0u16),
            (r.headers is Some) <==> headers is Some,
            headers is Some ==> r.headers.unwrap()@ == utf16_encode(headers.unwrap()@).push(0u16),
            r.flags.reload && r.flags.no_cache && r.flags.raw_data && r.flags.secure,
    {
        GetRequest {
            url: WideString::from(url),
            headers: match headers {
                Some(h) => Some(WideString::from(h)),
                None => None,
            },
            flags: RequestFlags { reload: true, no_cache: true, raw_data: true, secure: true },
        }
    }
}

/// An open request/response exchange: the owner of one non-null platform
/// handle, child of the session it was fetched on. Closing the handle,
/// exactly once, is the embedding program's duty.
pub struct Response {
    handle: usize,
}

impl Response {
    /// The owned raw handle value.
    pub closed spec fn spec_handle(&self) -> usize {
        self.handle
    }

    /// A response wrapper is well formed when it owns a non-null handle.
    pub open spec fn wf(&self) -> bool {
        self.spec_handle() != 0
    }

    /// Judge the handle the fetch call returned: a null handle is the one
    /// observable failure and yields no response.
    pub fn from_handle(raw: usize) -> (r: Option<Response>)
        ensures
            (r is Some) <==> raw != 0,
            r is Some ==> r.unwrap().spec_handle() == raw && r.unwrap().wf(),
    {
        if raw == 0 {
            None
        } else {
            Some(Response { handle: raw })
        }
    }

    /// The raw handle, for the embedding program's platform calls.
    pub fn raw_handle(&self) -> (h: usize)
        ensures
            h == self.spec_handle(),
    {
        self.handle
    }

    /// The numeric HTTP status, read off the status query's outcome: the
    /// code the platform reported when the query succeeded, otherwise 0,
    /// the value the status variable was initialized with.
    pub fn status(&self, query_ok: bool, reported: u32) -> (r: u32)
        ensures
            query_ok ==> r == reported,
            !query_ok ==> r == 0,
    {
        if query_ok {
            reported
        } else {
            0
        }
    }

    /// A fresh, single-pass reader for this response's body.
    pub fn as_bytes(&self) -> (b: Bytes)
        ensures
            b.wf(),
            b@.body == Seq::<u8>::empty(),
            b@.delivered == Seq::<u8>::empty(),
            b@.buffered == Seq::<u8>::empty(),
            b@.phase is Streaming,
    {
        Bytes::new()
    }
}

/// The number of bytes one platform read is asked for.
pub const CHUNK_SIZE: usize = 1000;

/// The phase a reader is in: still streaming, ended at end-of-body, or
/// poisoned by a failed platform read.
pub enum ReaderPhase {
    Streaming,
    Ended,
    Failed,
}

/// The spec-level picture of a reader: the body bytes received so far, the
/// bytes already handed out, the bytes buffered and still to hand out, and
/// the phase.
pub struct ReaderModel {
    pub body: Seq<u8>,
    pub delivered: Seq<u8>,
    pub buffered: Seq<u8>,
    pub phase: ReaderPhase,
}

/// One outcome of asking the reader for a byte.
#[derive(Clone, Copy, Debug, PartialEq, Eq, Structural)]
pub enum Next {
    /// The next body byte.
    Byte(u8),
    /// The buffer is exhausted: perform one platform read of up to
    /// `CHUNK_SIZE` bytes and record its outcome with `supply_chunk`.
    NeedChunk,
    /// End of body: every byte of it has been handed out, and no further
    /// item will ever come.
    End,
    /// A platform read failed earlier; no byte is served from a stale
    /// buffer, distinctly from the end of the body.
    Failed,
}

/// The body reader: a pull-based state machine over fixed-size chunks.
/// Each refill cycle has an exhausted-buffer phase, in which one platform
/// read of up to `CHUNK_SIZE` bytes is due, and a delivery phase, in which
/// buffered bytes are handed out one at a time. A successful read of zero
/// bytes is the end-of-body signal; a failed read poisons the reader.
pub struct Bytes {
    data: Vec<u8>,
    index: usize,
    ended: bool,
    failed: bool,
    history: Ghost<Seq<u8>>,
    emitted: Ghost<Seq<u8>>,
}

impl View for Bytes {
    type V = ReaderModel;

    closed spec fn view(&self) -> ReaderModel {
        ReaderModel {
            body: self.history@,
            delivered: self.emitted@,
            buffered: self.data@.skip(self.index as int),
            phase: if self.failed {
                ReaderPhase::Failed
            } else if self.ended {
                ReaderPhase::Ended
            } else {
                ReaderPhase::Streaming
            },
        }
    }
}

impl Bytes {
    /// Internal consistency: the cursor stays inside the buffer, the buffer
    /// never exceeds one chunk, everything received was either delivered or
    /// is still buffered, and a finished reader holds no unread bytes.
    pub closed spec fn wf(&self) -> bool {
        &&& self.index <= self.data@.len()
        &&& self.data@.len() <= CHUNK_SIZE
        &&& self.emitted@ + self.data@.skip(self.index as int) == self.history@
        &&& (self.ended || self.failed) ==> self.index == self.data@.len()
        &&& !(self.ended && self.failed)
    }

    /// A reader that has not received anything yet.
    pub fn new() -> (b: Bytes)
        ensures
            b.wf(),
            b@.body == Seq::<u8>::empty(),
            b@.delivered == Seq::<u8>::empty(),
            b@.buffered == Seq::<u8>::empty(),
            b@.phase is Streaming,
    {
        let b = Bytes {
            data: Vec::new(),
            index: 0,
            ended: false,
            failed: false,
            history: Ghost(Seq::empty()),
            emitted: Ghost(Seq::empty()),
        };
        proof {
            assert(b@.buffered =~= Seq::<u8>::empty());
            assert(b.emitted@ + b.data@.skip(0) =~= Seq::<u8>::empty());
        }
        b
    }

    /// True when the next platform read is due: still streaming, buffer
    /// exhausted.
    pub fn wants_chunk(&self) -> (r: bool)
        requires
            self.wf(),
        ensures
            r == (self@.phase is Streaming && self@.buffered.len() == 0),
    {
        !self.failed && !self.ended && self.index >= self.data.len()
    }

    /// Record the outcome of one platform read. A failed read poisons the
    /// reader; a successful read of zero bytes marks the end of the body; a
    /// successful non-empty read becomes the new buffer and extends the body.
    pub fn supply_chunk(&mut self, ok: bool, chunk: Vec<u8>)
        requires
            old(self).wf(),
            old(self)@.phase is Streaming,
            old(self)@.buffered.len() == 0,
            chunk@.len() <= CHUNK_SIZE,
        ensures
            final(self).wf(),
            final(self)@.delivered == old(self)@.delivered,
            !ok ==> final(self)@.phase is Failed
                && final(self)@.body == old(self)@.body
                && final(self)@.buffered.len() == 0,
            (ok && chunk@.len() == 0) ==> final(self)@.phase is Ended
                && final(self)@.body == old(self)@.body
                && final(self)@.buffered.len() == 0,
            (ok && chunk@.len() > 0) ==> final(self)@.phase is Streaming
                && final(self)@.body == old(self)@.body + chunk@
                && final(self)@.buffered == chunk@,
    {
        proof {
            assert(old(self).data@.skip(old(self).index as int) =~= Seq::<u8>::empty());
            assert(self.emitted@ + Seq::<u8>::empty() =~= self.emitted@);
        }
        if !ok {
            self.failed = true;
            self.data = Vec::new();
            self.index = 0;
            proof {
                assert(self.data@.skip(0) =~= Seq::<u8>::empty());
                assert(self.emitted@ + self.data@.skip(0) =~= self.emitted@);
            }
        } else if chunk.len() == 0 {
            self.ended = true;
            self.data = Vec::new();
            self.index = 0;
            proof {
                assert(self.data@.skip(0) =~= Seq::<u8>::empty());
                assert(self.emitted@ + self.data@.skip(0) =~= self.emitted@);
            }
        } else {
            let ghost grown = self.history@ + chunk@;
            self.history = Ghost(grown);
            self.data = chunk;
            self.index = 0;
            proof {
                assert(self.data@.skip(0) =~= self.data@);
                assert(self.emitted@ + self.data@ =~= grown);
            }
        }
    }

    /// One step of the pull loop: the next buffered byte while any remains;
    /// a request for one more platform read when the buffer is exhausted;
    /// and, forever after one was recorded, the end of the body or the read
    /// failure — never a byte out of a stale buffer.
    pub fn next(&mut self) -> (r: Next)
        requires
            old(self).wf(),
        ensures
            final(self).wf(),
            final(self)@.body == old(self)@.body,
            final(self)@.phase == old(self)@.phase,
            match r {
                Next::Byte(b) => old(self)@.phase is Streaming
                    && old(self)@.buffered.len() > 0
                    && b == old(self)@.buffered[0]
                    && final(self)@.delivered == old(self)@.delivered.push(b)
                    && final(self)@.buffered == old(self)@.buffered.skip(1),
                Next::NeedChunk => old(self)@.phase is Streaming
                    && old(self)@.buffered.len() == 0
                    && *final(self) == *old(self),
                Next::End => old(self)@.phase is Ended && *final(self) == *old(self),
                Next::Failed => old(self)@.phase is Failed && *final(self) == *old(self),
            },
    {
        if self.failed {
            Next::Failed
        } else if self.ended {
            Next::End
        } else if self.index < self.data.len() {
            let b = self.data[self.index];
            proof {
                assert(self.data@.skip(self.index as int)[0] == b);
            }
            let ghost served = self.emitted@.push(b);
            self.emitted = Ghost(served);
            self.index = self.index + 1;
            proof {
                assert(self.data@.skip(self.index as int)
                    =~= self.data@.skip(self.index as int - 1).skip(1));
                assert(served + self.data@.skip(self.index as int)
                    =~= self.emitted@ + self.data@.skip(self.index as int));
                assert(old(self).emitted@ + old(self).data@.skip(old(self).index as int)
                    =~= served + self.data@.skip(self.index as int));
            }
            Next::Byte(b)
        } else {
            Next::NeedChunk
        }
    }

    /// What the reader has delivered and what it still buffers account for
    /// exactly the body received so far: nothing is lost, reordered,
    /// duplicated or invented.
    pub proof fn lemma_accounting(&self)
        requires
            self.wf(),
        ensures
            self@.delivered + self@.buffered == self@.body,
    {
    }

    /// A reader that has reached the end of the body has delivered exactly
    /// the body, in order and in full.
    pub proof fn lemma_drained_reconstructs(&self)
        requires
            self.wf(),
            self@.phase is Ended,
        ensures
            self@.delivered == self@.body,
    {
        assert(self@.buffered =~= Seq::<u8>::empty());
        assert(self@.delivered + self@.buffered =~= self@.delivered);
    }
}

} // verus!
