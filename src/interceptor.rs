use vstd::prelude::*;
use vstd::string::*;
use vstd::utf8::{decode_utf8, valid_utf8};

use crate::text::{decimal, decode_utf8_text, push_decimal};

verus! {

/// The two independently tracked flows of one exchange.
#[derive(Clone, Copy, Debug, PartialEq, Eq, Structural)]
pub enum Direction {
    Request,
    Response,
}

/// `#request_header <id> -> <name>: <value>` or
/// `#response_header <id> <- <name>: <value>`.
pub open spec fn header_line(dir: Direction, id: u32, name: Seq<char>, value: Seq<char>) -> Seq<char> {
    match dir {
        Direction::Request => "#request_header "@ + decimal(id as nat) + " -> "@ + name + ": "@
            + value,
        Direction::Response => "#response_header "@ + decimal(id as nat) + " <- "@ + name + ": "@
            + value,
    }
}

/// `#request_body <id> -> <text>` or `#response_body <id> -> <text>`.
pub open spec fn body_line(dir: Direction, id: u32, text: Seq<char>) -> Seq<char> {
    match dir {
        Direction::Request => "#request_body "@ + decimal(id as nat) + " -> "@ + text,
        Direction::Response => "#response_body "@ + decimal(id as nat) + " -> "@ + text,
    }
}

/// The property that asks the host to deliver the body of a direction.
pub open spec fn body_property(dir: Direction) -> Seq<char> {
    match dir {
        Direction::Request => "wasm_process_req_body"@,
        Direction::Response => "wasm_process_resp_body"@,
    }
}

/// Whether a body callback announcing `size` bytes reads the host's buffer.
pub open spec fn reads_chunk(size: nat) -> bool {
    size > 0
}

/// The accumulated bytes after a body callback announcing `size` bytes, where
/// `chunk` is what the host's buffer handed over, if it was read.
pub open spec fn appended(buf: Seq<u8>, size: nat, chunk: Option<Seq<u8>>) -> Seq<u8> {
    if reads_chunk(size) && chunk is Some {
        buf + chunk->0
    } else {
        buf
    }
}

/// The line logged after a body callback that leaves `bytes` accumulated.
pub open spec fn body_log(dir: Direction, id: u32, bytes: Seq<u8>, end_of_stream: bool) -> Option<
    Seq<char>,
> {
    if end_of_stream && valid_utf8(bytes) {
        Some(body_line(dir, id, decode_utf8(bytes)))
    } else {
        None
    }
}

/// What the host handed over, as bytes.
pub open spec fn chunk_view(chunk: Option<Vec<u8>>) -> Option<Seq<u8>> {
    match chunk {
        Some(v) => Some(v@),
        None => None,
    }
}

/// Whether a body callback announcing `size` bytes must read the host's buffer:
/// an empty chunk is never read.
pub fn needs_read(size: usize) -> (r: bool)
    ensures
        r == reads_chunk(size as nat),
{
    size > 0
}

/// Appends `chunk` to `dest`.
pub fn append_chunk(dest: &mut Vec<u8>, chunk: &[u8])
    ensures
        final(dest)@ == old(dest)@ + chunk@,
{
    let mut i: usize = 0;
    while i < chunk.len()
        invariant
            i <= chunk@.len(),
            dest@ == old(dest)@ + chunk@.subrange(0, i as int),
        decreases chunk@.len() - i,
    {
        dest.push(chunk[i]);
        i = i + 1;
        assert(dest@ =~= old(dest)@ + chunk@.subrange(0, i as int));
    }
    assert(chunk@.subrange(0, i as int) =~= chunk@);
}

/// Adds what the host handed over for a callback announcing `size` bytes; an
/// empty chunk leaves `dest` as it is, whatever `chunk` holds.
pub fn fill_buffer(size: usize, chunk: Option<Vec<u8>>, dest: &mut Vec<u8>)
    ensures
        final(dest)@ == appended(old(dest)@, size as nat, chunk_view(chunk)),
{
    if !needs_read(size) {
        return ;
    }
    if let Some(src) = chunk {
        append_chunk(dest, src.as_slice());
    }
}

/// One body callback on a direction's buffer: creates the buffer if absent,
/// adds the chunk, and at the end of the stream renders the decoded body.
fn body_step(
    buf: &mut Option<Vec<u8>>,
    dir: Direction,
    id: u32,
    size: usize,
    end_of_stream: bool,
    chunk: Option<Vec<u8>>,
) -> (r: Option<String>)
    ensures
        *final(buf) is Some,
        (*final(buf))->0@ == appended(
            match *old(buf) {
                Some(v) => v@,
                None => Seq::empty(),
            },
            size as nat,
            chunk_view(chunk),
        ),
        r.deep_view() == body_log(dir, id, (*final(buf))->0@, end_of_stream),
{
    let mut dest = match buf.take() {
        Some(v) => v,
        None => Vec::new(),
    };
    fill_buffer(size, chunk, &mut dest);
    let line = if end_of_stream {
        match decode_utf8_text(dest.as_slice()) {
            Some(text) => {
                let mut line = String::new();
                match dir {
                    Direction::Request => line.append("#request_body "),
                    Direction::Response => line.append("#response_body "),
                }
                push_decimal(&mut line, id);
                line.append(" -> ");
                line.append(text.as_str());
                assert(line@ =~= body_line(dir, id, decode_utf8(dest@)));
                Some(line)
            },
            None => None,
        }
    } else {
        None
    };
    *buf = Some(dest);
    line
}

/// The state of one HTTP exchange: its identifier and the bodies received so far.
pub struct Heimdall {
    context_id: u32,
    req_buf: Option<Vec<u8>>,
    resp_buf: Option<Vec<u8>>,
}

/// What a headers callback asks of the host: the lines to log, in header
/// order, and the property to set to `true`.
pub struct HeadersSeen {
    pub logs: Vec<String>,
    pub property: String,
}

impl Heimdall {
    pub closed spec fn id(&self) -> u32 {
        self.context_id
    }

    /// The buffer of a direction; `None` until its first body callback.
    pub closed spec fn buffer(&self, dir: Direction) -> Option<Seq<u8>> {
        let b = match dir {
            Direction::Request => self.req_buf,
            Direction::Response => self.resp_buf,
        };
        match b {
            Some(v) => Some(v@),
            None => None,
        }
    }

    /// The bytes accumulated in a direction.
    pub open spec fn bytes(&self, dir: Direction) -> Seq<u8> {
        match self.buffer(dir) {
            Some(s) => s,
            None => Seq::empty(),
        }
    }

    /// A fresh exchange with no buffers.
    pub fn new(context_id: u32) -> (r: Self)
        ensures
            r.id() == context_id,
            r.buffer(Direction::Request) is None,
            r.buffer(Direction::Response) is None,
    {
        Heimdall { context_id, req_buf: None, resp_buf: None }
    }

    pub fn context_id(&self) -> (r: u32)
        ensures
            r == self.id(),
    {
        self.context_id
    }

    /// The bytes accumulated in a direction, as a copy.
    pub fn body_bytes(&self, dir: Direction) -> (r: Vec<u8>)
        ensures
            r@ == self.bytes(dir),
    {
        let b = match dir {
            Direction::Request => &self.req_buf,
            Direction::Response => &self.resp_buf,
        };
        match b {
            Some(v) => v.clone(),
            None => Vec::new(),
        }
    }

    fn header_lines(&self, dir: Direction, headers: &Vec<(String, String)>) -> (r: HeadersSeen)
        ensures
            r.logs@.len() == headers@.len(),
            forall|i: int|
                0 <= i < headers@.len() ==> #[trigger] r.logs@[i]@ == header_line(
                    dir,
                    self.id(),
                    headers@[i].0@,
                    headers@[i].1@,
                ),
            r.property@ == body_property(dir),
    {
        let mut logs: Vec<String> = Vec::new();
        let mut i: usize = 0;
        while i < headers.len()
            invariant
                i <= headers@.len(),
                logs@.len() == i,
                forall|j: int|
                    0 <= j < i ==> #[trigger] logs@[j]@ == header_line(
                        dir,
                        self.id(),
                        headers@[j].0@,
                        headers@[j].1@,
                    ),
            decreases headers@.len() - i,
        {
            let name = &headers[i].0;
            let value = &headers[i].1;
            let mut line = String::new();
            match dir {
                Direction::Request => line.append("#request_header "),
                Direction::Response => line.append("#response_header "),
            }
            push_decimal(&mut line, self.context_id);
            match dir {
                Direction::Request => line.append(" -> "),
                Direction::Response => line.append(" <- "),
            }
            line.append(name.as_str());
            line.append(": ");
            line.append(value.as_str());
            assert(line@ =~= header_line(dir, self.id(), name@, value@));
            logs.push(line);
            i = i + 1;
        }
        let property = match dir {
            Direction::Request => String::from_str("wasm_process_req_body"),
            Direction::Response => String::from_str("wasm_process_resp_body"),
        };
        HeadersSeen { logs, property }
    }

    /// Request headers arrived: one line per header, in order, and the request
    /// body is asked for.
    pub fn on_http_request_headers(&self, headers: &Vec<(String, String)>) -> (r: HeadersSeen)
        ensures
            r.logs@.len() == headers@.len(),
            forall|i: int|
                0 <= i < headers@.len() ==> #[trigger] r.logs@[i]@ == header_line(
                    Direction::Request,
                    self.id(),
                    headers@[i].0@,
                    headers@[i].1@,
                ),
            r.property@ == body_property(Direction::Request),
    {
        self.header_lines(Direction::Request, headers)
    }

    /// Response headers arrived: one line per header, in order, and the
    /// response body is asked for.
    pub fn on_http_response_headers(&self, headers: &Vec<(String, String)>) -> (r: HeadersSeen)
        ensures
            r.logs@.len() == headers@.len(),
            forall|i: int|
                0 <= i < headers@.len() ==> #[trigger] r.logs@[i]@ == header_line(
                    Direction::Response,
                    self.id(),
                    headers@[i].0@,
                    headers@[i].1@,
                ),
            r.property@ == body_property(Direction::Response),
    {
        self.header_lines(Direction::Response, headers)
    }
    /// A request body chunk arrived. `chunk` is what the host's buffer handed
    /// over when it was read (see `needs_read`). At the end of the stream the
    /// whole request body, if it is valid text, gives one line.
    pub fn on_http_request_body(
        &mut self,
        body_size: usize,
        end_of_stream: bool,
        chunk: Option<Vec<u8>>,
    ) -> (r: Option<String>)
        ensures
            final(self).id() == old(self).id(),
            final(self).buffer(Direction::Request) == Some(
                appended(old(self).bytes(Direction::Request), body_size as nat, chunk_view(chunk)),
            ),
            final(self).buffer(Direction::Response) == old(self).buffer(Direction::Response),
            r.deep_view() == body_log(
                Direction::Request,
                old(self).id(),
                final(self).bytes(Direction::Request),
                end_of_stream,
            ),
    {
        body_step(
            &mut self.req_buf,
            Direction::Request,
            self.context_id,
            body_size,
            end_of_stream,
            chunk,
        )
    }

    /// A response body chunk arrived; the response counterpart of
    /// `on_http_request_body`.
    pub fn on_http_response_body(
        &mut self,
        body_size: usize,
        end_of_stream: bool,
        chunk: Option<Vec<u8>>,
    ) -> (r: Option<String>)
        ensures
            final(self).id() == old(self).id(),
            final(self).buffer(Direction::Response) == Some(
                appended(old(self).bytes(Direction::Response), body_size as nat, chunk_view(chunk)),
            ),
            final(self).buffer(Direction::Request) == old(self).buffer(Direction::Request),
            r.deep_view() == body_log(
                Direction::Response,
                old(self).id(),
                final(self).bytes(Direction::Response),
                end_of_stream,
            ),
    {
        body_step(
            &mut self.resp_buf,
            Direction::Response,
            self.context_id,
            body_size,
            end_of_stream,
            chunk,
        )
    }
}

/// The bytes accumulated once each of `chunks` was delivered in order, every
/// callback announcing the chunk's length and the host handing the chunk over.
pub open spec fn delivered(chunks: Seq<Seq<u8>>) -> Seq<u8>
    decreases chunks.len(),
{
    if chunks.len() == 0 {
        Seq::empty()
    } else {
        appended(delivered(chunks.drop_last()), chunks.last().len(), Some(chunks.last()))
    }
}

/// Delivered chunks accumulate to their concatenation.
pub proof fn lemma_delivered_is_concatenation(chunks: Seq<Seq<u8>>)
    ensures
        delivered(chunks) == chunks.flatten(),
    decreases chunks.len(),
{
    chunks.lemma_flatten_and_flatten_alt_are_equivalent();
    if chunks.len() > 0 {
        lemma_delivered_is_concatenation(chunks.drop_last());
        chunks.drop_last().lemma_flatten_and_flatten_alt_are_equivalent();
        assert(chunks.flatten_alt() == chunks.drop_last().flatten_alt() + chunks.last());
        if chunks.last().len() == 0 {
            assert(delivered(chunks.drop_last()) + chunks.last() =~= delivered(chunks.drop_last()));
        }
    }
}

/// Body reassembly: when chunks `c1..cn` of one direction arrive with only the
/// last marked end of stream, no callback before the last logs, and the last
/// logs the decoding of `c1 ‖ … ‖ cn` whenever that concatenation is valid text.
pub proof fn lemma_body_reassembly(dir: Direction, id: u32, chunks: Seq<Seq<u8>>)
    requires
        chunks.len() > 0,
        valid_utf8(chunks.flatten()),
    ensures
        forall|k: int|
            0 < k < chunks.len() ==> #[trigger] body_log(dir, id, delivered(chunks.take(k)), false)
                is None,
        body_log(dir, id, delivered(chunks), true) == Some(
            body_line(dir, id, decode_utf8(chunks.flatten())),
        ),
{
    lemma_delivered_is_concatenation(chunks);
}

/// An empty chunk is never read and leaves the accumulated bytes as they were,
/// whatever the host would have handed over.
pub proof fn lemma_empty_chunk_untouched(buf: Seq<u8>, chunk: Option<Seq<u8>>)
    ensures
        !reads_chunk(0),
        appended(buf, 0, chunk) == buf,
{
}

} // verus!
