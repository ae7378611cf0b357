//! Requests as the dispatcher reads them and responses as it builds them.

use crate::status::IoError;
use crate::status::ERROR_INSUFFICIENT_BUFFER;
use crate::status::ERROR_INVALID_PARAMETER;
use vstd::prelude::*;
use vstd::slice::slice_subrange;

verus! {

/// The capacity of the buffer that a request is received into, in bytes.
pub const RECEIVE_BUFFER_CAPACITY: usize = 4096;

/// The number of entries in a response's table of known headers.
pub const KNOWN_HEADER_COUNT: usize = 30;

/// The place of the content type in the table of known headers.
pub const HEADER_CONTENT_TYPE: usize = 12;

/// The length of a text in bytes, as UTF-8.
pub open spec fn byte_len(text: Seq<char>) -> nat {
    vstd::utf8::encode_utf8(text).len()
}

/// Whether a zero-terminated text in `bytes` ends before `end`: no byte
/// before `end` is zero, and `end` is the place of a zero byte or the end of
/// `bytes`.
pub open spec fn is_text_end(bytes: Seq<u8>, end: int) -> bool {
    &&& 0 <= end <= bytes.len()
    &&& forall|i: int| 0 <= i < end ==> bytes[i] != 0
    &&& end < bytes.len() ==> bytes[end] == 0
}

/// The place where the zero-terminated text in `bytes` ends.
pub open spec fn text_end(bytes: Seq<u8>) -> int {
    choose|end: int| is_text_end(bytes, end)
}

/// The bytes before the first zero byte; all of them where none is zero.
pub open spec fn until_nul(bytes: Seq<u8>) -> Seq<u8> {
    bytes.take(text_end(bytes))
}

/// A text ends in one place only.
pub proof fn lemma_text_end_is_unique(bytes: Seq<u8>, end: int, other: int)
    requires
        is_text_end(bytes, end),
    ensures
        is_text_end(bytes, text_end(bytes)),
        text_end(bytes) == end,
        is_text_end(bytes, other) ==> other == end,
{
    let chosen = text_end(bytes);
    assert(is_text_end(bytes, chosen));
    if chosen < end {
        assert(bytes[chosen] != 0);
    }
    if end < chosen {
        assert(bytes[end] == 0);
    }
    if is_text_end(bytes, other) {
        if other < end {
            assert(bytes[other] != 0);
        }
        if end < other {
            assert(bytes[end] == 0);
        }
    }
}

/// The text that `String::from_utf8_lossy` makes of `bytes`.
pub uninterp spec fn utf8_lossy(bytes: Seq<u8>) -> Seq<char>;

/// Calls `String::from_utf8_lossy`, which decodes UTF-8 and puts the
/// replacement character in place of what is not.
#[verifier::external_body]
fn from_utf8_lossy(bytes: &[u8]) -> (text: String)
    ensures
        text@ == utf8_lossy(bytes@),
{
    String::from_utf8_lossy(bytes).into_owned()
}

/// The model of a received request.
pub struct RequestView {
    pub request_id: u64,
    pub url_context: u64,
    pub url: Seq<char>,
}

/// A received request: the id under which the kernel answers it, the route
/// id that its URL prefix was registered with, and its URL.
pub struct Request {
    request_id: u64,
    url_context: u64,
    url: String,
}

impl View for Request {
    type V = RequestView;

    closed spec fn view(&self) -> RequestView {
        RequestView { request_id: self.request_id, url_context: self.url_context, url: self.url@ }
    }
}

impl Request {
    pub fn new(request_id: u64, url_context: u64, url: String) -> (request: Request)
        ensures
            request@ == (RequestView { request_id, url_context, url: url@ }),
    {
        Request { request_id, url_context, url }
    }

    /// Builds a request from the bytes of its raw URL as they stand in the
    /// receive buffer. The URL ends before the first zero byte; what is not
    /// UTF-8 in it is replaced. Bytes that cannot have fitted into the buffer
    /// are refused as a request that is too large.
    pub fn from_raw_url(request_id: u64, url_context: u64, raw_url: &[u8]) -> (request: Result<
        Request,
        IoError,
    >)
        ensures
            match request {
                Ok(r) => raw_url@.len() <= RECEIVE_BUFFER_CAPACITY && r@ == (RequestView {
                    request_id,
                    url_context,
                    url: utf8_lossy(until_nul(raw_url@)),
                }),
                Err(e) => raw_url@.len() > RECEIVE_BUFFER_CAPACITY && e == (IoError {
                    code: ERROR_INSUFFICIENT_BUFFER,
                }),
            },
    {
        if raw_url.len() > RECEIVE_BUFFER_CAPACITY {
            return Err(IoError { code: ERROR_INSUFFICIENT_BUFFER });
        }
        let mut end: usize = 0;
        while end < raw_url.len() && raw_url[end] != 0
            invariant
                end <= raw_url@.len(),
                forall|i: int| 0 <= i < end ==> raw_url@[i] != 0,
            decreases raw_url@.len() - end,
        {
            end += 1;
        }
        proof {
            lemma_text_end_is_unique(raw_url@, end as int, text_end(raw_url@));
        }
        let url = from_utf8_lossy(slice_subrange(raw_url, 0, end));
        Ok(Request { request_id, url_context, url })
    }

    pub fn request_id(&self) -> (id: u64)
        ensures
            id == self@.request_id,
    {
        self.request_id
    }

    /// The route id that the request was received under.
    pub fn url_context(&self) -> (id: u64)
        ensures
            id == self@.url_context,
    {
        self.url_context
    }

    pub fn url(&self) -> (url: String)
        ensures
            url@ == self@.url,
    {
        self.url.clone()
    }
}

/// The model of a response.
pub struct ResponseView {
    pub status_code: u16,
    pub reason: Seq<char>,
    pub known_headers: Seq<Option<Seq<char>>>,
    pub body: Seq<char>,
    pub chunk_count: u16,
}

/// Whether the value of a header, where the header is set, has a length
/// that 16 bits hold.
pub open spec fn header_fits(header: Option<Seq<char>>) -> bool {
    match header {
        Some(value) => byte_len(value) <= u16::MAX,
        None => true,
    }
}

impl ResponseView {
    /// Whether every length fits the field that the kernel reads it from:
    /// 16 bits for the reason phrase and for each header's value, 32 bits
    /// for the body chunk.
    pub open spec fn lengths_fit(self) -> bool {
        &&& byte_len(self.reason) <= u16::MAX
        &&& forall|id: int|
            0 <= id < self.known_headers.len() ==> header_fits(#[trigger] self.known_headers[id])
        &&& byte_len(self.body) <= u32::MAX
    }

    /// The response that nothing has been set in.
    pub open spec fn empty() -> ResponseView {
        ResponseView {
            status_code: 0,
            reason: Seq::empty(),
            known_headers: Seq::new(KNOWN_HEADER_COUNT as nat, |i: int| None),
            body: Seq::empty(),
            chunk_count: 0,
        }
    }

    pub open spec fn with_status(self, status_code: u16, reason: Seq<char>) -> ResponseView {
        ResponseView { status_code, reason, ..self }
    }

    pub open spec fn with_known_header(self, id: int, value: Seq<char>) -> ResponseView {
        ResponseView { known_headers: self.known_headers.update(id, Some(value)), ..self }
    }

    pub open spec fn with_body(self, body: Seq<char>) -> ResponseView {
        ResponseView { body, chunk_count: 1, ..self }
    }
}

/// The views of a table of headers.
pub open spec fn header_views(headers: Seq<Option<String>>) -> Seq<Option<Seq<char>>> {
    Seq::new(
        headers.len(),
        |i: int|
            match headers[i] {
                Some(value) => Some(value@),
                None => None,
            },
    )
}

/// A length as a 16-bit field holds it; none where it does not fit.
pub open spec fn fitting_u16(length: nat) -> Option<u16> {
    if length <= u16::MAX {
        Some(length as u16)
    } else {
        None
    }
}

/// Narrows a length to 16 bits.
pub fn checked_u16(length: usize) -> (narrow: Option<u16>)
    ensures
        narrow == fitting_u16(length as nat),
{
    if length <= u16::MAX as usize {
        Some(length as u16)
    } else {
        None
    }
}

/// An outbound message: status code, reason phrase, a table of known
/// headers, and at most one body chunk, whose text the response owns.
pub struct Response {
    status_code: u16,
    reason: String,
    known_headers: Vec<Option<String>>,
    strings: String,
    chunk_count: u16,
}

impl View for Response {
    type V = ResponseView;

    closed spec fn view(&self) -> ResponseView {
        ResponseView {
            status_code: self.status_code,
            reason: self.reason@,
            known_headers: header_views(self.known_headers@),
            body: self.strings@,
            chunk_count: self.chunk_count,
        }
    }
}

impl Default for Response {
    fn default() -> (response: Response)
        ensures
            response@ == ResponseView::empty(),
    {
        let mut known_headers: Vec<Option<String>> = Vec::new();
        let mut i: usize = 0;
        while i < KNOWN_HEADER_COUNT
            invariant
                i <= KNOWN_HEADER_COUNT,
                known_headers@.len() == i,
                forall|k: int| 0 <= k < i ==> known_headers@[k] is None,
            decreases KNOWN_HEADER_COUNT - i,
        {
            known_headers.push(None);
            i += 1;
        }
        let response = Response {
            status_code: 0,
            reason: String::new(),
            known_headers,
            strings: String::new(),
            chunk_count: 0,
        };
        assert(response@.known_headers =~= ResponseView::empty().known_headers);
        response
    }
}

impl Response {
    #[verifier::type_invariant]
    spec fn inv(self) -> bool {
        self.known_headers@.len() == KNOWN_HEADER_COUNT
    }

    pub fn set_status(&mut self, status_code: u16, reason: String)
        ensures
            final(self)@ == old(self)@.with_status(status_code, reason@),
    {
        proof {
            use_type_invariant(&*self);
        }
        self.status_code = status_code;
        self.reason = reason;
    }

    /// Sets one known header. An id outside the table is refused and leaves
    /// the response as it was.
    pub fn set_known_header(&mut self, id: usize, value: String) -> (set: bool)
        ensures
            set == (id < KNOWN_HEADER_COUNT),
            set ==> final(self)@ == old(self)@.with_known_header(id as int, value@),
            !set ==> final(self)@ == old(self)@,
    {
        proof {
            use_type_invariant(&*self);
        }
        if id < KNOWN_HEADER_COUNT {
            self.known_headers[id] = Some(value);
            assert(final(self)@.known_headers =~= old(self)@.known_headers.update(
                id as int,
                Some(value@),
            ));
            true
        } else {
            false
        }
    }

    /// Makes `data` the response's single body chunk.
    pub fn add_body_chunk(&mut self, data: String)
        ensures
            final(self)@ == old(self)@.with_body(data@),
    {
        proof {
            use_type_invariant(&*self);
        }
        self.strings = data;
        self.chunk_count = 1;
    }

    pub fn status_code(&self) -> (code: u16)
        ensures
            code == self@.status_code,
    {
        self.status_code
    }

    pub fn reason(&self) -> (reason: &str)
        ensures
            reason@ == self@.reason,
    {
        self.reason.as_str()
    }

    /// The value of one known header, if it is set.
    pub fn known_header(&self, id: usize) -> (value: Option<&str>)
        ensures
            id < KNOWN_HEADER_COUNT ==> (match value {
                Some(text) => self@.known_headers[id as int] == Some(text@),
                None => self@.known_headers[id as int] is None,
            }),
            id >= KNOWN_HEADER_COUNT ==> value is None,
    {
        proof {
            use_type_invariant(self);
        }
        if id < KNOWN_HEADER_COUNT {
            match &self.known_headers[id] {
                Some(text) => Some(text.as_str()),
                None => None,
            }
        } else {
            None
        }
    }

    /// The length of the reason phrase in bytes, where 16 bits hold it.
    pub fn reason_length(&self) -> (length: Option<u16>)
        ensures
            length == fitting_u16(byte_len(self@.reason)),
    {
        checked_u16(self.reason.as_str().as_bytes().len())
    }

    /// The length of a known header's value in bytes, where the header is
    /// set and 16 bits hold the length.
    pub fn known_header_length(&self, id: usize) -> (length: Option<u16>)
        ensures
            length == (if id < KNOWN_HEADER_COUNT {
                match self@.known_headers[id as int] {
                    Some(value) => fitting_u16(byte_len(value)),
                    None => None,
                }
            } else {
                None
            }),
    {
        match self.known_header(id) {
            Some(value) => checked_u16(value.as_bytes().len()),
            None => None,
        }
    }

    /// The length of the body chunk in bytes, where 32 bits hold it.
    pub fn body_length(&self) -> (length: Option<u32>)
        ensures
            length == (if byte_len(self@.body) <= u32::MAX {
                Some(byte_len(self@.body) as u32)
            } else {
                None
            }),
    {
        let length = self.strings.as_str().as_bytes().len();
        if length <= u32::MAX as usize {
            Some(length as u32)
        } else {
            None
        }
    }

    /// Whether the response can be laid out for the kernel: every length
    /// fits its field. A response with a length that does not fit is refused
    /// as an invalid parameter.
    pub fn check_lengths(&self) -> (result: Result<(), IoError>)
        ensures
            result == (if self@.lengths_fit() {
                Ok::<(), IoError>(())
            } else {
                Err::<(), IoError>(IoError { code: ERROR_INVALID_PARAMETER })
            }),
    {
        proof {
            use_type_invariant(self);
        }
        if self.reason_length().is_none() || self.body_length().is_none() {
            return Err(IoError { code: ERROR_INVALID_PARAMETER });
        }
        let mut id: usize = 0;
        while id < KNOWN_HEADER_COUNT
            invariant
                id <= KNOWN_HEADER_COUNT,
                self@.known_headers.len() == KNOWN_HEADER_COUNT,
                forall|k: int| 0 <= k < id ==> header_fits(#[trigger] self@.known_headers[k]),
            decreases KNOWN_HEADER_COUNT - id,
        {
            if self.known_header(id).is_some() && self.known_header_length(id).is_none() {
                assert(!header_fits(self@.known_headers[id as int]));
                return Err(IoError { code: ERROR_INVALID_PARAMETER });
            }
            id += 1;
        }
        Ok(())
    }

    /// The text of the body chunk.
    pub fn body(&self) -> (body: &str)
        ensures
            body@ == self@.body,
    {
        self.strings.as_str()
    }

    /// The number of body chunks: 1 once a body has been added.
    pub fn chunk_count(&self) -> (count: u16)
        ensures
            count == self@.chunk_count,
    {
        self.chunk_count
    }
}

} // verus!
