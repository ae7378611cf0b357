//! Helpers of the benchmark harness: the port and the URLs of a server
//! started as a child process, and random request payloads.

use crate::message::byte_len;
use rand::distributions::Alphanumeric;
use rand::distributions::Distribution;
use rand::rngs::ThreadRng;
use rand::Rng;
use reqwest::Url;
use vstd::prelude::*;

verus! {

/// The lowest port that a spawned server may listen on.
pub const PORT_RANGE_START: u16 = 3333;

/// The end of the range of ports, itself not used.
pub const PORT_RANGE_END: u16 = 9999;

/// `rand::rngs::ThreadRng`, carried through as an opaque value.
#[verifier::external_type_specification]
#[verifier::external_body]
pub struct ExThreadRng(ThreadRng);

/// Calls `rand::thread_rng`: the generator of the current thread. Its first
/// use on a thread seeds it from the operating system and panics where the
/// system gives no entropy.
#[verifier::external_body]
fn thread_rng() -> ThreadRng {
    rand::thread_rng()
}

/// Calls `Rng::gen_range` with the half-open range `low..high`, which
/// panics on an empty range and otherwise returns a value in the range.
#[verifier::external_body]
fn gen_range(rng: &mut ThreadRng, low: u16, high: u16) -> (value: u16)
    requires
        low < high,
    ensures
        low <= value < high,
{
    rng.gen_range(low..high)
}

/// Whether a character is an ASCII letter or digit.
pub open spec fn is_alphanumeric(c: char) -> bool {
    let code = c as u32;
    (0x30 <= code <= 0x39) || (0x41 <= code <= 0x5A) || (0x61 <= code <= 0x7A)
}

/// Calls `Alphanumeric::sample`, which returns one of the 62 bytes
/// `A`-`Z`, `a`-`z`, `0`-`9`.
#[verifier::external_body]
fn sample_alphanumeric(rng: &mut ThreadRng) -> (byte: u8)
    ensures
        is_alphanumeric(byte as char),
{
    Alphanumeric.sample(rng)
}

/// Calls `String::push`, which appends one character.
#[verifier::external_body]
fn push_char(text: &mut String, c: char)
    ensures
        final(text)@ == old(text)@.push(c),
{
    text.push(c)
}

/// A text of `data_size` random ASCII letters and digits.
pub fn generate_random_payload(data_size: usize) -> (payload: String)
    ensures
        payload@.len() == data_size,
        forall|i: int| 0 <= i < data_size ==> is_alphanumeric(#[trigger] payload@[i]),
{
    let mut rng = thread_rng();
    let mut random_data = String::new();
    let mut count: usize = 0;
    while count < data_size
        invariant
            count <= data_size,
            random_data@.len() == count,
            forall|i: int| 0 <= i < count ==> is_alphanumeric(#[trigger] random_data@[i]),
        decreases data_size - count,
    {
        let byte = sample_alphanumeric(&mut rng);
        push_char(&mut random_data, byte as char);
        count += 1;
    }
    random_data
}

/// The number of calls made before the measurement starts.
pub const WARM_UP_RUNS: usize = 5;

/// The number of measured calls after which outliers are removed and the
/// measurement may stop.
pub const MIN_ITERATIONS: usize = 10;

/// The number of measured calls after which the measurement stops in any case.
pub const MAX_ITERATIONS: usize = 200;

/// Whether the timings are looked at after the measured call with the index
/// `iteration`, counted from 0: outliers are removed from then on.
pub fn statistics_are_due(iteration: usize) -> (due: bool)
    ensures
        due == (iteration >= MIN_ITERATIONS),
{
    iteration >= MIN_ITERATIONS
}

/// Whether the measurement stops after the measured call with the index
/// `iteration`: the statistics are due, more than the minimum of timings
/// is retained after the outliers were removed, and those are stable.
pub fn measurement_stops(iteration: usize, retained: usize, stable: bool) -> (stops: bool)
    ensures
        stops == (iteration >= MIN_ITERATIONS && retained > MIN_ITERATIONS && stable),
{
    statistics_are_due(iteration) && retained > MIN_ITERATIONS && stable
}

/// The payload size that the measurements start with, in bytes.
pub const INITIAL_PAYLOAD_SIZE: usize = 1024;

/// The largest payload size that is measured, in bytes.
pub const TARGET_PAYLOAD_SIZE: usize = 8 * 1024 * 1024;

/// The payload size that follows `size`: a quarter more.
pub open spec fn next_payload_size(size: int) -> int {
    size + size / 4
}

/// Whether `sizes` is the schedule of payload sizes: it starts with the
/// initial size, each size is a quarter more than the one before, and it
/// ends with the last size that does not pass the target.
pub open spec fn is_payload_schedule(sizes: Seq<usize>) -> bool {
    &&& sizes.len() > 0
    &&& sizes[0] == INITIAL_PAYLOAD_SIZE
    &&& forall|i: int| 0 <= i < sizes.len() - 1 ==> sizes[i + 1] == next_payload_size(sizes[i] as int)
    &&& forall|i: int| 0 <= i < sizes.len() ==> sizes[i] <= TARGET_PAYLOAD_SIZE
    &&& next_payload_size(sizes.last() as int) > TARGET_PAYLOAD_SIZE
}

/// The payload sizes to measure, in order.
pub fn payload_sizes() -> (sizes: Vec<usize>)
    ensures
        is_payload_schedule(sizes@),
{
    let mut sizes: Vec<usize> = Vec::new();
    let mut payload_size: usize = INITIAL_PAYLOAD_SIZE;
    sizes.push(payload_size);
    loop
        invariant
            sizes@.len() > 0,
            sizes@[0] == INITIAL_PAYLOAD_SIZE,
            sizes@.last() == payload_size,
            INITIAL_PAYLOAD_SIZE <= payload_size <= TARGET_PAYLOAD_SIZE,
            forall|i: int|
                0 <= i < sizes@.len() - 1 ==> sizes@[i + 1] == next_payload_size(sizes@[i] as int),
            forall|i: int| 0 <= i < sizes@.len() ==> sizes@[i] <= TARGET_PAYLOAD_SIZE,
        ensures
            is_payload_schedule(sizes@),
        decreases TARGET_PAYLOAD_SIZE - payload_size,
    {
        let next = payload_size + payload_size / 4;
        if next > TARGET_PAYLOAD_SIZE {
            break;
        }
        payload_size = next;
        sizes.push(payload_size);
    }
    sizes
}

/// A server started as a child process, by the port it listens on.
pub struct ServerExe {
    pub port: u16,
}

/// The view of a text that may be missing.
pub open spec fn text_of(text: Option<String>) -> Option<Seq<char>> {
    match text {
        Some(t) => Some(t@),
        None => None,
    }
}

/// `reqwest::Url`, carried through as an opaque value.
#[verifier::external_type_specification]
#[verifier::external_body]
pub struct ExUrl(Url);

/// The text of a URL: its serialization.
pub uninterp spec fn url_text(url: Url) -> Seq<char>;

/// The text of the URL that `text` parses to; `None` where it does not parse.
pub uninterp spec fn url_after_parse(text: Seq<char>) -> Option<Seq<char>>;

/// The text of the URL with the text `url` after its port was set to
/// `port`; `None` where that URL cannot have a port.
pub uninterp spec fn url_with_port(url: Seq<char>, port: u16) -> Option<Seq<char>>;

/// The text of the URL with the text `url` after its path was set to `path`.
pub uninterp spec fn url_with_path(url: Seq<char>, path: Seq<char>) -> Seq<char>;

/// The text of a URL that may be missing.
pub open spec fn url_text_of(url: Option<Url>) -> Option<Seq<char>> {
    match url {
        Some(u) => Some(url_text(u)),
        None => None,
    }
}

/// Whether the port of a URL with this text can be set: the text with a port
/// added must stay within what the URL's 32-bit positions hold.
pub open spec fn port_fits(url: Seq<char>) -> bool {
    byte_len(url) + 8 <= u32::MAX
}

/// Whether the path of a URL with this text can be set to `path`: the text
/// with the path added, each of its bytes escaped to three at most, must stay
/// within what the URL's 32-bit positions hold.
pub open spec fn path_fits(url: Seq<char>, path: Seq<char>) -> bool {
    byte_len(url) + 3 * byte_len(path) + 8 <= u32::MAX
}

/// Calls `Url::parse`, which fails on a text that is no URL.
#[verifier::external_body]
fn parse_url(text: &str) -> (url: Option<Url>)
    ensures
        url_text_of(url) == url_after_parse(text@),
{
    Url::parse(text).ok()
}

/// Calls `Url::as_str`, which gives the URL's serialization.
#[verifier::external_body]
fn as_str<'a>(url: &'a Url) -> (text: &'a str)
    ensures
        text@ == url_text(*url),
{
    url.as_str()
}

/// Calls `Url::set_port`. A URL that cannot have a port stays as it is.
/// The call panics where the text with the port, at most six bytes more,
/// passes `u32::MAX` bytes; such a URL is left out.
#[verifier::external_body]
fn set_port(url: &mut Url, port: u16) -> (set: bool)
    requires
        port_fits(url_text(*old(url))),
    ensures
        set == (url_with_port(url_text(*old(url)), port) is Some),
        url_text(*final(url)) == (match url_with_port(url_text(*old(url)), port) {
            Some(text) => text,
            None => url_text(*old(url)),
        }),
{
    url.set_port(Some(port)).is_ok()
}

/// Calls `Url::set_path`. The call panics where the text with the new path
/// passes `u32::MAX` bytes; such a URL and path are left out.
#[verifier::external_body]
fn set_path(url: &mut Url, path: &str)
    requires
        path_fits(url_text(*old(url)), path@),
    ensures
        url_text(*final(url)) == url_with_path(url_text(*old(url)), path@),
{
    url.set_path(path)
}

/// Whether a text of `url_length` bytes with a path of `path_length` bytes,
/// each escaped to three at most, stays within `u32::MAX` bytes.
fn lengths_fit(url_length: usize, path_length: usize) -> (fits: bool)
    ensures
        fits == (url_length + 3 * path_length + 8 <= u32::MAX),
{
    (url_length as u128) + 3 * (path_length as u128) + 8 <= u32::MAX as u128
}

/// The URL of a path on the local host at a port: the base URL with the
/// port set, then the path. There is none where the base does not parse or
/// takes no port, or where the texts are too long for a URL.
pub open spec fn local_url(port: u16, path: Seq<char>) -> Option<Seq<char>> {
    match url_after_parse("http://localhost/"@) {
        Some(base) => if port_fits(base) {
            match url_with_port(base, port) {
                Some(with_port) => if path_fits(with_port, path) {
                    Some(url_with_path(with_port, path))
                } else {
                    None
                },
                None => None,
            }
        } else {
            None
        },
        None => None,
    }
}

impl ServerExe {
    /// A server on a port picked at random within the port range.
    pub fn on_random_port() -> (exe: ServerExe)
        ensures
            PORT_RANGE_START <= exe.port < PORT_RANGE_END,
    {
        let mut rng = thread_rng();
        let port = gen_range(&mut rng, PORT_RANGE_START, PORT_RANGE_END);
        ServerExe { port }
    }

    /// The URL of `path` on this server.
    pub fn format_req_url(&self, path: &str) -> (url: Option<String>)
        ensures
            text_of(url) == local_url(self.port, path@),
    {
        let mut url = match parse_url("http://localhost/") {
            Some(parsed) => parsed,
            None => {
                return None;
            },
        };
        if !lengths_fit(as_str(&url).as_bytes().len(), 0) {
            return None;
        }
        if !set_port(&mut url, self.port) {
            return None;
        }
        if !lengths_fit(as_str(&url).as_bytes().len(), path.as_bytes().len()) {
            return None;
        }
        set_path(&mut url, path);
        Some(as_str(&url).to_owned())
    }
}

} // verus!
