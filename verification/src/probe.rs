//! The connectivity probe: what is sent to the probe inbound, and what its answer says.
use crate::machine::CONNECTIVITY_URLS;
use crate::text::{chars_of, is_white_space};
use vstd::prelude::*;
use vstd::utf8::{decode_utf8, valid_utf8};

verus! {

/// What ends a run of characters.
#[derive(Clone, Copy, PartialEq, Eq, Structural)]
pub enum Stop {
    /// A slash.
    Slash,
    /// White space.
    Space,
    /// Anything but white space.
    Text,
}

impl Stop {
    pub open spec fn stops(self, c: char) -> bool {
        match self {
            Stop::Slash => c == '/',
            Stop::Space => is_white_space(c),
            Stop::Text => !is_white_space(c),
        }
    }
}

/// Where the run of characters from `from` on ends: before the first that stops it, or with the
/// text.
pub open spec fn run_end(s: Seq<char>, from: int, stop: Stop) -> int
    decreases s.len() - from,
{
    if from < 0 || from >= s.len() || stop.stops(s[from]) {
        from
    } else {
        run_end(s, from + 1, stop)
    }
}

fn find_run_end(chars: &Vec<char>, from: usize, stop: Stop) -> (r: usize)
    requires
        from <= chars@.len(),
    ensures
        r == run_end(chars@, from as int, stop),
        from <= r <= chars@.len(),
{
    let mut i: usize = from;
    while i < chars.len()
        invariant
            from <= i <= chars@.len(),
            run_end(chars@, i as int, stop) == run_end(chars@, from as int, stop),
        decreases chars@.len() - i,
    {
        let c = chars[i];
        let stopped = match stop {
            Stop::Slash => c == '/',
            Stop::Space => c.is_whitespace(),
            Stop::Text => !c.is_whitespace(),
        };
        if stopped {
            return i;
        }
        i = i + 1;
    }
    i
}

/// The host of a plain HTTP address: what stands between `http://` and the next slash, if that is
/// anything.
pub open spec fn host_of(url: Seq<char>) -> Option<Seq<char>> {
    let scheme = "http://"@;
    let end = run_end(url, scheme.len() as int, Stop::Slash);
    if scheme.is_prefix_of(url) && end > scheme.len() {
        Some(url.subrange(scheme.len() as int, end))
    } else {
        None
    }
}

/// The host of a plain HTTP address; `None` of any other address, and where the host is empty.
pub fn probe_host(url: &str) -> (r: Option<String>)
    ensures
        match r {
            Some(host) => host_of(url@) == Some(host@),
            None => host_of(url@) is None,
        },
{
    let scheme = chars_of("http://");
    let chars = chars_of(url);
    if chars.len() < scheme.len() {
        return None;
    }
    let mut i: usize = 0;
    while i < scheme.len()
        invariant
            i <= scheme@.len() <= chars@.len(),
            scheme@ == "http://"@,
            chars@ == url@,
            forall|j: int| 0 <= j < i ==> scheme@[j] == chars@[j],
        decreases scheme@.len() - i,
    {
        if chars[i] != scheme[i] {
            assert(url@.subrange(0, scheme@.len() as int)[i as int] != scheme@[i as int]);
            return None;
        }
        i = i + 1;
    }
    let end: usize = find_run_end(&chars, i, Stop::Slash);
    if end > i {
        Some(url.substring_char(i, end).to_owned())
    } else {
        None
    }
}

/// The request for `url` at `host` that is sent to an HTTP proxy.
pub open spec fn request_text(url: Seq<char>, host: Seq<char>) -> Seq<char> {
    "GET "@ + url + " HTTP/1.1\r\nHost: "@ + host
        + "\r\nProxy-Connection: close\r\nConnection: close\r\n\r\n"@
}

/// The request that probes `url` through an HTTP proxy: with an absolute address, and on a
/// connection that is closed afterwards. `None` where the address names no host.
pub fn probe_request(url: &str) -> (r: Option<String>)
    ensures
        match r {
            Some(request) => {
                &&& host_of(url@) is Some
                &&& request@ == request_text(url@, host_of(url@)->0)
            },
            None => host_of(url@) is None,
        },
{
    let host = match probe_host(url) {
        Some(host) => host,
        None => {
            return None;
        },
    };
    let mut request: String = "GET ".to_owned();
    request.append(url);
    request.append(" HTTP/1.1\r\nHost: ");
    request.append(host.as_str());
    request.append("\r\nProxy-Connection: close\r\nConnection: close\r\n\r\n");
    Some(request)
}

/// The second of the words that white space separates.
pub open spec fn second_word(s: Seq<char>) -> Option<Seq<char>> {
    let first_end = run_end(s, run_end(s, 0, Stop::Text), Stop::Space);
    let start = run_end(s, first_end, Stop::Text);
    let end = run_end(s, start, Stop::Space);
    if end > start {
        Some(s.subrange(start, end))
    } else {
        None
    }
}

/// The characters that are decimal digits.
pub open spec fn is_digit(c: char) -> bool {
    '0' <= c <= '9'
}

/// The number that decimal digits stand for.
pub open spec fn digits_value(s: Seq<char>) -> nat
    decreases s.len(),
{
    if s.len() == 0 {
        0
    } else {
        (10 * digits_value(s.drop_last()) + (s.last() as u32 - '0' as u32)) as nat
    }
}

/// The number that decimal digits stand for, if there are any and it fits a `u32`.
pub open spec fn decimal(s: Seq<char>) -> Option<u32> {
    if s.len() > 0 && (forall|i: int| 0 <= i < s.len() ==> is_digit(#[trigger] s[i]))
        && digits_value(s) <= u32::MAX {
        Some(digits_value(s) as u32)
    } else {
        None
    }
}

/// The number that a text stands for as a `u32`: decimal digits, with or without a plus sign.
pub open spec fn u32_of(s: Seq<char>) -> Option<u32> {
    if s.len() > 0 && s[0] == '+' {
        decimal(s.skip(1))
    } else {
        decimal(s)
    }
}

/// The number that the characters from `from` to `to` stand for.
fn parse_decimal(chars: &Vec<char>, from: usize, to: usize) -> (r: Option<u32>)
    requires
        from <= to <= chars@.len(),
    ensures
        r == decimal(chars@.subrange(from as int, to as int)),
{
    let ghost digits = chars@.subrange(from as int, to as int);
    let mut value: u64 = 0;
    let mut i: usize = from;
    // A value that no longer fits stays as it is: more digits cannot make it fit again.
    while i < to
        invariant
            from <= i <= to <= chars@.len(),
            digits == chars@.subrange(from as int, to as int),
            forall|j: int| 0 <= j < i - from ==> is_digit(#[trigger] digits[j]),
            if value <= u32::MAX {
                value == digits_value(digits.take(i - from))
            } else {
                digits_value(digits.take(i - from)) > u32::MAX
            },
            value <= 10 * u32::MAX + 9,
        decreases to - i,
    {
        let c = chars[i];
        assert(digits[i - from] == c);
        if c < '0' || c > '9' {
            return None;
        }
        assert(digits.take(i - from + 1).drop_last() =~= digits.take(i - from));
        if value <= u32::MAX as u64 {
            value = 10 * value + (c as u32 - '0' as u32) as u64;
        }
        i = i + 1;
    }
    assert(digits.take(to - from) =~= digits);
    if from < to && value <= u32::MAX as u64 {
        Some(value as u32)
    } else {
        None
    }
}

/// `str::from_utf8`: the text that the bytes encode, `None` where they are no UTF-8.
#[verifier::external_body]
fn text_of_bytes(bytes: &[u8]) -> (r: Option<&str>)
    ensures
        match r {
            Some(text) => valid_utf8(bytes@) && text@ == decode_utf8(bytes@),
            None => !valid_utf8(bytes@),
        },
{
    std::str::from_utf8(bytes).ok()
}

/// The status of an HTTP response of which the beginning was read: the number that is the second
/// word of the text.
pub open spec fn status_of(response: Seq<u8>) -> Option<u32> {
    if valid_utf8(response) {
        match second_word(decode_utf8(response)) {
            Some(word) => u32_of(word),
            None => None,
        }
    } else {
        None
    }
}

/// The status of an HTTP response, read off its beginning.
pub fn response_status(response: &[u8]) -> (r: Option<u32>)
    ensures
        r == status_of(response@),
{
    let text = match text_of_bytes(response) {
        Some(text) => text,
        None => {
            return None;
        },
    };
    let chars = chars_of(text);
    let first: usize = find_run_end(&chars, 0, Stop::Text);
    let first_end: usize = find_run_end(&chars, first, Stop::Space);
    let start: usize = find_run_end(&chars, first_end, Stop::Text);
    let end: usize = find_run_end(&chars, start, Stop::Space);
    if end == start {
        return None;
    }
    let ghost word = chars@.subrange(start as int, end as int);
    if chars[start] == '+' {
        assert(word.skip(1) =~= chars@.subrange(start + 1, end as int));
        parse_decimal(&chars, start + 1, end)
    } else {
        parse_decimal(&chars, start, end)
    }
}

/// Whether an HTTP response shows that the exit works: any success or redirection does.
pub fn proves_connectivity(response: &[u8]) -> (r: bool)
    ensures
        r == (status_of(response@) is Some && 200 <= status_of(response@)->0 < 400),
{
    match response_status(response) {
        Some(status) => 200 <= status && status < 400,
        None => false,
    }
}

/// What the check of the exit does next.
#[derive(Debug, Clone, Copy, PartialEq, Eq)]
pub enum ConnectivityStep {
    /// Ask this address through the probe inbound.
    Ask { url: &'static str },
    /// The exit works.
    Alive,
    /// No address answered.
    Dead,
}

/// What the check does next when `tried` addresses were asked and the last of them did, or did not,
/// prove connectivity.
pub open spec fn connectivity_step(tried: nat, proved: bool) -> ConnectivityStep {
    if tried > 0 && proved {
        ConnectivityStep::Alive
    } else if tried < CONNECTIVITY_URLS@.len() {
        ConnectivityStep::Ask { url: CONNECTIVITY_URLS@[tried as int] }
    } else {
        ConnectivityStep::Dead
    }
}

/// Leads the check of the exit from address to address: one that answers proves the exit, otherwise
/// the next is asked, in their order. `tried` addresses were asked so far, and `proved` tells of the
/// last one; before the first it does not matter.
pub fn next_connectivity_step(tried: usize, proved: bool) -> (r: ConnectivityStep)
    ensures
        r == connectivity_step(tried as nat, proved),
{
    if tried > 0 && proved {
        return ConnectivityStep::Alive;
    }
    let urls = CONNECTIVITY_URLS;
    if tried < urls.len() {
        ConnectivityStep::Ask { url: urls[tried] }
    } else {
        ConnectivityStep::Dead
    }
}

/// How the check ends when it goes on after `tried` addresses, `answers` telling which of them prove
/// connectivity.
pub open spec fn check_ends_alive(answers: Seq<bool>, tried: nat, proved: bool) -> bool
    decreases CONNECTIVITY_URLS@.len() - tried,
{
    match connectivity_step(tried, proved) {
        ConnectivityStep::Ask { .. } => check_ends_alive(
            answers,
            tried + 1,
            answers[tried as int],
        ),
        ConnectivityStep::Alive => true,
        ConnectivityStep::Dead => false,
    }
}

/// Any address suffices: the exit counts as working exactly where one of the connectivity addresses
/// proves it.
pub proof fn law_any_address_suffices(answers: Seq<bool>, proved: bool)
    requires
        answers.len() == CONNECTIVITY_URLS@.len(),
    ensures
        check_ends_alive(answers, 0, proved) <==> exists|i: int|
            0 <= i < answers.len() && #[trigger] answers[i],
{
    lemma_check_goes_on(answers, 0, proved);
}

proof fn lemma_check_goes_on(answers: Seq<bool>, tried: nat, proved: bool)
    requires
        answers.len() == CONNECTIVITY_URLS@.len(),
        tried <= answers.len(),
    ensures
        check_ends_alive(answers, tried, proved) <==> (tried > 0 && proved) || exists|i: int|
            tried <= i < answers.len() && #[trigger] answers[i],
    decreases answers.len() - tried,
{
    if !(tried > 0 && proved) && tried < answers.len() {
        let answer = answers[tried as int];
        lemma_check_goes_on(answers, tried + 1, answer);
        if exists|i: int| tried <= i < answers.len() && #[trigger] answers[i] {
            let i = choose|i: int| tried <= i < answers.len() && #[trigger] answers[i];
            assert(i == tried || tried + 1 <= i);
        }
    }
}

} // verus!
