//! What a probe asks and what it reads, over the texts themselves.
use crate::machine::CONNECTIVITY_URLS;
use crate::probe::{
    connectivity_step, decimal, digits_value, host_of, is_digit, request_text, run_end, second_word,
    status_of, u32_of, ConnectivityStep, Stop,
};
use crate::text::is_white_space;
use vstd::prelude::*;
use vstd::utf8::{decode_utf8, valid_utf8};

verus! {

/// What ends a run: a slash, white space, or anything but white space.
pub proof fn law_runs_end_at_their_stops(c: char)
    ensures
        Stop::Slash.stops(c) <==> c == '/',
        Stop::Space.stops(c) <==> is_white_space(c),
        Stop::Text.stops(c) <==> !is_white_space(c),
{
}

/// A run goes on to the first character that stops it, or to the end of the text.
pub proof fn law_run_goes_on_to_the_first_stop(s: Seq<char>, from: int, to: int, stop: Stop)
    requires
        0 <= from <= to <= s.len(),
        forall|i: int| from <= i < to ==> !stop.stops(#[trigger] s[i]),
        to < s.len() ==> stop.stops(s[to]),
    ensures
        run_end(s, from, stop) == to,
    decreases to - from,
{
    if from < to {
        assert(!stop.stops(s[from]));
        law_run_goes_on_to_the_first_stop(s, from + 1, to, stop);
    }
}

/// Where the run ends is such a place.
proof fn lemma_run_end(s: Seq<char>, from: int, stop: Stop)
    requires
        0 <= from <= s.len(),
    ensures
        from <= run_end(s, from, stop) <= s.len(),
        forall|i: int| from <= i < run_end(s, from, stop) ==> !stop.stops(#[trigger] s[i]),
        run_end(s, from, stop) < s.len() ==> stop.stops(s[run_end(s, from, stop)]),
    decreases s.len() - from,
{
    if from < s.len() && !stop.stops(s[from]) {
        lemma_run_end(s, from + 1, stop);
    }
}

/// The host of an address is what stands after the scheme, up to the next slash or the end.
pub proof fn law_host_stands_after_the_scheme(host: Seq<char>, rest: Seq<char>)
    requires
        host.len() > 0,
        forall|i: int| 0 <= i < host.len() ==> #[trigger] host[i] != '/',
        rest.len() > 0 ==> rest[0] == '/',
    ensures
        host_of("http://"@ + host + rest) == Some(host),
{
    let scheme = "http://"@;
    let url = scheme + host + rest;
    let from = scheme.len() as int;
    let to = from + host.len();
    assert forall|i: int| from <= i < to implies !Stop::Slash.stops(#[trigger] url[i]) by {
        assert(url[i] == host[i - from]);
    }
    if to < url.len() {
        assert(url[to] == rest[0]);
    }
    law_run_goes_on_to_the_first_stop(url, from, to, Stop::Slash);
    assert(url.subrange(0, from) =~= scheme);
    assert(url.subrange(from, to) =~= host);
}

/// An address that has a host is of that form: nothing else has one.
pub proof fn law_only_plain_addresses_have_a_host(url: Seq<char>)
    requires
        host_of(url) is Some,
    ensures
        ({
            let host = host_of(url)->0;
            &&& host.len() > 0
            &&& forall|i: int| 0 <= i < host.len() ==> #[trigger] host[i] != '/'
            &&& exists|rest: Seq<char>|
                url == #[trigger] ("http://"@ + host + rest) && (rest.len() > 0 ==> rest[0] == '/')
        }),
{
    let scheme = "http://"@;
    let from = scheme.len() as int;
    lemma_run_end(url, from, Stop::Slash);
    let to = run_end(url, from, Stop::Slash);
    let host = host_of(url)->0;
    let rest = url.subrange(to, url.len() as int);
    assert forall|i: int| 0 <= i < host.len() implies #[trigger] host[i] != '/' by {
        assert(host[i] == url[from + i]);
    }
    assert(url =~= scheme + host + rest) by {
        assert forall|i: int| 0 <= i < url.len() implies url[i] == (scheme + host + rest)[i] by {
            if i < from {
                assert(url.subrange(0, from)[i] == url[i]);
            }
        }
    }
}

/// The request names the whole address, and the host, and asks for the connection to be closed.
pub proof fn law_request_names_address_and_host(url: Seq<char>, host: Seq<char>)
    ensures
        request_text(url, host) == "GET "@ + url + (" HTTP/1.1\r\nHost: "@ + (host + (
        "\r\nProxy-Connection: close\r\nConnection: close\r\n\r\n"@))),
{
    assert(request_text(url, host) =~= "GET "@ + url + (" HTTP/1.1\r\nHost: "@ + (host + (
    "\r\nProxy-Connection: close\r\nConnection: close\r\n\r\n"@))));
}

/// The second word stands between white space: whatever white space comes before the first word and
/// between the two, it is what follows up to the next white space or the end.
pub proof fn law_second_word_stands_between_spaces(
    lead: Seq<char>,
    first: Seq<char>,
    gap: Seq<char>,
    word: Seq<char>,
    rest: Seq<char>,
)
    requires
        forall|i: int| 0 <= i < lead.len() ==> is_white_space(#[trigger] lead[i]),
        first.len() > 0,
        forall|i: int| 0 <= i < first.len() ==> !is_white_space(#[trigger] first[i]),
        gap.len() > 0,
        forall|i: int| 0 <= i < gap.len() ==> is_white_space(#[trigger] gap[i]),
        word.len() > 0,
        forall|i: int| 0 <= i < word.len() ==> !is_white_space(#[trigger] word[i]),
        rest.len() > 0 ==> is_white_space(rest[0]),
    ensures
        second_word(lead + first + gap + word + rest) == Some(word),
{
    let s = lead + first + gap + word + rest;
    let a = lead.len() as int;
    let b = a + first.len();
    let c = b + gap.len();
    let d = c + word.len();
    assert forall|i: int| 0 <= i < a implies !Stop::Text.stops(#[trigger] s[i]) by {
        assert(s[i] == lead[i]);
    }
    assert(s[a] == first[0]);
    law_run_goes_on_to_the_first_stop(s, 0, a, Stop::Text);
    assert forall|i: int| a <= i < b implies !Stop::Space.stops(#[trigger] s[i]) by {
        assert(s[i] == first[i - a]);
    }
    assert(s[b] == gap[0]);
    law_run_goes_on_to_the_first_stop(s, a, b, Stop::Space);
    assert forall|i: int| b <= i < c implies !Stop::Text.stops(#[trigger] s[i]) by {
        assert(s[i] == gap[i - b]);
    }
    assert(s[c] == word[0]);
    law_run_goes_on_to_the_first_stop(s, b, c, Stop::Text);
    assert forall|i: int| c <= i < d implies !Stop::Space.stops(#[trigger] s[i]) by {
        assert(s[i] == word[i - c]);
    }
    if d < s.len() {
        assert(s[d] == rest[0]);
    }
    law_run_goes_on_to_the_first_stop(s, c, d, Stop::Space);
    assert(s.subrange(c, d) =~= word);
}

/// A text of one word, or of none, has no second one.
pub proof fn law_single_words_have_no_second(
    lead: Seq<char>,
    first: Seq<char>,
    trail: Seq<char>,
)
    requires
        forall|i: int| 0 <= i < lead.len() ==> is_white_space(#[trigger] lead[i]),
        forall|i: int| 0 <= i < first.len() ==> !is_white_space(#[trigger] first[i]),
        forall|i: int| 0 <= i < trail.len() ==> is_white_space(#[trigger] trail[i]),
    ensures
        second_word(lead + first + trail) is None,
{
    let s = lead + first + trail;
    let n = s.len() as int;
    let a = lead.len() as int;
    let b = a + first.len();
    assert forall|i: int| 0 <= i < a implies !Stop::Text.stops(#[trigger] s[i]) by {
        assert(s[i] == lead[i]);
    }
    assert forall|i: int| b <= i < n implies !Stop::Text.stops(#[trigger] s[i]) by {
        assert(s[i] == trail[i - b]);
    }
    if first.len() > 0 {
        assert(s[a] == first[0]);
        law_run_goes_on_to_the_first_stop(s, 0, a, Stop::Text);
        assert forall|i: int| a <= i < b implies !Stop::Space.stops(#[trigger] s[i]) by {
            assert(s[i] == first[i - a]);
        }
        if b < n {
            assert(s[b] == trail[0]);
        }
        law_run_goes_on_to_the_first_stop(s, a, b, Stop::Space);
        law_run_goes_on_to_the_first_stop(s, b, n, Stop::Text);
    } else {
        assert forall|i: int| 0 <= i < n implies !Stop::Text.stops(#[trigger] s[i]) by {
            if i >= a {
                assert(s[i] == trail[i - b]);
            }
        }
        law_run_goes_on_to_the_first_stop(s, 0, n, Stop::Text);
    }
}

/// Digits are read from the left, each ten times what follows it.
pub proof fn law_digits_are_read_in_tens(s: Seq<char>, c: char)
    requires
        '0' <= c <= '9',
    ensures
        digits_value(Seq::empty()) == 0,
        digits_value(s.push(c)) == 10 * digits_value(s) + (c as u32 - '0' as u32),
        is_digit(c),
{
    assert(s.push(c).drop_last() =~= s);
}

/// A number is one or more digits whose value fits, and is that value; a plus sign may stand before
/// it once.
pub proof fn law_numbers_are_digits_that_fit(s: Seq<char>, n: u32)
    ensures
        decimal(s) == Some(n) <==> {
            &&& s.len() > 0
            &&& forall|i: int| 0 <= i < s.len() ==> '0' <= #[trigger] s[i] <= '9'
            &&& digits_value(s) == n
        },
        decimal(s) is None <==> {
            ||| s.len() == 0
            ||| exists|i: int| 0 <= i < s.len() && !('0' <= #[trigger] s[i] <= '9')
            ||| digits_value(s) > u32::MAX
        },
        u32_of(seq!['+'] + s) == decimal(s),
        s.len() == 0 || s[0] != '+' ==> u32_of(s) == decimal(s),
{
    assert((seq!['+'] + s).skip(1) =~= s);
    assert((seq!['+'] + s)[0] == '+');
    if forall|i: int| 0 <= i < s.len() ==> '0' <= #[trigger] s[i] <= '9' {
        assert forall|i: int| 0 <= i < s.len() implies is_digit(#[trigger] s[i]) by {}
    }
}

/// The status is the number that is the second word of the decoded response; there is none where the
/// bytes are no text, there is no second word, or it is no number.
pub proof fn law_status_is_the_second_word(response: Seq<u8>, word: Seq<char>)
    ensures
        !valid_utf8(response) ==> status_of(response) is None,
        valid_utf8(response) && second_word(decode_utf8(response)) is None ==> status_of(
            response,
        ) is None,
        valid_utf8(response) && second_word(decode_utf8(response)) == Some(word) ==> status_of(
            response,
        ) == u32_of(word),
{
}

/// The addresses are asked in their order, one after the other until one proves the exit.
pub proof fn law_addresses_are_asked_in_order(tried: nat, proved: bool)
    ensures
        tried == 0 ==> connectivity_step(tried, proved) == (ConnectivityStep::Ask {
            url: CONNECTIVITY_URLS@[0],
        }),
        tried > 0 && proved ==> connectivity_step(tried, proved) is Alive,
        0 < tried < CONNECTIVITY_URLS@.len() && !proved ==> connectivity_step(tried, proved) == (
        ConnectivityStep::Ask { url: CONNECTIVITY_URLS@[tried as int] }),
        tried >= CONNECTIVITY_URLS@.len() && !proved ==> connectivity_step(tried, proved) is Dead,
{
}

} // verus!
