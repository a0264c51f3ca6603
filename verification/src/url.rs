//! What a channel reads from its URL: whether a channel can be opened for it
//! at all, and which transport its scheme asks for.

use vstd::prelude::*;
use vstd::std_specs::iter::IteratorSpec;
use vstd::string::*;

verus! {

/// The transport that a URL asks for.
#[derive(Clone, Copy, Debug, PartialEq, Eq, Structural)]
pub enum Scheme {
    /// Plain TCP (`ws`).
    Ws,
    /// TLS (`wss`).
    Wss,
}

/// Whether the text starts with `wss`.
pub open spec fn is_secure_url(url: Seq<char>) -> bool {
    seq!['w', 's', 's'].is_prefix_of(url)
}

/// The scheme that the text selects: `Wss` when it starts with `wss`, `Ws` in
/// every other case. Nothing else of the text is looked at.
pub open spec fn scheme_of(url: Seq<char>) -> Scheme {
    if is_secure_url(url) {
        Scheme::Wss
    } else {
        Scheme::Ws
    }
}

/// The largest weight of an authority that is handed to the parser.
pub const URL_WEIGHT_LIMIT: usize = 3800;

/// A character that stands for itself in a host name: ASCII, and not the
/// sign that starts a percent escape.
pub open spec fn is_plain(c: char) -> bool {
    (c as u32) < 128 && c != '%'
}

/// How many code points one character of a text can become in a host label:
/// a plain one stays one, any other may be mapped to as many as eighteen.
pub open spec fn char_weight(c: char) -> nat {
    if is_plain(c) {
        1
    } else {
        18
    }
}

/// A character that the parser passes over between the colon of the scheme
/// and the authority: a slash or a backslash, or a tab or line break, which it
/// drops wherever they stand.
pub open spec fn is_lead(c: char) -> bool {
    c == '/' || c == '\\' || c == '\t' || c == '\n' || c == '\r'
}

/// A character that ends the authority.
pub open spec fn is_end(c: char) -> bool {
    c == '/' || c == '\\' || c == '?' || c == '#'
}

/// What follows the first colon of a text; nothing when it has no colon.
pub open spec fn after_colon(url: Seq<char>) -> Seq<char>
    decreases url.len(),
{
    if url.len() == 0 {
        url
    } else if url[0] == ':' {
        url.drop_first()
    } else {
        after_colon(url.drop_first())
    }
}

/// The text without the characters at its front that the parser passes over.
pub open spec fn skip_lead(url: Seq<char>) -> Seq<char>
    decreases url.len(),
{
    if url.len() == 0 || !is_lead(url[0]) {
        url
    } else {
        skip_lead(url.drop_first())
    }
}

/// The summed weight of the characters at the front of a text, up to the
/// first that ends an authority.
pub open spec fn run_weight(url: Seq<char>) -> nat
    decreases url.len(),
{
    if url.len() == 0 || is_end(url[0]) {
        0
    } else {
        char_weight(url[0]) + run_weight(url.drop_first())
    }
}

/// The weight of the authority of a text: of the run that starts after the
/// first colon and the characters that the parser passes over behind it, and
/// that ends before the next slash, backslash, question mark or hash. A host
/// can only be taken from that run, so no host label that the parser forms
/// has more code points than this. Path, query and fragment weigh nothing.
pub open spec fn authority_weight(url: Seq<char>) -> nat {
    run_weight(skip_lead(after_colon(url)))
}

/// Whether the authority of the text is light enough for the parser.
pub open spec fn url_fits(url: Seq<char>) -> bool {
    authority_weight(url) <= URL_WEIGHT_LIMIT
}

/// Whether the WebSocket client's builder takes the text as a URL.
pub uninterp spec fn url_parses(address: Seq<char>) -> bool;

/// Whether a channel can be opened for the text: its authority is light
/// enough, and the text parses. A text whose authority is too heavy is
/// unusable without being parsed.
pub open spec fn url_usable(url: Seq<char>) -> bool {
    url_fits(url) && url_parses(url)
}

/// Calls `websocket::ClientBuilder::new`, which parses the address with
/// `Url::parse` and fails exactly when that parse fails. The contract claims
/// only that the outcome is a function of the text.
///
/// The parse encodes each host label that is not ASCII as Punycode, with a
/// 32-bit counter that can pass its limit once a label has some 3855 code
/// points; where overflow is checked that aborts. The host is taken from the
/// authority, and a label has at most one code point for each plain character
/// of it and at most eighteen for each other one, so `requires` keeps every
/// label below that length.
#[verifier::external_body]
pub(crate) fn builder_accepts(address: &str) -> (accepted: bool)
    requires
        url_fits(address@),
    ensures
        accepted == url_parses(address@),
{
    websocket::ClientBuilder::new(address).is_ok()
}

/// Whether the authority of `url` is light enough for the parser.
pub fn fits(url: &str) -> (light: bool)
    ensures
        light == url_fits(url@),
{
    let mut chars = url.chars();
    let ghost mut rest: Seq<char> = url@;
    loop
        invariant_except_break
            after_colon(url@) == after_colon(rest),
        invariant
            chars.remaining() == rest,
        ensures
            after_colon(url@) == rest,
        decreases rest.len(),
    {
        match chars.next() {
            None => {
                return true;
            },
            Some(c) => {
                proof {
                    rest = rest.drop_first();
                }
                if c == ':' {
                    break ;
                }
            },
        }
    }
    let mut weight: usize = 0;
    loop
        invariant_except_break
            skip_lead(after_colon(url@)) == skip_lead(rest),
            weight == 0,
        invariant
            chars.remaining() == rest,
        ensures
            weight <= 18,
            authority_weight(url@) == weight + run_weight(rest),
        decreases rest.len(),
    {
        match chars.next() {
            None => {
                return true;
            },
            Some(c) => {
                proof {
                    rest = rest.drop_first();
                }
                if c == '/' || c == '\\' {
                    continue ;
                }
                if c == '\t' || c == '\n' || c == '\r' {
                    continue ;
                }
                if c == '?' || c == '#' {
                    return true;
                }
                weight = weight_of(c);
                break ;
            },
        }
    }
    loop
        invariant
            chars.remaining() == rest,
            weight <= URL_WEIGHT_LIMIT,
            authority_weight(url@) == weight + run_weight(rest),
        decreases rest.len(),
    {
        match chars.next() {
            None => {
                return true;
            },
            Some(c) => {
                proof {
                    rest = rest.drop_first();
                }
                if c == '/' || c == '\\' || c == '?' || c == '#' {
                    return true;
                }
                weight = weight + weight_of(c);
                if weight > URL_WEIGHT_LIMIT {
                    return false;
                }
            },
        }
    }
}

/// The weight of one character.
pub fn weight_of(c: char) -> (weight: usize)
    ensures
        weight == char_weight(c),
{
    if (c as u32) < 128 && c != '%' {
        1
    } else {
        18
    }
}

/// Whether a channel can be opened for `url`. Only a text whose authority is
/// light enough is parsed.
pub fn is_usable(url: &str) -> (ok: bool)
    ensures
        ok == url_usable(url@),
{
    fits(url) && builder_accepts(url)
}

/// Whether `url` starts with `wss`.
pub fn has_wss_prefix(url: &str) -> (secure: bool)
    ensures
        secure == is_secure_url(url@),
{
    if url.unicode_len() < 3 {
        return false;
    }
    let secure = url.get_char(0) == 'w' && url.get_char(1) == 's' && url.get_char(2) == 's';
    proof {
        let wss = seq!['w', 's', 's'];
        if secure {
            assert(wss =~= url@.subrange(0, 3));
        } else {
            assert(url@.subrange(0, 3)[0] == url@[0]);
            assert(url@.subrange(0, 3)[1] == url@[1]);
            assert(url@.subrange(0, 3)[2] == url@[2]);
        }
    }
    secure
}

/// The scheme of `url`.
pub fn scheme(url: &str) -> (scheme: Scheme)
    ensures
        scheme == scheme_of(url@),
{
    if has_wss_prefix(url) {
        Scheme::Wss
    } else {
        Scheme::Ws
    }
}

} // verus!
