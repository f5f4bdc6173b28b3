use crate::error::Error;
use vstd::prelude::*;

verus! {

#[verifier::external_type_specification]
#[verifier::external_body]
pub struct ExParseError(url::ParseError);

/// What `url::Url::query_pairs` yields for the URL that `url::Url::parse` reads
/// from a text: `None` when the text is not an absolute URL, else the decoded
/// name/value pairs of its query, in order.
pub uninterp spec fn query_pairs_of(s: Seq<char>) -> Option<Seq<(Seq<char>, Seq<char>)>>;

/// What `url::Url::host_str`, `url::Url::path` and `url::Url::fragment` give for
/// the URL that `url::Url::parse` reads from a text, or `None` when it reads none.
/// `parse_url` hands all three back.
pub uninterp spec fn url_parts_of(s: Seq<char>) -> Option<(Option<Seq<char>>, Seq<char>, Option<Seq<char>>)>;

/// What `url::Url::as_str` gives for the URL that `url::Url::parse` reads from a
/// text (its normalized serialization), or `None` when it reads none. `parse_url`
/// hands it back.
pub uninterp spec fn serialization_of(s: Seq<char>) -> Option<Seq<char>>;

/// The serialization of the URL that `url::Url::parse` reads from a text after
/// `url::Url::query_pairs_mut().append_pair(name, value)`, or `None` when the text
/// is no URL.
pub uninterp spec fn appended_of(s: Seq<char>, name: Seq<char>, value: Seq<char>) -> Option<Seq<char>>;

/// What `url::Url::set_scheme(scheme)` makes of the URL that `url::Url::parse`
/// reads from a text: `None` when the text is no URL, `Some(None)` when the change
/// is refused, else `Some(Some(t))` with `t` the new serialization.
pub uninterp spec fn scheme_set_of(s: Seq<char>, scheme: Seq<char>) -> Option<Option<Seq<char>>>;

/// The name of the query parameter that identifies the transport kind.
pub open spec fn marker_name() -> Seq<char> {
    seq!['t', 'r', 'a', 'n', 's', 'p', 'o', 'r', 't']
}

/// The value of that parameter for this transport.
pub open spec fn marker_value() -> Seq<char> {
    seq!['w', 'e', 'b', 's', 'o', 'c', 'k', 'e', 't']
}

/// The query pair that marks an address as one of this transport.
pub open spec fn marker() -> (Seq<char>, Seq<char>) {
    (marker_name(), marker_value())
}

/// The scheme of the unencrypted socket channel.
pub open spec fn socket_scheme() -> Seq<char> {
    seq!['w', 's']
}

/// A URL text whose scheme is `scheme`: it starts with the scheme and a colon.
pub open spec fn has_scheme(s: Seq<char>, scheme: Seq<char>) -> bool {
    &&& s.len() > scheme.len()
    &&& s.subrange(0, scheme.len() as int) == scheme
    &&& s[scheme.len() as int] == ':'
}

/// The web schemes, which `url` counts as special and gives a host.
pub open spec fn web_scheme_name(p: Seq<char>) -> bool {
    ||| p == seq!['h', 't', 't', 'p']
    ||| p == seq!['h', 't', 't', 'p', 's']
    ||| p == socket_scheme()
    ||| p == seq!['w', 's', 's']
}

/// All the schemes that `url` counts as special.
pub open spec fn special_name(p: Seq<char>) -> bool {
    ||| web_scheme_name(p)
    ||| p == seq!['f', 't', 'p']
    ||| p == seq!['f', 'i', 'l', 'e']
}

/// A URL text that starts with a web scheme: `http:`, `https:`, `ws:` or `wss:`.
pub open spec fn special_scheme(s: Seq<char>) -> bool {
    ||| has_scheme(s, seq!['h', 't', 't', 'p'])
    ||| has_scheme(s, seq!['h', 't', 't', 'p', 's'])
    ||| has_scheme(s, socket_scheme())
    ||| has_scheme(s, seq!['w', 's', 's'])
}

/// A URL text that starts with a scheme of lower-case letters that `url` does not
/// count as special (`mailto:`, `foo:`).
pub open spec fn non_special_scheme(s: Seq<char>) -> bool {
    exists|i: int|
        0 < i < s.len() && #[trigger] s[i] == ':' && plain_scheme(s.subrange(0, i))
            && !special_name(s.subrange(0, i))
}

/// A text that `url` reads as a URL under a web scheme, whatever the case of the
/// scheme's letters.
pub open spec fn web_url(s: Seq<char>) -> bool {
    serialization_of(s) is Some && special_scheme(serialization_of(s).unwrap())
}

/// A text that `url` reads as a URL under a scheme of letters that is not special.
pub open spec fn plain_url(s: Seq<char>) -> bool {
    serialization_of(s) is Some && non_special_scheme(serialization_of(s).unwrap())
}

/// The text whose scheme is switched: the input itself where its query holds the
/// marker, else the input with the marker appended.
pub open spec fn marked_text(url: Seq<char>) -> Option<Seq<char>> {
    match query_pairs_of(url) {
        None => None,
        Some(pairs) => if has_marker(pairs) {
            Some(url)
        } else {
            appended_of(url, marker_name(), marker_value())
        },
    }
}

/// The address that a URL text is rewritten to: `None` when it is no URL,
/// `Some(None)` when its scheme cannot become the socket scheme.
pub open spec fn rewritten(url: Seq<char>) -> Option<Option<Seq<char>>> {
    match marked_text(url) {
        None => None,
        Some(m) => scheme_set_of(m, socket_scheme()),
    }
}

/// A scheme as `url::Url::set_scheme` takes it unchanged: lower-case ASCII letters.
pub open spec fn plain_scheme(scheme: Seq<char>) -> bool {
    &&& scheme.len() > 0
    &&& forall|i: int| 0 <= i < scheme.len() ==> 'a' <= #[trigger] scheme[i] <= 'z'
}

/// The pairs as plain sequences of characters.
pub open spec fn pairs_view(v: Seq<(String, String)>) -> Seq<(Seq<char>, Seq<char>)> {
    v.map_values(|p: (String, String)| (p.0@, p.1@))
}

/// Whether some pair of the query is the transport marker.
pub open spec fn has_marker(pairs: Seq<(Seq<char>, Seq<char>)>) -> bool {
    exists|i: int| 0 <= i < pairs.len() && #[trigger] pairs[i] == marker()
}

/// How many pairs of the query are the transport marker.
pub open spec fn marker_count(pairs: Seq<(Seq<char>, Seq<char>)>) -> nat
    decreases pairs.len(),
{
    if pairs.len() == 0 {
        0
    } else {
        marker_count(pairs.drop_last()) + if pairs.last() == marker() {
            1nat
        } else {
            0nat
        }
    }
}

/// The query of a rewritten address: the marker is appended only where it is absent.
pub open spec fn with_marker(pairs: Seq<(Seq<char>, Seq<char>)>) -> Seq<(Seq<char>, Seq<char>)> {
    if has_marker(pairs) {
        pairs
    } else {
        pairs.push(marker())
    }
}

/// An address as this transport keeps it: a URL with the socket scheme whose
/// query carries the transport marker.
pub open spec fn is_socket_address(s: Seq<char>) -> bool {
    &&& has_scheme(s, socket_scheme())
    &&& query_pairs_of(s) is Some
    &&& has_marker(query_pairs_of(s).unwrap())
}

/// The parts of a parsed URL that the address logic reads.
pub struct ParsedUrl {
    pub serialization: String,
    pub host: Option<String>,
    pub path: String,
    pub fragment: Option<String>,
    pub pairs: Vec<(String, String)>,
}

/// Relies on `url::Url::parse`, then `url::Url::as_str`, `url::Url::host_str`,
/// `url::Url::path`, `url::Url::fragment` and `url::Url::query_pairs` (the decoded
/// pairs of the query, in order) on the URL read.
#[verifier::external_body]
fn parse_url(s: &str) -> (r: Result<ParsedUrl, url::ParseError>)
    ensures
        match r {
            Ok(u) => query_pairs_of(s@) == Some(pairs_view(u.pairs@)) && serialization_of(s@)
                == Some(u.serialization@) && url_parts_of(s@) == Some(
                (opt_view(u.host), u.path@, opt_view(u.fragment)),
            ),
            Err(_) => query_pairs_of(s@) is None && serialization_of(s@) is None && url_parts_of(
                s@,
            ) is None,
        },
{
    let url = url::Url::parse(s)?;
    Ok(ParsedUrl {
        serialization: url.as_str().to_owned(),
        host: url.host_str().map(|h| h.to_owned()),
        path: url.path().to_owned(),
        fragment: url.fragment().map(|f| f.to_owned()),
        pairs: url.query_pairs().map(|(k, v)| (k.into_owned(), v.into_owned())).collect(),
    })
}

/// Relies on `url::form_urlencoded::Serializer::append_pair`, reached through
/// `url::Url::query_pairs_mut`: the pair is encoded and added after the existing
/// query, so that the serialization, parsed again, decodes to the old pairs and
/// then this one. The fragment is taken off and put back after the query; scheme,
/// host and path stay. The result is a serialization, which parses back to itself
/// (`url::Url::check_invariants` asserts this of every URL), and it starts with the
/// scheme of the parsed input's serialization.
#[verifier::external_body]
fn append_query_pair(s: &str, name: &str, value: &str) -> (r: Result<String, url::ParseError>)
    ensures
        match r {
            Ok(t) => appended_of(s@, name@, value@) == Some(t@),
            Err(_) => appended_of(s@, name@, value@) is None,
        },
        match query_pairs_of(s@) {
            Some(pairs) => r is Ok && query_pairs_of(r->Ok_0@) == Some(
                pairs.push((name@, value@)),
            ) && url_parts_of(r->Ok_0@) == url_parts_of(s@) && serialization_of(r->Ok_0@)
                == Some(r->Ok_0@) && (web_url(s@) ==> special_scheme(r->Ok_0@)) && (plain_url(
                s@,
            ) ==> non_special_scheme(r->Ok_0@)),
            None => r is Err,
        },
{
    let mut url = url::Url::parse(s)?;
    url.query_pairs_mut().append_pair(name, value);
    Ok(url.into())
}

/// Relies on `url::Url::set_scheme`: it may refuse the change (`Ok(None)`); when it
/// makes it, the serialization starts with the new scheme and a colon, and the
/// rest of the URL, its host, path, query and fragment included, is kept. The
/// result is a serialization, which parses back to itself. Between two special
/// schemes other than `file` the change is refused only where there is no host,
/// and every parsed web URL has one; from a scheme that is not special to one that
/// is, it is always refused. Setting the scheme that a serialization already has
/// changes nothing: the port that `set_port` puts back is not the default one.
#[verifier::external_body]
fn set_url_scheme(s: &str, scheme: &str) -> (r: Result<Option<String>, url::ParseError>)
    requires
        plain_scheme(scheme@),
    ensures
        match r {
            Ok(Some(t)) => scheme_set_of(s@, scheme@) == Some(Some(t@)),
            Ok(None) => scheme_set_of(s@, scheme@) == Some(None::<Seq<char>>),
            Err(_) => scheme_set_of(s@, scheme@) is None,
        },
        match query_pairs_of(s@) {
            Some(pairs) => r is Ok && (r->Ok_0 matches Some(t) ==> has_scheme(t@, scheme@)
                && query_pairs_of(t@) == Some(pairs) && url_parts_of(t@) == url_parts_of(s@)
                && serialization_of(t@) == Some(t@)) && (web_url(s@) && web_scheme_name(scheme@)
                ==> r->Ok_0 is Some) && (plain_url(s@) && special_name(scheme@) ==> r->Ok_0 is None) && (serialization_of(s@) == Some(s@) && has_scheme(
                s@,
                scheme@,
            ) && web_scheme_name(scheme@) ==> r->Ok_0 is Some && r->Ok_0->Some_0@ == s@),
            None => r is Err,
        },
{
    let mut url = url::Url::parse(s)?;
    match url.set_scheme(scheme) {
        Ok(()) => Ok(Some(url.into())),
        Err(()) => Ok(None),
    }
}

/// An optional text as plain characters.
pub open spec fn opt_view(t: Option<String>) -> Option<Seq<char>> {
    match t {
        Some(x) => Some(x@),
        None => None,
    }
}

/// Whether the marker is among `pairs`.
fn contains_marker(pairs: &Vec<(String, String)>) -> (r: bool)
    ensures
        r == has_marker(pairs_view(pairs@)),
{
    let name = "transport".to_owned();
    let value = "websocket".to_owned();
    proof {
        reveal_strlit("transport");
        reveal_strlit("websocket");
        assert(name@ == marker_name());
        assert(value@ == marker_value());
    }
    let ghost view = pairs_view(pairs@);
    let mut i: usize = 0;
    while i < pairs.len()
        invariant
            i <= pairs@.len(),
            view == pairs_view(pairs@),
            name@ == marker_name(),
            value@ == marker_value(),
            forall|j: int| 0 <= j < i ==> view[j] != marker(),
        decreases pairs@.len() - i,
    {
        let pair = &pairs[i];
        if pair.0 == name && pair.1 == value {
            assert(view[i as int] == marker());
            return true;
        }
        i += 1;
    }
    false
}

/// Rewrites a URL text into this transport's address: the transport marker is
/// added to the query unless it is already there, and the scheme becomes the
/// unencrypted socket scheme.
pub fn rewrite_address(url: &str) -> (r: Result<String, Error>)
    ensures
        match rewritten(url@) {
            None => r == Err::<String, Error>(Error::InvalidUrl),
            Some(None) => r == Err::<String, Error>(Error::UnsupportedScheme),
            Some(Some(t)) => r is Ok && r->Ok_0@ == t,
        },
        query_pairs_of(url@) is None <==> r == Err::<String, Error>(Error::InvalidUrl),
        r matches Ok(t) ==> has_scheme(t@, socket_scheme()) && query_pairs_of(t@) == Some(
            with_marker(query_pairs_of(url@).unwrap()),
        ) && url_parts_of(t@) == url_parts_of(url@) && serialization_of(t@) == Some(t@),
        web_url(url@) ==> r is Ok,
        plain_url(url@) ==> r == Err::<String, Error>(Error::UnsupportedScheme),
        serialization_of(url@) == Some(url@) && has_scheme(url@, socket_scheme())
            && query_pairs_of(url@) is Some && has_marker(query_pairs_of(url@).unwrap()) ==> r is Ok
            && r->Ok_0@ == url@,
{
    let parsed = match parse_url(url) {
        Ok(parsed) => parsed,
        Err(_) => return Err(Error::InvalidUrl),
    };
    let pairs = parsed.pairs;
    let marked = if contains_marker(&pairs) {
        url.to_owned()
    } else {
        match append_query_pair(url, "transport", "websocket") {
            Ok(t) => t,
            Err(_) => return Err(Error::InvalidUrl),
        }
    };
    proof {
        reveal_strlit("transport");
        reveal_strlit("websocket");
        reveal_strlit("ws");
        assert("ws"@ == socket_scheme());
        assert(web_scheme_name("ws"@));
        assert(special_name("ws"@));
        assert("transport"@ == marker_name());
        assert("websocket"@ == marker_value());
        assert(query_pairs_of(marked@) == Some(with_marker(pairs_view(pairs@))));
    }
    match set_url_scheme(marked.as_str(), "ws") {
        Ok(Some(t)) => Ok(t),
        Ok(None) => Err(Error::UnsupportedScheme),
        Err(_) => Err(Error::InvalidUrl),
    }
}

/// Adding the marker to a query that holds it at most once leaves it there
/// exactly once.
pub proof fn lemma_marker_exactly_once(pairs: Seq<(Seq<char>, Seq<char>)>)
    requires
        marker_count(pairs) <= 1,
    ensures
        marker_count(with_marker(pairs)) == 1,
{
    lemma_count_zero_without_marker(pairs);
    if !has_marker(pairs) {
        assert(with_marker(pairs).drop_last() == pairs);
    }
}

/// Rewriting a rewritten query changes nothing: the marker is never doubled.
pub proof fn lemma_rewrite_idempotent(pairs: Seq<(Seq<char>, Seq<char>)>)
    ensures
        with_marker(with_marker(pairs)) == with_marker(pairs),
        has_marker(with_marker(pairs)),
{
    if !has_marker(pairs) {
        let last = (pairs.len()) as int;
        assert(pairs.push(marker())[last] == marker());
    }
}

/// The count of markers is zero exactly when no pair is the marker.
proof fn lemma_count_zero_without_marker(pairs: Seq<(Seq<char>, Seq<char>)>)
    ensures
        (marker_count(pairs) == 0) == !has_marker(pairs),
    decreases pairs.len(),
{
    if pairs.len() > 0 {
        let init = pairs.drop_last();
        lemma_count_zero_without_marker(init);
        if has_marker(init) {
            let i = choose|i: int| 0 <= i < init.len() && #[trigger] init[i] == marker();
            assert(pairs[i] == marker());
        }
        if has_marker(pairs) && pairs.last() != marker() {
            let i = choose|i: int| 0 <= i < pairs.len() && #[trigger] pairs[i] == marker();
            assert(init[i] == marker());
        }
    }
}

} // verus!
