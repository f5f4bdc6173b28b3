use crate::address::{
    has_marker, has_scheme, is_socket_address, plain_url, rewritten, serialization_of, url_parts_of,
    web_url, lemma_marker_exactly_once, lemma_rewrite_idempotent, marker_count,
    query_pairs_of, rewrite_address, socket_scheme, with_marker,
};
use crate::error::Error;
use vstd::prelude::*;

verus! {

/// The state of a socket transport that lives apart from its channel: the
/// address it is bound to.
pub struct WebsocketTransport {
    base_url: String,
}

impl View for WebsocketTransport {
    type V = Seq<char>;

    closed spec fn view(&self) -> Seq<char> {
        self.base_url@
    }
}

/// The address that an input URL text is rewritten to, if any: exactly what
/// `url` makes of it, a serialization under the socket scheme with the input's
/// host, path and fragment, and its query with the marker.
pub open spec fn rewrites_to(input: Seq<char>, address: Seq<char>) -> bool {
    &&& rewritten(input) == Some(Some(address))
    &&& query_pairs_of(input) is Some
    &&& is_socket_address(address)
    &&& query_pairs_of(address) == Some(with_marker(query_pairs_of(input).unwrap()))
    &&& url_parts_of(address) == url_parts_of(input)
    &&& serialization_of(address) == Some(address)
}

impl WebsocketTransport {
    /// The address always has the socket scheme, carries the marker, and is the
    /// serialization of the URL it holds.
    pub open spec fn wf(&self) -> bool {
        &&& is_socket_address(self@)
        &&& serialization_of(self@) == Some(self@)
    }

    /// Binds a transport to `base_url`, rewritten as this transport's address.
    /// Fails with `InvalidUrl` exactly when the text is not an absolute URL; an
    /// http, https, ws or wss URL is always taken, one under a scheme that is not
    /// special never.
    pub fn new(base_url: &str) -> (r: Result<Self, Error>)
        ensures
            query_pairs_of(base_url@) is None <==> r == Err::<Self, Error>(Error::InvalidUrl),
            rewritten(base_url@) == Some(None::<Seq<char>>) <==> r == Err::<Self, Error>(
                Error::UnsupportedScheme,
            ),
            web_url(base_url@) ==> r is Ok,
            plain_url(base_url@) ==> r
                == Err::<Self, Error>(Error::UnsupportedScheme),
            match r {
                Ok(t) => t.wf() && rewrites_to(base_url@, t@),
                Err(e) => e == Error::InvalidUrl || e == Error::UnsupportedScheme,
            },
    {
        let address = rewrite_address(base_url)?;
        proof {
            lemma_rewrite_idempotent(query_pairs_of(base_url@).unwrap());
        }
        Ok(WebsocketTransport { base_url: address })
    }

    /// The current address.
    pub fn base_url(&self) -> (r: String)
        ensures
            r@ == self@,
    {
        self.base_url.clone()
    }

    /// Rebinds the transport to `url`, rewritten as in `new`; on failure the
    /// address stays as it was. An http, https, ws or wss URL is always taken, one
    /// under a scheme that is not special never, and setting the current address
    /// again changes nothing.
    pub fn set_base_url(&mut self, url: &str) -> (r: Result<(), Error>)
        requires
            old(self).wf(),
        ensures
            final(self).wf(),
            query_pairs_of(url@) is None <==> r == Err::<(), Error>(Error::InvalidUrl),
            rewritten(url@) == Some(None::<Seq<char>>) <==> r == Err::<(), Error>(
                Error::UnsupportedScheme,
            ),
            web_url(url@) ==> r is Ok,
            plain_url(url@) ==> r == Err::<(), Error>(
                Error::UnsupportedScheme,
            ),
            url@ == old(self)@ ==> r is Ok && final(self)@ == old(self)@,
            match r {
                Ok(()) => rewrites_to(url@, final(self)@),
                Err(e) => final(self)@ == old(self)@ && (e == Error::InvalidUrl || e
                    == Error::UnsupportedScheme),
            },
    {
        let address = rewrite_address(url)?;
        proof {
            lemma_rewrite_idempotent(query_pairs_of(url@).unwrap());
        }
        self.base_url = address;
        Ok(())
    }
}

/// Whatever the input's scheme, a rewritten address has the socket scheme, and
/// its query holds the marker exactly once when the input held it at most once.
pub proof fn lemma_address_marker_once(input: Seq<char>, address: Seq<char>)
    requires
        rewrites_to(input, address),
        marker_count(query_pairs_of(input).unwrap()) <= 1,
    ensures
        has_scheme(address, socket_scheme()),
        marker_count(query_pairs_of(address).unwrap()) == 1,
{
    lemma_marker_exactly_once(query_pairs_of(input).unwrap());
}

/// Rewriting an address that was rewritten already keeps its query as it is.
pub proof fn lemma_rewrite_stable(input: Seq<char>, first: Seq<char>, second: Seq<char>)
    requires
        rewrites_to(input, first),
        rewrites_to(first, second),
    ensures
        query_pairs_of(second) == query_pairs_of(first),
        has_scheme(second, socket_scheme()),
{
    lemma_rewrite_idempotent(query_pairs_of(input).unwrap());
}

} // verus!
