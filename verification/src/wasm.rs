//! Links of a browser.
use vstd::prelude::*;
use vstd::string::StringExecFns;

use crate::endpoint::Endpoint;
use crate::error::LinkError;
use crate::text::same_text;

verus! {

/// The URL that `text` spells, in its normal form, if it is one.
pub uninterp spec fn url_of(text: Seq<char>) -> Option<Seq<char>>;

/// Parses `text` by the `FromStr` of `url::Url` and writes the URL out again.
///
/// That the result is a function of `text` alone is believed; nothing else is said of it.
#[verifier::external_body]
fn parse_url(text: &str) -> (url: Option<String>)
    ensures
        match url {
            Some(url) => url_of(text@) == Some(url@),
            None => url_of(text@) is None,
        },
{
    match text.parse::<url::Url>() {
        Ok(url) => Some(String::from(url)),
        Err(_) => None,
    }
}

/// The protocol is one that a browser can open a link over.
///
/// The two are not interchangeable: a page that came over a secure connection cannot open a plain
/// socket at all.
pub open spec fn is_websocket(protocol: Seq<char>) -> bool {
    protocol == "ws"@ || protocol == "wss"@
}

/// The text of the URL of a socket.
pub open spec fn socket_text(protocol: Seq<char>, address: Seq<char>) -> Seq<char> {
    protocol + "://"@ + address
}

/// Opens the links of a browser.
#[derive(Clone, Copy, Debug)]
pub struct WasmLinkManager;

/// A link of a browser over a socket that `S` stands for.
#[derive(Debug)]
pub enum WasmLink<S> {
    Ws(S),
}

/// The sending half of a [`WasmLink`].
#[derive(Debug)]
pub enum WasmLinkTx<S> {
    Ws(S),
}

/// The receiving half of a [`WasmLink`].
#[derive(Debug)]
pub enum WasmLinkRx<S> {
    Ws(S),
}

impl WasmLinkManager {
    /// The text of the URL of the socket for `endpoint`.
    ///
    /// The address is passed on as written: a browser resolves the host itself.
    pub fn socket_url(&self, endpoint: Endpoint<'_>) -> (url: Result<String, LinkError>)
        ensures
            url is Ok <==> is_websocket(endpoint@.protocol),
            url matches Ok(url) ==> url@ == socket_text(endpoint@.protocol, endpoint@.address),
            url matches Err(error) ==> error == LinkError::CouldNotParseProtocol,
    {
        let protocol: &str = endpoint.protocol();
        if !same_text(protocol, "ws") && !same_text(protocol, "wss") {
            return Err(LinkError::CouldNotParseProtocol);
        }
        let mut url: String = protocol.to_owned();
        url.append("://");
        url.append(endpoint.address());
        Ok(url)
    }

    /// The URL of the socket to connect for `endpoint`.
    pub fn connect(&self, endpoint: Endpoint<'_>) -> (url: Result<String, LinkError>)
        ensures
            url is Ok <==> is_websocket(endpoint@.protocol) && url_of(
                socket_text(endpoint@.protocol, endpoint@.address),
            ) is Some,
            url matches Ok(url) ==> url_of(socket_text(endpoint@.protocol, endpoint@.address))
                == Some(url@),
            url matches Err(error) ==> error == if is_websocket(endpoint@.protocol) {
                LinkError::CouldNotConnect
            } else {
                LinkError::CouldNotParseProtocol
            },
    {
        match self.socket_url(endpoint) {
            Ok(text) => self.target(parse_url(text.as_str())),
            Err(error) => Err(error),
        }
    }

    /// The socket to connect, given the URL that the text of the endpoint spells.
    pub fn target(&self, url: Option<String>) -> (target: Result<String, LinkError>)
        ensures
            match url {
                Some(url) => target == Ok::<String, LinkError>(url),
                None => target == Err::<String, LinkError>(LinkError::CouldNotConnect),
            },
    {
        match url {
            Some(url) => Ok(url),
            None => Err(LinkError::CouldNotConnect),
        }
    }

    /// A browser cannot listen.
    pub fn listen(&self, _endpoint: Endpoint<'_>) -> (error: LinkError)
        ensures
            error == LinkError::CouldNotListen,
    {
        LinkError::CouldNotListen
    }
}

/// A browser opens links over the two protocols of sockets and over no other, at the address as it
/// is written, after the protocol and `://`.
pub proof fn law_sockets_are_addressed_as_written(protocol: Seq<char>, address: Seq<char>)
    ensures
        is_websocket(protocol) <==> protocol == seq!['w', 's'] || protocol == seq!['w', 's', 's'],
        socket_text(protocol, address) == protocol + seq![':', '/', '/'] + address,
{
    reveal_strlit("ws");
    reveal_strlit("wss");
    reveal_strlit("://");
    assert("ws"@ == seq!['w', 's']);
    assert("wss"@ == seq!['w', 's', 's']);
    assert("://"@ == seq![':', '/', '/']);
}

} // verus!
