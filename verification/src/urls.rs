//! The addresses of the RPC node: monikers, and the address of its websocket.

use crate::text::same_text;
use vstd::prelude::*;

verus! {

/// What of a URL decides whether a websocket address can be made of it.
pub struct UrlParts {
    pub scheme: String,
    pub has_host: bool,
    pub port: Option<u16>,
    pub path_begin: usize,
    pub path_end: usize,
    pub query_begin: usize,
    pub query_end: usize,
    pub fragment_begin: usize,
}

/// What of a URL decides whether a websocket address can be made of it: its scheme, whether it has
/// a host, the port where one other than that of the scheme is given, and behind how many bytes of
/// its normal form the path, the query and the fragment begin and the first two end. Where there is
/// no query or fragment, it begins where the part before it ends; else a mark stands between them.
pub struct UrlPartsView {
    pub scheme: Seq<char>,
    pub has_host: bool,
    pub port: Option<u16>,
    pub path_begin: nat,
    pub path_end: nat,
    pub query_begin: nat,
    pub query_end: nat,
    pub fragment_begin: nat,
}

impl View for UrlParts {
    type V = UrlPartsView;

    open spec fn view(&self) -> UrlPartsView {
        UrlPartsView {
            scheme: self.scheme@,
            has_host: self.has_host,
            port: self.port,
            path_begin: self.path_begin as nat,
            path_end: self.path_end as nat,
            query_begin: self.query_begin as nat,
            query_end: self.query_end as nat,
            fragment_begin: self.fragment_begin as nat,
        }
    }
}

/// Why a text is no URL.
#[verifier::external_type_specification]
#[verifier::external_body]
pub struct ExUrlParseError(url::ParseError);

/// The parts of the URL that `url::Url::parse` reads in a text, or `None` where it reads none.
pub uninterp spec fn parsed_url(text: Seq<char>) -> Option<UrlPartsView>;

/// The address that `solana_cli_config::Config::compute_websocket_url` makes of that of an RPC
/// node.
pub uninterp spec fn websocket_url_of(json_rpc_url: Seq<char>) -> Seq<char>;

/// The URL that a text stands for: that of a cluster where the text is a moniker of it, else the
/// text itself.
pub open spec fn normalized_url(url_or_moniker: Seq<char>) -> Seq<char> {
    if url_or_moniker == "m"@ || url_or_moniker == "mainnet-beta"@ {
        "https://api.mainnet-beta.solana.com"@
    } else if url_or_moniker == "t"@ || url_or_moniker == "testnet"@ {
        "https://api.testnet.solana.com"@
    } else if url_or_moniker == "d"@ || url_or_moniker == "devnet"@ {
        "https://api.devnet.solana.com"@
    } else if url_or_moniker == "l"@ || url_or_moniker == "localhost"@ {
        "http://localhost:8899"@
    } else {
        url_or_moniker
    }
}

/// Whether the scheme is one of those that can be exchanged for that of a websocket.
pub open spec fn is_exchangeable(scheme: Seq<char>) -> bool {
    ||| scheme == "http"@
    ||| scheme == "https"@
    ||| scheme == "ws"@
    ||| scheme == "wss"@
    ||| scheme == "ftp"@
    ||| scheme == "file"@
}

/// Whether a URL becomes longer when it becomes that of a websocket: where its scheme is not
/// exchanged for a shorter one and the next port has one digit more.
pub open spec fn becomes_longer(parts: UrlPartsView) -> bool {
    &&& parts.scheme == "ws"@
    &&& parts.port matches Some(port) && (port == 9 || port == 99 || port == 999 || port == 9999)
}

/// Whether the path and the marks of the query and of the fragment, where there are such, can stand
/// one byte further on: positions are numbers of 32 bits.
pub open spec fn has_room(parts: UrlPartsView) -> bool {
    &&& parts.path_begin < u32::MAX
    &&& parts.query_begin > parts.path_end ==> parts.path_end < u32::MAX
    &&& parts.fragment_begin > parts.query_end ==> parts.query_end < u32::MAX
}

/// Whether a text is one whose characters the parser of URLs can count: it does so in signed numbers
/// of 32 bits.
pub open spec fn is_countable(text: Seq<char>) -> bool {
    text.len() <= i32::MAX
}

/// Whether the address of a websocket can be made of that of an RPC node. The text must be countable.
/// Of one that is no URL the empty address is made. The scheme of a URL must be exchangeable and
/// there must be a host; the next port must exist; and a URL that becomes longer must have the room
/// for it.
pub open spec fn has_websocket_url(json_rpc_url: Seq<char>) -> bool {
    &&& is_countable(json_rpc_url)
    &&& parsed_url(json_rpc_url) matches Some(parts) ==> {
        &&& is_exchangeable(parts.scheme)
        &&& parts.has_host
        &&& parts.port != Some(u16::MAX)
        &&& becomes_longer(parts) ==> has_room(parts)
    }
}

/// The port after `port`, as the URL of a scheme with the given default port tells it: a default port
/// is left out.
pub open spec fn port_after(port: Option<u16>, default_port: u16) -> Option<u16> {
    match port {
        Some(port) => if port + 1 == default_port {
            None
        } else {
            Some((port + 1) as u16)
        },
        None => None,
    }
}

/// What holds of the address of a websocket that was made of that of an RPC node: it is empty where
/// the latter is no URL; else it begins with "wss" for an "https" address and with "ws" for any
/// other. Made of an "http" or "https" address, it is that of a host at the port after where it
/// reads as a URL. It need not: a host's name can be written out longer than it is read.
pub open spec fn is_websocket_of(websocket_url: Seq<char>, json_rpc_url: Seq<char>) -> bool {
    match parsed_url(json_rpc_url) {
        None => websocket_url.len() == 0,
        Some(parts) => if parts.scheme == "https"@ {
            &&& "wss:"@.is_prefix_of(websocket_url)
            &&& is_countable(websocket_url) ==> (parsed_url(websocket_url) matches Some(made)
                ==> made.scheme == "wss"@ && made.has_host && made.port == port_after(
                parts.port,
                443,
            ))
        } else {
            &&& "ws:"@.is_prefix_of(websocket_url)
            &&& parts.scheme == "http"@ && is_countable(websocket_url) ==> (parsed_url(
                websocket_url,
            ) matches Some(made)
                ==> made.scheme == "ws"@ && made.has_host && made.port == port_after(
                parts.port,
                80,
            ))
        },
    }
}

/// Calls `solana_clap_utils::input_validators::normalize_to_url_if_moniker`, which exchanges the
/// monikers of the clusters for their URLs and hands back any other text.
#[verifier::external_body]
fn normalize_to_url_if_moniker(url_or_moniker: &str) -> (url: String)
    ensures
        url@ == normalized_url(url_or_moniker@),
{
    solana_clap_utils::input_validators::normalize_to_url_if_moniker(url_or_moniker)
}

/// Calls `url::Url::parse` and reads the scheme, the presence of a host, the port and the positions
/// of the path, the query and the fragment of what it returns: whether it succeeds, and with which
/// URL, depends on the text alone. A text of more characters than a signed number of 32 bits counts
/// is left out: the parser counts the slashes behind the scheme, and the characters up to the path,
/// in numbers of 32 bits.
#[verifier::external_body]
fn parse_url(text: &str) -> (parsed: Result<UrlParts, url::ParseError>)
    requires
        is_countable(text@),
    ensures
        match parsed {
            Ok(parts) => parsed_url(text@) == Some(parts@),
            Err(_) => parsed_url(text@) is None,
        },
{
    url::Url::parse(text).map(|url| UrlParts {
        scheme: url.scheme().to_string(),
        has_host: url.has_host(),
        port: url.port(),
        path_begin: url[..url::Position::BeforePath].len(),
        path_end: url[..url::Position::AfterPath].len(),
        query_begin: url[..url::Position::BeforeQuery].len(),
        query_end: url[..url::Position::AfterQuery].len(),
        fragment_begin: url[..url::Position::BeforeFragment].len(),
    })
}

/// Calls `solana_cli_config::Config::compute_websocket_url`. It returns the empty text for what is
/// no URL. Else it exchanges the scheme, "https" for "wss" and any other for "ws", and adds one to
/// the port where one is given. It panics where the scheme cannot be exchanged, where the port has
/// no successor, and where a part of the URL would move past the last position of 32 bits; a text
/// that cannot be counted in 32 bits is left out as for `Url::parse`, which it calls. What it
/// returns is the normal form of a URL: where that reads as a URL again, it is one with the new
/// scheme, the host and the new port. That it does so is not claimed, because the encoded name of a
/// host can be longer than the parser takes. The rest of the text, the host's name and the path, is
/// only named.
#[verifier::external_body]
fn compute_websocket_url(json_rpc_url: &str) -> (websocket_url: String)
    requires
        has_websocket_url(json_rpc_url@),
    ensures
        websocket_url@ == websocket_url_of(json_rpc_url@),
        is_websocket_of(websocket_url@, json_rpc_url@),
{
    solana_cli_config::Config::compute_websocket_url(json_rpc_url)
}

/// The URL that a text stands for.
pub fn normalize_url(url_or_moniker: &str) -> (url: String)
    ensures
        url@ == normalized_url(url_or_moniker@),
{
    normalize_to_url_if_moniker(url_or_moniker)
}

/// Whether the scheme is one of those that can be exchanged for that of a websocket.
fn exchangeable(scheme: &str) -> (yes: bool)
    ensures
        yes == is_exchangeable(scheme@),
{
    same_text(scheme, "http") || same_text(scheme, "https") || same_text(scheme, "ws")
        || same_text(scheme, "wss") || same_text(scheme, "ftp") || same_text(scheme, "file")
}

/// Whether a URL becomes longer when it becomes that of a websocket.
fn longer(parts: &UrlParts) -> (yes: bool)
    ensures
        yes == becomes_longer(parts@),
{
    let one_digit_more = match parts.port {
        Some(port) => port == 9 || port == 99 || port == 999 || port == 9999,
        None => false,
    };
    one_digit_more && same_text(parts.scheme.as_str(), "ws")
}

/// Whether the path and the marks of the query and of the fragment can stand one byte further on.
fn roomy(parts: &UrlParts) -> (yes: bool)
    ensures
        yes == has_room(parts@),
{
    let limit: usize = 0xffff_ffff;
    parts.path_begin < limit && (parts.query_begin <= parts.path_end || parts.path_end < limit) && (
    parts.fragment_begin <= parts.query_end || parts.query_end < limit)
}

/// The address of the websocket that belongs to that of an RPC node, if one can be made of it.
pub fn websocket_url(json_rpc_url: &str) -> (websocket_url: Option<String>)
    ensures
        websocket_url is Some == has_websocket_url(json_rpc_url@),
        websocket_url matches Some(url) ==> url@ == websocket_url_of(json_rpc_url@),
        websocket_url matches Some(url) ==> is_websocket_of(url@, json_rpc_url@),
{
    if json_rpc_url.unicode_len() > 0x7fff_ffff {
        return None;
    }
    let possible = match parse_url(json_rpc_url) {
        Ok(parts) => {
            let next_port = match parts.port {
                Some(port) => port != u16::MAX,
                None => true,
            };
            exchangeable(parts.scheme.as_str()) && parts.has_host && next_port && (!longer(&parts)
                || roomy(&parts))
        },
        Err(_) => true,
    };
    if possible {
        Some(compute_websocket_url(json_rpc_url))
    } else {
        None
    }
}

/// The address of a websocket can be made of every text that is no URL, and of every URL of a host
/// under one of the schemes with a port after its own, if it does not have to become longer than can
/// be told; and of no other.
pub proof fn hosts_have_websockets(json_rpc_url: Seq<char>)
    requires
        json_rpc_url.len() <= 0x7fff_ffff,
    ensures
        parsed_url(json_rpc_url) is None ==> has_websocket_url(json_rpc_url),
        parsed_url(json_rpc_url) matches Some(parts) ==> {
            let known = parts.scheme == "http"@ || parts.scheme == "https"@ || parts.scheme == "ws"@
                || parts.scheme == "wss"@ || parts.scheme == "ftp"@ || parts.scheme == "file"@;
            let next_port = parts.port is None || parts.port->Some_0 < 0xffff;
            &&& has_websocket_url(json_rpc_url) ==> known && parts.has_host && next_port
            &&& known && parts.scheme != "ws"@ && parts.has_host && next_port
                ==> has_websocket_url(json_rpc_url)
            &&& parts.scheme == "ws"@ && parts.has_host && next_port && parts.path_begin
                < 0xffff_ffff && parts.path_end < 0xffff_ffff && parts.query_end < 0xffff_ffff
                ==> has_websocket_url(json_rpc_url)
            &&& parts.scheme == "ws"@ && parts.has_host && (parts.port is None || (
            parts.port->Some_0 < 0xffff && (parts.port->Some_0 + 1) % 10 != 0))
                ==> has_websocket_url(json_rpc_url)
        },
{
}

} // verus!
