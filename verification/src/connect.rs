//! Connection planning: from a destination and an encryption flag to a
//! transport plan.
//!
//! The connector opens a raw stream to the destination and, when encryption
//! is requested, layers TLS on top. The decisions — which transport variant
//! to build, what server identity to verify, which application protocol to
//! advertise — are made here over plain values; the I/O that carries them
//! out happens outside the crate.

use vstd::prelude::*;
use vstd::string::StrSliceExecFns;

use crate::config::TransportCLIConfig;

verus! {

/// The host portion of a `host[:port]` destination string: everything
/// before the first `:`, or the whole string when there is none.
pub open spec fn host_part(s: Seq<char>) -> Seq<char>
    decreases s.len(),
{
    if s.len() == 0 {
        s
    } else if s[0] == ':' {
        Seq::empty()
    } else {
        seq![s[0]].add(host_part(s.drop_first()))
    }
}

/// `host_part` is the prefix up to the first `:`: on a string whose first
/// `i` characters are colon-free and whose character `i`, if any, is a
/// colon, it is exactly the first `i` characters.
pub proof fn lemma_host_part_is_prefix(s: Seq<char>, i: int)
    requires
        0 <= i <= s.len(),
        forall|j: int| 0 <= j < i ==> s[j] != ':',
        i < s.len() ==> s[i] == ':',
    ensures
        host_part(s) == s.take(i),
    decreases s.len(),
{
    if s.len() == 0 {
        assert(host_part(s) == s.take(i));
    } else if s[0] == ':' {
        assert(i == 0);
        assert(host_part(s) =~= s.take(0));
    } else {
        assert(i >= 1);
        lemma_host_part_is_prefix(s.drop_first(), i - 1);
        assert(host_part(s) =~= s.take(i));
    }
}

/// Extract the host portion of a destination string (strip the port
/// suffix, if any).
pub fn strip_port(addr: &str) -> (h: String)
    ensures
        h@ == host_part(addr@),
{
    let len: usize = addr.unicode_len();
    let mut i: usize = 0;
    while i < len
        invariant
            0 <= i <= len,
            len == addr@.len(),
            forall|j: int| 0 <= j < i ==> addr@[j] != ':',
        decreases len - i,
    {
        if addr.get_char(i) == ':' {
            proof {
                lemma_host_part_is_prefix(addr@, i as int);
            }
            let h = addr.substring_char(0, i);
            assert(h@ == addr@.take(i as int));
            return h.to_owned();
        }
        i = i + 1;
    }
    proof {
        lemma_host_part_is_prefix(addr@, len as int);
        assert(addr@.take(len as int) =~= addr@);
    }
    addr.to_owned()
}

/// Whether `host_parses_as_server_name` accepts a host string as a valid
/// server identity for certificate verification.
pub uninterp spec fn server_name_ok(host: Seq<char>) -> bool;

/// Relies on `rustls::ServerName::try_from(&str)`: whether a host string is
/// a valid server identity (DNS name or IP address) is a function of the
/// string alone.
#[verifier::external_body]
fn host_parses_as_server_name(host: &str) -> (r: bool)
    ensures
        r == server_name_ok(host@),
{
    rustls::ServerName::try_from(host).is_ok()
}

/// Why a connection could not be established.
#[derive(Clone, Copy, Debug, PartialEq, Eq, Structural)]
pub enum ConnectError {
    /// Opening the raw connection failed.
    Network,
    /// The host portion of the destination is not a valid server identity.
    InvalidHost,
    /// The TLS handshake failed.
    TlsHandshake,
}

/// How to build the transport over an already-opened raw stream.
#[derive(Clone, Debug, PartialEq, Eq)]
pub enum ConnectPlan {
    /// Use the raw stream as-is.
    Plain,
    /// Layer TLS over the raw stream, verifying the certificate against
    /// `host` and advertising the multiplexed protocol's identifier.
    Tls { host: String },
}

/// The single application-layer protocol identifier advertised during TLS
/// negotiation: the two bytes of `"h2"`.
pub fn alpn_protocol() -> (v: Vec<u8>)
    ensures
        v@ == seq![104u8, 50u8],
{
    let v = vec![104u8, 50u8];
    assert(v@ =~= seq![104u8, 50u8]);
    v
}

/// Decide how the transport over `cfg.addr` is to be built: plain when
/// encryption is off; otherwise TLS against the host portion of the
/// destination, which must be a valid server identity.
pub fn plan_connection(cfg: &TransportCLIConfig) -> (r: Result<ConnectPlan, ConnectError>)
    ensures
        match r {
            Ok(p) => match p {
                ConnectPlan::Plain => !cfg.tls,
                ConnectPlan::Tls { host } => {
                    &&& cfg.tls
                    &&& host@ == host_part(cfg.addr@)
                    &&& server_name_ok(host@)
                },
            },
            Err(e) => {
                &&& cfg.tls
                &&& e == ConnectError::InvalidHost
                &&& !server_name_ok(host_part(cfg.addr@))
            },
        },
{
    if !cfg.tls {
        return Ok(ConnectPlan::Plain);
    }
    let host = strip_port(cfg.addr.as_str());
    if host_parses_as_server_name(host.as_str()) {
        Ok(ConnectPlan::Tls { host })
    } else {
        Err(ConnectError::InvalidHost)
    }
}

} // verus!
