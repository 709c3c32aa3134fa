//! The network type tag and the rule that infers it.

use vstd::prelude::*;
use crate::error::Error;
use crate::ip::IpAddr;
use crate::text::{lowercase, same_text, starts_with, to_lowercase};

verus! {

/// Short label of the UDP transports.
pub const UDP: &'static str = "udp";

/// Short label of the TCP transports.
pub const TCP: &'static str = "tcp";

/// Short label of the QUIC transports.
pub const QUIC: &'static str = "quic";

/// Represents the type of network.
#[derive(PartialEq, Eq, Structural, Debug, Copy, Clone, Hash)]
pub enum NetworkType {
    /// No transport or family is known.
    Unspecified,
    /// Indicates UDP over IPv4.
    Udp4,
    /// Indicates UDP over IPv6.
    Udp6,
    /// Indicates TCP over IPv4.
    Tcp4,
    /// Indicates TCP over IPv6.
    Tcp6,
    /// Indicates QUIC over IPv4.
    Quic4,
    /// Indicates QUIC over IPv6.
    Quic6,
}

impl NetworkType {
    /// The tag stands for UDP, over either address family.
    pub open spec fn spec_is_udp(self) -> bool {
        self is Udp4 || self is Udp6
    }

    /// The tag stands for TCP, over either address family.
    pub open spec fn spec_is_tcp(self) -> bool {
        self is Tcp4 || self is Tcp6
    }

    /// The tag stands for QUIC, over either address family.
    pub open spec fn spec_is_quic(self) -> bool {
        self is Quic4 || self is Quic6
    }

    /// The tag stands for a transport that delivers in order and without
    /// loss: TCP and, by the policy of this crate, QUIC.
    pub open spec fn spec_is_reliable(self) -> bool {
        self is Tcp4 || self is Tcp6 || self is Quic4 || self is Quic6
    }

    /// The tag stands for a transport over IPv4.
    pub open spec fn spec_is_ipv4(self) -> bool {
        self is Udp4 || self is Tcp4 || self is Quic4
    }

    /// The tag stands for a transport over IPv6.
    pub open spec fn spec_is_ipv6(self) -> bool {
        self is Udp6 || self is Tcp6 || self is Quic6
    }

    /// The short label of the tag's transport. The label of `Unspecified`
    /// starts with a capital letter, the others do not.
    pub open spec fn short_text(self) -> Seq<char> {
        match self {
            NetworkType::Udp4 | NetworkType::Udp6 => UDP@,
            NetworkType::Tcp4 | NetworkType::Tcp6 => TCP@,
            NetworkType::Quic4 | NetworkType::Quic6 => QUIC@,
            NetworkType::Unspecified => "Unspecified"@,
        }
    }

    /// The token that stands for the tag wherever it is written out.
    pub open spec fn text(self) -> Seq<char> {
        match self {
            NetworkType::Unspecified => "unspecified"@,
            NetworkType::Udp4 => "udp4"@,
            NetworkType::Udp6 => "udp6"@,
            NetworkType::Tcp4 => "tcp4"@,
            NetworkType::Tcp6 => "tcp6"@,
            NetworkType::Quic4 => "quic4"@,
            NetworkType::Quic6 => "quic6"@,
        }
    }

    /// The tag that a token stands for, if it is the token of any.
    pub open spec fn parse(token: Seq<char>) -> Option<NetworkType> {
        if token == "unspecified"@ {
            Some(NetworkType::Unspecified)
        } else if token == "udp4"@ {
            Some(NetworkType::Udp4)
        } else if token == "udp6"@ {
            Some(NetworkType::Udp6)
        } else if token == "tcp4"@ {
            Some(NetworkType::Tcp4)
        } else if token == "tcp6"@ {
            Some(NetworkType::Tcp6)
        } else if token == "quic4"@ {
            Some(NetworkType::Quic4)
        } else if token == "quic6"@ {
            Some(NetworkType::Quic6)
        } else {
            None
        }
    }

    /// Returns true when network is UDP4 or UDP6.
    #[must_use]
    #[verifier::when_used_as_spec(spec_is_udp)]
    pub fn is_udp(self) -> (r: bool)
        ensures
            r == self.spec_is_udp(),
    {
        self == Self::Udp4 || self == Self::Udp6
    }

    /// Returns true when network is TCP4 or TCP6.
    #[must_use]
    #[verifier::when_used_as_spec(spec_is_tcp)]
    pub fn is_tcp(self) -> (r: bool)
        ensures
            r == self.spec_is_tcp(),
    {
        self == Self::Tcp4 || self == Self::Tcp6
    }

    /// Returns true when network is QUIC4 or QUIC6.
    #[must_use]
    #[verifier::when_used_as_spec(spec_is_quic)]
    pub fn is_quic(self) -> (r: bool)
        ensures
            r == self.spec_is_quic(),
    {
        self == Self::Quic4 || self == Self::Quic6
    }

    /// Returns the short network description.
    #[must_use]
    pub fn network_short(self) -> (s: String)
        ensures
            s@ == self.short_text(),
    {
        match self {
            Self::Udp4 | Self::Udp6 => UDP.to_owned(),
            Self::Tcp4 | Self::Tcp6 => TCP.to_owned(),
            Self::Quic4 | Self::Quic6 => QUIC.to_owned(),
            Self::Unspecified => "Unspecified".to_owned(),
        }
    }

    /// Returns true if the network is reliable.
    #[must_use]
    #[verifier::when_used_as_spec(spec_is_reliable)]
    pub fn is_reliable(self) -> (r: bool)
        ensures
            r == self.spec_is_reliable(),
    {
        match self {
            Self::Tcp4 | Self::Tcp6 => true,
            Self::Udp4 | Self::Udp6 | Self::Unspecified => false,
            Self::Quic4 | Self::Quic6 => true,
        }
    }

    /// Returns whether the network type is IPv4 or not.
    #[must_use]
    #[verifier::when_used_as_spec(spec_is_ipv4)]
    pub fn is_ipv4(self) -> (r: bool)
        ensures
            r == self.spec_is_ipv4(),
    {
        match self {
            Self::Udp4 | Self::Tcp4 | Self::Quic4 => true,
            Self::Udp6 | Self::Tcp6 | Self::Quic6 | Self::Unspecified => false,
        }
    }

    /// Returns whether the network type is IPv6 or not.
    #[must_use]
    #[verifier::when_used_as_spec(spec_is_ipv6)]
    pub fn is_ipv6(self) -> (r: bool)
        ensures
            r == self.spec_is_ipv6(),
    {
        match self {
            Self::Udp6 | Self::Tcp6 | Self::Quic6 => true,
            Self::Udp4 | Self::Tcp4 | Self::Quic4 | Self::Unspecified => false,
        }
    }

    /// Returns the token of the tag, as it is shown and written out.
    #[must_use]
    pub fn to_string(self) -> (s: String)
        ensures
            s@ == self.text(),
    {
        match self {
            Self::Udp4 => "udp4".to_owned(),
            Self::Udp6 => "udp6".to_owned(),
            Self::Tcp4 => "tcp4".to_owned(),
            Self::Tcp6 => "tcp6".to_owned(),
            Self::Quic4 => "quic4".to_owned(),
            Self::Quic6 => "quic6".to_owned(),
            Self::Unspecified => "unspecified".to_owned(),
        }
    }

    /// Reads a tag back from its token. A text that is the token of no tag
    /// gives `None`; it is never taken for `Unspecified`.
    #[must_use]
    pub fn from_text(token: &str) -> (r: Option<NetworkType>)
        ensures
            r == Self::parse(token@),
    {
        if same_text(token, "unspecified") {
            Some(Self::Unspecified)
        } else if same_text(token, "udp4") {
            Some(Self::Udp4)
        } else if same_text(token, "udp6") {
            Some(Self::Udp6)
        } else if same_text(token, "tcp4") {
            Some(Self::Tcp4)
        } else if same_text(token, "tcp6") {
            Some(Self::Tcp6)
        } else if same_text(token, "quic4") {
            Some(Self::Quic4)
        } else if same_text(token, "quic6") {
            Some(Self::Quic6)
        } else {
            None
        }
    }
}

impl From<u8> for NetworkType {
    /// Decodes the one-byte code of a tag. A code that stands for no
    /// transport gives `Unspecified`.
    fn from(v: u8) -> (r: Self) {
        match v {
            1 => Self::Udp4,
            2 => Self::Udp6,
            3 => Self::Tcp4,
            4 => Self::Tcp6,
            5 => Self::Quic4,
            6 => Self::Quic6,
            _ => Self::Unspecified,
        }
    }
}

impl vstd::std_specs::convert::FromSpecImpl<u8> for NetworkType {
    open spec fn obeys_from_spec() -> bool {
        true
    }

    open spec fn from_spec(v: u8) -> Self {
        match v {
            1 => NetworkType::Udp4,
            2 => NetworkType::Udp6,
            3 => NetworkType::Tcp4,
            4 => NetworkType::Tcp6,
            5 => NetworkType::Quic4,
            6 => NetworkType::Quic6,
            _ => NetworkType::Unspecified,
        }
    }
}

impl Default for NetworkType {
    fn default() -> (r: Self)
        ensures
            r == NetworkType::Unspecified,
    {
        Self::Unspecified
    }
}

/// The transports that candidates are currently negotiated over: UDP and
/// QUIC over both families. The TCP tags exist but are not among them.
#[must_use]
pub fn supported_network_types() -> (r: Vec<NetworkType>)
    ensures
        r@ == seq![
            NetworkType::Udp4,
            NetworkType::Udp6,
            NetworkType::Quic4,
            NetworkType::Quic6,
        ],
{
    vec![NetworkType::Udp4, NetworkType::Udp6, NetworkType::Quic4, NetworkType::Quic6]
}

/// The network type that a lower-case protocol label and an address family
/// stand for: the first of `udp`, `tcp`, `quic` that the label begins with
/// picks the transport, and nothing after that prefix is looked at.
pub open spec fn classify(label: Seq<char>, ipv4: bool) -> Result<NetworkType, Error> {
    if UDP@.is_prefix_of(label) {
        Ok(if ipv4 { NetworkType::Udp4 } else { NetworkType::Udp6 })
    } else if TCP@.is_prefix_of(label) {
        Ok(if ipv4 { NetworkType::Tcp4 } else { NetworkType::Tcp6 })
    } else if QUIC@.is_prefix_of(label) {
        Ok(if ipv4 { NetworkType::Quic4 } else { NetworkType::Quic6 })
    } else {
        Err(Error::ErrDetermineNetworkType)
    }
}

/// Classifies a protocol label that is already in lower case, together with
/// the address it goes with.
pub fn network_type_of_label(label: &str, ip: &IpAddr) -> (r: Result<NetworkType, Error>)
    ensures
        r == classify(label@, ip.is_ipv4()),
{
    let ipv4 = ip.is_ipv4();
    if starts_with(label, UDP) {
        if ipv4 {
            Ok(NetworkType::Udp4)
        } else {
            Ok(NetworkType::Udp6)
        }
    } else if starts_with(label, TCP) {
        if ipv4 {
            Ok(NetworkType::Tcp4)
        } else {
            Ok(NetworkType::Tcp6)
        }
    } else if starts_with(label, QUIC) {
        if ipv4 {
            Ok(NetworkType::Quic4)
        } else {
            Ok(NetworkType::Quic6)
        }
    } else {
        Err(Error::ErrDetermineNetworkType)
    }
}

/// Determines the type of network based on the short network string and an IP address.
///
/// The label is matched without regard to case, and only its beginning counts.
pub fn determine_network_type(network: &str, ip: &IpAddr) -> (r: Result<NetworkType, Error>)
    ensures
        r == classify(lowercase(network@), ip.is_ipv4()),
{
    let net = to_lowercase(network);
    network_type_of_label(net.as_str(), ip)
}

} // verus!
