//! Facts that hold of every network type and of every classification.

use vstd::prelude::*;
use crate::error::Error;
use crate::network_type::{classify, NetworkType, QUIC, TCP, UDP};

verus! {

/// Writing a tag out and reading the token back gives the same tag.
pub proof fn lemma_text_round_trip(v: NetworkType)
    ensures
        NetworkType::parse(v.text()) == Some(v),
{
    reveal_strlit("unspecified");
    reveal_strlit("udp4");
    reveal_strlit("udp6");
    reveal_strlit("tcp4");
    reveal_strlit("tcp6");
    reveal_strlit("quic4");
    reveal_strlit("quic6");
    // Tokens of equal length differ in their first or in their last character.
    assert("udp4"@[3] != "udp6"@[3]);
    assert("udp4"@[0] != "tcp4"@[0]);
    assert("udp4"@[0] != "tcp6"@[0]);
    assert("udp6"@[0] != "tcp4"@[0]);
    assert("udp6"@[0] != "tcp6"@[0]);
    assert("tcp4"@[3] != "tcp6"@[3]);
    assert("quic4"@[4] != "quic6"@[4]);
}

/// A token is read as a tag only if it is that tag's own token: no other
/// text, and no other spelling of it, stands for a tag.
pub proof fn lemma_parse_is_inverse_of_text(token: Seq<char>, v: NetworkType)
    ensures
        NetworkType::parse(token) == Some(v) <==> token == v.text(),
{
    if token == v.text() {
        lemma_text_round_trip(v);
    }
}

/// No tag belongs to both address families; `Unspecified` belongs to
/// neither, and every other tag to exactly one.
pub proof fn lemma_ip_family_exclusive(v: NetworkType)
    ensures
        !(v.is_ipv4() && v.is_ipv6()),
        v == NetworkType::Unspecified ==> !v.is_ipv4() && !v.is_ipv6(),
        v != NetworkType::Unspecified ==> v.is_ipv4() || v.is_ipv6(),
{
}

/// A tag stands for at most one transport, `Unspecified` for none, and
/// the reliable ones are those of TCP and QUIC.
pub proof fn lemma_transport_exclusive(v: NetworkType)
    ensures
        !(v.is_udp() && v.is_tcp()),
        !(v.is_udp() && v.is_quic()),
        !(v.is_tcp() && v.is_quic()),
        v == NetworkType::Unspecified <==> !v.is_udp() && !v.is_tcp() && !v.is_quic(),
        v.is_reliable() <==> v.is_tcp() || v.is_quic(),
{
}

/// A label is classified as the tag `t` exactly when `t` names a transport
/// whose short label the text begins with and the family of the address.
/// In particular a classification never gives `Unspecified`.
pub proof fn lemma_classify_by_short_label(label: Seq<char>, ipv4: bool, t: NetworkType)
    ensures
        classify(label, ipv4) == Ok::<NetworkType, Error>(t) <==> {
            &&& t != NetworkType::Unspecified
            &&& t.short_text().is_prefix_of(label)
            &&& t.is_ipv4() == ipv4
        },
{
    reveal_strlit("udp");
    reveal_strlit("tcp");
    reveal_strlit("quic");
    // The three short labels differ in their first character, so a text
    // begins with at most one of them.
    if UDP@.is_prefix_of(label) {
        assert(label[0] == UDP@[0]);
    }
    if TCP@.is_prefix_of(label) {
        assert(label[0] == TCP@[0]);
    }
    if QUIC@.is_prefix_of(label) {
        assert(label[0] == QUIC@[0]);
    }
}

/// A label is refused exactly when it begins with none of the three short
/// labels; the address plays no part in that.
pub proof fn lemma_classify_fails(label: Seq<char>, ipv4: bool)
    ensures
        classify(label, ipv4) == Err::<NetworkType, Error>(Error::ErrDetermineNetworkType) <==> {
            &&& !UDP@.is_prefix_of(label)
            &&& !TCP@.is_prefix_of(label)
            &&& !QUIC@.is_prefix_of(label)
        },
{
}

/// Whatever follows the short label at the start of a text does not
/// change how the text is classified.
pub proof fn lemma_classify_ignores_suffix(label: Seq<char>, rest: Seq<char>, ipv4: bool)
    requires
        classify(label, ipv4) is Ok,
    ensures
        classify(label + rest, ipv4) == classify(label, ipv4),
{
    reveal_strlit("udp");
    reveal_strlit("tcp");
    reveal_strlit("quic");
    let long = label + rest;
    if UDP@.is_prefix_of(label) {
        assert(UDP@ =~= long.subrange(0, UDP@.len() as int));
    } else if TCP@.is_prefix_of(label) {
        assert(TCP@ =~= long.subrange(0, TCP@.len() as int));
    } else {
        assert(QUIC@ =~= long.subrange(0, QUIC@.len() as int));
    }
}

} // verus!
