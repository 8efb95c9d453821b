use vstd::prelude::*;

use crate::ipv4::{ipv4_text, lemma_ipv4_text_injective, Ipv4};

verus! {

/// The port on which the server's tunnel endpoint listens.
pub const LISTEN_PORT: u16 = 51820;

/// The layout of a client configuration, over the texts of its four inputs.
pub open spec fn config_layout(
    client_private_key: Seq<char>,
    client_ip_text: Seq<char>,
    server_public_key: Seq<char>,
    server_ip_text: Seq<char>,
) -> Seq<char> {
    "[Interface]\nPrivateKey = "@ + client_private_key + "\nAddress = "@ + client_ip_text
        + "/32\n\n[Peer]\nPublicKey = "@ + server_public_key + "\nEndpoint = "@ + server_ip_text
        + ":51820\nAllowedIPs = 0.0.0.0/0\nPersistentKeepalive = 25\n"@
}

/// The client configuration consumed by the tunnel-interface tool: the client's
/// key and address, then a peer section for the server reached on the listen port,
/// through which all traffic is routed.
pub open spec fn client_config_text(
    client_private_key: Seq<char>,
    server_public_key: Seq<char>,
    server_ip: Ipv4,
    client_ip: Ipv4,
) -> Seq<char> {
    config_layout(client_private_key, ipv4_text(client_ip), server_public_key, ipv4_text(server_ip))
}

/// Builds the client configuration text; the same inputs always give the same text.
pub fn build_client_config(
    client_private_key: &str,
    server_public_key: &str,
    server_ip: Ipv4,
    client_ip: Ipv4,
) -> (r: String)
    ensures
        r@ == client_config_text(client_private_key@, server_public_key@, server_ip, client_ip),
{
    let mut s = String::from_str("[Interface]\nPrivateKey = ");
    s.append(client_private_key);
    s.append("\nAddress = ");
    let client_text = client_ip.to_text();
    s.append(client_text.as_str());
    s.append("/32\n\n[Peer]\nPublicKey = ");
    s.append(server_public_key);
    s.append("\nEndpoint = ");
    let server_text = server_ip.to_text();
    s.append(server_text.as_str());
    s.append(":51820\nAllowedIPs = 0.0.0.0/0\nPersistentKeepalive = 25\n");
    s
}

/// Building is a function of the inputs: two texts built from the same inputs are the
/// same text.
pub proof fn lemma_config_text_deterministic(
    client_private_key: Seq<char>,
    server_public_key: Seq<char>,
    server_ip: Ipv4,
    client_ip: Ipv4,
    first: Seq<char>,
    second: Seq<char>,
)
    requires
        first == client_config_text(client_private_key, server_public_key, server_ip, client_ip),
        second == client_config_text(client_private_key, server_public_key, server_ip, client_ip),
    ensures
        first == second,
{
}

proof fn lemma_middle_cancel(x: Seq<char>, m1: Seq<char>, m2: Seq<char>, y: Seq<char>)
    requires
        x + m1 + y == x + m2 + y,
    ensures
        m1 == m2,
{
    let s1 = x + m1 + y;
    let s2 = x + m2 + y;
    assert(s1.len() == x.len() + m1.len() + y.len());
    assert(s2.len() == x.len() + m2.len() + y.len());
    assert(m1.len() == m2.len());
    assert(m1 =~= s1.subrange(x.len() as int, x.len() + m1.len() as int));
    assert(m2 =~= s2.subrange(x.len() as int, x.len() + m2.len() as int));
}

proof fn lemma_layout_cancel(k1: Seq<char>, k2: Seq<char>, c1: Seq<char>, c2: Seq<char>, p1: Seq<char>, p2: Seq<char>, s1: Seq<char>, s2: Seq<char>)
    ensures
        config_layout(k1, c1, p1, s1) == config_layout(k2, c1, p1, s1) ==> k1 == k2,
        config_layout(k1, c1, p1, s1) == config_layout(k1, c2, p1, s1) ==> c1 == c2,
        config_layout(k1, c1, p1, s1) == config_layout(k1, c1, p2, s1) ==> p1 == p2,
        config_layout(k1, c1, p1, s1) == config_layout(k1, c1, p1, s2) ==> s1 == s2,
{
    let a = "[Interface]\nPrivateKey = "@;
    let b = "\nAddress = "@;
    let c = "/32\n\n[Peer]\nPublicKey = "@;
    let d = "\nEndpoint = "@;
    let e = ":51820\nAllowedIPs = 0.0.0.0/0\nPersistentKeepalive = 25\n"@;
    if config_layout(k1, c1, p1, s1) == config_layout(k2, c1, p1, s1) {
        let y = b + c1 + c + p1 + d + s1 + e;
        assert(config_layout(k1, c1, p1, s1) =~= a + k1 + y);
        assert(config_layout(k2, c1, p1, s1) =~= a + k2 + y);
        lemma_middle_cancel(a, k1, k2, y);
    }
    if config_layout(k1, c1, p1, s1) == config_layout(k1, c2, p1, s1) {
        let x = a + k1 + b;
        let y = c + p1 + d + s1 + e;
        assert(config_layout(k1, c1, p1, s1) =~= x + c1 + y);
        assert(config_layout(k1, c2, p1, s1) =~= x + c2 + y);
        lemma_middle_cancel(x, c1, c2, y);
    }
    if config_layout(k1, c1, p1, s1) == config_layout(k1, c1, p2, s1) {
        let x = a + k1 + b + c1 + c;
        let y = d + s1 + e;
        assert(config_layout(k1, c1, p1, s1) =~= x + p1 + y);
        assert(config_layout(k1, c1, p2, s1) =~= x + p2 + y);
        lemma_middle_cancel(x, p1, p2, y);
    }
    if config_layout(k1, c1, p1, s1) == config_layout(k1, c1, p1, s2) {
        let x = a + k1 + b + c1 + c + p1 + d;
        assert(config_layout(k1, c1, p1, s1) =~= x + s1 + e);
        assert(config_layout(k1, c1, p1, s2) =~= x + s2 + e);
        lemma_middle_cancel(x, s1, s2, e);
    }
}

/// Each input of the client configuration shows in its text: two calls that differ
/// in one input alone give different texts.
pub proof fn lemma_config_text_distinguishes_inputs(
    k1: Seq<char>,
    k2: Seq<char>,
    p1: Seq<char>,
    p2: Seq<char>,
    s1: Ipv4,
    s2: Ipv4,
    c1: Ipv4,
    c2: Ipv4,
)
    ensures
        k1 != k2 ==> client_config_text(k1, p1, s1, c1) != client_config_text(k2, p1, s1, c1),
        p1 != p2 ==> client_config_text(k1, p1, s1, c1) != client_config_text(k1, p2, s1, c1),
        s1 != s2 ==> client_config_text(k1, p1, s1, c1) != client_config_text(k1, p1, s2, c1),
        c1 != c2 ==> client_config_text(k1, p1, s1, c1) != client_config_text(k1, p1, s1, c2),
{
    lemma_layout_cancel(k1, k2, ipv4_text(c1), ipv4_text(c2), p1, p2, ipv4_text(s1), ipv4_text(s2));
    if ipv4_text(s1) == ipv4_text(s2) {
        lemma_ipv4_text_injective(s1, s2);
    }
    if ipv4_text(c1) == ipv4_text(c2) {
        lemma_ipv4_text_injective(c1, c2);
    }
}

} // verus!
