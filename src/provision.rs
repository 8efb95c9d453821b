use vstd::prelude::*;
use vstd::string::StrSliceExecFns;

use crate::config::LISTEN_PORT;
use crate::error::ProvisionError;
use crate::ipv4::{decimal, ipv4_text, lemma_decimal_injective, parse_decimal, parse_ipv4, Ipv4};
use crate::store::TunnelMetadata;
use crate::text::{matches_at, occurs_at};

verus! {

/// The label of the line on which the provisioning script prints the server's public key.
pub open spec fn server_key_label() -> Seq<char> {
    "SERVER_PUBLIC_KEY="@
}

/// The label of the line on which the provisioning script prints the client's private key.
pub open spec fn client_key_label() -> Seq<char> {
    "CLIENT_PRIVATE_KEY="@
}

/// The label of the line on which the provisioning script prints the client's address.
pub open spec fn client_address_label() -> Seq<char> {
    "CLIENT_ADDRESS="@
}

/// The label of the line on which the provisioning script prints its listen port.
pub open spec fn listen_port_label() -> Seq<char> {
    "LISTEN_PORT="@
}

/// The remote script, around the name of the server's outward network interface: it
/// installs the tunnel tool, makes a key pair for the server and one for the client,
/// writes the server's interface configuration with the client as its peer, turns on
/// forwarding and brings the interface up, then prints the server's public key and the
/// client's private key on labelled lines.
pub open spec fn provisioning_script_text(interface: Seq<char>) -> Seq<char> {
    script_head()@ + interface + script_middle()@ + interface + script_tail()@
}

pub open spec fn script_head() -> &'static str {
    "set -e\nsudo apt-get update -y >/dev/null 2>&1\nsudo apt-get install -y wireguard >/dev/null 2>&1\numask 077\nLISTEN_PORT=51820\nCLIENT_ADDRESS=10.0.0.2\nSERVER_KEY=$(wg genkey)\nSERVER_PUB=$(echo \"$SERVER_KEY\" | wg pubkey)\nCLIENT_KEY=$(wg genkey)\nCLIENT_PUB=$(echo \"$CLIENT_KEY\" | wg pubkey)\nsudo tee /etc/wireguard/wg0.conf >/dev/null <<CONF\n[Interface]\nPrivateKey = $SERVER_KEY\nAddress = 10.0.0.1/24\nListenPort = $LISTEN_PORT\nPostUp = iptables -A FORWARD -i wg0 -j ACCEPT; iptables -t nat -A POSTROUTING -o "
}

pub open spec fn script_middle() -> &'static str {
    " -j MASQUERADE\nPostDown = iptables -D FORWARD -i wg0 -j ACCEPT; iptables -t nat -D POSTROUTING -o "
}

pub open spec fn script_tail() -> &'static str {
    " -j MASQUERADE\n\n[Peer]\nPublicKey = $CLIENT_PUB\nAllowedIPs = $CLIENT_ADDRESS/32\nCONF\nsudo sysctl -w net.ipv4.ip_forward=1 >/dev/null\nsudo systemctl enable wg-quick@wg0 >/dev/null 2>&1\nsudo systemctl restart wg-quick@wg0\necho \"SERVER_PUBLIC_KEY=$SERVER_PUB\"\necho \"CLIENT_PRIVATE_KEY=$CLIENT_KEY\"\necho \"CLIENT_ADDRESS=$CLIENT_ADDRESS\"\necho \"LISTEN_PORT=$LISTEN_PORT\"\n"
}

/// The remote provisioning script for the outward interface `interface`.
pub fn provisioning_script(interface: &str) -> (r: String)
    ensures
        r@ == provisioning_script_text(interface@),
{
    let mut s = String::from_str("set -e\nsudo apt-get update -y >/dev/null 2>&1\nsudo apt-get install -y wireguard >/dev/null 2>&1\numask 077\nLISTEN_PORT=51820\nCLIENT_ADDRESS=10.0.0.2\nSERVER_KEY=$(wg genkey)\nSERVER_PUB=$(echo \"$SERVER_KEY\" | wg pubkey)\nCLIENT_KEY=$(wg genkey)\nCLIENT_PUB=$(echo \"$CLIENT_KEY\" | wg pubkey)\nsudo tee /etc/wireguard/wg0.conf >/dev/null <<CONF\n[Interface]\nPrivateKey = $SERVER_KEY\nAddress = 10.0.0.1/24\nListenPort = $LISTEN_PORT\nPostUp = iptables -A FORWARD -i wg0 -j ACCEPT; iptables -t nat -A POSTROUTING -o ");
    s.append(interface);
    s.append(" -j MASQUERADE\nPostDown = iptables -D FORWARD -i wg0 -j ACCEPT; iptables -t nat -D POSTROUTING -o ");
    s.append(interface);
    s.append(" -j MASQUERADE\n\n[Peer]\nPublicKey = $CLIENT_PUB\nAllowedIPs = $CLIENT_ADDRESS/32\nCONF\nsudo sysctl -w net.ipv4.ip_forward=1 >/dev/null\nsudo systemctl enable wg-quick@wg0 >/dev/null 2>&1\nsudo systemctl restart wg-quick@wg0\necho \"SERVER_PUBLIC_KEY=$SERVER_PUB\"\necho \"CLIENT_PRIVATE_KEY=$CLIENT_KEY\"\necho \"CLIENT_ADDRESS=$CLIENT_ADDRESS\"\necho \"LISTEN_PORT=$LISTEN_PORT\"\n");
    s
}

/// `label` starts a line of `s` at `i`.
pub open spec fn label_at(s: Seq<char>, label: Seq<char>, i: int) -> bool {
    (i == 0 || (0 < i <= s.len() && s[i - 1] == '\n')) && occurs_at(s, label, i)
}

/// Where the line that holds position `j` of `s` ends: at the next line break, or at
/// the end of `s`.
pub open spec fn line_end(s: Seq<char>, j: int) -> int
    decreases s.len() - j,
{
    if j >= s.len() {
        s.len() as int
    } else if s[j] == '\n' {
        j
    } else {
        line_end(s, j + 1)
    }
}

/// The first line of `s` that starts with `label`, at `i`.
pub open spec fn first_label_at(s: Seq<char>, label: Seq<char>, i: int) -> bool {
    label_at(s, label, i) && forall|j: int| 0 <= j < i ==> !label_at(s, label, j)
}

/// The rest of the first line of `s` that starts with `label`, if a line does.
pub open spec fn field_value(s: Seq<char>, label: Seq<char>) -> Option<Seq<char>> {
    if exists|i: int| first_label_at(s, label, i) {
        let i = choose|i: int| first_label_at(s, label, i);
        Some(s.subrange(i + label.len(), line_end(s, i + label.len())))
    } else {
        None
    }
}

proof fn lemma_first_label_unique(s: Seq<char>, label: Seq<char>, i: int, k: int)
    requires
        first_label_at(s, label, i),
        first_label_at(s, label, k),
    ensures
        i == k,
{
}

proof fn lemma_line_end_skips(s: Seq<char>, j: int, k: int)
    requires
        0 <= j <= k <= s.len(),
        forall|m: int| j <= m < k ==> s[m] != '\n',
    ensures
        line_end(s, j) == line_end(s, k),
    decreases k - j,
{
    if j < k {
        lemma_line_end_skips(s, j + 1, k);
    }
}

/// The rest of the first line of `s` that starts with `label`.
pub fn find_field(s: &str, label: &str) -> (r: Option<String>)
    ensures
        match (r, field_value(s@, label@)) {
            (Some(v), Some(w)) => v@ == w,
            (None, None) => true,
            _ => false,
        },
{
    let len = s.unicode_len();
    let label_len = label.unicode_len();
    if label_len > len {
        proof {
            assert forall|i: int| !first_label_at(s@, label@, i) by {}
        }
        return None;
    }
    let limit = len - label_len;
    let mut i: usize = 0;
    loop
        invariant
            len == s@.len(),
            label_len == label@.len(),
            limit == len - label_len,
            i <= limit,
            forall|j: int| 0 <= j < i ==> !label_at(s@, label@, j),
        decreases limit - i,
    {
        let starts_line = i == 0 || s.get_char(i - 1) == '\n';
        if starts_line && matches_at(s, label, i, len, label_len) {
            let start = i + label_len;
            let mut end: usize = start;
            while end < len && s.get_char(end) != '\n'
                invariant
                    len == s@.len(),
                    start <= end <= len,
                    forall|m: int| start <= m < end ==> s@[m] != '\n',
                decreases len - end,
            {
                end += 1;
            }
            proof {
                assert(first_label_at(s@, label@, i as int));
                let k = choose|k: int| first_label_at(s@, label@, k);
                lemma_first_label_unique(s@, label@, i as int, k);
                lemma_line_end_skips(s@, start as int, end as int);
            }
            return Some(String::from_str(s.substring_char(start, end)));
        }
        if i == limit {
            proof {
                assert forall|j: int| !first_label_at(s@, label@, j) by {
                    if 0 <= j && j > limit {
                        assert(!occurs_at(s@, label@, j));
                    }
                }
            }
            return None;
        }
        i += 1;
    }
}

/// What provisioning established: the keys and addresses that a matching client
/// configuration needs.
#[derive(Clone, Debug, PartialEq, Eq)]
pub struct ProvisioningResult {
    pub public_ip: Ipv4,
    pub client_ip: Ipv4,
    pub server_public_key: String,
    pub client_private_key: String,
    pub listen_port: u16,
}

proof fn lemma_port_text(port: Option<u32>, field: Option<Seq<char>>)
    requires
        field is None ==> port is None,
        field matches Some(v) ==> (port matches Some(n) ==> n <= 65535 && decimal(n as nat) == v),
        field matches Some(v) ==> (port is None ==> forall|n: nat| n <= 65535 ==> decimal(n) != v),
    ensures
        (port == Some(51820u32)) == (field == Some(decimal(LISTEN_PORT as nat))),
{
    if field == Some(decimal(LISTEN_PORT as nat)) {
        if let Some(n) = port {
            lemma_decimal_injective(n as nat, LISTEN_PORT as nat);
        }
    }
}

/// A field of the script's output that is present and not empty.
pub open spec fn present(v: Option<Seq<char>>) -> bool {
    v matches Some(t) && t.len() > 0
}

/// What the provisioning script's run gives: its failure detail, or the server's public
/// key, the client's private key and the text of the client's address. The port must be
/// the one that client configurations name.
pub open spec fn provisioning_outcome(output: Seq<char>, exit_code: i32) -> Result<
    (Seq<char>, Seq<char>, Seq<char>),
    Seq<char>,
> {
    if exit_code != 0 {
        Err(output)
    } else if !present(field_value(output, server_key_label())) {
        Err("the remote output holds no server public key"@)
    } else if !present(field_value(output, client_key_label())) {
        Err("the remote output holds no client private key"@)
    } else if !(field_value(output, client_address_label()) matches Some(v) && exists|ip: Ipv4|
        ipv4_text(ip) == v) {
        Err("the remote output holds no client address"@)
    } else if field_value(output, listen_port_label()) != Some(decimal(LISTEN_PORT as nat)) {
        Err("the remote output does not report the listen port 51820"@)
    } else {
        Ok(
            (
                field_value(output, server_key_label())->Some_0,
                field_value(output, client_key_label())->Some_0,
                field_value(output, client_address_label())->Some_0,
            ),
        )
    }
}

/// Reads the result of the provisioning script run on the server at `server_ip` from
/// its output and exit status. A failed run gives its output as the detail.
pub fn parse_provisioning_output(output: &str, exit_code: i32, server_ip: Ipv4) -> (r: Result<
    ProvisioningResult,
    ProvisionError,
>)
    ensures
        match (r, provisioning_outcome(output@, exit_code)) {
            (Ok(res), Ok(keys)) => res.server_public_key@ == keys.0 && res.client_private_key@
                == keys.1 && res.public_ip == server_ip && ipv4_text(res.client_ip) == keys.2
                && res.listen_port == LISTEN_PORT,
            (Err(ProvisionError::ProvisioningFailed(d)), Err(detail)) => d@ == detail,
            _ => false,
        },
{
    if exit_code != 0 {
        return Err(ProvisionError::ProvisioningFailed(String::from_str(output)));
    }
    let server_key = match find_field(output, "SERVER_PUBLIC_KEY=") {
        Some(v) if v.unicode_len() > 0 => v,
        _ => {
            return Err(
                ProvisionError::ProvisioningFailed(
                    String::from_str("the remote output holds no server public key"),
                ),
            )
        },
    };
    let client_key = match find_field(output, "CLIENT_PRIVATE_KEY=") {
        Some(v) if v.unicode_len() > 0 => v,
        _ => {
            return Err(
                ProvisionError::ProvisioningFailed(
                    String::from_str("the remote output holds no client private key"),
                ),
            )
        },
    };
    let client_ip = match find_field(output, "CLIENT_ADDRESS=") {
        Some(v) => parse_ipv4(v.as_str()),
        None => None,
    };
    let client_ip = match client_ip {
        Some(ip) => ip,
        None => {
            return Err(
                ProvisionError::ProvisioningFailed(
                    String::from_str("the remote output holds no client address"),
                ),
            );
        },
    };
    let port = match find_field(output, "LISTEN_PORT=") {
        Some(v) => parse_decimal(v.as_str(), 65535),
        None => None,
    };
    proof {
        lemma_port_text(port, field_value(output@, listen_port_label()));
    }
    if port != Some(51820u32) {
        return Err(
            ProvisionError::ProvisioningFailed(
                String::from_str("the remote output does not report the listen port 51820"),
            ),
        );
    }
    Ok(
        ProvisioningResult {
            public_ip: server_ip,
            client_ip,
            server_public_key: server_key,
            client_private_key: client_key,
            listen_port: LISTEN_PORT,
        },
    )
}

impl ProvisioningResult {
    /// The non-secret record of the endpoint, named by its address.
    pub fn to_metadata(&self) -> (r: TunnelMetadata)
        ensures
            r.name@ == ipv4_text(self.public_ip),
            r.public_ip == self.public_ip,
            r.client_ip == self.client_ip,
            r.server_public_key@ == self.server_public_key@,
            r.listen_port == self.listen_port,
    {
        TunnelMetadata {
            name: self.public_ip.to_text(),
            public_ip: self.public_ip,
            client_ip: self.client_ip,
            server_public_key: self.server_public_key.clone(),
            listen_port: self.listen_port,
        }
    }
}

} // verus!
