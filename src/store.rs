use std::collections::HashMap;
use vstd::prelude::*;

use crate::error::TunnelError;
use crate::ipv4::{ipv4_text, Ipv4};

verus! {

broadcast use vstd::std_specs::hash::group_hash_axioms;

/// Non-secret record of one provisioned endpoint, keyed by its public address.
#[derive(Clone, Debug)]
pub struct TunnelMetadata {
    pub name: String,
    pub public_ip: Ipv4,
    pub client_ip: Ipv4,
    pub server_public_key: String,
    pub listen_port: u16,
}

/// Some record of `s` is keyed by `ip`.
pub open spec fn has_ip(s: Seq<TunnelMetadata>, ip: Ipv4) -> bool {
    exists|i: int| 0 <= i < s.len() && #[trigger] s[i].public_ip == ip
}

/// The record of `s` keyed by `ip`, where there is one.
pub open spec fn record_for(s: Seq<TunnelMetadata>, ip: Ipv4) -> TunnelMetadata
    recommends
        has_ip(s, ip),
{
    s[choose|i: int| 0 <= i < s.len() && #[trigger] s[i].public_ip == ip]
}

/// No two records of `s` share an address.
pub open spec fn ips_distinct(s: Seq<TunnelMetadata>) -> bool {
    forall|i: int, j: int|
        0 <= i < s.len() && 0 <= j < s.len() && i != j ==> #[trigger] s[i].public_ip
            != #[trigger] s[j].public_ip
}

/// The records after storing `m`: the record under the same address is replaced in
/// its place, or else `m` is appended.
pub open spec fn put_record(s: Seq<TunnelMetadata>, m: TunnelMetadata) -> Seq<TunnelMetadata> {
    if has_ip(s, m.public_ip) {
        let i = choose|i: int| 0 <= i < s.len() && #[trigger] s[i].public_ip == m.public_ip;
        s.update(i, m)
    } else {
        s.push(m)
    }
}

/// The records after storing each of `ms` in turn.
pub open spec fn put_all(s: Seq<TunnelMetadata>, ms: Seq<TunnelMetadata>) -> Seq<TunnelMetadata>
    decreases ms.len(),
{
    if ms.len() == 0 {
        s
    } else {
        put_record(put_all(s, ms.drop_last()), ms.last())
    }
}

pub proof fn lemma_put_record_distinct(s: Seq<TunnelMetadata>, m: TunnelMetadata)
    requires
        ips_distinct(s),
    ensures
        ips_distinct(put_record(s, m)),
        has_ip(put_record(s, m), m.public_ip),
{
    let r = put_record(s, m);
    if has_ip(s, m.public_ip) {
        let i = choose|i: int| 0 <= i < s.len() && #[trigger] s[i].public_ip == m.public_ip;
        assert(r[i].public_ip == m.public_ip);
    } else {
        assert(r[s.len() as int].public_ip == m.public_ip);
    }
}

/// Storing records with distinct addresses one after another, starting empty, lists
/// exactly those records in the order they were stored.
pub proof fn lemma_put_all_distinct_lists_in_order(ms: Seq<TunnelMetadata>)
    requires
        ips_distinct(ms),
    ensures
        put_all(Seq::empty(), ms) == ms,
    decreases ms.len(),
{
    if ms.len() > 0 {
        let init = ms.drop_last();
        assert(ips_distinct(init));
        lemma_put_all_distinct_lists_in_order(init);
        if has_ip(init, ms.last().public_ip) {
            let i = choose|i: int| 0 <= i < init.len() && #[trigger] init[i].public_ip == ms.last().public_ip;
            assert(ms[i].public_ip == ms[ms.len() - 1].public_ip);
        }
        assert(init.push(ms.last()) =~= ms);
    }
}

/// Storing a record under an address already present replaces that record: the
/// number of records stays the same and the new record is among them.
pub proof fn lemma_put_existing_replaces(s: Seq<TunnelMetadata>, m: TunnelMetadata)
    requires
        ips_distinct(s),
        has_ip(s, m.public_ip),
    ensures
        put_record(s, m).len() == s.len(),
        put_record(s, m).contains(m),
        forall|j: int|
            0 <= j < s.len() && s[j].public_ip != m.public_ip ==> put_record(s, m)[j] == s[j],
{
    let i = choose|i: int| 0 <= i < s.len() && #[trigger] s[i].public_ip == m.public_ip;
    assert(put_record(s, m)[i] == m);
}

/// The known endpoints, in the order in which they were first stored.
pub struct MetadataStore {
    records: Vec<TunnelMetadata>,
}

impl View for MetadataStore {
    type V = Seq<TunnelMetadata>;

    closed spec fn view(&self) -> Seq<TunnelMetadata> {
        self.records@
    }
}

impl MetadataStore {
    pub open spec fn wf(&self) -> bool {
        ips_distinct(self@)
    }

    pub fn new() -> (r: MetadataStore)
        ensures
            r.wf(),
            r@ == Seq::<TunnelMetadata>::empty(),
    {
        MetadataStore { records: Vec::new() }
    }

    /// A store holding `records` as if each had been stored in turn.
    pub fn from_records(records: Vec<TunnelMetadata>) -> (r: MetadataStore)
        ensures
            r.wf(),
            r@ == put_all(Seq::empty(), records@),
    {
        let mut store = MetadataStore::new();
        let mut i: usize = 0;
        while i < records.len()
            invariant
                i <= records.len(),
                store.wf(),
                store@ == put_all(Seq::empty(), records@.subrange(0, i as int)),
            decreases records.len() - i,
        {
            store.put(records[i].clone_record());
            proof {
                let next = records@.subrange(0, i + 1);
                assert(next.drop_last() =~= records@.subrange(0, i as int));
            }
            i += 1;
        }
        assert(records@.subrange(0, records.len() as int) =~= records@);
        store
    }

    /// Every record, in stored order.
    pub fn list(&self) -> (r: &Vec<TunnelMetadata>)
        ensures
            r@ == self@,
    {
        &self.records
    }

    /// The record stored under `ip`.
    pub fn get(&self, ip: Ipv4) -> (r: Result<&TunnelMetadata, TunnelError>)
        requires
            self.wf(),
        ensures
            r is Ok <==> has_ip(self@, ip),
            r matches Ok(m) ==> *m == record_for(self@, ip),
            r matches Err(e) ==> e == TunnelError::MetadataNotFound,
    {
        let mut i: usize = 0;
        while i < self.records.len()
            invariant
                i <= self.records.len(),
                self.wf(),
                forall|j: int| 0 <= j < i ==> #[trigger] self@[j].public_ip != ip,
            decreases self.records.len() - i,
        {
            if self.records[i].public_ip == ip {
                proof {
                    assert(self@[i as int].public_ip == ip);
                    let k = choose|k: int| 0 <= k < self@.len() && #[trigger] self@[k].public_ip == ip;
                    assert(k == i);
                }
                return Ok(&self.records[i]);
            }
            i += 1;
        }
        Err(TunnelError::MetadataNotFound)
    }

    /// Stores `m`, replacing the whole record held under the same address.
    pub fn put(&mut self, m: TunnelMetadata)
        requires
            old(self).wf(),
        ensures
            final(self).wf(),
            final(self)@ == put_record(old(self)@, m),
    {
        proof {
            lemma_put_record_distinct(self@, m);
        }
        let mut i: usize = 0;
        while i < self.records.len()
            invariant
                i <= self.records.len(),
                self@ == old(self)@,
                ips_distinct(self@),
                ips_distinct(put_record(self@, m)),
                forall|j: int| 0 <= j < i ==> #[trigger] self@[j].public_ip != m.public_ip,
            decreases self.records.len() - i,
        {
            if self.records[i].public_ip == m.public_ip {
                proof {
                    assert(self@[i as int].public_ip == m.public_ip);
                    assert(has_ip(self@, m.public_ip));
                    let k = choose|k: int|
                        0 <= k < self@.len() && #[trigger] self@[k].public_ip == m.public_ip;
                    assert(k == i);
                }
                self.records.set(i, m);
                return;
            }
            i += 1;
        }
        self.records.push(m);
    }
}

impl TunnelMetadata {
    /// A copy of the record.
    pub fn clone_record(&self) -> (r: TunnelMetadata)
        ensures
            r == *self,
    {
        TunnelMetadata {
            name: self.name.clone(),
            public_ip: self.public_ip,
            client_ip: self.client_ip,
            server_public_key: self.server_public_key.clone(),
            listen_port: self.listen_port,
        }
    }
}

/// The key under which the secret of an address is held.
pub open spec fn ip_key(ip: Ipv4) -> u32 {
    ((ip.a as int) * 0x1000000 + (ip.b as int) * 0x10000 + (ip.c as int) * 0x100
        + ip.d as int) as u32
}

proof fn lemma_ip_key_injective(x: Ipv4, y: Ipv4)
    requires
        ip_key(x) == ip_key(y),
    ensures
        x == y,
{
    assert(x.a == y.a && x.b == y.b && x.c == y.c && x.d == y.d) by (nonlinear_arith)
        requires
            ip_key(x) == ip_key(y),
            (x.a as int) * 0x1000000 + (x.b as int) * 0x10000 + (x.c as int) * 0x100 + (x.d as int)
                < 0x100000000,
            (y.a as int) * 0x1000000 + (y.b as int) * 0x10000 + (y.c as int) * 0x100 + (y.d as int)
                < 0x100000000,
    ;
}

fn key_of(ip: Ipv4) -> (r: u32)
    ensures
        r == ip_key(ip),
{
    (ip.a as u32) * 0x1000000 + (ip.b as u32) * 0x10000 + (ip.c as u32) * 0x100 + (ip.d as u32)
}

/// The service under which private keys are held in the system's credential store.
pub const KEYRING_SERVICE: &'static str = "com.vpnapp.keys";

/// The account under which the private key for `ip` is held.
pub fn account_name(ip: Ipv4) -> (r: String)
    ensures
        r@ == "priv_key_"@ + ipv4_text(ip),
{
    String::from_str("priv_key_").concat(ip.to_text().as_str())
}

/// The file that holds the encrypted private key for `ip`, where the system has no
/// credential store.
pub fn encrypted_key_file_name(ip: Ipv4) -> (r: String)
    ensures
        r@ == "priv_key_"@ + ipv4_text(ip) + ".enc"@,
{
    account_name(ip).concat(".enc")
}

/// Client private keys, one for each endpoint address.
pub struct SecretStore {
    secrets: HashMap<u32, String>,
}

impl View for SecretStore {
    type V = Map<Ipv4, Seq<char>>;

    closed spec fn view(&self) -> Map<Ipv4, Seq<char>> {
        Map::new(
            |ip: Ipv4| self.secrets@.contains_key(ip_key(ip)),
            |ip: Ipv4| self.secrets@[ip_key(ip)]@,
        )
    }
}

impl SecretStore {
    pub fn new() -> (r: SecretStore)
        ensures
            r@ == Map::<Ipv4, Seq<char>>::empty(),
    {
        let r = SecretStore { secrets: HashMap::new() };
        assert(r@ =~= Map::<Ipv4, Seq<char>>::empty());
        r
    }

    /// Stores `secret` for `ip`, replacing what was held for it.
    pub fn put(&mut self, ip: Ipv4, secret: String)
        ensures
            final(self)@ == old(self)@.insert(ip, secret@),
    {
        let k = key_of(ip);
        self.secrets.insert(k, secret);
        proof {
            assert forall|x: Ipv4| #[trigger] self@.contains_key(x) == old(self)@.insert(ip, secret@).contains_key(x) by {
                if ip_key(x) == ip_key(ip) {
                    lemma_ip_key_injective(x, ip);
                }
            }
            assert forall|x: Ipv4| #[trigger] self@.contains_key(x) implies self@[x] == old(self)@.insert(ip, secret@)[x] by {
                if ip_key(x) == ip_key(ip) {
                    lemma_ip_key_injective(x, ip);
                }
            }
            assert(self@ =~= old(self)@.insert(ip, secret@));
        }
    }

    /// The secret stored for `ip`.
    pub fn get(&self, ip: Ipv4) -> (r: Result<String, TunnelError>)
        ensures
            r is Ok <==> self@.contains_key(ip),
            r matches Ok(s) ==> s@ == self@[ip],
            r matches Err(e) ==> e == TunnelError::CredentialUnavailable,
    {
        let k = key_of(ip);
        match self.secrets.get(&k) {
            Some(s) => Ok(s.clone()),
            None => Err(TunnelError::CredentialUnavailable),
        }
    }
}

/// What is read back for an address after a secret was stored for it is that secret;
/// an address that was never stored has no secret.
pub proof fn lemma_secret_round_trip(m: Map<Ipv4, Seq<char>>, ip: Ipv4, other: Ipv4, secret: Seq<char>)
    ensures
        m.insert(ip, secret).contains_key(ip),
        m.insert(ip, secret)[ip] == secret,
        other != ip ==> (m.insert(ip, secret).contains_key(other) == m.contains_key(other)),
        Map::<Ipv4, Seq<char>>::empty().contains_key(other) == false,
{
}

} // verus!
