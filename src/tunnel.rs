use vstd::prelude::*;

use crate::config::{build_client_config, client_config_text};
use crate::error::TunnelError;
use crate::ipv4::{ipv4_text, Ipv4};
use crate::store::{has_ip, record_for, MetadataStore, SecretStore, TunnelMetadata};

verus! {

/// Which tunnel, if any, this process has brought up.
#[derive(Clone, Copy, Debug, PartialEq, Eq, Structural)]
pub enum ActiveTunnel {
    Idle,
    Active(Ipv4),
}

/// The notification sent to observers on each successful start or stop.
#[derive(Clone, Debug, PartialEq, Eq)]
pub struct TunnelPayload {
    pub name: Option<String>,
    pub is_active: bool,
}

/// The answer to a quick connect: the name of the tunnel that was started.
#[derive(Clone, Debug, PartialEq, Eq)]
pub struct ConnectResponse {
    pub config_name: String,
    pub success: bool,
}

/// What the tunnel-interface tool is to be given to bring a tunnel up: the
/// configuration text and the interface name, which also names the file that
/// holds the text while the tool reads it.
#[derive(Clone, Debug, PartialEq, Eq)]
pub struct StartPlan {
    pub interface_name: String,
    pub config_text: String,
}

/// The single slot of the active tunnel. Callers that run concurrently hold one
/// lock around each start or stop, from its plan to its completion.
pub struct TunnelState {
    active: ActiveTunnel,
}

/// What a start from `active` for `ip` is to do, over the stored records and
/// secrets: the error that refuses it, or the configuration it brings up.
pub open spec fn start_plan_spec(
    active: ActiveTunnel,
    ip: Ipv4,
    records: Seq<TunnelMetadata>,
    secrets: Map<Ipv4, Seq<char>>,
) -> Result<Seq<char>, TunnelError> {
    if active is Active {
        Err(TunnelError::TunnelAlreadyActive)
    } else if !has_ip(records, ip) {
        Err(TunnelError::MetadataNotFound)
    } else if !secrets.contains_key(ip) {
        Err(TunnelError::CredentialUnavailable)
    } else {
        Ok(
            client_config_text(
                secrets[ip],
                record_for(records, ip).server_public_key@,
                ip,
                record_for(records, ip).client_ip,
            ),
        )
    }
}

/// What a stop from `active` is to do: the error that refuses it, or the address of
/// the tunnel that it brings down.
pub open spec fn stop_plan_spec(active: ActiveTunnel) -> Result<Ipv4, TunnelError> {
    match active {
        ActiveTunnel::Idle => Err(TunnelError::NoActiveTunnel),
        ActiveTunnel::Active(ip) => Ok(ip),
    }
}

impl View for TunnelState {
    type V = ActiveTunnel;

    closed spec fn view(&self) -> ActiveTunnel {
        self.active
    }
}

impl TunnelState {
    /// No tunnel is active when a process starts.
    pub fn new() -> (r: TunnelState)
        ensures
            r@ == ActiveTunnel::Idle,
    {
        TunnelState { active: ActiveTunnel::Idle }
    }

    pub fn active(&self) -> (r: ActiveTunnel)
        ensures
            r == self@,
    {
        self.active
    }

    /// Looks up what a start of the tunnel to `ip` needs and builds its configuration.
    /// The state does not change: the start completes with `finish_start`.
    pub fn plan_start(&self, ip: Ipv4, records: &MetadataStore, secrets: &SecretStore) -> (r:
        Result<StartPlan, TunnelError>)
        requires
            records.wf(),
        ensures
            match (r, start_plan_spec(self@, ip, records@, secrets@)) {
                (Ok(plan), Ok(text)) => plan.config_text@ == text && plan.interface_name@
                    == ipv4_text(ip),
                (Err(e), Err(f)) => e == f,
                _ => false,
            },
    {
        if let ActiveTunnel::Active(_) = self.active {
            return Err(TunnelError::TunnelAlreadyActive);
        }
        let record = match records.get(ip) {
            Ok(m) => m,
            Err(e) => return Err(e),
        };
        let secret = match secrets.get(ip) {
            Ok(s) => s,
            Err(e) => return Err(e),
        };
        let config_text = build_client_config(
            secret.as_str(),
            record.server_public_key.as_str(),
            ip,
            record.client_ip,
        );
        Ok(StartPlan { interface_name: ip.to_text(), config_text })
    }

    /// Completes a start of the tunnel to `ip` with what the tool reported. On success
    /// the tunnel is recorded as active and the notification to send is returned; on
    /// failure nothing changes and the tool's error text is returned.
    pub fn finish_start(&mut self, ip: Ipv4, tool: Result<(), String>) -> (r: Result<
        TunnelPayload,
        TunnelError,
    >)
        ensures
            old(self)@ is Active ==> r == Err::<TunnelPayload, TunnelError>(
                TunnelError::TunnelAlreadyActive,
            ) && final(self)@ == old(self)@,
            old(self)@ is Idle ==> match tool {
                Ok(_) => final(self)@ == ActiveTunnel::Active(ip) && (r matches Ok(p)
                    && p.is_active && (p.name matches Some(n) && n@ == ipv4_text(ip))),
                Err(msg) => final(self)@ == old(self)@ && r == Err::<TunnelPayload, TunnelError>(
                    TunnelError::ExternalToolFailed(msg),
                ),
            },
    {
        if let ActiveTunnel::Active(_) = self.active {
            return Err(TunnelError::TunnelAlreadyActive);
        }
        match tool {
            Ok(()) => {
                self.active = ActiveTunnel::Active(ip);
                Ok(TunnelPayload { name: Some(ip.to_text()), is_active: true })
            },
            Err(msg) => Err(TunnelError::ExternalToolFailed(msg)),
        }
    }

    /// The interface that a stop is to bring down: that of the active tunnel.
    pub fn plan_stop(&self) -> (r: Result<String, TunnelError>)
        ensures
            match (r, stop_plan_spec(self@)) {
                (Ok(name), Ok(ip)) => name@ == ipv4_text(ip),
                (Err(e), Err(f)) => e == f,
                _ => false,
            },
    {
        match self.active {
            ActiveTunnel::Idle => Err(TunnelError::NoActiveTunnel),
            ActiveTunnel::Active(ip) => Ok(ip.to_text()),
        }
    }

    /// Completes a stop with what the tool reported. On success no tunnel is active and
    /// the notification to send is returned; on failure the active tunnel stays recorded.
    pub fn finish_stop(&mut self, tool: Result<(), String>) -> (r: Result<TunnelPayload, TunnelError>)
        ensures
            old(self)@ is Idle ==> r == Err::<TunnelPayload, TunnelError>(
                TunnelError::NoActiveTunnel,
            ) && final(self)@ == old(self)@,
            old(self)@ is Active ==> match tool {
                Ok(_) => final(self)@ == ActiveTunnel::Idle && r == Ok::<TunnelPayload, TunnelError>(
                    TunnelPayload { name: None, is_active: false },
                ),
                Err(msg) => final(self)@ == old(self)@ && r == Err::<TunnelPayload, TunnelError>(
                    TunnelError::ExternalToolFailed(msg),
                ),
            },
    {
        if let ActiveTunnel::Idle = self.active {
            return Err(TunnelError::NoActiveTunnel);
        }
        match tool {
            Ok(()) => {
                self.active = ActiveTunnel::Idle;
                Ok(TunnelPayload { name: None, is_active: false })
            },
            Err(msg) => Err(TunnelError::ExternalToolFailed(msg)),
        }
    }
}

/// The tunnel that a quick connect starts: the first record in stored order.
pub fn quick_connect_target(records: &MetadataStore) -> (r: Result<&TunnelMetadata, TunnelError>)
    ensures
        records@.len() == 0 ==> r == Err::<&TunnelMetadata, TunnelError>(
            TunnelError::NoConfigurationsFound,
        ),
        records@.len() > 0 ==> (r matches Ok(m) && *m == records@[0]),
{
    let list = records.list();
    if list.len() == 0 {
        Err(TunnelError::NoConfigurationsFound)
    } else {
        Ok(&list[0])
    }
}

impl ConnectResponse {
    /// The answer to a quick connect that started the tunnel of `record`.
    pub fn connected_to(record: &TunnelMetadata) -> (r: ConnectResponse)
        ensures
            r.config_name@ == record.name@,
            r.success,
    {
        ConnectResponse { config_name: record.name.clone(), success: true }
    }
}

/// Only one tunnel can be active: from the idle state a stop is refused, and while
/// a tunnel is active every start is refused, whatever it names.
pub proof fn lemma_single_active_tunnel(
    active: ActiveTunnel,
    ip: Ipv4,
    records: Seq<TunnelMetadata>,
    secrets: Map<Ipv4, Seq<char>>,
)
    ensures
        active is Idle ==> stop_plan_spec(active) == Err::<Ipv4, TunnelError>(
            TunnelError::NoActiveTunnel,
        ),
        active is Active ==> start_plan_spec(active, ip, records, secrets) == Err::<
            Seq<char>,
            TunnelError,
        >(TunnelError::TunnelAlreadyActive),
{
}

} // verus!
