use vstd::prelude::*;

verus! {

/// Why a private-key file cannot be used.
#[derive(Clone, Debug, PartialEq, Eq)]
pub enum KeyFileError {
    NotFound,
    IsDirectory,
    /// The file could not be read; the detail is the system's reason.
    NoReadPermission(String),
    /// The file was read but holds no private key that can be decoded.
    InvalidKey,
}

/// Why a remote-shell session could not be opened.
#[derive(Clone, Debug, PartialEq, Eq)]
pub enum SshError {
    HandshakeFailed(String),
    AuthFailed(String),
}

/// Why the remote provisioning sequence did not give a usable result.
#[derive(Clone, Debug, PartialEq, Eq)]
pub enum ProvisionError {
    ProvisioningFailed(String),
}

/// Why a tunnel operation was refused or failed.
#[derive(Clone, Debug, PartialEq, Eq)]
pub enum TunnelError {
    CredentialUnavailable,
    MetadataNotFound,
    NoActiveTunnel,
    NoConfigurationsFound,
    /// A tunnel is already active; only one may be at a time.
    TunnelAlreadyActive,
    /// The tunnel-interface tool failed; the detail is its error text.
    ExternalToolFailed(String),
}

/// The message shown for a key-file error.
pub open spec fn key_file_message(e: KeyFileError) -> Seq<char> {
    match e {
        KeyFileError::NotFound => "Key file not found"@,
        KeyFileError::IsDirectory => "Key path is a directory"@,
        KeyFileError::NoReadPermission(reason) => "Cannot read key file: "@ + reason@,
        KeyFileError::InvalidKey => "Key file holds no valid private key"@,
    }
}

impl KeyFileError {
    pub fn message(&self) -> (r: String)
        ensures
            r@ == key_file_message(*self),
    {
        match self {
            KeyFileError::NotFound => String::from_str("Key file not found"),
            KeyFileError::IsDirectory => String::from_str("Key path is a directory"),
            KeyFileError::NoReadPermission(reason) => String::from_str(
                "Cannot read key file: ",
            ).concat(reason.as_str()),
            KeyFileError::InvalidKey => String::from_str("Key file holds no valid private key"),
        }
    }
}

/// The message shown for a session error.
pub open spec fn ssh_message(e: SshError) -> Seq<char> {
    match e {
        SshError::HandshakeFailed(d) => "Handshake failed: "@ + d@,
        SshError::AuthFailed(d) => "Authentication failed: "@ + d@,
    }
}

impl SshError {
    pub fn message(&self) -> (r: String)
        ensures
            r@ == ssh_message(*self),
    {
        match self {
            SshError::HandshakeFailed(d) => String::from_str("Handshake failed: ").concat(d.as_str()),
            SshError::AuthFailed(d) => String::from_str("Authentication failed: ").concat(d.as_str()),
        }
    }
}

/// The message shown for a provisioning error.
pub open spec fn provision_message(e: ProvisionError) -> Seq<char> {
    match e {
        ProvisionError::ProvisioningFailed(d) => "Provisioning failed: "@ + d@,
    }
}

impl ProvisionError {
    pub fn message(&self) -> (r: String)
        ensures
            r@ == provision_message(*self),
    {
        match self {
            ProvisionError::ProvisioningFailed(d) => String::from_str("Provisioning failed: ").concat(
                d.as_str(),
            ),
        }
    }
}

/// The message shown for a tunnel error; the tool's own error text is shown as it is.
pub open spec fn tunnel_message(e: TunnelError) -> Seq<char> {
    match e {
        TunnelError::CredentialUnavailable => "Failed to load private key"@,
        TunnelError::MetadataNotFound => "No metadata found for this address"@,
        TunnelError::NoActiveTunnel => "No active tunnel found in state"@,
        TunnelError::NoConfigurationsFound => "No VPN configurations found"@,
        TunnelError::TunnelAlreadyActive => "A tunnel is already active"@,
        TunnelError::ExternalToolFailed(d) => d@,
    }
}

impl TunnelError {
    pub fn message(&self) -> (r: String)
        ensures
            r@ == tunnel_message(*self),
    {
        match self {
            TunnelError::CredentialUnavailable => String::from_str("Failed to load private key"),
            TunnelError::MetadataNotFound => String::from_str("No metadata found for this address"),
            TunnelError::NoActiveTunnel => String::from_str("No active tunnel found in state"),
            TunnelError::NoConfigurationsFound => String::from_str("No VPN configurations found"),
            TunnelError::TunnelAlreadyActive => String::from_str("A tunnel is already active"),
            TunnelError::ExternalToolFailed(d) => d.clone(),
        }
    }
}

} // verus!
