use vstd::prelude::*;

use crate::error::{KeyFileError, SshError};
use crate::text::{contains_seq, contains_text, lossy_text, text_of_bytes};

verus! {

#[verifier::external_type_specification]
#[verifier::external_body]
pub struct ExPrivateKey(russh::keys::PrivateKey);

#[verifier::external_type_specification]
#[verifier::external_body]
pub struct ExKeyError(russh::keys::Error);

/// Whether `text` decodes as an unencrypted private key.
pub uninterp spec fn decodes_as_private_key(text: Seq<char>) -> bool;

/// Relies on `russh::keys::decode_secret_key`, called without a passphrase: whether it
/// decodes a key depends on the text alone.
#[verifier::external_body]
fn decode_private_key(text: &str) -> (r: Result<russh::keys::PrivateKey, russh::keys::Error>)
    ensures
        r is Ok == decodes_as_private_key(text@),
{
    russh::keys::decode_secret_key(text, None)
}

/// What the file system showed of a private-key file.
#[derive(Clone, Debug, PartialEq, Eq)]
pub enum KeyFileProbe {
    Missing,
    Directory,
    /// The file exists but could not be read; the system's reason.
    Unreadable(String),
    /// The file's contents.
    Contents(Vec<u8>),
}

/// The error of a key file that cannot be used, before its contents are looked at.
pub open spec fn probe_error(probe: KeyFileProbe) -> Option<KeyFileError> {
    match probe {
        KeyFileProbe::Missing => Some(KeyFileError::NotFound),
        KeyFileProbe::Directory => Some(KeyFileError::IsDirectory),
        KeyFileProbe::Unreadable(reason) => Some(KeyFileError::NoReadPermission(reason)),
        KeyFileProbe::Contents(_) => None,
    }
}

/// A key file is usable when it exists, is a regular file and can be read.
pub fn validate_key_file(probe: &KeyFileProbe) -> (r: Result<(), KeyFileError>)
    ensures
        match probe_error(*probe) {
            Some(e) => r == Err::<(), KeyFileError>(e),
            None => r is Ok,
        },
{
    match probe {
        KeyFileProbe::Missing => Err(KeyFileError::NotFound),
        KeyFileProbe::Directory => Err(KeyFileError::IsDirectory),
        KeyFileProbe::Unreadable(reason) => Err(KeyFileError::NoReadPermission(reason.clone())),
        KeyFileProbe::Contents(_) => Ok(()),
    }
}

/// The private key held in a key file, checked before any connection is made: the
/// file must be usable and its contents, read as UTF-8 with invalid sequences
/// replaced, must decode.
pub fn load_private_key(probe: &KeyFileProbe) -> (r: Result<russh::keys::PrivateKey, KeyFileError>)
    ensures
        match probe_error(*probe) {
            Some(e) => r matches Err(f) && f == e,
            None => match *probe {
                KeyFileProbe::Contents(bytes) => if decodes_as_private_key(lossy_text(bytes@)) {
                    r is Ok
                } else {
                    r matches Err(f) && f == KeyFileError::InvalidKey
                },
                _ => false,
            },
        },
{
    match validate_key_file(probe) {
        Err(e) => Err(e),
        Ok(()) => match probe {
            KeyFileProbe::Contents(bytes) => match decode_private_key(
                text_of_bytes(bytes.as_slice()).as_str(),
            ) {
                Ok(key) => Ok(key),
                Err(_) => Err(KeyFileError::InvalidKey),
            },
            _ => Err(KeyFileError::InvalidKey),
        },
    }
}

/// The outcome of public-key authentication: the server accepted the key or not.
pub fn auth_outcome(accepted: bool) -> (r: Result<(), SshError>)
    ensures
        accepted ==> r is Ok,
        !accepted ==> (r matches Err(SshError::AuthFailed(m)) && m@ == "Access denied"@),
{
    if accepted {
        Ok(())
    } else {
        Err(SshError::AuthFailed(String::from_str("Access denied")))
    }
}

/// Which server identities a session accepts.
#[derive(Clone, Debug, PartialEq, Eq)]
pub enum HostKeyPolicy {
    /// Any server key is accepted, with no check against known hosts.
    AcceptAny,
    /// Only the server key with these encoded bytes is accepted.
    Pinned(Vec<u8>),
}

/// The client side of a remote-shell session: it decides which server keys to trust.
#[derive(Clone, Debug, PartialEq, Eq)]
pub struct ClientHandler {
    pub policy: HostKeyPolicy,
}

impl ClientHandler {
    pub fn new(policy: HostKeyPolicy) -> (r: ClientHandler)
        ensures
            r.policy == policy,
    {
        ClientHandler { policy }
    }

    /// Whether the server whose key is encoded as `server_key` is trusted.
    pub fn check_server_key(&self, server_key: &[u8]) -> (r: bool)
        ensures
            r == match self.policy {
                HostKeyPolicy::AcceptAny => true,
                HostKeyPolicy::Pinned(k) => k@ == server_key@,
            },
    {
        match &self.policy {
            HostKeyPolicy::AcceptAny => true,
            HostKeyPolicy::Pinned(pinned) => {
                if pinned.len() != server_key.len() {
                    return false;
                }
                let mut i: usize = 0;
                while i < pinned.len()
                    invariant
                        i <= pinned@.len(),
                        self.policy == HostKeyPolicy::Pinned(*pinned),
                        pinned@.len() == server_key@.len(),
                        forall|j: int| 0 <= j < i ==> pinned@[j] == server_key@[j],
                    decreases pinned@.len() - i,
                {
                    if pinned[i] != server_key[i] {
                        assert(pinned@[i as int] != server_key@[i as int]);
                        return false;
                    }
                    i += 1;
                }
                assert(pinned@ =~= server_key@);
                true
            },
        }
    }
}

/// A message received on the channel of one remote command.
#[derive(Clone, Debug, PartialEq, Eq)]
pub enum ChannelEvent {
    Data(Vec<u8>),
    ExitStatus(u32),
    Close,
    /// Any other message, which does not change what is captured.
    Other,
}

/// What a remote command has produced so far: its output as text, its exit status
/// and whether its channel has closed.
pub struct CommandCapture {
    output: String,
    exit_code: i32,
    closed: bool,
}

/// The capture after one more message; nothing changes once the channel has closed.
pub open spec fn capture_step(state: (Seq<char>, i32, bool), event: ChannelEvent) -> (
    Seq<char>,
    i32,
    bool,
) {
    if state.2 {
        state
    } else {
        match event {
            ChannelEvent::Data(d) => (state.0 + lossy_text(d@), state.1, false),
            ChannelEvent::ExitStatus(s) => (state.0, s as i32, false),
            ChannelEvent::Close => (state.0, state.1, true),
            ChannelEvent::Other => state,
        }
    }
}

impl View for CommandCapture {
    type V = (Seq<char>, i32, bool);

    closed spec fn view(&self) -> (Seq<char>, i32, bool) {
        (self.output@, self.exit_code, self.closed)
    }
}

impl CommandCapture {
    /// Nothing received yet: no output, and an exit status of 0 until one arrives.
    pub fn new() -> (r: CommandCapture)
        ensures
            r@ == (Seq::<char>::empty(), 0i32, false),
    {
        CommandCapture { output: String::new(), exit_code: 0, closed: false }
    }

    pub fn is_closed(&self) -> (r: bool)
        ensures
            r == self@.2,
    {
        self.closed
    }

    /// Takes in one message of the channel.
    pub fn record(&mut self, event: ChannelEvent)
        ensures
            final(self)@ == capture_step(old(self)@, event),
    {
        if self.closed {
            return;
        }
        match event {
            ChannelEvent::Data(d) => {
                let text = text_of_bytes(d.as_slice());
                self.output.append(text.as_str());
            },
            ChannelEvent::ExitStatus(s) => {
                self.exit_code = s as i32;
            },
            ChannelEvent::Close => {
                self.closed = true;
            },
            ChannelEvent::Other => {},
        }
    }

    /// The output and exit status captured.
    pub fn finish(self) -> (r: (String, i32))
        ensures
            r.0@ == self@.0,
            r.1 == self@.1,
    {
        (self.output, self.exit_code)
    }
}

/// The remote command that turns off password and challenge-response logins and
/// restarts the remote-shell daemon a second later, detached from the session, then
/// prints the completion marker.
pub const HARDEN_COMMAND: &'static str = "sudo sed -i 's/^#\\?PasswordAuthentication .*/PasswordAuthentication no/' /etc/ssh/sshd_config && sudo sed -i 's/^#\\?ChallengeResponseAuthentication .*/ChallengeResponseAuthentication no/' /etc/ssh/sshd_config && (sleep 1 && sudo systemctl restart ssh) > /dev/null 2>&1 &\necho \"DONE\"\n";

/// Whether the hardening command's output shows its completion marker. Without it the
/// change may still have been made; the caller only warns.
pub fn hardening_confirmed(output: &str) -> (r: bool)
    ensures
        r == contains_seq(output@, "DONE"@),
{
    contains_text(output, "DONE")
}

} // verus!
