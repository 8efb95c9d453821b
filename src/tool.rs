use vstd::prelude::*;

use crate::text::{contains_seq, contains_text, lossy_text, text_of_bytes};

verus! {

/// The platforms whose tunnel-interface tool is driven differently.
#[derive(Clone, Copy, Debug, PartialEq, Eq, Structural)]
pub enum Platform {
    Windows,
    Linux,
    MacOs,
}

/// A program to run and its arguments.
#[derive(Clone, Debug, PartialEq, Eq)]
pub struct ToolCommand {
    pub program: String,
    pub args: Vec<String>,
}

/// The texts of a command's arguments.
pub open spec fn args_text(c: ToolCommand) -> Seq<Seq<char>> {
    c.args@.map_values(|a: String| a@)
}

/// `program` with the arguments `args`, as texts.
pub open spec fn is_command(c: ToolCommand, program: Seq<char>, args: Seq<Seq<char>>) -> bool {
    c.program@ == program && args_text(c) == args
}

/// Windows' prefix for verbatim paths, which the tunnel tool does not take.
pub open spec fn verbatim_prefix() -> Seq<char> {
    seq!['\\', '\\', '?', '\\']
}

/// `path` without the verbatim prefix, where it has one.
pub open spec fn without_verbatim_prefix(path: Seq<char>) -> Seq<char> {
    if path.len() >= 4 && path.subrange(0, 4) == verbatim_prefix() {
        path.subrange(4, path.len() as int)
    } else {
        path
    }
}

pub open spec fn windows_tool() -> Seq<char> {
    "C:\\Program Files\\WireGuard\\wireguard.exe"@
}

/// The command that brings a tunnel up from the configuration file at `conf_path`.
pub open spec fn bring_up_spec(platform: Platform, conf_path: Seq<char>) -> (Seq<char>, Seq<Seq<char>>) {
    match platform {
        Platform::Windows => (
            windows_tool(),
            seq!["/installtunnelservice"@, without_verbatim_prefix(conf_path)],
        ),
        _ => ("wg-quick"@, seq!["up"@, conf_path]),
    }
}

/// The command that brings the tunnel `interface` down.
pub open spec fn bring_down_spec(platform: Platform, interface: Seq<char>) -> (Seq<char>, Seq<Seq<char>>) {
    match platform {
        Platform::Windows => (windows_tool(), seq!["/uninstalltunnelservice"@, interface]),
        _ => ("wg-quick"@, seq!["down"@, interface]),
    }
}

/// The command that asks the system whether the tunnel `name` is up.
pub open spec fn status_spec(platform: Platform, name: Seq<char>) -> (Seq<char>, Seq<Seq<char>>) {
    match platform {
        Platform::Windows => ("sc"@, seq!["query"@, "WireGuardTunnel$"@ + name]),
        _ => ("wg"@, seq!["show"@, name]),
    }
}

fn command2(program: &str, a0: String, a1: String) -> (r: ToolCommand)
    ensures
        is_command(r, program@, seq![a0@, a1@]),
{
    let mut args: Vec<String> = Vec::new();
    args.push(a0);
    args.push(a1);
    let r = ToolCommand { program: String::from_str(program), args };
    assert(args_text(r) =~= seq![a0@, a1@]);
    r
}

/// Removes the verbatim prefix from a path.
pub fn strip_verbatim_prefix(path: &str) -> (r: String)
    ensures
        r@ == without_verbatim_prefix(path@),
{
    proof {
        reveal_strlit("\\\\?\\");
        assert("\\\\?\\"@ =~= verbatim_prefix());
    }
    let len = path.unicode_len();
    if len >= 4 {
        let head = path.substring_char(0, 4);
        if contains_text(head, "\\\\?\\") {
            proof {
                let k = choose|i: int| crate::text::occurs_at(head@, "\\\\?\\"@, i);
                assert(k == 0);
                assert(head@.subrange(0, 4) =~= head@);
            }
            return String::from_str(path.substring_char(4, len));
        } else {
            proof {
                if head@ == verbatim_prefix() {
                    assert(head@.subrange(0, 4) =~= head@);
                    assert(crate::text::occurs_at(head@, "\\\\?\\"@, 0));
                }
            }
        }
    }
    String::from_str(path)
}

/// The command that brings a tunnel up from the configuration file at `conf_path`.
pub fn bring_up_command(platform: Platform, conf_path: &str) -> (r: ToolCommand)
    ensures
        is_command(r, bring_up_spec(platform, conf_path@).0, bring_up_spec(platform, conf_path@).1),
{
    match platform {
        Platform::Windows => command2(
            "C:\\Program Files\\WireGuard\\wireguard.exe",
            String::from_str("/installtunnelservice"),
            strip_verbatim_prefix(conf_path),
        ),
        _ => command2("wg-quick", String::from_str("up"), String::from_str(conf_path)),
    }
}

/// The command that brings the tunnel `interface` down.
pub fn bring_down_command(platform: Platform, interface: &str) -> (r: ToolCommand)
    ensures
        is_command(r, bring_down_spec(platform, interface@).0, bring_down_spec(platform, interface@).1),
{
    match platform {
        Platform::Windows => command2(
            "C:\\Program Files\\WireGuard\\wireguard.exe",
            String::from_str("/uninstalltunnelservice"),
            String::from_str(interface),
        ),
        _ => command2("wg-quick", String::from_str("down"), String::from_str(interface)),
    }
}

/// The command that asks the system whether the tunnel `name` is up.
pub fn status_command(platform: Platform, name: &str) -> (r: ToolCommand)
    ensures
        is_command(r, status_spec(platform, name@).0, status_spec(platform, name@).1),
{
    match platform {
        Platform::Windows => {
            let service = String::from_str("WireGuardTunnel$").concat(name);
            command2("sc", String::from_str("query"), service)
        },
        _ => command2("wg", String::from_str("show"), String::from_str(name)),
    }
}

/// Whether the status query reports the tunnel up: on Windows the service query
/// prints that the service is running, elsewhere the query succeeds.
pub fn status_from_output(platform: Platform, success: bool, stdout: &[u8]) -> (r: bool)
    ensures
        r == match platform {
            Platform::Windows => contains_seq(lossy_text(stdout@), "RUNNING"@),
            _ => success,
        },
{
    match platform {
        Platform::Windows => {
            let text = text_of_bytes(stdout);
            contains_text(text.as_str(), "RUNNING")
        },
        _ => success,
    }
}

/// The outcome of a run of the tunnel tool: success, or its error output as text.
pub fn tool_result(success: bool, stderr: &[u8]) -> (r: Result<(), String>)
    ensures
        success ==> r is Ok,
        !success ==> (r matches Err(e) && e@ == "WireGuard error: "@ + lossy_text(stderr@)),
{
    if success {
        Ok(())
    } else {
        let detail = text_of_bytes(stderr);
        Err(String::from_str("WireGuard error: ").concat(detail.as_str()))
    }
}

/// The command that brings the default interface up or down with elevated rights.
pub fn toggle_command(platform: Platform, connect: bool) -> (r: ToolCommand)
    ensures
        is_command(
            r,
            match platform {
                Platform::Windows => "wg-quick"@,
                Platform::Linux => "pkexec"@,
                Platform::MacOs => "osascript"@,
            },
            match platform {
                Platform::Windows => seq![if connect { "up"@ } else { "down"@ }, "wg0"@],
                Platform::Linux => seq!["wg-quick"@, if connect { "up"@ } else { "down"@ }, "wg0"@],
                Platform::MacOs => seq![
                    "-e"@,
                    "do shell script \"wg-quick "@ + (if connect { "up"@ } else { "down"@ })
                        + " wg0\" with administrator privileges"@,
                ],
            },
        ),
{
    let action = if connect { "up" } else { "down" };
    match platform {
        Platform::Windows => command2("wg-quick", String::from_str(action), String::from_str("wg0")),
        Platform::Linux => {
            let mut args: Vec<String> = Vec::new();
            args.push(String::from_str("wg-quick"));
            args.push(String::from_str(action));
            args.push(String::from_str("wg0"));
            let r = ToolCommand { program: String::from_str("pkexec"), args };
            assert(args_text(r) =~= seq!["wg-quick"@, action@, "wg0"@]);
            r
        },
        Platform::MacOs => {
            let script = String::from_str("do shell script \"wg-quick ").concat(action).concat(
                " wg0\" with administrator privileges",
            );
            command2("osascript", String::from_str("-e"), script)
        },
    }
}

} // verus!
