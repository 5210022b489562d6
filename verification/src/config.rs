//! The clients' settings and the choices around them: which server to use,
//! whether the embedded driver must be written out again, which benchmark
//! runs.
use vstd::prelude::*;
use crate::text::{lemma_trimmed_idempotent, trim, trimmed};

verus! {

/// The placeholder server name; a client given it looks for a saved server.
pub const DEFAULT_SERVER: &'static str = "your-server-ip-or-domain.com";

/// The server's UDP port.
pub const DEFAULT_PORT: u16 = 51820;

/// The client's address inside the tunnel.
pub const DEFAULT_TUN_IP: &'static str = "10.8.0.2";

/// The netmask of the tunnel's network.
pub const DEFAULT_TUN_NETMASK: &'static str = "255.255.255.0";

/// Where the console client takes the server from.
#[derive(Debug, PartialEq, Eq)]
pub enum ServerChoice {
    /// The server named on the command line.
    Given(String),
    /// The server saved in the settings file by an earlier run.
    Saved(String),
    /// No server is known: ask the user, and save the answer.
    Ask,
}

/// The console client's choice of server, given the name on its command line
/// and the settings file's contents (`None` when the file is missing or
/// unreadable): a name other than the placeholder wins; else the saved name,
/// trimmed, unless it is blank; else the user is asked.
pub fn choose_server(provided: &str, saved: Option<&str>) -> (r: ServerChoice)
    ensures
        provided@ != DEFAULT_SERVER@ ==> (r matches ServerChoice::Given(s) && s@ == provided@),
        provided@ == DEFAULT_SERVER@ ==> match saved {
            Some(contents) => if trimmed(contents@).len() > 0 {
                r matches ServerChoice::Saved(s) && s@ == trimmed(contents@)
            } else {
                r is Ask
            },
            None => r is Ask,
        },
{
    let given: String = provided.to_owned();
    let placeholder: String = DEFAULT_SERVER.to_owned();
    if given != placeholder {
        return ServerChoice::Given(given);
    }
    match saved {
        Some(contents) => {
            let ip = trim(contents);
            if ip.as_str().is_empty() {
                ServerChoice::Ask
            } else {
                ServerChoice::Saved(ip)
            }
        },
        None => ServerChoice::Ask,
    }
}

/// Whether the console client looks at the settings file at all: only when
/// it was given the placeholder server name.
pub fn uses_saved_server(provided: &str) -> (r: bool)
    ensures
        r == (provided@ == DEFAULT_SERVER@),
{
    let given: String = provided.to_owned();
    let placeholder: String = DEFAULT_SERVER.to_owned();
    given == placeholder
}

/// The server that the user typed: the line trimmed, or `None` when it is
/// blank (the client then stops).
pub fn entered_server(line: &str) -> (r: Option<String>)
    ensures
        trimmed(line@).len() > 0 ==> (r matches Some(s) && s@ == trimmed(line@)),
        trimmed(line@).len() == 0 ==> r is None,
{
    let ip = trim(line);
    if ip.as_str().is_empty() {
        None
    } else {
        Some(ip)
    }
}

/// The server that the windowed client shows at start: the settings file's
/// contents trimmed, or the empty string when the file is missing or
/// unreadable.
pub fn saved_server(contents: Option<&str>) -> (r: String)
    ensures
        match contents {
            Some(c) => r@ == trimmed(c@),
            None => r@ == Seq::<char>::empty(),
        },
{
    match contents {
        Some(c) => trim(c),
        None => String::new(),
    }
}

/// Whether the embedded driver library must be written to its file:
/// `existing_len` is the length of the file already there (`None` when there
/// is none or its length cannot be read); it is rewritten unless its length
/// is that of the embedded copy.
pub fn needs_driver_extract(existing_len: Option<u64>, embedded_len: u64) -> (r: bool)
    ensures
        r == (existing_len != Some(embedded_len)),
{
    match existing_len {
        Some(len) => len != embedded_len,
        None => true,
    }
}

/// Whether the benchmark supports `protocol`; only `udp` is.
pub fn benchmark_supported(protocol: &str) -> (r: bool)
    ensures
        r == (protocol@ == "udp"@),
{
    let p: String = protocol.to_owned();
    let udp: String = "udp".to_owned();
    p == udp
}

/// A server that the user types, once saved, is the server that the next run
/// of the console client uses: the saved text reads back as the same server.
pub proof fn law_entered_server_is_reused(line: Seq<char>)
    requires
        trimmed(line).len() > 0,
    ensures
        trimmed(trimmed(line)) == trimmed(line),
        trimmed(trimmed(line)).len() > 0,
{
    lemma_trimmed_idempotent(line);
}

} // verus!
