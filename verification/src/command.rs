//! What the command line decides before anything is read, started or
//! stopped: the texts and the configuration that a command stands for.

use vstd::prelude::*;
use vstd::string::*;
use crate::file_server::trimmed_prefix;
use crate::file_server::FileServer;
use crate::file_server::FileServerModel;
use crate::location::LocationConfig;
use crate::location::LocationModel;
use crate::server::ServerConfig;
use crate::server::ServerModel;
use crate::upstream::BackendAddr;
use crate::upstream::UpstreamConfig;
use crate::upstream::UpstreamModel;

verus! {

/// Whether two texts are the same.
pub fn same_text(a: &str, b: &str) -> (equal: bool)
    ensures
        equal == (a@ == b@),
{
    let left = String::from_str(a);
    let right = String::from_str(b);
    left == right
}

/// The address text that a listen argument stands for: one that gives only
/// a port, as `:8080`, means that port on the loopback address.
pub open spec fn listen_model(text: Seq<char>) -> Seq<char> {
    if text.len() > 0 && text[0] == ':' {
        "127.0.0.1"@ + text
    } else {
        text
    }
}

/// Completes a listen argument to an address text.
pub fn listen_text(text: &str) -> (address: String)
    ensures
        address@ == listen_model(text@),
{
    if text.unicode_len() > 0 && text.get_char(0) == ':' {
        String::from_str("127.0.0.1").concat(text)
    } else {
        String::from_str(text)
    }
}

/// The formats a configuration file may be written in.
#[derive(Debug, Clone, Copy, PartialEq, Eq, Structural)]
pub enum ConfigFormat {
    Yaml,
    Toml,
}

/// The format that a file extension stands for.
pub open spec fn format_model(extension: Seq<char>) -> Option<ConfigFormat> {
    if extension == "yaml"@ {
        Some(ConfigFormat::Yaml)
    } else if extension == "toml"@ {
        Some(ConfigFormat::Toml)
    } else {
        None
    }
}

/// Tells the format of a configuration file by its extension; `None` for
/// an extension that names no known format.
pub fn config_format(extension: &str) -> (format: Option<ConfigFormat>)
    ensures
        format == format_model(extension@),
{
    if same_text(extension, "yaml") {
        Some(ConfigFormat::Yaml)
    } else if same_text(extension, "toml") {
        Some(ConfigFormat::Toml)
    } else {
        None
    }
}

/// The arguments of the `kill` that ends a running server, by the process
/// id as its pid file holds it; `None` for an empty id, for which no
/// process is signalled.
pub fn kill_arguments(id: &String) -> (arguments: Option<Vec<String>>)
    ensures
        id@.len() == 0 <==> arguments is None,
        arguments is Some ==> arguments->0.deep_view() == seq!["-TERM"@, id@],
{
    if id.as_str().is_empty() {
        return None;
    }
    let mut arguments: Vec<String> = Vec::new();
    arguments.push(String::from_str("-TERM"));
    arguments.push(id.clone());
    assert(arguments.deep_view() =~= seq!["-TERM"@, id@]);
    Some(arguments)
}

/// The arguments with which `start` runs the server in the background:
/// `run`, then what followed the subcommand.
pub fn start_arguments(args: &Vec<String>) -> (arguments: Vec<String>)
    requires
        args@.len() >= 2,
    ensures
        arguments.deep_view() == seq!["run"@] + args.deep_view().subrange(2, args@.len() as int),
{
    let n: usize = args.len();
    let mut arguments: Vec<String> = Vec::new();
    arguments.push(String::from_str("run"));
    let mut i: usize = 2;
    while i < n
        invariant
            n == args@.len(),
            2 <= i <= n,
            arguments@.len() == i - 1,
            arguments@[0]@ == "run"@,
            forall|k: int| 2 <= k < i ==> arguments@[k - 1]@ == args@[k]@,
        decreases n - i,
    {
        arguments.push(args[i].clone());
        i += 1;
    }
    assert(arguments.deep_view() =~= seq!["run"@] + args.deep_view().subrange(2, n as int));
    arguments
}

/// The address of the control endpoint that stops a running server.
pub fn control_url(control: &str) -> (url: String)
    ensures
        url@ == "http://"@ + control@ + "/stop"@,
{
    String::from_str("http://").concat(control).concat("/stop")
}

/// The name of the one upstream group that the `reverse-proxy` command
/// sets up.
pub open spec fn single_upstream_name() -> Seq<char> {
    "server"@
}

/// The proxy target of the `reverse-proxy` command.
pub open spec fn single_target(tls: bool) -> Seq<char> {
    if tls {
        "https://server"@
    } else {
        "http://server"@
    }
}

/// The configuration that the `file-server` command stands for: one
/// location, which takes every path and serves files from `root`.
pub fn file_server_config(listen: BackendAddr, root: String) -> (server: ServerConfig)
    ensures
        server@ == (ServerModel {
            bind_addr: listen@,
            location: seq![
                LocationModel {
                    rule: Seq::empty(),
                    file_server: Some(FileServerModel { root: Some(root@), prefix: Seq::empty() }),
                    headers: Seq::empty(),
                    reverse_proxy: None,
                },
            ],
            root: None,
            upstream: Seq::empty(),
        }),
{
    let mut server = ServerConfig::new(listen);
    let mut location = LocationConfig::new();
    let ghost root_text = root@;
    location.file_server = Some(FileServer::new(Some(root), String::new()));
    assert(trimmed_prefix(Seq::<char>::empty()) == Seq::<char>::empty());
    let ghost model = location@;
    server.location.push(location);
    assert(server@.location =~= seq![model]);
    assert(server@.upstream =~= Seq::empty());
    server
}

/// The configuration that the `reverse-proxy` command stands for: one
/// upstream group of one backend, and one location, which takes every path
/// and forwards to that group, over TLS if asked.
pub fn reverse_proxy_config(
    from: BackendAddr,
    to: BackendAddr,
    headers: Vec<Vec<String>>,
    tls: bool,
) -> (server: ServerConfig)
    ensures
        server@ == (ServerModel {
            bind_addr: from@,
            location: seq![
                LocationModel {
                    rule: Seq::empty(),
                    file_server: None,
                    headers: headers.deep_view(),
                    reverse_proxy: Some(single_target(tls)),
                },
            ],
            root: None,
            upstream: seq![UpstreamModel { name: single_upstream_name(), server: seq![to@] }],
        }),
{
    let mut server = ServerConfig::new(from);
    let mut location = LocationConfig::new();
    location.reverse_proxy = if tls {
        Some(String::from_str("https://server"))
    } else {
        Some(String::from_str("http://server"))
    };
    location.headers = headers;
    let upstream = UpstreamConfig::new_single(String::from_str("server"), to);
    let ghost group = upstream@;
    let ghost model = location@;
    server.upstream.push(upstream);
    server.location.push(location);
    assert(server@.location =~= seq![model]);
    assert(server@.upstream =~= seq![group]);
    server
}

} // verus!
