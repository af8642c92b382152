//! The commands of the command-line front end, and what each of them asks
//! for.
//!
//! A command line is read into a [`Cli`] by the front end. [`run`] turns it
//! into a [`Plan`]: the request to make, the delivery to begin, or the
//! address to serve on. Carrying the plan out, and printing what comes of
//! it, is the front end's part.

use vstd::prelude::*;
use crate::errors::PolyRestError;
use crate::polyrest::mgmt::{get_body, get_request, post_request, set_body};
use crate::polyrest::{PolyRest, RestRequest};
use crate::push::messages::{push_endpoint, Unauthenticated};
use crate::push::wire::wire_document;
use crate::push::{MessageLevel, PushMessenger, PushType};
use crate::tmpl::{alert_text, render_alert_template};

verus! {

/// The user name where none is given.
pub const DEFAULT_USER: &'static str = "Polycom";

/// The port of the provisioning server where none is given.
pub const DEFAULT_PORT: u32 = 8000;

/// A whole command line.
#[derive(Debug, Clone)]
pub struct Cli {
    /// The user name for all requests.
    pub user: String,
    /// The password for all requests.
    pub pass: String,
    /// The base URL of the handset.
    pub url: String,
    /// How many seconds each request of a push may take; `None` sets no
    /// limit.
    pub timeout: Option<u64>,
    pub command: Commands,
}

#[derive(Debug, Clone)]
pub enum Commands {
    /// Make a request to the REST interface.
    Rest { subcommand: RestCommands },
    /// Push a notification or a command to the handset.
    Push { level: MessageLevel, subcommand: PushSubcommands },
    /// Serve the files under `path` to handsets that look for their
    /// configuration, on `port` of every interface.
    Provisioner { port: u32, path: String },
}

#[derive(Debug, Clone)]
pub enum PushSubcommands {
    /// Send a command.
    Cmd { subcommand: PushCmdSubcommands },
    /// Send HTML as it is given.
    Html { msg: String },
    /// Send the ready-made alert with a header and a line of text.
    Alert { header: String, str_msg: String },
}

#[derive(Debug, Clone)]
pub enum PushCmdSubcommands {
    /// Send a command as it is given.
    Raw { msg: String },
    /// Press a key.
    Key { key: String },
    /// Dial a number.
    Dial { number: String },
}

#[derive(Debug, Clone)]
pub enum RestCommands {
    /// Make a request to the `mgmt` family.
    Mgmt { subcommand: MgmtCommands },
    /// The `ctrl` family, of which nothing is offered yet.
    Ctrl,
}

#[derive(Debug, Clone)]
pub enum MgmtCommands {
    /// Show what the handset is.
    Info,
    /// Show how the network is set up.
    Network,
    /// Show the network counters.
    NetStats,
    /// Read or change the configuration.
    Config { subcommand: ConfigSetGetSubcommand },
}

#[derive(Debug, Clone)]
pub enum ConfigSetGetSubcommand {
    /// Read the parameter `value`.
    Get { value: String },
    /// Set the parameter `key` to `value`.
    Put { key: String, value: String },
}

/// How the answer to a REST command is to be read.
#[derive(Clone, Copy, Debug, PartialEq, Eq, Structural)]
pub enum Shown {
    /// As what the handset is.
    DeviceInfo,
    /// As how the network is set up.
    NetworkInfo,
    /// As the network counters.
    NetworkStats,
    /// As configuration parameters by name.
    Config,
    /// As it came.
    Raw,
}

/// What a command line asks for.
#[derive(Debug, Clone)]
pub enum Plan {
    /// Make this request and show the answer; show nothing where there is
    /// no request.
    Rest(Option<RestRequest>),
    /// Carry this delivery through and show the handset's reply.
    Push(Unauthenticated),
    /// Serve the files under `path` at the address `endpoint`.
    Provision { endpoint: String, path: String },
}

/// The text of a command for the handset.
pub open spec fn command_text(subcommand: PushCmdSubcommands) -> Seq<char> {
    match subcommand {
        PushCmdSubcommands::Raw { msg } => msg@,
        PushCmdSubcommands::Key { key } => "Key:"@ + key@,
        PushCmdSubcommands::Dial { number } => "tel:\\"@ + number@,
    }
}

/// The kind of message that a push command sends: commands are read as
/// commands, HTML and alerts as HTML.
pub open spec fn message_kind(subcommand: PushSubcommands) -> PushType {
    match subcommand {
        PushSubcommands::Cmd { .. } => PushType::Command,
        PushSubcommands::Html { .. } => PushType::HTML,
        PushSubcommands::Alert { .. } => PushType::HTML,
    }
}

/// The text of the message that a push command sends.
pub open spec fn message_text(subcommand: PushSubcommands) -> Seq<char> {
    match subcommand {
        PushSubcommands::Cmd { subcommand } => command_text(subcommand),
        PushSubcommands::Html { msg } => msg@,
        PushSubcommands::Alert { header, str_msg } => alert_text(header@, str_msg@),
    }
}

/// One decimal digit.
pub open spec fn digit(d: nat) -> char {
    ('0' as nat + d) as char
}

/// `n` in decimal, without leading zeros.
pub open spec fn decimal(n: nat) -> Seq<char>
    decreases n,
{
    if n < 10 {
        seq![digit(n)]
    } else {
        decimal(n / 10) + seq![digit(n % 10)]
    }
}

/// The address of `port` on every interface.
pub open spec fn any_interface(port: u32) -> Seq<char> {
    "0.0.0.0:"@ + decimal(port as nat)
}

fn digit_text(d: u32) -> (text: &'static str)
    requires
        d < 10,
    ensures
        text@ == seq![digit(d as nat)],
{
    proof {
        reveal_strlit("0");
        reveal_strlit("1");
        reveal_strlit("2");
        reveal_strlit("3");
        reveal_strlit("4");
        reveal_strlit("5");
        reveal_strlit("6");
        reveal_strlit("7");
        reveal_strlit("8");
        reveal_strlit("9");
    }
    let text = if d == 0 {
        "0"
    } else if d == 1 {
        "1"
    } else if d == 2 {
        "2"
    } else if d == 3 {
        "3"
    } else if d == 4 {
        "4"
    } else if d == 5 {
        "5"
    } else if d == 6 {
        "6"
    } else if d == 7 {
        "7"
    } else if d == 8 {
        "8"
    } else {
        "9"
    };
    assert(text@ =~= seq![digit(d as nat)]);
    text
}

/// Writes `n` in decimal.
pub fn decimal_string(n: u32) -> (text: String)
    ensures
        text@ == decimal(n as nat),
    decreases n,
{
    if n < 10 {
        String::from_str(digit_text(n))
    } else {
        let mut text = decimal_string(n / 10);
        text.append(digit_text(n % 10));
        text
    }
}

/// The address that the provisioning server binds to for `port`.
pub fn provision_endpoint(port: u32) -> (endpoint: String)
    ensures
        endpoint@ == any_interface(port),
{
    let mut endpoint = String::from_str("0.0.0.0:");
    let digits = decimal_string(port);
    endpoint.append(digits.as_str());
    endpoint
}

/// The text and the kind of the message that a push command sends. Every
/// command has a message.
pub fn message(subcommand: PushSubcommands) -> (message: Result<(String, PushType), PolyRestError>)
    ensures
        message is Ok,
        message->Ok_0.0@ == message_text(subcommand),
        message->Ok_0.1 == message_kind(subcommand),
{
    match subcommand {
        PushSubcommands::Alert { header, str_msg } => {
            let text = render_alert_template(header, str_msg)?;
            Ok((text, PushType::HTML))
        },
        PushSubcommands::Html { msg } => Ok((msg, PushType::HTML)),
        PushSubcommands::Cmd { subcommand } => {
            let text = match subcommand {
                PushCmdSubcommands::Dial { number } => {
                    let mut text = String::from_str("tel:\\");
                    text.append(number.as_str());
                    text
                },
                PushCmdSubcommands::Key { key } => {
                    let mut text = String::from_str("Key:");
                    text.append(key.as_str());
                    text
                },
                PushCmdSubcommands::Raw { msg } => msg,
            };
            Ok((text, PushType::Command))
        },
    }
}

/// Begins the delivery that a push command asks for. The messenger
/// accepts any certificate and gives each request `timeout` seconds.
pub fn run_msg_cmd(
    username: String,
    password: String,
    url: String,
    subcommand: PushSubcommands,
    level: MessageLevel,
    timeout: Option<u64>,
) -> (delivery: Result<Unauthenticated, PolyRestError>)
    ensures
        delivery is Ok,
        delivery->Ok_0.endpoint@ == push_endpoint(url@),
        delivery->Ok_0.username@ == username@,
        delivery->Ok_0.password@ == password@,
        delivery->Ok_0.kind == message_kind(subcommand),
        delivery->Ok_0.body@ == wire_document(level, message_text(subcommand)),
        delivery->Ok_0.insecure,
        delivery->Ok_0.timeout == timeout,
{
    let handler = PushMessenger::new(username, password, url, true).with_timeout(timeout);
    let (text, kind) = message(subcommand)?;
    handler.send(level, text.as_str(), kind)
}

/// The request that reads or changes the configuration.
pub fn run_cfg_getset(handler: &PolyRest, subcommand: ConfigSetGetSubcommand) -> (request: Result<
    RestRequest,
    PolyRestError,
>)
    ensures
        request is Ok,
        request->Ok_0@ == config_request(*handler, subcommand),
{
    match subcommand {
        ConfigSetGetSubcommand::Get { value } => handler.config_get(value.as_str()),
        ConfigSetGetSubcommand::Put { key, value } => handler.config_set(
            key.as_str(),
            value.as_str(),
        ),
    }
}

/// The request for a configuration command.
pub open spec fn config_request(
    handler: PolyRest,
    subcommand: ConfigSetGetSubcommand,
) -> crate::polyrest::RestRequestView {
    match subcommand {
        ConfigSetGetSubcommand::Get { value } => post_request(
            handler,
            "/api/v1/mgmt/config/get"@,
            get_body(value@),
        ),
        ConfigSetGetSubcommand::Put { key, value } => post_request(
            handler,
            "/api/v1/mgmt/config/set"@,
            set_body(key@, value@),
        ),
    }
}

/// The request for a REST command, or `None` for a command that asks for
/// nothing.
pub open spec fn rest_request(handler: PolyRest, cmd: RestCommands) -> Option<
    crate::polyrest::RestRequestView,
> {
    match cmd {
        RestCommands::Ctrl => None,
        RestCommands::Mgmt { subcommand } => Some(
            match subcommand {
                MgmtCommands::Info => get_request(handler, "/api/v1/mgmt/device/info"@),
                MgmtCommands::Network => get_request(handler, "/api/v1/mgmt/network/info"@),
                MgmtCommands::NetStats => get_request(handler, "/api/v1/mgmt/network/stats"@),
                MgmtCommands::Config { subcommand } => config_request(handler, subcommand),
            },
        ),
    }
}

/// How the answer to `cmd` is to be read: each query as what it asks
/// for, and what sets a parameter, or asks for nothing, as it came.
pub open spec fn shown(cmd: RestCommands) -> Shown {
    match cmd {
        RestCommands::Ctrl => Shown::Raw,
        RestCommands::Mgmt { subcommand } => match subcommand {
            MgmtCommands::Info => Shown::DeviceInfo,
            MgmtCommands::Network => Shown::NetworkInfo,
            MgmtCommands::NetStats => Shown::NetworkStats,
            MgmtCommands::Config { subcommand } => match subcommand {
                ConfigSetGetSubcommand::Get { .. } => Shown::Config,
                ConfigSetGetSubcommand::Put { .. } => Shown::Raw,
            },
        },
    }
}

/// Says how the answer to `cmd` is to be read.
pub fn answer_shown(cmd: &RestCommands) -> (how: Shown)
    ensures
        how == shown(*cmd),
{
    match cmd {
        RestCommands::Ctrl => Shown::Raw,
        RestCommands::Mgmt { subcommand } => match subcommand {
            MgmtCommands::Info => Shown::DeviceInfo,
            MgmtCommands::Network => Shown::NetworkInfo,
            MgmtCommands::NetStats => Shown::NetworkStats,
            MgmtCommands::Config { subcommand } => match subcommand {
                ConfigSetGetSubcommand::Get { .. } => Shown::Config,
                ConfigSetGetSubcommand::Put { .. } => Shown::Raw,
            },
        },
    }
}

/// The handler that REST commands go through: it accepts any
/// certificate.
pub open spec fn rest_handler(username: String, password: String, url: String) -> PolyRest {
    PolyRest { username, password, url, insecure: true }
}

/// The request that a REST command asks for.
pub fn run_rest_cmd(username: String, password: String, url: String, cmd: RestCommands) -> (request:
    Result<Option<RestRequest>, PolyRestError>)
    ensures
        request is Ok,
        match request->Ok_0 {
            Some(request) => Some(request@) == rest_request(
                rest_handler(username, password, url),
                cmd,
            ),
            None => rest_request(rest_handler(username, password, url), cmd) is None,
        },
{
    let handler = PolyRest::new(username, password, url, true);
    match cmd {
        RestCommands::Ctrl => Ok(None),
        RestCommands::Mgmt { subcommand } => {
            match subcommand {
                MgmtCommands::Info => Ok(Some(handler.device_info())),
                MgmtCommands::Network => Ok(Some(handler.network_info())),
                MgmtCommands::NetStats => Ok(Some(handler.network_stats())),
                MgmtCommands::Config { subcommand } => {
                    let request = run_cfg_getset(&handler, subcommand)?;
                    Ok(Some(request))
                },
            }
        },
    }
}

/// Turns a command line into what it asks for. Every command line asks
/// for something that can be planned.
pub fn run(args: Cli) -> (plan: Result<Plan, PolyRestError>)
    ensures
        plan is Ok,
        match args.command {
            Commands::Provisioner { port, path } => plan is Ok && plan->Ok_0 == (Plan::Provision {
                endpoint: plan->Ok_0->Provision_endpoint,
                path,
            }) && plan->Ok_0->Provision_endpoint@ == any_interface(port),
            Commands::Rest { subcommand } => plan is Ok && plan->Ok_0 is Rest && (match plan->Ok_0->Rest_0 {
                Some(request) => Some(request@),
                None => None,
            }) == rest_request(rest_handler(args.user, args.pass, args.url), subcommand),
            Commands::Push { level, subcommand } => {
                &&& plan is Ok
                &&& plan->Ok_0 is Push
                &&& plan->Ok_0->Push_0.endpoint@ == push_endpoint(args.url@)
                &&& plan->Ok_0->Push_0.username@ == args.user@
                &&& plan->Ok_0->Push_0.password@ == args.pass@
                &&& plan->Ok_0->Push_0.kind == message_kind(subcommand)
                &&& plan->Ok_0->Push_0.body@ == wire_document(level, message_text(subcommand))
                &&& plan->Ok_0->Push_0.insecure
                &&& plan->Ok_0->Push_0.timeout == args.timeout
            },
        },
{
    match args.command {
        Commands::Rest { subcommand } => {
            let request = run_rest_cmd(args.user, args.pass, args.url, subcommand)?;
            Ok(Plan::Rest(request))
        },
        Commands::Push { subcommand, level } => {
            let delivery = run_msg_cmd(
                args.user,
                args.pass,
                args.url,
                subcommand,
                level,
                args.timeout,
            )?;
            Ok(Plan::Push(delivery))
        },
        Commands::Provisioner { port, path } => Ok(
            Plan::Provision { endpoint: provision_endpoint(port), path },
        ),
    }
}

} // verus!
