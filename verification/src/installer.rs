//! The steps of the installer that choose, configure and start the
//! `bitcoind` that the wallet will talk to. Each step decides; what it
//! decides to have done on the machine comes back to it as a message or as
//! an outcome.

use crate::form::FormValue;
use crate::internal_bitcoind::{
    bitcoind_default_address, default_address, InternalBitcoindConfig,
    InternalBitcoindConfigError, InternalBitcoindNetworkConfig, error_text, PRUNE_DEFAULT,
};
use crate::network::Network;
use crate::text::{contains, is_substring};
use vstd::prelude::*;
use vstd::string::*;

verus! {

/// How to reach a `bitcoind`.
#[derive(Clone, Debug, PartialEq, Eq)]
pub struct BitcoindConfig {
    /// Path of the cookie file that authenticates RPC calls.
    pub cookie_path: String,
    /// Address of the RPC server.
    pub addr: String,
}

/// What it takes to run a `bitcoind`.
#[derive(Clone, Debug, PartialEq, Eq)]
pub struct InternalBitcoindExeConfig {
    /// Path of the executable.
    pub exe_path: String,
    /// Its data directory.
    pub data_dir: String,
}

/// What the installer has settled so far.
#[derive(Clone, Debug)]
pub struct Context {
    /// The network of the wallet.
    pub network: Network,
    /// How to reach `bitcoind`, once known.
    pub bitcoind_config: Option<BitcoindConfig>,
    /// Whether the user runs `bitcoind` on their own.
    pub bitcoind_is_external: bool,
    /// The `bitcoin.conf` of a `bitcoind` that the installer runs.
    pub internal_bitcoind_config: Option<InternalBitcoindConfig>,
    /// The executable and data directory of that `bitcoind`.
    pub internal_bitcoind_exe_config: Option<InternalBitcoindExeConfig>,
    /// The descriptor of the wallet, in its text form.
    pub descriptor: Option<String>,
    /// Fingerprint, in its text form, of a signer that was recovered from
    /// a mnemonic.
    pub recovered_signer: Option<String>,
}

/// Why a `bitcoind` run by the installer did not come up.
#[derive(Clone, Debug, PartialEq, Eq)]
pub enum StartInternalBitcoindError {
    CommandError(String),
    CouldNotCanonicalizeDataDir(String),
    CouldNotCanonicalizeCookiePath(String),
    CookieFileNotFound(String),
    BitcoinDError(String),
}

/// The choice between a `bitcoind` of the user's and one of the
/// installer's.
#[derive(Clone, Debug, PartialEq, Eq)]
pub enum SelectBitcoindTypeMsg {
    UseExternal(bool),
}

/// What the step that defines an external `bitcoind` reacts to.
#[derive(Debug, PartialEq, Eq)]
pub enum DefineBitcoindMsg {
    PingBitcoind,
    PingBitcoindResult(Result<(), String>),
    AddressEdited(String),
    CookiePathEdited(String),
}

/// What the step that runs a `bitcoind` reacts to.
#[derive(Clone, Copy, Debug, PartialEq, Eq, Structural)]
pub enum InternalBitcoindMsg {
    Previous,
    Reload,
    DefineConfig,
    Start,
}

/// What the steps of the installer react to.
#[derive(Debug, PartialEq, Eq)]
pub enum Message {
    Next,
    Previous,
    Install,
    /// The outcome of the installation: the path of the configuration
    /// file, or the error in words.
    Installed(Result<String, String>),
    SelectBitcoindType(SelectBitcoindTypeMsg),
    DefineBitcoind(DefineBitcoindMsg),
    InternalBitcoind(InternalBitcoindMsg),
}

/// What the caller is to do after a step took a message.
#[derive(Debug, PartialEq, Eq)]
pub enum Command {
    /// Nothing.
    Idle,
    /// Hand the message to the installer.
    Send(Message),
    /// Call the `bitcoind` at `address` with the cookie at `cookie_path`,
    /// and hand the outcome back as a `PingBitcoindResult`.
    Ping { address: String, cookie_path: String },
    /// Stop the `bitcoind` that is reached this way, if one is given, and
    /// go back to the previous step.
    StopAndGoBack(Option<BitcoindConfig>),
    /// Read the `bitcoin.conf` of the data directory, and hand the outcome
    /// to `InternalBitcoindStep::config_loaded`.
    LoadConfig,
    /// Start `bitcoind`, wait for its cookie file and check that it can be
    /// reached at the port that `InternalBitcoindStep::configured_rpc_port`
    /// gives; hand the outcome to `InternalBitcoindStep::started`.
    StartBitcoind { exe_path: String },
}

/// The first step, which only greets the user.
#[derive(Clone, Copy, Debug, Default, PartialEq, Eq)]
pub struct Welcome {}

/// The step that asks whether the user runs `bitcoind` on their own.
#[derive(Clone, Copy, Debug, PartialEq, Eq, Structural)]
pub struct SelectBitcoindTypeStep {
    pub use_external: bool,
}

impl Default for SelectBitcoindTypeStep {
    fn default() -> (r: Self)
        ensures
            r.use_external,
    {
        Self::new()
    }
}

impl SelectBitcoindTypeStep {
    /// The step as it starts: an external `bitcoind` is assumed.
    pub fn new() -> (r: Self)
        ensures
            r.use_external,
    {
        Self { use_external: true }
    }

    /// Takes the user's choice and moves on; any other message is ignored.
    pub fn update(&mut self, message: Message) -> (command: Command)
        ensures
            match message {
                Message::SelectBitcoindType(SelectBitcoindTypeMsg::UseExternal(selected)) => {
                    &&& final(self).use_external == selected
                    &&& command == Command::Send(Message::Next)
                },
                _ => *final(self) == *old(self) && command == Command::Idle,
            },
    {
        match message {
            Message::SelectBitcoindType(SelectBitcoindTypeMsg::UseExternal(selected)) => {
                self.use_external = selected;
                Command::Send(Message::Next)
            },
            _ => Command::Idle,
        }
    }

    /// Records the choice. With an external `bitcoind` what was set up for
    /// an internal one is forgotten; with an internal one that is not
    /// configured yet, so is the way to reach the external one.
    pub fn apply(&mut self, ctx: &mut Context) -> (r: bool)
        ensures
            r,
            *final(self) == *old(self),
            final(ctx).bitcoind_is_external == old(self).use_external,
            final(ctx).network == old(ctx).network,
            final(ctx).descriptor == old(ctx).descriptor,
            final(ctx).recovered_signer == old(ctx).recovered_signer,
            final(ctx).bitcoind_config == if !old(self).use_external
                && old(ctx).internal_bitcoind_config.is_none() {
                None
            } else {
                old(ctx).bitcoind_config
            },
            final(ctx).internal_bitcoind_config == if old(self).use_external {
                None
            } else {
                old(ctx).internal_bitcoind_config
            },
            final(ctx).internal_bitcoind_exe_config == if old(self).use_external {
                None
            } else {
                old(ctx).internal_bitcoind_exe_config
            },
    {
        if !self.use_external {
            if ctx.internal_bitcoind_config.is_none() {
                ctx.bitcoind_config = None;
            }
        } else {
            ctx.internal_bitcoind_config = None;
            ctx.internal_bitcoind_exe_config = None;
        }
        ctx.bitcoind_is_external = self.use_external;
        true
    }
}

/// The step that asks how to reach the user's own `bitcoind`.
#[derive(Debug)]
pub struct DefineBitcoind {
    pub cookie_path: FormValue,
    pub address: FormValue,
    /// Outcome of the last call of `bitcoind`; `None` while none was made
    /// since the last edit.
    pub is_running: Option<Result<(), String>>,
}

impl Default for DefineBitcoind {
    fn default() -> (r: Self)
        ensures
            r.cookie_path@.value.len() == 0 && r.cookie_path@.valid,
            r.address@.value.len() == 0 && r.address@.valid,
            r.is_running.is_none(),
    {
        Self::new()
    }
}

impl DefineBitcoind {
    /// The step as it starts: both fields empty.
    pub fn new() -> (r: Self)
        ensures
            r.cookie_path@.value.len() == 0 && r.cookie_path@.valid,
            r.address@.value.len() == 0 && r.address@.valid,
            r.is_running.is_none(),
    {
        Self { cookie_path: FormValue::new(), address: FormValue::new(), is_running: None }
    }

    /// The call of `bitcoind` that tells whether it can be reached with
    /// what the two fields hold.
    pub fn ping(&self) -> (command: Command)
        ensures
            command == (Command::Ping {
                address: self.address.value,
                cookie_path: self.cookie_path.value,
            }),
    {
        Command::Ping {
            address: self.address.value.clone(),
            cookie_path: self.cookie_path.value.clone(),
        }
    }

    /// Fills the fields that are empty with the defaults of the network:
    /// the cookie path with `default_cookie_path`, or with nothing where
    /// there is none, and the address with that of a local `bitcoind`.
    pub fn load_context(&mut self, ctx: &Context, default_cookie_path: Option<String>)
        ensures
            final(self).cookie_path@.valid == old(self).cookie_path@.valid,
            final(self).address@.valid == old(self).address@.valid,
            final(self).is_running == old(self).is_running,
            final(self).cookie_path@.value == if old(self).cookie_path@.value.len() > 0 {
                old(self).cookie_path@.value
            } else {
                match default_cookie_path {
                    Some(path) => path@,
                    None => Seq::<char>::empty(),
                }
            },
            final(self).address@.value == if old(self).address@.value.len() > 0 {
                old(self).address@.value
            } else {
                default_address(ctx.network)
            },
    {
        if self.cookie_path.value.as_str().is_empty() {
            self.cookie_path.value = match default_cookie_path {
                Some(path) => path,
                None => String::new(),
            };
        }
        if self.address.value.as_str().is_empty() {
            self.address.value = bitcoind_default_address(&ctx.network);
        }
    }

    /// Takes a message. An edit takes the text over and forgets the outcome
    /// of the last call; a request to call `bitcoind` does so too and has
    /// the call made; the outcome of a call is kept. After an edit of either
    /// field the address counts as valid again.
    pub fn update(&mut self, message: Message) -> (command: Command)
        ensures
            match message {
                Message::DefineBitcoind(DefineBitcoindMsg::PingBitcoind) => {
                    &&& final(self).is_running.is_none()
                    &&& final(self).address == old(self).address
                    &&& final(self).cookie_path == old(self).cookie_path
                    &&& command == (Command::Ping {
                        address: old(self).address.value,
                        cookie_path: old(self).cookie_path.value,
                    })
                },
                Message::DefineBitcoind(DefineBitcoindMsg::PingBitcoindResult(outcome)) => {
                    &&& final(self).is_running == Some(outcome)
                    &&& final(self).address == old(self).address
                    &&& final(self).cookie_path == old(self).cookie_path
                    &&& command == Command::Idle
                },
                Message::DefineBitcoind(DefineBitcoindMsg::AddressEdited(address)) => {
                    &&& final(self).is_running.is_none()
                    &&& final(self).address.value == address
                    &&& final(self).address.valid
                    &&& final(self).cookie_path == old(self).cookie_path
                    &&& command == Command::Idle
                },
                Message::DefineBitcoind(DefineBitcoindMsg::CookiePathEdited(path)) => {
                    &&& final(self).is_running.is_none()
                    &&& final(self).cookie_path.value == path
                    &&& final(self).cookie_path.valid == old(self).cookie_path.valid
                    &&& final(self).address.value == old(self).address.value
                    &&& final(self).address.valid
                    &&& command == Command::Idle
                },
                _ => *final(self) == *old(self) && command == Command::Idle,
            },
    {
        match message {
            Message::DefineBitcoind(msg) => {
                match msg {
                    DefineBitcoindMsg::PingBitcoind => {
                        self.is_running = None;
                        return self.ping();
                    },
                    DefineBitcoindMsg::PingBitcoindResult(outcome) => {
                        self.is_running = Some(outcome);
                    },
                    DefineBitcoindMsg::AddressEdited(address) => {
                        self.is_running = None;
                        self.address.value = address;
                        self.address.valid = true;
                    },
                    DefineBitcoindMsg::CookiePathEdited(path) => {
                        self.is_running = None;
                        self.cookie_path.value = path;
                        self.address.valid = true;
                    },
                }
            },
            _ => {},
        }
        Command::Idle
    }

    /// Records how to reach `bitcoind`, if the address field holds a socket
    /// address; `address_parses` tells whether it does. If not, the field
    /// is flagged and nothing is recorded.
    pub fn apply(&mut self, ctx: &mut Context, address_parses: bool) -> (r: bool)
        ensures
            r == address_parses,
            final(self).cookie_path == old(self).cookie_path,
            final(self).is_running == old(self).is_running,
            final(self).address.value == old(self).address.value,
            final(self).address.valid == (old(self).address.valid && address_parses),
            final(ctx).network == old(ctx).network,
            final(ctx).bitcoind_is_external == old(ctx).bitcoind_is_external,
            final(ctx).internal_bitcoind_config == old(ctx).internal_bitcoind_config,
            final(ctx).internal_bitcoind_exe_config == old(ctx).internal_bitcoind_exe_config,
            final(ctx).descriptor == old(ctx).descriptor,
            final(ctx).recovered_signer == old(ctx).recovered_signer,
            final(ctx).bitcoind_config == if address_parses {
                Some(
                    BitcoindConfig {
                        cookie_path: old(self).cookie_path.value,
                        addr: old(self).address.value,
                    },
                )
            } else {
                old(ctx).bitcoind_config
            },
    {
        if address_parses {
            ctx.bitcoind_config = Some(
                BitcoindConfig {
                    cookie_path: self.cookie_path.value.clone(),
                    addr: self.address.value.clone(),
                },
            );
            true
        } else {
            self.address.valid = false;
            false
        }
    }

    /// What to do when the step is shown: call `bitcoind`.
    pub fn load(&self) -> (command: Command)
        ensures
            command == (Command::Ping {
                address: self.address.value,
                cookie_path: self.cookie_path.value,
            }),
    {
        self.ping()
    }

    /// Whether the step is passed over: it is, unless the user runs
    /// `bitcoind` on their own.
    pub fn skip(&self, ctx: &Context) -> (r: bool)
        ensures
            r == !ctx.bitcoind_is_external,
    {
        !ctx.bitcoind_is_external
    }
}

/// What becomes of a configuration that is being defined.
#[derive(Debug)]
pub enum DefineConfig {
    /// It cannot be defined; the step holds the error.
    Failed,
    /// It lacks the network: two free ports are to be found and handed,
    /// with it, to `InternalBitcoindStep::ports_chosen`.
    ChoosePorts(InternalBitcoindConfig),
    /// It is to be written to the `bitcoin.conf` of the data directory, and
    /// handed, with the outcome, to `InternalBitcoindStep::config_written`.
    Write(InternalBitcoindConfig),
}

/// A `bitcoind` that came up: what runs it, and how to reach it.
#[derive(Debug)]
pub struct StartedBitcoind {
    pub exe_config: InternalBitcoindExeConfig,
    pub bitcoind_config: BitcoindConfig,
}

/// The step that configures and starts a `bitcoind` of the installer's.
#[derive(Debug)]
pub struct InternalBitcoindStep {
    pub bitcoind_datadir: String,
    pub network: Network,
    /// Outcome of the last start; `None` while none was tried.
    pub started: Option<Result<(), StartInternalBitcoindError>>,
    pub exe_path: Option<String>,
    pub bitcoind_config: Option<BitcoindConfig>,
    pub exe_config: Option<InternalBitcoindExeConfig>,
    pub internal_bitcoind_config: Option<InternalBitcoindConfig>,
    pub error: Option<String>,
}

/// What tells the user that both ports came out the same.
pub open spec fn same_ports_text() -> Seq<char> {
    "Could not get distinct ports. Please try again."@
}

/// What tells the user that one port could not be had.
pub open spec fn port_error_text(error: Seq<char>) -> Seq<char> {
    "Could not get available port: "@ + error + "."@
}

/// What tells the user that neither port could be had.
pub open spec fn ports_error_text(first: Seq<char>, second: Seq<char>) -> Seq<char> {
    "Could not get available ports: "@ + first + "; "@ + second + "."@
}

/// Whether a step has been started with success.
pub open spec fn is_up(started: Option<Result<(), StartInternalBitcoindError>>) -> bool {
    started matches Some(Ok(_))
}

impl InternalBitcoindStep {
    /// The step as it starts, for a `bitcoind` with the given data
    /// directory.
    pub fn new(bitcoind_datadir: String) -> (r: Self)
        ensures
            r.bitcoind_datadir == bitcoind_datadir,
            r.network == Network::Bitcoin,
            r.started.is_none(),
            r.exe_path.is_none(),
            r.bitcoind_config.is_none(),
            r.exe_config.is_none(),
            r.internal_bitcoind_config.is_none(),
            r.error.is_none(),
    {
        Self {
            bitcoind_datadir,
            network: Network::Bitcoin,
            started: None,
            exe_path: None,
            bitcoind_config: None,
            exe_config: None,
            internal_bitcoind_config: None,
            error: None,
        }
    }

    /// Takes the network from the context, and the executable from it or,
    /// where it names none, from `found_exe`, unless one is known already.
    /// A `bitcoind` that was started counts as not started where the
    /// context no longer knows how to reach it.
    pub fn load_context(&mut self, ctx: &Context, found_exe: Option<String>)
        ensures
            final(self).network == ctx.network,
            final(self).exe_path == if old(self).exe_path.is_some() {
                old(self).exe_path
            } else {
                match ctx.internal_bitcoind_exe_config {
                    Some(exe_config) => Some(exe_config.exe_path),
                    None => found_exe,
                }
            },
            final(self).started == if is_up(old(self).started) && ctx.bitcoind_config.is_none() {
                None
            } else {
                old(self).started
            },
            final(self).bitcoind_datadir == old(self).bitcoind_datadir,
            final(self).bitcoind_config == old(self).bitcoind_config,
            final(self).exe_config == old(self).exe_config,
            final(self).internal_bitcoind_config == old(self).internal_bitcoind_config,
            final(self).error == old(self).error,
    {
        if self.exe_path.is_none() {
            self.exe_path = match &ctx.internal_bitcoind_exe_config {
                Some(exe_config) => Some(exe_config.exe_path.clone()),
                None => found_exe,
            };
        }
        self.network = ctx.network;
        let up: bool = match &self.started {
            Some(Ok(_)) => true,
            _ => false,
        };
        if up && ctx.bitcoind_config.is_none() {
            self.started = None;
        }
    }

    /// What to do when the step is shown: define the configuration while
    /// there is none, then start `bitcoind` while no start was tried.
    pub fn load(&self) -> (command: Command)
        ensures
            command == if self.internal_bitcoind_config.is_none() {
                Command::Send(Message::InternalBitcoind(InternalBitcoindMsg::DefineConfig))
            } else if self.started.is_none() {
                Command::Send(Message::InternalBitcoind(InternalBitcoindMsg::Start))
            } else {
                Command::Idle
            },
    {
        if self.internal_bitcoind_config.is_none() {
            return Command::Send(Message::InternalBitcoind(InternalBitcoindMsg::DefineConfig));
        }
        if self.started.is_none() {
            return Command::Send(Message::InternalBitcoind(InternalBitcoindMsg::Start));
        }
        Command::Idle
    }

    /// The port at which the configured `bitcoind` serves RPC on the
    /// step's network, where the configuration names one.
    pub open spec fn rpc_port(&self) -> Option<u16> {
        match self.internal_bitcoind_config {
            Some(config) => if config@.contains_key(self.network) {
                Some(config@[self.network].rpc_port)
            } else {
                None
            },
            None => None,
        }
    }

    /// Tells the port at which the configured `bitcoind` serves RPC on the
    /// step's network, where the configuration names one.
    pub fn configured_rpc_port(&self) -> (r: Option<u16>)
        ensures
            r == self.rpc_port(),
    {
        match &self.internal_bitcoind_config {
            Some(config) => match config.get(self.network) {
                Some(network_config) => Some(network_config.rpc_port),
                None => None,
            },
            None => None,
        }
    }

    /// What a message calls for. The step itself changes only when the
    /// outcome of what was called for comes back.
    pub fn update(&self, message: Message) -> (command: Command)
        ensures
            command == match message {
                Message::InternalBitcoind(InternalBitcoindMsg::Previous) => Command::StopAndGoBack(
                    if self.internal_bitcoind_config.is_some() {
                        self.bitcoind_config
                    } else {
                        None
                    },
                ),
                Message::InternalBitcoind(InternalBitcoindMsg::Reload) => if
                self.internal_bitcoind_config.is_none() {
                    Command::Send(Message::InternalBitcoind(InternalBitcoindMsg::DefineConfig))
                } else if self.started.is_none() {
                    Command::Send(Message::InternalBitcoind(InternalBitcoindMsg::Start))
                } else {
                    Command::Idle
                },
                Message::InternalBitcoind(InternalBitcoindMsg::DefineConfig) => Command::LoadConfig,
                Message::InternalBitcoind(InternalBitcoindMsg::Start) => match self.exe_path {
                    Some(exe_path) => Command::StartBitcoind { exe_path },
                    None => Command::Idle,
                },
                _ => Command::Idle,
            },
    {
        match message {
            Message::InternalBitcoind(msg) => {
                match msg {
                    InternalBitcoindMsg::Previous => {
                        if self.internal_bitcoind_config.is_some() {
                            Command::StopAndGoBack(
                                match &self.bitcoind_config {
                                    Some(config) => Some(
                                        BitcoindConfig {
                                            cookie_path: config.cookie_path.clone(),
                                            addr: config.addr.clone(),
                                        },
                                    ),
                                    None => None,
                                },
                            )
                        } else {
                            Command::StopAndGoBack(None)
                        }
                    },
                    InternalBitcoindMsg::Reload => self.load(),
                    InternalBitcoindMsg::DefineConfig => Command::LoadConfig,
                    InternalBitcoindMsg::Start => {
                        match &self.exe_path {
                            Some(exe_path) => Command::StartBitcoind { exe_path: exe_path.clone() },
                            None => Command::Idle,
                        }
                    },
                }
            },
            _ => Command::Idle,
        }
    }

    /// Takes what reading `bitcoin.conf` gave. A file that is not there
    /// stands for an empty configuration; any other error is kept and ends
    /// the attempt. A configuration that lacks the network needs ports; one
    /// that names it is written back as it is.
    pub fn config_loaded(
        &mut self,
        loaded: Result<InternalBitcoindConfig, InternalBitcoindConfigError>,
    ) -> (next: DefineConfig)
        ensures
            final(self).bitcoind_datadir == old(self).bitcoind_datadir,
            final(self).network == old(self).network,
            final(self).started == old(self).started,
            final(self).exe_path == old(self).exe_path,
            final(self).bitcoind_config == old(self).bitcoind_config,
            final(self).exe_config == old(self).exe_config,
            final(self).internal_bitcoind_config == old(self).internal_bitcoind_config,
            match loaded {
                Ok(config) => final(self).error == old(self).error && next == if config@.contains_key(
                    old(self).network,
                ) {
                    DefineConfig::Write(config)
                } else {
                    DefineConfig::ChoosePorts(config)
                },
                Err(InternalBitcoindConfigError::FileNotFound) => {
                    &&& final(self).error == old(self).error
                    &&& next matches DefineConfig::ChoosePorts(config) && config@ == Map::<
                        Network,
                        InternalBitcoindNetworkConfig,
                    >::empty()
                },
                Err(e) => {
                    &&& next == DefineConfig::Failed
                    &&& final(self).error matches Some(text) && text@ == error_text(e)
                },
            },
    {
        let config: InternalBitcoindConfig = match loaded {
            Ok(config) => config,
            Err(InternalBitcoindConfigError::FileNotFound) => InternalBitcoindConfig::new(),
            Err(e) => {
                self.error = Some(e.message());
                return DefineConfig::Failed;
            },
        };
        if config.get(self.network).is_none() {
            DefineConfig::ChoosePorts(config)
        } else {
            DefineConfig::Write(config)
        }
    }

    /// Takes the two ports that were found free, or the errors in words.
    /// Two different ports become the RPC port and the peer port of the
    /// network, with the default prune target, and the configuration is to
    /// be written. The same port twice, or an error, is kept as the step's
    /// error and ends the attempt.
    pub fn ports_chosen(
        &mut self,
        config: InternalBitcoindConfig,
        rpc_port: Result<u16, String>,
        p2p_port: Result<u16, String>,
    ) -> (next: DefineConfig)
        ensures
            final(self).bitcoind_datadir == old(self).bitcoind_datadir,
            final(self).network == old(self).network,
            final(self).started == old(self).started,
            final(self).exe_path == old(self).exe_path,
            final(self).bitcoind_config == old(self).bitcoind_config,
            final(self).exe_config == old(self).exe_config,
            final(self).internal_bitcoind_config == old(self).internal_bitcoind_config,
            match (rpc_port, p2p_port) {
                (Ok(rpc), Ok(p2p)) => if rpc == p2p {
                    &&& next == DefineConfig::Failed
                    &&& final(self).error matches Some(text) && text@ == same_ports_text()
                } else {
                    &&& final(self).error == old(self).error
                    &&& next matches DefineConfig::Write(written) && written@ == config@.insert(
                        old(self).network,
                        InternalBitcoindNetworkConfig {
                            rpc_port: rpc,
                            p2p_port: p2p,
                            prune: PRUNE_DEFAULT,
                        },
                    )
                },
                (Ok(_), Err(e)) => {
                    &&& next == DefineConfig::Failed
                    &&& final(self).error matches Some(text) && text@ == port_error_text(e@)
                },
                (Err(e), Ok(_)) => {
                    &&& next == DefineConfig::Failed
                    &&& final(self).error matches Some(text) && text@ == port_error_text(e@)
                },
                (Err(e1), Err(e2)) => {
                    &&& next == DefineConfig::Failed
                    &&& final(self).error matches Some(text) && text@ == ports_error_text(e1@, e2@)
                },
            },
    {
        let mut config = config;
        match (rpc_port, p2p_port) {
            (Ok(rpc), Ok(p2p)) => {
                if rpc == p2p {
                    self.error = Some(
                        String::from_str("Could not get distinct ports. Please try again."),
                    );
                    return DefineConfig::Failed;
                }
                config.insert(
                    self.network,
                    InternalBitcoindNetworkConfig { rpc_port: rpc, p2p_port: p2p, prune: PRUNE_DEFAULT },
                );
                DefineConfig::Write(config)
            },
            (Ok(_), Err(e)) => {
                self.error = Some(
                    String::from_str("Could not get available port: ").concat(e.as_str()).concat(
                        ".",
                    ),
                );
                DefineConfig::Failed
            },
            (Err(e), Ok(_)) => {
                self.error = Some(
                    String::from_str("Could not get available port: ").concat(e.as_str()).concat(
                        ".",
                    ),
                );
                DefineConfig::Failed
            },
            (Err(e1), Err(e2)) => {
                self.error = Some(
                    String::from_str("Could not get available ports: ").concat(e1.as_str()).concat(
                        "; ",
                    ).concat(e2.as_str()).concat("."),
                );
                DefineConfig::Failed
            },
        }
    }

    /// Takes what writing `bitcoin.conf` gave. A configuration that was
    /// written becomes the step's, and the step is loaded again; an error
    /// is kept.
    pub fn config_written(
        &mut self,
        config: InternalBitcoindConfig,
        written: Result<(), InternalBitcoindConfigError>,
    ) -> (command: Command)
        ensures
            final(self).bitcoind_datadir == old(self).bitcoind_datadir,
            final(self).network == old(self).network,
            final(self).started == old(self).started,
            final(self).exe_path == old(self).exe_path,
            final(self).bitcoind_config == old(self).bitcoind_config,
            final(self).exe_config == old(self).exe_config,
            match written {
                Ok(_) => {
                    &&& final(self).error.is_none()
                    &&& final(self).internal_bitcoind_config == Some(config)
                    &&& command == Command::Send(
                        Message::InternalBitcoind(InternalBitcoindMsg::Reload),
                    )
                },
                Err(e) => {
                    &&& final(self).error matches Some(text) && text@ == error_text(e)
                    &&& final(self).internal_bitcoind_config == old(self).internal_bitcoind_config
                    &&& command == Command::Idle
                },
            },
    {
        match written {
            Ok(_) => {
                self.error = None;
                self.internal_bitcoind_config = Some(config);
                Command::Send(Message::InternalBitcoind(InternalBitcoindMsg::Reload))
            },
            Err(e) => {
                self.error = Some(e.message());
                Command::Idle
            },
        }
    }

    /// Takes the outcome of a start. A `bitcoind` that came up is kept
    /// with what runs it and the error is dropped; a failure is kept as the
    /// outcome and changes nothing else.
    pub fn started(&mut self, outcome: Result<StartedBitcoind, StartInternalBitcoindError>)
        ensures
            final(self).bitcoind_datadir == old(self).bitcoind_datadir,
            final(self).network == old(self).network,
            final(self).exe_path == old(self).exe_path,
            final(self).internal_bitcoind_config == old(self).internal_bitcoind_config,
            match outcome {
                Ok(up) => {
                    &&& final(self).started == Some(Ok::<(), StartInternalBitcoindError>(()))
                    &&& final(self).bitcoind_config == Some(up.bitcoind_config)
                    &&& final(self).exe_config == Some(up.exe_config)
                    &&& final(self).error.is_none()
                },
                Err(e) => {
                    &&& final(self).started == Some(Err::<(), StartInternalBitcoindError>(e))
                    &&& final(self).bitcoind_config == old(self).bitcoind_config
                    &&& final(self).exe_config == old(self).exe_config
                    &&& final(self).error == old(self).error
                },
            },
    {
        match outcome {
            Ok(up) => {
                self.error = None;
                self.bitcoind_config = Some(up.bitcoind_config);
                self.exe_config = Some(up.exe_config);
                self.started = Some(Ok(()));
            },
            Err(e) => {
                self.started = Some(Err(e));
            },
        }
    }

    /// Records the `bitcoind` that came up; nothing is recorded, and the
    /// installer does not move on, while none did.
    pub fn apply(&mut self, ctx: &mut Context) -> (r: bool)
        ensures
            r == is_up(old(self).started),
            final(self).bitcoind_datadir == old(self).bitcoind_datadir,
            final(self).network == old(self).network,
            final(self).started == old(self).started,
            final(self).exe_path == old(self).exe_path,
            final(self).bitcoind_config == old(self).bitcoind_config,
            final(self).exe_config == old(self).exe_config,
            final(self).internal_bitcoind_config == old(self).internal_bitcoind_config,
            final(self).error == if r {
                None
            } else {
                old(self).error
            },
            final(ctx).network == old(ctx).network,
            final(ctx).bitcoind_is_external == old(ctx).bitcoind_is_external,
            final(ctx).descriptor == old(ctx).descriptor,
            final(ctx).recovered_signer == old(ctx).recovered_signer,
            final(ctx).bitcoind_config == if r {
                old(self).bitcoind_config
            } else {
                old(ctx).bitcoind_config
            },
            final(ctx).internal_bitcoind_config == if r {
                old(self).internal_bitcoind_config
            } else {
                old(ctx).internal_bitcoind_config
            },
            final(ctx).internal_bitcoind_exe_config == if r {
                old(self).exe_config
            } else {
                old(ctx).internal_bitcoind_exe_config
            },
    {
        let up: bool = match &self.started {
            Some(Ok(_)) => true,
            _ => false,
        };
        if up {
            ctx.bitcoind_config = match &self.bitcoind_config {
                Some(config) => Some(
                    BitcoindConfig {
                        cookie_path: config.cookie_path.clone(),
                        addr: config.addr.clone(),
                    },
                ),
                None => None,
            };
            ctx.internal_bitcoind_config = self.internal_bitcoind_config;
            ctx.internal_bitcoind_exe_config = match &self.exe_config {
                Some(config) => Some(
                    InternalBitcoindExeConfig {
                        exe_path: config.exe_path.clone(),
                        data_dir: config.data_dir.clone(),
                    },
                ),
                None => None,
            };
            self.error = None;
            return true;
        }
        false
    }

    /// The `bitcoind` to stop when the installer is closed: the one that
    /// this step brought up, if it did.
    pub fn stop(&self) -> (r: Option<BitcoindConfig>)
        ensures
            r == if is_up(self.started) {
                self.bitcoind_config
            } else {
                None
            },
    {
        let up: bool = match &self.started {
            Some(Ok(_)) => true,
            _ => false,
        };
        if up {
            match &self.bitcoind_config {
                Some(config) => Some(
                    BitcoindConfig {
                        cookie_path: config.cookie_path.clone(),
                        addr: config.addr.clone(),
                    },
                ),
                None => None,
            }
        } else {
            None
        }
    }

    /// Whether the step is passed over: it is where the user runs
    /// `bitcoind` on their own.
    pub fn skip(&self, ctx: &Context) -> (r: bool)
        ensures
            r == ctx.bitcoind_is_external,
    {
        ctx.bitcoind_is_external
    }
}

/// The last step: the installation itself.
#[derive(Debug)]
pub struct Final {
    pub generating: bool,
    pub context: Option<Context>,
    pub warning: Option<String>,
    pub config_path: Option<String>,
    /// Fingerprint of the signer that the installer made, in its text
    /// form.
    pub hot_signer_fingerprint: String,
    pub hot_signer_is_not_used: bool,
}

impl Final {
    /// The step as it starts.
    pub fn new(hot_signer_fingerprint: String) -> (r: Self)
        ensures
            r.context.is_none(),
            !r.generating,
            r.warning.is_none(),
            r.config_path.is_none(),
            r.hot_signer_fingerprint == hot_signer_fingerprint,
            !r.hot_signer_is_not_used,
    {
        Self {
            context: None,
            generating: false,
            warning: None,
            config_path: None,
            hot_signer_fingerprint,
            hot_signer_is_not_used: false,
        }
    }

    /// Takes the context over. A signer that was recovered becomes the hot
    /// signer; else the hot signer counts as used exactly when its
    /// fingerprint stands in the descriptor, which must then be there.
    pub fn load_context(&mut self, ctx: Context)
        requires
            ctx.recovered_signer.is_none() ==> ctx.descriptor.is_some(),
        ensures
            final(self).context == Some(ctx),
            final(self).generating == old(self).generating,
            final(self).warning == old(self).warning,
            final(self).config_path == old(self).config_path,
            match ctx.recovered_signer {
                Some(fingerprint) => {
                    &&& final(self).hot_signer_fingerprint == fingerprint
                    &&& !final(self).hot_signer_is_not_used
                },
                None => {
                    &&& final(self).hot_signer_fingerprint == old(self).hot_signer_fingerprint
                    &&& final(self).hot_signer_is_not_used == !is_substring(
                        ctx.descriptor.unwrap()@,
                        old(self).hot_signer_fingerprint@,
                    )
                },
            },
    {
        match &ctx.recovered_signer {
            Some(fingerprint) => {
                self.hot_signer_fingerprint = fingerprint.clone();
                self.hot_signer_is_not_used = false;
            },
            None => {
                let used: bool = match &ctx.descriptor {
                    Some(descriptor) => contains(
                        descriptor.as_str(),
                        self.hot_signer_fingerprint.as_str(),
                    ),
                    None => true,
                };
                self.hot_signer_is_not_used = !used;
            },
        }
        self.context = Some(ctx);
    }

    /// Takes a message: an installation that starts drops what the last
    /// one left, and one that ends leaves the path of the configuration
    /// file or a warning. Any other message is ignored.
    pub fn update(&mut self, message: Message) -> (command: Command)
        ensures
            command == Command::Idle,
            final(self).context == old(self).context,
            final(self).hot_signer_fingerprint == old(self).hot_signer_fingerprint,
            final(self).hot_signer_is_not_used == old(self).hot_signer_is_not_used,
            match message {
                Message::Installed(Ok(path)) => {
                    &&& !final(self).generating
                    &&& final(self).config_path == Some(path)
                    &&& final(self).warning == old(self).warning
                },
                Message::Installed(Err(e)) => {
                    &&& !final(self).generating
                    &&& final(self).config_path.is_none()
                    &&& final(self).warning == Some(e)
                },
                Message::Install => {
                    &&& final(self).generating
                    &&& final(self).config_path.is_none()
                    &&& final(self).warning.is_none()
                },
                _ => *final(self) == *old(self),
            },
    {
        match message {
            Message::Installed(outcome) => {
                self.generating = false;
                match outcome {
                    Err(e) => {
                        self.config_path = None;
                        self.warning = Some(e);
                    },
                    Ok(path) => {
                        self.config_path = Some(path);
                    },
                }
            },
            Message::Install => {
                self.generating = true;
                self.config_path = None;
                self.warning = None;
            },
            _ => {},
        }
        Command::Idle
    }

    /// The fingerprint to show: that of the hot signer, if it is used.
    pub fn shown_fingerprint(&self) -> (r: Option<&String>)
        ensures
            match r {
                Some(fingerprint) => !self.hot_signer_is_not_used && *fingerprint
                    == self.hot_signer_fingerprint,
                None => self.hot_signer_is_not_used,
            },
    {
        if self.hot_signer_is_not_used {
            None
        } else {
            Some(&self.hot_signer_fingerprint)
        }
    }
}

} // verus!
