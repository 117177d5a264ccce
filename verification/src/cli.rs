//! Validated command-line configuration.
//!
//! Argument parsing and terminal output live outside the verified core;
//! this module holds the parsed values and the rules that accept or
//! reject them.

use vstd::prelude::*;
use vstd::string::StringExecFns;

verus! {

/// How command output is rendered.
#[derive(Clone, Copy, Debug, PartialEq, Eq, Structural)]
pub enum OutputFormat {
    /// Plain text output.
    Text,
    /// JSON formatted output.
    Json,
}

/// The operation the user asked for.
#[derive(Debug, Clone)]
pub enum Commands {
    /// Execute a single command on the server.
    Exec { command: String, show_time: bool },
    /// Start an interactive session.
    Interactive { prompt: String, history: bool, history_size: usize },
    /// Test the connection to the server.
    Ping { count: u32, interval: u64 },
    /// Show server information.
    Info { detailed: bool },
    /// List online players.
    Players { show_uuids: bool },
}

/// The parsed command line.
#[derive(Debug, Clone)]
pub struct Cli {
    /// Server address as `host:port`.
    pub address: String,
    /// The RCON credential.
    pub password: String,
    /// Connection timeout in seconds.
    pub timeout: u64,
    /// Logging verbosity, as the number of times it was raised.
    pub verbose: u8,
    /// Output rendering.
    pub format: OutputFormat,
    /// Disable colored output.
    pub no_color: bool,
    /// The requested operation.
    pub command: Commands,
}

/// What `str::trim` yields.
pub uninterp spec fn trimmed(s: Seq<char>) -> Seq<char>;

/// Relies on `str::trim`: the result depends on the characters alone.
#[verifier::external_body]
fn trim_text(s: &str) -> (r: String)
    ensures
        r@ == trimmed(s@),
{
    s.trim().to_string()
}

/// The rejection the command line earns, if any: a zero timeout, an
/// empty credential, and then whatever the chosen operation cannot
/// accept — a blank command, a zero history size, a zero ping count or
/// interval.
pub open spec fn validation_error(c: Cli) -> Option<Seq<char>> {
    if c.timeout == 0 {
        Some("Timeout must be greater than 0"@)
    } else if c.password@.len() == 0 {
        Some("Password cannot be empty"@)
    } else {
        match c.command {
            Commands::Exec { command, .. } => if trimmed(command@).len() == 0 {
                Some("Command cannot be empty"@)
            } else {
                None
            },
            Commands::Interactive { history_size, .. } => if history_size == 0 {
                Some("History size must be greater than 0"@)
            } else {
                None
            },
            Commands::Ping { count, interval } => if count == 0 {
                Some("Ping count must be greater than 0"@)
            } else if interval == 0 {
                Some("Ping interval must be greater than 0"@)
            } else {
                None
            },
            _ => None,
        }
    }
}

impl Cli {
    /// The connection timeout in whole seconds.
    pub fn timeout_duration(&self) -> (r: u64)
        ensures
            r == self.timeout,
    {
        self.timeout
    }

    /// The logging level the verbosity asks for.
    pub fn log_level(&self) -> (r: &'static str)
        ensures
            self.verbose == 0 ==> r@ == "warn"@,
            self.verbose == 1 ==> r@ == "info"@,
            self.verbose == 2 ==> r@ == "debug"@,
            self.verbose >= 3 ==> r@ == "trace"@,
    {
        match self.verbose {
            0 => "warn",
            1 => "info",
            2 => "debug",
            _ => "trace",
        }
    }

    /// Accept or reject the command line, with exactly the message
    /// [`validation_error`] owes.
    pub fn validate(&self) -> (r: Result<(), String>)
        ensures
            match r {
                Ok(u) => validation_error(*self) is None,
                Err(m) => validation_error(*self) matches Some(msg) && m@ == msg,
            },
    {
        if self.timeout == 0 {
            return Err(String::from_str("Timeout must be greater than 0"));
        }
        if self.password.as_str().is_empty() {
            return Err(String::from_str("Password cannot be empty"));
        }
        match &self.command {
            Commands::Exec { command, .. } => {
                if trim_text(command.as_str()).as_str().is_empty() {
                    return Err(String::from_str("Command cannot be empty"));
                }
            },
            Commands::Interactive { history_size, .. } => {
                if *history_size == 0 {
                    return Err(String::from_str("History size must be greater than 0"));
                }
            },
            Commands::Ping { count, interval } => {
                if *count == 0 {
                    return Err(String::from_str("Ping count must be greater than 0"));
                }
                if *interval == 0 {
                    return Err(String::from_str("Ping interval must be greater than 0"));
                }
            },
            _ => {},
        }
        Ok(())
    }
}

/// Renders responses, errors and notices for the terminal; the rendering
/// itself is unverified glue outside the core, keyed by these two
/// choices.
#[derive(Debug, Clone)]
pub struct OutputFormatter {
    /// The chosen rendering.
    pub format: OutputFormat,
    /// Whether ANSI colors may be used.
    pub use_colors: bool,
}

impl OutputFormatter {
    /// A formatter with the given rendering choices.
    pub fn new(format: OutputFormat, use_colors: bool) -> (r: Self)
        ensures
            r.format == format,
            r.use_colors == use_colors,
    {
        Self { format, use_colors }
    }
}

} // verus!
