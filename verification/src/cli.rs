use vstd::prelude::*;

verus! {

/// The file in the working directory that holds the contributor's key pair.
pub const KEYPAIR_FILE: &'static str = "keypair.json";

/// The client's command line: one subcommand.
#[derive(Debug)]
pub struct Cli {
    pub command: Command,
}

/// What the client is asked to do.
#[derive(Debug)]
pub enum Command {
    /// Generate a key pair file for the given name and email; `force`
    /// overwrites an existing key pair file.
    GenerateKeypair { name: String, email: String, force: bool },
    /// Write the key pair file from the hex auth code handed out by the admin.
    Identify { contributor_keypair_hex: String, force: bool },
    /// Contribute to the ceremony.
    Contribute,
    /// Verify a contribution against the previous one, if any.
    Verify { current_file: String, previous_file: Option<String> },
    /// Compute the ceremony's outputs from a contribution, optionally truncated
    /// to a smaller batch size and smoke-tested on one or all rounds.
    ComputeOutput { contribution_file: String, truncate: Option<usize>, smoke_test_one: bool, smoke_test_all: bool },
    /// Subcommands for the ceremony's admin.
    Admin { command: AdminCommand },
}

/// What the admin asks the client to do.
#[derive(Debug)]
pub enum AdminCommand {
    RegisterAll { file: String },
    GenerateAllKeypairs { file: String },
    Report,
    DownloadAll,
    SmokeTestLatest { truncate: Option<usize>, all: bool },
}

} // verus!
