//! The iptables base commands: which binary drives which address family's
//! rule table, and the executor configuration that carries the choice.

use vstd::prelude::*;

verus! {

/// The base command to use for iptables actions.
#[derive(Clone, Copy, Debug, PartialEq, Eq, Structural)]
pub enum IptablesBaseCommand {
    Iptables,
    Ip6tables,
}

impl IptablesBaseCommand {
    /// Returns the command according to the selected base command.
    pub fn get_command(&self) -> (s: String)
        ensures
            s@ == (match self {
                IptablesBaseCommand::Iptables => "iptables"@,
                IptablesBaseCommand::Ip6tables => "ip6tables"@,
            }),
    {
        match self {
            IptablesBaseCommand::Iptables => String::from_str("iptables"),
            IptablesBaseCommand::Ip6tables => String::from_str("ip6tables"),
        }
    }
}

/// The configuration of an executor that effects rules by invoking the
/// selected iptables binary. The invocation itself is OS work and lives
/// outside the engine; this type carries the choice of binary.
#[derive(Clone, Copy, Debug, PartialEq, Eq, Structural)]
pub struct IptablesCommandExecutor(pub IptablesBaseCommand);

impl IptablesCommandExecutor {
    /// Returns a new and configured instance of IptablesCommandExecutor.
    pub fn new(base_command: IptablesBaseCommand) -> (e: IptablesCommandExecutor)
        ensures
            e == IptablesCommandExecutor(base_command),
    {
        IptablesCommandExecutor(base_command)
    }

    /// The binary this executor configuration invokes.
    pub fn base_command(&self) -> (b: IptablesBaseCommand)
        ensures
            b == self.0,
    {
        self.0
    }
}

} // verus!
