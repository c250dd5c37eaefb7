use linkage_firewall::iptables::IptablesBaseCommand;
use linkage_firewall::iptables::IptablesCommandExecutor;

#[test]
fn test_iptables_base_command_new() {
    assert_eq!(
        IptablesCommandExecutor(IptablesBaseCommand::Iptables),
        IptablesCommandExecutor::new(IptablesBaseCommand::Iptables)
    );
    assert_eq!(
        String::from("ip6tables"),
        IptablesBaseCommand::Ip6tables.get_command()
    );
}

#[test]
fn test_iptables_base_command_get_command() {
    assert_eq!(
        String::from("iptables"),
        IptablesBaseCommand::Iptables.get_command()
    );
    assert_eq!(
        String::from("ip6tables"),
        IptablesBaseCommand::Ip6tables.get_command()
    );
}

#[test]
fn test_base_command_accessor() {
    let e = IptablesCommandExecutor::new(IptablesBaseCommand::Ip6tables);
    assert_eq!(IptablesBaseCommand::Ip6tables, e.base_command());
}
