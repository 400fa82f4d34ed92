use libtor::expand::cli_line;
use libtor::{
    Error, HiddenServiceVersion, LogDestination, LogLevel, SizeUnit, Tor, TorAddress, TorFlag,
};

fn strings(items: &[&str]) -> Vec<String> {
    items.iter().map(|s| s.to_string()).collect()
}

#[test]
fn line_of_one_token_is_that_token() {
    assert_eq!(cli_line(strings(&["Name"])), "Name");
    assert_eq!(cli_line(strings(&["ControlPort auto"])), "ControlPort auto");
    assert_eq!(cli_line(strings(&[""])), "");
}

#[test]
fn line_of_no_token_is_empty() {
    assert_eq!(cli_line(Vec::new()), "");
}

#[test]
fn line_of_several_tokens_quotes_the_rest() {
    assert_eq!(cli_line(strings(&["Name", "a"])), "Name \"a\"");
    assert_eq!(cli_line(strings(&["Name", "a", "b", "c"])), "Name \"a b c\"");
    assert_eq!(cli_line(strings(&["Name", ""])), "Name \"\"");
    assert_eq!(cli_line(strings(&["Name", "a b", "c"])), "Name \"a b c\"");
    assert_eq!(cli_line(strings(&["Name", "say \"hi\""])), "Name \"say \"hi\"\"");
}

#[test]
fn new_configuration_is_empty() {
    let tor = Tor::new();
    assert!(tor.flags().is_empty());
    assert_eq!(tor.arguments(), vec!["tor"]);
    assert_eq!(Tor::default().arguments(), vec!["tor"]);
}

#[test]
fn flags_are_kept_in_order() {
    let mut tor = Tor::new();
    tor.flag(TorFlag::SocksPort(1)).flag(TorFlag::SocksPort(2)).flag(TorFlag::SocksPort(1));
    assert_eq!(tor.flags().len(), 3);
    assert!(matches!(tor.flags()[0], TorFlag::SocksPort(1)));
    assert!(matches!(tor.flags()[1], TorFlag::SocksPort(2)));
    assert!(matches!(tor.flags()[2], TorFlag::SocksPort(1)));
    assert_eq!(
        tor.arguments(),
        vec!["tor", "SocksPort", "1", "SocksPort", "2", "SocksPort", "1"]
    );
}

#[test]
fn arguments_are_not_quoted() {
    let mut tor = Tor::new();
    tor.flag(TorFlag::BandwidthRate(256, SizeUnit::MBits))
        .flag(TorFlag::ControlPortAuto)
        .flag(TorFlag::LogTo(LogLevel::Notice, LogDestination::Stdout))
        .flag(TorFlag::Custom("ClientOnly 1".into()));
    assert_eq!(
        tor.arguments(),
        vec![
            "tor",
            "BandwidthRate",
            "256",
            "MBits",
            "ControlPort auto",
            "Log",
            "notice stdout",
            "ClientOnly",
            "1"
        ]
    );
}

#[test]
fn arguments_hold_every_token_once() {
    let flags = vec![
        TorFlag::DataDirectory("/tmp/d".into()),
        TorFlag::SocksPortAuto,
        TorFlag::Bridge("a".into(), "b".into(), "c".into()),
        TorFlag::Custom("w x y z".into()),
        TorFlag::Log(LogLevel::Debug),
    ];
    let mut tor = Tor::new();
    for flag in &flags {
        tor.flag(flag.clone());
    }
    let argv = tor.arguments();
    let counts: Vec<usize> = flags.iter().map(|f| f.expand().len()).collect();
    assert_eq!(counts, vec![2, 1, 4, 4, 2]);
    assert_eq!(argv.len(), 1 + counts.iter().sum::<usize>());
    assert_eq!(argv[0], "tor");
    let mut at = 1;
    for flag in &flags {
        for token in flag.expand() {
            assert_eq!(argv[at], token);
            at += 1;
        }
    }
    assert_eq!(at, argv.len());
}

#[test]
fn cloned_configuration_has_the_same_arguments() {
    let mut tor = Tor::new();
    tor.flag(TorFlag::SocksPort(9050)).flag(TorFlag::Custom("A b".into()));
    let copy = tor.clone();
    assert_eq!(copy.arguments(), tor.arguments());
    assert_eq!(tor.arguments(), tor.arguments());
}

#[test]
fn test_run() {
    let mut tor = Tor::new();
    tor.flag(TorFlag::DataDirectory("/tmp/tor-rust".into()))
        .flag(TorFlag::HiddenServiceDir("/tmp/tor-rust/hs-dir".into()))
        .flag(TorFlag::HiddenServiceVersion(HiddenServiceVersion::V3))
        .flag(TorFlag::HiddenServicePort(
            TorAddress::Port(80),
            Some(TorAddress::AddressPort("example.org".into(), 80)).into(),
        ))
        .flag(TorFlag::SocksPort(0));
    assert_eq!(
        tor.arguments(),
        vec![
            "tor",
            "DataDirectory",
            "/tmp/tor-rust",
            "HiddenServiceDir",
            "/tmp/tor-rust/hs-dir",
            "HiddenServiceVersion",
            "3",
            "HiddenServicePort",
            "80",
            "example.org:80",
            "SocksPort",
            "0"
        ]
    );
}

#[test]
fn error_has_a_message() {
    assert_eq!(Error::NotRunning.message(), "Tor service is not running");
    assert!(matches!(Error::NotRunning.clone(), Error::NotRunning));
}
