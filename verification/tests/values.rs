use libtor::text::{is_space_char, join_strings, render_decimal, split_words};
use libtor::{
    CommaJoiner, ControlPortFlag, DisplayOption, DisplayVec, HiddenServiceAuthType,
    HiddenServiceVersion, Joiner, LogDestination, LogDomain, LogLevel, Render, SizeUnit,
    SocksPortFlag, SocksPortIsolationFlag, SpaceJoiner, TorAddress, TorBool,
};

fn strings(items: &[&str]) -> Vec<String> {
    items.iter().map(|s| s.to_string()).collect()
}

#[test]
fn switch_is_written_as_a_digit() {
    assert_eq!(TorBool::True.render(), "1");
    assert_eq!(TorBool::False.render(), "0");
    assert_eq!(TorBool::Enabled.render(), "1");
    assert_eq!(TorBool::Disabled.render(), "0");
}

#[test]
fn switch_from_bool_keeps_the_truth() {
    assert!(matches!(TorBool::from(true), TorBool::True));
    assert!(matches!(TorBool::from(false), TorBool::False));
    assert_eq!(TorBool::from(true).render(), "1");
    assert_eq!(TorBool::from(false).render(), "0");
    let switch: TorBool = true.into();
    assert_eq!(switch.render(), "1");
}

#[test]
fn size_unit_is_written_as_its_name() {
    let cases = [
        (SizeUnit::Bytes, "Bytes"),
        (SizeUnit::KBytes, "KBytes"),
        (SizeUnit::MBytes, "MBytes"),
        (SizeUnit::GBytes, "GBytes"),
        (SizeUnit::TBytes, "TBytes"),
        (SizeUnit::Bits, "Bits"),
        (SizeUnit::KBits, "KBits"),
        (SizeUnit::MBits, "MBits"),
        (SizeUnit::GBits, "GBits"),
        (SizeUnit::TBits, "TBits"),
    ];
    for (unit, text) in cases {
        assert_eq!(unit.render(), text);
    }
}

#[test]
fn address_has_four_shapes() {
    assert_eq!(TorAddress::Port(8000).render(), "8000");
    assert_eq!(TorAddress::Port(0).render(), "0");
    assert_eq!(TorAddress::Port(65535).render(), "65535");
    assert_eq!(TorAddress::Address("example.org".into()).render(), "example.org");
    assert_eq!(TorAddress::AddressPort("example.org".into(), 80).render(), "example.org:80");
    assert_eq!(TorAddress::AddressPort("[::1]".into(), 9050).render(), "[::1]:9050");
    assert_eq!(TorAddress::Unix("/tmp/tor-cp".into()).render(), "unix:/tmp/tor-cp");
}

#[test]
fn address_is_not_checked() {
    assert_eq!(TorAddress::Address("".into()).render(), "");
    assert_eq!(TorAddress::Address("not an address".into()).render(), "not an address");
    assert_eq!(TorAddress::AddressPort("".into(), 1).render(), ":1");
    assert_eq!(TorAddress::Unix("".into()).render(), "unix:");
}

#[test]
fn address_knows_a_unix_socket() {
    assert!(TorAddress::Unix("/x".into()).is_unix());
    assert!(!TorAddress::Port(1).is_unix());
    assert!(!TorAddress::Address("unix:/x".into()).is_unix());
    assert!(!TorAddress::AddressPort("a".into(), 1).is_unix());
}

#[test]
fn numbers_are_written_in_decimal() {
    assert_eq!(render_decimal(0), "0");
    assert_eq!(render_decimal(7), "7");
    assert_eq!(render_decimal(9), "9");
    assert_eq!(render_decimal(10), "10");
    assert_eq!(render_decimal(99), "99");
    assert_eq!(render_decimal(100), "100");
    assert_eq!(render_decimal(1234567890), "1234567890");
    assert_eq!(render_decimal(65535), "65535");
    assert_eq!(render_decimal(u64::MAX), "18446744073709551615");
    assert_eq!(256usize.render(), "256");
    assert_eq!(usize::MAX.render(), usize::MAX.to_string());
    assert_eq!(u32::MAX.render(), "4294967295");
    assert_eq!(443u16.render(), "443");
    for n in 0u64..2000 {
        assert_eq!(render_decimal(n), n.to_string());
    }
}

#[test]
fn text_is_written_as_it_is() {
    assert_eq!(String::from("plain text").render(), "plain text");
    assert_eq!(String::new().render(), "");
    assert_eq!(String::from("caf\u{e9} \"q\"").render(), "caf\u{e9} \"q\"");
}

#[test]
fn join_of_nothing_is_empty() {
    assert_eq!(join_strings(&vec![], ","), "");
    assert_eq!(join_strings(&vec![], ""), "");
}

#[test]
fn join_of_one_has_no_separator() {
    assert_eq!(join_strings(&strings(&["alone"]), ","), "alone");
    assert_eq!(join_strings(&strings(&[""]), ","), "");
}

#[test]
fn join_of_many_has_one_separator_less() {
    assert_eq!(join_strings(&strings(&["a", "b", "c"]), ","), "a,b,c");
    assert_eq!(join_strings(&strings(&["a", "b", "c"]), " "), "a b c");
    assert_eq!(join_strings(&strings(&["a", "b"]), ", "), "a, b");
    assert_eq!(join_strings(&strings(&["", "", ""]), ","), ",,");
    assert_eq!(join_strings(&strings(&["a", "b", "c"]), ""), "abc");
    let many = strings(&["x"; 10]);
    let joined = join_strings(&many, "-");
    assert_eq!(joined.matches('-').count(), 9);
    assert!(joined.starts_with('x') && joined.ends_with('x'));
}

#[test]
fn split_cuts_at_every_separating_character() {
    assert_eq!(split_words("a b c"), vec!["a", "b", "c"]);
    assert_eq!(split_words("single"), vec!["single"]);
    assert_eq!(split_words(""), vec![""]);
    assert_eq!(split_words(" "), vec!["", ""]);
    assert_eq!(split_words(" a"), vec!["", "a"]);
    assert_eq!(split_words("a "), vec!["a", ""]);
    assert_eq!(split_words("a  b"), vec!["a", "", "b"]);
    assert_eq!(split_words("a\tb\nc\rd"), vec!["a", "b", "c", "d"]);
    assert_eq!(split_words("a\u{a0}b\u{3000}c"), vec!["a", "b", "c"]);
    assert_eq!(split_words("caf\u{e9} cr\u{e8}me"), vec!["caf\u{e9}", "cr\u{e8}me"]);
}

#[test]
fn split_and_join_agree_on_spaces() {
    for line in ["a b c", "", " ", "a  b ", "  leading", "one"] {
        assert_eq!(join_strings(&split_words(line), " "), line);
    }
}

#[test]
fn separating_characters_are_the_white_space_ones() {
    for c in ['\u{0}', 'a', '~', '\u{10ffff}', '\u{d7ff}', '\u{e000}'] {
        assert_eq!(is_space_char(c), c.is_whitespace());
    }
    for n in 0u32..0x3100 {
        if let Some(c) = char::from_u32(n) {
            assert_eq!(is_space_char(c), c.is_whitespace(), "U+{:04X}", n);
        }
    }
}

#[test]
fn absent_value_is_empty() {
    let none: DisplayOption<TorAddress> = None.into();
    assert_eq!(none.render(), "");
    let none: DisplayOption<String> = DisplayOption::new(None);
    assert_eq!(none.render(), "");
}

#[test]
fn present_value_is_the_inner_text() {
    let some: DisplayOption<TorAddress> = Some(TorAddress::AddressPort("h".into(), 1)).into();
    assert_eq!(some.render(), "h:1");
    let some: DisplayOption<String> = Some(String::from(" spaced ")).into();
    assert_eq!(some.render(), " spaced ");
    let empty: DisplayOption<String> = Some(String::new()).into();
    assert_eq!(empty.render(), "");
}

#[test]
fn empty_list_is_empty() {
    let list: DisplayVec<String, CommaJoiner> = Vec::new().into();
    assert_eq!(list.render(), "");
    let list: DisplayVec<ControlPortFlag, SpaceJoiner> = DisplayVec::new(Vec::new());
    assert_eq!(list.render(), "");
}

#[test]
fn list_of_one_has_no_separator() {
    let list: DisplayVec<String, CommaJoiner> = vec![String::from("only")].into();
    assert_eq!(list.render(), "only");
    let list: DisplayVec<ControlPortFlag, SpaceJoiner> =
        vec![ControlPortFlag::GroupWritable].into();
    assert_eq!(list.render(), "GroupWritable");
}

#[test]
fn list_of_many_is_joined() {
    let list: DisplayVec<String, CommaJoiner> = strings(&["a", "b", "c"]).into();
    assert_eq!(list.render(), "a,b,c");
    let list: DisplayVec<u16, CommaJoiner> = vec![80u16, 443, 8080].into();
    assert_eq!(list.render(), "80,443,8080");
    let list: DisplayVec<ControlPortFlag, SpaceJoiner> = vec![
        ControlPortFlag::GroupWritable,
        ControlPortFlag::WorldWritable,
        ControlPortFlag::RelaxDirModeCheck,
    ]
    .into();
    assert_eq!(list.render(), "GroupWritable WorldWritable RelaxDirModeCheck");
    assert_eq!(list.clone().render(), list.render());
}

#[test]
fn separators_are_a_comma_and_a_space() {
    assert_eq!(CommaJoiner::joiner(), ",");
    assert_eq!(SpaceJoiner::joiner(), " ");
}

#[test]
fn nested_option_of_list() {
    let flags: DisplayOption<DisplayVec<SocksPortFlag, SpaceJoiner>> =
        Some(vec![SocksPortFlag::CacheDNS, SocksPortFlag::UseDNSCache].into()).into();
    assert_eq!(flags.render(), "CacheDNS UseDNSCache");
    let none: DisplayOption<DisplayVec<SocksPortFlag, SpaceJoiner>> = None.into();
    assert_eq!(none.render(), "");
    let empty: DisplayOption<DisplayVec<SocksPortFlag, SpaceJoiner>> = Some(vec![].into()).into();
    assert_eq!(empty.render(), "");
}

#[test]
fn port_flags_are_written_as_their_names() {
    let socks = [
        (SocksPortFlag::NoIPv4Traffic, "NoIPv4Traffic"),
        (SocksPortFlag::IPv6Traffic, "IPv6Traffic"),
        (SocksPortFlag::PreferIPv6, "PreferIPv6"),
        (SocksPortFlag::NoDNSRequest, "NoDNSRequest"),
        (SocksPortFlag::NoOnionTraffic, "NoOnionTraffic"),
        (SocksPortFlag::OnionTrafficOnly, "OnionTrafficOnly"),
        (SocksPortFlag::CacheIPv4DNS, "CacheIPv4DNS"),
        (SocksPortFlag::CacheIPv6DNS, "CacheIPv6DNS"),
        (SocksPortFlag::CacheDNS, "CacheDNS"),
        (SocksPortFlag::UseIPv4Cache, "UseIPv4Cache"),
        (SocksPortFlag::UseIPv6Cache, "UseIPv6Cache"),
        (SocksPortFlag::UseDNSCache, "UseDNSCache"),
        (SocksPortFlag::PreferIPv6Automap, "PreferIPv6Automap"),
        (SocksPortFlag::PreferSOCKSNoAuth, "PreferSOCKSNoAuth"),
    ];
    for (flag, text) in socks {
        assert_eq!(flag.render(), text);
    }
    let isolation = [
        (SocksPortIsolationFlag::IsolateClientAddr, "IsolateClientAddr"),
        (SocksPortIsolationFlag::IsolateSOCKSAuth, "IsolateSOCKSAuth"),
        (SocksPortIsolationFlag::IsolateClientProtocol, "IsolateClientProtocol"),
        (SocksPortIsolationFlag::IsolateDestPort, "IsolateDestPort"),
        (SocksPortIsolationFlag::IsolateDestAddr, "IsolateDestAddr"),
        (SocksPortIsolationFlag::KeepAliveIsolateSOCKSAuth, "KeepAliveIsolateSOCKSAuth"),
    ];
    for (flag, text) in isolation {
        assert_eq!(flag.render(), text);
    }
    assert_eq!(ControlPortFlag::GroupWritable.render(), "GroupWritable");
    assert_eq!(ControlPortFlag::WorldWritable.render(), "WorldWritable");
    assert_eq!(ControlPortFlag::RelaxDirModeCheck.render(), "RelaxDirModeCheck");
}

#[test]
fn hidden_service_types_are_written() {
    assert_eq!(HiddenServiceVersion::V2.render(), "2");
    assert_eq!(HiddenServiceVersion::V3.render(), "3");
    assert_eq!(HiddenServiceAuthType::Basic.render(), "Basic");
    assert_eq!(HiddenServiceAuthType::Stealth.render(), "Stealth");
}

#[test]
fn log_keywords_are_lower_case() {
    let levels = [
        (LogLevel::Debug, "debug"),
        (LogLevel::Info, "info"),
        (LogLevel::Notice, "notice"),
        (LogLevel::Warn, "warn"),
        (LogLevel::Error, "err"),
    ];
    for (level, text) in levels {
        assert_eq!(level.render(), text);
    }
    let destinations = [
        (LogDestination::Stdout, "stdout"),
        (LogDestination::Stderr, "stderr"),
        (LogDestination::Syslog, "syslog"),
        (LogDestination::Android, "android"),
    ];
    for (destination, text) in destinations {
        assert_eq!(destination.render(), text);
        assert_eq!(format!("{:?}", destination).to_lowercase(), text);
    }
}

#[test]
fn log_domains_are_their_lower_cased_names() {
    let domains = [
        LogDomain::General,
        LogDomain::Crypto,
        LogDomain::Net,
        LogDomain::Config,
        LogDomain::Fs,
        LogDomain::Protocol,
        LogDomain::Mm,
        LogDomain::Http,
        LogDomain::App,
        LogDomain::Control,
        LogDomain::Circ,
        LogDomain::Rend,
        LogDomain::Bug,
        LogDomain::Dir,
        LogDomain::Dirserv,
        LogDomain::Or,
        LogDomain::Edge,
        LogDomain::Acct,
        LogDomain::Hist,
        LogDomain::Handshake,
        LogDomain::Heartbeat,
        LogDomain::Channel,
        LogDomain::Sched,
        LogDomain::Guard,
        LogDomain::Consdiff,
        LogDomain::Dos,
        LogDomain::Process,
        LogDomain::Pt,
        LogDomain::Btrack,
        LogDomain::Mesg,
    ];
    for domain in domains {
        let text = domain.render();
        assert_eq!(text, format!("{:?}", domain).to_lowercase());
        assert!(!text.is_empty());
        assert!(text.chars().all(|c| c.is_ascii_lowercase()));
    }
    assert_eq!(LogDomain::Handshake.render(), "handshake");
    assert_eq!(LogDomain::Mm.render(), "mm");
}

#[test]
fn log_groups_are_written() {
    assert_eq!(libtor::log::render_group(&vec![], LogLevel::Notice), "notice");
    assert_eq!(
        libtor::log::render_group(&vec![(true, LogDomain::Handshake)], LogLevel::Debug),
        "[handshake]debug"
    );
    assert_eq!(
        libtor::log::render_group(
            &vec![(false, LogDomain::Net), (false, LogDomain::Mm)],
            LogLevel::Info
        ),
        "[~net,~mm]info"
    );
    assert_eq!(libtor::log::render_groups(&vec![]), "");
    assert_eq!(
        libtor::log::render_groups(&vec![
            (vec![(true, LogDomain::Or)], LogLevel::Warn),
            (vec![], LogLevel::Error),
        ]),
        "[or]warn err"
    );
}
