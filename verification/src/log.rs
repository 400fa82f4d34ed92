//! Field types of the log directives, and the text of a log specification.
//! The daemon's grammar is case-sensitive: every keyword here is written in
//! lower case.

use crate::text::{join, join_strings, texts};
use crate::utils::Render;
use vstd::prelude::*;

verus! {

/// How severe a message must be to be logged.
#[derive(Debug, Clone, Copy)]
pub enum LogLevel {
    Debug,
    Info,
    Notice,
    Warn,
    /// Errors only; its keyword is `err`.
    Error,
}

impl Render for LogLevel {
    open spec fn rendered(&self) -> Seq<char> {
        match self {
            LogLevel::Debug => "debug"@,
            LogLevel::Info => "info"@,
            LogLevel::Notice => "notice"@,
            LogLevel::Warn => "warn"@,
            LogLevel::Error => "err"@,
        }
    }

    fn render(&self) -> (out: String) {
        let word: &'static str = match self {
            LogLevel::Debug => "debug",
            LogLevel::Info => "info",
            LogLevel::Notice => "notice",
            LogLevel::Warn => "warn",
            LogLevel::Error => "err",
        };
        String::from_str(word)
    }
}

/// Where the log goes.
#[derive(Debug, Clone, Copy)]
pub enum LogDestination {
    Stdout,
    Stderr,
    Syslog,
    Android,
}

impl Render for LogDestination {
    open spec fn rendered(&self) -> Seq<char> {
        match self {
            LogDestination::Stdout => "stdout"@,
            LogDestination::Stderr => "stderr"@,
            LogDestination::Syslog => "syslog"@,
            LogDestination::Android => "android"@,
        }
    }

    fn render(&self) -> (out: String) {
        let word: &'static str = match self {
            LogDestination::Stdout => "stdout",
            LogDestination::Stderr => "stderr",
            LogDestination::Syslog => "syslog",
            LogDestination::Android => "android",
        };
        String::from_str(word)
    }
}

/// A part of the daemon whose messages can be logged at a level of their
/// own.
#[derive(Debug, Clone, Copy)]
pub enum LogDomain {
    General,
    Crypto,
    Net,
    Config,
    Fs,
    Protocol,
    Mm,
    Http,
    App,
    Control,
    Circ,
    Rend,
    Bug,
    Dir,
    Dirserv,
    Or,
    Edge,
    Acct,
    Hist,
    Handshake,
    Heartbeat,
    Channel,
    Sched,
    Guard,
    Consdiff,
    Dos,
    Process,
    Pt,
    Btrack,
    Mesg,
}

impl Render for LogDomain {
    open spec fn rendered(&self) -> Seq<char> {
        match self {
            LogDomain::General => "general"@,
            LogDomain::Crypto => "crypto"@,
            LogDomain::Net => "net"@,
            LogDomain::Config => "config"@,
            LogDomain::Fs => "fs"@,
            LogDomain::Protocol => "protocol"@,
            LogDomain::Mm => "mm"@,
            LogDomain::Http => "http"@,
            LogDomain::App => "app"@,
            LogDomain::Control => "control"@,
            LogDomain::Circ => "circ"@,
            LogDomain::Rend => "rend"@,
            LogDomain::Bug => "bug"@,
            LogDomain::Dir => "dir"@,
            LogDomain::Dirserv => "dirserv"@,
            LogDomain::Or => "or"@,
            LogDomain::Edge => "edge"@,
            LogDomain::Acct => "acct"@,
            LogDomain::Hist => "hist"@,
            LogDomain::Handshake => "handshake"@,
            LogDomain::Heartbeat => "heartbeat"@,
            LogDomain::Channel => "channel"@,
            LogDomain::Sched => "sched"@,
            LogDomain::Guard => "guard"@,
            LogDomain::Consdiff => "consdiff"@,
            LogDomain::Dos => "dos"@,
            LogDomain::Process => "process"@,
            LogDomain::Pt => "pt"@,
            LogDomain::Btrack => "btrack"@,
            LogDomain::Mesg => "mesg"@,
        }
    }

    fn render(&self) -> (out: String) {
        let word: &'static str = match self {
            LogDomain::General => "general",
            LogDomain::Crypto => "crypto",
            LogDomain::Net => "net",
            LogDomain::Config => "config",
            LogDomain::Fs => "fs",
            LogDomain::Protocol => "protocol",
            LogDomain::Mm => "mm",
            LogDomain::Http => "http",
            LogDomain::App => "app",
            LogDomain::Control => "control",
            LogDomain::Circ => "circ",
            LogDomain::Rend => "rend",
            LogDomain::Bug => "bug",
            LogDomain::Dir => "dir",
            LogDomain::Dirserv => "dirserv",
            LogDomain::Or => "or",
            LogDomain::Edge => "edge",
            LogDomain::Acct => "acct",
            LogDomain::Hist => "hist",
            LogDomain::Handshake => "handshake",
            LogDomain::Heartbeat => "heartbeat",
            LogDomain::Channel => "channel",
            LogDomain::Sched => "sched",
            LogDomain::Guard => "guard",
            LogDomain::Consdiff => "consdiff",
            LogDomain::Dos => "dos",
            LogDomain::Process => "process",
            LogDomain::Pt => "pt",
            LogDomain::Btrack => "btrack",
            LogDomain::Mesg => "mesg",
        };
        String::from_str(word)
    }
}

/// One entry of a domain list: the domain's keyword, with `~` before it
/// where the flag is false, which takes the domain out.
pub open spec fn domain_text(entry: (bool, LogDomain)) -> Seq<char> {
    if entry.0 {
        entry.1.rendered()
    } else {
        "~"@ + entry.1.rendered()
    }
}

/// The entries of a domain list, joined by commas.
pub open spec fn domains_text(domains: Seq<(bool, LogDomain)>) -> Seq<char> {
    join(Seq::new(domains.len(), |i: int| domain_text(domains[i])), ","@)
}

/// One group of a log specification: the level alone where the group names
/// no domain, else the domain list in square brackets with the level right
/// behind it.
pub open spec fn group_text(domains: Seq<(bool, LogDomain)>, level: LogLevel) -> Seq<char> {
    if domains.len() == 0 {
        level.rendered()
    } else {
        "["@ + domains_text(domains) + "]"@ + level.rendered()
    }
}

/// The groups of a log specification, joined by single spaces.
pub open spec fn groups_text(groups: Seq<(Vec<(bool, LogDomain)>, LogLevel)>) -> Seq<char> {
    join(Seq::new(groups.len(), |i: int| group_text(groups[i].0@, groups[i].1)), " "@)
}

/// Writes one group of a log specification.
pub fn render_group(domains: &Vec<(bool, LogDomain)>, level: LogLevel) -> (out: String)
    ensures
        out@ == group_text(domains@, level),
{
    if domains.len() == 0 {
        return level.render();
    }
    let mut entries: Vec<String> = Vec::new();
    let mut i: usize = 0;
    while i < domains.len()
        invariant
            i <= domains.len(),
            entries@.len() == i,
            forall|k: int| 0 <= k < i ==> (#[trigger] entries@[k])@ == domain_text(domains@[k]),
        decreases domains.len() - i,
    {
        let (enabled, domain) = domains[i];
        let mut entry = String::new();
        if !enabled {
            entry.append("~");
        }
        entry.append(domain.render().as_str());
        assert(entry@ =~= domain_text(domains@[i as int]));
        entries.push(entry);
        i = i + 1;
    }
    assert(texts(entries@) =~= Seq::new(domains@.len(), |i: int| domain_text(domains@[i])));
    let mut out = String::from_str("[");
    out.append(join_strings(&entries, ",").as_str());
    out.append("]");
    out.append(level.render().as_str());
    out
}

/// Writes the groups of a log specification, separated by single spaces.
pub fn render_groups(groups: &Vec<(Vec<(bool, LogDomain)>, LogLevel)>) -> (out: String)
    ensures
        out@ == groups_text(groups@),
{
    let mut parts: Vec<String> = Vec::new();
    let mut i: usize = 0;
    while i < groups.len()
        invariant
            i <= groups.len(),
            parts@.len() == i,
            forall|k: int|
                0 <= k < i ==> (#[trigger] parts@[k])@ == group_text(groups@[k].0@, groups@[k].1),
        decreases groups.len() - i,
    {
        parts.push(render_group(&groups[i].0, groups[i].1));
        i = i + 1;
    }
    assert(texts(parts@) =~= Seq::new(
        groups@.len(),
        |i: int| group_text(groups@[i].0@, groups@[i].1),
    ));
    join_strings(&parts, " ")
}

/// Whether `c` is an ASCII capital letter.
pub open spec fn is_upper(c: char) -> bool {
    'A' <= c <= 'Z'
}

/// Whether `s` holds no ASCII capital letter.
pub open spec fn is_lower_case(s: Seq<char>) -> bool {
    forall|i: int| 0 <= i < s.len() ==> !is_upper(#[trigger] s[i])
}

/// The keyword of every level is written in lower case.
pub proof fn level_is_lower_case(level: LogLevel)
    ensures
        is_lower_case(level.rendered()),
{
    reveal_strlit("debug");
    reveal_strlit("info");
    reveal_strlit("notice");
    reveal_strlit("warn");
    reveal_strlit("err");
}

/// The keyword of every destination is written in lower case.
pub proof fn destination_is_lower_case(destination: LogDestination)
    ensures
        is_lower_case(destination.rendered()),
{
    reveal_strlit("stdout");
    reveal_strlit("stderr");
    reveal_strlit("syslog");
    reveal_strlit("android");
}

/// The keyword of every domain is written in lower case.
pub proof fn domain_is_lower_case(domain: LogDomain)
    ensures
        is_lower_case(domain.rendered()),
{
    reveal_strlit("general");
    reveal_strlit("crypto");
    reveal_strlit("net");
    reveal_strlit("config");
    reveal_strlit("fs");
    reveal_strlit("protocol");
    reveal_strlit("mm");
    reveal_strlit("http");
    reveal_strlit("app");
    reveal_strlit("control");
    reveal_strlit("circ");
    reveal_strlit("rend");
    reveal_strlit("bug");
    reveal_strlit("dir");
    reveal_strlit("dirserv");
    reveal_strlit("or");
    reveal_strlit("edge");
    reveal_strlit("acct");
    reveal_strlit("hist");
    reveal_strlit("handshake");
    reveal_strlit("heartbeat");
    reveal_strlit("channel");
    reveal_strlit("sched");
    reveal_strlit("guard");
    reveal_strlit("consdiff");
    reveal_strlit("dos");
    reveal_strlit("process");
    reveal_strlit("pt");
    reveal_strlit("btrack");
    reveal_strlit("mesg");
}

} // verus!
