use vstd::prelude::*;
use vstd::string::StrSliceExecFns;

verus! {

/// The OS tool that reads and changes the system resolver.
pub const DNS_TOOL: &'static str = "networksetup";

/// Its sub-command that lists the DNS servers of a network service.
pub const GET_DNS_SERVERS: &'static str = "-getdnsservers";

/// Its sub-command that sets the DNS servers of a network service.
pub const SET_DNS_SERVERS: &'static str = "-setdnsservers";

/// The network service whose resolver is redirected.
pub const NETWORK_SERVICE: &'static str = "Wi-Fi";

/// The local DNS authority the resolver is pointed at.
pub const LOCAL_RESOLVER: &'static str = "127.0.0.1";

/// The value that sets no servers at all.
pub const NO_SERVERS: &'static str = "empty";

/// The two OS commands of the override.
#[derive(Clone, Copy, Debug, PartialEq, Eq, Structural)]
pub enum OverrideCommand {
    /// Points the system resolver at the local authority.
    Acquire,
    /// Puts back the servers the resolver had before.
    Release,
}

/// Where the scope stands.
#[derive(Clone, Copy, Debug, PartialEq, Eq, Structural)]
pub enum Phase {
    /// Nothing has been run yet.
    Idle,
    /// The acquire command has been issued and is owed a release.
    Active,
    /// The release command has been issued.
    Released,
    /// The acquire command failed: the process cannot go on, and there is
    /// nothing to revert.
    Failed,
}

/// A character that can stand in a textual IPv4 or IPv6 address.
pub open spec fn is_address_char(c: char) -> bool {
    ('0' <= c && c <= '9') || ('a' <= c && c <= 'f') || ('A' <= c && c <= 'F') || c == '.' || c
        == ':'
}

/// A line of the server listing that names a server: non-empty and made of
/// address characters only (the "no servers" message is not).
pub open spec fn is_server_line_spec(line: Seq<char>) -> bool {
    line.len() > 0 && forall|i: int| 0 <= i < line.len() ==> is_address_char(#[trigger] line[i])
}

/// The servers named in the lines of a listing, in order.
pub open spec fn servers_spec(lines: Seq<Seq<char>>) -> Seq<Seq<char>>
    decreases lines.len(),
{
    if lines.len() == 0 {
        Seq::empty()
    } else {
        let rest = servers_spec(lines.drop_last());
        if is_server_line_spec(lines.last()) {
            rest.push(lines.last())
        } else {
            rest
        }
    }
}

pub open spec fn views(s: Seq<String>) -> Seq<Seq<char>> {
    s.map_values(|x: String| x@)
}

/// Arguments that list the servers of the network service.
pub open spec fn query_args_spec() -> Seq<Seq<char>> {
    seq![GET_DNS_SERVERS@, NETWORK_SERVICE@]
}

/// Arguments of a command; the release puts back `previous`, or no servers
/// when there were none.
pub open spec fn command_args_spec(cmd: OverrideCommand, previous: Seq<Seq<char>>) -> Seq<
    Seq<char>,
> {
    seq![SET_DNS_SERVERS@, NETWORK_SERVICE@] + match cmd {
        OverrideCommand::Acquire => seq![LOCAL_RESOLVER@],
        OverrideCommand::Release => if previous.len() == 0 {
            seq![NO_SERVERS@]
        } else {
            previous
        },
    }
}

/// Whether one line of the server listing names a server.
pub fn is_server_line(line: &str) -> (r: bool)
    ensures
        r == is_server_line_spec(line@),
{
    let n = line.unicode_len();
    if n == 0 {
        return false;
    }
    let mut i: usize = 0;
    while i < n
        invariant
            n == line@.len(),
            i <= n,
            forall|j: int| 0 <= j < i ==> is_address_char(#[trigger] line@[j]),
        decreases n - i,
    {
        let c = line.get_char(i);
        if !(('0' <= c && c <= '9') || ('a' <= c && c <= 'f') || ('A' <= c && c <= 'F') || c
            == '.' || c == ':') {
            assert(!is_address_char(line@[i as int]));
            return false;
        }
        i = i + 1;
    }
    true
}

/// The servers named in the lines that listing the servers printed.
pub fn previous_servers(lines: &Vec<String>) -> (r: Vec<String>)
    ensures
        views(r@) == servers_spec(views(lines@)),
{
    let mut out: Vec<String> = Vec::new();
    let mut i: usize = 0;
    while i < lines.len()
        invariant
            i <= lines@.len(),
            views(out@) == servers_spec(views(lines@).take(i as int)),
        decreases lines@.len() - i,
    {
        let ghost before = out@;
        let ghost t = views(lines@).take(i as int + 1);
        assert(t.drop_last() =~= views(lines@).take(i as int));
        assert(t.last() == lines@[i as int]@);
        if is_server_line(lines[i].as_str()) {
            out.push(lines[i].clone());
            assert(views(out@) =~= views(before).push(lines@[i as int]@));
        }
        i = i + 1;
    }
    assert(views(lines@).take(lines@.len() as int) =~= views(lines@));
    out
}

fn owned(parts: &Vec<&'static str>) -> (r: Vec<String>)
    ensures
        r@.len() == parts@.len(),
        forall|i: int| 0 <= i < parts@.len() ==> #[trigger] r@[i]@ == parts@[i]@,
{
    let mut out: Vec<String> = Vec::new();
    let mut i: usize = 0;
    while i < parts.len()
        invariant
            i <= parts@.len(),
            out@.len() == i,
            forall|j: int| 0 <= j < i ==> #[trigger] out@[j]@ == parts@[j]@,
        decreases parts@.len() - i,
    {
        out.push(parts[i].to_owned());
        i = i + 1;
    }
    out
}

/// Arguments of `DNS_TOOL` that list the servers before the override.
pub fn query_args() -> (r: Vec<String>)
    ensures
        views(r@) == query_args_spec(),
{
    let r = owned(&vec![GET_DNS_SERVERS, NETWORK_SERVICE]);
    assert(views(r@) =~= query_args_spec());
    r
}

/// The mathematical state of the scope: its phase, the servers it put
/// aside, and the commands it has issued, in order.
pub struct OverrideState {
    pub phase: Phase,
    pub previous: Seq<Seq<char>>,
    pub issued: Seq<OverrideCommand>,
}

pub open spec fn idle() -> OverrideState {
    OverrideState { phase: Phase::Idle, previous: Seq::empty(), issued: Seq::empty() }
}

/// Acquiring, from the idle phase only, puts aside the servers the resolver
/// had and issues the acquire command once.
pub open spec fn after_acquire(s: OverrideState, previous: Seq<Seq<char>>) -> OverrideState {
    if s.phase == Phase::Idle {
        OverrideState {
            phase: Phase::Active,
            previous,
            issued: s.issued.push(OverrideCommand::Acquire),
        }
    } else {
        s
    }
}

/// A failed acquire command makes the scope fail with nothing owed.
pub open spec fn after_acquire_failed(s: OverrideState) -> OverrideState {
    if s.phase == Phase::Active {
        OverrideState { phase: Phase::Failed, ..s }
    } else {
        s
    }
}

/// Leaving the scope, by any path, issues the release command if and only
/// if an acquire is still owed one.
pub open spec fn after_release(s: OverrideState) -> OverrideState {
    if s.phase == Phase::Active {
        OverrideState {
            phase: Phase::Released,
            issued: s.issued.push(OverrideCommand::Release),
            ..s
        }
    } else {
        s
    }
}

/// The system resolver override as a scope: acquired once, released once on
/// whichever path leaves the scope, putting back what was there before.
pub struct DnsOverride {
    phase: Phase,
    previous: Vec<String>,
    issued: Vec<OverrideCommand>,
}

impl DnsOverride {
    pub closed spec fn view(&self) -> OverrideState {
        OverrideState { phase: self.phase, previous: views(self.previous@), issued: self.issued@ }
    }

    /// A scope that has run nothing.
    pub fn new() -> (r: DnsOverride)
        ensures
            r.view() == idle(),
    {
        let r = DnsOverride { phase: Phase::Idle, previous: Vec::new(), issued: Vec::new() };
        assert(r.view().issued =~= idle().issued);
        assert(r.view().previous =~= idle().previous);
        r
    }

    /// The command to run on entering the scope, if one is due; `previous`
    /// are the servers the resolver has now.
    pub fn acquire(&mut self, previous: Vec<String>) -> (r: Option<OverrideCommand>)
        ensures
            final(self).view() == after_acquire(old(self).view(), views(previous@)),
            old(self).view().phase == Phase::Idle ==> r == Some(OverrideCommand::Acquire),
            old(self).view().phase != Phase::Idle ==> r is None,
    {
        if self.phase == Phase::Idle {
            self.phase = Phase::Active;
            self.previous = previous;
            self.issued.push(OverrideCommand::Acquire);
            Some(OverrideCommand::Acquire)
        } else {
            None
        }
    }

    /// Records that the acquire command exited non-zero.
    pub fn acquire_failed(&mut self)
        ensures
            final(self).view() == after_acquire_failed(old(self).view()),
    {
        if self.phase == Phase::Active {
            self.phase = Phase::Failed;
        }
    }

    /// The command to run on leaving the scope, if one is owed.
    pub fn release(&mut self) -> (r: Option<OverrideCommand>)
        ensures
            final(self).view() == after_release(old(self).view()),
            old(self).view().phase == Phase::Active ==> r == Some(OverrideCommand::Release),
            old(self).view().phase != Phase::Active ==> r is None,
    {
        if self.phase == Phase::Active {
            self.phase = Phase::Released;
            self.issued.push(OverrideCommand::Release);
            Some(OverrideCommand::Release)
        } else {
            None
        }
    }

    /// Arguments of `DNS_TOOL` for `cmd`: the acquire points the service at
    /// the local authority, the release sets the servers put aside.
    pub fn command_args(&self, cmd: OverrideCommand) -> (r: Vec<String>)
        ensures
            views(r@) == command_args_spec(cmd, self.view().previous),
    {
        let mut r = owned(&vec![SET_DNS_SERVERS, NETWORK_SERVICE]);
        assert(views(r@) =~= seq![SET_DNS_SERVERS@, NETWORK_SERVICE@]);
        match cmd {
            OverrideCommand::Acquire => {
                r.push(LOCAL_RESOLVER.to_owned());
                assert(views(r@) =~= command_args_spec(cmd, self.view().previous));
            },
            OverrideCommand::Release => {
                if self.previous.len() == 0 {
                    r.push(NO_SERVERS.to_owned());
                    assert(views(r@) =~= command_args_spec(cmd, self.view().previous));
                } else {
                    let ghost head = r@;
                    let mut i: usize = 0;
                    while i < self.previous.len()
                        invariant
                            i <= self.previous@.len(),
                            views(head) =~= seq![SET_DNS_SERVERS@, NETWORK_SERVICE@],
                            views(r@) =~= views(head) + views(self.previous@).take(i as int),
                        decreases self.previous@.len() - i,
                    {
                        let ghost before = r@;
                        r.push(self.previous[i].clone());
                        assert(views(r@) =~= views(before).push(self.previous@[i as int]@));
                        assert(views(self.previous@).take(i as int + 1) =~= views(
                            self.previous@,
                        ).take(i as int).push(self.previous@[i as int]@));
                        i = i + 1;
                    }
                    assert(views(self.previous@).take(i as int) =~= views(self.previous@));
                    assert(views(r@) =~= command_args_spec(cmd, self.view().previous));
                }
            },
        }
        r
    }

    /// The phase the scope is in.
    pub fn phase(&self) -> (r: Phase)
        ensures
            r == self.view().phase,
    {
        self.phase
    }

    /// The commands issued so far, in order.
    pub fn issued(&self) -> (r: &Vec<OverrideCommand>)
        ensures
            r@ == self.view().issued,
    {
        &self.issued
    }
}

/// `after_release` applied `n` times.
pub open spec fn release_times(s: OverrideState, n: nat) -> OverrideState
    decreases n,
{
    if n == 0 {
        s
    } else {
        after_release(release_times(s, (n - 1) as nat))
    }
}

/// Acquiring and then leaving the scope, however often the exit path asks for
/// the release, issues exactly one acquire command and then exactly one
/// release command, and that release sets the servers that were there before.
pub proof fn lemma_acquire_then_release(previous: Seq<Seq<char>>, extra_releases: nat)
    ensures
        release_times(after_acquire(idle(), previous), extra_releases + 1).issued == seq![
            OverrideCommand::Acquire,
            OverrideCommand::Release,
        ],
        release_times(after_acquire(idle(), previous), extra_releases + 1).phase
            == Phase::Released,
        release_times(after_acquire(idle(), previous), extra_releases + 1).previous == previous,
    decreases extra_releases,
{
    let s0 = after_acquire(idle(), previous);
    assert(s0.issued =~= seq![OverrideCommand::Acquire]);
    assert(release_times(s0, 0) == s0);
    if extra_releases > 0 {
        lemma_acquire_then_release(previous, (extra_releases - 1) as nat);
        assert(release_times(s0, extra_releases + 1) == after_release(
            release_times(s0, extra_releases),
        ));
    } else {
        assert(release_times(s0, 1) == after_release(release_times(s0, 0)));
        assert(release_times(s0, 1).issued =~= seq![
            OverrideCommand::Acquire,
            OverrideCommand::Release,
        ]);
    }
}

/// The release puts back exactly the servers listed before the acquire, or
/// sets none when none were listed.
pub proof fn lemma_release_restores(previous: Seq<Seq<char>>)
    ensures
        previous.len() > 0 ==> command_args_spec(OverrideCommand::Release, previous).subrange(
            2,
            2 + previous.len() as int,
        ) == previous,
        previous.len() == 0 ==> command_args_spec(OverrideCommand::Release, previous) == seq![
            SET_DNS_SERVERS@,
            NETWORK_SERVICE@,
            NO_SERVERS@,
        ],
{
    if previous.len() > 0 {
        assert(command_args_spec(OverrideCommand::Release, previous).subrange(
            2,
            2 + previous.len() as int,
        ) =~= previous);
    } else {
        assert(command_args_spec(OverrideCommand::Release, previous) =~= seq![
            SET_DNS_SERVERS@,
            NETWORK_SERVICE@,
            NO_SERVERS@,
        ]);
    }
}

/// A failed acquire leaves nothing to release: no release command follows.
pub proof fn lemma_failed_acquire_owes_nothing(previous: Seq<Seq<char>>)
    ensures
        after_release(after_acquire_failed(after_acquire(idle(), previous))).issued == seq![
            OverrideCommand::Acquire,
        ],
{
    assert(after_release(after_acquire_failed(after_acquire(idle(), previous))).issued =~= seq![
        OverrideCommand::Acquire,
    ]);
}

} // verus!
