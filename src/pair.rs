use vstd::prelude::*;
use crate::credential::random_number_string;
use crate::error::CliError;
use crate::port::all_digits;

verus! {

/// How long the connect phase waits for the paired peer, in milliseconds.
pub const CONNECT_DEADLINE_MS: u64 = 5000;

/// How long the runner waits for one event in the connect phase, in milliseconds.
pub const POLL_INTERVAL_MS: u64 = 100;

/// How long the runner sleeps on a `Pause` action, in milliseconds.
pub const PAUSE_MS: u64 = 100;

/// The two service categories that a peer announces itself under.
#[derive(Clone, Copy, PartialEq, Eq, Structural, Debug)]
pub enum Category {
    /// The peer is ready to receive a pairing credential.
    Pairing,
    /// The peer exposes its debugging endpoint.
    Connect,
}

impl Category {
    /// The service type string browsed or advertised for this category.
    pub fn service_type(self) -> (r: &'static str)
        ensures
            self == Category::Pairing ==> r@ == "_adb-tls-pairing._tcp.local."@,
            self == Category::Connect ==> r@ == "_adb-tls-connect._tcp.local."@,
    {
        match self {
            Category::Pairing => "_adb-tls-pairing._tcp.local.",
            Category::Connect => "_adb-tls-connect._tcp.local.",
        }
    }
}

/// A peer whose pairing and debugging endpoints are both known.
/// The address is an IPv4 address as its big-endian integer.
#[derive(Clone, Copy, PartialEq, Eq, Structural, Debug)]
pub struct DeviceInfo {
    pub address: u32,
    pub pairing_port: u16,
    pub debugging_port: u16,
}

/// A resolved service instance, as the discovery transport reports it.
/// The IPv4 addresses are in the order in which the transport lists them.
pub struct ResolvedService {
    pub fullname: String,
    pub addresses_v4: Vec<u32>,
    pub port: u16,
}

/// One event of a browse.
pub enum DiscoveryEvent {
    Resolved(ResolvedService),
    /// Any other kind of event (search started, service found or removed, ...).
    Other,
}

/// What the runner reports after carrying out the last action.
pub enum Input {
    /// The action completed (a registration, a browse, a stop or a pause).
    Done,
    /// The transport refused the action, with its message.
    Refused(String),
    /// A receive or poll yielded an event.
    Event(DiscoveryEvent),
    /// A poll ended without an event.
    Idle,
    /// The event stream failed, with its message.
    Closed(String),
}

/// What the runner must do next.
#[derive(Clone, Copy, PartialEq, Eq, Structural, Debug)]
pub enum Action {
    /// Register the session's advertisement (see `PairService::advertisement`).
    Register,
    /// Open a browse on a category.
    Browse(Category),
    /// Wait, without limit, for the next event of the open browse.
    Receive,
    /// Wait at most `POLL_INTERVAL_MS` for the next event of the open browse.
    Poll,
    /// Sleep for `PAUSE_MS`.
    Pause,
    /// Stop the browse on a category; its outcome does not matter.
    StopBrowse(Category),
    /// The session has reached its result.
    Finish,
}

/// A release that teardown asks the runner to perform; errors are ignored.
#[derive(Clone, Copy, PartialEq, Eq, Structural, Debug)]
pub enum Cleanup {
    StopBrowse(Category),
    Unregister,
}

/// The state of a pairing session.
#[derive(Debug, PartialEq, Eq)]
pub enum Phase {
    Created,
    /// Registration of the advertisement was requested.
    Advertising,
    /// The pairing browse was requested.
    OpeningPairing,
    /// The pairing browse is open; waiting, without deadline, for the peer.
    AwaitingPairing,
    /// The pairing announcement matched; its browse is being stopped.
    Found { address: u32, pairing_port: u16 },
    /// The connect browse was requested.
    OpeningConnect { address: u32, pairing_port: u16 },
    /// The connect browse is open since `opened_ms`; waiting for the same address.
    AwaitingConnect { address: u32, pairing_port: u16, opened_ms: u64 },
    Resolved(DeviceInfo),
    Failed(CliError),
}

/// The record that the session advertises: a beacon with no payload and no port.
pub struct Advertisement {
    pub service_type: String,
    pub instance_name: String,
    /// `<instance name>.<service type>`, the name under which it is unregistered.
    pub fullname: String,
    pub host_name: String,
    pub port: u16,
}

/// One pairing session: its credential, and the discovery state machine
/// that the runner drives by reporting the outcome of each action.
pub struct PairService {
    pub service_name: String,
    pub password: String,
    pub phase: Phase,
    /// The advertisement is registered and not yet released.
    pub registered: bool,
    /// The browse that is open and not yet stopped, if any.
    pub browsing: Option<Category>,
}

pub open spec fn service_name_prefix() -> Seq<char> {
    "adb-wireless-"@
}

/// The text that the pairing code encodes.
pub open spec fn pairing_payload(name: Seq<char>, password: Seq<char>) -> Seq<char> {
    "WIFI:T:ADB;S:"@ + name + ";P:"@ + password + ";;"@
}

/// The pairing text determines its credential: a service name without `;`
/// and a password are recovered exactly from it.
pub proof fn lemma_payload_determines_credential(name_a: Seq<char>, pass_a: Seq<char>, name_b: Seq<char>, pass_b: Seq<char>)
    requires
        !name_a.contains(';'),
        !name_b.contains(';'),
        pairing_payload(name_a, pass_a) == pairing_payload(name_b, pass_b),
    ensures
        name_a == name_b,
        pass_a == pass_b,
{
    reveal_strlit("WIFI:T:ADB;S:");
    reveal_strlit(";P:");
    reveal_strlit(";;");
    let t = pairing_payload(name_a, pass_a);
    let pre = "WIFI:T:ADB;S:"@;
    assert(pre.len() == 13);
    let a = pre + name_a + ";P:"@ + pass_a + ";;"@;
    let b = pre + name_b + ";P:"@ + pass_b + ";;"@;
    assert(a == t && b == t);
    if name_a.len() < name_b.len() {
        let k = 13 + name_a.len() as int;
        assert(a[k] == ';');
        assert(b[k] == name_b[name_a.len() as int]);
        assert(name_b.contains(';'));
    } else if name_b.len() < name_a.len() {
        let k = 13 + name_b.len() as int;
        assert(b[k] == ';');
        assert(a[k] == name_a[name_b.len() as int]);
        assert(name_a.contains(';'));
    }
    assert(name_a.len() == name_b.len());
    assert forall|i: int| 0 <= i < name_a.len() implies name_a[i] == name_b[i] by {
        assert(a[13 + i] == name_a[i]);
        assert(b[13 + i] == name_b[i]);
    }
    assert(name_a =~= name_b);
    assert(a.len() == 13 + name_a.len() + 3 + pass_a.len() + 2);
    assert(b.len() == 13 + name_b.len() + 3 + pass_b.len() + 2);
    assert(pass_a.len() == pass_b.len());
    assert forall|i: int| 0 <= i < pass_a.len() implies pass_a[i] == pass_b[i] by {
        let k = 16 + name_a.len() as int + i;
        assert(a[k] == pass_a[i]);
        assert(b[k] == pass_b[i]);
    }
    assert(pass_a =~= pass_b);
}

pub open spec fn is_substring(needle: Seq<char>, hay: Seq<char>) -> bool {
    exists|i: int| 0 <= i && i + needle.len() <= hay.len() && #[trigger] hay.subrange(i, i + needle.len()) == needle
}

/// The connect phase has run longer than its deadline.
pub open spec fn deadline_passed(opened_ms: u64, now_ms: u64) -> bool {
    now_ms - opened_ms > CONNECT_DEADLINE_MS
}

pub open spec fn is_terminal(phase: Phase) -> bool {
    phase is Resolved || phase is Failed
}

/// The browse that is open in a phase.
pub open spec fn browse_of(phase: Phase) -> Option<Category> {
    match phase {
        Phase::AwaitingPairing => Some(Category::Pairing),
        Phase::AwaitingConnect { .. } => Some(Category::Connect),
        _ => None,
    }
}

/// A failure on an input that the phase does not expect.
pub open spec fn interrupted() -> (Phase, Action) {
    (Phase::Failed(CliError::Interrupted), Action::Finish)
}

/// Polling goes on in the connect phase until the deadline has passed.
pub open spec fn keep_polling(address: u32, pairing_port: u16, opened_ms: u64, now_ms: u64) -> (Phase, Action) {
    if deadline_passed(opened_ms, now_ms) {
        (Phase::Failed(CliError::DiscoveryTimeout), Action::StopBrowse(Category::Connect))
    } else {
        (Phase::AwaitingConnect { address, pairing_port, opened_ms }, Action::Poll)
    }
}

/// The next phase and action of a session named `name` in `phase`, given what
/// the runner reports at time `now_ms`.
pub open spec fn transition(phase: Phase, name: Seq<char>, input: Input, now_ms: u64) -> (Phase, Action) {
    match phase {
        Phase::Created => interrupted(),
        Phase::Advertising => match input {
            Input::Done => (Phase::OpeningPairing, Action::Browse(Category::Pairing)),
            Input::Refused(m) => (Phase::Failed(CliError::MdnsError(m)), Action::Finish),
            _ => interrupted(),
        },
        Phase::OpeningPairing => match input {
            Input::Done => (Phase::AwaitingPairing, Action::Receive),
            Input::Refused(m) => (Phase::Failed(CliError::MdnsError(m)), Action::Finish),
            _ => interrupted(),
        },
        Phase::AwaitingPairing => match input {
            Input::Event(DiscoveryEvent::Resolved(r)) => if is_substring(name, r.fullname@) {
                if r.addresses_v4@.len() > 0 {
                    (
                        Phase::Found { address: r.addresses_v4@[0], pairing_port: r.port },
                        Action::StopBrowse(Category::Pairing),
                    )
                } else {
                    (Phase::Failed(CliError::NoAddressResolved), Action::StopBrowse(Category::Pairing))
                }
            } else {
                (Phase::AwaitingPairing, Action::Receive)
            },
            Input::Event(DiscoveryEvent::Other) => (Phase::AwaitingPairing, Action::Pause),
            Input::Closed(m) => (Phase::Failed(CliError::MdnsError(m)), Action::StopBrowse(Category::Pairing)),
            Input::Refused(m) => (Phase::Failed(CliError::MdnsError(m)), Action::StopBrowse(Category::Pairing)),
            _ => (Phase::AwaitingPairing, Action::Receive),
        },
        Phase::Found { address, pairing_port } => match input {
            Input::Done => (Phase::OpeningConnect { address, pairing_port }, Action::Browse(Category::Connect)),
            Input::Refused(_) => (Phase::OpeningConnect { address, pairing_port }, Action::Browse(Category::Connect)),
            _ => interrupted(),
        },
        Phase::OpeningConnect { address, pairing_port } => match input {
            Input::Done => (Phase::AwaitingConnect { address, pairing_port, opened_ms: now_ms }, Action::Poll),
            Input::Refused(m) => (Phase::Failed(CliError::MdnsError(m)), Action::Finish),
            _ => interrupted(),
        },
        Phase::AwaitingConnect { address, pairing_port, opened_ms } => match input {
            Input::Event(DiscoveryEvent::Resolved(r)) => if r.addresses_v4@.len() == 0 {
                (Phase::AwaitingConnect { address, pairing_port, opened_ms }, Action::Pause)
            } else if r.addresses_v4@[0] == address {
                (
                    Phase::Resolved(DeviceInfo { address, pairing_port, debugging_port: r.port }),
                    Action::StopBrowse(Category::Connect),
                )
            } else {
                keep_polling(address, pairing_port, opened_ms, now_ms)
            },
            Input::Event(DiscoveryEvent::Other) => (Phase::AwaitingConnect { address, pairing_port, opened_ms }, Action::Pause),
            Input::Closed(m) => (Phase::Failed(CliError::MdnsError(m)), Action::StopBrowse(Category::Connect)),
            Input::Refused(m) => (Phase::Failed(CliError::MdnsError(m)), Action::StopBrowse(Category::Connect)),
            _ => keep_polling(address, pairing_port, opened_ms, now_ms),
        },
        Phase::Resolved(d) => (Phase::Resolved(d), Action::Finish),
        Phase::Failed(e) => (Phase::Failed(e), Action::Finish),
    }
}

/// What teardown releases: the open browse, then the advertisement.
pub open spec fn teardown_cleanup(s: PairService) -> Seq<Cleanup> {
    let stops = match s.browsing {
        Some(c) => seq![Cleanup::StopBrowse(c)],
        None => Seq::empty(),
    };
    if s.registered {
        stops.push(Cleanup::Unregister)
    } else {
        stops
    }
}

/// The session after teardown: nothing held, and a session without a result
/// yet ends as interrupted; a result already reached stays.
pub open spec fn torn_down(s: PairService) -> PairService {
    PairService {
        service_name: s.service_name,
        password: s.password,
        phase: if is_terminal(s.phase) { s.phase } else { Phase::Failed(CliError::Interrupted) },
        registered: false,
        browsing: None,
    }
}

/// A step stops only the browse that is open, and leaves no browse open after
/// stopping it; so no browse is stopped twice, by steps or by teardown.
pub proof fn lemma_stop_only_open_browse(s: PairService, input: Input, now_ms: u64, c: Category)
    requires
        s.wf(),
        transition(s.phase, s.service_name@, input, now_ms).1 == Action::StopBrowse(c),
    ensures
        s.browsing == Some(c),
        browse_of(transition(s.phase, s.service_name@, input, now_ms).0) is None,
{
}

/// Teardown is idempotent: a second teardown releases nothing and leaves
/// the session, and so its result, as the first left it.
pub proof fn lemma_teardown_idempotent(s: PairService)
    requires
        s.wf(),
    ensures
        torn_down(s).wf(),
        teardown_cleanup(torn_down(s)) == Seq::<Cleanup>::empty(),
        torn_down(torn_down(s)) == torn_down(s),
        is_terminal(s.phase) ==> torn_down(s).phase == s.phase,
{
}

/// Whether `hay[at..at + needle.len()]` is `needle`.
pub(crate) fn matches_at(hay: &str, needle: &str, at: usize) -> (r: bool)
    requires
        at + needle@.len() <= hay@.len(),
    ensures
        r == (hay@.subrange(at as int, at + needle@.len()) == needle@),
{
    let h = hay.unicode_len();
    let n = needle.unicode_len();
    let mut j: usize = 0;
    while j < n
        invariant
            h == hay@.len(),
            n == needle@.len(),
            at + n <= hay@.len(),
            j <= n,
            hay@.subrange(at as int, at + j) =~= needle@.take(j as int),
        decreases n - j,
    {
        if hay.get_char(at + j) != needle.get_char(j) {
            assert(hay@.subrange(at as int, at + n)[j as int] != needle@[j as int]);
            return false;
        }
        assert(hay@.subrange(at as int, at + j + 1) =~= needle@.take(j + 1));
        j = j + 1;
    }
    assert(needle@.take(n as int) =~= needle@);
    true
}

/// Whether `needle` occurs in `hay`.
pub fn contains_str(hay: &str, needle: &str) -> (r: bool)
    ensures
        r == is_substring(needle@, hay@),
{
    let h = hay.unicode_len();
    let n = needle.unicode_len();
    if n > h {
        return false;
    }
    let mut at: usize = 0;
    loop
        invariant
            h == hay@.len(),
            n == needle@.len(),
            n <= h,
            at <= h - n,
            forall|i: int| 0 <= i < at ==> #[trigger] hay@.subrange(i, i + n) != needle@,
        decreases h - n - at,
    {
        if matches_at(hay, needle, at) {
            return true;
        }
        if at == h - n {
            return false;
        }
        at = at + 1;
    }
}

/// `keep_polling`, computed.
fn poll_or_time_out(address: u32, pairing_port: u16, opened_ms: u64, now_ms: u64) -> (r: (Phase, Action))
    ensures
        r == keep_polling(address, pairing_port, opened_ms, now_ms),
{
    if now_ms > opened_ms && now_ms - opened_ms > CONNECT_DEADLINE_MS {
        (Phase::Failed(CliError::DiscoveryTimeout), Action::StopBrowse(Category::Connect))
    } else {
        (Phase::AwaitingConnect { address, pairing_port, opened_ms }, Action::Poll)
    }
}

/// `transition` from a phase without a result yet.
fn next_of(phase: &Phase, name: &str, input: Input, now_ms: u64) -> (r: (Phase, Action))
    requires
        !is_terminal(*phase),
    ensures
        r == transition(*phase, name@, input, now_ms),
{
    match phase {
        Phase::Created => (Phase::Failed(CliError::Interrupted), Action::Finish),
        Phase::Advertising => match input {
            Input::Done => (Phase::OpeningPairing, Action::Browse(Category::Pairing)),
            Input::Refused(m) => (Phase::Failed(CliError::MdnsError(m)), Action::Finish),
            _ => (Phase::Failed(CliError::Interrupted), Action::Finish),
        },
        Phase::OpeningPairing => match input {
            Input::Done => (Phase::AwaitingPairing, Action::Receive),
            Input::Refused(m) => (Phase::Failed(CliError::MdnsError(m)), Action::Finish),
            _ => (Phase::Failed(CliError::Interrupted), Action::Finish),
        },
        Phase::AwaitingPairing => match input {
            Input::Event(DiscoveryEvent::Resolved(r)) => {
                if contains_str(r.fullname.as_str(), name) {
                    if r.addresses_v4.len() > 0 {
                        (
                            Phase::Found { address: r.addresses_v4[0], pairing_port: r.port },
                            Action::StopBrowse(Category::Pairing),
                        )
                    } else {
                        (Phase::Failed(CliError::NoAddressResolved), Action::StopBrowse(Category::Pairing))
                    }
                } else {
                    (Phase::AwaitingPairing, Action::Receive)
                }
            },
            Input::Event(DiscoveryEvent::Other) => (Phase::AwaitingPairing, Action::Pause),
            Input::Closed(m) => (Phase::Failed(CliError::MdnsError(m)), Action::StopBrowse(Category::Pairing)),
            Input::Refused(m) => (Phase::Failed(CliError::MdnsError(m)), Action::StopBrowse(Category::Pairing)),
            _ => (Phase::AwaitingPairing, Action::Receive),
        },
        Phase::Found { address, pairing_port } => match input {
            Input::Done => (
                Phase::OpeningConnect { address: *address, pairing_port: *pairing_port },
                Action::Browse(Category::Connect),
            ),
            Input::Refused(_) => (
                Phase::OpeningConnect { address: *address, pairing_port: *pairing_port },
                Action::Browse(Category::Connect),
            ),
            _ => (Phase::Failed(CliError::Interrupted), Action::Finish),
        },
        Phase::OpeningConnect { address, pairing_port } => match input {
            Input::Done => (
                Phase::AwaitingConnect { address: *address, pairing_port: *pairing_port, opened_ms: now_ms },
                Action::Poll,
            ),
            Input::Refused(m) => (Phase::Failed(CliError::MdnsError(m)), Action::Finish),
            _ => (Phase::Failed(CliError::Interrupted), Action::Finish),
        },
        Phase::AwaitingConnect { address, pairing_port, opened_ms } => {
            let (address, pairing_port, opened_ms) = (*address, *pairing_port, *opened_ms);
            match input {
                Input::Event(DiscoveryEvent::Resolved(r)) => {
                    if r.addresses_v4.len() == 0 {
                        (Phase::AwaitingConnect { address, pairing_port, opened_ms }, Action::Pause)
                    } else if r.addresses_v4[0] == address {
                        (
                            Phase::Resolved(DeviceInfo { address, pairing_port, debugging_port: r.port }),
                            Action::StopBrowse(Category::Connect),
                        )
                    } else {
                        poll_or_time_out(address, pairing_port, opened_ms, now_ms)
                    }
                },
                Input::Event(DiscoveryEvent::Other) => (
                    Phase::AwaitingConnect { address, pairing_port, opened_ms },
                    Action::Pause,
                ),
                Input::Closed(m) => (Phase::Failed(CliError::MdnsError(m)), Action::StopBrowse(Category::Connect)),
                Input::Refused(m) => (Phase::Failed(CliError::MdnsError(m)), Action::StopBrowse(Category::Connect)),
                _ => poll_or_time_out(address, pairing_port, opened_ms, now_ms),
            }
        },
        Phase::Resolved(_) => unreached(),
        Phase::Failed(_) => unreached(),
    }
}

impl PairService {
    /// The session's invariant: the open browse is the one of its phase, and
    /// the advertisement is registered only once registration has completed.
    pub open spec fn wf(&self) -> bool {
        &&& self.browsing == browse_of(self.phase)
        &&& self.registered ==> !(self.phase is Created || self.phase is Advertising)
    }

    /// A new session with a fresh credential: the service name
    /// `adb-wireless-` followed by six random digits, and an eight-digit password.
    pub fn new() -> (r: PairService)
        ensures
            r.wf(),
            r.phase is Created,
            !r.registered,
            r.browsing is None,
            r.service_name@.len() == 19,
            r.service_name@.take(13) == service_name_prefix(),
            all_digits(r.service_name@.skip(13)),
            r.password@.len() == 8,
            all_digits(r.password@),
    {
        let prefix = "adb-wireless-";
        proof {
            reveal_strlit("adb-wireless-");
        }
        let mut service_name = String::from_str(prefix);
        let suffix = random_number_string(6);
        service_name.append(suffix.as_str());
        assert(service_name@.take(13) =~= prefix@);
        assert(service_name@.skip(13) =~= suffix@);
        let password = random_number_string(8);
        PairService { service_name, password, phase: Phase::Created, registered: false, browsing: None }
    }

    /// The text of the pairing code: `WIFI:T:ADB;S:<service name>;P:<password>;;`.
    pub fn qrtext(&self) -> (r: String)
        ensures
            r@ == pairing_payload(self.service_name@, self.password@),
    {
        let mut text = String::from_str("WIFI:T:ADB;S:");
        text.append(self.service_name.as_str());
        text.append(";P:");
        text.append(self.password.as_str());
        text.append(";;");
        text
    }

    /// The advertisement that the session registers: its service name under the
    /// pairing category, on host `<service name>.local.`, with port 0.
    pub fn advertisement(&self) -> (r: Advertisement)
        ensures
            r.service_type@ == "_adb-tls-pairing._tcp.local."@,
            r.instance_name@ == self.service_name@,
            r.fullname@ == self.service_name@ + "."@ + "_adb-tls-pairing._tcp.local."@,
            r.host_name@ == self.service_name@ + ".local."@,
            r.port == 0,
    {
        let service_type = String::from_str(Category::Pairing.service_type());
        let instance_name = self.service_name.clone();
        let mut fullname = self.service_name.clone();
        fullname.append(".");
        fullname.append(Category::Pairing.service_type());
        let mut host_name = self.service_name.clone();
        host_name.append(".local.");
        Advertisement { service_type, instance_name, fullname, host_name, port: 0 }
    }

    /// Starts a created session: its first action is to register the advertisement.
    /// A session that was already started is left as it is and finishes.
    pub fn start_discovery(&mut self) -> (a: Action)
        requires
            old(self).wf(),
        ensures
            final(self).wf(),
            final(self).service_name == old(self).service_name,
            final(self).password == old(self).password,
            final(self).registered == old(self).registered,
            final(self).browsing == old(self).browsing,
            old(self).phase is Created ==> final(self).phase is Advertising && a == Action::Register,
            !(old(self).phase is Created) ==> final(self).phase == old(self).phase && a == Action::Finish,
    {
        if let Phase::Created = self.phase {
            self.phase = Phase::Advertising;
            Action::Register
        } else {
            Action::Finish
        }
    }

    /// Whether the session has reached its result.
    pub fn is_finished(&self) -> (r: bool)
        ensures
            r == is_terminal(self.phase),
    {
        match self.phase {
            Phase::Resolved(_) => true,
            Phase::Failed(_) => true,
            _ => false,
        }
    }

    /// Advances the session by what the runner reports of the last action, at
    /// time `now_ms` of a monotonic clock, and returns the next action.
    pub fn step(&mut self, input: Input, now_ms: u64) -> (a: Action)
        requires
            old(self).wf(),
        ensures
            final(self).wf(),
            (final(self).phase, a) == transition(old(self).phase, old(self).service_name@, input, now_ms),
            final(self).service_name == old(self).service_name,
            final(self).password == old(self).password,
            final(self).registered == (old(self).registered || (old(self).phase is Advertising
                && input is Done)),
    {
        if self.is_finished() {
            return Action::Finish;
        }
        let registers = match (&self.phase, &input) {
            (Phase::Advertising, Input::Done) => true,
            _ => false,
        };
        let (phase, action) = next_of(&self.phase, self.service_name.as_str(), input, now_ms);
        self.browsing = match phase {
            Phase::AwaitingPairing => Some(Category::Pairing),
            Phase::AwaitingConnect { .. } => Some(Category::Connect),
            _ => None,
        };
        self.phase = phase;
        if registers {
            self.registered = true;
        }
        action
    }

    /// Releases what the session holds and returns what the runner must release,
    /// ignoring errors. A session without a result ends as interrupted.
    pub fn teardown(&mut self) -> (cleanup: Vec<Cleanup>)
        requires
            old(self).wf(),
        ensures
            final(self).wf(),
            *final(self) == torn_down(*old(self)),
            cleanup@ == teardown_cleanup(*old(self)),
    {
        let mut cleanup: Vec<Cleanup> = Vec::new();
        if let Some(c) = self.browsing {
            cleanup.push(Cleanup::StopBrowse(c));
        }
        if self.registered {
            cleanup.push(Cleanup::Unregister);
        }
        if !self.is_finished() {
            self.phase = Phase::Failed(CliError::Interrupted);
        }
        self.browsing = None;
        self.registered = false;
        assert(cleanup@ =~= teardown_cleanup(*old(self)));
        cleanup
    }

    /// The session's result: the peer once resolved, the failure once failed,
    /// `Interrupted` before either.
    pub fn into_result(self) -> (r: Result<DeviceInfo, CliError>)
        ensures
            match self.phase {
                Phase::Resolved(d) => r == Ok::<DeviceInfo, CliError>(d),
                Phase::Failed(e) => r == Err::<DeviceInfo, CliError>(e),
                _ => r == Err::<DeviceInfo, CliError>(CliError::Interrupted),
            },
    {
        match self.phase {
            Phase::Resolved(d) => Ok(d),
            Phase::Failed(e) => Err(e),
            _ => Err(CliError::Interrupted),
        }
    }
}

} // verus!
