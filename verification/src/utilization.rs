//! What the agent tells the collector about the host it runs on. The facts
//! are found out elsewhere; here they are read and put together.

use vstd::prelude::*;
use vstd::string::StrSliceExecFns;
use vstd::string::StringExecFns;
use crate::config::Config;
use crate::text::lemma_split_nonempty;
use crate::text::split;
use crate::text::split_text;
use crate::text::str_eq;

verus! {

/// The length of the identifier of a Docker container, in characters.
pub const DOCKER_ID_LENGTH: usize = 64;

/// Whether `c` is a digit or one of the letters `a` to `f`.
pub open spec fn is_hex_digit(c: char) -> bool {
    ('0' <= c && c <= '9') || ('a' <= c && c <= 'f')
}

/// Whether `start..end` is a run of hexadecimal digits in `s` that cannot be
/// made longer at either end and is long enough for a Docker identifier.
pub open spec fn is_docker_id_at(s: Seq<char>, start: int, end: int) -> bool {
    &&& 0 <= start <= end <= s.len()
    &&& end - start >= DOCKER_ID_LENGTH
    &&& forall|i: int| start <= i < end ==> is_hex_digit(#[trigger] s[i])
    &&& start > 0 ==> !is_hex_digit(s[start - 1])
    &&& end < s.len() ==> !is_hex_digit(s[end])
}

/// Whether `c` is a digit or one of the letters `a` to `f`.
pub fn hex_digit(c: char) -> (yes: bool)
    ensures
        yes == is_hex_digit(c),
{
    ('0' <= c && c <= '9') || ('a' <= c && c <= 'f')
}

/// Whether `start..end` is the first run in `s` that is long enough for a
/// Docker identifier.
pub open spec fn is_first_docker_id_at(s: Seq<char>, start: int, end: int) -> bool {
    &&& is_docker_id_at(s, start, end)
    &&& forall|a: int, b: int| #[trigger] is_docker_id_at(s, a, b) ==> start <= a
}

/// The first run of at least `DOCKER_ID_LENGTH` hexadecimal digits in `s`,
/// taken as far as it goes.
pub open spec fn docker_id_in(s: Seq<char>) -> Option<Seq<char>> {
    if exists|start: int, end: int| is_first_docker_id_at(s, start, end) {
        let (start, end) = choose|start: int, end: int| is_first_docker_id_at(s, start, end);
        Some(s.subrange(start, end))
    } else {
        None
    }
}

/// There is one first run at most.
pub proof fn lemma_first_docker_id_unique(s: Seq<char>, a: int, b: int, c: int, d: int)
    requires
        is_first_docker_id_at(s, a, b),
        is_first_docker_id_at(s, c, d),
    ensures
        a == c,
        b == d,
{
}

/// The first run of at least `DOCKER_ID_LENGTH` hexadecimal digits in `s`,
/// taken as far as it goes.
pub fn find_docker_id(s: &str) -> (found: Option<&str>)
    ensures
        match found {
            Some(id) => docker_id_in(s@) == Some(id@),
            None => docker_id_in(s@) is None,
        },
{
    let len = s.unicode_len();
    let mut start: usize = 0;
    let mut i: usize = 0;
    for c in it: s.chars()
        invariant
            i == it.index(),
            it.seq() == s@,
            len == s@.len(),
            start <= i,
            forall|j: int| start <= j < i ==> is_hex_digit(#[trigger] s@[j]),
            start > 0 ==> !is_hex_digit(s@[start - 1]),
            forall|a: int, b: int| #[trigger] is_docker_id_at(s@, a, b) ==> start <= a,
    {
        if !hex_digit(c) {
            if i - start >= DOCKER_ID_LENGTH {
                let id = s.substring_char(start, i);
                proof {
                    let (a, b) = choose|a: int, b: int| is_first_docker_id_at(s@, a, b);
                    lemma_first_docker_id_unique(s@, start as int, i as int, a, b);
                }
                return Some(id);
            }
            start = i + 1;
        }
        i = i + 1;
    }
    if len - start >= DOCKER_ID_LENGTH {
        let id = s.substring_char(start, len);
        proof {
            assert(is_first_docker_id_at(s@, start as int, len as int));
            let (a, b) = choose|a: int, b: int| is_first_docker_id_at(s@, a, b);
            lemma_first_docker_id_unique(s@, start as int, len as int, a, b);
        }
        return Some(id);
    }
    None
}

/// The lines of `content`. A line ends with a line feed, or with a carriage
/// return and a line feed; neither belongs to the line. The last line needs
/// no line ending.
pub open spec fn lines_of(content: Seq<char>) -> Seq<Seq<char>> {
    let pieces = split(content, '\n');
    let ended = pieces.drop_last().map_values(|piece: Seq<char>| without_return(piece));
    if pieces.last().len() == 0 {
        ended
    } else {
        ended.push(pieces.last())
    }
}

/// `line` without a carriage return at its end.
pub open spec fn without_return(line: Seq<char>) -> Seq<char> {
    if line.len() > 0 && line.last() == '\r' {
        line.drop_last()
    } else {
        line
    }
}

/// The lines of `content`.
pub fn lines(content: &str) -> (found: Vec<String>)
    ensures
        found.deep_view() == lines_of(content@),
{
    let pieces = split_text(content, '\n');
    proof {
        lemma_split_nonempty(content@, '\n');
    }
    let ghost all = pieces.deep_view();
    let mut found: Vec<String> = Vec::new();
    let last = pieces.len() - 1;
    let mut i: usize = 0;
    while i < last
        invariant
            i <= last,
            last == pieces@.len() - 1,
            all == pieces.deep_view(),
            found.deep_view() == all.take(i as int).map_values(
                |piece: Seq<char>| without_return(piece),
            ),
        decreases last - i,
    {
        let piece = pieces[i].as_str();
        let len = piece.unicode_len();
        let line = if len > 0 && piece.get_char(len - 1) == '\r' {
            String::from_str(piece.substring_char(0, len - 1))
        } else {
            String::from_str(piece)
        };
        let ghost before = found.deep_view();
        found.push(line);
        proof {
            assert(all.take(i + 1).map_values(|piece: Seq<char>| without_return(piece))
                =~= before.push(without_return(all[i as int])));
        }
        i = i + 1;
    }
    let tail = pieces[last].as_str();
    if !tail.is_empty() {
        found.push(String::from_str(tail));
    }
    found
}

/// Whether the list `controllers`, separated by commas, names the `cpu`
/// controller.
pub open spec fn names_cpu(controllers: Seq<char>) -> bool {
    split(controllers, ',').contains("cpu"@)
}

/// The Docker identifier in a line of a control-group listing: the line has
/// three fields, separated by colons, or more; the second names the `cpu`
/// controller; the identifier is looked for in the third.
pub open spec fn line_docker_id(line: Seq<char>) -> Option<Seq<char>> {
    let fields = split(line, ':');
    if fields.len() >= 3 && names_cpu(fields[1]) {
        docker_id_in(fields[2])
    } else {
        None
    }
}

/// The Docker identifier of the first of `lines` that has one.
pub open spec fn first_docker_id(lines: Seq<Seq<char>>) -> Option<Seq<char>>
    decreases lines.len(),
{
    if lines.len() == 0 {
        None
    } else if line_docker_id(lines[0]) is Some {
        line_docker_id(lines[0])
    } else {
        first_docker_id(lines.drop_first())
    }
}

/// What a control-group listing says about Docker.
pub open spec fn docker_of(content: Seq<char>) -> Result<Option<Seq<char>>, UtilizationError> {
    match first_docker_id(lines_of(content)) {
        Some(id) => if id.len() == DOCKER_ID_LENGTH {
            Ok(Some(id))
        } else {
            Err(UtilizationError::DockerIdLength)
        },
        None => Ok(None),
    }
}

/// Why a fact about the host cannot be used.
#[derive(Debug, Clone, Copy, PartialEq, Eq, Structural)]
pub enum UtilizationError {
    /// The run of digits that should be a Docker identifier has not
    /// `DOCKER_ID_LENGTH` characters.
    DockerIdLength,
    /// The boot identifier holds characters outside of ASCII.
    BootIdNotAscii,
}

/// What is known about the Docker container the agent runs in.
#[derive(Debug)]
pub struct Docker {
    pub id: Option<String>,
}

/// Whether the list `controllers`, separated by commas, names the `cpu`
/// controller.
pub fn has_cpu_controller(controllers: &str) -> (yes: bool)
    ensures
        yes == names_cpu(controllers@),
{
    let names = split_text(controllers, ',');
    let ghost all = names.deep_view();
    let mut i: usize = 0;
    while i < names.len()
        invariant
            i <= names@.len(),
            all == names.deep_view(),
            all == split(controllers@, ','),
            forall|j: int| 0 <= j < i ==> all[j] != "cpu"@,
        decreases names@.len() - i,
    {
        if str_eq(names[i].as_str(), "cpu") {
            assert(all[i as int] == "cpu"@);
            return true;
        }
        i = i + 1;
    }
    false
}

impl Docker {
    /// Reads the control-group listing of a process. The first line of the
    /// `cpu` controller that holds a Docker identifier decides: its
    /// identifier is taken if it is `DOCKER_ID_LENGTH` characters long and
    /// refused otherwise. Without such a line the container has no known
    /// identifier.
    pub fn from_cgroup(content: &str) -> (outcome: Result<Docker, UtilizationError>)
        ensures
            match outcome {
                Ok(docker) => docker_of(content@) == Ok::<Option<Seq<char>>, UtilizationError>(
                    docker.id.deep_view(),
                ),
                Err(error) => docker_of(content@) == Err::<Option<Seq<char>>, UtilizationError>(
                    error,
                ),
            },
    {
        let all = lines(content);
        let ghost texts = all.deep_view();
        let mut i: usize = 0;
        assert(texts.skip(0) =~= texts);
        while i < all.len()
            invariant
                i <= all@.len(),
                texts == all.deep_view(),
                texts == lines_of(content@),
                first_docker_id(texts) == first_docker_id(texts.skip(i as int)),
            decreases all@.len() - i,
        {
            let line = all[i].as_str();
            proof {
                assert(texts.skip(i as int).drop_first() =~= texts.skip(i + 1));
            }
            let fields = split_text(line, ':');
            if fields.len() >= 3 && has_cpu_controller(fields[1].as_str()) {
                if let Some(id) = find_docker_id(fields[2].as_str()) {
                    if id.unicode_len() != DOCKER_ID_LENGTH {
                        return Err(UtilizationError::DockerIdLength);
                    }
                    return Ok(Docker { id: Some(String::from_str(id)) });
                }
            }
            i = i + 1;
        }
        Ok(Docker { id: None })
    }
}

/// The longest boot identifier that is reported, in characters.
pub const BOOT_ID_LIMIT: usize = 128;

/// The version of the layout in which the facts are reported.
pub const METADATA_VERSION: i32 = 5;

/// Whether `c` is white space.
pub open spec fn is_whitespace(c: char) -> bool {
    let code = c as u32;
    ||| 0x09 <= code <= 0x0d
    ||| code == 0x20
    ||| code == 0x85
    ||| code == 0xa0
    ||| code == 0x1680
    ||| 0x2000 <= code <= 0x200a
    ||| code == 0x2028
    ||| code == 0x2029
    ||| code == 0x202f
    ||| code == 0x205f
    ||| code == 0x3000
}

/// `s` without the white space at its start and at its end.
pub open spec fn trimmed(s: Seq<char>) -> Seq<char>
    decreases s.len(),
{
    if s.len() > 0 && is_whitespace(s[0]) {
        trimmed(s.drop_first())
    } else if s.len() > 0 && is_whitespace(s.last()) {
        trimmed(s.drop_last())
    } else {
        s
    }
}

/// What is left of `s` between white space all the way to `from` and white
/// space all the way from `to`, with none at either end, is `s` trimmed.
pub proof fn lemma_trimmed(s: Seq<char>, from: int, to: int)
    requires
        0 <= from <= to <= s.len(),
        forall|i: int| 0 <= i < from ==> is_whitespace(#[trigger] s[i]),
        forall|i: int| to <= i < s.len() ==> is_whitespace(#[trigger] s[i]),
        from < to ==> !is_whitespace(s[from]) && !is_whitespace(s[to - 1]),
    ensures
        trimmed(s) == s.subrange(from, to),
    decreases s.len(),
{
    if s.len() == 0 {
    } else if is_whitespace(s[0]) {
        let rest = s.drop_first();
        if from > 0 {
            lemma_trimmed(rest, from - 1, to - 1);
        } else {
            lemma_trimmed(rest, 0, 0);
        }
    } else if is_whitespace(s.last()) {
        let rest = s.drop_last();
        lemma_trimmed(rest, from, to);
    }
}

/// Whether `c` is white space.
pub fn whitespace(c: char) -> (yes: bool)
    ensures
        yes == is_whitespace(c),
{
    let code = c as u32;
    (0x09 <= code && code <= 0x0d) || code == 0x20 || code == 0x85 || code == 0xa0 || code
        == 0x1680 || (0x2000 <= code && code <= 0x200a) || code == 0x2028 || code == 0x2029
        || code == 0x202f || code == 0x205f || code == 0x3000
}

/// `s` without the white space at its start and at its end.
pub fn trim(s: &str) -> (inner: &str)
    ensures
        inner@ == trimmed(s@),
{
    let len = s.unicode_len();
    let mut from: usize = 0;
    let mut to: usize = 0;
    let mut i: usize = 0;
    for c in it: s.chars()
        invariant
            i == it.index(),
            it.seq() == s@,
            len == s@.len(),
            from <= to <= i,
            forall|j: int| 0 <= j < from ==> is_whitespace(#[trigger] s@[j]),
            forall|j: int| to <= j < i ==> is_whitespace(#[trigger] s@[j]),
            from < to ==> !is_whitespace(s@[from as int]) && !is_whitespace(s@[to - 1]),
            from == to ==> from == 0,
    {
        if !whitespace(c) {
            if from == to {
                from = i;
            }
            to = i + 1;
        }
        i = i + 1;
    }
    proof {
        lemma_trimmed(s@, from as int, to as int);
    }
    s.substring_char(from, to)
}

/// The boot identifier that a system reports as `content`: trimmed, and cut
/// off after `BOOT_ID_LIMIT` characters. It has to be ASCII.
pub open spec fn boot_id_of(content: Seq<char>) -> Result<Seq<char>, UtilizationError> {
    let id = trimmed(content);
    if !vstd::utf8::is_ascii_chars(id) {
        Err(UtilizationError::BootIdNotAscii)
    } else if id.len() > BOOT_ID_LIMIT {
        Ok(id.take(BOOT_ID_LIMIT as int))
    } else {
        Ok(id)
    }
}

/// The boot identifier that a system reports as `content`.
pub fn boot_id(content: &str) -> (outcome: Result<String, UtilizationError>)
    ensures
        match outcome {
            Ok(id) => boot_id_of(content@) == Ok::<Seq<char>, UtilizationError>(id@),
            Err(error) => boot_id_of(content@) == Err::<Seq<char>, UtilizationError>(error),
        },
{
    let id = trim(content);
    if !id.is_ascii() {
        return Err(UtilizationError::BootIdNotAscii);
    }
    let len = id.unicode_len();
    if len > BOOT_ID_LIMIT {
        Ok(String::from_str(id.substring_char(0, BOOT_ID_LIMIT)))
    } else {
        Ok(String::from_str(id))
    }
}

/// One address of a network interface.
#[derive(Debug)]
pub struct Interface {
    pub name: String,
    pub address: String,
}

impl View for Interface {
    type V = (Seq<char>, Seq<char>);

    open spec fn view(&self) -> (Seq<char>, Seq<char>) {
        (self.name@, self.address@)
    }
}

/// What `interfaces` holds, as plain text.
pub open spec fn interfaces_view(interfaces: Seq<Interface>) -> Seq<(Seq<char>, Seq<char>)> {
    Seq::new(interfaces.len(), |i: int| interfaces[i]@)
}

/// The index of the first of `interfaces` that has `address`, or their
/// number where none has it.
pub open spec fn interface_with(interfaces: Seq<(Seq<char>, Seq<char>)>, address: Seq<char>) -> int
    decreases interfaces.len(),
{
    if interfaces.len() == 0 {
        0
    } else if interfaces[0].1 == address {
        0
    } else {
        1 + interface_with(interfaces.drop_first(), address)
    }
}

/// The addresses of the interface `name`, in order.
pub open spec fn addresses_named(interfaces: Seq<(Seq<char>, Seq<char>)>, name: Seq<char>) -> Seq<
    Seq<char>,
>
    decreases interfaces.len(),
{
    if interfaces.len() == 0 {
        Seq::empty()
    } else {
        let front = addresses_named(interfaces.drop_last(), name);
        if interfaces.last().0 == name {
            front.push(interfaces.last().1)
        } else {
            front
        }
    }
}

/// All addresses of the interface that has the address `local`; none where
/// no interface has it.
pub open spec fn addresses_beside(
    interfaces: Seq<(Seq<char>, Seq<char>)>,
    local: Seq<char>,
) -> Seq<Seq<char>> {
    let at = interface_with(interfaces, local);
    if 0 <= at < interfaces.len() {
        addresses_named(interfaces, interfaces[at].0)
    } else {
        Seq::empty()
    }
}

/// The index of the first of `interfaces` that has `address`.
fn find_interface(interfaces: &Vec<Interface>, address: &str) -> (at: usize)
    ensures
        at == interface_with(interfaces_view(interfaces@), address@),
        at <= interfaces@.len(),
{
    let ghost all = interfaces_view(interfaces@);
    let mut i: usize = 0;
    assert(all.skip(0) =~= all);
    while i < interfaces.len()
        invariant
            i <= interfaces@.len(),
            all == interfaces_view(interfaces@),
            interface_with(all, address@) == i + interface_with(all.skip(i as int), address@),
        decreases interfaces@.len() - i,
    {
        proof {
            assert(all.skip(i as int).drop_first() =~= all.skip(i + 1));
        }
        if str_eq(interfaces[i].address.as_str(), address) {
            return i;
        }
        i = i + 1;
    }
    i
}

/// The addresses to report for a host that reaches the network from the
/// address `local`: all addresses of the interface that has this one.
pub fn ip_addresses(local: &str, interfaces: &Vec<Interface>) -> (addresses: Vec<String>)
    ensures
        addresses.deep_view() == addresses_beside(interfaces_view(interfaces@), local@),
{
    let ghost all = interfaces_view(interfaces@);
    let mut addresses: Vec<String> = Vec::new();
    let at = find_interface(interfaces, local);
    if at >= interfaces.len() {
        return addresses;
    }
    let name = interfaces[at].name.as_str();
    let mut i: usize = 0;
    while i < interfaces.len()
        invariant
            i <= interfaces@.len(),
            all == interfaces_view(interfaces@),
            addresses.deep_view() == addresses_named(all.take(i as int), name@),
        decreases interfaces@.len() - i,
    {
        proof {
            assert(all.take(i + 1).drop_last() =~= all.take(i as int));
        }
        if str_eq(interfaces[i].name.as_str(), name) {
            addresses.push(interfaces[i].address.clone());
        }
        i = i + 1;
    }
    assert(all.take(i as int) =~= all);
    addresses
}

/// The facts about a host, as they were found.
#[derive(Debug)]
pub struct HostFacts {
    /// The number of processors.
    pub logical_processors: usize,
    /// The memory of the host, in KiB.
    pub total_memory_kib: u64,
    /// The name of the host, if it could be found out.
    pub hostname: Option<String>,
    /// The address from which the host reaches the network, if it does.
    pub local_address: Option<String>,
    pub interfaces: Vec<Interface>,
    /// What the system reports as its boot identifier, if anything.
    pub boot_id: Option<String>,
    /// The control-group listing of this process, if there is one.
    pub cgroup: Option<String>,
    /// The host of the Kubernetes service, if the environment names one.
    pub kubernetes_service_host: Option<String>,
}

/// What is known about the Kubernetes cluster the agent runs in.
#[derive(Debug)]
pub struct Kubernetes {
    pub kubernetes_service_host: String,
}

/// What is known about where the host is run.
#[derive(Debug)]
pub struct Vendors {
    pub docker: Option<Docker>,
    pub kubernetes: Option<Kubernetes>,
}

impl Vendors {
    /// Whether nothing is known.
    pub fn is_empty(&self) -> (empty: bool)
        ensures
            empty == (self.docker is None && self.kubernetes is None),
    {
        self.docker.is_none() && self.kubernetes.is_none()
    }
}

/// The facts about the host as they are reported.
#[derive(Debug)]
pub struct UtilizationData {
    pub metadata_version: i32,
    pub logical_processors: Option<i32>,
    pub total_ram_mib: Option<u64>,
    pub hostname: String,
    pub full_hostname: String,
    pub ip_address: Vec<String>,
    pub boot_id: Option<String>,
    pub vendors: Vendors,
}

/// The text that `outcome` holds if it is a success.
pub open spec fn success_of<E>(outcome: Result<Seq<char>, E>) -> Option<Seq<char>> {
    match outcome {
        Ok(text) => Some(text),
        Err(_) => None,
    }
}

impl UtilizationData {
    /// Whether `self` reports `facts` under `config`. A host without a known
    /// name is reported as `unknown`. What could not be found out, or cannot
    /// be used, is left out; so is what `config` says not to look for.
    pub open spec fn reports(&self, config: Config, facts: HostFacts) -> bool {
        &&& self.metadata_version == METADATA_VERSION
        &&& self.logical_processors == Some(
            if facts.logical_processors > i32::MAX {
                i32::MAX
            } else {
                facts.logical_processors as i32
            },
        )
        &&& self.total_ram_mib == Some(facts.total_memory_kib / 1024)
        &&& self.hostname@ == match facts.hostname {
            Some(name) => name@,
            None => "unknown"@,
        }
        &&& self.full_hostname@.len() == 0
        &&& self.ip_address.deep_view() == match facts.local_address {
            Some(local) => addresses_beside(interfaces_view(facts.interfaces@), local@),
            None => Seq::empty(),
        }
        &&& self.boot_id.deep_view() == match facts.boot_id {
            Some(content) => success_of(boot_id_of(content@)),
            None => None,
        }
        &&& match (config.utilization.detect_docker, facts.cgroup) {
            (true, Some(content)) => match docker_of(content@) {
                Ok(id) => self.vendors.docker matches Some(docker) && docker.id.deep_view() == id,
                Err(_) => self.vendors.docker is None,
            },
            _ => self.vendors.docker is None,
        }
        &&& match (config.utilization.detect_kubernetes, facts.kubernetes_service_host) {
            (true, Some(host)) => self.vendors.kubernetes matches Some(kubernetes)
                && kubernetes.kubernetes_service_host@ == host@,
            _ => self.vendors.kubernetes is None,
        }
    }

    /// Puts the facts about the host together as they are reported.
    pub fn gather(config: &Config, facts: &HostFacts) -> (data: UtilizationData)
        ensures
            data.reports(*config, *facts),
    {
        let logical_processors = if facts.logical_processors > i32::MAX as usize {
            i32::MAX
        } else {
            facts.logical_processors as i32
        };
        let hostname = match &facts.hostname {
            Some(name) => name.clone(),
            None => String::from_str("unknown"),
        };
        let ip_address = match &facts.local_address {
            Some(local) => ip_addresses(local.as_str(), &facts.interfaces),
            None => Vec::new(),
        };
        let boot = match &facts.boot_id {
            Some(content) => match boot_id(content.as_str()) {
                Ok(id) => Some(id),
                Err(_) => None,
            },
            None => None,
        };
        let docker = match (config.utilization.detect_docker, &facts.cgroup) {
            (true, Some(content)) => match Docker::from_cgroup(content.as_str()) {
                Ok(docker) => Some(docker),
                Err(_) => None,
            },
            _ => None,
        };
        let kubernetes = match (
            config.utilization.detect_kubernetes,
            &facts.kubernetes_service_host,
        ) {
            (true, Some(host)) => Some(Kubernetes { kubernetes_service_host: host.clone() }),
            _ => None,
        };
        let data = UtilizationData {
            metadata_version: METADATA_VERSION,
            logical_processors: Some(logical_processors),
            total_ram_mib: Some(facts.total_memory_kib / 1024),
            hostname,
            full_hostname: String::new(),
            ip_address,
            boot_id: boot,
            vendors: Vendors { docker, kubernetes },
        };
        assert(data.ip_address.deep_view() =~= match facts.local_address {
            Some(local) => addresses_beside(interfaces_view(facts.interfaces@), local@),
            None => Seq::empty(),
        });
        data
    }

    /// The name of the host.
    pub fn hostname(&self) -> (name: &str)
        ensures
            name@ == self.hostname@,
    {
        self.hostname.as_str()
    }
}

} // verus!
