//! Docker: reading the listings of the `docker` command and deciding what a
//! cleanup removes.
use vstd::prelude::*;
use crate::text::{
    chars_of, concat, copy_range, has_prefix, lines_chars, lines_of, parse_u16, parse_unsigned,
    parse_uint, push_str, split_chars, split_on, str_eq, str_trim, string_of, to_owned, trim,
    trim_chars, views,
};

pub use crate::types::Timestamp;

verus! {

/// A name for what `chrono::DateTime::parse_from_rfc3339` gives for a text:
/// the instant as (seconds, nanoseconds) since the Unix epoch, or nothing
/// when the text is not an RFC 3339 date-time.
pub uninterp spec fn rfc3339_instant(s: Seq<char>) -> Option<(i64, u32)>;

/// Calls `chrono::DateTime::parse_from_rfc3339`; the instant it returns is
/// named by `rfc3339_instant`.
#[verifier::external_body]
fn parse_rfc3339(s: &str) -> (r: Option<(i64, u32)>)
    ensures
        r == rfc3339_instant(s@),
{
    match chrono::DateTime::parse_from_rfc3339(s) {
        Ok(dt) => Some((dt.timestamp(), dt.timestamp_subsec_nanos())),
        Err(_) => None,
    }
}

/// The instant a Docker time text stands for, or the epoch when it is not
/// an RFC 3339 date-time.
pub open spec fn time_or_epoch(s: Seq<char>) -> Timestamp {
    match rfc3339_instant(s) {
        Some((secs, nanos)) => Timestamp { secs, nanos },
        None => Timestamp { secs: 0, nanos: 0 },
    }
}

/// Parse a Docker time text, falling back to the epoch.
pub fn parse_docker_time(time_str: &str) -> (t: Timestamp)
    ensures
        t == time_or_epoch(time_str@),
{
    match parse_rfc3339(time_str) {
        Some((secs, nanos)) => Timestamp { secs, nanos },
        None => Timestamp { secs: 0, nanos: 0 },
    }
}

/// Docker API client state.
#[derive(Clone)]
pub struct DockerClient {
    api_version: String,
    daemon_running: bool,
    docker_path: Option<String>,
}

/// Container status.
#[derive(Debug, Clone, Copy, PartialEq, Eq, Structural)]
pub enum ContainerStatus {
    Running,
    Exited,
    Paused,
    Restarting,
    Removing,
    Dead,
    Created,
    Unknown,
}

/// Port mapping.
#[derive(Debug, Clone)]
pub struct PortMapping {
    pub container_port: u16,
    pub host_port: Option<u16>,
    pub protocol: String,
}

/// Docker container information.
#[derive(Debug, Clone)]
pub struct ContainerInfo {
    pub id: String,
    pub name: String,
    pub image: String,
    pub status: ContainerStatus,
    pub created: Timestamp,
    pub ports: Vec<PortMapping>,
    pub size_rw: Option<u64>,
    pub size_root_fs: Option<u64>,
}

/// Docker image information.
#[derive(Debug, Clone)]
pub struct ImageInfo {
    pub id: String,
    pub repository: String,
    pub tag: String,
    pub size: u64,
    pub created: Timestamp,
    pub used: bool,
    pub dangling: bool,
}

/// Docker volume information.
#[derive(Debug, Clone)]
pub struct VolumeInfo {
    pub name: String,
    pub driver: String,
    pub mount_point: String,
    pub created: Timestamp,
    pub size: Option<u64>,
    pub containers: Vec<String>,
}

/// Docker network information.
#[derive(Debug, Clone)]
pub struct NetworkInfo {
    pub id: String,
    pub name: String,
    pub driver: String,
    pub scope: String,
    pub internal: bool,
    pub containers: Vec<String>,
    pub created: Timestamp,
}

/// Result of a Docker cleanup.
#[derive(Debug, Clone)]
pub struct DockerCleanupResult {
    pub containers_removed: u32,
    pub images_removed: u32,
    pub volumes_removed: u32,
    pub networks_removed: u32,
    pub build_cache_cleaned: bool,
    pub space_freed: u64,
    pub errors: Vec<String>,
    pub duration_ms: u64,
}

/// Cleanup options for Docker.
#[derive(Debug, Clone, Copy)]
pub struct CleanupOptions {
    pub remove_containers: bool,
    pub remove_images: bool,
    pub remove_volumes: bool,
    pub remove_networks: bool,
    pub clean_build_cache: bool,
    pub stop_running: bool,
    pub remove_dangling: bool,
    pub force: bool,
}

impl Default for CleanupOptions {
    fn default() -> (o: Self)
        ensures
            o.remove_containers && o.remove_images && !o.remove_volumes && o.remove_networks
                && o.clean_build_cache && o.stop_running && o.remove_dangling && !o.force,
    {
        CleanupOptions {
            remove_containers: true,
            remove_images: true,
            remove_volumes: false,
            remove_networks: true,
            clean_build_cache: true,
            stop_running: true,
            remove_dangling: true,
            force: false,
        }
    }
}

/// The status a `docker ps` status text stands for, by its first word.
pub open spec fn container_status_of(s: Seq<char>) -> ContainerStatus {
    if has_prefix(s, "Up"@) {
        ContainerStatus::Running
    } else if has_prefix(s, "Exited"@) {
        ContainerStatus::Exited
    } else if has_prefix(s, "Paused"@) {
        ContainerStatus::Paused
    } else if has_prefix(s, "Restarting"@) {
        ContainerStatus::Restarting
    } else if has_prefix(s, "Removing"@) {
        ContainerStatus::Removing
    } else if has_prefix(s, "Dead"@) {
        ContainerStatus::Dead
    } else if has_prefix(s, "Created"@) {
        ContainerStatus::Created
    } else {
        ContainerStatus::Unknown
    }
}

/// Index of the first `c` in `s`.
pub open spec fn index_of_char(s: Seq<char>, c: char) -> Option<nat>
    decreases s.len(),
{
    if s.len() == 0 {
        None
    } else if s[0] == c {
        Some(0)
    } else {
        match index_of_char(s.drop_first(), c) {
            Some(i) => Some(i + 1),
            None => None,
        }
    }
}

/// A port mapping as plain values: container port, host port, protocol.
pub type PortSpec = (u16, Option<u16>, Seq<char>);

/// The mapping that one comma-separated entry of `docker ps` ports
/// describes: `[host:]hostport:containerport/protocol`.
pub open spec fn port_entry(piece: Seq<char>) -> Option<PortSpec> {
    let parts = split_on(trim(piece), ':');
    if parts.len() >= 2 {
        let cp = parts.last();
        match index_of_char(cp, '/') {
            Some(k) => match parse_unsigned(cp.subrange(0, k as int), u16::MAX as nat) {
                Some(port) => Some((
                    port as u16,
                    if parts.len() == 3 {
                        match parse_unsigned(parts[1], u16::MAX as nat) {
                            Some(h) => Some(h as u16),
                            None => None,
                        }
                    } else {
                        None
                    },
                    cp.subrange(k as int + 1, cp.len() as int),
                )),
                None => None,
            },
            None => None,
        }
    } else {
        None
    }
}

/// The mappings of a list of entries, skipping those that describe none.
pub open spec fn port_entries(pieces: Seq<Seq<char>>) -> Seq<PortSpec>
    decreases pieces.len(),
{
    if pieces.len() == 0 {
        Seq::empty()
    } else {
        let rest = port_entries(pieces.drop_last());
        match port_entry(pieces.last()) {
            Some(p) => rest.push(p),
            None => rest,
        }
    }
}

/// The mappings of a `docker ps` ports text.
pub open spec fn ports_of(s: Seq<char>) -> Seq<PortSpec> {
    if s.len() == 0 {
        Seq::empty()
    } else {
        port_entries(split_on(s, ','))
    }
}

/// The plain values of a port mapping.
pub open spec fn port_spec(p: PortMapping) -> PortSpec {
    (p.container_port, p.host_port, p.protocol@)
}

/// The lines of a listing that hold a record: not blank, not starting with
/// the header word (when there is one), and with at least `min` tab-separated
/// fields; each given by its fields.
pub open spec fn table_rows(lines: Seq<Seq<char>>, header: Option<Seq<char>>, min: nat) -> Seq<Seq<Seq<char>>>
    decreases lines.len(),
{
    if lines.len() == 0 {
        Seq::empty()
    } else {
        let rest = table_rows(lines.drop_last(), header, min);
        let line = lines.last();
        let skip = trim(line).len() == 0 || (header matches Some(h) && has_prefix(line, h));
        let fields = split_on(line, '\t');
        if !skip && fields.len() >= min {
            rest.push(fields)
        } else {
            rest
        }
    }
}

/// The fields of each record.
pub open spec fn deep_views(v: Seq<Vec<Vec<char>>>) -> Seq<Seq<Seq<char>>> {
    v.map_values(|r: Vec<Vec<char>>| views(r@))
}

/// Field `k` of a record, empty when missing.
pub open spec fn field(f: Seq<Seq<char>>, k: int) -> Seq<char> {
    if 0 <= k < f.len() {
        f[k]
    } else {
        Seq::empty()
    }
}

/// An optional size field of `docker ps`.
pub open spec fn size_field(f: Seq<Seq<char>>, k: int) -> Option<u64> {
    if 0 <= k < f.len() {
        match parse_unsigned(f[k], u64::MAX as nat) {
            Some(v) => Some(v as u64),
            None => None,
        }
    } else {
        None
    }
}

/// A container record describes the container.
pub open spec fn container_from(c: ContainerInfo, f: Seq<Seq<char>>) -> bool {
    &&& c.id@ == f[0] && c.name@ == f[1] && c.image@ == f[2]
    &&& c.status == container_status_of(f[3])
    &&& c.created == time_or_epoch(f[4])
    &&& c.ports@.map_values(|p: PortMapping| port_spec(p)) == ports_of(field(f, 5))
    &&& c.size_rw == size_field(f, 6)
    &&& c.size_root_fs == size_field(f, 7)
}

/// A volume record describes the volume.
pub open spec fn volume_from(v: VolumeInfo, f: Seq<Seq<char>>) -> bool {
    &&& v.name@ == f[0] && v.driver@ == f[1] && v.mount_point@ == f[2]
    &&& v.created == time_or_epoch(field(f, 3))
    &&& v.size is None && v.containers@.len() == 0
}

/// A network record describes the network.
pub open spec fn network_from(n: NetworkInfo, f: Seq<Seq<char>>) -> bool {
    &&& n.id@ == f[0] && n.name@ == f[1] && n.driver@ == f[2] && n.scope@ == f[3]
    &&& n.internal == (f.len() > 4 && f[4] == "true"@)
    &&& n.containers@.len() == 0
    &&& n.created == Timestamp { secs: 0, nanos: 0 }
}

/// An image listing line, before its size text is converted.
#[derive(Debug, Clone)]
pub struct ImageRow {
    pub id: String,
    pub repository: String,
    pub tag: String,
    /// The size text, `0B` when the field is missing.
    pub size_text: String,
    pub created: Timestamp,
    pub dangling: bool,
}

/// An image record describes the image row.
pub open spec fn image_row_from(r: ImageRow, f: Seq<Seq<char>>) -> bool {
    &&& r.id@ == f[0] && r.repository@ == f[1] && r.tag@ == f[2]
    &&& r.size_text@ == (if f.len() > 3 { f[3] } else { "0B"@ })
    &&& r.created == time_or_epoch(field(f, 4))
    &&& r.dangling == (f[1] == "<none>"@)
}

/// Every record has at least `min` fields.
pub proof fn lemma_table_rows_min(lines: Seq<Seq<char>>, header: Option<Seq<char>>, min: nat)
    ensures
        forall|i: int| 0 <= i < table_rows(lines, header, min).len() ==> #[trigger] table_rows(lines, header, min)[i].len() >= min,
    decreases lines.len(),
{
    if lines.len() > 0 {
        lemma_table_rows_min(lines.drop_last(), header, min);
        let rest = table_rows(lines.drop_last(), header, min);
        let all = table_rows(lines, header, min);
        assert forall|i: int| 0 <= i < all.len() implies #[trigger] all[i].len() >= min by {
            if i < rest.len() {
                assert(all[i] == rest[i]);
            }
        }
    }
}

/// Field `k` of a record as a string.
fn field_string(f: &Vec<Vec<char>>, k: usize) -> (s: String)
    requires
        k < f@.len(),
    ensures
        s@ == f@[k as int]@,
{
    string_of(&f[k])
}

/// Field `k` of a record as a string, empty when missing.
fn field_or_empty(f: &Vec<Vec<char>>, k: usize) -> (s: String)
    ensures
        s@ == field(views(f@), k as int),
{
    if k < f.len() {
        string_of(&f[k])
    } else {
        String::new()
    }
}

/// An optional size field.
fn size_field_exec(f: &Vec<Vec<char>>, k: usize) -> (r: Option<u64>)
    ensures
        r == size_field(views(f@), k as int),
{
    if k < f.len() {
        parse_uint(&f[k], 0xffff_ffff_ffff_ffff)
    } else {
        None
    }
}

/// The index of the first `c` in `s`.
pub(crate) fn find_char(s: &Vec<char>, c: char) -> (r: Option<usize>)
    ensures
        match r {
            Some(i) => index_of_char(s@, c) == Some(i as nat),
            None => index_of_char(s@, c) is None,
        },
        r matches Some(i) ==> i < s@.len() && s@[i as int] == c,
{
    let mut i: usize = 0;
    assert(s@.subrange(0, s@.len() as int) =~= s@);
    while i < s.len()
        invariant
            i <= s@.len(),
            forall|j: int| 0 <= j < i ==> s@[j] != c,
            index_of_char(s@, c) == match index_of_char(s@.subrange(i as int, s@.len() as int), c) {
                Some(k) => Some((k + i) as nat),
                None => None::<nat>,
            },
        decreases s@.len() - i,
    {
        let ghost t = s@.subrange(i as int, s@.len() as int);
        assert(t[0] == s@[i as int]);
        if s[i] == c {
            return Some(i);
        }
        assert(t.drop_first() =~= s@.subrange(i + 1, s@.len() as int));
        i += 1;
    }
    assert(s@.subrange(i as int, s@.len() as int) =~= Seq::<char>::empty());
    None
}

impl DockerClient {
    /// The client state from what probing found: the path of the `docker`
    /// executable, whether `docker info` succeeded, and the output of
    /// `docker version --format {{.Server.APIVersion}}` when that succeeded.
    /// The API version is that output trimmed when the daemon runs and the
    /// output is there, `1.41` otherwise.
    pub fn new(docker_path: Option<String>, daemon_running: bool, api_version_output: Option<&str>) -> (c: Self)
        ensures
            c.running() == daemon_running,
            c.path() == match docker_path { Some(p) => Some(p@), None => None },
            c.version() == (if daemon_running && api_version_output is Some {
                trim(api_version_output.unwrap()@)
            } else {
                "1.41"@
            }),
    {
        let api_version = if daemon_running {
            match api_version_output {
                Some(o) => str_trim(o),
                None => to_owned("1.41"),
            }
        } else {
            to_owned("1.41")
        };
        DockerClient { api_version, daemon_running, docker_path }
    }

    /// Where Docker Desktop installs the `docker` executable.
    pub fn install_locations() -> (r: Vec<&'static str>)
        ensures
            r@ == seq![
                r"C:\Program Files\Docker\Docker\resources\docker.exe",
                r"C:\Program Files\Docker\Docker\resources\bin\docker.exe",
            ],
    {
        vec![
            r"C:\Program Files\Docker\Docker\resources\docker.exe",
            r"C:\Program Files\Docker\Docker\resources\bin\docker.exe",
        ]
    }

    /// The `docker` executable: `docker.exe` found on the `PATH`, else
    /// `docker` found there, else the first install location that exists
    /// (`installed[i]` for the `i`th of `install_locations`).
    pub fn docker_executable(exe_on_path: Option<String>, on_path: Option<String>, installed: &[bool]) -> (r: Option<String>)
        ensures
            match exe_on_path {
                Some(p) => r matches Some(s) && s@ == p@,
                None => match on_path {
                    Some(p) => r matches Some(s) && s@ == p@,
                    None => if installed@.len() > 0 && installed@[0] {
                        r matches Some(s) && s@ == r"C:\Program Files\Docker\Docker\resources\docker.exe"@
                    } else if installed@.len() > 1 && installed@[1] {
                        r matches Some(s) && s@ == r"C:\Program Files\Docker\Docker\resources\bin\docker.exe"@
                    } else {
                        r is None
                    },
                },
            },
    {
        match exe_on_path {
            Some(p) => Some(p),
            None => match on_path {
                Some(p) => Some(p),
                None => if installed.len() > 0 && installed[0] {
                    Some(to_owned(r"C:\Program Files\Docker\Docker\resources\docker.exe"))
                } else if installed.len() > 1 && installed[1] {
                    Some(to_owned(r"C:\Program Files\Docker\Docker\resources\bin\docker.exe"))
                } else {
                    None
                },
            },
        }
    }

    /// Whether the daemon runs.
    pub closed spec fn running(&self) -> bool {
        self.daemon_running
    }

    /// The negotiated API version.
    pub closed spec fn version(&self) -> Seq<char> {
        self.api_version@
    }

    /// The path of the `docker` executable.
    pub closed spec fn path(&self) -> Option<Seq<char>> {
        match self.docker_path {
            Some(p) => Some(p@),
            None => None,
        }
    }

    /// Whether the daemon runs.
    pub fn is_daemon_running(&self) -> (b: bool)
        ensures
            b == self.running(),
    {
        self.daemon_running
    }

    /// The API version.
    pub fn api_version(&self) -> (v: &str)
        ensures
            v@ == self.version(),
    {
        self.api_version.as_str()
    }

    /// The path of the `docker` executable.
    pub fn docker_path(&self) -> (p: Option<&String>)
        ensures
            match p {
                Some(s) => self.path() == Some(s@),
                None => self.path() is None,
            },
    {
        match &self.docker_path {
            Some(s) => Some(s),
            None => None,
        }
    }

    /// The status a `docker ps` status text stands for.
    pub fn parse_container_status(status: &str) -> (s: ContainerStatus)
        ensures
            s == container_status_of(status@),
    {
        let v = chars_of(status);
        if crate::text::starts_with(&v, &chars_of("Up")) {
            ContainerStatus::Running
        } else if crate::text::starts_with(&v, &chars_of("Exited")) {
            ContainerStatus::Exited
        } else if crate::text::starts_with(&v, &chars_of("Paused")) {
            ContainerStatus::Paused
        } else if crate::text::starts_with(&v, &chars_of("Restarting")) {
            ContainerStatus::Restarting
        } else if crate::text::starts_with(&v, &chars_of("Removing")) {
            ContainerStatus::Removing
        } else if crate::text::starts_with(&v, &chars_of("Dead")) {
            ContainerStatus::Dead
        } else if crate::text::starts_with(&v, &chars_of("Created")) {
            ContainerStatus::Created
        } else {
            ContainerStatus::Unknown
        }
    }

    /// The mapping that one entry of a ports text describes.
    fn parse_port_entry(piece: &Vec<char>) -> (r: Option<PortMapping>)
        ensures
            match port_entry(piece@) {
                Some(p) => r matches Some(m) && port_spec(m) == p,
                None => r is None,
            },
    {
        let trimmed = trim_chars(piece);
        let parts = split_chars(&trimmed, ':');
        let ghost ps = views(parts@);
        assert(ps == split_on(trim(piece@), ':'));
        if parts.len() < 2 {
            return None;
        }
        let cp = &parts[parts.len() - 1];
        assert(ps.last() == cp@);
        assert(ps[1] == parts@[1]@);
        match find_char(cp, '/') {
            Some(k) => {
                assert(k < cp@.len());
                let port_text = copy_range(cp, 0, k);
                match parse_uint(&port_text, 0xffff) {
                    Some(port) => {
                        let host_port = if parts.len() == 3 {
                            match parse_uint(&parts[1], 0xffff) {
                                Some(h) => Some(h as u16),
                                None => None,
                            }
                        } else {
                            None
                        };
                        let protocol = string_of(&copy_range(cp, k + 1, cp.len()));
                        let m = PortMapping { container_port: port as u16, host_port, protocol };
                        proof {
                            let pp = parse_unsigned(cp@.subrange(0, k as int), u16::MAX as nat);
                            assert(pp == Some(port as nat));
                            assert(port_spec(m).0 == (port as nat) as u16);
                            assert(port_spec(m).1 == (if ps.len() == 3 {
                                match parse_unsigned(ps[1], u16::MAX as nat) {
                                    Some(h) => Some(h as u16),
                                    None => None,
                                }
                            } else {
                                None
                            }));
                            assert(port_spec(m).2 == cp@.subrange(k as int + 1, cp@.len() as int));
                            assert(trim(piece@) == trimmed@);
                            assert(split_on(trim(piece@), ':').last() == cp@);
                            assert(index_of_char(cp@, '/') == Some(k as nat));
                            assert(port_entry(piece@) == Some(port_spec(m)));
                        }
                        Some(m)
                    },
                    None => None,
                }
            },
            None => None,
        }
    }

    /// The port mappings of a `docker ps` ports text such as
    /// `0.0.0.0:8080->80/tcp` entries separated by commas; entries without a
    /// `host:container/protocol` shape or with a bad container port are
    /// skipped.
    pub fn parse_ports(ports_str: &str) -> (r: Vec<PortMapping>)
        ensures
            r@.map_values(|p: PortMapping| port_spec(p)) == ports_of(ports_str@),
    {
        let mut out: Vec<PortMapping> = Vec::new();
        let s = chars_of(ports_str);
        if s.len() == 0 {
            assert(out@.map_values(|p: PortMapping| port_spec(p)) =~= ports_of(ports_str@));
            return out;
        }
        let pieces = split_chars(&s, ',');
        let mut i: usize = 0;
        assert(views(pieces@).subrange(0, 0) =~= Seq::<Seq<char>>::empty());
        assert(out@.map_values(|p: PortMapping| port_spec(p)) =~= port_entries(views(pieces@).subrange(0, 0)));
        while i < pieces.len()
            invariant
                i <= pieces@.len(),
                views(pieces@) == split_on(ports_str@, ','),
                out@.map_values(|p: PortMapping| port_spec(p)) == port_entries(views(pieces@).subrange(0, i as int)),
            decreases pieces@.len() - i,
        {
            let ghost old_out = out@;
            assert(views(pieces@).subrange(0, i + 1).drop_last() =~= views(pieces@).subrange(0, i as int));
            assert(views(pieces@).subrange(0, i + 1).last() == pieces@[i as int]@);
            match Self::parse_port_entry(&pieces[i]) {
                Some(m) => {
                    out.push(m);
                    assert(out@.map_values(|p: PortMapping| port_spec(p)) =~= old_out.map_values(
                        |p: PortMapping| port_spec(p),
                    ).push(port_spec(m)));
                },
                None => {},
            }
            i += 1;
        }
        assert(views(pieces@).subrange(0, pieces@.len() as int) =~= views(pieces@));
        out
    }
}

/// The records of a listing: its lines that are not blank, do not start
/// with `header` and have at least `min` tab-separated fields.
pub fn table_rows_exec(stdout: &str, header: Option<&str>, min: usize) -> (r: Vec<Vec<Vec<char>>>)
    ensures
        deep_views(r@) == table_rows(lines_of(stdout@), match header { Some(h) => Some(h@), None => None }, min as nat),
{
    let lines = lines_chars(&chars_of(stdout));
    let ghost h = match header { Some(h) => Some(h@), None => None::<Seq<char>> };
    let hv: Option<Vec<char>> = match header {
        Some(x) => Some(chars_of(x)),
        None => None,
    };
    let mut out: Vec<Vec<Vec<char>>> = Vec::new();
    let mut i: usize = 0;
    assert(views(lines@).subrange(0, 0) =~= Seq::<Seq<char>>::empty());
    assert(deep_views(out@) =~= table_rows(views(lines@).subrange(0, 0), h, min as nat));
    while i < lines.len()
        invariant
            i <= lines@.len(),
            views(lines@) == lines_of(stdout@),
            h == match header { Some(h) => Some(h@), None => None::<Seq<char>> },
            match hv { Some(v) => h == Some(v@), None => h is None },
            deep_views(out@) == table_rows(views(lines@).subrange(0, i as int), h, min as nat),
        decreases lines@.len() - i,
    {
        let line = &lines[i];
        let ghost old_out = out@;
        assert(views(lines@).subrange(0, i + 1).drop_last() =~= views(lines@).subrange(0, i as int));
        assert(views(lines@).subrange(0, i + 1).last() == line@);
        let blank = trim_chars(line).len() == 0;
        let header_line = match &hv {
            Some(v) => crate::text::starts_with(line, v),
            None => false,
        };
        if !blank && !header_line {
            let fields = split_chars(line, '\t');
            if fields.len() >= min {
                out.push(fields);
                assert(deep_views(out@) =~= deep_views(old_out).push(split_on(line@, '\t')));
            }
        }
        i += 1;
    }
    assert(views(lines@).subrange(0, lines@.len() as int) =~= views(lines@));
    out
}

/// Whether every record of a `docker ps -a` listing (four fields or more)
/// has its creation time, the fifth field, as [`parse_container_list`]
/// needs.
pub fn container_listing_complete(stdout: &str) -> (b: bool)
    ensures
        b == forall|i: int| 0 <= i < table_rows(lines_of(stdout@), None, 4).len()
            ==> #[trigger] table_rows(lines_of(stdout@), None, 4)[i].len() >= 5,
{
    let rows = table_rows_exec(stdout, None, 4);
    let ghost spec_rows = table_rows(lines_of(stdout@), None, 4);
    let mut i: usize = 0;
    while i < rows.len()
        invariant
            i <= rows@.len(),
            deep_views(rows@) == spec_rows,
            spec_rows == table_rows(lines_of(stdout@), None, 4),
            forall|j: int| 0 <= j < i ==> #[trigger] spec_rows[j].len() >= 5,
        decreases rows@.len() - i,
    {
        assert(spec_rows[i as int] == views(rows@[i as int]@));
        assert(spec_rows[i as int].len() == rows@[i as int]@.len());
        if rows[i].len() < 5 {
            assert(table_rows(lines_of(stdout@), None, 4)[i as int].len() < 5);
            return false;
        }
        i += 1;
    }
    true
}

/// The containers of a `docker ps -a` listing in the format
/// `ID, Names, Image, Status, CreatedAt, Ports, SizeRw, SizeRootFs`
/// (tab-separated). Records with fewer than four fields are skipped; a
/// record must then have its creation time, which
/// [`container_listing_complete`] checks: a listing that fails that check
/// has no container list.
pub fn parse_container_list(stdout: &str) -> (r: Vec<ContainerInfo>)
    requires
        forall|i: int| 0 <= i < table_rows(lines_of(stdout@), None, 4).len()
            ==> #[trigger] table_rows(lines_of(stdout@), None, 4)[i].len() >= 5,
    ensures
        r@.len() == table_rows(lines_of(stdout@), None, 4).len(),
        forall|i: int| 0 <= i < r@.len() ==> container_from(#[trigger] r@[i], table_rows(lines_of(stdout@), None, 4)[i]),
{
    let rows = table_rows_exec(stdout, None, 4);
    let ghost spec_rows = table_rows(lines_of(stdout@), None, 4);
    let mut out: Vec<ContainerInfo> = Vec::new();
    let mut i: usize = 0;
    while i < rows.len()
        invariant
            i <= rows@.len(),
            deep_views(rows@) == spec_rows,
            spec_rows == table_rows(lines_of(stdout@), None, 4),
            forall|j: int| 0 <= j < spec_rows.len() ==> #[trigger] spec_rows[j].len() >= 5,
            out@.len() == i,
            forall|j: int| 0 <= j < i ==> container_from(#[trigger] out@[j], spec_rows[j]),
        decreases rows@.len() - i,
    {
        let f = &rows[i];
        assert(views(f@) == spec_rows[i as int]);
        assert(views(f@).len() >= 5);
        let status_text = field_string(f, 3);
        let created_text = field_string(f, 4);
        let ports_text = field_or_empty(f, 5);
        let c = ContainerInfo {
            id: field_string(f, 0),
            name: field_string(f, 1),
            image: field_string(f, 2),
            status: DockerClient::parse_container_status(status_text.as_str()),
            created: parse_docker_time(created_text.as_str()),
            ports: DockerClient::parse_ports(ports_text.as_str()),
            size_rw: size_field_exec(f, 6),
            size_root_fs: size_field_exec(f, 7),
        };
        out.push(c);
        i += 1;
    }
    out
}

/// The image rows of a `docker images` listing in the format
/// `ID, Repository, Tag, Size, CreatedAt, CreatedSince` (tab-separated);
/// lines starting with `REPOSITORY` and records with fewer than three
/// fields are skipped.
pub fn parse_image_rows(stdout: &str) -> (r: Vec<ImageRow>)
    ensures
        r@.len() == table_rows(lines_of(stdout@), Some("REPOSITORY"@), 3).len(),
        forall|i: int| 0 <= i < r@.len() ==> image_row_from(#[trigger] r@[i], table_rows(lines_of(stdout@), Some("REPOSITORY"@), 3)[i]),
{
    let rows = table_rows_exec(stdout, Some("REPOSITORY"), 3);
    let ghost spec_rows = table_rows(lines_of(stdout@), Some("REPOSITORY"@), 3);
    proof {
        lemma_table_rows_min(lines_of(stdout@), Some("REPOSITORY"@), 3);
    }
    let mut out: Vec<ImageRow> = Vec::new();
    let mut i: usize = 0;
    while i < rows.len()
        invariant
            i <= rows@.len(),
            deep_views(rows@) == spec_rows,
            spec_rows == table_rows(lines_of(stdout@), Some("REPOSITORY"@), 3),
            forall|j: int| 0 <= j < spec_rows.len() ==> #[trigger] spec_rows[j].len() >= 3,
            out@.len() == i,
            forall|j: int| 0 <= j < i ==> image_row_from(#[trigger] out@[j], spec_rows[j]),
        decreases rows@.len() - i,
    {
        let f = &rows[i];
        assert(views(f@) == spec_rows[i as int]);
        let created_text = field_or_empty(f, 4);
        let size_text = if f.len() > 3 { field_string(f, 3) } else { to_owned("0B") };
        let repository = field_string(f, 1);
        let dangling = str_eq(repository.as_str(), "<none>");
        let r = ImageRow {
            id: field_string(f, 0),
            repository,
            tag: field_string(f, 2),
            size_text,
            created: parse_docker_time(created_text.as_str()),
            dangling,
        };
        out.push(r);
        i += 1;
    }
    out
}

/// The volumes of a `docker volume ls` listing in the format
/// `Name, Driver, Mountpoint, CreatedAt` (tab-separated); lines starting
/// with `DRIVER` and records with fewer than three fields are skipped.
pub fn parse_volume_list(stdout: &str) -> (r: Vec<VolumeInfo>)
    ensures
        r@.len() == table_rows(lines_of(stdout@), Some("DRIVER"@), 3).len(),
        forall|i: int| 0 <= i < r@.len() ==> volume_from(#[trigger] r@[i], table_rows(lines_of(stdout@), Some("DRIVER"@), 3)[i]),
{
    let rows = table_rows_exec(stdout, Some("DRIVER"), 3);
    let ghost spec_rows = table_rows(lines_of(stdout@), Some("DRIVER"@), 3);
    proof {
        lemma_table_rows_min(lines_of(stdout@), Some("DRIVER"@), 3);
    }
    let mut out: Vec<VolumeInfo> = Vec::new();
    let mut i: usize = 0;
    while i < rows.len()
        invariant
            i <= rows@.len(),
            deep_views(rows@) == spec_rows,
            spec_rows == table_rows(lines_of(stdout@), Some("DRIVER"@), 3),
            forall|j: int| 0 <= j < spec_rows.len() ==> #[trigger] spec_rows[j].len() >= 3,
            out@.len() == i,
            forall|j: int| 0 <= j < i ==> volume_from(#[trigger] out@[j], spec_rows[j]),
        decreases rows@.len() - i,
    {
        let f = &rows[i];
        assert(views(f@) == spec_rows[i as int]);
        let created_text = field_or_empty(f, 3);
        let v = VolumeInfo {
            name: field_string(f, 0),
            driver: field_string(f, 1),
            mount_point: field_string(f, 2),
            created: parse_docker_time(created_text.as_str()),
            size: None,
            containers: Vec::new(),
        };
        out.push(v);
        i += 1;
    }
    out
}

/// The networks of a `docker network ls` listing in the format
/// `ID, Name, Driver, Scope, Internal` (tab-separated); lines starting with
/// `NETWORK` and records with fewer than four fields are skipped.
pub fn parse_network_list(stdout: &str) -> (r: Vec<NetworkInfo>)
    ensures
        r@.len() == table_rows(lines_of(stdout@), Some("NETWORK"@), 4).len(),
        forall|i: int| 0 <= i < r@.len() ==> network_from(#[trigger] r@[i], table_rows(lines_of(stdout@), Some("NETWORK"@), 4)[i]),
{
    let rows = table_rows_exec(stdout, Some("NETWORK"), 4);
    let ghost spec_rows = table_rows(lines_of(stdout@), Some("NETWORK"@), 4);
    proof {
        lemma_table_rows_min(lines_of(stdout@), Some("NETWORK"@), 4);
    }
    let mut out: Vec<NetworkInfo> = Vec::new();
    let mut i: usize = 0;
    while i < rows.len()
        invariant
            i <= rows@.len(),
            deep_views(rows@) == spec_rows,
            spec_rows == table_rows(lines_of(stdout@), Some("NETWORK"@), 4),
            forall|j: int| 0 <= j < spec_rows.len() ==> #[trigger] spec_rows[j].len() >= 4,
            out@.len() == i,
            forall|j: int| 0 <= j < i ==> network_from(#[trigger] out@[j], spec_rows[j]),
        decreases rows@.len() - i,
    {
        let f = &rows[i];
        assert(views(f@) == spec_rows[i as int]);
        let internal = f.len() > 4 && crate::path::vec_eq(&f[4], &chars_of("true"));
        let n = NetworkInfo {
            id: field_string(f, 0),
            name: field_string(f, 1),
            driver: field_string(f, 2),
            scope: field_string(f, 3),
            internal,
            containers: Vec::new(),
            created: Timestamp { secs: 0, nanos: 0 },
        };
        out.push(n);
        i += 1;
    }
    out
}

/// A running container is stopped before removal when the options ask for it.
pub fn should_stop_container(options: &CleanupOptions, container: &ContainerInfo) -> (b: bool)
    ensures
        b == (options.stop_running && container.status == ContainerStatus::Running),
{
    options.stop_running && container.status == ContainerStatus::Running
}

/// An image is removed when dangling images may go or it is not dangling.
pub fn should_remove_image(options: &CleanupOptions, dangling: bool) -> (b: bool)
    ensures
        b == (options.remove_dangling || !dangling),
{
    options.remove_dangling || !dangling
}

/// The networks that Docker itself provides, which are never removed.
pub fn is_default_network(name: &str) -> (b: bool)
    ensures
        b == (name@ == "bridge"@ || name@ == "host"@ || name@ == "none"@),
{
    str_eq(name, "bridge") || str_eq(name, "host") || str_eq(name, "none")
}

/// The views of the error messages.
pub open spec fn error_views(v: Seq<String>) -> Seq<Seq<char>> {
    v.map_values(|s: String| s@)
}

/// The text `prefix` + `what` + `": "` + `err`.
pub fn failure_message(prefix: &str, what: &str, err: &str) -> (m: String)
    ensures
        m@ == prefix@ + what@ + ": "@ + err@,
{
    let mut m = concat(prefix, what);
    push_str(&mut m, ": ");
    push_str(&mut m, err);
    assert(m@ =~= prefix@ + what@ + ": "@ + err@);
    m
}

impl DockerCleanupResult {
    /// An empty result.
    pub fn new() -> (r: Self)
        ensures
            r.containers_removed == 0 && r.images_removed == 0 && r.volumes_removed == 0
                && r.networks_removed == 0 && !r.build_cache_cleaned && r.space_freed == 0
                && r.errors@.len() == 0 && r.duration_ms == 0,
    {
        DockerCleanupResult {
            containers_removed: 0,
            images_removed: 0,
            volumes_removed: 0,
            networks_removed: 0,
            build_cache_cleaned: false,
            space_freed: 0,
            errors: Vec::new(),
            duration_ms: 0,
        }
    }

    /// Record a removed container and the space its layers held.
    pub fn record_container_removed(&mut self, size_rw: Option<u64>, size_root_fs: Option<u64>)
        requires
            old(self).containers_removed < u32::MAX,
            old(self).space_freed + (match size_rw { Some(s) => s as int, None => 0int })
                + (match size_root_fs { Some(s) => s as int, None => 0int }) <= u64::MAX,
        ensures
            final(self).containers_removed == old(self).containers_removed + 1,
            final(self).space_freed == old(self).space_freed + (match size_rw { Some(s) => s as int, None => 0int })
                + (match size_root_fs { Some(s) => s as int, None => 0int }),
            final(self).images_removed == old(self).images_removed,
            final(self).volumes_removed == old(self).volumes_removed,
            final(self).networks_removed == old(self).networks_removed,
            final(self).build_cache_cleaned == old(self).build_cache_cleaned,
            final(self).errors@ == old(self).errors@,
            final(self).duration_ms == old(self).duration_ms,
    {
        self.containers_removed = self.containers_removed + 1;
        if let Some(s) = size_rw {
            self.space_freed = self.space_freed + s;
        }
        if let Some(s) = size_root_fs {
            self.space_freed = self.space_freed + s;
        }
    }

    /// Record a removed image of `size` bytes.
    pub fn record_image_removed(&mut self, size: u64)
        requires
            old(self).images_removed < u32::MAX,
            old(self).space_freed + size <= u64::MAX,
        ensures
            final(self).images_removed == old(self).images_removed + 1,
            final(self).space_freed == old(self).space_freed + size,
            final(self).containers_removed == old(self).containers_removed,
            final(self).volumes_removed == old(self).volumes_removed,
            final(self).networks_removed == old(self).networks_removed,
            final(self).build_cache_cleaned == old(self).build_cache_cleaned,
            final(self).errors@ == old(self).errors@,
            final(self).duration_ms == old(self).duration_ms,
    {
        self.images_removed = self.images_removed + 1;
        self.space_freed = self.space_freed + size;
    }

    /// Record a removed volume.
    pub fn record_volume_removed(&mut self)
        requires
            old(self).volumes_removed < u32::MAX,
        ensures
            final(self).volumes_removed == old(self).volumes_removed + 1,
            final(self).containers_removed == old(self).containers_removed,
            final(self).images_removed == old(self).images_removed,
            final(self).networks_removed == old(self).networks_removed,
            final(self).build_cache_cleaned == old(self).build_cache_cleaned,
            final(self).space_freed == old(self).space_freed,
            final(self).errors@ == old(self).errors@,
            final(self).duration_ms == old(self).duration_ms,
    {
        self.volumes_removed = self.volumes_removed + 1;
    }

    /// Record a removed network.
    pub fn record_network_removed(&mut self)
        requires
            old(self).networks_removed < u32::MAX,
        ensures
            final(self).networks_removed == old(self).networks_removed + 1,
            final(self).containers_removed == old(self).containers_removed,
            final(self).images_removed == old(self).images_removed,
            final(self).volumes_removed == old(self).volumes_removed,
            final(self).build_cache_cleaned == old(self).build_cache_cleaned,
            final(self).space_freed == old(self).space_freed,
            final(self).errors@ == old(self).errors@,
            final(self).duration_ms == old(self).duration_ms,
    {
        self.networks_removed = self.networks_removed + 1;
    }

    /// Record that the build cache was cleaned.
    pub fn record_build_cache_cleaned(&mut self)
        ensures
            final(self).build_cache_cleaned,
            final(self).containers_removed == old(self).containers_removed,
            final(self).images_removed == old(self).images_removed,
            final(self).volumes_removed == old(self).volumes_removed,
            final(self).networks_removed == old(self).networks_removed,
            final(self).space_freed == old(self).space_freed,
            final(self).errors@ == old(self).errors@,
            final(self).duration_ms == old(self).duration_ms,
    {
        self.build_cache_cleaned = true;
    }

    /// Record an error message.
    pub fn record_error(&mut self, message: String)
        ensures
            final(self).errors@ == old(self).errors@.push(message),
            final(self).containers_removed == old(self).containers_removed,
            final(self).images_removed == old(self).images_removed,
            final(self).volumes_removed == old(self).volumes_removed,
            final(self).networks_removed == old(self).networks_removed,
            final(self).build_cache_cleaned == old(self).build_cache_cleaned,
            final(self).space_freed == old(self).space_freed,
            final(self).duration_ms == old(self).duration_ms,
    {
        self.errors.push(message);
    }
}


/// A `docker ps` status text maps by its first word: `Up` to running,
/// `Exited`, `Paused`, `Restarting`, `Removing`, `Dead` and `Created` each to
/// their own status, and a text starting with none of them to unknown.
pub proof fn law_container_status(s: Seq<char>)
    ensures
        has_prefix(s, "Up"@) ==> container_status_of(s) == ContainerStatus::Running,
        has_prefix(s, "Exited"@) ==> container_status_of(s) == ContainerStatus::Exited,
        has_prefix(s, "Paused"@) ==> container_status_of(s) == ContainerStatus::Paused,
        has_prefix(s, "Restarting"@) ==> container_status_of(s) == ContainerStatus::Restarting,
        has_prefix(s, "Removing"@) ==> container_status_of(s) == ContainerStatus::Removing,
        has_prefix(s, "Dead"@) ==> container_status_of(s) == ContainerStatus::Dead,
        has_prefix(s, "Created"@) ==> container_status_of(s) == ContainerStatus::Created,
        !has_prefix(s, "Up"@) && !has_prefix(s, "Exited"@) && !has_prefix(s, "Paused"@) && !has_prefix(
            s,
            "Restarting"@,
        ) && !has_prefix(s, "Removing"@) && !has_prefix(s, "Dead"@) && !has_prefix(s, "Created"@)
            ==> container_status_of(s) == ContainerStatus::Unknown,
{
    reveal_strlit("Up");
    reveal_strlit("Exited");
    reveal_strlit("Paused");
    reveal_strlit("Restarting");
    reveal_strlit("Removing");
    reveal_strlit("Dead");
    reveal_strlit("Created");
    if s.len() >= 3 {
        let c0 = s[0];
        let c2 = s[2];
        if has_prefix(s, "Up"@) { assert(s.subrange(0, 2)[0] == c0); }
        if has_prefix(s, "Exited"@) { assert(s.subrange(0, 6)[0] == c0); }
        if has_prefix(s, "Paused"@) { assert(s.subrange(0, 6)[0] == c0); }
        if has_prefix(s, "Restarting"@) { assert(s.subrange(0, 10)[0] == c0 && s.subrange(0, 10)[2] == c2); }
        if has_prefix(s, "Removing"@) { assert(s.subrange(0, 8)[0] == c0 && s.subrange(0, 8)[2] == c2); }
        if has_prefix(s, "Dead"@) { assert(s.subrange(0, 4)[0] == c0); }
        if has_prefix(s, "Created"@) { assert(s.subrange(0, 7)[0] == c0); }
    } else if s.len() >= 1 {
        if has_prefix(s, "Up"@) { assert(s.subrange(0, 2)[0] == s[0]); }
    }
}

} // verus!
