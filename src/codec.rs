use vstd::prelude::*;

use crate::command::{flag_pairs, push_flag_pairs, push_str, strs};

verus! {

/// One mount of a running container, as the engine's inspection reports it.
/// `source` is empty for an anonymous volume.
pub struct Mount {
    pub source: String,
    pub destination: String,
    pub mode: String,
}

/// The host ports bound to one container port (`"80/tcp"`, `"53/udp"`).
pub struct PortBinding {
    pub port: String,
    pub host_ports: Vec<String>,
}

/// The fields of a container-inspection document that a launch command
/// depends on. `port_bindings` keeps the order in which the document was read.
pub struct ContainerInfo {
    pub name: String,
    pub image: String,
    pub user: Option<String>,
    pub env: Option<Vec<String>>,
    pub port_bindings: Vec<PortBinding>,
    pub restart_policy: String,
    pub auto_remove: bool,
    pub privileged: bool,
    pub publish_all_ports: bool,
    pub mounts: Vec<Mount>,
}

/// A container's runtime configuration in the shape of `run` arguments:
/// `mounts` holds `-v` values and `port_bindings` holds `-p` values.
pub struct DockerCommand {
    pub name: String,
    pub privileged: bool,
    pub publish_all_ports: bool,
    pub auto_remove: bool,
    pub restart_policy: String,
    pub user: String,
    pub envs: Vec<String>,
    pub mounts: Vec<String>,
    pub port_bindings: Vec<String>,
    pub image: String,
}

pub struct DockerCommandView {
    pub name: Seq<char>,
    pub privileged: bool,
    pub publish_all_ports: bool,
    pub auto_remove: bool,
    pub restart_policy: Seq<char>,
    pub user: Seq<char>,
    pub envs: Seq<Seq<char>>,
    pub mounts: Seq<Seq<char>>,
    pub port_bindings: Seq<Seq<char>>,
    pub image: Seq<char>,
}

impl View for DockerCommand {
    type V = DockerCommandView;

    open spec fn view(&self) -> DockerCommandView {
        DockerCommandView {
            name: self.name@,
            privileged: self.privileged,
            publish_all_ports: self.publish_all_ports,
            auto_remove: self.auto_remove,
            restart_policy: self.restart_policy@,
            user: self.user@,
            envs: strs(self.envs@),
            mounts: strs(self.mounts@),
            port_bindings: strs(self.port_bindings@),
            image: self.image@,
        }
    }
}

/// A path is absolute when it starts at the root.
pub open spec fn is_absolute(p: Seq<char>) -> bool {
    p.len() > 0 && p[0] == '/'
}

/// The container name without the single leading `/` that inspection adds.
pub open spec fn stripped_name(s: Seq<char>) -> Seq<char> {
    if s.len() > 0 && s[0] == '/' {
        s.subrange(1, s.len() as int)
    } else {
        s
    }
}

/// The `-v` value of a mount: the destination alone for an anonymous volume
/// (relative destination), else `source:destination`, with `:mode` added
/// when the mode is not empty.
pub open spec fn volume_arg(source: Seq<char>, destination: Seq<char>, mode: Seq<char>) -> Seq<char> {
    if !is_absolute(destination) {
        destination
    } else if mode.len() == 0 {
        source + ":"@ + destination
    } else {
        source + ":"@ + destination + ":"@ + mode
    }
}

pub open spec fn volume_args(ms: Seq<Mount>) -> Seq<Seq<char>> {
    ms.map_values(|m: Mount| volume_arg(m.source@, m.destination@, m.mode@))
}

/// Whether a container port names the TCP protocol explicitly.
pub open spec fn has_tcp_suffix(p: Seq<char>) -> bool {
    p.len() >= 4 && p.subrange(p.len() - 4, p.len() as int) == seq!['/', 't', 'c', 'p']
}

/// The container side of a `-p` value: TCP is the engine's default protocol,
/// so `/tcp` is dropped; any other protocol stays.
pub open spec fn published_port(p: Seq<char>) -> Seq<char> {
    if has_tcp_suffix(p) {
        p.subrange(0, p.len() - 4)
    } else {
        p
    }
}

/// The `-p` value binding host port `host` to container port `port`.
pub open spec fn publish_arg(host: Seq<char>, port: Seq<char>) -> Seq<char> {
    host + ":"@ + published_port(port)
}

pub open spec fn binding_args(b: PortBinding) -> Seq<Seq<char>> {
    strs(b.host_ports@).map_values(|h: Seq<char>| publish_arg(h, b.port@))
}

/// The `-p` values of all bindings: bindings in stored order, and within one
/// binding its host ports in order.
pub open spec fn publish_args(bs: Seq<PortBinding>) -> Seq<Seq<char>>
    decreases bs.len(),
{
    if bs.len() == 0 {
        Seq::empty()
    } else {
        publish_args(bs.drop_last()) + binding_args(bs.last())
    }
}

pub open spec fn user_of(u: Option<String>) -> Seq<char> {
    match u {
        Some(s) => s@,
        None => Seq::empty(),
    }
}

pub open spec fn envs_of(e: Option<Vec<String>>) -> Seq<Seq<char>> {
    match e {
        Some(v) => strs(v@),
        None => Seq::empty(),
    }
}

/// The descriptor that parsing an inspection document yields.
pub open spec fn descriptor(info: ContainerInfo) -> DockerCommandView {
    DockerCommandView {
        name: stripped_name(info.name@),
        privileged: info.privileged,
        publish_all_ports: info.publish_all_ports,
        auto_remove: info.auto_remove,
        restart_policy: info.restart_policy@,
        user: user_of(info.user),
        envs: envs_of(info.env),
        mounts: volume_args(info.mounts@),
        port_bindings: publish_args(info.port_bindings@),
        image: info.image@,
    }
}

pub open spec fn opt_flag(set: bool, flag: Seq<char>) -> Seq<Seq<char>> {
    if set {
        seq![flag]
    } else {
        Seq::empty()
    }
}

pub open spec fn user_args(user: Seq<char>) -> Seq<Seq<char>> {
    if user.len() > 0 {
        seq!["-u"@, user]
    } else {
        Seq::empty()
    }
}

/// The full `run` invocation for a descriptor, in its fixed order: program,
/// subcommand and detach flag; the privileged, publish-all and auto-remove
/// flags when set; the restart policy, always; the name; the user when not
/// empty; one `-e`, `-v`, `-p` pair per entry; the image, last.
pub open spec fn encode(d: DockerCommandView) -> Seq<Seq<char>> {
    seq!["docker"@, "run"@, "-d"@]
        + opt_flag(d.privileged, "--privileged"@)
        + opt_flag(d.publish_all_ports, "-P"@)
        + opt_flag(d.auto_remove, "--rm"@)
        + seq!["--restart="@ + d.restart_policy, "--name"@, d.name]
        + user_args(d.user)
        + flag_pairs("-e"@, d.envs)
        + flag_pairs("-v"@, d.mounts)
        + flag_pairs("-p"@, d.port_bindings)
        + seq![d.image]
}

fn is_absolute_path(p: &str) -> (r: bool)
    ensures
        r == is_absolute(p@),
{
    p.unicode_len() > 0 && p.get_char(0) == '/'
}

fn volume_of(m: &Mount) -> (r: String)
    ensures
        r@ == volume_arg(m.source@, m.destination@, m.mode@),
{
    if !is_absolute_path(m.destination.as_str()) {
        m.destination.clone()
    } else {
        let r = m.source.clone().concat(":").concat(m.destination.as_str());
        if m.mode.as_str().is_empty() {
            r
        } else {
            r.concat(":").concat(m.mode.as_str())
        }
    }
}

fn ends_with_tcp(p: &str) -> (r: bool)
    ensures
        r == has_tcp_suffix(p@),
{
    let n = p.unicode_len();
    if n < 4 {
        return false;
    }
    let r = p.get_char(n - 4) == '/' && p.get_char(n - 3) == 't' && p.get_char(n - 2) == 'c'
        && p.get_char(n - 1) == 'p';
    assert(r == (p@.subrange(n - 4, n as int) =~= seq!['/', 't', 'c', 'p']));
    r
}

fn publish_of(host: &str, port: &str) -> (r: String)
    ensures
        r@ == publish_arg(host@, port@),
{
    let container_port = if ends_with_tcp(port) {
        port.substring_char(0, port.unicode_len() - 4)
    } else {
        port
    };
    String::from_str(host).concat(":").concat(container_port)
}

impl ContainerInfo {
    pub fn parse_container_name(&self) -> (r: String)
        ensures
            r@ == stripped_name(self.name@),
    {
        let s = self.name.as_str();
        let n = s.unicode_len();
        if n > 0 && s.get_char(0) == '/' {
            String::from_str(s.substring_char(1, n))
        } else {
            self.name.clone()
        }
    }

    pub fn parse_privileged(&self) -> (r: bool)
        ensures
            r == self.privileged,
    {
        self.privileged
    }

    pub fn parse_publish_all_ports(&self) -> (r: bool)
        ensures
            r == self.publish_all_ports,
    {
        self.publish_all_ports
    }

    pub fn parse_auto_remove(&self) -> (r: bool)
        ensures
            r == self.auto_remove,
    {
        self.auto_remove
    }

    pub fn parse_user(&self) -> (r: String)
        ensures
            r@ == user_of(self.user),
    {
        match &self.user {
            Some(u) => u.clone(),
            None => String::new(),
        }
    }

    pub fn parse_envs(&self) -> (r: Vec<String>)
        ensures
            strs(r@) == envs_of(self.env),
    {
        match &self.env {
            Some(v) => v.clone(),
            None => Vec::new(),
        }
    }

    pub fn parse_mounts(&self) -> (r: Vec<String>)
        ensures
            strs(r@) == volume_args(self.mounts@),
    {
        let mut r: Vec<String> = Vec::new();
        let mut i: usize = 0;
        while i < self.mounts.len()
            invariant
                i <= self.mounts.len(),
                strs(r@) =~= volume_args(self.mounts@.subrange(0, i as int)),
            decreases self.mounts.len() - i,
        {
            let v = volume_of(&self.mounts[i]);
            let ghost pre = r@;
            r.push(v);
            assert(strs(r@) =~= strs(pre).push(v@));
            assert(volume_args(self.mounts@.subrange(0, i + 1)) =~= volume_args(
                self.mounts@.subrange(0, i as int),
            ).push(v@));
            i = i + 1;
        }
        assert(self.mounts@.subrange(0, i as int) =~= self.mounts@);
        r
    }

    pub fn parse_port_bindings(&self) -> (r: Vec<String>)
        ensures
            strs(r@) == publish_args(self.port_bindings@),
    {
        let mut r: Vec<String> = Vec::new();
        let ghost bs = self.port_bindings@;
        let mut i: usize = 0;
        assert(bs.subrange(0, 0) =~= Seq::<PortBinding>::empty());
        while i < self.port_bindings.len()
            invariant
                i <= bs.len(),
                bs == self.port_bindings@,
                strs(r@) == publish_args(bs.subrange(0, i as int)),
            decreases bs.len() - i,
        {
            let b = &self.port_bindings[i];
            let ghost before = strs(r@);
            let mut j: usize = 0;
            while j < b.host_ports.len()
                invariant
                    j <= b.host_ports.len(),
                    strs(r@) =~= before + binding_args(*b).subrange(0, j as int),
                decreases b.host_ports.len() - j,
            {
                let p = publish_of(b.host_ports[j].as_str(), b.port.as_str());
                let ghost pre = r@;
                r.push(p);
                assert(strs(r@) =~= strs(pre).push(p@));
                assert(binding_args(*b)[j as int] == p@);
                assert(strs(r@) =~= before + binding_args(*b).subrange(0, j + 1));
                j = j + 1;
            }
            assert(binding_args(*b).subrange(0, j as int) =~= binding_args(*b));
            assert(bs.subrange(0, i + 1).drop_last() =~= bs.subrange(0, i as int));
            i = i + 1;
        }
        assert(bs.subrange(0, i as int) =~= bs);
        r
    }

    pub fn parse_restart_policy(&self) -> (r: String)
        ensures
            r@ == self.restart_policy@,
    {
        self.restart_policy.clone()
    }

    pub fn parse_image(&self) -> (r: String)
        ensures
            r@ == self.image@,
    {
        self.image.clone()
    }
}

impl DockerCommand {
    /// Parses an inspected container into its runtime descriptor.
    pub fn from(info: ContainerInfo) -> (r: DockerCommand)
        ensures
            r@ == descriptor(info),
    {
        DockerCommand {
            name: info.parse_container_name(),
            privileged: info.parse_privileged(),
            publish_all_ports: info.parse_publish_all_ports(),
            auto_remove: info.parse_auto_remove(),
            restart_policy: info.parse_restart_policy(),
            user: info.parse_user(),
            envs: info.parse_envs(),
            mounts: info.parse_mounts(),
            port_bindings: info.parse_port_bindings(),
            image: info.parse_image(),
        }
    }

    /// Encodes the descriptor as the argument list of an equivalent `run`
    /// invocation, program name first.
    pub fn to_command(&self) -> (r: Vec<String>)
        ensures
            strs(r@) == encode(self@),
    {
        let mut c: Vec<String> = Vec::new();
        push_str(&mut c, "docker");
        push_str(&mut c, "run");
        push_str(&mut c, "-d");
        assert(strs(c@) =~= seq!["docker"@, "run"@, "-d"@]);
        let ghost base = strs(c@);
        if self.privileged {
            push_str(&mut c, "--privileged");
        }
        assert(strs(c@) =~= base + opt_flag(self.privileged, "--privileged"@));
        let ghost base = strs(c@);
        if self.publish_all_ports {
            push_str(&mut c, "-P");
        }
        assert(strs(c@) =~= base + opt_flag(self.publish_all_ports, "-P"@));
        let ghost base = strs(c@);
        if self.auto_remove {
            push_str(&mut c, "--rm");
        }
        assert(strs(c@) =~= base + opt_flag(self.auto_remove, "--rm"@));
        let ghost base = strs(c@);
        let restart = String::from_str("--restart=").concat(self.restart_policy.as_str());
        push_str(&mut c, restart.as_str());
        push_str(&mut c, "--name");
        push_str(&mut c, self.name.as_str());
        assert(strs(c@) =~= base + seq!["--restart="@ + self.restart_policy@, "--name"@, self.name@]);
        let ghost base = strs(c@);
        if !self.user.as_str().is_empty() {
            push_str(&mut c, "-u");
            push_str(&mut c, self.user.as_str());
        }
        assert(strs(c@) =~= base + user_args(self.user@));
        push_flag_pairs(&mut c, "-e", &self.envs);
        push_flag_pairs(&mut c, "-v", &self.mounts);
        push_flag_pairs(&mut c, "-p", &self.port_bindings);
        let ghost base = strs(c@);
        push_str(&mut c, self.image.as_str());
        assert(strs(c@) =~= base + seq![self.image@]);
        c
    }
}

/// Encoding is a function of the descriptor alone: any two argument lists
/// that encode one descriptor are identical.
pub proof fn lemma_encode_idempotent(d: DockerCommandView, a: Seq<Seq<char>>, b: Seq<Seq<char>>)
    requires
        a == encode(d),
        b == encode(d),
    ensures
        a == b,
{
}

/// A mount with an absolute destination and no mode becomes
/// `source:destination`, with no trailing separator.
pub proof fn lemma_volume_without_mode(source: Seq<char>, destination: Seq<char>, mode: Seq<char>)
    requires
        is_absolute(destination),
        mode.len() == 0,
    ensures
        volume_arg(source, destination, mode) == source + ":"@ + destination,
{
}

/// A mount with a relative destination becomes its destination alone,
/// whatever its source and mode.
pub proof fn lemma_volume_anonymous(source: Seq<char>, destination: Seq<char>, mode: Seq<char>)
    requires
        !is_absolute(destination),
    ensures
        volume_arg(source, destination, mode) == destination,
{
}

/// Parsing then encoding a container with no mounts, host port 8080 bound to
/// container port 80/tcp, the one variable `A=1`, none of the three flags,
/// restart policy `always` and no user gives exactly
/// `docker run -d --restart=always --name <name> -e A=1 -p 8080:80 <image>`.
pub proof fn lemma_round_trip_example(info: ContainerInfo)
    requires
        info.mounts@.len() == 0,
        info.port_bindings@.len() == 1,
        info.port_bindings@[0].port@ == "80/tcp"@,
        strs(info.port_bindings@[0].host_ports@) == seq!["8080"@],
        envs_of(info.env) == seq!["A=1"@],
        !info.privileged,
        !info.publish_all_ports,
        !info.auto_remove,
        info.restart_policy@ == "always"@,
        user_of(info.user).len() == 0,
    ensures
        encode(descriptor(info)) == seq![
            "docker"@,
            "run"@,
            "-d"@,
            "--restart=always"@,
            "--name"@,
            stripped_name(info.name@),
            "-e"@,
            "A=1"@,
            "-p"@,
            "8080:80"@,
            info.image@,
        ],
{
    reveal_strlit("80/tcp");
    reveal_strlit("8080");
    reveal_strlit(":");
    reveal_strlit("8080:80");
    reveal_strlit("--restart=");
    reveal_strlit("always");
    reveal_strlit("--restart=always");
    let d = descriptor(info);
    let b = info.port_bindings@[0];
    assert(b.port@.subrange(2, 6) =~= seq!['/', 't', 'c', 'p']);
    assert(has_tcp_suffix(b.port@));
    assert(published_port(b.port@) =~= seq!['8', '0']);
    assert(publish_arg("8080"@, b.port@) =~= "8080:80"@);
    assert(binding_args(b) =~= seq!["8080:80"@]);
    assert(info.port_bindings@.drop_last() =~= Seq::<PortBinding>::empty());
    assert(publish_args(info.port_bindings@.drop_last()) =~= Seq::<Seq<char>>::empty());
    assert(d.port_bindings =~= seq!["8080:80"@]);
    assert(volume_args(info.mounts@) =~= Seq::<Seq<char>>::empty());
    assert(seq!["A=1"@].drop_last() =~= Seq::<Seq<char>>::empty());
    assert(seq!["8080:80"@].drop_last() =~= Seq::<Seq<char>>::empty());
    assert("--restart="@ + "always"@ =~= "--restart=always"@);
    assert(flag_pairs("-e"@, Seq::<Seq<char>>::empty()) =~= Seq::<Seq<char>>::empty());
    assert(flag_pairs("-e"@, d.envs) =~= seq!["-e"@, "A=1"@]);
    assert(flag_pairs("-v"@, d.mounts) =~= Seq::<Seq<char>>::empty());
    assert(flag_pairs("-p"@, Seq::<Seq<char>>::empty()) =~= Seq::<Seq<char>>::empty());
    assert(flag_pairs("-p"@, d.port_bindings) =~= seq!["-p"@, "8080:80"@]);
    assert(user_args(d.user) =~= Seq::<Seq<char>>::empty());
    assert(encode(d) =~= seq![
        "docker"@,
        "run"@,
        "-d"@,
        "--restart=always"@,
        "--name"@,
        stripped_name(info.name@),
        "-e"@,
        "A=1"@,
        "-p"@,
        "8080:80"@,
        info.image@,
    ]);
}

} // verus!
