//! Package sources: choosing mirrors for pacman, apt, Docker and npm,
//! measuring them, and rewriting the files that name them.
use vstd::prelude::*;
use vstd::string::*;
use crate::distro::{family_of, Distro, DistroFamily, DistroV};
use crate::text::{
    chars_of, contains, contains_str, find_char, find_char_from, find_sub, find_sub_from, find_ws,
    find_ws_from, join, join_vec, lines, lines_vec, push_all, push_str, seqs, slice_of,
    starts_with, starts_with_str, string_of, trim, trim_start_str, trim_start_str_vec, trim_vec,
};
use crate::utils::{cmd, command, lits, opt_lit, owned, with_args, CommandV, ShellCommand};

verus! {

/// A mirror offered for selection.
#[derive(Debug)]
pub struct MirrorEntry {
    pub name_cn: &'static str,
    pub name_en: &'static str,
    /// The mirror's address; empty for the distribution's default.
    pub url: String,
    /// `host:port` for the latency test; empty to skip it.
    pub ping_host: &'static str,
}

/// A mirror: Chinese name, English name, address, host to test.
pub type MirrorV = (Seq<char>, Seq<char>, Seq<char>, Seq<char>);

pub open spec fn mirror_view(m: MirrorEntry) -> MirrorV {
    (m.name_cn@, m.name_en@, m.url@, m.ping_host@)
}

pub open spec fn mirrors_view(v: Seq<MirrorEntry>) -> Seq<MirrorV> {
    v.map_values(|m: MirrorEntry| mirror_view(m))
}

fn push_mirror(v: &mut Vec<MirrorEntry>, name_cn: &'static str, name_en: &'static str, url: String, ping_host: &'static str)
    ensures
        mirrors_view(final(v)@) == mirrors_view(old(v)@).push((name_cn@, name_en@, url@, ping_host@)),
{
    let ghost before = v@;
    let m = MirrorEntry { name_cn, name_en, url, ping_host };
    let ghost mv = mirror_view(m);
    v.push(m);
    assert(mirrors_view(v@) =~= mirrors_view(before).push(mv));
}

/// The mirrors offered for pacman: the default, Tsinghua, USTC, Aliyun and Tencent Cloud.
pub open spec fn pacman_mirrors_spec() -> Seq<MirrorV> {
    seq![
        ("默认官方源"@, "Default Official"@, ""@, ""@),
        ("清华 (TUNA)"@, "Tsinghua (TUNA)"@, "https://mirrors.tuna.tsinghua.edu.cn/archlinux/$repo/os/$arch"@, "mirrors.tuna.tsinghua.edu.cn:443"@),
        ("中科大 (USTC)"@, "USTC"@, "https://mirrors.ustc.edu.cn/archlinux/$repo/os/$arch"@, "mirrors.ustc.edu.cn:443"@),
        ("阿里云"@, "Aliyun"@, "https://mirrors.aliyun.com/archlinux/$repo/os/$arch"@, "mirrors.aliyun.com:443"@),
        ("腾讯云"@, "Tencent Cloud"@, "https://mirrors.cloud.tencent.com/archlinux/$repo/os/$arch"@, "mirrors.cloud.tencent.com:443"@),
    ]
}

/// The mirrors offered for pacman: the default, Tsinghua, USTC, Aliyun and Tencent Cloud.
pub fn pacman_mirrors() -> (r: Vec<MirrorEntry>)
    ensures
        mirrors_view(r@) == pacman_mirrors_spec(),
{
    let mut v: Vec<MirrorEntry> = Vec::new();
    push_mirror(&mut v, "默认官方源", "Default Official", owned(""), "");
    push_mirror(&mut v, "清华 (TUNA)", "Tsinghua (TUNA)", owned("https://mirrors.tuna.tsinghua.edu.cn/archlinux/$repo/os/$arch"), "mirrors.tuna.tsinghua.edu.cn:443");
    push_mirror(&mut v, "中科大 (USTC)", "USTC", owned("https://mirrors.ustc.edu.cn/archlinux/$repo/os/$arch"), "mirrors.ustc.edu.cn:443");
    push_mirror(&mut v, "阿里云", "Aliyun", owned("https://mirrors.aliyun.com/archlinux/$repo/os/$arch"), "mirrors.aliyun.com:443");
    push_mirror(&mut v, "腾讯云", "Tencent Cloud", owned("https://mirrors.cloud.tencent.com/archlinux/$repo/os/$arch"), "mirrors.cloud.tencent.com:443");
    assert(mirrors_view(v@) =~= pacman_mirrors_spec());
    v
}

/// The Debian-family path of the distribution: `debian` on Debian, else
/// `ubuntu`.
pub open spec fn apt_path(d: DistroV) -> Seq<char> {
    match d {
        DistroV::Debian(_) => "debian"@,
        _ => "ubuntu"@,
    }
}

/// The mirrors offered for apt: the default, Tsinghua, USTC, Aliyun and
/// Tencent Cloud, each at `https://<host>/<ubuntu or debian>`.
pub open spec fn apt_mirrors_spec(d: DistroV) -> Seq<MirrorV> {
    seq![
        ("默认官方源"@, "Default Official"@, Seq::<char>::empty(), ""@),
        ("清华 (TUNA)"@, "Tsinghua (TUNA)"@, "https://mirrors.tuna.tsinghua.edu.cn/"@ + apt_path(d), "mirrors.tuna.tsinghua.edu.cn:443"@),
        ("中科大 (USTC)"@, "USTC"@, "https://mirrors.ustc.edu.cn/"@ + apt_path(d), "mirrors.ustc.edu.cn:443"@),
        ("阿里云"@, "Aliyun"@, "https://mirrors.aliyun.com/"@ + apt_path(d), "mirrors.aliyun.com:443"@),
        ("腾讯云"@, "Tencent Cloud"@, "https://mirrors.cloud.tencent.com/"@ + apt_path(d), "mirrors.cloud.tencent.com:443"@),
    ]
}

/// The mirrors offered for apt.
pub fn apt_mirrors(distro: &Distro) -> (r: Vec<MirrorEntry>)
    ensures
        mirrors_view(r@) == apt_mirrors_spec(distro@),
{
    let path = match distro {
        Distro::Debian(_) => "debian",
        _ => "ubuntu",
    };
    assert(path@ == apt_path(distro@));
    let mut v: Vec<MirrorEntry> = Vec::new();
    push_mirror(&mut v, "默认官方源", "Default Official", String::new(), "");
    push_mirror(&mut v, "清华 (TUNA)", "Tsinghua (TUNA)", owned("https://mirrors.tuna.tsinghua.edu.cn/").concat(path), "mirrors.tuna.tsinghua.edu.cn:443");
    push_mirror(&mut v, "中科大 (USTC)", "USTC", owned("https://mirrors.ustc.edu.cn/").concat(path), "mirrors.ustc.edu.cn:443");
    push_mirror(&mut v, "阿里云", "Aliyun", owned("https://mirrors.aliyun.com/").concat(path), "mirrors.aliyun.com:443");
    push_mirror(&mut v, "腾讯云", "Tencent Cloud", owned("https://mirrors.cloud.tencent.com/").concat(path), "mirrors.cloud.tencent.com:443");
    assert(mirrors_view(v@) =~= apt_mirrors_spec(distro@));
    v
}

/// The Docker registry mirrors offered: none, Aliyun (the address needs the user's id), Tencent Cloud and Docker China.
pub open spec fn docker_mirrors_spec() -> Seq<MirrorV> {
    seq![
        ("默认（无镜像加速）"@, "Default (no mirror)"@, ""@, ""@),
        ("阿里云（需替换 your-id）"@, "Aliyun (replace your-id)"@, "https://<your-id>.mirror.aliyuncs.com"@, "<your-id>.mirror.aliyuncs.com:443"@),
        ("腾讯云"@, "Tencent Cloud"@, "https://mirror.ccs.tencentyun.com"@, "mirror.ccs.tencentyun.com:443"@),
        ("Docker China"@, "Docker China"@, "https://registry.docker-cn.com"@, "registry.docker-cn.com:443"@),
    ]
}

/// The Docker registry mirrors offered: none, Aliyun (the address needs the user's id), Tencent Cloud and Docker China.
pub fn docker_mirrors() -> (r: Vec<MirrorEntry>)
    ensures
        mirrors_view(r@) == docker_mirrors_spec(),
{
    let mut v: Vec<MirrorEntry> = Vec::new();
    push_mirror(&mut v, "默认（无镜像加速）", "Default (no mirror)", owned(""), "");
    push_mirror(&mut v, "阿里云（需替换 your-id）", "Aliyun (replace your-id)", owned("https://<your-id>.mirror.aliyuncs.com"), "<your-id>.mirror.aliyuncs.com:443");
    push_mirror(&mut v, "腾讯云", "Tencent Cloud", owned("https://mirror.ccs.tencentyun.com"), "mirror.ccs.tencentyun.com:443");
    push_mirror(&mut v, "Docker China", "Docker China", owned("https://registry.docker-cn.com"), "registry.docker-cn.com:443");
    assert(mirrors_view(v@) =~= docker_mirrors_spec());
    v
}

/// The npm registries offered: npmjs.org, npmmirror.com and Tencent Cloud.
pub open spec fn npm_mirrors_spec() -> Seq<MirrorV> {
    seq![
        ("默认 (npmjs.org)"@, "Default (npmjs.org)"@, "https://registry.npmjs.org"@, "registry.npmjs.org:443"@),
        ("npmmirror.com"@, "npmmirror.com"@, "https://registry.npmmirror.com"@, "registry.npmmirror.com:443"@),
        ("腾讯云 npm"@, "Tencent Cloud npm"@, "https://mirrors.cloud.tencent.com/npm/"@, "mirrors.cloud.tencent.com:443"@),
    ]
}

/// The npm registries offered: npmjs.org, npmmirror.com and Tencent Cloud.
pub fn npm_mirrors() -> (r: Vec<MirrorEntry>)
    ensures
        mirrors_view(r@) == npm_mirrors_spec(),
{
    let mut v: Vec<MirrorEntry> = Vec::new();
    push_mirror(&mut v, "默认 (npmjs.org)", "Default (npmjs.org)", owned("https://registry.npmjs.org"), "registry.npmjs.org:443");
    push_mirror(&mut v, "npmmirror.com", "npmmirror.com", owned("https://registry.npmmirror.com"), "registry.npmmirror.com:443");
    push_mirror(&mut v, "腾讯云 npm", "Tencent Cloud npm", owned("https://mirrors.cloud.tencent.com/npm/"), "mirrors.cloud.tencent.com:443");
    assert(mirrors_view(v@) =~= npm_mirrors_spec());
    v
}

/// The system mirrors for a distribution: pacman's on Arch, apt's on
/// Debian, none elsewhere.
pub open spec fn system_mirrors_spec(d: DistroV) -> Seq<MirrorV> {
    match family_of(d) {
        DistroFamily::Arch => pacman_mirrors_spec(),
        DistroFamily::Debian => apt_mirrors_spec(d),
        _ => seq![],
    }
}

/// The system mirrors for a distribution.
pub fn system_mirrors(distro: &Distro) -> (r: Vec<MirrorEntry>)
    ensures
        mirrors_view(r@) == system_mirrors_spec(distro@),
{
    match distro.family() {
        DistroFamily::Arch => pacman_mirrors(),
        DistroFamily::Debian => apt_mirrors(distro),
        _ => {
            let v: Vec<MirrorEntry> = Vec::new();
            assert(mirrors_view(v@) =~= Seq::<MirrorV>::empty());
            v
        },
    }
}

/// Whether `i` is the mirror to recommend: it answered, no mirror answered
/// faster, and every mirror before it was slower.
pub open spec fn is_recommended(l: Seq<Option<u64>>, i: int) -> bool {
    &&& 0 <= i < l.len()
    &&& l[i] is Some
    &&& forall|j: int| 0 <= j < l.len() && #[trigger] l[j] is Some ==> l[i]->0 <= l[j]->0
    &&& forall|j: int| 0 <= j < i && #[trigger] l[j] is Some ==> l[i]->0 < l[j]->0
}

/// The mirror to recommend, as a value: the one `is_recommended` picks out
/// (there is at most one), none when no mirror answered.
pub open spec fn recommend_of(l: Seq<Option<u64>>) -> Option<usize> {
    if exists|i: usize| is_recommended(l, i as int) {
        Some(choose|i: usize| is_recommended(l, i as int))
    } else {
        None
    }
}

/// At most one mirror is recommended.
pub proof fn lemma_recommended_unique(l: Seq<Option<u64>>, i: int, j: int)
    requires
        is_recommended(l, i),
        is_recommended(l, j),
    ensures
        i == j,
{
    assert(l[i] is Some && l[j] is Some);
    if i < j {
        assert(l[j]->0 < l[i]->0);
    } else if j < i {
        assert(l[i]->0 < l[j]->0);
    }
}

/// The mirror to recommend: the first of the fastest that answered; none
/// when no mirror answered.
pub fn recommend_index(latencies: &[Option<u64>]) -> (r: Option<usize>)
    ensures
        match r {
            Some(i) => is_recommended(latencies@, i as int),
            None => forall|j: int| 0 <= j < latencies@.len() ==> latencies@[j] is None,
        },
        r == recommend_of(latencies@),
{
    let mut best: Option<usize> = None;
    let mut i: usize = 0;
    while i < latencies.len()
        invariant
            i <= latencies.len(),
            match best {
                Some(b) => is_recommended(latencies@.take(i as int), b as int),
                None => forall|j: int| 0 <= j < i ==> latencies@[j] is None,
            },
        decreases latencies.len() - i,
    {
        let ghost pre = latencies@.take(i as int);
        let ghost post = latencies@.take(i + 1);
        assert forall|j: int| 0 <= j < i implies post[j] == pre[j] by {}
        match latencies[i] {
            Some(l) => match best {
                Some(b) => {
                    let bl = latencies[b].unwrap();
                    if l < bl {
                        best = Some(i);
                    }
                },
                None => {
                    best = Some(i);
                },
            },
            None => {},
        }
        i = i + 1;
    }
    assert(latencies@.take(i as int) =~= latencies@);
    proof {
        let l = latencies@;
        match best {
            Some(b) => {
                assert(is_recommended(l, b as int));
                let k = choose|k: usize| is_recommended(l, k as int);
                lemma_recommended_unique(l, k as int, b as int);
            },
            None => {
                assert forall|k: usize| !is_recommended(l, k as int) by {
                    if is_recommended(l, k as int) {
                        assert(l[k as int] is None);
                    }
                }
            },
        }
    }
    best
}

// ───────────────────────── pacman ─────────────────────────

/// pacman's mirror list, and the backup made before the first change.
pub const PACMAN_MIRRORLIST: &'static str = "/etc/pacman.d/mirrorlist";
pub const PACMAN_MIRRORLIST_BAK: &'static str = "/etc/pacman.d/mirrorlist.linux-init.bak";
/// apt's source list, and the backup made before the first change.
pub const APT_SOURCES: &'static str = "/etc/apt/sources.list";
pub const APT_SOURCES_BAK: &'static str = "/etc/apt/sources.list.linux-init.bak";
/// Docker's daemon configuration.
pub const DOCKER_DAEMON_JSON: &'static str = "/etc/docker/daemon.json";

/// Backs up the mirror list (done once, before the first change).
pub open spec fn backup_pacman_mirrorlist_spec() -> CommandV {
    cmd("sudo"@, seq!["cp"@, "/etc/pacman.d/mirrorlist"@, "/etc/pacman.d/mirrorlist.linux-init.bak"@], "备份 mirrorlist 失败"@)
}

/// Backs up the mirror list (done once, before the first change).
pub fn backup_pacman_mirrorlist() -> (c: ShellCommand)
    ensures
        c@ == backup_pacman_mirrorlist_spec(),
{
    let args: &[&str] = &["cp", "/etc/pacman.d/mirrorlist", "/etc/pacman.d/mirrorlist.linux-init.bak"];
    assert(args@ == seq!["cp", "/etc/pacman.d/mirrorlist", "/etc/pacman.d/mirrorlist.linux-init.bak"]);
    assert(lits(seq!["cp", "/etc/pacman.d/mirrorlist", "/etc/pacman.d/mirrorlist.linux-init.bak"]) =~= seq!["cp"@, "/etc/pacman.d/mirrorlist"@, "/etc/pacman.d/mirrorlist.linux-init.bak"@]);
    let c = command("sudo", args, "备份 mirrorlist 失败");
    c
}

/// Restores the mirror list from the backup (choosing the default mirror).
pub open spec fn restore_pacman_mirrorlist_spec() -> CommandV {
    cmd("sudo"@, seq!["cp"@, "/etc/pacman.d/mirrorlist.linux-init.bak"@, "/etc/pacman.d/mirrorlist"@], "恢复 mirrorlist 失败"@)
}

/// Restores the mirror list from the backup (choosing the default mirror).
pub fn restore_pacman_mirrorlist() -> (c: ShellCommand)
    ensures
        c@ == restore_pacman_mirrorlist_spec(),
{
    let args: &[&str] = &["cp", "/etc/pacman.d/mirrorlist.linux-init.bak", "/etc/pacman.d/mirrorlist"];
    assert(args@ == seq!["cp", "/etc/pacman.d/mirrorlist.linux-init.bak", "/etc/pacman.d/mirrorlist"]);
    assert(lits(seq!["cp", "/etc/pacman.d/mirrorlist.linux-init.bak", "/etc/pacman.d/mirrorlist"]) =~= seq!["cp"@, "/etc/pacman.d/mirrorlist.linux-init.bak"@, "/etc/pacman.d/mirrorlist"@]);
    let c = command("sudo", args, "恢复 mirrorlist 失败");
    c
}

/// Installs a new mirror list written to `/tmp/linux-init-mirrorlist`.
pub open spec fn install_pacman_mirrorlist_spec() -> CommandV {
    cmd("sudo"@, seq!["cp"@, "/tmp/linux-init-mirrorlist"@, "/etc/pacman.d/mirrorlist"@], "写入 mirrorlist 失败"@)
}

/// Installs a new mirror list written to `/tmp/linux-init-mirrorlist`.
pub fn install_pacman_mirrorlist() -> (c: ShellCommand)
    ensures
        c@ == install_pacman_mirrorlist_spec(),
{
    let args: &[&str] = &["cp", "/tmp/linux-init-mirrorlist", "/etc/pacman.d/mirrorlist"];
    assert(args@ == seq!["cp", "/tmp/linux-init-mirrorlist", "/etc/pacman.d/mirrorlist"]);
    assert(lits(seq!["cp", "/tmp/linux-init-mirrorlist", "/etc/pacman.d/mirrorlist"]) =~= seq!["cp"@, "/tmp/linux-init-mirrorlist"@, "/etc/pacman.d/mirrorlist"@]);
    let c = command("sudo", args, "写入 mirrorlist 失败");
    c
}

/// Backs up the source list (done once, before the first change).
pub open spec fn backup_apt_sources_spec() -> CommandV {
    cmd("sudo"@, seq!["cp"@, "/etc/apt/sources.list"@, "/etc/apt/sources.list.linux-init.bak"@], "备份 sources.list 失败"@)
}

/// Backs up the source list (done once, before the first change).
pub fn backup_apt_sources() -> (c: ShellCommand)
    ensures
        c@ == backup_apt_sources_spec(),
{
    let args: &[&str] = &["cp", "/etc/apt/sources.list", "/etc/apt/sources.list.linux-init.bak"];
    assert(args@ == seq!["cp", "/etc/apt/sources.list", "/etc/apt/sources.list.linux-init.bak"]);
    assert(lits(seq!["cp", "/etc/apt/sources.list", "/etc/apt/sources.list.linux-init.bak"]) =~= seq!["cp"@, "/etc/apt/sources.list"@, "/etc/apt/sources.list.linux-init.bak"@]);
    let c = command("sudo", args, "备份 sources.list 失败");
    c
}

/// Restores the source list from the backup (choosing the default mirror).
pub open spec fn restore_apt_sources_spec() -> CommandV {
    cmd("sudo"@, seq!["cp"@, "/etc/apt/sources.list.linux-init.bak"@, "/etc/apt/sources.list"@], "恢复 sources.list 失败"@)
}

/// Restores the source list from the backup (choosing the default mirror).
pub fn restore_apt_sources() -> (c: ShellCommand)
    ensures
        c@ == restore_apt_sources_spec(),
{
    let args: &[&str] = &["cp", "/etc/apt/sources.list.linux-init.bak", "/etc/apt/sources.list"];
    assert(args@ == seq!["cp", "/etc/apt/sources.list.linux-init.bak", "/etc/apt/sources.list"]);
    assert(lits(seq!["cp", "/etc/apt/sources.list.linux-init.bak", "/etc/apt/sources.list"]) =~= seq!["cp"@, "/etc/apt/sources.list.linux-init.bak"@, "/etc/apt/sources.list"@]);
    let c = command("sudo", args, "恢复 sources.list 失败");
    c
}

/// Installs a new source list written to `/tmp/linux-init-sources.list`.
pub open spec fn install_apt_sources_spec() -> CommandV {
    cmd("sudo"@, seq!["cp"@, "/tmp/linux-init-sources.list"@, "/etc/apt/sources.list"@], "写入 sources.list 失败"@)
}

/// Installs a new source list written to `/tmp/linux-init-sources.list`.
pub fn install_apt_sources() -> (c: ShellCommand)
    ensures
        c@ == install_apt_sources_spec(),
{
    let args: &[&str] = &["cp", "/tmp/linux-init-sources.list", "/etc/apt/sources.list"];
    assert(args@ == seq!["cp", "/tmp/linux-init-sources.list", "/etc/apt/sources.list"]);
    assert(lits(seq!["cp", "/tmp/linux-init-sources.list", "/etc/apt/sources.list"]) =~= seq!["cp"@, "/tmp/linux-init-sources.list"@, "/etc/apt/sources.list"@]);
    let c = command("sudo", args, "写入 sources.list 失败");
    c
}

/// Creates `/etc/docker` (failure ignored).
pub open spec fn make_docker_dir_spec() -> CommandV {
    cmd("sudo"@, seq!["mkdir"@, "-p"@, "/etc/docker"@], ""@)
}

/// Creates `/etc/docker` (failure ignored).
pub fn make_docker_dir() -> (c: ShellCommand)
    ensures
        c@ == make_docker_dir_spec(),
{
    let args: &[&str] = &["mkdir", "-p", "/etc/docker"];
    assert(args@ == seq!["mkdir", "-p", "/etc/docker"]);
    assert(lits(seq!["mkdir", "-p", "/etc/docker"]) =~= seq!["mkdir"@, "-p"@, "/etc/docker"@]);
    let c = command("sudo", args, "");
    c
}

/// Installs a new daemon configuration written to `/tmp/linux-init-daemon.json`.
pub open spec fn install_daemon_json_spec() -> CommandV {
    cmd("sudo"@, seq!["cp"@, "/tmp/linux-init-daemon.json"@, "/etc/docker/daemon.json"@], "写入 daemon.json 失败"@)
}

/// Installs a new daemon configuration written to `/tmp/linux-init-daemon.json`.
pub fn install_daemon_json() -> (c: ShellCommand)
    ensures
        c@ == install_daemon_json_spec(),
{
    let args: &[&str] = &["cp", "/tmp/linux-init-daemon.json", "/etc/docker/daemon.json"];
    assert(args@ == seq!["cp", "/tmp/linux-init-daemon.json", "/etc/docker/daemon.json"]);
    assert(lits(seq!["cp", "/tmp/linux-init-daemon.json", "/etc/docker/daemon.json"]) =~= seq!["cp"@, "/tmp/linux-init-daemon.json"@, "/etc/docker/daemon.json"@]);
    let c = command("sudo", args, "写入 daemon.json 失败");
    c
}

/// Restarts Docker so that it reads its configuration again.
pub open spec fn restart_docker_spec() -> CommandV {
    cmd("sudo"@, seq!["systemctl"@, "restart"@, "docker"@], "systemctl restart docker 失败"@)
}

/// Restarts Docker so that it reads its configuration again.
pub fn restart_docker() -> (c: ShellCommand)
    ensures
        c@ == restart_docker_spec(),
{
    let args: &[&str] = &["systemctl", "restart", "docker"];
    assert(args@ == seq!["systemctl", "restart", "docker"]);
    assert(lits(seq!["systemctl", "restart", "docker"]) =~= seq!["systemctl"@, "restart"@, "docker"@]);
    let c = command("sudo", args, "systemctl restart docker 失败");
    c
}

/// The line that marks the mirror this tool adds.
pub open spec fn pacman_marker() -> Seq<char> {
    "## linux-init mirror"@
}

/// The lines that do not hold the marker.
pub open spec fn unmarked(ls: Seq<Seq<char>>) -> Seq<Seq<char>>
    decreases ls.len(),
{
    if ls.len() == 0 {
        seq![]
    } else {
        unmarked(ls.drop_last()) + if contains(ls.last(), pacman_marker()) {
            Seq::<Seq<char>>::empty()
        } else {
            seq![ls.last()]
        }
    }
}

/// A mirror list that puts a server first: the marker, `Server = <url>`, an
/// empty line, then the lines of the backup without marker lines.
pub open spec fn pacman_mirrorlist_spec(backup: Seq<char>, url: Seq<char>) -> Seq<char> {
    pacman_marker() + "\nServer = "@ + url + "\n"@ + "\n"@ + join(unmarked(lines(backup)), "\n"@)
}

/// A mirror list that puts a server first, built from the backup.
pub fn pacman_mirrorlist(backup: &str, url: &str) -> (r: String)
    ensures
        r@ == pacman_mirrorlist_spec(backup@, url@),
{
    let cs = chars_of(backup);
    let ls = lines_vec(&cs);
    let mut kept: Vec<Vec<char>> = Vec::new();
    let mut i: usize = 0;
    while i < ls.len()
        invariant
            i <= ls.len(),
            seqs(kept@) == unmarked(seqs(ls@).take(i as int)),
        decreases ls.len() - i,
    {
        proof {
            assert(seqs(ls@).take(i + 1).drop_last() =~= seqs(ls@).take(i as int));
            assert(seqs(ls@).take(i + 1).last() == ls@[i as int]@);
        }
        let ghost before = kept@;
        if !contains_str(&ls[i], "## linux-init mirror") {
            let l = slice_of(&ls[i], 0, ls[i].len());
            assert(l@ =~= ls@[i as int]@);
            kept.push(l);
            assert(seqs(kept@) =~= seqs(before) + seq![ls@[i as int]@]);
        } else {
            assert(seqs(kept@) =~= seqs(before) + Seq::<Seq<char>>::empty());
        }
        i = i + 1;
    }
    assert(seqs(ls@).take(i as int) =~= seqs(ls@));
    let mut out = chars_of("## linux-init mirror");
    push_str(&mut out, "\nServer = ");
    push_str(&mut out, url);
    push_str(&mut out, "\n");
    push_str(&mut out, "\n");
    let j = join_vec(&kept, "\n");
    push_all(&mut out, &j);
    string_of(&out)
}

// ───────────────────────── apt ─────────────────────────

/// The host of a mirror address: without `https://`, then without
/// `http://`.
pub open spec fn mirror_host(url: Seq<char>) -> Seq<char> {
    trim_start_str(trim_start_str(url, "https://"@), "http://"@)
}

/// The APT options in the part of a `deb` line before the URL's `://`:
/// from `[` through the first `]` after it; up to the `://` when the
/// bracket is not closed; nothing without `[`.
pub open spec fn apt_options(prefix: Seq<char>) -> Seq<char> {
    let b = find_char(prefix, '[');
    if b >= 0 {
        let from = prefix.skip(b);
        let e = find_char(from, ']');
        if e >= 0 {
            from.take(e + 1)
        } else {
            from
        }
    } else {
        seq![]
    }
}

/// One line of `sources.list` pointed at a mirror host: a `deb` line with a
/// URL keeps its options (`[arch=...]`) and everything after the URL, and
/// only its scheme, host and path change; other lines stay as they are.
pub open spec fn apt_line_spec(line: Seq<char>, host: Seq<char>) -> Seq<char> {
    let t = trim(line);
    if starts_with(t, "deb "@) && !starts_with(t, "deb-src"@) {
        let idx = find_sub(t, "://"@);
        if idx >= 0 {
            let prefix = t.take(idx);
            let options = apt_options(prefix);
            let after = t.skip(idx + 3);
            let w = find_ws(after);
            if w >= 0 {
                let rest = after.skip(w);
                if options.len() == 0 {
                    "deb https://"@ + host + rest
                } else {
                    "deb "@ + options + " https://"@ + host + rest
                }
            } else {
                line
            }
        } else {
            line
        }
    } else {
        line
    }
}

/// `sources.list` pointed at a mirror: each line as `apt_line_spec`
/// rewrites it, joined with line breaks (no final one).
pub open spec fn replace_apt_mirror_spec(content: Seq<char>, new_mirror: Seq<char>) -> Seq<char> {
    join(lines(content).map_values(|l: Seq<char>| apt_line_spec(l, mirror_host(new_mirror))), "\n"@)
}

fn apt_line(line: &Vec<char>, host: &Vec<char>) -> (r: Vec<char>)
    ensures
        r@ == apt_line_spec(line@, host@),
{
    let t = trim_vec(line);
    let same = slice_of(line, 0, line.len());
    assert(same@ =~= line@);
    if !(starts_with_str(&t, "deb ") && !starts_with_str(&t, "deb-src")) {
        return same;
    }
    let sep = chars_of("://");
    assert(t@.skip(0) =~= t@);
    let idx = match find_sub_from(&t, 0, &sep) {
        Some(i) => i,
        None => {
            return same;
        },
    };
    proof {
        crate::text::lemma_find_sub_bounds(t@, "://"@);
        reveal_strlit("://");
        assert(idx + 3 <= t.len());
    }
    let prefix = slice_of(&t, 0, idx);
    assert(prefix@ =~= t@.take(idx as int));
    assert(prefix@.skip(0) =~= prefix@);
    let options = match find_char_from(&prefix, 0, '[') {
        Some(b) => {
            let o = slice_of(&prefix, b, prefix.len());
            assert(o@ =~= prefix@.skip(b as int));
            assert(o@.skip(0) =~= o@);
            match find_char_from(&o, 0, ']') {
                Some(e) => {
                    let oe = slice_of(&o, 0, e + 1);
                    assert(oe@ =~= o@.take(e + 1));
                    oe
                },
                None => o,
            }
        },
        None => {
            let v: Vec<char> = Vec::new();
            assert(v@ =~= seq![]);
            v
        },
    };
    assert(options@ == apt_options(prefix@));
    let ws = find_ws_from(&t, idx + 3);
    assert(t@.skip(idx + 3) =~= t@.skip(idx as int + 3));
    match ws {
        Some(w) => {
            let rest = slice_of(&t, w, t.len());
            assert(rest@ =~= t@.skip(idx as int + 3).skip(w - idx - 3));
            let mut out = chars_of("deb ");
            if options.len() == 0 {
                let mut out = chars_of("deb https://");
                push_all(&mut out, host);
                push_all(&mut out, &rest);
                out
            } else {
                push_all(&mut out, &options);
                push_str(&mut out, " https://");
                push_all(&mut out, host);
                push_all(&mut out, &rest);
                out
            }
        },
        None => same,
    }
}

/// `sources.list` pointed at a mirror.
pub fn replace_apt_mirror(content: &str, new_mirror: &str) -> (r: String)
    ensures
        r@ == replace_apt_mirror_spec(content@, new_mirror@),
{
    let m = chars_of(new_mirror);
    let h1 = trim_start_str_vec(&m, "https://");
    let host = trim_start_str_vec(&h1, "http://");
    let cs = chars_of(content);
    let ls = lines_vec(&cs);
    let ghost mapped = lines(content@).map_values(|l: Seq<char>| apt_line_spec(l, mirror_host(new_mirror@)));
    let mut out: Vec<Vec<char>> = Vec::new();
    let mut i: usize = 0;
    while i < ls.len()
        invariant
            i <= ls.len(),
            seqs(ls@) == lines(content@),
            host@ == mirror_host(new_mirror@),
            mapped == lines(content@).map_values(|l: Seq<char>| apt_line_spec(l, mirror_host(new_mirror@))),
            seqs(out@) == mapped.take(i as int),
        decreases ls.len() - i,
    {
        let l = apt_line(&ls[i], &host);
        let ghost before = out@;
        let ghost lv = l@;
        out.push(l);
        assert(seqs(out@) =~= seqs(before).push(lv));
        i = i + 1;
        assert(seqs(out@) =~= mapped.take(i as int));
    }
    assert(mapped.take(i as int) =~= mapped);
    string_of(&join_vec(&out, "\n"))
}

/// Refreshes pacman's package lists after a mirror change: `sudo pacman -Syy`.
pub fn refresh_pacman_cache() -> (c: ShellCommand)
    ensures
        c@ == crate::distro::pacman::update_spec(),
{
    crate::distro::pacman::update()
}

/// Refreshes apt's package lists after a mirror change: `sudo apt update`.
pub fn refresh_apt_cache() -> (c: ShellCommand)
    ensures
        c@ == crate::distro::apt::update_spec(),
{
    crate::distro::apt::update()
}

/// Switching a system mirror, in order: the backup of the list (only when
/// there is none yet); then, with an address, the temporary file the new
/// list (computed from the backup) is written to and the command that
/// installs it, or, without one, the command that puts the backup back;
/// then the refresh of the package lists.
#[derive(Debug)]
pub struct MirrorPlan {
    pub backup: Option<ShellCommand>,
    pub rewrite: Option<(String, ShellCommand)>,
    pub restore: Option<ShellCommand>,
    pub refresh: ShellCommand,
}

/// What running a mirror plan does to the list and its backup, the caller
/// writing `rebuilt` of the backup for the rewrite: the backup is taken
/// from the list when the plan makes one; the rewrite puts the rebuilt list
/// in place, the restore puts the backup back.
pub open spec fn plan_effect(
    p: MirrorPlan,
    list: Seq<char>,
    backup: Option<Seq<char>>,
    rebuilt: spec_fn(Seq<char>) -> Seq<char>,
) -> (Seq<char>, Option<Seq<char>>) {
    let b = if p.backup is Some {
        list
    } else {
        match backup {
            Some(b) => b,
            None => list,
        }
    };
    (if p.rewrite is Some { rebuilt(b) } else if p.restore is Some { b } else { list }, Some(b))
}

/// What running a pacman mirror plan for `url` does.
pub open spec fn pacman_plan_effect(p: MirrorPlan, list: Seq<char>, backup: Option<Seq<char>>, url: Seq<char>) -> (Seq<char>, Option<Seq<char>>) {
    plan_effect(p, list, backup, |b: Seq<char>| pacman_mirrorlist_spec(b, url))
}

/// What running an apt mirror plan for `url` does.
pub open spec fn apt_plan_effect(p: MirrorPlan, list: Seq<char>, backup: Option<Seq<char>>, url: Seq<char>) -> (Seq<char>, Option<Seq<char>>) {
    plan_effect(p, list, backup, |b: Seq<char>| replace_apt_mirror_spec(b, url))
}

/// Switching pacman's mirror to `url` (back to the backup for an empty
/// one); the new list is [`pacman_mirrorlist`] of the backup.
pub fn switch_pacman_mirror(url: &str, backup_exists: bool) -> (r: MirrorPlan)
    ensures
        match r.backup {
            Some(c) => !backup_exists && c@ == backup_pacman_mirrorlist_spec(),
            None => backup_exists,
        },
        match (r.rewrite, r.restore) {
            (Some((tmp, c)), None) => url@.len() > 0 && tmp@ == "/tmp/linux-init-mirrorlist"@
                && c@ == install_pacman_mirrorlist_spec(),
            (None, Some(c)) => url@.len() == 0 && c@ == restore_pacman_mirrorlist_spec(),
            _ => false,
        },
        r.refresh@ == crate::distro::pacman::update_spec(),
        forall|list: Seq<char>, backup: Option<Seq<char>>|
            (backup is Some <==> backup_exists) ==> #[trigger] pacman_plan_effect(r, list, backup, url@)
                == pacman_switch_effect(list, backup, url@),
{
    let backup = if backup_exists {
        None
    } else {
        Some(backup_pacman_mirrorlist())
    };
    let (rewrite, restore) = if chars_of(url).len() == 0 {
        (None, Some(restore_pacman_mirrorlist()))
    } else {
        (Some((owned("/tmp/linux-init-mirrorlist"), install_pacman_mirrorlist())), None)
    };
    MirrorPlan { backup, rewrite, restore, refresh: refresh_pacman_cache() }
}

/// What running a mirror plan does to the list and its backup: the backup
/// is taken from the list when there is none; then the list is rebuilt from
/// the backup by `rebuild` for an address, or is the backup again for the
/// default (empty address).
pub open spec fn switch_effect(
    list: Seq<char>,
    backup: Option<Seq<char>>,
    url: Seq<char>,
    rebuild: spec_fn(Seq<char>, Seq<char>) -> Seq<char>,
) -> (Seq<char>, Option<Seq<char>>) {
    let b = match backup {
        Some(b) => b,
        None => list,
    };
    (if url.len() > 0 { rebuild(b, url) } else { b }, Some(b))
}

/// What switching pacman's mirror does to the list and its backup.
pub open spec fn pacman_switch_effect(list: Seq<char>, backup: Option<Seq<char>>, url: Seq<char>) -> (Seq<char>, Option<Seq<char>>) {
    switch_effect(list, backup, url, |b: Seq<char>, u: Seq<char>| pacman_mirrorlist_spec(b, u))
}

/// What switching apt's mirror does to the list and its backup.
pub open spec fn apt_switch_effect(list: Seq<char>, backup: Option<Seq<char>>, url: Seq<char>) -> (Seq<char>, Option<Seq<char>>) {
    switch_effect(list, backup, url, |b: Seq<char>, u: Seq<char>| replace_apt_mirror_spec(b, u))
}

/// Law: switching pacman's mirror a second time builds the list from the
/// first backup, whatever the first mirror was; the backup stays the list
/// as it was before the first switch.
pub proof fn law_pacman_switch_from_backup(list: Seq<char>, backup: Option<Seq<char>>, first: Seq<char>, second: Seq<char>)
    ensures
        ({
            let s1 = pacman_switch_effect(list, backup, first);
            let s2 = pacman_switch_effect(s1.0, s1.1, second);
            let orig = match backup {
                Some(b) => b,
                None => list,
            };
            &&& s2.1 == Some(orig)
            &&& s2.0 == if second.len() > 0 { pacman_mirrorlist_spec(orig, second) } else { orig }
        }),
{
}

/// Law: the same holds of apt's sources list.
pub proof fn law_apt_switch_from_backup(list: Seq<char>, backup: Option<Seq<char>>, first: Seq<char>, second: Seq<char>)
    ensures
        ({
            let s1 = apt_switch_effect(list, backup, first);
            let s2 = apt_switch_effect(s1.0, s1.1, second);
            let orig = match backup {
                Some(b) => b,
                None => list,
            };
            &&& s2.1 == Some(orig)
            &&& s2.0 == if second.len() > 0 { replace_apt_mirror_spec(orig, second) } else { orig }
        }),
{
}

/// Switching apt's mirror to `url` (back to the backup for an empty one);
/// the new list is [`replace_apt_mirror`] of the backup.
pub fn switch_apt_mirror(url: &str, backup_exists: bool) -> (r: MirrorPlan)
    ensures
        match r.backup {
            Some(c) => !backup_exists && c@ == backup_apt_sources_spec(),
            None => backup_exists,
        },
        match (r.rewrite, r.restore) {
            (Some((tmp, c)), None) => url@.len() > 0 && tmp@ == "/tmp/linux-init-sources.list"@
                && c@ == install_apt_sources_spec(),
            (None, Some(c)) => url@.len() == 0 && c@ == restore_apt_sources_spec(),
            _ => false,
        },
        r.refresh@ == crate::distro::apt::update_spec(),
        forall|list: Seq<char>, backup: Option<Seq<char>>|
            (backup is Some <==> backup_exists) ==> #[trigger] apt_plan_effect(r, list, backup, url@)
                == apt_switch_effect(list, backup, url@),
{
    let backup = if backup_exists {
        None
    } else {
        Some(backup_apt_sources())
    };
    let (rewrite, restore) = if chars_of(url).len() == 0 {
        (None, Some(restore_apt_sources()))
    } else {
        (Some((owned("/tmp/linux-init-sources.list"), install_apt_sources())), None)
    };
    MirrorPlan { backup, rewrite, restore, refresh: refresh_apt_cache() }
}

/// Where a mirror is timed: the `host:port` to connect to; `None` for an
/// entry without one (the default source).
pub fn ping_host(host: &str) -> (r: Option<String>)
    ensures
        match r {
            Some(h) => host@.len() > 0 && h@ == host@,
            None => host@.len() == 0,
        },
{
    if chars_of(host).len() == 0 {
        None
    } else {
        Some(owned(host))
    }
}

/// Where each mirror is timed, in order.
pub fn test_mirrors(mirrors: &Vec<MirrorEntry>) -> (r: Vec<Option<String>>)
    ensures
        r@.len() == mirrors@.len(),
        forall|i: int| 0 <= i < r@.len() ==> match #[trigger] r@[i] {
            Some(h) => mirrors@[i].ping_host@.len() > 0 && h@ == mirrors@[i].ping_host@,
            None => mirrors@[i].ping_host@.len() == 0,
        },
{
    let mut r: Vec<Option<String>> = Vec::new();
    let mut i: usize = 0;
    while i < mirrors.len()
        invariant
            i <= mirrors.len(),
            r@.len() == i,
            forall|k: int| 0 <= k < i ==> match #[trigger] r@[k] {
                Some(h) => mirrors@[k].ping_host@.len() > 0 && h@ == mirrors@[k].ping_host@,
                None => mirrors@[k].ping_host@.len() == 0,
            },
        decreases mirrors.len() - i,
    {
        r.push(ping_host(mirrors[i].ping_host));
        i = i + 1;
    }
    r
}

/// Which mirror switch a distribution takes.
#[derive(PartialEq, Eq, Structural, Clone, Copy, Debug)]
pub enum SystemMirror {
    Pacman,
    Apt,
}

/// Which mirror switch a distribution takes: pacman's on Arch, apt's on
/// Debian; others are refused.
pub fn switch_system_mirror(distro: &Distro) -> (r: Result<SystemMirror, String>)
    ensures
        family_of(distro@) == DistroFamily::Arch ==> r == Ok::<SystemMirror, String>(SystemMirror::Pacman),
        family_of(distro@) == DistroFamily::Debian ==> r == Ok::<SystemMirror, String>(SystemMirror::Apt),
        family_of(distro@) != DistroFamily::Arch && family_of(distro@) != DistroFamily::Debian ==> (r matches Err(e) && e@ == "不支持的发行版"@),
{
    match distro.family() {
        DistroFamily::Arch => Ok(SystemMirror::Pacman),
        DistroFamily::Debian => Ok(SystemMirror::Apt),
        _ => Err(owned("不支持的发行版")),
    }
}

// ───────────────────────── npm ─────────────────────────

/// Setting npm's registry: refused for an empty address; as the real user
/// (`sudo -u`) when running under sudo.
pub open spec fn npm_registry_spec(url: Seq<char>, sudo_user: Option<Seq<char>>) -> Result<CommandV, Seq<char>> {
    if url.len() == 0 {
        Err("npm registry URL 不能为空"@)
    } else {
        match sudo_user {
            Some(u) => Ok(cmd("sudo"@, seq!["-u"@, u, "npm"@, "config"@, "set"@, "registry"@, url], "npm config set registry 失败"@)),
            None => Ok(cmd("npm"@, seq!["config"@, "set"@, "registry"@, url], "npm config set registry 失败"@)),
        }
    }
}

/// Setting npm's registry.
pub fn switch_npm_registry(url: &str, sudo_user: Option<&str>) -> (r: Result<ShellCommand, String>)
    ensures
        match r {
            Ok(c) => npm_registry_spec(url@, match sudo_user { Some(u) => Some(u@), None => None }) == Ok::<CommandV, Seq<char>>(c@),
            Err(e) => npm_registry_spec(url@, match sudo_user { Some(u) => Some(u@), None => None }) == Err::<CommandV, Seq<char>>(e@),
        },
{
    let cs = chars_of(url);
    if cs.len() == 0 {
        return Err(owned("npm registry URL 不能为空"));
    }
    match sudo_user {
        Some(u) => {
            let a: &[&str] = &["-u", u, "npm", "config", "set", "registry", url];
            assert(a@ == seq!["-u", u, "npm", "config", "set", "registry", url]);
            assert(lits(seq!["-u", u, "npm", "config", "set", "registry", url]) =~= seq!["-u"@, u@, "npm"@, "config"@, "set"@, "registry"@, url@]);
            Ok(command("sudo", a, "npm config set registry 失败"))
        },
        None => {
            let a: &[&str] = &["config", "set", "registry", url];
            assert(a@ == seq!["config", "set", "registry", url]);
            assert(lits(seq!["config", "set", "registry", url]) =~= seq!["config"@, "set"@, "registry"@, url@]);
            Ok(command("npm", a, "npm config set registry 失败"))
        },
    }
}


// ───────────────────────── Docker ─────────────────────────

#[verifier::external_type_specification]
#[verifier::external_body]
pub struct ExJsonValue(serde_json::Value);

#[verifier::external_type_specification]
#[verifier::external_body]
#[verifier::reject_recursive_types(K)]
#[verifier::reject_recursive_types(V)]
pub struct ExJsonMap<K, V>(serde_json::Map<K, V>);

/// The entries of a JSON object: each key with the compact JSON text of its
/// value.
pub uninterp spec fn json_entries(m: serde_json::Map<String, serde_json::Value>) -> Map<Seq<char>, Seq<char>>;

/// The strings of the array under a key of a JSON object; `None` when the
/// key is absent or its value is not an array of strings.
pub uninterp spec fn json_string_items(m: serde_json::Map<String, serde_json::Value>, key: Seq<char>) -> Option<Seq<Seq<char>>>;

/// The text `serde_json::to_string_pretty` makes of a JSON object.
pub uninterp spec fn json_pretty_text(m: serde_json::Map<String, serde_json::Value>) -> Seq<char>;

/// What `serde_json::from_str` reads from a text as a JSON value: `None`
/// when the text is not JSON; else whether the value is `null`, and the
/// entries (as in `json_entries`) when it is an object.
pub uninterp spec fn parsed_json(text: Seq<char>) -> Option<(bool, Option<Map<Seq<char>, Seq<char>>>)>;

/// A JSON document, as far as the daemon configuration tells them apart.
#[derive(Debug)]
pub enum JsonDoc {
    Object(serde_json::Map<String, serde_json::Value>),
    Null,
    /// A boolean, number, string or array.
    Other,
}

/// Calls `serde_json::from_str` for a JSON value: `None` when the text is
/// not JSON (the parse error is dropped), else the object, `null`, or
/// another kind of value. Claims that this is what `parsed_json` says of
/// the text.
#[verifier::external_body]
fn parse_json_doc(text: &str) -> (r: Option<JsonDoc>)
    ensures
        match r {
            None => parsed_json(text@) is None,
            Some(JsonDoc::Object(m)) => parsed_json(text@) == Some((false, Some(json_entries(m)))),
            Some(JsonDoc::Null) => parsed_json(text@) == Some((true, None::<Map<Seq<char>, Seq<char>>>)),
            Some(JsonDoc::Other) => parsed_json(text@) == Some((false, None::<Map<Seq<char>, Seq<char>>>)),
        },
{
    match serde_json::from_str::<serde_json::Value>(text) {
        Ok(serde_json::Value::Object(m)) => Some(JsonDoc::Object(m)),
        Ok(serde_json::Value::Null) => Some(JsonDoc::Null),
        Ok(serde_json::Value::Bool(_)) => Some(JsonDoc::Other),
        Ok(serde_json::Value::Number(_)) => Some(JsonDoc::Other),
        Ok(serde_json::Value::String(_)) => Some(JsonDoc::Other),
        Ok(serde_json::Value::Array(_)) => Some(JsonDoc::Other),
        Err(_) => None,
    }
}

/// Calls `serde_json::Map::new`, which makes an empty object: claims that
/// it has no entry.
#[verifier::external_body]
fn new_json_object() -> (m: serde_json::Map<String, serde_json::Value>)
    ensures
        json_entries(m).dom() == Set::<Seq<char>>::empty(),
{
    serde_json::Map::new()
}

/// Calls `serde_json::Map::remove`: claims that the key is no longer there,
/// nor anything under it, and the other entries stay as they were.
#[verifier::external_body]
fn json_remove(m: &mut serde_json::Map<String, serde_json::Value>, key: &str)
    ensures
        json_entries(*final(m)) == json_entries(*old(m)).remove(key@),
        json_string_items(*final(m), key@) is None,
{
    m.remove(key);
}

/// Calls `serde_json::Map::insert` with an array holding one string: claims
/// that the key is there, holding that one string, and the other entries
/// stay as they were.
#[verifier::external_body]
fn json_insert_string_list(m: &mut serde_json::Map<String, serde_json::Value>, key: &str, item: &str)
    ensures
        json_entries(*final(m)).dom() == json_entries(*old(m)).dom().insert(key@),
        json_entries(*final(m)).remove(key@) == json_entries(*old(m)).remove(key@),
        json_string_items(*final(m), key@) == Some(seq![item@]),
{
    m.insert(key.to_string(), serde_json::Value::Array(vec![serde_json::Value::String(item.to_string())]));
}

/// Calls `serde_json::to_string_pretty` on a JSON object: claims that it
/// succeeds and that the text is `json_pretty_text` of it. Serializing
/// fails only when a `Serialize` impl fails or a map key is not a string,
/// and neither happens for a `Map<String, Value>` written to memory.
#[verifier::external_body]
fn json_object_pretty(m: &serde_json::Map<String, serde_json::Value>) -> (r: Result<String, String>)
    ensures
        r is Ok,
        r matches Ok(t) ==> t@ == json_pretty_text(*m),
{
    serde_json::to_string_pretty(m).map_err(|e| e.to_string())
}

/// The entries of Docker's daemon configuration before choosing a mirror:
/// those of the old file, none when it is missing or not a JSON object.
pub open spec fn daemon_base(existing: Option<Seq<char>>) -> Map<Seq<char>, Seq<char>> {
    match existing {
        Some(t) => match parsed_json(t) {
            Some((_, Some(e))) => e,
            _ => Map::<Seq<char>, Seq<char>>::empty(),
        },
        None => Map::<Seq<char>, Seq<char>>::empty(),
    }
}

/// The old file holds JSON that is neither an object nor `null`, and an
/// address is asked for: no mirror can be set in it.
pub open spec fn daemon_refused(existing: Option<Seq<char>>, url: Seq<char>) -> bool {
    url.len() > 0 && (existing matches Some(t) && parsed_json(t) == Some((false, None::<Map<Seq<char>, Seq<char>>>)))
}

/// The old file holds JSON that is not an object, and the default (empty
/// address) is asked for: there is no mirror to remove, and the value stays
/// as it is.
pub open spec fn daemon_kept(existing: Option<Seq<char>>, url: Seq<char>) -> bool {
    url.len() == 0 && (existing matches Some(t) && (parsed_json(t) matches Some((_, None))))
}

/// The keys of Docker's daemon configuration after choosing a mirror: those
/// of the old file, with `registry-mirrors` removed for the default (empty
/// address) or set.
pub open spec fn daemon_keys_spec(existing: Option<Seq<char>>, url: Seq<char>) -> Set<Seq<char>> {
    let base = daemon_base(existing).dom();
    if url.len() == 0 {
        base.remove("registry-mirrors"@)
    } else {
        base.insert("registry-mirrors"@)
    }
}

/// Docker's daemon configuration after choosing a mirror: every entry of
/// the old file but `registry-mirrors` as it was, and `registry-mirrors`
/// absent for the default (empty address), else holding the one address.
pub open spec fn daemon_config_is(m: serde_json::Map<String, serde_json::Value>, existing: Option<Seq<char>>, url: Seq<char>) -> bool {
    &&& json_entries(m).dom() == daemon_keys_spec(existing, url)
    &&& json_entries(m).remove("registry-mirrors"@) == daemon_base(existing).remove("registry-mirrors"@)
    &&& json_string_items(m, "registry-mirrors"@) == if url.len() == 0 {
        None
    } else {
        Some(seq![url])
    }
}

/// Docker's daemon configuration after choosing a mirror (the old file
/// being missing, not JSON, an object, or `null` when an address is asked
/// for).
pub fn switch_docker_mirror(existing: Option<&str>, url: &str) -> (r: serde_json::Map<String, serde_json::Value>)
    requires
        !daemon_refused(opt_lit(existing), url@),
    ensures
        daemon_config_is(r, opt_lit(existing), url@),
{
    let mut config = match existing {
        Some(t) => match parse_json_doc(t) {
            Some(JsonDoc::Object(m)) => m,
            _ => new_json_object(),
        },
        None => new_json_object(),
    };
    let ghost base = json_entries(config);
    assert(base == daemon_base(opt_lit(existing)));
    let u = chars_of(url);
    if u.len() == 0 {
        json_remove(&mut config, "registry-mirrors");
        assert(json_entries(config).remove("registry-mirrors"@) =~= base.remove("registry-mirrors"@));
    } else {
        json_insert_string_list(&mut config, "registry-mirrors", url);
    }
    config
}

/// What becomes of Docker's daemon configuration.
#[derive(Debug)]
pub enum DaemonUpdate {
    /// Write this configuration, as this text.
    Write(serde_json::Map<String, serde_json::Value>, String),
    /// Leave the file as it is.
    Keep,
    /// The file holds JSON in which no mirror can be set.
    Refused,
}

/// Docker's daemon configuration after choosing a mirror, with its text as
/// `serde_json::to_string_pretty` writes it; the file is left as it is when
/// it holds JSON that is not an object and the default is asked for, and
/// refused when it holds JSON that is neither an object nor `null` and an
/// address is asked for.
pub fn docker_daemon_json(existing: Option<&str>, url: &str) -> (r: DaemonUpdate)
    ensures
        daemon_refused(opt_lit(existing), url@) ==> r is Refused,
        daemon_kept(opt_lit(existing), url@) ==> r is Keep,
        !daemon_refused(opt_lit(existing), url@) && !daemon_kept(opt_lit(existing), url@) ==> (
        r matches DaemonUpdate::Write(m, t) && daemon_config_is(m, opt_lit(existing), url@)
            && t@ == json_pretty_text(m)),
{
    let empty_url = chars_of(url).len() == 0;
    match existing {
        Some(t) => match parse_json_doc(t) {
            Some(JsonDoc::Other) => {
                if empty_url {
                    return DaemonUpdate::Keep;
                } else {
                    return DaemonUpdate::Refused;
                }
            },
            Some(JsonDoc::Null) => {
                if empty_url {
                    return DaemonUpdate::Keep;
                }
            },
            _ => {},
        },
        None => {},
    }
    let config = switch_docker_mirror(existing, url);
    let text = match json_object_pretty(&config) {
        Ok(t) => t,
        Err(e) => {
            proof {
                assert(false);
            }
            e
        },
    };
    DaemonUpdate::Write(config, text)
}

} // verus!
