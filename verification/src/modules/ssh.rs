//! SSH key pairs in `~/.ssh`.
use vstd::prelude::*;
use vstd::string::*;
use crate::text::{path_join, path_join_str};
use crate::utils::{cmd, command, lits, owned, with_args, CommandV, ShellCommand};

verus! {

/// `~/.ssh` under a home directory.
pub open spec fn ssh_dir_spec(home: Seq<char>) -> Seq<char> {
    path_join(home, ".ssh"@)
}

/// The private key file of a kind (`id_ed25519`, `id_rsa`) under a home
/// directory.
pub open spec fn key_path_spec(home: Seq<char>, name: Seq<char>) -> Seq<char> {
    path_join(ssh_dir_spec(home), name)
}

/// `~/.ssh`.
pub fn ssh_dir(home: &str) -> (r: String)
    ensures
        r@ == ssh_dir_spec(home@),
{
    path_join_str(home, ".ssh")
}

/// The comment of a key made from the wizard: `<user>@localhost`, the
/// user being `$USER` (`user` when unset).
pub fn key_comment(user: Option<&str>) -> (r: String)
    ensures
        r@ == match user {
            Some(u) => u@,
            None => "user"@,
        } + "@localhost"@,
{
    let u = match user {
        Some(u) => u,
        None => "user",
    };
    owned(u).concat("@localhost")
}

/// Where the Ed25519 public key is; the key exists when this file does.
pub fn has_ed25519_key(home: &str) -> (r: String)
    ensures
        r@ == key_path_spec(home@, "id_ed25519.pub"@),
{
    ed25519_public_key(home)
}

/// Where the RSA public key is; the key exists when this file does.
pub fn has_rsa_key(home: &str) -> (r: String)
    ensures
        r@ == key_path_spec(home@, "id_rsa.pub"@),
{
    rsa_public_key(home)
}

/// `~/.ssh/id_ed25519.pub`.
pub fn ed25519_public_key(home: &str) -> (r: String)
    ensures
        r@ == key_path_spec(home@, "id_ed25519.pub"@),
{
    path_join_str(ssh_dir(home).as_str(), "id_ed25519.pub")
}

/// `~/.ssh/id_rsa.pub`.
pub fn rsa_public_key(home: &str) -> (r: String)
    ensures
        r@ == key_path_spec(home@, "id_rsa.pub"@),
{
    path_join_str(ssh_dir(home).as_str(), "id_rsa.pub")
}

/// Whether there is a key pair: an Ed25519 or an RSA public key.
pub fn has_ssh_key(ed25519_exists: bool, rsa_exists: bool) -> (r: bool)
    ensures
        r == (ed25519_exists || rsa_exists),
{
    ed25519_exists || rsa_exists
}

/// The `ssh-keygen` call for a new key without passphrase: the key-type
/// arguments, then the comment and the file.
pub open spec fn keygen_spec(type_args: Seq<Seq<char>>, email: Seq<char>, path: Seq<char>) -> CommandV {
    cmd(
        "ssh-keygen"@,
        type_args + seq!["-C"@, email, "-f"@, path, "-N"@, ""@],
        "ssh-keygen 失败: "@,
    )
}

/// A new key of the given kind: refused when the private key exists, else
/// the `ssh-keygen` call (its error output follows the failure message).
pub open spec fn generate_spec(
    home: Seq<char>,
    name: Seq<char>,
    type_args: Seq<Seq<char>>,
    email: Seq<char>,
    key_exists: bool,
) -> Result<CommandV, Seq<char>> {
    if key_exists {
        Err("密钥已存在: "@ + key_path_spec(home, name))
    } else {
        Ok(keygen_spec(type_args, email, key_path_spec(home, name)))
    }
}

fn keygen(type_args: &[&str], email: &str, path: &str) -> (c: ShellCommand)
    ensures
        c@ == keygen_spec(lits(type_args@), email@, path@),
{
    let c = command("ssh-keygen", type_args, "ssh-keygen 失败: ");
    let more: &[&str] = &["-C", email, "-f", path, "-N", ""];
    assert(more@ == seq!["-C", email, "-f", path, "-N", ""]);
    assert(lits(seq!["-C", email, "-f", path, "-N", ""]) =~= seq!["-C"@, email@, "-f"@, path@, "-N"@, ""@]);
    with_args(c, more)
}

/// A new Ed25519 key; `key_exists` tells whether `~/.ssh/id_ed25519` exists.
pub fn generate_ed25519(home: &str, email: &str, key_exists: bool) -> (r: Result<ShellCommand, String>)
    ensures
        match r {
            Ok(c) => generate_spec(home@, "id_ed25519"@, seq!["-t"@, "ed25519"@], email@, key_exists) == Ok::<CommandV, Seq<char>>(c@),
            Err(e) => generate_spec(home@, "id_ed25519"@, seq!["-t"@, "ed25519"@], email@, key_exists) == Err::<CommandV, Seq<char>>(e@),
        },
{
    let path = path_join_str(ssh_dir(home).as_str(), "id_ed25519");
    if key_exists {
        return Err(owned("密钥已存在: ").concat(path.as_str()));
    }
    let t: &[&str] = &["-t", "ed25519"];
    assert(t@ == seq!["-t", "ed25519"]);
    assert(lits(seq!["-t", "ed25519"]) =~= seq!["-t"@, "ed25519"@]);
    Ok(keygen(t, email, path.as_str()))
}

/// A new RSA 4096 key; `key_exists` tells whether `~/.ssh/id_rsa` exists.
pub fn generate_rsa(home: &str, email: &str, key_exists: bool) -> (r: Result<ShellCommand, String>)
    ensures
        match r {
            Ok(c) => generate_spec(home@, "id_rsa"@, seq!["-t"@, "rsa"@, "-b"@, "4096"@], email@, key_exists) == Ok::<CommandV, Seq<char>>(c@),
            Err(e) => generate_spec(home@, "id_rsa"@, seq!["-t"@, "rsa"@, "-b"@, "4096"@], email@, key_exists) == Err::<CommandV, Seq<char>>(e@),
        },
{
    let path = path_join_str(ssh_dir(home).as_str(), "id_rsa");
    if key_exists {
        return Err(owned("密钥已存在: ").concat(path.as_str()));
    }
    let t: &[&str] = &["-t", "rsa", "-b", "4096"];
    assert(t@ == seq!["-t", "rsa", "-b", "4096"]);
    assert(lits(seq!["-t", "rsa", "-b", "4096"]) =~= seq!["-t"@, "rsa"@, "-b"@, "4096"@]);
    Ok(keygen(t, email, path.as_str()))
}

/// The public key to show: the Ed25519 one when it exists, else the RSA
/// one; an error when neither exists.
pub fn read_public_key(home: &str, ed25519_exists: bool, rsa_exists: bool) -> (r: Result<String, String>)
    ensures
        ed25519_exists ==> (r matches Ok(p) && p@ == key_path_spec(home@, "id_ed25519.pub"@)),
        !ed25519_exists && rsa_exists ==> (r matches Ok(p) && p@ == key_path_spec(home@, "id_rsa.pub"@)),
        !ed25519_exists && !rsa_exists ==> (r matches Err(e) && e@ == "未找到 SSH 公钥文件"@),
{
    if ed25519_exists {
        Ok(ed25519_public_key(home))
    } else if rsa_exists {
        Ok(rsa_public_key(home))
    } else {
        Err(owned("未找到 SSH 公钥文件"))
    }
}

/// The files that removing the keys deletes: both key pairs.
pub fn clear_ssh_keys(home: &str) -> (r: Vec<String>)
    ensures
        r@.len() == 4,
        r@[0]@ == key_path_spec(home@, "id_ed25519"@),
        r@[1]@ == key_path_spec(home@, "id_ed25519.pub"@),
        r@[2]@ == key_path_spec(home@, "id_rsa"@),
        r@[3]@ == key_path_spec(home@, "id_rsa.pub"@),
{
    let dir = ssh_dir(home);
    let mut r: Vec<String> = Vec::new();
    r.push(path_join_str(dir.as_str(), "id_ed25519"));
    r.push(path_join_str(dir.as_str(), "id_ed25519.pub"));
    r.push(path_join_str(dir.as_str(), "id_rsa"));
    r.push(path_join_str(dir.as_str(), "id_rsa.pub"));
    r
}

} // verus!
