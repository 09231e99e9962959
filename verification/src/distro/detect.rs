//! Recognising the distribution from `/etc/os-release`.
use vstd::prelude::*;
use vstd::string::*;
use crate::distro::{Distro, DistroV};
use crate::text::{
    chars_of, contains, contains_str, eq_str, find_char, find_char_from, lines, lines_vec,
    seqs, slice_of, str_eq, string_of, trim_char, trim_char_vec,
};
use crate::utils::owned;

verus! {

/// The `KEY=value` fields of os-release lines, in order; quotes around a value
/// are dropped, lines without `=` are skipped.
pub open spec fn os_release_fields(ls: Seq<Seq<char>>) -> Seq<(Seq<char>, Seq<char>)>
    decreases ls.len(),
{
    if ls.len() == 0 {
        seq![]
    } else {
        let rest = os_release_fields(ls.drop_last());
        let l = ls.last();
        let i = find_char(l, '=');
        if i >= 0 {
            rest.push((l.take(i), trim_char(trim_char(l.skip(i + 1), '"'), '\'')))
        } else {
            rest
        }
    }
}

/// The value of a field; a later line overrides an earlier one.
pub open spec fn field(fs: Seq<(Seq<char>, Seq<char>)>, key: Seq<char>) -> Option<Seq<char>>
    decreases fs.len(),
{
    if fs.len() == 0 {
        None
    } else if fs.last().0 == key {
        Some(fs.last().1)
    } else {
        field(fs.drop_last(), key)
    }
}

/// The value of a field, or the empty string.
pub open spec fn field_or_empty(fs: Seq<(Seq<char>, Seq<char>)>, key: Seq<char>) -> Seq<char> {
    match field(fs, key) {
        Some(v) => v,
        None => seq![],
    }
}

/// The contents of a list of string pairs.
pub open spec fn pairs(v: Seq<(String, String)>) -> Seq<(Seq<char>, Seq<char>)> {
    v.map_values(|p: (String, String)| (p.0@, p.1@))
}

/// The distribution that an os-release file describes; `None` when the file
/// could not be read.
pub open spec fn detect_spec(os_release: Option<Seq<char>>) -> DistroV {
    match os_release {
        None => DistroV::Unknown("无法读取 /etc/os-release"@),
        Some(c) => {
            let fs = os_release_fields(lines(c));
            let id = field_or_empty(fs, "ID"@);
            let like = field_or_empty(fs, "ID_LIKE"@);
            let ver = field_or_empty(fs, "VERSION_ID"@);
            if id == "arch"@ {
                DistroV::Arch
            } else if id == "cachyos"@ {
                DistroV::CachyOS
            } else if id == "manjaro"@ {
                DistroV::Manjaro
            } else if id == "ubuntu"@ {
                DistroV::Ubuntu(ver)
            } else if id == "debian"@ {
                DistroV::Debian(ver)
            } else if id == "fedora"@ {
                let variant = field_or_empty(fs, "VARIANT_ID"@);
                if variant == "silverblue"@ || variant == "kinoite"@ || variant == "sericea"@
                    || variant == "onyx"@ {
                    DistroV::Unknown("Fedora "@ + variant + "（ostree 变体不支持）"@)
                } else {
                    DistroV::Fedora(ver)
                }
            } else if contains(like, "arch"@) {
                DistroV::Arch
            } else if contains(like, "debian"@) || contains(like, "ubuntu"@) {
                DistroV::Debian(ver)
            } else if contains(like, "fedora"@) || contains(like, "rhel"@) {
                DistroV::Fedora(ver)
            } else {
                DistroV::Unknown(id)
            }
        },
    }
}

/// The value of a field of an os-release file, or the empty string.
pub open spec fn os_field(c: Seq<char>, key: Seq<char>) -> Seq<char> {
    field_or_empty(os_release_fields(lines(c)), key)
}

/// Law: an `ID` that names a recognised distribution decides the result,
/// whatever `ID_LIKE` says: `arch`, `cachyos` and `manjaro` give those
/// distributions, `ubuntu` gives Ubuntu and `debian` gives Debian, each with the
/// `VERSION_ID` value, and `fedora` gives Fedora with it unless `VARIANT_ID`
/// names an ostree variant.
pub proof fn law_id_decides(c: Seq<char>)
    ensures
        os_field(c, "ID"@) == "arch"@ ==> detect_spec(Some(c)) == DistroV::Arch,
        os_field(c, "ID"@) == "cachyos"@ ==> detect_spec(Some(c)) == DistroV::CachyOS,
        os_field(c, "ID"@) == "manjaro"@ ==> detect_spec(Some(c)) == DistroV::Manjaro,
        os_field(c, "ID"@) == "ubuntu"@ ==> detect_spec(Some(c)) == DistroV::Ubuntu(
            os_field(c, "VERSION_ID"@),
        ),
        os_field(c, "ID"@) == "debian"@ ==> detect_spec(Some(c)) == DistroV::Debian(
            os_field(c, "VERSION_ID"@),
        ),
        os_field(c, "ID"@) == "fedora"@ && os_field(c, "VARIANT_ID"@) == ""@ ==> detect_spec(
            Some(c),
        ) == DistroV::Fedora(os_field(c, "VERSION_ID"@)),
{
    reveal_strlit("arch");
    reveal_strlit("cachyos");
    reveal_strlit("manjaro");
    reveal_strlit("ubuntu");
    reveal_strlit("debian");
    reveal_strlit("fedora");
    reveal_strlit("");
    reveal_strlit("silverblue");
    reveal_strlit("kinoite");
    reveal_strlit("sericea");
    reveal_strlit("onyx");
    let id = os_field(c, "ID"@);
    if id == "ubuntu"@ {
        assert(id[0] == 'u');
    }
    if id == "debian"@ {
        assert(id[0] == 'd');
    }
    if id == "fedora"@ {
        assert(id[0] == 'f');
    }
    if id == "cachyos"@ {
        assert(id[0] == 'c');
    }
    if id == "manjaro"@ {
        assert(id[0] == 'm');
    }
}

/// An `ID` that names one of the distributions recognised by name.
pub open spec fn known_id(id: Seq<char>) -> bool {
    id == "arch"@ || id == "cachyos"@ || id == "manjaro"@ || id == "ubuntu"@ || id == "debian"@
        || id == "fedora"@
}

/// Law: a Fedora ostree variant (Silverblue, Kinoite, Sericea, Onyx) is not
/// supported, and a file that cannot be read gives an unknown distribution.
pub proof fn law_unsupported_systems(c: Seq<char>)
    ensures
        os_field(c, "ID"@) == "fedora"@ && (os_field(c, "VARIANT_ID"@) == "silverblue"@ || os_field(
            c,
            "VARIANT_ID"@,
        ) == "kinoite"@ || os_field(c, "VARIANT_ID"@) == "sericea"@ || os_field(c, "VARIANT_ID"@)
            == "onyx"@) ==> detect_spec(Some(c)) == DistroV::Unknown(
            "Fedora "@ + os_field(c, "VARIANT_ID"@) + "（ostree 变体不支持）"@,
        ),
        detect_spec(None) == DistroV::Unknown("无法读取 /etc/os-release"@),
{
    reveal_strlit("arch");
    reveal_strlit("cachyos");
    reveal_strlit("manjaro");
    reveal_strlit("ubuntu");
    reveal_strlit("debian");
    reveal_strlit("fedora");
    let id = os_field(c, "ID"@);
    if id == "fedora"@ {
        assert(id[0] == 'f' && id.len() == 6);
    }
}

/// Law: when the `ID` is not one recognised by name, `ID_LIKE` decides: a
/// mention of `arch` gives Arch; else `debian` or `ubuntu` gives Debian with the
/// `VERSION_ID` value; else `fedora` or `rhel` gives Fedora with it; else the
/// distribution is unknown, named by its `ID`.
pub proof fn law_id_like_decides(c: Seq<char>)
    requires
        !known_id(os_field(c, "ID"@)),
    ensures
        contains(os_field(c, "ID_LIKE"@), "arch"@) ==> detect_spec(Some(c)) == DistroV::Arch,
        !contains(os_field(c, "ID_LIKE"@), "arch"@) && (contains(os_field(c, "ID_LIKE"@), "debian"@)
            || contains(os_field(c, "ID_LIKE"@), "ubuntu"@)) ==> detect_spec(Some(c))
            == DistroV::Debian(os_field(c, "VERSION_ID"@)),
        !contains(os_field(c, "ID_LIKE"@), "arch"@) && !contains(os_field(c, "ID_LIKE"@), "debian"@)
            && !contains(os_field(c, "ID_LIKE"@), "ubuntu"@) && (contains(
            os_field(c, "ID_LIKE"@),
            "fedora"@,
        ) || contains(os_field(c, "ID_LIKE"@), "rhel"@)) ==> detect_spec(Some(c))
            == DistroV::Fedora(os_field(c, "VERSION_ID"@)),
        !contains(os_field(c, "ID_LIKE"@), "arch"@) && !contains(os_field(c, "ID_LIKE"@), "debian"@)
            && !contains(os_field(c, "ID_LIKE"@), "ubuntu"@) && !contains(
            os_field(c, "ID_LIKE"@),
            "fedora"@,
        ) && !contains(os_field(c, "ID_LIKE"@), "rhel"@) ==> detect_spec(Some(c))
            == DistroV::Unknown(os_field(c, "ID"@)),
{
}

/// The `KEY=value` fields of an os-release file, in order.
pub fn parse_os_release(content: &str) -> (r: Vec<(String, String)>)
    ensures
        pairs(r@) == os_release_fields(lines(content@)),
{
    let cs = chars_of(content);
    let ls = lines_vec(&cs);
    let ghost all = seqs(ls@);
    let mut r: Vec<(String, String)> = Vec::new();
    let mut k: usize = 0;
    assert(all.take(0) =~= Seq::<Seq<char>>::empty());
    while k < ls.len()
        invariant
            all == seqs(ls@),
            all == lines(content@),
            k <= ls.len(),
            pairs(r@) == os_release_fields(all.take(k as int)),
        decreases ls.len() - k,
    {
        let l = &ls[k];
        let ghost before = r@;
        proof {
            assert(all.take(k + 1).drop_last() =~= all.take(k as int));
            assert(all.take(k + 1).last() == l@);
            assert(l@.skip(0) =~= l@);
        }
        match find_char_from(l, 0, '=') {
            Some(i) => {
                let key = slice_of(l, 0, i);
                let raw = slice_of(l, i + 1, l.len());
                let v1 = trim_char_vec(&raw, '"');
                let v2 = trim_char_vec(&v1, '\'');
                proof {
                    assert(key@ =~= l@.take(i as int));
                    assert(raw@ =~= l@.skip(i + 1));
                }
                r.push((string_of(&key), string_of(&v2)));
                assert(pairs(r@) =~= pairs(before).push((key@, v2@)));
            },
            None => {},
        }
        k = k + 1;
    }
    assert(all.take(k as int) =~= all);
    r
}

/// The value of a field; a later line overrides an earlier one.
pub fn lookup(fields: &Vec<(String, String)>, key: &str) -> (r: Option<String>)
    ensures
        match r {
            Some(v) => field(pairs(fields@), key@) == Some(v@),
            None => field(pairs(fields@), key@) is None,
        },
{
    let ghost all = pairs(fields@);
    let mut k: usize = fields.len();
    assert(all.take(k as int) =~= all);
    while k > 0
        invariant
            all == pairs(fields@),
            k <= fields.len(),
            field(all, key@) == field(all.take(k as int), key@),
        decreases k,
    {
        let ghost t = all.take(k as int);
        assert(t.last() == (fields@[k - 1].0@, fields@[k - 1].1@));
        if str_eq(fields[k - 1].0.as_str(), key) {
            return Some(fields[k - 1].1.clone());
        }
        assert(t.drop_last() =~= all.take(k - 1));
        k = k - 1;
    }
    None
}

/// The value of a field, or the empty string.
fn lookup_or_empty(fields: &Vec<(String, String)>, key: &str) -> (r: String)
    ensures
        r@ == field_or_empty(pairs(fields@), key@),
{
    match lookup(fields, key) {
        Some(v) => v,
        None => String::new(),
    }
}

/// The distribution that an os-release file describes; `None` when the file
/// could not be read.
pub fn detect_distro(os_release: Option<&str>) -> (d: Distro)
    ensures
        d@ == detect_spec(
            match os_release {
                Some(c) => Some(c@),
                None => None,
            },
        ),
{
    let content = match os_release {
        Some(c) => c,
        None => {
            return Distro::Unknown(owned("无法读取 /etc/os-release"));
        },
    };
    let fields = parse_os_release(content);
    let id = chars_of(lookup_or_empty(&fields, "ID").as_str());
    let like = chars_of(lookup_or_empty(&fields, "ID_LIKE").as_str());
    let version_id = lookup_or_empty(&fields, "VERSION_ID");
    if eq_str(&id, "arch") {
        Distro::Arch
    } else if eq_str(&id, "cachyos") {
        Distro::CachyOS
    } else if eq_str(&id, "manjaro") {
        Distro::Manjaro
    } else if eq_str(&id, "ubuntu") {
        Distro::Ubuntu(version_id)
    } else if eq_str(&id, "debian") {
        Distro::Debian(version_id)
    } else if eq_str(&id, "fedora") {
        let variant = lookup_or_empty(&fields, "VARIANT_ID");
        let vs = variant.as_str();
        if str_eq(vs, "silverblue") || str_eq(vs, "kinoite") || str_eq(vs, "sericea") || str_eq(
            vs,
            "onyx",
        ) {
            let msg = owned("Fedora ").concat(vs).concat("（ostree 变体不支持）");
            Distro::Unknown(msg)
        } else {
            Distro::Fedora(version_id)
        }
    } else if contains_str(&like, "arch") {
        Distro::Arch
    } else if contains_str(&like, "debian") || contains_str(&like, "ubuntu") {
        Distro::Debian(version_id)
    } else if contains_str(&like, "fedora") || contains_str(&like, "rhel") {
        Distro::Fedora(version_id)
    } else {
        Distro::Unknown(string_of(&id))
    }
}

/// `str::to_lowercase`: Unicode lower case of every character.
pub uninterp spec fn lowercase(s: Seq<char>) -> Seq<char>;

/// Calls `str::to_lowercase`; its result is named `lowercase` of the input.
#[verifier::external_body]
fn to_lowercase(s: &str) -> (r: String)
    ensures
        r@ == lowercase(s@),
{
    s.to_lowercase()
}

/// Whether the system is WSL: the WSL interop entry exists, or the kernel
/// version text names Microsoft (in any case) or `WSL`.
pub fn is_wsl(interop_exists: bool, proc_version: Option<&str>) -> (r: bool)
    ensures
        r == (interop_exists || match proc_version {
            Some(v) => contains(lowercase(v@), "microsoft"@) || contains(v@, "WSL"@),
            None => false,
        }),
{
    if interop_exists {
        return true;
    }
    match proc_version {
        Some(v) => {
            let low = to_lowercase(v);
            let lc = chars_of(low.as_str());
            let vc = chars_of(v);
            contains_str(&lc, "microsoft") || contains_str(&vc, "WSL")
        },
        None => false,
    }
}

} // verus!
