//! Configuration paths: expanding the home-directory shorthands a user
//! types, and where the application keeps its own state.
use vstd::prelude::*;
use vstd::string::*;

use crate::models::HostOs;
use crate::text::{chars_of, string_from_chars};

verus! {

/// What the host tells about the user's directories, besides what `dirs` finds.
#[derive(Debug)]
pub struct HostEnv {
    pub os: HostOs,
    /// The `APPDATA` variable, where set to valid Unicode.
    pub appdata: Option<String>,
    /// The `USERPROFILE` variable, where set to valid Unicode.
    pub user_profile: Option<String>,
}

/// The text of an optional string.
pub open spec fn opt_text(o: Option<String>) -> Option<Seq<char>> {
    match o {
        Some(s) => Some(s@),
        None => None,
    }
}

/// `s` with every leading repetition of `p` removed.
pub open spec fn strip_repeated(s: Seq<char>, p: Seq<char>) -> Seq<char>
    decreases s.len(),
{
    if p.len() > 0 && p.is_prefix_of(s) {
        strip_repeated(s.skip(p.len() as int), p)
    } else {
        s
    }
}

/// `s` with each occurrence of `from` replaced by `to`, scanning from the
/// left and never reusing replaced text.
pub open spec fn replace_all(s: Seq<char>, from: Seq<char>, to: Seq<char>) -> Seq<char>
    decreases s.len(),
{
    if from.len() == 0 || s.len() == 0 {
        s
    } else if from.is_prefix_of(s) {
        to + replace_all(s.skip(from.len() as int), from, to)
    } else {
        seq![s[0]] + replace_all(s.drop_first(), from, to)
    }
}

/// A path typed by the user, with `~` standing for the home directory `home`,
/// as expanded outside Windows.
pub open spec fn expand_unix(input: Seq<char>, home: Option<Seq<char>>) -> Seq<char> {
    match home {
        None => input,
        Some(h) => if input == "~"@ {
            h
        } else if "~/"@.is_prefix_of(input) {
            h + "/"@ + strip_repeated(input, "~/"@)
        } else {
            input
        },
    }
}

/// A path typed by the user, as expanded on Windows: `%APPDATA%` and `~\`
/// stand for the application-data and the profile directories.
pub open spec fn expand_windows(input: Seq<char>, appdata: Option<Seq<char>>, user_profile: Option<Seq<char>>) -> Seq<char> {
    let e1 = match appdata {
        Some(a) => replace_all(input, "%APPDATA%"@, a),
        None => input,
    };
    match user_profile {
        Some(h) => {
            let e2 = replace_all(e1, "~\\"@, h + "\\"@);
            if e2 == "~"@ { h } else { e2 }
        },
        None => e1,
    }
}

/// The path separator of `os`.
pub open spec fn separator(os: HostOs) -> char {
    if os == HostOs::Windows { '\\' } else { '/' }
}

/// `c` separates path components on `os`.
pub open spec fn is_separator(c: char, os: HostOs) -> bool {
    c == '/' || (os == HostOs::Windows && c == '\\')
}

/// `base` is, on Windows, nothing but a drive prefix such as `C:`.
pub open spec fn is_drive_only(base: Seq<char>, os: HostOs) -> bool {
    &&& os == HostOs::Windows
    &&& base.len() == 2
    &&& (('a' <= base[0] && base[0] <= 'z') || ('A' <= base[0] && base[0] <= 'Z'))
    &&& base[1] == ':'
}

/// `base` followed by the relative component `name`, with a separator between
/// them unless `base` is empty, already ends in one, or is a bare Windows
/// drive prefix (`C:` joined with `x` gives `C:x`, relative to that drive's
/// current directory).
pub open spec fn joined(base: Seq<char>, name: Seq<char>, os: HostOs) -> Seq<char> {
    if base.len() == 0 || is_separator(base.last(), os) || is_drive_only(base, os) {
        base + name
    } else {
        base.push(separator(os)) + name
    }
}

/// The directory of the application's own files, given the user's
/// configuration directory if there is one.
pub open spec fn app_dir_text(config_dir: Option<Seq<char>>, os: HostOs) -> Seq<char> {
    match config_dir {
        Some(d) => joined(d, "openmcp"@, os),
        None => joined("."@, "openmcp"@, os),
    }
}

/// The file that holds the saved state.
pub open spec fn state_path_text(config_dir: Option<Seq<char>>, os: HostOs) -> Seq<char> {
    joined(app_dir_text(config_dir, os), "profiles.json"@, os)
}

/// Whether `s` has `p` at position `at`.
fn occurs_at(s: &Vec<char>, p: &Vec<char>, at: usize) -> (r: bool)
    requires
        at <= s@.len(),
    ensures
        r == p@.is_prefix_of(s@.skip(at as int)),
{
    let sl = s.len();
    if p.len() > sl - at {
        return false;
    }
    let mut i: usize = 0;
    while i < p.len()
        invariant
            sl == s@.len(),
            at <= s@.len(),
            p@.len() <= s@.len() - at,
            i <= p@.len(),
            forall|j: int| 0 <= j < i ==> s@[at + j] == p@[j],
        decreases p@.len() - i,
    {
        if s[at + i] != p[i] {
            assert(s@.skip(at as int)[i as int] != p@[i as int]);
            return false;
        }
        i = i + 1;
    }
    assert(p@ =~= s@.skip(at as int).subrange(0, p@.len() as int));
    true
}

/// `s` with each occurrence of `from` replaced by `to`.
pub fn replace_text(s: &str, from: &str, to: &str) -> (r: String)
    ensures
        r@ == replace_all(s@, from@, to@),
{
    let cs = chars_of(s);
    let fs = chars_of(from);
    let ts = chars_of(to);
    if fs.len() == 0 {
        return s.to_owned();
    }
    let mut out: Vec<char> = Vec::new();
    let mut i: usize = 0;
    assert(s@.skip(0) =~= s@);
    while i < cs.len()
        invariant
            cs@ == s@,
            fs@ == from@,
            ts@ == to@,
            fs@.len() > 0,
            i <= cs@.len(),
            out@ + replace_all(s@.skip(i as int), from@, to@) == replace_all(s@, from@, to@),
        decreases cs@.len() - i,
    {
        let ghost rest = s@.skip(i as int);
        if occurs_at(&cs, &fs, i) {
            let mut k: usize = 0;
            let ghost before = out@;
            while k < ts.len()
                invariant
                    k <= ts@.len(),
                    out@ == before + ts@.subrange(0, k as int),
                decreases ts@.len() - k,
            {
                out.push(ts[k]);
                assert(out@ =~= before + ts@.subrange(0, k + 1));
                k = k + 1;
            }
            assert(rest.skip(from@.len() as int) =~= s@.skip(i + fs@.len()));
            assert(ts@.subrange(0, ts@.len() as int) =~= to@);
            assert(out@ + replace_all(s@.skip(i + fs@.len()), from@, to@) =~= replace_all(s@, from@, to@));
            i = i + fs.len();
        } else {
            out.push(cs[i]);
            assert(rest.drop_first() =~= s@.skip(i + 1));
            assert(out@ + replace_all(s@.skip(i + 1), from@, to@) =~= replace_all(s@, from@, to@));
            i = i + 1;
        }
    }
    assert(s@.skip(i as int) =~= Seq::<char>::empty());
    assert(out@ =~= replace_all(s@, from@, to@));
    string_from_chars(&out)
}

/// `s` with every leading repetition of `p` removed.
pub fn strip_repeated_prefix(s: &str, p: &str) -> (r: String)
    ensures
        r@ == strip_repeated(s@, p@),
{
    let cs = chars_of(s);
    let ps = chars_of(p);
    let mut i: usize = 0;
    assert(s@.skip(0) =~= s@);
    if ps.len() > 0 {
        while i < cs.len() && occurs_at(&cs, &ps, i)
            invariant
                cs@ == s@,
                ps@ == p@,
                ps@.len() > 0,
                i <= cs@.len(),
                strip_repeated(s@, p@) == strip_repeated(s@.skip(i as int), p@),
            decreases cs@.len() - i,
        {
            assert(s@.skip(i as int).skip(p@.len() as int) =~= s@.skip(i + ps@.len()));
            i = i + ps.len();
        }
        if i == cs.len() {
            assert(s@.skip(i as int) =~= Seq::<char>::empty());
        }
    }
    let mut out: Vec<char> = Vec::new();
    let mut k: usize = i;
    while k < cs.len()
        invariant
            cs@ == s@,
            i <= k <= cs@.len(),
            out@ == s@.subrange(i as int, k as int),
        decreases cs@.len() - k,
    {
        out.push(cs[k]);
        assert(out@ =~= s@.subrange(i as int, k + 1));
        k = k + 1;
    }
    assert(out@ =~= s@.skip(i as int));
    string_from_chars(&out)
}

/// `input` with the home-directory shorthand expanded as outside Windows.
pub fn expand_home(input: &str, home: Option<String>) -> (r: String)
    ensures
        r@ == expand_unix(input@, opt_text(home)),
{
    match home {
        None => input.to_owned(),
        Some(h) => {
            let tilde = String::from_str("~");
            let owned = input.to_owned();
            if owned == tilde {
                h
            } else if crate::text::starts_with(input, "~/") {
                let mut r = h;
                r.append("/");
                let rest = strip_repeated_prefix(input, "~/");
                r.append(rest.as_str());
                r
            } else {
                owned
            }
        },
    }
}

/// `input` with `%APPDATA%` and `~\` expanded as on Windows.
pub fn expand_windows_path(input: &str, appdata: &Option<String>, user_profile: &Option<String>) -> (r: String)
    ensures
        r@ == expand_windows(input@, opt_text(*appdata), opt_text(*user_profile)),
{
    let e1 = match appdata {
        Some(a) => replace_text(input, "%APPDATA%", a.as_str()),
        None => input.to_owned(),
    };
    match user_profile {
        Some(h) => {
            let mut with_sep = h.clone();
            with_sep.append("\\");
            let e2 = replace_text(e1.as_str(), "~\\", with_sep.as_str());
            let tilde = String::from_str("~");
            if e2 == tilde {
                h.clone()
            } else {
                e2
            }
        },
        None => e1,
    }
}

/// `base` joined with the relative component `name`.
pub fn join_path(base: &str, name: &str, os: HostOs) -> (r: String)
    ensures
        r@ == joined(base@, name@, os),
{
    let cs = chars_of(base);
    let mut r = base.to_owned();
    let ends_in_sep = cs.len() > 0 && (cs[cs.len() - 1] == '/' || (os == HostOs::Windows && cs[cs.len() - 1] == '\\'));
    let drive_only = os == HostOs::Windows && cs.len() == 2
        && (('a' <= cs[0] && cs[0] <= 'z') || ('A' <= cs[0] && cs[0] <= 'Z')) && cs[1] == ':';
    if !(cs.len() == 0 || ends_in_sep || drive_only) {
        if os == HostOs::Windows {
            r.append("\\");
        } else {
            r.append("/");
        }
        proof {
            reveal_strlit("\\");
            reveal_strlit("/");
        }
    }
    r.append(name);
    r
}

} // verus!
