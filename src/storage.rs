use vstd::prelude::*;
use vstd::string::{StrSliceExecFns, StringExecFns};

verus! {

/// Unicode `White_Space`, the characters that `str::trim` removes.
pub open spec fn is_white_space(c: char) -> bool {
    let v = c as u32;
    ||| 9 <= v <= 13
    ||| v == 32
    ||| v == 0x85
    ||| v == 0xA0
    ||| v == 0x1680
    ||| 0x2000 <= v <= 0x200A
    ||| v == 0x2028
    ||| v == 0x2029
    ||| v == 0x202F
    ||| v == 0x205F
    ||| v == 0x3000
}

pub open spec fn trim_start(s: Seq<char>) -> Seq<char>
    decreases s.len(),
{
    if s.len() > 0 && is_white_space(s[0]) {
        trim_start(s.drop_first())
    } else {
        s
    }
}

pub open spec fn trim_end(s: Seq<char>) -> Seq<char>
    decreases s.len(),
{
    if s.len() > 0 && is_white_space(s.last()) {
        trim_end(s.drop_last())
    } else {
        s
    }
}

/// `s` without leading and trailing white space.
pub open spec fn trimmed(s: Seq<char>) -> Seq<char> {
    trim_end(trim_start(s))
}

pub open spec fn chars_of(o: Option<&str>) -> Option<Seq<char>> {
    match o {
        Some(s) => Some(s@),
        None => None,
    }
}

/// The directory the worker's storage lives under: the version-control root
/// when one was found (trimmed, and not empty), else the home directory, else
/// `/tmp`.
pub open spec fn storage_root(toplevel: Option<Seq<char>>, home: Option<Seq<char>>) -> Seq<char> {
    if toplevel is Some && trimmed(toplevel->0).len() > 0 {
        trimmed(toplevel->0)
    } else if home is Some {
        home->0
    } else {
        "/tmp"@
    }
}

/// Where the worker keeps its database, below the storage root.
pub open spec fn db_path_spec(toplevel: Option<Seq<char>>, home: Option<Seq<char>>) -> Seq<char> {
    storage_root(toplevel, home) + "/.caw/workflows.db"@
}

pub fn is_white_space_char(c: char) -> (r: bool)
    ensures
        r == is_white_space(c),
{
    let v = c as u32;
    (9 <= v && v <= 13) || v == 32 || v == 0x85 || v == 0xA0 || v == 0x1680 || (0x2000 <= v && v
        <= 0x200A) || v == 0x2028 || v == 0x2029 || v == 0x202F || v == 0x205F || v == 0x3000
}

/// `s` without leading and trailing white space.
pub fn trim(s: &str) -> (r: String)
    ensures
        r@ == trimmed(s@),
{
    let n = s.unicode_len();
    let mut i: usize = 0;
    assert(s@.subrange(0, n as int) =~= s@);
    loop
        invariant
            i <= n,
            n == s@.len(),
            trim_start(s@) == trim_start(s@.subrange(i as int, n as int)),
        ensures
            i <= n,
            trim_start(s@) == trim_start(s@.subrange(i as int, n as int)),
            i == n || !is_white_space(s@[i as int]),
        decreases n - i,
    {
        if i == n || !is_white_space_char(s.get_char(i)) {
            break;
        }
        assert(s@.subrange(i as int, n as int).drop_first() =~= s@.subrange(i + 1, n as int));
        i = i + 1;
    }
    assert(i < n ==> s@.subrange(i as int, n as int)[0] == s@[i as int]);
    assert(trim_start(s@.subrange(i as int, n as int)) == s@.subrange(i as int, n as int));
    let mut j: usize = n;
    loop
        invariant
            i <= j <= n,
            n == s@.len(),
            trim_end(s@.subrange(i as int, n as int)) == trim_end(s@.subrange(i as int, j as int)),
        ensures
            i <= j <= n,
            trim_end(s@.subrange(i as int, n as int)) == trim_end(s@.subrange(i as int, j as int)),
            j == i || !is_white_space(s@[j - 1]),
        decreases j - i,
    {
        if j == i || !is_white_space_char(s.get_char(j - 1)) {
            break;
        }
        assert(s@.subrange(i as int, j as int).drop_last() =~= s@.subrange(i as int, j - 1));
        j = j - 1;
    }
    assert(i < j ==> s@.subrange(i as int, j as int).last() == s@[j - 1]);
    assert(trim_end(s@.subrange(i as int, j as int)) == s@.subrange(i as int, j as int));
    String::from_str(s.substring_char(i, j))
}

fn home_or_tmp(home: Option<&str>) -> (r: String)
    ensures
        r@ == (if home is Some {
            home->0@
        } else {
            "/tmp"@
        }),
{
    match home {
        Some(h) => String::from_str(h),
        None => String::from_str("/tmp"),
    }
}

/// The worker's database path. `toplevel` is what a successful
/// `git rev-parse --show-toplevel` printed (`None` when there is no repository),
/// `home` the value of `HOME` if set.
pub fn resolve_db_path(toplevel: Option<&str>, home: Option<&str>) -> (r: String)
    ensures
        r@ == db_path_spec(chars_of(toplevel), chars_of(home)),
{
    let mut root = match toplevel {
        Some(t) => {
            let trimmed_root = trim(t);
            if trimmed_root.as_str().unicode_len() > 0 {
                trimmed_root
            } else {
                home_or_tmp(home)
            }
        },
        None => home_or_tmp(home),
    };
    root.append("/.caw/workflows.db");
    root
}

/// The command-line arguments the worker is launched with.
pub open spec fn worker_args_spec(db_path: Seq<char>) -> Seq<Seq<char>> {
    seq!["--server"@, "--transport"@, "http"@, "--port"@, "3100"@, "--db"@, db_path]
}

/// Launch arguments: server mode over HTTP on the worker port, with the given
/// database path.
pub fn worker_args(db_path: &str) -> (r: Vec<String>)
    ensures
        r@.map_values(|a: String| a@) == worker_args_spec(db_path@),
{
    let mut args: Vec<String> = Vec::new();
    args.push(String::from_str("--server"));
    args.push(String::from_str("--transport"));
    args.push(String::from_str("http"));
    args.push(String::from_str("--port"));
    args.push(String::from_str("3100"));
    args.push(String::from_str("--db"));
    args.push(String::from_str(db_path));
    assert(args@.map_values(|a: String| a@) =~= worker_args_spec(db_path@));
    args
}

} // verus!
