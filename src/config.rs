//! Host configuration decisions: where the log goes, at which level, which
//! `.env` files to consider, and how a hotkey specification is normalised.

use vstd::prelude::*;
use crate::locator::{join_path, join_spec, views};

verus! {

/// The log directory: an explicit override, else `.lightbot/logs` under the
/// home directory, else `logs` relative to the working directory.
pub open spec fn log_dir_of(overridden: Option<String>, home: Option<String>) -> Seq<char> {
    match overridden {
        Some(d) => d@,
        None => match home {
            Some(h) => join_spec(join_spec(h@, ".lightbot"@), "logs"@),
            None => "logs"@,
        },
    }
}

/// Chooses the log directory.
pub fn log_dir(overridden: &Option<String>, home: &Option<String>) -> (r: String)
    ensures
        r@ == log_dir_of(*overridden, *home),
{
    match overridden {
        Some(d) => d.clone(),
        None => match home {
            Some(h) => {
                let app = join_path(h.as_str(), ".lightbot");
                join_path(app.as_str(), "logs")
            },
            None => String::from_str("logs"),
        },
    }
}

/// The file inside the log directory that both the host and the worker append to.
pub fn log_file_path(dir: &str) -> (r: String)
    ensures
        r@ == join_spec(dir@, "lightbot.log"@),
{
    join_path(dir, "lightbot.log")
}

/// The log level: an explicit override, else `info`.
pub fn log_level(overridden: &Option<String>) -> (r: String)
    ensures
        r@ == match *overridden {
            Some(l) => l@,
            None => "info"@,
        },
{
    match overridden {
        Some(l) => l.clone(),
        None => String::from_str("info"),
    }
}

/// The `.env` files to consider, first match wins: the project root's, then
/// `.lightbot/.env` under the home directory when that is known.
pub open spec fn env_files_of(project_root: Seq<char>, home: Option<String>) -> Seq<Seq<char>> {
    match home {
        Some(h) => seq![
            join_spec(project_root, ".env"@),
            join_spec(join_spec(h@, ".lightbot"@), ".env"@),
        ],
        None => seq![join_spec(project_root, ".env"@)],
    }
}

/// Lists the `.env` files to consider, highest priority first.
pub fn env_file_candidates(project_root: &str, home: &Option<String>) -> (r: Vec<String>)
    ensures
        views(r@) == env_files_of(project_root@, *home),
{
    let mut v: Vec<String> = Vec::new();
    v.push(join_path(project_root, ".env"));
    match home {
        Some(h) => {
            let app = join_path(h.as_str(), ".lightbot");
            v.push(join_path(app.as_str(), ".env"));
        },
        None => {},
    }
    assert(views(v@) =~= env_files_of(project_root@, *home));
    v
}

/// Whether `c` is a quote that may wrap a hotkey specification.
pub open spec fn is_quote(c: char) -> bool {
    c == '\'' || c == '"'
}

/// `s` without its leading quotes.
pub open spec fn strip_front(s: Seq<char>) -> Seq<char>
    decreases s.len(),
{
    if s.len() > 0 && is_quote(s[0]) {
        strip_front(s.drop_first())
    } else {
        s
    }
}

/// `s` without its trailing quotes.
pub open spec fn strip_back(s: Seq<char>) -> Seq<char>
    decreases s.len(),
{
    if s.len() > 0 && is_quote(s.last()) {
        strip_back(s.drop_last())
    } else {
        s
    }
}

/// `s` with every `Cmd` replaced by `Command`, scanning from the left.
pub open spec fn expand_cmd(s: Seq<char>) -> Seq<char>
    decreases s.len(),
{
    if s.len() == 0 {
        s
    } else if s.len() >= 3 && s.subrange(0, 3) == "Cmd"@ {
        "Command"@ + expand_cmd(s.subrange(3, s.len() as int))
    } else {
        seq![s[0]] + expand_cmd(s.drop_first())
    }
}

/// A hotkey specification as registered: surrounding quotes removed, then
/// `Cmd` spelled out as `Command`.
pub open spec fn hotkey_of(s: Seq<char>) -> Seq<char> {
    expand_cmd(strip_back(strip_front(s)))
}

proof fn strip_front_from(s: Seq<char>, i: int)
    requires
        0 <= i <= s.len(),
        forall|j: int| 0 <= j < i ==> is_quote(#[trigger] s[j]),
    ensures
        strip_front(s) == strip_front(s.subrange(i, s.len() as int)),
    decreases i,
{
    if i > 0 {
        assert(is_quote(s[0]));
        let t = s.drop_first();
        assert forall|j: int| 0 <= j < i - 1 implies is_quote(#[trigger] t[j]) by {
            assert(t[j] == s[j + 1]);
        }
        strip_front_from(t, i - 1);
        assert(t.subrange(i - 1, t.len() as int) =~= s.subrange(i, s.len() as int));
    } else {
        assert(s.subrange(0, s.len() as int) =~= s);
    }
}

proof fn strip_back_to(s: Seq<char>, k: int)
    requires
        0 <= k <= s.len(),
        forall|j: int| k <= j < s.len() ==> is_quote(#[trigger] s[j]),
    ensures
        strip_back(s) == strip_back(s.subrange(0, k)),
    decreases s.len() - k,
{
    if k < s.len() {
        assert(is_quote(s.last()));
        let t = s.drop_last();
        assert forall|j: int| k <= j < t.len() implies is_quote(#[trigger] t[j]) by {
            assert(t[j] == s[j]);
        }
        strip_back_to(t, k);
        assert(t.subrange(0, k) =~= s.subrange(0, k));
    } else {
        assert(s.subrange(0, k) =~= s);
    }
}

/// Removes the quotes around a hotkey specification.
pub fn trim_quotes(s: &str) -> (r: &str)
    ensures
        r@ == strip_back(strip_front(s@)),
{
    let n = s.unicode_len();
    let mut i: usize = 0;
    while i < n && (s.get_char(i) == '\'' || s.get_char(i) == '"')
        invariant
            i <= n,
            n == s@.len(),
            forall|j: int| 0 <= j < i ==> is_quote(#[trigger] s@[j]),
        decreases n - i,
    {
        i = i + 1;
    }
    proof {
        strip_front_from(s@, i as int);
    }
    let ghost rest = s@.subrange(i as int, n as int);
    assert(i == n || !is_quote(rest[0]));
    assert(strip_front(rest) == rest);
    let mut k: usize = n;
    while k > i && (s.get_char(k - 1) == '\'' || s.get_char(k - 1) == '"')
        invariant
            i <= k <= n,
            n == s@.len(),
            forall|j: int| k <= j < n ==> is_quote(#[trigger] s@[j]),
        decreases k,
    {
        k = k - 1;
    }
    proof {
        let t = s@.subrange(i as int, n as int);
        assert forall|j: int| k - i <= j < t.len() implies is_quote(#[trigger] t[j]) by {
            assert(t[j] == s@[i + j]);
        }
        strip_back_to(t, k - i);
        let u = t.subrange(0, k - i);
        assert(u =~= s@.subrange(i as int, k as int));
        if k > i {
            assert(u.last() == s@[k - 1]);
        }
    }
    s.substring_char(i, k)
}

/// Spells out every `Cmd` in a hotkey specification as `Command`.
pub fn expand_cmd_alias(s: &str) -> (r: String)
    ensures
        r@ == expand_cmd(s@),
{
    let n = s.unicode_len();
    let mut out = String::new();
    let mut i: usize = 0;
    assert(s@.subrange(0, n as int) =~= s@);
    assert(out@ + expand_cmd(s@) =~= expand_cmd(s@));
    while i < n
        invariant
            i <= n,
            n == s@.len(),
            out@ + expand_cmd(s@.subrange(i as int, n as int)) == expand_cmd(s@),
        decreases n - i,
    {
        let ghost t = s@.subrange(i as int, n as int);
        if n - i >= 3 && s.get_char(i) == 'C' && s.get_char(i + 1) == 'm' && s.get_char(i + 2) == 'd' {
            proof {
                reveal_strlit("Cmd");
                assert(t.subrange(0, 3) =~= "Cmd"@);
                assert(t.subrange(3, t.len() as int) =~= s@.subrange(i + 3, n as int));
            }
            out.append("Command");
            i = i + 3;
            assert(out@ + expand_cmd(s@.subrange(i as int, n as int)) =~= expand_cmd(s@));
        } else {
            proof {
                reveal_strlit("Cmd");
                if t.len() >= 3 {
                    assert(t.subrange(0, 3) != "Cmd"@) by {
                        if t.subrange(0, 3) == "Cmd"@ {
                            assert(t.subrange(0, 3)[0] == 'C');
                            assert(t.subrange(0, 3)[1] == 'm');
                            assert(t.subrange(0, 3)[2] == 'd');
                        }
                    }
                }
                assert(t.drop_first() =~= s@.subrange(i + 1, n as int));
            }
            let one = s.substring_char(i, i + 1);
            assert(one@ =~= seq![t[0]]);
            out.append(one);
            i = i + 1;
            assert(out@ + expand_cmd(s@.subrange(i as int, n as int)) =~= expand_cmd(s@));
        }
    }
    assert(s@.subrange(n as int, n as int) =~= Seq::<char>::empty());
    assert(out@ + Seq::<char>::empty() =~= out@);
    out
}

/// Normalises a hotkey specification before it is parsed.
pub fn normalize_hotkey(s: &str) -> (r: String)
    ensures
        r@ == hotkey_of(s@),
{
    let t = trim_quotes(s);
    expand_cmd_alias(t)
}

} // verus!
