//! Command-line helpers: framework-specific flags for dev servers, URL
//! rendering, RFC 1035 hostname sanitizing and yes/no answers.
use crate::text::{
    ascii_lower, chars_of, decimal, lowercased, push_str, string_of, to_lowercase, trim_chars, trimmed,
    write_decimal,
};
use vstd::prelude::*;
use vstd::utf8::is_ascii_chars;

verus! {

// ---------------------------------------------------------------------
// Path file names
// ---------------------------------------------------------------------

/// Index just past the last `/` of `p` (0 when `p` has none).
pub open spec fn segment_start(p: Seq<char>) -> nat
    decreases p.len(),
{
    if p.len() == 0 {
        0
    } else if p.last() == '/' {
        p.len()
    } else {
        segment_start(p.drop_last())
    }
}

/// The final component of a Unix path when it is a normal name, as std's
/// `Path::file_name` gives it: trailing `/` and `.` components are skipped,
/// and a path that ends in `..`, is a root, or is empty has none.
pub open spec fn file_name(p: Seq<char>) -> Option<Seq<char>>
    decreases p.len(),
{
    if p.len() == 0 {
        None
    } else if p.last() == '/' {
        file_name(p.drop_last())
    } else {
        let start = segment_start(p) as int;
        let seg = p.skip(start);
        if seg == seq!['.'] {
            if start == 0 {
                None
            } else {
                proof {
                    lemma_segment_start(p);
                }
                file_name(p.take(start))
            }
        } else if seg == seq!['.', '.'] {
            None
        } else {
            Some(seg)
        }
    }
}

/// Where the last path segment starts, and that it holds no `/`.
pub proof fn lemma_segment_start(p: Seq<char>)
    ensures
        segment_start(p) <= p.len(),
        forall|k: int| segment_start(p) <= k < p.len() ==> p[k] != '/',
        segment_start(p) > 0 ==> p[segment_start(p) - 1] == '/',
    decreases p.len(),
{
    if p.len() > 0 && p.last() != '/' {
        lemma_segment_start(p.drop_last());
        assert forall|k: int| segment_start(p) <= k < p.len() implies p[k] != '/' by {
            if k < p.len() - 1 {
                assert(p[k] == p.drop_last()[k]);
            }
        }
    }
}

fn segment_start_exec(p: &[char], end: usize) -> (s: usize)
    requires
        end <= p@.len(),
    ensures
        s == segment_start(p@.take(end as int)),
        s <= end,
{
    let mut s = end;
    while s > 0 && p[s - 1] != '/'
        invariant
            s <= end <= p@.len(),
            segment_start(p@.take(end as int)) == segment_start(p@.take(s as int)),
        decreases s,
    {
        assert(p@.take(s as int).drop_last() =~= p@.take(s - 1));
        s = s - 1;
    }
    proof {
        lemma_segment_start(p@.take(s as int));
    }
    s
}

fn file_name_upto(p: &[char], end: usize) -> (res: Option<Vec<char>>)
    requires
        end <= p@.len(),
    ensures
        match res {
            Some(v) => file_name(p@.take(end as int)) == Some(v@),
            None => file_name(p@.take(end as int)) is None,
        },
    decreases end,
{
    if end == 0 {
        return None;
    }
    if p[end - 1] == '/' {
        assert(p@.take(end as int).drop_last() =~= p@.take(end - 1));
        return file_name_upto(p, end - 1);
    }
    let start = segment_start_exec(p, end);
    let ghost q = p@.take(end as int);
    assert(q.skip(start as int) =~= p@.subrange(start as int, end as int));
    let len = end - start;
    if len == 1 && p[start] == '.' {
        assert(q.skip(start as int) =~= seq!['.']);
        if start == 0 {
            return None;
        }
        assert(q.take(start as int) =~= p@.take(start as int));
        return file_name_upto(p, start);
    }
    if len == 2 && p[start] == '.' && p[start + 1] == '.' {
        assert(q.skip(start as int) =~= seq!['.', '.']);
        return None;
    }
    proof {
        assert(q.last() == p@[end - 1]);
        let sg = q.skip(start as int);
        assert(sg.len() == len);
        if sg == seq!['.'] {
            assert(sg[0] == p@[start as int]);
            assert(false);
        }
        if sg == seq!['.', '.'] {
            assert(sg[0] == p@[start as int]);
            assert(sg[1] == p@[start + 1]);
            assert(false);
        }
    }
    let mut seg: Vec<char> = Vec::new();
    let mut i = start;
    while i < end
        invariant
            start <= i <= end <= p@.len(),
            seg@ == p@.subrange(start as int, i as int),
        decreases end - i,
    {
        seg.push(p[i]);
        i = i + 1;
    }
    assert(seg@ =~= q.skip(start as int));
    Some(seg)
}

/// The file name of the path `p`, as std's `Path::file_name` gives it.
pub fn path_file_name(p: &str) -> (res: Option<String>)
    ensures
        match res {
            Some(s) => file_name(p@) == Some(s@),
            None => file_name(p@) is None,
        },
{
    let v = chars_of(p);
    assert(v@.take(v@.len() as int) =~= p@);
    match file_name_upto(v.as_slice(), v.len()) {
        Some(name) => Some(string_of(name.as_slice())),
        None => None,
    }
}

// ---------------------------------------------------------------------
// Framework flags
// ---------------------------------------------------------------------

/// Dev-server commands that need their port and host passed as flags, and
/// whether they also need `--strictPort`.
pub open spec fn framework_strict(name: Seq<char>) -> Option<bool> {
    if name == "vite"@ || name == "react-router"@ {
        Some(true)
    } else if name == "astro"@ || name == "ng"@ || name == "react-native"@ || name == "expo"@ {
        Some(false)
    } else {
        None
    }
}

/// `flag` is one of the arguments.
pub open spec fn has_arg(args: Seq<Seq<char>>, flag: Seq<char>) -> bool {
    exists|i: int| 0 <= i < args.len() && args[i] == flag
}

/// The host a dev server is told to bind: Expo only accepts `localhost`.
pub open spec fn framework_host(name: Seq<char>) -> Seq<char> {
    if name == "expo"@ {
        "localhost"@
    } else {
        "0.0.0.0"@
    }
}

/// The arguments after adding the port and host flags that the framework
/// `name` needs; unchanged for other commands.
pub open spec fn with_framework_flags(name: Seq<char>, args: Seq<Seq<char>>, port: u16) -> Seq<
    Seq<char>,
> {
    match framework_strict(name) {
        None => args,
        Some(strict) => {
            let a1 = if !has_arg(args, "--port"@) {
                let t = args.push("--port "@ + decimal(port as nat));
                if strict {
                    t.push("--strictPort"@)
                } else {
                    t
                }
            } else {
                args
            };
            if !has_arg(a1, "--host"@) {
                a1.push("--host "@ + framework_host(name))
            } else {
                a1
            }
        },
    }
}

/// The views of a list of strings.
pub open spec fn views(v: Seq<String>) -> Seq<Seq<char>> {
    v.map_values(|s: String| s@)
}

/// Error of `inject_framework_flags`.
#[derive(Debug, PartialEq, Eq, Structural)]
pub enum FlagsError {
    /// The command path names no file.
    InvalidPath,
}

impl FlagsError {
    /// The message shown for the error.
    pub fn message(&self) -> (s: &'static str)
        ensures
            s@ == "Invalid path to command provided!"@,
    {
        "Invalid path to command provided!"
    }
}

/// Whether `s` spells exactly the literal `lit`.
pub fn is_literal(s: &[char], lit: &str) -> (b: bool)
    ensures
        b == (s@ == lit@),
{
    let l = chars_of(lit);
    if s.len() != l.len() {
        return false;
    }
    let mut i: usize = 0;
    while i < s.len()
        invariant
            i <= s@.len(),
            s@.len() == l@.len(),
            l@ == lit@,
            forall|k: int| 0 <= k < i ==> s@[k] == l@[k],
        decreases s@.len() - i,
    {
        if s[i] != l[i] {
            return false;
        }
        i = i + 1;
    }
    assert(s@ =~= l@);
    true
}

fn framework_strict_exec(name: &[char]) -> (res: Option<bool>)
    ensures
        res == framework_strict(name@),
{
    if is_literal(name, "vite") || is_literal(name, "react-router") {
        Some(true)
    } else if is_literal(name, "astro") || is_literal(name, "ng") || is_literal(
        name,
        "react-native",
    ) || is_literal(name, "expo") {
        Some(false)
    } else {
        None
    }
}

/// Whether one of `args` is exactly `flag`.
pub fn contains_arg(args: &Vec<String>, flag: &str) -> (b: bool)
    ensures
        b == has_arg(views(args@), flag@),
{
    let mut i: usize = 0;
    while i < args.len()
        invariant
            i <= args@.len(),
            forall|k: int| 0 <= k < i ==> args@[k]@ != flag@,
        decreases args@.len() - i,
    {
        let a = chars_of(args[i].as_str());
        if is_literal(a.as_slice(), flag) {
            assert(views(args@)[i as int] == flag@);
            return true;
        }
        i = i + 1;
    }
    assert forall|k: int| 0 <= k < views(args@).len() implies views(args@)[k] != flag@ by {
        assert(views(args@)[k] == args@[k]@);
    }
    false
}

fn literal_string(lit: &str) -> (s: String)
    ensures
        s@ == lit@,
{
    let mut s = String::new();
    push_str(&mut s, lit);
    s
}

/// Adds the `--port`/`--strictPort`/`--host` flags that known dev servers
/// need, unless the user already passed them. Fails when `cmd` names no file.
pub fn inject_framework_flags(cmd: &str, args: &mut Vec<String>, port: u16) -> (res: Result<
    (),
    FlagsError,
>)
    ensures
        res is Err <==> file_name(cmd@) is None,
        res is Err ==> final(args)@ == old(args)@,
        res is Ok ==> views(final(args)@) == with_framework_flags(
            file_name(cmd@).unwrap(),
            views(old(args)@),
            port,
        ),
{
    let filename = match path_file_name(cmd) {
        Some(f) => f,
        None => return Err(FlagsError::InvalidPath),
    };
    let name = chars_of(filename.as_str());
    let ghost args0 = views(args@);
    match framework_strict_exec(name.as_slice()) {
        None => {
            return Ok(());
        },
        Some(strict) => {
            if !contains_arg(args, "--port") {
                let mut flag = literal_string("--port ");
                write_decimal(&mut flag, port as u64);
                args.push(flag);
                if strict {
                    args.push(literal_string("--strictPort"));
                }
            }
            let ghost args1 = views(args@);
            assert(args1 == (if !has_arg(args0, "--port"@) {
                let t = args0.push("--port "@ + decimal(port as nat));
                if strict {
                    t.push("--strictPort"@)
                } else {
                    t
                }
            } else {
                args0
            }));
            if !contains_arg(args, "--host") {
                let host = if is_literal(name.as_slice(), "expo") {
                    literal_string("localhost")
                } else {
                    literal_string("0.0.0.0")
                };
                let mut flag = literal_string("--host ");
                push_str(&mut flag, host.as_str());
                args.push(flag);
            }
            Ok(())
        },
    }
}

// ---------------------------------------------------------------------
// URLs
// ---------------------------------------------------------------------

/// `scheme://hostname:port`, with `https` when `tls` holds.
pub open spec fn url_of(hostname: Seq<char>, port: u16, tls: bool) -> Seq<char> {
    (if tls {
        "https://"@
    } else {
        "http://"@
    }) + hostname + ":"@ + decimal(port as nat)
}

/// Renders the URL under which a route is reached.
pub fn format_url(hostname: &str, port: u16, tls: bool) -> (s: String)
    ensures
        s@ == url_of(hostname@, port, tls),
{
    let mut s = if tls {
        literal_string("https://")
    } else {
        literal_string("http://")
    };
    push_str(&mut s, hostname);
    push_str(&mut s, ":");
    write_decimal(&mut s, port as u64);
    s
}


// ---------------------------------------------------------------------
// RFC 1035 hostnames
// ---------------------------------------------------------------------

/// The characters that may not stand in a sanitized hostname: anything but
/// lower-case ASCII letters, digits, `.` and `-`.
pub const RFC1035_DISALLOWED: &'static str = "[^a-z0-9\\.-]";

/// A character that may stand in a sanitized hostname: a lower-case ASCII
/// letter, a digit, `.` or `-`.
pub open spec fn rfc1035_char(c: char) -> bool {
    ('a' <= c && c <= 'z') || ('0' <= c && c <= '9') || c == '.' || c == '-'
}

/// `s` with every character that may not stand in a hostname replaced by `-`.
pub open spec fn dash_disallowed(s: Seq<char>) -> Seq<char> {
    s.map_values(|c: char| if rfc1035_char(c) { c } else { '-' })
}

/// For the disallowed-character pattern and the replacement `-`: the result
/// is present and is `haystack` with every disallowed character dashed.
pub open spec fn res_is_dashed(
    res: Option<String>,
    pattern: Seq<char>,
    haystack: Seq<char>,
    replacement: Seq<char>,
) -> bool {
    pattern == RFC1035_DISALLOWED@ && replacement == "-"@ ==> (res matches Some(r) && r@
        == dash_disallowed(haystack))
}

/// `regex::Regex::new(pattern)` followed by `Regex::replace_all(haystack,
/// replacement)`; `None` when the pattern does not compile. Claims, for the
/// one pattern the library uses (the character class `[^a-z0-9\.-]`, whose
/// every match is one character outside the allowed set) with the plain
/// replacement `-`, that the pattern compiles and each such character is
/// replaced by `-`. Nothing is claimed for other patterns.
#[verifier::external_body]
fn replace_all_matches(pattern: &str, haystack: &str, replacement: &str) -> (res: Option<String>)
    ensures
        res_is_dashed(res, pattern@, haystack@, replacement@),
{
    match regex::Regex::new(pattern) {
        Ok(re) => Some(re.replace_all(haystack, replacement).into_owned()),
        Err(_) => None,
    }
}

/// Index of the last `c` in `s`, or -1.
pub open spec fn last_index_of(s: Seq<char>, c: char) -> int
    decreases s.len(),
{
    if s.len() == 0 {
        -1
    } else if s.last() == c {
        s.len() - 1
    } else {
        last_index_of(s.drop_last(), c)
    }
}

/// `last_index_of` lies in range.
pub proof fn lemma_last_index_of(s: Seq<char>, c: char)
    ensures
        -1 <= last_index_of(s, c) < s.len(),
        last_index_of(s, c) >= 0 ==> s[last_index_of(s, c)] == c,
    decreases s.len(),
{
    if s.len() > 0 && s.last() != c {
        lemma_last_index_of(s.drop_last(), c);
    }
}

/// `last_index_of` is `j` when `c` stands at `j` (or `j` is -1) and not after it.
pub proof fn lemma_last_index_at(s: Seq<char>, c: char, j: int)
    requires
        -1 <= j < s.len(),
        j >= 0 ==> s[j] == c,
        forall|k: int| j < k < s.len() ==> s[k] != c,
    ensures
        last_index_of(s, c) == j,
    decreases s.len(),
{
    if s.len() > 0 && s.last() != c {
        assert forall|k: int| j < k < s.drop_last().len() implies s.drop_last()[k] != c by {
            assert(s.drop_last()[k] == s[k]);
        }
        lemma_last_index_at(s.drop_last(), c, j);
    }
}

/// `s` cut at every `c`, as std's `str::split(c)` gives the pieces.
pub open spec fn split_on(s: Seq<char>, c: char) -> Seq<Seq<char>>
    decreases s.len(),
{
    let j = last_index_of(s, c);
    if j < 0 {
        seq![s]
    } else {
        proof {
            lemma_last_index_of(s, c);
        }
        split_on(s.take(j), c).push(s.skip(j + 1))
    }
}

/// The characters of each piece.
pub open spec fn piece_views(parts: Seq<Vec<char>>) -> Seq<Seq<char>> {
    parts.map_values(|p: Vec<char>| p@)
}

/// `v` cut at every `c`, as `split_on` says.
pub fn split_chars(v: &[char], c: char) -> (parts: Vec<Vec<char>>)
    ensures
        piece_views(parts@) == split_on(v@, c),
{
    let n = v.len();
    let mut parts: Vec<Vec<char>> = Vec::new();
    let mut cur: Vec<char> = Vec::new();
    let mut start: usize = 0;
    let mut i: usize = 0;
    while i < n
        invariant
            n == v@.len(),
            start <= i <= n,
            cur@ == v@.subrange(start as int, i as int),
            forall|k: int| start <= k < i ==> v@[k] != c,
            start > 0 ==> v@[start - 1] == c,
            start == 0 ==> parts@.len() == 0,
            start > 0 ==> piece_views(parts@) == split_on(v@.take(start - 1), c),
        decreases n - i,
    {
        if v[i] == c {
            proof {
                let p = v@.take(i as int);
                let piece = v@.subrange(start as int, i as int);
                if start == 0 {
                    assert forall|k: int| -1 < k < p.len() implies p[k] != c by {
                        assert(p[k] == v@[k]);
                    }
                    lemma_last_index_at(p, c, -1);
                    assert(p =~= piece);
                } else {
                    assert forall|k: int| start - 1 < k < p.len() implies p[k] != c by {
                        assert(p[k] == v@[k]);
                    }
                    lemma_last_index_at(p, c, start - 1);
                    assert(p.take(start - 1) =~= v@.take(start - 1));
                    assert(p.skip(start as int) =~= piece);
                }
            }
            let ghost before = parts@;
            parts.push(cur);
            proof {
                assert(piece_views(parts@) =~= piece_views(before).push(
                    v@.subrange(start as int, i as int),
                ));
            }
            cur = Vec::new();
            start = i + 1;
        } else {
            cur.push(v[i]);
        }
        i = i + 1;
    }
    proof {
        let piece = v@.subrange(start as int, n as int);
        if start == 0 {
            lemma_last_index_at(v@, c, -1);
            assert(v@ =~= piece);
        } else {
            lemma_last_index_at(v@, c, start - 1);
            assert(v@.skip(start as int) =~= piece);
        }
    }
    let ghost before = parts@;
    parts.push(cur);
    proof {
        assert(piece_views(parts@) =~= piece_views(before).push(
            v@.subrange(start as int, n as int),
        ));
    }
    parts
}

/// `split_on` gives at least one piece.
pub proof fn lemma_split_nonempty(s: Seq<char>, c: char)
    ensures
        split_on(s, c).len() >= 1,
{
}

/// The pieces glued together with `c` between neighbours, as std's
/// `join` does.
pub open spec fn join_with(parts: Seq<Seq<char>>, c: char) -> Seq<char>
    decreases parts.len(),
{
    if parts.len() == 0 {
        seq![]
    } else if parts.len() == 1 {
        parts[0]
    } else {
        join_with(parts.drop_last(), c) + seq![c] + parts.last()
    }
}

/// Number of leading `c` in `s`.
pub open spec fn leading_count(s: Seq<char>, c: char) -> nat
    decreases s.len(),
{
    if s.len() > 0 && s[0] == c {
        1 + leading_count(s.drop_first(), c)
    } else {
        0
    }
}

/// Number of trailing `c` in `s`.
pub open spec fn trailing_count(s: Seq<char>, c: char) -> nat
    decreases s.len(),
{
    if s.len() > 0 && s.last() == c {
        1 + trailing_count(s.drop_last(), c)
    } else {
        0
    }
}

/// `s` without leading and trailing `-`, as std's `trim_matches('-')` gives it.
pub open spec fn trim_dashes(s: Seq<char>) -> Seq<char> {
    let a = s.skip(leading_count(s, '-') as int);
    a.take(a.len() - trailing_count(a, '-'))
}

/// A sanitized DNS label: dashes trimmed, at most 63 characters kept.
pub open spec fn fixed_label(l: Seq<char>) -> Seq<char> {
    let t = trim_dashes(l);
    if t.len() > 63 {
        t.take(63)
    } else {
        t
    }
}

/// The labels of `s` fixed one by one, joined with `.` again, and the whole
/// cut to at most 255 characters.
pub open spec fn normalized_labels(s: Seq<char>) -> Seq<char> {
    let r = join_with(split_on(s, '.').map_values(|l: Seq<char>| fixed_label(l)), '.');
    if r.len() > 255 {
        r.take(255)
    } else {
        r
    }
}

/// The RFC 1035 form of a hostname: lower-cased, disallowed characters
/// replaced by `-`, then its labels fixed.
pub open spec fn sanitized(hostname: Seq<char>) -> Seq<char> {
    normalized_labels(dash_disallowed(lowercased(hostname)))
}

proof fn lemma_leading_count(s: Seq<char>, c: char, i: int)
    requires
        0 <= i <= s.len(),
        forall|k: int| 0 <= k < i ==> #[trigger] s[k] == c,
        i < s.len() ==> s[i] != c,
    ensures
        leading_count(s, c) == i,
    decreases i,
{
    if i > 0 {
        assert forall|k: int| 0 <= k < i - 1 implies #[trigger] s.drop_first()[k] == c by {
            assert(s.drop_first()[k] == s[k + 1]);
        }
        if i - 1 < s.drop_first().len() {
            assert(s.drop_first()[i - 1] == s[i]);
        }
        lemma_leading_count(s.drop_first(), c, i - 1);
    }
}

proof fn lemma_trailing_count(s: Seq<char>, c: char, i: int)
    requires
        0 <= i <= s.len(),
        forall|k: int| i <= k < s.len() ==> #[trigger] s[k] == c,
        i > 0 ==> s[i - 1] != c,
    ensures
        trailing_count(s, c) == s.len() - i,
    decreases s.len() - i,
{
    if i < s.len() {
        assert forall|k: int| i <= k < s.drop_last().len() implies #[trigger] s.drop_last()[k]
            == c by {
            assert(s.drop_last()[k] == s[k]);
        }
        if i > 0 {
            assert(s.drop_last()[i - 1] == s[i - 1]);
        }
        lemma_trailing_count(s.drop_last(), c, i);
    }
}

/// Appends the fixed form of the label `v[lo..hi]` to `out`.
fn push_fixed_label(out: &mut Vec<char>, v: &[char], lo: usize, hi: usize)
    requires
        lo <= hi <= v@.len(),
    ensures
        final(out)@ == old(out)@ + fixed_label(v@.subrange(lo as int, hi as int)),
{
    let ghost l = v@.subrange(lo as int, hi as int);
    let mut a = lo;
    while a < hi && v[a] == '-'
        invariant
            lo <= a <= hi <= v@.len(),
            forall|k: int| lo <= k < a ==> v@[k] == '-',
        decreases hi - a,
    {
        a = a + 1;
    }
    proof {
        assert forall|k: int| 0 <= k < a - lo implies #[trigger] l[k] == '-' by {
            assert(l[k] == v@[lo + k]);
        }
        if a < hi {
            assert(l[a - lo] == v@[a as int]);
        }
        lemma_leading_count(l, '-', a - lo);
    }
    let ghost t0 = l.skip(a - lo);
    let mut b = hi;
    while b > a && v[b - 1] == '-'
        invariant
            lo <= a <= b <= hi <= v@.len(),
            forall|k: int| b <= k < hi ==> v@[k] == '-',
        decreases b,
    {
        b = b - 1;
    }
    proof {
        assert forall|k: int| b - a <= k < t0.len() implies #[trigger] t0[k] == '-' by {
            assert(t0[k] == v@[a + k]);
        }
        if b > a {
            assert(t0[b - a - 1] == v@[b - 1]);
        }
        lemma_trailing_count(t0, '-', b - a);
        assert(trim_dashes(l) =~= v@.subrange(a as int, b as int));
    }
    if b - a > 63 {
        b = a + 63;
    }
    let ghost before = out@;
    let mut i = a;
    while i < b
        invariant
            a <= i <= b <= v@.len(),
            out@ == before + v@.subrange(a as int, i as int),
        decreases b - i,
    {
        out.push(v[i]);
        i = i + 1;
    }
    assert(out@ =~= before + fixed_label(l));
}

/// Fixes every `.`-separated label of an ASCII string (dashes trimmed from
/// both ends, at most 63 characters kept) and keeps at most 255 characters.
pub fn normalize_labels(s: &str) -> (res: String)
    requires
        is_ascii_chars(s@),
    ensures
        res@ == normalized_labels(s@),
{
    let v = chars_of(s);
    let n = v.len();
    let ghost fixes = |parts: Seq<Seq<char>>| parts.map_values(|l: Seq<char>| fixed_label(l));
    let mut out: Vec<char> = Vec::new();
    let mut start: usize = 0;
    let mut i: usize = 0;
    while i < n
        invariant
            n == v@.len(),
            v@ == s@,
            start <= i <= n,
            fixes == (|parts: Seq<Seq<char>>| parts.map_values(|l: Seq<char>| fixed_label(l))),
            forall|k: int| start <= k < i ==> v@[k] != '.',
            start > 0 ==> v@[start - 1] == '.',
            start == 0 ==> out@ == Seq::<char>::empty(),
            start > 0 ==> out@ == join_with(fixes(split_on(v@.take(start - 1), '.')), '.')
                + seq!['.'],
        decreases n - i,
    {
        if v[i] == '.' {
            let ghost out0 = out@;
            push_fixed_label(&mut out, v.as_slice(), start, i);
            proof {
                let p = v@.take(i as int);
                let piece = v@.subrange(start as int, i as int);
                if start == 0 {
                    assert forall|k: int| -1 < k < p.len() implies p[k] != '.' by {
                        assert(p[k] == v@[k]);
                    }
                    lemma_last_index_at(p, '.', -1);
                    assert(p =~= piece);
                    assert(split_on(p, '.') == seq![p]);
                    assert(fixes(split_on(p, '.')) =~= seq![fixed_label(p)]);
                } else {
                    assert forall|k: int| start - 1 < k < p.len() implies p[k] != '.' by {
                        assert(p[k] == v@[k]);
                    }
                    lemma_last_index_at(p, '.', start - 1);
                    assert(p.take(start - 1) =~= v@.take(start - 1));
                    assert(p.skip(start as int) =~= piece);
                    let q = split_on(v@.take(start - 1), '.');
                    lemma_split_nonempty(v@.take(start - 1), '.');
                    assert(split_on(p, '.') == q.push(piece));
                    assert(fixes(q.push(piece)) =~= fixes(q).push(fixed_label(piece)));
                    assert(fixes(q.push(piece)).drop_last() =~= fixes(q));
                }
            }
            out.push('.');
            start = i + 1;
        }
        i = i + 1;
    }
    push_fixed_label(&mut out, v.as_slice(), start, n);
    proof {
        let piece = v@.subrange(start as int, n as int);
        if start == 0 {
            lemma_last_index_at(v@, '.', -1);
            assert(v@ =~= piece);
            assert(fixes(split_on(v@, '.')) =~= seq![fixed_label(v@)]);
        } else {
            lemma_last_index_at(v@, '.', start - 1);
            assert(v@.skip(start as int) =~= piece);
            let q = split_on(v@.take(start - 1), '.');
            lemma_split_nonempty(v@.take(start - 1), '.');
            assert(fixes(q.push(piece)) =~= fixes(q).push(fixed_label(piece)));
            assert(fixes(q.push(piece)).drop_last() =~= fixes(q));
        }
    }
    let ghost r = out@;
    assert(r == join_with(split_on(s@, '.').map_values(|l: Seq<char>| fixed_label(l)), '.'));
    if out.len() > 255 {
        out.truncate(255);
    }
    string_of(out.as_slice())
}

/// A label as the sanitizer leaves it: at most 63 characters, neither
/// starting nor ending with `-`.
pub open spec fn label_ok(l: Seq<char>) -> bool {
    l.len() <= 63 && (l.len() == 0 || (l[0] != '-' && l.last() != '-'))
}

/// `h` is already an RFC 1035 hostname as the sanitizer writes them: only
/// lower-case letters, digits, `.` and `-`, at most 255 characters, and
/// every label as `label_ok` says.
pub open spec fn rfc1035_form(h: Seq<char>) -> bool {
    &&& forall|i: int| 0 <= i < h.len() ==> rfc1035_char(#[trigger] h[i])
    &&& h.len() <= 255
    &&& forall|i: int| 0 <= i < split_on(h, '.').len() ==> label_ok(#[trigger] split_on(h, '.')[i])
}

proof fn lemma_join_split(s: Seq<char>, c: char)
    ensures
        join_with(split_on(s, c), c) == s,
    decreases s.len(),
{
    let j = last_index_of(s, c);
    lemma_last_index_of(s, c);
    if j >= 0 {
        let front = s.take(j);
        lemma_join_split(front, c);
        let p = split_on(front, c);
        lemma_split_nonempty(front, c);
        let x = s.skip(j + 1);
        let q = p.push(x);
        assert(split_on(s, c) == q);
        assert(q.drop_last() =~= p);
        assert(q.last() == x);
        assert(join_with(q, c) == join_with(p, c) + seq![c] + x);
        assert(front + seq![c] + x =~= s);
    }
}

proof fn lemma_fixed_label_ok(l: Seq<char>)
    requires
        label_ok(l),
    ensures
        fixed_label(l) == l,
{
    assert(leading_count(l, '-') == 0);
    let a = l.skip(0);
    assert(a =~= l);
    assert(trailing_count(a, '-') == 0);
    assert(a.take(a.len() as int) =~= l);
}

proof fn lemma_normalized_identity(h: Seq<char>)
    requires
        rfc1035_form(h),
    ensures
        normalized_labels(h) == h,
{
    let pieces = split_on(h, '.');
    let parts = pieces.map_values(|l: Seq<char>| fixed_label(l));
    assert forall|i: int| 0 <= i < pieces.len() implies #[trigger] parts[i] == pieces[i] by {
        lemma_fixed_label_ok(pieces[i]);
    }
    assert(parts =~= pieces);
    lemma_join_split(h, '.');
}

/// Sanitizes a name into an RFC 1035 hostname: lower-cased, every character
/// other than `a-z`, `0-9`, `.` and `-` replaced by `-`, each label trimmed
/// of dashes and cut to 63 characters, the whole cut to 255.
pub fn sanitize_rfc1035(hostname: &str) -> (res: String)
    ensures
        res@ == sanitized(hostname@),
        rfc1035_form(hostname@) ==> res@ == hostname@,
{
    let lower = to_lowercase(hostname);
    proof {
        if rfc1035_form(hostname@) {
            let h = hostname@;
            assert(is_ascii_chars(h));
            assert(ascii_lower(h) =~= h);
            assert(dash_disallowed(h) =~= h);
            lemma_normalized_identity(h);
        }
    }
    match replace_all_matches(RFC1035_DISALLOWED, lower.as_str(), "-") {
        Some(replaced) => {
            assert(is_ascii_chars(replaced@));
            normalize_labels(replaced.as_str())
        },
        None => {
            proof {
                reveal_strlit("-");
                assert(false);
            }
            String::new()
        },
    }
}

// ---------------------------------------------------------------------
// Yes/no answers
// ---------------------------------------------------------------------

/// What a (trimmed, lower-cased) reply means: `y`/`yes` accept, `n`/`no` and
/// the empty reply decline, anything else asks again (`None`).
pub open spec fn reply_meaning(reply: Seq<char>) -> Option<bool> {
    if reply == "y"@ || reply == "yes"@ {
        Some(true)
    } else if reply == "n"@ || reply == "no"@ || reply.len() == 0 {
        Some(false)
    } else {
        None
    }
}

/// The meaning of an already normalized reply.
pub fn reply_answer(reply: &str) -> (res: Option<bool>)
    ensures
        res == reply_meaning(reply@),
{
    let r = chars_of(reply);
    if is_literal(r.as_slice(), "y") || is_literal(r.as_slice(), "yes") {
        Some(true)
    } else if is_literal(r.as_slice(), "n") || is_literal(r.as_slice(), "no") || r.len() == 0 {
        Some(false)
    } else {
        None
    }
}

/// The meaning of a raw line typed at a yes/no prompt: white space trimmed,
/// then lower-cased, then read as `reply_meaning` says.
pub fn confirm_reply(line: &str) -> (res: Option<bool>)
    ensures
        res == reply_meaning(lowercased(trimmed(line@))),
{
    let v = chars_of(line);
    let t = string_of(trim_chars(v.as_slice()).as_slice());
    let lower = to_lowercase(t.as_str());
    reply_answer(lower.as_str())
}

/// A typed line with white space trimmed, as the plain input prompt keeps it.
pub fn trim_line(line: &str) -> (res: String)
    ensures
        res@ == trimmed(line@),
{
    let v = chars_of(line);
    string_of(trim_chars(v.as_slice()).as_slice())
}

// ---------------------------------------------------------------------
// Laws
// ---------------------------------------------------------------------

/// Injecting framework flags only appends: the given arguments stay first,
/// in order, and at most three arguments are added.
pub proof fn law_flags_only_append(name: Seq<char>, args: Seq<Seq<char>>, port: u16)
    ensures
        with_framework_flags(name, args, port).len() <= args.len() + 3,
        with_framework_flags(name, args, port).take(args.len() as int) == args,
{
    let r = with_framework_flags(name, args, port);
    assert(r.take(args.len() as int) =~= args);
}

/// Arguments that already hold `--port` and `--host` are left as they are.
pub proof fn law_flags_present_unchanged(name: Seq<char>, args: Seq<Seq<char>>, port: u16)
    requires
        has_arg(args, "--port"@),
        has_arg(args, "--host"@),
    ensures
        with_framework_flags(name, args, port) == args,
{
}

/// A framework command ends up told its port and host: it either already
/// had a bare `--port` (`--host`) argument or gets `--port <port>`
/// (`--host <host>`) added.
pub proof fn law_flags_port_and_host(name: Seq<char>, args: Seq<Seq<char>>, port: u16)
    requires
        framework_strict(name) is Some,
    ensures
        has_arg(with_framework_flags(name, args, port), "--port"@) || has_arg(
            with_framework_flags(name, args, port),
            "--port "@ + decimal(port as nat),
        ),
        has_arg(with_framework_flags(name, args, port), "--host"@) || has_arg(
            with_framework_flags(name, args, port),
            "--host "@ + framework_host(name),
        ),
{
    let strict = framework_strict(name).unwrap();
    let a1 = if !has_arg(args, "--port"@) {
        let t = args.push("--port "@ + decimal(port as nat));
        if strict {
            t.push("--strictPort"@)
        } else {
            t
        }
    } else {
        args
    };
    let r = with_framework_flags(name, args, port);
    if has_arg(args, "--port"@) {
        let i = choose|i: int| 0 <= i < args.len() && args[i] == "--port"@;
        assert(a1[i] == args[i]);
        assert(r[i] == a1[i]);
    } else {
        let i = args.len() as int;
        assert(a1[i] == "--port "@ + decimal(port as nat));
        assert(r[i] == a1[i]);
    }
    if has_arg(a1, "--host"@) {
        let i = choose|i: int| 0 <= i < a1.len() && a1[i] == "--host"@;
        assert(r[i] == a1[i]);
    } else {
        assert(r[a1.len() as int] == "--host "@ + framework_host(name));
    }
}

/// Exactly six dev-server commands get flags: `vite` and `react-router`
/// also get `--strictPort`; `astro`, `ng`, `react-native` and `expo` do not;
/// only `expo` binds `localhost`, the others `0.0.0.0`.
pub proof fn law_framework_table(name: Seq<char>)
    ensures
        framework_strict(name) is Some <==> (name == "vite"@ || name == "react-router"@ || name
            == "astro"@ || name == "ng"@ || name == "react-native"@ || name == "expo"@),
        framework_strict(name) == Some(true) <==> (name == "vite"@ || name == "react-router"@),
        framework_host(name) == (if name == "expo"@ {
            "localhost"@
        } else {
            "0.0.0.0"@
        }),
{
}

/// A strict framework given no port gets `--strictPort` right after the
/// added port flag.
pub proof fn law_strict_port(name: Seq<char>, args: Seq<Seq<char>>, port: u16)
    requires
        framework_strict(name) == Some(true),
        !has_arg(args, "--port"@),
    ensures
        with_framework_flags(name, args, port)[args.len() as int] == "--port "@ + decimal(
            port as nat,
        ),
        with_framework_flags(name, args, port)[args.len() as int + 1] == "--strictPort"@,
{
}

/// A sanitized hostname is never longer than 255 characters.
pub proof fn law_sanitized_short(hostname: Seq<char>)
    ensures
        sanitized(hostname).len() <= 255,
{
}

/// Some character of `s[i..i + 64]` is a `.`.
pub open spec fn dot_within(s: Seq<char>, i: int) -> bool {
    exists|k: int| i <= k < i + 64 && #[trigger] s[k] == '.'
}

/// Every 64 consecutive characters of `s` include a `.`: no label is longer
/// than 63 characters.
pub open spec fn labels_short(s: Seq<char>) -> bool {
    forall|i: int| 0 <= i && i + 64 <= s.len() ==> #[trigger] dot_within(s, i)
}

proof fn lemma_join_labels_short(parts: Seq<Seq<char>>)
    requires
        forall|i: int| 0 <= i < parts.len() ==> (#[trigger] parts[i]).len() <= 63,
    ensures
        labels_short(join_with(parts, '.')),
    decreases parts.len(),
{
    if parts.len() >= 2 {
        let front = join_with(parts.drop_last(), '.');
        let last = parts.last();
        assert(parts[parts.len() - 1] == last);
        lemma_join_labels_short(parts.drop_last());
        let whole = join_with(parts, '.');
        assert(whole == front + seq!['.'] + last);
        assert forall|i: int| 0 <= i && i + 64 <= whole.len() implies #[trigger] dot_within(
            whole,
            i,
        ) by {
            if i + 64 <= front.len() {
                assert(dot_within(front, i));
                let k = choose|k: int| i <= k < i + 64 && #[trigger] front[k] == '.';
                assert(whole[k] == front[k]);
            } else {
                assert(i <= front.len());
                assert(whole[front.len() as int] == '.');
            }
        }
    }
}

/// A sanitized hostname has no label longer than 63 characters.
pub proof fn law_sanitized_labels(hostname: Seq<char>)
    ensures
        labels_short(sanitized(hostname)),
{
    let r = dash_disallowed(lowercased(hostname));
    let parts = split_on(r, '.').map_values(|l: Seq<char>| fixed_label(l));
    assert forall|i: int| 0 <= i < parts.len() implies (#[trigger] parts[i]).len() <= 63 by {}
    lemma_join_labels_short(parts);
    let j = join_with(parts, '.');
    if j.len() > 255 {
        let p = j.take(255);
        assert forall|i: int| 0 <= i && i + 64 <= p.len() implies #[trigger] dot_within(p, i) by {
            assert(dot_within(j, i));
            let k = choose|k: int| i <= k < i + 64 && #[trigger] j[k] == '.';
            assert(p[k] == j[k]);
        }
    }
}

/// Every character of `s` may stand in a hostname.
pub open spec fn all_rfc1035(s: Seq<char>) -> bool {
    forall|i: int| 0 <= i < s.len() ==> rfc1035_char(#[trigger] s[i])
}

proof fn lemma_count_bounds(s: Seq<char>, c: char)
    ensures
        leading_count(s, c) <= s.len(),
        trailing_count(s, c) <= s.len(),
    decreases s.len(),
{
    if s.len() > 0 {
        lemma_count_bounds(s.drop_first(), c);
        lemma_count_bounds(s.drop_last(), c);
    }
}

proof fn lemma_split_pieces_rfc(s: Seq<char>, c: char)
    requires
        all_rfc1035(s),
    ensures
        forall|i: int| 0 <= i < split_on(s, c).len() ==> all_rfc1035(#[trigger] split_on(s, c)[i]),
    decreases s.len(),
{
    let j = last_index_of(s, c);
    lemma_last_index_of(s, c);
    if j >= 0 {
        let front = s.take(j);
        assert forall|k: int| 0 <= k < front.len() implies rfc1035_char(#[trigger] front[k]) by {
            assert(front[k] == s[k]);
        }
        lemma_split_pieces_rfc(front, c);
        let tail = s.skip(j + 1);
        assert forall|k: int| 0 <= k < tail.len() implies rfc1035_char(#[trigger] tail[k]) by {
            assert(tail[k] == s[k + j + 1]);
        }
        let pieces = split_on(s, c);
        assert(pieces == split_on(front, c).push(tail));
        assert forall|i: int| 0 <= i < pieces.len() implies all_rfc1035(#[trigger] pieces[i]) by {
            if i < pieces.len() - 1 {
                assert(pieces[i] == split_on(front, c)[i]);
            }
        }
    }
}

proof fn lemma_fixed_label_rfc(l: Seq<char>)
    requires
        all_rfc1035(l),
    ensures
        all_rfc1035(fixed_label(l)),
{
    lemma_count_bounds(l, '-');
    let a = l.skip(leading_count(l, '-') as int);
    lemma_count_bounds(a, '-');
    let t = trim_dashes(l);
    assert(t == a.take(a.len() - trailing_count(a, '-')));
    assert forall|k: int| 0 <= k < t.len() implies rfc1035_char(#[trigger] t[k]) by {
        assert(t[k] == a[k]);
        assert(a[k] == l[k + leading_count(l, '-')]);
    }
    let f = fixed_label(l);
    assert forall|k: int| 0 <= k < f.len() implies rfc1035_char(#[trigger] f[k]) by {
        assert(f[k] == t[k]);
    }
}

proof fn lemma_join_rfc(parts: Seq<Seq<char>>)
    requires
        forall|i: int| 0 <= i < parts.len() ==> all_rfc1035(#[trigger] parts[i]),
    ensures
        all_rfc1035(join_with(parts, '.')),
    decreases parts.len(),
{
    if parts.len() >= 2 {
        lemma_join_rfc(parts.drop_last());
        let front = join_with(parts.drop_last(), '.');
        let last = parts.last();
        assert(all_rfc1035(parts[parts.len() - 1]));
        let whole = join_with(parts, '.');
        assert(whole == front + seq!['.'] + last);
        assert forall|k: int| 0 <= k < whole.len() implies rfc1035_char(#[trigger] whole[k]) by {
            if k < front.len() {
                assert(whole[k] == front[k]);
            } else if k == front.len() {
                assert(whole[k] == '.');
            } else {
                assert(whole[k] == last[k - front.len() - 1]);
            }
        }
    } else if parts.len() == 1 {
        assert(all_rfc1035(parts[0]));
    }
}

/// A sanitized hostname holds only lower-case ASCII letters, digits, `.`
/// and `-`.
pub proof fn law_sanitized_chars(hostname: Seq<char>)
    ensures
        all_rfc1035(sanitized(hostname)),
{
    let r = dash_disallowed(lowercased(hostname));
    assert forall|k: int| 0 <= k < r.len() implies rfc1035_char(#[trigger] r[k]) by {}
    lemma_split_pieces_rfc(r, '.');
    let pieces = split_on(r, '.');
    let parts = pieces.map_values(|l: Seq<char>| fixed_label(l));
    assert forall|i: int| 0 <= i < parts.len() implies all_rfc1035(#[trigger] parts[i]) by {
        assert(all_rfc1035(pieces[i]));
        lemma_fixed_label_rfc(pieces[i]);
    }
    lemma_join_rfc(parts);
    let j = join_with(parts, '.');
    if j.len() > 255 {
        let p = j.take(255);
        assert forall|k: int| 0 <= k < p.len() implies rfc1035_char(#[trigger] p[k]) by {
            assert(p[k] == j[k]);
        }
    }
}

} // verus!
