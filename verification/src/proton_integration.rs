//! Rules of the Proton integration: recognising Windows executables by
//! their header, recognising Proton installation directories, and reading
//! library folders out of Steam's `libraryfolders.vdf`.

use vstd::prelude::*;
use crate::text::{chars_of, has_prefix, occurs_at, owned, starts_with, strings_view};

verus! {

/// A failure of the Proton integration.
#[derive(Debug)]
pub enum ProtonError {
    IoError(std::io::Error),
    ProtonNotFound(String),
}

impl From<std::io::Error> for ProtonError {
    fn from(err: std::io::Error) -> (r: Self) {
        ProtonError::IoError(err)
    }
}

impl vstd::std_specs::convert::FromSpecImpl<std::io::Error> for ProtonError {
    open spec fn obeys_from_spec() -> bool {
        true
    }

    open spec fn from_spec(v: std::io::Error) -> Self {
        ProtonError::IoError(v)
    }
}

/// The first bytes of a file are the "MZ" signature of a Windows (PE)
/// executable.
pub open spec fn has_mz_signature(head: Seq<u8>) -> bool {
    head.len() >= 2 && head[0] == 0x4Du8 && head[1] == 0x5Au8
}

/// Whether the leading bytes of a file mark it as a Windows executable.
/// A file shorter than two bytes is not one.
pub fn is_pe_header(head: &[u8]) -> (b: bool)
    ensures
        b == has_mz_signature(head@),
{
    head.len() >= 2 && head[0] == 0x4Du8 && head[1] == 0x5Au8
}

/// Whether a directory name under `steamapps/common` names a Proton
/// installation (it begins with "Proton").
pub fn is_proton_dir_name(name: &str) -> (b: bool)
    ensures
        b == has_prefix(name@, "Proton"@),
{
    starts_with(name, "Proton")
}

/// The characters that `char::is_whitespace` accepts: those with the
/// Unicode White_Space property.
pub open spec fn is_white_space(c: char) -> bool {
    ||| ('\u{9}' <= c && c <= '\u{d}')
    ||| c == ' '
    ||| c == '\u{85}'
    ||| c == '\u{a0}'
    ||| c == '\u{1680}'
    ||| ('\u{2000}' <= c && c <= '\u{200a}')
    ||| c == '\u{2028}'
    ||| c == '\u{2029}'
    ||| c == '\u{202f}'
    ||| c == '\u{205f}'
    ||| c == '\u{3000}'
}

/// Whether `c` is white space in the sense of `char::is_whitespace`.
pub fn is_white_space_char(c: char) -> (b: bool)
    ensures
        b == is_white_space(c),
{
    ('\u{9}' <= c && c <= '\u{d}') || c == ' ' || c == '\u{85}' || c == '\u{a0}'
        || c == '\u{1680}' || ('\u{2000}' <= c && c <= '\u{200a}') || c == '\u{2028}'
        || c == '\u{2029}' || c == '\u{202f}' || c == '\u{205f}' || c == '\u{3000}'
}

/// Index of the first character at or after `i` that is not white space
/// (the length when there is none).
pub open spec fn skip_white_space(s: Seq<char>, i: int) -> int
    decreases s.len() - i,
{
    if i < 0 || i >= s.len() {
        s.len() as int
    } else if is_white_space(s[i]) {
        skip_white_space(s, i + 1)
    } else {
        i
    }
}

/// Index of the first `c` at or after `i` (the length when there is none).
pub open spec fn find_from(s: Seq<char>, c: char, i: int) -> int
    decreases s.len() - i,
{
    if i < 0 || i >= s.len() {
        s.len() as int
    } else if s[i] == c {
        i
    } else {
        find_from(s, c, i + 1)
    }
}

/// The `k`-th piece (counting from 0) of `s` from index `i` on, when it is
/// split at each `c`, as `str::split` yields them; `None` past the last
/// piece.
pub open spec fn nth_piece(s: Seq<char>, c: char, i: int, k: nat) -> Option<Seq<char>>
    decreases k,
{
    let e = find_from(s, c, i);
    if k == 0 {
        Some(s.subrange(i, e))
    } else if e >= s.len() {
        None
    } else {
        nth_piece(s, c, e + 1, (k - 1) as nat)
    }
}

/// `s` from index `i` on, with each pair of backslashes replaced by "/",
/// scanning from the left as `str::replace` does.
pub open spec fn unescape_from(s: Seq<char>, i: int) -> Seq<char>
    decreases s.len() - i,
{
    if i < 0 || i >= s.len() {
        Seq::empty()
    } else if i + 1 < s.len() && s[i] == '\\' && s[i + 1] == '\\' {
        seq!['/'] + unescape_from(s, i + 2)
    } else {
        seq![s[i]] + unescape_from(s, i + 1)
    }
}

/// The library folder that a line of `libraryfolders.vdf` names: when the
/// line, after its leading white space, begins with `"path"`, it is the
/// fourth quote-separated piece of the line (empty when there is none) with
/// doubled backslashes turned into slashes; otherwise there is none.
pub open spec fn vdf_library_path(line: Seq<char>) -> Option<Seq<char>> {
    if occurs_at(line, "\"path\""@, skip_white_space(line, 0)) {
        Some(unescape_from(
            match nth_piece(line, '"', 0, 3) {
                Some(p) => p,
                None => Seq::empty(),
            },
            0,
        ))
    } else {
        None
    }
}

proof fn lemma_find_from_bounds(s: Seq<char>, c: char, i: int)
    requires
        0 <= i <= s.len(),
    ensures
        i <= find_from(s, c, i) <= s.len(),
        find_from(s, c, i) < s.len() ==> s[find_from(s, c, i)] == c,
    decreases s.len() - i,
{
    if i < s.len() && s[i] != c {
        lemma_find_from_bounds(s, c, i + 1);
    }
}

/// Index of the first `c` in `cs` at or after `i`.
fn find_char_from(cs: &Vec<char>, c: char, i: usize) -> (e: usize)
    requires
        i <= cs@.len(),
    ensures
        e == find_from(cs@, c, i as int),
{
    let mut j = i;
    while j < cs.len()
        invariant
            i <= j <= cs@.len(),
            find_from(cs@, c, i as int) == find_from(cs@, c, j as int),
        decreases cs.len() - j,
    {
        if cs[j] == c {
            return j;
        }
        j = j + 1;
    }
    j
}

/// `s` with each pair of backslashes replaced by "/", scanning from the
/// left.
pub fn unescape_backslashes(s: &str) -> (r: String)
    ensures
        r@ == unescape_from(s@, 0),
{
    let cs = chars_of(s);
    let n = cs.len();
    let mut out = String::new();
    let mut start: usize = 0;
    let mut i: usize = 0;
    while i < n
        invariant
            n == s@.len(),
            cs@ == s@,
            start <= i <= n,
            unescape_from(s@, 0) == out@ + s@.subrange(start as int, i as int) + unescape_from(s@, i as int),
        decreases n - i,
    {
        if i + 1 < n && cs[i] == '\\' && cs[i + 1] == '\\' {
            let ghost before = out@;
            proof {
                reveal_strlit("/");
            }
            out.append(s.substring_char(start, i));
            out.append("/");
            proof {
                assert(unescape_from(s@, i as int) == seq!['/'] + unescape_from(s@, i + 2));
                assert(out@ =~= before + s@.subrange(start as int, i as int) + seq!['/']);
                assert(s@.subrange(i + 2, i + 2) =~= Seq::<char>::empty());
                assert(unescape_from(s@, 0) =~= out@ + s@.subrange(i + 2, i + 2) + unescape_from(s@, i + 2));
            }
            i = i + 2;
            start = i;
        } else {
            proof {
                assert(unescape_from(s@, i as int) == seq![s@[i as int]] + unescape_from(s@, i + 1));
                assert(s@.subrange(start as int, i + 1) =~= s@.subrange(start as int, i as int) + seq![s@[i as int]]);
                assert(unescape_from(s@, 0) =~= out@ + s@.subrange(start as int, i + 1) + unescape_from(s@, i + 1));
            }
            i = i + 1;
        }
    }
    out.append(s.substring_char(start, n));
    proof {
        assert(unescape_from(s@, n as int) == Seq::<char>::empty());
        assert(out@ =~= unescape_from(s@, 0));
    }
    out
}

/// The library folder named by a line of Steam's `libraryfolders.vdf`
/// (see `vdf_library_path`), such as `"path"  "/mnt/games/SteamLibrary"`.
pub fn library_path_from_vdf_line(line: &str) -> (r: Option<String>)
    ensures
        match r {
            Some(p) => vdf_library_path(line@) == Some(p@),
            None => vdf_library_path(line@) is None,
        },
{
    let cs = chars_of(line);
    let n = cs.len();
    let mut k: usize = 0;
    while k < n && is_white_space_char(cs[k])
        invariant
            cs@ == line@,
            n == cs@.len(),
            k <= n,
            skip_white_space(line@, 0) == skip_white_space(line@, k as int),
        decreases n - k,
    {
        k = k + 1;
    }
    let pat = chars_of("\"path\"");
    assert(skip_white_space(line@, k as int) == k as int);
    if pat.len() > n - k {
        return None;
    }
    let mut j: usize = 0;
    while j < pat.len()
        invariant
            cs@ == line@,
            pat@ == "\"path\""@,
            skip_white_space(line@, 0) == k as int,
            k + pat@.len() <= cs@.len(),
            j <= pat@.len(),
            forall|t: int| 0 <= t < j ==> cs@[k + t] == pat@[t],
        decreases pat.len() - j,
    {
        assert(k + j < cs.len());
        if cs[k + j] != pat[j] {
            proof {
                assert(line@.subrange(k as int, k + pat@.len())[j as int] != pat@[j as int]);
            }
            return None;
        }
        j = j + 1;
    }
    proof {
        assert(line@.subrange(k as int, k + pat@.len()) =~= pat@);
        assert(occurs_at(line@, "\"path\""@, skip_white_space(line@, 0)));
    }
    let mut start: usize = 0;
    let mut piece: usize = 0;
    let mut found = true;
    while piece < 3
        invariant
            cs@ == line@,
            n == cs@.len(),
            start <= n,
            piece <= 3,
            found ==> nth_piece(line@, '"', 0, 3) == nth_piece(line@, '"', start as int, (3 - piece) as nat),
            !found ==> nth_piece(line@, '"', 0, 3) is None,
        decreases 3 - piece,
    {
        if found {
            proof {
                lemma_find_from_bounds(line@, '"', start as int);
            }
            let e = find_char_from(&cs, '"', start);
            if e >= n {
                found = false;
            } else {
                start = e + 1;
            }
        }
        piece = piece + 1;
    }
    let unescaped = if found {
        let e = find_char_from(&cs, '"', start);
        proof {
            lemma_find_from_bounds(line@, '"', start as int);
        }
        unescape_backslashes(line.substring_char(start, e))
    } else {
        unescape_backslashes("")
    };
    proof {
        assert(""@ =~= Seq::<char>::empty()) by {
            reveal_strlit("");
        }
    }
    Some(unescaped)
}


/// `a` is `b` or comes before it when names are compared character by
/// character, by code point (the order of their UTF-8 bytes).
pub open spec fn name_le(a: Seq<char>, b: Seq<char>) -> bool
    decreases a.len(),
{
    if a.len() == 0 {
        true
    } else if b.len() == 0 {
        false
    } else if a[0] != b[0] {
        (a[0] as int) < (b[0] as int)
    } else {
        name_le(a.drop_first(), b.drop_first())
    }
}

proof fn lemma_name_le_total(a: Seq<char>, b: Seq<char>)
    ensures
        name_le(a, b) || name_le(b, a),
    decreases a.len(),
{
    if a.len() > 0 && b.len() > 0 && a[0] == b[0] {
        lemma_name_le_total(a.drop_first(), b.drop_first());
    }
}

proof fn lemma_name_le_transitive(a: Seq<char>, b: Seq<char>, c: Seq<char>)
    requires
        name_le(a, b),
        name_le(b, c),
    ensures
        name_le(a, c),
    decreases a.len(),
{
    if a.len() > 0 && b.len() > 0 && c.len() > 0 && a[0] == b[0] && b[0] == c[0] {
        lemma_name_le_transitive(a.drop_first(), b.drop_first(), c.drop_first());
    }
}

/// Whether `a` is `b` or comes before it (see `name_le`).
fn name_le_exec(a: &str, b: &str) -> (r: bool)
    ensures
        r == name_le(a@, b@),
{
    let x = chars_of(a);
    let y = chars_of(b);
    let mut k: usize = 0;
    assert(x@.subrange(0, x@.len() as int) =~= x@);
    assert(y@.subrange(0, y@.len() as int) =~= y@);
    while k < x.len() && k < y.len() && x[k] == y[k]
        invariant
            x@ == a@,
            y@ == b@,
            k <= x@.len(),
            k <= y@.len(),
            name_le(a@, b@) == name_le(x@.subrange(k as int, x@.len() as int), y@.subrange(k as int, y@.len() as int)),
        decreases x.len() - k,
    {
        proof {
            let xs = x@.subrange(k as int, x@.len() as int);
            let ys = y@.subrange(k as int, y@.len() as int);
            assert(xs.drop_first() =~= x@.subrange(k + 1, x@.len() as int));
            assert(ys.drop_first() =~= y@.subrange(k + 1, y@.len() as int));
        }
        k = k + 1;
    }
    let ghost xs = x@.subrange(k as int, x@.len() as int);
    let ghost ys = y@.subrange(k as int, y@.len() as int);
    if k == x.len() {
        true
    } else if k == y.len() {
        false
    } else {
        assert(xs[0] == x@[k as int] && ys[0] == y@[k as int]);
        x[k] < y[k]
    }
}

/// The names of the Proton installations among directory entries (name,
/// whether it is a directory): the directories whose name begins with
/// "Proton", in listing order.
pub open spec fn proton_candidates(entries: Seq<(Seq<char>, bool)>) -> Seq<Seq<char>>
    decreases entries.len(),
{
    if entries.len() == 0 {
        Seq::empty()
    } else {
        let prev = proton_candidates(entries.drop_last());
        let e = entries.last();
        if e.1 && has_prefix(e.0, "Proton"@) {
            prev.push(e.0)
        } else {
            prev
        }
    }
}

/// Newest first: each name comes after the ones that follow it.
pub open spec fn sorted_newest_first(names: Seq<Seq<char>>) -> bool {
    forall|i: int, j: int| 0 <= i < j < names.len() ==> name_le(names[j], names[i])
}

/// The entries of a listing, as characters.
pub open spec fn entries_view(v: Seq<(String, bool)>) -> Seq<(Seq<char>, bool)> {
    v.map_values(|e: (String, bool)| (e.0@, e.1))
}

/// The Proton installations of a `steamapps/common` listing in the order
/// they are tried: the candidates (see `proton_candidates`) sorted in
/// descending order of name, so that "Proton 9.0" comes before "Proton 8.0".
pub fn proton_search_order(entries: &Vec<(String, bool)>) -> (r: Vec<String>)
    ensures
        sorted_newest_first(strings_view(r@)),
        strings_view(r@).to_multiset() == proton_candidates(entries_view(entries@)).to_multiset(),
{
    let ghost ev = entries_view(entries@);
    let mut r: Vec<String> = Vec::new();
    let mut i: usize = 0;
    proof {
        assert(strings_view(r@) =~= Seq::<Seq<char>>::empty());
        assert(ev.subrange(0, 0) =~= Seq::<(Seq<char>, bool)>::empty());
    }
    while i < entries.len()
        invariant
            ev == entries_view(entries@),
            i <= entries@.len(),
            sorted_newest_first(strings_view(r@)),
            strings_view(r@).to_multiset() == proton_candidates(ev.subrange(0, i as int)).to_multiset(),
        decreases entries.len() - i,
    {
        proof {
            assert(ev.subrange(0, i + 1).drop_last() =~= ev.subrange(0, i as int));
            assert(ev.subrange(0, i + 1).last() == ev[i as int]);
        }
        if entries[i].1 && is_proton_dir_name(entries[i].0.as_str()) {
            let x = entries[i].0.clone();
            let ghost old_r = strings_view(r@);
            let mut p: usize = 0;
            while p < r.len() && !name_le_exec(r[p].as_str(), x.as_str())
                invariant
                    old_r == strings_view(r@),
                    p <= r@.len(),
                    forall|t: int| 0 <= t < p ==> !name_le(#[trigger] old_r[t], x@),
                decreases r.len() - p,
            {
                p = p + 1;
            }
            proof {
                assert forall|t: int| p <= t < old_r.len() implies name_le(#[trigger] old_r[t], x@) by {
                    assert(name_le(old_r[p as int], x@));
                    if t > p {
                        lemma_name_le_transitive(old_r[t], old_r[p as int], x@);
                    }
                }
                assert forall|t: int| 0 <= t < p implies name_le(x@, #[trigger] old_r[t]) by {
                    lemma_name_le_total(x@, old_r[t]);
                }
            }
            r.insert(p, x);
            proof {
                let nr = strings_view(r@);
                assert(nr =~= old_r.insert(p as int, x@));
                vstd::seq_lib::to_multiset_insert(old_r, p as int, x@);
                let prev = proton_candidates(ev.subrange(0, i as int));
                assert(proton_candidates(ev.subrange(0, i + 1)) == prev.push(x@));
                vstd::seq_lib::to_multiset_build(prev, x@);
                assert forall|a: int, b: int| 0 <= a < b < nr.len() implies name_le(nr[b], nr[a]) by {
                    if a < p && b < p {
                        assert(nr[a] == old_r[a] && nr[b] == old_r[b]);
                    } else if a < p && b == p {
                        assert(nr[a] == old_r[a]);
                    } else if a < p {
                        assert(nr[a] == old_r[a] && nr[b] == old_r[b - 1]);
                        lemma_name_le_transitive(old_r[b - 1], x@, old_r[a]);
                    } else if a == p {
                        assert(nr[b] == old_r[b - 1]);
                    } else {
                        assert(nr[a] == old_r[a - 1] && nr[b] == old_r[b - 1]);
                    }
                }
            }
        }
        i = i + 1;
    }
    proof {
        assert(ev.subrange(0, i as int) =~= ev);
    }
    r
}

/// Where Steam installations are looked for, relative to the home
/// directory: the native ones, then Flatpak's and Snap's.
pub open spec fn steam_root_names() -> Seq<Seq<char>> {
    seq![
        ".steam/steam"@,
        ".steam/root"@,
        ".local/share/Steam"@,
        ".var/app/com.valvesoftware.Steam/data/Steam"@,
        "snap/steam/common/.local/share/Steam"@,
    ]
}

/// The Steam installation directories to search (see `steam_root_names`).
pub fn steam_roots() -> (v: Vec<&'static str>)
    ensures
        v@.map_values(|s: &'static str| s@) == steam_root_names(),
{
    let v = vec![
        ".steam/steam",
        ".steam/root",
        ".local/share/Steam",
        ".var/app/com.valvesoftware.Steam/data/Steam",
        "snap/steam/common/.local/share/Steam",
    ];
    assert(v@.map_values(|s: &'static str| s@) =~= steam_root_names());
    v
}

} // verus!
