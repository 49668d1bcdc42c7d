//! Verified helpers for building and splitting strings at the character
//! level: decimal rendering of counters and separator-based splitting.

use vstd::prelude::*;

verus! {

/// The decimal digit character for `d` (0 through 9).
pub open spec fn digit_char(d: nat) -> char {
    if d == 0 {
        '0'
    } else if d == 1 {
        '1'
    } else if d == 2 {
        '2'
    } else if d == 3 {
        '3'
    } else if d == 4 {
        '4'
    } else if d == 5 {
        '5'
    } else if d == 6 {
        '6'
    } else if d == 7 {
        '7'
    } else if d == 8 {
        '8'
    } else {
        '9'
    }
}

/// The usual base-ten rendering of `n`, most significant digit first,
/// with no leading zeroes (a single `'0'` for zero).
pub open spec fn spec_decimal(n: nat) -> Seq<char>
    decreases n,
{
    if n < 10 {
        seq![digit_char(n)]
    } else {
        spec_decimal(n / 10) + seq![digit_char(n % 10)]
    }
}

/// Appends the decimal digit `d` to `s`.
fn push_digit(s: &mut String, d: u32)
    requires
        d < 10,
    ensures
        final(s)@ == old(s)@ + seq![digit_char(d as nat)],
{
    proof {
        reveal_strlit("0");
        reveal_strlit("1");
        reveal_strlit("2");
        reveal_strlit("3");
        reveal_strlit("4");
        reveal_strlit("5");
        reveal_strlit("6");
        reveal_strlit("7");
        reveal_strlit("8");
        reveal_strlit("9");
    }
    match d {
        0 => s.append("0"),
        1 => s.append("1"),
        2 => s.append("2"),
        3 => s.append("3"),
        4 => s.append("4"),
        5 => s.append("5"),
        6 => s.append("6"),
        7 => s.append("7"),
        8 => s.append("8"),
        _ => s.append("9"),
    }
}

/// Appends the decimal rendering of `n` to `s`.
fn append_decimal_rec(s: &mut String, n: u32)
    ensures
        final(s)@ == old(s)@ + spec_decimal(n as nat),
    decreases n,
{
    if n >= 10 {
        append_decimal_rec(s, n / 10);
    }
    push_digit(s, n % 10);
}

/// Renders `n` in decimal, most significant digit first.
pub fn decimal_string(n: u32) -> (r: String)
    ensures
        r@ == spec_decimal(n as nat),
{
    let mut s = String::new();
    append_decimal_rec(&mut s, n);
    s
}

/// The index of the first occurrence of `c` in `s`, or `s.len()` if `c`
/// does not occur.
pub open spec fn sep_index(s: Seq<char>, c: char) -> int
    decreases s.len(),
{
    if s.len() == 0 {
        0
    } else if s[0] == c {
        0
    } else {
        1 + sep_index(s.skip(1), c)
    }
}

/// If `c` first occurs in `s` at `k`, then `sep_index(s, c) == k`.
pub proof fn lemma_sep_index_found(s: Seq<char>, c: char, k: int)
    requires
        0 <= k < s.len(),
        s[k] == c,
        forall|j: int| 0 <= j < k ==> s[j] != c,
    ensures
        sep_index(s, c) == k,
    decreases s.len(),
{
    if k > 0 {
        let t = s.skip(1);
        assert(t[k - 1] == c);
        assert(forall|j: int| 0 <= j < k - 1 ==> t[j] == s[j + 1] && t[j] != c);
        lemma_sep_index_found(t, c, k - 1);
    }
}

/// If `c` does not occur in `s`, then `sep_index(s, c) == s.len()`.
pub proof fn lemma_sep_index_absent(s: Seq<char>, c: char)
    requires
        forall|j: int| 0 <= j < s.len() ==> s[j] != c,
    ensures
        sep_index(s, c) == s.len(),
    decreases s.len(),
{
    if s.len() > 0 {
        let t = s.skip(1);
        assert(forall|j: int| 0 <= j < t.len() ==> t[j] == s[j + 1] && t[j] != c);
        lemma_sep_index_absent(t, c);
    }
}

/// The pieces of `s` between occurrences of `sep`, in order, keeping
/// empty pieces.  Splitting the empty sequence yields one empty piece,
/// as `str::split` does.
pub open spec fn spec_split(s: Seq<char>, sep: char) -> Seq<Seq<char>>
    decreases s.len(),
{
    let i = sep_index(s, sep);
    if 0 <= i < s.len() {
        seq![s.take(i)] + spec_split(s.skip(i + 1), sep)
    } else {
        seq![s]
    }
}

/// Splits `s` on `sep`, keeping empty pieces, as `str::split` does.
pub fn char_split(s: &str, sep: char) -> (r: Vec<String>)
    ensures
        r@.map_values(|p: String| p@) == spec_split(s@, sep),
{
    let ghost full = s@;
    let mut pieces: Vec<String> = Vec::new();
    let mut start: usize = 0;
    let mut i: usize = 0;
    let n = s.unicode_len();
    proof {
        assert(full.skip(0) =~= full);
        assert(pieces@.map_values(|p: String| p@) =~= Seq::<Seq<char>>::empty());
        assert(Seq::<Seq<char>>::empty() + spec_split(full, sep) =~= spec_split(full, sep));
    }
    while i < n
        invariant
            s@ == full,
            n == full.len(),
            0 <= start <= i <= n,
            forall|j: int| start <= j < i ==> full[j] != sep,
            spec_split(full, sep) == pieces@.map_values(|p: String| p@) + spec_split(
                full.skip(start as int),
                sep,
            ),
        decreases n - i,
    {
        if s.get_char(i) == sep {
            let piece = s.substring_char(start, i).to_owned();
            proof {
                let rest = full.skip(start as int);
                assert(forall|j: int|
                    0 <= j < rest.len() ==> rest[j] == full[start + j]);
                assert(rest[i - start] == sep);
                lemma_sep_index_found(rest, sep, i - start);
                assert(rest.take(i - start) =~= piece@);
                assert(rest.skip(i - start + 1) =~= full.skip(i + 1));
                assert((pieces@ + seq![piece]).map_values(|p: String| p@) =~= pieces@.map_values(
                    |p: String| p@,
                ) + seq![piece@]);
                assert(pieces@.map_values(|p: String| p@) + spec_split(rest, sep)
                    =~= (pieces@ + seq![piece]).map_values(|p: String| p@) + spec_split(
                    full.skip(i + 1),
                    sep,
                ));
            }
            pieces.push(piece);
            start = i + 1;
        }
        i = i + 1;
    }
    let last = s.substring_char(start, n).to_owned();
    proof {
        let rest = full.skip(start as int);
        assert(forall|j: int| 0 <= j < rest.len() ==> rest[j] == full[start + j]);
        lemma_sep_index_absent(rest, sep);
        assert(rest =~= last@);
        assert(spec_split(rest, sep) == seq![last@]);
        assert((pieces@ + seq![last]).map_values(|p: String| p@) =~= pieces@.map_values(
            |p: String| p@,
        ) + seq![last@]);
    }
    pieces.push(last);
    pieces
}

/// Character-for-character string equality.
pub fn str_eq(a: &str, b: &str) -> (r: bool)
    ensures
        r <==> a@ == b@,
{
    let na = a.unicode_len();
    let nb = b.unicode_len();
    if na != nb {
        return false;
    }
    let mut i: usize = 0;
    while i < na
        invariant
            na == a@.len(),
            nb == b@.len(),
            na == nb,
            0 <= i <= na,
            forall|j: int| 0 <= j < i ==> a@[j] == b@[j],
        decreases na - i,
    {
        if a.get_char(i) != b.get_char(i) {
            return false;
        }
        i = i + 1;
    }
    proof {
        assert(a@ =~= b@);
    }
    true
}

/// Whether `p` is a prefix of `s`.
pub open spec fn spec_starts_with(s: Seq<char>, p: Seq<char>) -> bool {
    s.len() >= p.len() && s.take(p.len() as int) == p
}

/// Character-for-character prefix test.
pub fn str_starts_with(s: &str, p: &str) -> (r: bool)
    ensures
        r <==> spec_starts_with(s@, p@),
{
    let ns = s.unicode_len();
    let np = p.unicode_len();
    if ns < np {
        proof {
            assert(!spec_starts_with(s@, p@));
        }
        return false;
    }
    let mut i: usize = 0;
    while i < np
        invariant
            ns == s@.len(),
            np == p@.len(),
            np <= ns,
            0 <= i <= np,
            forall|j: int| 0 <= j < i ==> s@[j] == p@[j],
        decreases np - i,
    {
        if s.get_char(i) != p.get_char(i) {
            proof {
                assert(s@.take(np as int)[i as int] != p@[i as int]);
            }
            return false;
        }
        i = i + 1;
    }
    proof {
        assert(s@.take(np as int) =~= p@);
    }
    true
}

/// Whether `c` occurs in `s`.
pub open spec fn spec_contains_char(s: Seq<char>, c: char) -> bool {
    exists|i: int| 0 <= i < s.len() && s[i] == c
}

/// Linear scan for one character.
pub fn str_contains_char(s: &str, c: char) -> (r: bool)
    ensures
        r <==> spec_contains_char(s@, c),
{
    let n = s.unicode_len();
    let mut i: usize = 0;
    while i < n
        invariant
            n == s@.len(),
            0 <= i <= n,
            forall|j: int| 0 <= j < i ==> s@[j] != c,
        decreases n - i,
    {
        if s.get_char(i) == c {
            return true;
        }
        i = i + 1;
    }
    false
}

/// Whether `pat` occurs in `s` starting at position `i`.
pub open spec fn spec_match_at(s: Seq<char>, pat: Seq<char>, i: int) -> bool {
    i + pat.len() <= s.len() && s.subrange(i, i + pat.len() as int) == pat
}

/// Character-for-character match of `pat` against `s` at position `i`.
fn match_at(s: &str, pat: &str, i: usize) -> (r: bool)
    requires
        i <= s@.len(),
    ensures
        r <==> spec_match_at(s@, pat@, i as int),
{
    let ns = s.unicode_len();
    let np = pat.unicode_len();
    if np > ns - i {
        return false;
    }
    let mut k: usize = 0;
    while k < np
        invariant
            ns == s@.len(),
            np == pat@.len(),
            i + np <= ns,
            0 <= k <= np,
            forall|j: int| 0 <= j < k ==> s@[i + j] == pat@[j],
        decreases np - k,
    {
        if s.get_char(i + k) != pat.get_char(k) {
            proof {
                assert(s@.subrange(i as int, i + np as int)[k as int] != pat@[k as int]);
            }
            return false;
        }
        k = k + 1;
    }
    proof {
        assert(s@.subrange(i as int, i + np as int) =~= pat@);
    }
    true
}

/// `s` with every occurrence of `pat` replaced by `to`, scanning left to
/// right without overlap, as `str::replace` does for a non-empty pattern.
pub open spec fn spec_replace(s: Seq<char>, pat: Seq<char>, to: Seq<char>) -> Seq<char>
    decreases s.len(),
{
    if pat.len() == 0 || s.len() < pat.len() {
        s
    } else if s.take(pat.len() as int) == pat {
        to + spec_replace(s.skip(pat.len() as int), pat, to)
    } else {
        seq![s[0]] + spec_replace(s.skip(1), pat, to)
    }
}

/// Replaces every occurrence of `pat` in `s` by `to`, left to right,
/// without overlap.
pub fn replace_all(s: &str, pat: &str, to: &str) -> (r: String)
    requires
        pat@.len() > 0,
    ensures
        r@ == spec_replace(s@, pat@, to@),
{
    let ghost full = s@;
    let mut out = String::new();
    let n = s.unicode_len();
    let np = pat.unicode_len();
    let mut i: usize = 0;
    proof {
        assert(full.skip(0) =~= full);
        assert(out@ + spec_replace(full, pat@, to@) =~= spec_replace(full, pat@, to@));
    }
    while i < n
        invariant
            full == s@,
            n == full.len(),
            np == pat@.len(),
            np > 0,
            0 <= i <= n,
            spec_replace(full, pat@, to@) == out@ + spec_replace(full.skip(i as int), pat@, to@),
        decreases n - i,
    {
        let ghost rest = full.skip(i as int);
        if match_at(s, pat, i) {
            proof {
                assert(rest.take(np as int) =~= full.subrange(i as int, i + np as int));
                assert(rest.skip(np as int) =~= full.skip(i + np as int));
            }
            out.append(to);
            i = i + np;
        } else {
            proof {
                assert(!(rest.len() < np) ==> rest.take(np as int) =~= full.subrange(
                    i as int,
                    i + np as int,
                ));
                assert(rest[0] == full[i as int]);
                assert(rest.skip(1) =~= full.skip(i + 1));
            }
            let piece = s.substring_char(i, i + 1);
            out.append(piece);
            proof {
                assert(piece@ =~= seq![full[i as int]]);
            }
            i = i + 1;
        }
    }
    proof {
        assert(full.skip(n as int) =~= Seq::<char>::empty());
        assert(spec_replace(Seq::<char>::empty(), pat@, to@) =~= Seq::<char>::empty());
        assert(out@ + Seq::<char>::empty() =~= out@);
    }
    out
}

} // verus!
