//! Verified helpers over strings, viewed as sequences of characters.
use vstd::prelude::*;

verus! {

/// `p` is a prefix of `s`.
pub open spec fn starts_with_spec(s: Seq<char>, p: Seq<char>) -> bool {
    p.len() <= s.len() && s.take(p.len() as int) == p
}

/// `p` is a suffix of `s`.
pub open spec fn ends_with_spec(s: Seq<char>, p: Seq<char>) -> bool {
    p.len() <= s.len() && s.skip(s.len() - p.len()) == p
}

pub fn str_starts_with(s: &str, p: &str) -> (r: bool)
    ensures
        r == starts_with_spec(s@, p@),
{
    let sl = s.unicode_len();
    let pl = p.unicode_len();
    if pl > sl {
        return false;
    }
    let mut i: usize = 0;
    while i < pl
        invariant
            i <= pl,
            pl <= sl,
            pl == p@.len(),
            sl == s@.len(),
            forall|j: int| 0 <= j < i ==> s@[j] == p@[j],
        decreases pl - i,
    {
        if s.get_char(i) != p.get_char(i) {
            assert(s@.take(pl as int)[i as int] != p@[i as int]);
            return false;
        }
        i += 1;
    }
    proof {
        assert(s@.take(pl as int) =~= p@);
    }
    true
}

pub fn str_ends_with(s: &str, p: &str) -> (r: bool)
    ensures
        r == ends_with_spec(s@, p@),
{
    let sl = s.unicode_len();
    let pl = p.unicode_len();
    if pl > sl {
        return false;
    }
    let off = sl - pl;
    let mut i: usize = 0;
    while i < pl
        invariant
            i <= pl,
            off == sl - pl,
            pl <= sl,
            pl == p@.len(),
            sl == s@.len(),
            forall|j: int| 0 <= j < i ==> s@[off + j] == p@[j],
        decreases pl - i,
    {
        if s.get_char(off + i) != p.get_char(i) {
            assert(s@.skip(off as int)[i as int] != p@[i as int]);
            return false;
        }
        i += 1;
    }
    proof {
        assert(s@.skip(off as int) =~= p@);
    }
    true
}

/// `s` with a leading `p` removed, when present.
pub open spec fn strip_prefix_spec(s: Seq<char>, p: Seq<char>) -> Seq<char> {
    if starts_with_spec(s, p) {
        s.skip(p.len() as int)
    } else {
        s
    }
}

/// `s` with a trailing `p` removed, when present.
pub open spec fn strip_suffix_spec(s: Seq<char>, p: Seq<char>) -> Seq<char> {
    if ends_with_spec(s, p) {
        s.take(s.len() - p.len())
    } else {
        s
    }
}

pub fn str_strip_prefix(s: &str, p: &str) -> (r: String)
    ensures
        r@ == strip_prefix_spec(s@, p@),
{
    if str_starts_with(s, p) {
        let sub = s.substring_char(p.unicode_len(), s.unicode_len());
        proof {
            assert(sub@ =~= s@.skip(p@.len() as int));
        }
        sub.to_owned()
    } else {
        s.to_owned()
    }
}

pub fn str_strip_suffix(s: &str, p: &str) -> (r: String)
    ensures
        r@ == strip_suffix_spec(s@, p@),
{
    if str_ends_with(s, p) {
        let sub = s.substring_char(0, s.unicode_len() - p.unicode_len());
        proof {
            assert(sub@ =~= s@.take(s@.len() - p@.len()));
        }
        sub.to_owned()
    } else {
        s.to_owned()
    }
}

/// The character `c`, lowercased when it is an ASCII capital letter.
pub open spec fn to_lower_spec(c: char) -> char {
    if 'A' <= c <= 'Z' {
        ((c as u8) + 0x20) as char
    } else {
        c
    }
}

/// Equality of two character sequences up to ASCII case.
pub open spec fn eq_ignore_case_spec(a: Seq<char>, b: Seq<char>) -> bool {
    a.map_values(|c: char| to_lower_spec(c)) == b.map_values(|c: char| to_lower_spec(c))
}

fn char_to_lower(c: char) -> (r: char)
    ensures
        r == to_lower_spec(c),
{
    if 'A' <= c && c <= 'Z' {
        (((c as u8) + 0x20) as char)
    } else {
        c
    }
}

pub fn str_eq_ignore_case(a: &str, b: &str) -> (r: bool)
    ensures
        r == eq_ignore_case_spec(a@, b@),
{
    let al = a.unicode_len();
    let bl = b.unicode_len();
    let ghost la = a@.map_values(|c: char| to_lower_spec(c));
    let ghost lb = b@.map_values(|c: char| to_lower_spec(c));
    if al != bl {
        proof {
            assert(la.len() != lb.len());
        }
        return false;
    }
    let mut i: usize = 0;
    while i < al
        invariant
            i <= al,
            al == a@.len(),
            al == b@.len(),
            la == a@.map_values(|c: char| to_lower_spec(c)),
            lb == b@.map_values(|c: char| to_lower_spec(c)),
            forall|j: int| 0 <= j < i ==> la[j] == lb[j],
        decreases al - i,
    {
        if char_to_lower(a.get_char(i)) != char_to_lower(b.get_char(i)) {
            assert(la[i as int] != lb[i as int]);
            return false;
        }
        i += 1;
    }
    proof {
        assert(la =~= lb);
    }
    true
}

/// ASCII whitespace, the separator convention of checksum sidecar files.
pub open spec fn is_ascii_ws(c: char) -> bool {
    c == ' ' || c == '\t' || c == '\n' || c == '\r' || c == '\x0c'
}

fn char_is_ws(c: char) -> (r: bool)
    ensures
        r == is_ascii_ws(c),
{
    c == ' ' || c == '\t' || c == '\n' || c == '\r' || c == '\x0c'
}

/// Index of the first character at or after `i` satisfying `ws == true`
/// (whitespace) or `ws == false` (non-whitespace); `s.len()` when none.
pub open spec fn scan_ws(s: Seq<char>, i: int, ws: bool) -> int
    decreases s.len() - i,
{
    if i < 0 || i >= s.len() {
        s.len() as int
    } else if is_ascii_ws(s[i]) == ws {
        i
    } else {
        scan_ws(s, i + 1, ws)
    }
}

proof fn lemma_scan_ws_props(s: Seq<char>, i: int, w: bool)
    requires
        0 <= i <= s.len(),
    ensures
        i <= scan_ws(s, i, w) <= s.len(),
        scan_ws(s, i, w) < s.len() ==> is_ascii_ws(s[scan_ws(s, i, w)]) == w,
        forall|j: int| i <= j < scan_ws(s, i, w) ==> is_ascii_ws(s[j]) != w,
    decreases s.len() - i,
{
    if i < s.len() && is_ascii_ws(s[i]) != w {
        lemma_scan_ws_props(s, i + 1, w);
    }
}

/// The first whitespace-delimited token of `s`: what remains after skipping
/// leading ASCII whitespace and cutting at the next whitespace character.
pub open spec fn first_token_spec(s: Seq<char>) -> Seq<char> {
    let start = scan_ws(s, 0, false);
    let end = scan_ws(s, start, true);
    s.subrange(start, end)
}

/// Extracts the first whitespace-delimited token of `s`; empty when `s` holds
/// only whitespace.
pub fn first_token(s: &str) -> (r: String)
    ensures
        r@ == first_token_spec(s@),
{
    let len = s.unicode_len();
    let mut start: usize = 0;
    while start < len && char_is_ws(s.get_char(start))
        invariant
            start <= len,
            len == s@.len(),
            scan_ws(s@, 0, false) == scan_ws(s@, start as int, false),
        decreases len - start,
    {
        start += 1;
    }
    proof {
        assert(scan_ws(s@, start as int, false) == start as int);
    }
    let mut end: usize = start;
    while end < len && !char_is_ws(s.get_char(end))
        invariant
            start <= end <= len,
            len == s@.len(),
            scan_ws(s@, start as int, true) == scan_ws(s@, end as int, true),
        decreases len - end,
    {
        end += 1;
    }
    proof {
        assert(scan_ws(s@, end as int, true) == end as int);
    }
    let sub = s.substring_char(start, end);
    proof {
        assert(sub@ =~= first_token_spec(s@));
    }
    sub.to_owned()
}

/// The segments of `s[i..]` between occurrences of `sep`; always at least
/// one segment, and one more segment per separator.
pub open spec fn split_from(s: Seq<char>, sep: char, i: int) -> Seq<Seq<char>>
    decreases s.len() - i,
{
    if i < 0 || i >= s.len() {
        seq![Seq::<char>::empty()]
    } else if s[i] == sep {
        seq![Seq::<char>::empty()] + split_from(s, sep, i + 1)
    } else {
        let rest = split_from(s, sep, i + 1);
        seq![seq![s[i]] + rest[0]] + rest.skip(1)
    }
}

/// The segments of `s` between occurrences of `sep`.
pub open spec fn split_spec(s: Seq<char>, sep: char) -> Seq<Seq<char>> {
    split_from(s, sep, 0)
}

pub proof fn lemma_split_from_len(s: Seq<char>, sep: char, i: int)
    ensures
        split_from(s, sep, i).len() >= 1,
    decreases s.len() - i,
{
    if 0 <= i < s.len() {
        lemma_split_from_len(s, sep, i + 1);
    }
}

/// Splits `s` at every occurrence of `sep`.
pub fn split_str(s: &str, sep: char) -> (r: Vec<String>)
    ensures
        r@.map_values(|t: String| t@) == split_spec(s@, sep),
        r@.len() >= 1,
{
    let len = s.unicode_len();
    let mut done: Vec<String> = Vec::new();
    let mut cur = String::new();
    let mut i: usize = 0;
    while i < len
        invariant
            i <= len,
            len == s@.len(),
            split_spec(s@, sep) == done@.map_values(|t: String| t@) + seq![
                cur@ + split_from(s@, sep, i as int)[0],
            ] + split_from(s@, sep, i as int).skip(1),
        decreases len - i,
    {
        let ghost pre_done = done@;
        let ghost pre_cur = cur@;
        proof {
            lemma_split_from_len(s@, sep, i + 1);
        }
        let c = s.get_char(i);
        if c == sep {
            done.push(cur);
            cur = String::new();
            proof {
                assert(split_from(s@, sep, i as int) == seq![Seq::<char>::empty()] + split_from(
                    s@,
                    sep,
                    i + 1,
                ));
                assert(split_from(s@, sep, i as int)[0] =~= Seq::<char>::empty());
                assert(pre_cur + split_from(s@, sep, i as int)[0] =~= pre_cur);
                assert(split_from(s@, sep, i as int).skip(1) =~= split_from(s@, sep, i + 1));
                assert(done@.map_values(|t: String| t@) =~= pre_done.map_values(|t: String| t@)
                    + seq![pre_cur]);
                assert(done@.map_values(|t: String| t@) + seq![
                    cur@ + split_from(s@, sep, i + 1)[0],
                ] + split_from(s@, sep, i + 1).skip(1) =~= split_spec(s@, sep));
            }
        } else {
            let one = s.substring_char(i, i + 1);
            cur.append(one);
            proof {
                let rest = split_from(s@, sep, i + 1);
                assert(split_from(s@, sep, i as int) == seq![seq![s@[i as int]] + rest[0]]
                    + rest.skip(1));
                assert(one@ =~= seq![s@[i as int]]);
                assert(cur@ + rest[0] =~= pre_cur + split_from(s@, sep, i as int)[0]);
                assert(done@.map_values(|t: String| t@) + seq![cur@ + rest[0]] + rest.skip(1) =~=
                    split_spec(s@, sep));
            }
        }
        i += 1;
    }
    proof {
        assert(split_from(s@, sep, i as int) == seq![Seq::<char>::empty()]);
        assert(split_from(s@, sep, i as int).skip(1) =~= Seq::<Seq<char>>::empty());
    }
    let ghost pre_done = done@;
    let ghost pre_cur = cur@;
    done.push(cur);
    proof {
        assert(done@.map_values(|t: String| t@) =~= pre_done.map_values(|t: String| t@) + seq![
            pre_cur,
        ]);
        assert(pre_cur + split_from(s@, sep, len as int)[0] =~= pre_cur);
        assert(done@.map_values(|t: String| t@) =~= split_spec(s@, sep));
    }
    done
}

/// Whether two string slices hold the same characters.
pub fn str_eq(a: &str, b: &str) -> (r: bool)
    ensures
        r == (a@ == b@),
{
    let al = a.unicode_len();
    let bl = b.unicode_len();
    if al != bl {
        return false;
    }
    let mut i: usize = 0;
    while i < al
        invariant
            i <= al,
            al == a@.len(),
            al == b@.len(),
            forall|j: int| 0 <= j < i ==> a@[j] == b@[j],
        decreases al - i,
    {
        if a.get_char(i) != b.get_char(i) {
            return false;
        }
        i += 1;
    }
    proof {
        assert(a@ =~= b@);
    }
    true
}

/// Index of the first occurrence of `c` in `s` at or after `i`; `s.len()`
/// when there is none.
pub open spec fn find_char_from(s: Seq<char>, c: char, i: int) -> int
    decreases s.len() - i,
{
    if i < 0 || i >= s.len() {
        s.len() as int
    } else if s[i] == c {
        i
    } else {
        find_char_from(s, c, i + 1)
    }
}

/// Finds the first occurrence of `c` in `s`, or `s` length when absent.
pub fn find_char(s: &str, c: char) -> (r: usize)
    ensures
        r == find_char_from(s@, c, 0),
        r <= s@.len(),
{
    let len = s.unicode_len();
    let mut i: usize = 0;
    while i < len && s.get_char(i) != c
        invariant
            i <= len,
            len == s@.len(),
            find_char_from(s@, c, 0) == find_char_from(s@, c, i as int),
        decreases len - i,
    {
        i += 1;
    }
    proof {
        assert(find_char_from(s@, c, i as int) == i);
    }
    i
}

pub proof fn lemma_find_char_props(s: Seq<char>, c: char, i: int)
    requires
        0 <= i <= s.len(),
    ensures
        i <= find_char_from(s, c, i) <= s.len(),
        find_char_from(s, c, i) < s.len() ==> s[find_char_from(s, c, i)] == c,
    decreases s.len() - i,
{
    if i < s.len() && s[i] != c {
        lemma_find_char_props(s, c, i + 1);
    }
}

/// A lone remaining segment is the whole remainder: it holds no separator.
proof fn lemma_split_single_is_remainder(s: Seq<char>, sep: char, i: int)
    requires
        0 <= i <= s.len(),
        split_from(s, sep, i).len() == 1,
    ensures
        split_from(s, sep, i)[0] == s.skip(i),
    decreases s.len() - i,
{
    if i >= s.len() {
        assert(Seq::<char>::empty() =~= s.skip(i));
    } else if s[i] == sep {
        lemma_split_from_len(s, sep, i + 1);
    } else {
        let rest = split_from(s, sep, i + 1);
        lemma_split_from_len(s, sep, i + 1);
        assert(rest.len() == 1);
        lemma_split_single_is_remainder(s, sep, i + 1);
        assert(split_from(s, sep, i)[0] =~= seq![s[i]] + s.skip(i + 1));
        assert(seq![s[i]] + s.skip(i + 1) =~= s.skip(i));
    }
}

/// The last segment of a split is a suffix of the string.
pub proof fn lemma_split_last_is_suffix(s: Seq<char>, sep: char, i: int)
    requires
        0 <= i <= s.len(),
    ensures
        ends_with_spec(s, split_from(s, sep, i).last()),
    decreases s.len() - i,
{
    lemma_split_from_len(s, sep, i);
    if i >= s.len() {
        assert(split_from(s, sep, i).last() =~= s.skip(s.len() as int));
    } else if s[i] == sep {
        lemma_split_from_len(s, sep, i + 1);
        lemma_split_last_is_suffix(s, sep, i + 1);
        assert(split_from(s, sep, i).last() == split_from(s, sep, i + 1).last());
    } else {
        let rest = split_from(s, sep, i + 1);
        lemma_split_from_len(s, sep, i + 1);
        if rest.len() >= 2 {
            lemma_split_last_is_suffix(s, sep, i + 1);
            assert(split_from(s, sep, i).last() == rest.skip(1).last());
            assert(rest.skip(1).last() == rest.last());
        } else {
            lemma_split_single_is_remainder(s, sep, i + 1);
            assert(split_from(s, sep, i).last() =~= seq![s[i]] + rest[0]);
            assert(seq![s[i]] + s.skip(i + 1) =~= s.skip(i));
            assert(s.skip(s.len() - s.skip(i).len()) =~= s.skip(i));
        }
    }
}

/// A suffix of a suffix is a suffix.
pub proof fn lemma_suffix_transitive(s: Seq<char>, t: Seq<char>, u: Seq<char>)
    requires
        ends_with_spec(s, t),
        ends_with_spec(t, u),
    ensures
        ends_with_spec(s, u),
{
    assert forall|j: int| 0 <= j < u.len() implies s.skip(s.len() - u.len())[j] == u[j] by {
        assert(u[j] == t.skip(t.len() - u.len())[j]);
        assert(t[t.len() - u.len() + j] == s.skip(s.len() - t.len())[t.len() - u.len() + j]);
    }
    assert(s.skip(s.len() - u.len()) =~= u);
}

/// One decimal digit.
pub open spec fn dec_digit(n: int) -> char {
    if n == 0 {
        '0'
    } else if n == 1 {
        '1'
    } else if n == 2 {
        '2'
    } else if n == 3 {
        '3'
    } else if n == 4 {
        '4'
    } else if n == 5 {
        '5'
    } else if n == 6 {
        '6'
    } else if n == 7 {
        '7'
    } else if n == 8 {
        '8'
    } else {
        '9'
    }
}

/// The usual decimal rendering of `n`, without leading zeros.
pub open spec fn dec_str_of(n: nat) -> Seq<char>
    decreases n,
{
    if n < 10 {
        seq![dec_digit(n as int)]
    } else {
        dec_str_of(n / 10) + seq![dec_digit(n as int % 10)]
    }
}

fn dec_digit_str(d: u64) -> (r: &'static str)
    requires
        d < 10,
    ensures
        r@ == seq![dec_digit(d as int)],
{
    proof {
        reveal_strlit("0");
        reveal_strlit("1");
        reveal_strlit("2");
        reveal_strlit("3");
        reveal_strlit("4");
        reveal_strlit("5");
        reveal_strlit("6");
        reveal_strlit("7");
        reveal_strlit("8");
        reveal_strlit("9");
    }
    let r: &'static str = if d == 0 {
        "0"
    } else if d == 1 {
        "1"
    } else if d == 2 {
        "2"
    } else if d == 3 {
        "3"
    } else if d == 4 {
        "4"
    } else if d == 5 {
        "5"
    } else if d == 6 {
        "6"
    } else if d == 7 {
        "7"
    } else if d == 8 {
        "8"
    } else {
        "9"
    };
    proof {
        assert(r@ =~= seq![dec_digit(d as int)]);
    }
    r
}

/// Renders `n` in decimal.
pub fn u64_to_dec(n: u64) -> (r: String)
    ensures
        r@ == dec_str_of(n as nat),
    decreases n,
{
    if n < 10 {
        dec_digit_str(n).to_owned()
    } else {
        let mut s = u64_to_dec(n / 10);
        s.append(dec_digit_str(n % 10));
        proof {
            assert(s@ =~= dec_str_of(n as nat));
        }
        s
    }
}

/// `s` with leading and trailing ASCII whitespace removed.
pub open spec fn trim_spec(s: Seq<char>) -> Seq<char> {
    let start = scan_ws(s, 0, false);
    if start == s.len() {
        Seq::empty()
    } else {
        let end = last_non_ws(s) + 1;
        s.subrange(start, end)
    }
}

/// Index of the last non-whitespace character of `s`; requires one to exist.
pub open spec fn last_non_ws(s: Seq<char>) -> int
    decreases s.len(),
{
    if s.len() == 0 {
        -1
    } else if !is_ascii_ws(s[s.len() - 1]) {
        s.len() - 1
    } else {
        last_non_ws(s.take(s.len() - 1))
    }
}

proof fn lemma_last_non_ws_range(s: Seq<char>)
    ensures
        -1 <= last_non_ws(s) < s.len(),
        forall|j: int| last_non_ws(s) < j < s.len() ==> is_ascii_ws(s[j]),
        last_non_ws(s) >= 0 ==> !is_ascii_ws(s[last_non_ws(s)]),
    decreases s.len(),
{
    if s.len() == 0 {
    } else if !is_ascii_ws(s[s.len() - 1]) {
    } else {
        lemma_last_non_ws_range(s.take(s.len() - 1));
        assert forall|j: int| last_non_ws(s) < j < s.len() implies is_ascii_ws(s[j]) by {
            if j < s.len() - 1 {
                assert(s.take(s.len() - 1)[j] == s[j]);
            }
        }
        if last_non_ws(s) >= 0 {
            assert(s.take(s.len() - 1)[last_non_ws(s)] == s[last_non_ws(s)]);
        }
    }
}

/// Removes leading and trailing ASCII whitespace, the normalization applied
/// to the stored active-version file.
pub fn trim_ascii(s: &str) -> (r: String)
    ensures
        r@ == trim_spec(s@),
{
    let len = s.unicode_len();
    let mut start: usize = 0;
    while start < len && char_is_ws(s.get_char(start))
        invariant
            start <= len,
            len == s@.len(),
            scan_ws(s@, 0, false) == scan_ws(s@, start as int, false),
        decreases len - start,
    {
        start += 1;
    }
    proof {
        assert(scan_ws(s@, start as int, false) == start as int);
    }
    if start == len {
        return String::new();
    }
    let mut end: usize = len;
    while end > start && char_is_ws(s.get_char(end - 1))
        invariant
            start <= end <= len,
            len == s@.len(),
            start < len,
            scan_ws(s@, 0, false) == start as int,
            forall|j: int| end <= j < len ==> is_ascii_ws(s@[j]),
        decreases end,
    {
        end -= 1;
    }
    proof {
        lemma_last_non_ws_range(s@);
        lemma_scan_ws_props(s@, 0, false);
        // The character at `start` is not whitespace, so the second loop
        // stopped at some end > start whose predecessor is not whitespace:
        // that predecessor is the last non-whitespace index.
        assert(!is_ascii_ws(s@[start as int]));
        assert(end > start);
        assert(!is_ascii_ws(s@[end - 1]));
        assert(last_non_ws(s@) == end - 1) by {
            if last_non_ws(s@) < end - 1 {
                assert(is_ascii_ws(s@[end - 1]));
            }
            if last_non_ws(s@) > end - 1 {
                assert(is_ascii_ws(s@[last_non_ws(s@)]));
            }
        }
    }
    let sub = s.substring_char(start, end);
    proof {
        assert(sub@ =~= trim_spec(s@));
    }
    sub.to_owned()
}

} // verus!
