use vstd::prelude::*;
use vstd::string::*;

verus! {

/// `s` begins with the character `c`.
pub open spec fn starts_with_char(s: Seq<char>, c: char) -> bool {
    s.len() > 0 && s[0] == c
}

/// `s` ends with the character `c`.
pub open spec fn ends_with_char(s: Seq<char>, c: char) -> bool {
    s.len() > 0 && s.last() == c
}

/// `s` with every occurrence of `a` and of `b` taken out.
pub open spec fn without_chars(s: Seq<char>, a: char, b: char) -> Seq<char>
    decreases s.len(),
{
    if s.len() == 0 {
        Seq::empty()
    } else {
        let r = without_chars(s.drop_last(), a, b);
        if s.last() == a || s.last() == b {
            r
        } else {
            r.push(s.last())
        }
    }
}

/// `s` contains the character `c`.
pub open spec fn has_char(s: Seq<char>, c: char) -> bool {
    exists|i: int| 0 <= i < s.len() && s[i] == c
}

/// The pieces of `s` between the occurrences of `c` (what `str::split(c)` yields).
pub open spec fn split_on(s: Seq<char>, c: char) -> Seq<Seq<char>>
    decreases s.len(),
{
    if s.len() == 0 {
        seq![Seq::empty()]
    } else {
        let r = split_on(s.drop_last(), c);
        if s.last() == c {
            r.push(Seq::empty())
        } else {
            r.update(r.len() - 1, r.last().push(s.last()))
        }
    }
}

/// A split yields at least one piece.
pub proof fn lemma_split_nonempty(s: Seq<char>, c: char)
    ensures
        split_on(s, c).len() >= 1,
    decreases s.len(),
{
    if s.len() > 0 {
        lemma_split_nonempty(s.drop_last(), c);
    }
}

/// The strings of `v` that `cols` does not hold, in their order.
pub open spec fn not_among(v: Seq<Seq<char>>, cols: Seq<Seq<char>>) -> Seq<Seq<char>>
    decreases v.len(),
{
    if v.len() == 0 {
        Seq::empty()
    } else {
        let r = not_among(v.drop_last(), cols);
        if cols.contains(v.last()) {
            r
        } else {
            r.push(v.last())
        }
    }
}

/// Each string of `v` cut of its leading and trailing white space.
pub open spec fn trim_all(v: Seq<Seq<char>>) -> Seq<Seq<char>> {
    v.map_values(|p: Seq<char>| trimmed(p))
}

/// The pieces of `s` between the commas, as `str::split(',')` yields them.
pub fn split_char(s: &str, c: char) -> (r: Vec<String>)
    ensures
        views(r@) == split_on(s@, c),
{
    let n = s.unicode_len();
    let mut out: Vec<String> = Vec::new();
    let mut cur = String::new();
    let mut i: usize = 0;
    proof {
        lemma_split_nonempty(s@.subrange(0, 0), c);
        assert(s@.subrange(0, 0) =~= Seq::<char>::empty());
    }
    while i < n
        invariant
            n == s@.len(),
            i <= n,
            views(out@).push(cur@) == split_on(s@.subrange(0, i as int), c),
        decreases n - i,
    {
        let ch = s.get_char(i);
        let ghost pre = s@.subrange(0, i as int);
        assert(s@.subrange(0, i + 1).drop_last() =~= pre);
        assert(s@.subrange(0, i + 1).last() == ch);
        if ch == c {
            let ghost old_out = views(out@);
            out.push(cur);
            cur = String::new();
            assert(views(out@) =~= old_out.push(views(out@).last()));
            assert(views(out@).push(cur@) =~= split_on(s@.subrange(0, i + 1), c));
        } else {
            let one = s.substring_char(i, i + 1);
            assert(one@ =~= seq![ch]);
            let ghost old_cur = cur@;
            cur.append(one);
            assert(cur@ =~= old_cur.push(ch));
            assert(views(out@).push(cur@) =~= views(out@).push(old_cur).update(
                views(out@).len() as int,
                old_cur.push(ch),
            ));
        }
        i = i + 1;
    }
    assert(s@.subrange(0, n as int) =~= s@);
    let ghost before = views(out@);
    out.push(cur);
    assert(views(out@) =~= before.push(views(out@).last()));
    out
}

/// Equality of two string slices, by their characters.
pub fn str_eq(a: &str, b: &str) -> (r: bool)
    ensures
        r == (a@ == b@),
{
    let x = a.to_owned();
    let y = b.to_owned();
    x == y
}

/// Whether `s` is empty.
pub fn str_is_empty(s: &str) -> (r: bool)
    ensures
        r == (s@.len() == 0),
{
    s.unicode_len() == 0
}

/// Whether `s` begins with `c`.
pub fn str_starts_with_char(s: &str, c: char) -> (r: bool)
    ensures
        r == starts_with_char(s@, c),
{
    let n = s.unicode_len();
    if n == 0 {
        false
    } else {
        s.get_char(0) == c
    }
}

/// Whether `s` ends with `c`.
pub fn str_ends_with_char(s: &str, c: char) -> (r: bool)
    ensures
        r == ends_with_char(s@, c),
{
    let n = s.unicode_len();
    if n == 0 {
        false
    } else {
        s.get_char(n - 1) == c
    }
}

/// Whether `s` contains `c`.
pub fn str_has_char(s: &str, c: char) -> (r: bool)
    ensures
        r == has_char(s@, c),
{
    let n = s.unicode_len();
    let mut i: usize = 0;
    while i < n
        invariant
            n == s@.len(),
            i <= n,
            forall|j: int| 0 <= j < i ==> s@[j] != c,
        decreases n - i,
    {
        if s.get_char(i) == c {
            return true;
        }
        i = i + 1;
    }
    false
}

/// `s` with every `a` and every `b` removed (what `str::replace([a, b], "")` gives).
pub fn remove_chars(s: &str, a: char, b: char) -> (r: String)
    ensures
        r@ == without_chars(s@, a, b),
{
    let n = s.unicode_len();
    let mut res = String::new();
    let mut i: usize = 0;
    while i < n
        invariant
            n == s@.len(),
            i <= n,
            res@ == without_chars(s@.subrange(0, i as int), a, b),
        decreases n - i,
    {
        let c = s.get_char(i);
        assert(s@.subrange(0, i + 1).drop_last() =~= s@.subrange(0, i as int));
        if c != a && c != b {
            let one = s.substring_char(i, i + 1);
            assert(one@ =~= seq![c]);
            res.append(one);
        }
        i = i + 1;
    }
    assert(s@.subrange(0, n as int) =~= s@);
    res
}

/// The lower-case form that `str::to_lowercase` gives of `s`.
pub uninterp spec fn lowercase(s: Seq<char>) -> Seq<char>;

/// Every character of `s` is ASCII.
pub open spec fn is_ascii_text(s: Seq<char>) -> bool {
    forall|i: int| 0 <= i < s.len() ==> (s[i] as u32) < 128
}

/// An ASCII upper-case letter turned to lower case; any other character as it is.
pub open spec fn ascii_lower_char(c: char) -> char {
    if 65 <= (c as u32) <= 90 {
        ((c as u32) + 32) as char
    } else {
        c
    }
}

/// `s` with its ASCII upper-case letters turned to lower case.
pub open spec fn ascii_lower(s: Seq<char>) -> Seq<char> {
    s.map_values(|c: char| ascii_lower_char(c))
}

/// The lower-case form of `s`: letter by letter for an ASCII text, as
/// `str::to_lowercase` gives it for any other.
pub open spec fn lower(s: Seq<char>) -> Seq<char> {
    if is_ascii_text(s) {
        ascii_lower(s)
    } else {
        lowercase(s)
    }
}

/// A character of the Unicode `White_Space` property, the white space that
/// `str::trim` cuts off.
pub open spec fn is_white_space(c: char) -> bool {
    let u = c as u32;
    ||| 9 <= u <= 13
    ||| u == 32
    ||| u == 0x85
    ||| u == 0xA0
    ||| u == 0x1680
    ||| 0x2000 <= u <= 0x200A
    ||| u == 0x2028
    ||| u == 0x2029
    ||| u == 0x202F
    ||| u == 0x205F
    ||| u == 0x3000
}

/// `s` with its leading white space cut off.
pub open spec fn trim_start_spec(s: Seq<char>) -> Seq<char>
    decreases s.len(),
{
    if s.len() > 0 && is_white_space(s[0]) {
        trim_start_spec(s.drop_first())
    } else {
        s
    }
}

/// `s` with its trailing white space cut off.
pub open spec fn trim_end_spec(s: Seq<char>) -> Seq<char>
    decreases s.len(),
{
    if s.len() > 0 && is_white_space(s.last()) {
        trim_end_spec(s.drop_last())
    } else {
        s
    }
}

/// `s` with its leading and trailing white space cut off.
pub open spec fn trimmed(s: Seq<char>) -> Seq<char> {
    trim_end_spec(trim_start_spec(s))
}

/// The text that `format!("{:?}", v)` writes for a list of strings.
pub uninterp spec fn debug_list(v: Seq<Seq<char>>) -> Seq<char>;

/// The text that `format!("{:#?}", v)` writes for a list of strings.
pub uninterp spec fn debug_list_pretty(v: Seq<Seq<char>>) -> Seq<char>;

/// The view of an optional string.
pub open spec fn ov(o: Option<String>) -> Option<Seq<char>> {
    match o {
        Some(s) => Some(s@),
        None => None,
    }
}

/// A copy of an optional string.
pub fn copy_opt(o: &Option<String>) -> (r: Option<String>)
    ensures
        ov(r) == ov(*o),
{
    match o {
        Some(s) => Some(s.clone()),
        None => None,
    }
}

/// The views of a list of strings.
pub open spec fn views(v: Seq<String>) -> Seq<Seq<char>> {
    v.map_values(|s: String| s@)
}

/// Calls `str::to_lowercase`. Its result is taken to be a function of the
/// characters of `s` alone, named `lowercase`; of an ASCII text it is claimed
/// that each upper-case letter `A`..`Z` becomes `a`..`z` and every other
/// character stays. For other texts the Unicode mapping is not stated.
#[verifier::external_body]
pub(crate) fn to_lowercase(s: &str) -> (r: String)
    ensures
        r@ == lowercase(s@),
        is_ascii_text(s@) ==> r@ == ascii_lower(s@),
{
    s.to_lowercase()
}

/// Whether `c` is white space; see `is_white_space`.
pub fn char_is_white_space(c: char) -> (r: bool)
    ensures
        r == is_white_space(c),
{
    let u = c as u32;
    (9 <= u && u <= 13) || u == 32 || u == 0x85 || u == 0xA0 || u == 0x1680 || (0x2000 <= u && u <= 0x200A)
        || u == 0x2028 || u == 0x2029 || u == 0x202F || u == 0x205F || u == 0x3000
}

/// `s` with its leading and trailing white space cut off.
pub fn trim(s: &str) -> (r: String)
    ensures
        r@ == trimmed(s@),
{
    let n = s.unicode_len();
    let mut i: usize = 0;
    assert(s@.subrange(0, n as int) =~= s@);
    while i < n
        invariant
            i <= n,
            n == s@.len(),
            trim_start_spec(s@) == trim_start_spec(s@.subrange(i as int, n as int)),
        ensures
            i <= n,
            trim_start_spec(s@) == s@.subrange(i as int, n as int),
        decreases n - i,
    {
        let c = s.get_char(i);
        if !char_is_white_space(c) {
            assert(s@.subrange(i as int, n as int)[0] == c);
            break;
        }
        assert(s@.subrange(i as int, n as int).drop_first() =~= s@.subrange(i + 1, n as int));
        i = i + 1;
    }
    let mut j: usize = n;
    assert(trim_start_spec(s@) == s@.subrange(i as int, n as int));
    assert(trimmed(s@) == trim_end_spec(trim_start_spec(s@)));
    assert(s@.subrange(i as int, n as int) =~= s@.subrange(i as int, j as int));
    while j > i
        invariant
            i <= j <= n,
            n == s@.len(),
            trimmed(s@) == trim_end_spec(s@.subrange(i as int, j as int)),
        ensures
            i <= j <= n,
            trimmed(s@) == s@.subrange(i as int, j as int),
        decreases j - i,
    {
        let c = s.get_char(j - 1);
        if !char_is_white_space(c) {
            assert(s@.subrange(i as int, j as int).last() == c);
            break;
        }
        assert(s@.subrange(i as int, j as int).drop_last() =~= s@.subrange(i as int, j - 1));
        j = j - 1;
    }
    s.substring_char(i, j).to_string()
}

/// Calls std's `Debug` formatting (`{:?}`) on a list of strings. The text is
/// taken to be a function of the strings alone, named `debug_list`.
#[verifier::external_body]
pub(crate) fn format_debug_list(v: &Vec<String>) -> (r: String)
    ensures
        r@ == debug_list(views(v@)),
{
    format!("{:?}", v)
}

/// Calls std's pretty `Debug` formatting (`{:#?}`) on a list of strings. The
/// text is taken to be a function of the strings alone, named `debug_list_pretty`.
#[verifier::external_body]
pub(crate) fn format_debug_list_pretty(v: &Vec<String>) -> (r: String)
    ensures
        r@ == debug_list_pretty(views(v@)),
{
    format!("{:#?}", v)
}

/// A copy of a list of strings.
pub fn copy_strings(v: &Vec<String>) -> (r: Vec<String>)
    ensures
        r@ == v@,
{
    let mut r: Vec<String> = Vec::new();
    let mut i: usize = 0;
    while i < v.len()
        invariant
            i <= v.len(),
            r@ == v@.subrange(0, i as int),
        decreases v.len() - i,
    {
        r.push(v[i].clone());
        assert(r@ =~= v@.subrange(0, i + 1));
        i = i + 1;
    }
    assert(r@ =~= v@);
    r
}

/// Whether `v` holds a string equal to `s`.
pub fn contains_str(v: &Vec<String>, s: &str) -> (r: bool)
    ensures
        r == views(v@).contains(s@),
{
    let mut i: usize = 0;
    while i < v.len()
        invariant
            i <= v.len(),
            forall|j: int| 0 <= j < i ==> v@[j]@ != s@,
        decreases v.len() - i,
    {
        if str_eq(v[i].as_str(), s) {
            assert(views(v@)[i as int] == s@);
            return true;
        }
        i = i + 1;
    }
    assert forall|j: int| 0 <= j < views(v@).len() implies views(v@)[j] != s@ by {
        assert(views(v@)[j] == v@[j]@);
    }
    false
}


/// `s` with every occurrence of `p` replaced by `w`, the occurrences taken from
/// the left and without overlap (what `str::replace` gives for a non-empty `p`).
pub open spec fn replace_all(s: Seq<char>, p: Seq<char>, w: Seq<char>) -> Seq<char>
    decreases s.len(),
{
    if p.len() == 0 || s.len() < p.len() {
        s
    } else if s.subrange(0, p.len() as int) == p {
        w + replace_all(s.subrange(p.len() as int, s.len() as int), p, w)
    } else {
        seq![s[0]] + replace_all(s.subrange(1, s.len() as int), p, w)
    }
}

/// Whether `p` occurs in `s` at position `i`.
fn occurs_at(s: &str, n: usize, i: usize, p: &str, m: usize) -> (r: bool)
    requires
        n == s@.len(),
        m == p@.len(),
        i + m <= n,
    ensures
        r == (s@.subrange(i as int, i + m) == p@),
{
    let mut k: usize = 0;
    while k < m
        invariant
            n == s@.len(),
            m == p@.len(),
            i + m <= n,
            k <= m,
            forall|j: int| 0 <= j < k ==> s@[i + j] == p@[j],
        decreases m - k,
    {
        if s.get_char(i + k) != p.get_char(k) {
            assert(s@.subrange(i as int, i + m)[k as int] != p@[k as int]);
            return false;
        }
        k = k + 1;
    }
    assert(s@.subrange(i as int, i + m) =~= p@);
    true
}

/// `s` with every occurrence of the non-empty `p` replaced by `w`.
pub fn replace_str(s: &str, p: &str, w: &str) -> (r: String)
    requires
        p@.len() > 0,
    ensures
        r@ == replace_all(s@, p@, w@),
{
    let n = s.unicode_len();
    let m = p.unicode_len();
    let mut out = String::new();
    let mut i: usize = 0;
    assert(s@.subrange(0, n as int) =~= s@);
    while i < n
        invariant
            n == s@.len(),
            m == p@.len(),
            m > 0,
            i <= n,
            out@ + replace_all(s@.subrange(i as int, n as int), p@, w@) == replace_all(s@, p@, w@),
        decreases n - i,
    {
        let ghost rest = s@.subrange(i as int, n as int);
        if m <= n - i && occurs_at(s, n, i, p, m) {
            assert(rest.subrange(0, m as int) =~= s@.subrange(i as int, i + m));
            assert(rest.subrange(m as int, rest.len() as int) =~= s@.subrange(i + m, n as int));
            out.append(w);
            assert(out@ + replace_all(s@.subrange(i + m, n as int), p@, w@) =~= replace_all(s@, p@, w@));
            i = i + m;
        } else {
            if m <= n - i {
                assert(rest.subrange(0, m as int) =~= s@.subrange(i as int, i + m));
            }
            assert(rest.subrange(1, rest.len() as int) =~= s@.subrange(i + 1, n as int));
            let ghost before = out@;
            let c = s.substring_char(i, i + 1);
            assert(c@ =~= seq![rest[0]]);
            out.append(c);
            assert(out@ + replace_all(s@.subrange(i + 1, n as int), p@, w@) =~= replace_all(s@, p@, w@)) by {
                if rest.len() < m {
                    assert(replace_all(rest, p@, w@) == rest);
                    assert(replace_all(s@.subrange(i + 1, n as int), p@, w@) == s@.subrange(i + 1, n as int));
                    assert(rest =~= seq![rest[0]] + s@.subrange(i + 1, n as int));
                }
            }
            i = i + 1;
        }
    }
    assert(s@.subrange(n as int, n as int) =~= Seq::<char>::empty());
    assert(out@ + Seq::<char>::empty() =~= out@);
    out
}


/// Every character of `s` is a decimal digit.
pub open spec fn all_digits(s: Seq<char>) -> bool {
    forall|i: int| 0 <= i < s.len() ==> '0' <= #[trigger] s[i] <= '9'
}

/// The number that a string of decimal digits writes.
pub open spec fn digits_value(s: Seq<char>) -> nat
    decreases s.len(),
{
    if s.len() == 0 {
        0
    } else {
        digits_value(s.drop_last()) * 10 + ((s.last() as nat) - ('0' as nat)) as nat
    }
}

/// What `str::parse::<u32>` gives: an optional `+`, then at least one decimal
/// digit, for a value that fits in a `u32`.
pub open spec fn u32_text_value(s: Seq<char>) -> Option<u32> {
    let t = if s.len() > 0 && s[0] == '+' {
        s.drop_first()
    } else {
        s
    };
    if t.len() > 0 && all_digits(t) && digits_value(t) <= u32::MAX {
        Some(digits_value(t) as u32)
    } else {
        None
    }
}

/// A prefix of digits is worth no more than the whole.
proof fn lemma_digits_value_grow(s: Seq<char>, i: int)
    requires
        0 <= i <= s.len(),
        all_digits(s),
    ensures
        digits_value(s.subrange(0, i)) <= digits_value(s),
    decreases s.len() - i,
{
    if i < s.len() {
        lemma_digits_value_grow(s, i + 1);
        assert(s.subrange(0, i + 1).drop_last() =~= s.subrange(0, i));
        assert('0' <= s[i] <= '9');
    } else {
        assert(s.subrange(0, i) =~= s);
    }
}

/// Reads a `u32` as `str::parse::<u32>` does; see `u32_text_value`.
pub fn parse_u32(s: &str) -> (r: Option<u32>)
    ensures
        r == u32_text_value(s@),
{
    let n = s.unicode_len();
    let start: usize = if n > 0 && s.get_char(0) == '+' { 1 } else { 0 };
    let ghost t = if s@.len() > 0 && s@[0] == '+' { s@.drop_first() } else { s@ };
    assert(t =~= s@.subrange(start as int, n as int));
    if start >= n {
        return None;
    }
    let mut acc: u64 = 0;
    let mut i: usize = start;
    assert(t.subrange(0, 0) =~= Seq::<char>::empty());
    while i < n
        invariant
            start <= i <= n,
            n == s@.len(),
            t =~= s@.subrange(start as int, n as int),
            t == (if s@.len() > 0 && s@[0] == '+' { s@.drop_first() } else { s@ }),
            all_digits(t.subrange(0, i - start)),
            acc == digits_value(t.subrange(0, i - start)),
            acc <= u32::MAX,
        decreases n - i,
    {
        let c = s.get_char(i);
        assert(t[i - start] == c);
        if c < '0' || c > '9' {
            assert(!all_digits(t));
            return None;
        }
        let d: u64 = match c {
            '0' => 0, '1' => 1, '2' => 2, '3' => 3, '4' => 4,
            '5' => 5, '6' => 6, '7' => 7, '8' => 8, _ => 9,
        };
        assert(d == (c as nat) - ('0' as nat));
        assert(t.subrange(0, i - start + 1).drop_last() =~= t.subrange(0, i - start));
        let next = acc * 10 + d;
        if next > 0xffff_ffff {
            proof {
                assert(all_digits(t.subrange(0, i - start + 1)));
                if all_digits(t) {
                    lemma_digits_value_grow(t, i - start + 1);
                    assert(t.subrange(0, i - start + 1).subrange(0, i - start + 1) =~= t.subrange(0, i - start + 1));
                }
            }
            return None;
        }
        acc = next;
        i = i + 1;
    }
    assert(t.subrange(0, n - start) =~= t);
    Some(acc as u32)
}

/// The decimal digits of `n`.
pub open spec fn decimal(n: nat) -> Seq<char>
    decreases n,
{
    if n < 10 {
        seq![(('0' as nat) + n) as char]
    } else {
        decimal(n / 10).push((('0' as nat) + n % 10) as char)
    }
}

/// The digit of a number below ten.
fn digit_text(d: u32) -> (r: String)
    requires
        d < 10,
    ensures
        r@ == seq![(('0' as nat) + d) as char],
{
    let digits = "0123456789";
    proof {
        reveal_strlit("0123456789");
    }
    let r = digits.substring_char(d as usize, d as usize + 1).to_string();
    assert(r@ =~= seq![(('0' as nat) + d) as char]);
    r
}

/// The decimal digits of `n`, as `n.to_string()` gives them.
pub fn u32_to_decimal(n: u32) -> (r: String)
    ensures
        r@ == decimal(n as nat),
    decreases n,
{
    if n < 10 {
        digit_text(n)
    } else {
        let mut s = u32_to_decimal(n / 10);
        let d = digit_text(n % 10);
        s.append(d.as_str());
        s
    }
}

} // verus!
