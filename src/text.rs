use vstd::prelude::*;

verus! {

/// Whether `c` carries Unicode's `White_Space` property.
pub uninterp spec fn is_space(c: char) -> bool;

/// The lower-case form of `s`, character mapping as Unicode defines it.
pub uninterp spec fn lower_of(s: Seq<char>) -> Seq<char>;

/// Relies on `char::is_whitespace`: the answer depends on the character alone.
#[verifier::external_body]
fn char_is_space(c: char) -> (r: bool)
    ensures
        r == is_space(c),
{
    c.is_whitespace()
}

/// Relies on `str::to_lowercase`: the result depends on the characters alone.
#[verifier::external_body]
fn lowercase(s: &str) -> (r: String)
    ensures
        r@ == lower_of(s@),
{
    s.to_lowercase()
}

/// Relies on `str::chars`: the characters of `s`, in order.
#[verifier::external_body]
fn chars_of(s: &str) -> (r: Vec<char>)
    ensures
        r@ == s@,
{
    s.chars().collect()
}

/// Relies on `String`'s `FromIterator<&char>`: the string made of these characters.
#[verifier::external_body]
fn string_of(v: &Vec<char>) -> (r: String)
    ensures
        r@ == v@,
{
    v.iter().collect()
}

/// The characters of each string.
pub open spec fn texts(v: Seq<String>) -> Seq<Seq<char>> {
    v.map_values(|s: String| s@)
}

/// `s` without its leading white space.
pub open spec fn trim_start(s: Seq<char>) -> Seq<char>
    decreases s.len(),
{
    if s.len() > 0 && is_space(s[0]) {
        trim_start(s.drop_first())
    } else {
        s
    }
}

/// `s` without its trailing white space.
pub open spec fn trim_end(s: Seq<char>) -> Seq<char>
    decreases s.len(),
{
    if s.len() > 0 && is_space(s.last()) {
        trim_end(s.drop_last())
    } else {
        s
    }
}

/// `s` without white space at either end.
pub open spec fn trimmed(s: Seq<char>) -> Seq<char> {
    trim_end(trim_start(s))
}

/// `p` occurs in `s` starting at position `i`.
pub open spec fn occurs_at(s: Seq<char>, p: Seq<char>, i: int) -> bool {
    0 <= i && i + p.len() <= s.len() && s.subrange(i, i + p.len()) == p
}

/// `p` occurs somewhere in `s`.
pub open spec fn contains_text(s: Seq<char>, p: Seq<char>) -> bool {
    exists|i: int| occurs_at(s, p, i)
}

/// The pieces of `s` from `start` on, cut at the leftmost non-overlapping
/// occurrences of `d` found from position `i` on.
pub open spec fn pieces_from(s: Seq<char>, d: Seq<char>, start: int, i: int) -> Seq<Seq<char>>
    decreases s.len() - i,
{
    if d.len() == 0 || i + d.len() > s.len() {
        seq![s.subrange(start, s.len() as int)]
    } else if occurs_at(s, d, i) {
        seq![s.subrange(start, i)] + pieces_from(s, d, i + d.len(), i + d.len())
    } else {
        pieces_from(s, d, start, i + 1)
    }
}

/// `s` cut at each leftmost non-overlapping occurrence of the delimiter `d`.
pub open spec fn split_on(s: Seq<char>, d: Seq<char>) -> Seq<Seq<char>> {
    pieces_from(s, d, 0, 0)
}

/// The pieces joined, with `sep` between each two of them.
pub open spec fn joined(parts: Seq<Seq<char>>, sep: Seq<char>) -> Seq<char>
    decreases parts.len(),
{
    if parts.len() == 0 {
        Seq::empty()
    } else if parts.len() == 1 {
        parts[0]
    } else {
        joined(parts.drop_last(), sep) + sep + parts.last()
    }
}

/// `s` with each leftmost non-overlapping occurrence of `from` replaced by `to`.
pub open spec fn replaced(s: Seq<char>, from: Seq<char>, to: Seq<char>) -> Seq<char> {
    joined(split_on(s, from), to)
}

pub open spec fn is_digit(c: char) -> bool {
    '0' <= c && c <= '9'
}

pub open spec fn digit_value(c: char) -> int {
    (c as u32) as int - ('0' as u32) as int
}

/// The base-10 value of a string of digits.
pub open spec fn digits_value(s: Seq<char>) -> int
    decreases s.len(),
{
    if s.len() == 0 {
        0
    } else {
        10 * digits_value(s.drop_last()) + digit_value(s.last())
    }
}

/// `s` without one leading `+` sign.
pub open spec fn unsigned_part(s: Seq<char>) -> Seq<char> {
    if s.len() > 0 && s[0] == '+' {
        s.drop_first()
    } else {
        s
    }
}

/// The whole of `s` read as an unsigned 32-bit decimal (an optional `+`, then
/// one digit or more), or `None` where it is not one or does not fit.
pub open spec fn parsed_count(s: Seq<char>) -> Option<u32> {
    let t = unsigned_part(s);
    if t.len() > 0 && (forall|k: int| 0 <= k < t.len() ==> is_digit(#[trigger] t[k]))
        && digits_value(t) <= u32::MAX {
        Some(digits_value(t) as u32)
    } else {
        None
    }
}

/// `parsed_count`, with zero for text that is not a count.
pub open spec fn count_or_zero(s: Seq<char>) -> u32 {
    match parsed_count(s) {
        Some(v) => v,
        None => 0,
    }
}

proof fn lemma_digits_nonneg(t: Seq<char>)
    requires
        forall|k: int| 0 <= k < t.len() ==> is_digit(#[trigger] t[k]),
    ensures
        digits_value(t) >= 0,
    decreases t.len(),
{
    if t.len() > 0 {
        assert(is_digit(t[t.len() - 1]));
        lemma_digits_nonneg(t.drop_last());
    }
}

proof fn lemma_digits_prefix(t: Seq<char>, k: int)
    requires
        0 <= k <= t.len(),
        forall|m: int| 0 <= m < t.len() ==> is_digit(#[trigger] t[m]),
    ensures
        digits_value(t.subrange(0, k)) <= digits_value(t),
    decreases t.len(),
{
    if k < t.len() {
        let u = t.drop_last();
        assert(is_digit(t[t.len() - 1]));
        lemma_digits_nonneg(u);
        lemma_digits_prefix(u, k);
        assert(u.subrange(0, k) =~= t.subrange(0, k));
    } else {
        assert(t.subrange(0, k) =~= t);
    }
}

fn trim_chars(v: &Vec<char>) -> (r: Vec<char>)
    ensures
        r@ == trimmed(v@),
{
    let n = v.len();
    let mut i: usize = 0;
    assert(v@.subrange(0, n as int) =~= v@);
    while i < n
        invariant
            i <= n,
            n == v@.len(),
            trim_start(v@) == trim_start(v@.subrange(i as int, n as int)),
        ensures
            i <= n,
            trim_start(v@) == v@.subrange(i as int, n as int),
        decreases n - i,
    {
        if !char_is_space(v[i]) {
            assert(v@.subrange(i as int, n as int)[0] == v@[i as int]);
            break;
        }
        assert(v@.subrange(i as int, n as int).drop_first() =~= v@.subrange(i + 1, n as int));
        i += 1;
    }
    let mut j: usize = n;
    while j > i
        invariant
            i <= j <= n,
            n == v@.len(),
            trim_end(v@.subrange(i as int, n as int)) == trim_end(v@.subrange(i as int, j as int)),
        ensures
            i <= j <= n,
            trim_end(v@.subrange(i as int, n as int)) == v@.subrange(i as int, j as int),
        decreases j,
    {
        if !char_is_space(v[j - 1]) {
            assert(v@.subrange(i as int, j as int).last() == v@[j - 1]);
            break;
        }
        assert(v@.subrange(i as int, j as int).drop_last() =~= v@.subrange(i as int, j - 1));
        j -= 1;
    }
    let mut out: Vec<char> = Vec::new();
    let mut k: usize = i;
    while k < j
        invariant
            i <= k <= j <= n,
            n == v@.len(),
            out@ == v@.subrange(i as int, k as int),
        decreases j - k,
    {
        out.push(v[k]);
        assert(out@ =~= v@.subrange(i as int, k + 1));
        k += 1;
    }
    out
}

/// `s` without white space at either end.
pub fn trim_text(s: &str) -> (r: String)
    ensures
        r@ == trimmed(s@),
{
    let v = chars_of(s);
    let t = trim_chars(&v);
    string_of(&t)
}

/// The lower-case form of `s`.
pub fn lower_text(s: &str) -> (r: String)
    ensures
        r@ == lower_of(s@),
{
    lowercase(s)
}

fn matches_at(s: &Vec<char>, p: &Vec<char>, i: usize) -> (r: bool)
    ensures
        r == occurs_at(s@, p@, i as int),
{
    if i > s.len() || p.len() > s.len() - i {
        return false;
    }
    let n = s.len();
    let mut k: usize = 0;
    while k < p.len()
        invariant
            k <= p@.len(),
            n == s@.len(),
            i <= s@.len(),
            i + p@.len() <= s@.len(),
            forall|m: int| 0 <= m < k ==> s@[i + m] == p@[m],
        decreases p.len() - k,
    {
        if s[i + k] != p[k] {
            assert(s@.subrange(i as int, i + p@.len())[k as int] != p@[k as int]);
            return false;
        }
        k += 1;
    }
    assert(s@.subrange(i as int, i + p@.len()) =~= p@);
    true
}

fn has_chars(s: &Vec<char>, p: &Vec<char>) -> (r: bool)
    ensures
        r == contains_text(s@, p@),
{
    let n = s.len();
    let mut i: usize = 0;
    while i < n
        invariant
            i <= n,
            n == s@.len(),
            forall|j: int| 0 <= j < i ==> !occurs_at(s@, p@, j),
        decreases n - i,
    {
        if matches_at(s, p, i) {
            return true;
        }
        i += 1;
    }
    let last = matches_at(s, p, n);
    if !last {
        assert forall|j: int| !occurs_at(s@, p@, j) by {
            if 0 <= j && j < n {
            } else if j == n {
            } else {
            }
        }
    }
    last
}

/// Whether `p` occurs in `s`.
pub fn contains_str(s: &str, p: &str) -> (r: bool)
    ensures
        r == contains_text(s@, p@),
{
    let sv = chars_of(s);
    let pv = chars_of(p);
    has_chars(&sv, &pv)
}

fn push_all(out: &mut Vec<char>, src: &Vec<char>)
    ensures
        final(out)@ == old(out)@ + src@,
{
    let mut k: usize = 0;
    while k < src.len()
        invariant
            k <= src@.len(),
            out@ == old(out)@ + src@.subrange(0, k as int),
        decreases src.len() - k,
    {
        out.push(src[k]);
        assert(out@ =~= old(out)@ + src@.subrange(0, k + 1));
        k += 1;
    }
    assert(src@.subrange(0, src@.len() as int) =~= src@);
}

fn split_chars(s: &Vec<char>, d: &Vec<char>) -> (r: Vec<Vec<char>>)
    requires
        d@.len() > 0,
    ensures
        r@.map_values(|p: Vec<char>| p@) == split_on(s@, d@),
        r@.len() > 0,
{
    let n = s.len();
    let dl = d.len();
    let mut out: Vec<Vec<char>> = Vec::new();
    let mut cur: Vec<char> = Vec::new();
    let mut start: usize = 0;
    let mut i: usize = 0;
    while i < n && dl <= n - i
        invariant
            start <= i <= n,
            n == s@.len(),
            dl == d@.len(),
            dl > 0,
            cur@ == s@.subrange(start as int, i as int),
            out@.map_values(|p: Vec<char>| p@) + pieces_from(s@, d@, start as int, i as int)
                == split_on(s@, d@),
        decreases n - i,
    {
        if matches_at(s, d, i) {
            let ghost before = out@.map_values(|p: Vec<char>| p@);
            let ghost piece = s@.subrange(start as int, i as int);
            let ghost rest = pieces_from(s@, d@, (i + dl) as int, (i + dl) as int);
            assert(pieces_from(s@, d@, start as int, i as int) == seq![piece] + rest);
            out.push(cur);
            cur = Vec::new();
            i = i + dl;
            start = i;
            assert(out@.map_values(|p: Vec<char>| p@) =~= before.push(piece));
            assert(before + (seq![piece] + rest) =~= before.push(piece) + rest);
        } else {
            cur.push(s[i]);
            assert(cur@ =~= s@.subrange(start as int, i + 1));
            i += 1;
        }
    }
    assert(pieces_from(s@, d@, start as int, i as int) == seq![s@.subrange(start as int, n as int)]);
    while i < n
        invariant
            start <= i <= n,
            n == s@.len(),
            cur@ == s@.subrange(start as int, i as int),
        decreases n - i,
    {
        cur.push(s[i]);
        assert(cur@ =~= s@.subrange(start as int, i + 1));
        i += 1;
    }
    let ghost before = out@.map_values(|p: Vec<char>| p@);
    out.push(cur);
    assert(out@.map_values(|p: Vec<char>| p@) =~= before + seq![s@.subrange(start as int, n as int)]);
    out
}

/// `s` cut at each leftmost non-overlapping occurrence of `d`.
pub fn split_text(s: &str, d: &str) -> (r: Vec<String>)
    requires
        d@.len() > 0,
    ensures
        texts(r@) == split_on(s@, d@),
        r@.len() > 0,
{
    let sv = chars_of(s);
    let dv = chars_of(d);
    let parts = split_chars(&sv, &dv);
    let mut out: Vec<String> = Vec::new();
    let mut k: usize = 0;
    while k < parts.len()
        invariant
            k <= parts@.len(),
            texts(out@) == parts@.map_values(|p: Vec<char>| p@).subrange(
                0,
                k as int,
            ),
        decreases parts.len() - k,
    {
        let ghost before = texts(out@);
        let piece = string_of(&parts[k]);
        assert(piece@ == parts@.map_values(|p: Vec<char>| p@)[k as int]);
        out.push(piece);
        assert(texts(out@) =~= before.push(piece@));
        assert(texts(out@) =~= parts@.map_values(|p: Vec<char>| p@).subrange(
            0,
            k + 1,
        ));
        k += 1;
    }
    assert(parts@.map_values(|p: Vec<char>| p@).subrange(0, parts@.len() as int) =~= parts@.map_values(
        |p: Vec<char>| p@,
    ));
    out
}

/// `s` with each leftmost non-overlapping occurrence of `from` replaced by `to`.
pub fn replace_text(s: &str, from: &str, to: &str) -> (r: String)
    requires
        from@.len() > 0,
    ensures
        r@ == replaced(s@, from@, to@),
{
    let sv = chars_of(s);
    let fv = chars_of(from);
    let tv = chars_of(to);
    let parts = split_chars(&sv, &fv);
    let ghost pv = parts@.map_values(|p: Vec<char>| p@);
    let mut out: Vec<char> = Vec::new();
    let mut k: usize = 0;
    while k < parts.len()
        invariant
            k <= parts@.len(),
            pv == parts@.map_values(|p: Vec<char>| p@),
            out@ == joined(pv.subrange(0, k as int), tv@),
        decreases parts.len() - k,
    {
        if k > 0 {
            push_all(&mut out, &tv);
        }
        push_all(&mut out, &parts[k]);
        assert(pv.subrange(0, k + 1).drop_last() =~= pv.subrange(0, k as int));
        if k == 0 {
            assert(out@ =~= joined(pv.subrange(0, 1), tv@));
        } else {
            assert(out@ =~= joined(pv.subrange(0, k + 1), tv@));
        }
        k += 1;
    }
    assert(pv.subrange(0, pv.len() as int) =~= pv);
    string_of(&out)
}

/// The whole of `s` read as an unsigned 32-bit decimal, or `None`.
pub fn parse_count(s: &str) -> (r: Option<u32>)
    ensures
        r == parsed_count(s@),
{
    let v = chars_of(s);
    let n = v.len();
    let first: usize = if n > 0 && v[0] == '+' {
        1
    } else {
        0
    };
    let ghost t = unsigned_part(v@);
    assert(t =~= v@.subrange(first as int, n as int));
    if first == n {
        return None;
    }
    let mut acc: u32 = 0;
    let mut i: usize = first;
    while i < n
        invariant
            first <= i <= n,
            n == v@.len(),
            v@ == s@,
            t == unsigned_part(s@),
            t == v@.subrange(first as int, n as int),
            t.len() > 0,
            forall|k: int| first <= k < i ==> is_digit(#[trigger] v@[k]),
            acc as int == digits_value(v@.subrange(first as int, i as int)),
        decreases n - i,
    {
        let c = v[i];
        if !('0' <= c && c <= '9') {
            assert(!is_digit(t[i - first]));
            return None;
        }
        let d: u32 = (c as u32) - ('0' as u32);
        assert(v@.subrange(first as int, i + 1).drop_last() =~= v@.subrange(first as int, i as int));
        if acc > (u32::MAX - d) / 10 {
            assert(digits_value(v@.subrange(first as int, i + 1)) > u32::MAX);
            proof {
                if forall|k: int| 0 <= k < t.len() ==> is_digit(#[trigger] t[k]) {
                    lemma_digits_prefix(t, i + 1 - first);
                    assert(t.subrange(0, i + 1 - first) =~= v@.subrange(first as int, i + 1));
                }
            }
            return None;
        }
        acc = acc * 10 + d;
        i += 1;
    }
    assert forall|k: int| 0 <= k < t.len() implies is_digit(#[trigger] t[k]) by {
        assert(t[k] == v@[first + k]);
    }
    Some(acc)
}

/// `a` followed by `b`.
pub fn concat_text(a: &str, b: &str) -> (r: String)
    ensures
        r@ == a@ + b@,
{
    let mut out = chars_of(a);
    let bv = chars_of(b);
    push_all(&mut out, &bv);
    string_of(&out)
}

/// The digit character of `d`, below ten.
pub open spec fn digit_char(d: nat) -> char {
    ((48 + d) as u8) as char
}

/// The base-10 writing of `n`, without leading zeros.
pub open spec fn decimal_of(n: nat) -> Seq<char>
    decreases n,
{
    if n < 10 {
        seq![digit_char(n)]
    } else {
        decimal_of(n / 10) + seq![digit_char(n % 10)]
    }
}

fn push_decimal(out: &mut Vec<char>, n: u64)
    ensures
        final(out)@ == old(out)@ + decimal_of(n as nat),
    decreases n,
{
    if n >= 10 {
        push_decimal(out, n / 10);
    }
    let d: u8 = (n % 10) as u8;
    let c = (48u8 + d) as char;
    out.push(c);
    assert(out@ =~= old(out)@ + decimal_of(n as nat));
}

/// The base-10 writing of `n`.
pub fn decimal_text(n: u64) -> (r: String)
    ensures
        r@ == decimal_of(n as nat),
{
    let mut out: Vec<char> = Vec::new();
    push_decimal(&mut out, n);
    assert(out@ =~= decimal_of(n as nat));
    string_of(&out)
}

/// The strings joined, with `sep` between each two of them.
pub fn join_texts(parts: &Vec<String>, sep: &str) -> (r: String)
    ensures
        r@ == joined(texts(parts@), sep@),
{
    let ghost pv = texts(parts@);
    let sv = chars_of(sep);
    let mut out: Vec<char> = Vec::new();
    let mut k: usize = 0;
    while k < parts.len()
        invariant
            k <= parts@.len(),
            pv == texts(parts@),
            sv@ == sep@,
            out@ == joined(pv.subrange(0, k as int), sep@),
        decreases parts.len() - k,
    {
        if k > 0 {
            push_all(&mut out, &sv);
        }
        let piece = chars_of(parts[k].as_str());
        push_all(&mut out, &piece);
        assert(pv.subrange(0, k + 1).drop_last() =~= pv.subrange(0, k as int));
        if k == 0 {
            assert(out@ =~= joined(pv.subrange(0, 1), sep@));
        } else {
            assert(out@ =~= joined(pv.subrange(0, k + 1), sep@));
        }
        k += 1;
    }
    assert(pv.subrange(0, pv.len() as int) =~= pv);
    string_of(&out)
}

} // verus!
