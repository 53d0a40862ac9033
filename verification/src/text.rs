//! Character-level text utilities with their specifications: line splitting,
//! joining, whitespace trimming, prefix and substring tests, and decimal
//! rendering of integers.
use vstd::prelude::*;

verus! {

/// The character views of a sequence of strings.
pub open spec fn views(v: Seq<String>) -> Seq<Seq<char>> {
    Seq::new(v.len(), |i: int| v[i]@)
}

/// Appends `c` to `s` (`String::push`).
#[verifier::external_body]
pub(crate) fn push_char(s: &mut String, c: char)
    ensures
        final(s)@ == old(s)@.push(c),
{
    s.push(c);
}

/// The characters of `s`, in order.
pub fn chars_of(s: &str) -> (res: Vec<char>)
    ensures
        res@ == s@,
{
    broadcast use vstd::string::group_string_axioms;
    let mut res: Vec<char> = Vec::new();
    for c in it: s.chars()
        invariant
            it.seq() == s@,
            res@ == it.seq().take(it.index() as int),
    {
        res.push(c);
    }
    assert(res@ == s@.take(s@.len() as int));
    res
}

/// The string made of `v[from..to]`.
pub fn string_of_range(v: &Vec<char>, from: usize, to: usize) -> (res: String)
    requires
        from <= to <= v.len(),
    ensures
        res@ == v@.subrange(from as int, to as int),
{
    let mut res = String::new();
    let mut i = from;
    while i < to
        invariant
            from <= i <= to <= v.len(),
            res@ == v@.subrange(from as int, i as int),
        decreases to - i,
    {
        push_char(&mut res, v[i]);
        assert(v@.subrange(from as int, i + 1) == v@.subrange(from as int, i as int).push(v@[i as int]));
        i += 1;
    }
    res
}

/// The string made of all of `v`.
pub fn string_of(v: &Vec<char>) -> (res: String)
    ensures
        res@ == v@,
{
    let res = string_of_range(v, 0, v.len());
    assert(v@.subrange(0, v@.len() as int) == v@);
    res
}

/// The string `a` followed by `b`.
pub fn concat(a: &str, b: &str) -> (res: String)
    ensures
        res@ == a@ + b@,
{
    let mut res = a.to_string();
    proof {
        vstd::string::to_string_from_display_ensures_for_str(a, res);
    }
    res.append(b);
    res
}

/// The string `a`, then `b`, then `c`.
pub fn concat3(a: &str, b: &str, c: &str) -> (res: String)
    ensures
        res@ == a@ + b@ + c@,
{
    let mut res = concat(a, b);
    res.append(c);
    res
}

// ---------------------------------------------------------------------------
// Lines
// ---------------------------------------------------------------------------

/// Index of the first `c` in `s`, or -1.
pub open spec fn index_of(s: Seq<char>, c: char) -> int
    decreases s.len(),
{
    if s.len() == 0 {
        -1
    } else if s[0] == c {
        0
    } else {
        let r = index_of(s.drop_first(), c);
        if r < 0 {
            -1
        } else {
            r + 1
        }
    }
}

/// A line body without its trailing carriage return, if it has one.
pub open spec fn strip_cr(l: Seq<char>) -> Seq<char> {
    if l.len() > 0 && l.last() == '\r' {
        l.drop_last()
    } else {
        l
    }
}

/// The lines of `s` as `str::lines` yields them: split at `\n`, a `\r`
/// before the `\n` removed, and no empty line after a final `\n`.
pub open spec fn spec_lines(s: Seq<char>) -> Seq<Seq<char>>
    decreases s.len(),
{
    if s.len() == 0 {
        seq![]
    } else {
        let k = index_of(s, '\n');
        if k < 0 || k >= s.len() {
            seq![s]
        } else {
            seq![strip_cr(s.take(k))] + spec_lines(s.skip(k + 1))
        }
    }
}

proof fn lemma_index_of_absent(s: Seq<char>, c: char)
    requires
        !s.contains(c),
    ensures
        index_of(s, c) == -1,
    decreases s.len(),
{
    if s.len() > 0 {
        assert(s.drop_first().contains(c) ==> s.contains(c)) by {
            if s.drop_first().contains(c) {
                let j = choose|j: int| 0 <= j < s.drop_first().len() && s.drop_first()[j] == c;
                assert(s[j + 1] == c);
            }
        }
        assert(s[0] != c) by {
            if s[0] == c {
                assert(s.contains(c));
            }
        }
        lemma_index_of_absent(s.drop_first(), c);
    }
}

proof fn lemma_index_of_after(cur: Seq<char>, t: Seq<char>, c: char)
    requires
        !cur.contains(c),
        t.len() > 0,
        t[0] == c,
    ensures
        index_of(cur + t, c) == cur.len(),
    decreases cur.len(),
{
    if cur.len() == 0 {
        assert(cur + t == t);
    } else {
        assert((cur + t).drop_first() == cur.drop_first() + t);
        assert(!cur.drop_first().contains(c)) by {
            if cur.drop_first().contains(c) {
                let j = choose|j: int| 0 <= j < cur.drop_first().len() && cur.drop_first()[j] == c;
                assert(cur[j + 1] == c);
            }
        }
        assert((cur + t)[0] != c) by {
            assert((cur + t)[0] == cur[0]);
            if cur[0] == c {
                assert(cur.contains(c));
            }
        }
        lemma_index_of_after(cur.drop_first(), t, c);
    }
}

proof fn lemma_lines_break(cur: Seq<char>, t: Seq<char>)
    requires
        !cur.contains('\n'),
        t.len() > 0,
        t[0] == '\n',
    ensures
        spec_lines(cur + t) == seq![strip_cr(cur)] + spec_lines(t.drop_first()),
{
    lemma_index_of_after(cur, t, '\n');
    let s = cur + t;
    let k = cur.len() as int;
    assert(s.take(k) == cur);
    assert(s.skip(k + 1) == t.drop_first());
}

proof fn lemma_lines_tail(cur: Seq<char>)
    requires
        !cur.contains('\n'),
    ensures
        spec_lines(cur) == (if cur.len() == 0 {
            Seq::<Seq<char>>::empty()
        } else {
            seq![cur]
        }),
{
    lemma_index_of_absent(cur, '\n');
}

/// The lines of `s` (`str::lines`).
pub fn lines(s: &str) -> (res: Vec<String>)
    ensures
        views(res@) == spec_lines(s@),
{
    let cs = chars_of(s);
    let mut res: Vec<String> = Vec::new();
    let mut cur: Vec<char> = Vec::new();
    let mut i: usize = 0;
    assert(s@.skip(0) == s@);
    assert(cur@ + s@ == s@);
    assert(views(res@) + spec_lines(s@) == spec_lines(s@));
    while i < cs.len()
        invariant
            0 <= i <= cs.len(),
            cs@ == s@,
            !cur@.contains('\n'),
            spec_lines(s@) == views(res@) + spec_lines(cur@ + s@.skip(i as int)),
        decreases cs.len() - i,
    {
        let c = cs[i];
        let ghost rest = s@.skip(i as int);
        if c == '\n' {
            proof {
                lemma_lines_break(cur@, rest);
                assert(rest.drop_first() == s@.skip(i + 1));
            }
            let n = cur.len();
            let line = if n > 0 && cur[n - 1] == '\r' {
                string_of_range(&cur, 0, n - 1)
            } else {
                string_of(&cur)
            };
            assert(line@ == strip_cr(cur@));
            let ghost old_res = res@;
            res.push(line);
            assert(views(res@) == views(old_res) + seq![strip_cr(cur@)]);
            cur = Vec::new();
            assert(cur@ + s@.skip(i + 1) == s@.skip(i + 1));
        } else {
            let ghost old_cur = cur@;
            cur.push(c);
            assert(old_cur + rest == cur@ + s@.skip(i + 1));
            assert(!cur@.contains('\n')) by {
                if cur@.contains('\n') {
                    let j = choose|j: int| 0 <= j < cur@.len() && cur@[j] == '\n';
                    if j < old_cur.len() {
                        assert(old_cur[j] == '\n');
                    }
                }
            }
        }
        i += 1;
    }
    assert(s@.skip(i as int) == Seq::<char>::empty());
    assert(cur@ + s@.skip(i as int) == cur@);
    proof {
        lemma_lines_tail(cur@);
    }
    if cur.len() > 0 {
        let ghost old_res = res@;
        let last = string_of(&cur);
        res.push(last);
        assert(views(res@) == views(old_res) + seq![cur@]);
    } else {
        assert(views(res@) + Seq::<Seq<char>>::empty() == views(res@));
    }
    res
}

// ---------------------------------------------------------------------------
// Joining
// ---------------------------------------------------------------------------

/// The parts joined with `sep` between consecutive parts.
pub open spec fn spec_join(parts: Seq<Seq<char>>, sep: Seq<char>) -> Seq<char>
    decreases parts.len(),
{
    if parts.len() == 0 {
        seq![]
    } else if parts.len() == 1 {
        parts[0]
    } else {
        spec_join(parts.drop_last(), sep) + sep + parts.last()
    }
}

/// `parts` joined with `sep` (`[String]::join`).
pub fn join(parts: &Vec<String>, sep: &str) -> (res: String)
    ensures
        res@ == spec_join(views(parts@), sep@),
{
    let mut res = String::new();
    let ghost all = views(parts@);
    let mut i: usize = 0;
    while i < parts.len()
        invariant
            0 <= i <= parts.len(),
            all == views(parts@),
            res@ == spec_join(all.take(i as int), sep@),
        decreases parts.len() - i,
    {
        assert(all.take(i + 1).drop_last() == all.take(i as int));
        if i != 0 {
            res.append(sep);
        } else {
            assert(res@ + all[0] == all[0]);
        }
        res.append(parts[i].as_str());
        i += 1;
    }
    assert(all.take(parts.len() as int) == all);
    res
}

// ---------------------------------------------------------------------------
// Whitespace
// ---------------------------------------------------------------------------

/// The Unicode `White_Space` characters, which `char::is_whitespace` and
/// `str::trim` use.
pub open spec fn is_whitespace(c: char) -> bool {
    ||| ('\u{9}' <= c && c <= '\u{d}')
    ||| c == ' '
    ||| c == '\u{85}'
    ||| c == '\u{a0}'
    ||| c == '\u{1680}'
    ||| ('\u{2000}' <= c && c <= '\u{200a}')
    ||| c == '\u{2028}'
    ||| c == '\u{2029}'
    ||| c == '\u{202f}'
    ||| c == '\u{205f}'
    ||| c == '\u{3000}'
}

/// Whether `c` is a Unicode whitespace character.
pub fn char_is_whitespace(c: char) -> (res: bool)
    ensures
        res == is_whitespace(c),
{
    ('\u{9}' <= c && c <= '\u{d}') || c == ' ' || c == '\u{85}' || c == '\u{a0}' || c
        == '\u{1680}' || ('\u{2000}' <= c && c <= '\u{200a}') || c == '\u{2028}' || c
        == '\u{2029}' || c == '\u{202f}' || c == '\u{205f}' || c == '\u{3000}'
}

/// `s` without its leading whitespace.
pub open spec fn trim_start(s: Seq<char>) -> Seq<char>
    decreases s.len(),
{
    if s.len() > 0 && is_whitespace(s[0]) {
        trim_start(s.drop_first())
    } else {
        s
    }
}

/// `s` without its trailing whitespace.
pub open spec fn trim_end(s: Seq<char>) -> Seq<char>
    decreases s.len(),
{
    if s.len() > 0 && is_whitespace(s.last()) {
        trim_end(s.drop_last())
    } else {
        s
    }
}

/// What `trim_end` leaves of `s` is a prefix of `s` that does not end in
/// whitespace, and what it removes is whitespace.
pub proof fn lemma_trim_end_shape(s: Seq<char>)
    ensures
        trim_end(s).len() <= s.len(),
        s.take(trim_end(s).len() as int) == trim_end(s),
        forall|j: int| trim_end(s).len() <= j < s.len() ==> is_whitespace(#[trigger] s[j]),
        trim_end(s).len() == 0 || !is_whitespace(trim_end(s).last()),
    decreases s.len(),
{
    if s.len() > 0 && is_whitespace(s.last()) {
        let d = s.drop_last();
        lemma_trim_end_shape(d);
        let t = trim_end(d);
        assert(s.take(t.len() as int) == d.take(t.len() as int));
        assert forall|j: int| t.len() <= j < s.len() implies is_whitespace(#[trigger] s[j]) by {
            if j < d.len() {
                assert(s[j] == d[j]);
            }
        }
    } else {
        assert(s.take(s.len() as int) == s);
    }
}

/// `s` without leading and trailing whitespace (`str::trim`).
pub open spec fn trim(s: Seq<char>) -> Seq<char> {
    trim_end(trim_start(s))
}

proof fn lemma_trim_start_at(s: Seq<char>, k: int)
    requires
        0 <= k <= s.len(),
        forall|j: int| 0 <= j < k ==> is_whitespace(#[trigger] s[j]),
        k == s.len() || !is_whitespace(s[k]),
    ensures
        trim_start(s) == s.skip(k),
    decreases k,
{
    if k == 0 {
        assert(s.skip(0) == s);
    } else {
        assert(s.drop_first().skip(k - 1) == s.skip(k));
        assert forall|j: int| 0 <= j < k - 1 implies is_whitespace(#[trigger] s.drop_first()[j]) by {
            assert(s.drop_first()[j] == s[j + 1]);
        }
        lemma_trim_start_at(s.drop_first(), k - 1);
    }
}

proof fn lemma_trim_end_at(s: Seq<char>, k: int)
    requires
        0 <= k <= s.len(),
        forall|j: int| k <= j < s.len() ==> is_whitespace(#[trigger] s[j]),
        k == 0 || !is_whitespace(s[k - 1]),
    ensures
        trim_end(s) == s.take(k),
    decreases s.len() - k,
{
    if k == s.len() {
        assert(s.take(k) == s);
    } else {
        assert(s.drop_last().take(k) == s.take(k));
        assert(is_whitespace(s[s.len() - 1]));
        lemma_trim_end_at(s.drop_last(), k);
    }
}

/// `s` without leading and trailing whitespace (`str::trim`).
pub fn trim_str(s: &str) -> (res: String)
    ensures
        res@ == trim(s@),
{
    let cs = chars_of(s);
    let n = cs.len();
    let mut a: usize = 0;
    while a < n && char_is_whitespace(cs[a])
        invariant
            0 <= a <= n,
            n == cs@.len(),
            forall|j: int| 0 <= j < a ==> is_whitespace(#[trigger] cs@[j]),
        decreases n - a,
    {
        a += 1;
    }
    proof {
        lemma_trim_start_at(cs@, a as int);
    }
    let mut b: usize = n;
    while b > a && char_is_whitespace(cs[b - 1])
        invariant
            a <= b <= n,
            n == cs@.len(),
            forall|j: int| b <= j < n ==> is_whitespace(#[trigger] cs@[j]),
        decreases b - a,
    {
        b -= 1;
    }
    let ghost mid = cs@.skip(a as int);
    proof {
        assert forall|j: int| b - a <= j < mid.len() implies is_whitespace(#[trigger] mid[j]) by {
            assert(mid[j] == cs@[j + a]);
        }
        if b > a {
            assert(mid[b - a - 1] == cs@[b - 1]);
        }
        lemma_trim_end_at(mid, b - a);
        assert(mid.take(b - a) == cs@.subrange(a as int, b as int));
    }
    string_of_range(&cs, a, b)
}

/// `s` without its trailing whitespace (`str::trim_end`).
pub fn trim_end_str(s: &str) -> (res: String)
    ensures
        res@ == trim_end(s@),
{
    let cs = chars_of(s);
    let n = cs.len();
    let mut b: usize = n;
    while b > 0 && char_is_whitespace(cs[b - 1])
        invariant
            b <= n,
            n == cs@.len(),
            forall|j: int| b <= j < n ==> is_whitespace(#[trigger] cs@[j]),
        decreases b,
    {
        b -= 1;
    }
    proof {
        lemma_trim_end_at(cs@, b as int);
    }
    string_of_range(&cs, 0, b)
}

// ---------------------------------------------------------------------------
// Prefixes and substrings
// ---------------------------------------------------------------------------

/// Whether `s` begins with `p`.
pub open spec fn spec_starts_with(s: Seq<char>, p: Seq<char>) -> bool {
    p.len() <= s.len() && s.take(p.len() as int) == p
}

/// Whether `needle` occurs in `s` at position `i`.
pub open spec fn occurs_at(s: Seq<char>, needle: Seq<char>, i: int) -> bool {
    0 <= i && i + needle.len() <= s.len() && s.subrange(i, i + needle.len()) == needle
}

/// Whether `needle` occurs somewhere in `s`.
pub open spec fn spec_contains(s: Seq<char>, needle: Seq<char>) -> bool {
    exists|i: int| occurs_at(s, needle, i)
}

/// Whether `s` begins with `p` (`str::starts_with`).
pub fn starts_with(s: &str, p: &str) -> (res: bool)
    ensures
        res == spec_starts_with(s@, p@),
{
    let cs = chars_of(s);
    let ps = chars_of(p);
    if ps.len() > cs.len() {
        return false;
    }
    let mut i: usize = 0;
    while i < ps.len()
        invariant
            0 <= i <= ps.len() <= cs.len(),
            cs@ == s@,
            ps@ == p@,
            forall|j: int| 0 <= j < i ==> cs@[j] == ps@[j],
        decreases ps.len() - i,
    {
        if cs[i] != ps[i] {
            assert(s@.take(p@.len() as int)[i as int] != p@[i as int]);
            return false;
        }
        i += 1;
    }
    assert(s@.take(p@.len() as int) == p@);
    true
}

fn occurs_at_exec(cs: &Vec<char>, ns: &Vec<char>, i: usize) -> (res: bool)
    requires
        i + ns.len() <= cs.len(),
    ensures
        res == occurs_at(cs@, ns@, i as int),
{
    let mut j: usize = 0;
    while j < ns.len()
        invariant
            0 <= j <= ns.len(),
            i + ns.len() <= cs.len(),
            forall|k: int| 0 <= k < j ==> cs@[i + k] == ns@[k],
        decreases ns.len() - j,
    {
        if cs[i + j] != ns[j] {
            assert(cs@.subrange(i as int, i + ns@.len())[j as int] != ns@[j as int]);
            return false;
        }
        j += 1;
    }
    assert(cs@.subrange(i as int, i + ns@.len()) == ns@);
    true
}

/// Whether `needle` occurs in `s` (`str::contains`).
pub fn contains(s: &str, needle: &str) -> (res: bool)
    ensures
        res == spec_contains(s@, needle@),
{
    let cs = chars_of(s);
    let ns = chars_of(needle);
    if ns.len() == 0 {
        assert(occurs_at(s@, needle@, 0)) by {
            assert(s@.subrange(0, 0) == needle@);
        }
        return true;
    }
    if ns.len() > cs.len() {
        assert forall|i: int| !occurs_at(s@, needle@, i) by {}
        return false;
    }
    let last = cs.len() - ns.len();
    let mut i: usize = 0;
    while i <= last
        invariant
            0 <= i <= last + 1,
            last + ns.len() == cs.len(),
            ns.len() > 0,
            cs@ == s@,
            ns@ == needle@,
            forall|k: int| 0 <= k < i ==> !occurs_at(s@, needle@, k),
        decreases last + 1 - i,
    {
        if occurs_at_exec(&cs, &ns, i) {
            return true;
        }
        i += 1;
    }
    assert forall|k: int| !occurs_at(s@, needle@, k) by {
        if 0 <= k && k < i {
        }
    }
    false
}

// ---------------------------------------------------------------------------
// Decimal numbers
// ---------------------------------------------------------------------------

/// The decimal digit character for `d` (which is below 10).
pub open spec fn digit_char(d: nat) -> char {
    if d == 0 {
        '0'
    } else if d == 1 {
        '1'
    } else if d == 2 {
        '2'
    } else if d == 3 {
        '3'
    } else if d == 4 {
        '4'
    } else if d == 5 {
        '5'
    } else if d == 6 {
        '6'
    } else if d == 7 {
        '7'
    } else if d == 8 {
        '8'
    } else {
        '9'
    }
}

/// The decimal notation of `n`, without leading zeros.
pub open spec fn decimal(n: nat) -> Seq<char>
    decreases n,
{
    if n < 10 {
        seq![digit_char(n)]
    } else {
        decimal(n / 10).push(digit_char(n % 10))
    }
}

/// The decimal notation of the signed `n`, with `-` before a negative one.
pub open spec fn signed_decimal(n: int) -> Seq<char> {
    if n < 0 {
        seq!['-'] + decimal((-n) as nat)
    } else {
        decimal(n as nat)
    }
}

fn digit(d: u64) -> (c: char)
    requires
        d < 10,
    ensures
        c == digit_char(d as nat),
{
    if d == 0 {
        '0'
    } else if d == 1 {
        '1'
    } else if d == 2 {
        '2'
    } else if d == 3 {
        '3'
    } else if d == 4 {
        '4'
    } else if d == 5 {
        '5'
    } else if d == 6 {
        '6'
    } else if d == 7 {
        '7'
    } else if d == 8 {
        '8'
    } else {
        '9'
    }
}

fn decimal_chars(n: u64) -> (res: Vec<char>)
    ensures
        res@ == decimal(n as nat),
    decreases n,
{
    if n < 10 {
        let mut v = Vec::new();
        v.push(digit(n));
        v
    } else {
        let mut v = decimal_chars(n / 10);
        v.push(digit(n % 10));
        v
    }
}

/// The decimal notation of `n` (`u64::to_string`).
pub fn u64_to_string(n: u64) -> (res: String)
    ensures
        res@ == decimal(n as nat),
{
    string_of(&decimal_chars(n))
}

/// The decimal notation of `n` (`i32::to_string`).
pub fn i32_to_string(n: i32) -> (res: String)
    ensures
        res@ == signed_decimal(n as int),
{
    if n < 0 {
        let m: i64 = -(n as i64);
        let digits = decimal_chars(m as u64);
        let mut v: Vec<char> = Vec::new();
        v.push('-');
        let mut i: usize = 0;
        while i < digits.len()
            invariant
                0 <= i <= digits.len(),
                v@ == seq!['-'] + digits@.take(i as int),
            decreases digits.len() - i,
        {
            v.push(digits[i]);
            assert(digits@.take(i + 1) == digits@.take(i as int).push(digits@[i as int]));
            i += 1;
        }
        assert(digits@.take(digits.len() as int) == digits@);
        string_of(&v)
    } else {
        u64_to_string(n as u64)
    }
}

/// Value of a run of decimal digits.
pub open spec fn digits_value(s: Seq<char>) -> nat
    decreases s.len(),
{
    if s.len() == 0 {
        0
    } else {
        digits_value(s.drop_last()) * 10 + (s.last() as nat - '0' as nat) as nat
    }
}

/// Whether `c` is an ASCII decimal digit.
pub open spec fn is_digit(c: char) -> bool {
    '0' <= c && c <= '9'
}

/// The unsigned integer that `u64::from_str` reads from `s`: an optional
/// `+`, then one or more decimal digits, with a value that fits `u64`.
pub open spec fn spec_parse_u64(s: Seq<char>) -> Option<u64> {
    parse_digits(unsigned_part(s))
}

/// `s` without a leading `+`.
pub open spec fn unsigned_part(s: Seq<char>) -> Seq<char> {
    if s.len() > 0 && s[0] == '+' {
        s.drop_first()
    } else {
        s
    }
}

/// The value of the digit run `d`, when it is non-empty, all digits and
/// fits `u64`.
pub open spec fn parse_digits(d: Seq<char>) -> Option<u64> {
    if d.len() > 0 && (forall|i: int| 0 <= i < d.len() ==> is_digit(#[trigger] d[i]))
        && digits_value(d) <= u64::MAX {
        Some(digits_value(d) as u64)
    } else {
        None
    }
}

/// Reads an unsigned integer as `str::parse::<u64>` does.
pub fn parse_u64(s: &str) -> (res: Option<u64>)
    ensures
        res == spec_parse_u64(s@),
{
    let cs = chars_of(s);
    let start: usize = if cs.len() > 0 && cs[0] == '+' {
        1
    } else {
        0
    };
    let ghost d = unsigned_part(s@);
    assert(d == cs@.skip(start as int));
    if start >= cs.len() {
        return None;
    }
    let mut v: u64 = 0;
    let mut i: usize = start;
    while i < cs.len()
        invariant
            start <= i <= cs.len(),
            cs@ == s@,
            d == cs@.skip(start as int),
            d == unsigned_part(s@),
            forall|k: int| 0 <= k < i - start ==> is_digit(#[trigger] d[k]),
            v as nat == digits_value(d.take(i - start)),
        decreases cs.len() - i,
    {
        let c = cs[i];
        if !('0' <= c && c <= '9') {
            assert(d[i - start] == c);
            assert(!is_digit(d[i - start]));
            assert(!(forall|k: int| 0 <= k < d.len() ==> is_digit(#[trigger] d[k])));
            return None;
        }
        let dv: u64 = (c as u32 - '0' as u32) as u64;
        assert(d.take(i - start + 1).drop_last() == d.take(i - start));
        if v > (u64::MAX - dv) / 10 {
            proof {
                lemma_digits_value_prefix(d, i - start + 1);
                assert(d.take(i - start + 1).last() == c);
                assert(digits_value(d.take(i - start + 1)) == v * 10 + dv);
                assert(v * 10 + dv > u64::MAX) by (nonlinear_arith)
                    requires
                        v > (u64::MAX - dv) / 10,
                        dv < 10,
                ;
                assert(digits_value(d) > u64::MAX);
            }
            return None;
        }
        assert(v * 10 + dv <= u64::MAX) by (nonlinear_arith)
            requires
                v <= (u64::MAX - dv) / 10,
                dv < 10,
        ;
        v = v * 10 + dv;
        i += 1;
    }
    assert(d.take(i - start) == d);
    Some(v)
}

proof fn lemma_digits_value_prefix(d: Seq<char>, n: int)
    requires
        0 <= n <= d.len(),
    ensures
        digits_value(d.take(n)) <= digits_value(d),
    decreases d.len() - n,
{
    if n < d.len() {
        assert(d.drop_last().take(n) == d.take(n));
        lemma_digits_value_prefix(d.drop_last(), n);
    } else {
        assert(d.take(n) == d);
    }
}

} // verus!

verus! {

// ---------------------------------------------------------------------------
// Splitting at a separator
// ---------------------------------------------------------------------------

/// The pieces of `s` between occurrences of `c` (`str::split`).
pub open spec fn spec_split(s: Seq<char>, c: char) -> Seq<Seq<char>>
    decreases s.len(),
{
    let k = index_of(s, c);
    if k < 0 || k >= s.len() {
        seq![s]
    } else {
        seq![s.take(k)] + spec_split(s.skip(k + 1), c)
    }
}

/// The non-empty ones among `parts`, in order.
pub open spec fn nonempty_parts(parts: Seq<Seq<char>>) -> Seq<Seq<char>>
    decreases parts.len(),
{
    if parts.len() == 0 {
        seq![]
    } else {
        (if parts[0].len() > 0 {
            seq![parts[0]]
        } else {
            Seq::<Seq<char>>::empty()
        }) + nonempty_parts(parts.drop_first())
    }
}

/// The non-empty pieces of `s` between occurrences of `c`
/// (`s.split(c).filter(|p| !p.is_empty())`).
pub open spec fn spec_split_nonempty(s: Seq<char>, c: char) -> Seq<Seq<char>> {
    nonempty_parts(spec_split(s, c))
}

proof fn lemma_split_break(cur: Seq<char>, t: Seq<char>, c: char)
    requires
        !cur.contains(c),
        t.len() > 0,
        t[0] == c,
    ensures
        spec_split_nonempty(cur + t, c) == (if cur.len() > 0 {
            seq![cur]
        } else {
            Seq::<Seq<char>>::empty()
        }) + spec_split_nonempty(t.drop_first(), c),
{
    lemma_index_of_after(cur, t, c);
    let s = cur + t;
    let k = cur.len() as int;
    assert(s.take(k) == cur);
    assert(s.skip(k + 1) == t.drop_first());
    let parts = spec_split(s, c);
    assert(parts == seq![cur] + spec_split(t.drop_first(), c));
    assert(parts.drop_first() == spec_split(t.drop_first(), c));
}

proof fn lemma_split_tail(cur: Seq<char>, c: char)
    requires
        !cur.contains(c),
    ensures
        spec_split_nonempty(cur, c) == (if cur.len() > 0 {
            seq![cur]
        } else {
            Seq::<Seq<char>>::empty()
        }),
{
    lemma_index_of_absent(cur, c);
    let parts = spec_split(cur, c);
    assert(parts == seq![cur]);
    assert(parts.drop_first() == Seq::<Seq<char>>::empty());
    assert(nonempty_parts(parts.drop_first()) == Seq::<Seq<char>>::empty());
}

/// The non-empty pieces of `s` between occurrences of `c`.
pub fn split_nonempty(s: &str, c: char) -> (res: Vec<String>)
    ensures
        views(res@) == spec_split_nonempty(s@, c),
{
    let cs = chars_of(s);
    let mut res: Vec<String> = Vec::new();
    let mut cur: Vec<char> = Vec::new();
    let mut i: usize = 0;
    assert(s@.skip(0) == s@);
    assert(cur@ + s@ == s@);
    assert(views(res@) + spec_split_nonempty(s@, c) == spec_split_nonempty(s@, c));
    while i < cs.len()
        invariant
            0 <= i <= cs.len(),
            cs@ == s@,
            !cur@.contains(c),
            spec_split_nonempty(s@, c) == views(res@) + spec_split_nonempty(
                cur@ + s@.skip(i as int),
                c,
            ),
        decreases cs.len() - i,
    {
        let x = cs[i];
        let ghost rest = s@.skip(i as int);
        if x == c {
            proof {
                lemma_split_break(cur@, rest, c);
                assert(rest.drop_first() == s@.skip(i + 1));
            }
            if cur.len() > 0 {
                let ghost old_res = res@;
                let piece = string_of(&cur);
                res.push(piece);
                assert(views(res@) == views(old_res) + seq![cur@]);
            } else {
                assert(Seq::<Seq<char>>::empty() + spec_split_nonempty(s@.skip(i + 1), c)
                    == spec_split_nonempty(s@.skip(i + 1), c));
            }
            cur = Vec::new();
            assert(cur@ + s@.skip(i + 1) == s@.skip(i + 1));
        } else {
            let ghost old_cur = cur@;
            cur.push(x);
            assert(old_cur + rest == cur@ + s@.skip(i + 1));
            assert(!cur@.contains(c)) by {
                if cur@.contains(c) {
                    let j = choose|j: int| 0 <= j < cur@.len() && cur@[j] == c;
                    if j < old_cur.len() {
                        assert(old_cur[j] == c);
                    }
                }
            }
        }
        i += 1;
    }
    assert(s@.skip(i as int) == Seq::<char>::empty());
    assert(cur@ + s@.skip(i as int) == cur@);
    proof {
        lemma_split_tail(cur@, c);
    }
    if cur.len() > 0 {
        let ghost old_res = res@;
        let last = string_of(&cur);
        res.push(last);
        assert(views(res@) == views(old_res) + seq![cur@]);
    } else {
        assert(views(res@) + Seq::<Seq<char>>::empty() == views(res@));
    }
    res
}

} // verus!

verus! {

// ---------------------------------------------------------------------------
// Ordering
// ---------------------------------------------------------------------------

/// Whether `a` comes before `b` in the lexicographic order of their
/// characters (the order of `str`, since UTF-8 keeps code point order).
pub open spec fn lex_lt(a: Seq<char>, b: Seq<char>) -> bool
    decreases a.len(),
{
    if b.len() == 0 {
        false
    } else if a.len() == 0 {
        true
    } else if (a[0] as u32) < (b[0] as u32) {
        true
    } else if (a[0] as u32) > (b[0] as u32) {
        false
    } else {
        lex_lt(a.drop_first(), b.drop_first())
    }
}

/// `lex_lt` is irreflexive, asymmetric and total on distinct sequences.
pub proof fn lemma_lex_total(a: Seq<char>, b: Seq<char>)
    ensures
        !lex_lt(a, a),
        lex_lt(a, b) ==> !lex_lt(b, a),
        a != b ==> lex_lt(a, b) || lex_lt(b, a),
    decreases a.len(),
{
    if a.len() > 0 {
        lemma_lex_total(a.drop_first(), a.drop_first());
    }
    if a.len() > 0 && b.len() > 0 {
        lemma_lex_total(a.drop_first(), b.drop_first());
        if a != b && a[0] == b[0] {
            assert(a.drop_first() != b.drop_first()) by {
                if a.drop_first() == b.drop_first() {
                    assert(a =~= seq![a[0]] + a.drop_first());
                    assert(b =~= seq![b[0]] + b.drop_first());
                }
            }
        }
        if (a[0] as u32) == (b[0] as u32) {
            vstd::utf8::char_u32_cast(a[0], a[0] as u32);
            vstd::utf8::char_u32_cast(b[0], b[0] as u32);
        }
    } else if a.len() == 0 && b.len() == 0 {
        assert(a == b);
    }
}

/// `lex_lt` is transitive.
pub proof fn lemma_lex_transitive(a: Seq<char>, b: Seq<char>, c: Seq<char>)
    requires
        lex_lt(a, b),
        lex_lt(b, c),
    ensures
        lex_lt(a, c),
    decreases a.len(),
{
    if a.len() > 0 && b.len() > 0 && c.len() > 0 {
        if a[0] as u32 == b[0] as u32 && b[0] as u32 == c[0] as u32 {
            lemma_lex_transitive(a.drop_first(), b.drop_first(), c.drop_first());
        }
    }
}

/// Whether `a` comes before `b` (`a < b` on strings).
pub fn str_lt(a: &str, b: &str) -> (res: bool)
    ensures
        res == lex_lt(a@, b@),
{
    let x = chars_of(a);
    let y = chars_of(b);
    let mut i: usize = 0;
    assert(a@.skip(0) == a@);
    assert(b@.skip(0) == b@);
    while i < x.len() && i < y.len()
        invariant
            i <= x.len(),
            i <= y.len(),
            x@ == a@,
            y@ == b@,
            lex_lt(a@, b@) == lex_lt(a@.skip(i as int), b@.skip(i as int)),
        decreases x.len() - i,
    {
        let ghost sa = a@.skip(i as int);
        let ghost sb = b@.skip(i as int);
        if (x[i] as u32) < (y[i] as u32) {
            return true;
        }
        if (x[i] as u32) > (y[i] as u32) {
            return false;
        }
        assert(sa.drop_first() == a@.skip(i + 1));
        assert(sb.drop_first() == b@.skip(i + 1));
        i += 1;
    }
    y.len() > i
}

} // verus!
