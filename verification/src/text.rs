use vstd::prelude::*;

verus! {

/// The decimal digit character for `d` (0..9).
pub open spec fn digit_char(d: nat) -> char {
    if d == 0 { '0' } else if d == 1 { '1' } else if d == 2 { '2' } else if d == 3 { '3' }
    else if d == 4 { '4' } else if d == 5 { '5' } else if d == 6 { '6' } else if d == 7 { '7' }
    else if d == 8 { '8' } else { '9' }
}

/// Decimal rendering of a natural number, most significant digit first, no leading zeros.
pub open spec fn dec(n: nat) -> Seq<char>
    decreases n,
{
    if n < 10 {
        seq![digit_char(n)]
    } else {
        dec(n / 10).push(digit_char(n % 10))
    }
}

fn digit_to_char(d: u64) -> (c: char)
    requires
        d < 10,
    ensures
        c == digit_char(d as nat),
{
    if d == 0 { '0' } else if d == 1 { '1' } else if d == 2 { '2' } else if d == 3 { '3' }
    else if d == 4 { '4' } else if d == 5 { '5' } else if d == 6 { '6' } else if d == 7 { '7' }
    else if d == 8 { '8' } else { '9' }
}

/// Renders `n` in decimal, as `n.to_string()` does.
pub fn u64_to_string(n: u64) -> (res: String)
    ensures
        res@ == dec(n as nat),
{
    u128_to_string(n as u128)
}

/// The decimal digits of `n`, as `to_string` writes a `u128`.
pub fn u128_to_string(n: u128) -> (res: String)
    ensures
        res@ == dec(n as nat),
{
    let mut digits: Vec<char> = Vec::new();
    let mut m: u128 = n;
    loop
        invariant_except_break
            m <= n,
            dec(n as nat) == dec(m as nat) + digits@.reverse(),
        ensures
            dec(n as nat) == digits@.reverse(),
        decreases m,
    {
        let ghost old_digits = digits@;
        digits.push(digit_to_char((m % 10) as u64));
        if m < 10 {
            assert(digits@.reverse() =~= seq![digit_char(m as nat)] + old_digits.reverse());
            break;
        }
        assert(digits@.reverse() =~= seq![digit_char((m % 10) as nat)] + old_digits.reverse());
        assert(dec(m as nat) == dec((m / 10) as nat).push(digit_char((m % 10) as nat)));
        assert(dec((m / 10) as nat).push(digit_char((m % 10) as nat)) =~= dec((m / 10) as nat) + seq![digit_char((m % 10) as nat)]);
        m = m / 10;
    }
    let mut out = String::new();
    let mut i: usize = digits.len();
    while i > 0
        invariant
            i <= digits.len(),
            out@ =~= digits@.reverse().subrange(0, (digits.len() - i) as int),
        decreases i,
    {
        i = i - 1;
        push_char(&mut out, digits[i]);
    }
    assert(digits@.reverse().subrange(0, digits.len() as int) =~= digits@.reverse());
    out
}

/// Appends one character, as `String::push` does.
#[verifier::external_body]
pub(crate) fn push_char(s: &mut String, c: char)
    ensures
        final(s)@ == old(s)@.push(c),
{
    s.push(c);
}

} // verus!

verus! {

/// The characters of `s`, in order.
pub(crate) fn chars_of(s: &str) -> (v: Vec<char>)
    ensures
        v@ == s@,
{
    broadcast use vstd::string::axiom_spec_iter;
    let mut v: Vec<char> = Vec::new();
    for c in it: s.chars()
        invariant
            it.seq() == s@,
            v@ == it.seq().take(it.index() as int),
    {
        v.push(c);
    }
    v
}

/// An owned copy of `s`.
pub(crate) fn owned(s: &str) -> (r: String)
    ensures
        r@ == s@,
{
    s.to_owned()
}

/// Appends `t` to `s`, as `String::push_str` does.
pub(crate) fn push_str(s: &mut String, t: &str)
    ensures
        final(s)@ == old(s)@ + t@,
{
    s.append(t);
}

/// Whether two strings hold the same characters, as `==` on `str` does.
pub(crate) fn str_eq(a: &str, b: &str) -> (r: bool)
    ensures
        r == (a@ == b@),
{
    let x = a.to_owned();
    let y = b.to_owned();
    x == y
}

/// A string made of the characters in `v`.
pub fn string_from_chars(v: &[char]) -> (r: String)
    ensures
        r@ == v@,
{
    let mut r = String::new();
    let mut i: usize = 0;
    while i < v.len()
        invariant
            i <= v.len(),
            r@ =~= v@.subrange(0, i as int),
        decreases v.len() - i,
    {
        push_char(&mut r, v[i]);
        i = i + 1;
    }
    r
}

/// A string made of the characters `v[i..j]`.
pub fn string_of_range(v: &Vec<char>, i: usize, j: usize) -> (r: String)
    requires
        i <= j <= v@.len(),
    ensures
        r@ == v@.subrange(i as int, j as int),
{
    let mut r = String::new();
    let mut k: usize = i;
    while k < j
        invariant
            i <= k <= j <= v@.len(),
            r@ =~= v@.subrange(i as int, k as int),
        decreases j - k,
    {
        push_char(&mut r, v[k]);
        k = k + 1;
    }
    r
}

/// `p` occurs in `s` starting at index `i`.
pub open spec fn occurs_at(s: Seq<char>, p: Seq<char>, i: int) -> bool {
    0 <= i && i + p.len() <= s.len() && s.subrange(i, i + p.len()) == p
}

/// `p` is a prefix of `s`.
pub open spec fn is_prefix(p: Seq<char>, s: Seq<char>) -> bool {
    occurs_at(s, p, 0)
}

/// `p` is a suffix of `s`.
pub open spec fn is_suffix(p: Seq<char>, s: Seq<char>) -> bool {
    p.len() <= s.len() && occurs_at(s, p, s.len() - p.len())
}

/// `p` occurs somewhere in `s`, as `str::contains` decides.
pub open spec fn contains(s: Seq<char>, p: Seq<char>) -> bool {
    exists|i: int| occurs_at(s, p, i)
}

pub(crate) fn occurs_at_exec(s: &Vec<char>, p: &Vec<char>, i: usize) -> (r: bool)
    requires
        i + p@.len() <= s@.len(),
    ensures
        r == occurs_at(s@, p@, i as int),
{
    let mut j: usize = 0;
    let n = s.len();
    while j < p.len()
        invariant
            n == s@.len(),
            j <= p@.len(),
            i + p@.len() <= s@.len(),
            forall|k: int| 0 <= k < j ==> s@[i + k] == p@[k],
        decreases p.len() - j,
    {
        assert(i + j < s@.len());
        if s[i + j] != p[j] {
            assert(s@.subrange(i as int, i + p@.len())[j as int] != p@[j as int]);
            return false;
        }
        j = j + 1;
    }
    assert(s@.subrange(i as int, i + p@.len()) =~= p@);
    true
}

/// Index of the first occurrence of `p` in `s` at or after `from`.
pub fn find_from(s: &Vec<char>, p: &Vec<char>, from: usize) -> (r: Option<usize>)
    ensures
        match r {
            Some(i) => from <= i && occurs_at(s@, p@, i as int)
                && forall|k: int| from <= k < i ==> !occurs_at(s@, p@, k),
            None => forall|k: int| from <= k ==> !occurs_at(s@, p@, k),
        },
{
    if p.len() > s.len() {
        return None;
    }
    let last = s.len() - p.len();
    let mut i: usize = from;
    while i <= last
        invariant
            last == s@.len() - p@.len(),
            from <= i,
            forall|k: int| from <= k < i ==> !occurs_at(s@, p@, k),
        decreases last + 1 - i,
    {
        if occurs_at_exec(s, p, i) {
            return Some(i);
        }
        if i == last {
            return None;
        }
        i = i + 1;
    }
    None
}

/// Whether `p` occurs in `s`, as `str::contains` decides.
pub fn str_contains(s: &str, p: &str) -> (r: bool)
    ensures
        r == contains(s@, p@),
{
    let sv = chars_of(s);
    let pv = chars_of(p);
    match find_from(&sv, &pv, 0) {
        Some(_) => true,
        None => false,
    }
}

/// Whether `s` starts with `p`, as `str::starts_with` decides.
pub fn starts_with(s: &str, p: &str) -> (r: bool)
    ensures
        r == is_prefix(p@, s@),
{
    let sv = chars_of(s);
    let pv = chars_of(p);
    if pv.len() > sv.len() {
        return false;
    }
    occurs_at_exec(&sv, &pv, 0)
}

/// Whether `s` ends with `p`, as `str::ends_with` decides.
pub fn ends_with(s: &str, p: &str) -> (r: bool)
    ensures
        r == is_suffix(p@, s@),
{
    let sv = chars_of(s);
    let pv = chars_of(p);
    if pv.len() > sv.len() {
        return false;
    }
    occurs_at_exec(&sv, &pv, sv.len() - pv.len())
}

/// Every non-overlapping occurrence of `from` in `s`, taken left to right,
/// replaced by `to`, as `str::replace` does.
pub open spec fn replace_all(s: Seq<char>, from: Seq<char>, to: Seq<char>) -> Seq<char>
    decreases s.len(),
{
    if from.len() == 0 {
        if s.len() == 0 {
            to
        } else {
            to + seq![s[0]] + replace_all(s.drop_first(), from, to)
        }
    } else if s.len() < from.len() {
        s
    } else if s.subrange(0, from.len() as int) == from {
        to + replace_all(s.subrange(from.len() as int, s.len() as int), from, to)
    } else {
        seq![s[0]] + replace_all(s.drop_first(), from, to)
    }
}

/// Replaces every occurrence of `from` in `s` by `to`, as `str::replace` does.
pub fn replace(s: &str, from: &str, to: &str) -> (r: String)
    ensures
        r@ == replace_all(s@, from@, to@),
{
    let sv = chars_of(s);
    let fv = chars_of(from);
    let mut out = String::new();
    let mut i: usize = 0;
    assert(s@.subrange(0, s@.len() as int) =~= s@);
    while i < sv.len()
        invariant
            i <= sv@.len(),
            sv@ == s@,
            fv@ == from@,
            replace_all(s@, from@, to@) == out@ + replace_all(s@.subrange(i as int, s@.len() as int), from@, to@),
        decreases sv.len() - i,
    {
        let ghost rest = s@.subrange(i as int, s@.len() as int);
        if fv.len() == 0 {
            assert(rest.drop_first() =~= s@.subrange(i + 1, s@.len() as int));
            let ghost before = out@;
            push_str(&mut out, to);
            push_char(&mut out, sv[i]);
            i = i + 1;
            assert(before + replace_all(rest, from@, to@) =~= out@ + replace_all(s@.subrange(i as int, s@.len() as int), from@, to@));
        } else if fv.len() <= sv.len() - i && occurs_at_exec(&sv, &fv, i) {
            assert(rest.subrange(0, from@.len() as int) =~= s@.subrange(i as int, i + from@.len()));
            assert(rest.subrange(from@.len() as int, rest.len() as int) =~= s@.subrange(i + from@.len(), s@.len() as int));
            push_str(&mut out, to);
            i = i + fv.len();
        } else {
            if fv.len() <= sv.len() - i {
                assert(rest.subrange(0, from@.len() as int) =~= s@.subrange(i as int, i + from@.len()));
            }
            assert(rest.drop_first() =~= s@.subrange(i + 1, s@.len() as int));
            push_char(&mut out, sv[i]);
            i = i + 1;
        }
    }
    assert(s@.subrange(i as int, s@.len() as int) =~= Seq::<char>::empty());
    if fv.len() == 0 {
        push_str(&mut out, to);
    }
    out
}

} // verus!

verus! {

/// The views of a sequence of strings.
pub open spec fn views(v: Seq<String>) -> Seq<Seq<char>> {
    v.map_values(|x: String| x@)
}

/// Unicode white space, as `char::is_whitespace` decides.
pub open spec fn is_ws(c: char) -> bool {
    let u = c as u32;
    (9 <= u && u <= 13) || u == 32 || u == 0x85 || u == 0xa0 || u == 0x1680
        || (0x2000 <= u && u <= 0x200a) || u == 0x2028 || u == 0x2029 || u == 0x202f
        || u == 0x205f || u == 0x3000
}

/// Whether `c` is white space, as `char::is_whitespace` decides.
pub fn is_whitespace(c: char) -> (r: bool)
    ensures
        r == is_ws(c),
{
    let u = c as u32;
    (9 <= u && u <= 13) || u == 32 || u == 0x85 || u == 0xa0 || u == 0x1680
        || (0x2000 <= u && u <= 0x200a) || u == 0x2028 || u == 0x2029 || u == 0x202f
        || u == 0x205f || u == 0x3000
}

/// `s` without its leading white space.
pub open spec fn trim_start(s: Seq<char>) -> Seq<char>
    decreases s.len(),
{
    if s.len() > 0 && is_ws(s[0]) {
        trim_start(s.drop_first())
    } else {
        s
    }
}

/// `s` without its trailing white space.
pub open spec fn trim_end(s: Seq<char>) -> Seq<char>
    decreases s.len(),
{
    if s.len() > 0 && is_ws(s.last()) {
        trim_end(s.drop_last())
    } else {
        s
    }
}

/// `s` without leading and trailing white space, as `str::trim` gives.
pub open spec fn trim(s: Seq<char>) -> Seq<char> {
    trim_end(trim_start(s))
}

/// Removes leading and trailing white space, as `str::trim` does.
pub fn trim_str(s: &str) -> (r: String)
    ensures
        r@ == trim(s@),
{
    let v = chars_of(s);
    let n = v.len();
    let mut i: usize = 0;
    assert(v@.subrange(0, n as int) =~= v@);
    while i < n && is_whitespace(v[i])
        invariant
            n == v@.len(),
            v@ == s@,
            i <= n,
            trim_start(s@) == trim_start(v@.subrange(i as int, n as int)),
        decreases n - i,
    {
        assert(v@.subrange(i as int, n as int).drop_first() =~= v@.subrange(i + 1, n as int));
        i = i + 1;
    }
    let mut j: usize = n;
    assert(v@.subrange(i as int, j as int) =~= v@.subrange(i as int, n as int));
    while j > i && is_whitespace(v[j - 1])
        invariant
            n == v@.len(),
            v@ == s@,
            i <= j <= n,
            trim(s@) == trim_end(v@.subrange(i as int, j as int)),
        decreases j,
    {
        assert(v@.subrange(i as int, j as int).drop_last() =~= v@.subrange(i as int, j - 1));
        j = j - 1;
    }
    string_of_range(&v, i, j)
}

} // verus!

verus! {

/// The pieces of `s` between occurrences of `c`, the current piece being `cur`.
pub open spec fn split_acc(s: Seq<char>, c: char, cur: Seq<char>) -> Seq<Seq<char>>
    decreases s.len(),
{
    if s.len() == 0 {
        seq![cur]
    } else if s[0] == c {
        seq![cur] + split_acc(s.drop_first(), c, seq![])
    } else {
        split_acc(s.drop_first(), c, cur.push(s[0]))
    }
}

/// The pieces of `s` between occurrences of `c`, as `str::split(c)` yields them.
pub open spec fn split_char(s: Seq<char>, c: char) -> Seq<Seq<char>> {
    split_acc(s, c, seq![])
}

/// Splits `s` at every `c`, as `str::split` with a `char` does.
pub fn split_on(s: &str, c: char) -> (r: Vec<String>)
    ensures
        views(r@) == split_char(s@, c),
{
    let v = chars_of(s);
    let mut out: Vec<String> = Vec::new();
    let mut start: usize = 0;
    let mut i: usize = 0;
    assert(v@.subrange(0, v@.len() as int) =~= v@);
    assert(v@.subrange(0, 0) =~= Seq::<char>::empty());
    while i < v.len()
        invariant
            v@ == s@,
            start <= i <= v@.len(),
            split_char(s@, c) == views(out@) + split_acc(v@.subrange(i as int, v@.len() as int), c, v@.subrange(start as int, i as int)),
        decreases v.len() - i,
    {
        let ghost rest = v@.subrange(i as int, v@.len() as int);
        assert(rest.drop_first() =~= v@.subrange(i + 1, v@.len() as int));
        if v[i] == c {
            let piece = string_of_range(&v, start, i);
            let ghost old_out = out@;
            out.push(piece);
            assert(views(out@) =~= views(old_out).push(piece@));
            i = i + 1;
            start = i;
            assert(v@.subrange(start as int, i as int) =~= Seq::<char>::empty());
        } else {
            assert(v@.subrange(start as int, i as int).push(v@[i as int]) =~= v@.subrange(start as int, i + 1));
            i = i + 1;
        }
    }
    let piece = string_of_range(&v, start, i);
    let ghost old_out = out@;
    out.push(piece);
    assert(views(out@) =~= views(old_out).push(piece@));
    assert(v@.subrange(i as int, v@.len() as int) =~= Seq::<char>::empty());
    out
}

/// `cur` without one trailing carriage return.
pub open spec fn strip_cr(cur: Seq<char>) -> Seq<char> {
    if cur.len() > 0 && cur.last() == '\r' {
        cur.drop_last()
    } else {
        cur
    }
}

/// The lines of `s` after the partial line `cur`, as `str::lines` yields them.
pub open spec fn lines_acc(s: Seq<char>, cur: Seq<char>) -> Seq<Seq<char>>
    decreases s.len(),
{
    if s.len() == 0 {
        if cur.len() == 0 {
            seq![]
        } else {
            seq![cur]
        }
    } else if s[0] == '\n' {
        seq![strip_cr(cur)] + lines_acc(s.drop_first(), seq![])
    } else {
        lines_acc(s.drop_first(), cur.push(s[0]))
    }
}

/// The lines of `s`, as `str::lines` yields them: split at `\n`, one trailing
/// `\r` dropped from each terminated line, no empty line after a final `\n`.
pub open spec fn lines(s: Seq<char>) -> Seq<Seq<char>> {
    lines_acc(s, seq![])
}

/// A text with at least one character, or a pending partial line, has at
/// least one line.
pub proof fn lemma_lines_nonempty(s: Seq<char>, cur: Seq<char>)
    requires
        s.len() > 0 || cur.len() > 0,
    ensures
        lines_acc(s, cur).len() > 0,
    decreases s.len(),
{
    if s.len() > 0 && s[0] != '\n' {
        lemma_lines_nonempty(s.drop_first(), cur.push(s[0]));
    }
}

/// The lines of `s`, as `str::lines` yields them.
pub fn lines_of(s: &str) -> (r: Vec<String>)
    ensures
        views(r@) == lines(s@),
{
    let v = chars_of(s);
    let mut out: Vec<String> = Vec::new();
    let mut start: usize = 0;
    let mut i: usize = 0;
    assert(v@.subrange(0, v@.len() as int) =~= v@);
    assert(v@.subrange(0, 0) =~= Seq::<char>::empty());
    while i < v.len()
        invariant
            v@ == s@,
            start <= i <= v@.len(),
            lines(s@) == views(out@) + lines_acc(v@.subrange(i as int, v@.len() as int), v@.subrange(start as int, i as int)),
        decreases v.len() - i,
    {
        let ghost rest = v@.subrange(i as int, v@.len() as int);
        assert(rest.drop_first() =~= v@.subrange(i + 1, v@.len() as int));
        if v[i] == '\n' {
            let end = if i > start && v[i - 1] == '\r' { i - 1 } else { i };
            let piece = string_of_range(&v, start, end);
            assert(piece@ =~= strip_cr(v@.subrange(start as int, i as int)));
            let ghost old_out = out@;
            out.push(piece);
            assert(views(out@) =~= views(old_out).push(piece@));
            i = i + 1;
            start = i;
            assert(v@.subrange(start as int, i as int) =~= Seq::<char>::empty());
        } else {
            assert(v@.subrange(start as int, i as int).push(v@[i as int]) =~= v@.subrange(start as int, i + 1));
            i = i + 1;
        }
    }
    assert(v@.subrange(i as int, v@.len() as int) =~= Seq::<char>::empty());
    if start < i {
        let piece = string_of_range(&v, start, i);
        let ghost old_out = out@;
        out.push(piece);
        assert(views(out@) =~= views(old_out).push(piece@));
    } else {
        assert(views(out@) + Seq::<Seq<char>>::empty() =~= views(out@));
    }
    out
}

/// The pieces joined with `sep` between them, as `join` on a slice of strings gives.
pub open spec fn join(parts: Seq<Seq<char>>, sep: Seq<char>) -> Seq<char>
    decreases parts.len(),
{
    if parts.len() == 0 {
        seq![]
    } else if parts.len() == 1 {
        parts[0]
    } else {
        join(parts.drop_last(), sep) + sep + parts.last()
    }
}

/// Joins the strings with `sep` between them, as `[String]::join` does.
pub fn join_strings(parts: &Vec<String>, sep: &str) -> (r: String)
    ensures
        r@ == join(views(parts@), sep@),
{
    let mut out = String::new();
    let mut i: usize = 0;
    while i < parts.len()
        invariant
            i <= parts@.len(),
            out@ == join(views(parts@).subrange(0, i as int), sep@),
        decreases parts.len() - i,
    {
        let ghost pre = views(parts@).subrange(0, i as int);
        if i > 0 {
            push_str(&mut out, sep);
        }
        push_str(&mut out, parts[i].as_str());
        assert(views(parts@).subrange(0, i + 1).drop_last() =~= pre);
        assert(i == 0 ==> views(parts@).subrange(0, 1) =~= seq![parts@[0]@]);
        i = i + 1;
    }
    assert(views(parts@).subrange(0, parts@.len() as int) =~= views(parts@));
    out
}

} // verus!

verus! {

/// An ASCII decimal digit.
pub open spec fn is_digit(c: char) -> bool {
    '0' as u32 <= c as u32 && c as u32 <= '9' as u32
}

/// The value of an ASCII decimal digit.
pub open spec fn digit_val(c: char) -> nat {
    (c as u32 - '0' as u32) as nat
}

/// Every character of `s` is an ASCII digit.
pub open spec fn all_digits(s: Seq<char>) -> bool {
    forall|i: int| 0 <= i < s.len() ==> is_digit(#[trigger] s[i])
}

/// The number that the digits of `s` spell in decimal.
pub open spec fn digits_value(s: Seq<char>) -> nat
    decreases s.len(),
{
    if s.len() == 0 {
        0
    } else {
        digits_value(s.drop_last()) * 10 + digit_val(s.last())
    }
}

/// `s` without one leading `+`.
pub open spec fn unsigned_body(s: Seq<char>) -> Seq<char> {
    if s.len() > 0 && s[0] == '+' {
        s.drop_first()
    } else {
        s
    }
}

/// What `s.parse::<u64>()` gives, `None` for its error.
pub open spec fn parse_u64_spec(s: Seq<char>) -> Option<u64> {
    let b = unsigned_body(s);
    if b.len() > 0 && all_digits(b) && digits_value(b) <= u64::MAX {
        Some(digits_value(b) as u64)
    } else {
        None
    }
}

/// What `s.parse::<u32>()` gives, `None` for its error.
pub open spec fn parse_u32_spec(s: Seq<char>) -> Option<u32> {
    let b = unsigned_body(s);
    if b.len() > 0 && all_digits(b) && digits_value(b) <= u32::MAX {
        Some(digits_value(b) as u32)
    } else {
        None
    }
}

/// What `s.parse::<i32>()` gives, `None` for its error.
pub open spec fn parse_i32_spec(s: Seq<char>) -> Option<i32> {
    if s.len() > 0 && s[0] == '-' {
        let b = s.drop_first();
        if b.len() > 0 && all_digits(b) && digits_value(b) <= 0x8000_0000 {
            Some((0 - digits_value(b)) as i32)
        } else {
            None
        }
    } else {
        let b = unsigned_body(s);
        if b.len() > 0 && all_digits(b) && digits_value(b) <= i32::MAX {
            Some(digits_value(b) as i32)
        } else {
            None
        }
    }
}

/// What `s.parse::<bool>()` gives, `None` for its error.
pub open spec fn parse_bool_spec(s: Seq<char>) -> Option<bool> {
    if s == "true"@ {
        Some(true)
    } else if s == "false"@ {
        Some(false)
    } else {
        None
    }
}

proof fn lemma_digits_value_prefix(s: Seq<char>, k: int)
    requires
        0 <= k <= s.len(),
    ensures
        digits_value(s.subrange(0, k)) <= digits_value(s),
    decreases s.len() - k,
{
    if k < s.len() {
        lemma_digits_value_prefix(s, k + 1);
        assert(s.subrange(0, k + 1).drop_last() =~= s.subrange(0, k));
    } else {
        assert(s.subrange(0, k) =~= s);
    }
}

/// The value of the digits `v[i..j]`, if all are digits and the value fits in a `u64`.
fn digits_u64(v: &Vec<char>, i: usize, j: usize) -> (r: Option<u64>)
    requires
        i <= j <= v@.len(),
    ensures
        match r {
            Some(x) => all_digits(v@.subrange(i as int, j as int))
                && x == digits_value(v@.subrange(i as int, j as int)),
            None => !(all_digits(v@.subrange(i as int, j as int))
                && digits_value(v@.subrange(i as int, j as int)) <= u64::MAX),
        },
{
    let ghost b = v@.subrange(i as int, j as int);
    let mut x: u64 = 0;
    let mut k: usize = i;
    while k < j
        invariant
            i <= k <= j <= v@.len(),
            b == v@.subrange(i as int, j as int),
            all_digits(v@.subrange(i as int, k as int)),
            x == digits_value(v@.subrange(i as int, k as int)),
        decreases j - k,
    {
        let c = v[k];
        assert(b[k - i] == c);
        let u = c as u32;
        if !(48 <= u && u <= 57) {
            assert(!is_digit(b[(k - i) as int]));
            return None;
        }
        let d = (u - 48) as u64;
        assert(v@.subrange(i as int, k + 1).drop_last() =~= v@.subrange(i as int, k as int));
        assert(v@.subrange(i as int, k + 1) =~= b.subrange(0, k + 1 - i));
        match x.checked_mul(10) {
            Some(y) => match y.checked_add(d) {
                Some(z) => {
                    x = z;
                }
                None => {
                    proof { lemma_digits_value_prefix(b, k + 1 - i); }
                    return None;
                }
            },
            None => {
                proof { lemma_digits_value_prefix(b, k + 1 - i); }
                return None;
            }
        }
        k = k + 1;
    }
    Some(x)
}

/// Parses a `u64` in decimal, as `str::parse::<u64>` does.
pub fn parse_u64(s: &str) -> (r: Option<u64>)
    ensures
        r == parse_u64_spec(s@),
{
    let v = chars_of(s);
    let start: usize = if v.len() > 0 && v[0] == '+' { 1 } else { 0 };
    assert(v@.subrange(start as int, v@.len() as int) =~= unsigned_body(s@));
    if start == v.len() {
        return None;
    }
    digits_u64(&v, start, v.len())
}

/// Parses a `u32` in decimal, as `str::parse::<u32>` does.
pub fn parse_u32(s: &str) -> (r: Option<u32>)
    ensures
        r == parse_u32_spec(s@),
{
    match parse_u64(s) {
        Some(x) => if x <= 0xffff_ffff { Some(x as u32) } else { None },
        None => {
            None
        }
    }
}

/// Parses an `i32` in decimal, as `str::parse::<i32>` does.
pub fn parse_i32(s: &str) -> (r: Option<i32>)
    ensures
        r == parse_i32_spec(s@),
{
    let v = chars_of(s);
    if v.len() > 0 && v[0] == '-' {
        assert(v@.subrange(1, v@.len() as int) =~= s@.drop_first());
        if v.len() == 1 {
            return None;
        }
        match digits_u64(&v, 1, v.len()) {
            Some(x) => if x <= 0x8000_0000 {
                Some((0 - (x as i64)) as i32)
            } else {
                None
            },
            None => None,
        }
    } else {
        let start: usize = if v.len() > 0 && v[0] == '+' { 1 } else { 0 };
        assert(v@.subrange(start as int, v@.len() as int) =~= unsigned_body(s@));
        if start == v.len() {
            return None;
        }
        match digits_u64(&v, start, v.len()) {
            Some(x) => if x <= 0x7fff_ffff { Some(x as i32) } else { None },
            None => None,
        }
    }
}

/// Parses a `bool`, as `str::parse::<bool>` does.
pub fn parse_bool(s: &str) -> (r: Option<bool>)
    ensures
        r == parse_bool_spec(s@),
{
    if str_eq(s, "true") {
        Some(true)
    } else if str_eq(s, "false") {
        Some(false)
    } else {
        None
    }
}

/// Decimal rendering of a signed number, as `{}` formats an `i32`.
pub open spec fn dec_int(x: int) -> Seq<char> {
    if x < 0 {
        seq!['-'] + dec((0 - x) as nat)
    } else {
        dec(x as nat)
    }
}

/// Renders `x` in decimal, as `x.to_string()` does.
pub fn i32_to_string(x: i32) -> (r: String)
    ensures
        r@ == dec_int(x as int),
{
    if x < 0 {
        let m = (0 - (x as i64)) as u64;
        let mut r = String::new();
        push_char(&mut r, '-');
        let d = u64_to_string(m);
        push_str(&mut r, d.as_str());
        r
    } else {
        u64_to_string(x as u64)
    }
}

/// The decimal rendering of `n` spells `n`, with no sign.
pub proof fn lemma_dec_digits(n: nat)
    ensures
        dec(n).len() > 0,
        all_digits(dec(n)),
        digits_value(dec(n)) == n,
    decreases n,
{
    if n >= 10 {
        lemma_dec_digits(n / 10);
        let d = dec(n);
        assert(d.drop_last() =~= dec(n / 10));
        assert(digit_val(digit_char(n % 10)) == n % 10);
        assert(d.last() == digit_char(n % 10));
        assert((n / 10) * 10 + n % 10 == n) by (nonlinear_arith);
        assert(digits_value(d) == digits_value(d.drop_last()) * 10 + digit_val(d.last()));
        assert(digits_value(d) == (n / 10) * 10 + n % 10);
        assert forall|i: int| 0 <= i < d.len() implies is_digit(#[trigger] d[i]) by {
            if i < d.len() - 1 {
                assert(d[i] == dec(n / 10)[i]);
            }
        }
    } else {
        assert(digit_val(digit_char(n)) == n);
        let d = dec(n);
        assert(d.drop_last() =~= Seq::<char>::empty());
        assert(digits_value(d.drop_last()) == 0);
        assert(d.last() == digit_char(n));
        assert(digits_value(d) == digits_value(d.drop_last()) * 10 + digit_val(d.last()));
    }
}

/// Reading back the decimal rendering of a number gives the number.
pub proof fn lemma_parse_dec_u64(n: u64)
    ensures
        parse_u64_spec(dec(n as nat)) == Some(n),
{
    lemma_dec_digits(n as nat);
    assert(dec(n as nat)[0] != '+') by {
        assert(is_digit(dec(n as nat)[0]));
    }
}

/// Reading back the decimal rendering of an `i32` gives the number.
pub proof fn lemma_parse_dec_i32(x: i32)
    ensures
        parse_i32_spec(dec_int(x as int)) == Some(x),
{
    if x < 0 {
        let m = (0 - x) as nat;
        lemma_dec_digits(m);
        assert(dec_int(x as int).drop_first() =~= dec(m));
    } else {
        lemma_dec_digits(x as nat);
        assert(is_digit(dec(x as nat)[0]));
    }
}

} // verus!

verus! {

/// The lower-case hexadecimal digit character for `d` (0..15).
pub open spec fn hex_digit_char(d: nat) -> char {
    if d < 10 { digit_char(d) } else if d == 10 { 'a' } else if d == 11 { 'b' } else if d == 12 { 'c' }
    else if d == 13 { 'd' } else if d == 14 { 'e' } else { 'f' }
}

/// Lower-case hexadecimal rendering of `n`, as `{:x}` formats it.
pub open spec fn hex(n: nat) -> Seq<char>
    decreases n,
{
    if n < 16 {
        seq![hex_digit_char(n)]
    } else {
        hex(n / 16).push(hex_digit_char(n % 16))
    }
}

fn hex_digit_to_char(d: u64) -> (c: char)
    requires
        d < 16,
    ensures
        c == hex_digit_char(d as nat),
{
    if d < 10 { digit_to_char(d) } else if d == 10 { 'a' } else if d == 11 { 'b' } else if d == 12 { 'c' }
    else if d == 13 { 'd' } else if d == 14 { 'e' } else { 'f' }
}

/// Renders `n` in lower-case hexadecimal, as `format!("{:x}", n)` does.
pub fn u64_to_hex(n: u64) -> (res: String)
    ensures
        res@ == hex(n as nat),
{
    let mut digits: Vec<char> = Vec::new();
    let mut m: u64 = n;
    loop
        invariant_except_break
            m <= n,
            hex(n as nat) == hex(m as nat) + digits@.reverse(),
        ensures
            hex(n as nat) == digits@.reverse(),
        decreases m,
    {
        let ghost old_digits = digits@;
        digits.push(hex_digit_to_char(m % 16));
        if m < 16 {
            assert(digits@.reverse() =~= seq![hex_digit_char(m as nat)] + old_digits.reverse());
            break;
        }
        assert(digits@.reverse() =~= seq![hex_digit_char((m % 16) as nat)] + old_digits.reverse());
        assert(hex((m / 16) as nat).push(hex_digit_char((m % 16) as nat)) =~= hex((m / 16) as nat) + seq![hex_digit_char((m % 16) as nat)]);
        m = m / 16;
    }
    let mut out = String::new();
    let mut i: usize = digits.len();
    while i > 0
        invariant
            i <= digits.len(),
            out@ =~= digits@.reverse().subrange(0, (digits.len() - i) as int),
        decreases i,
    {
        i = i - 1;
        push_char(&mut out, digits[i]);
    }
    assert(digits@.reverse().subrange(0, digits.len() as int) =~= digits@.reverse());
    out
}

/// The lower-case form of `s` that `str::to_lowercase` gives (Unicode case mapping).
pub uninterp spec fn lowercase(s: Seq<char>) -> Seq<char>;

/// The upper-case form of `s` that `str::to_uppercase` gives (Unicode case mapping).
pub uninterp spec fn uppercase(s: Seq<char>) -> Seq<char>;

/// Every character of `s` is ASCII.
pub open spec fn all_ascii(s: Seq<char>) -> bool {
    forall|i: int| 0 <= i < s.len() ==> (#[trigger] s[i] as u32) < 128
}

/// The ASCII lower-case form of `c`: `A`..`Z` become `a`..`z`, the rest stay.
pub open spec fn ascii_lower(c: char) -> char {
    if 65 <= (c as u32) && (c as u32) <= 90 {
        ((c as u32) + 32) as char
    } else {
        c
    }
}

/// The ASCII upper-case form of `c`: `a`..`z` become `A`..`Z`, the rest stay.
pub open spec fn ascii_upper(c: char) -> char {
    if 97 <= (c as u32) && (c as u32) <= 122 {
        ((c as u32) - 32) as char
    } else {
        c
    }
}

/// Each character of `s` mapped to its ASCII lower-case form.
pub open spec fn ascii_lowered(s: Seq<char>) -> Seq<char> {
    s.map_values(|c: char| ascii_lower(c))
}

/// Each character of `s` mapped to its ASCII upper-case form.
pub open spec fn ascii_uppered(s: Seq<char>) -> Seq<char> {
    s.map_values(|c: char| ascii_upper(c))
}

/// Lowering an ASCII text once is the same as lowering it twice, and keeps it ASCII.
pub proof fn lemma_ascii_lowered_idempotent(s: Seq<char>)
    requires
        all_ascii(s),
    ensures
        all_ascii(ascii_lowered(s)),
        ascii_lowered(ascii_lowered(s)) == ascii_lowered(s),
{
    assert(ascii_lowered(ascii_lowered(s)) =~= ascii_lowered(s));
}

/// Calls `str::to_lowercase`; its result is named `lowercase`, a function of the
/// characters of `s` alone. Of Unicode's case mapping only the ASCII part is
/// stated: on ASCII text each letter `A`..`Z` becomes `a`..`z` and nothing else
/// changes, as the documentation of `to_lowercase` and of `char::to_ascii_lowercase`
/// give it.
#[verifier::external_body]
pub(crate) fn to_lower(s: &str) -> (r: String)
    ensures
        r@ == lowercase(s@),
        all_ascii(s@) ==> r@ == ascii_lowered(s@),
{
    s.to_lowercase()
}

/// Calls `str::to_uppercase`; its result is named `uppercase`, a function of the
/// characters of `s` alone. Of Unicode's case mapping only the ASCII part is
/// stated: on ASCII text each letter `a`..`z` becomes `A`..`Z` and nothing else
/// changes.
#[verifier::external_body]
pub(crate) fn to_upper(s: &str) -> (r: String)
    ensures
        r@ == uppercase(s@),
        all_ascii(s@) ==> r@ == ascii_uppered(s@),
{
    s.to_uppercase()
}

/// Seconds since the Unix epoch, from `SystemTime::now`; nothing is promised of
/// the value, which depends on the clock.
#[verifier::external_body]
pub(crate) fn now_secs() -> (r: u64) {
    std::time::SystemTime::now().duration_since(std::time::UNIX_EPOCH).map(|d| d.as_secs()).unwrap_or(0)
}

/// Milliseconds since the Unix epoch, from `SystemTime::now`; nothing is promised
/// of the value, which depends on the clock.
#[verifier::external_body]
pub(crate) fn now_millis() -> (r: u64) {
    std::time::SystemTime::now().duration_since(std::time::UNIX_EPOCH).map(|d| d.as_millis() as u64).unwrap_or(0)
}

/// Concatenation of two strings.
pub fn cat(a: &str, b: &str) -> (r: String)
    ensures
        r@ == a@ + b@,
{
    let mut r = owned(a);
    push_str(&mut r, b);
    r
}

/// Concatenation of three strings.
pub fn cat3(a: &str, b: &str, c: &str) -> (r: String)
    ensures
        r@ == a@ + b@ + c@,
{
    let mut r = owned(a);
    push_str(&mut r, b);
    push_str(&mut r, c);
    r
}

} // verus!

verus! {

/// `s` with `p` removed from its front, if `s` starts with `p`.
pub open spec fn strip_prefix_spec(s: Seq<char>, p: Seq<char>) -> Option<Seq<char>> {
    if is_prefix(p, s) {
        Some(s.subrange(p.len() as int, s.len() as int))
    } else {
        None
    }
}

/// Removes `p` from the front of `s`, as `str::strip_prefix` does.
pub fn strip_prefix(s: &str, p: &str) -> (r: Option<String>)
    ensures
        match r {
            Some(t) => strip_prefix_spec(s@, p@) == Some(t@),
            None => strip_prefix_spec(s@, p@) is None,
        },
{
    let sv = chars_of(s);
    let pv = chars_of(p);
    if pv.len() > sv.len() {
        return None;
    }
    if occurs_at_exec(&sv, &pv, 0) {
        Some(string_of_range(&sv, pv.len(), sv.len()))
    } else {
        None
    }
}

/// `s` with every trailing repetition of `p` removed, as `str::trim_end_matches` gives.
pub open spec fn trim_end_matches_spec(s: Seq<char>, p: Seq<char>) -> Seq<char>
    decreases s.len(),
{
    if p.len() > 0 && is_suffix(p, s) {
        trim_end_matches_spec(s.subrange(0, s.len() - p.len()), p)
    } else {
        s
    }
}

/// Removes every trailing repetition of `p`, as `str::trim_end_matches` does.
pub fn trim_end_matches(s: &str, p: &str) -> (r: String)
    ensures
        r@ == trim_end_matches_spec(s@, p@),
{
    let sv = chars_of(s);
    let pv = chars_of(p);
    let mut j: usize = sv.len();
    assert(sv@.subrange(0, j as int) =~= s@);
    if pv.len() > 0 {
        while pv.len() <= j && occurs_at_exec(&sv, &pv, j - pv.len())
            invariant
                sv@ == s@,
                pv@ == p@,
                pv@.len() > 0,
                j <= sv@.len(),
                trim_end_matches_spec(s@, p@) == trim_end_matches_spec(sv@.subrange(0, j as int), p@),
            decreases j,
        {
            let ghost t = sv@.subrange(0, j as int);
            assert(t.subrange(j - pv@.len(), j as int) =~= sv@.subrange(j - pv@.len(), j as int));
            assert(t.subrange(0, j - pv@.len()) =~= sv@.subrange(0, j - pv@.len()));
            j = j - pv.len();
        }
        proof {
            let t = sv@.subrange(0, j as int);
            if pv@.len() <= j {
                assert(t.subrange(j - pv@.len(), j as int) =~= sv@.subrange(j - pv@.len(), j as int));
            }
        }
    }
    string_of_range(&sv, 0, j)
}

} // verus!

verus! {

/// Removes trailing white space, as `str::trim_end` does.
pub fn trim_end_str(s: &str) -> (r: String)
    ensures
        r@ == trim_end(s@),
{
    let v = chars_of(s);
    let mut j: usize = v.len();
    assert(v@.subrange(0, j as int) =~= s@);
    while j > 0 && is_whitespace(v[j - 1])
        invariant
            v@ == s@,
            j <= v@.len(),
            trim_end(s@) == trim_end(v@.subrange(0, j as int)),
        decreases j,
    {
        assert(v@.subrange(0, j as int).drop_last() =~= v@.subrange(0, j - 1));
        j = j - 1;
    }
    string_of_range(&v, 0, j)
}

} // verus!

verus! {

/// The characters of `t` up to its first white space.
pub open spec fn word_prefix(t: Seq<char>) -> Seq<char>
    decreases t.len(),
{
    if t.len() == 0 || is_ws(t[0]) {
        seq![]
    } else {
        seq![t[0]] + word_prefix(t.drop_first())
    }
}

/// The first white-space-separated word of `s`, as `split_whitespace().next()` gives.
pub open spec fn first_word(s: Seq<char>) -> Option<Seq<char>> {
    let t = trim_start(s);
    if t.len() == 0 {
        None
    } else {
        Some(word_prefix(t))
    }
}

/// The first white-space-separated word of `s`, as `s.split_whitespace().next()` gives.
pub fn first_word_of(s: &str) -> (r: Option<String>)
    ensures
        match r {
            Some(w) => first_word(s@) == Some(w@),
            None => first_word(s@) is None,
        },
{
    let v = chars_of(s);
    let n = v.len();
    let mut i: usize = 0;
    assert(v@.subrange(0, n as int) =~= v@);
    while i < n && is_whitespace(v[i])
        invariant
            n == v@.len(),
            v@ == s@,
            i <= n,
            trim_start(s@) == trim_start(v@.subrange(i as int, n as int)),
        decreases n - i,
    {
        assert(v@.subrange(i as int, n as int).drop_first() =~= v@.subrange(i + 1, n as int));
        i = i + 1;
    }
    if i == n {
        assert(v@.subrange(i as int, n as int) =~= Seq::<char>::empty());
        return None;
    }
    let ghost t = v@.subrange(i as int, n as int);
    let mut j: usize = i;
    while j < n && !is_whitespace(v[j])
        invariant
            n == v@.len(),
            i <= j <= n,
            t == v@.subrange(i as int, n as int),
            word_prefix(t) == v@.subrange(i as int, j as int) + word_prefix(v@.subrange(j as int, n as int)),
        decreases n - j,
    {
        assert(v@.subrange(j as int, n as int).drop_first() =~= v@.subrange(j + 1, n as int));
        assert(v@.subrange(i as int, j as int) + seq![v@[j as int]] =~= v@.subrange(i as int, j + 1));
        j = j + 1;
    }
    assert(v@.subrange(i as int, j as int) + Seq::<char>::empty() =~= v@.subrange(i as int, j as int));
    Some(string_of_range(&v, i, j))
}

} // verus!

verus! {

/// The number of white-space-separated words in `s`, as `split_whitespace().count()` gives.
pub open spec fn word_count(s: Seq<char>) -> nat
    decreases s.len(),
{
    if s.len() == 0 {
        0
    } else if !is_ws(s[0]) && (s.len() == 1 || is_ws(s[1])) {
        1 + word_count(s.drop_first())
    } else {
        word_count(s.drop_first())
    }
}

proof fn lemma_word_count_le(s: Seq<char>)
    ensures
        word_count(s) <= s.len(),
    decreases s.len(),
{
    if s.len() > 0 {
        lemma_word_count_le(s.drop_first());
    }
}

/// The number of white-space-separated words in `s`.
pub fn count_words(s: &str) -> (r: usize)
    ensures
        r == word_count(s@),
{
    let v = chars_of(s);
    let n = v.len();
    let mut count: usize = 0;
    let mut i: usize = n;
    assert(v@.subrange(n as int, n as int) =~= Seq::<char>::empty());
    while i > 0
        invariant
            n == v@.len(),
            v@ == s@,
            i <= n,
            count == word_count(v@.subrange(i as int, n as int)),
            count <= n - i,
        decreases i,
    {
        let ghost t = v@.subrange(i - 1, n as int);
        assert(t.drop_first() =~= v@.subrange(i as int, n as int));
        let ends_word = !is_whitespace(v[i - 1]) && (i == n || is_whitespace(v[i]));
        if ends_word {
            count = count + 1;
        }
        i = i - 1;
    }
    assert(v@.subrange(0, n as int) =~= s@);
    count
}

} // verus!

verus! {

/// The text that `format!("{:?}", v)` gives for a list of strings.
pub uninterp spec fn debug_strings(v: Seq<Seq<char>>) -> Seq<char>;

/// Formats a list of strings with `{:?}`; its result is named `debug_strings`,
/// a function of the strings alone (the escaping rules of `Debug` are not
/// restated here).
#[verifier::external_body]
pub(crate) fn debug_list(v: &Vec<String>) -> (r: String)
    ensures
        r@ == debug_strings(views(v@)),
{
    format!("{:?}", v)
}

/// The index of the first pair whose key is `k`, if any.
pub open spec fn key_index(v: Seq<(String, String)>, k: Seq<char>) -> Option<int>
    decreases v.len(),
{
    if v.len() == 0 {
        None
    } else if v[0].0@ == k {
        Some(0)
    } else {
        match key_index(v.drop_first(), k) {
            Some(i) => Some(i + 1),
            None => None,
        }
    }
}

proof fn lemma_key_index(v: Seq<(String, String)>, k: Seq<char>, i: int)
    requires
        0 <= i <= v.len(),
        forall|j: int| 0 <= j < i ==> v[j].0@ != k,
    ensures
        i < v.len() && v[i].0@ == k ==> key_index(v, k) == Some(i),
        i == v.len() ==> key_index(v, k) is None,
    decreases i,
{
    if i > 0 {
        lemma_key_index(v.drop_first(), k, i - 1);
    }
}

/// The index of the first pair whose key is `k`.
pub fn find_key(v: &Vec<(String, String)>, k: &str) -> (r: Option<usize>)
    ensures
        match r {
            Some(i) => i < v@.len() && key_index(v@, k@) == Some(i as int) && v@[i as int].0@ == k@,
            None => key_index(v@, k@) is None,
        },
{
    let mut i: usize = 0;
    while i < v.len()
        invariant
            i <= v@.len(),
            forall|j: int| 0 <= j < i ==> v@[j].0@ != k@,
        decreases v.len() - i,
    {
        if str_eq(v[i].0.as_str(), k) {
            proof { lemma_key_index(v@, k@, i as int); }
            return Some(i);
        }
        i = i + 1;
    }
    proof { lemma_key_index(v@, k@, i as int); }
    None
}

/// The pairs after setting `k` to `val`: the first pair with the key takes
/// the new value, or a new pair is appended.
pub open spec fn assoc_set(v: Seq<(String, String)>, k: Seq<char>, val: Seq<char>) -> Seq<(Seq<char>, Seq<char>)> {
    let w = v.map_values(|p: (String, String)| (p.0@, p.1@));
    match key_index(v, k) {
        Some(i) => w.update(i, (k, val)),
        None => w.push((k, val)),
    }
}

/// The views of a list of pairs.
pub open spec fn pair_list(v: Seq<(String, String)>) -> Seq<(Seq<char>, Seq<char>)> {
    v.map_values(|p: (String, String)| (p.0@, p.1@))
}

/// Sets `k` to `val` in the pairs.
pub fn set_key(v: &mut Vec<(String, String)>, k: &str, val: &str)
    ensures
        pair_list(final(v)@) == assoc_set(old(v)@, k@, val@),
{
    match find_key(v, k) {
        Some(i) => {
            v.set(i, (owned(k), owned(val)));
            assert(pair_list(v@) =~= pair_list(old(v)@).update(i as int, (k@, val@)));
        }
        None => {
            v.push((owned(k), owned(val)));
            assert(pair_list(v@) =~= pair_list(old(v)@).push((k@, val@)));
        }
    }
}

/// `a` comes no later than `b` in lexicographic order of code points, the
/// order of `str::cmp` (UTF-8 keeps the order of code points).
pub open spec fn lex_le(a: Seq<char>, b: Seq<char>) -> bool
    decreases a.len(),
{
    if a.len() == 0 {
        true
    } else if b.len() == 0 {
        false
    } else if (a[0] as u32) != (b[0] as u32) {
        (a[0] as u32) < (b[0] as u32)
    } else {
        lex_le(a.drop_first(), b.drop_first())
    }
}

/// Whether `a <= b` as strings.
pub fn str_le(a: &str, b: &str) -> (r: bool)
    ensures
        r == lex_le(a@, b@),
{
    let av = chars_of(a);
    let bv = chars_of(b);
    let mut i: usize = 0;
    assert(a@.subrange(0, a@.len() as int) =~= a@);
    assert(b@.subrange(0, b@.len() as int) =~= b@);
    while i < av.len() && i < bv.len() && (av[i] as u32) == (bv[i] as u32)
        invariant
            i <= av@.len(),
            i <= bv@.len(),
            av@ == a@,
            bv@ == b@,
            lex_le(a@, b@) == lex_le(a@.subrange(i as int, a@.len() as int), b@.subrange(i as int, b@.len() as int)),
        decreases av.len() - i,
    {
        let ghost x = a@.subrange(i as int, a@.len() as int);
        let ghost y = b@.subrange(i as int, b@.len() as int);
        assert(x.drop_first() =~= a@.subrange(i + 1, a@.len() as int));
        assert(y.drop_first() =~= b@.subrange(i + 1, b@.len() as int));
        i = i + 1;
    }
    let ghost x = a@.subrange(i as int, a@.len() as int);
    let ghost y = b@.subrange(i as int, b@.len() as int);
    if i == av.len() {
        true
    } else if i == bv.len() {
        false
    } else {
        assert(x[0] == av@[i as int] && y[0] == bv@[i as int]);
        (av[i] as u32) < (bv[i] as u32)
    }
}

/// The view of an optional string.
pub open spec fn opt_string_view(o: Option<String>) -> Option<Seq<char>> {
    match o {
        Some(s) => Some(s@),
        None => None,
    }
}

/// A copy of an optional string.
pub fn copy_opt_string(o: &Option<String>) -> (r: Option<String>)
    ensures
        opt_string_view(r) == opt_string_view(*o),
{
    match o {
        Some(s) => Some(owned(s.as_str())),
        None => None,
    }
}

/// The words of `s` read so far, `cur` being the word under way.
pub open spec fn words_acc(s: Seq<char>, cur: Seq<char>) -> Seq<Seq<char>>
    decreases s.len(),
{
    if s.len() == 0 {
        if cur.len() > 0 { seq![cur] } else { seq![] }
    } else if is_ws(s[0]) {
        (if cur.len() > 0 { seq![cur] } else { seq![] }) + words_acc(s.drop_first(), seq![])
    } else {
        words_acc(s.drop_first(), cur.push(s[0]))
    }
}

/// The white-space-separated words of `s`, as `split_whitespace` yields them.
pub open spec fn words(s: Seq<char>) -> Seq<Seq<char>> {
    words_acc(s, seq![])
}

/// The white-space-separated words of `s`.
pub fn split_whitespace(s: &str) -> (r: Vec<String>)
    ensures
        views(r@) == words(s@),
{
    let v = chars_of(s);
    let mut out: Vec<String> = Vec::new();
    let mut start: usize = 0;
    let mut i: usize = 0;
    assert(v@.subrange(0, v@.len() as int) =~= v@);
    assert(v@.subrange(0, 0) =~= Seq::<char>::empty());
    assert(views(out@) =~= Seq::<Seq<char>>::empty());
    while i < v.len()
        invariant
            v@ == s@,
            start <= i <= v@.len(),
            words(s@) == views(out@) + words_acc(v@.subrange(i as int, v@.len() as int), v@.subrange(start as int, i as int)),
        decreases v.len() - i,
    {
        let ghost rest = v@.subrange(i as int, v@.len() as int);
        assert(rest.drop_first() =~= v@.subrange(i + 1, v@.len() as int));
        if is_whitespace(v[i]) {
            if start < i {
                let piece = string_of_range(&v, start, i);
                let ghost old_out = out@;
                out.push(piece);
                assert(views(out@) =~= views(old_out).push(piece@));
                assert(views(old_out) + (seq![piece@] + words_acc(rest.drop_first(), seq![]))
                    =~= views(out@) + words_acc(rest.drop_first(), seq![]));
            } else {
                assert(v@.subrange(start as int, i as int) =~= Seq::<char>::empty());
                assert(Seq::<Seq<char>>::empty() + words_acc(rest.drop_first(), seq![]) =~= words_acc(rest.drop_first(), seq![]));
            }
            i = i + 1;
            start = i;
            assert(v@.subrange(start as int, i as int) =~= Seq::<char>::empty());
        } else {
            assert(v@.subrange(start as int, i as int).push(v@[i as int]) =~= v@.subrange(start as int, i + 1));
            i = i + 1;
        }
    }
    assert(v@.subrange(i as int, v@.len() as int) =~= Seq::<char>::empty());
    if start < i {
        let piece = string_of_range(&v, start, i);
        let ghost old_out = out@;
        out.push(piece);
        assert(views(out@) =~= views(old_out).push(piece@));
        assert(views(old_out) + seq![piece@] =~= views(out@));
    } else {
        assert(v@.subrange(start as int, i as int) =~= Seq::<char>::empty());
        assert(views(out@) + Seq::<Seq<char>>::empty() =~= views(out@));
    }
    out
}

/// The text that `format!("{:?}", s)` gives for a string: quoted, with
/// escapes.
pub uninterp spec fn debug_text(s: Seq<char>) -> Seq<char>;

/// Formats a string with `{:?}`; its result is named `debug_text`, a function
/// of the string alone (the escaping rules of `Debug` are not restated here).
#[verifier::external_body]
pub(crate) fn debug_str(s: &str) -> (r: String)
    ensures
        r@ == debug_text(s@),
{
    format!("{:?}", s)
}

/// The text that `{:?}` gives for an optional string: `None`, or `Some(..)`
/// around the quoted string.
pub open spec fn debug_opt_text(o: Option<Seq<char>>) -> Seq<char> {
    match o {
        Some(s) => "Some("@ + debug_text(s) + ")"@,
        None => "None"@,
    }
}

/// Formats an optional string as `{:?}` does.
pub fn debug_opt_str(o: &Option<String>) -> (r: String)
    ensures
        r@ == debug_opt_text(opt_string_view(*o)),
{
    match o {
        Some(s) => {
            let d = debug_str(s.as_str());
            cat3("Some(", d.as_str(), ")")
        },
        None => owned("None"),
    }
}

/// `true` or `false`, as a `bool` is displayed.
pub open spec fn bool_text(b: bool) -> Seq<char> {
    if b { "true"@ } else { "false"@ }
}

/// Renders a `bool` as `Display` does.
pub fn bool_to_string(b: bool) -> (r: String)
    ensures
        r@ == bool_text(b),
{
    if b { owned("true") } else { owned("false") }
}

/// The characters of `s` before the first `c`: the first piece that
/// `s.split(c)` yields.
pub open spec fn upto_char(s: Seq<char>, c: char) -> Seq<char>
    decreases s.len(),
{
    if s.len() == 0 || s[0] == c {
        seq![]
    } else {
        seq![s[0]] + upto_char(s.drop_first(), c)
    }
}

/// The characters of `s` before the first `c`.
pub fn before_char(s: &str, c: char) -> (r: String)
    ensures
        r@ == upto_char(s@, c),
{
    let v = chars_of(s);
    let n = v.len();
    let mut j: usize = 0;
    assert(v@.subrange(0, n as int) =~= v@);
    assert(v@.subrange(0, 0) + upto_char(v@, c) =~= upto_char(v@, c));
    while j < n && v[j] != c
        invariant
            n == v@.len(),
            v@ == s@,
            j <= n,
            upto_char(s@, c) == v@.subrange(0, j as int) + upto_char(v@.subrange(j as int, n as int), c),
        decreases n - j,
    {
        assert(v@.subrange(j as int, n as int).drop_first() =~= v@.subrange(j + 1, n as int));
        assert(v@.subrange(0, j as int) + seq![v@[j as int]] =~= v@.subrange(0, j + 1));
        j = j + 1;
    }
    assert(v@.subrange(0, j as int) + Seq::<char>::empty() =~= v@.subrange(0, j as int));
    string_of_range(&v, 0, j)
}

/// `s` cut at its first `c`, as `str::split_once(c)` does: the part before
/// and the part after, or nothing when `c` does not occur.
pub open spec fn split_once_spec(s: Seq<char>, c: char) -> Option<(Seq<char>, Seq<char>)> {
    let p = upto_char(s, c);
    if p.len() < s.len() {
        Some((p, s.subrange(p.len() as int + 1, s.len() as int)))
    } else {
        None
    }
}

/// Cuts `s` at its first `c`.
pub fn split_once(s: &str, c: char) -> (r: Option<(String, String)>)
    ensures
        match split_once_spec(s@, c) {
            Some((a, b)) => match r {
                Some((x, y)) => x@ == a && y@ == b,
                None => false,
            },
            None => r is None,
        },
{
    let v = chars_of(s);
    let n = v.len();
    let mut j: usize = 0;
    assert(v@.subrange(0, n as int) =~= v@);
    assert(v@.subrange(0, 0) + upto_char(v@, c) =~= upto_char(v@, c));
    while j < n && v[j] != c
        invariant
            n == v@.len(),
            v@ == s@,
            j <= n,
            upto_char(s@, c) == v@.subrange(0, j as int) + upto_char(v@.subrange(j as int, n as int), c),
        decreases n - j,
    {
        assert(v@.subrange(j as int, n as int).drop_first() =~= v@.subrange(j + 1, n as int));
        assert(v@.subrange(0, j as int) + seq![v@[j as int]] =~= v@.subrange(0, j + 1));
        j = j + 1;
    }
    assert(v@.subrange(0, j as int) + Seq::<char>::empty() =~= v@.subrange(0, j as int));
    if j == n {
        None
    } else {
        Some((string_of_range(&v, 0, j), string_of_range(&v, j + 1, n)))
    }
}

} // verus!

verus! {

/// The text of `s` before the first occurrence of `p` (all of `s` when `p`
/// does not occur), as the first piece of `str::splitn(2, p)`.
pub open spec fn before_first(s: Seq<char>, p: Seq<char>) -> Seq<char>
    decreases s.len(),
{
    if s.len() == 0 || is_prefix(p, s) {
        seq![]
    } else {
        seq![s[0]] + before_first(s.drop_first(), p)
    }
}

/// The text of `s` before the first occurrence of `p`.
pub fn before_first_str(s: &str, p: &str) -> (r: String)
    ensures
        r@ == before_first(s@, p@),
{
    let sv = chars_of(s);
    let pv = chars_of(p);
    let mut out = String::new();
    let mut i: usize = 0;
    assert(s@.subrange(0, s@.len() as int) =~= s@);
    while i < sv.len()
        invariant
            sv@ == s@,
            pv@ == p@,
            i <= sv@.len(),
            before_first(s@, p@) == out@ + before_first(s@.subrange(i as int, s@.len() as int), p@),
        decreases sv.len() - i,
    {
        let ghost rest = s@.subrange(i as int, s@.len() as int);
        if pv.len() <= sv.len() - i {
            assert(rest.subrange(0, p@.len() as int) =~= s@.subrange(i as int, i + p@.len()));
            if occurs_at_exec(&sv, &pv, i) {
                assert(is_prefix(p@, rest));
                assert(out@ + Seq::<char>::empty() =~= out@);
                return out;
            }
        }
        assert(!is_prefix(p@, rest));
        assert(rest.drop_first() =~= s@.subrange(i + 1, s@.len() as int));
        let ghost before = out@;
        push_char(&mut out, sv[i]);
        assert(before + (seq![rest[0]] + before_first(rest.drop_first(), p@)) =~= out@ + before_first(rest.drop_first(), p@));
        i = i + 1;
    }
    assert(s@.subrange(i as int, s@.len() as int) =~= Seq::<char>::empty());
    assert(out@ + Seq::<char>::empty() =~= out@);
    out
}

/// `s` without its leading run of `c`.
pub open spec fn strip_lead(s: Seq<char>, c: char) -> Seq<char>
    decreases s.len(),
{
    if s.len() > 0 && s[0] == c {
        strip_lead(s.drop_first(), c)
    } else {
        s
    }
}

/// `s` without its trailing run of `c`.
pub open spec fn strip_trail(s: Seq<char>, c: char) -> Seq<char>
    decreases s.len(),
{
    if s.len() > 0 && s.last() == c {
        strip_trail(s.drop_last(), c)
    } else {
        s
    }
}

/// `s` without the runs of `c` at either end, as `str::trim_matches(c)` gives.
pub open spec fn trim_matches_char(s: Seq<char>, c: char) -> Seq<char> {
    strip_trail(strip_lead(s, c), c)
}

/// Removes the runs of `c` at either end of `s`.
pub fn trim_matches(s: &str, c: char) -> (r: String)
    ensures
        r@ == trim_matches_char(s@, c),
{
    let v = chars_of(s);
    let mut lo: usize = 0;
    assert(s@.subrange(0, s@.len() as int) =~= s@);
    while lo < v.len() && v[lo] == c
        invariant
            v@ == s@,
            lo <= v@.len(),
            strip_lead(s@, c) == strip_lead(s@.subrange(lo as int, s@.len() as int), c),
        decreases v.len() - lo,
    {
        assert(s@.subrange(lo as int, s@.len() as int).drop_first() =~= s@.subrange(lo + 1, s@.len() as int));
        lo = lo + 1;
    }
    let ghost t = s@.subrange(lo as int, s@.len() as int);
    assert(strip_lead(t, c) == t);
    let mut hi: usize = v.len();
    assert(t.subrange(0, t.len() as int) =~= t);
    while hi > lo && v[hi - 1] == c
        invariant
            v@ == s@,
            lo <= hi <= v@.len(),
            t == s@.subrange(lo as int, s@.len() as int),
            strip_trail(t, c) == strip_trail(s@.subrange(lo as int, hi as int), c),
        decreases hi - lo,
    {
        assert(s@.subrange(lo as int, hi as int).drop_last() =~= s@.subrange(lo as int, hi - 1));
        hi = hi - 1;
    }
    let r = string_of_range(&v, lo, hi);
    r
}

} // verus!

verus! {

/// Splitting at a character always yields at least one piece.
pub proof fn lemma_split_nonempty(s: Seq<char>, c: char, cur: Seq<char>)
    ensures
        split_acc(s, c, cur).len() >= 1,
    decreases s.len(),
{
    if s.len() > 0 {
        if s[0] == c {
            lemma_split_nonempty(s.drop_first(), c, seq![]);
        } else {
            lemma_split_nonempty(s.drop_first(), c, cur.push(s[0]));
        }
    }
}

} // verus!

verus! {

/// What `s.parse::<i64>()` gives, `None` for its error.
pub open spec fn parse_i64_spec(s: Seq<char>) -> Option<i64> {
    if s.len() > 0 && s[0] == '-' {
        let b = s.drop_first();
        if b.len() > 0 && all_digits(b) && digits_value(b) <= 0x8000_0000_0000_0000 {
            Some((0 - digits_value(b)) as i64)
        } else {
            None
        }
    } else {
        let b = unsigned_body(s);
        if b.len() > 0 && all_digits(b) && digits_value(b) <= i64::MAX {
            Some(digits_value(b) as i64)
        } else {
            None
        }
    }
}

/// Parses an `i64` in decimal, as `str::parse::<i64>` does.
pub fn parse_i64(s: &str) -> (r: Option<i64>)
    ensures
        r == parse_i64_spec(s@),
{
    let v = chars_of(s);
    if v.len() > 0 && v[0] == '-' {
        assert(v@.subrange(1, v@.len() as int) =~= s@.drop_first());
        if v.len() == 1 {
            return None;
        }
        match digits_u64(&v, 1, v.len()) {
            Some(x) => if x <= 0x8000_0000_0000_0000 {
                if x == 0x8000_0000_0000_0000 {
                    Some(i64::MIN)
                } else {
                    Some(0 - (x as i64))
                }
            } else {
                None
            },
            None => None,
        }
    } else {
        let start: usize = if v.len() > 0 && v[0] == '+' { 1 } else { 0 };
        assert(v@.subrange(start as int, v@.len() as int) =~= unsigned_body(s@));
        if start == v.len() {
            return None;
        }
        match digits_u64(&v, start, v.len()) {
            Some(x) => if x <= 0x7fff_ffff_ffff_ffff { Some(x as i64) } else { None },
            None => None,
        }
    }
}

/// Renders `x` in decimal, as `x.to_string()` does for an `i64`.
pub fn i64_to_string(x: i64) -> (r: String)
    ensures
        r@ == dec_int(x as int),
{
    if x < 0 {
        let m: u64 = if x == i64::MIN { 0x8000_0000_0000_0000 } else { (0 - x) as u64 };
        let mut r = String::new();
        push_char(&mut r, '-');
        let d = u64_to_string(m);
        push_str(&mut r, d.as_str());
        r
    } else {
        u64_to_string(x as u64)
    }
}

} // verus!
