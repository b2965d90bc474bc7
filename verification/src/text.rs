use vstd::prelude::*;
use vstd::string::*;

verus! {

broadcast use vstd::string::group_string_axioms;

/// The characters of `s`, in order.
pub fn chars_of(s: &str) -> (v: Vec<char>)
    ensures
        v@ == s@,
{
    let mut v: Vec<char> = Vec::new();
    for c in it: s.chars()
        invariant
            it.seq() == s@,
            v@ == it.seq().take(it.index()),
    {
        v.push(c);
    }
    v
}


/// The views of a vector of strings.
pub open spec fn string_views(v: Seq<String>) -> Seq<Seq<char>> {
    v.map_values(|x: String| x@)
}

/// `line` without one trailing carriage return.
pub open spec fn strip_cr(line: Seq<char>) -> Seq<char> {
    if line.len() > 0 && line.last() == '\r' {
        line.drop_last()
    } else {
        line
    }
}

/// Reading `s` from the left: the lines already ended by a `'\n'` (each
/// without its `"\n"` or `"\r\n"` terminator) and the characters of the
/// line not yet ended.
pub open spec fn line_scan(s: Seq<char>) -> (Seq<Seq<char>>, Seq<char>)
    decreases s.len(),
{
    if s.len() == 0 {
        (Seq::empty(), Seq::empty())
    } else {
        let (done, cur) = line_scan(s.drop_last());
        if s.last() == '\n' {
            (done.push(strip_cr(cur)), Seq::empty())
        } else {
            (done, cur.push(s.last()))
        }
    }
}

/// The lines of `s`: split at `"\n"` and `"\r\n"`, terminators removed;
/// a final line ending is optional and an empty string has no lines.
pub open spec fn spec_lines(s: Seq<char>) -> Seq<Seq<char>> {
    let (done, cur) = line_scan(s);
    if cur.len() == 0 {
        done
    } else {
        done.push(cur)
    }
}

/// The lines of `s`, as `str::lines` gives them.
pub fn lines(s: &str) -> (v: Vec<String>)
    ensures
        string_views(v@) == spec_lines(s@),
{
    let cs = chars_of(s);
    let n: usize = cs.len();
    let mut out: Vec<String> = Vec::new();
    let mut start: usize = 0;
    let mut i: usize = 0;
    while i < n
        invariant
            n == cs.len(),
            cs@ == s@,
            start <= i <= n,
            line_scan(s@.take(i as int)) == (string_views(out@), s@.subrange(start as int, i as int)),
        decreases n - i,
    {
        let c = cs[i];
        proof {
            assert(s@.take(i + 1).drop_last() == s@.take(i as int));
            assert(s@.take(i + 1).last() == c);
        }
        if c == '\n' {
            let end: usize = if i > start && cs[i - 1] == '\r' {
                i - 1
            } else {
                i
            };
            let line = s.substring_char(start, end).to_owned();
            proof {
                let cur = s@.subrange(start as int, i as int);
                assert(strip_cr(cur) == s@.subrange(start as int, end as int));
            }
            out.push(line);
            proof {
                assert(string_views(out@) == string_views(out@.drop_last()).push(line@));
            }
            start = i + 1;
        } else {
            proof {
                assert(s@.subrange(start as int, i + 1) == s@.subrange(start as int, i as int).push(c));
            }
        }
        i = i + 1;
    }
    proof {
        assert(s@.take(n as int) == s@);
    }
    if start < n {
        let line = s.substring_char(start, n).to_owned();
        out.push(line);
        proof {
            assert(string_views(out@) == string_views(out@.drop_last()).push(line@));
        }
    }
    out
}


/// Reading `s` from the left: the fields already ended by `sep` and the
/// characters of the field not yet ended.
pub open spec fn field_scan(s: Seq<char>, sep: char) -> (Seq<Seq<char>>, Seq<char>)
    decreases s.len(),
{
    if s.len() == 0 {
        (Seq::empty(), Seq::empty())
    } else {
        let (done, cur) = field_scan(s.drop_last(), sep);
        if s.last() == sep {
            (done.push(cur), Seq::empty())
        } else {
            (done, cur.push(s.last()))
        }
    }
}

/// The fields of `s` between occurrences of `sep` (there is always at
/// least one, possibly empty, field).
pub open spec fn spec_split(s: Seq<char>, sep: char) -> Seq<Seq<char>> {
    let (done, cur) = field_scan(s, sep);
    done.push(cur)
}

proof fn lemma_field_scan_append(p: Seq<char>, t: Seq<char>, sep: char)
    requires
        !t.contains(sep),
    ensures
        field_scan(p + t, sep) == (field_scan(p, sep).0, field_scan(p, sep).1 + t),
    decreases t.len(),
{
    if t.len() == 0 {
        assert(p + t =~= p);
        assert(field_scan(p, sep).1 + t =~= field_scan(p, sep).1);
    } else {
        let u = t.drop_last();
        assert(!u.contains(sep)) by {
            if u.contains(sep) {
                let k = choose|k: int| 0 <= k < u.len() && u[k] == sep;
                assert(t[k] == sep);
            }
        }
        lemma_field_scan_append(p, u, sep);
        assert((p + t).drop_last() =~= p + u);
        assert((p + t).last() == t.last());
        assert(t.last() != sep) by {
            if t.last() == sep {
                assert(t.contains(sep)) by { assert(t[t.len() - 1] == sep); }
            }
        }
        assert(field_scan(p, sep).1 + u + seq![t.last()] =~= field_scan(p, sep).1 + t);
        assert((field_scan(p, sep).1 + u).push(t.last()) =~= field_scan(p, sep).1 + t);
    }
}

/// Splitting at `sep` what was joined with `sep` gives back the parts,
/// when there is at least one part and none of them holds `sep`.
pub proof fn lemma_split_join(parts: Seq<Seq<char>>, sep: char)
    requires
        parts.len() > 0,
        forall|i: int| 0 <= i < parts.len() ==> !(#[trigger] parts[i]).contains(sep),
    ensures
        spec_split(spec_join(parts, seq![sep]), sep) == parts,
    decreases parts.len(),
{
    let e = Seq::<char>::empty();
    if parts.len() == 1 {
        lemma_field_scan_append(e, parts[0], sep);
        assert(e + parts[0] =~= parts[0]);
        assert(e + parts[0] =~= parts[0]);
        assert(field_scan(e, sep).1 + parts[0] =~= parts[0]);
        assert(seq![parts[0]] =~= parts);
    } else {
        let init = parts.drop_last();
        assert forall|i: int| 0 <= i < init.len() implies !(#[trigger] init[i]).contains(sep) by {
            assert(init[i] == parts[i]);
        }
        lemma_split_join(init, sep);
        let j = spec_join(init, seq![sep]);
        let pj = j + seq![sep];
        assert(pj.drop_last() =~= j);
        assert(pj.last() == sep);
        assert(!parts.last().contains(sep)) by { assert(parts.last() == parts[parts.len() - 1]); }
        lemma_field_scan_append(pj, parts.last(), sep);
        assert(spec_join(parts, seq![sep]) == pj + parts.last());
        assert(field_scan(pj, sep).1 + parts.last() =~= parts.last());
        assert(spec_split(spec_join(parts, seq![sep]), sep) =~= spec_split(j, sep).push(parts.last()));
        assert(init.push(parts.last()) =~= parts);
    }
}

/// The fields of `s` separated by `sep`, as `str::split` gives them.
pub fn split_fields(s: &str, sep: char) -> (v: Vec<String>)
    ensures
        string_views(v@) == spec_split(s@, sep),
{
    let cs = chars_of(s);
    let n: usize = cs.len();
    let mut out: Vec<String> = Vec::new();
    let mut start: usize = 0;
    let mut i: usize = 0;
    while i < n
        invariant
            n == cs.len(),
            cs@ == s@,
            start <= i <= n,
            field_scan(s@.take(i as int), sep) == (string_views(out@), s@.subrange(start as int, i as int)),
        decreases n - i,
    {
        let c = cs[i];
        proof {
            assert(s@.take(i + 1).drop_last() == s@.take(i as int));
            assert(s@.take(i + 1).last() == c);
        }
        if c == sep {
            let field = s.substring_char(start, i).to_owned();
            out.push(field);
            proof {
                assert(string_views(out@) == string_views(out@.drop_last()).push(field@));
            }
            start = i + 1;
        } else {
            proof {
                assert(s@.subrange(start as int, i + 1) == s@.subrange(start as int, i as int).push(c));
            }
        }
        i = i + 1;
    }
    proof {
        assert(s@.take(n as int) == s@);
    }
    let field = s.substring_char(start, n).to_owned();
    out.push(field);
    proof {
        assert(string_views(out@) == string_views(out@.drop_last()).push(field@));
    }
    out
}

/// The character of the decimal digit `d`.
pub open spec fn digit_char(d: int) -> char {
    if d == 0 { '0' }
    else if d == 1 { '1' }
    else if d == 2 { '2' }
    else if d == 3 { '3' }
    else if d == 4 { '4' }
    else if d == 5 { '5' }
    else if d == 6 { '6' }
    else if d == 7 { '7' }
    else if d == 8 { '8' }
    else { '9' }
}

/// The decimal notation of `n`, without leading zeros.
pub open spec fn spec_decimal(n: nat) -> Seq<char>
    decreases n,
{
    if n < 10 {
        seq![digit_char(n as int)]
    } else {
        spec_decimal(n / 10).push(digit_char((n % 10) as int))
    }
}

/// The number a string of decimal digits denotes.
pub open spec fn digits_value(s: Seq<char>) -> int
    decreases s.len(),
{
    if s.len() == 0 {
        0
    } else {
        digits_value(s.drop_last()) * 10 + (s.last() as int - '0' as int)
    }
}

proof fn lemma_digit_char(d: int)
    requires
        0 <= d < 10,
    ensures
        digit_char(d) as int - '0' as int == d,
        '0' <= digit_char(d) <= '9',
        digit_char(d) == '0' ==> d == 0,
{
    assert('0' as int == 48);
    assert('9' as int == 57);
    if d == 0 { assert(digit_char(d) as int == 48); }
    else if d == 1 { assert(digit_char(d) as int == 49); }
    else if d == 2 { assert(digit_char(d) as int == 50); }
    else if d == 3 { assert(digit_char(d) as int == 51); }
    else if d == 4 { assert(digit_char(d) as int == 52); }
    else if d == 5 { assert(digit_char(d) as int == 53); }
    else if d == 6 { assert(digit_char(d) as int == 54); }
    else if d == 7 { assert(digit_char(d) as int == 55); }
    else if d == 8 { assert(digit_char(d) as int == 56); }
    else { assert(digit_char(d) as int == 57); }
}

/// The decimal notation of `n` is made of the digits `'0'` to `'9'`, does
/// not start with `'0'` unless it is `"0"`, and denotes `n`.
pub proof fn law_decimal_denotes(n: nat)
    ensures
        forall|i: int| 0 <= i < spec_decimal(n).len() ==> '0' <= #[trigger] spec_decimal(n)[i] <= '9',
        spec_decimal(n).len() > 0,
        spec_decimal(n)[0] == '0' ==> n == 0,
        digits_value(spec_decimal(n)) == n,
    decreases n,
{
    if n >= 10 {
        law_decimal_denotes(n / 10);
        lemma_digit_char((n % 10) as int);
        let d = spec_decimal(n / 10);
        let s = spec_decimal(n);
        assert(s == d.push(digit_char((n % 10) as int)));
        assert(s.drop_last() =~= d);
        assert(s[0] == d[0]);
        assert(s.last() == digit_char((n % 10) as int));
        assert(digits_value(s) == digits_value(d) * 10 + (n % 10));
        assert((n / 10) * 10 + n % 10 == n) by (nonlinear_arith);
    } else {
        lemma_digit_char(n as int);
        let s = spec_decimal(n);
        assert(s.drop_last() =~= Seq::<char>::empty());
        assert(digits_value(s.drop_last()) == 0);
        assert(s.last() == digit_char(n as int));
    }
}

fn digit_str(d: u64) -> (s: &'static str)
    requires
        d < 10,
    ensures
        s@ == seq![digit_char(d as int)],
{
    proof {
        reveal_strlit("0");
        reveal_strlit("1");
        reveal_strlit("2");
        reveal_strlit("3");
        reveal_strlit("4");
        reveal_strlit("5");
        reveal_strlit("6");
        reveal_strlit("7");
        reveal_strlit("8");
        reveal_strlit("9");
    }
    if d == 0 { "0" }
    else if d == 1 { "1" }
    else if d == 2 { "2" }
    else if d == 3 { "3" }
    else if d == 4 { "4" }
    else if d == 5 { "5" }
    else if d == 6 { "6" }
    else if d == 7 { "7" }
    else if d == 8 { "8" }
    else { "9" }
}

/// The decimal notation of `n`, as its `to_string` gives it.
pub fn decimal(n: u64) -> (s: String)
    ensures
        s@ == spec_decimal(n as nat),
    decreases n,
{
    if n < 10 {
        String::from_str(digit_str(n))
    } else {
        let mut s = decimal(n / 10);
        s.append(digit_str(n % 10));
        s
    }
}

/// The parts joined with `sep` between consecutive parts.
pub open spec fn spec_join(parts: Seq<Seq<char>>, sep: Seq<char>) -> Seq<char>
    decreases parts.len(),
{
    if parts.len() == 0 {
        Seq::empty()
    } else if parts.len() == 1 {
        parts[0]
    } else {
        spec_join(parts.drop_last(), sep) + sep + parts.last()
    }
}

/// The strings of `parts` joined with `sep`, as `join` on a slice gives it.
pub fn join(parts: &Vec<String>, sep: &str) -> (s: String)
    ensures
        s@ == spec_join(string_views(parts@), sep@),
{
    let mut s = String::new();
    let mut i: usize = 0;
    while i < parts.len()
        invariant
            i <= parts.len(),
            s@ == spec_join(string_views(parts@.take(i as int)), sep@),
        decreases parts.len() - i,
    {
        proof {
            assert(string_views(parts@.take(i + 1)).drop_last() == string_views(parts@.take(i as int)));
            assert(string_views(parts@.take(i + 1)).last() == parts@[i as int]@);
        }
        if i > 0 {
            s.append(sep);
        }
        s.append(parts[i].as_str());
        i = i + 1;
    }
    proof {
        assert(parts@.take(parts.len() as int) == parts@);
    }
    s
}


/// Whether two strings are equal.
pub fn str_eq(a: &str, b: &str) -> (r: bool)
    ensures
        r == (a@ == b@),
{
    let x = a.to_owned();
    let y = b.to_owned();
    x.eq(&y)
}

/// Appends an owned copy of `s` to `v`.
pub fn push_str(v: &mut Vec<String>, s: &str)
    ensures
        string_views(final(v)@) == string_views(old(v)@).push(s@),
{
    v.push(s.to_owned());
    proof {
        assert(string_views(v@) =~= string_views(old(v)@).push(s@));
    }
}

/// The concatenation of `a` and `b` as a new string.
pub fn concat2(a: &str, b: &str) -> (s: String)
    ensures
        s@ == a@ + b@,
{
    let mut s = a.to_owned();
    s.append(b);
    s
}

/// `bytes` read as UTF-8 text, or `None` when they are not valid UTF-8.
///
/// Trusted: calls `String::from_utf8`, which std documents to fail exactly
/// on byte sequences that are not valid UTF-8 and otherwise to give the
/// text those bytes encode.
#[verifier::external_body]
pub fn utf8_text(bytes: Vec<u8>) -> (r: Option<String>)
    ensures
        r is Some <==> vstd::utf8::valid_utf8(bytes@),
        r matches Some(s) ==> s@ == vstd::utf8::decode_utf8(bytes@),
{
    String::from_utf8(bytes).ok()
}

} // verus!
