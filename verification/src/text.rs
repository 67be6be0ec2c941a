//! Small verified text helpers: concatenation, decimal rendering, substring
//! search, and the view of a fragment list. All generated output is built from
//! these, so their contracts pin every emitted character.

use vstd::prelude::*;
use vstd::string::StrSliceExecFns;
use vstd::string::StringExecFns;

verus! {

/// The views of a list of text fragments, in order.
pub open spec fn line_views(ls: Seq<String>) -> Seq<Seq<char>> {
    Seq::new(ls.len(), |i: int| ls[i]@)
}

/// All fragments of a list, concatenated.
pub open spec fn concat_views(ls: Seq<Seq<char>>) -> Seq<char>
    decreases ls.len(),
{
    if ls.len() == 0 {
        Seq::empty()
    } else {
        ls[0] + concat_views(ls.drop_first())
    }
}

pub proof fn lemma_line_views_app(a: Seq<String>, b: Seq<String>)
    ensures
        line_views(a + b) == line_views(a) + line_views(b),
{
    assert(line_views(a + b) =~= line_views(a) + line_views(b));
}

/// Relies on `String::push`: appends exactly one character.
#[verifier::external_body]
pub fn push_char(s: &mut String, c: char)
    ensures
        final(s)@ == old(s)@.push(c),
{
    s.push(c)
}

pub fn cat2(a: &str, b: &str) -> (r: String)
    ensures
        r@ == a@ + b@,
{
    let mut s = String::from_str(a);
    s.append(b);
    s
}

pub fn cat3(a: &str, b: &str, c: &str) -> (r: String)
    ensures
        r@ == a@ + b@ + c@,
{
    let mut s = String::from_str(a);
    s.append(b);
    s.append(c);
    s
}

pub fn cat4(a: &str, b: &str, c: &str, d: &str) -> (r: String)
    ensures
        r@ == a@ + b@ + c@ + d@,
{
    let mut s = String::from_str(a);
    s.append(b);
    s.append(c);
    s.append(d);
    s
}

pub fn cat5(a: &str, b: &str, c: &str, d: &str, e: &str) -> (r: String)
    ensures
        r@ == a@ + b@ + c@ + d@ + e@,
{
    let mut s = String::from_str(a);
    s.append(b);
    s.append(c);
    s.append(d);
    s.append(e);
    s
}

pub fn cat6(a: &str, b: &str, c: &str, d: &str, e: &str, f: &str) -> (r: String)
    ensures
        r@ == a@ + b@ + c@ + d@ + e@ + f@,
{
    let mut s = String::from_str(a);
    s.append(b);
    s.append(c);
    s.append(d);
    s.append(e);
    s.append(f);
    s
}

pub fn cat7(a: &str, b: &str, c: &str, d: &str, e: &str, f: &str, g: &str) -> (r: String)
    ensures
        r@ == a@ + b@ + c@ + d@ + e@ + f@ + g@,
{
    let mut s = String::from_str(a);
    s.append(b);
    s.append(c);
    s.append(d);
    s.append(e);
    s.append(f);
    s.append(g);
    s
}

/// Whether two text slices hold the same characters.
pub fn str_eq(a: &str, b: &str) -> (r: bool)
    ensures
        r == (a@ == b@),
{
    let x = String::from_str(a);
    let y = String::from_str(b);
    x == y
}

/// The character of one decimal digit.
pub open spec fn digit_char(d: nat) -> char {
    if d == 0 {
        '0'
    } else if d == 1 {
        '1'
    } else if d == 2 {
        '2'
    } else if d == 3 {
        '3'
    } else if d == 4 {
        '4'
    } else if d == 5 {
        '5'
    } else if d == 6 {
        '6'
    } else if d == 7 {
        '7'
    } else if d == 8 {
        '8'
    } else {
        '9'
    }
}

/// The decimal rendering of a natural number, most significant digit first.
pub open spec fn dec_of(n: nat) -> Seq<char>
    decreases n,
{
    if n < 10 {
        seq![digit_char(n)]
    } else {
        dec_of(n / 10).push(digit_char(n % 10))
    }
}

pub proof fn lemma_dec_of_len(n: nat)
    ensures
        dec_of(n).len() >= 1,
    decreases n,
{
    if n >= 10 {
        lemma_dec_of_len(n / 10);
    }
}

proof fn lemma_digit_char_injective(a: nat, b: nat)
    requires
        a < 10,
        b < 10,
        digit_char(a) == digit_char(b),
    ensures
        a == b,
{
}

/// Distinct numbers have distinct decimal renderings.
pub proof fn lemma_dec_of_injective(m: nat, n: nat)
    requires
        dec_of(m) == dec_of(n),
    ensures
        m == n,
    decreases m,
{
    lemma_dec_of_len(m);
    lemma_dec_of_len(n);
    if m < 10 && n < 10 {
        assert(digit_char(m) == dec_of(m)[0]);
        assert(digit_char(n) == dec_of(n)[0]);
        lemma_digit_char_injective(m, n);
    } else if m < 10 && n >= 10 {
        lemma_dec_of_len(n / 10);
        assert(dec_of(n).len() >= 2);
        assert(dec_of(m).len() == 1);
    } else if m >= 10 && n < 10 {
        lemma_dec_of_len(m / 10);
        assert(dec_of(m).len() >= 2);
        assert(dec_of(n).len() == 1);
    } else {
        let dm = dec_of(m);
        let dn = dec_of(n);
        assert(dm.last() == digit_char(m % 10));
        assert(dn.last() == digit_char(n % 10));
        lemma_digit_char_injective(m % 10, n % 10);
        assert(dm.drop_last() =~= dec_of(m / 10)) by {
            assert(dm == dec_of(m / 10).push(digit_char(m % 10)));
        }
        assert(dn.drop_last() =~= dec_of(n / 10)) by {
            assert(dn == dec_of(n / 10).push(digit_char(n % 10)));
        }
        assert(dec_of(m / 10) == dec_of(n / 10));
        lemma_dec_of_injective(m / 10, n / 10);
        assert(m % 10 == n % 10);
        assert(m == 10 * (m / 10) + m % 10);
        assert(n == 10 * (n / 10) + n % 10);
    }
}

fn digit_exec(d: u64) -> (c: char)
    requires
        d < 10,
    ensures
        c == digit_char(d as nat),
{
    if d == 0 {
        '0'
    } else if d == 1 {
        '1'
    } else if d == 2 {
        '2'
    } else if d == 3 {
        '3'
    } else if d == 4 {
        '4'
    } else if d == 5 {
        '5'
    } else if d == 6 {
        '6'
    } else if d == 7 {
        '7'
    } else if d == 8 {
        '8'
    } else {
        '9'
    }
}

/// Renders a number in decimal.
pub fn u64_to_dec(n: u64) -> (r: String)
    ensures
        r@ == dec_of(n as nat),
    decreases n,
{
    if n < 10 {
        let mut s = String::new();
        push_char(&mut s, digit_exec(n));
        proof {
            assert(s@ =~= dec_of(n as nat));
        }
        s
    } else {
        let mut s = u64_to_dec(n / 10);
        push_char(&mut s, digit_exec(n % 10));
        s
    }
}

/// Appending different texts to one prefix yields different texts.
pub proof fn lemma_append_left_cancel(a: Seq<char>, x: Seq<char>, y: Seq<char>)
    requires
        x != y,
    ensures
        a + x != a + y,
{
    if x.len() != y.len() {
        assert((a + x).len() != (a + y).len());
    } else if a + x == a + y {
        assert forall|k: int| 0 <= k < x.len() implies x[k] == y[k] by {
            assert((a + x)[a.len() + k] == x[k]);
            assert((a + y)[a.len() + k] == y[k]);
        }
        assert(x =~= y);
    }
}

/// Whether `p` occurs as a contiguous run inside `s`.
pub open spec fn contains_seq(s: Seq<char>, p: Seq<char>) -> bool
    decreases s.len(),
{
    if s.len() < p.len() {
        false
    } else if s.subrange(0, p.len() as int) == p {
        true
    } else if s.len() == 0 {
        false
    } else {
        contains_seq(s.drop_first(), p)
    }
}

/// Searches `s` for the run `p`.
pub fn contains_str(s: &str, p: &str) -> (r: bool)
    ensures
        r == contains_seq(s@, p@),
{
    let n = s.unicode_len();
    let m = p.unicode_len();
    if m == 0 {
        proof {
            assert(s@.subrange(0, 0) =~= p@);
        }
        return true;
    }
    if m > n {
        return false;
    }
    let mut i: usize = 0;
    proof {
        assert(s@.subrange(0, n as int) =~= s@);
    }
    while i <= n - m
        invariant
            1 <= m <= n,
            n == s@.len(),
            m == p@.len(),
            i <= n - m + 1,
            contains_seq(s@, p@) == contains_seq(s@.subrange(i as int, n as int), p@),
        decreases n - i,
    {
        let w = s.substring_char(i, i + m);
        if str_eq(w, p) {
            proof {
                let suf = s@.subrange(i as int, n as int);
                assert(suf.subrange(0, m as int) =~= s@.subrange(i as int, i as int + m));
            }
            return true;
        }
        proof {
            let suf = s@.subrange(i as int, n as int);
            assert(suf.subrange(0, m as int) =~= s@.subrange(i as int, i as int + m));
            assert(suf.drop_first() =~= s@.subrange(i as int + 1, n as int));
        }
        i = i + 1;
    }
    proof {
        let suf = s@.subrange(i as int, n as int);
        assert(suf.len() < p@.len());
    }
    false
}

/// Whether `s` begins with `p`.
pub fn str_starts_with(s: &str, p: &str) -> (r: bool)
    ensures
        r == (s@.len() >= p@.len() && s@.subrange(0, p@.len() as int) == p@),
{
    let n = s.unicode_len();
    let m = p.unicode_len();
    if m > n {
        return false;
    }
    let w = s.substring_char(0, m);
    str_eq(w, p)
}

/// Whether `s` ends with `p`.
pub fn str_ends_with(s: &str, p: &str) -> (r: bool)
    ensures
        r == (s@.len() >= p@.len() && s@.subrange(s@.len() - p@.len(), s@.len() as int) == p@),
{
    let n = s.unicode_len();
    let m = p.unicode_len();
    if m > n {
        return false;
    }
    let w = s.substring_char(n - m, n);
    str_eq(w, p)
}

/// Joins all fragments of a generated artifact into one text.
pub fn render(lines: &Vec<String>) -> (r: String)
    ensures
        r@ == concat_views(line_views(lines@)),
{
    let mut s = String::new();
    let mut i: usize = 0;
    proof {
        let lv = line_views(lines@);
        assert(lv.subrange(0, lv.len() as int) =~= lv);
        assert(Seq::<char>::empty() + concat_views(lv) =~= concat_views(lv));
    }
    while i < lines.len()
        invariant
            i <= lines.len(),
            s@ + concat_views(line_views(lines@).subrange(i as int, lines@.len() as int))
                == concat_views(line_views(lines@)),
        decreases lines.len() - i,
    {
        proof {
            let lv = line_views(lines@);
            let suf = lv.subrange(i as int, lv.len() as int);
            assert(suf.drop_first() =~= lv.subrange(i as int + 1, lv.len() as int));
            assert(suf[0] == lines@[i as int]@);
        }
        s.append(lines[i].as_str());
        i = i + 1;
    }
    proof {
        let lv = line_views(lines@);
        assert(lv.subrange(i as int, lv.len() as int) =~= Seq::<Seq<char>>::empty());
        assert(s@ + Seq::<char>::empty() =~= s@);
    }
    s
}

} // verus!
