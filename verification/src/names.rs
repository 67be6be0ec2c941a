//! Identifier formatting: case conversion through the `inflector` crate
//! (trusted, with named results), full declaration-path names, overload
//! suffixes, and the small rewrites the generator applies to identifiers.

use crate::text::{cat2, dec_of, push_char, u64_to_dec};
use vstd::prelude::*;
use vstd::string::StrSliceExecFns;
use vstd::string::StringExecFns;

verus! {

/// What `inflector`'s snake-case conversion returns for a given text.
pub uninterp spec fn snake_of(s: Seq<char>) -> Seq<char>;

/// What `inflector`'s pascal-case conversion returns for a given text.
pub uninterp spec fn pascal_of(s: Seq<char>) -> Seq<char>;

/// What `inflector`'s camel-case conversion returns for a given text.
pub uninterp spec fn camel_of(s: Seq<char>) -> Seq<char>;

/// Relies on `inflector::cases::snakecase::to_snake_case`: the result depends
/// on the input characters alone, and an empty input stays empty.
#[verifier::external_body]
pub fn to_snake_case(s: &str) -> (r: String)
    ensures
        r@ == snake_of(s@),
        s@.len() == 0 ==> r@.len() == 0,
{
    inflector::cases::snakecase::to_snake_case(s)
}

/// Relies on `inflector::cases::pascalcase::to_pascal_case`: the result
/// depends on the input characters alone, and an empty input stays empty.
#[verifier::external_body]
pub fn to_pascal_case(s: &str) -> (r: String)
    ensures
        r@ == pascal_of(s@),
        s@.len() == 0 ==> r@.len() == 0,
{
    inflector::cases::pascalcase::to_pascal_case(s)
}

/// Relies on `inflector::cases::camelcase::to_camel_case`: the result depends
/// on the input characters alone, and an empty input stays empty.
#[verifier::external_body]
pub fn to_camel_case(s: &str) -> (r: String)
    ensures
        r@ == camel_of(s@),
        s@.len() == 0 ==> r@.len() == 0,
{
    inflector::cases::camelcase::to_camel_case(s)
}

/// A destructor name without its leading tilde; any other name unchanged.
pub open spec fn strip_tilde(s: Seq<char>) -> Seq<char> {
    if s.len() > 0 && s[0] == '~' {
        s.subrange(1, s.len() as int)
    } else {
        s
    }
}

/// The pascal-cased event-variant name of one native method name.
pub fn format_enum_name(name: &str) -> (r: String)
    ensures
        r@ == pascal_of(strip_tilde(name@)),
{
    let n = name.unicode_len();
    if n > 0 && name.get_char(0) == '~' {
        let rest = name.substring_char(1, n);
        to_pascal_case(rest)
    } else {
        to_pascal_case(name)
    }
}

/// The full generated name of a declaration path: its non-empty segments
/// joined with underscores. `first_done` tells whether a segment has already
/// been written, so that a separator is owed before the next one.
pub open spec fn spec_join_path(segs: Seq<String>, i: int, first_done: bool) -> Seq<char>
    decreases segs.len() - i,
{
    if i < 0 || i >= segs.len() {
        Seq::empty()
    } else if segs[i]@.len() == 0 {
        spec_join_path(segs, i + 1, first_done)
    } else if first_done {
        "_"@ + segs[i]@ + spec_join_path(segs, i + 1, true)
    } else {
        segs[i]@ + spec_join_path(segs, i + 1, true)
    }
}

/// The view of a full declaration-path name.
pub open spec fn full_name_view(segs: Seq<String>) -> Seq<char> {
    spec_join_path(segs, 0, false)
}

/// The fully-qualified generated name of a declared entity: the names of its
/// enclosing declarations, outermost first, joined with underscores, empty
/// segments dropped.
pub fn get_full_name_of_entity(segments: &Vec<String>) -> (r: String)
    ensures
        r@ == full_name_view(segments@),
{
    let mut s = String::new();
    let mut first_done = false;
    let mut i: usize = 0;
    proof {
        assert(Seq::<char>::empty() + full_name_view(segments@) =~= full_name_view(segments@));
    }
    while i < segments.len()
        invariant
            i <= segments.len(),
            s@ + spec_join_path(segments@, i as int, first_done) == full_name_view(segments@),
            first_done == (s@.len() > 0) || (!first_done && s@.len() == 0),
        decreases segments.len() - i,
    {
        let seg = &segments[i];
        if seg.as_str().unicode_len() > 0 {
            if first_done {
                s.append("_");
            }
            s.append(seg.as_str());
            first_done = true;
        }
        i = i + 1;
    }
    proof {
        assert(spec_join_path(segments@, i as int, first_done) =~= Seq::<char>::empty());
        assert(s@ + Seq::<char>::empty() =~= s@);
    }
    s
}

/// The numeric suffix that disambiguates overload siblings: empty for the
/// first occurrence of a name, the prior-occurrence count for later ones.
pub open spec fn spec_suffix(prior: nat) -> Seq<char> {
    if prior > 0 {
        dec_of(prior)
    } else {
        Seq::empty()
    }
}

/// The overload suffix of a method with `prior` earlier same-named siblings.
pub fn suffix_string(prior: u64) -> (r: String)
    ensures
        r@ == spec_suffix(prior as nat),
{
    if prior > 0 {
        u64_to_dec(prior)
    } else {
        let r = String::new();
        r
    }
}

/// Every ASCII lowercase letter of a text raised to uppercase.
pub open spec fn upper_char(c: char) -> char {
    if 'a' <= c && c <= 'z' {
        ((c as u8) - 32) as char
    } else {
        c
    }
}

pub open spec fn upper_view(s: Seq<char>) -> Seq<char> {
    Seq::new(s.len(), |i: int| upper_char(s[i]))
}

/// Raises the ASCII lowercase letters of a text to uppercase, as the static
/// dispatch-table variable name asks.
pub fn ascii_upper(s: &str) -> (r: String)
    ensures
        r@ == upper_view(s@),
{
    let n = s.unicode_len();
    let mut out = String::new();
    let mut i: usize = 0;
    while i < n
        invariant
            i <= n,
            n == s@.len(),
            out@ =~= upper_view(s@).subrange(0, i as int),
        decreases n - i,
    {
        let c = s.get_char(i);
        if 'a' <= c && c <= 'z' {
            let b = c as u8;
            push_char(&mut out, (b - 32) as char);
        } else {
            push_char(&mut out, c);
        }
        proof {
            assert(out@ =~= upper_view(s@).subrange(0, i as int + 1));
        }
        i = i + 1;
    }
    proof {
        assert(upper_view(s@).subrange(0, n as int) =~= upper_view(s@));
    }
    out
}

/// The generator's identifier rewrite `Id` -> `ID`, applied left to right to
/// non-overlapping occurrences.
pub open spec fn replace_id_view(s: Seq<char>) -> Seq<char>
    decreases s.len(),
{
    if s.len() < 2 {
        s
    } else if s[0] == 'I' && s[1] == 'd' {
        "ID"@ + replace_id_view(s.subrange(2, s.len() as int))
    } else {
        seq![s[0]] + replace_id_view(s.subrange(1, s.len() as int))
    }
}

/// Rewrites each occurrence of `Id` in an identifier to `ID`.
pub fn replace_id(s: &str) -> (r: String)
    ensures
        r@ == replace_id_view(s@),
{
    let n = s.unicode_len();
    let mut out = String::new();
    let mut i: usize = 0;
    proof {
        assert(s@.subrange(0, n as int) =~= s@);
        assert(Seq::<char>::empty() + replace_id_view(s@) =~= replace_id_view(s@));
    }
    while i < n
        invariant
            i <= n,
            n == s@.len(),
            out@ + replace_id_view(s@.subrange(i as int, n as int)) == replace_id_view(s@),
        decreases n - i,
    {
        proof {
            let suf = s@.subrange(i as int, n as int);
            assert(suf.len() == n - i);
        }
        if i + 1 < n && s.get_char(i) == 'I' && s.get_char(i + 1) == 'd' {
            proof {
                let suf = s@.subrange(i as int, n as int);
                assert(suf[0] == s@[i as int]);
                assert(suf[1] == s@[i as int + 1]);
                assert(suf.subrange(2, suf.len() as int) =~= s@.subrange(i as int + 2, n as int));
            }
            out.append("ID");
            i = i + 2;
        } else {
            let c = s.get_char(i);
            proof {
                let suf = s@.subrange(i as int, n as int);
                assert(suf[0] == s@[i as int]);
                if suf.len() >= 2 {
                    assert(suf[1] == s@[i as int + 1]);
                }
                assert(suf.subrange(1, suf.len() as int) =~= s@.subrange(i as int + 1, n as int));
                assert(out@.push(c) =~= out@ + seq![c]);
            }
            push_char(&mut out, c);
            i = i + 1;
        }
    }
    proof {
        assert(s@.subrange(i as int, n as int) =~= Seq::<char>::empty());
        assert(out@ + Seq::<char>::empty() =~= out@);
    }
    out
}

/// The generated identifier of a method: its snake-cased name followed by the
/// overload suffix.
pub open spec fn method_ident_view(name: Seq<char>, prior: nat) -> Seq<char> {
    snake_of(name) + spec_suffix(prior)
}

/// The generated event-variant identifier of a method: its pascal-cased name,
/// tilde stripped, followed by the overload suffix.
pub open spec fn enum_ident_view(name: Seq<char>, prior: nat) -> Seq<char> {
    pascal_of(strip_tilde(name)) + spec_suffix(prior)
}

/// Builds a method identifier from a raw native name and its prior-sibling
/// count.
pub fn method_ident(name: &str, prior: u64) -> (r: String)
    ensures
        r@ == method_ident_view(name@, prior as nat),
{
    let base = to_snake_case(name);
    let suf = suffix_string(prior);
    cat2(base.as_str(), suf.as_str())
}

/// Builds an event-variant identifier from a raw native name and its
/// prior-sibling count.
pub fn enum_ident(name: &str, prior: u64) -> (r: String)
    ensures
        r@ == enum_ident_view(name@, prior as nat),
{
    let base = format_enum_name(name);
    let suf = suffix_string(prior);
    cat2(base.as_str(), suf.as_str())
}

} // verus!
