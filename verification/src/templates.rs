//! Item templates rendered once per enum variant: `{variant}` stands for the variant's name,
//! `{variant_snake_case}` for its snake case form and `{variant_shouty_snake_case}` for its
//! shouty snake case form.

use heck::{ToShoutySnakeCase, ToSnakeCase};
use vstd::prelude::*;
use vstd::string::StrSliceExecFns;

verus! {

/// What `heck::ToSnakeCase::to_snake_case` gives for a string.
pub uninterp spec fn snake_case_of(s: Seq<char>) -> Seq<char>;

/// What `heck::ToShoutySnakeCase::to_shouty_snake_case` gives for a string.
pub uninterp spec fn shouty_snake_case_of(s: Seq<char>) -> Seq<char>;

/// `heck::ToSnakeCase::to_snake_case`: the snake case form of a name (words in lower case,
/// joined by underscores).
#[verifier::external_body]
fn to_snake_case(s: &str) -> (r: String)
    ensures
        r@ == snake_case_of(s@),
{
    s.to_snake_case()
}

/// `heck::ToShoutySnakeCase::to_shouty_snake_case`: the shouty snake case form of a name (words
/// in upper case, joined by underscores).
#[verifier::external_body]
fn to_shouty_snake_case(s: &str) -> (r: String)
    ensures
        r@ == shouty_snake_case_of(s@),
{
    s.to_shouty_snake_case()
}

/// `String::from_iter`: the string of the given characters.
#[verifier::external_body]
fn string_from_chars(chars: &Vec<char>) -> (r: String)
    ensures
        r@ == chars@,
{
    String::from_iter(chars.iter())
}

/// `s` with every occurrence of the non-empty pattern `pat` replaced by `with`, scanning from
/// the left and never inside a replaced occurrence.
pub open spec fn replaced(s: Seq<char>, pat: Seq<char>, with: Seq<char>) -> Seq<char>
    decreases s.len(),
{
    if pat.len() == 0 || s.len() < pat.len() {
        s
    } else if s.take(pat.len() as int) == pat {
        with + replaced(s.skip(pat.len() as int), pat, with)
    } else {
        seq![s[0]] + replaced(s.skip(1), pat, with)
    }
}

/// The characters of a string.
fn chars_of(s: &str) -> (r: Vec<char>)
    ensures
        r@ == s@,
{
    let n = s.unicode_len();
    let mut out: Vec<char> = Vec::new();
    let mut i: usize = 0;
    while i < n
        invariant
            n == s@.len(),
            i <= n,
            out@ == s@.take(i as int),
        decreases n - i,
    {
        out.push(s.get_char(i));
        i = i + 1;
        assert(out@ =~= s@.take(i as int));
    }
    assert(s@.take(n as int) =~= s@);
    out
}

/// Whether `pat` occurs in `s` at position `at`.
fn occurs_at(s: &Vec<char>, pat: &Vec<char>, at: usize) -> (r: bool)
    requires
        at + pat@.len() <= s@.len(),
    ensures
        r == (s@.skip(at as int).take(pat@.len() as int) == pat@),
{
    let total = s.len();
    let mut k: usize = 0;
    while k < pat.len()
        invariant
            total == s@.len(),
            at + pat@.len() <= s@.len(),
            k <= pat@.len(),
            forall|j: int| 0 <= j < k ==> s@[at + j] == pat@[j],
        decreases pat@.len() - k,
    {
        if s[at + k] != pat[k] {
            assert(s@.skip(at as int).take(pat@.len() as int)[k as int] != pat@[k as int]);
            return false;
        }
        k = k + 1;
    }
    assert(s@.skip(at as int).take(pat@.len() as int) =~= pat@);
    true
}

/// Replaces every occurrence of the non-empty pattern `pat` in `s` by `with`.
fn replace_all(s: &Vec<char>, pat: &Vec<char>, with: &Vec<char>) -> (r: Vec<char>)
    requires
        pat@.len() > 0,
    ensures
        r@ == replaced(s@, pat@, with@),
{
    let n = s.len();
    let m = pat.len();
    let mut out: Vec<char> = Vec::new();
    let mut i: usize = 0;
    assert(s@.skip(0) =~= s@);
    while i < n
        invariant
            n == s@.len(),
            m == pat@.len(),
            m > 0,
            i <= n,
            out@ + replaced(s@.skip(i as int), pat@, with@) == replaced(s@, pat@, with@),
        decreases n - i,
    {
        let rest = Ghost(s@.skip(i as int));
        if n - i >= m && occurs_at(s, pat, i) {
            assert(rest@.take(m as int) == s@.skip(i as int).take(m as int));
            assert(rest@.skip(m as int) =~= s@.skip(i + m));
            let mut k: usize = 0;
            let ghost before = out@;
            while k < with.len()
                invariant
                    k <= with@.len(),
                    out@ == before + with@.take(k as int),
                decreases with@.len() - k,
            {
                out.push(with[k]);
                k = k + 1;
                assert(out@ =~= before + with@.take(k as int));
            }
            assert(with@.take(with@.len() as int) =~= with@);
            assert(before + (with@ + replaced(s@.skip(i + m), pat@, with@)) =~= out@ + replaced(
                s@.skip(i + m),
                pat@,
                with@,
            ));
            i = i + m;
        } else {
            assert(rest@.skip(1) =~= s@.skip(i + 1));
            assert(rest@[0] == s@[i as int]);
            let ghost before = out@;
            out.push(s[i]);
            assert(before + (seq![s@[i as int]] + replaced(s@.skip(i + 1), pat@, with@)) =~= out@
                + replaced(s@.skip(i + 1), pat@, with@));
            i = i + 1;
        }
    }
    assert(s@.skip(n as int) =~= Seq::<char>::empty());
    assert(out@ + Seq::<char>::empty() =~= out@);
    out
}

/// The template marker of the variant's name.
pub open spec fn variant_marker() -> Seq<char> {
    "{variant}"@
}

/// The template marker of the variant's snake case name.
pub open spec fn snake_marker() -> Seq<char> {
    "{variant_snake_case}"@
}

/// The template marker of the variant's shouty snake case name.
pub open spec fn shouty_marker() -> Seq<char> {
    "{variant_shouty_snake_case}"@
}

/// Renders a template for the variant called `name`: the markers are replaced, in this order,
/// by the name, its snake case form and its shouty snake case form.
pub fn process_template(template: &str, name: &str) -> (r: String)
    ensures
        r@ == replaced(
            replaced(replaced(template@, variant_marker(), name@), snake_marker(), snake_case_of(name@)),
            shouty_marker(),
            shouty_snake_case_of(name@),
        ),
{
    let t = chars_of(template);
    let n = chars_of(name);
    let snake = chars_of(to_snake_case(name).as_str());
    let shouty = chars_of(to_shouty_snake_case(name).as_str());
    let m1 = chars_of("{variant}");
    let m2 = chars_of("{variant_snake_case}");
    let m3 = chars_of("{variant_shouty_snake_case}");
    proof {
        reveal_strlit("{variant}");
        reveal_strlit("{variant_snake_case}");
        reveal_strlit("{variant_shouty_snake_case}");
    }
    let r1 = replace_all(&t, &m1, &n);
    let r2 = replace_all(&r1, &m2, &snake);
    let r3 = replace_all(&r2, &m3, &shouty);
    string_from_chars(&r3)
}


/// A string in which the first character of the pattern never occurs is left as it is.
pub proof fn lemma_replaced_without_pattern(s: Seq<char>, pat: Seq<char>, with: Seq<char>)
    requires
        pat.len() > 0,
        !s.contains(pat[0]),
    ensures
        replaced(s, pat, with) == s,
    decreases s.len(),
{
    if s.len() >= pat.len() {
        if s.take(pat.len() as int) == pat {
            assert(s[0] == pat[0]);
        }
        assert(!s.skip(1).contains(pat[0])) by {
            if s.skip(1).contains(pat[0]) {
                let j = choose|j: int| 0 <= j < s.skip(1).len() && s.skip(1)[j] == pat[0];
                assert(s[j + 1] == pat[0]);
            }
        }
        lemma_replaced_without_pattern(s.skip(1), pat, with);
        assert(seq![s[0]] + s.skip(1) =~= s);
    }
}

/// A template without a `{` is rendered as it is, whatever the variant.
pub proof fn lemma_plain_template(template: Seq<char>, name: Seq<char>)
    requires
        !template.contains('{'),
    ensures
        replaced(
            replaced(replaced(template, variant_marker(), name), snake_marker(), snake_case_of(name)),
            shouty_marker(),
            shouty_snake_case_of(name),
        ) == template,
{
    reveal_strlit("{variant}");
    reveal_strlit("{variant_snake_case}");
    reveal_strlit("{variant_shouty_snake_case}");
    lemma_replaced_without_pattern(template, variant_marker(), name);
    lemma_replaced_without_pattern(template, snake_marker(), snake_case_of(name));
    lemma_replaced_without_pattern(template, shouty_marker(), shouty_snake_case_of(name));
}

} // verus!
