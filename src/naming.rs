//! The snake-case name under which a state type's specialized events are
//! grouped (`LifeFSM` gives `life_fsm`).
use vstd::prelude::*;

verus! {

/// Whether `c` has Unicode's `Uppercase` property.
pub uninterp spec fn upper_char(c: char) -> bool;

/// Whether `c` has Unicode's `Lowercase` property.
pub uninterp spec fn lower_char(c: char) -> bool;

/// The first character of the lowercase mapping of `c`.
pub uninterp spec fn lowered_char(c: char) -> char;

/// Relies on `char::is_uppercase`.
#[verifier::external_body]
fn is_upper(c: char) -> (r: bool)
    ensures
        r == upper_char(c),
{
    c.is_uppercase()
}

/// Relies on `char::is_lowercase`.
#[verifier::external_body]
fn is_lower(c: char) -> (r: bool)
    ensures
        r == lower_char(c),
{
    c.is_lowercase()
}

/// Relies on `char::to_lowercase`, whose iterator yields at least one
/// character.
#[verifier::external_body]
fn lower_first(c: char) -> (r: char)
    ensures
        r == lowered_char(c),
{
    c.to_lowercase().next().unwrap()
}

/// Relies on `String::push`: the character is appended.
pub assume_specification[ String::push ](s: &mut String, ch: char)
    ensures
        final(s)@ == old(s)@.push(ch),
;

/// What the case queries say of one character.
#[derive(Clone, Copy, Debug, PartialEq, Eq, Structural)]
pub struct CharCase {
    /// The character is uppercase.
    pub upper: bool,
    /// The character is lowercase.
    pub lower: bool,
    /// The first character of its lowercase form.
    pub lowered: char,
}

/// The case queries on `c`.
pub open spec fn case_of(c: char) -> CharCase {
    CharCase { upper: upper_char(c), lower: lower_char(c), lowered: lowered_char(c) }
}

/// Whether an underscore goes before the uppercase character at `i`: not
/// at the start, and where it follows a lowercase character or starts a
/// lowercase run (the last capital of an acronym).
pub open spec fn breaks_before(cases: Seq<CharCase>, i: int) -> bool {
    &&& i != 0
    &&& ((i > 0 && cases[i - 1].lower) || (i + 1 < cases.len() && cases[i + 1].lower))
}

/// What the character at `i` becomes.
pub open spec fn snake_piece(chars: Seq<char>, cases: Seq<CharCase>, i: int) -> Seq<char> {
    if cases[i].upper {
        if breaks_before(cases, i) {
            seq!['_', cases[i].lowered]
        } else {
            seq![cases[i].lowered]
        }
    } else {
        seq![chars[i]]
    }
}

/// The first `n` characters, converted.
pub open spec fn snake_prefix(chars: Seq<char>, cases: Seq<CharCase>, n: int) -> Seq<char>
    decreases n,
{
    if n <= 0 {
        Seq::empty()
    } else {
        snake_prefix(chars, cases, n - 1) + snake_piece(chars, cases, n - 1)
    }
}

/// The snake-case form of `chars`, whose case queries are `cases`.
pub open spec fn snake_case(chars: Seq<char>, cases: Seq<CharCase>) -> Seq<char> {
    snake_prefix(chars, cases, chars.len() as int)
}

/// The snake-case form of `chars`, given the case queries on each
/// character.
pub fn snake_case_with(chars: &Vec<char>, cases: &Vec<CharCase>) -> (r: String)
    requires
        cases.len() == chars.len(),
    ensures
        r@ == snake_case(chars@, cases@),
{
    let mut out = String::new();
    let n = chars.len();
    let mut i: usize = 0;
    while i < n
        invariant
            n == chars.len(),
            cases.len() == n,
            i <= n,
            out@ == snake_prefix(chars@, cases@, i as int),
        decreases n - i,
    {
        let case = cases[i];
        if case.upper {
            let after_lower = i > 0 && cases[i - 1].lower;
            let before_lower = i + 1 < n && cases[i + 1].lower;
            if i != 0 && (after_lower || before_lower) {
                out.push('_');
            }
            out.push(case.lowered);
        } else {
            out.push(chars[i]);
        }
        proof {
            assert(out@ =~= snake_prefix(chars@, cases@, i as int + 1));
        }
        i = i + 1;
    }
    out
}

/// The characters of `s`, in order.
pub(crate) fn chars_of(s: &str) -> (r: Vec<char>)
    ensures
        r@ == s@,
{
    let mut out: Vec<char> = Vec::new();
    for c in it: s.chars()
        invariant
            out@ == it.seq().take(it.index() as int),
    {
        out.push(c);
    }
    out
}

/// The snake-case form of an identifier: each uppercase character is
/// lowered, and an underscore goes before it where it follows a lowercase
/// character or starts a lowercase run, except at the start.
pub fn to_snake_case(s: &str) -> (r: String)
    ensures
        r@ == snake_case(s@, s@.map_values(|c: char| case_of(c))),
{
    let chars = chars_of(s);
    let mut cases: Vec<CharCase> = Vec::new();
    let mut i: usize = 0;
    while i < chars.len()
        invariant
            i <= chars.len(),
            chars@ == s@,
            cases@ == s@.take(i as int).map_values(|c: char| case_of(c)),
        decreases chars.len() - i,
    {
        let c = chars[i];
        cases.push(CharCase { upper: is_upper(c), lower: is_lower(c), lowered: lower_first(c) });
        proof {
            assert(cases@ =~= s@.take(i as int + 1).map_values(|c: char| case_of(c)));
        }
        i = i + 1;
    }
    proof {
        assert(s@.take(chars.len() as int) =~= s@);
    }
    snake_case_with(&chars, &cases)
}

} // verus!
