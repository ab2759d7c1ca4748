//! Text: the few string operations that the rules of playback rest on.

use vstd::prelude::*;

verus! {

/// Whether `pattern` occurs somewhere in `text`.
pub open spec fn occurs_in(text: Seq<char>, pattern: Seq<char>) -> bool {
    exists|i: int|
        0 <= i && i + pattern.len() <= text.len() && #[trigger] text.subrange(
            i,
            i + pattern.len(),
        ) == pattern
}

/// `c` with the letters `A` to `Z` mapped to `a` to `z`.
pub open spec fn ascii_lower(c: char) -> char {
    if 'A' <= c && c <= 'Z' {
        ((c as u32 + 32) as u32) as char
    } else {
        c
    }
}

/// `text` with every letter `A` to `Z` mapped to `a` to `z`.
pub open spec fn ascii_lowered(text: Seq<char>) -> Seq<char> {
    text.map_values(|c: char| ascii_lower(c))
}

/// Whether two texts differ at most in the case of ASCII letters.
pub open spec fn same_ignoring_ascii_case(a: Seq<char>, b: Seq<char>) -> bool {
    ascii_lowered(a) == ascii_lowered(b)
}

/// What `str::to_lowercase` makes of a text, by the Unicode tables.
pub uninterp spec fn unicode_lowered(text: Seq<char>) -> Seq<char>;

/// The digit `d` as a character.
pub open spec fn digit(d: nat) -> char {
    ((48 + d) as u32) as char
}

/// `n` written in decimal, without leading zeros.
pub open spec fn decimal(n: nat) -> Seq<char>
    decreases n,
{
    if n < 10 {
        seq![digit(n)]
    } else {
        decimal(n / 10).push(digit(n % 10))
    }
}

/// A truth value as it is written in a query.
pub open spec fn truth(b: bool) -> Seq<char> {
    if b {
        "true"@
    } else {
        "false"@
    }
}

/// Calls `str::eq`: two string slices are equal when their characters are.
#[verifier::external_body]
pub(crate) fn same_text(a: &str, b: &str) -> (r: bool)
    ensures
        r == (a@ == b@),
{
    a == b
}

/// Calls `str::contains`: whether a sub-slice of `text` equals `pattern`.
#[verifier::external_body]
pub(crate) fn contains(text: &str, pattern: &str) -> (r: bool)
    ensures
        r == occurs_in(text@, pattern@),
{
    text.contains(pattern)
}

/// Calls `str::to_ascii_lowercase`: ASCII letters are lowered one for one, all
/// other characters stay.
#[verifier::external_body]
pub(crate) fn to_ascii_lowercase(text: &str) -> (r: String)
    ensures
        r@ == ascii_lowered(text@),
{
    text.to_ascii_lowercase()
}

/// Calls `str::eq_ignore_ascii_case`: the same as comparing the two texts with
/// their ASCII letters lowered.
#[verifier::external_body]
pub(crate) fn eq_ignore_ascii_case(a: &str, b: &str) -> (r: bool)
    ensures
        r == same_ignoring_ascii_case(a@, b@),
{
    a.eq_ignore_ascii_case(b)
}

/// Calls `str::to_lowercase`, whose result depends on the text alone. Which
/// characters the Unicode tables map where is left to the name.
#[verifier::external_body]
pub(crate) fn to_lowercase(text: &str) -> (r: String)
    ensures
        r@ == unicode_lowered(text@),
{
    text.to_lowercase()
}

/// Calls `str::rsplit_once` with a colon: the parts before and after the last
/// colon, or nothing where there is no colon.
#[verifier::external_body]
pub(crate) fn rsplit_once_colon(text: &str) -> (r: Option<(&str, &str)>)
    ensures
        r is None <==> !text@.contains(':'),
        r matches Some((before, after)) ==> {
            &&& text@ == before@.push(':') + after@
            &&& !after@.contains(':')
        },
{
    text.rsplit_once(':')
}

/// Calls `u64::to_string`: the number in decimal.
#[verifier::external_body]
pub(crate) fn number_text(n: u64) -> (r: String)
    ensures
        r@ == decimal(n as nat),
{
    n.to_string()
}

/// A truth value as it is written in a query: `true` or `false`.
pub fn truth_text(b: bool) -> (r: String)
    ensures
        r@ == truth(b),
{
    if b {
        "true".to_string()
    } else {
        "false".to_string()
    }
}

/// Whether two optional texts are equal.
pub fn same_optional_text(a: &Option<String>, b: &Option<String>) -> (r: bool)
    ensures
        r == (optional_text(*a) == optional_text(*b)),
{
    match (a, b) {
        (Some(x), Some(y)) => same_text(x.as_str(), y.as_str()),
        (None, None) => true,
        _ => false,
    }
}

/// The characters of an optional text.
pub open spec fn optional_text(text: Option<String>) -> Option<Seq<char>> {
    match text {
        Some(t) => Some(t@),
        None => None,
    }
}

/// A copy of an optional text.
pub(crate) fn copy_optional_text(text: &Option<String>) -> (r: Option<String>)
    ensures
        r == *text,
{
    match text {
        Some(t) => Some(t.clone()),
        None => None,
    }
}

/// The characters of each text of a list.
pub open spec fn texts(list: Seq<String>) -> Seq<Seq<char>> {
    list.map_values(|t: String| t@)
}

/// The characters of each text of an optional list.
pub open spec fn optional_texts(list: Option<Vec<String>>) -> Option<Seq<Seq<char>>> {
    match list {
        Some(l) => Some(texts(l@)),
        None => None,
    }
}

/// Whether two lists hold the same texts in the same order.
pub fn same_texts(a: &Vec<String>, b: &Vec<String>) -> (r: bool)
    ensures
        r == (texts(a@) == texts(b@)),
{
    if a.len() != b.len() {
        assert(texts(a@).len() != texts(b@).len());
        return false;
    }
    for i in 0..a.len()
        invariant
            a.len() == b.len(),
            forall|j: int| 0 <= j < i ==> #[trigger] texts(a@)[j] == texts(b@)[j],
    {
        if !same_text(a[i].as_str(), b[i].as_str()) {
            assert(texts(a@)[i as int] != texts(b@)[i as int]);
            return false;
        }
    }
    assert(texts(a@) =~= texts(b@));
    true
}

/// Whether two optional lists hold the same texts in the same order.
pub fn same_optional_texts(a: &Option<Vec<String>>, b: &Option<Vec<String>>) -> (r: bool)
    ensures
        r == (optional_texts(*a) == optional_texts(*b)),
{
    match (a, b) {
        (Some(x), Some(y)) => same_texts(x, y),
        (None, None) => true,
        _ => false,
    }
}

/// A pattern occurs in a text exactly where the text is the pattern with
/// something before and something behind it.
pub proof fn law_a_pattern_occurs_where_the_text_holds_it(text: Seq<char>, pattern: Seq<char>)
    ensures
        occurs_in(text, pattern) <==> exists|before: Seq<char>, after: Seq<char>|
            text == #[trigger] (before + pattern + after),
{
    if occurs_in(text, pattern) {
        let i = choose|i: int|
            0 <= i && i + pattern.len() <= text.len() && #[trigger] text.subrange(
                i,
                i + pattern.len(),
            ) == pattern;
        let before = text.subrange(0, i);
        let after = text.subrange(i + pattern.len(), text.len() as int);
        assert(text =~= before + pattern + after);
    }
    if exists|before: Seq<char>, after: Seq<char>| text == #[trigger] (before + pattern + after) {
        let (before, after) = choose|before: Seq<char>, after: Seq<char>|
            text == #[trigger] (before + pattern + after);
        let i = before.len() as int;
        assert(text.subrange(i, i + pattern.len()) =~= pattern);
    }
}

/// Lowering a text moves its letters `A` to `Z` by 32 code points, to `a` to
/// `z`, and leaves every other character where it is.
pub proof fn law_lowering_touches_capital_letters_only(text: Seq<char>)
    ensures
        ascii_lowered(text).len() == text.len(),
        forall|i: int|
            0 <= i < text.len() && 65 <= text[i] as int <= 90 ==> #[trigger] ascii_lowered(
                text,
            )[i] as int == text[i] as int + 32,
        forall|i: int|
            0 <= i < text.len() && !(65 <= text[i] as int <= 90) ==> #[trigger] ascii_lowered(
                text,
            )[i] == text[i],
        ascii_lowered(ascii_lowered(text)) == ascii_lowered(text),
{
    assert(ascii_lowered(ascii_lowered(text)) =~= ascii_lowered(text));
}

/// Two texts are the same but for case exactly where they are equally long and
/// each two characters are equal, or are a letter `A` to `Z` and its small one.
pub proof fn law_the_same_but_for_case(a: Seq<char>, b: Seq<char>)
    ensures
        same_ignoring_ascii_case(a, b) <==> a.len() == b.len() && forall|i: int|
            0 <= i < a.len() ==> {
                ||| #[trigger] a[i] == b[i]
                ||| 65 <= a[i] as int <= 90 && b[i] as int == a[i] as int + 32
                ||| 65 <= b[i] as int <= 90 && a[i] as int == b[i] as int + 32
            },
{
    let x = ascii_lowered(a);
    let y = ascii_lowered(b);
    if x == y {
        assert(a.len() == x.len() && b.len() == y.len());
        assert forall|i: int| 0 <= i < a.len() implies {
            ||| #[trigger] a[i] == b[i]
            ||| 65 <= a[i] as int <= 90 && b[i] as int == a[i] as int + 32
            ||| 65 <= b[i] as int <= 90 && a[i] as int == b[i] as int + 32
        } by {
            assert(x[i] == y[i]);
        }
    }
    if a.len() == b.len() && forall|i: int|
        0 <= i < a.len() ==> {
            ||| #[trigger] a[i] == b[i]
            ||| 65 <= a[i] as int <= 90 && b[i] as int == a[i] as int + 32
            ||| 65 <= b[i] as int <= 90 && a[i] as int == b[i] as int + 32
        } {
        assert forall|i: int| 0 <= i < x.len() implies x[i] == y[i] by {
            assert(a[i] == a[i]);
        }
        assert(x =~= y);
    }
}

/// The number that a text of digits is read as.
pub open spec fn read_decimal(digits: Seq<char>) -> int
    decreases digits.len(),
{
    if digits.len() == 0 {
        0
    } else {
        10 * read_decimal(digits.drop_last()) + (digits.last() as int - 48)
    }
}

/// A number that is written in decimal is read back as itself. It is written in
/// digits only, and begins with a zero only where it is zero.
pub proof fn law_a_written_number_is_read_back(n: nat)
    ensures
        read_decimal(decimal(n)) == n,
        decimal(n).len() > 0,
        forall|i: int| 0 <= i < decimal(n).len() ==> 48 <= #[trigger] decimal(n)[i] as int <= 57,
        decimal(n)[0] as int == 48 ==> n == 0 && decimal(n).len() == 1,
    decreases n,
{
    reveal_with_fuel(read_decimal, 2);
    if n < 10 {
        assert(decimal(n).drop_last().len() == 0);
    } else {
        law_a_written_number_is_read_back(n / 10);
        assert(decimal(n).drop_last() =~= decimal(n / 10));
        assert(decimal(n)[0] == decimal(n / 10)[0]);
    }
}

/// A truth value is written as `true` or `false`.
pub proof fn law_truth_values_have_names(b: bool, r: String)
    requires
        call_ensures(truth_text, (b,), r),
    ensures
        b ==> r@ == "true"@,
        !b ==> r@ == "false"@,
        truth(true) == "true"@,
        truth(false) == "false"@,
{
}

/// Lists of texts are the same exactly where they are equally long and hold the
/// same characters at each place.
pub proof fn law_the_same_texts(a: Vec<String>, b: Vec<String>, r: bool)
    requires
        call_ensures(same_texts, (&a, &b), r),
    ensures
        r <==> a@.len() == b@.len() && forall|i: int|
            0 <= i < a@.len() ==> (#[trigger] a@[i])@ == b@[i]@,
        texts(a@).len() == a@.len(),
        forall|i: int| 0 <= i < a@.len() ==> #[trigger] texts(a@)[i] == a@[i]@,
{
    if texts(a@) == texts(b@) {
        assert(texts(a@).len() == a@.len() && texts(b@).len() == b@.len());
        assert forall|i: int| 0 <= i < a@.len() implies (#[trigger] a@[i])@ == b@[i]@ by {
            assert(texts(a@)[i] == texts(b@)[i]);
        }
    }
    if a@.len() == b@.len() && forall|i: int| 0 <= i < a@.len() ==> (#[trigger] a@[i])@ == b@[i]@ {
        assert(texts(a@) =~= texts(b@));
    }
}

/// An optional text is the same as another exactly where both are missing, or
/// both are there with the same characters.
pub proof fn law_the_same_optional_text(a: Option<String>, b: Option<String>, r: bool)
    requires
        call_ensures(same_optional_text, (&a, &b), r),
    ensures
        a is None ==> r == (b is None),
        a is Some && b is Some ==> r == (a->0@ == b->0@),
        a is Some && b is None ==> !r,
        optional_text(a) is Some <==> a is Some,
        a is Some ==> optional_text(a) == Some(a->0@),
{
}

/// An optional list of texts is the same as another exactly where both are
/// missing, or both are there with the same texts.
pub proof fn law_the_same_optional_texts(
    a: Option<Vec<String>>,
    b: Option<Vec<String>>,
    r: bool,
)
    requires
        call_ensures(same_optional_texts, (&a, &b), r),
    ensures
        a is None ==> r == (b is None),
        a is Some && b is None ==> !r,
        a is Some && b is Some ==> r == (texts(a->0@) == texts(b->0@)),
        optional_texts(a) is Some <==> a is Some,
        a is Some ==> optional_texts(a) == Some(texts(a->0@)),
{
}

} // verus!
