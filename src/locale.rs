use vstd::prelude::*;
use vstd::string::StrSliceExecFns;

use crate::bundle::views_of;

verus! {

/// ASCII upper case of a character: `'a'..='z'` become `'A'..='Z'`, every
/// other character stays as it is.
pub open spec fn ascii_upper(c: char) -> char {
    if 'a' <= c && c <= 'z' {
        ((c as u32) - 32) as char
    } else {
        c
    }
}

/// Relies on `char::to_ascii_uppercase`: ASCII lower-case letters become
/// their upper-case forms and every other character is returned unchanged.
pub assume_specification[ char::to_ascii_uppercase ](c: &char) -> (r: char)
    ensures
        r == ascii_upper(*c),
;

/// The language subtag of a locale, normalized: its first two characters
/// in ASCII upper case. A locale of fewer than two characters has none.
pub open spec fn language_subtag(raw: Seq<char>) -> Option<Seq<char>> {
    if raw.len() >= 2 {
        Some(seq![ascii_upper(raw[0]), ascii_upper(raw[1])])
    } else {
        None
    }
}

/// Position of the first identifier equal to `code`, at or after `from`.
pub open spec fn first_index_from(codes: Seq<Seq<char>>, code: Seq<char>, from: int) -> Option<
    int,
>
    decreases codes.len() - from,
{
    if from < 0 || from >= codes.len() {
        None
    } else if codes[from] == code {
        Some(from)
    } else {
        first_index_from(codes, code, from + 1)
    }
}

/// A position found from `from` on lies between `from` and the end and
/// holds `code`, and no position before it from `from` on holds `code`.
pub proof fn lemma_first_index_in_range(codes: Seq<Seq<char>>, code: Seq<char>, from: int)
    requires
        0 <= from,
    ensures
        match first_index_from(codes, code, from) {
            Some(i) => from <= i < codes.len() && codes[i] == code && forall|k: int|
                from <= k < i ==> codes[k] != code,
            None => forall|k: int| from <= k < codes.len() ==> codes[k] != code,
        },
    decreases codes.len() - from,
{
    if from < codes.len() && codes[from] != code {
        lemma_first_index_in_range(codes, code, from + 1);
    }
}

/// Position of the first identifier equal to `code`.
pub open spec fn first_index(codes: Seq<Seq<char>>, code: Seq<char>) -> Option<int> {
    first_index_from(codes, code, 0)
}

/// The language that a locale selects among `codes`: the first whose
/// identifier equals the locale's normalized subtag. An absent locale, or
/// one without a subtag, selects none.
pub open spec fn detected_index(raw: Option<Seq<char>>, codes: Seq<Seq<char>>) -> Option<int> {
    match raw {
        None => None,
        Some(r) => match language_subtag(r) {
            None => None,
            Some(tag) => first_index(codes, tag),
        },
    }
}

/// A detected language is a position of `codes`.
pub proof fn lemma_detected_index_in_range(raw: Option<Seq<char>>, codes: Seq<Seq<char>>)
    ensures
        detected_index(raw, codes) matches Some(i) ==> 0 <= i < codes.len(),
{
    if let Some(r) = raw {
        if let Some(tag) = language_subtag(r) {
            lemma_first_index_in_range(codes, tag, 0);
        }
    }
}

/// The text of an optional locale string.
pub open spec fn locale_view(raw: Option<String>) -> Option<Seq<char>> {
    match raw {
        Some(s) => Some(s@),
        None => None,
    }
}

/// Whether `s` is exactly the two characters `c0`, `c1`.
fn is_pair(s: &str, c0: char, c1: char) -> (r: bool)
    ensures
        r == (s@ == seq![c0, c1]),
{
    if s.unicode_len() != 2 {
        return false;
    }
    let r = s.get_char(0) == c0 && s.get_char(1) == c1;
    assert(r ==> s@ =~= seq![c0, c1]);
    r
}

/// Matches an environment locale (such as `"pt-BR"`) against the available
/// language identifiers. Only the first two characters count, compared
/// without regard to ASCII case with the identifiers, which are expected in
/// upper case; region subtags are ignored. The first matching identifier
/// wins. An absent or unmappable locale yields nothing.
pub fn detect(raw_locale: Option<String>, available: &Vec<String>) -> (r: Option<usize>)
    ensures
        match detected_index(locale_view(raw_locale), views_of(available@)) {
            Some(i) => r is Some && r->0 == i,
            None => r is None,
        },
{
    let raw = match raw_locale {
        Some(raw) => raw,
        None => return None,
    };
    let s = raw.as_str();
    if s.unicode_len() < 2 {
        return None;
    }
    let c0 = s.get_char(0).to_ascii_uppercase();
    let c1 = s.get_char(1).to_ascii_uppercase();
    let ghost codes = views_of(available@);
    let ghost tag = seq![c0, c1];
    let ghost expected = first_index(codes, tag);
    assert(language_subtag(raw@) == Some(tag));
    assert(detected_index(locale_view(raw_locale), codes) == expected);
    let mut i: usize = 0;
    while i < available.len()
        invariant
            i <= available@.len(),
            codes == views_of(available@),
            tag == seq![c0, c1],
            expected == detected_index(locale_view(raw_locale), codes),
            expected == first_index_from(codes, tag, i as int),
        decreases available@.len() - i,
    {
        assert(codes[i as int] == available@[i as int]@);
        if is_pair(available[i].as_str(), c0, c1) {
            return Some(i);
        }
        i = i + 1;
    }
    None
}

} // verus!
