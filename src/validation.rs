//! Rules for subscriber names and email addresses.

use crate::domain::{NewSubscriber, SubscriberEmail, SubscriberName, ValidationError};
use crate::subscriptions::FormData;
use unicode_segmentation::UnicodeSegmentation;
use vstd::prelude::*;

verus! {

/// The largest number of grapheme clusters a subscriber name may have.
pub const MAX_NAME_GRAPHEMES: usize = 256;

/// The number of extended grapheme clusters (user-perceived characters) in `s`.
pub uninterp spec fn grapheme_count_of(s: Seq<char>) -> nat;

/// Whether `c` has the Unicode `White_Space` property: U+0009 to U+000D,
/// U+0020, U+0085, U+00A0, U+1680, U+2000 to U+200A, U+2028, U+2029,
/// U+202F, U+205F and U+3000.
pub open spec fn white_space(c: char) -> bool {
    ('\u{9}' <= c && c <= '\u{d}') || c == ' ' || c == '\u{85}' || c == '\u{a0}' || c
        == '\u{1680}' || ('\u{2000}' <= c && c <= '\u{200a}') || c == '\u{2028}' || c
        == '\u{2029}' || c == '\u{202f}' || c == '\u{205f}' || c == '\u{3000}'
}

/// Relies on `UnicodeSegmentation::graphemes(s, true).count()`: the number of
/// extended grapheme clusters of `s`; an empty string has none.
#[verifier::external_body]
fn grapheme_count(s: &str) -> (r: usize)
    ensures
        r as nat == grapheme_count_of(s@),
        s@.len() == 0 ==> r == 0,
{
    s.graphemes(true).count()
}

/// Relies on `char::is_whitespace`: true exactly for the characters with the
/// Unicode `White_Space` property, listed in `white_space`.
#[verifier::external_body]
fn is_white_space(c: char) -> (r: bool)
    ensures
        r == white_space(c),
{
    c.is_whitespace()
}

/// The characters of `s`, in order.
pub fn chars_of(s: &str) -> (r: Vec<char>)
    ensures
        r@ == s@,
{
    let mut r: Vec<char> = Vec::new();
    for c in it: s.chars()
        invariant
            r@ == it.seq().take(it.index() as int),
            it.seq() == s@,
    {
        r.push(c);
    }
    assert(r@ =~= s@);
    r
}

/// The characters a subscriber name may not hold.
pub open spec fn is_forbidden_name_char(c: char) -> bool {
    c == '/' || c == '(' || c == ')' || c == '"' || c == '<' || c == '>' || c == '\\' || c == '{'
        || c == '}'
}

/// `s` is empty or made of white space only.
pub open spec fn is_blank(s: Seq<char>) -> bool {
    forall|i: int| 0 <= i < s.len() ==> white_space(#[trigger] s[i])
}

/// `s` holds a character that names may not hold.
pub open spec fn has_forbidden_char(s: Seq<char>) -> bool {
    exists|i: int| 0 <= i < s.len() && is_forbidden_name_char(#[trigger] s[i])
}

/// The name rules, for a name `s` of `graphemes` grapheme clusters.
pub open spec fn name_rules_hold(s: Seq<char>, graphemes: nat) -> bool {
    &&& !is_blank(s)
    &&& graphemes <= MAX_NAME_GRAPHEMES
    &&& !has_forbidden_char(s)
}

/// `s` is an acceptable subscriber name.
pub open spec fn is_valid_name_spec(s: Seq<char>) -> bool {
    name_rules_hold(s, grapheme_count_of(s))
}

/// Whether `c` is one of the characters that names may not hold.
pub fn forbidden_name_char(c: char) -> (r: bool)
    ensures
        r == is_forbidden_name_char(c),
{
    c == '/' || c == '(' || c == ')' || c == '"' || c == '<' || c == '>' || c == '\\' || c == '{'
        || c == '}'
}

/// Checks the name rules on `s`, given the number of grapheme clusters in it.
pub fn name_rules_hold_for(s: &str, graphemes: usize) -> (r: bool)
    ensures
        r == name_rules_hold(s@, graphemes as nat),
{
    let chars = chars_of(s);
    let mut blank = true;
    let mut forbidden = false;
    let mut i: usize = 0;
    while i < chars.len()
        invariant
            chars@ == s@,
            i <= chars@.len(),
            blank == (forall|j: int| 0 <= j < i ==> white_space(#[trigger] s@[j])),
            forbidden == (exists|j: int| 0 <= j < i && is_forbidden_name_char(#[trigger] s@[j])),
        decreases chars@.len() - i,
    {
        let c = chars[i];
        if !is_white_space(c) {
            blank = false;
        }
        if forbidden_name_char(c) {
            forbidden = true;
        }
        i = i + 1;
    }
    !blank && graphemes <= MAX_NAME_GRAPHEMES && !forbidden
}

/// Whether `s` is an acceptable subscriber name: not blank, at most
/// `MAX_NAME_GRAPHEMES` grapheme clusters long, and free of the characters
/// `/ ( ) " < > \ { }`.
pub fn is_valid_name(s: &str) -> (r: bool)
    ensures
        r == is_valid_name_spec(s@),
{
    let graphemes = grapheme_count(s);
    name_rules_hold_for(s, graphemes)
}

/// A character of the part of an address before the `@`: anything but white
/// space and `@`.
pub open spec fn is_local_char(c: char) -> bool {
    !white_space(c) && c != '@'
}

/// A character of the domain of an address, between the `@` and the last dot:
/// anything but white space.
pub open spec fn is_domain_char(c: char) -> bool {
    !white_space(c)
}

/// A character of the top-level domain, after the last dot.
pub open spec fn is_tld_char(c: char) -> bool {
    ('a' <= c && c <= 'z') || ('A' <= c && c <= 'Z')
}

/// `s` reads `local@domain.tld` with the `@` at `at` and the dot before the
/// top-level domain at `dot`: a non-empty local part of local characters, a
/// non-empty domain of domain characters and a top-level domain of at least
/// two letters.
pub open spec fn email_parts_at(s: Seq<char>, at: int, dot: int) -> bool {
    &&& 0 < at
    &&& at + 1 < dot
    &&& dot + 2 < s.len()
    &&& s[at] == '@'
    &&& s[dot] == '.'
    &&& forall|i: int| 0 <= i < at ==> is_local_char(#[trigger] s[i])
    &&& forall|i: int| at < i < dot ==> is_domain_char(#[trigger] s[i])
    &&& forall|i: int| dot < i < s.len() ==> is_tld_char(#[trigger] s[i])
}

/// `s` is a syntactically valid email address.
pub open spec fn is_valid_email(s: Seq<char>) -> bool {
    exists|at: int, dot: int| email_parts_at(s, at, dot)
}

fn local_char(c: char) -> (r: bool)
    ensures
        r == is_local_char(c),
{
    !is_white_space(c) && c != '@'
}

fn domain_char(c: char) -> (r: bool)
    ensures
        r == is_domain_char(c),
{
    !is_white_space(c)
}

fn tld_char(c: char) -> (r: bool)
    ensures
        r == is_tld_char(c),
{
    ('a' <= c && c <= 'z') || ('A' <= c && c <= 'Z')
}

/// Where an address is valid, its `@` is the first character outside the
/// local part and its top-level dot is the last dot.
proof fn lemma_email_parts_forced(s: Seq<char>, at: int, dot: int)
    requires
        0 <= at <= s.len(),
        forall|i: int| 0 <= i < at ==> is_local_char(#[trigger] s[i]),
        at < s.len() ==> !is_local_char(s[at]),
        0 <= dot < s.len(),
        s[dot] == '.',
        forall|i: int| dot < i < s.len() ==> s[i] != '.',
    ensures
        is_valid_email(s) ==> email_parts_at(s, at, dot),
{
    if is_valid_email(s) {
        let (a, d) = choose|a: int, d: int| email_parts_at(s, a, d);
        assert(!is_local_char(s[a]));
        assert(a == at);
        if d < dot {
            assert(is_tld_char(s[dot]));
        }
        if d > dot {
            assert(s[d] != '.');
        }
        assert(d == dot);
    }
}

/// Whether `email` reads `local@domain.tld`: a non-empty local part without
/// white space or `@`, a non-empty domain without white space, and after the
/// last dot a top-level domain of two ASCII letters or more.
pub fn validate_email(email: &str) -> (r: bool)
    ensures
        r == is_valid_email(email@),
{
    let s = chars_of(email);
    let n = s.len();
    // The `@` can only be the first character outside the local part.
    let mut at: usize = 0;
    while at < n && local_char(s[at])
        invariant
            s@ == email@,
            n == s@.len(),
            at <= n,
            forall|i: int| 0 <= i < at ==> is_local_char(#[trigger] s@[i]),
        decreases n - at,
    {
        at = at + 1;
    }
    // The dot before the top-level domain can only be the last dot.
    let mut dot: usize = n;
    let mut found = false;
    while dot > 0 && !found
        invariant
            s@ == email@,
            n == s@.len(),
            dot <= n,
            found ==> dot < n && s@[dot as int] == '.',
            forall|i: int| dot < i < n ==> s@[i] != '.',
            !found ==> dot == n || s@[dot as int] != '.',
        decreases dot + (if found { 0int } else { 1int }),
    {
        dot = dot - 1;
        if s[dot] == '.' {
            found = true;
        }
    }
    if !found || at == 0 || at >= n || s[at] != '@' || at + 1 >= dot || n - dot <= 2 {
        proof {
            if found {
                lemma_email_parts_forced(email@, at as int, dot as int);
            } else if is_valid_email(email@) {
                let (a, d) = choose|a: int, d: int| email_parts_at(email@, a, d);
                assert(email@[d] == '.');
            }
        }
        return false;
    }
    let mut i: usize = at + 1;
    while i < dot
        invariant
            s@ == email@,
            n == s@.len(),
            at < i <= dot < n,
            0 < at,
            s@[at as int] == '@',
            s@[dot as int] == '.',
            forall|j: int| 0 <= j < at ==> is_local_char(#[trigger] s@[j]),
            forall|j: int| dot < j < n ==> s@[j] != '.',
            forall|j: int| at < j < i ==> is_domain_char(#[trigger] s@[j]),
        decreases dot - i,
    {
        if !domain_char(s[i]) {
            proof {
                lemma_email_parts_forced(email@, at as int, dot as int);
                assert(is_valid_email(email@) ==> is_domain_char(email@[i as int]));
            }
            return false;
        }
        i = i + 1;
    }
    let mut k: usize = dot + 1;
    while k < n
        invariant
            s@ == email@,
            n == s@.len(),
            dot < k <= n,
            at < dot,
            0 < at,
            s@[at as int] == '@',
            s@[dot as int] == '.',
            forall|j: int| 0 <= j < at ==> is_local_char(#[trigger] s@[j]),
            forall|j: int| dot < j < n ==> s@[j] != '.',
            forall|j: int| dot < j < k ==> is_tld_char(#[trigger] s@[j]),
        decreases n - k,
    {
        if !tld_char(s[k]) {
            proof {
                lemma_email_parts_forced(email@, at as int, dot as int);
                assert(is_valid_email(email@) ==> is_tld_char(email@[k as int]));
            }
            return false;
        }
        k = k + 1;
    }
    assert(email_parts_at(email@, at as int, dot as int));
    true
}

/// The first rule that a submitted `name` and `email` break, checked in this
/// order: both empty, name empty, email empty, name invalid, email invalid;
/// `None` when they break none.
pub open spec fn form_check(name: Seq<char>, email: Seq<char>) -> Option<ValidationError> {
    if name.len() == 0 && email.len() == 0 {
        Some(ValidationError::MissingBoth)
    } else if name.len() == 0 {
        Some(ValidationError::MissingName)
    } else if email.len() == 0 {
        Some(ValidationError::MissingEmail)
    } else if !is_valid_name_spec(name) {
        Some(ValidationError::InvalidName)
    } else if !is_valid_email(email) {
        Some(ValidationError::InvalidEmail)
    } else {
        None
    }
}

/// Validates a submitted form into a subscriber, or names the first rule it
/// breaks (see `form_check`). The values are kept unchanged.
pub fn validate_form_data(data: FormData) -> (r: Result<NewSubscriber, ValidationError>)
    ensures
        r is Ok <==> form_check(data.name@, data.email@) is None,
        r matches Ok(s) ==> s.name@ == data.name@ && s.email@ == data.email@,
        r matches Err(e) ==> form_check(data.name@, data.email@) == Some(e),
{
    let name_empty = data.name.as_str().is_empty();
    let email_empty = data.email.as_str().is_empty();
    if name_empty && email_empty {
        return Err(ValidationError::MissingBoth);
    } else if name_empty {
        return Err(ValidationError::MissingName);
    } else if email_empty {
        return Err(ValidationError::MissingEmail);
    }
    let name = match SubscriberName::parse(data.name) {
        Ok(n) => n,
        Err(e) => return Err(e),
    };
    let email = match SubscriberEmail::parse(data.email) {
        Ok(m) => m,
        Err(e) => return Err(e),
    };
    Ok(NewSubscriber { email, name })
}

/// An empty or white-space-only name is never a valid name.
pub proof fn lemma_blank_name_rejected(s: Seq<char>)
    requires
        is_blank(s),
    ensures
        !is_valid_name_spec(s),
{
}

/// A name of more than `MAX_NAME_GRAPHEMES` grapheme clusters is refused;
/// one of exactly that many is accepted when it is not blank and holds no
/// forbidden character.
pub proof fn lemma_name_grapheme_bound(s: Seq<char>)
    ensures
        grapheme_count_of(s) > MAX_NAME_GRAPHEMES ==> !is_valid_name_spec(s),
        grapheme_count_of(s) == MAX_NAME_GRAPHEMES && !is_blank(s) && !has_forbidden_char(s)
            ==> is_valid_name_spec(s),
{
}

/// A name holding any of `/ ( ) " < > \ { }` is never a valid name.
pub proof fn lemma_forbidden_char_rejected(s: Seq<char>)
    requires
        has_forbidden_char(s),
    ensures
        !is_valid_name_spec(s),
{
}

/// Every address `local@domain.tld` is valid when the local part is made of
/// local characters, the domain of domain characters, the top-level domain
/// of letters, the first two are non-empty and the last has two letters or
/// more.
pub proof fn lemma_well_formed_email_accepted(local: Seq<char>, domain: Seq<char>, tld: Seq<char>)
    requires
        local.len() > 0,
        domain.len() > 0,
        tld.len() >= 2,
        forall|i: int| 0 <= i < local.len() ==> is_local_char(#[trigger] local[i]),
        forall|i: int| 0 <= i < domain.len() ==> is_domain_char(#[trigger] domain[i]),
        forall|i: int| 0 <= i < tld.len() ==> is_tld_char(#[trigger] tld[i]),
    ensures
        is_valid_email(local + seq!['@'] + domain + seq!['.'] + tld),
{
    let s = local + seq!['@'] + domain + seq!['.'] + tld;
    let at = local.len() as int;
    let dot = at + 1 + domain.len();
    assert forall|i: int| 0 <= i < at implies is_local_char(#[trigger] s[i]) by {
        assert(s[i] == local[i]);
    }
    assert forall|i: int| at < i < dot implies is_domain_char(#[trigger] s[i]) by {
        assert(s[i] == domain[i - at - 1]);
    }
    assert forall|i: int| dot < i < s.len() implies is_tld_char(#[trigger] s[i]) by {
        assert(s[i] == tld[i - dot - 1]);
    }
    assert(email_parts_at(s, at, dot));
}

} // verus!
