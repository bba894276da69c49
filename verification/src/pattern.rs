//! The text formats this library validates, written out as predicates on
//! character sequences, with verified scanners for each: the username and
//! domain formats of an email address, the `local@domain` split of a full
//! address, and the `$<algorithm>$<cost>$<rest>` shape of hash text.

use vstd::prelude::*;
use vstd::string::StrSliceExecFns;

verus! {

// --- character classes ---

/// Letters, in either case.
pub open spec fn letter_char(c: char) -> bool {
    (97 <= c as u32 && c as u32 <= 122) || (65 <= c as u32 && c as u32 <= 90)
}

/// Decimal digits.
pub open spec fn digit_char(c: char) -> bool {
    48 <= c as u32 && c as u32 <= 57
}

/// Characters allowed in the username (local) part of an address:
/// letters, digits, and `_ . + -`.
pub open spec fn username_char(c: char) -> bool {
    letter_char(c) || digit_char(c) || c == '_' || c == '.' || c == '+' || c == '-'
}

/// Characters allowed in a domain before its first dot: letters, digits, `-`.
pub open spec fn domain_head_char(c: char) -> bool {
    letter_char(c) || digit_char(c) || c == '-'
}

/// Characters allowed in a domain after its first dot: the head characters
/// and the dot itself.
pub open spec fn domain_tail_char(c: char) -> bool {
    domain_head_char(c) || c == '.'
}

/// Characters allowed in the algorithm and cost fields of hash text:
/// lower-case letters and digits.
pub open spec fn hash_field_char(c: char) -> bool {
    (97 <= c as u32 && c as u32 <= 122) || digit_char(c)
}

fn is_letter_char(c: char) -> (b: bool)
    ensures
        b == letter_char(c),
{
    let u = c as u32;
    (97 <= u && u <= 122) || (65 <= u && u <= 90)
}

fn is_digit_char(c: char) -> (b: bool)
    ensures
        b == digit_char(c),
{
    let u = c as u32;
    48 <= u && u <= 57
}

fn is_username_char(c: char) -> (b: bool)
    ensures
        b == username_char(c),
{
    is_letter_char(c) || is_digit_char(c) || c == '_' || c == '.' || c == '+' || c == '-'
}

fn is_domain_head_char(c: char) -> (b: bool)
    ensures
        b == domain_head_char(c),
{
    is_letter_char(c) || is_digit_char(c) || c == '-'
}

fn is_domain_tail_char(c: char) -> (b: bool)
    ensures
        b == domain_tail_char(c),
{
    is_domain_head_char(c) || c == '.'
}

fn is_hash_field_char(c: char) -> (b: bool)
    ensures
        b == hash_field_char(c),
{
    let u = c as u32;
    (97 <= u && u <= 122) || is_digit_char(c)
}

// --- scanners ---

/// The position of the first occurrence of `target` at or after `from`.
fn find_from(s: &str, from: usize, target: char) -> (r: Option<usize>)
    requires
        from <= s@.len(),
    ensures
        r matches Some(i) ==> from <= i < s@.len() && s@[i as int] == target && (forall|j: int|
            from <= j < i ==> s@[j] != target),
        r is None ==> forall|j: int| from <= j < s@.len() ==> s@[j] != target,
{
    let n = s.unicode_len();
    let mut i = from;
    while i < n
        invariant
            from <= i <= n,
            n == s@.len(),
            forall|j: int| from <= j < i ==> s@[j] != target,
        decreases n - i,
    {
        if s.get_char(i) == target {
            return Some(i);
        }
        i = i + 1;
    }
    None
}

/// Whether every character in `[from, to)` may appear in a username.
fn all_username_chars(s: &str, from: usize, to: usize) -> (b: bool)
    requires
        from <= to <= s@.len(),
    ensures
        b == forall|j: int| from <= j < to ==> username_char(#[trigger] s@[j]),
{
    let mut i = from;
    while i < to
        invariant
            from <= i <= to <= s@.len(),
            forall|j: int| from <= j < i ==> username_char(#[trigger] s@[j]),
        decreases to - i,
    {
        if !is_username_char(s.get_char(i)) {
            return false;
        }
        i = i + 1;
    }
    true
}

/// Whether every character in `[from, to)` may appear before a domain's
/// first dot.
fn all_domain_head_chars(s: &str, from: usize, to: usize) -> (b: bool)
    requires
        from <= to <= s@.len(),
    ensures
        b == forall|j: int| from <= j < to ==> domain_head_char(#[trigger] s@[j]),
{
    let mut i = from;
    while i < to
        invariant
            from <= i <= to <= s@.len(),
            forall|j: int| from <= j < i ==> domain_head_char(#[trigger] s@[j]),
        decreases to - i,
    {
        if !is_domain_head_char(s.get_char(i)) {
            return false;
        }
        i = i + 1;
    }
    true
}

/// Whether every character in `[from, to)` may appear after a domain's
/// first dot.
fn all_domain_tail_chars(s: &str, from: usize, to: usize) -> (b: bool)
    requires
        from <= to <= s@.len(),
    ensures
        b == forall|j: int| from <= j < to ==> domain_tail_char(#[trigger] s@[j]),
{
    let mut i = from;
    while i < to
        invariant
            from <= i <= to <= s@.len(),
            forall|j: int| from <= j < i ==> domain_tail_char(#[trigger] s@[j]),
        decreases to - i,
    {
        if !is_domain_tail_char(s.get_char(i)) {
            return false;
        }
        i = i + 1;
    }
    true
}

/// Whether every character in `[from, to)` may appear in a hash-text field.
fn all_hash_field_chars(s: &str, from: usize, to: usize) -> (b: bool)
    requires
        from <= to <= s@.len(),
    ensures
        b == forall|j: int| from <= j < to ==> hash_field_char(#[trigger] s@[j]),
{
    let mut i = from;
    while i < to
        invariant
            from <= i <= to <= s@.len(),
            forall|j: int| from <= j < i ==> hash_field_char(#[trigger] s@[j]),
        decreases to - i,
    {
        if !is_hash_field_char(s.get_char(i)) {
            return false;
        }
        i = i + 1;
    }
    true
}

// --- the username format ---

/// A valid username: non-empty, every character in the username class.
pub open spec fn valid_username(s: Seq<char>) -> bool {
    s.len() >= 1 && forall|j: int| 0 <= j < s.len() ==> username_char(#[trigger] s[j])
}

/// Whether `s` is a valid username.
pub fn check_username_text(s: &str) -> (b: bool)
    ensures
        b == valid_username(s@),
{
    let n = s.unicode_len();
    if n == 0 {
        return false;
    }
    all_username_chars(s, 0, n)
}

// --- the domain format ---

/// The domain splits at `i` as `head "." tail`: a dot at `i`, at least one
/// head character before it, at least one tail character after it.
pub open spec fn domain_split_at(s: Seq<char>, i: int) -> bool {
    &&& 1 <= i && i + 2 <= s.len()
    &&& s[i] == '.'
    &&& forall|j: int| 0 <= j < i ==> domain_head_char(#[trigger] s[j])
    &&& forall|j: int| i < j < s.len() ==> domain_tail_char(#[trigger] s[j])
}

/// A valid domain: at least one dot-separated label before further labels.
pub open spec fn valid_domain(s: Seq<char>) -> bool {
    exists|i: int| domain_split_at(s, i)
}

/// Only the first dot of a domain can witness its split: everything before
/// the split's dot is a head character, and a dot is no head character.
proof fn lemma_domain_split_is_first_dot(s: Seq<char>, i: int, dot: int)
    requires
        domain_split_at(s, i),
        0 <= dot < s.len(),
        s[dot] == '.',
        forall|j: int| 0 <= j < dot ==> s[j] != '.',
    ensures
        i == dot,
{
    if i < dot {
        assert(s[i] != '.');
    }
    if i > dot {
        assert(domain_head_char(s[dot]));
    }
}

/// Whether `s` is a valid domain.
pub fn check_domain_text(s: &str) -> (b: bool)
    ensures
        b == valid_domain(s@),
{
    let n = s.unicode_len();
    match find_from(s, 0, '.') {
        None => {
            proof {
                assert forall|i: int| !domain_split_at(s@, i) by {
                    if 1 <= i && i + 2 <= s@.len() {
                        assert(s@[i] != '.');
                    }
                }
            }
            false
        },
        Some(dot) => {
            if dot == 0 || n - dot < 2 {
                proof {
                    assert forall|i: int| !domain_split_at(s@, i) by {
                        if domain_split_at(s@, i) {
                            lemma_domain_split_is_first_dot(s@, i, dot as int);
                        }
                    }
                }
                return false;
            }
            if !all_domain_head_chars(s, 0, dot) {
                proof {
                    assert forall|i: int| !domain_split_at(s@, i) by {
                        if domain_split_at(s@, i) {
                            lemma_domain_split_is_first_dot(s@, i, dot as int);
                        }
                    }
                }
                return false;
            }
            if !all_domain_tail_chars(s, dot + 1, n) {
                proof {
                    assert forall|i: int| !domain_split_at(s@, i) by {
                        if domain_split_at(s@, i) {
                            lemma_domain_split_is_first_dot(s@, i, dot as int);
                        }
                    }
                }
                return false;
            }
            proof {
                assert(domain_split_at(s@, dot as int));
            }
            true
        },
    }
}

// --- the full address format ---

/// The full text splits as `local "@" domain`, with a valid username on the
/// left of the separator and a valid domain on its right.
pub open spec fn email_split(s: Seq<char>, local: Seq<char>, domain: Seq<char>) -> bool {
    &&& s == local + seq!['@'] + domain
    &&& valid_username(local)
    &&& valid_domain(domain)
}

/// A valid full address: some split of it is an email split.
pub open spec fn valid_email(s: Seq<char>) -> bool {
    exists|local: Seq<char>, domain: Seq<char>| email_split(s, local, domain)
}

/// An email split always stands at the first `@` of the text: the username
/// class does not contain `@`, so the local part cannot hide one.
proof fn lemma_email_split_at_first_at(s: Seq<char>, local: Seq<char>, domain: Seq<char>, at: int)
    requires
        email_split(s, local, domain),
        0 <= at < s.len(),
        s[at] == '@',
        forall|j: int| 0 <= j < at ==> s[j] != '@',
    ensures
        local =~= s.subrange(0, at),
        domain =~= s.subrange(at + 1, s.len() as int),
{
    let ll = local.len() as int;
    assert(s[ll] == '@');
    if ll < at {
        assert(s[ll] != '@');
    }
    if ll > at {
        assert(s[at] == local[at]);
        assert(username_char(local[at]));
    }
}

/// Law: a valid username, the separator, and a valid domain concatenate to a
/// text whose one and only email split is that very pair — so parsing the
/// rendered form of an address recovers exactly its parts.
pub proof fn lemma_email_split_unique(local: Seq<char>, domain: Seq<char>)
    requires
        valid_username(local),
        valid_domain(domain),
    ensures
        email_split(local + seq!['@'] + domain, local, domain),
        forall|l: Seq<char>, d: Seq<char>|
            email_split(local + seq!['@'] + domain, l, d) ==> l == local && d == domain,
{
    let s = local + seq!['@'] + domain;
    assert forall|l: Seq<char>, d: Seq<char>| email_split(s, l, d) implies l == local && d
        == domain by {
        let at = local.len() as int;
        assert(s[at] == '@');
        assert forall|j: int| 0 <= j < at implies s[j] != '@' by {
            assert(s[j] == local[j]);
            assert(username_char(local[j]));
        }
        lemma_email_split_at_first_at(s, l, d, at);
        assert(local =~= s.subrange(0, at));
        assert(domain =~= s.subrange(at + 1, s.len() as int));
    }
}

/// Splits the text at its first `@` and validates both parts. A valid text
/// splits nowhere else, since neither part's class contains `@`.
pub fn split_email_text(s: &str) -> (r: Option<(String, String)>)
    ensures
        r matches Some(parts) ==> email_split(s@, parts.0@, parts.1@),
        r is None ==> !valid_email(s@),
{
    let n = s.unicode_len();
    match find_from(s, 0, '@') {
        None => {
            proof {
                assert forall|l: Seq<char>, d: Seq<char>| !email_split(s@, l, d) by {
                    if email_split(s@, l, d) {
                        assert(s@[l.len() as int] == '@');
                    }
                }
            }
            None
        },
        Some(at) => {
            let local = s.substring_char(0, at);
            let domain_part = s.substring_char(at + 1, n);
            let local_ok = check_username_text(local);
            let domain_ok = check_domain_text(domain_part);
            if local_ok && domain_ok {
                proof {
                    assert(s@ =~= local@ + seq!['@'] + domain_part@);
                }
                Some((local.to_owned(), domain_part.to_owned()))
            } else {
                proof {
                    assert forall|l: Seq<char>, d: Seq<char>| !email_split(s@, l, d) by {
                        if email_split(s@, l, d) {
                            lemma_email_split_at_first_at(s@, l, d, at as int);
                            assert(l =~= local@);
                            assert(d =~= domain_part@);
                        }
                    }
                }
                None
            }
        },
    }
}

/// Whether `s` is a valid full address.
pub fn check_email_text(s: &str) -> (b: bool)
    ensures
        b == valid_email(s@),
{
    match split_email_text(s) {
        Some(_) => true,
        None => false,
    }
}

// --- the hash-text format ---

/// Hash-text marks: dollars at position 0, `i`, and `j`, with a non-empty
/// run of hash-field characters between each of the first two pairs; any
/// text at all may follow the third dollar.
pub open spec fn hash_marks_at(s: Seq<char>, i: int, j: int) -> bool {
    &&& 2 <= i && i + 2 <= j && j < s.len()
    &&& s[0] == '$' && s[i] == '$' && s[j] == '$'
    &&& forall|k: int| 0 < k < i ==> hash_field_char(#[trigger] s[k])
    &&& forall|k: int| i < k < j ==> hash_field_char(#[trigger] s[k])
}

/// The shape of encrypted hash text: `$<algorithm>$<cost>$<rest>`, with the
/// algorithm and cost fields non-empty runs of lower-case letters and digits.
pub open spec fn is_hash_text(s: Seq<char>) -> bool {
    exists|i: int, j: int| hash_marks_at(s, i, j)
}

/// The marks of hash text are forced: `$` is no field character, so `i` must
/// be the first dollar after the start and `j` the first after `i`.
proof fn lemma_hash_marks_forced(s: Seq<char>, i: int, j: int, di: int, dj: int)
    requires
        hash_marks_at(s, i, j),
        1 <= di < s.len(),
        s[di] == '$',
        forall|k: int| 1 <= k < di ==> s[k] != '$',
        di < dj < s.len(),
        s[dj] == '$',
        forall|k: int| di < k < dj ==> s[k] != '$',
    ensures
        i == di,
        j == dj,
{
    if i < di {
        assert(s[i] != '$');
    }
    if i > di {
        assert(hash_field_char(s[di]));
    }
    if j < dj {
        assert(s[j] != '$');
    }
    if j > dj {
        assert(hash_field_char(s[dj]));
    }
}

/// Whether `s` has the hash-text shape.
pub fn check_hash_text(s: &str) -> (b: bool)
    ensures
        b == is_hash_text(s@),
{
    let n = s.unicode_len();
    if n == 0 {
        proof {
            assert forall|i: int, j: int| !hash_marks_at(s@, i, j) by {}
        }
        return false;
    }
    if s.get_char(0) != '$' {
        proof {
            assert forall|i: int, j: int| !hash_marks_at(s@, i, j) by {}
        }
        return false;
    }
    let first = match find_from(s, 1, '$') {
        None => {
            proof {
                assert forall|i: int, j: int| !hash_marks_at(s@, i, j) by {
                    if hash_marks_at(s@, i, j) {
                        assert(s@[i] != '$');
                    }
                }
            }
            return false;
        },
        Some(i) => i,
    };
    if first + 1 >= n {
        proof {
            assert forall|i: int, j: int| !hash_marks_at(s@, i, j) by {
                if hash_marks_at(s@, i, j) {
                    if i < first {
                        assert(s@[i] != '$');
                    }
                    if i > first {
                        assert(hash_field_char(s@[first as int]));
                    }
                    assert(i == first);
                }
            }
        }
        return false;
    }
    let second = match find_from(s, first + 1, '$') {
        None => {
            proof {
                assert forall|i: int, j: int| !hash_marks_at(s@, i, j) by {
                    if hash_marks_at(s@, i, j) {
                        if i < first {
                            assert(s@[i] != '$');
                        }
                        if i > first {
                            assert(hash_field_char(s@[first as int]));
                        }
                        assert(i == first);
                        assert(s@[j] != '$');
                    }
                }
            }
            return false;
        },
        Some(j) => j,
    };
    if first < 2 || second < first + 2 {
        proof {
            assert forall|i: int, j: int| !hash_marks_at(s@, i, j) by {
                if hash_marks_at(s@, i, j) {
                    lemma_hash_marks_forced(s@, i, j, first as int, second as int);
                }
            }
        }
        return false;
    }
    let algo_ok = all_hash_field_chars(s, 1, first);
    let cost_ok = all_hash_field_chars(s, first + 1, second);
    if algo_ok && cost_ok {
        proof {
            assert(hash_marks_at(s@, first as int, second as int));
        }
        true
    } else {
        proof {
            assert forall|i: int, j: int| !hash_marks_at(s@, i, j) by {
                if hash_marks_at(s@, i, j) {
                    lemma_hash_marks_forced(s@, i, j, first as int, second as int);
                }
            }
        }
        false
    }
}

} // verus!
