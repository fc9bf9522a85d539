//! Username text rules: trimming, blankness, character validity, length,
//! and case-insensitive comparison through Unicode case folding.

use vstd::prelude::*;
use vstd::string::StringSliceAdditionalSpecFns;

verus! {

/// Maximum username length, counted in Unicode codepoints.
pub const MAX_USERNAME_LEN: usize = 32;

/// Whether a non-ASCII codepoint has the Unicode `White_Space` property.
pub uninterp spec fn unicode_whitespace_ext(c: char) -> bool;

/// Whether a non-ASCII codepoint is alphanumeric in the Unicode sense.
pub uninterp spec fn unicode_alphanumeric_ext(c: char) -> bool;

/// Whether a codepoint has the Unicode `White_Space` property; among ASCII
/// those are space, tab, line feed, vertical tab, form feed and carriage
/// return.
pub open spec fn whitespace_char(c: char) -> bool {
    if c <= '\u{7f}' {
        c == ' ' || c == '\t' || c == '\n' || c == '\r' || c == '\u{b}' || c == '\u{c}'
    } else {
        unicode_whitespace_ext(c)
    }
}

/// Whether a codepoint is alphanumeric in the Unicode sense; among ASCII
/// those are the letters and the decimal digits.
pub open spec fn alphanumeric_char(c: char) -> bool {
    if c <= '\u{7f}' {
        ('a' <= c && c <= 'z') || ('A' <= c && c <= 'Z') || ('0' <= c && c <= '9')
    } else {
        unicode_alphanumeric_ext(c)
    }
}

/// Relies on `char::is_whitespace`: true exactly on codepoints with the
/// Unicode `White_Space` property.
pub assume_specification[ char::is_whitespace ](c: char) -> (r: bool)
    ensures
        r == whitespace_char(c),
        c > '\u{7f}' ==> r == unicode_whitespace_ext(c),
;

/// Relies on `char::is_alphanumeric`: true exactly on codepoints whose
/// Unicode general category is a letter or a number.
pub assume_specification[ char::is_alphanumeric ](c: char) -> (r: bool)
    ensures
        r == alphanumeric_char(c),
        c > '\u{7f}' ==> r == unicode_alphanumeric_ext(c),
;

/// Index of the first occurrence of `c` in `s`, if any.
pub open spec fn find_char_spec(s: Seq<char>, c: char) -> Option<int>
    decreases s.len(),
{
    if s.len() == 0 {
        None
    } else if s[0] == c {
        Some(0int)
    } else {
        match find_char_spec(s.drop_first(), c) {
            Some(i) => Some(i + 1),
            None => None,
        }
    }
}

/// `find_char_spec` names the first position holding `c`, and nothing earlier does.
pub proof fn lemma_find_char(s: Seq<char>, c: char)
    ensures
        match find_char_spec(s, c) {
            Some(i) => 0 <= i < s.len() && s[i] == c && (forall|k: int| 0 <= k < i ==> s[k] != c),
            None => forall|k: int| 0 <= k < s.len() ==> s[k] != c,
        },
    decreases s.len(),
{
    if s.len() > 0 && s[0] != c {
        lemma_find_char(s.drop_first(), c);
        match find_char_spec(s.drop_first(), c) {
            Some(i) => {
                assert(s[i + 1] == s.drop_first()[i]);
                assert forall|k: int| 0 <= k < i + 1 implies s[k] != c by {
                    if k > 0 {
                        assert(s[k] == s.drop_first()[k - 1]);
                    }
                }
            },
            None => {
                assert forall|k: int| 0 <= k < s.len() implies s[k] != c by {
                    if k > 0 {
                        assert(s[k] == s.drop_first()[k - 1]);
                    }
                }
            },
        }
    }
}

/// No index other than the one `find_char_spec` names satisfies its description.
pub proof fn lemma_find_char_unique(s: Seq<char>, c: char, i: int)
    requires
        0 <= i < s.len(),
        s[i] == c,
        forall|k: int| 0 <= k < i ==> s[k] != c,
    ensures
        find_char_spec(s, c) == Some(i),
    decreases s.len(),
{
    if i > 0 {
        lemma_find_char_unique(s.drop_first(), c, i - 1);
    }
}

/// First occurrence of a character, by codepoint index.
pub fn find_char(s: &str, c: char) -> (r: Option<usize>)
    ensures
        match r {
            Some(i) => Some(i as int) == find_char_spec(s@, c),
            None => find_char_spec(s@, c) is None,
        },
{
    let n = s.unicode_len();
    let mut i: usize = 0;
    while i < n
        invariant
            0 <= i <= n,
            n == s@.len(),
            forall|k: int| 0 <= k < i ==> s@[k] != c,
        decreases n - i,
    {
        if s.get_char(i) == c {
            proof {
                lemma_find_char_unique(s@, c, i as int);
            }
            return Some(i);
        }
        i += 1;
    }
    proof {
        lemma_find_char(s@, c);
    }
    None
}

/// Number of leading `White_Space` codepoints.
pub open spec fn ws_prefix_len(s: Seq<char>) -> int
    decreases s.len(),
{
    if s.len() == 0 {
        0
    } else if whitespace_char(s[0]) {
        1 + ws_prefix_len(s.drop_first())
    } else {
        0
    }
}

/// Index just after the last codepoint that is not `White_Space` (0 if none).
pub open spec fn ws_suffix_start(s: Seq<char>) -> int
    decreases s.len(),
{
    if s.len() == 0 {
        0
    } else if whitespace_char(s[s.len() - 1]) {
        ws_suffix_start(s.drop_last())
    } else {
        s.len() as int
    }
}

/// The string with leading and trailing `White_Space` removed.
pub open spec fn trim_spec(s: Seq<char>) -> Seq<char> {
    if ws_prefix_len(s) <= ws_suffix_start(s) {
        s.subrange(ws_prefix_len(s), ws_suffix_start(s))
    } else {
        Seq::empty()
    }
}

pub proof fn lemma_ws_prefix(s: Seq<char>)
    ensures
        0 <= ws_prefix_len(s) <= s.len(),
        forall|k: int| 0 <= k < ws_prefix_len(s) ==> whitespace_char(s[k]),
        ws_prefix_len(s) < s.len() ==> !whitespace_char(s[ws_prefix_len(s)]),
    decreases s.len(),
{
    if s.len() > 0 && whitespace_char(s[0]) {
        lemma_ws_prefix(s.drop_first());
        assert forall|k: int| 0 <= k < ws_prefix_len(s) implies whitespace_char(s[k]) by {
            if k > 0 {
                assert(s[k] == s.drop_first()[k - 1]);
            }
        }
        if ws_prefix_len(s) < s.len() {
            assert(s[ws_prefix_len(s)] == s.drop_first()[ws_prefix_len(s) - 1]);
        }
    }
}

pub proof fn lemma_ws_prefix_unique(s: Seq<char>, i: int)
    requires
        0 <= i <= s.len(),
        forall|k: int| 0 <= k < i ==> whitespace_char(s[k]),
        i < s.len() ==> !whitespace_char(s[i]),
    ensures
        i == ws_prefix_len(s),
    decreases s.len(),
{
    if i > 0 {
        lemma_ws_prefix_unique(s.drop_first(), i - 1);
    }
}

pub proof fn lemma_ws_suffix(s: Seq<char>)
    ensures
        0 <= ws_suffix_start(s) <= s.len(),
        forall|k: int| ws_suffix_start(s) <= k < s.len() ==> whitespace_char(s[k]),
        ws_suffix_start(s) > 0 ==> !whitespace_char(s[ws_suffix_start(s) - 1]),
    decreases s.len(),
{
    if s.len() > 0 && whitespace_char(s[s.len() - 1]) {
        lemma_ws_suffix(s.drop_last());
        assert forall|k: int| ws_suffix_start(s) <= k < s.len() implies whitespace_char(s[k]) by {
            if k < s.len() - 1 {
                assert(s[k] == s.drop_last()[k]);
            }
        }
    }
}

pub proof fn lemma_ws_suffix_unique(s: Seq<char>, j: int)
    requires
        0 <= j <= s.len(),
        forall|k: int| j <= k < s.len() ==> whitespace_char(s[k]),
        j > 0 ==> !whitespace_char(s[j - 1]),
    ensures
        j == ws_suffix_start(s),
    decreases s.len(),
{
    if j < s.len() {
        lemma_ws_suffix_unique(s.drop_last(), j);
    }
}

/// Leading and trailing `White_Space` removed, by codepoint scanning.
pub fn trim_str<'a>(s: &'a str) -> (r: &'a str)
    ensures
        r@ == trim_spec(s@),
{
    let n = s.unicode_len();
    let mut i: usize = 0;
    while i < n && s.get_char(i).is_whitespace()
        invariant
            0 <= i <= n,
            n == s@.len(),
            forall|k: int| 0 <= k < i ==> whitespace_char(s@[k]),
        decreases n - i,
    {
        i += 1;
    }
    if i == n {
        proof {
            lemma_ws_prefix_unique(s@, n as int);
            lemma_ws_suffix_unique(s@, 0);
        }
        let r = s.substring_char(n, n);
        proof {
            assert(r@ =~= trim_spec(s@));
        }
        return r;
    }
    proof {
        lemma_ws_prefix_unique(s@, i as int);
    }
    let mut j: usize = n;
    while j > i && s.get_char(j - 1).is_whitespace()
        invariant
            i < j <= n || j == i,
            i < n,
            n == s@.len(),
            !whitespace_char(s@[i as int]),
            forall|k: int| j <= k < n ==> whitespace_char(s@[k]),
        decreases j,
    {
        j -= 1;
    }
    proof {
        lemma_ws_suffix_unique(s@, j as int);
    }
    s.substring_char(i, j)
}

/// Whether the string is empty or all `White_Space`.
pub fn is_blank(s: &str) -> (r: bool)
    ensures
        r == (trim_spec(s@).len() == 0),
{
    trim_str(s).is_empty()
}

/// Codepoint-by-codepoint string equality.
pub fn str_eq(a: &str, b: &str) -> (r: bool)
    ensures
        r == (a@ == b@),
{
    let n = a.unicode_len();
    if b.unicode_len() != n {
        return false;
    }
    let mut i: usize = 0;
    while i < n
        invariant
            0 <= i <= n,
            n == a@.len(),
            n == b@.len(),
            forall|k: int| 0 <= k < i ==> a@[k] == b@[k],
        decreases n - i,
    {
        if a.get_char(i) != b.get_char(i) {
            return false;
        }
        i += 1;
    }
    proof {
        assert(a@ =~= b@);
    }
    true
}

/// Whether a string has more codepoints than a username may hold.
pub fn is_too_long(s: &str) -> (r: bool)
    ensures
        r == (s@.len() > MAX_USERNAME_LEN),
{
    s.unicode_len() > MAX_USERNAME_LEN
}

/// A codepoint a username may contain: alphanumeric or underscore.
pub open spec fn valid_username_char(c: char) -> bool {
    alphanumeric_char(c) || c == '_'
}

/// Every codepoint of `s` is one a username may contain.
pub open spec fn valid_username_chars(s: Seq<char>) -> bool {
    forall|i: int| 0 <= i < s.len() ==> valid_username_char(s[i])
}

pub fn is_valid_username_char(c: char) -> (r: bool)
    ensures
        r == valid_username_char(c),
{
    c.is_alphanumeric() || c == '_'
}

/// An ASCII byte a username may contain: a letter, a digit, or underscore.
pub open spec fn ascii_username_byte(b: u8) -> bool {
    (97 <= b && b <= 122) || (65 <= b && b <= 90) || (48 <= b && b <= 57) || b == 95
}

/// The byte set the ASCII fast path scans against.
fn ascii_username_set() -> (v: Vec<u8>)
    ensures
        forall|b: u8| #[trigger] v@.contains(b) <==> ascii_username_byte(b),
{
    let mut v: Vec<u8> = Vec::new();
    let mut b: u8 = 0;
    while b < 128
        invariant
            b <= 128,
            forall|k: int| 0 <= k < v@.len() ==> ascii_username_byte(#[trigger] v@[k]),
            forall|x: u8| x < b && ascii_username_byte(x) ==> #[trigger] v@.contains(x),
        decreases 128 - b,
    {
        if (97 <= b && b <= 122) || (65 <= b && b <= 90) || (48 <= b && b <= 57) || b == 95 {
            let ghost oldv: Seq<u8> = v@;
            v.push(b);
            assert forall|x: u8| x < b + 1 && ascii_username_byte(x) implies #[trigger] v@.contains(
                x,
            ) by {
                if x == b {
                    assert(v@[v@.len() - 1] == b);
                } else {
                    assert(oldv.contains(x));
                    let i = choose|i: int| 0 <= i < oldv.len() && oldv[i] == x;
                    assert(v@[i] == x);
                }
            }
        }
        b += 1;
    }
    proof {
        assert forall|x: u8| #[trigger] v@.contains(x) implies ascii_username_byte(x) by {
            let i = choose|i: int| 0 <= i < v@.len() && v@[i] == x;
            assert(ascii_username_byte(v@[i]));
        }
    }
    v
}

/// Relies on `stringzilla::sz::find_byte_not_from`: the index of the first
/// byte of `h` outside the byte set `set`, or `None` when every byte of `h`
/// is in the set.
#[verifier::external_body]
fn sz_find_byte_not_from(h: &[u8], set: &[u8]) -> (r: Option<usize>)
    ensures
        match r {
            Some(i) => i < h@.len() && !set@.contains(h@[i as int]) && (forall|j: int|
                0 <= j < i ==> set@.contains(#[trigger] h@[j])),
            None => forall|j: int| 0 <= j < h@.len() ==> set@.contains(#[trigger] h@[j]),
        },
{
    stringzilla::sz::find_byte_not_from(h, set)
}

/// Byte-set scan over the raw UTF-8: accepts exactly the strings whose every
/// byte is an ASCII letter, digit or underscore.
pub fn is_ascii_valid_fast(s: &str) -> (r: bool)
    ensures
        r == forall|j: int|
            0 <= j < s.spec_bytes().len() ==> ascii_username_byte(#[trigger] s.spec_bytes()[j]),
{
    let set = ascii_username_set();
    sz_find_byte_not_from(s.as_bytes(), set.as_slice()).is_none()
}

/// Non-empty and made only of codepoints a username may contain; pure ASCII
/// strings take the byte-set fast path, which agrees with the general path.
pub fn is_valid_username_str(s: &str) -> (r: bool)
    ensures
        r == (s@.len() > 0 && valid_username_chars(s@)),
{
    if s.is_empty() {
        return false;
    }
    if s.is_ascii() {
        let r = is_ascii_valid_fast(s);
        proof {
            vstd::utf8::is_ascii_chars_encode_utf8(s@);
            assert(s.spec_bytes().len() == s@.len());
            if r {
                assert forall|i: int| 0 <= i < s@.len() implies valid_username_char(
                    #[trigger] s@[i],
                ) by {
                    assert(ascii_username_byte(s.spec_bytes()[i]));
                    assert(s.spec_bytes()[i] == s@[i] as u8);
                    assert('\0' <= s@[i] <= '\u{7f}');
                }
            } else {
                let j = choose|j: int|
                    0 <= j < s.spec_bytes().len() && !ascii_username_byte(
                        #[trigger] s.spec_bytes()[j],
                    );
                assert(s.spec_bytes()[j] == s@[j] as u8);
                assert('\0' <= s@[j] <= '\u{7f}');
                assert(!valid_username_char(s@[j]));
            }
        }
        return r;
    }
    let n = s.unicode_len();
    let mut i: usize = 0;
    while i < n
        invariant
            0 <= i <= n,
            n == s@.len(),
            forall|k: int| 0 <= k < i ==> valid_username_char(#[trigger] s@[k]),
        decreases n - i,
    {
        if !is_valid_username_char(s.get_char(i)) {
            return false;
        }
        i += 1;
    }
    true
}

/// The outcome of checking a candidate username.
#[derive(Debug, Clone, Copy, PartialEq, Eq, Structural)]
pub enum ValidationResult {
    Valid,
    Empty,
    TooLong,
    InvalidChars,
}

/// What validation says of `s`: trim it, then reject empty, over-long, and
/// badly charactered candidates, in that order.
pub open spec fn validate_spec(s: Seq<char>) -> ValidationResult {
    let t = trim_spec(s);
    if t.len() == 0 {
        ValidationResult::Empty
    } else if t.len() > MAX_USERNAME_LEN {
        ValidationResult::TooLong
    } else if !valid_username_chars(t) {
        ValidationResult::InvalidChars
    } else {
        ValidationResult::Valid
    }
}

pub fn validate_username(s: &str) -> (r: ValidationResult)
    ensures
        r == validate_spec(s@),
{
    let trimmed = trim_str(s);
    if trimmed.is_empty() {
        return ValidationResult::Empty;
    }
    if is_too_long(trimmed) {
        return ValidationResult::TooLong;
    }
    if !is_valid_username_str(trimmed) {
        return ValidationResult::InvalidChars;
    }
    ValidationResult::Valid
}

/// The trimmed candidate itself when validation accepts it, else what
/// validation said.
pub fn validated_username<'a>(s: &'a str) -> (r: Result<&'a str, ValidationResult>)
    ensures
        match r {
            Ok(t) => validate_spec(s@) == ValidationResult::Valid && t@ == trim_spec(s@),
            Err(e) => e == validate_spec(s@) && e != ValidationResult::Valid,
        },
{
    let trimmed = trim_str(s);
    proof {
        lemma_trim_idempotent(s@);
    }
    match validate_username(trimmed) {
        ValidationResult::Valid => Ok(trimmed),
        err => Err(err),
    }
}

/// Trimming leaves no `White_Space` at either end.
pub proof fn lemma_trim_ends(s: Seq<char>)
    ensures
        trim_spec(s).len() > 0 ==> !whitespace_char(trim_spec(s)[0]),
        trim_spec(s).len() > 0 ==> !whitespace_char(trim_spec(s)[trim_spec(s).len() - 1]),
{
    lemma_ws_prefix(s);
    lemma_ws_suffix(s);
}

/// A string clean at both ends is its own trim.
pub proof fn lemma_trim_of_clean(s: Seq<char>)
    requires
        s.len() > 0,
        !whitespace_char(s[0]),
        !whitespace_char(s[s.len() - 1]),
    ensures
        trim_spec(s) == s,
{
    lemma_ws_prefix_unique(s, 0);
    lemma_ws_suffix_unique(s, s.len() as int);
    assert(trim_spec(s) =~= s);
}

/// Trimming twice is trimming once.
pub proof fn lemma_trim_idempotent(s: Seq<char>)
    ensures
        trim_spec(trim_spec(s)) == trim_spec(s),
{
    let t = trim_spec(s);
    if t.len() == 0 {
        assert(trim_spec(t) =~= t);
    } else {
        lemma_trim_ends(s);
        lemma_trim_of_clean(t);
    }
}

/// What the Unicode case fold of a string's codepoints produces, when the
/// folded bytes come back as well-formed UTF-8.
pub uninterp spec fn fold_try(s: Seq<char>) -> Option<Seq<char>>;

/// What `str::to_lowercase` produces for a string's codepoints.
pub uninterp spec fn lower_of(s: Seq<char>) -> Seq<char>;

/// Relies on `stringzilla::sz::utf8_uncased_fold`: writes the Unicode case
/// fold of `s` (a function of the codepoints alone) into a buffer sized for
/// the crate's documented worst-case expansion of three output bytes per
/// input byte.
#[verifier::external_body]
pub fn case_fold(s: &str) -> (r: Option<String>)
    ensures
        (match r {
            Some(f) => Some(f@),
            None => None,
        }) == fold_try(s@),
{
    if s.is_empty() {
        return Some(String::new());
    }
    let mut buffer = vec![0u8; s.len().checked_mul(3)?];
    let len = stringzilla::sz::utf8_uncased_fold(s, &mut buffer[..]);
    String::from_utf8(buffer.get(..len)?.to_vec()).ok()
}

/// Relies on `str::to_lowercase`: the result depends on the codepoints alone.
#[verifier::external_body]
fn lowercase_std(s: &str) -> (r: String)
    ensures
        r@ == lower_of(s@),
{
    s.to_lowercase()
}

/// The normalized form of a username: its case fold, or the plain lowercase
/// mapping when the fold cannot be decoded.
pub open spec fn norm_spec(s: Seq<char>) -> Seq<char> {
    match fold_try(s) {
        Some(f) => f,
        None => lower_of(s),
    }
}

/// Case fold with the lowercase fallback.
pub fn to_lowercase(s: &str) -> (r: String)
    ensures
        r@ == norm_spec(s@),
{
    match case_fold(s) {
        Some(f) => f,
        None => lowercase_std(s),
    }
}

/// Whether two usernames collide: both case folds exist and are byte-equal.
pub fn usernames_equal_ignore_case(a: &str, b: &str) -> (r: bool)
    ensures
        r == (fold_try(a@) is Some && fold_try(b@) is Some && fold_try(a@) == fold_try(b@)),
{
    match (case_fold(a), case_fold(b)) {
        (Some(folded_a), Some(folded_b)) => folded_a == folded_b,
        _ => false,
    }
}

} // verus!
