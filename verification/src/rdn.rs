//! The reverse-domain-name identifier: a dot-separated name validated by a
//! multi-rule string grammar check, immutable once constructed.

use vstd::prelude::*;

verus! {

/// The single failure kind raised by identifier validation. Every rule
/// violation collapses to `InvalidName`: the contract deliberately does not
/// report which rule failed.
#[derive(Debug, Copy, Clone, PartialEq, Ord, PartialOrd, Eq, Hash, Structural)]
pub enum ApplicationErrors {
    InvalidName,
}

/// A decimal digit, `0` through `9`.
pub open spec fn is_digit_char(c: char) -> bool {
    '0' as u32 <= c as u32 <= '9' as u32
}

/// A character an identifier may contain: an ASCII letter, a decimal digit,
/// `_`, or the `.` separator itself.
pub open spec fn is_rdn_char(c: char) -> bool {
    ||| 'a' as u32 <= c as u32 <= 'z' as u32
    ||| 'A' as u32 <= c as u32 <= 'Z' as u32
    ||| is_digit_char(c)
    ||| c == '_'
    ||| c == '.'
}

/// Rule 1: the name holds between 1 and 255 characters.
pub open spec fn len_in_range(s: Seq<char>) -> bool {
    1 <= s.len() <= 255
}

/// Rule 2: at least one `.` separator is present.
pub open spec fn has_separator(s: Seq<char>) -> bool {
    exists|i: int| 0 <= i < s.len() && s[i] == '.'
}

/// Rule 3a: splitting on `.` yields no empty segment. A segment is empty
/// exactly when the name starts with a dot, ends with a dot, or holds two
/// dots in a row.
pub open spec fn no_empty_segment(s: Seq<char>) -> bool {
    &&& s.len() > 0 ==> s[0] != '.'
    &&& s.len() > 0 ==> s[s.len() - 1] != '.'
    &&& forall|i: int| 1 <= i < s.len() && s[i - 1] == '.' ==> #[trigger] s[i] != '.'
}

/// Rule 3b: no segment's first character is a decimal digit. A segment starts
/// at position 0 and right after each dot.
pub open spec fn no_digit_led_segment(s: Seq<char>) -> bool {
    &&& s.len() > 0 ==> !is_digit_char(s[0])
    &&& forall|i: int| 1 <= i < s.len() && s[i - 1] == '.' ==> !is_digit_char(#[trigger] s[i])
}

/// Rule 4: every character of the whole name is in the accepted class.
pub open spec fn chars_in_class(s: Seq<char>) -> bool {
    forall|i: int| 0 <= i < s.len() ==> is_rdn_char(#[trigger] s[i])
}

/// A name is a valid reverse-domain name exactly when all five structural
/// rules hold at once.
pub open spec fn valid_rdn(s: Seq<char>) -> bool {
    &&& len_in_range(s)
    &&& has_separator(s)
    &&& no_empty_segment(s)
    &&& no_digit_led_segment(s)
    &&& chars_in_class(s)
}

/// Decides `is_digit_char`.
fn check_digit_char(c: char) -> (r: bool)
    ensures
        r == is_digit_char(c),
{
    let u = c as u32;
    ('0' as u32) <= u && u <= ('9' as u32)
}

/// Decides `is_rdn_char`.
fn check_rdn_char(c: char) -> (r: bool)
    ensures
        r == is_rdn_char(c),
{
    let u = c as u32;
    (('a' as u32) <= u && u <= ('z' as u32)) || (('A' as u32) <= u && u <= ('Z' as u32)) || ((
    '0' as u32) <= u && u <= ('9' as u32)) || c == '_' || c == '.'
}

/// A validated, dot-separated identifier naming an application. The name is
/// stored exactly as it was supplied — no normalization, no trimming — and is
/// immutable after construction. Its view is the sequence of its characters.
///
/// The `Default` value holds an empty name, which is *not* a valid identifier:
/// it exists only as a placeholder for construction paths that fill the name
/// in later, and never passes validation.
#[derive(Debug, Clone)]
pub struct ApplicationRDN {
    name: String,
}

impl View for ApplicationRDN {
    type V = Seq<char>;

    closed spec fn view(&self) -> Seq<char> {
        self.name@
    }
}

impl ApplicationRDN {
    /// Validates `name` against the five structural rules. On success the
    /// returned identifier holds exactly the input string; on any rule
    /// violation the result is `InvalidName`, with no further detail.
    pub fn new(name: String) -> (r: Result<ApplicationRDN, ApplicationErrors>)
        ensures
            r is Ok <==> valid_rdn(name@),
            r matches Ok(rdn) ==> rdn@ == name@,
            r matches Err(e) ==> e == ApplicationErrors::InvalidName,
    {
        let len = name.as_str().unicode_len();
        if len == 0 || len > 255 {
            return Err(ApplicationErrors::InvalidName);
        }
        let mut has_dot = false;
        // Position 0 opens a segment, exactly as the position after a dot does.
        let mut seg_start = true;
        let mut i: usize = 0;
        while i < len
            invariant
                len == name@.len(),
                1 <= len <= 255,
                0 <= i <= len,
                forall|j: int| 0 <= j < i ==> is_rdn_char(#[trigger] name@[j]),
                has_dot <==> exists|j: int| 0 <= j < i && name@[j] == '.',
                seg_start <==> (i == 0 || name@[i as int - 1] == '.'),
                i > 0 ==> name@[0] != '.',
                forall|j: int| 1 <= j < i && name@[j - 1] == '.' ==> #[trigger] name@[j] != '.',
                i > 0 ==> !is_digit_char(name@[0]),
                forall|j: int| 1 <= j < i && name@[j - 1] == '.' ==> !is_digit_char(
                    #[trigger] name@[j],
                ),
            decreases len - i,
        {
            let c = name.as_str().get_char(i);
            if !check_rdn_char(c) {
                return Err(ApplicationErrors::InvalidName);
            }
            if c == '.' {
                if seg_start {
                    // An empty segment: either a leading dot or a dot right
                    // after another dot.
                    return Err(ApplicationErrors::InvalidName);
                }
                has_dot = true;
                seg_start = true;
            } else {
                if seg_start && check_digit_char(c) {
                    return Err(ApplicationErrors::InvalidName);
                }
                seg_start = false;
            }
            i += 1;
        }
        if seg_start {
            // The final segment is empty: the name ends with a dot.
            return Err(ApplicationErrors::InvalidName);
        }
        if !has_dot {
            return Err(ApplicationErrors::InvalidName);
        }
        Ok(ApplicationRDN { name })
    }

    /// The underlying name, by reference and read-only: exactly the string
    /// that was accepted at construction.
    pub fn name(&self) -> (r: &str)
        ensures
            r@ == self@,
    {
        self.name.as_str()
    }
}

impl Default for ApplicationRDN {
    /// The placeholder identifier: an empty name. It does not satisfy
    /// `valid_rdn` and must not be treated as a usable identity.
    fn default() -> (r: Self)
        ensures
            r@ == Seq::<char>::empty(),
            !valid_rdn(r@),
    {
        ApplicationRDN { name: String::new() }
    }
}

/// Validation is deterministic and idempotent: the name exposed by an
/// accepted identifier equals the accepted input and still satisfies the
/// validity predicate, so validating it again succeeds and yields identical
/// content.
pub proof fn lemma_revalidation_succeeds(s: Seq<char>, rdn: ApplicationRDN)
    requires
        valid_rdn(s),
        rdn@ == s,
    ensures
        valid_rdn(rdn@),
        rdn@ == s,
{
}

/// A name of length 0 or of more than 255 characters is never valid, so
/// construction from it fails.
pub proof fn lemma_rejects_out_of_range_length(s: Seq<char>)
    requires
        s.len() == 0 || s.len() > 255,
    ensures
        !valid_rdn(s),
{
}

/// A name without a single `.` separator is never valid, so construction from
/// it fails.
pub proof fn lemma_rejects_missing_separator(s: Seq<char>)
    requires
        forall|i: int| 0 <= i < s.len() ==> #[trigger] s[i] != '.',
    ensures
        !valid_rdn(s),
{
}

/// A name that splits into an empty segment — it is empty, starts with a dot,
/// ends with a dot, or holds two dots in a row — is never valid, so
/// construction from it fails.
pub proof fn lemma_rejects_empty_segment(s: Seq<char>)
    requires
        s.len() == 0 || s[0] == '.' || s[s.len() - 1] == '.' || exists|i: int|
            1 <= i < s.len() && s[i - 1] == '.' && #[trigger] s[i] == '.',
    ensures
        !valid_rdn(s),
{
}

/// A name where any segment's first character is a decimal digit — at the
/// start of the name or right after a dot — is never valid, so construction
/// from it fails.
pub proof fn lemma_rejects_digit_led_segment(s: Seq<char>)
    requires
        s.len() > 0,
        is_digit_char(s[0]) || exists|i: int|
            1 <= i < s.len() && s[i - 1] == '.' && is_digit_char(#[trigger] s[i]),
    ensures
        !valid_rdn(s),
{
}

/// A name holding any character outside ASCII letters, decimal digits, `_`
/// and `.` is never valid, so construction from it fails.
pub proof fn lemma_rejects_foreign_character(s: Seq<char>)
    requires
        exists|i: int| 0 <= i < s.len() && !is_rdn_char(#[trigger] s[i]),
    ensures
        !valid_rdn(s),
{
}

} // verus!
