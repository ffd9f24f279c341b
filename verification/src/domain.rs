//! Domain validators and the validated subscriber model.
//!
//! Raw strings are turned into `SubscriberName` / `SubscriberEmail` values
//! by validating parse functions; once such a value exists, every consumer
//! may assume well-formedness without re-checking.

use unicode_segmentation::UnicodeSegmentation;
use vstd::prelude::*;
use vstd::string::*;

verus! {

/// Characters that may never appear in a subscriber name.
pub open spec fn forbidden_char(c: char) -> bool {
    ||| c == '/'
    ||| c == '('
    ||| c == ')'
    ||| c == '"'
    ||| c == '<'
    ||| c == '>'
    ||| c == '\\'
    ||| c == '{'
    ||| c == '}'
}

fn exec_forbidden_char(c: char) -> (r: bool)
    ensures
        r == forbidden_char(c),
{
    c == '/' || c == '(' || c == ')' || c == '"' || c == '<' || c == '>' || c == '\\'
        || c == '{' || c == '}'
}

/// Whether `char::is_whitespace` holds of `c` (the Unicode `White_Space`
/// property, which no short formula states).
pub uninterp spec fn whitespace_char(c: char) -> bool;

/// Relies on char::is_whitespace: true exactly on characters with the
/// Unicode `White_Space` property, a function of the character alone.
pub assume_specification[ char::is_whitespace ](c: char) -> (r: bool)
    ensures
        r == whitespace_char(c),
;

/// The number of extended grapheme clusters of `s` (user-perceived
/// characters, which no short formula states).
pub uninterp spec fn grapheme_count(s: Seq<char>) -> nat;

/// Relies on unicode_segmentation::UnicodeSegmentation::graphemes with
/// `is_extended` set: it yields the extended grapheme clusters of the
/// string, a function of the string alone.
#[verifier::external_body]
fn exec_grapheme_count(s: &str) -> (r: usize)
    ensures
        r as nat == grapheme_count(s@),
{
    s.graphemes(true).count()
}

/// A string is blank when every character is whitespace; trimming such a
/// string (the empty string included) leaves nothing.
pub open spec fn blank(s: Seq<char>) -> bool {
    forall|i: int| 0 <= i < s.len() ==> whitespace_char(#[trigger] s[i])
}

/// The validity rule for subscriber names: not blank, at most 256
/// grapheme clusters, and free of the forbidden characters.
pub open spec fn name_valid(s: Seq<char>) -> bool {
    &&& !blank(s)
    &&& grapheme_count(s) <= 256
    &&& forall|i: int| 0 <= i < s.len() ==> !forbidden_char(#[trigger] s[i])
}

fn exec_blank(s: &str) -> (r: bool)
    ensures
        r == blank(s@),
{
    let len = s.unicode_len();
    for i in 0..len
        invariant
            len == s@.len(),
            forall|j: int| 0 <= j < i ==> whitespace_char(#[trigger] s@[j]),
    {
        if !s.get_char(i).is_whitespace() {
            return false;
        }
    }
    true
}

fn exec_contains_forbidden(s: &str) -> (r: bool)
    ensures
        r == exists|i: int| 0 <= i < s@.len() && forbidden_char(#[trigger] s@[i]),
{
    let len = s.unicode_len();
    for i in 0..len
        invariant
            len == s@.len(),
            forall|j: int| 0 <= j < i ==> !forbidden_char(#[trigger] s@[j]),
    {
        if exec_forbidden_char(s.get_char(i)) {
            return true;
        }
    }
    false
}

/// Whether `s` is acceptable as a subscriber name.
pub fn is_valid_name(s: &str) -> (r: bool)
    ensures
        r == name_valid(s@),
{
    let is_empty_or_whitespace = exec_blank(s);
    let is_too_long = exec_grapheme_count(s) > 256;
    let contains_forbidden_characters = exec_contains_forbidden(s);
    !(is_empty_or_whitespace || is_too_long || contains_forbidden_characters)
}

/// An ASCII letter or digit.
pub open spec fn alnum_char(c: char) -> bool {
    ||| ('A' <= c && c <= 'Z')
    ||| ('a' <= c && c <= 'z')
    ||| ('0' <= c && c <= '9')
}

fn exec_alnum_char(c: char) -> (r: bool)
    ensures
        r == alnum_char(c),
{
    ('A' <= c && c <= 'Z') || ('a' <= c && c <= 'z') || ('0' <= c && c <= '9')
}

/// A character admitted in the local part of an address (the atom
/// characters of the usual local-part@domain grammar).
pub open spec fn local_char(c: char) -> bool {
    ||| alnum_char(c)
    ||| c == '.' || c == '!' || c == '#' || c == '$' || c == '%' || c == '&' || c == '\''
    ||| c == '*' || c == '+' || c == '-' || c == '/' || c == '=' || c == '?' || c == '^'
    ||| c == '_' || c == '`' || c == '{' || c == '|' || c == '}' || c == '~'
}

fn exec_local_char(c: char) -> (r: bool)
    ensures
        r == local_char(c),
{
    exec_alnum_char(c) || c == '.' || c == '!' || c == '#' || c == '$' || c == '%'
        || c == '&' || c == '\'' || c == '*' || c == '+' || c == '-' || c == '/' || c == '='
        || c == '?' || c == '^' || c == '_' || c == '`' || c == '{' || c == '|' || c == '}'
        || c == '~'
}

/// A character admitted in the domain of an address.
pub open spec fn domain_char(c: char) -> bool {
    alnum_char(c) || c == '-' || c == '.'
}

fn exec_domain_char(c: char) -> (r: bool)
    ensures
        r == domain_char(c),
{
    exec_alnum_char(c) || c == '-' || c == '.'
}

/// The local part of an address: non-empty, atom characters only.
pub open spec fn local_part_valid(s: Seq<char>) -> bool {
    &&& s.len() > 0
    &&& forall|i: int| 0 <= i < s.len() ==> local_char(#[trigger] s[i])
}

/// The domain of an address: non-empty labels of letters, digits and
/// hyphens, separated by single dots.
pub open spec fn domain_part_valid(s: Seq<char>) -> bool {
    &&& s.len() > 0
    &&& forall|i: int| 0 <= i < s.len() ==> domain_char(#[trigger] s[i])
    &&& s[0] != '.'
    &&& s[s.len() - 1] != '.'
    &&& forall|i: int| 0 <= i < s.len() - 1 ==> !(#[trigger] s[i] == '.' && s[i + 1] == '.')
}

/// The validity rule for subscriber email addresses: a valid local part,
/// a single `@`, and a valid domain.
pub open spec fn email_valid(s: Seq<char>) -> bool {
    exists|i: int|
        {
            &&& 0 <= i < s.len()
            &&& #[trigger] s[i] == '@'
            &&& forall|j: int| 0 <= j < i ==> #[trigger] s[j] != '@'
            &&& local_part_valid(s.subrange(0, i))
            &&& domain_part_valid(s.subrange(i + 1, s.len() as int))
        }
}

/// The index of the first `@` of `s`, if any.
fn find_at(s: &str) -> (r: Option<usize>)
    ensures
        r matches Some(i) ==> 0 <= i < s@.len() && s@[i as int] == '@' && forall|j: int|
            0 <= j < i ==> #[trigger] s@[j] != '@',
        r is None ==> forall|j: int| 0 <= j < s@.len() ==> #[trigger] s@[j] != '@',
{
    let len = s.unicode_len();
    for i in 0..len
        invariant
            len == s@.len(),
            forall|j: int| 0 <= j < i ==> #[trigger] s@[j] != '@',
    {
        if s.get_char(i) == '@' {
            return Some(i);
        }
    }
    None
}

fn check_local_part(s: &str, end: usize) -> (r: bool)
    requires
        end <= s@.len(),
    ensures
        r == local_part_valid(s@.subrange(0, end as int)),
{
    let ghost sub = s@.subrange(0, end as int);
    if end == 0 {
        return false;
    }
    for i in 0..end
        invariant
            end <= s@.len(),
            sub == s@.subrange(0, end as int),
            forall|j: int| 0 <= j < i ==> local_char(#[trigger] s@[j]),
    {
        if !exec_local_char(s.get_char(i)) {
            proof {
                assert(sub[i as int] == s@[i as int]);
            }
            return false;
        }
    }
    proof {
        assert forall|j: int| 0 <= j < sub.len() implies local_char(#[trigger] sub[j]) by {
            assert(sub[j] == s@[j]);
        }
    }
    true
}

fn check_domain_part(s: &str, at: usize) -> (r: bool)
    requires
        at < s@.len(),
    ensures
        r == domain_part_valid(s@.subrange(at + 1, s@.len() as int)),
{
    let ghost sub = s@.subrange(at + 1, s@.len() as int);
    let len = s.unicode_len();
    let from = at + 1;
    proof {
        assert(sub == s@.subrange(from as int, s@.len() as int));
    }
    if from == len {
        return false;
    }
    if s.get_char(from) == '.' {
        proof {
            assert(sub[0] == s@[from as int]);
        }
        return false;
    }
    if s.get_char(len - 1) == '.' {
        proof {
            assert(sub[sub.len() - 1] == s@[s@.len() - 1]);
        }
        return false;
    }
    for i in from..len
        invariant
            from == at + 1,
            from < len,
            len == s@.len(),
            sub == s@.subrange(from as int, s@.len() as int),
            forall|j: int| from <= j < i ==> domain_char(#[trigger] s@[j]),
            forall|j: int|
                from <= j < i && j + 1 < len ==> !(#[trigger] s@[j] == '.' && s@[j + 1] == '.'),
    {
        if !exec_domain_char(s.get_char(i)) {
            proof {
                assert(sub[i - from] == s@[i as int]);
                assert(!domain_part_valid(sub));
            }
            return false;
        }
        if i + 1 < len && s.get_char(i) == '.' && s.get_char(i + 1) == '.' {
            proof {
                assert(sub[i - from] == s@[i as int]);
                assert(sub[i - from + 1] == s@[i + 1]);
                assert(!domain_part_valid(sub));
            }
            return false;
        }
    }
    proof {
        assert(sub[0] == s@[from as int]);
        assert(sub[sub.len() - 1] == s@[s@.len() - 1]);
        assert forall|j: int| 0 <= j < sub.len() implies domain_char(#[trigger] sub[j]) by {
            assert(sub[j] == s@[j + from]);
        }
        assert forall|j: int| 0 <= j < sub.len() - 1 implies !(#[trigger] sub[j] == '.'
            && sub[j + 1] == '.') by {
            assert(sub[j] == s@[j + from]);
            assert(sub[j + 1] == s@[j + from + 1]);
        }
    }
    true
}

/// Whether `s` is acceptable as a subscriber email address.
pub fn is_valid_email(s: &str) -> (r: bool)
    ensures
        r == email_valid(s@),
{
    match find_at(s) {
        None => {
            proof {
                assert(!email_valid(s@));
            }
            false
        },
        Some(at) => {
            let local_ok = check_local_part(s, at);
            let domain_ok = check_domain_part(s, at);
            proof {
                if local_ok && domain_ok {
                    assert(email_valid(s@));
                } else {
                    assert forall|i: int|
                        !{
                            &&& 0 <= i < s@.len()
                            &&& #[trigger] s@[i] == '@'
                            &&& forall|j: int| 0 <= j < i ==> #[trigger] s@[j] != '@'
                            &&& local_part_valid(s@.subrange(0, i))
                            &&& domain_part_valid(s@.subrange(i + 1, s@.len() as int))
                        } by {
                        if 0 <= i < s@.len() && s@[i] == '@' && (forall|j: int|
                            0 <= j < i ==> #[trigger] s@[j] != '@') {
                            assert(i == at);
                        }
                    }
                }
            }
            local_ok && domain_ok
        },
    }
}

/// Why a raw string was rejected by the validators.  Field-level detail is
/// deliberately not surfaced past the boundary, but the variant records
/// which validator refused.
#[derive(Clone, Copy, Debug, PartialEq, Eq, Structural)]
pub enum ValidationError {
    InvalidName,
    InvalidEmail,
}

/// A subscriber name that satisfied `name_valid` when constructed; there
/// is no other way to obtain one.
#[derive(Debug)]
pub struct SubscriberName {
    inner: String,
}

impl View for SubscriberName {
    type V = Seq<char>;

    closed spec fn view(&self) -> Seq<char> {
        self.inner@
    }
}

impl SubscriberName {
    #[verifier::type_invariant]
    spec fn type_inv(self) -> bool {
        name_valid(self.inner@)
    }

    /// The wrapped string, which is always a valid name.
    pub fn as_str(&self) -> (r: &str)
        ensures
            r@ == self@,
            name_valid(self@),
    {
        proof {
            use_type_invariant(self);
        }
        self.inner.as_str()
    }
}

/// A subscriber email address that satisfied `email_valid` when
/// constructed; there is no other way to obtain one.
#[derive(Debug)]
pub struct SubscriberEmail {
    inner: String,
}

impl View for SubscriberEmail {
    type V = Seq<char>;

    closed spec fn view(&self) -> Seq<char> {
        self.inner@
    }
}

impl SubscriberEmail {
    #[verifier::type_invariant]
    spec fn type_inv(self) -> bool {
        email_valid(self.inner@)
    }

    /// The wrapped string, which is always a valid address.
    pub fn as_str(&self) -> (r: &str)
        ensures
            r@ == self@,
            email_valid(self@),
    {
        proof {
            use_type_invariant(self);
        }
        self.inner.as_str()
    }
}

/// Parses a raw string into a validated subscriber name; succeeds exactly
/// on strings that satisfy `name_valid`, and keeps the string unchanged.
pub fn parse_name(raw: String) -> (r: Result<SubscriberName, ValidationError>)
    ensures
        r is Ok <==> name_valid(raw@),
        r matches Ok(n) ==> n@ == raw@,
        r matches Err(e) ==> e == ValidationError::InvalidName,
{
    if is_valid_name(raw.as_str()) {
        Ok(SubscriberName { inner: raw })
    } else {
        Err(ValidationError::InvalidName)
    }
}

/// Parses a raw string into a validated subscriber email address;
/// succeeds exactly on strings that satisfy `email_valid`, and keeps the
/// string unchanged.
pub fn parse_email(raw: String) -> (r: Result<SubscriberEmail, ValidationError>)
    ensures
        r is Ok <==> email_valid(raw@),
        r matches Ok(e) ==> e@ == raw@,
        r matches Err(e) ==> e == ValidationError::InvalidEmail,
{
    if is_valid_email(raw.as_str()) {
        Ok(SubscriberEmail { inner: raw })
    } else {
        Err(ValidationError::InvalidEmail)
    }
}

/// A new subscriber: one validated name and one validated email address.
/// Both parts carry their validity with them, so the aggregate exists
/// only in well-formed states.
#[derive(Debug)]
pub struct NewSubscriber {
    pub email: SubscriberEmail,
    pub name: SubscriberName,
}

/// A string that is empty, or whitespace-only after trimming, is never a
/// valid subscriber name.
pub proof fn lemma_blank_name_invalid(s: Seq<char>)
    requires
        blank(s),
    ensures
        !name_valid(s),
{
}

/// A string of more than 256 grapheme clusters is never a valid
/// subscriber name.
pub proof fn lemma_overlong_name_invalid(s: Seq<char>)
    requires
        grapheme_count(s) > 256,
    ensures
        !name_valid(s),
{
}

/// The length limit is a boundary: a string of exactly 256 grapheme
/// clusters that breaks neither of the other two rules is a valid name.
pub proof fn lemma_name_valid_at_bound(s: Seq<char>)
    requires
        !blank(s),
        grapheme_count(s) == 256,
        forall|i: int| 0 <= i < s.len() ==> !forbidden_char(#[trigger] s[i]),
    ensures
        name_valid(s),
{
}

/// A string holding a forbidden character, at any position, is never a
/// valid subscriber name.
pub proof fn lemma_forbidden_char_name_invalid(s: Seq<char>, i: int)
    requires
        0 <= i < s.len(),
        forbidden_char(s[i]),
    ensures
        !name_valid(s),
{
}

/// A string without an `@`-delimited local-part/domain structure — the
/// empty string among them — is never a valid subscriber email address.
pub proof fn lemma_no_at_email_invalid(s: Seq<char>)
    requires
        forall|i: int| 0 <= i < s.len() ==> #[trigger] s[i] != '@',
    ensures
        !email_valid(s),
{
}

} // verus!
