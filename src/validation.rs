use vstd::prelude::*;
use vstd::string::StringExecFns;
use vstd::string::StrSliceExecFns;

use crate::error::{AppError, Field};

verus! {

/// Registration input as it comes off the wire.
#[derive(Clone, Debug)]
pub struct NewUser {
    pub username: String,
    pub email: String,
    pub password: String,
}

/// The password strength rule; a deployment picks its own values.
#[derive(Clone, Copy, Debug, PartialEq, Eq, Structural)]
pub struct PasswordPolicy {
    pub min_len: usize,
    pub max_len: usize,
    pub require_letter: bool,
    pub require_digit: bool,
}

pub open spec fn is_ascii_letter(c: char) -> bool {
    ('a' <= c && c <= 'z') || ('A' <= c && c <= 'Z')
}

pub open spec fn is_ascii_digit(c: char) -> bool {
    '0' <= c && c <= '9'
}

/// A character of the class `[a-zA-Z0-9_-]`.
pub open spec fn is_username_char(c: char) -> bool {
    is_ascii_letter(c) || is_ascii_digit(c) || c == '_' || c == '-'
}

/// The username pattern `^[a-zA-Z0-9_-]{4,16}$`.
pub open spec fn username_ok(s: Seq<char>) -> bool {
    4 <= s.len() <= 16 && forall|i: int| 0 <= i < s.len() ==> #[trigger] is_username_char(s[i])
}

pub open spec fn has_letter(s: Seq<char>) -> bool {
    exists|i: int| 0 <= i < s.len() && #[trigger] is_ascii_letter(s[i])
}

pub open spec fn has_digit(s: Seq<char>) -> bool {
    exists|i: int| 0 <= i < s.len() && #[trigger] is_ascii_digit(s[i])
}

impl PasswordPolicy {
    /// At least eight characters, at most 128, with a letter and a digit.
    pub fn standard() -> (r: PasswordPolicy)
        ensures
            r == (PasswordPolicy { min_len: 8, max_len: 128, require_letter: true, require_digit: true }),
    {
        PasswordPolicy { min_len: 8, max_len: 128, require_letter: true, require_digit: true }
    }

    pub open spec fn accepts(self, s: Seq<char>) -> bool {
        &&& self.min_len <= s.len() <= self.max_len
        &&& self.require_letter ==> has_letter(s)
        &&& self.require_digit ==> has_digit(s)
    }

    /// Whether `password` meets this policy.
    pub fn check(&self, password: &str) -> (r: bool)
        ensures
            r == self.accepts(password@),
    {
        let n = password.unicode_len();
        if n < self.min_len || n > self.max_len {
            return false;
        }
        let mut letter = false;
        let mut digit = false;
        let mut i: usize = 0;
        while i < n
            invariant
                n == password@.len(),
                i <= n,
                letter == exists|j: int| 0 <= j < i && #[trigger] is_ascii_letter(password@[j]),
                digit == exists|j: int| 0 <= j < i && #[trigger] is_ascii_digit(password@[j]),
            decreases n - i,
        {
            let c = password.get_char(i);
            assert(is_ascii_letter(password@[i as int]) == (('a' <= c && c <= 'z') || ('A' <= c
                && c <= 'Z')));
            assert(is_ascii_digit(password@[i as int]) == ('0' <= c && c <= '9'));
            if ('a' <= c && c <= 'z') || ('A' <= c && c <= 'Z') {
                letter = true;
            }
            if '0' <= c && c <= '9' {
                digit = true;
            }
            i = i + 1;
        }
        (!self.require_letter || letter) && (!self.require_digit || digit)
    }
}

/// Whether `username` matches `^[a-zA-Z0-9_-]{4,16}$`.
pub fn username_is_valid(username: &str) -> (r: bool)
    ensures
        r == username_ok(username@),
{
    let n = username.unicode_len();
    if n < 4 || n > 16 {
        return false;
    }
    let mut i: usize = 0;
    while i < n
        invariant
            n == username@.len(),
            i <= n,
            forall|j: int| 0 <= j < i ==> #[trigger] is_username_char(username@[j]),
        decreases n - i,
    {
        let c = username.get_char(i);
        let ok = ('a' <= c && c <= 'z') || ('A' <= c && c <= 'Z') || ('0' <= c && c <= '9')
            || c == '_' || c == '-';
        if !ok {
            assert(!is_username_char(username@[i as int]));
            return false;
        }
        i = i + 1;
    }
    true
}

/// What validator's e-mail check (the HTML5 address syntax) says of a string.
pub uninterp spec fn email_syntax_ok(s: Seq<char>) -> bool;

/// Relies on validator's `ValidateEmail::validate_email` for `&str`: the
/// HTML5 address syntax check, which refuses any string without an '@'.
#[verifier::external_body]
fn email_syntax_check(email: &str) -> (r: bool)
    ensures
        r == email_syntax_ok(email@),
        !email@.contains('@') ==> !r,
{
    validator::ValidateEmail::validate_email(&email)
}

/// Whether `email` is a syntactically valid address.
pub fn email_is_valid(email: &str) -> (r: bool)
    ensures
        r == email_syntax_ok(email@),
        !email@.contains('@') ==> !r,
{
    email_syntax_check(email)
}

/// The first field, in the order username, email, password, that breaks its
/// rule.
pub open spec fn first_invalid(policy: PasswordPolicy, input: NewUser) -> Option<Field> {
    if !username_ok(input.username@) {
        Some(Field::Username)
    } else if !email_syntax_ok(input.email@) {
        Some(Field::Email)
    } else if !policy.accepts(input.password@) {
        Some(Field::Password)
    } else {
        None
    }
}

/// Checks every rule on the raw input, and names the first offending field.
/// Touches no collaborator.
pub fn validate(policy: &PasswordPolicy, input: &NewUser) -> (r: Result<(), AppError>)
    ensures
        r is Ok <==> first_invalid(*policy, *input) is None,
        r is Err ==> (match r->Err_0 {
            AppError::ValidationFailed { field, .. } => first_invalid(*policy, *input) == Some(field),
            _ => false,
        }),
        username_ok(input.username@) && !input.email@.contains('@') ==> r matches Err(
            AppError::ValidationFailed { field: Field::Email, .. },
        ),
{
    if !username_is_valid(input.username.as_str()) {
        return Err(AppError::ValidationFailed {
            field: Field::Username,
            reason: String::from_str("must be 4 to 16 ASCII letters, digits, '_' or '-'"),
        });
    }
    if !email_is_valid(input.email.as_str()) {
        return Err(AppError::ValidationFailed {
            field: Field::Email,
            reason: String::from_str("must be a valid e-mail address"),
        });
    }
    if !policy.check(input.password.as_str()) {
        return Err(AppError::ValidationFailed {
            field: Field::Password,
            reason: String::from_str("does not meet the password policy"),
        });
    }
    Ok(())
}

/// The code point of `c` after ASCII case folding.
pub open spec fn folded_code(c: char) -> int {
    if 'A' <= c && c <= 'Z' {
        c as int + 32
    } else {
        c as int
    }
}

/// `r` is `s` with every ASCII upper-case letter replaced by its lower-case
/// form.
pub open spec fn is_ascii_folding(s: Seq<char>, r: Seq<char>) -> bool {
    r.len() == s.len() && forall|i: int| 0 <= i < s.len() ==> #[trigger] r[i] as int == folded_code(s[i])
}

/// `a` and `b` are equal up to ASCII case.
pub open spec fn same_ignoring_ascii_case(a: Seq<char>, b: Seq<char>) -> bool {
    a.len() == b.len() && forall|i: int| 0 <= i < a.len() ==> #[trigger] folded_code(a[i]) == folded_code(b[i])
}

/// Relies on `str::to_ascii_lowercase`: 'A'..='Z' become 'a'..='z', every
/// other character is kept.
#[verifier::external_body]
fn ascii_lowercase(s: &str) -> (r: String)
    ensures
        is_ascii_folding(s@, r@),
{
    s.to_ascii_lowercase()
}

impl NewUser {
    /// The same input with username and email folded to lower case; the
    /// password is kept as given.
    pub fn normalize(&self) -> (r: NewUser)
        ensures
            is_ascii_folding(self.username@, r.username@),
            is_ascii_folding(self.email@, r.email@),
            r.password == self.password,
    {
        NewUser {
            username: ascii_lowercase(self.username.as_str()),
            email: ascii_lowercase(self.email.as_str()),
            password: self.password.clone(),
        }
    }
}

/// A username shorter than four or longer than sixteen characters is the
/// first offending field, whatever the rest of the input holds.
pub proof fn lemma_username_length_rejected(policy: PasswordPolicy, input: NewUser)
    requires
        input.username@.len() < 4 || input.username@.len() > 16,
    ensures
        first_invalid(policy, input) == Some(Field::Username),
{
}

/// Two foldings of inputs that agree up to ASCII case are the same string.
pub proof fn lemma_folding_unique(a: Seq<char>, b: Seq<char>, ra: Seq<char>, rb: Seq<char>)
    requires
        same_ignoring_ascii_case(a, b),
        is_ascii_folding(a, ra),
        is_ascii_folding(b, rb),
    ensures
        ra == rb,
{
    assert forall|i: int| 0 <= i < ra.len() implies ra[i] == rb[i] by {
        assert(ra[i] as int == folded_code(a[i]));
        assert(rb[i] as int == folded_code(b[i]));
    }
    assert(ra =~= rb);
}

/// Folding is idempotent: a folded string folds to itself.
pub proof fn lemma_folding_idempotent(s: Seq<char>, r: Seq<char>, rr: Seq<char>)
    requires
        is_ascii_folding(s, r),
        is_ascii_folding(r, rr),
    ensures
        rr == r,
{
    assert forall|i: int| 0 <= i < r.len() implies rr[i] == r[i] by {
        assert(r[i] as int == folded_code(s[i]));
        assert(rr[i] as int == folded_code(r[i]));
    }
    assert(rr =~= r);
}

} // verus!
