//! SQL identifier safety: an allow-by-exclusion validator and double-quote
//! wrapping. Every identifier that reaches generated SQL text passes through
//! these functions. The validator is a denylist, not a full SQL parser; a
//! strict allow-list (alphanumerics and underscore) would be safer still.
use vstd::prelude::*;
use vstd::string::StrSliceExecFns;
use vstd::string::StringExecFns;
use crate::strutil::escape_by_doubling;
use crate::strutil::escape_doubling;
use crate::strutil::push_char;

verus! {

/// A character the validator refuses outright.
pub open spec fn is_forbidden_char(c: char) -> bool {
    c == ';' || c == '\'' || c == '"' || c == '\\' || c == '\u{0}' || c == '\n' || c == '\r'
}

/// ASCII-case-insensitive character match against an upper-case pattern
/// character.
pub open spec fn ascii_eq_ci(c: char, k: char) -> bool {
    c == k || ('A' <= k && k <= 'Z' && c as u32 == k as u32 + 32)
}

/// Character-wise ASCII-case-insensitive equality against an upper-case
/// pattern.
pub open spec fn seq_eq_ci(s: Seq<char>, kw: Seq<char>) -> bool {
    s.len() == kw.len() && (forall|t: int|
        0 <= t < kw.len() ==> ascii_eq_ci(s[t], #[trigger] kw[t]))
}

/// Compares a string against an upper-case ASCII pattern, ignoring case.
pub fn str_eq_ci(s: &str, kw: &str) -> (r: bool)
    ensures
        r == seq_eq_ci(s@, kw@),
{
    let n = s.unicode_len();
    let m = kw.unicode_len();
    if n != m {
        return false;
    }
    let mut i: usize = 0;
    while i < n
        invariant
            n == s@.len(),
            m == kw@.len(),
            n == m,
            i <= n,
            forall|t: int| 0 <= t < i ==> ascii_eq_ci(s@[t], #[trigger] kw@[t]),
        decreases n - i,
    {
        let c = s.get_char(i);
        let k = kw.get_char(i);
        let ci_match = c == k || ('A' <= k && k <= 'Z' && c as u32 == k as u32 + 32);
        if !ci_match {
            proof {
                assert(!ascii_eq_ci(s@[i as int], kw@[i as int]));
            }
            return false;
        }
        i += 1;
    }
    true
}

/// The pattern `kw` occurs in `s` at position `i`, ignoring ASCII case.
pub open spec fn matches_at_ci(s: Seq<char>, kw: Seq<char>, i: int) -> bool {
    0 <= i && i + kw.len() <= s.len() && (forall|t: int|
        0 <= t < kw.len() ==> ascii_eq_ci(s[i + t], #[trigger] kw[t]))
}

/// The pattern `kw` occurs somewhere in `s`, ignoring ASCII case.
pub open spec fn contains_ci(s: Seq<char>, kw: Seq<char>) -> bool {
    exists|i: int| matches_at_ci(s, kw, i)
}

/// `s` contains one of the denylisted SQL keywords, ignoring case.
pub open spec fn contains_denied_keyword(s: Seq<char>) -> bool {
    contains_ci(s, "DROP"@) || contains_ci(s, "DELETE"@) || contains_ci(s, "INSERT"@)
        || contains_ci(s, "UPDATE"@)
}

/// A non-empty identifier with no forbidden character and no denylisted
/// keyword: exactly the identifiers the validator accepts.
pub open spec fn identifier_ok(s: Seq<char>) -> bool {
    s.len() > 0 && (forall|i: int| 0 <= i < s.len() ==> !is_forbidden_char(#[trigger] s[i]))
        && !contains_denied_keyword(s)
}

#[derive(Clone, Copy, Debug, PartialEq, Eq, Structural)]
pub enum IdentifierError {
    /// The identifier was empty.
    Empty,
    /// The identifier held a forbidden character or a denylisted keyword.
    Unsafe,
}

/// The error the validator reports for a rejected identifier.
pub open spec fn identifier_error_of(s: Seq<char>) -> IdentifierError {
    if s.len() == 0 {
        IdentifierError::Empty
    } else {
        IdentifierError::Unsafe
    }
}

impl IdentifierError {
    /// A human-readable cause, as surfaced to callers.
    pub fn message(&self) -> (r: String)
        ensures
            *self is Empty ==> r@ == "Identifier cannot be empty"@,
            *self is Unsafe ==> r@ == "Invalid identifier: contains unsafe characters"@,
    {
        match self {
            IdentifierError::Empty => String::from_str("Identifier cannot be empty"),
            IdentifierError::Unsafe => String::from_str(
                "Invalid identifier: contains unsafe characters",
            ),
        }
    }
}

/// Scans for `kw` (an upper-case ASCII pattern) in `s`, ignoring case.
fn contains_keyword_ci(s: &str, kw: &Vec<char>) -> (r: bool)
    ensures
        r == contains_ci(s@, kw@),
{
    let n = s.unicode_len();
    let m = kw.len();
    if m > n {
        return false;
    }
    let mut i: usize = 0;
    while i <= n - m
        invariant
            n == s@.len(),
            m == kw@.len(),
            m <= n,
            i <= n,
            forall|k: int| 0 <= k < i ==> !matches_at_ci(s@, kw@, k),
        decreases n - i,
    {
        let mut j: usize = 0;
        let mut mismatch = false;
        while j < m && !mismatch
            invariant
                n == s@.len(),
                m == kw@.len(),
                i + m <= n,
                j <= m,
                !mismatch ==> forall|t: int| 0 <= t < j ==> ascii_eq_ci(
                    s@[i + t],
                    #[trigger] kw@[t],
                ),
                mismatch ==> !matches_at_ci(s@, kw@, i as int),
            decreases m - j + (if mismatch {
                0int
            } else {
                1int
            }),
        {
            let c = s.get_char(i + j);
            let k = kw[j];
            let cu = c as u32;
            let ku = k as u32;
            let ci_match = c == k || ('A' <= k && k <= 'Z' && cu == ku + 32);
            if !ci_match {
                proof {
                    assert(!ascii_eq_ci(s@[i + j], kw@[j as int]));
                }
                mismatch = true;
            } else {
                j += 1;
            }
        }
        if !mismatch {
            proof {
                assert(matches_at_ci(s@, kw@, i as int));
            }
            return true;
        }
        i += 1;
    }
    proof {
        assert forall|k: int| matches_at_ci(s@, kw@, k) implies false by {
            assert(0 <= k && k + m <= n);
            assert(k < i);
        }
    }
    false
}

/// Builds the character pattern of an upper-case keyword literal.
fn keyword_chars(kw: &str) -> (r: Vec<char>)
    ensures
        r@ == kw@,
{
    let n = kw.unicode_len();
    let mut r: Vec<char> = Vec::new();
    let mut i: usize = 0;
    while i < n
        invariant
            n == kw@.len(),
            i <= n,
            r@ == kw@.subrange(0, i as int),
        decreases n - i,
    {
        r.push(kw.get_char(i));
        proof {
            assert(r@ =~= kw@.subrange(0, i + 1 as int));
        }
        i += 1;
    }
    proof {
        assert(kw@.subrange(0, n as int) =~= kw@);
    }
    r
}

/// Validates that an identifier is safe to place, quoted, inside generated
/// SQL: non-empty, free of the forbidden characters, and free of the
/// denylisted keywords in any character case.
pub fn validate_sql_identifier(identifier: &str) -> (r: Result<(), IdentifierError>)
    ensures
        r is Ok <==> identifier_ok(identifier@),
        r is Err ==> r->Err_0 == identifier_error_of(identifier@),
{
    let n = identifier.unicode_len();
    if n == 0 {
        return Err(IdentifierError::Empty);
    }
    let mut i: usize = 0;
    while i < n
        invariant
            n == identifier@.len(),
            i <= n,
            forall|j: int| 0 <= j < i ==> !is_forbidden_char(#[trigger] identifier@[j]),
        decreases n - i,
    {
        let c = identifier.get_char(i);
        if c == ';' || c == '\'' || c == '"' || c == '\\' || c == '\u{0}' || c == '\n' || c == '\r'
        {
            proof {
                assert(is_forbidden_char(identifier@[i as int]));
            }
            return Err(IdentifierError::Unsafe);
        }
        i += 1;
    }
    let drop_kw = keyword_chars("DROP");
    let delete_kw = keyword_chars("DELETE");
    let insert_kw = keyword_chars("INSERT");
    let update_kw = keyword_chars("UPDATE");
    if contains_keyword_ci(identifier, &drop_kw) || contains_keyword_ci(identifier, &delete_kw)
        || contains_keyword_ci(identifier, &insert_kw) || contains_keyword_ci(
        identifier,
        &update_kw,
    ) {
        return Err(IdentifierError::Unsafe);
    }
    Ok(())
}

/// The quoted form of an identifier: wrapped in double quotes, embedded
/// double quotes doubled.
pub open spec fn quoted_identifier(s: Seq<char>) -> Seq<char> {
    seq!['"'] + escape_doubling(s, '"') + seq!['"']
}

/// Wraps an identifier in double quotes, doubling any embedded double quote,
/// without validating it first.
pub fn quote_raw_identifier(identifier: &str) -> (r: String)
    ensures
        r@ == quoted_identifier(identifier@),
{
    let mut r = String::new();
    push_char(&mut r, '"');
    let escaped = escape_by_doubling(identifier, '"');
    r.append(escaped.as_str());
    push_char(&mut r, '"');
    proof {
        assert(r@ =~= quoted_identifier(identifier@));
    }
    r
}

/// Doubling a character that never occurs leaves the text unchanged.
proof fn lemma_escape_doubling_absent(s: Seq<char>, q: char)
    requires
        forall|i: int| 0 <= i < s.len() ==> s[i] != q,
    ensures
        escape_doubling(s, q) == s,
    decreases s.len(),
{
    if s.len() > 0 {
        lemma_escape_doubling_absent(s.drop_last(), q);
        assert(escape_doubling(s, q) =~= s);
    } else {
        assert(escape_doubling(s, q) =~= s);
    }
}

/// Any identifier that passed validation holds no double quote, so its
/// quoted form is the identifier itself wrapped in double quotes: the
/// escaping in quoting only ever fires on text that skipped validation.
pub proof fn lemma_validated_identifier_quotes_plainly(s: Seq<char>)
    requires
        identifier_ok(s),
    ensures
        quoted_identifier(s) == seq!['"'] + s + seq!['"'],
{
    assert(forall|i: int| 0 <= i < s.len() ==> s[i] != '"');
    lemma_escape_doubling_absent(s, '"');
}

/// Validates an identifier and returns its double-quoted form.
pub fn quote_identifier(identifier: &str) -> (r: Result<String, IdentifierError>)
    ensures
        r is Ok <==> identifier_ok(identifier@),
        r is Ok ==> r->Ok_0@ == quoted_identifier(identifier@),
        r is Err ==> r->Err_0 == identifier_error_of(identifier@),
{
    match validate_sql_identifier(identifier) {
        Ok(()) => Ok(quote_raw_identifier(identifier)),
        Err(e) => Err(e),
    }
}

} // verus!
