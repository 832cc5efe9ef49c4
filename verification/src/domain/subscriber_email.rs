//! The email address of a subscriber.
//!
//! An address is a local part, one `@`, and a domain. The local part is made
//! of atoms joined by single dots. The domain is made of at least two labels
//! joined by single dots, the last of them the top-level domain. Quoted local
//! parts, comments and address literals are outside this grammar.

use vstd::prelude::*;
use vstd::slice::slice_subrange;
use vstd::string::*;

use crate::text::chars_of;

verus! {

/// The most characters a local part may have.
pub const MAX_LOCAL_LEN: usize = 64;

/// The most characters a domain may have.
pub const MAX_DOMAIN_LEN: usize = 255;

/// The most characters a label of a domain may have.
pub const MAX_LABEL_LEN: usize = 63;

/// The ASCII letters and digits.
pub open spec fn is_alphanumeric(c: char) -> bool {
    ||| 'a' <= c <= 'z'
    ||| 'A' <= c <= 'Z'
    ||| '0' <= c <= '9'
}

/// The characters an atom of a local part is made of.
pub open spec fn is_atom_char(c: char) -> bool {
    ||| is_alphanumeric(c)
    ||| c == '!'
    ||| c == '#'
    ||| c == '$'
    ||| c == '%'
    ||| c == '&'
    ||| c == '\''
    ||| c == '*'
    ||| c == '+'
    ||| c == '-'
    ||| c == '/'
    ||| c == '='
    ||| c == '?'
    ||| c == '^'
    ||| c == '_'
    ||| c == '`'
    ||| c == '{'
    ||| c == '|'
    ||| c == '}'
    ||| c == '~'
}

/// A local part: between one and `MAX_LOCAL_LEN` characters, each an atom
/// character or a dot, with no dot first, last, or next to another dot.
pub open spec fn is_local_part(s: Seq<char>) -> bool {
    &&& 1 <= s.len() <= MAX_LOCAL_LEN
    &&& forall|i: int| 0 <= i < s.len() ==> is_atom_char(#[trigger] s[i]) || s[i] == '.'
    &&& s[0] != '.'
    &&& s[s.len() - 1] != '.'
    &&& forall|i: int| 0 < i < s.len() ==> !(s[i - 1] == '.' && #[trigger] s[i] == '.')
}

/// The characters a label of a domain is made of.
pub open spec fn is_label_char(c: char) -> bool {
    is_alphanumeric(c) || c == '-'
}

/// A label: between one and `MAX_LABEL_LEN` letters, digits and hyphens, with
/// no hyphen first or last.
pub open spec fn is_label(s: Seq<char>) -> bool {
    &&& 1 <= s.len() <= MAX_LABEL_LEN
    &&& forall|i: int| 0 <= i < s.len() ==> is_label_char(#[trigger] s[i])
    &&& s[0] != '-'
    &&& s[s.len() - 1] != '-'
}

/// The positions `i` up to `j` of `s` are a stretch between dots: it begins
/// at the start of `s` or after a dot, ends at the end of `s` or before a dot,
/// and holds no dot.
pub open spec fn is_label_span(s: Seq<char>, i: int, j: int) -> bool {
    &&& 0 <= i <= j <= s.len()
    &&& (i == 0 || s[i - 1] == '.')
    &&& (j == s.len() || s[j] == '.')
    &&& forall|k: int| i <= k < j ==> #[trigger] s[k] != '.'
}

/// A domain: at most `MAX_DOMAIN_LEN` characters, at least one dot, and every
/// stretch between dots a label.
pub open spec fn is_domain(s: Seq<char>) -> bool {
    &&& s.len() <= MAX_DOMAIN_LEN
    &&& exists|k: int| 0 <= k < s.len() && #[trigger] s[k] == '.'
    &&& forall|i: int, j: int| #[trigger] is_label_span(s, i, j) ==> is_label(s.subrange(i, j))
}

/// `s` is an address whose `@` stands at position `at`.
pub open spec fn is_address_split(s: Seq<char>, at: int) -> bool {
    &&& 0 <= at < s.len()
    &&& s[at] == '@'
    &&& is_local_part(s.subrange(0, at))
    &&& is_domain(s.subrange(at + 1, s.len() as int))
}

/// The strings that are email addresses.
pub open spec fn is_valid_email(s: Seq<char>) -> bool {
    exists|at: int| is_address_split(s, at)
}

/// What a rejected candidate is answered with: a fixed prefix, then the
/// candidate itself, unchanged.
pub open spec fn email_rejection(s: Seq<char>) -> Seq<char> {
    "Invalid subscriber email: "@ + s
}

/// What parsing a candidate comes to: the candidate itself where it is an
/// address, else the message that quotes it.
pub open spec fn parse_email(s: Seq<char>) -> Result<Seq<char>, Seq<char>> {
    if is_valid_email(s) {
        Ok(s)
    } else {
        Err(email_rejection(s))
    }
}

/// Whether `c` is an ASCII letter or digit.
pub fn alphanumeric(c: char) -> (r: bool)
    ensures
        r == is_alphanumeric(c),
{
    ('a' <= c && c <= 'z') || ('A' <= c && c <= 'Z') || ('0' <= c && c <= '9')
}

/// Whether `c` may stand in an atom of a local part.
pub fn atom_char(c: char) -> (r: bool)
    ensures
        r == is_atom_char(c),
{
    alphanumeric(c) || c == '!' || c == '#' || c == '$' || c == '%' || c == '&' || c == '\'' || c
        == '*' || c == '+' || c == '-' || c == '/' || c == '=' || c == '?' || c == '^' || c == '_'
        || c == '`' || c == '{' || c == '|' || c == '}' || c == '~'
}

/// Whether `s` is a local part.
pub fn local_part(s: &[char]) -> (r: bool)
    ensures
        r == is_local_part(s@),
{
    let n: usize = s.len();
    if n == 0 || n > MAX_LOCAL_LEN {
        return false;
    }
    // At the start a dot is as unwelcome as after another dot.
    let mut after_dot: bool = true;
    for i in 0..n
        invariant
            n == s@.len(),
            forall|j: int| 0 <= j < i ==> is_atom_char(#[trigger] s@[j]) || s@[j] == '.',
            i > 0 ==> s@[0] != '.',
            forall|j: int| 0 < j < i ==> !(s@[j - 1] == '.' && #[trigger] s@[j] == '.'),
            after_dot == (i == 0 || s@[i - 1] == '.'),
    {
        let c: char = s[i];
        if c == '.' {
            if after_dot {
                return false;
            }
            after_dot = true;
        } else if atom_char(c) {
            after_dot = false;
        } else {
            return false;
        }
    }
    !after_dot
}

/// Whether `s` is a label.
pub fn label(s: &[char]) -> (r: bool)
    ensures
        r == is_label(s@),
{
    let n: usize = s.len();
    if n == 0 || n > MAX_LABEL_LEN {
        return false;
    }
    if s[0] == '-' || s[n - 1] == '-' {
        return false;
    }
    for i in 0..n
        invariant
            n == s@.len(),
            forall|j: int| 0 <= j < i ==> is_label_char(#[trigger] s@[j]),
    {
        let c: char = s[i];
        if !(alphanumeric(c) || c == '-') {
            return false;
        }
    }
    true
}

/// The position of the first dot of `s` at or after `from`, or the length of
/// `s` where there is none.
fn next_dot(s: &[char], from: usize) -> (j: usize)
    requires
        from <= s@.len(),
    ensures
        from <= j <= s@.len(),
        j == s@.len() || s@[j as int] == '.',
        forall|k: int| from <= k < j ==> #[trigger] s@[k] != '.',
{
    let n: usize = s.len();
    let mut j: usize = from;
    while j < n && s[j] != '.'
        invariant
            n == s@.len(),
            from <= j <= n,
            forall|k: int| from <= k < j ==> #[trigger] s@[k] != '.',
        decreases n - j,
    {
        j += 1;
    }
    j
}

/// Stretches between dots do not overlap: one that ends within another is
/// that other.
proof fn lemma_spans_apart(s: Seq<char>, a: int, b: int, i: int, j: int)
    requires
        is_label_span(s, a, b),
        is_label_span(s, i, j),
        a <= j <= b,
    ensures
        i == a,
        j == b,
{
    if j < b {
        assert(s[j] != '.');
    }
    if i < a {
        assert(s[a - 1] == '.');
    }
    if i > a {
        assert(s[i - 1] != '.');
    }
}

/// Whether `s` is a domain.
pub fn domain(s: &[char]) -> (r: bool)
    ensures
        r == is_domain(s@),
{
    let n: usize = s.len();
    if n > MAX_DOMAIN_LEN {
        return false;
    }
    // Label after label, each from `start` to the next dot.
    let mut start: usize = 0;
    loop
        invariant
            n == s@.len(),
            n <= MAX_DOMAIN_LEN,
            start <= n,
            start == 0 || s@[start - 1] == '.',
            forall|i: int, j: int| #[trigger]
                is_label_span(s@, i, j) && j < start ==> is_label(s@.subrange(i, j)),
        decreases n - start,
    {
        let end: usize = next_dot(s, start);
        assert(is_label_span(s@, start as int, end as int));
        if !label(slice_subrange(s, start, end)) {
            return false;
        }
        assert forall|i: int, j: int| #[trigger]
            is_label_span(s@, i, j) && j <= end implies is_label(s@.subrange(i, j)) by {
            if start <= j {
                lemma_spans_apart(s@, start as int, end as int, i, j);
            }
        }
        if end == n {
            // The last label. There was a dot exactly if it is not the first.
            return start > 0;
        }
        start = end + 1;
    }
}

/// The position of the first `@` of `s`, if it has one.
fn first_at(s: &[char]) -> (r: Option<usize>)
    ensures
        match r {
            Some(at) => at < s@.len() && s@[at as int] == '@' && forall|k: int|
                0 <= k < at ==> #[trigger] s@[k] != '@',
            None => forall|k: int| 0 <= k < s@.len() ==> #[trigger] s@[k] != '@',
        },
{
    let n: usize = s.len();
    for i in 0..n
        invariant
            n == s@.len(),
            forall|k: int| 0 <= k < i ==> #[trigger] s@[k] != '@',
    {
        if s[i] == '@' {
            return Some(i);
        }
    }
    None
}

/// A local part holds no `@`, so an address splits at its first `@` or
/// nowhere.
proof fn lemma_split_is_first_at(s: Seq<char>, at: int, first: int)
    requires
        is_address_split(s, at),
        0 <= first < s.len(),
        s[first] == '@',
        forall|k: int| 0 <= k < first ==> #[trigger] s[k] != '@',
    ensures
        at == first,
{
    if first < at {
        assert(s.subrange(0, at)[first] == '@');
    }
}

/// Whether the characters `s` are an email address.
pub fn address(s: &[char]) -> (r: bool)
    ensures
        r == is_valid_email(s@),
{
    let n: usize = s.len();
    match first_at(s) {
        None => false,
        Some(at) => {
            let r = local_part(slice_subrange(s, 0, at)) && domain(slice_subrange(s, at + 1, n));
            proof {
                if r {
                    assert(is_address_split(s@, at as int));
                } else {
                    assert forall|other: int| !is_address_split(s@, other) by {
                        if is_address_split(s@, other) {
                            lemma_split_is_first_at(s@, other, at as int);
                        }
                    }
                }
            }
            r
        },
    }
}

/// An address that has passed the grammar of this module.
#[derive(Debug)]
pub struct SubscriberEmail(String);

impl View for SubscriberEmail {
    type V = Seq<char>;

    closed spec fn view(&self) -> Seq<char> {
        self.0@
    }
}

/// The outcome of parsing as plain values: the characters of the address, or
/// those of the message.
pub open spec fn email_outcome(r: Result<SubscriberEmail, String>) -> Result<
    Seq<char>,
    Seq<char>,
> {
    match r {
        Ok(email) => Ok(email@),
        Err(message) => Err(message@),
    }
}

impl SubscriberEmail {
    #[verifier::type_invariant]
    spec fn well_formed(self) -> bool {
        is_valid_email(self.0@)
    }

    /// Accepts `s` as an address exactly when it is one, and keeps it as it
    /// is. A rejected candidate is quoted in the message.
    pub fn parse(s: String) -> (r: Result<SubscriberEmail, String>)
        ensures
            email_outcome(r) == parse_email(s@),
    {
        let chars: Vec<char> = chars_of(s.as_str());
        if address(chars.as_slice()) {
            Ok(SubscriberEmail(s))
        } else {
            Err(String::from_str("Invalid subscriber email: ").concat(s.as_str()))
        }
    }

    /// The address as it was given.
    pub fn as_str(&self) -> (r: &str)
        ensures
            r@ == self@,
            is_valid_email(r@),
    {
        proof {
            use_type_invariant(self);
        }
        self.0.as_str()
    }
}

impl AsRef<str> for SubscriberEmail {
    /// The address as it was given.
    fn as_ref(&self) -> (r: &str)
        ensures
            r@ == self@,
            is_valid_email(r@),
    {
        self.as_str()
    }
}

/// An address holds exactly one `@`: the one it splits at.
pub proof fn lemma_address_has_one_at(s: Seq<char>, at: int)
    requires
        is_address_split(s, at),
    ensures
        forall|k: int| 0 <= k < s.len() && #[trigger] s[k] == '@' ==> k == at,
{
    assert forall|k: int| 0 <= k < s.len() && #[trigger] s[k] == '@' implies k == at by {
        if k < at {
            assert(s.subrange(0, at)[k] == '@');
        }
        if k > at {
            let d = s.subrange(at + 1, s.len() as int);
            assert(d[k - at - 1] == '@');
            lemma_domain_chars(d, k - at - 1);
        }
    }
}

/// Every character of a domain is a label character or a dot.
pub proof fn lemma_domain_chars(s: Seq<char>, k: int)
    requires
        is_domain(s),
        0 <= k < s.len(),
    ensures
        is_label_char(s[k]) || s[k] == '.',
{
    if s[k] != '.' {
        let i = label_start(s, k);
        let j = label_end(s, k);
        lemma_label_start(s, k);
        lemma_label_end(s, k);
        assert(is_label_span(s, i, j));
        assert(s.subrange(i, j)[k - i] == s[k]);
    }
}

/// Where the stretch between dots that holds position `k` begins.
spec fn label_start(s: Seq<char>, k: int) -> int
    decreases k,
{
    if k <= 0 || s[k - 1] == '.' {
        k
    } else {
        label_start(s, k - 1)
    }
}

/// Where the stretch between dots that holds position `k` ends.
spec fn label_end(s: Seq<char>, k: int) -> int
    decreases s.len() - k,
{
    if k >= s.len() || s[k] == '.' {
        k
    } else {
        label_end(s, k + 1)
    }
}

proof fn lemma_label_start(s: Seq<char>, k: int)
    requires
        0 <= k < s.len(),
    ensures
        0 <= label_start(s, k) <= k,
        label_start(s, k) == 0 || s[label_start(s, k) - 1] == '.',
        forall|m: int| label_start(s, k) <= m < k ==> #[trigger] s[m] != '.',
    decreases k,
{
    if k > 0 && s[k - 1] != '.' {
        lemma_label_start(s, k - 1);
    }
}

proof fn lemma_label_end(s: Seq<char>, k: int)
    requires
        0 <= k <= s.len(),
    ensures
        k <= label_end(s, k) <= s.len(),
        label_end(s, k) == s.len() || s[label_end(s, k)] == '.',
        forall|m: int| k <= m < label_end(s, k) ==> #[trigger] s[m] != '.',
    decreases s.len() - k,
{
    if k < s.len() && s[k] != '.' {
        lemma_label_end(s, k + 1);
    }
}

} // verus!
