//! The name of a subscriber.

use unicode_segmentation::UnicodeSegmentation;
use vstd::prelude::*;
use vstd::string::*;

use crate::text::{blank, is_blank};

verus! {

/// The most grapheme clusters a name may have.
pub const MAX_NAME_GRAPHEMES: usize = 256;

/// The characters that no name may contain.
pub open spec fn is_forbidden(c: char) -> bool {
    ||| c == '/'
    ||| c == '('
    ||| c == ')'
    ||| c == '"'
    ||| c == '<'
    ||| c == '>'
    ||| c == '\\'
    ||| c == '&'
    ||| c == '{'
    ||| c == '}'
    ||| c == '['
    ||| c == ']'
    ||| c == '='
}

/// Some character of `s` is forbidden.
pub open spec fn has_forbidden(s: Seq<char>) -> bool {
    exists|i: int| 0 <= i < s.len() && is_forbidden(#[trigger] s[i])
}

/// The number of extended grapheme clusters that Unicode text segmentation
/// finds in `s`.
pub uninterp spec fn grapheme_count(s: Seq<char>) -> nat;

/// The rule of names, for a string `s` that has `graphemes` grapheme clusters:
/// not blank, not too long, free of forbidden characters.
pub open spec fn name_rule(s: Seq<char>, graphemes: nat) -> bool {
    &&& !is_blank(s)
    &&& graphemes <= MAX_NAME_GRAPHEMES
    &&& !has_forbidden(s)
}

/// The strings that are names.
pub open spec fn is_valid_name(s: Seq<char>) -> bool {
    name_rule(s, grapheme_count(s))
}

/// What a rejected candidate is answered with: a fixed prefix, then the
/// candidate itself, unchanged.
pub open spec fn name_rejection(s: Seq<char>) -> Seq<char> {
    "Invalid subscriber name: "@ + s
}

/// What parsing a candidate comes to: the candidate itself where it is a
/// name, else the message that quotes it.
pub open spec fn parse_name(s: Seq<char>) -> Result<Seq<char>, Seq<char>> {
    if is_valid_name(s) {
        Ok(s)
    } else {
        Err(name_rejection(s))
    }
}

/// Whether `c` is forbidden in names.
pub fn forbidden(c: char) -> (r: bool)
    ensures
        r == is_forbidden(c),
{
    c == '/' || c == '(' || c == ')' || c == '"' || c == '<' || c == '>' || c == '\\' || c == '&'
        || c == '{' || c == '}' || c == '[' || c == ']' || c == '='
}

/// Whether some character of `s` is forbidden in names.
pub fn contains_forbidden(s: &str) -> (r: bool)
    ensures
        r == has_forbidden(s@),
{
    for c in it: s.chars()
        invariant
            it.seq() == s@,
            forall|j: int| 0 <= j < it.index() ==> !is_forbidden(#[trigger] s@[j]),
    {
        if forbidden(c) {
            return true;
        }
    }
    false
}

/// Counts the extended grapheme clusters of `s` with
/// `unicode_segmentation::UnicodeSegmentation::graphemes`. Trusted: the count
/// is the one that `grapheme_count` names, and, every cluster holding at least
/// one character, it is at most the number of characters.
#[verifier::external_body]
fn count_graphemes(s: &str) -> (n: usize)
    ensures
        n == grapheme_count(s@),
        n <= s@.len(),
{
    s.graphemes(true).count()
}

/// Decides the rule of names for `s`, given the number of its grapheme
/// clusters.
pub fn name_is_acceptable(s: &str, graphemes: usize) -> (r: bool)
    ensures
        r == name_rule(s@, graphemes as nat),
{
    !blank(s) && graphemes <= MAX_NAME_GRAPHEMES && !contains_forbidden(s)
}

/// A name that has passed the rule of names.
#[derive(Debug)]
pub struct SubscriberName(String);

impl View for SubscriberName {
    type V = Seq<char>;

    closed spec fn view(&self) -> Seq<char> {
        self.0@
    }
}

/// The outcome of parsing as plain values: the characters of the name, or
/// those of the message.
pub open spec fn name_outcome(r: Result<SubscriberName, String>) -> Result<Seq<char>, Seq<char>> {
    match r {
        Ok(name) => Ok(name@),
        Err(message) => Err(message@),
    }
}

impl SubscriberName {
    #[verifier::type_invariant]
    spec fn well_formed(self) -> bool {
        is_valid_name(self.0@)
    }

    /// Accepts `s` as a name exactly when it is one, and keeps it as it is.
    /// A rejected candidate is quoted in the message. A candidate has no more
    /// grapheme clusters than characters, so for one of at most
    /// `MAX_NAME_GRAPHEMES` characters the other two conditions decide.
    pub fn parse(s: String) -> (r: Result<SubscriberName, String>)
        ensures
            name_outcome(r) == parse_name(s@),
            s@.len() <= MAX_NAME_GRAPHEMES ==> (r is Ok <==> !is_blank(s@) && !has_forbidden(s@)),
    {
        let graphemes: usize = count_graphemes(s.as_str());
        if name_is_acceptable(s.as_str(), graphemes) {
            Ok(SubscriberName(s))
        } else {
            Err(String::from_str("Invalid subscriber name: ").concat(s.as_str()))
        }
    }

    /// The name as it was given.
    pub fn as_str(&self) -> (r: &str)
        ensures
            r@ == self@,
            is_valid_name(r@),
    {
        proof {
            use_type_invariant(self);
        }
        self.0.as_str()
    }
}

impl AsRef<str> for SubscriberName {
    /// The name as it was given.
    fn as_ref(&self) -> (r: &str)
        ensures
            r@ == self@,
            is_valid_name(r@),
    {
        self.as_str()
    }
}

/// A candidate is accepted exactly when it is not blank, has at most
/// `MAX_NAME_GRAPHEMES` grapheme clusters and holds no forbidden character.
pub proof fn lemma_name_accepted_iff(s: Seq<char>)
    ensures
        parse_name(s) is Ok <==> {
            &&& !is_blank(s)
            &&& grapheme_count(s) <= MAX_NAME_GRAPHEMES
            &&& !has_forbidden(s)
        },
{
}

/// An accepted candidate comes back as it went in: parsing normalizes
/// nothing.
pub proof fn lemma_accepted_name_is_kept(s: Seq<char>)
    requires
        parse_name(s) is Ok,
    ensures
        parse_name(s) == Ok::<Seq<char>, Seq<char>>(s),
{
}

/// A candidate made of white space alone is rejected, however short.
pub proof fn lemma_blank_name_is_rejected(s: Seq<char>)
    requires
        is_blank(s),
    ensures
        parse_name(s) is Err,
{
}

/// The empty candidate is rejected.
pub proof fn lemma_empty_name_is_rejected()
    ensures
        parse_name(Seq::<char>::empty()) is Err,
{
}

/// A candidate that holds a forbidden character at any position is rejected.
pub proof fn lemma_forbidden_character_is_rejected(s: Seq<char>, i: int)
    requires
        0 <= i < s.len(),
        is_forbidden(s[i]),
    ensures
        parse_name(s) is Err,
{
}

} // verus!
