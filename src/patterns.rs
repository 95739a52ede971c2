//! The structural rules on object keys, and the compiled patterns that decide them.

use regex::Regex;
use vstd::prelude::*;
use vstd::string::StringExecFns;

verus! {

#[verifier::external_type_specification]
#[verifier::external_body]
pub struct ExRegex(Regex);

#[verifier::external_type_specification]
#[verifier::external_body]
pub struct ExRegexError(regex::Error);

/// Whether `Regex::new` accepts the pattern text.
pub uninterp spec fn regex_compiles(pattern: Seq<char>) -> bool;

/// What `Regex::is_match` answers for a regex compiled from `pattern`.
pub uninterp spec fn regex_is_match(pattern: Seq<char>, text: Seq<char>) -> bool;

/// The text of the leftmost-first match that `Regex::find` reports.
pub uninterp spec fn regex_find(pattern: Seq<char>, text: Seq<char>) -> Option<Seq<char>>;

/// `\..{3}$`: a dot and three more characters at the very end.
pub open spec fn extension_rule() -> Seq<char> {
    seq!['\\', '.', '.', '{', '3', '}', '$']
}

/// `(?i)^tn-[^/]+`: a tenant token at the start of the key.
pub open spec fn tenant_rule() -> Seq<char> {
    seq!['(', '?', 'i', ')', '^', 't', 'n', '-', '[', '^', '/', ']', '+']
}

/// `(?i).*(baseii|t112|t120|t470|t464).*`: one of the streaming-format tokens.
pub open spec fn streamable_rule() -> Seq<char> {
    seq![
        '(', '?', 'i', ')', '.', '*', '(', 'b', 'a', 's', 'e', 'i', 'i', '|', 't', '1', '1', '2',
        '|', 't', '1', '2', '0', '|', 't', '4', '7', '0', '|', 't', '4', '6', '4', ')', '.', '*',
    ]
}

/// `.*/&`: the directory-exclusion rule.
pub open spec fn dir_rule() -> Seq<char> {
    seq!['.', '*', '/', '&']
}

/// A dot followed by exactly three characters, none a line feed, ends the key.
pub open spec fn has_extension(k: Seq<char>) -> bool {
    &&& k.len() >= 4
    &&& k[k.len() - 4] == '.'
    &&& k[k.len() - 3] != '\n'
    &&& k[k.len() - 2] != '\n'
    &&& k[k.len() - 1] != '\n'
}

/// The matched extension: the last four characters, dot included.
pub open spec fn extension_of(k: Seq<char>) -> Seq<char> {
    k.subrange(k.len() - 4, k.len() as int)
}

/// The key starts with `tn-` in any case, followed by a character that is not `/`.
pub open spec fn has_tenant_prefix(k: Seq<char>) -> bool {
    &&& k.len() >= 4
    &&& (k[0] == 't' || k[0] == 'T')
    &&& (k[1] == 'n' || k[1] == 'N')
    &&& k[2] == '-'
    &&& k[3] != '/'
}

/// Index of the first `/` at or after `i`, or the length where there is none.
pub open spec fn first_slash_from(k: Seq<char>, i: int) -> int
    decreases k.len() - i,
{
    if i < 0 || i >= k.len() {
        k.len() as int
    } else if k[i] == '/' {
        i
    } else {
        first_slash_from(k, i + 1)
    }
}

/// The tenant token: everything before the first `/`.
pub open spec fn tenant_of(k: Seq<char>) -> Seq<char> {
    k.subrange(0, first_slash_from(k, 3))
}

/// The key holds `/&` somewhere.
pub open spec fn is_excluded_dir(k: Seq<char>) -> bool {
    exists|i: int| 0 <= i && i + 1 < k.len() && #[trigger] k[i] == '/' && k[i + 1] == '&'
}

/// Upper case of the lower-case letters that the streaming tokens use.
pub open spec fn upper_of(c: char) -> char {
    if c == 'a' {
        'A'
    } else if c == 'b' {
        'B'
    } else if c == 'e' {
        'E'
    } else if c == 'i' {
        'I'
    } else if c == 's' {
        'S'
    } else if c == 't' {
        'T'
    } else {
        c
    }
}

/// `c` equals `l` under simple case folding (`s` also folds with the long s).
pub open spec fn folds_to(c: char, l: char) -> bool {
    c == l || c == upper_of(l) || (l == 's' && c == '\u{17f}')
}

/// `tok` occurs in `k` at index `i`, case-insensitively.
pub open spec fn folded_at(k: Seq<char>, tok: Seq<char>, i: int) -> bool {
    0 <= i && i + tok.len() <= k.len() && forall|j: int|
        0 <= j < tok.len() ==> #[trigger] folds_to(k[i + j], tok[j])
}

/// `tok` occurs in `k`, case-insensitively.
pub open spec fn contains_folded(k: Seq<char>, tok: Seq<char>) -> bool {
    exists|i: int| #[trigger] folded_at(k, tok, i)
}

/// The streaming-format tokens.
pub open spec fn streamable_tokens() -> Seq<Seq<char>> {
    seq![
        seq!['b', 'a', 's', 'e', 'i', 'i'],
        seq!['t', '1', '1', '2'],
        seq!['t', '1', '2', '0'],
        seq!['t', '4', '7', '0'],
        seq!['t', '4', '6', '4'],
    ]
}

/// The key holds one of the streaming-format tokens, in any case.
pub open spec fn is_streamable(k: Seq<char>) -> bool {
    exists|t: int| 0 <= t < streamable_tokens().len() && contains_folded(k, streamable_tokens()[t])
}

/// One of the four structural rules.
pub open spec fn is_structural_rule(p: Seq<char>) -> bool {
    p == extension_rule() || p == tenant_rule() || p == streamable_rule() || p == dir_rule()
}

/// Whether a pattern compiles; the four structural rules are valid syntax.
pub open spec fn pattern_compiles(p: Seq<char>) -> bool {
    is_structural_rule(p) || regex_compiles(p)
}

/// What a compiled pattern answers on `t`; the structural rules as the regex syntax defines them.
pub open spec fn pattern_is_match(p: Seq<char>, t: Seq<char>) -> bool {
    if p == extension_rule() {
        has_extension(t)
    } else if p == tenant_rule() {
        has_tenant_prefix(t)
    } else if p == streamable_rule() {
        is_streamable(t)
    } else if p == dir_rule() {
        is_excluded_dir(t)
    } else {
        regex_is_match(p, t)
    }
}

/// The leftmost-first match of a compiled pattern on `t`.
pub open spec fn pattern_find(p: Seq<char>, t: Seq<char>) -> Option<Seq<char>> {
    if p == extension_rule() {
        if has_extension(t) {
            Some(extension_of(t))
        } else {
            None
        }
    } else if p == tenant_rule() {
        if has_tenant_prefix(t) {
            Some(tenant_of(t))
        } else {
            None
        }
    } else {
        regex_find(p, t)
    }
}

/// Relies on regex::Regex::new: it accepts exactly the valid pattern texts.
#[verifier::external_body]
fn compile_regex(p: &str) -> (r: Result<Regex, regex::Error>)
    ensures
        r is Ok <==> (is_structural_rule(p@) || regex_compiles(p@)),
{
    Regex::new(p)
}

/// Relies on regex::Error's Display impl, to report why a pattern was refused.
#[verifier::external_body]
fn describe_regex_error(e: &regex::Error) -> (r: String) {
    e.to_string()
}

/// A pattern compiled together with its own text. Only `new` builds one, so `re` is always
/// the regex compiled from `source`, which the matching wrappers rely on.
pub struct Pattern {
    source: String,
    re: Regex,
}

impl Pattern {
    /// The text this pattern was compiled from.
    pub closed spec fn source(&self) -> Seq<char> {
        self.source@
    }

    /// Compiles `p`; fails, with the regex engine's explanation, exactly when `p` is invalid.
    pub fn new(p: &str) -> (r: Result<Pattern, String>)
        ensures
            r is Ok <==> pattern_compiles(p@),
            r is Ok ==> r->Ok_0.source() == p@,
    {
        match compile_regex(p) {
            Ok(re) => Ok(Pattern { source: String::from_str(p), re }),
            Err(e) => Err(describe_regex_error(&e)),
        }
    }

    /// Relies on regex::Regex::is_match, on the regex compiled from `source`.
    #[verifier::external_body]
    pub(crate) fn is_match(&self, text: &str) -> (r: bool)
        ensures
            r == pattern_is_match(self.source(), text@),
            !is_structural_rule(self.source()) ==> r == regex_is_match(self.source(), text@),
    {
        self.re.is_match(text)
    }

    /// Relies on regex::Regex::find, on the regex compiled from `source`: the matched text.
    #[verifier::external_body]
    pub(crate) fn find(&self, text: &str) -> (r: Option<String>)
        ensures
            match r {
                Some(s) => pattern_find(self.source(), text@) == Some(s@),
                None => pattern_find(self.source(), text@) is None,
            },
            self.source() != extension_rule() && self.source() != tenant_rule() ==> match r {
                Some(s) => regex_find(self.source(), text@) == Some(s@),
                None => regex_find(self.source(), text@) is None,
            },
    {
        self.re.find(text).map(|m| m.as_str().to_string())
    }
}

} // verus!
