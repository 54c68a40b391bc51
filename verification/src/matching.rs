use vstd::prelude::*;

verus! {

#[verifier::external_type_specification]
#[verifier::external_body]
pub struct ExRegex(regex::Regex);

/// Whether `regex::Regex::new` accepts the pattern (it refuses bad syntax, look-around,
/// and patterns over its size limit).
pub uninterp spec fn regex_compiles(pattern: Seq<char>) -> bool;

/// What `regex::Regex::is_match` answers for a regex compiled from `pattern` on `text`.
pub uninterp spec fn regex_is_match(pattern: Seq<char>, text: Seq<char>) -> bool;

/// How many matches `regex::Regex::find_iter` yields for a regex compiled from
/// `pattern` on `text`.
pub uninterp spec fn regex_match_count(pattern: Seq<char>, text: Seq<char>) -> nat;

/// The text of capture group `group` of the first match that `regex::Regex::captures`
/// finds for a regex compiled from `pattern` in `text`; none without a match, when
/// the regex has no such group, or when the group took no part in the match.
pub uninterp spec fn regex_capture_group(pattern: Seq<char>, text: Seq<char>, group: nat) -> Option<Seq<char>>;

/// A regular expression together with the pattern it was compiled from. Values are
/// made only by `compile`, which keeps the two together.
pub struct CompiledRegex {
    pattern: String,
    regex: regex::Regex,
}

impl CompiledRegex {
    pub closed spec fn source(&self) -> Seq<char> {
        self.pattern@
    }
}

/// `regex::Regex::new`. Claimed: a regex comes back exactly when the crate accepts
/// the pattern (`regex_compiles`), and it remembers the pattern it came from.
#[verifier::external_body]
pub(crate) fn compile(pattern: &str) -> (r: Option<CompiledRegex>)
    ensures
        r is Some <==> regex_compiles(pattern@),
        r matches Some(c) ==> c.source() == pattern@,
{
    match regex::Regex::new(pattern) {
        Ok(regex) => Some(CompiledRegex { pattern: pattern.to_string(), regex }),
        Err(_) => None,
    }
}

/// `regex::Regex::is_match` on a regex made by `compile`. Claimed: the answer is
/// `regex_is_match` of the regex's pattern and the text, and depends on nothing else.
#[verifier::external_body]
pub(crate) fn is_match(re: &CompiledRegex, text: &str) -> (r: bool)
    ensures
        r == regex_is_match(re.source(), text@),
{
    re.regex.is_match(text)
}

/// `regex::Regex::find_iter` on a regex made by `compile`, counted. Claimed: the
/// count is `regex_match_count` of the regex's pattern and the text.
#[verifier::external_body]
pub(crate) fn match_count(re: &CompiledRegex, text: &str) -> (r: usize)
    ensures
        r == regex_match_count(re.source(), text@),
{
    re.regex.find_iter(text).count()
}

/// `regex::Regex::captures` on a regex made by `compile`, then `Captures::get` of
/// the group `group`. Claimed: the text of that group is `regex_capture_group` of the
/// regex's pattern, the text and the group; none exactly when that name gives none.
#[verifier::external_body]
pub(crate) fn capture_group(re: &CompiledRegex, text: &str, group: usize) -> (r: Option<String>)
    ensures
        match r {
            Some(g) => regex_capture_group(re.source(), text@, group as nat) == Some(g@),
            None => regex_capture_group(re.source(), text@, group as nat) is None,
        },
{
    re.regex.captures(text).and_then(|c| c.get(group)).map(|m| m.as_str().to_string())
}

/// What `std::path::Path::extension` gives for a path, when it is valid text.
pub uninterp spec fn path_extension(path: Seq<char>) -> Option<Seq<char>>;

/// `std::path::Path::extension`, kept when it is valid UTF-8. Claimed: the result
/// is `path_extension` of the path, a function of the path alone.
#[verifier::external_body]
pub(crate) fn extension_of(path: &str) -> (r: Option<String>)
    ensures
        match r {
            Some(e) => path_extension(path@) == Some(e@),
            None => path_extension(path@) is None,
        },
{
    std::path::Path::new(path).extension().and_then(|e| e.to_str()).map(|e| e.to_string())
}

} // verus!
