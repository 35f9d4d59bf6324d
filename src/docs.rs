//! Documentation of the configuration models, taken from their source texts by
//! an ordered list of removal rules.

use vstd::prelude::*;
use crate::format::commented_lines;

verus! {

/// The patterns this library replaces with; each is a valid regular expression.
pub open spec fn known_pattern(p: Seq<char>) -> bool {
    ||| p == "(?m)^"@
    ||| p == "\n//![^\n]*"@
    ||| p == "\nmod [^\n]*|\npub use [^\n]*"@
    ||| p == "\nuse [^\n]*"@
    ||| p == "\n#[^\n]*"@
    ||| p == "\nimpl [^\n]*\\}[ \t]*(?:\n|$)|\nimpl .*?\n}.*?\n?"@
    ||| p == "\n\n+"@
}

/// What `regex::Regex::replace_all` gives for the regular expression `pattern`,
/// built with `.` matching line breaks too, on `text` with `replacement`.
pub uninterp spec fn regex_replaced(pattern: Seq<char>, text: Seq<char>, replacement: Seq<char>) -> Seq<char>;

/// Relies on `regex::RegexBuilder` with `dot_matches_new_line(true)` and on
/// `regex::Regex::replace_all`: every leftmost non-overlapping match of `pattern`
/// in `text` is replaced by `replacement`. The result depends on the three texts
/// alone. With `(?m)^`, which matches at the start of the text and after every
/// `\n` (no `.` in it), each line gets `replacement` in front. Building fails only
/// for an invalid pattern, which `requires` leaves out.
#[verifier::external_body]
pub(crate) fn regex_replace_all(pattern: &str, text: &str, replacement: &str) -> (r: String)
    requires
        known_pattern(pattern@),
    ensures
        r@ == regex_replaced(pattern@, text@, replacement@),
        pattern@ == "(?m)^"@ && replacement@ == "# "@ ==> r@ == commented_lines(text@),
{
    let re = regex::RegexBuilder::new(pattern).dot_matches_new_line(true).build().expect("valid pattern");
    re.replace_all(text, replacement).into_owned()
}

/// The source texts joined: a line break, then each text after a blank line.
pub open spec fn merged_sources(srcs: Seq<Seq<char>>) -> Seq<char>
    decreases srcs.len(),
{
    if srcs.len() == 0 {
        "\n"@
    } else {
        merged_sources(srcs.drop_last()) + "\n\n"@ + srcs.last()
    }
}

/// The views of a list of strings.
pub open spec fn texts_of(v: Seq<String>) -> Seq<Seq<char>> {
    v.map_values(|s: String| s@)
}

/// The removal rules applied in order to `merged`: file doc comments, `mod` and
/// `pub use` lines, `use` lines, attribute lines and `impl` blocks go, and runs of
/// empty lines shrink to one. An `impl` block is either a line that closes its
/// own body, or everything from its first line to the next `}` that starts a line.
pub open spec fn config_docs(merged: Seq<char>) -> Seq<char> {
    let t1 = regex_replaced("\n//![^\n]*"@, merged, ""@);
    let t2 = regex_replaced("\nmod [^\n]*|\npub use [^\n]*"@, t1, ""@);
    let t3 = regex_replaced("\nuse [^\n]*"@, t2, ""@);
    let t4 = regex_replaced("\n#[^\n]*"@, t3, ""@);
    let t5 = regex_replaced("\nimpl [^\n]*\\}[ \t]*(?:\n|$)|\nimpl .*?\n}.*?\n?"@, t4, "\n"@);
    regex_replaced("\n\n+"@, t5, "\n\n"@)
}

/// The documentation of the configuration models whose source texts are `sources`,
/// to be placed beside a configuration file.
pub fn documented_config_models(sources: &Vec<String>) -> (r: String)
    ensures
        r@ == config_docs(merged_sources(texts_of(sources@))),
{
    let mut merged_docs = String::from_str("\n");
    let mut i: usize = 0;
    while i < sources.len()
        invariant
            i <= sources@.len(),
            merged_docs@ == merged_sources(texts_of(sources@.take(i as int))),
        decreases sources@.len() - i,
    {
        merged_docs.append("\n\n");
        merged_docs.append(sources[i].as_str());
        proof {
            let next = texts_of(sources@.take(i + 1));
            assert(next.drop_last() =~= texts_of(sources@.take(i as int)));
            assert(next.last() == sources@[i as int]@);
        }
        i = i + 1;
    }
    assert(sources@.take(sources@.len() as int) =~= sources@);
    let t1 = regex_replace_all("\n//![^\n]*", merged_docs.as_str(), "");
    let t2 = regex_replace_all("\nmod [^\n]*|\npub use [^\n]*", t1.as_str(), "");
    let t3 = regex_replace_all("\nuse [^\n]*", t2.as_str(), "");
    let t4 = regex_replace_all("\n#[^\n]*", t3.as_str(), "");
    let t5 = regex_replace_all("\nimpl [^\n]*\\}[ \t]*(?:\n|$)|\nimpl .*?\n}.*?\n?", t4.as_str(), "\n");
    regex_replace_all("\n\n+", t5.as_str(), "\n\n")
}

} // verus!
