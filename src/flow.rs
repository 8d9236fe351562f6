//! The decisions of the command line: which inputs are accepted, which language
//! is asked for first, and when the text is translated a second time.
use vstd::prelude::*;

verus! {

/// The word that asks for automatic choice of a language.
pub const AUTO: &'static str = "auto";

/// The target used first when the target is left to automatic choice.
pub const DEFAULT_TARGET: &'static str = "en";

/// The language that, detected under an automatic target, asks for a second pass.
pub const AUTO_SECOND_PASS_SOURCE: &'static str = "zh-CN";

/// Why a command line is refused before any request.
pub enum CliError {
    /// No words to translate were given.
    MissingText,
    /// The target code is neither `auto` nor supported.
    UnsupportedTarget(String),
    /// The source code is neither `auto` nor supported.
    UnsupportedSource(String),
}

fn same_text(a: &str, b: &str) -> (r: bool)
    ensures
        r == (a@ == b@),
{
    a.to_owned() == b.to_owned()
}

/// `code` is `auto` or one of `supported`.
pub open spec fn accepted_code(code: Seq<char>, supported: Seq<&str>) -> bool {
    code == AUTO@ || exists|i: int| 0 <= i < supported.len() && (#[trigger] supported[i])@ == code
}

/// Whether a language code may be given on the command line.
pub fn is_accepted_code(code: &str, supported: &[&str]) -> (r: bool)
    ensures
        r == accepted_code(code@, supported@),
{
    if same_text(code, AUTO) {
        return true;
    }
    let mut i: usize = 0;
    while i < supported.len()
        invariant
            i <= supported@.len(),
            code@ != AUTO@,
            forall|k: int| 0 <= k < i ==> (#[trigger] supported@[k])@ != code@,
        decreases supported@.len() - i,
    {
        if same_text(supported[i], code) {
            return true;
        }
        i = i + 1;
    }
    false
}

/// Checks a command line before any request is made: words are needed first,
/// then the target and the source must be accepted, in that order.
pub fn validate_request(words: &Vec<String>, target: &str, source: &str, supported: &[&str]) -> (r: Result<(), CliError>)
    ensures
        words@.len() == 0 ==> r matches Err(CliError::MissingText),
        words@.len() > 0 && !accepted_code(target@, supported@) ==> (r matches Err(
            CliError::UnsupportedTarget(c),
        ) && c@ == target@),
        words@.len() > 0 && accepted_code(target@, supported@) && !accepted_code(source@, supported@)
            ==> (r matches Err(CliError::UnsupportedSource(c)) && c@ == source@),
        words@.len() > 0 && accepted_code(target@, supported@) && accepted_code(source@, supported@)
            ==> r is Ok,
{
    if words.len() == 0 {
        Err(CliError::MissingText)
    } else if !is_accepted_code(target, supported) {
        Err(CliError::UnsupportedTarget(target.to_owned()))
    } else if !is_accepted_code(source, supported) {
        Err(CliError::UnsupportedSource(source.to_owned()))
    } else {
        Ok(())
    }
}

/// The words joined with single spaces.
pub open spec fn joined(words: Seq<Seq<char>>) -> Seq<char>
    decreases words.len(),
{
    if words.len() == 0 {
        Seq::empty()
    } else if words.len() == 1 {
        words[0]
    } else {
        joined(words.drop_last()) + seq![' '] + words.last()
    }
}

/// The text to translate: the words joined with single spaces.
pub fn join_words(words: &Vec<String>) -> (r: String)
    ensures
        r@ == joined(words@.map_values(|w: String| w@)),
{
    let mut out = String::new();
    let mut i: usize = 0;
    while i < words.len()
        invariant
            i <= words@.len(),
            out@ == joined(words@.take(i as int).map_values(|w: String| w@)),
        decreases words@.len() - i,
    {
        let ghost prev = words@.take(i as int).map_values(|w: String| w@);
        let ghost next = words@.take(i as int + 1).map_values(|w: String| w@);
        assert(next.drop_last() =~= prev);
        assert(next.len() == i + 1 && next.last() == words@[i as int]@);
        proof {
            reveal_strlit(" ");
        }
        if i > 0 {
            out.append(" ");
        }
        out.append(words[i].as_str());
        assert(out@ =~= joined(next));
        i = i + 1;
    }
    assert(words@.take(i as int) =~= words@);
    out
}

/// The target of the first request: the requested one, or the default under `auto`.
pub open spec fn first_target_of(target: Seq<char>) -> Seq<char> {
    if target == AUTO@ { DEFAULT_TARGET@ } else { target }
}

/// The target of the first request.
pub fn first_target(target: &str) -> (r: String)
    ensures
        r@ == first_target_of(target@),
{
    if same_text(target, AUTO) { DEFAULT_TARGET.to_owned() } else { target.to_owned() }
}

/// The text is taken to be in the target language already: the detected language
/// is the explicit target, or, under an automatic target, the designated source.
pub open spec fn needs_second_pass(target: Seq<char>, detected: Seq<char>) -> bool {
    (target != AUTO@ && detected == target) || (target == AUTO@ && detected == AUTO_SECOND_PASS_SOURCE@)
}

/// Whether the text is translated a second time, into the fallback language.
pub fn should_retranslate(target: &str, detected: &str) -> (r: bool)
    ensures
        r == needs_second_pass(target@, detected@),
{
    if same_text(target, AUTO) {
        same_text(detected, AUTO_SECOND_PASS_SOURCE)
    } else {
        same_text(detected, target)
    }
}

/// The target of the second request: the explicit source, or the default.
pub open spec fn fallback_target_of(source: Seq<char>) -> Seq<char> {
    if source == AUTO@ { DEFAULT_TARGET@ } else { source }
}

/// The target of the second request.
pub fn fallback_target(source: &str) -> (r: String)
    ensures
        r@ == fallback_target_of(source@),
{
    if same_text(source, AUTO) { DEFAULT_TARGET.to_owned() } else { source.to_owned() }
}

} // verus!
