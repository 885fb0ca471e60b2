//! The lookup of a git branch: which command resolves it, what travels with
//! the command, and what its output means.
//!
//! The command is run by the host. This module only says what to run and
//! how to read the result.

use crate::string_map::{empty_map, lookup, store};
use crate::text::{is_blank, lemma_blank_trims_to_nothing, same_text, trim, trimmed};
use std::collections::BTreeMap;
use vstd::prelude::*;
use vstd::utf8::*;

verus! {

/// The shell script that prints the branch checked out in the directory
/// given as its first argument, and fails outside a repository.
pub const GIT_BRANCH_SCRIPT: &'static str = "git -C \"$1\" rev-parse --abbrev-ref HEAD 2>/dev/null";

/// The value under `source` in the payload of every command sent from here.
pub const SOURCE_TAG: &'static str = "namey";

/// The payload sent along with a lookup for `path`: the source tag and the
/// path.
pub open spec fn command_context(path: Seq<char>) -> Map<Seq<char>, Seq<char>> {
    Map::<Seq<char>, Seq<char>>::empty().insert("source"@, SOURCE_TAG@).insert("path"@, path)
}

/// Whether a payload carries the source tag of this plugin.
pub open spec fn is_ours(context: Map<Seq<char>, Seq<char>>) -> bool {
    context.contains_key("source"@) && context["source"@] == SOURCE_TAG@
}

/// Builds the payload for a lookup of the branch in `path`.
pub fn build_command_context(path: &str) -> (context: BTreeMap<String, String>)
    ensures
        context.deep_view() == command_context(path@),
{
    let mut context = empty_map();
    store(&mut context, "source".to_owned(), SOURCE_TAG.to_owned());
    store(&mut context, "path".to_owned(), path.to_owned());
    context
}

/// Whether a command result answers a command sent from here.
pub fn is_our_command(context: &BTreeMap<String, String>) -> (ours: bool)
    ensures
        ours == is_ours(context.deep_view()),
{
    match lookup(context, "source") {
        Some(source) => same_text(source.as_str(), SOURCE_TAG),
        None => false,
    }
}

/// The argument vector of the lookup for `path`: a shell that runs
/// [`GIT_BRANCH_SCRIPT`] with `path` as its first argument.
pub open spec fn command_line(path: Seq<char>) -> Seq<Seq<char>> {
    seq!["bash"@, "-c"@, GIT_BRANCH_SCRIPT@, "_"@, path]
}

/// Builds the argument vector of the lookup for `path`.
pub fn build_command_line(path: &str) -> (args: Vec<String>)
    ensures
        args.deep_view() == command_line(path@),
{
    let mut args: Vec<String> = Vec::new();
    args.push("bash".to_owned());
    args.push("-c".to_owned());
    args.push(GIT_BRANCH_SCRIPT.to_owned());
    args.push("_".to_owned());
    args.push(path.to_owned());
    assert(args.deep_view() =~= command_line(path@));
    args
}

/// The branch that the output of the lookup names: the output without the
/// whitespace and line ends around it, unless nothing is left.
pub open spec fn branch_in(output: Seq<char>) -> Option<Seq<char>> {
    let name = trimmed(output);
    if name.len() == 0 {
        None
    } else {
        Some(name)
    }
}

/// Reads the branch out of the decoded output of the lookup.
pub fn branch_from_text(output: &str) -> (branch: Option<String>)
    ensures
        match branch {
            Some(b) => branch_in(output@) == Some(b@),
            None => branch_in(output@) is None,
        },
{
    let name = trim(output);
    if name.is_empty() {
        None
    } else {
        Some(name.to_owned())
    }
}

/// The text that lossy decoding makes of `bytes`: each valid UTF-8 sequence
/// decoded, each invalid one replaced by U+FFFD.
pub uninterp spec fn lossy_text(bytes: Seq<u8>) -> Seq<char>;

/// `String::from_utf8_lossy`. Not proved: that its result is a function of
/// the bytes alone, here called [`lossy_text`], and that it decodes valid
/// UTF-8 to the characters it encodes.
#[verifier::external_body]
fn decode_lossy(bytes: &[u8]) -> (text: String)
    ensures
        text@ == lossy_text(bytes@),
        valid_utf8(bytes@) ==> text@ == decode_utf8(bytes@),
{
    String::from_utf8_lossy(bytes).into_owned()
}

/// Whether `bytes` holds nothing but ASCII whitespace: tab, line feed,
/// vertical tab, form feed, carriage return and space.
pub open spec fn is_ascii_blank(bytes: Seq<u8>) -> bool {
    forall|i: int| 0 <= i < bytes.len() ==> 9 <= #[trigger] bytes[i] <= 13 || bytes[i] == 32
}

/// ASCII bytes are valid UTF-8 and decode to the characters with their
/// numbers.
pub proof fn lemma_decode_ascii(bytes: Seq<u8>)
    requires
        forall|i: int| 0 <= i < bytes.len() ==> #[trigger] bytes[i] < 128,
    ensures
        valid_utf8(bytes),
        decode_utf8(bytes) == Seq::new(bytes.len(), |i: int| bytes[i] as char),
{
    let chars = Seq::new(bytes.len(), |i: int| bytes[i] as char);
    assert(is_ascii_chars(chars));
    is_ascii_chars_encode_utf8(chars);
    assert(encode_utf8(chars) =~= bytes);
    encode_utf8_valid_utf8(chars);
    encode_utf8_decode_utf8(chars);
}

/// Reads the branch out of the raw output of the lookup. Bytes that are not
/// valid UTF-8 are tolerated, not rejected.
pub fn parse_git_branch(stdout: &[u8]) -> (branch: Option<String>)
    ensures
        match branch {
            Some(b) => branch_in(lossy_text(stdout@)) == Some(b@),
            None => branch_in(lossy_text(stdout@)) is None,
        },
        valid_utf8(stdout@) ==> match branch {
            Some(b) => branch_in(decode_utf8(stdout@)) == Some(b@),
            None => branch_in(decode_utf8(stdout@)) is None,
        },
        is_ascii_blank(stdout@) ==> branch is None,
{
    let output = decode_lossy(stdout);
    proof {
        if is_ascii_blank(stdout@) {
            lemma_decode_ascii(stdout@);
            assert(is_blank(output@));
            lemma_blank_trims_to_nothing(output@);
        }
    }
    branch_from_text(output.as_str())
}

} // verus!
