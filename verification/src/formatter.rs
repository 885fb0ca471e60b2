//! Rendering of a tab name from a folder, an optional git branch and the
//! configured limits.

use crate::string_map::lookup;
use crate::text::{parse_usize, parsed_usize, same_text};
use std::collections::BTreeMap;
use vstd::prelude::*;

verus! {

/// Limits and layout of a tab name.
///
/// No combination of values is invalid: limits that leave no room for a
/// prefix, an ellipsis and a suffix make [`truncate`] cut plainly.
#[derive(Debug, Clone)]
pub struct FormatterConfig {
    /// Most characters shown of the folder name.
    pub folder_max_len: usize,
    /// Characters kept from the start of a folder name that is too long.
    pub folder_prefix_len: usize,
    /// Characters kept from the end of a folder name that is too long.
    pub folder_suffix_len: usize,
    /// Most characters shown of the branch name.
    pub branch_max_len: usize,
    /// Characters kept from the start of a branch name that is too long.
    pub branch_prefix_len: usize,
    /// Characters kept from the end of a branch name that is too long.
    pub branch_suffix_len: usize,
    /// Text between the folder and the branch.
    pub separator: String,
    /// Whether the branch is shown at all.
    pub show_branch: bool,
}

/// What a [`FormatterConfig`] says, as mathematical values.
pub struct ConfigModel {
    pub folder_max_len: nat,
    pub folder_prefix_len: nat,
    pub folder_suffix_len: nat,
    pub branch_max_len: nat,
    pub branch_prefix_len: nat,
    pub branch_suffix_len: nat,
    pub separator: Seq<char>,
    pub show_branch: bool,
}

impl View for FormatterConfig {
    type V = ConfigModel;

    open spec fn view(&self) -> ConfigModel {
        ConfigModel {
            folder_max_len: self.folder_max_len as nat,
            folder_prefix_len: self.folder_prefix_len as nat,
            folder_suffix_len: self.folder_suffix_len as nat,
            branch_max_len: self.branch_max_len as nat,
            branch_prefix_len: self.branch_prefix_len as nat,
            branch_suffix_len: self.branch_suffix_len as nat,
            separator: self.separator@,
            show_branch: self.show_branch,
        }
    }
}

/// The configuration in force where no option is set: a folder of up to 10
/// characters (5 and 4 kept around the ellipsis), a branch of up to 5 (1 and
/// 4), `:` between them, branch shown.
pub open spec fn default_config() -> ConfigModel {
    ConfigModel {
        folder_max_len: 10,
        folder_prefix_len: 5,
        folder_suffix_len: 4,
        branch_max_len: 5,
        branch_prefix_len: 1,
        branch_suffix_len: 4,
        separator: seq![':'],
        show_branch: true,
    }
}

impl Default for FormatterConfig {
    fn default() -> (config: Self)
        ensures
            config@ == default_config(),
    {
        let separator = ":".to_owned();
        proof {
            reveal_strlit(":");
            assert(separator@ =~= seq![':']);
        }
        FormatterConfig {
            folder_max_len: 10,
            folder_prefix_len: 5,
            folder_suffix_len: 4,
            branch_max_len: 5,
            branch_prefix_len: 1,
            branch_suffix_len: 4,
            separator,
            show_branch: true,
        }
    }
}

/// The value of a numeric option: the number that the text under `key`
/// spells, or `fallback` where `key` is absent or its text is no number.
pub open spec fn numeric_option(
    options: Map<Seq<char>, Seq<char>>,
    key: Seq<char>,
    fallback: nat,
) -> nat {
    if options.contains_key(key) {
        match parsed_usize(options[key]) {
            Some(n) => n as nat,
            None => fallback,
        }
    } else {
        fallback
    }
}

/// The configuration that a map of options describes. Each option that is
/// absent keeps its default, and so does a numeric one that does not parse.
/// The separator is taken as it stands. The branch is hidden only by the exact
/// value `false`.
pub open spec fn config_from_options(options: Map<Seq<char>, Seq<char>>) -> ConfigModel {
    let d = default_config();
    ConfigModel {
        folder_max_len: numeric_option(options, "folder_max_len"@, d.folder_max_len),
        folder_prefix_len: numeric_option(options, "folder_prefix_len"@, d.folder_prefix_len),
        folder_suffix_len: numeric_option(options, "folder_suffix_len"@, d.folder_suffix_len),
        branch_max_len: numeric_option(options, "branch_max_len"@, d.branch_max_len),
        branch_prefix_len: numeric_option(options, "branch_prefix_len"@, d.branch_prefix_len),
        branch_suffix_len: numeric_option(options, "branch_suffix_len"@, d.branch_suffix_len),
        separator: if options.contains_key("separator"@) {
            options["separator"@]
        } else {
            d.separator
        },
        show_branch: if options.contains_key("show_branch"@) {
            options["show_branch"@] != "false"@
        } else {
            d.show_branch
        },
    }
}

/// Reads one numeric option.
fn read_number(options: &BTreeMap<String, String>, key: &str, fallback: usize) -> (n: usize)
    ensures
        n as nat == numeric_option(options.deep_view(), key@, fallback as nat),
{
    match lookup(options, key) {
        Some(text) => match parse_usize(text.as_str()) {
            Some(n) => n,
            None => fallback,
        },
        None => fallback,
    }
}

impl FormatterConfig {
    /// Builds the configuration from the plugin's options. Nothing is
    /// rejected: what cannot be used is passed over.
    pub fn from_config(config: &BTreeMap<String, String>) -> (result: Self)
        ensures
            result@ == config_from_options(config.deep_view()),
    {
        let defaults = FormatterConfig::default();
        let show_branch = match lookup(config, "show_branch") {
            Some(v) => !same_text(v.as_str(), "false"),
            None => defaults.show_branch,
        };
        let separator = match lookup(config, "separator") {
            Some(v) => v.clone(),
            None => defaults.separator,
        };
        FormatterConfig {
            folder_max_len: read_number(config, "folder_max_len", defaults.folder_max_len),
            folder_prefix_len: read_number(config, "folder_prefix_len", defaults.folder_prefix_len),
            folder_suffix_len: read_number(config, "folder_suffix_len", defaults.folder_suffix_len),
            branch_max_len: read_number(config, "branch_max_len", defaults.branch_max_len),
            branch_prefix_len: read_number(config, "branch_prefix_len", defaults.branch_prefix_len),
            branch_suffix_len: read_number(config, "branch_suffix_len", defaults.branch_suffix_len),
            separator,
            show_branch,
        }
    }
}

/// The ellipsis that marks what truncation left out.
pub open spec fn ellipsis() -> Seq<char> {
    seq!['\u{2026}']
}

/// Whether a string of `len` characters is cut to its first `max_len`
/// characters, rather than to a prefix and a suffix around an ellipsis:
/// when no prefix or suffix is asked for, when they and the ellipsis would
/// not fit in `max_len`, or when they would cover the whole string.
pub open spec fn cuts_plainly(len: nat, max_len: nat, prefix_len: nat, suffix_len: nat) -> bool {
    ||| prefix_len == 0 && suffix_len == 0
    ||| prefix_len + 1 + suffix_len > max_len
    ||| prefix_len + suffix_len >= len
}

/// `s` shortened to at most `max_len` characters.
///
/// A string that fits is left alone. A longer one keeps its first
/// `prefix_len` and its last `suffix_len` characters around an ellipsis, or,
/// where [`cuts_plainly`] holds, just its first `max_len` characters.
pub open spec fn truncated(s: Seq<char>, max_len: nat, prefix_len: nat, suffix_len: nat) -> Seq<
    char,
> {
    if s.len() <= max_len {
        s
    } else if cuts_plainly(s.len(), max_len, prefix_len, suffix_len) {
        s.take(max_len as int)
    } else {
        s.take(prefix_len as int) + ellipsis() + s.skip(s.len() - suffix_len)
    }
}

/// Truncation never leaves more than `max_len` characters, so truncating
/// its own result again changes nothing.
pub proof fn lemma_truncated_idempotent(s: Seq<char>, max_len: nat, prefix_len: nat, suffix_len: nat)
    ensures
        truncated(s, max_len, prefix_len, suffix_len).len() <= max_len,
        truncated(truncated(s, max_len, prefix_len, suffix_len), max_len, prefix_len, suffix_len)
            == truncated(s, max_len, prefix_len, suffix_len),
{
}

/// Shortens `s` to at most `max_len` characters, counted as code points.
pub fn truncate(s: &str, max_len: usize, prefix_len: usize, suffix_len: usize) -> (out: String)
    ensures
        out@ == truncated(s@, max_len as nat, prefix_len as nat, suffix_len as nat),
        s@.len() <= max_len ==> out@ == s@,
        out@.len() <= max_len,
{
    let char_count: usize = s.unicode_len();
    if char_count <= max_len {
        return s.to_owned();
    }
    if prefix_len == 0 && suffix_len == 0 {
        return s.substring_char(0, max_len).to_owned();
    }
    if prefix_len >= max_len || suffix_len > max_len - prefix_len - 1 {
        return s.substring_char(0, max_len).to_owned();
    }
    let mut out = s.substring_char(0, prefix_len).to_owned();
    out.append("\u{2026}");
    out.append(s.substring_char(char_count - suffix_len, char_count));
    proof {
        reveal_strlit("\u{2026}");
        assert("\u{2026}"@ =~= ellipsis());
        assert(s@.subrange(char_count - suffix_len, char_count as int) =~= s@.skip(
            char_count - suffix_len,
        ));
    }
    out
}

/// The tab name for a folder and, where there is one, a branch: the folder
/// truncated to its limits, followed, if the branch is shown, by the
/// separator and the branch truncated to its limits. A branch that is
/// present but empty still brings the separator.
pub open spec fn tab_name(folder: Seq<char>, branch: Option<Seq<char>>, config: ConfigModel) -> Seq<
    char,
> {
    let folder_display = truncated(
        folder,
        config.folder_max_len,
        config.folder_prefix_len,
        config.folder_suffix_len,
    );
    match branch {
        Some(b) if config.show_branch => folder_display + config.separator + truncated(
            b,
            config.branch_max_len,
            config.branch_prefix_len,
            config.branch_suffix_len,
        ),
        _ => folder_display,
    }
}

/// Where the branch is not shown, the tab name is that of the folder alone,
/// whatever the branch.
pub proof fn lemma_hidden_branch(folder: Seq<char>, branch: Option<Seq<char>>, config: ConfigModel)
    requires
        !config.show_branch,
    ensures
        tab_name(folder, branch, config) == tab_name(folder, None, config),
        tab_name(folder, branch, config) == truncated(
            folder,
            config.folder_max_len,
            config.folder_prefix_len,
            config.folder_suffix_len,
        ),
{
}

/// The view of an optional string.
pub open spec fn view_of(text: Option<&str>) -> Option<Seq<char>> {
    match text {
        Some(t) => Some(t@),
        None => None,
    }
}

/// Renders the tab name for `folder` and `branch`.
pub fn format_tab_name(folder: &str, branch: Option<&str>, config: &FormatterConfig) -> (name:
    String)
    ensures
        name@ == tab_name(folder@, view_of(branch), config@),
        !config.show_branch ==> name@ == tab_name(folder@, None, config@),
{
    let folder_display = truncate(
        folder,
        config.folder_max_len,
        config.folder_prefix_len,
        config.folder_suffix_len,
    );
    match branch {
        Some(b) if config.show_branch => {
            let branch_display = truncate(
                b,
                config.branch_max_len,
                config.branch_prefix_len,
                config.branch_suffix_len,
            );
            let mut name = folder_display;
            name.append(config.separator.as_str());
            name.append(branch_display.as_str());
            name
        },
        _ => folder_display,
    }
}

} // verus!
