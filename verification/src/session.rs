//! The session: what the plugin remembers between events, and what it
//! decides on each of them.
//!
//! The host delivers events one at a time. Each handler takes the state and
//! an event to the next state and to an [`Action`] for the caller to carry
//! out. A branch lookup is asked for with one action and answered by a
//! later event; the answer is matched to the question by the path in its
//! payload, so that a late answer for a directory that was left cannot
//! rename the tab.

use crate::branch::{
    branch_in, build_command_context, build_command_line, command_context, command_line,
    is_our_command, is_ours, lossy_text, parse_git_branch,
};
use crate::context::{folder_of, PaneContext};
use crate::formatter::{
    config_from_options, default_config, format_tab_name, tab_name, ConfigModel, FormatterConfig,
};
use crate::string_map::lookup;
use crate::text::{same_text, trim, trimmed};
use crate::title::{extract_cwd_from_title, extracted_cwd};
use std::collections::BTreeMap;
use vstd::prelude::*;

verus! {

/// A tab, as the host reports it.
#[derive(Debug, Clone, PartialEq, Eq)]
pub struct Tab {
    /// Position of the tab, from 0.
    pub position: usize,
    /// Name of the tab.
    pub name: String,
    /// Whether this is the tab in use.
    pub active: bool,
}

/// A pane, as the host reports it.
#[derive(Debug, Clone, PartialEq, Eq)]
pub struct Pane {
    /// Title of the pane, as the program in it set it.
    pub title: String,
    /// Whether the pane has the focus within its tab.
    pub is_focused: bool,
    /// Whether the pane shows a plugin rather than a terminal.
    pub is_plugin: bool,
}

/// What the host reports.
#[derive(Debug, Clone, PartialEq, Eq)]
pub enum Event {
    /// The tabs changed.
    TabUpdate(Vec<Tab>),
    /// The panes changed: all panes, tab by tab.
    PaneUpdate(Vec<Pane>),
    /// A command ended.
    CommandResult {
        /// Exit code, where the command ran to its end.
        exit_code: Option<i32>,
        /// What the command wrote to standard output.
        stdout: Vec<u8>,
        /// The payload that was sent along with the command.
        context: BTreeMap<String, String>,
    },
    /// Anything else.
    Other,
}

/// What the caller is to do after an event.
#[derive(Debug, Clone, PartialEq, Eq)]
pub enum Action {
    /// Nothing.
    Nothing,
    /// Run a command and report its result with this payload.
    RunCommand {
        /// Argument vector, program first.
        args: Vec<String>,
        /// Payload to come back with the result.
        context: BTreeMap<String, String>,
    },
    /// Rename a tab.
    RenameTab {
        /// Position of the tab.
        index: usize,
        /// Its new name.
        name: String,
    },
}

/// An [`Action`] as mathematical values.
pub enum ActionModel {
    Nothing,
    RunCommand { args: Seq<Seq<char>>, context: Map<Seq<char>, Seq<char>> },
    RenameTab { index: nat, name: Seq<char> },
}

impl View for Action {
    type V = ActionModel;

    open spec fn view(&self) -> ActionModel {
        match self {
            Action::Nothing => ActionModel::Nothing,
            Action::RunCommand { args, context } => ActionModel::RunCommand {
                args: args.deep_view(),
                context: context.deep_view(),
            },
            Action::RenameTab { index, name } => ActionModel::RenameTab {
                index: *index as nat,
                name: name@,
            },
        }
    }
}

/// What the plugin remembers between events.
#[derive(Debug, Clone)]
pub struct State {
    /// The configuration in force.
    pub config: FormatterConfig,
    /// The working directory last seen in the focused pane.
    pub current_cwd: Option<String>,
    /// Position of the active tab.
    pub current_tab_index: usize,
    /// Name of the active tab, as last reported or last applied.
    pub current_tab_name: String,
}

/// A [`State`] as mathematical values.
pub struct StateModel {
    pub config: ConfigModel,
    pub current_cwd: Option<Seq<char>>,
    pub current_tab_index: nat,
    pub current_tab_name: Seq<char>,
}

impl View for State {
    type V = StateModel;

    open spec fn view(&self) -> StateModel {
        StateModel {
            config: self.config@,
            current_cwd: match self.current_cwd {
                Some(cwd) => Some(cwd@),
                None => None,
            },
            current_tab_index: self.current_tab_index as nat,
            current_tab_name: self.current_tab_name@,
        }
    }
}

/// The state before any event: default configuration, no directory seen,
/// tab 0 with an empty name.
pub open spec fn initial_state() -> StateModel {
    StateModel {
        config: default_config(),
        current_cwd: None,
        current_tab_index: 0,
        current_tab_name: Seq::empty(),
    }
}

/// The first active tab of `tabs`.
pub open spec fn active_tab(tabs: Seq<Tab>) -> Option<Tab>
    decreases tabs.len(),
{
    if tabs.len() == 0 {
        None
    } else if tabs.first().active {
        Some(tabs.first())
    } else {
        active_tab(tabs.drop_first())
    }
}

/// The first pane of `panes` that has the focus and is no plugin.
pub open spec fn focused_pane(panes: Seq<Pane>) -> Option<Pane>
    decreases panes.len(),
{
    if panes.len() == 0 {
        None
    } else if panes.first().is_focused && !panes.first().is_plugin {
        Some(panes.first())
    } else {
        focused_pane(panes.drop_first())
    }
}

/// The state after the host reported `tabs`: position and name of the
/// active tab are taken over, if there is one.
pub open spec fn after_tab_update(state: StateModel, tabs: Seq<Tab>) -> StateModel {
    match active_tab(tabs) {
        Some(tab) => StateModel {
            current_tab_index: tab.position as nat,
            current_tab_name: tab.name@,
            ..state
        },
        None => state,
    }
}

/// Applying `name` to the active tab: a rename that is recorded, unless the
/// tab has that name already.
pub open spec fn rename_step(state: StateModel, name: Seq<char>) -> (StateModel, ActionModel) {
    if name == state.current_tab_name {
        (state, ActionModel::Nothing)
    } else {
        (
            StateModel { current_tab_name: name, ..state },
            ActionModel::RenameTab { index: state.current_tab_index, name },
        )
    }
}

/// The lookup of the branch in `path`.
pub open spec fn lookup_action(path: Seq<char>) -> ActionModel {
    ActionModel::RunCommand { args: command_line(path), context: command_context(path) }
}

/// What follows from a look at the focused pane's title.
///
/// A title that shows a directory other than the one tracked makes that
/// directory the tracked one and asks for its branch. A title that shows
/// the tracked directory changes nothing. A title that shows no directory
/// names the tab itself, trimmed and truncated as a folder, unless nothing
/// is left of it.
pub open spec fn title_step(state: StateModel, title: Seq<char>) -> (StateModel, ActionModel) {
    match extracted_cwd(title) {
        Some(cwd) => if state.current_cwd == Some(cwd) {
            (state, ActionModel::Nothing)
        } else {
            (StateModel { current_cwd: Some(cwd), ..state }, lookup_action(cwd))
        },
        None => {
            let folder = trimmed(title);
            if folder.len() == 0 {
                (state, ActionModel::Nothing)
            } else {
                rename_step(state, tab_name(folder, None, state.config))
            }
        },
    }
}

/// What follows from a report of the panes: [`title_step`] on the title of
/// the focused pane, nothing where no terminal pane has the focus.
pub open spec fn pane_step(state: StateModel, panes: Seq<Pane>) -> (StateModel, ActionModel) {
    match focused_pane(panes) {
        Some(pane) => title_step(state, pane.title@),
        None => (state, ActionModel::Nothing),
    }
}

/// Whether a command result with this payload answers the lookup for the
/// directory now tracked: it carries the source tag and the tracked path.
pub open spec fn answers_current_lookup(
    state: StateModel,
    context: Map<Seq<char>, Seq<char>>,
) -> bool {
    &&& is_ours(context)
    &&& context.contains_key("path"@)
    &&& state.current_cwd == Some(context["path"@])
}

/// What follows from the result of a command, its output already decoded.
///
/// A result that does not answer the current lookup is dropped. Otherwise
/// the tab is named after the folder of the path and the branch in the
/// output; an exit code other than 0 means no branch.
pub open spec fn result_step(
    state: StateModel,
    exit_code: Option<i32>,
    output: Seq<char>,
    context: Map<Seq<char>, Seq<char>>,
) -> (StateModel, ActionModel) {
    if answers_current_lookup(state, context) {
        let branch = if exit_code == Some(0i32) {
            branch_in(output)
        } else {
            None
        };
        rename_step(state, tab_name(folder_of(context["path"@]), branch, state.config))
    } else {
        (state, ActionModel::Nothing)
    }
}

/// What follows from an event.
pub open spec fn step(state: StateModel, event: Event) -> (StateModel, ActionModel) {
    match event {
        Event::TabUpdate(tabs) => (after_tab_update(state, tabs@), ActionModel::Nothing),
        Event::PaneUpdate(panes) => pane_step(state, panes@),
        Event::CommandResult { exit_code, stdout, context } => result_step(
            state,
            exit_code,
            lossy_text(stdout@),
            context.deep_view(),
        ),
        Event::Other => (state, ActionModel::Nothing),
    }
}

/// A command result that does not answer the lookup for the directory now
/// tracked, because it names another path or none, changes nothing and
/// renames nothing, whatever the command printed.
pub proof fn lemma_stale_result_dropped(
    state: StateModel,
    exit_code: Option<i32>,
    output: Seq<char>,
    context: Map<Seq<char>, Seq<char>>,
)
    requires
        context.contains_key("path"@) ==> state.current_cwd != Some(context["path"@]),
    ensures
        result_step(state, exit_code, output, context) == (state, ActionModel::Nothing),
{
}

/// A command result without the source tag of this plugin changes nothing
/// and renames nothing.
pub proof fn lemma_foreign_result_dropped(
    state: StateModel,
    exit_code: Option<i32>,
    output: Seq<char>,
    context: Map<Seq<char>, Seq<char>>,
)
    requires
        !is_ours(context),
    ensures
        result_step(state, exit_code, output, context) == (state, ActionModel::Nothing),
{
}

/// Every rename is recorded: an event that renames the tab names the tab at
/// the recorded position, gives it a name other than the recorded one, and
/// leaves that name recorded, with nothing else changed.
pub proof fn lemma_rename_is_recorded(state: StateModel, event: Event)
    ensures
        match step(state, event).1 {
            ActionModel::RenameTab { index, name } => {
                &&& index == state.current_tab_index
                &&& name != state.current_tab_name
                &&& step(state, event).0 == (StateModel { current_tab_name: name, ..state })
            },
            _ => true,
        },
{
}

/// No event changes the configuration.
pub proof fn lemma_step_keeps_config(state: StateModel, event: Event)
    ensures
        step(state, event).0.config == state.config,
{
}

impl Default for State {
    fn default() -> (state: Self)
        ensures
            state@ == initial_state(),
    {
        State {
            config: FormatterConfig::default(),
            current_cwd: None,
            current_tab_index: 0,
            current_tab_name: String::new(),
        }
    }
}

impl State {
    /// Takes over the plugin's options; the rest of the state stays.
    pub fn load(&mut self, configuration: &BTreeMap<String, String>)
        ensures
            final(self)@ == (StateModel {
                config: config_from_options(configuration.deep_view()),
                ..old(self)@
            }),
    {
        self.config = FormatterConfig::from_config(configuration);
    }

    /// Decides what an event leads to, and remembers what it changes.
    pub fn update(&mut self, event: Event) -> (action: Action)
        ensures
            (final(self)@, action@) == step(old(self)@, event),
    {
        match event {
            Event::TabUpdate(tabs) => {
                self.handle_tab_update(&tabs);
                Action::Nothing
            },
            Event::PaneUpdate(panes) => self.handle_pane_update(&panes),
            Event::CommandResult { exit_code, stdout, context } => self.handle_command_result(
                exit_code,
                stdout.as_slice(),
                &context,
            ),
            Event::Other => Action::Nothing,
        }
    }

    /// Takes over position and name of the active tab.
    pub fn handle_tab_update(&mut self, tabs: &Vec<Tab>)
        ensures
            final(self)@ == after_tab_update(old(self)@, tabs@),
    {
        let mut i: usize = 0;
        assert(tabs@.skip(0) =~= tabs@);
        while i < tabs.len()
            invariant
                i <= tabs.len(),
                *self == *old(self),
                active_tab(tabs@) == active_tab(tabs@.skip(i as int)),
            decreases tabs.len() - i,
        {
            if tabs[i].active {
                self.current_tab_index = tabs[i].position;
                self.current_tab_name = tabs[i].name.clone();
                return ;
            }
            assert(tabs@.skip(i as int).drop_first() =~= tabs@.skip(i + 1));
            i += 1;
        }
    }

    /// Looks at the title of the focused pane.
    pub fn handle_pane_update(&mut self, panes: &Vec<Pane>) -> (action: Action)
        ensures
            (final(self)@, action@) == pane_step(old(self)@, panes@),
    {
        let mut i: usize = 0;
        assert(panes@.skip(0) =~= panes@);
        while i < panes.len()
            invariant
                i <= panes.len(),
                *self == *old(self),
                focused_pane(panes@) == focused_pane(panes@.skip(i as int)),
            decreases panes.len() - i,
        {
            if panes[i].is_focused && !panes[i].is_plugin {
                return self.handle_title(panes[i].title.as_str());
            }
            assert(panes@.skip(i as int).drop_first() =~= panes@.skip(i + 1));
            i += 1;
        }
        Action::Nothing
    }

    /// Follows the title of the focused pane: to a lookup, to a rename, or
    /// to nothing.
    pub fn handle_title(&mut self, title: &str) -> (action: Action)
        ensures
            (final(self)@, action@) == title_step(old(self)@, title@),
    {
        match extract_cwd_from_title(title) {
            Some(cwd) => {
                let known = match &self.current_cwd {
                    Some(current) => same_text(current.as_str(), cwd.as_str()),
                    None => false,
                };
                if known {
                    Action::Nothing
                } else {
                    let action = self.request_git_branch(cwd.as_str());
                    self.current_cwd = Some(cwd);
                    action
                }
            },
            None => {
                let folder = trim(title);
                if folder.is_empty() {
                    Action::Nothing
                } else {
                    let name = format_tab_name(folder, None, &self.config);
                    self.rename(name)
                }
            },
        }
    }

    /// The lookup of the branch in `path`.
    pub fn request_git_branch(&self, path: &str) -> (action: Action)
        ensures
            action@ == lookup_action(path@),
    {
        Action::RunCommand {
            args: build_command_line(path),
            context: build_command_context(path),
        }
    }

    /// The path that a command result is about, if the result answers the
    /// lookup for the directory now tracked.
    fn awaited_path<'a>(&self, context: &'a BTreeMap<String, String>) -> (path: Option<
        &'a String,
    >)
        ensures
            match path {
                Some(p) => answers_current_lookup(self@, context.deep_view())
                    && p@ == context.deep_view()["path"@],
                None => !answers_current_lookup(self@, context.deep_view()),
            },
    {
        if !is_our_command(context) {
            return None;
        }
        match lookup(context, "path") {
            Some(path) => match &self.current_cwd {
                Some(current) => if same_text(current.as_str(), path.as_str()) {
                    Some(path)
                } else {
                    None
                },
                None => None,
            },
            None => None,
        }
    }

    /// Takes in the result of a command. One that does not answer the
    /// lookup for the directory now tracked changes nothing.
    pub fn handle_command_result(
        &mut self,
        exit_code: Option<i32>,
        stdout: &[u8],
        context: &BTreeMap<String, String>,
    ) -> (action: Action)
        ensures
            (final(self)@, action@) == result_step(
                old(self)@,
                exit_code,
                lossy_text(stdout@),
                context.deep_view(),
            ),
            !answers_current_lookup(old(self)@, context.deep_view()) ==> final(self)@ == old(
                self,
            )@ && action@ == ActionModel::Nothing,
    {
        match self.awaited_path(context) {
            Some(path) => {
                let branch = match exit_code {
                    Some(0) => parse_git_branch(stdout),
                    _ => None,
                };
                self.apply_lookup(PaneContext { cwd: path.clone(), branch })
            },
            None => Action::Nothing,
        }
    }

    /// Names the active tab after a directory and its branch.
    pub fn apply_lookup(&mut self, context: PaneContext) -> (action: Action)
        ensures
            (final(self)@, action@) == rename_step(
                old(self)@,
                tab_name(folder_of(context.cwd@), context.branch_view(), old(self)@.config),
            ),
    {
        let branch = match &context.branch {
            Some(b) => Some(b.as_str()),
            None => None,
        };
        let name = format_tab_name(context.folder_name(), branch, &self.config);
        self.rename(name)
    }

    /// Applies `name` to the active tab, unless it has that name already.
    fn rename(&mut self, name: String) -> (action: Action)
        ensures
            (final(self)@, action@) == rename_step(old(self)@, name@),
    {
        if same_text(name.as_str(), self.current_tab_name.as_str()) {
            Action::Nothing
        } else {
            self.current_tab_name = name.clone();
            Action::RenameTab { index: self.current_tab_index, name }
        }
    }
}

} // verus!
