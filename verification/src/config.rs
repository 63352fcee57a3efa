//! The pattern set that governs wrapping: allow and deny lists and the
//! masking flag, read from a configuration text and merged level by level.

use crate::pattern::{
    any_match, any_matches, clone_patterns, compilable, compiles, sources, Pattern,
};
use crate::settings::{
    document_fields, field_value, Document, Entry, EntryView, FieldView, Setting, SettingView,
};
use vstd::prelude::*;

verus! {

/// The configuration that is built in: package managers that start, build or
/// serve a project.
pub const DEFAULT_CONFIG: &'static str = "allow_commands = [\n    '^npm (run )?(start|dev|build)',\n    '^yarn (run )?(start|dev|build)',\n    '^pnpm (run )?(start|dev|build)',\n    '^bun (run )?(start|dev|build)',\n]\ndeny_commands = []\n";

/// Allow and deny patterns and the masking flag.
pub struct Config {
    /// A command that matches none of these is never wrapped.
    pub allow_commands: Vec<Pattern>,
    /// A command that matches one of these is never wrapped.
    pub deny_commands: Vec<Pattern>,
    /// Whether the resolver is told to print secrets unmasked; `None` where
    /// the level does not say.
    pub disable_masking: Option<bool>,
}

/// The model of a [`Config`]: its patterns by their source texts.
pub struct ConfigView {
    pub allow: Seq<Seq<char>>,
    pub deny: Seq<Seq<char>>,
    pub disable_masking: Option<bool>,
}

impl View for Config {
    type V = ConfigView;

    open spec fn view(&self) -> ConfigView {
        ConfigView {
            allow: sources(self.allow_commands@),
            deny: sources(self.deny_commands@),
            disable_masking: self.disable_masking,
        }
    }
}

/// The configuration that sets nothing.
pub open spec fn empty_view() -> ConfigView {
    ConfigView { allow: Seq::empty(), deny: Seq::empty(), disable_masking: None }
}

/// The text of a list element, where it is a string.
pub open spec fn entry_text(entry: EntryView) -> Option<Seq<char>> {
    match entry {
        EntryView::Text(text) => Some(text),
        EntryView::Other => None,
    }
}

/// The strings of a list; nothing where the value is absent or no list.
pub open spec fn list_texts(setting: Option<SettingView>) -> Seq<Seq<char>> {
    match setting {
        Some(SettingView::List(entries)) => entries.filter_map(|e: EntryView| entry_text(e)),
        _ => Seq::empty(),
    }
}

/// The boolean of a value; `None` where it is absent or no boolean.
pub open spec fn flag_of(setting: Option<SettingView>) -> Option<bool> {
    match setting {
        Some(SettingView::Flag(flag)) => Some(flag),
        _ => None,
    }
}

/// The field `key`, or where the document has none, the field `alias`.
pub open spec fn keyed(fields: Seq<FieldView>, key: Seq<char>, alias: Seq<char>) -> Option<
    SettingView,
> {
    match field_value(fields, key) {
        Some(value) => Some(value),
        None => field_value(fields, alias),
    }
}

/// What a document configures. A recognised key whose value has another
/// shape counts as unset; of a list, the strings that compile are kept.
pub open spec fn config_of(fields: Seq<FieldView>) -> ConfigView {
    ConfigView {
        allow: compilable(list_texts(keyed(fields, "allow_commands"@, "allowList"@))),
        deny: compilable(list_texts(keyed(fields, "deny_commands"@, "denyList"@))),
        disable_masking: flag_of(field_value(fields, "disable_masking"@)),
    }
}

/// What a configuration text configures; `None` where it cannot be read.
pub open spec fn loaded(text: Seq<char>) -> Option<ConfigView> {
    match document_fields(text) {
        Some(fields) => Some(config_of(fields)),
        None => None,
    }
}

/// The built-in configuration.
pub open spec fn default_view() -> ConfigView {
    match loaded(DEFAULT_CONFIG@) {
        Some(view) => view,
        None => empty_view(),
    }
}

/// `local` where it is not empty, else `global`.
pub open spec fn pick(local: Seq<Seq<char>>, global: Seq<Seq<char>>) -> Seq<Seq<char>> {
    if local.len() == 0 {
        global
    } else {
        local
    }
}

/// The merge of two levels: a list of `local` that is not empty replaces
/// that of `global`, and so does a masking flag that `local` sets.
pub open spec fn merged(global: ConfigView, local: Option<ConfigView>) -> ConfigView {
    match local {
        None => global,
        Some(local) => ConfigView {
            allow: pick(local.allow, global.allow),
            deny: pick(local.deny, global.deny),
            disable_masking: match local.disable_masking {
                Some(flag) => Some(flag),
                None => global.disable_masking,
            },
        },
    }
}

/// A pattern set permits a command where some allow pattern matches it and
/// no deny pattern does.
pub open spec fn permits(config: ConfigView, command: Seq<char>) -> bool {
    any_matches(config.allow, command) && !any_matches(config.deny, command)
}

/// A local level that sets nothing leaves the global level as it is, and so
/// does a local level that is absent.
pub proof fn lemma_merge_empty_local(global: ConfigView)
    ensures
        merged(global, Some(empty_view())) == global,
        merged(global, None) == global,
{
}

/// Deny overrides allow: a command that a deny pattern matches is not
/// permitted, whatever the allow patterns say.
pub proof fn lemma_deny_overrides_allow(config: ConfigView, command: Seq<char>)
    requires
        any_matches(config.deny, command),
    ensures
        !permits(config, command),
{
}

/// A command that no allow pattern matches is not permitted.
pub proof fn lemma_unlisted_is_not_permitted(config: ConfigView, command: Seq<char>)
    requires
        !any_matches(config.allow, command),
    ensures
        !permits(config, command),
{
}

/// Appending one text to a list appends it to the compilable ones where it
/// compiles, and changes nothing where it does not.
pub proof fn lemma_compilable_push(texts: Seq<Seq<char>>, text: Seq<char>)
    ensures
        compilable(texts.push(text)) == if compiles(text) {
            compilable(texts).push(text)
        } else {
            compilable(texts)
        },
{
    reveal(Seq::filter);
    assert(texts.push(text).drop_last() == texts);
}

/// Compiles the strings of a list and keeps those that compile.
fn patterns_in(setting: Option<&Setting>) -> (patterns: Vec<Pattern>)
    ensures
        sources(patterns@) == compilable(
            list_texts(
                match setting {
                    Some(s) => Some(s@),
                    None => None,
                },
            ),
        ),
{
    let mut patterns: Vec<Pattern> = Vec::new();
    let entries = match setting {
        Some(Setting::List(entries)) => entries,
        _ => {
            reveal(Seq::filter);
            assert(sources(patterns@) =~= Seq::<Seq<char>>::empty());
            return patterns;
        },
    };
    let ghost model = entries@.map_values(|e: Entry| e@);
    let ghost text_of = |e: EntryView| entry_text(e);
    let mut i: usize = 0;
    proof {
        reveal(Seq::filter);
        assert(sources(patterns@) =~= Seq::<Seq<char>>::empty());
    }
    while i < entries.len()
        invariant
            i <= entries.len(),
            model == entries@.map_values(|e: Entry| e@),
            text_of == |e: EntryView| entry_text(e),
            sources(patterns@) == compilable(model.take(i as int).filter_map(text_of)),
        decreases entries.len() - i,
    {
        let ghost before = model.take(i as int).filter_map(text_of);
        proof {
            assert(model.take(i + 1).drop_last() == model.take(i as int));
            assert(model.take(i + 1).last() == entries@[i as int]@);
        }
        match &entries[i] {
            Entry::Text(text) => {
                proof {
                    assert(model.take(i + 1).filter_map(text_of) =~= before.push(text@));
                    lemma_compilable_push(before, text@);
                }
                match Pattern::compile(text.as_str()) {
                    Some(pattern) => {
                        let ghost old_sources = sources(patterns@);
                        patterns.push(pattern);
                        assert(sources(patterns@) =~= old_sources.push(text@));
                    },
                    None => {},
                }
            },
            Entry::Other => {
                assert(model.take(i + 1).filter_map(text_of) == before);
            },
        }
        i += 1;
    }
    assert(model.take(entries.len() as int) == model);
    patterns
}

/// The matcher's rule: a command is wrapped where it is allowed and not
/// denied. Deny wins.
pub fn decide(is_allowed: bool, is_denied: bool) -> (wrap: bool)
    ensures
        wrap == (is_allowed && !is_denied),
        is_denied ==> !wrap,
{
    is_allowed && !is_denied
}

impl Config {
    /// What a document configures: the lists under `allow_commands` (or
    /// `allowList`) and `deny_commands` (or `denyList`), without the entries
    /// that are no string or no valid regular expression, and the flag under
    /// `disable_masking`. A key whose value has another shape counts as unset.
    pub fn from_document(document: &Document) -> (config: Config)
        ensures
            config@ == config_of(document@),
    {
        let allow = match document.get("allow_commands") {
            Some(value) => Some(value),
            None => document.get("allowList"),
        };
        let deny = match document.get("deny_commands") {
            Some(value) => Some(value),
            None => document.get("denyList"),
        };
        let disable_masking = match document.get("disable_masking") {
            Some(Setting::Flag(flag)) => Some(*flag),
            _ => None,
        };
        Config {
            allow_commands: patterns_in(allow),
            deny_commands: patterns_in(deny),
            disable_masking,
        }
    }

    /// Reads a configuration text: `None` where the text is no TOML document,
    /// else what the document configures.
    pub fn load(text: &str) -> (config: Option<Config>)
        ensures
            config is Some <==> loaded(text@) is Some,
            config matches Some(c) ==> loaded(text@) == Some(c@),
    {
        match Document::parse(text) {
            Some(document) => Some(Config::from_document(&document)),
            None => None,
        }
    }

    /// The built-in configuration.
    pub fn load_default_config() -> (config: Config)
        ensures
            config@ == default_view(),
    {
        match Config::load(DEFAULT_CONFIG) {
            Some(config) => config,
            None => {
                let config = Config {
                    allow_commands: Vec::new(),
                    deny_commands: Vec::new(),
                    disable_masking: None,
                };
                assert(config@.allow =~= empty_view().allow);
                assert(config@.deny =~= empty_view().deny);
                config
            },
        }
    }

    /// Tells whether this pattern set permits `command`: searched anywhere
    /// in the command, some allow pattern matches and no deny pattern does.
    pub fn permits(&self, command: &str) -> (permitted: bool)
        ensures
            permitted == permits(self@, command@),
    {
        let is_allowed = any_match(&self.allow_commands, command);
        let is_denied = any_match(&self.deny_commands, command);
        decide(is_allowed, is_denied)
    }

    /// Merges a local level over a global one.
    pub fn merge(global_config: &Config, local_config: &Option<Config>) -> (config: Config)
        ensures
            config@ == merged(
                global_config@,
                match local_config {
                    Some(local) => Some(local@),
                    None => None,
                },
            ),
    {
        let local = match local_config {
            Some(local) => local,
            None => {
                return Config {
                    allow_commands: clone_patterns(&global_config.allow_commands),
                    deny_commands: clone_patterns(&global_config.deny_commands),
                    disable_masking: global_config.disable_masking,
                };
            },
        };
        let allow_commands = if local.allow_commands.len() == 0 {
            clone_patterns(&global_config.allow_commands)
        } else {
            clone_patterns(&local.allow_commands)
        };
        let deny_commands = if local.deny_commands.len() == 0 {
            clone_patterns(&global_config.deny_commands)
        } else {
            clone_patterns(&local.deny_commands)
        };
        let disable_masking = match local.disable_masking {
            Some(flag) => Some(flag),
            None => global_config.disable_masking,
        };
        Config { allow_commands, deny_commands, disable_masking }
    }
}

} // verus!
