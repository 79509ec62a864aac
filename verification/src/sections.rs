//! The sections of `.luarc.json`. Each section carries, besides its own settings, a
//! `custom` value of the caller's type whose fields are written beside the section's own.

use vstd::prelude::*;
use crate::serde_rules::{enabled, disabled, zero};
use crate::diagnostic_serde::{three_minute_validate, full_percent_validate};
use crate::hover_serde::{enum_limit_validate, preview_fields_validate, view_string_max_validate};
use crate::workspace_serde::{max_preload_validate, preload_file_size_validate};
use crate::diagnostics::{Diagnostic, DiagnosticGroup};
use crate::distinct::{keys_distinct, text_keys_distinct, texts_distinct};
use crate::options::{
    CheckThirdParty, Encoding, Event, FileStatus, Files, GroupSeverity, Index, ParamName,
    SemiColon, Severity, Show, Snippet, Status,
};

verus! {

/// `addonManager`: the built-in addon manager of the language server.
#[derive(Debug, PartialEq)]
pub struct AddonManager<O = ()> {
    pub enable: bool,
    pub custom: O,
}

impl<O> AddonManager<O> {
    /// Every own setting holds its default value.
    pub open spec fn has_default_settings(&self) -> bool {
        &&& self.enable == true
    }

    /// Every own setting is left out when the section is written.
    pub open spec fn writes_no_settings(&self) -> bool {
        &&& enabled(&self.enable)
    }

    /// Law: a `AddonManager` section holding the default of each of its own settings writes
    /// none of them, so only its custom part reaches the file.
    pub proof fn law_default_writes_nothing(section: AddonManager<O>)
        requires
            section.has_default_settings(),
        ensures
            section.writes_no_settings(),
    {
    }
}

impl<O: Default> Default for AddonManager<O> {
    fn default() -> (r: AddonManager<O>)
        ensures
            r.has_default_settings(),
            call_ensures(O::default, (), r.custom),
    {
        AddonManager {
            enable: true,
            custom: O::default(),
        }
    }
}

impl<O> core::ops::Deref for AddonManager<O> {
    type Target = O;

    fn deref(&self) -> (r: &O)
        ensures
            *r == self.custom,
    {
        &self.custom
    }
}

impl<O> core::ops::DerefMut for AddonManager<O> {
    fn deref_mut(&mut self) -> (r: &mut O)
        ensures
            *r == old(self).custom,
            final(self).custom == *final(r),
            final(self).enable == old(self).enable,
    {
        &mut self.custom
    }
}

/// `completion`: what the server proposes while typing.
#[derive(Debug, PartialEq)]
pub struct Completion<O = ()> {
    pub enable: bool,
    pub auto_require: bool,
    pub call_snippet: Option<Snippet>,
    pub display_context: usize,
    pub keyword_snippet: Option<Snippet>,
    pub postfix: Option<String>,
    pub require_separator: Option<String>,
    pub show_params: bool,
    pub show_word: Option<Show>,
    pub workspace_word: bool,
    pub custom: O,
}

impl<O> Completion<O> {
    /// Every own setting holds its default value.
    pub open spec fn has_default_settings(&self) -> bool {
        &&& self.enable == true
        &&& self.auto_require == true
        &&& self.call_snippet is None
        &&& self.display_context == 0
        &&& self.keyword_snippet is None
        &&& self.postfix is None
        &&& self.require_separator is None
        &&& self.show_params == true
        &&& self.show_word is None
        &&& self.workspace_word == true
    }

    /// Every own setting is left out when the section is written.
    pub open spec fn writes_no_settings(&self) -> bool {
        &&& enabled(&self.enable)
        &&& enabled(&self.auto_require)
        &&& self.call_snippet is None
        &&& zero(&self.display_context)
        &&& self.keyword_snippet is None
        &&& self.postfix is None
        &&& self.require_separator is None
        &&& enabled(&self.show_params)
        &&& self.show_word is None
        &&& enabled(&self.workspace_word)
    }

    /// Law: a `Completion` section holding the default of each of its own settings writes
    /// none of them, so only its custom part reaches the file.
    pub proof fn law_default_writes_nothing(section: Completion<O>)
        requires
            section.has_default_settings(),
        ensures
            section.writes_no_settings(),
    {
    }
}

impl<O: Default> Default for Completion<O> {
    fn default() -> (r: Completion<O>)
        ensures
            r.has_default_settings(),
            call_ensures(O::default, (), r.custom),
    {
        Completion {
            enable: true,
            auto_require: true,
            call_snippet: None,
            display_context: 0,
            keyword_snippet: None,
            postfix: None,
            require_separator: None,
            show_params: true,
            show_word: None,
            workspace_word: true,
            custom: O::default(),
        }
    }
}

impl<O> core::ops::Deref for Completion<O> {
    type Target = O;

    fn deref(&self) -> (r: &O)
        ensures
            *r == self.custom,
    {
        &self.custom
    }
}

impl<O> core::ops::DerefMut for Completion<O> {
    fn deref_mut(&mut self) -> (r: &mut O)
        ensures
            *r == old(self).custom,
            final(self).custom == *final(r),
            final(self).enable == old(self).enable,
            final(self).auto_require == old(self).auto_require,
            final(self).call_snippet == old(self).call_snippet,
            final(self).display_context == old(self).display_context,
            final(self).keyword_snippet == old(self).keyword_snippet,
            final(self).postfix == old(self).postfix,
            final(self).require_separator == old(self).require_separator,
            final(self).show_params == old(self).show_params,
            final(self).show_word == old(self).show_word,
            final(self).workspace_word == old(self).workspace_word,
    {
        &mut self.custom
    }
}

/// `diagnostics`: which problems are reported, where and how loudly.
///
/// The maps of the file are held as lists of entries, in the order in which they are written.
#[derive(Debug, PartialEq)]
pub struct Diagnostics<O = ()> {
    pub enable: bool,
    pub disable: Vec<Diagnostic>,
    pub disable_scheme: Vec<String>,
    pub globals: Vec<String>,
    pub group_file_status: Vec<(DiagnosticGroup, FileStatus)>,
    pub group_severity: Vec<(DiagnosticGroup, GroupSeverity)>,
    pub ignored_files: Option<Files>,
    pub library_files: Option<Files>,
    pub needed_file_status: Vec<(Diagnostic, FileStatus)>,
    pub severity: Vec<(Diagnostic, Severity)>,
    pub unused_local_exclude: Vec<String>,
    pub workspace_delay: usize,
    pub workspace_event: Option<Event>,
    pub workspace_rate: usize,
    pub custom: O,
}

impl<O> Diagnostics<O> {
    /// Every own setting holds its default value.
    pub open spec fn has_default_settings(&self) -> bool {
        &&& self.enable == true
        &&& self.disable@.len() == 0
        &&& self.disable_scheme@.len() == 0
        &&& self.globals@.len() == 0
        &&& self.group_file_status@.len() == 0
        &&& self.group_severity@.len() == 0
        &&& self.ignored_files is None
        &&& self.library_files is None
        &&& self.needed_file_status@.len() == 0
        &&& self.severity@.len() == 0
        &&& self.unused_local_exclude@.len() == 0
        &&& self.workspace_delay == 3000
        &&& self.workspace_event is None
        &&& self.workspace_rate == 100
    }

    /// No key of its maps, and no member of its sets, occurs twice.
    pub open spec fn entries_distinct(&self) -> bool {
        &&& keys_distinct(self.group_file_status@)
        &&& keys_distinct(self.group_severity@)
        &&& keys_distinct(self.needed_file_status@)
        &&& keys_distinct(self.severity@)
    }

    /// Every own setting is left out when the section is written.
    pub open spec fn writes_no_settings(&self) -> bool {
        &&& enabled(&self.enable)
        &&& self.disable@.len() == 0
        &&& self.disable_scheme@.len() == 0
        &&& self.globals@.len() == 0
        &&& self.group_file_status@.len() == 0
        &&& self.group_severity@.len() == 0
        &&& self.ignored_files is None
        &&& self.library_files is None
        &&& self.needed_file_status@.len() == 0
        &&& self.severity@.len() == 0
        &&& self.unused_local_exclude@.len() == 0
        &&& three_minute_validate(&self.workspace_delay)
        &&& self.workspace_event is None
        &&& full_percent_validate(&self.workspace_rate)
    }

    /// Law: a `Diagnostics` section holding the default of each of its own settings writes
    /// none of them, so only its custom part reaches the file.
    pub proof fn law_default_writes_nothing(section: Diagnostics<O>)
        requires
            section.has_default_settings(),
        ensures
            section.writes_no_settings(),
    {
    }
}

impl<O: Default> Default for Diagnostics<O> {
    fn default() -> (r: Diagnostics<O>)
        ensures
            r.has_default_settings(),
            r.entries_distinct(),
            call_ensures(O::default, (), r.custom),
    {
        Diagnostics {
            enable: true,
            disable: Vec::new(),
            disable_scheme: Vec::new(),
            globals: Vec::new(),
            group_file_status: Vec::new(),
            group_severity: Vec::new(),
            ignored_files: None,
            library_files: None,
            needed_file_status: Vec::new(),
            severity: Vec::new(),
            unused_local_exclude: Vec::new(),
            workspace_delay: 3000,
            workspace_event: None,
            workspace_rate: 100,
            custom: O::default(),
        }
    }
}

impl<O> core::ops::Deref for Diagnostics<O> {
    type Target = O;

    fn deref(&self) -> (r: &O)
        ensures
            *r == self.custom,
    {
        &self.custom
    }
}

impl<O> core::ops::DerefMut for Diagnostics<O> {
    fn deref_mut(&mut self) -> (r: &mut O)
        ensures
            *r == old(self).custom,
            final(self).custom == *final(r),
            final(self).enable == old(self).enable,
            final(self).disable == old(self).disable,
            final(self).disable_scheme == old(self).disable_scheme,
            final(self).globals == old(self).globals,
            final(self).group_file_status == old(self).group_file_status,
            final(self).group_severity == old(self).group_severity,
            final(self).ignored_files == old(self).ignored_files,
            final(self).library_files == old(self).library_files,
            final(self).needed_file_status == old(self).needed_file_status,
            final(self).severity == old(self).severity,
            final(self).unused_local_exclude == old(self).unused_local_exclude,
            final(self).workspace_delay == old(self).workspace_delay,
            final(self).workspace_event == old(self).workspace_event,
            final(self).workspace_rate == old(self).workspace_rate,
    {
        &mut self.custom
    }
}

/// `doc`: which names count as package, private or protected.
///
/// The sets of the file are held as lists.
#[derive(Debug, PartialEq)]
pub struct Doc<O = ()> {
    pub package_name: Vec<String>,
    pub private_name: Vec<String>,
    pub protected_name: Vec<String>,
    pub custom: O,
}

impl<O> Doc<O> {
    /// Every own setting holds its default value.
    pub open spec fn has_default_settings(&self) -> bool {
        &&& self.package_name@.len() == 0
        &&& self.private_name@.len() == 0
        &&& self.protected_name@.len() == 0
    }

    /// No key of its maps, and no member of its sets, occurs twice.
    pub open spec fn entries_distinct(&self) -> bool {
        &&& texts_distinct(self.package_name@)
        &&& texts_distinct(self.private_name@)
        &&& texts_distinct(self.protected_name@)
    }

    /// Every own setting is left out when the section is written.
    pub open spec fn writes_no_settings(&self) -> bool {
        &&& self.package_name@.len() == 0
        &&& self.private_name@.len() == 0
        &&& self.protected_name@.len() == 0
    }

    /// Law: a `Doc` section holding the default of each of its own settings writes
    /// none of them, so only its custom part reaches the file.
    pub proof fn law_default_writes_nothing(section: Doc<O>)
        requires
            section.has_default_settings(),
        ensures
            section.writes_no_settings(),
    {
    }
}

impl<O: Default> Default for Doc<O> {
    fn default() -> (r: Doc<O>)
        ensures
            r.has_default_settings(),
            r.entries_distinct(),
            call_ensures(O::default, (), r.custom),
    {
        Doc {
            package_name: Vec::new(),
            private_name: Vec::new(),
            protected_name: Vec::new(),
            custom: O::default(),
        }
    }
}

impl<O> core::ops::Deref for Doc<O> {
    type Target = O;

    fn deref(&self) -> (r: &O)
        ensures
            *r == self.custom,
    {
        &self.custom
    }
}

impl<O> core::ops::DerefMut for Doc<O> {
    fn deref_mut(&mut self) -> (r: &mut O)
        ensures
            *r == old(self).custom,
            final(self).custom == *final(r),
            final(self).package_name == old(self).package_name,
            final(self).private_name == old(self).private_name,
            final(self).protected_name == old(self).protected_name,
    {
        &mut self.custom
    }
}

/// `format`: the built-in code formatter.
///
/// The option map of the formatter is held as a list of entries.
#[derive(Debug, PartialEq)]
pub struct Format<O = ()> {
    pub enable: bool,
    pub default_config: Vec<(String, String)>,
    pub custom: O,
}

impl<O> Format<O> {
    /// Every own setting holds its default value.
    pub open spec fn has_default_settings(&self) -> bool {
        &&& self.enable == true
        &&& self.default_config@.len() == 0
    }

    /// No key of its maps, and no member of its sets, occurs twice.
    pub open spec fn entries_distinct(&self) -> bool {
        &&& text_keys_distinct(self.default_config@)
    }

    /// Every own setting is left out when the section is written.
    pub open spec fn writes_no_settings(&self) -> bool {
        &&& enabled(&self.enable)
        &&& self.default_config@.len() == 0
    }

    /// Law: a `Format` section holding the default of each of its own settings writes
    /// none of them, so only its custom part reaches the file.
    pub proof fn law_default_writes_nothing(section: Format<O>)
        requires
            section.has_default_settings(),
        ensures
            section.writes_no_settings(),
    {
    }
}

impl<O: Default> Default for Format<O> {
    fn default() -> (r: Format<O>)
        ensures
            r.has_default_settings(),
            r.entries_distinct(),
            call_ensures(O::default, (), r.custom),
    {
        Format {
            enable: true,
            default_config: Vec::new(),
            custom: O::default(),
        }
    }
}

impl<O> core::ops::Deref for Format<O> {
    type Target = O;

    fn deref(&self) -> (r: &O)
        ensures
            *r == self.custom,
    {
        &self.custom
    }
}

impl<O> core::ops::DerefMut for Format<O> {
    fn deref_mut(&mut self) -> (r: &mut O)
        ensures
            *r == old(self).custom,
            final(self).custom == *final(r),
            final(self).enable == old(self).enable,
            final(self).default_config == old(self).default_config,
    {
        &mut self.custom
    }
}

/// `hint`: inlay hints.
#[derive(Debug, PartialEq)]
pub struct Hint<O = ()> {
    pub enable: bool,
    pub array_index: Option<Index>,
    pub await_hint: bool,
    pub param_name: Option<ParamName>,
    pub param_type: bool,
    pub semicolon: Option<SemiColon>,
    pub set_type: bool,
    pub custom: O,
}

impl<O> Hint<O> {
    /// Every own setting holds its default value.
    pub open spec fn has_default_settings(&self) -> bool {
        &&& self.enable == true
        &&& self.array_index is None
        &&& self.await_hint == true
        &&& self.param_name is None
        &&& self.param_type == true
        &&& self.semicolon is None
        &&& self.set_type == false
    }

    /// Every own setting is left out when the section is written.
    pub open spec fn writes_no_settings(&self) -> bool {
        &&& enabled(&self.enable)
        &&& self.array_index is None
        &&& enabled(&self.await_hint)
        &&& self.param_name is None
        &&& enabled(&self.param_type)
        &&& self.semicolon is None
        &&& disabled(&self.set_type)
    }

    /// Law: a `Hint` section holding the default of each of its own settings writes
    /// none of them, so only its custom part reaches the file.
    pub proof fn law_default_writes_nothing(section: Hint<O>)
        requires
            section.has_default_settings(),
        ensures
            section.writes_no_settings(),
    {
    }
}

impl<O: Default> Default for Hint<O> {
    fn default() -> (r: Hint<O>)
        ensures
            r.has_default_settings(),
            call_ensures(O::default, (), r.custom),
    {
        Hint {
            enable: true,
            array_index: None,
            await_hint: true,
            param_name: None,
            param_type: true,
            semicolon: None,
            set_type: false,
            custom: O::default(),
        }
    }
}

impl<O> core::ops::Deref for Hint<O> {
    type Target = O;

    fn deref(&self) -> (r: &O)
        ensures
            *r == self.custom,
    {
        &self.custom
    }
}

impl<O> core::ops::DerefMut for Hint<O> {
    fn deref_mut(&mut self) -> (r: &mut O)
        ensures
            *r == old(self).custom,
            final(self).custom == *final(r),
            final(self).enable == old(self).enable,
            final(self).array_index == old(self).array_index,
            final(self).await_hint == old(self).await_hint,
            final(self).param_name == old(self).param_name,
            final(self).param_type == old(self).param_type,
            final(self).semicolon == old(self).semicolon,
            final(self).set_type == old(self).set_type,
    {
        &mut self.custom
    }
}

/// `hover`: what hovering over a name shows.
#[derive(Debug, PartialEq)]
pub struct Hover<O = ()> {
    pub enable: bool,
    pub enums_limit: usize,
    pub expand_alias: bool,
    pub preview_fields: usize,
    pub view_number: bool,
    pub view_string: bool,
    pub view_string_max: usize,
    pub custom: O,
}

impl<O> Hover<O> {
    /// Every own setting holds its default value.
    pub open spec fn has_default_settings(&self) -> bool {
        &&& self.enable == true
        &&& self.enums_limit == 5
        &&& self.expand_alias == true
        &&& self.preview_fields == 50
        &&& self.view_number == true
        &&& self.view_string == true
        &&& self.view_string_max == 1000
    }

    /// Every own setting is left out when the section is written.
    pub open spec fn writes_no_settings(&self) -> bool {
        &&& enabled(&self.enable)
        &&& enum_limit_validate(&self.enums_limit)
        &&& enabled(&self.expand_alias)
        &&& preview_fields_validate(&self.preview_fields)
        &&& enabled(&self.view_number)
        &&& enabled(&self.view_string)
        &&& view_string_max_validate(&self.view_string_max)
    }

    /// Law: a `Hover` section holding the default of each of its own settings writes
    /// none of them, so only its custom part reaches the file.
    pub proof fn law_default_writes_nothing(section: Hover<O>)
        requires
            section.has_default_settings(),
        ensures
            section.writes_no_settings(),
    {
    }
}

impl<O: Default> Default for Hover<O> {
    fn default() -> (r: Hover<O>)
        ensures
            r.has_default_settings(),
            call_ensures(O::default, (), r.custom),
    {
        Hover {
            enable: true,
            enums_limit: 5,
            expand_alias: true,
            preview_fields: 50,
            view_number: true,
            view_string: true,
            view_string_max: 1000,
            custom: O::default(),
        }
    }
}

impl<O> core::ops::Deref for Hover<O> {
    type Target = O;

    fn deref(&self) -> (r: &O)
        ensures
            *r == self.custom,
    {
        &self.custom
    }
}

impl<O> core::ops::DerefMut for Hover<O> {
    fn deref_mut(&mut self) -> (r: &mut O)
        ensures
            *r == old(self).custom,
            final(self).custom == *final(r),
            final(self).enable == old(self).enable,
            final(self).enums_limit == old(self).enums_limit,
            final(self).expand_alias == old(self).expand_alias,
            final(self).preview_fields == old(self).preview_fields,
            final(self).view_number == old(self).view_number,
            final(self).view_string == old(self).view_string,
            final(self).view_string_max == old(self).view_string_max,
    {
        &mut self.custom
    }
}

/// `misc`: how the server itself is started.
#[derive(Debug, PartialEq)]
pub struct Misc<O = ()> {
    pub parameters: Vec<String>,
    pub executable_path: Option<String>,
    pub custom: O,
}

impl<O> Misc<O> {
    /// Every own setting holds its default value.
    pub open spec fn has_default_settings(&self) -> bool {
        &&& self.parameters@.len() == 0
        &&& self.executable_path is None
    }

    /// Every own setting is left out when the section is written.
    pub open spec fn writes_no_settings(&self) -> bool {
        &&& self.parameters@.len() == 0
        &&& self.executable_path is None
    }

    /// Law: a `Misc` section holding the default of each of its own settings writes
    /// none of them, so only its custom part reaches the file.
    pub proof fn law_default_writes_nothing(section: Misc<O>)
        requires
            section.has_default_settings(),
        ensures
            section.writes_no_settings(),
    {
    }
}

impl<O: Default> Default for Misc<O> {
    fn default() -> (r: Misc<O>)
        ensures
            r.has_default_settings(),
            call_ensures(O::default, (), r.custom),
    {
        Misc {
            parameters: Vec::new(),
            executable_path: None,
            custom: O::default(),
        }
    }
}

impl<O> core::ops::Deref for Misc<O> {
    type Target = O;

    fn deref(&self) -> (r: &O)
        ensures
            *r == self.custom,
    {
        &self.custom
    }
}

impl<O> core::ops::DerefMut for Misc<O> {
    fn deref_mut(&mut self) -> (r: &mut O)
        ensures
            *r == old(self).custom,
            final(self).custom == *final(r),
            final(self).parameters == old(self).parameters,
            final(self).executable_path == old(self).executable_path,
    {
        &mut self.custom
    }
}

/// `runtime`: the Lua runtime the code is written for.
///
/// The maps of the file are held as lists of entries.
#[derive(Debug, PartialEq)]
pub struct Runtime<O = ()> {
    pub builtin: Vec<(String, Status)>,
    pub file_encoding: Option<Encoding>,
    pub meta: Option<String>,
    pub nonstandard_symbol: Vec<String>,
    pub path: Vec<String>,
    pub path_strict: bool,
    pub plugin: Option<String>,
    pub plugin_args: Vec<String>,
    pub special: Vec<(String, String)>,
    pub unicode_name: bool,
    pub version: Option<String>,
    pub custom: O,
}

impl<O> Runtime<O> {
    /// Every own setting holds its default value.
    pub open spec fn has_default_settings(&self) -> bool {
        &&& self.builtin@.len() == 0
        &&& self.file_encoding is None
        &&& self.meta is None
        &&& self.nonstandard_symbol@.len() == 0
        &&& self.path@.len() == 0
        &&& self.path_strict == false
        &&& self.plugin is None
        &&& self.plugin_args@.len() == 0
        &&& self.special@.len() == 0
        &&& self.unicode_name == false
        &&& self.version is None
    }

    /// No key of its maps, and no member of its sets, occurs twice.
    pub open spec fn entries_distinct(&self) -> bool {
        &&& text_keys_distinct(self.builtin@)
        &&& text_keys_distinct(self.special@)
    }

    /// Every own setting is left out when the section is written.
    pub open spec fn writes_no_settings(&self) -> bool {
        &&& self.builtin@.len() == 0
        &&& self.file_encoding is None
        &&& self.meta is None
        &&& self.nonstandard_symbol@.len() == 0
        &&& self.path@.len() == 0
        &&& disabled(&self.path_strict)
        &&& self.plugin is None
        &&& self.plugin_args@.len() == 0
        &&& self.special@.len() == 0
        &&& disabled(&self.unicode_name)
        &&& self.version is None
    }

    /// Law: a `Runtime` section holding the default of each of its own settings writes
    /// none of them, so only its custom part reaches the file.
    pub proof fn law_default_writes_nothing(section: Runtime<O>)
        requires
            section.has_default_settings(),
        ensures
            section.writes_no_settings(),
    {
    }
}

impl<O: Default> Default for Runtime<O> {
    fn default() -> (r: Runtime<O>)
        ensures
            r.has_default_settings(),
            r.entries_distinct(),
            call_ensures(O::default, (), r.custom),
    {
        Runtime {
            builtin: Vec::new(),
            file_encoding: None,
            meta: None,
            nonstandard_symbol: Vec::new(),
            path: Vec::new(),
            path_strict: false,
            plugin: None,
            plugin_args: Vec::new(),
            special: Vec::new(),
            unicode_name: false,
            version: None,
            custom: O::default(),
        }
    }
}

impl<O> core::ops::Deref for Runtime<O> {
    type Target = O;

    fn deref(&self) -> (r: &O)
        ensures
            *r == self.custom,
    {
        &self.custom
    }
}

impl<O> core::ops::DerefMut for Runtime<O> {
    fn deref_mut(&mut self) -> (r: &mut O)
        ensures
            *r == old(self).custom,
            final(self).custom == *final(r),
            final(self).builtin == old(self).builtin,
            final(self).file_encoding == old(self).file_encoding,
            final(self).meta == old(self).meta,
            final(self).nonstandard_symbol == old(self).nonstandard_symbol,
            final(self).path == old(self).path,
            final(self).path_strict == old(self).path_strict,
            final(self).plugin == old(self).plugin,
            final(self).plugin_args == old(self).plugin_args,
            final(self).special == old(self).special,
            final(self).unicode_name == old(self).unicode_name,
            final(self).version == old(self).version,
    {
        &mut self.custom
    }
}

/// `semantic`: semantic colouring.
#[derive(Debug, PartialEq)]
pub struct Semantic<O = ()> {
    pub enable: bool,
    pub annotation: bool,
    pub keyword: bool,
    pub variable: bool,
    pub custom: O,
}

impl<O> Semantic<O> {
    /// Every own setting holds its default value.
    pub open spec fn has_default_settings(&self) -> bool {
        &&& self.enable == true
        &&& self.annotation == true
        &&& self.keyword == false
        &&& self.variable == true
    }

    /// Every own setting is left out when the section is written.
    pub open spec fn writes_no_settings(&self) -> bool {
        &&& enabled(&self.enable)
        &&& enabled(&self.annotation)
        &&& disabled(&self.keyword)
        &&& enabled(&self.variable)
    }

    /// Law: a `Semantic` section holding the default of each of its own settings writes
    /// none of them, so only its custom part reaches the file.
    pub proof fn law_default_writes_nothing(section: Semantic<O>)
        requires
            section.has_default_settings(),
        ensures
            section.writes_no_settings(),
    {
    }
}

impl<O: Default> Default for Semantic<O> {
    fn default() -> (r: Semantic<O>)
        ensures
            r.has_default_settings(),
            call_ensures(O::default, (), r.custom),
    {
        Semantic {
            enable: true,
            annotation: true,
            keyword: false,
            variable: true,
            custom: O::default(),
        }
    }
}

impl<O> core::ops::Deref for Semantic<O> {
    type Target = O;

    fn deref(&self) -> (r: &O)
        ensures
            *r == self.custom,
    {
        &self.custom
    }
}

impl<O> core::ops::DerefMut for Semantic<O> {
    fn deref_mut(&mut self) -> (r: &mut O)
        ensures
            *r == old(self).custom,
            final(self).custom == *final(r),
            final(self).enable == old(self).enable,
            final(self).annotation == old(self).annotation,
            final(self).keyword == old(self).keyword,
            final(self).variable == old(self).variable,
    {
        &mut self.custom
    }
}

/// `signatureHelp`: the signature shown while a call is typed.
#[derive(Debug, PartialEq)]
pub struct SignatureHelp<O = ()> {
    pub enable: bool,
    pub custom: O,
}

impl<O> SignatureHelp<O> {
    /// Every own setting holds its default value.
    pub open spec fn has_default_settings(&self) -> bool {
        &&& self.enable == true
    }

    /// Every own setting is left out when the section is written.
    pub open spec fn writes_no_settings(&self) -> bool {
        &&& enabled(&self.enable)
    }

    /// Law: a `SignatureHelp` section holding the default of each of its own settings writes
    /// none of them, so only its custom part reaches the file.
    pub proof fn law_default_writes_nothing(section: SignatureHelp<O>)
        requires
            section.has_default_settings(),
        ensures
            section.writes_no_settings(),
    {
    }
}

impl<O: Default> Default for SignatureHelp<O> {
    fn default() -> (r: SignatureHelp<O>)
        ensures
            r.has_default_settings(),
            call_ensures(O::default, (), r.custom),
    {
        SignatureHelp {
            enable: true,
            custom: O::default(),
        }
    }
}

impl<O> core::ops::Deref for SignatureHelp<O> {
    type Target = O;

    fn deref(&self) -> (r: &O)
        ensures
            *r == self.custom,
    {
        &self.custom
    }
}

impl<O> core::ops::DerefMut for SignatureHelp<O> {
    fn deref_mut(&mut self) -> (r: &mut O)
        ensures
            *r == old(self).custom,
            final(self).custom == *final(r),
            final(self).enable == old(self).enable,
    {
        &mut self.custom
    }
}

/// `spell`: the words the spell checker accepts.
#[derive(Debug, PartialEq)]
pub struct Spell<O = ()> {
    pub dict: Vec<String>,
    pub custom: O,
}

impl<O> Spell<O> {
    /// Every own setting holds its default value.
    pub open spec fn has_default_settings(&self) -> bool {
        &&& self.dict@.len() == 0
    }

    /// Every own setting is left out when the section is written.
    pub open spec fn writes_no_settings(&self) -> bool {
        &&& self.dict@.len() == 0
    }

    /// Law: a `Spell` section holding the default of each of its own settings writes
    /// none of them, so only its custom part reaches the file.
    pub proof fn law_default_writes_nothing(section: Spell<O>)
        requires
            section.has_default_settings(),
        ensures
            section.writes_no_settings(),
    {
    }
}

impl<O: Default> Default for Spell<O> {
    fn default() -> (r: Spell<O>)
        ensures
            r.has_default_settings(),
            call_ensures(O::default, (), r.custom),
    {
        Spell {
            dict: Vec::new(),
            custom: O::default(),
        }
    }
}

impl<O> core::ops::Deref for Spell<O> {
    type Target = O;

    fn deref(&self) -> (r: &O)
        ensures
            *r == self.custom,
    {
        &self.custom
    }
}

impl<O> core::ops::DerefMut for Spell<O> {
    fn deref_mut(&mut self) -> (r: &mut O)
        ensures
            *r == old(self).custom,
            final(self).custom == *final(r),
            final(self).dict == old(self).dict,
    {
        &mut self.custom
    }
}

/// `type`: how strictly types are checked.
#[derive(Debug, PartialEq)]
pub struct Type<O = ()> {
    pub cast_number_to_integer: bool,
    pub weak_nil_check: bool,
    pub weak_union_check: bool,
    pub custom: O,
}

impl<O> Type<O> {
    /// Every own setting holds its default value.
    pub open spec fn has_default_settings(&self) -> bool {
        &&& self.cast_number_to_integer == false
        &&& self.weak_nil_check == false
        &&& self.weak_union_check == false
    }

    /// Every own setting is left out when the section is written.
    pub open spec fn writes_no_settings(&self) -> bool {
        &&& disabled(&self.cast_number_to_integer)
        &&& disabled(&self.weak_nil_check)
        &&& disabled(&self.weak_union_check)
    }

    /// Law: a `Type` section holding the default of each of its own settings writes
    /// none of them, so only its custom part reaches the file.
    pub proof fn law_default_writes_nothing(section: Type<O>)
        requires
            section.has_default_settings(),
        ensures
            section.writes_no_settings(),
    {
    }
}

impl<O: Default> Default for Type<O> {
    fn default() -> (r: Type<O>)
        ensures
            r.has_default_settings(),
            call_ensures(O::default, (), r.custom),
    {
        Type {
            cast_number_to_integer: false,
            weak_nil_check: false,
            weak_union_check: false,
            custom: O::default(),
        }
    }
}

impl<O> core::ops::Deref for Type<O> {
    type Target = O;

    fn deref(&self) -> (r: &O)
        ensures
            *r == self.custom,
    {
        &self.custom
    }
}

impl<O> core::ops::DerefMut for Type<O> {
    fn deref_mut(&mut self) -> (r: &mut O)
        ensures
            *r == old(self).custom,
            final(self).custom == *final(r),
            final(self).cast_number_to_integer == old(self).cast_number_to_integer,
            final(self).weak_nil_check == old(self).weak_nil_check,
            final(self).weak_union_check == old(self).weak_union_check,
    {
        &mut self.custom
    }
}

/// `window`: the progress and status bars of the editor.
#[derive(Debug, PartialEq)]
pub struct Window<O = ()> {
    pub progress_bar: bool,
    pub status_bar: bool,
    pub custom: O,
}

impl<O> Window<O> {
    /// Every own setting holds its default value.
    pub open spec fn has_default_settings(&self) -> bool {
        &&& self.progress_bar == true
        &&& self.status_bar == true
    }

    /// Every own setting is left out when the section is written.
    pub open spec fn writes_no_settings(&self) -> bool {
        &&& enabled(&self.progress_bar)
        &&& enabled(&self.status_bar)
    }

    /// Law: a `Window` section holding the default of each of its own settings writes
    /// none of them, so only its custom part reaches the file.
    pub proof fn law_default_writes_nothing(section: Window<O>)
        requires
            section.has_default_settings(),
        ensures
            section.writes_no_settings(),
    {
    }
}

impl<O: Default> Default for Window<O> {
    fn default() -> (r: Window<O>)
        ensures
            r.has_default_settings(),
            call_ensures(O::default, (), r.custom),
    {
        Window {
            progress_bar: true,
            status_bar: true,
            custom: O::default(),
        }
    }
}

impl<O> core::ops::Deref for Window<O> {
    type Target = O;

    fn deref(&self) -> (r: &O)
        ensures
            *r == self.custom,
    {
        &self.custom
    }
}

impl<O> core::ops::DerefMut for Window<O> {
    fn deref_mut(&mut self) -> (r: &mut O)
        ensures
            *r == old(self).custom,
            final(self).custom == *final(r),
            final(self).progress_bar == old(self).progress_bar,
            final(self).status_bar == old(self).status_bar,
    {
        &mut self.custom
    }
}

/// `workspace`: which files belong to the workspace and how they are loaded.
#[derive(Debug, PartialEq)]
pub struct Workspace<O = ()> {
    pub check_third_party: Option<CheckThirdParty>,
    pub ignore_dir: Vec<String>,
    pub ignore_submodules: bool,
    pub library: Vec<String>,
    pub max_preload: usize,
    pub preload_file_size: usize,
    pub use_git_ignore: bool,
    pub user_third_party: Vec<String>,
    pub custom: O,
}

impl<O> Workspace<O> {
    /// Every own setting holds its default value.
    pub open spec fn has_default_settings(&self) -> bool {
        &&& self.check_third_party is None
        &&& self.ignore_dir@.len() == 0
        &&& self.ignore_submodules == true
        &&& self.library@.len() == 0
        &&& self.max_preload == 5000
        &&& self.preload_file_size == 500
        &&& self.use_git_ignore == true
        &&& self.user_third_party@.len() == 0
    }

    /// Every own setting is left out when the section is written.
    pub open spec fn writes_no_settings(&self) -> bool {
        &&& self.check_third_party is None
        &&& self.ignore_dir@.len() == 0
        &&& enabled(&self.ignore_submodules)
        &&& self.library@.len() == 0
        &&& max_preload_validate(&self.max_preload)
        &&& preload_file_size_validate(&self.preload_file_size)
        &&& enabled(&self.use_git_ignore)
        &&& self.user_third_party@.len() == 0
    }

    /// Law: a `Workspace` section holding the default of each of its own settings writes
    /// none of them, so only its custom part reaches the file.
    pub proof fn law_default_writes_nothing(section: Workspace<O>)
        requires
            section.has_default_settings(),
        ensures
            section.writes_no_settings(),
    {
    }
}

impl<O: Default> Default for Workspace<O> {
    fn default() -> (r: Workspace<O>)
        ensures
            r.has_default_settings(),
            call_ensures(O::default, (), r.custom),
    {
        Workspace {
            check_third_party: None,
            ignore_dir: Vec::new(),
            ignore_submodules: true,
            library: Vec::new(),
            max_preload: 5000,
            preload_file_size: 500,
            use_git_ignore: true,
            user_third_party: Vec::new(),
            custom: O::default(),
        }
    }
}

impl<O> core::ops::Deref for Workspace<O> {
    type Target = O;

    fn deref(&self) -> (r: &O)
        ensures
            *r == self.custom,
    {
        &self.custom
    }
}

impl<O> core::ops::DerefMut for Workspace<O> {
    fn deref_mut(&mut self) -> (r: &mut O)
        ensures
            *r == old(self).custom,
            final(self).custom == *final(r),
            final(self).check_third_party == old(self).check_third_party,
            final(self).ignore_dir == old(self).ignore_dir,
            final(self).ignore_submodules == old(self).ignore_submodules,
            final(self).library == old(self).library,
            final(self).max_preload == old(self).max_preload,
            final(self).preload_file_size == old(self).preload_file_size,
            final(self).use_git_ignore == old(self).use_git_ignore,
            final(self).user_third_party == old(self).user_third_party,
    {
        &mut self.custom
    }
}

/// Law: a missing `workspaceDelay`, `workspaceRate`, `maxPreload`, `preloadFileSize`,
/// `enumsLimit`, `previewFields` or `viewStringMax` is read as the value that the
/// section's `Default` gives it.
pub proof fn law_missing_numbers_read_as_defaults<C, G, N>(
    diagnostics: Diagnostics<C>,
    hover: Hover<G>,
    workspace: Workspace<N>,
)
    requires
        diagnostics.has_default_settings(),
        hover.has_default_settings(),
        workspace.has_default_settings(),
    ensures
        diagnostics.workspace_delay == crate::diagnostic_serde::workspace_delay(),
        diagnostics.workspace_rate == crate::diagnostic_serde::workspace_rate(),
        hover.enums_limit == crate::hover_serde::enums_limit(),
        hover.preview_fields == crate::hover_serde::preview_fields(),
        hover.view_string_max == crate::hover_serde::view_string_max(),
        workspace.max_preload == crate::workspace_serde::max_preload(),
        workspace.preload_file_size == crate::workspace_serde::preload_file_size(),
{
}

} // verus!
