//! The enumerated values that settings of `.luarc.json` take.

use vstd::prelude::*;
use crate::text::{ascii_lower, to_ascii_lowercase, text_eq, concat, to_string};

verus! {

#[derive(Debug, Clone, Copy, PartialEq, Eq, Structural)]
pub enum Snippet {
    Disable,
    Replace,
    Both,
}

impl Default for Snippet {
    fn default() -> (r: Snippet)
        ensures
            r == Snippet::Disable,
    {
        Snippet::Disable
    }
}

#[derive(Debug, Clone, Copy, PartialEq, Eq, Structural)]
pub enum Show {
    Disable,
    Enable,
    Fallback,
}

impl Default for Show {
    fn default() -> (r: Show)
        ensures
            r == Show::Fallback,
    {
        Show::Fallback
    }
}

#[derive(Debug, Clone, Copy, PartialEq, Eq, Structural)]
pub enum FileState {
    Any,
    Opened,
    Nothing,
    Fallback,
}

impl Default for FileState {
    fn default() -> (r: FileState)
        ensures
            r == FileState::Fallback,
    {
        FileState::Fallback
    }
}

#[derive(Debug, Clone, Copy, PartialEq, Eq, Structural)]
pub enum GroupSeverity {
    Error,
    Warning,
    Information,
    Hint,
    Fallback,
}

impl Default for GroupSeverity {
    fn default() -> (r: GroupSeverity)
        ensures
            r == GroupSeverity::Fallback,
    {
        GroupSeverity::Fallback
    }
}

#[derive(Debug, Clone, Copy, PartialEq, Eq, Structural)]
pub enum Files {
    Enable,
    Opened,
    Disable,
}

impl Default for Files {
    fn default() -> (r: Files)
        ensures
            r == Files::Opened,
    {
        Files::Opened
    }
}

#[derive(Debug, Clone, Copy, PartialEq, Eq, Structural)]
pub enum FileStatus {
    Any,
    Opened,
    Nothing,
    AnyBang,
    OpenedBang,
    NoneBang,
}

#[derive(Debug, Clone, Copy, PartialEq, Eq, Structural)]
pub enum Event {
    OnChange,
    OnSave,
    Nothing,
}

#[derive(Debug, Clone, Copy, PartialEq, Eq, Structural)]
pub enum Index {
    Enable,
    Auto,
    Disable,
}

#[derive(Debug, Clone, Copy, PartialEq, Eq, Structural)]
pub enum ParamName {
    All,
    Literal,
    Disable,
}

#[derive(Debug, Clone, Copy, PartialEq, Eq, Structural)]
pub enum SemiColon {
    All,
    SameLine,
    Disable,
}

#[derive(Debug, Clone, Copy, PartialEq, Eq, Structural)]
pub enum Status {
    Default,
    Enable,
    Disable,
}

#[derive(Debug, Clone, Copy, PartialEq, Eq, Structural)]
pub enum Encoding {
    Utf8,
    Ansi,
    Utf16le,
    Utf16be,
}

#[derive(Debug, Clone, Copy, PartialEq, Eq, Structural)]
pub enum Severity {
    Error,
    Warning,
    Information,
    Hint,
    ErrorBang,
    WarningBang,
    InformationBang,
    HintBang,
}

impl Severity {
    /// The name of this severity as `.luarc.json` writes it.
    pub open spec fn written_name(self) -> Seq<char> {
        match self {
            Severity::Error => "Error"@,
            Severity::Warning => "Warning"@,
            Severity::Information => "Information"@,
            Severity::Hint => "Hint"@,
            Severity::ErrorBang => "Error!"@,
            Severity::WarningBang => "Warning!"@,
            Severity::InformationBang => "Information!"@,
            Severity::HintBang => "Hint!"@,
        }
    }

    /// The lower-case name by which `from_str` knows this severity.
    pub open spec fn code(self) -> Seq<char> {
        match self {
            Severity::Error => "error"@,
            Severity::Warning => "warning"@,
            Severity::Information => "information"@,
            Severity::Hint => "hint"@,
            Severity::ErrorBang => "error!"@,
            Severity::WarningBang => "warning!"@,
            Severity::InformationBang => "information!"@,
            Severity::HintBang => "hint!"@,
        }
    }

    /// Reads a severity from its name, in any mix of ASCII upper and lower case.
    pub fn from_str(s: &str) -> (r: Result<Severity, String>)
        ensures
            match r {
                Ok(v) => v.code() == ascii_lower(s@),
                Err(m) => (forall|v: Severity| v.code() != ascii_lower(s@)) && m@
                    == "invalid diagnostic severity: "@ + ascii_lower(s@),
            },
    {
        let lower = to_ascii_lowercase(s);
        let t = lower.as_str();
        if text_eq(t, "error") {
            return Ok(Severity::Error);
        }
        if text_eq(t, "warning") {
            return Ok(Severity::Warning);
        }
        if text_eq(t, "information") {
            return Ok(Severity::Information);
        }
        if text_eq(t, "hint") {
            return Ok(Severity::Hint);
        }
        if text_eq(t, "error!") {
            return Ok(Severity::ErrorBang);
        }
        if text_eq(t, "warning!") {
            return Ok(Severity::WarningBang);
        }
        if text_eq(t, "information!") {
            return Ok(Severity::InformationBang);
        }
        if text_eq(t, "hint!") {
            return Ok(Severity::HintBang);
        }
        assert forall|v: Severity| v.code() != ascii_lower(s@) by {
            match v {
                Severity::Error => {},
                Severity::Warning => {},
                Severity::Information => {},
                Severity::Hint => {},
                Severity::ErrorBang => {},
                Severity::WarningBang => {},
                Severity::InformationBang => {},
                Severity::HintBang => {},
            }
        }
        Err(concat("invalid diagnostic severity: ", t))
    }
}

impl core::str::FromStr for Severity {
    type Err = String;

    fn from_str(s: &str) -> (r: Result<Severity, String>)
        ensures
            match r {
                Ok(v) => v.code() == ascii_lower(s@),
                Err(m) => (forall|v: Severity| v.code() != ascii_lower(s@)) && m@
                    == "invalid diagnostic severity: "@ + ascii_lower(s@),
            },
    {
        Severity::from_str(s)
    }
}

/// Law: `Severity::from_str` knows each severity by one lower-case name only, so its
/// result depends on the ASCII-lowered input alone, and the name that `.luarc.json`
/// writes for a severity is read back as that severity.
pub proof fn law_severity_names(a: Severity, b: Severity)
    ensures
        a.code() == b.code() ==> a == b,
        ascii_lower(a.written_name()) == a.code(),
{
    reveal_strlit("Error");
    reveal_strlit("Warning");
    reveal_strlit("Information");
    reveal_strlit("Hint");
    reveal_strlit("Error!");
    reveal_strlit("Warning!");
    reveal_strlit("Information!");
    reveal_strlit("Hint!");
    reveal_strlit("error");
    reveal_strlit("warning");
    reveal_strlit("information");
    reveal_strlit("hint");
    reveal_strlit("error!");
    reveal_strlit("warning!");
    reveal_strlit("information!");
    reveal_strlit("hint!");
    assert(ascii_lower(a.written_name()) =~= a.code());
    if a.code() == b.code() {
        assert(a.code().len() == b.code().len());
        assert(a.code()[0] == b.code()[0]);
        assert(a.code()[a.code().len() - 1] == b.code()[b.code().len() - 1]);
    }
}

/// How `workspace.checkThirdParty` treats third-party libraries.
#[derive(Debug, Clone, Copy, PartialEq, Eq, Structural)]
pub enum CheckThirdParty {
    Ask,
    Apply,
    ApplyInMemory,
    Disable,
    False,
}

/// The JSON scalar that holds a `checkThirdParty` setting: a string or a boolean.
#[derive(Debug, Clone, PartialEq)]
pub enum CheckThirdPartyValue {
    Text(String),
    Flag(bool),
}

/// What a `CheckThirdPartyValue` holds, with its text as characters.
pub enum CheckThirdPartyValueView {
    Text(Seq<char>),
    Flag(bool),
}

impl View for CheckThirdPartyValue {
    type V = CheckThirdPartyValueView;

    open spec fn view(&self) -> CheckThirdPartyValueView {
        match self {
            CheckThirdPartyValue::Text(s) => CheckThirdPartyValueView::Text(s@),
            CheckThirdPartyValue::Flag(b) => CheckThirdPartyValueView::Flag(*b),
        }
    }
}

impl CheckThirdParty {
    /// The JSON value that `.luarc.json` writes for this setting.
    pub open spec fn spec_encode(self) -> CheckThirdPartyValueView {
        match self {
            CheckThirdParty::Ask => CheckThirdPartyValueView::Text("Ask"@),
            CheckThirdParty::Apply => CheckThirdPartyValueView::Text("Apply"@),
            CheckThirdParty::ApplyInMemory => CheckThirdPartyValueView::Text("ApplyInMemory"@),
            CheckThirdParty::Disable => CheckThirdPartyValueView::Text("Disable"@),
            CheckThirdParty::False => CheckThirdPartyValueView::Flag(false),
        }
    }

    /// The setting a JSON text names, or the message with which it is refused.
    pub open spec fn spec_decode_text(t: Seq<char>) -> Result<CheckThirdParty, Seq<char>> {
        if t == "Ask"@ {
            Ok(CheckThirdParty::Ask)
        } else if t == "Apply"@ {
            Ok(CheckThirdParty::Apply)
        } else if t == "ApplyInMemory"@ {
            Ok(CheckThirdParty::ApplyInMemory)
        } else if t == "Disable"@ {
            Ok(CheckThirdParty::Disable)
        } else {
            Err("unknown checkThirdParty value: "@ + t)
        }
    }

    /// The setting a JSON boolean gives, or the message with which `true` is refused.
    pub open spec fn spec_decode_flag(b: bool) -> Result<CheckThirdParty, Seq<char>> {
        if b {
            Err("checkThirdParty cannot be set to `true`"@)
        } else {
            Ok(CheckThirdParty::False)
        }
    }

    /// The setting a JSON value gives, or the message with which it is refused.
    pub open spec fn spec_decode(v: CheckThirdPartyValueView) -> Result<CheckThirdParty, Seq<char>> {
        match v {
            CheckThirdPartyValueView::Text(t) => CheckThirdParty::spec_decode_text(t),
            CheckThirdPartyValueView::Flag(b) => CheckThirdParty::spec_decode_flag(b),
        }
    }

    /// The JSON value written for this setting: its name, or `false` for `False`.
    pub fn encode(&self) -> (r: CheckThirdPartyValue)
        ensures
            r@ == self.spec_encode(),
    {
        match self {
            CheckThirdParty::Ask => CheckThirdPartyValue::Text(to_string("Ask")),
            CheckThirdParty::Apply => CheckThirdPartyValue::Text(to_string("Apply")),
            CheckThirdParty::ApplyInMemory => CheckThirdPartyValue::Text(
                to_string("ApplyInMemory"),
            ),
            CheckThirdParty::Disable => CheckThirdPartyValue::Text(to_string("Disable")),
            CheckThirdParty::False => CheckThirdPartyValue::Flag(false),
        }
    }

    /// Reads the setting from a JSON string.
    pub fn decode_text(t: &str) -> (r: Result<CheckThirdParty, String>)
        ensures
            match r {
                Ok(v) => CheckThirdParty::spec_decode_text(t@) == Ok::<CheckThirdParty, Seq<char>>(v),
                Err(m) => CheckThirdParty::spec_decode_text(t@) == Err::<CheckThirdParty, Seq<char>>(m@),
            },
    {
        if text_eq(t, "Ask") {
            Ok(CheckThirdParty::Ask)
        } else if text_eq(t, "Apply") {
            Ok(CheckThirdParty::Apply)
        } else if text_eq(t, "ApplyInMemory") {
            Ok(CheckThirdParty::ApplyInMemory)
        } else if text_eq(t, "Disable") {
            Ok(CheckThirdParty::Disable)
        } else {
            Err(concat("unknown checkThirdParty value: ", t))
        }
    }

    /// Reads the setting from a JSON boolean: `false` turns the check off, `true` is refused.
    pub fn decode_flag(b: bool) -> (r: Result<CheckThirdParty, String>)
        ensures
            match r {
                Ok(v) => CheckThirdParty::spec_decode_flag(b) == Ok::<CheckThirdParty, Seq<char>>(v),
                Err(m) => CheckThirdParty::spec_decode_flag(b) == Err::<CheckThirdParty, Seq<char>>(m@),
            },
    {
        if b {
            Err(to_string("checkThirdParty cannot be set to `true`"))
        } else {
            Ok(CheckThirdParty::False)
        }
    }

    /// Reads the setting from the JSON value that holds it.
    pub fn decode(v: &CheckThirdPartyValue) -> (r: Result<CheckThirdParty, String>)
        ensures
            match r {
                Ok(x) => CheckThirdParty::spec_decode(v@) == Ok::<CheckThirdParty, Seq<char>>(x),
                Err(m) => CheckThirdParty::spec_decode(v@) == Err::<CheckThirdParty, Seq<char>>(m@),
            },
    {
        match v {
            CheckThirdPartyValue::Text(t) => CheckThirdParty::decode_text(t.as_str()),
            CheckThirdPartyValue::Flag(b) => CheckThirdParty::decode_flag(*b),
        }
    }
}

/// Law: every `checkThirdParty` setting is read back from the value written for it.
pub proof fn law_check_third_party_round_trip(x: CheckThirdParty)
    ensures
        CheckThirdParty::spec_decode(x.spec_encode()) == Ok::<CheckThirdParty, Seq<char>>(x),
{
    reveal_strlit("Ask");
    reveal_strlit("Apply");
    reveal_strlit("ApplyInMemory");
    reveal_strlit("Disable");
    match x {
        CheckThirdParty::Apply => {
            assert("Apply"@.len() != "Ask"@.len());
        },
        CheckThirdParty::ApplyInMemory => {
            assert("ApplyInMemory"@.len() != "Ask"@.len());
            assert("ApplyInMemory"@.len() != "Apply"@.len());
        },
        CheckThirdParty::Disable => {
            assert("Disable"@.len() != "Ask"@.len());
            assert("Disable"@.len() != "Apply"@.len());
            assert("Disable"@.len() != "ApplyInMemory"@.len());
        },
        _ => {},
    }
}

} // verus!

verus! {

/// Law: each `checkThirdParty` setting is written as its own name — `Ask` as "Ask",
/// `Apply` as "Apply", `ApplyInMemory` as "ApplyInMemory", `Disable` as "Disable" — and
/// `False` as the boolean `false`; each of those names is read as the setting it names,
/// and `false` as `False`.
pub proof fn law_check_third_party_names()
    ensures
        CheckThirdParty::Ask.spec_encode() == CheckThirdPartyValueView::Text("Ask"@),
        CheckThirdParty::Apply.spec_encode() == CheckThirdPartyValueView::Text("Apply"@),
        CheckThirdParty::ApplyInMemory.spec_encode() == CheckThirdPartyValueView::Text(
            "ApplyInMemory"@,
        ),
        CheckThirdParty::Disable.spec_encode() == CheckThirdPartyValueView::Text("Disable"@),
        CheckThirdParty::False.spec_encode() == CheckThirdPartyValueView::Flag(false),
        CheckThirdParty::spec_decode_text("Ask"@) == Ok::<CheckThirdParty, Seq<char>>(
            CheckThirdParty::Ask,
        ),
        CheckThirdParty::spec_decode_text("Apply"@) == Ok::<CheckThirdParty, Seq<char>>(
            CheckThirdParty::Apply,
        ),
        CheckThirdParty::spec_decode_text("ApplyInMemory"@) == Ok::<CheckThirdParty, Seq<char>>(
            CheckThirdParty::ApplyInMemory,
        ),
        CheckThirdParty::spec_decode_text("Disable"@) == Ok::<CheckThirdParty, Seq<char>>(
            CheckThirdParty::Disable,
        ),
        CheckThirdParty::spec_decode_flag(false) == Ok::<CheckThirdParty, Seq<char>>(
            CheckThirdParty::False,
        ),
        CheckThirdParty::spec_decode_flag(true) is Err,
{
    reveal_strlit("Ask");
    reveal_strlit("Apply");
    reveal_strlit("ApplyInMemory");
    reveal_strlit("Disable");
    assert("Apply"@.len() != "Ask"@.len());
    assert("ApplyInMemory"@.len() != "Ask"@.len());
    assert("ApplyInMemory"@.len() != "Apply"@.len());
    assert("Disable"@.len() != "Ask"@.len());
    assert("Disable"@.len() != "Apply"@.len());
    assert("Disable"@.len() != "ApplyInMemory"@.len());
}

/// Law: each severity is known by its own name: `Error` by "error", `Warning` by
/// "warning", `Information` by "information", `Hint` by "hint", and each `…Bang`
/// severity by that name with a `!` after it; and `.luarc.json` writes each with a
/// capital first letter ("Error", …, "Hint!").
pub proof fn law_severity_documented_names()
    ensures
        Severity::Error.code() == "error"@,
        Severity::Warning.code() == "warning"@,
        Severity::Information.code() == "information"@,
        Severity::Hint.code() == "hint"@,
        Severity::ErrorBang.code() == "error"@ + seq!['!'],
        Severity::WarningBang.code() == "warning"@ + seq!['!'],
        Severity::InformationBang.code() == "information"@ + seq!['!'],
        Severity::HintBang.code() == "hint"@ + seq!['!'],
        Severity::Error.written_name() == "Error"@,
        Severity::Warning.written_name() == "Warning"@,
        Severity::Information.written_name() == "Information"@,
        Severity::Hint.written_name() == "Hint"@,
        Severity::ErrorBang.written_name() == "Error"@ + seq!['!'],
        Severity::WarningBang.written_name() == "Warning"@ + seq!['!'],
        Severity::InformationBang.written_name() == "Information"@ + seq!['!'],
        Severity::HintBang.written_name() == "Hint"@ + seq!['!'],
{
    reveal_strlit("Error");
    reveal_strlit("Warning");
    reveal_strlit("Information");
    reveal_strlit("Hint");
    reveal_strlit("Error!");
    reveal_strlit("Warning!");
    reveal_strlit("Information!");
    reveal_strlit("Hint!");
    reveal_strlit("error");
    reveal_strlit("warning");
    reveal_strlit("information");
    reveal_strlit("hint");
    reveal_strlit("error!");
    reveal_strlit("warning!");
    reveal_strlit("information!");
    reveal_strlit("hint!");
    assert("error!"@ =~= "error"@ + seq!['!']);
    assert("warning!"@ =~= "warning"@ + seq!['!']);
    assert("information!"@ =~= "information"@ + seq!['!']);
    assert("hint!"@ =~= "hint"@ + seq!['!']);
    assert("Error!"@ =~= "Error"@ + seq!['!']);
    assert("Warning!"@ =~= "Warning"@ + seq!['!']);
    assert("Information!"@ =~= "Information"@ + seq!['!']);
    assert("Hint!"@ =~= "Hint"@ + seq!['!']);
}

} // verus!
