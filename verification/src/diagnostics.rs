//! The diagnostics the language server reports, grouped as its settings group them,
//! and the `group:name` codes by which they are written.

use vstd::prelude::*;
use crate::text::{text_eq, split_once_char, split_at_first, concat, push_char, to_string};

verus! {
#[derive(Debug, Clone, Copy, PartialEq, Eq, PartialOrd, Ord, Hash, Structural)]
pub enum Ambiguity {
    Ambiguity1,
    CountDownLoop,
    DifferentRequires,
    NewfieldCall,
    NewlineCall,
}
impl Ambiguity {
    /// The name that follows `ambiguity:` in the code of this diagnostic.
    pub open spec fn code_name(self) -> Seq<char> {
        match self {
            Ambiguity::Ambiguity1 => "ambiguity-1"@,
            Ambiguity::CountDownLoop => "count-down-loop"@,
            Ambiguity::DifferentRequires => "different-requires"@,
            Ambiguity::NewfieldCall => "newfield-call"@,
            Ambiguity::NewlineCall => "newline-call"@,
        }
    }

    /// The diagnostic of this group whose name is `name`, if there is one.
    pub fn from_code_name(name: &str) -> (r: Option<Ambiguity>)
        ensures
            match r {
                Some(d) => d.code_name() == name@,
                None => forall|d: Ambiguity| d.code_name() != name@,
            },
    {
        if text_eq(name, "ambiguity-1") {
            return Some(Ambiguity::Ambiguity1);
        }
        if text_eq(name, "count-down-loop") {
            return Some(Ambiguity::CountDownLoop);
        }
        if text_eq(name, "different-requires") {
            return Some(Ambiguity::DifferentRequires);
        }
        if text_eq(name, "newfield-call") {
            return Some(Ambiguity::NewfieldCall);
        }
        if text_eq(name, "newline-call") {
            return Some(Ambiguity::NewlineCall);
        }
        assert forall|d: Ambiguity| d.code_name() != name@ by {
            match d {
                Ambiguity::Ambiguity1 => {},
                Ambiguity::CountDownLoop => {},
                Ambiguity::DifferentRequires => {},
                Ambiguity::NewfieldCall => {},
                Ambiguity::NewlineCall => {},
            }
        }
        None
    }
}

#[derive(Debug, Clone, Copy, PartialEq, Eq, PartialOrd, Ord, Hash, Structural)]
pub enum Await {
    AwaitInSync,
    NotYieldable,
}
impl Await {
    /// The name that follows `await:` in the code of this diagnostic.
    pub open spec fn code_name(self) -> Seq<char> {
        match self {
            Await::AwaitInSync => "await-in-sync"@,
            Await::NotYieldable => "not-yieldable"@,
        }
    }

    /// The diagnostic of this group whose name is `name`, if there is one.
    pub fn from_code_name(name: &str) -> (r: Option<Await>)
        ensures
            match r {
                Some(d) => d.code_name() == name@,
                None => forall|d: Await| d.code_name() != name@,
            },
    {
        if text_eq(name, "await-in-sync") {
            return Some(Await::AwaitInSync);
        }
        if text_eq(name, "not-yieldable") {
            return Some(Await::NotYieldable);
        }
        assert forall|d: Await| d.code_name() != name@ by {
            match d {
                Await::AwaitInSync => {},
                Await::NotYieldable => {},
            }
        }
        None
    }
}

#[derive(Debug, Clone, Copy, PartialEq, Eq, PartialOrd, Ord, Hash, Structural)]
pub enum Codestyle {
    CodestyleCheck,
    NameStyleCheck,
    SpellCheck,
}
impl Codestyle {
    /// The name that follows `codestyle:` in the code of this diagnostic.
    pub open spec fn code_name(self) -> Seq<char> {
        match self {
            Codestyle::CodestyleCheck => "codestyle-check"@,
            Codestyle::NameStyleCheck => "name-style-check"@,
            Codestyle::SpellCheck => "spell-check"@,
        }
    }

    /// The diagnostic of this group whose name is `name`, if there is one.
    pub fn from_code_name(name: &str) -> (r: Option<Codestyle>)
        ensures
            match r {
                Some(d) => d.code_name() == name@,
                None => forall|d: Codestyle| d.code_name() != name@,
            },
    {
        if text_eq(name, "codestyle-check") {
            return Some(Codestyle::CodestyleCheck);
        }
        if text_eq(name, "name-style-check") {
            return Some(Codestyle::NameStyleCheck);
        }
        if text_eq(name, "spell-check") {
            return Some(Codestyle::SpellCheck);
        }
        assert forall|d: Codestyle| d.code_name() != name@ by {
            match d {
                Codestyle::CodestyleCheck => {},
                Codestyle::NameStyleCheck => {},
                Codestyle::SpellCheck => {},
            }
        }
        None
    }
}

#[derive(Debug, Clone, Copy, PartialEq, Eq, PartialOrd, Ord, Hash, Structural)]
pub enum Conventions {
    GlobalElement,
}
impl Conventions {
    /// The name that follows `conventions:` in the code of this diagnostic.
    pub open spec fn code_name(self) -> Seq<char> {
        match self {
            Conventions::GlobalElement => "global-element"@,
        }
    }

    /// The diagnostic of this group whose name is `name`, if there is one.
    pub fn from_code_name(name: &str) -> (r: Option<Conventions>)
        ensures
            match r {
                Some(d) => d.code_name() == name@,
                None => forall|d: Conventions| d.code_name() != name@,
            },
    {
        if text_eq(name, "global-element") {
            return Some(Conventions::GlobalElement);
        }
        assert forall|d: Conventions| d.code_name() != name@ by {
            match d {
                Conventions::GlobalElement => {},
            }
        }
        None
    }
}

#[derive(Debug, Clone, Copy, PartialEq, Eq, PartialOrd, Ord, Hash, Structural)]
pub enum Duplicate {
    DuplicateIndex,
    DuplicateSetField,
}
impl Duplicate {
    /// The name that follows `duplicate:` in the code of this diagnostic.
    pub open spec fn code_name(self) -> Seq<char> {
        match self {
            Duplicate::DuplicateIndex => "duplicate-index"@,
            Duplicate::DuplicateSetField => "duplicate-set-field"@,
        }
    }

    /// The diagnostic of this group whose name is `name`, if there is one.
    pub fn from_code_name(name: &str) -> (r: Option<Duplicate>)
        ensures
            match r {
                Some(d) => d.code_name() == name@,
                None => forall|d: Duplicate| d.code_name() != name@,
            },
    {
        if text_eq(name, "duplicate-index") {
            return Some(Duplicate::DuplicateIndex);
        }
        if text_eq(name, "duplicate-set-field") {
            return Some(Duplicate::DuplicateSetField);
        }
        assert forall|d: Duplicate| d.code_name() != name@ by {
            match d {
                Duplicate::DuplicateIndex => {},
                Duplicate::DuplicateSetField => {},
            }
        }
        None
    }
}

#[derive(Debug, Clone, Copy, PartialEq, Eq, PartialOrd, Ord, Hash, Structural)]
pub enum Global {
    GlobalInNilEnv,
    LowercaseGlobal,
    UndefinedEnvChild,
    UndefinedGlobal,
}
impl Global {
    /// The name that follows `global:` in the code of this diagnostic.
    pub open spec fn code_name(self) -> Seq<char> {
        match self {
            Global::GlobalInNilEnv => "global-in-nil-env"@,
            Global::LowercaseGlobal => "lowercase-global"@,
            Global::UndefinedEnvChild => "undefined-env-child"@,
            Global::UndefinedGlobal => "undefined-global"@,
        }
    }

    /// The diagnostic of this group whose name is `name`, if there is one.
    pub fn from_code_name(name: &str) -> (r: Option<Global>)
        ensures
            match r {
                Some(d) => d.code_name() == name@,
                None => forall|d: Global| d.code_name() != name@,
            },
    {
        if text_eq(name, "global-in-nil-env") {
            return Some(Global::GlobalInNilEnv);
        }
        if text_eq(name, "lowercase-global") {
            return Some(Global::LowercaseGlobal);
        }
        if text_eq(name, "undefined-env-child") {
            return Some(Global::UndefinedEnvChild);
        }
        if text_eq(name, "undefined-global") {
            return Some(Global::UndefinedGlobal);
        }
        assert forall|d: Global| d.code_name() != name@ by {
            match d {
                Global::GlobalInNilEnv => {},
                Global::LowercaseGlobal => {},
                Global::UndefinedEnvChild => {},
                Global::UndefinedGlobal => {},
            }
        }
        None
    }
}

#[derive(Debug, Clone, Copy, PartialEq, Eq, PartialOrd, Ord, Hash, Structural)]
pub enum Luadoc {
    CastTypeMismatch,
    CircleDocClass,
    DocFieldNoClass,
    DuplicateDocAlias,
    DuplicateDocField,
    DuplicateDocParam,
    IncompleteSignatureDoc,
    MissingGlobalDoc,
    MissingLocalExportDoc,
    UndefinedDocClass,
    UndefinedDocName,
    UndefinedDocParam,
    UnknownCastVariable,
    UnknownDiagCode,
    UnknownOperator,
}
impl Luadoc {
    /// The name that follows `luadoc:` in the code of this diagnostic.
    pub open spec fn code_name(self) -> Seq<char> {
        match self {
            Luadoc::CastTypeMismatch => "cast-type-mismatch"@,
            Luadoc::CircleDocClass => "circle-doc-class"@,
            Luadoc::DocFieldNoClass => "doc-field-no-class"@,
            Luadoc::DuplicateDocAlias => "duplicate-doc-alias"@,
            Luadoc::DuplicateDocField => "duplicate-doc-field"@,
            Luadoc::DuplicateDocParam => "duplicate-doc-param"@,
            Luadoc::IncompleteSignatureDoc => "incomplete-signature-doc"@,
            Luadoc::MissingGlobalDoc => "missing-global-doc"@,
            Luadoc::MissingLocalExportDoc => "missing-local-export-doc"@,
            Luadoc::UndefinedDocClass => "undefined-doc-class"@,
            Luadoc::UndefinedDocName => "undefined-doc-name"@,
            Luadoc::UndefinedDocParam => "undefined-doc-param"@,
            Luadoc::UnknownCastVariable => "unknown-cast-variable"@,
            Luadoc::UnknownDiagCode => "unknown-diag-code"@,
            Luadoc::UnknownOperator => "unknown-operator"@,
        }
    }

    /// The diagnostic of this group whose name is `name`, if there is one.
    pub fn from_code_name(name: &str) -> (r: Option<Luadoc>)
        ensures
            match r {
                Some(d) => d.code_name() == name@,
                None => forall|d: Luadoc| d.code_name() != name@,
            },
    {
        if text_eq(name, "cast-type-mismatch") {
            return Some(Luadoc::CastTypeMismatch);
        }
        if text_eq(name, "circle-doc-class") {
            return Some(Luadoc::CircleDocClass);
        }
        if text_eq(name, "doc-field-no-class") {
            return Some(Luadoc::DocFieldNoClass);
        }
        if text_eq(name, "duplicate-doc-alias") {
            return Some(Luadoc::DuplicateDocAlias);
        }
        if text_eq(name, "duplicate-doc-field") {
            return Some(Luadoc::DuplicateDocField);
        }
        if text_eq(name, "duplicate-doc-param") {
            return Some(Luadoc::DuplicateDocParam);
        }
        if text_eq(name, "incomplete-signature-doc") {
            return Some(Luadoc::IncompleteSignatureDoc);
        }
        if text_eq(name, "missing-global-doc") {
            return Some(Luadoc::MissingGlobalDoc);
        }
        if text_eq(name, "missing-local-export-doc") {
            return Some(Luadoc::MissingLocalExportDoc);
        }
        if text_eq(name, "undefined-doc-class") {
            return Some(Luadoc::UndefinedDocClass);
        }
        if text_eq(name, "undefined-doc-name") {
            return Some(Luadoc::UndefinedDocName);
        }
        if text_eq(name, "undefined-doc-param") {
            return Some(Luadoc::UndefinedDocParam);
        }
        if text_eq(name, "unknown-cast-variable") {
            return Some(Luadoc::UnknownCastVariable);
        }
        if text_eq(name, "unknown-diag-code") {
            return Some(Luadoc::UnknownDiagCode);
        }
        if text_eq(name, "unknown-operator") {
            return Some(Luadoc::UnknownOperator);
        }
        assert forall|d: Luadoc| d.code_name() != name@ by {
            match d {
                Luadoc::CastTypeMismatch => {},
                Luadoc::CircleDocClass => {},
                Luadoc::DocFieldNoClass => {},
                Luadoc::DuplicateDocAlias => {},
                Luadoc::DuplicateDocField => {},
                Luadoc::DuplicateDocParam => {},
                Luadoc::IncompleteSignatureDoc => {},
                Luadoc::MissingGlobalDoc => {},
                Luadoc::MissingLocalExportDoc => {},
                Luadoc::UndefinedDocClass => {},
                Luadoc::UndefinedDocName => {},
                Luadoc::UndefinedDocParam => {},
                Luadoc::UnknownCastVariable => {},
                Luadoc::UnknownDiagCode => {},
                Luadoc::UnknownOperator => {},
            }
        }
        None
    }
}

#[derive(Debug, Clone, Copy, PartialEq, Eq, PartialOrd, Ord, Hash, Structural)]
pub enum Redefined {
    RedefinedLocal,
}
impl Redefined {
    /// The name that follows `redefined:` in the code of this diagnostic.
    pub open spec fn code_name(self) -> Seq<char> {
        match self {
            Redefined::RedefinedLocal => "redefined-local"@,
        }
    }

    /// The diagnostic of this group whose name is `name`, if there is one.
    pub fn from_code_name(name: &str) -> (r: Option<Redefined>)
        ensures
            match r {
                Some(d) => d.code_name() == name@,
                None => forall|d: Redefined| d.code_name() != name@,
            },
    {
        if text_eq(name, "redefined-local") {
            return Some(Redefined::RedefinedLocal);
        }
        assert forall|d: Redefined| d.code_name() != name@ by {
            match d {
                Redefined::RedefinedLocal => {},
            }
        }
        None
    }
}

#[derive(Debug, Clone, Copy, PartialEq, Eq, PartialOrd, Ord, Hash, Structural)]
pub enum Strict {
    CloseNonObject,
    Deprecated,
    DiscardReturns,
}
impl Strict {
    /// The name that follows `strict:` in the code of this diagnostic.
    pub open spec fn code_name(self) -> Seq<char> {
        match self {
            Strict::CloseNonObject => "close-non-object"@,
            Strict::Deprecated => "deprecated"@,
            Strict::DiscardReturns => "discard-returns"@,
        }
    }

    /// The diagnostic of this group whose name is `name`, if there is one.
    pub fn from_code_name(name: &str) -> (r: Option<Strict>)
        ensures
            match r {
                Some(d) => d.code_name() == name@,
                None => forall|d: Strict| d.code_name() != name@,
            },
    {
        if text_eq(name, "close-non-object") {
            return Some(Strict::CloseNonObject);
        }
        if text_eq(name, "deprecated") {
            return Some(Strict::Deprecated);
        }
        if text_eq(name, "discard-returns") {
            return Some(Strict::DiscardReturns);
        }
        assert forall|d: Strict| d.code_name() != name@ by {
            match d {
                Strict::CloseNonObject => {},
                Strict::Deprecated => {},
                Strict::DiscardReturns => {},
            }
        }
        None
    }
}

#[derive(Debug, Clone, Copy, PartialEq, Eq, PartialOrd, Ord, Hash, Structural)]
pub enum Strong {
    NoUnknown,
}
impl Strong {
    /// The name that follows `strong:` in the code of this diagnostic.
    pub open spec fn code_name(self) -> Seq<char> {
        match self {
            Strong::NoUnknown => "no-unknown"@,
        }
    }

    /// The diagnostic of this group whose name is `name`, if there is one.
    pub fn from_code_name(name: &str) -> (r: Option<Strong>)
        ensures
            match r {
                Some(d) => d.code_name() == name@,
                None => forall|d: Strong| d.code_name() != name@,
            },
    {
        if text_eq(name, "no-unknown") {
            return Some(Strong::NoUnknown);
        }
        assert forall|d: Strong| d.code_name() != name@ by {
            match d {
                Strong::NoUnknown => {},
            }
        }
        None
    }
}

#[derive(Debug, Clone, Copy, PartialEq, Eq, PartialOrd, Ord, Hash, Structural)]
pub enum TypeCheck {
    AssignTypeMismatch,
    CastLocalType,
    CastTypeMismatch,
    InjectField,
    NeedCheckNil,
    ParamTypeMismatch,
    ReturnTypeMismatch,
    UndefinedField,
}
impl TypeCheck {
    /// The name that follows `typecheck:` in the code of this diagnostic.
    pub open spec fn code_name(self) -> Seq<char> {
        match self {
            TypeCheck::AssignTypeMismatch => "assign-type-mismatch"@,
            TypeCheck::CastLocalType => "cast-local-type"@,
            TypeCheck::CastTypeMismatch => "cast-type-mismatch"@,
            TypeCheck::InjectField => "inject-field"@,
            TypeCheck::NeedCheckNil => "need-check-nil"@,
            TypeCheck::ParamTypeMismatch => "param-type-mismatch"@,
            TypeCheck::ReturnTypeMismatch => "return-type-mismatch"@,
            TypeCheck::UndefinedField => "undefined-field"@,
        }
    }

    /// The diagnostic of this group whose name is `name`, if there is one.
    pub fn from_code_name(name: &str) -> (r: Option<TypeCheck>)
        ensures
            match r {
                Some(d) => d.code_name() == name@,
                None => forall|d: TypeCheck| d.code_name() != name@,
            },
    {
        if text_eq(name, "assign-type-mismatch") {
            return Some(TypeCheck::AssignTypeMismatch);
        }
        if text_eq(name, "cast-local-type") {
            return Some(TypeCheck::CastLocalType);
        }
        if text_eq(name, "cast-type-mismatch") {
            return Some(TypeCheck::CastTypeMismatch);
        }
        if text_eq(name, "inject-field") {
            return Some(TypeCheck::InjectField);
        }
        if text_eq(name, "need-check-nil") {
            return Some(TypeCheck::NeedCheckNil);
        }
        if text_eq(name, "param-type-mismatch") {
            return Some(TypeCheck::ParamTypeMismatch);
        }
        if text_eq(name, "return-type-mismatch") {
            return Some(TypeCheck::ReturnTypeMismatch);
        }
        if text_eq(name, "undefined-field") {
            return Some(TypeCheck::UndefinedField);
        }
        assert forall|d: TypeCheck| d.code_name() != name@ by {
            match d {
                TypeCheck::AssignTypeMismatch => {},
                TypeCheck::CastLocalType => {},
                TypeCheck::CastTypeMismatch => {},
                TypeCheck::InjectField => {},
                TypeCheck::NeedCheckNil => {},
                TypeCheck::ParamTypeMismatch => {},
                TypeCheck::ReturnTypeMismatch => {},
                TypeCheck::UndefinedField => {},
            }
        }
        None
    }
}

#[derive(Debug, Clone, Copy, PartialEq, Eq, PartialOrd, Ord, Hash, Structural)]
pub enum Unbalanced {
    MissingFields,
    MissingParameter,
    MissingReturn,
    MissingReturnValue,
    RedundantParameter,
    RedundantReturnValue,
    RedundantValue,
    UnbalancedAssignments,
}
impl Unbalanced {
    /// The name that follows `unbalanced:` in the code of this diagnostic.
    pub open spec fn code_name(self) -> Seq<char> {
        match self {
            Unbalanced::MissingFields => "missing-fields"@,
            Unbalanced::MissingParameter => "missing-parameter"@,
            Unbalanced::MissingReturn => "missing-return"@,
            Unbalanced::MissingReturnValue => "missing-return-value"@,
            Unbalanced::RedundantParameter => "redundant-parameter"@,
            Unbalanced::RedundantReturnValue => "redundant-return-value"@,
            Unbalanced::RedundantValue => "redundant-value"@,
            Unbalanced::UnbalancedAssignments => "unbalanced-assignments"@,
        }
    }

    /// The diagnostic of this group whose name is `name`, if there is one.
    pub fn from_code_name(name: &str) -> (r: Option<Unbalanced>)
        ensures
            match r {
                Some(d) => d.code_name() == name@,
                None => forall|d: Unbalanced| d.code_name() != name@,
            },
    {
        if text_eq(name, "missing-fields") {
            return Some(Unbalanced::MissingFields);
        }
        if text_eq(name, "missing-parameter") {
            return Some(Unbalanced::MissingParameter);
        }
        if text_eq(name, "missing-return") {
            return Some(Unbalanced::MissingReturn);
        }
        if text_eq(name, "missing-return-value") {
            return Some(Unbalanced::MissingReturnValue);
        }
        if text_eq(name, "redundant-parameter") {
            return Some(Unbalanced::RedundantParameter);
        }
        if text_eq(name, "redundant-return-value") {
            return Some(Unbalanced::RedundantReturnValue);
        }
        if text_eq(name, "redundant-value") {
            return Some(Unbalanced::RedundantValue);
        }
        if text_eq(name, "unbalanced-assignments") {
            return Some(Unbalanced::UnbalancedAssignments);
        }
        assert forall|d: Unbalanced| d.code_name() != name@ by {
            match d {
                Unbalanced::MissingFields => {},
                Unbalanced::MissingParameter => {},
                Unbalanced::MissingReturn => {},
                Unbalanced::MissingReturnValue => {},
                Unbalanced::RedundantParameter => {},
                Unbalanced::RedundantReturnValue => {},
                Unbalanced::RedundantValue => {},
                Unbalanced::UnbalancedAssignments => {},
            }
        }
        None
    }
}

#[derive(Debug, Clone, Copy, PartialEq, Eq, PartialOrd, Ord, Hash, Structural)]
pub enum Unused {
    CodeAfterBreak,
    EmptyBlock,
    RedundantReturn,
    TrailingSpace,
    UnreachableCode,
    UnusedFunction,
    UnusedLabel,
    UnusedLocal,
    UnusedVararg,
}
impl Unused {
    /// The name that follows `unused:` in the code of this diagnostic.
    pub open spec fn code_name(self) -> Seq<char> {
        match self {
            Unused::CodeAfterBreak => "code-after-break"@,
            Unused::EmptyBlock => "empty-block"@,
            Unused::RedundantReturn => "redundant-return"@,
            Unused::TrailingSpace => "trailing-space"@,
            Unused::UnreachableCode => "unreachable-code"@,
            Unused::UnusedFunction => "unused-function"@,
            Unused::UnusedLabel => "unused-label"@,
            Unused::UnusedLocal => "unused-local"@,
            Unused::UnusedVararg => "unused-vararg"@,
        }
    }

    /// The diagnostic of this group whose name is `name`, if there is one.
    pub fn from_code_name(name: &str) -> (r: Option<Unused>)
        ensures
            match r {
                Some(d) => d.code_name() == name@,
                None => forall|d: Unused| d.code_name() != name@,
            },
    {
        if text_eq(name, "code-after-break") {
            return Some(Unused::CodeAfterBreak);
        }
        if text_eq(name, "empty-block") {
            return Some(Unused::EmptyBlock);
        }
        if text_eq(name, "redundant-return") {
            return Some(Unused::RedundantReturn);
        }
        if text_eq(name, "trailing-space") {
            return Some(Unused::TrailingSpace);
        }
        if text_eq(name, "unreachable-code") {
            return Some(Unused::UnreachableCode);
        }
        if text_eq(name, "unused-function") {
            return Some(Unused::UnusedFunction);
        }
        if text_eq(name, "unused-label") {
            return Some(Unused::UnusedLabel);
        }
        if text_eq(name, "unused-local") {
            return Some(Unused::UnusedLocal);
        }
        if text_eq(name, "unused-vararg") {
            return Some(Unused::UnusedVararg);
        }
        assert forall|d: Unused| d.code_name() != name@ by {
            match d {
                Unused::CodeAfterBreak => {},
                Unused::EmptyBlock => {},
                Unused::RedundantReturn => {},
                Unused::TrailingSpace => {},
                Unused::UnreachableCode => {},
                Unused::UnusedFunction => {},
                Unused::UnusedLabel => {},
                Unused::UnusedLocal => {},
                Unused::UnusedVararg => {},
            }
        }
        None
    }
}

#[derive(Debug, Clone, Copy, PartialEq, Eq, PartialOrd, Ord, Hash, Structural)]
pub enum Diagnostic {
    Ambiguity(Ambiguity),
    Await(Await),
    Codestyle(Codestyle),
    Conventions(Conventions),
    Duplicate(Duplicate),
    Global(Global),
    Luadoc(Luadoc),
    Redefined(Redefined),
    Strict(Strict),
    Strong(Strong),
    TypeCheck(TypeCheck),
    Unbalanced(Unbalanced),
    Unused(Unused),
}

#[derive(Debug, Clone, Copy, PartialEq, Eq, PartialOrd, Ord, Hash, Structural)]
pub enum DiagnosticGroup {
    Ambiguity,
    Await,
    Codestyle,
    Conventions,
    Duplicate,
    Global,
    Luadoc,
    Redefined,
    Strict,
    Strong,
    TypeCheck,
    Unbalanced,
    Unused,
}

impl Diagnostic {
    /// The group part of the code of this diagnostic, before the `:`.
    pub open spec fn code_group(self) -> Seq<char> {
        match self {
            Diagnostic::Ambiguity(_) => "ambiguity"@,
            Diagnostic::Await(_) => "await"@,
            Diagnostic::Codestyle(_) => "codestyle"@,
            Diagnostic::Conventions(_) => "conventions"@,
            Diagnostic::Duplicate(_) => "duplicate"@,
            Diagnostic::Global(_) => "global"@,
            Diagnostic::Luadoc(_) => "luadoc"@,
            Diagnostic::Redefined(_) => "redefined"@,
            Diagnostic::Strict(_) => "strict"@,
            Diagnostic::Strong(_) => "strong"@,
            Diagnostic::TypeCheck(_) => "typecheck"@,
            Diagnostic::Unbalanced(_) => "unbalanced"@,
            Diagnostic::Unused(_) => "unused"@,
        }
    }

    /// The name part of the code of this diagnostic, after the `:`.
    pub open spec fn code_name(self) -> Seq<char> {
        match self {
            Diagnostic::Ambiguity(d) => d.code_name(),
            Diagnostic::Await(d) => d.code_name(),
            Diagnostic::Codestyle(d) => d.code_name(),
            Diagnostic::Conventions(d) => d.code_name(),
            Diagnostic::Duplicate(d) => d.code_name(),
            Diagnostic::Global(d) => d.code_name(),
            Diagnostic::Luadoc(d) => d.code_name(),
            Diagnostic::Redefined(d) => d.code_name(),
            Diagnostic::Strict(d) => d.code_name(),
            Diagnostic::Strong(d) => d.code_name(),
            Diagnostic::TypeCheck(d) => d.code_name(),
            Diagnostic::Unbalanced(d) => d.code_name(),
            Diagnostic::Unused(d) => d.code_name(),
        }
    }

    /// The diagnostic whose code has group `group` and name `name`, if there is one.
    pub fn from_code(group: &str, name: &str) -> (r: Option<Diagnostic>)
        ensures
            match r {
                Some(d) => d.code_group() == group@ && d.code_name() == name@,
                None => forall|d: Diagnostic| !(d.code_group() == group@ && d.code_name() == name@),
            },
    {
        let in_ambiguity = text_eq(group, "ambiguity");
        if in_ambiguity {
            if let Some(d) = Ambiguity::from_code_name(name) {
                return Some(Diagnostic::Ambiguity(d));
            }
        }
        let in_await = text_eq(group, "await");
        if in_await {
            if let Some(d) = Await::from_code_name(name) {
                return Some(Diagnostic::Await(d));
            }
        }
        let in_codestyle = text_eq(group, "codestyle");
        if in_codestyle {
            if let Some(d) = Codestyle::from_code_name(name) {
                return Some(Diagnostic::Codestyle(d));
            }
        }
        let in_conventions = text_eq(group, "conventions");
        if in_conventions {
            if let Some(d) = Conventions::from_code_name(name) {
                return Some(Diagnostic::Conventions(d));
            }
        }
        let in_duplicate = text_eq(group, "duplicate");
        if in_duplicate {
            if let Some(d) = Duplicate::from_code_name(name) {
                return Some(Diagnostic::Duplicate(d));
            }
        }
        let in_global = text_eq(group, "global");
        if in_global {
            if let Some(d) = Global::from_code_name(name) {
                return Some(Diagnostic::Global(d));
            }
        }
        let in_luadoc = text_eq(group, "luadoc");
        if in_luadoc {
            if let Some(d) = Luadoc::from_code_name(name) {
                return Some(Diagnostic::Luadoc(d));
            }
        }
        let in_redefined = text_eq(group, "redefined");
        if in_redefined {
            if let Some(d) = Redefined::from_code_name(name) {
                return Some(Diagnostic::Redefined(d));
            }
        }
        let in_strict = text_eq(group, "strict");
        if in_strict {
            if let Some(d) = Strict::from_code_name(name) {
                return Some(Diagnostic::Strict(d));
            }
        }
        let in_strong = text_eq(group, "strong");
        if in_strong {
            if let Some(d) = Strong::from_code_name(name) {
                return Some(Diagnostic::Strong(d));
            }
        }
        let in_type_check = text_eq(group, "typecheck");
        if in_type_check {
            if let Some(d) = TypeCheck::from_code_name(name) {
                return Some(Diagnostic::TypeCheck(d));
            }
        }
        let in_unbalanced = text_eq(group, "unbalanced");
        if in_unbalanced {
            if let Some(d) = Unbalanced::from_code_name(name) {
                return Some(Diagnostic::Unbalanced(d));
            }
        }
        let in_unused = text_eq(group, "unused");
        if in_unused {
            if let Some(d) = Unused::from_code_name(name) {
                return Some(Diagnostic::Unused(d));
            }
        }
        assert forall|d: Diagnostic| !(d.code_group() == group@ && d.code_name() == name@) by {
            match d {
                Diagnostic::Ambiguity(_) => {},
                Diagnostic::Await(_) => {},
                Diagnostic::Codestyle(_) => {},
                Diagnostic::Conventions(_) => {},
                Diagnostic::Duplicate(_) => {},
                Diagnostic::Global(_) => {},
                Diagnostic::Luadoc(_) => {},
                Diagnostic::Redefined(_) => {},
                Diagnostic::Strict(_) => {},
                Diagnostic::Strong(_) => {},
                Diagnostic::TypeCheck(_) => {},
                Diagnostic::Unbalanced(_) => {},
                Diagnostic::Unused(_) => {},
            }
        }
        None
    }

    /// Reads a diagnostic from its `group:name` code.
    ///
    /// The text before the first `:` is the group and the rest is the name; a text
    /// without `:`, or a pair that names no diagnostic, is refused with a message.
    pub fn from_str(input: &str) -> (r: Result<Diagnostic, String>)
        ensures
            match split_at_first(input@, ':') {
                None => r matches Err(m) && m@
                    == "diagnostics must be of the format of <group>:<name>"@,
                Some((g, n)) => match r {
                    Ok(d) => reads_as(input@, d),
                    Err(m) => (forall|d: Diagnostic| !reads_as(input@, d)) && m@
                        == "invalid lua diagnostic: "@ + g + seq![':'] + n,
                },
            },
    {
        match split_once_char(input, ':') {
            None => Err(to_string("diagnostics must be of the format of <group>:<name>")),
            Some((group, name)) => match Diagnostic::from_code(group, name) {
                Some(d) => Ok(d),
                None => {
                    let mut m = concat("invalid lua diagnostic: ", group);
                    push_char(&mut m, ':');
                    m.append(name);
                    Err(m)
                },
            },
        }
    }
}

impl core::str::FromStr for Diagnostic {
    type Err = String;

    fn from_str(input: &str) -> (r: Result<Diagnostic, String>)
        ensures
            match split_at_first(input@, ':') {
                None => r matches Err(m) && m@
                    == "diagnostics must be of the format of <group>:<name>"@,
                Some((g, n)) => match r {
                    Ok(d) => reads_as(input@, d),
                    Err(m) => (forall|d: Diagnostic| !reads_as(input@, d)) && m@
                        == "invalid lua diagnostic: "@ + g + seq![':'] + n,
                },
            },
    {
        Diagnostic::from_str(input)
    }
}

} // verus!
verus! {

/// The full `group:name` code of a diagnostic.
pub open spec fn code_of(d: Diagnostic) -> Seq<char> {
    d.code_group() + seq![':'] + d.code_name()
}

/// `input` is read as the diagnostic `d`: its text before the first `:` is the group
/// of `d` and the text after it is the name of `d`.
pub open spec fn reads_as(input: Seq<char>, d: Diagnostic) -> bool {
    match split_at_first(input, ':') {
        Some((g, n)) => d.code_group() == g && d.code_name() == n,
        None => false,
    }
}

/// Different diagnostics of the group `ambiguity` have different names.
pub proof fn lemma_ambiguity_names_distinct(a: Ambiguity, b: Ambiguity)
    requires
        a.code_name() == b.code_name(),
    ensures
        a == b,
{
    reveal_strlit("ambiguity-1");
    reveal_strlit("count-down-loop");
    reveal_strlit("different-requires");
    reveal_strlit("newfield-call");
    reveal_strlit("newline-call");
    match (a, b) {
        (Ambiguity::Ambiguity1, Ambiguity::CountDownLoop) => {
            assert("ambiguity-1"@.len() != "count-down-loop"@.len());
        },
        (Ambiguity::Ambiguity1, Ambiguity::DifferentRequires) => {
            assert("ambiguity-1"@.len() != "different-requires"@.len());
        },
        (Ambiguity::Ambiguity1, Ambiguity::NewfieldCall) => {
            assert("ambiguity-1"@.len() != "newfield-call"@.len());
        },
        (Ambiguity::Ambiguity1, Ambiguity::NewlineCall) => {
            assert("ambiguity-1"@.len() != "newline-call"@.len());
        },
        (Ambiguity::CountDownLoop, Ambiguity::Ambiguity1) => {
            assert("count-down-loop"@.len() != "ambiguity-1"@.len());
        },
        (Ambiguity::CountDownLoop, Ambiguity::DifferentRequires) => {
            assert("count-down-loop"@.len() != "different-requires"@.len());
        },
        (Ambiguity::CountDownLoop, Ambiguity::NewfieldCall) => {
            assert("count-down-loop"@.len() != "newfield-call"@.len());
        },
        (Ambiguity::CountDownLoop, Ambiguity::NewlineCall) => {
            assert("count-down-loop"@.len() != "newline-call"@.len());
        },
        (Ambiguity::DifferentRequires, Ambiguity::Ambiguity1) => {
            assert("different-requires"@.len() != "ambiguity-1"@.len());
        },
        (Ambiguity::DifferentRequires, Ambiguity::CountDownLoop) => {
            assert("different-requires"@.len() != "count-down-loop"@.len());
        },
        (Ambiguity::DifferentRequires, Ambiguity::NewfieldCall) => {
            assert("different-requires"@.len() != "newfield-call"@.len());
        },
        (Ambiguity::DifferentRequires, Ambiguity::NewlineCall) => {
            assert("different-requires"@.len() != "newline-call"@.len());
        },
        (Ambiguity::NewfieldCall, Ambiguity::Ambiguity1) => {
            assert("newfield-call"@.len() != "ambiguity-1"@.len());
        },
        (Ambiguity::NewfieldCall, Ambiguity::CountDownLoop) => {
            assert("newfield-call"@.len() != "count-down-loop"@.len());
        },
        (Ambiguity::NewfieldCall, Ambiguity::DifferentRequires) => {
            assert("newfield-call"@.len() != "different-requires"@.len());
        },
        (Ambiguity::NewfieldCall, Ambiguity::NewlineCall) => {
            assert("newfield-call"@.len() != "newline-call"@.len());
        },
        (Ambiguity::NewlineCall, Ambiguity::Ambiguity1) => {
            assert("newline-call"@.len() != "ambiguity-1"@.len());
        },
        (Ambiguity::NewlineCall, Ambiguity::CountDownLoop) => {
            assert("newline-call"@.len() != "count-down-loop"@.len());
        },
        (Ambiguity::NewlineCall, Ambiguity::DifferentRequires) => {
            assert("newline-call"@.len() != "different-requires"@.len());
        },
        (Ambiguity::NewlineCall, Ambiguity::NewfieldCall) => {
            assert("newline-call"@.len() != "newfield-call"@.len());
        },
        _ => {},
    }
}

/// Different diagnostics of the group `await` have different names.
pub proof fn lemma_await_names_distinct(a: Await, b: Await)
    requires
        a.code_name() == b.code_name(),
    ensures
        a == b,
{
    reveal_strlit("await-in-sync");
    reveal_strlit("not-yieldable");
    match (a, b) {
        (Await::AwaitInSync, Await::NotYieldable) => {
            assert("await-in-sync"@[0] != "not-yieldable"@[0]);
        },
        (Await::NotYieldable, Await::AwaitInSync) => {
            assert("not-yieldable"@[0] != "await-in-sync"@[0]);
        },
        _ => {},
    }
}

/// Different diagnostics of the group `codestyle` have different names.
pub proof fn lemma_codestyle_names_distinct(a: Codestyle, b: Codestyle)
    requires
        a.code_name() == b.code_name(),
    ensures
        a == b,
{
    reveal_strlit("codestyle-check");
    reveal_strlit("name-style-check");
    reveal_strlit("spell-check");
    match (a, b) {
        (Codestyle::CodestyleCheck, Codestyle::NameStyleCheck) => {
            assert("codestyle-check"@.len() != "name-style-check"@.len());
        },
        (Codestyle::CodestyleCheck, Codestyle::SpellCheck) => {
            assert("codestyle-check"@.len() != "spell-check"@.len());
        },
        (Codestyle::NameStyleCheck, Codestyle::CodestyleCheck) => {
            assert("name-style-check"@.len() != "codestyle-check"@.len());
        },
        (Codestyle::NameStyleCheck, Codestyle::SpellCheck) => {
            assert("name-style-check"@.len() != "spell-check"@.len());
        },
        (Codestyle::SpellCheck, Codestyle::CodestyleCheck) => {
            assert("spell-check"@.len() != "codestyle-check"@.len());
        },
        (Codestyle::SpellCheck, Codestyle::NameStyleCheck) => {
            assert("spell-check"@.len() != "name-style-check"@.len());
        },
        _ => {},
    }
}

/// Different diagnostics of the group `conventions` have different names.
pub proof fn lemma_conventions_names_distinct(a: Conventions, b: Conventions)
    requires
        a.code_name() == b.code_name(),
    ensures
        a == b,
{
    reveal_strlit("global-element");
    match (a, b) {
        _ => {},
    }
}

/// Different diagnostics of the group `duplicate` have different names.
pub proof fn lemma_duplicate_names_distinct(a: Duplicate, b: Duplicate)
    requires
        a.code_name() == b.code_name(),
    ensures
        a == b,
{
    reveal_strlit("duplicate-index");
    reveal_strlit("duplicate-set-field");
    match (a, b) {
        (Duplicate::DuplicateIndex, Duplicate::DuplicateSetField) => {
            assert("duplicate-index"@.len() != "duplicate-set-field"@.len());
        },
        (Duplicate::DuplicateSetField, Duplicate::DuplicateIndex) => {
            assert("duplicate-set-field"@.len() != "duplicate-index"@.len());
        },
        _ => {},
    }
}

/// Different diagnostics of the group `global` have different names.
pub proof fn lemma_global_names_distinct(a: Global, b: Global)
    requires
        a.code_name() == b.code_name(),
    ensures
        a == b,
{
    reveal_strlit("global-in-nil-env");
    reveal_strlit("lowercase-global");
    reveal_strlit("undefined-env-child");
    reveal_strlit("undefined-global");
    match (a, b) {
        (Global::GlobalInNilEnv, Global::LowercaseGlobal) => {
            assert("global-in-nil-env"@.len() != "lowercase-global"@.len());
        },
        (Global::GlobalInNilEnv, Global::UndefinedEnvChild) => {
            assert("global-in-nil-env"@.len() != "undefined-env-child"@.len());
        },
        (Global::GlobalInNilEnv, Global::UndefinedGlobal) => {
            assert("global-in-nil-env"@.len() != "undefined-global"@.len());
        },
        (Global::LowercaseGlobal, Global::GlobalInNilEnv) => {
            assert("lowercase-global"@.len() != "global-in-nil-env"@.len());
        },
        (Global::LowercaseGlobal, Global::UndefinedEnvChild) => {
            assert("lowercase-global"@.len() != "undefined-env-child"@.len());
        },
        (Global::LowercaseGlobal, Global::UndefinedGlobal) => {
            assert("lowercase-global"@[0] != "undefined-global"@[0]);
        },
        (Global::UndefinedEnvChild, Global::GlobalInNilEnv) => {
            assert("undefined-env-child"@.len() != "global-in-nil-env"@.len());
        },
        (Global::UndefinedEnvChild, Global::LowercaseGlobal) => {
            assert("undefined-env-child"@.len() != "lowercase-global"@.len());
        },
        (Global::UndefinedEnvChild, Global::UndefinedGlobal) => {
            assert("undefined-env-child"@.len() != "undefined-global"@.len());
        },
        (Global::UndefinedGlobal, Global::GlobalInNilEnv) => {
            assert("undefined-global"@.len() != "global-in-nil-env"@.len());
        },
        (Global::UndefinedGlobal, Global::LowercaseGlobal) => {
            assert("undefined-global"@[0] != "lowercase-global"@[0]);
        },
        (Global::UndefinedGlobal, Global::UndefinedEnvChild) => {
            assert("undefined-global"@.len() != "undefined-env-child"@.len());
        },
        _ => {},
    }
}

/// Different diagnostics of the group `luadoc` have different names.
pub proof fn lemma_luadoc_names_distinct(a: Luadoc, b: Luadoc)
    requires
        a.code_name() == b.code_name(),
    ensures
        a == b,
{
    reveal_strlit("cast-type-mismatch");
    reveal_strlit("circle-doc-class");
    reveal_strlit("doc-field-no-class");
    reveal_strlit("duplicate-doc-alias");
    reveal_strlit("duplicate-doc-field");
    reveal_strlit("duplicate-doc-param");
    reveal_strlit("incomplete-signature-doc");
    reveal_strlit("missing-global-doc");
    reveal_strlit("missing-local-export-doc");
    reveal_strlit("undefined-doc-class");
    reveal_strlit("undefined-doc-name");
    reveal_strlit("undefined-doc-param");
    reveal_strlit("unknown-cast-variable");
    reveal_strlit("unknown-diag-code");
    reveal_strlit("unknown-operator");
    match (a, b) {
        (Luadoc::CastTypeMismatch, Luadoc::CircleDocClass) => {
            assert("cast-type-mismatch"@.len() != "circle-doc-class"@.len());
        },
        (Luadoc::CastTypeMismatch, Luadoc::DocFieldNoClass) => {
            assert("cast-type-mismatch"@[0] != "doc-field-no-class"@[0]);
        },
        (Luadoc::CastTypeMismatch, Luadoc::DuplicateDocAlias) => {
            assert("cast-type-mismatch"@.len() != "duplicate-doc-alias"@.len());
        },
        (Luadoc::CastTypeMismatch, Luadoc::DuplicateDocField) => {
            assert("cast-type-mismatch"@.len() != "duplicate-doc-field"@.len());
        },
        (Luadoc::CastTypeMismatch, Luadoc::DuplicateDocParam) => {
            assert("cast-type-mismatch"@.len() != "duplicate-doc-param"@.len());
        },
        (Luadoc::CastTypeMismatch, Luadoc::IncompleteSignatureDoc) => {
            assert("cast-type-mismatch"@.len() != "incomplete-signature-doc"@.len());
        },
        (Luadoc::CastTypeMismatch, Luadoc::MissingGlobalDoc) => {
            assert("cast-type-mismatch"@[0] != "missing-global-doc"@[0]);
        },
        (Luadoc::CastTypeMismatch, Luadoc::MissingLocalExportDoc) => {
            assert("cast-type-mismatch"@.len() != "missing-local-export-doc"@.len());
        },
        (Luadoc::CastTypeMismatch, Luadoc::UndefinedDocClass) => {
            assert("cast-type-mismatch"@.len() != "undefined-doc-class"@.len());
        },
        (Luadoc::CastTypeMismatch, Luadoc::UndefinedDocName) => {
            assert("cast-type-mismatch"@[0] != "undefined-doc-name"@[0]);
        },
        (Luadoc::CastTypeMismatch, Luadoc::UndefinedDocParam) => {
            assert("cast-type-mismatch"@.len() != "undefined-doc-param"@.len());
        },
        (Luadoc::CastTypeMismatch, Luadoc::UnknownCastVariable) => {
            assert("cast-type-mismatch"@.len() != "unknown-cast-variable"@.len());
        },
        (Luadoc::CastTypeMismatch, Luadoc::UnknownDiagCode) => {
            assert("cast-type-mismatch"@.len() != "unknown-diag-code"@.len());
        },
        (Luadoc::CastTypeMismatch, Luadoc::UnknownOperator) => {
            assert("cast-type-mismatch"@.len() != "unknown-operator"@.len());
        },
        (Luadoc::CircleDocClass, Luadoc::CastTypeMismatch) => {
            assert("circle-doc-class"@.len() != "cast-type-mismatch"@.len());
        },
        (Luadoc::CircleDocClass, Luadoc::DocFieldNoClass) => {
            assert("circle-doc-class"@.len() != "doc-field-no-class"@.len());
        },
        (Luadoc::CircleDocClass, Luadoc::DuplicateDocAlias) => {
            assert("circle-doc-class"@.len() != "duplicate-doc-alias"@.len());
        },
        (Luadoc::CircleDocClass, Luadoc::DuplicateDocField) => {
            assert("circle-doc-class"@.len() != "duplicate-doc-field"@.len());
        },
        (Luadoc::CircleDocClass, Luadoc::DuplicateDocParam) => {
            assert("circle-doc-class"@.len() != "duplicate-doc-param"@.len());
        },
        (Luadoc::CircleDocClass, Luadoc::IncompleteSignatureDoc) => {
            assert("circle-doc-class"@.len() != "incomplete-signature-doc"@.len());
        },
        (Luadoc::CircleDocClass, Luadoc::MissingGlobalDoc) => {
            assert("circle-doc-class"@.len() != "missing-global-doc"@.len());
        },
        (Luadoc::CircleDocClass, Luadoc::MissingLocalExportDoc) => {
            assert("circle-doc-class"@.len() != "missing-local-export-doc"@.len());
        },
        (Luadoc::CircleDocClass, Luadoc::UndefinedDocClass) => {
            assert("circle-doc-class"@.len() != "undefined-doc-class"@.len());
        },
        (Luadoc::CircleDocClass, Luadoc::UndefinedDocName) => {
            assert("circle-doc-class"@.len() != "undefined-doc-name"@.len());
        },
        (Luadoc::CircleDocClass, Luadoc::UndefinedDocParam) => {
            assert("circle-doc-class"@.len() != "undefined-doc-param"@.len());
        },
        (Luadoc::CircleDocClass, Luadoc::UnknownCastVariable) => {
            assert("circle-doc-class"@.len() != "unknown-cast-variable"@.len());
        },
        (Luadoc::CircleDocClass, Luadoc::UnknownDiagCode) => {
            assert("circle-doc-class"@.len() != "unknown-diag-code"@.len());
        },
        (Luadoc::CircleDocClass, Luadoc::UnknownOperator) => {
            assert("circle-doc-class"@[0] != "unknown-operator"@[0]);
        },
        (Luadoc::DocFieldNoClass, Luadoc::CastTypeMismatch) => {
            assert("doc-field-no-class"@[0] != "cast-type-mismatch"@[0]);
        },
        (Luadoc::DocFieldNoClass, Luadoc::CircleDocClass) => {
            assert("doc-field-no-class"@.len() != "circle-doc-class"@.len());
        },
        (Luadoc::DocFieldNoClass, Luadoc::DuplicateDocAlias) => {
            assert("doc-field-no-class"@.len() != "duplicate-doc-alias"@.len());
        },
        (Luadoc::DocFieldNoClass, Luadoc::DuplicateDocField) => {
            assert("doc-field-no-class"@.len() != "duplicate-doc-field"@.len());
        },
        (Luadoc::DocFieldNoClass, Luadoc::DuplicateDocParam) => {
            assert("doc-field-no-class"@.len() != "duplicate-doc-param"@.len());
        },
        (Luadoc::DocFieldNoClass, Luadoc::IncompleteSignatureDoc) => {
            assert("doc-field-no-class"@.len() != "incomplete-signature-doc"@.len());
        },
        (Luadoc::DocFieldNoClass, Luadoc::MissingGlobalDoc) => {
            assert("doc-field-no-class"@[0] != "missing-global-doc"@[0]);
        },
        (Luadoc::DocFieldNoClass, Luadoc::MissingLocalExportDoc) => {
            assert("doc-field-no-class"@.len() != "missing-local-export-doc"@.len());
        },
        (Luadoc::DocFieldNoClass, Luadoc::UndefinedDocClass) => {
            assert("doc-field-no-class"@.len() != "undefined-doc-class"@.len());
        },
        (Luadoc::DocFieldNoClass, Luadoc::UndefinedDocName) => {
            assert("doc-field-no-class"@[0] != "undefined-doc-name"@[0]);
        },
        (Luadoc::DocFieldNoClass, Luadoc::UndefinedDocParam) => {
            assert("doc-field-no-class"@.len() != "undefined-doc-param"@.len());
        },
        (Luadoc::DocFieldNoClass, Luadoc::UnknownCastVariable) => {
            assert("doc-field-no-class"@.len() != "unknown-cast-variable"@.len());
        },
        (Luadoc::DocFieldNoClass, Luadoc::UnknownDiagCode) => {
            assert("doc-field-no-class"@.len() != "unknown-diag-code"@.len());
        },
        (Luadoc::DocFieldNoClass, Luadoc::UnknownOperator) => {
            assert("doc-field-no-class"@.len() != "unknown-operator"@.len());
        },
        (Luadoc::DuplicateDocAlias, Luadoc::CastTypeMismatch) => {
            assert("duplicate-doc-alias"@.len() != "cast-type-mismatch"@.len());
        },
        (Luadoc::DuplicateDocAlias, Luadoc::CircleDocClass) => {
            assert("duplicate-doc-alias"@.len() != "circle-doc-class"@.len());
        },
        (Luadoc::DuplicateDocAlias, Luadoc::DocFieldNoClass) => {
            assert("duplicate-doc-alias"@.len() != "doc-field-no-class"@.len());
        },
        (Luadoc::DuplicateDocAlias, Luadoc::DuplicateDocField) => {
            assert("duplicate-doc-alias"@[14] != "duplicate-doc-field"@[14]);
        },
        (Luadoc::DuplicateDocAlias, Luadoc::DuplicateDocParam) => {
            assert("duplicate-doc-alias"@[14] != "duplicate-doc-param"@[14]);
        },
        (Luadoc::DuplicateDocAlias, Luadoc::IncompleteSignatureDoc) => {
            assert("duplicate-doc-alias"@.len() != "incomplete-signature-doc"@.len());
        },
        (Luadoc::DuplicateDocAlias, Luadoc::MissingGlobalDoc) => {
            assert("duplicate-doc-alias"@.len() != "missing-global-doc"@.len());
        },
        (Luadoc::DuplicateDocAlias, Luadoc::MissingLocalExportDoc) => {
            assert("duplicate-doc-alias"@.len() != "missing-local-export-doc"@.len());
        },
        (Luadoc::DuplicateDocAlias, Luadoc::UndefinedDocClass) => {
            assert("duplicate-doc-alias"@[0] != "undefined-doc-class"@[0]);
        },
        (Luadoc::DuplicateDocAlias, Luadoc::UndefinedDocName) => {
            assert("duplicate-doc-alias"@.len() != "undefined-doc-name"@.len());
        },
        (Luadoc::DuplicateDocAlias, Luadoc::UndefinedDocParam) => {
            assert("duplicate-doc-alias"@[0] != "undefined-doc-param"@[0]);
        },
        (Luadoc::DuplicateDocAlias, Luadoc::UnknownCastVariable) => {
            assert("duplicate-doc-alias"@.len() != "unknown-cast-variable"@.len());
        },
        (Luadoc::DuplicateDocAlias, Luadoc::UnknownDiagCode) => {
            assert("duplicate-doc-alias"@.len() != "unknown-diag-code"@.len());
        },
        (Luadoc::DuplicateDocAlias, Luadoc::UnknownOperator) => {
            assert("duplicate-doc-alias"@.len() != "unknown-operator"@.len());
        },
        (Luadoc::DuplicateDocField, Luadoc::CastTypeMismatch) => {
            assert("duplicate-doc-field"@.len() != "cast-type-mismatch"@.len());
        },
        (Luadoc::DuplicateDocField, Luadoc::CircleDocClass) => {
            assert("duplicate-doc-field"@.len() != "circle-doc-class"@.len());
        },
        (Luadoc::DuplicateDocField, Luadoc::DocFieldNoClass) => {
            assert("duplicate-doc-field"@.len() != "doc-field-no-class"@.len());
        },
        (Luadoc::DuplicateDocField, Luadoc::DuplicateDocAlias) => {
            assert("duplicate-doc-field"@[14] != "duplicate-doc-alias"@[14]);
        },
        (Luadoc::DuplicateDocField, Luadoc::DuplicateDocParam) => {
            assert("duplicate-doc-field"@[14] != "duplicate-doc-param"@[14]);
        },
        (Luadoc::DuplicateDocField, Luadoc::IncompleteSignatureDoc) => {
            assert("duplicate-doc-field"@.len() != "incomplete-signature-doc"@.len());
        },
        (Luadoc::DuplicateDocField, Luadoc::MissingGlobalDoc) => {
            assert("duplicate-doc-field"@.len() != "missing-global-doc"@.len());
        },
        (Luadoc::DuplicateDocField, Luadoc::MissingLocalExportDoc) => {
            assert("duplicate-doc-field"@.len() != "missing-local-export-doc"@.len());
        },
        (Luadoc::DuplicateDocField, Luadoc::UndefinedDocClass) => {
            assert("duplicate-doc-field"@[0] != "undefined-doc-class"@[0]);
        },
        (Luadoc::DuplicateDocField, Luadoc::UndefinedDocName) => {
            assert("duplicate-doc-field"@.len() != "undefined-doc-name"@.len());
        },
        (Luadoc::DuplicateDocField, Luadoc::UndefinedDocParam) => {
            assert("duplicate-doc-field"@[0] != "undefined-doc-param"@[0]);
        },
        (Luadoc::DuplicateDocField, Luadoc::UnknownCastVariable) => {
            assert("duplicate-doc-field"@.len() != "unknown-cast-variable"@.len());
        },
        (Luadoc::DuplicateDocField, Luadoc::UnknownDiagCode) => {
            assert("duplicate-doc-field"@.len() != "unknown-diag-code"@.len());
        },
        (Luadoc::DuplicateDocField, Luadoc::UnknownOperator) => {
            assert("duplicate-doc-field"@.len() != "unknown-operator"@.len());
        },
        (Luadoc::DuplicateDocParam, Luadoc::CastTypeMismatch) => {
            assert("duplicate-doc-param"@.len() != "cast-type-mismatch"@.len());
        },
        (Luadoc::DuplicateDocParam, Luadoc::CircleDocClass) => {
            assert("duplicate-doc-param"@.len() != "circle-doc-class"@.len());
        },
        (Luadoc::DuplicateDocParam, Luadoc::DocFieldNoClass) => {
            assert("duplicate-doc-param"@.len() != "doc-field-no-class"@.len());
        },
        (Luadoc::DuplicateDocParam, Luadoc::DuplicateDocAlias) => {
            assert("duplicate-doc-param"@[14] != "duplicate-doc-alias"@[14]);
        },
        (Luadoc::DuplicateDocParam, Luadoc::DuplicateDocField) => {
            assert("duplicate-doc-param"@[14] != "duplicate-doc-field"@[14]);
        },
        (Luadoc::DuplicateDocParam, Luadoc::IncompleteSignatureDoc) => {
            assert("duplicate-doc-param"@.len() != "incomplete-signature-doc"@.len());
        },
        (Luadoc::DuplicateDocParam, Luadoc::MissingGlobalDoc) => {
            assert("duplicate-doc-param"@.len() != "missing-global-doc"@.len());
        },
        (Luadoc::DuplicateDocParam, Luadoc::MissingLocalExportDoc) => {
            assert("duplicate-doc-param"@.len() != "missing-local-export-doc"@.len());
        },
        (Luadoc::DuplicateDocParam, Luadoc::UndefinedDocClass) => {
            assert("duplicate-doc-param"@[0] != "undefined-doc-class"@[0]);
        },
        (Luadoc::DuplicateDocParam, Luadoc::UndefinedDocName) => {
            assert("duplicate-doc-param"@.len() != "undefined-doc-name"@.len());
        },
        (Luadoc::DuplicateDocParam, Luadoc::UndefinedDocParam) => {
            assert("duplicate-doc-param"@[0] != "undefined-doc-param"@[0]);
        },
        (Luadoc::DuplicateDocParam, Luadoc::UnknownCastVariable) => {
            assert("duplicate-doc-param"@.len() != "unknown-cast-variable"@.len());
        },
        (Luadoc::DuplicateDocParam, Luadoc::UnknownDiagCode) => {
            assert("duplicate-doc-param"@.len() != "unknown-diag-code"@.len());
        },
        (Luadoc::DuplicateDocParam, Luadoc::UnknownOperator) => {
            assert("duplicate-doc-param"@.len() != "unknown-operator"@.len());
        },
        (Luadoc::IncompleteSignatureDoc, Luadoc::CastTypeMismatch) => {
            assert("incomplete-signature-doc"@.len() != "cast-type-mismatch"@.len());
        },
        (Luadoc::IncompleteSignatureDoc, Luadoc::CircleDocClass) => {
            assert("incomplete-signature-doc"@.len() != "circle-doc-class"@.len());
        },
        (Luadoc::IncompleteSignatureDoc, Luadoc::DocFieldNoClass) => {
            assert("incomplete-signature-doc"@.len() != "doc-field-no-class"@.len());
        },
        (Luadoc::IncompleteSignatureDoc, Luadoc::DuplicateDocAlias) => {
            assert("incomplete-signature-doc"@.len() != "duplicate-doc-alias"@.len());
        },
        (Luadoc::IncompleteSignatureDoc, Luadoc::DuplicateDocField) => {
            assert("incomplete-signature-doc"@.len() != "duplicate-doc-field"@.len());
        },
        (Luadoc::IncompleteSignatureDoc, Luadoc::DuplicateDocParam) => {
            assert("incomplete-signature-doc"@.len() != "duplicate-doc-param"@.len());
        },
        (Luadoc::IncompleteSignatureDoc, Luadoc::MissingGlobalDoc) => {
            assert("incomplete-signature-doc"@.len() != "missing-global-doc"@.len());
        },
        (Luadoc::IncompleteSignatureDoc, Luadoc::MissingLocalExportDoc) => {
            assert("incomplete-signature-doc"@[0] != "missing-local-export-doc"@[0]);
        },
        (Luadoc::IncompleteSignatureDoc, Luadoc::UndefinedDocClass) => {
            assert("incomplete-signature-doc"@.len() != "undefined-doc-class"@.len());
        },
        (Luadoc::IncompleteSignatureDoc, Luadoc::UndefinedDocName) => {
            assert("incomplete-signature-doc"@.len() != "undefined-doc-name"@.len());
        },
        (Luadoc::IncompleteSignatureDoc, Luadoc::UndefinedDocParam) => {
            assert("incomplete-signature-doc"@.len() != "undefined-doc-param"@.len());
        },
        (Luadoc::IncompleteSignatureDoc, Luadoc::UnknownCastVariable) => {
            assert("incomplete-signature-doc"@.len() != "unknown-cast-variable"@.len());
        },
        (Luadoc::IncompleteSignatureDoc, Luadoc::UnknownDiagCode) => {
            assert("incomplete-signature-doc"@.len() != "unknown-diag-code"@.len());
        },
        (Luadoc::IncompleteSignatureDoc, Luadoc::UnknownOperator) => {
            assert("incomplete-signature-doc"@.len() != "unknown-operator"@.len());
        },
        (Luadoc::MissingGlobalDoc, Luadoc::CastTypeMismatch) => {
            assert("missing-global-doc"@[0] != "cast-type-mismatch"@[0]);
        },
        (Luadoc::MissingGlobalDoc, Luadoc::CircleDocClass) => {
            assert("missing-global-doc"@.len() != "circle-doc-class"@.len());
        },
        (Luadoc::MissingGlobalDoc, Luadoc::DocFieldNoClass) => {
            assert("missing-global-doc"@[0] != "doc-field-no-class"@[0]);
        },
        (Luadoc::MissingGlobalDoc, Luadoc::DuplicateDocAlias) => {
            assert("missing-global-doc"@.len() != "duplicate-doc-alias"@.len());
        },
        (Luadoc::MissingGlobalDoc, Luadoc::DuplicateDocField) => {
            assert("missing-global-doc"@.len() != "duplicate-doc-field"@.len());
        },
        (Luadoc::MissingGlobalDoc, Luadoc::DuplicateDocParam) => {
            assert("missing-global-doc"@.len() != "duplicate-doc-param"@.len());
        },
        (Luadoc::MissingGlobalDoc, Luadoc::IncompleteSignatureDoc) => {
            assert("missing-global-doc"@.len() != "incomplete-signature-doc"@.len());
        },
        (Luadoc::MissingGlobalDoc, Luadoc::MissingLocalExportDoc) => {
            assert("missing-global-doc"@.len() != "missing-local-export-doc"@.len());
        },
        (Luadoc::MissingGlobalDoc, Luadoc::UndefinedDocClass) => {
            assert("missing-global-doc"@.len() != "undefined-doc-class"@.len());
        },
        (Luadoc::MissingGlobalDoc, Luadoc::UndefinedDocName) => {
            assert("missing-global-doc"@[0] != "undefined-doc-name"@[0]);
        },
        (Luadoc::MissingGlobalDoc, Luadoc::UndefinedDocParam) => {
            assert("missing-global-doc"@.len() != "undefined-doc-param"@.len());
        },
        (Luadoc::MissingGlobalDoc, Luadoc::UnknownCastVariable) => {
            assert("missing-global-doc"@.len() != "unknown-cast-variable"@.len());
        },
        (Luadoc::MissingGlobalDoc, Luadoc::UnknownDiagCode) => {
            assert("missing-global-doc"@.len() != "unknown-diag-code"@.len());
        },
        (Luadoc::MissingGlobalDoc, Luadoc::UnknownOperator) => {
            assert("missing-global-doc"@.len() != "unknown-operator"@.len());
        },
        (Luadoc::MissingLocalExportDoc, Luadoc::CastTypeMismatch) => {
            assert("missing-local-export-doc"@.len() != "cast-type-mismatch"@.len());
        },
        (Luadoc::MissingLocalExportDoc, Luadoc::CircleDocClass) => {
            assert("missing-local-export-doc"@.len() != "circle-doc-class"@.len());
        },
        (Luadoc::MissingLocalExportDoc, Luadoc::DocFieldNoClass) => {
            assert("missing-local-export-doc"@.len() != "doc-field-no-class"@.len());
        },
        (Luadoc::MissingLocalExportDoc, Luadoc::DuplicateDocAlias) => {
            assert("missing-local-export-doc"@.len() != "duplicate-doc-alias"@.len());
        },
        (Luadoc::MissingLocalExportDoc, Luadoc::DuplicateDocField) => {
            assert("missing-local-export-doc"@.len() != "duplicate-doc-field"@.len());
        },
        (Luadoc::MissingLocalExportDoc, Luadoc::DuplicateDocParam) => {
            assert("missing-local-export-doc"@.len() != "duplicate-doc-param"@.len());
        },
        (Luadoc::MissingLocalExportDoc, Luadoc::IncompleteSignatureDoc) => {
            assert("missing-local-export-doc"@[0] != "incomplete-signature-doc"@[0]);
        },
        (Luadoc::MissingLocalExportDoc, Luadoc::MissingGlobalDoc) => {
            assert("missing-local-export-doc"@.len() != "missing-global-doc"@.len());
        },
        (Luadoc::MissingLocalExportDoc, Luadoc::UndefinedDocClass) => {
            assert("missing-local-export-doc"@.len() != "undefined-doc-class"@.len());
        },
        (Luadoc::MissingLocalExportDoc, Luadoc::UndefinedDocName) => {
            assert("missing-local-export-doc"@.len() != "undefined-doc-name"@.len());
        },
        (Luadoc::MissingLocalExportDoc, Luadoc::UndefinedDocParam) => {
            assert("missing-local-export-doc"@.len() != "undefined-doc-param"@.len());
        },
        (Luadoc::MissingLocalExportDoc, Luadoc::UnknownCastVariable) => {
            assert("missing-local-export-doc"@.len() != "unknown-cast-variable"@.len());
        },
        (Luadoc::MissingLocalExportDoc, Luadoc::UnknownDiagCode) => {
            assert("missing-local-export-doc"@.len() != "unknown-diag-code"@.len());
        },
        (Luadoc::MissingLocalExportDoc, Luadoc::UnknownOperator) => {
            assert("missing-local-export-doc"@.len() != "unknown-operator"@.len());
        },
        (Luadoc::UndefinedDocClass, Luadoc::CastTypeMismatch) => {
            assert("undefined-doc-class"@.len() != "cast-type-mismatch"@.len());
        },
        (Luadoc::UndefinedDocClass, Luadoc::CircleDocClass) => {
            assert("undefined-doc-class"@.len() != "circle-doc-class"@.len());
        },
        (Luadoc::UndefinedDocClass, Luadoc::DocFieldNoClass) => {
            assert("undefined-doc-class"@.len() != "doc-field-no-class"@.len());
        },
        (Luadoc::UndefinedDocClass, Luadoc::DuplicateDocAlias) => {
            assert("undefined-doc-class"@[0] != "duplicate-doc-alias"@[0]);
        },
        (Luadoc::UndefinedDocClass, Luadoc::DuplicateDocField) => {
            assert("undefined-doc-class"@[0] != "duplicate-doc-field"@[0]);
        },
        (Luadoc::UndefinedDocClass, Luadoc::DuplicateDocParam) => {
            assert("undefined-doc-class"@[0] != "duplicate-doc-param"@[0]);
        },
        (Luadoc::UndefinedDocClass, Luadoc::IncompleteSignatureDoc) => {
            assert("undefined-doc-class"@.len() != "incomplete-signature-doc"@.len());
        },
        (Luadoc::UndefinedDocClass, Luadoc::MissingGlobalDoc) => {
            assert("undefined-doc-class"@.len() != "missing-global-doc"@.len());
        },
        (Luadoc::UndefinedDocClass, Luadoc::MissingLocalExportDoc) => {
            assert("undefined-doc-class"@.len() != "missing-local-export-doc"@.len());
        },
        (Luadoc::UndefinedDocClass, Luadoc::UndefinedDocName) => {
            assert("undefined-doc-class"@.len() != "undefined-doc-name"@.len());
        },
        (Luadoc::UndefinedDocClass, Luadoc::UndefinedDocParam) => {
            assert("undefined-doc-class"@[14] != "undefined-doc-param"@[14]);
        },
        (Luadoc::UndefinedDocClass, Luadoc::UnknownCastVariable) => {
            assert("undefined-doc-class"@.len() != "unknown-cast-variable"@.len());
        },
        (Luadoc::UndefinedDocClass, Luadoc::UnknownDiagCode) => {
            assert("undefined-doc-class"@.len() != "unknown-diag-code"@.len());
        },
        (Luadoc::UndefinedDocClass, Luadoc::UnknownOperator) => {
            assert("undefined-doc-class"@.len() != "unknown-operator"@.len());
        },
        (Luadoc::UndefinedDocName, Luadoc::CastTypeMismatch) => {
            assert("undefined-doc-name"@[0] != "cast-type-mismatch"@[0]);
        },
        (Luadoc::UndefinedDocName, Luadoc::CircleDocClass) => {
            assert("undefined-doc-name"@.len() != "circle-doc-class"@.len());
        },
        (Luadoc::UndefinedDocName, Luadoc::DocFieldNoClass) => {
            assert("undefined-doc-name"@[0] != "doc-field-no-class"@[0]);
        },
        (Luadoc::UndefinedDocName, Luadoc::DuplicateDocAlias) => {
            assert("undefined-doc-name"@.len() != "duplicate-doc-alias"@.len());
        },
        (Luadoc::UndefinedDocName, Luadoc::DuplicateDocField) => {
            assert("undefined-doc-name"@.len() != "duplicate-doc-field"@.len());
        },
        (Luadoc::UndefinedDocName, Luadoc::DuplicateDocParam) => {
            assert("undefined-doc-name"@.len() != "duplicate-doc-param"@.len());
        },
        (Luadoc::UndefinedDocName, Luadoc::IncompleteSignatureDoc) => {
            assert("undefined-doc-name"@.len() != "incomplete-signature-doc"@.len());
        },
        (Luadoc::UndefinedDocName, Luadoc::MissingGlobalDoc) => {
            assert("undefined-doc-name"@[0] != "missing-global-doc"@[0]);
        },
        (Luadoc::UndefinedDocName, Luadoc::MissingLocalExportDoc) => {
            assert("undefined-doc-name"@.len() != "missing-local-export-doc"@.len());
        },
        (Luadoc::UndefinedDocName, Luadoc::UndefinedDocClass) => {
            assert("undefined-doc-name"@.len() != "undefined-doc-class"@.len());
        },
        (Luadoc::UndefinedDocName, Luadoc::UndefinedDocParam) => {
            assert("undefined-doc-name"@.len() != "undefined-doc-param"@.len());
        },
        (Luadoc::UndefinedDocName, Luadoc::UnknownCastVariable) => {
            assert("undefined-doc-name"@.len() != "unknown-cast-variable"@.len());
        },
        (Luadoc::UndefinedDocName, Luadoc::UnknownDiagCode) => {
            assert("undefined-doc-name"@.len() != "unknown-diag-code"@.len());
        },
        (Luadoc::UndefinedDocName, Luadoc::UnknownOperator) => {
            assert("undefined-doc-name"@.len() != "unknown-operator"@.len());
        },
        (Luadoc::UndefinedDocParam, Luadoc::CastTypeMismatch) => {
            assert("undefined-doc-param"@.len() != "cast-type-mismatch"@.len());
        },
        (Luadoc::UndefinedDocParam, Luadoc::CircleDocClass) => {
            assert("undefined-doc-param"@.len() != "circle-doc-class"@.len());
        },
        (Luadoc::UndefinedDocParam, Luadoc::DocFieldNoClass) => {
            assert("undefined-doc-param"@.len() != "doc-field-no-class"@.len());
        },
        (Luadoc::UndefinedDocParam, Luadoc::DuplicateDocAlias) => {
            assert("undefined-doc-param"@[0] != "duplicate-doc-alias"@[0]);
        },
        (Luadoc::UndefinedDocParam, Luadoc::DuplicateDocField) => {
            assert("undefined-doc-param"@[0] != "duplicate-doc-field"@[0]);
        },
        (Luadoc::UndefinedDocParam, Luadoc::DuplicateDocParam) => {
            assert("undefined-doc-param"@[0] != "duplicate-doc-param"@[0]);
        },
        (Luadoc::UndefinedDocParam, Luadoc::IncompleteSignatureDoc) => {
            assert("undefined-doc-param"@.len() != "incomplete-signature-doc"@.len());
        },
        (Luadoc::UndefinedDocParam, Luadoc::MissingGlobalDoc) => {
            assert("undefined-doc-param"@.len() != "missing-global-doc"@.len());
        },
        (Luadoc::UndefinedDocParam, Luadoc::MissingLocalExportDoc) => {
            assert("undefined-doc-param"@.len() != "missing-local-export-doc"@.len());
        },
        (Luadoc::UndefinedDocParam, Luadoc::UndefinedDocClass) => {
            assert("undefined-doc-param"@[14] != "undefined-doc-class"@[14]);
        },
        (Luadoc::UndefinedDocParam, Luadoc::UndefinedDocName) => {
            assert("undefined-doc-param"@.len() != "undefined-doc-name"@.len());
        },
        (Luadoc::UndefinedDocParam, Luadoc::UnknownCastVariable) => {
            assert("undefined-doc-param"@.len() != "unknown-cast-variable"@.len());
        },
        (Luadoc::UndefinedDocParam, Luadoc::UnknownDiagCode) => {
            assert("undefined-doc-param"@.len() != "unknown-diag-code"@.len());
        },
        (Luadoc::UndefinedDocParam, Luadoc::UnknownOperator) => {
            assert("undefined-doc-param"@.len() != "unknown-operator"@.len());
        },
        (Luadoc::UnknownCastVariable, Luadoc::CastTypeMismatch) => {
            assert("unknown-cast-variable"@.len() != "cast-type-mismatch"@.len());
        },
        (Luadoc::UnknownCastVariable, Luadoc::CircleDocClass) => {
            assert("unknown-cast-variable"@.len() != "circle-doc-class"@.len());
        },
        (Luadoc::UnknownCastVariable, Luadoc::DocFieldNoClass) => {
            assert("unknown-cast-variable"@.len() != "doc-field-no-class"@.len());
        },
        (Luadoc::UnknownCastVariable, Luadoc::DuplicateDocAlias) => {
            assert("unknown-cast-variable"@.len() != "duplicate-doc-alias"@.len());
        },
        (Luadoc::UnknownCastVariable, Luadoc::DuplicateDocField) => {
            assert("unknown-cast-variable"@.len() != "duplicate-doc-field"@.len());
        },
        (Luadoc::UnknownCastVariable, Luadoc::DuplicateDocParam) => {
            assert("unknown-cast-variable"@.len() != "duplicate-doc-param"@.len());
        },
        (Luadoc::UnknownCastVariable, Luadoc::IncompleteSignatureDoc) => {
            assert("unknown-cast-variable"@.len() != "incomplete-signature-doc"@.len());
        },
        (Luadoc::UnknownCastVariable, Luadoc::MissingGlobalDoc) => {
            assert("unknown-cast-variable"@.len() != "missing-global-doc"@.len());
        },
        (Luadoc::UnknownCastVariable, Luadoc::MissingLocalExportDoc) => {
            assert("unknown-cast-variable"@.len() != "missing-local-export-doc"@.len());
        },
        (Luadoc::UnknownCastVariable, Luadoc::UndefinedDocClass) => {
            assert("unknown-cast-variable"@.len() != "undefined-doc-class"@.len());
        },
        (Luadoc::UnknownCastVariable, Luadoc::UndefinedDocName) => {
            assert("unknown-cast-variable"@.len() != "undefined-doc-name"@.len());
        },
        (Luadoc::UnknownCastVariable, Luadoc::UndefinedDocParam) => {
            assert("unknown-cast-variable"@.len() != "undefined-doc-param"@.len());
        },
        (Luadoc::UnknownCastVariable, Luadoc::UnknownDiagCode) => {
            assert("unknown-cast-variable"@.len() != "unknown-diag-code"@.len());
        },
        (Luadoc::UnknownCastVariable, Luadoc::UnknownOperator) => {
            assert("unknown-cast-variable"@.len() != "unknown-operator"@.len());
        },
        (Luadoc::UnknownDiagCode, Luadoc::CastTypeMismatch) => {
            assert("unknown-diag-code"@.len() != "cast-type-mismatch"@.len());
        },
        (Luadoc::UnknownDiagCode, Luadoc::CircleDocClass) => {
            assert("unknown-diag-code"@.len() != "circle-doc-class"@.len());
        },
        (Luadoc::UnknownDiagCode, Luadoc::DocFieldNoClass) => {
            assert("unknown-diag-code"@.len() != "doc-field-no-class"@.len());
        },
        (Luadoc::UnknownDiagCode, Luadoc::DuplicateDocAlias) => {
            assert("unknown-diag-code"@.len() != "duplicate-doc-alias"@.len());
        },
        (Luadoc::UnknownDiagCode, Luadoc::DuplicateDocField) => {
            assert("unknown-diag-code"@.len() != "duplicate-doc-field"@.len());
        },
        (Luadoc::UnknownDiagCode, Luadoc::DuplicateDocParam) => {
            assert("unknown-diag-code"@.len() != "duplicate-doc-param"@.len());
        },
        (Luadoc::UnknownDiagCode, Luadoc::IncompleteSignatureDoc) => {
            assert("unknown-diag-code"@.len() != "incomplete-signature-doc"@.len());
        },
        (Luadoc::UnknownDiagCode, Luadoc::MissingGlobalDoc) => {
            assert("unknown-diag-code"@.len() != "missing-global-doc"@.len());
        },
        (Luadoc::UnknownDiagCode, Luadoc::MissingLocalExportDoc) => {
            assert("unknown-diag-code"@.len() != "missing-local-export-doc"@.len());
        },
        (Luadoc::UnknownDiagCode, Luadoc::UndefinedDocClass) => {
            assert("unknown-diag-code"@.len() != "undefined-doc-class"@.len());
        },
        (Luadoc::UnknownDiagCode, Luadoc::UndefinedDocName) => {
            assert("unknown-diag-code"@.len() != "undefined-doc-name"@.len());
        },
        (Luadoc::UnknownDiagCode, Luadoc::UndefinedDocParam) => {
            assert("unknown-diag-code"@.len() != "undefined-doc-param"@.len());
        },
        (Luadoc::UnknownDiagCode, Luadoc::UnknownCastVariable) => {
            assert("unknown-diag-code"@.len() != "unknown-cast-variable"@.len());
        },
        (Luadoc::UnknownDiagCode, Luadoc::UnknownOperator) => {
            assert("unknown-diag-code"@.len() != "unknown-operator"@.len());
        },
        (Luadoc::UnknownOperator, Luadoc::CastTypeMismatch) => {
            assert("unknown-operator"@.len() != "cast-type-mismatch"@.len());
        },
        (Luadoc::UnknownOperator, Luadoc::CircleDocClass) => {
            assert("unknown-operator"@[0] != "circle-doc-class"@[0]);
        },
        (Luadoc::UnknownOperator, Luadoc::DocFieldNoClass) => {
            assert("unknown-operator"@.len() != "doc-field-no-class"@.len());
        },
        (Luadoc::UnknownOperator, Luadoc::DuplicateDocAlias) => {
            assert("unknown-operator"@.len() != "duplicate-doc-alias"@.len());
        },
        (Luadoc::UnknownOperator, Luadoc::DuplicateDocField) => {
            assert("unknown-operator"@.len() != "duplicate-doc-field"@.len());
        },
        (Luadoc::UnknownOperator, Luadoc::DuplicateDocParam) => {
            assert("unknown-operator"@.len() != "duplicate-doc-param"@.len());
        },
        (Luadoc::UnknownOperator, Luadoc::IncompleteSignatureDoc) => {
            assert("unknown-operator"@.len() != "incomplete-signature-doc"@.len());
        },
        (Luadoc::UnknownOperator, Luadoc::MissingGlobalDoc) => {
            assert("unknown-operator"@.len() != "missing-global-doc"@.len());
        },
        (Luadoc::UnknownOperator, Luadoc::MissingLocalExportDoc) => {
            assert("unknown-operator"@.len() != "missing-local-export-doc"@.len());
        },
        (Luadoc::UnknownOperator, Luadoc::UndefinedDocClass) => {
            assert("unknown-operator"@.len() != "undefined-doc-class"@.len());
        },
        (Luadoc::UnknownOperator, Luadoc::UndefinedDocName) => {
            assert("unknown-operator"@.len() != "undefined-doc-name"@.len());
        },
        (Luadoc::UnknownOperator, Luadoc::UndefinedDocParam) => {
            assert("unknown-operator"@.len() != "undefined-doc-param"@.len());
        },
        (Luadoc::UnknownOperator, Luadoc::UnknownCastVariable) => {
            assert("unknown-operator"@.len() != "unknown-cast-variable"@.len());
        },
        (Luadoc::UnknownOperator, Luadoc::UnknownDiagCode) => {
            assert("unknown-operator"@.len() != "unknown-diag-code"@.len());
        },
        _ => {},
    }
}

/// Different diagnostics of the group `redefined` have different names.
pub proof fn lemma_redefined_names_distinct(a: Redefined, b: Redefined)
    requires
        a.code_name() == b.code_name(),
    ensures
        a == b,
{
    reveal_strlit("redefined-local");
    match (a, b) {
        _ => {},
    }
}

/// Different diagnostics of the group `strict` have different names.
pub proof fn lemma_strict_names_distinct(a: Strict, b: Strict)
    requires
        a.code_name() == b.code_name(),
    ensures
        a == b,
{
    reveal_strlit("close-non-object");
    reveal_strlit("deprecated");
    reveal_strlit("discard-returns");
    match (a, b) {
        (Strict::CloseNonObject, Strict::Deprecated) => {
            assert("close-non-object"@.len() != "deprecated"@.len());
        },
        (Strict::CloseNonObject, Strict::DiscardReturns) => {
            assert("close-non-object"@.len() != "discard-returns"@.len());
        },
        (Strict::Deprecated, Strict::CloseNonObject) => {
            assert("deprecated"@.len() != "close-non-object"@.len());
        },
        (Strict::Deprecated, Strict::DiscardReturns) => {
            assert("deprecated"@.len() != "discard-returns"@.len());
        },
        (Strict::DiscardReturns, Strict::CloseNonObject) => {
            assert("discard-returns"@.len() != "close-non-object"@.len());
        },
        (Strict::DiscardReturns, Strict::Deprecated) => {
            assert("discard-returns"@.len() != "deprecated"@.len());
        },
        _ => {},
    }
}

/// Different diagnostics of the group `strong` have different names.
pub proof fn lemma_strong_names_distinct(a: Strong, b: Strong)
    requires
        a.code_name() == b.code_name(),
    ensures
        a == b,
{
    reveal_strlit("no-unknown");
    match (a, b) {
        _ => {},
    }
}

/// Different diagnostics of the group `typecheck` have different names.
pub proof fn lemma_type_check_names_distinct(a: TypeCheck, b: TypeCheck)
    requires
        a.code_name() == b.code_name(),
    ensures
        a == b,
{
    reveal_strlit("assign-type-mismatch");
    reveal_strlit("cast-local-type");
    reveal_strlit("cast-type-mismatch");
    reveal_strlit("inject-field");
    reveal_strlit("need-check-nil");
    reveal_strlit("param-type-mismatch");
    reveal_strlit("return-type-mismatch");
    reveal_strlit("undefined-field");
    match (a, b) {
        (TypeCheck::AssignTypeMismatch, TypeCheck::CastLocalType) => {
            assert("assign-type-mismatch"@.len() != "cast-local-type"@.len());
        },
        (TypeCheck::AssignTypeMismatch, TypeCheck::CastTypeMismatch) => {
            assert("assign-type-mismatch"@.len() != "cast-type-mismatch"@.len());
        },
        (TypeCheck::AssignTypeMismatch, TypeCheck::InjectField) => {
            assert("assign-type-mismatch"@.len() != "inject-field"@.len());
        },
        (TypeCheck::AssignTypeMismatch, TypeCheck::NeedCheckNil) => {
            assert("assign-type-mismatch"@.len() != "need-check-nil"@.len());
        },
        (TypeCheck::AssignTypeMismatch, TypeCheck::ParamTypeMismatch) => {
            assert("assign-type-mismatch"@.len() != "param-type-mismatch"@.len());
        },
        (TypeCheck::AssignTypeMismatch, TypeCheck::ReturnTypeMismatch) => {
            assert("assign-type-mismatch"@[0] != "return-type-mismatch"@[0]);
        },
        (TypeCheck::AssignTypeMismatch, TypeCheck::UndefinedField) => {
            assert("assign-type-mismatch"@.len() != "undefined-field"@.len());
        },
        (TypeCheck::CastLocalType, TypeCheck::AssignTypeMismatch) => {
            assert("cast-local-type"@.len() != "assign-type-mismatch"@.len());
        },
        (TypeCheck::CastLocalType, TypeCheck::CastTypeMismatch) => {
            assert("cast-local-type"@.len() != "cast-type-mismatch"@.len());
        },
        (TypeCheck::CastLocalType, TypeCheck::InjectField) => {
            assert("cast-local-type"@.len() != "inject-field"@.len());
        },
        (TypeCheck::CastLocalType, TypeCheck::NeedCheckNil) => {
            assert("cast-local-type"@.len() != "need-check-nil"@.len());
        },
        (TypeCheck::CastLocalType, TypeCheck::ParamTypeMismatch) => {
            assert("cast-local-type"@.len() != "param-type-mismatch"@.len());
        },
        (TypeCheck::CastLocalType, TypeCheck::ReturnTypeMismatch) => {
            assert("cast-local-type"@.len() != "return-type-mismatch"@.len());
        },
        (TypeCheck::CastLocalType, TypeCheck::UndefinedField) => {
            assert("cast-local-type"@[0] != "undefined-field"@[0]);
        },
        (TypeCheck::CastTypeMismatch, TypeCheck::AssignTypeMismatch) => {
            assert("cast-type-mismatch"@.len() != "assign-type-mismatch"@.len());
        },
        (TypeCheck::CastTypeMismatch, TypeCheck::CastLocalType) => {
            assert("cast-type-mismatch"@.len() != "cast-local-type"@.len());
        },
        (TypeCheck::CastTypeMismatch, TypeCheck::InjectField) => {
            assert("cast-type-mismatch"@.len() != "inject-field"@.len());
        },
        (TypeCheck::CastTypeMismatch, TypeCheck::NeedCheckNil) => {
            assert("cast-type-mismatch"@.len() != "need-check-nil"@.len());
        },
        (TypeCheck::CastTypeMismatch, TypeCheck::ParamTypeMismatch) => {
            assert("cast-type-mismatch"@.len() != "param-type-mismatch"@.len());
        },
        (TypeCheck::CastTypeMismatch, TypeCheck::ReturnTypeMismatch) => {
            assert("cast-type-mismatch"@.len() != "return-type-mismatch"@.len());
        },
        (TypeCheck::CastTypeMismatch, TypeCheck::UndefinedField) => {
            assert("cast-type-mismatch"@.len() != "undefined-field"@.len());
        },
        (TypeCheck::InjectField, TypeCheck::AssignTypeMismatch) => {
            assert("inject-field"@.len() != "assign-type-mismatch"@.len());
        },
        (TypeCheck::InjectField, TypeCheck::CastLocalType) => {
            assert("inject-field"@.len() != "cast-local-type"@.len());
        },
        (TypeCheck::InjectField, TypeCheck::CastTypeMismatch) => {
            assert("inject-field"@.len() != "cast-type-mismatch"@.len());
        },
        (TypeCheck::InjectField, TypeCheck::NeedCheckNil) => {
            assert("inject-field"@.len() != "need-check-nil"@.len());
        },
        (TypeCheck::InjectField, TypeCheck::ParamTypeMismatch) => {
            assert("inject-field"@.len() != "param-type-mismatch"@.len());
        },
        (TypeCheck::InjectField, TypeCheck::ReturnTypeMismatch) => {
            assert("inject-field"@.len() != "return-type-mismatch"@.len());
        },
        (TypeCheck::InjectField, TypeCheck::UndefinedField) => {
            assert("inject-field"@.len() != "undefined-field"@.len());
        },
        (TypeCheck::NeedCheckNil, TypeCheck::AssignTypeMismatch) => {
            assert("need-check-nil"@.len() != "assign-type-mismatch"@.len());
        },
        (TypeCheck::NeedCheckNil, TypeCheck::CastLocalType) => {
            assert("need-check-nil"@.len() != "cast-local-type"@.len());
        },
        (TypeCheck::NeedCheckNil, TypeCheck::CastTypeMismatch) => {
            assert("need-check-nil"@.len() != "cast-type-mismatch"@.len());
        },
        (TypeCheck::NeedCheckNil, TypeCheck::InjectField) => {
            assert("need-check-nil"@.len() != "inject-field"@.len());
        },
        (TypeCheck::NeedCheckNil, TypeCheck::ParamTypeMismatch) => {
            assert("need-check-nil"@.len() != "param-type-mismatch"@.len());
        },
        (TypeCheck::NeedCheckNil, TypeCheck::ReturnTypeMismatch) => {
            assert("need-check-nil"@.len() != "return-type-mismatch"@.len());
        },
        (TypeCheck::NeedCheckNil, TypeCheck::UndefinedField) => {
            assert("need-check-nil"@.len() != "undefined-field"@.len());
        },
        (TypeCheck::ParamTypeMismatch, TypeCheck::AssignTypeMismatch) => {
            assert("param-type-mismatch"@.len() != "assign-type-mismatch"@.len());
        },
        (TypeCheck::ParamTypeMismatch, TypeCheck::CastLocalType) => {
            assert("param-type-mismatch"@.len() != "cast-local-type"@.len());
        },
        (TypeCheck::ParamTypeMismatch, TypeCheck::CastTypeMismatch) => {
            assert("param-type-mismatch"@.len() != "cast-type-mismatch"@.len());
        },
        (TypeCheck::ParamTypeMismatch, TypeCheck::InjectField) => {
            assert("param-type-mismatch"@.len() != "inject-field"@.len());
        },
        (TypeCheck::ParamTypeMismatch, TypeCheck::NeedCheckNil) => {
            assert("param-type-mismatch"@.len() != "need-check-nil"@.len());
        },
        (TypeCheck::ParamTypeMismatch, TypeCheck::ReturnTypeMismatch) => {
            assert("param-type-mismatch"@.len() != "return-type-mismatch"@.len());
        },
        (TypeCheck::ParamTypeMismatch, TypeCheck::UndefinedField) => {
            assert("param-type-mismatch"@.len() != "undefined-field"@.len());
        },
        (TypeCheck::ReturnTypeMismatch, TypeCheck::AssignTypeMismatch) => {
            assert("return-type-mismatch"@[0] != "assign-type-mismatch"@[0]);
        },
        (TypeCheck::ReturnTypeMismatch, TypeCheck::CastLocalType) => {
            assert("return-type-mismatch"@.len() != "cast-local-type"@.len());
        },
        (TypeCheck::ReturnTypeMismatch, TypeCheck::CastTypeMismatch) => {
            assert("return-type-mismatch"@.len() != "cast-type-mismatch"@.len());
        },
        (TypeCheck::ReturnTypeMismatch, TypeCheck::InjectField) => {
            assert("return-type-mismatch"@.len() != "inject-field"@.len());
        },
        (TypeCheck::ReturnTypeMismatch, TypeCheck::NeedCheckNil) => {
            assert("return-type-mismatch"@.len() != "need-check-nil"@.len());
        },
        (TypeCheck::ReturnTypeMismatch, TypeCheck::ParamTypeMismatch) => {
            assert("return-type-mismatch"@.len() != "param-type-mismatch"@.len());
        },
        (TypeCheck::ReturnTypeMismatch, TypeCheck::UndefinedField) => {
            assert("return-type-mismatch"@.len() != "undefined-field"@.len());
        },
        (TypeCheck::UndefinedField, TypeCheck::AssignTypeMismatch) => {
            assert("undefined-field"@.len() != "assign-type-mismatch"@.len());
        },
        (TypeCheck::UndefinedField, TypeCheck::CastLocalType) => {
            assert("undefined-field"@[0] != "cast-local-type"@[0]);
        },
        (TypeCheck::UndefinedField, TypeCheck::CastTypeMismatch) => {
            assert("undefined-field"@.len() != "cast-type-mismatch"@.len());
        },
        (TypeCheck::UndefinedField, TypeCheck::InjectField) => {
            assert("undefined-field"@.len() != "inject-field"@.len());
        },
        (TypeCheck::UndefinedField, TypeCheck::NeedCheckNil) => {
            assert("undefined-field"@.len() != "need-check-nil"@.len());
        },
        (TypeCheck::UndefinedField, TypeCheck::ParamTypeMismatch) => {
            assert("undefined-field"@.len() != "param-type-mismatch"@.len());
        },
        (TypeCheck::UndefinedField, TypeCheck::ReturnTypeMismatch) => {
            assert("undefined-field"@.len() != "return-type-mismatch"@.len());
        },
        _ => {},
    }
}

/// Different diagnostics of the group `unbalanced` have different names.
pub proof fn lemma_unbalanced_names_distinct(a: Unbalanced, b: Unbalanced)
    requires
        a.code_name() == b.code_name(),
    ensures
        a == b,
{
    reveal_strlit("missing-fields");
    reveal_strlit("missing-parameter");
    reveal_strlit("missing-return");
    reveal_strlit("missing-return-value");
    reveal_strlit("redundant-parameter");
    reveal_strlit("redundant-return-value");
    reveal_strlit("redundant-value");
    reveal_strlit("unbalanced-assignments");
    match (a, b) {
        (Unbalanced::MissingFields, Unbalanced::MissingParameter) => {
            assert("missing-fields"@.len() != "missing-parameter"@.len());
        },
        (Unbalanced::MissingFields, Unbalanced::MissingReturn) => {
            assert("missing-fields"@[8] != "missing-return"@[8]);
        },
        (Unbalanced::MissingFields, Unbalanced::MissingReturnValue) => {
            assert("missing-fields"@.len() != "missing-return-value"@.len());
        },
        (Unbalanced::MissingFields, Unbalanced::RedundantParameter) => {
            assert("missing-fields"@.len() != "redundant-parameter"@.len());
        },
        (Unbalanced::MissingFields, Unbalanced::RedundantReturnValue) => {
            assert("missing-fields"@.len() != "redundant-return-value"@.len());
        },
        (Unbalanced::MissingFields, Unbalanced::RedundantValue) => {
            assert("missing-fields"@.len() != "redundant-value"@.len());
        },
        (Unbalanced::MissingFields, Unbalanced::UnbalancedAssignments) => {
            assert("missing-fields"@.len() != "unbalanced-assignments"@.len());
        },
        (Unbalanced::MissingParameter, Unbalanced::MissingFields) => {
            assert("missing-parameter"@.len() != "missing-fields"@.len());
        },
        (Unbalanced::MissingParameter, Unbalanced::MissingReturn) => {
            assert("missing-parameter"@.len() != "missing-return"@.len());
        },
        (Unbalanced::MissingParameter, Unbalanced::MissingReturnValue) => {
            assert("missing-parameter"@.len() != "missing-return-value"@.len());
        },
        (Unbalanced::MissingParameter, Unbalanced::RedundantParameter) => {
            assert("missing-parameter"@.len() != "redundant-parameter"@.len());
        },
        (Unbalanced::MissingParameter, Unbalanced::RedundantReturnValue) => {
            assert("missing-parameter"@.len() != "redundant-return-value"@.len());
        },
        (Unbalanced::MissingParameter, Unbalanced::RedundantValue) => {
            assert("missing-parameter"@.len() != "redundant-value"@.len());
        },
        (Unbalanced::MissingParameter, Unbalanced::UnbalancedAssignments) => {
            assert("missing-parameter"@.len() != "unbalanced-assignments"@.len());
        },
        (Unbalanced::MissingReturn, Unbalanced::MissingFields) => {
            assert("missing-return"@[8] != "missing-fields"@[8]);
        },
        (Unbalanced::MissingReturn, Unbalanced::MissingParameter) => {
            assert("missing-return"@.len() != "missing-parameter"@.len());
        },
        (Unbalanced::MissingReturn, Unbalanced::MissingReturnValue) => {
            assert("missing-return"@.len() != "missing-return-value"@.len());
        },
        (Unbalanced::MissingReturn, Unbalanced::RedundantParameter) => {
            assert("missing-return"@.len() != "redundant-parameter"@.len());
        },
        (Unbalanced::MissingReturn, Unbalanced::RedundantReturnValue) => {
            assert("missing-return"@.len() != "redundant-return-value"@.len());
        },
        (Unbalanced::MissingReturn, Unbalanced::RedundantValue) => {
            assert("missing-return"@.len() != "redundant-value"@.len());
        },
        (Unbalanced::MissingReturn, Unbalanced::UnbalancedAssignments) => {
            assert("missing-return"@.len() != "unbalanced-assignments"@.len());
        },
        (Unbalanced::MissingReturnValue, Unbalanced::MissingFields) => {
            assert("missing-return-value"@.len() != "missing-fields"@.len());
        },
        (Unbalanced::MissingReturnValue, Unbalanced::MissingParameter) => {
            assert("missing-return-value"@.len() != "missing-parameter"@.len());
        },
        (Unbalanced::MissingReturnValue, Unbalanced::MissingReturn) => {
            assert("missing-return-value"@.len() != "missing-return"@.len());
        },
        (Unbalanced::MissingReturnValue, Unbalanced::RedundantParameter) => {
            assert("missing-return-value"@.len() != "redundant-parameter"@.len());
        },
        (Unbalanced::MissingReturnValue, Unbalanced::RedundantReturnValue) => {
            assert("missing-return-value"@.len() != "redundant-return-value"@.len());
        },
        (Unbalanced::MissingReturnValue, Unbalanced::RedundantValue) => {
            assert("missing-return-value"@.len() != "redundant-value"@.len());
        },
        (Unbalanced::MissingReturnValue, Unbalanced::UnbalancedAssignments) => {
            assert("missing-return-value"@.len() != "unbalanced-assignments"@.len());
        },
        (Unbalanced::RedundantParameter, Unbalanced::MissingFields) => {
            assert("redundant-parameter"@.len() != "missing-fields"@.len());
        },
        (Unbalanced::RedundantParameter, Unbalanced::MissingParameter) => {
            assert("redundant-parameter"@.len() != "missing-parameter"@.len());
        },
        (Unbalanced::RedundantParameter, Unbalanced::MissingReturn) => {
            assert("redundant-parameter"@.len() != "missing-return"@.len());
        },
        (Unbalanced::RedundantParameter, Unbalanced::MissingReturnValue) => {
            assert("redundant-parameter"@.len() != "missing-return-value"@.len());
        },
        (Unbalanced::RedundantParameter, Unbalanced::RedundantReturnValue) => {
            assert("redundant-parameter"@.len() != "redundant-return-value"@.len());
        },
        (Unbalanced::RedundantParameter, Unbalanced::RedundantValue) => {
            assert("redundant-parameter"@.len() != "redundant-value"@.len());
        },
        (Unbalanced::RedundantParameter, Unbalanced::UnbalancedAssignments) => {
            assert("redundant-parameter"@.len() != "unbalanced-assignments"@.len());
        },
        (Unbalanced::RedundantReturnValue, Unbalanced::MissingFields) => {
            assert("redundant-return-value"@.len() != "missing-fields"@.len());
        },
        (Unbalanced::RedundantReturnValue, Unbalanced::MissingParameter) => {
            assert("redundant-return-value"@.len() != "missing-parameter"@.len());
        },
        (Unbalanced::RedundantReturnValue, Unbalanced::MissingReturn) => {
            assert("redundant-return-value"@.len() != "missing-return"@.len());
        },
        (Unbalanced::RedundantReturnValue, Unbalanced::MissingReturnValue) => {
            assert("redundant-return-value"@.len() != "missing-return-value"@.len());
        },
        (Unbalanced::RedundantReturnValue, Unbalanced::RedundantParameter) => {
            assert("redundant-return-value"@.len() != "redundant-parameter"@.len());
        },
        (Unbalanced::RedundantReturnValue, Unbalanced::RedundantValue) => {
            assert("redundant-return-value"@.len() != "redundant-value"@.len());
        },
        (Unbalanced::RedundantReturnValue, Unbalanced::UnbalancedAssignments) => {
            assert("redundant-return-value"@[0] != "unbalanced-assignments"@[0]);
        },
        (Unbalanced::RedundantValue, Unbalanced::MissingFields) => {
            assert("redundant-value"@.len() != "missing-fields"@.len());
        },
        (Unbalanced::RedundantValue, Unbalanced::MissingParameter) => {
            assert("redundant-value"@.len() != "missing-parameter"@.len());
        },
        (Unbalanced::RedundantValue, Unbalanced::MissingReturn) => {
            assert("redundant-value"@.len() != "missing-return"@.len());
        },
        (Unbalanced::RedundantValue, Unbalanced::MissingReturnValue) => {
            assert("redundant-value"@.len() != "missing-return-value"@.len());
        },
        (Unbalanced::RedundantValue, Unbalanced::RedundantParameter) => {
            assert("redundant-value"@.len() != "redundant-parameter"@.len());
        },
        (Unbalanced::RedundantValue, Unbalanced::RedundantReturnValue) => {
            assert("redundant-value"@.len() != "redundant-return-value"@.len());
        },
        (Unbalanced::RedundantValue, Unbalanced::UnbalancedAssignments) => {
            assert("redundant-value"@.len() != "unbalanced-assignments"@.len());
        },
        (Unbalanced::UnbalancedAssignments, Unbalanced::MissingFields) => {
            assert("unbalanced-assignments"@.len() != "missing-fields"@.len());
        },
        (Unbalanced::UnbalancedAssignments, Unbalanced::MissingParameter) => {
            assert("unbalanced-assignments"@.len() != "missing-parameter"@.len());
        },
        (Unbalanced::UnbalancedAssignments, Unbalanced::MissingReturn) => {
            assert("unbalanced-assignments"@.len() != "missing-return"@.len());
        },
        (Unbalanced::UnbalancedAssignments, Unbalanced::MissingReturnValue) => {
            assert("unbalanced-assignments"@.len() != "missing-return-value"@.len());
        },
        (Unbalanced::UnbalancedAssignments, Unbalanced::RedundantParameter) => {
            assert("unbalanced-assignments"@.len() != "redundant-parameter"@.len());
        },
        (Unbalanced::UnbalancedAssignments, Unbalanced::RedundantReturnValue) => {
            assert("unbalanced-assignments"@[0] != "redundant-return-value"@[0]);
        },
        (Unbalanced::UnbalancedAssignments, Unbalanced::RedundantValue) => {
            assert("unbalanced-assignments"@.len() != "redundant-value"@.len());
        },
        _ => {},
    }
}

/// Different diagnostics of the group `unused` have different names.
pub proof fn lemma_unused_names_distinct(a: Unused, b: Unused)
    requires
        a.code_name() == b.code_name(),
    ensures
        a == b,
{
    reveal_strlit("code-after-break");
    reveal_strlit("empty-block");
    reveal_strlit("redundant-return");
    reveal_strlit("trailing-space");
    reveal_strlit("unreachable-code");
    reveal_strlit("unused-function");
    reveal_strlit("unused-label");
    reveal_strlit("unused-local");
    reveal_strlit("unused-vararg");
    match (a, b) {
        (Unused::CodeAfterBreak, Unused::EmptyBlock) => {
            assert("code-after-break"@.len() != "empty-block"@.len());
        },
        (Unused::CodeAfterBreak, Unused::RedundantReturn) => {
            assert("code-after-break"@[0] != "redundant-return"@[0]);
        },
        (Unused::CodeAfterBreak, Unused::TrailingSpace) => {
            assert("code-after-break"@.len() != "trailing-space"@.len());
        },
        (Unused::CodeAfterBreak, Unused::UnreachableCode) => {
            assert("code-after-break"@[0] != "unreachable-code"@[0]);
        },
        (Unused::CodeAfterBreak, Unused::UnusedFunction) => {
            assert("code-after-break"@.len() != "unused-function"@.len());
        },
        (Unused::CodeAfterBreak, Unused::UnusedLabel) => {
            assert("code-after-break"@.len() != "unused-label"@.len());
        },
        (Unused::CodeAfterBreak, Unused::UnusedLocal) => {
            assert("code-after-break"@.len() != "unused-local"@.len());
        },
        (Unused::CodeAfterBreak, Unused::UnusedVararg) => {
            assert("code-after-break"@.len() != "unused-vararg"@.len());
        },
        (Unused::EmptyBlock, Unused::CodeAfterBreak) => {
            assert("empty-block"@.len() != "code-after-break"@.len());
        },
        (Unused::EmptyBlock, Unused::RedundantReturn) => {
            assert("empty-block"@.len() != "redundant-return"@.len());
        },
        (Unused::EmptyBlock, Unused::TrailingSpace) => {
            assert("empty-block"@.len() != "trailing-space"@.len());
        },
        (Unused::EmptyBlock, Unused::UnreachableCode) => {
            assert("empty-block"@.len() != "unreachable-code"@.len());
        },
        (Unused::EmptyBlock, Unused::UnusedFunction) => {
            assert("empty-block"@.len() != "unused-function"@.len());
        },
        (Unused::EmptyBlock, Unused::UnusedLabel) => {
            assert("empty-block"@.len() != "unused-label"@.len());
        },
        (Unused::EmptyBlock, Unused::UnusedLocal) => {
            assert("empty-block"@.len() != "unused-local"@.len());
        },
        (Unused::EmptyBlock, Unused::UnusedVararg) => {
            assert("empty-block"@.len() != "unused-vararg"@.len());
        },
        (Unused::RedundantReturn, Unused::CodeAfterBreak) => {
            assert("redundant-return"@[0] != "code-after-break"@[0]);
        },
        (Unused::RedundantReturn, Unused::EmptyBlock) => {
            assert("redundant-return"@.len() != "empty-block"@.len());
        },
        (Unused::RedundantReturn, Unused::TrailingSpace) => {
            assert("redundant-return"@.len() != "trailing-space"@.len());
        },
        (Unused::RedundantReturn, Unused::UnreachableCode) => {
            assert("redundant-return"@[0] != "unreachable-code"@[0]);
        },
        (Unused::RedundantReturn, Unused::UnusedFunction) => {
            assert("redundant-return"@.len() != "unused-function"@.len());
        },
        (Unused::RedundantReturn, Unused::UnusedLabel) => {
            assert("redundant-return"@.len() != "unused-label"@.len());
        },
        (Unused::RedundantReturn, Unused::UnusedLocal) => {
            assert("redundant-return"@.len() != "unused-local"@.len());
        },
        (Unused::RedundantReturn, Unused::UnusedVararg) => {
            assert("redundant-return"@.len() != "unused-vararg"@.len());
        },
        (Unused::TrailingSpace, Unused::CodeAfterBreak) => {
            assert("trailing-space"@.len() != "code-after-break"@.len());
        },
        (Unused::TrailingSpace, Unused::EmptyBlock) => {
            assert("trailing-space"@.len() != "empty-block"@.len());
        },
        (Unused::TrailingSpace, Unused::RedundantReturn) => {
            assert("trailing-space"@.len() != "redundant-return"@.len());
        },
        (Unused::TrailingSpace, Unused::UnreachableCode) => {
            assert("trailing-space"@.len() != "unreachable-code"@.len());
        },
        (Unused::TrailingSpace, Unused::UnusedFunction) => {
            assert("trailing-space"@.len() != "unused-function"@.len());
        },
        (Unused::TrailingSpace, Unused::UnusedLabel) => {
            assert("trailing-space"@.len() != "unused-label"@.len());
        },
        (Unused::TrailingSpace, Unused::UnusedLocal) => {
            assert("trailing-space"@.len() != "unused-local"@.len());
        },
        (Unused::TrailingSpace, Unused::UnusedVararg) => {
            assert("trailing-space"@.len() != "unused-vararg"@.len());
        },
        (Unused::UnreachableCode, Unused::CodeAfterBreak) => {
            assert("unreachable-code"@[0] != "code-after-break"@[0]);
        },
        (Unused::UnreachableCode, Unused::EmptyBlock) => {
            assert("unreachable-code"@.len() != "empty-block"@.len());
        },
        (Unused::UnreachableCode, Unused::RedundantReturn) => {
            assert("unreachable-code"@[0] != "redundant-return"@[0]);
        },
        (Unused::UnreachableCode, Unused::TrailingSpace) => {
            assert("unreachable-code"@.len() != "trailing-space"@.len());
        },
        (Unused::UnreachableCode, Unused::UnusedFunction) => {
            assert("unreachable-code"@.len() != "unused-function"@.len());
        },
        (Unused::UnreachableCode, Unused::UnusedLabel) => {
            assert("unreachable-code"@.len() != "unused-label"@.len());
        },
        (Unused::UnreachableCode, Unused::UnusedLocal) => {
            assert("unreachable-code"@.len() != "unused-local"@.len());
        },
        (Unused::UnreachableCode, Unused::UnusedVararg) => {
            assert("unreachable-code"@.len() != "unused-vararg"@.len());
        },
        (Unused::UnusedFunction, Unused::CodeAfterBreak) => {
            assert("unused-function"@.len() != "code-after-break"@.len());
        },
        (Unused::UnusedFunction, Unused::EmptyBlock) => {
            assert("unused-function"@.len() != "empty-block"@.len());
        },
        (Unused::UnusedFunction, Unused::RedundantReturn) => {
            assert("unused-function"@.len() != "redundant-return"@.len());
        },
        (Unused::UnusedFunction, Unused::TrailingSpace) => {
            assert("unused-function"@.len() != "trailing-space"@.len());
        },
        (Unused::UnusedFunction, Unused::UnreachableCode) => {
            assert("unused-function"@.len() != "unreachable-code"@.len());
        },
        (Unused::UnusedFunction, Unused::UnusedLabel) => {
            assert("unused-function"@.len() != "unused-label"@.len());
        },
        (Unused::UnusedFunction, Unused::UnusedLocal) => {
            assert("unused-function"@.len() != "unused-local"@.len());
        },
        (Unused::UnusedFunction, Unused::UnusedVararg) => {
            assert("unused-function"@.len() != "unused-vararg"@.len());
        },
        (Unused::UnusedLabel, Unused::CodeAfterBreak) => {
            assert("unused-label"@.len() != "code-after-break"@.len());
        },
        (Unused::UnusedLabel, Unused::EmptyBlock) => {
            assert("unused-label"@.len() != "empty-block"@.len());
        },
        (Unused::UnusedLabel, Unused::RedundantReturn) => {
            assert("unused-label"@.len() != "redundant-return"@.len());
        },
        (Unused::UnusedLabel, Unused::TrailingSpace) => {
            assert("unused-label"@.len() != "trailing-space"@.len());
        },
        (Unused::UnusedLabel, Unused::UnreachableCode) => {
            assert("unused-label"@.len() != "unreachable-code"@.len());
        },
        (Unused::UnusedLabel, Unused::UnusedFunction) => {
            assert("unused-label"@.len() != "unused-function"@.len());
        },
        (Unused::UnusedLabel, Unused::UnusedLocal) => {
            assert("unused-label"@[8] != "unused-local"@[8]);
        },
        (Unused::UnusedLabel, Unused::UnusedVararg) => {
            assert("unused-label"@.len() != "unused-vararg"@.len());
        },
        (Unused::UnusedLocal, Unused::CodeAfterBreak) => {
            assert("unused-local"@.len() != "code-after-break"@.len());
        },
        (Unused::UnusedLocal, Unused::EmptyBlock) => {
            assert("unused-local"@.len() != "empty-block"@.len());
        },
        (Unused::UnusedLocal, Unused::RedundantReturn) => {
            assert("unused-local"@.len() != "redundant-return"@.len());
        },
        (Unused::UnusedLocal, Unused::TrailingSpace) => {
            assert("unused-local"@.len() != "trailing-space"@.len());
        },
        (Unused::UnusedLocal, Unused::UnreachableCode) => {
            assert("unused-local"@.len() != "unreachable-code"@.len());
        },
        (Unused::UnusedLocal, Unused::UnusedFunction) => {
            assert("unused-local"@.len() != "unused-function"@.len());
        },
        (Unused::UnusedLocal, Unused::UnusedLabel) => {
            assert("unused-local"@[8] != "unused-label"@[8]);
        },
        (Unused::UnusedLocal, Unused::UnusedVararg) => {
            assert("unused-local"@.len() != "unused-vararg"@.len());
        },
        (Unused::UnusedVararg, Unused::CodeAfterBreak) => {
            assert("unused-vararg"@.len() != "code-after-break"@.len());
        },
        (Unused::UnusedVararg, Unused::EmptyBlock) => {
            assert("unused-vararg"@.len() != "empty-block"@.len());
        },
        (Unused::UnusedVararg, Unused::RedundantReturn) => {
            assert("unused-vararg"@.len() != "redundant-return"@.len());
        },
        (Unused::UnusedVararg, Unused::TrailingSpace) => {
            assert("unused-vararg"@.len() != "trailing-space"@.len());
        },
        (Unused::UnusedVararg, Unused::UnreachableCode) => {
            assert("unused-vararg"@.len() != "unreachable-code"@.len());
        },
        (Unused::UnusedVararg, Unused::UnusedFunction) => {
            assert("unused-vararg"@.len() != "unused-function"@.len());
        },
        (Unused::UnusedVararg, Unused::UnusedLabel) => {
            assert("unused-vararg"@.len() != "unused-label"@.len());
        },
        (Unused::UnusedVararg, Unused::UnusedLocal) => {
            assert("unused-vararg"@.len() != "unused-local"@.len());
        },
        _ => {},
    }
}

/// No group text holds a `:`.
pub proof fn lemma_group_has_no_colon(d: Diagnostic)
    ensures
        !d.code_group().contains(':'),
{
    reveal_strlit("ambiguity");
    reveal_strlit("await");
    reveal_strlit("codestyle");
    reveal_strlit("conventions");
    reveal_strlit("duplicate");
    reveal_strlit("global");
    reveal_strlit("luadoc");
    reveal_strlit("redefined");
    reveal_strlit("strict");
    reveal_strlit("strong");
    reveal_strlit("typecheck");
    reveal_strlit("unbalanced");
    reveal_strlit("unused");
    assert(forall|k: int| 0 <= k < d.code_group().len() ==> d.code_group()[k] != ':');
}

/// Different diagnostics have different codes.
pub proof fn lemma_codes_distinct(a: Diagnostic, b: Diagnostic)
    requires
        a.code_group() == b.code_group(),
        a.code_name() == b.code_name(),
    ensures
        a == b,
{
    reveal_strlit("ambiguity");
    reveal_strlit("await");
    reveal_strlit("codestyle");
    reveal_strlit("conventions");
    reveal_strlit("duplicate");
    reveal_strlit("global");
    reveal_strlit("luadoc");
    reveal_strlit("redefined");
    reveal_strlit("strict");
    reveal_strlit("strong");
    reveal_strlit("typecheck");
    reveal_strlit("unbalanced");
    reveal_strlit("unused");
    match (a, b) {
        (Diagnostic::Ambiguity(x), Diagnostic::Ambiguity(y)) => {
            lemma_ambiguity_names_distinct(x, y);
        },
        (Diagnostic::Await(x), Diagnostic::Await(y)) => {
            lemma_await_names_distinct(x, y);
        },
        (Diagnostic::Codestyle(x), Diagnostic::Codestyle(y)) => {
            lemma_codestyle_names_distinct(x, y);
        },
        (Diagnostic::Conventions(x), Diagnostic::Conventions(y)) => {
            lemma_conventions_names_distinct(x, y);
        },
        (Diagnostic::Duplicate(x), Diagnostic::Duplicate(y)) => {
            lemma_duplicate_names_distinct(x, y);
        },
        (Diagnostic::Global(x), Diagnostic::Global(y)) => {
            lemma_global_names_distinct(x, y);
        },
        (Diagnostic::Luadoc(x), Diagnostic::Luadoc(y)) => {
            lemma_luadoc_names_distinct(x, y);
        },
        (Diagnostic::Redefined(x), Diagnostic::Redefined(y)) => {
            lemma_redefined_names_distinct(x, y);
        },
        (Diagnostic::Strict(x), Diagnostic::Strict(y)) => {
            lemma_strict_names_distinct(x, y);
        },
        (Diagnostic::Strong(x), Diagnostic::Strong(y)) => {
            lemma_strong_names_distinct(x, y);
        },
        (Diagnostic::TypeCheck(x), Diagnostic::TypeCheck(y)) => {
            lemma_type_check_names_distinct(x, y);
        },
        (Diagnostic::Unbalanced(x), Diagnostic::Unbalanced(y)) => {
            lemma_unbalanced_names_distinct(x, y);
        },
        (Diagnostic::Unused(x), Diagnostic::Unused(y)) => {
            lemma_unused_names_distinct(x, y);
        },
        (Diagnostic::Ambiguity(_), Diagnostic::Await(_)) => {
            assert("ambiguity"@.len() != "await"@.len());
        },
        (Diagnostic::Ambiguity(_), Diagnostic::Codestyle(_)) => {
            assert("ambiguity"@[0] != "codestyle"@[0]);
        },
        (Diagnostic::Ambiguity(_), Diagnostic::Conventions(_)) => {
            assert("ambiguity"@.len() != "conventions"@.len());
        },
        (Diagnostic::Ambiguity(_), Diagnostic::Duplicate(_)) => {
            assert("ambiguity"@[0] != "duplicate"@[0]);
        },
        (Diagnostic::Ambiguity(_), Diagnostic::Global(_)) => {
            assert("ambiguity"@.len() != "global"@.len());
        },
        (Diagnostic::Ambiguity(_), Diagnostic::Luadoc(_)) => {
            assert("ambiguity"@.len() != "luadoc"@.len());
        },
        (Diagnostic::Ambiguity(_), Diagnostic::Redefined(_)) => {
            assert("ambiguity"@[0] != "redefined"@[0]);
        },
        (Diagnostic::Ambiguity(_), Diagnostic::Strict(_)) => {
            assert("ambiguity"@.len() != "strict"@.len());
        },
        (Diagnostic::Ambiguity(_), Diagnostic::Strong(_)) => {
            assert("ambiguity"@.len() != "strong"@.len());
        },
        (Diagnostic::Ambiguity(_), Diagnostic::TypeCheck(_)) => {
            assert("ambiguity"@[0] != "typecheck"@[0]);
        },
        (Diagnostic::Ambiguity(_), Diagnostic::Unbalanced(_)) => {
            assert("ambiguity"@.len() != "unbalanced"@.len());
        },
        (Diagnostic::Ambiguity(_), Diagnostic::Unused(_)) => {
            assert("ambiguity"@.len() != "unused"@.len());
        },
        (Diagnostic::Await(_), Diagnostic::Ambiguity(_)) => {
            assert("await"@.len() != "ambiguity"@.len());
        },
        (Diagnostic::Await(_), Diagnostic::Codestyle(_)) => {
            assert("await"@.len() != "codestyle"@.len());
        },
        (Diagnostic::Await(_), Diagnostic::Conventions(_)) => {
            assert("await"@.len() != "conventions"@.len());
        },
        (Diagnostic::Await(_), Diagnostic::Duplicate(_)) => {
            assert("await"@.len() != "duplicate"@.len());
        },
        (Diagnostic::Await(_), Diagnostic::Global(_)) => {
            assert("await"@.len() != "global"@.len());
        },
        (Diagnostic::Await(_), Diagnostic::Luadoc(_)) => {
            assert("await"@.len() != "luadoc"@.len());
        },
        (Diagnostic::Await(_), Diagnostic::Redefined(_)) => {
            assert("await"@.len() != "redefined"@.len());
        },
        (Diagnostic::Await(_), Diagnostic::Strict(_)) => {
            assert("await"@.len() != "strict"@.len());
        },
        (Diagnostic::Await(_), Diagnostic::Strong(_)) => {
            assert("await"@.len() != "strong"@.len());
        },
        (Diagnostic::Await(_), Diagnostic::TypeCheck(_)) => {
            assert("await"@.len() != "typecheck"@.len());
        },
        (Diagnostic::Await(_), Diagnostic::Unbalanced(_)) => {
            assert("await"@.len() != "unbalanced"@.len());
        },
        (Diagnostic::Await(_), Diagnostic::Unused(_)) => {
            assert("await"@.len() != "unused"@.len());
        },
        (Diagnostic::Codestyle(_), Diagnostic::Ambiguity(_)) => {
            assert("codestyle"@[0] != "ambiguity"@[0]);
        },
        (Diagnostic::Codestyle(_), Diagnostic::Await(_)) => {
            assert("codestyle"@.len() != "await"@.len());
        },
        (Diagnostic::Codestyle(_), Diagnostic::Conventions(_)) => {
            assert("codestyle"@.len() != "conventions"@.len());
        },
        (Diagnostic::Codestyle(_), Diagnostic::Duplicate(_)) => {
            assert("codestyle"@[0] != "duplicate"@[0]);
        },
        (Diagnostic::Codestyle(_), Diagnostic::Global(_)) => {
            assert("codestyle"@.len() != "global"@.len());
        },
        (Diagnostic::Codestyle(_), Diagnostic::Luadoc(_)) => {
            assert("codestyle"@.len() != "luadoc"@.len());
        },
        (Diagnostic::Codestyle(_), Diagnostic::Redefined(_)) => {
            assert("codestyle"@[0] != "redefined"@[0]);
        },
        (Diagnostic::Codestyle(_), Diagnostic::Strict(_)) => {
            assert("codestyle"@.len() != "strict"@.len());
        },
        (Diagnostic::Codestyle(_), Diagnostic::Strong(_)) => {
            assert("codestyle"@.len() != "strong"@.len());
        },
        (Diagnostic::Codestyle(_), Diagnostic::TypeCheck(_)) => {
            assert("codestyle"@[0] != "typecheck"@[0]);
        },
        (Diagnostic::Codestyle(_), Diagnostic::Unbalanced(_)) => {
            assert("codestyle"@.len() != "unbalanced"@.len());
        },
        (Diagnostic::Codestyle(_), Diagnostic::Unused(_)) => {
            assert("codestyle"@.len() != "unused"@.len());
        },
        (Diagnostic::Conventions(_), Diagnostic::Ambiguity(_)) => {
            assert("conventions"@.len() != "ambiguity"@.len());
        },
        (Diagnostic::Conventions(_), Diagnostic::Await(_)) => {
            assert("conventions"@.len() != "await"@.len());
        },
        (Diagnostic::Conventions(_), Diagnostic::Codestyle(_)) => {
            assert("conventions"@.len() != "codestyle"@.len());
        },
        (Diagnostic::Conventions(_), Diagnostic::Duplicate(_)) => {
            assert("conventions"@.len() != "duplicate"@.len());
        },
        (Diagnostic::Conventions(_), Diagnostic::Global(_)) => {
            assert("conventions"@.len() != "global"@.len());
        },
        (Diagnostic::Conventions(_), Diagnostic::Luadoc(_)) => {
            assert("conventions"@.len() != "luadoc"@.len());
        },
        (Diagnostic::Conventions(_), Diagnostic::Redefined(_)) => {
            assert("conventions"@.len() != "redefined"@.len());
        },
        (Diagnostic::Conventions(_), Diagnostic::Strict(_)) => {
            assert("conventions"@.len() != "strict"@.len());
        },
        (Diagnostic::Conventions(_), Diagnostic::Strong(_)) => {
            assert("conventions"@.len() != "strong"@.len());
        },
        (Diagnostic::Conventions(_), Diagnostic::TypeCheck(_)) => {
            assert("conventions"@.len() != "typecheck"@.len());
        },
        (Diagnostic::Conventions(_), Diagnostic::Unbalanced(_)) => {
            assert("conventions"@.len() != "unbalanced"@.len());
        },
        (Diagnostic::Conventions(_), Diagnostic::Unused(_)) => {
            assert("conventions"@.len() != "unused"@.len());
        },
        (Diagnostic::Duplicate(_), Diagnostic::Ambiguity(_)) => {
            assert("duplicate"@[0] != "ambiguity"@[0]);
        },
        (Diagnostic::Duplicate(_), Diagnostic::Await(_)) => {
            assert("duplicate"@.len() != "await"@.len());
        },
        (Diagnostic::Duplicate(_), Diagnostic::Codestyle(_)) => {
            assert("duplicate"@[0] != "codestyle"@[0]);
        },
        (Diagnostic::Duplicate(_), Diagnostic::Conventions(_)) => {
            assert("duplicate"@.len() != "conventions"@.len());
        },
        (Diagnostic::Duplicate(_), Diagnostic::Global(_)) => {
            assert("duplicate"@.len() != "global"@.len());
        },
        (Diagnostic::Duplicate(_), Diagnostic::Luadoc(_)) => {
            assert("duplicate"@.len() != "luadoc"@.len());
        },
        (Diagnostic::Duplicate(_), Diagnostic::Redefined(_)) => {
            assert("duplicate"@[0] != "redefined"@[0]);
        },
        (Diagnostic::Duplicate(_), Diagnostic::Strict(_)) => {
            assert("duplicate"@.len() != "strict"@.len());
        },
        (Diagnostic::Duplicate(_), Diagnostic::Strong(_)) => {
            assert("duplicate"@.len() != "strong"@.len());
        },
        (Diagnostic::Duplicate(_), Diagnostic::TypeCheck(_)) => {
            assert("duplicate"@[0] != "typecheck"@[0]);
        },
        (Diagnostic::Duplicate(_), Diagnostic::Unbalanced(_)) => {
            assert("duplicate"@.len() != "unbalanced"@.len());
        },
        (Diagnostic::Duplicate(_), Diagnostic::Unused(_)) => {
            assert("duplicate"@.len() != "unused"@.len());
        },
        (Diagnostic::Global(_), Diagnostic::Ambiguity(_)) => {
            assert("global"@.len() != "ambiguity"@.len());
        },
        (Diagnostic::Global(_), Diagnostic::Await(_)) => {
            assert("global"@.len() != "await"@.len());
        },
        (Diagnostic::Global(_), Diagnostic::Codestyle(_)) => {
            assert("global"@.len() != "codestyle"@.len());
        },
        (Diagnostic::Global(_), Diagnostic::Conventions(_)) => {
            assert("global"@.len() != "conventions"@.len());
        },
        (Diagnostic::Global(_), Diagnostic::Duplicate(_)) => {
            assert("global"@.len() != "duplicate"@.len());
        },
        (Diagnostic::Global(_), Diagnostic::Luadoc(_)) => {
            assert("global"@[0] != "luadoc"@[0]);
        },
        (Diagnostic::Global(_), Diagnostic::Redefined(_)) => {
            assert("global"@.len() != "redefined"@.len());
        },
        (Diagnostic::Global(_), Diagnostic::Strict(_)) => {
            assert("global"@[0] != "strict"@[0]);
        },
        (Diagnostic::Global(_), Diagnostic::Strong(_)) => {
            assert("global"@[0] != "strong"@[0]);
        },
        (Diagnostic::Global(_), Diagnostic::TypeCheck(_)) => {
            assert("global"@.len() != "typecheck"@.len());
        },
        (Diagnostic::Global(_), Diagnostic::Unbalanced(_)) => {
            assert("global"@.len() != "unbalanced"@.len());
        },
        (Diagnostic::Global(_), Diagnostic::Unused(_)) => {
            assert("global"@[0] != "unused"@[0]);
        },
        (Diagnostic::Luadoc(_), Diagnostic::Ambiguity(_)) => {
            assert("luadoc"@.len() != "ambiguity"@.len());
        },
        (Diagnostic::Luadoc(_), Diagnostic::Await(_)) => {
            assert("luadoc"@.len() != "await"@.len());
        },
        (Diagnostic::Luadoc(_), Diagnostic::Codestyle(_)) => {
            assert("luadoc"@.len() != "codestyle"@.len());
        },
        (Diagnostic::Luadoc(_), Diagnostic::Conventions(_)) => {
            assert("luadoc"@.len() != "conventions"@.len());
        },
        (Diagnostic::Luadoc(_), Diagnostic::Duplicate(_)) => {
            assert("luadoc"@.len() != "duplicate"@.len());
        },
        (Diagnostic::Luadoc(_), Diagnostic::Global(_)) => {
            assert("luadoc"@[0] != "global"@[0]);
        },
        (Diagnostic::Luadoc(_), Diagnostic::Redefined(_)) => {
            assert("luadoc"@.len() != "redefined"@.len());
        },
        (Diagnostic::Luadoc(_), Diagnostic::Strict(_)) => {
            assert("luadoc"@[0] != "strict"@[0]);
        },
        (Diagnostic::Luadoc(_), Diagnostic::Strong(_)) => {
            assert("luadoc"@[0] != "strong"@[0]);
        },
        (Diagnostic::Luadoc(_), Diagnostic::TypeCheck(_)) => {
            assert("luadoc"@.len() != "typecheck"@.len());
        },
        (Diagnostic::Luadoc(_), Diagnostic::Unbalanced(_)) => {
            assert("luadoc"@.len() != "unbalanced"@.len());
        },
        (Diagnostic::Luadoc(_), Diagnostic::Unused(_)) => {
            assert("luadoc"@[0] != "unused"@[0]);
        },
        (Diagnostic::Redefined(_), Diagnostic::Ambiguity(_)) => {
            assert("redefined"@[0] != "ambiguity"@[0]);
        },
        (Diagnostic::Redefined(_), Diagnostic::Await(_)) => {
            assert("redefined"@.len() != "await"@.len());
        },
        (Diagnostic::Redefined(_), Diagnostic::Codestyle(_)) => {
            assert("redefined"@[0] != "codestyle"@[0]);
        },
        (Diagnostic::Redefined(_), Diagnostic::Conventions(_)) => {
            assert("redefined"@.len() != "conventions"@.len());
        },
        (Diagnostic::Redefined(_), Diagnostic::Duplicate(_)) => {
            assert("redefined"@[0] != "duplicate"@[0]);
        },
        (Diagnostic::Redefined(_), Diagnostic::Global(_)) => {
            assert("redefined"@.len() != "global"@.len());
        },
        (Diagnostic::Redefined(_), Diagnostic::Luadoc(_)) => {
            assert("redefined"@.len() != "luadoc"@.len());
        },
        (Diagnostic::Redefined(_), Diagnostic::Strict(_)) => {
            assert("redefined"@.len() != "strict"@.len());
        },
        (Diagnostic::Redefined(_), Diagnostic::Strong(_)) => {
            assert("redefined"@.len() != "strong"@.len());
        },
        (Diagnostic::Redefined(_), Diagnostic::TypeCheck(_)) => {
            assert("redefined"@[0] != "typecheck"@[0]);
        },
        (Diagnostic::Redefined(_), Diagnostic::Unbalanced(_)) => {
            assert("redefined"@.len() != "unbalanced"@.len());
        },
        (Diagnostic::Redefined(_), Diagnostic::Unused(_)) => {
            assert("redefined"@.len() != "unused"@.len());
        },
        (Diagnostic::Strict(_), Diagnostic::Ambiguity(_)) => {
            assert("strict"@.len() != "ambiguity"@.len());
        },
        (Diagnostic::Strict(_), Diagnostic::Await(_)) => {
            assert("strict"@.len() != "await"@.len());
        },
        (Diagnostic::Strict(_), Diagnostic::Codestyle(_)) => {
            assert("strict"@.len() != "codestyle"@.len());
        },
        (Diagnostic::Strict(_), Diagnostic::Conventions(_)) => {
            assert("strict"@.len() != "conventions"@.len());
        },
        (Diagnostic::Strict(_), Diagnostic::Duplicate(_)) => {
            assert("strict"@.len() != "duplicate"@.len());
        },
        (Diagnostic::Strict(_), Diagnostic::Global(_)) => {
            assert("strict"@[0] != "global"@[0]);
        },
        (Diagnostic::Strict(_), Diagnostic::Luadoc(_)) => {
            assert("strict"@[0] != "luadoc"@[0]);
        },
        (Diagnostic::Strict(_), Diagnostic::Redefined(_)) => {
            assert("strict"@.len() != "redefined"@.len());
        },
        (Diagnostic::Strict(_), Diagnostic::Strong(_)) => {
            assert("strict"@[3] != "strong"@[3]);
        },
        (Diagnostic::Strict(_), Diagnostic::TypeCheck(_)) => {
            assert("strict"@.len() != "typecheck"@.len());
        },
        (Diagnostic::Strict(_), Diagnostic::Unbalanced(_)) => {
            assert("strict"@.len() != "unbalanced"@.len());
        },
        (Diagnostic::Strict(_), Diagnostic::Unused(_)) => {
            assert("strict"@[0] != "unused"@[0]);
        },
        (Diagnostic::Strong(_), Diagnostic::Ambiguity(_)) => {
            assert("strong"@.len() != "ambiguity"@.len());
        },
        (Diagnostic::Strong(_), Diagnostic::Await(_)) => {
            assert("strong"@.len() != "await"@.len());
        },
        (Diagnostic::Strong(_), Diagnostic::Codestyle(_)) => {
            assert("strong"@.len() != "codestyle"@.len());
        },
        (Diagnostic::Strong(_), Diagnostic::Conventions(_)) => {
            assert("strong"@.len() != "conventions"@.len());
        },
        (Diagnostic::Strong(_), Diagnostic::Duplicate(_)) => {
            assert("strong"@.len() != "duplicate"@.len());
        },
        (Diagnostic::Strong(_), Diagnostic::Global(_)) => {
            assert("strong"@[0] != "global"@[0]);
        },
        (Diagnostic::Strong(_), Diagnostic::Luadoc(_)) => {
            assert("strong"@[0] != "luadoc"@[0]);
        },
        (Diagnostic::Strong(_), Diagnostic::Redefined(_)) => {
            assert("strong"@.len() != "redefined"@.len());
        },
        (Diagnostic::Strong(_), Diagnostic::Strict(_)) => {
            assert("strong"@[3] != "strict"@[3]);
        },
        (Diagnostic::Strong(_), Diagnostic::TypeCheck(_)) => {
            assert("strong"@.len() != "typecheck"@.len());
        },
        (Diagnostic::Strong(_), Diagnostic::Unbalanced(_)) => {
            assert("strong"@.len() != "unbalanced"@.len());
        },
        (Diagnostic::Strong(_), Diagnostic::Unused(_)) => {
            assert("strong"@[0] != "unused"@[0]);
        },
        (Diagnostic::TypeCheck(_), Diagnostic::Ambiguity(_)) => {
            assert("typecheck"@[0] != "ambiguity"@[0]);
        },
        (Diagnostic::TypeCheck(_), Diagnostic::Await(_)) => {
            assert("typecheck"@.len() != "await"@.len());
        },
        (Diagnostic::TypeCheck(_), Diagnostic::Codestyle(_)) => {
            assert("typecheck"@[0] != "codestyle"@[0]);
        },
        (Diagnostic::TypeCheck(_), Diagnostic::Conventions(_)) => {
            assert("typecheck"@.len() != "conventions"@.len());
        },
        (Diagnostic::TypeCheck(_), Diagnostic::Duplicate(_)) => {
            assert("typecheck"@[0] != "duplicate"@[0]);
        },
        (Diagnostic::TypeCheck(_), Diagnostic::Global(_)) => {
            assert("typecheck"@.len() != "global"@.len());
        },
        (Diagnostic::TypeCheck(_), Diagnostic::Luadoc(_)) => {
            assert("typecheck"@.len() != "luadoc"@.len());
        },
        (Diagnostic::TypeCheck(_), Diagnostic::Redefined(_)) => {
            assert("typecheck"@[0] != "redefined"@[0]);
        },
        (Diagnostic::TypeCheck(_), Diagnostic::Strict(_)) => {
            assert("typecheck"@.len() != "strict"@.len());
        },
        (Diagnostic::TypeCheck(_), Diagnostic::Strong(_)) => {
            assert("typecheck"@.len() != "strong"@.len());
        },
        (Diagnostic::TypeCheck(_), Diagnostic::Unbalanced(_)) => {
            assert("typecheck"@.len() != "unbalanced"@.len());
        },
        (Diagnostic::TypeCheck(_), Diagnostic::Unused(_)) => {
            assert("typecheck"@.len() != "unused"@.len());
        },
        (Diagnostic::Unbalanced(_), Diagnostic::Ambiguity(_)) => {
            assert("unbalanced"@.len() != "ambiguity"@.len());
        },
        (Diagnostic::Unbalanced(_), Diagnostic::Await(_)) => {
            assert("unbalanced"@.len() != "await"@.len());
        },
        (Diagnostic::Unbalanced(_), Diagnostic::Codestyle(_)) => {
            assert("unbalanced"@.len() != "codestyle"@.len());
        },
        (Diagnostic::Unbalanced(_), Diagnostic::Conventions(_)) => {
            assert("unbalanced"@.len() != "conventions"@.len());
        },
        (Diagnostic::Unbalanced(_), Diagnostic::Duplicate(_)) => {
            assert("unbalanced"@.len() != "duplicate"@.len());
        },
        (Diagnostic::Unbalanced(_), Diagnostic::Global(_)) => {
            assert("unbalanced"@.len() != "global"@.len());
        },
        (Diagnostic::Unbalanced(_), Diagnostic::Luadoc(_)) => {
            assert("unbalanced"@.len() != "luadoc"@.len());
        },
        (Diagnostic::Unbalanced(_), Diagnostic::Redefined(_)) => {
            assert("unbalanced"@.len() != "redefined"@.len());
        },
        (Diagnostic::Unbalanced(_), Diagnostic::Strict(_)) => {
            assert("unbalanced"@.len() != "strict"@.len());
        },
        (Diagnostic::Unbalanced(_), Diagnostic::Strong(_)) => {
            assert("unbalanced"@.len() != "strong"@.len());
        },
        (Diagnostic::Unbalanced(_), Diagnostic::TypeCheck(_)) => {
            assert("unbalanced"@.len() != "typecheck"@.len());
        },
        (Diagnostic::Unbalanced(_), Diagnostic::Unused(_)) => {
            assert("unbalanced"@.len() != "unused"@.len());
        },
        (Diagnostic::Unused(_), Diagnostic::Ambiguity(_)) => {
            assert("unused"@.len() != "ambiguity"@.len());
        },
        (Diagnostic::Unused(_), Diagnostic::Await(_)) => {
            assert("unused"@.len() != "await"@.len());
        },
        (Diagnostic::Unused(_), Diagnostic::Codestyle(_)) => {
            assert("unused"@.len() != "codestyle"@.len());
        },
        (Diagnostic::Unused(_), Diagnostic::Conventions(_)) => {
            assert("unused"@.len() != "conventions"@.len());
        },
        (Diagnostic::Unused(_), Diagnostic::Duplicate(_)) => {
            assert("unused"@.len() != "duplicate"@.len());
        },
        (Diagnostic::Unused(_), Diagnostic::Global(_)) => {
            assert("unused"@[0] != "global"@[0]);
        },
        (Diagnostic::Unused(_), Diagnostic::Luadoc(_)) => {
            assert("unused"@[0] != "luadoc"@[0]);
        },
        (Diagnostic::Unused(_), Diagnostic::Redefined(_)) => {
            assert("unused"@.len() != "redefined"@.len());
        },
        (Diagnostic::Unused(_), Diagnostic::Strict(_)) => {
            assert("unused"@[0] != "strict"@[0]);
        },
        (Diagnostic::Unused(_), Diagnostic::Strong(_)) => {
            assert("unused"@[0] != "strong"@[0]);
        },
        (Diagnostic::Unused(_), Diagnostic::TypeCheck(_)) => {
            assert("unused"@.len() != "typecheck"@.len());
        },
        (Diagnostic::Unused(_), Diagnostic::Unbalanced(_)) => {
            assert("unused"@.len() != "unbalanced"@.len());
        },
    }
}

/// Law: every diagnostic is read back from its own code, and no text is read as two
/// different diagnostics; so `Diagnostic::from_str` on `code_of(d)` gives `Ok(d)`.
pub proof fn law_code_round_trip(d: Diagnostic, other: Diagnostic)
    ensures
        reads_as(code_of(d), d),
        reads_as(code_of(d), other) ==> other == d,
{
    let s = code_of(d);
    let g = d.code_group();
    lemma_group_has_no_colon(d);
    let i = g.len() as int;
    assert(s[i] == ':');
    assert forall|k: int| 0 <= k < i implies s[k] != ':' by {
        assert(s[k] == g[k]);
    }
    assert(crate::text::is_first_index(s, ':', i));
    assert(s.contains(':'));
    let j = choose|j: int| crate::text::is_first_index(s, ':', j);
    crate::text::lemma_first_index_unique(s, ':', i, j);
    assert(s.subrange(0, i) =~= g);
    assert(s.subrange(i + 1, s.len() as int) =~= d.code_name());
    if reads_as(s, other) {
        lemma_codes_distinct(d, other);
    }
}

} // verus!

verus! {

/// Law: each diagnostic is read from the code that the language server gives it, the
/// group in lower case, a `:`, and the diagnostic's name in kebab case (the one
/// exception to plain kebab case being `ambiguity-1`): for instance
/// `Diagnostic::Global(Global::UndefinedGlobal)` from exactly `global:undefined-global`.
/// With `law_code_round_trip`, `Diagnostic::from_str` reads each of these texts as the
/// diagnostic it is listed with here, and no other.
pub proof fn law_codes_are_the_documented_names()
    ensures
        code_of(Diagnostic::Ambiguity(Ambiguity::Ambiguity1)) == "ambiguity:ambiguity-1"@,
        code_of(Diagnostic::Ambiguity(Ambiguity::CountDownLoop)) == "ambiguity:count-down-loop"@,
        code_of(Diagnostic::Ambiguity(Ambiguity::DifferentRequires)) == "ambiguity:different-requires"@,
        code_of(Diagnostic::Ambiguity(Ambiguity::NewfieldCall)) == "ambiguity:newfield-call"@,
        code_of(Diagnostic::Ambiguity(Ambiguity::NewlineCall)) == "ambiguity:newline-call"@,
        code_of(Diagnostic::Await(Await::AwaitInSync)) == "await:await-in-sync"@,
        code_of(Diagnostic::Await(Await::NotYieldable)) == "await:not-yieldable"@,
        code_of(Diagnostic::Codestyle(Codestyle::CodestyleCheck)) == "codestyle:codestyle-check"@,
        code_of(Diagnostic::Codestyle(Codestyle::NameStyleCheck)) == "codestyle:name-style-check"@,
        code_of(Diagnostic::Codestyle(Codestyle::SpellCheck)) == "codestyle:spell-check"@,
        code_of(Diagnostic::Conventions(Conventions::GlobalElement)) == "conventions:global-element"@,
        code_of(Diagnostic::Duplicate(Duplicate::DuplicateIndex)) == "duplicate:duplicate-index"@,
        code_of(Diagnostic::Duplicate(Duplicate::DuplicateSetField)) == "duplicate:duplicate-set-field"@,
        code_of(Diagnostic::Global(Global::GlobalInNilEnv)) == "global:global-in-nil-env"@,
        code_of(Diagnostic::Global(Global::LowercaseGlobal)) == "global:lowercase-global"@,
        code_of(Diagnostic::Global(Global::UndefinedEnvChild)) == "global:undefined-env-child"@,
        code_of(Diagnostic::Global(Global::UndefinedGlobal)) == "global:undefined-global"@,
        code_of(Diagnostic::Luadoc(Luadoc::CastTypeMismatch)) == "luadoc:cast-type-mismatch"@,
        code_of(Diagnostic::Luadoc(Luadoc::CircleDocClass)) == "luadoc:circle-doc-class"@,
        code_of(Diagnostic::Luadoc(Luadoc::DocFieldNoClass)) == "luadoc:doc-field-no-class"@,
        code_of(Diagnostic::Luadoc(Luadoc::DuplicateDocAlias)) == "luadoc:duplicate-doc-alias"@,
        code_of(Diagnostic::Luadoc(Luadoc::DuplicateDocField)) == "luadoc:duplicate-doc-field"@,
        code_of(Diagnostic::Luadoc(Luadoc::DuplicateDocParam)) == "luadoc:duplicate-doc-param"@,
        code_of(Diagnostic::Luadoc(Luadoc::IncompleteSignatureDoc)) == "luadoc:incomplete-signature-doc"@,
        code_of(Diagnostic::Luadoc(Luadoc::MissingGlobalDoc)) == "luadoc:missing-global-doc"@,
        code_of(Diagnostic::Luadoc(Luadoc::MissingLocalExportDoc)) == "luadoc:missing-local-export-doc"@,
        code_of(Diagnostic::Luadoc(Luadoc::UndefinedDocClass)) == "luadoc:undefined-doc-class"@,
        code_of(Diagnostic::Luadoc(Luadoc::UndefinedDocName)) == "luadoc:undefined-doc-name"@,
        code_of(Diagnostic::Luadoc(Luadoc::UndefinedDocParam)) == "luadoc:undefined-doc-param"@,
        code_of(Diagnostic::Luadoc(Luadoc::UnknownCastVariable)) == "luadoc:unknown-cast-variable"@,
        code_of(Diagnostic::Luadoc(Luadoc::UnknownDiagCode)) == "luadoc:unknown-diag-code"@,
        code_of(Diagnostic::Luadoc(Luadoc::UnknownOperator)) == "luadoc:unknown-operator"@,
        code_of(Diagnostic::Redefined(Redefined::RedefinedLocal)) == "redefined:redefined-local"@,
        code_of(Diagnostic::Strict(Strict::CloseNonObject)) == "strict:close-non-object"@,
        code_of(Diagnostic::Strict(Strict::Deprecated)) == "strict:deprecated"@,
        code_of(Diagnostic::Strict(Strict::DiscardReturns)) == "strict:discard-returns"@,
        code_of(Diagnostic::Strong(Strong::NoUnknown)) == "strong:no-unknown"@,
        code_of(Diagnostic::TypeCheck(TypeCheck::AssignTypeMismatch)) == "typecheck:assign-type-mismatch"@,
        code_of(Diagnostic::TypeCheck(TypeCheck::CastLocalType)) == "typecheck:cast-local-type"@,
        code_of(Diagnostic::TypeCheck(TypeCheck::CastTypeMismatch)) == "typecheck:cast-type-mismatch"@,
        code_of(Diagnostic::TypeCheck(TypeCheck::InjectField)) == "typecheck:inject-field"@,
        code_of(Diagnostic::TypeCheck(TypeCheck::NeedCheckNil)) == "typecheck:need-check-nil"@,
        code_of(Diagnostic::TypeCheck(TypeCheck::ParamTypeMismatch)) == "typecheck:param-type-mismatch"@,
        code_of(Diagnostic::TypeCheck(TypeCheck::ReturnTypeMismatch)) == "typecheck:return-type-mismatch"@,
        code_of(Diagnostic::TypeCheck(TypeCheck::UndefinedField)) == "typecheck:undefined-field"@,
        code_of(Diagnostic::Unbalanced(Unbalanced::MissingFields)) == "unbalanced:missing-fields"@,
        code_of(Diagnostic::Unbalanced(Unbalanced::MissingParameter)) == "unbalanced:missing-parameter"@,
        code_of(Diagnostic::Unbalanced(Unbalanced::MissingReturn)) == "unbalanced:missing-return"@,
        code_of(Diagnostic::Unbalanced(Unbalanced::MissingReturnValue)) == "unbalanced:missing-return-value"@,
        code_of(Diagnostic::Unbalanced(Unbalanced::RedundantParameter)) == "unbalanced:redundant-parameter"@,
        code_of(Diagnostic::Unbalanced(Unbalanced::RedundantReturnValue)) == "unbalanced:redundant-return-value"@,
        code_of(Diagnostic::Unbalanced(Unbalanced::RedundantValue)) == "unbalanced:redundant-value"@,
        code_of(Diagnostic::Unbalanced(Unbalanced::UnbalancedAssignments)) == "unbalanced:unbalanced-assignments"@,
        code_of(Diagnostic::Unused(Unused::CodeAfterBreak)) == "unused:code-after-break"@,
        code_of(Diagnostic::Unused(Unused::EmptyBlock)) == "unused:empty-block"@,
        code_of(Diagnostic::Unused(Unused::RedundantReturn)) == "unused:redundant-return"@,
        code_of(Diagnostic::Unused(Unused::TrailingSpace)) == "unused:trailing-space"@,
        code_of(Diagnostic::Unused(Unused::UnreachableCode)) == "unused:unreachable-code"@,
        code_of(Diagnostic::Unused(Unused::UnusedFunction)) == "unused:unused-function"@,
        code_of(Diagnostic::Unused(Unused::UnusedLabel)) == "unused:unused-label"@,
        code_of(Diagnostic::Unused(Unused::UnusedLocal)) == "unused:unused-local"@,
        code_of(Diagnostic::Unused(Unused::UnusedVararg)) == "unused:unused-vararg"@,
{
    reveal_strlit("ambiguity:ambiguity-1");
    reveal_strlit("ambiguity:count-down-loop");
    reveal_strlit("ambiguity:different-requires");
    reveal_strlit("ambiguity:newfield-call");
    reveal_strlit("ambiguity:newline-call");
    reveal_strlit("await:await-in-sync");
    reveal_strlit("await:not-yieldable");
    reveal_strlit("codestyle:codestyle-check");
    reveal_strlit("codestyle:name-style-check");
    reveal_strlit("codestyle:spell-check");
    reveal_strlit("conventions:global-element");
    reveal_strlit("duplicate:duplicate-index");
    reveal_strlit("duplicate:duplicate-set-field");
    reveal_strlit("global:global-in-nil-env");
    reveal_strlit("global:lowercase-global");
    reveal_strlit("global:undefined-env-child");
    reveal_strlit("global:undefined-global");
    reveal_strlit("luadoc:cast-type-mismatch");
    reveal_strlit("luadoc:circle-doc-class");
    reveal_strlit("luadoc:doc-field-no-class");
    reveal_strlit("luadoc:duplicate-doc-alias");
    reveal_strlit("luadoc:duplicate-doc-field");
    reveal_strlit("luadoc:duplicate-doc-param");
    reveal_strlit("luadoc:incomplete-signature-doc");
    reveal_strlit("luadoc:missing-global-doc");
    reveal_strlit("luadoc:missing-local-export-doc");
    reveal_strlit("luadoc:undefined-doc-class");
    reveal_strlit("luadoc:undefined-doc-name");
    reveal_strlit("luadoc:undefined-doc-param");
    reveal_strlit("luadoc:unknown-cast-variable");
    reveal_strlit("luadoc:unknown-diag-code");
    reveal_strlit("luadoc:unknown-operator");
    reveal_strlit("redefined:redefined-local");
    reveal_strlit("strict:close-non-object");
    reveal_strlit("strict:deprecated");
    reveal_strlit("strict:discard-returns");
    reveal_strlit("strong:no-unknown");
    reveal_strlit("typecheck:assign-type-mismatch");
    reveal_strlit("typecheck:cast-local-type");
    reveal_strlit("typecheck:cast-type-mismatch");
    reveal_strlit("typecheck:inject-field");
    reveal_strlit("typecheck:need-check-nil");
    reveal_strlit("typecheck:param-type-mismatch");
    reveal_strlit("typecheck:return-type-mismatch");
    reveal_strlit("typecheck:undefined-field");
    reveal_strlit("unbalanced:missing-fields");
    reveal_strlit("unbalanced:missing-parameter");
    reveal_strlit("unbalanced:missing-return");
    reveal_strlit("unbalanced:missing-return-value");
    reveal_strlit("unbalanced:redundant-parameter");
    reveal_strlit("unbalanced:redundant-return-value");
    reveal_strlit("unbalanced:redundant-value");
    reveal_strlit("unbalanced:unbalanced-assignments");
    reveal_strlit("unused:code-after-break");
    reveal_strlit("unused:empty-block");
    reveal_strlit("unused:redundant-return");
    reveal_strlit("unused:trailing-space");
    reveal_strlit("unused:unreachable-code");
    reveal_strlit("unused:unused-function");
    reveal_strlit("unused:unused-label");
    reveal_strlit("unused:unused-local");
    reveal_strlit("unused:unused-vararg");
    reveal_strlit("ambiguity");
    reveal_strlit("await");
    reveal_strlit("codestyle");
    reveal_strlit("conventions");
    reveal_strlit("duplicate");
    reveal_strlit("global");
    reveal_strlit("luadoc");
    reveal_strlit("redefined");
    reveal_strlit("strict");
    reveal_strlit("strong");
    reveal_strlit("typecheck");
    reveal_strlit("unbalanced");
    reveal_strlit("unused");
    reveal_strlit("ambiguity-1");
    reveal_strlit("count-down-loop");
    reveal_strlit("different-requires");
    reveal_strlit("newfield-call");
    reveal_strlit("newline-call");
    reveal_strlit("await-in-sync");
    reveal_strlit("not-yieldable");
    reveal_strlit("codestyle-check");
    reveal_strlit("name-style-check");
    reveal_strlit("spell-check");
    reveal_strlit("global-element");
    reveal_strlit("duplicate-index");
    reveal_strlit("duplicate-set-field");
    reveal_strlit("global-in-nil-env");
    reveal_strlit("lowercase-global");
    reveal_strlit("undefined-env-child");
    reveal_strlit("undefined-global");
    reveal_strlit("cast-type-mismatch");
    reveal_strlit("circle-doc-class");
    reveal_strlit("doc-field-no-class");
    reveal_strlit("duplicate-doc-alias");
    reveal_strlit("duplicate-doc-field");
    reveal_strlit("duplicate-doc-param");
    reveal_strlit("incomplete-signature-doc");
    reveal_strlit("missing-global-doc");
    reveal_strlit("missing-local-export-doc");
    reveal_strlit("undefined-doc-class");
    reveal_strlit("undefined-doc-name");
    reveal_strlit("undefined-doc-param");
    reveal_strlit("unknown-cast-variable");
    reveal_strlit("unknown-diag-code");
    reveal_strlit("unknown-operator");
    reveal_strlit("redefined-local");
    reveal_strlit("close-non-object");
    reveal_strlit("deprecated");
    reveal_strlit("discard-returns");
    reveal_strlit("no-unknown");
    reveal_strlit("assign-type-mismatch");
    reveal_strlit("cast-local-type");
    reveal_strlit("cast-type-mismatch");
    reveal_strlit("inject-field");
    reveal_strlit("need-check-nil");
    reveal_strlit("param-type-mismatch");
    reveal_strlit("return-type-mismatch");
    reveal_strlit("undefined-field");
    reveal_strlit("missing-fields");
    reveal_strlit("missing-parameter");
    reveal_strlit("missing-return");
    reveal_strlit("missing-return-value");
    reveal_strlit("redundant-parameter");
    reveal_strlit("redundant-return-value");
    reveal_strlit("redundant-value");
    reveal_strlit("unbalanced-assignments");
    reveal_strlit("code-after-break");
    reveal_strlit("empty-block");
    reveal_strlit("redundant-return");
    reveal_strlit("trailing-space");
    reveal_strlit("unreachable-code");
    reveal_strlit("unused-function");
    reveal_strlit("unused-label");
    reveal_strlit("unused-local");
    reveal_strlit("unused-vararg");
    assert(code_of(Diagnostic::Ambiguity(Ambiguity::Ambiguity1)) =~= "ambiguity:ambiguity-1"@);
    assert(code_of(Diagnostic::Ambiguity(Ambiguity::CountDownLoop)) =~= "ambiguity:count-down-loop"@);
    assert(code_of(Diagnostic::Ambiguity(Ambiguity::DifferentRequires)) =~= "ambiguity:different-requires"@);
    assert(code_of(Diagnostic::Ambiguity(Ambiguity::NewfieldCall)) =~= "ambiguity:newfield-call"@);
    assert(code_of(Diagnostic::Ambiguity(Ambiguity::NewlineCall)) =~= "ambiguity:newline-call"@);
    assert(code_of(Diagnostic::Await(Await::AwaitInSync)) =~= "await:await-in-sync"@);
    assert(code_of(Diagnostic::Await(Await::NotYieldable)) =~= "await:not-yieldable"@);
    assert(code_of(Diagnostic::Codestyle(Codestyle::CodestyleCheck)) =~= "codestyle:codestyle-check"@);
    assert(code_of(Diagnostic::Codestyle(Codestyle::NameStyleCheck)) =~= "codestyle:name-style-check"@);
    assert(code_of(Diagnostic::Codestyle(Codestyle::SpellCheck)) =~= "codestyle:spell-check"@);
    assert(code_of(Diagnostic::Conventions(Conventions::GlobalElement)) =~= "conventions:global-element"@);
    assert(code_of(Diagnostic::Duplicate(Duplicate::DuplicateIndex)) =~= "duplicate:duplicate-index"@);
    assert(code_of(Diagnostic::Duplicate(Duplicate::DuplicateSetField)) =~= "duplicate:duplicate-set-field"@);
    assert(code_of(Diagnostic::Global(Global::GlobalInNilEnv)) =~= "global:global-in-nil-env"@);
    assert(code_of(Diagnostic::Global(Global::LowercaseGlobal)) =~= "global:lowercase-global"@);
    assert(code_of(Diagnostic::Global(Global::UndefinedEnvChild)) =~= "global:undefined-env-child"@);
    assert(code_of(Diagnostic::Global(Global::UndefinedGlobal)) =~= "global:undefined-global"@);
    assert(code_of(Diagnostic::Luadoc(Luadoc::CastTypeMismatch)) =~= "luadoc:cast-type-mismatch"@);
    assert(code_of(Diagnostic::Luadoc(Luadoc::CircleDocClass)) =~= "luadoc:circle-doc-class"@);
    assert(code_of(Diagnostic::Luadoc(Luadoc::DocFieldNoClass)) =~= "luadoc:doc-field-no-class"@);
    assert(code_of(Diagnostic::Luadoc(Luadoc::DuplicateDocAlias)) =~= "luadoc:duplicate-doc-alias"@);
    assert(code_of(Diagnostic::Luadoc(Luadoc::DuplicateDocField)) =~= "luadoc:duplicate-doc-field"@);
    assert(code_of(Diagnostic::Luadoc(Luadoc::DuplicateDocParam)) =~= "luadoc:duplicate-doc-param"@);
    assert(code_of(Diagnostic::Luadoc(Luadoc::IncompleteSignatureDoc)) =~= "luadoc:incomplete-signature-doc"@);
    assert(code_of(Diagnostic::Luadoc(Luadoc::MissingGlobalDoc)) =~= "luadoc:missing-global-doc"@);
    assert(code_of(Diagnostic::Luadoc(Luadoc::MissingLocalExportDoc)) =~= "luadoc:missing-local-export-doc"@);
    assert(code_of(Diagnostic::Luadoc(Luadoc::UndefinedDocClass)) =~= "luadoc:undefined-doc-class"@);
    assert(code_of(Diagnostic::Luadoc(Luadoc::UndefinedDocName)) =~= "luadoc:undefined-doc-name"@);
    assert(code_of(Diagnostic::Luadoc(Luadoc::UndefinedDocParam)) =~= "luadoc:undefined-doc-param"@);
    assert(code_of(Diagnostic::Luadoc(Luadoc::UnknownCastVariable)) =~= "luadoc:unknown-cast-variable"@);
    assert(code_of(Diagnostic::Luadoc(Luadoc::UnknownDiagCode)) =~= "luadoc:unknown-diag-code"@);
    assert(code_of(Diagnostic::Luadoc(Luadoc::UnknownOperator)) =~= "luadoc:unknown-operator"@);
    assert(code_of(Diagnostic::Redefined(Redefined::RedefinedLocal)) =~= "redefined:redefined-local"@);
    assert(code_of(Diagnostic::Strict(Strict::CloseNonObject)) =~= "strict:close-non-object"@);
    assert(code_of(Diagnostic::Strict(Strict::Deprecated)) =~= "strict:deprecated"@);
    assert(code_of(Diagnostic::Strict(Strict::DiscardReturns)) =~= "strict:discard-returns"@);
    assert(code_of(Diagnostic::Strong(Strong::NoUnknown)) =~= "strong:no-unknown"@);
    assert(code_of(Diagnostic::TypeCheck(TypeCheck::AssignTypeMismatch)) =~= "typecheck:assign-type-mismatch"@);
    assert(code_of(Diagnostic::TypeCheck(TypeCheck::CastLocalType)) =~= "typecheck:cast-local-type"@);
    assert(code_of(Diagnostic::TypeCheck(TypeCheck::CastTypeMismatch)) =~= "typecheck:cast-type-mismatch"@);
    assert(code_of(Diagnostic::TypeCheck(TypeCheck::InjectField)) =~= "typecheck:inject-field"@);
    assert(code_of(Diagnostic::TypeCheck(TypeCheck::NeedCheckNil)) =~= "typecheck:need-check-nil"@);
    assert(code_of(Diagnostic::TypeCheck(TypeCheck::ParamTypeMismatch)) =~= "typecheck:param-type-mismatch"@);
    assert(code_of(Diagnostic::TypeCheck(TypeCheck::ReturnTypeMismatch)) =~= "typecheck:return-type-mismatch"@);
    assert(code_of(Diagnostic::TypeCheck(TypeCheck::UndefinedField)) =~= "typecheck:undefined-field"@);
    assert(code_of(Diagnostic::Unbalanced(Unbalanced::MissingFields)) =~= "unbalanced:missing-fields"@);
    assert(code_of(Diagnostic::Unbalanced(Unbalanced::MissingParameter)) =~= "unbalanced:missing-parameter"@);
    assert(code_of(Diagnostic::Unbalanced(Unbalanced::MissingReturn)) =~= "unbalanced:missing-return"@);
    assert(code_of(Diagnostic::Unbalanced(Unbalanced::MissingReturnValue)) =~= "unbalanced:missing-return-value"@);
    assert(code_of(Diagnostic::Unbalanced(Unbalanced::RedundantParameter)) =~= "unbalanced:redundant-parameter"@);
    assert(code_of(Diagnostic::Unbalanced(Unbalanced::RedundantReturnValue)) =~= "unbalanced:redundant-return-value"@);
    assert(code_of(Diagnostic::Unbalanced(Unbalanced::RedundantValue)) =~= "unbalanced:redundant-value"@);
    assert(code_of(Diagnostic::Unbalanced(Unbalanced::UnbalancedAssignments)) =~= "unbalanced:unbalanced-assignments"@);
    assert(code_of(Diagnostic::Unused(Unused::CodeAfterBreak)) =~= "unused:code-after-break"@);
    assert(code_of(Diagnostic::Unused(Unused::EmptyBlock)) =~= "unused:empty-block"@);
    assert(code_of(Diagnostic::Unused(Unused::RedundantReturn)) =~= "unused:redundant-return"@);
    assert(code_of(Diagnostic::Unused(Unused::TrailingSpace)) =~= "unused:trailing-space"@);
    assert(code_of(Diagnostic::Unused(Unused::UnreachableCode)) =~= "unused:unreachable-code"@);
    assert(code_of(Diagnostic::Unused(Unused::UnusedFunction)) =~= "unused:unused-function"@);
    assert(code_of(Diagnostic::Unused(Unused::UnusedLabel)) =~= "unused:unused-label"@);
    assert(code_of(Diagnostic::Unused(Unused::UnusedLocal)) =~= "unused:unused-local"@);
    assert(code_of(Diagnostic::Unused(Unused::UnusedVararg)) =~= "unused:unused-vararg"@);
}

} // verus!
