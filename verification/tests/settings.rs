use luarc::diagnostic_serde::{full_percent_validate, three_minute_validate, workspace_delay, workspace_rate};
use luarc::workspace_serde::{max_preload, max_preload_validate, preload_file_size, preload_file_size_validate};
use luarc::hover_serde::{enum_limit_validate, enums_limit, preview_fields, preview_fields_validate, view_string_max, view_string_max_validate};
use luarc::LuaRcBuilder;
use luarc::serde_rules::{default_true, disabled, enabled, zero};
use luarc::diagnostics::{Ambiguity, Luadoc, TypeCheck, Unused};
use luarc::{
    CheckThirdParty, CheckThirdPartyValue, Completion, Diagnostic, Diagnostics, Files, Hover,
    LuaRc, Severity, Show, Snippet, Workspace,
};

#[test]
fn diagnostic_codes_are_read() {
    assert_eq!(
        Diagnostic::from_str("ambiguity:ambiguity-1"),
        Ok(Diagnostic::Ambiguity(Ambiguity::Ambiguity1))
    );
    assert_eq!(
        Diagnostic::from_str("typecheck:need-check-nil"),
        Ok(Diagnostic::TypeCheck(TypeCheck::NeedCheckNil))
    );
    assert_eq!(
        Diagnostic::from_str("luadoc:duplicate-doc-field"),
        Ok(Diagnostic::Luadoc(Luadoc::DuplicateDocField))
    );
    assert_eq!(
        "luadoc:duplicate-doc-alias".parse::<Diagnostic>(),
        Ok(Diagnostic::Luadoc(Luadoc::DuplicateDocAlias))
    );
    assert_eq!(
        Diagnostic::from_str("unused:unused-vararg"),
        Ok(Diagnostic::Unused(Unused::UnusedVararg))
    );
}

#[test]
fn diagnostic_codes_are_refused() {
    assert_eq!(
        Diagnostic::from_str("unused"),
        Err("diagnostics must be of the format of <group>:<name>".to_string())
    );
    assert_eq!(
        Diagnostic::from_str("unused:nothing:here"),
        Err("invalid lua diagnostic: unused:nothing:here".to_string())
    );
    assert_eq!(
        Diagnostic::from_str("luadoc:DuplicateDocField"),
        Err("invalid lua diagnostic: luadoc:DuplicateDocField".to_string())
    );
    assert_eq!(
        Diagnostic::from_str("type-check:need-check-nil"),
        Err("invalid lua diagnostic: type-check:need-check-nil".to_string())
    );
}

#[test]
fn severities_ignore_case() {
    assert_eq!(Severity::from_str("Error"), Ok(Severity::Error));
    assert_eq!(Severity::from_str("hINT!"), Ok(Severity::HintBang));
    assert_eq!(Severity::from_str("Information!"), Ok(Severity::InformationBang));
    assert_eq!(
        Severity::from_str("Fatal"),
        Err("invalid diagnostic severity: fatal".to_string())
    );
}

#[test]
fn check_third_party_round_trip() {
    for x in [
        CheckThirdParty::Ask,
        CheckThirdParty::Apply,
        CheckThirdParty::ApplyInMemory,
        CheckThirdParty::Disable,
        CheckThirdParty::False,
    ] {
        assert_eq!(CheckThirdParty::decode(&x.encode()), Ok(x));
    }
    assert_eq!(CheckThirdParty::False.encode(), CheckThirdPartyValue::Flag(false));
    assert_eq!(
        CheckThirdParty::decode_flag(true),
        Err("checkThirdParty cannot be set to `true`".to_string())
    );
    assert_eq!(
        CheckThirdParty::decode_text("ask"),
        Err("unknown checkThirdParty value: ask".to_string())
    );
}

#[test]
fn section_defaults() {
    let c: Completion = Completion::default();
    assert!(c.enable && c.auto_require && c.show_params && c.workspace_word);
    assert_eq!(c.display_context, 0);
    let d: Diagnostics = Diagnostics::default();
    assert_eq!(d.workspace_delay, 3000);
    assert_eq!(d.workspace_rate, 100);
    let h: Hover = Hover::default();
    assert_eq!((h.enums_limit, h.preview_fields, h.view_string_max), (5, 50, 1000));
    let w: Workspace = Workspace::default();
    assert_eq!((w.max_preload, w.preload_file_size), (5000, 500));
    assert!(w.ignore_submodules && w.use_git_ignore);
    assert_eq!(Snippet::default(), Snippet::Disable);
    assert_eq!(Show::default(), Show::Fallback);
    assert_eq!(Files::default(), Files::Opened);
}

#[test]
fn default_values_are_left_out() {
    assert!(three_minute_validate(&workspace_delay()));
    assert!(full_percent_validate(&workspace_rate()));
    assert!(max_preload_validate(&max_preload()));
    assert!(preload_file_size_validate(&preload_file_size()));
    assert!(enum_limit_validate(&5) && !enum_limit_validate(&0));
    assert_eq!((enums_limit(), preview_fields(), view_string_max()), (5, 50, 1000));
    assert!(enum_limit_validate(&enums_limit()) && preview_fields_validate(&preview_fields()));
    assert!(view_string_max_validate(&view_string_max()));
    assert!(preview_fields_validate(&50) && view_string_max_validate(&1000));
    assert!(enabled(&default_true()) && disabled(&false) && zero(&0) && !zero(&1));
}

#[test]
fn default_file_has_no_sections() {
    let rc: LuaRc = LuaRc::default();
    assert!(rc.schema.is_none() && rc.workspace.is_none() && rc.diagnostics.is_none());
    let _builder = LuaRc::extend().workspace::<u8>().root::<String>();
    let _only_diagnostics: LuaRcBuilder<(), (), u8> = LuaRc::extend().diagnostics::<u8>();
}

#[test]
fn sections_deref_to_custom() {
    let mut w: Workspace<Vec<u8>> = Workspace::default();
    w.push(7);
    assert_eq!(w.custom, vec![7]);
    assert_eq!(w.len(), 1);
}
