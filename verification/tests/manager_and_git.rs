use luarc::git::{Destination, Git};
use luarc::manager::{LuaRc, Manager};
use luarc::{Addon, Error};

#[test]
fn manager_paths() {
    let m = Manager::new("/work");
    assert_eq!((m.path(), m.addons(), m.luarc()), ("/work", ".addons", ".luarc.json"));
    let m = m.with_addons("libs").with_luarc("rc.json");
    assert_eq!((m.path(), m.addons(), m.luarc()), ("/work", "libs", "rc.json"));
}

#[test]
fn recording_and_forgetting_addons() {
    let mut rc: LuaRc = LuaRc::default();
    Manager::record_addon(&mut rc, Addon::luacats("love2d", None, None), "/work/.addons");
    Manager::record_addon(&mut rc, Addon::luacats("love2d", Some("v1".into()), None), "/work/.addons");
    Manager::record_addon(&mut rc, Addon::luacats("busted", None, None), "/work/.addons");
    let ws = rc.workspace.as_ref().unwrap();
    assert_eq!(ws.user_third_party, vec![".addons".to_string()]);
    assert_eq!(ws.custom.addons.len(), 2);
    assert_eq!(ws.max_preload, 5000);
    let love = ws.custom.addons.iter().find(|(k, _)| k == "love2d").unwrap();
    assert_eq!(love.1.version.as_deref(), Some("v1"));
    assert!(Manager::addon_is_known(&rc, "busted", false));
    assert!(!Manager::addon_is_known(&rc, "penlight", false));
    assert!(Manager::addon_is_known(&rc, "penlight", true));
    assert!(Manager::forget_addon(&mut rc, "love2d"));
    assert!(!Manager::forget_addon(&mut rc, "love2d"));
    let ws = rc.workspace.as_ref().unwrap();
    assert_eq!(ws.custom.addons.len(), 1);
    assert_eq!(ws.custom.addons[0].0, "busted");
}

#[test]
fn canonical_addon_directory_counts_as_listed() {
    let mut rc: LuaRc = LuaRc::default();
    let mut ws = luarc::Workspace::default();
    ws.user_third_party.push("/work/.addons".into());
    rc.workspace = Some(ws);
    Manager::record_addon(&mut rc, Addon::luacats("love2d", None, None), "/work/.addons");
    assert_eq!(rc.workspace.unwrap().user_third_party, vec!["/work/.addons".to_string()]);
}

#[test]
fn git_commands() {
    let c = Git::Clone("https://github.com/LuaCATS/love2d".into()).command();
    assert_eq!(c.args, vec!["clone", "https://github.com/LuaCATS/love2d"]);
    assert_eq!(c.destination, Destination::Argument);
    let c = Git::Fetch.command();
    assert_eq!(c.args, vec!["fetch", "--prune"]);
    assert_eq!(c.destination, Destination::WorkingDirectory);
    assert_eq!(Git::Hash.command().args, vec!["rev-parse", "HEAD"]);
    assert_eq!(Git::Reset.command().args, vec!["reset", "--hard"]);
    assert_eq!(Git::Pull.command().args, vec!["pull"]);
}

#[test]
fn git_outcomes_and_messages() {
    assert_eq!(Git::Pull.outcome(true, "ok\n".into(), String::new()).unwrap(), "ok\n");
    let e = Git::Pull.outcome(false, String::new(), "boom".into()).unwrap_err();
    assert_eq!(e.message(), "failed to pull repository: boom");
    let e = Git::Clone("u".into()).outcome(false, String::new(), "no".into()).unwrap_err();
    assert_eq!(e.message(), "failed to clone repository(u): no");
    assert_eq!(Error::InvalidHost("x".into()).message(), "invalid host 'x': expected 'github.com'");
    assert_eq!(Error::InvalidSource("y".into()).message(), "invalid source: y");
    let e: Error = url::ParseError::EmptyHost.into();
    assert_eq!(e.message(), "url: empty host");
}

#[test]
fn update_command_pulls_or_clones() {
    let a = Addon::luacats("love2d", Some("main".into()), None);
    assert_eq!(Manager::update_command(&a, true), Git::Pull);
    assert_eq!(
        Manager::update_command(&a, false),
        Git::Clone("https://github.com/LuaCATS/love2d#main".into())
    );
}
