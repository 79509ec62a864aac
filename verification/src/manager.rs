//! The addon manager: where it keeps addons and `.luarc.json`, and how it records an
//! addon in, or removes one from, the `workspace` section of that file.

use vstd::prelude::*;
use crate::addon::{Addon, AddonView};
use crate::git::{Git, GitView};
use crate::text::{text_eq, to_string};
use crate::distinct::text_keys_distinct;
use crate::sections::Workspace as WorkspaceSection;

verus! {

/// One addon as it is recorded under `workspace.addons`, keyed by its name.
pub type AddonEntry = (String, Addon);

/// The custom part of the `workspace` section that the addon manager keeps: the
/// addons it installed, keyed by repository name.
///
/// The map of the file is held as a list of entries whose keys are distinct when they
/// come from the file (`entries_distinct`); the updates below keep them so. Should a key
/// occur more than once, the last entry counts, as it would when the list is collected
/// into a map.
#[derive(Debug)]
pub struct Workspace {
    pub addons: Vec<AddonEntry>,
}

impl Workspace {
    /// No two recorded addons share a name.
    pub open spec fn entries_distinct(&self) -> bool {
        text_keys_distinct(self.addons@)
    }
}

impl Default for Workspace {
    fn default() -> (r: Workspace)
        ensures
            r.addons@.len() == 0,
            r.entries_distinct(),
    {
        Workspace { addons: Vec::new() }
    }
}

/// The map that a list of entries stands for: later entries override earlier ones.
pub open spec fn entries_map(s: Seq<AddonEntry>) -> Map<Seq<char>, AddonView>
    decreases s.len(),
{
    if s.len() == 0 {
        Map::empty()
    } else {
        entries_map(s.drop_last()).insert(s.last().0@, s.last().1@)
    }
}

/// The entries of `s` whose key is not `k`, in order.
pub open spec fn without_key(s: Seq<AddonEntry>, k: Seq<char>) -> Seq<AddonEntry>
    decreases s.len(),
{
    if s.len() == 0 {
        s
    } else if s.last().0@ == k {
        without_key(s.drop_last(), k)
    } else {
        without_key(s.drop_last(), k).push(s.last())
    }
}

/// Dropping the entries with key `k` removes `k` from the map.
pub proof fn lemma_without_key_map(s: Seq<AddonEntry>, k: Seq<char>)
    ensures
        entries_map(without_key(s, k)) == entries_map(s).remove(k),
    decreases s.len(),
{
    if s.len() > 0 {
        lemma_without_key_map(s.drop_last(), k);
        let w = without_key(s.drop_last(), k);
        if s.last().0@ != k {
            assert(w.push(s.last()).drop_last() == w);
        }
        assert(entries_map(without_key(s, k)) =~= entries_map(s).remove(k));
    } else {
        assert(entries_map(s).remove(k) =~= entries_map(s));
    }
}

/// Dropping the entries with key `k` keeps only keys of `s`, none of them `k`, and keeps
/// distinct keys distinct.
pub proof fn lemma_without_key_keys(s: Seq<AddonEntry>, k: Seq<char>)
    ensures
        forall|i: int|
            0 <= i < without_key(s, k).len() ==> without_key(s, k)[i].0@ != k && exists|j: int|
                0 <= j < s.len() && #[trigger] s[j].0@ == without_key(s, k)[i].0@,
        text_keys_distinct(s) ==> text_keys_distinct(without_key(s, k)),
    decreases s.len(),
{
    if s.len() > 0 {
        let p = s.drop_last();
        lemma_without_key_keys(p, k);
        let w = without_key(p, k);
        if s.last().0@ != k {
            let w2 = w.push(s.last());
            assert forall|i: int| 0 <= i < w2.len() implies w2[i].0@ != k && exists|j: int|
                0 <= j < s.len() && #[trigger] s[j].0@ == w2[i].0@ by {
                if i == w.len() {
                    assert(s[s.len() - 1].0@ == w2[i].0@);
                } else {
                    assert(w2[i] == w[i]);
                }
            }
            if text_keys_distinct(s) {
                assert(text_keys_distinct(p));
                assert forall|a: int, b: int| 0 <= a < b < w2.len() implies w2[a].0@ != w2[b].0@ by {
                    if b == w.len() {
                        let j = choose|j: int| 0 <= j < p.len() && #[trigger] p[j].0@ == w[a].0@;
                        assert(s[j] == p[j]);
                        assert(s[s.len() - 1] == w2[b]);
                    } else {
                        assert(w2[a] == w[a] && w2[b] == w[b]);
                    }
                }
            }
        } else {
            if text_keys_distinct(s) {
                assert(text_keys_distinct(p));
            }
        }
    }
}

/// The map of a list has key `k` exactly when some entry has key `k`.
pub proof fn lemma_entries_map_has_key(s: Seq<AddonEntry>, k: Seq<char>)
    ensures
        entries_map(s).dom().contains(k) <==> exists|i: int| 0 <= i < s.len() && s[i].0@ == k,
    decreases s.len(),
{
    if s.len() > 0 {
        lemma_entries_map_has_key(s.drop_last(), k);
        if entries_map(s).dom().contains(k) && s.last().0@ != k {
            let i = choose|i: int| 0 <= i < s.len() - 1 && s.drop_last()[i].0@ == k;
            assert(s[i].0@ == k);
        }
        if exists|i: int| 0 <= i < s.len() && s[i].0@ == k {
            let i = choose|i: int| 0 <= i < s.len() && s[i].0@ == k;
            if i < s.len() - 1 {
                assert(s.drop_last()[i].0@ == k);
            }
        }
    }
}

/// The entries of `entries` whose key is not `key`, in order.
fn drop_key(entries: Vec<AddonEntry>, key: &str) -> (r: Vec<AddonEntry>)
    ensures
        r@ == without_key(entries@, key@),
{
    let mut rest = entries;
    let ghost all = rest@;
    // Entries are taken from the back, so the kept ones are collected reversed.
    let mut reversed: Vec<AddonEntry> = Vec::new();
    while rest.len() > 0
        invariant
            rest@ == all.subrange(0, rest@.len() as int),
            rest@.len() <= all.len(),
            without_key(all, key@) == without_key(rest@, key@) + reversed@.reverse(),
        decreases rest@.len(),
    {
        let ghost before = rest@;
        let e = rest.pop().unwrap();
        assert(before.drop_last() == rest@);
        assert(before.last() == e);
        if !text_eq(e.0.as_str(), key) {
            let ghost rev_before = reversed@;
            reversed.push(e);
            assert(reversed@.reverse() =~= seq![e] + rev_before.reverse());
            assert(without_key(before, key@) == without_key(rest@, key@).push(e));
            assert(without_key(rest@, key@).push(e) + rev_before.reverse() =~= without_key(
                rest@,
                key@,
            ) + reversed@.reverse());
        }
        assert(rest@ == all.subrange(0, rest@.len() as int));
    }
    assert(without_key(rest@, key@) =~= Seq::<AddonEntry>::empty());
    assert(without_key(all, key@) =~= reversed@.reverse());
    let ghost target = reversed@.reverse();
    let mut kept: Vec<AddonEntry> = Vec::new();
    while reversed.len() > 0
        invariant
            kept@ + reversed@.reverse() == target,
        decreases reversed@.len(),
    {
        let ghost before = reversed@;
        let e = reversed.pop().unwrap();
        assert(before =~= reversed@.push(e));
        assert(before.reverse() =~= seq![e] + reversed@.reverse());
        kept.push(e);
        assert(kept@ + reversed@.reverse() =~= target);
    }
    assert(kept@ =~= kept@ + reversed@.reverse());
    kept
}

/// The file as the addon manager reads it: plain sections, with the addons it installed
/// kept in the `workspace` section.
pub type LuaRc = crate::rc::LuaRc<(), (), (), (), (), (), (), (), (), (), (), (), (), Workspace, ()>;

/// The characters of each string of a list.
pub open spec fn strings_view(v: Seq<String>) -> Seq<Seq<char>> {
    v.map_values(|s: String| s@)
}

/// The third-party library list after an addon is recorded: `.addons` is added unless
/// the list already names `.addons` or the canonical addon directory.
pub open spec fn third_party_after(list: Seq<Seq<char>>, canonical: Seq<char>) -> Seq<Seq<char>> {
    if list.contains(".addons"@) || list.contains(canonical) {
        list
    } else {
        list.push(".addons"@)
    }
}

/// The addons recorded in a `workspace` section, if the file has one.
pub open spec fn recorded_addons(ws: Option<WorkspaceSection<Workspace>>) -> Map<Seq<char>, AddonView> {
    match ws {
        Some(w) => entries_map(w.custom.addons@),
        None => Map::empty(),
    }
}

/// The third-party library list of a `workspace` section, if the file has one.
pub open spec fn recorded_third_party(ws: Option<WorkspaceSection<Workspace>>) -> Seq<Seq<char>> {
    match ws {
        Some(w) => strings_view(w.user_third_party@),
        None => Seq::empty(),
    }
}

/// All sections but `workspace` are the same in `a` and `b`.
pub open spec fn same_but_workspace(a: LuaRc, b: LuaRc) -> bool {
    &&& a.schema == b.schema
    &&& a.addon_manager == b.addon_manager
    &&& a.completion == b.completion
    &&& a.diagnostics == b.diagnostics
    &&& a.doc == b.doc
    &&& a.format == b.format
    &&& a.hint == b.hint
    &&& a.hover == b.hover
    &&& a.misc == b.misc
    &&& a.runtime == b.runtime
    &&& a.semantic == b.semantic
    &&& a.signature_help == b.signature_help
    &&& a.spell == b.spell
    &&& a.ty == b.ty
    &&& a.custom == b.custom
}

/// The settings of `workspace` other than its addons and third-party list are those of
/// `before`, or the defaults when there was no such section.
pub open spec fn other_workspace_settings_kept(
    after: WorkspaceSection<Workspace>,
    before: Option<WorkspaceSection<Workspace>>,
) -> bool {
    match before {
        Some(w) => {
            &&& after.check_third_party == w.check_third_party
            &&& after.ignore_dir == w.ignore_dir
            &&& after.ignore_submodules == w.ignore_submodules
            &&& after.library == w.library
            &&& after.max_preload == w.max_preload
            &&& after.preload_file_size == w.preload_file_size
            &&& after.use_git_ignore == w.use_git_ignore
        },
        None => {
            &&& after.check_third_party is None
            &&& after.ignore_dir@.len() == 0
            &&& after.ignore_submodules == true
            &&& after.library@.len() == 0
            &&& after.max_preload == 5000
            &&& after.preload_file_size == 500
            &&& after.use_git_ignore == true
        },
    }
}

/// Whether `list` names `a` or `b`.
fn names_either(list: &Vec<String>, a: &str, b: &str) -> (r: bool)
    ensures
        r == (strings_view(list@).contains(a@) || strings_view(list@).contains(b@)),
{
    let n = list.len();
    let mut i: usize = 0;
    while i < n
        invariant
            n == list@.len(),
            i <= n,
            forall|k: int| 0 <= k < i ==> list@[k]@ != a@ && list@[k]@ != b@,
        decreases n - i,
    {
        if text_eq(list[i].as_str(), a) || text_eq(list[i].as_str(), b) {
            proof {
                assert(strings_view(list@)[i as int] == list@[i as int]@);
            }
            return true;
        }
        i = i + 1;
    }
    proof {
        assert forall|k: int| 0 <= k < strings_view(list@).len() implies strings_view(list@)[k] != a@
            && strings_view(list@)[k] != b@ by {
            assert(strings_view(list@)[k] == list@[k]@);
        }
    }
    false
}

/// Where the addon manager works: the project directory, and in it the addon directory
/// and the `.luarc.json` file.
#[derive(Debug)]
pub struct Manager {
    path: String,
    addons: String,
    luarc: String,
}

impl Manager {
    /// The project directory.
    pub closed spec fn spec_path(&self) -> Seq<char> {
        self.path@
    }

    /// The addon directory, relative to the project directory.
    pub closed spec fn spec_addons(&self) -> Seq<char> {
        self.addons@
    }

    /// The `.luarc.json` file, relative to the project directory.
    pub closed spec fn spec_luarc(&self) -> Seq<char> {
        self.luarc@
    }

    /// A manager of the project at `path`, with addons in `.addons` and the settings in
    /// `.luarc.json`.
    pub fn new(path: &str) -> (r: Manager)
        ensures
            r.spec_path() == path@,
            r.spec_addons() == ".addons"@,
            r.spec_luarc() == ".luarc.json"@,
    {
        Manager { path: to_string(path), addons: to_string(".addons"), luarc: to_string(".luarc.json") }
    }

    /// The same manager, keeping addons in `addons` instead.
    pub fn with_addons(self, addons: &str) -> (r: Manager)
        ensures
            r.spec_path() == self.spec_path(),
            r.spec_addons() == addons@,
            r.spec_luarc() == self.spec_luarc(),
    {
        Manager { addons: to_string(addons), ..self }
    }

    /// The same manager, keeping the settings in `luarc` instead.
    pub fn with_luarc(self, luarc: &str) -> (r: Manager)
        ensures
            r.spec_path() == self.spec_path(),
            r.spec_addons() == self.spec_addons(),
            r.spec_luarc() == luarc@,
    {
        Manager { luarc: to_string(luarc), ..self }
    }

    /// The project directory.
    pub fn path(&self) -> (r: &str)
        ensures
            r@ == self.spec_path(),
    {
        self.path.as_str()
    }

    /// The addon directory, relative to the project directory.
    pub fn addons(&self) -> (r: &str)
        ensures
            r@ == self.spec_addons(),
    {
        self.addons.as_str()
    }

    /// The `.luarc.json` file, relative to the project directory.
    pub fn luarc(&self) -> (r: &str)
        ensures
            r@ == self.spec_luarc(),
    {
        self.luarc.as_str()
    }

    /// The git command that brings an addon's checkout up to date before it is recorded:
    /// a pull when its checkout exists, else a clone of the addon's address.
    pub fn update_command(addon: &Addon, checkout_exists: bool) -> (r: Git)
        ensures
            checkout_exists ==> r@ == GitView::Pull,
            !checkout_exists ==> r@ == GitView::Clone(addon.spec_address()),
    {
        if checkout_exists {
            Git::Pull
        } else {
            Git::Clone(addon.to_string())
        }
    }

    /// Records a fetched addon in the file: the `workspace` section is created when
    /// missing, the addon is entered under its repository name (replacing an earlier
    /// entry of that name), and `.addons` is added to the third-party libraries unless
    /// they already name `.addons` or the canonical addon directory `canonical_addons`.
    pub fn record_addon(rc: &mut LuaRc, addon: Addon, canonical_addons: &str)
        ensures
            same_but_workspace(*final(rc), *old(rc)),
            final(rc).workspace is Some,
            recorded_addons(final(rc).workspace) == recorded_addons(old(rc).workspace).insert(
                addon@.repo,
                addon@,
            ),
            recorded_third_party(final(rc).workspace) == third_party_after(
                recorded_third_party(old(rc).workspace),
                canonical_addons@,
            ),
            other_workspace_settings_kept(final(rc).workspace->0, old(rc).workspace),
            (old(rc).workspace matches Some(w) ==> w.custom.entries_distinct())
                ==> final(rc).workspace->0.custom.entries_distinct(),
    {
        let ghost before = rc.workspace;
        let mut ws = match rc.workspace.take() {
            Some(w) => w,
            None => {
                let mut w = WorkspaceSection::<Workspace>::default();
                w.custom = Workspace::default();
                w
            },
        };
        assert(recorded_addons(before) == entries_map(ws.custom.addons@));
        assert(recorded_third_party(before) == strings_view(ws.user_third_party@));
        let key = addon.repo.clone();
        let mut entries: Vec<AddonEntry> = Vec::new();
        core::mem::swap(&mut entries, &mut ws.custom.addons);
        let ghost old_entries = entries@;
        let mut kept = drop_key(entries, key.as_str());
        proof {
            lemma_without_key_map(old_entries, key@);
            lemma_without_key_keys(old_entries, key@);
        }
        let ghost kept_before = kept@;
        kept.push((key, addon));
        proof {
            if text_keys_distinct(old_entries) {
                assert forall|a: int, b: int| 0 <= a < b < kept@.len() implies kept@[a].0@
                    != kept@[b].0@ by {
                    if b == kept_before.len() {
                        assert(kept@[a] == kept_before[a]);
                    } else {
                        assert(kept@[a] == kept_before[a] && kept@[b] == kept_before[b]);
                    }
                }
            }
        }
        assert(kept@.drop_last() == kept_before);
        assert(entries_map(kept@) =~= entries_map(old_entries).insert(addon@.repo, addon@));
        ws.custom.addons = kept;
        let ghost list_before = strings_view(ws.user_third_party@);
        if !names_either(&ws.user_third_party, ".addons", canonical_addons) {
            ws.user_third_party.push(to_string(".addons"));
            assert(strings_view(ws.user_third_party@) =~= list_before.push(".addons"@));
        }
        rc.workspace = Some(ws);
    }

    /// Whether `remove` has anything to do for the addon `name`: the file records it,
    /// or its directory exists (`dir_exists`).
    pub fn addon_is_known(rc: &LuaRc, name: &str, dir_exists: bool) -> (r: bool)
        ensures
            r == (recorded_addons(rc.workspace).dom().contains(name@) || dir_exists),
    {
        let recorded = match &rc.workspace {
            Some(w) => {
                let n = w.custom.addons.len();
                let mut found = false;
                let mut i: usize = 0;
                while i < n
                    invariant
                        n == w.custom.addons@.len(),
                        i <= n,
                        found == exists|k: int| 0 <= k < i && w.custom.addons@[k].0@ == name@,
                    decreases n - i,
                {
                    if text_eq(w.custom.addons[i].0.as_str(), name) {
                        found = true;
                    }
                    i = i + 1;
                }
                proof {
                    lemma_entries_map_has_key(w.custom.addons@, name@);
                }
                found
            },
            None => false,
        };
        recorded || dir_exists
    }

    /// Removes the addon `name` from the file; whether it was recorded (and so whether
    /// the file changed).
    pub fn forget_addon(rc: &mut LuaRc, name: &str) -> (removed: bool)
        ensures
            removed == recorded_addons(old(rc).workspace).dom().contains(name@),
            !removed ==> *final(rc) == *old(rc),
            removed ==> same_but_workspace(*final(rc), *old(rc)),
            removed ==> final(rc).workspace is Some,
            removed ==> recorded_addons(final(rc).workspace) == recorded_addons(
                old(rc).workspace,
            ).remove(name@),
            removed ==> final(rc).workspace->0.user_third_party == old(rc).workspace->0.user_third_party,
            removed ==> other_workspace_settings_kept(final(rc).workspace->0, old(rc).workspace),
            removed && old(rc).workspace->0.custom.entries_distinct()
                ==> final(rc).workspace->0.custom.entries_distinct(),
    {
        if !Manager::addon_is_known(rc, name, false) {
            return false;
        }
        let mut ws = rc.workspace.take().unwrap();
        let mut entries: Vec<AddonEntry> = Vec::new();
        core::mem::swap(&mut entries, &mut ws.custom.addons);
        let ghost old_entries = entries@;
        ws.custom.addons = drop_key(entries, name);
        proof {
            lemma_without_key_map(old_entries, name@);
            lemma_without_key_keys(old_entries, name@);
        }
        rc.workspace = Some(ws);
        true
    }
}

/// Law: recording addons never lists `.addons` twice — once the list names `.addons`
/// or the canonical directory, recording more addons leaves it as it is.
pub proof fn law_third_party_settles(list: Seq<Seq<char>>, canonical: Seq<char>)
    ensures
        third_party_after(third_party_after(list, canonical), canonical) == third_party_after(
            list,
            canonical,
        ),
        third_party_after(list, canonical).contains(".addons"@) || third_party_after(
            list,
            canonical,
        ).contains(canonical),
{
    let l = list.push(".addons"@);
    assert(l[l.len() - 1] == ".addons"@);
}

/// Law: forgetting an addon undoes recording it — when `name` was not recorded before,
/// recording it and then forgetting it gives back the recorded addons.
pub proof fn law_forget_undoes_record(m: Map<Seq<char>, AddonView>, name: Seq<char>, addon: AddonView)
    requires
        !m.dom().contains(name),
    ensures
        m.insert(name, addon).remove(name) == m,
        m.insert(name, addon).dom().contains(name),
{
    assert(m.insert(name, addon).remove(name) =~= m);
}

} // verus!
