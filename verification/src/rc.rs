//! The whole `.luarc.json` file, and the builder that picks the custom type of each section.

use vstd::prelude::*;
use core::marker::PhantomData;
use crate::sections::{
    AddonManager, Completion, Diagnostics, Doc, Format, Hint, Hover, Misc, Runtime, Semantic,
    SignatureHelp, Spell, Type, Workspace,
};

verus! {

/// The contents of a `.luarc.json` file: an optional value for each section, and a
/// `custom` value of the caller's type whose fields sit at the top level of the file.
///
/// The type parameters `A` to `N` are the custom types of the sections, in the order of
/// the fields; `O` is the custom type of the file itself.
#[derive(Debug, PartialEq)]
pub struct LuaRc<
    A = (),
    B = (),
    C = (),
    D = (),
    E = (),
    F = (),
    G = (),
    H = (),
    I = (),
    J = (),
    K = (),
    L = (),
    M = (),
    N = (),
    O = (),
> {
    pub schema: Option<String>,
    pub addon_manager: Option<AddonManager<A>>,
    pub completion: Option<Completion<B>>,
    pub diagnostics: Option<Diagnostics<C>>,
    pub doc: Option<Doc<D>>,
    pub format: Option<Format<E>>,
    pub hint: Option<Hint<F>>,
    pub hover: Option<Hover<G>>,
    pub misc: Option<Misc<H>>,
    pub runtime: Option<Runtime<I>>,
    pub semantic: Option<Semantic<J>>,
    pub signature_help: Option<SignatureHelp<K>>,
    pub spell: Option<Spell<L>>,
    pub ty: Option<Type<M>>,
    pub workspace: Option<Workspace<N>>,
    pub custom: O,
}

impl<A, B, C, D, E, F, G, H, I, J, K, L, M, N, O> LuaRc<A, B, C, D, E, F, G, H, I, J, K, L, M, N, O> {
    /// No section and no `$schema` is present.
    pub open spec fn has_no_sections(&self) -> bool {
        &&& self.schema is None
        &&& self.addon_manager is None
        &&& self.completion is None
        &&& self.diagnostics is None
        &&& self.doc is None
        &&& self.format is None
        &&& self.hint is None
        &&& self.hover is None
        &&& self.misc is None
        &&& self.runtime is None
        &&& self.semantic is None
        &&& self.signature_help is None
        &&& self.spell is None
        &&& self.ty is None
        &&& self.workspace is None
    }
}

impl<A, B, C, D, E, F, G, H, I, J, K, L, M, N, O: Default> Default for LuaRc<
    A,
    B,
    C,
    D,
    E,
    F,
    G,
    H,
    I,
    J,
    K,
    L,
    M,
    N,
    O,
> {
    fn default() -> (r: Self)
        ensures
            r.has_no_sections(),
            call_ensures(O::default, (), r.custom),
    {
        LuaRc {
            schema: None,
            addon_manager: None,
            completion: None,
            diagnostics: None,
            doc: None,
            format: None,
            hint: None,
            hover: None,
            misc: None,
            runtime: None,
            semantic: None,
            signature_help: None,
            spell: None,
            ty: None,
            workspace: None,
            custom: O::default(),
        }
    }
}

impl<A, B, C, D, E, F, G, H, I, J, K, L, M, N, O> core::ops::Deref for LuaRc<
    A,
    B,
    C,
    D,
    E,
    F,
    G,
    H,
    I,
    J,
    K,
    L,
    M,
    N,
    O,
> {
    type Target = O;

    fn deref(&self) -> (r: &O)
        ensures
            *r == self.custom,
    {
        &self.custom
    }
}

impl<A, B, C, D, E, F, G, H, I, J, K, L, M, N, O> core::ops::DerefMut for LuaRc<
    A,
    B,
    C,
    D,
    E,
    F,
    G,
    H,
    I,
    J,
    K,
    L,
    M,
    N,
    O,
> {
    fn deref_mut(&mut self) -> (r: &mut O)
        ensures
            *r == old(self).custom,
            final(self).custom == *final(r),
            final(self).schema == old(self).schema,
            final(self).addon_manager == old(self).addon_manager,
            final(self).completion == old(self).completion,
            final(self).diagnostics == old(self).diagnostics,
            final(self).doc == old(self).doc,
            final(self).format == old(self).format,
            final(self).hint == old(self).hint,
            final(self).hover == old(self).hover,
            final(self).misc == old(self).misc,
            final(self).runtime == old(self).runtime,
            final(self).semantic == old(self).semantic,
            final(self).signature_help == old(self).signature_help,
            final(self).spell == old(self).spell,
            final(self).ty == old(self).ty,
            final(self).workspace == old(self).workspace,
    {
        &mut self.custom
    }
}

/// Picks, one section at a time, the custom types with which a `LuaRc` is read.
pub struct LuaRcBuilder<
    A = (),
    B = (),
    C = (),
    D = (),
    E = (),
    F = (),
    G = (),
    H = (),
    I = (),
    J = (),
    K = (),
    L = (),
    M = (),
    N = (),
    O = (),
> {
    pub _m: PhantomData<(A, B, C, D, E, F, G, H, I, J, K, L, M, N, O)>,
}

impl Default for LuaRcBuilder {
    fn default() -> (r: Self)
        ensures
            r._m == PhantomData::<((), (), (), (), (), (), (), (), (), (), (), (), (), (), ())>,
    {
        LuaRcBuilder { _m: PhantomData }
    }
}

impl LuaRc {
    /// Starts picking custom section types, from a builder in which all are `()`.
    pub fn extend() -> (r: LuaRcBuilder)
        ensures
            r._m == PhantomData::<((), (), (), (), (), (), (), (), (), (), (), (), (), (), ())>,
    {
        LuaRcBuilder::default()
    }
}

impl<A, B, C, D, E, F, G, H, I, J, K, L, M, N, O> LuaRcBuilder<A, B, C, D, E, F, G, H, I, J, K, L, M, N, O> {
    /// Sets the custom type of `addon_manager`.
    pub fn addon_manager<Z>(self) -> (r: LuaRcBuilder<Z, B, C, D, E, F, G, H, I, J, K, L, M, N, O>)
        ensures
            r._m == PhantomData::<(Z, B, C, D, E, F, G, H, I, J, K, L, M, N, O)>,
    {
        LuaRcBuilder { _m: PhantomData }
    }

    /// Sets the custom type of `completion`.
    pub fn completion<Z>(self) -> (r: LuaRcBuilder<A, Z, C, D, E, F, G, H, I, J, K, L, M, N, O>)
        ensures
            r._m == PhantomData::<(A, Z, C, D, E, F, G, H, I, J, K, L, M, N, O)>,
    {
        LuaRcBuilder { _m: PhantomData }
    }

    /// Sets the custom type of `diagnostics`.
    pub fn diagnostics<Z>(self) -> (r: LuaRcBuilder<A, B, Z, D, E, F, G, H, I, J, K, L, M, N, O>)
        ensures
            r._m == PhantomData::<(A, B, Z, D, E, F, G, H, I, J, K, L, M, N, O)>,
    {
        LuaRcBuilder { _m: PhantomData }
    }

    /// Sets the custom type of `doc`.
    pub fn doc<Z>(self) -> (r: LuaRcBuilder<A, B, C, Z, E, F, G, H, I, J, K, L, M, N, O>)
        ensures
            r._m == PhantomData::<(A, B, C, Z, E, F, G, H, I, J, K, L, M, N, O)>,
    {
        LuaRcBuilder { _m: PhantomData }
    }

    /// Sets the custom type of `format`.
    pub fn format<Z>(self) -> (r: LuaRcBuilder<A, B, C, D, Z, F, G, H, I, J, K, L, M, N, O>)
        ensures
            r._m == PhantomData::<(A, B, C, D, Z, F, G, H, I, J, K, L, M, N, O)>,
    {
        LuaRcBuilder { _m: PhantomData }
    }

    /// Sets the custom type of `hint`.
    pub fn hint<Z>(self) -> (r: LuaRcBuilder<A, B, C, D, E, Z, G, H, I, J, K, L, M, N, O>)
        ensures
            r._m == PhantomData::<(A, B, C, D, E, Z, G, H, I, J, K, L, M, N, O)>,
    {
        LuaRcBuilder { _m: PhantomData }
    }

    /// Sets the custom type of `hover`.
    pub fn hover<Z>(self) -> (r: LuaRcBuilder<A, B, C, D, E, F, Z, H, I, J, K, L, M, N, O>)
        ensures
            r._m == PhantomData::<(A, B, C, D, E, F, Z, H, I, J, K, L, M, N, O)>,
    {
        LuaRcBuilder { _m: PhantomData }
    }

    /// Sets the custom type of `misc`.
    pub fn misc<Z>(self) -> (r: LuaRcBuilder<A, B, C, D, E, F, G, Z, I, J, K, L, M, N, O>)
        ensures
            r._m == PhantomData::<(A, B, C, D, E, F, G, Z, I, J, K, L, M, N, O)>,
    {
        LuaRcBuilder { _m: PhantomData }
    }

    /// Sets the custom type of `runtime`.
    pub fn runtime<Z>(self) -> (r: LuaRcBuilder<A, B, C, D, E, F, G, H, Z, J, K, L, M, N, O>)
        ensures
            r._m == PhantomData::<(A, B, C, D, E, F, G, H, Z, J, K, L, M, N, O)>,
    {
        LuaRcBuilder { _m: PhantomData }
    }

    /// Sets the custom type of `semantic`.
    pub fn semantic<Z>(self) -> (r: LuaRcBuilder<A, B, C, D, E, F, G, H, I, Z, K, L, M, N, O>)
        ensures
            r._m == PhantomData::<(A, B, C, D, E, F, G, H, I, Z, K, L, M, N, O)>,
    {
        LuaRcBuilder { _m: PhantomData }
    }

    /// Sets the custom type of `signature_help`.
    pub fn signature_help<Z>(self) -> (r: LuaRcBuilder<A, B, C, D, E, F, G, H, I, J, Z, L, M, N, O>)
        ensures
            r._m == PhantomData::<(A, B, C, D, E, F, G, H, I, J, Z, L, M, N, O)>,
    {
        LuaRcBuilder { _m: PhantomData }
    }

    /// Sets the custom type of `spell`.
    pub fn spell<Z>(self) -> (r: LuaRcBuilder<A, B, C, D, E, F, G, H, I, J, K, Z, M, N, O>)
        ensures
            r._m == PhantomData::<(A, B, C, D, E, F, G, H, I, J, K, Z, M, N, O)>,
    {
        LuaRcBuilder { _m: PhantomData }
    }

    /// Sets the custom type of `ty`.
    pub fn ty<Z>(self) -> (r: LuaRcBuilder<A, B, C, D, E, F, G, H, I, J, K, L, Z, N, O>)
        ensures
            r._m == PhantomData::<(A, B, C, D, E, F, G, H, I, J, K, L, Z, N, O)>,
    {
        LuaRcBuilder { _m: PhantomData }
    }

    /// Sets the custom type of `workspace`.
    pub fn workspace<Z>(self) -> (r: LuaRcBuilder<A, B, C, D, E, F, G, H, I, J, K, L, M, Z, O>)
        ensures
            r._m == PhantomData::<(A, B, C, D, E, F, G, H, I, J, K, L, M, Z, O)>,
    {
        LuaRcBuilder { _m: PhantomData }
    }

    /// Sets the custom type of the file itself.
    pub fn root<Z>(self) -> (r: LuaRcBuilder<A, B, C, D, E, F, G, H, I, J, K, L, M, N, Z>)
        ensures
            r._m == PhantomData::<(A, B, C, D, E, F, G, H, I, J, K, L, M, N, Z)>,
    {
        LuaRcBuilder { _m: PhantomData }
    }
}

} // verus!
