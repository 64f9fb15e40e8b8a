use vstd::prelude::*;
use vstd::slice::slice_to_vec;

use crate::types::{FuncType, FuncTypeView, ValType, opt_vec_view};

verus! {

/// A builder for a [FuncType]: it records the argument and result types and
/// hands them over, unchanged, when the type is built.
#[derive(Debug)]
pub struct FuncTypeBuilder {
    args: Option<Vec<ValType>>,
    rets: Option<Vec<ValType>>,
}

impl View for FuncTypeBuilder {
    type V = FuncTypeView;

    /// The function type that the builder would build now.
    closed spec fn view(&self) -> FuncTypeView {
        FuncTypeView { args: opt_vec_view(self.args), rets: opt_vec_view(self.rets) }
    }
}

impl FuncTypeBuilder {
    /// Creates a builder that lists neither arguments nor results.
    pub fn new() -> (b: FuncTypeBuilder)
        ensures
            b@ == FuncTypeView::empty(),
    {
        FuncTypeBuilder { args: None, rets: None }
    }

    /// Sets the argument types of the function type; a list given before is
    /// replaced, the result types are kept.
    pub fn with_args(self, args: Vec<ValType>) -> (b: FuncTypeBuilder)
        ensures
            b@ == self@.with_args(args@),
    {
        FuncTypeBuilder { args: Some(args), rets: self.rets }
    }

    /// Sets the argument types of the function type to the single type `arg`.
    pub fn with_arg(self, arg: ValType) -> (b: FuncTypeBuilder)
        ensures
            b@ == self@.with_args(seq![arg]),
    {
        let mut one: Vec<ValType> = Vec::new();
        one.push(arg);
        self.with_args(one)
    }

    /// Sets the result types of the function type; a list given before is
    /// replaced, the argument types are kept.
    pub fn with_returns(self, rets: Vec<ValType>) -> (b: FuncTypeBuilder)
        ensures
            b@ == self@.with_returns(rets@),
    {
        FuncTypeBuilder { args: self.args, rets: Some(rets) }
    }

    /// Sets the result types of the function type to the single type `ret`.
    pub fn with_return(self, ret: ValType) -> (b: FuncTypeBuilder)
        ensures
            b@ == self@.with_returns(seq![ret]),
    {
        let mut one: Vec<ValType> = Vec::new();
        one.push(ret);
        self.with_returns(one)
    }

    /// Returns the function type that the builder describes.
    pub fn build(self) -> (t: FuncType)
        ensures
            t@ == self@,
    {
        FuncType::new(self.args, self.rets)
    }
}

impl Default for FuncTypeBuilder {
    fn default() -> (b: FuncTypeBuilder)
        ensures
            b@ == FuncTypeView::empty(),
    {
        FuncTypeBuilder::new()
    }
}


/// Setting the argument types twice keeps only the second list: a builder's
/// argument list is the one given last.
pub proof fn lemma_with_args_last_wins(b: FuncTypeView, first: Seq<ValType>, second: Seq<ValType>)
    ensures
        b.with_args(first).with_args(second) == b.with_args(second),
{
}

/// Setting the result types twice keeps only the second list: a builder's
/// result list is the one given last.
pub proof fn lemma_with_returns_last_wins(
    b: FuncTypeView,
    first: Seq<ValType>,
    second: Seq<ValType>,
)
    ensures
        b.with_returns(first).with_returns(second) == b.with_returns(second),
{
}

/// Arguments and results are set independently: setting one leaves the other
/// as it was, so the order of the two calls does not matter.
pub proof fn lemma_args_and_returns_independent(
    b: FuncTypeView,
    args: Seq<ValType>,
    rets: Seq<ValType>,
)
    ensures
        b.with_args(args).rets == b.rets,
        b.with_returns(rets).args == b.args,
        b.with_args(args).with_returns(rets) == b.with_returns(rets).with_args(args),
{
}

/// A function type built from a fresh builder lists exactly what was set:
/// nothing for a part that was never set, the given list for a part that was.
pub proof fn lemma_built_type_reads_back(args: Seq<ValType>, rets: Seq<ValType>)
    ensures
        FuncTypeView::empty().args is None,
        FuncTypeView::empty().rets is None,
        FuncTypeView::empty().with_args(args).args == Some(args),
        FuncTypeView::empty().with_returns(rets).rets == Some(rets),
        FuncTypeView::empty().with_args(args).with_returns(rets) == (FuncTypeView {
            args: Some(args),
            rets: Some(rets),
        }),
{
}

/// The model of a host function: the engine's handle, the names under which it
/// is exported (if any) and its type.
pub struct FuncView<H> {
    pub inner: H,
    pub name: Option<Seq<char>>,
    pub mod_name: Option<Seq<char>>,
    pub ty: FuncTypeView,
}

/// The model of an optional string.
pub open spec fn opt_string_view(o: Option<String>) -> Option<Seq<char>> {
    match o {
        Some(s) => Some(s@),
        None => None,
    }
}

/// The model of an optional string slice.
pub open spec fn opt_str_view(o: Option<&str>) -> Option<Seq<char>> {
    match o {
        Some(s) => Some(s@),
        None => None,
    }
}

/// A host function instance: the handle that the engine gave for it, together
/// with its type and, when it is exported, its name and that of its module.
#[derive(Debug, Clone)]
pub struct Func<H> {
    inner: H,
    name: Option<String>,
    mod_name: Option<String>,
    ty: FuncType,
}

impl<H> View for Func<H> {
    type V = FuncView<H>;

    closed spec fn view(&self) -> FuncView<H> {
        FuncView {
            inner: self.inner,
            name: opt_string_view(self.name),
            mod_name: opt_string_view(self.mod_name),
            ty: self.ty@,
        }
    }
}

impl<H> Func<H> {
    /// The type value that the function holds, the one its handle was made for.
    pub closed spec fn func_type(&self) -> FuncType {
        self.ty
    }

    /// Creates a host function whose type takes the argument types `args` and
    /// gives back the result types `rets`. The engine makes the handle: `create`
    /// is handed that type, and an error from it is passed on.
    pub fn wrap<E, F>(args: &[ValType], rets: &[ValType], create: F) -> (res: Result<Func<H>, E>)
        where
            F: FnOnce(&FuncType) -> Result<H, E>,
        requires
            forall|t: &FuncType| #[trigger] create.requires((t,)),
        ensures
            match res {
                Ok(f) => {
                    &&& f@.ty == FuncTypeView::empty().with_args(args@).with_returns(rets@)
                    &&& f@.name is None
                    &&& f@.mod_name is None
                    &&& f.func_type()@ == f@.ty
                    &&& create.ensures((&f.func_type(),), Ok::<H, E>(f@.inner))
                },
                Err(e) => exists|t: FuncType|
                    t@ == FuncTypeView::empty().with_args(args@).with_returns(rets@)
                    && #[trigger] create.ensures((&t,), Err::<H, E>(e)),
            },
    {
        let ty = FuncType::new(Some(slice_to_vec(args)), Some(slice_to_vec(rets)));
        Self::wrap_with_type(ty, create)
    }

    /// Creates a host function of the given type. The engine makes the handle:
    /// `create` is handed that type, and an error from it is passed on.
    pub fn wrap_with_type<E, F>(ty: FuncType, create: F) -> (res: Result<Func<H>, E>)
        where
            F: FnOnce(&FuncType) -> Result<H, E>,
        requires
            create.requires((&ty,)),
        ensures
            match res {
                Ok(f) => {
                    &&& f@.ty == ty@
                    &&& f@.name is None
                    &&& f@.mod_name is None
                    &&& f.func_type() == ty
                    &&& create.ensures((&ty,), Ok::<H, E>(f@.inner))
                },
                Err(e) => create.ensures((&ty,), Err::<H, E>(e)),
            },
    {
        match create(&ty) {
            Ok(inner) => Ok(Func { inner, name: None, mod_name: None, ty }),
            Err(e) => Err(e),
        }
    }

    /// Creates an asynchronous host function whose type takes the argument
    /// types `args` and gives back the result types `rets`. The engine makes
    /// the handle: `create` is handed that type, and an error from it is
    /// passed on.
    pub fn wrap_async_func<E, F>(args: &[ValType], rets: &[ValType], create: F) -> (res: Result<
        Func<H>,
        E,
    >)
        where
            F: FnOnce(&FuncType) -> Result<H, E>,
        requires
            forall|t: &FuncType| #[trigger] create.requires((t,)),
        ensures
            match res {
                Ok(f) => {
                    &&& f@.ty == FuncTypeView::empty().with_args(args@).with_returns(rets@)
                    &&& f@.name is None
                    &&& f@.mod_name is None
                    &&& f.func_type()@ == f@.ty
                    &&& create.ensures((&f.func_type(),), Ok::<H, E>(f@.inner))
                },
                Err(e) => exists|t: FuncType|
                    t@ == FuncTypeView::empty().with_args(args@).with_returns(rets@)
                    && #[trigger] create.ensures((&t,), Err::<H, E>(e)),
            },
    {
        Self::wrap(args, rets, create)
    }

    /// Creates an asynchronous host function of the given type. The engine
    /// makes the handle: `create` is handed that type, and an error from it is
    /// passed on.
    pub fn wrap_async_func_with_type<E, F>(ty: FuncType, create: F) -> (res: Result<Func<H>, E>)
        where
            F: FnOnce(&FuncType) -> Result<H, E>,
        requires
            create.requires((&ty,)),
        ensures
            match res {
                Ok(f) => {
                    &&& f@.ty == ty@
                    &&& f@.name is None
                    &&& f@.mod_name is None
                    &&& f.func_type() == ty
                    &&& create.ensures((&ty,), Ok::<H, E>(f@.inner))
                },
                Err(e) => create.ensures((&ty,), Err::<H, E>(e)),
            },
    {
        Self::wrap_with_type(ty, create)
    }

    /// Returns the name under which the function is exported, if it is.
    pub fn name(&self) -> (r: Option<&str>)
        ensures
            opt_str_view(r) == self@.name,
    {
        match &self.name {
            Some(name) => Some(name.as_str()),
            None => None,
        }
    }

    /// Returns the name of the module that exports the function, if any.
    pub fn mod_name(&self) -> (r: Option<&str>)
        ensures
            opt_str_view(r) == self@.mod_name,
    {
        match &self.mod_name {
            Some(mod_name) => Some(mod_name.as_str()),
            None => None,
        }
    }

    /// Returns the type of the function.
    pub fn ty(&self) -> (t: &FuncType)
        ensures
            t@ == self@.ty,
    {
        &self.ty
    }

    /// Returns the engine's handle of the function, the one the engine runs.
    pub fn handle(&self) -> (h: &H)
        ensures
            *h == self@.inner,
    {
        &self.inner
    }

    /// Returns a reference to this function: the engine turns the handle into
    /// a reference handle (`to_ref`), and the reference keeps the type.
    pub fn as_ref<R, G>(&self, to_ref: G) -> (r: FuncRef<R>)
        where
            G: FnOnce(&H) -> R,
        requires
            to_ref.requires((&self@.inner,)),
        ensures
            r@.ty == self@.ty,
            to_ref.ensures((&self@.inner,), r@.inner),
    {
        let inner = to_ref(&self.inner);
        FuncRef { inner, ty: self.ty.duplicate() }
    }
}

/// The model of a function reference: the engine's reference handle and the
/// type of the function it refers to.
pub struct FuncRefView<R> {
    pub inner: R,
    pub ty: FuncTypeView,
}

/// A reference to a host function: the engine's reference handle and the type
/// of the function it refers to.
#[derive(Debug, Clone)]
pub struct FuncRef<R> {
    inner: R,
    ty: FuncType,
}

impl<R> View for FuncRef<R> {
    type V = FuncRefView<R>;

    closed spec fn view(&self) -> FuncRefView<R> {
        FuncRefView { inner: self.inner, ty: self.ty@ }
    }
}

impl<R> FuncRef<R> {
    /// Returns the type of the function the reference refers to.
    pub fn ty(&self) -> (t: &FuncType)
        ensures
            t@ == self@.ty,
    {
        &self.ty
    }

    /// Returns the engine's reference handle, the one the engine runs.
    pub fn handle(&self) -> (h: &R)
        ensures
            *h == self@.inner,
    {
        &self.inner
    }
}

} // verus!
