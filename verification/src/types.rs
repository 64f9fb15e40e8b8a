use vstd::prelude::*;
use vstd::slice::slice_to_vec;

verus! {

/// The WebAssembly value types a host function can take or give back.
#[derive(Debug, Clone, Copy, PartialEq, Eq, Structural)]
pub enum ValType {
    /// 32-bit integer.
    I32,
    /// 64-bit integer.
    I64,
    /// 32-bit IEEE 754 number.
    F32,
    /// 64-bit IEEE 754 number.
    F64,
    /// 128-bit vector of packed data.
    V128,
    /// A reference to a host function.
    FuncRef,
    /// A reference to an object.
    ExternRef,
}

/// The mathematical model of a function type: the optional list of argument
/// types and the optional list of return types.
pub struct FuncTypeView {
    pub args: Option<Seq<ValType>>,
    pub rets: Option<Seq<ValType>>,
}

impl FuncTypeView {
    /// A function type that lists neither arguments nor results.
    pub open spec fn empty() -> FuncTypeView {
        FuncTypeView { args: None, rets: None }
    }

    /// The same function type with its argument list set to `args`.
    pub open spec fn with_args(self, args: Seq<ValType>) -> FuncTypeView {
        FuncTypeView { args: Some(args), rets: self.rets }
    }

    /// The same function type with its result list set to `rets`.
    pub open spec fn with_returns(self, rets: Seq<ValType>) -> FuncTypeView {
        FuncTypeView { args: self.args, rets: Some(rets) }
    }
}

/// The model of an optional vector of value types.
pub open spec fn opt_vec_view(o: Option<Vec<ValType>>) -> Option<Seq<ValType>> {
    match o {
        Some(v) => Some(v@),
        None => None,
    }
}

/// The model of an optional slice of value types.
pub open spec fn opt_slice_view(o: Option<&[ValType]>) -> Option<Seq<ValType>> {
    match o {
        Some(s) => Some(s@),
        None => None,
    }
}

/// The type of a function: the types of its arguments and of its results.
#[derive(Debug, Clone)]
pub struct FuncType {
    args: Option<Vec<ValType>>,
    rets: Option<Vec<ValType>>,
}

impl View for FuncType {
    type V = FuncTypeView;

    closed spec fn view(&self) -> FuncTypeView {
        FuncTypeView { args: opt_vec_view(self.args), rets: opt_vec_view(self.rets) }
    }
}

fn copy_types(o: &Option<Vec<ValType>>) -> (r: Option<Vec<ValType>>)
    ensures
        opt_vec_view(r) == opt_vec_view(*o),
{
    match o {
        Some(v) => Some(slice_to_vec(v.as_slice())),
        None => None,
    }
}

impl FuncType {
    /// Creates a function type with the given argument and return types.
    pub fn new(args: Option<Vec<ValType>>, rets: Option<Vec<ValType>>) -> (t: FuncType)
        ensures
            t@ == (FuncTypeView { args: opt_vec_view(args), rets: opt_vec_view(rets) }),
    {
        FuncType { args, rets }
    }

    /// Returns the types of the arguments, if the type lists them.
    pub fn args(&self) -> (r: Option<&[ValType]>)
        ensures
            opt_slice_view(r) == self@.args,
    {
        match &self.args {
            Some(args) => Some(args.as_slice()),
            None => None,
        }
    }

    /// Returns the types of the results, if the type lists them.
    pub fn return_types(&self) -> (r: Option<&[ValType]>)
        ensures
            opt_slice_view(r) == self@.rets,
    {
        match &self.rets {
            Some(rets) => Some(rets.as_slice()),
            None => None,
        }
    }

    /// A second function type equal to this one.
    pub fn duplicate(&self) -> (t: FuncType)
        ensures
            t@ == self@,
    {
        FuncType { args: copy_types(&self.args), rets: copy_types(&self.rets) }
    }
}

} // verus!
