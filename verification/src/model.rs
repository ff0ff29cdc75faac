//! Plain-value picture of the source code that the attribute works on.
//!
//! The attribute only ever looks at a few aspects of the annotated function:
//! the shape of its argument types, the number of arguments, and the handful
//! of signature details that are carried over onto the generated wrapper.
//! Everything else (attribute text, argument text, the function body) is kept
//! as opaque source text and passed through unchanged.

use vstd::prelude::*;

verus! {

/// The shape of a type, as far as the attribute needs to see it.
///
/// Only references and plain path types are distinguished, and of a path
/// type only its final segment is kept: that is all the validation reads.
#[derive(Debug, PartialEq, Eq)]
pub enum TypeShape {
    /// A reference type `&T` or `&mut T`.
    Reference { mutable: bool, elem: Box<TypeShape> },
    /// A path type such as `std::path::Path`, reduced to its final segment.
    Path { last_segment: String },
    /// Any other type.
    Other,
}

/// One argument of the annotated function.
#[derive(Debug, PartialEq, Eq)]
pub enum FnArgShape {
    /// An ordinary `pattern: type` argument: its full source text, and the
    /// shape of its type.
    Captured { text: String, ty: TypeShape },
    /// Any other argument form (such as a `self` receiver), carried as
    /// source text.
    Other(String),
}

/// The annotated function, reduced to what the attribute reads and re-emits.
///
/// `attrs` holds the source text of each remaining attribute, `vis` the
/// visibility if one is written, `abi` the `extern ...` qualifier if one is
/// written, and `body` the source text of the function's block, braces
/// included.
#[derive(Debug, PartialEq, Eq)]
pub struct Function {
    pub attrs: Vec<String>,
    pub vis: Option<String>,
    pub constness: bool,
    pub asyncness: bool,
    pub unsafety: bool,
    pub abi: Option<String>,
    pub name: String,
    pub inputs: Vec<FnArgShape>,
    pub body: String,
}

/// Copies a vector of strings, element for element.
pub fn clone_strings(v: &Vec<String>) -> (r: Vec<String>)
    ensures
        r@ == v@,
{
    let mut r: Vec<String> = Vec::new();
    let mut i: usize = 0;
    while i < v.len()
        invariant
            i <= v.len(),
            r@ == v@.subrange(0, i as int),
        decreases v.len() - i,
    {
        r.push(v[i].clone());
        proof {
            assert(v@.subrange(0, i + 1 as int) =~= v@.subrange(0, i as int).push(v@[i as int]));
        }
        i += 1;
    }
    proof {
        assert(v@.subrange(0, v@.len() as int) =~= v@);
    }
    r
}

/// Copies an optional string.
pub fn clone_opt_string(v: &Option<String>) -> (r: Option<String>)
    ensures
        r == *v,
{
    match v {
        Some(s) => Some(s.clone()),
        None => None,
    }
}

/// Copies a type shape.
pub fn clone_type(ty: &TypeShape) -> (r: TypeShape)
    ensures
        r == *ty,
    decreases *ty,
{
    match ty {
        TypeShape::Reference { mutable, elem } => TypeShape::Reference {
            mutable: *mutable,
            elem: Box::new(clone_type(elem)),
        },
        TypeShape::Path { last_segment } => TypeShape::Path { last_segment: last_segment.clone() },
        TypeShape::Other => TypeShape::Other,
    }
}

/// Copies one function argument.
pub fn clone_arg(arg: &FnArgShape) -> (r: FnArgShape)
    ensures
        r == *arg,
{
    match arg {
        FnArgShape::Captured { text, ty } => FnArgShape::Captured {
            text: text.clone(),
            ty: clone_type(ty),
        },
        FnArgShape::Other(text) => FnArgShape::Other(text.clone()),
    }
}

/// Copies a list of function arguments, element for element.
pub fn clone_args(v: &Vec<FnArgShape>) -> (r: Vec<FnArgShape>)
    ensures
        r@ == v@,
{
    let mut r: Vec<FnArgShape> = Vec::new();
    let mut i: usize = 0;
    while i < v.len()
        invariant
            i <= v.len(),
            r@ == v@.subrange(0, i as int),
        decreases v.len() - i,
    {
        r.push(clone_arg(&v[i]));
        proof {
            assert(v@.subrange(0, i + 1 as int) =~= v@.subrange(0, i as int).push(v@[i as int]));
        }
        i += 1;
    }
    proof {
        assert(v@.subrange(0, v@.len() as int) =~= v@);
    }
    r
}

/// Copies a function. The copy matches the original field for field.
pub fn clone_function(f: &Function) -> (r: Function)
    ensures
        r.attrs@ == f.attrs@,
        r.vis == f.vis,
        r.constness == f.constness,
        r.asyncness == f.asyncness,
        r.unsafety == f.unsafety,
        r.abi == f.abi,
        r.name == f.name,
        r.inputs@ == f.inputs@,
        r.body == f.body,
{
    Function {
        attrs: clone_strings(&f.attrs),
        vis: clone_opt_string(&f.vis),
        constness: f.constness,
        asyncness: f.asyncness,
        unsafety: f.unsafety,
        abi: clone_opt_string(&f.abi),
        name: f.name.clone(),
        inputs: clone_args(&f.inputs),
        body: f.body.clone(),
    }
}

} // verus!
