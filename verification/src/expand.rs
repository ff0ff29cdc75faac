//! Construction of the wrapper function that the attribute expands to.
//!
//! The wrapper is a zero-argument function under the original's name that
//! carries the original's attributes and signature qualifiers. Its body holds
//! the original function (stripped of its attributes), creates a temporary
//! directory, and calls the original with a reference to that directory's
//! path; dropping the directory handle at the end of the wrapper removes the
//! directory again.

use vstd::prelude::*;

use crate::args::Configuration;
use crate::check::{check_function_declaration, declaration_ok, spec_check_declaration, CheckError};
use crate::model::{clone_function, clone_opt_string, clone_strings, Function};

verus! {

/// The expression the wrapper uses to create its temporary directory.
#[derive(Debug, PartialEq, Eq)]
pub enum TempdirExpr {
    /// Create the directory inside the given path.
    InDir(String),
    /// Create the directory in the system's default location.
    System,
}

/// The function the attribute expands to, still in structured form.
#[derive(Debug, PartialEq, Eq)]
pub struct WrappedFn {
    pub attrs: Vec<String>,
    pub vis: Option<String>,
    pub constness: bool,
    pub asyncness: bool,
    pub unsafety: bool,
    pub abi: Option<String>,
    pub name: String,
    pub tempdir: TempdirExpr,
    pub inner: Function,
}

/// Holds when the tempdir expression follows the configured path: creation
/// inside that path when one was chosen, default creation otherwise.
pub open spec fn tempdir_matches(t: TempdirExpr, path: Option<Seq<char>>) -> bool {
    match path {
        Some(p) => t matches TempdirExpr::InDir(q) && q@ == p,
        None => t is System,
    }
}

/// Chooses the expression that creates the temporary directory: inside the
/// configured path when one was given, in the default location otherwise.
pub fn build_tempdir(path: &Option<String>) -> (t: TempdirExpr)
    ensures
        (*path) matches Some(p) ==> t == TempdirExpr::InDir(p),
        (*path) is None ==> t is System,
        tempdir_matches(t, path.deep_view()),
{
    match path {
        Some(p) => TempdirExpr::InDir(p.clone()),
        None => TempdirExpr::System,
    }
}

/// Holds when the inner function kept by the wrapper is the annotated
/// function with its attributes removed and everything else unchanged.
pub open spec fn inner_matches(inner: Function, f: Function) -> bool {
    &&& inner.attrs@.len() == 0
    &&& inner.vis == f.vis
    &&& inner.constness == f.constness
    &&& inner.asyncness == f.asyncness
    &&& inner.unsafety == f.unsafety
    &&& inner.abi == f.abi
    &&& inner.name == f.name
    &&& inner.inputs@ == f.inputs@
    &&& inner.body == f.body
}

/// Holds when the wrapper carries the annotated function's name, attributes
/// and signature qualifiers, and keeps the attribute-stripped original as
/// its inner function.
pub open spec fn wrapped_carries_signature(w: WrappedFn, f: Function) -> bool {
    &&& w.attrs@ == f.attrs@
    &&& w.vis == f.vis
    &&& w.constness == f.constness
    &&& w.asyncness == f.asyncness
    &&& w.unsafety == f.unsafety
    &&& w.abi == f.abi
    &&& w.name == f.name
    &&& inner_matches(w.inner, f)
}

/// Wraps the annotated function, or reports why its declaration was
/// rejected. On success the wrapper keeps the function's name, attributes
/// and qualifiers, holds the attribute-stripped original inside, and creates
/// its temporary directory as the configuration asks.
pub fn wrap_function(function: &Function, configuration: &Configuration) -> (r: Result<
    WrappedFn,
    CheckError,
>)
    ensures
        r is Ok <==> declaration_ok(*function),
        r matches Err(e) ==> Some(e) == spec_check_declaration(*function),
        r matches Ok(w) ==> wrapped_carries_signature(w, *function) && tempdir_matches(
            w.tempdir,
            configuration.path.deep_view(),
        ),
{
    match check_function_declaration(function) {
        Some(error) => Err(error),
        None => {
            let mut inner = clone_function(function);
            inner.attrs = Vec::new();
            let tempdir = build_tempdir(&configuration.path);
            Ok(
                WrappedFn {
                    attrs: clone_strings(&function.attrs),
                    vis: clone_opt_string(&function.vis),
                    constness: function.constness,
                    asyncness: function.asyncness,
                    unsafety: function.unsafety,
                    abi: clone_opt_string(&function.abi),
                    name: function.name.clone(),
                    tempdir,
                    inner,
                },
            )
        },
    }
}

} // verus!
