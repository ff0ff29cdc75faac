//! Core logic of the `with_tempdir` attribute: it rewrites a test function so
//! that the test receives a freshly created temporary directory and the
//! directory is cleaned up when the test finishes.
//!
//! The crate works on a plain-value picture of the pieces of source code that
//! the attribute inspects or emits: attribute arguments, the shape of a
//! function signature, and the wrapper function that is generated around the
//! original test. Turning host-compiler token streams into these values and
//! back is left to a thin unverified adapter.

mod args;
mod check;
mod expand;
mod model;
mod render;
mod tokens;

pub use args::{AttrArg, Configuration, MetaLit};
pub use check::{check_function_declaration, check_type, CheckError};
pub use expand::{build_tempdir, wrap_function, TempdirExpr, WrappedFn};
pub use model::{FnArgShape, Function, TypeShape};
pub use render::{escape, render_wrapped};
pub use tokens::{leading_fn_name, test_with_tempdir, TokenShape};

use vstd::prelude::*;

verus! {

/// Expands the attribute: reads the attribute's arguments into a
/// configuration, checks the annotated function's declaration, and builds
/// the wrapper. The wrapper keeps the function's name, attributes and
/// signature qualifiers, holds the attribute-stripped original inside, and
/// creates its temporary directory where the arguments ask; a rejected
/// declaration comes back as the matching diagnostic.
pub fn with_tempdir(args: &Vec<AttrArg>, function: &Function) -> (r: Result<
    WrappedFn,
    CheckError,
>)
    ensures
        r is Ok <==> check::declaration_ok(*function),
        r matches Err(e) ==> Some(e) == check::spec_check_declaration(*function),
        r matches Ok(w) ==> expand::wrapped_carries_signature(w, *function)
            && expand::tempdir_matches(w.tempdir, args::config_path(args@)),
{
    let configuration = Configuration::from_args(args);
    wrap_function(function, &configuration)
}

} // verus!
