//! An early, token-level variant of the attribute.
//!
//! This variant does not parse the annotated item: it only looks at the
//! first two tokens. When they read `fn` followed by a name, the whole item
//! is wrapped in a test function under the fixed name `wrapped_function`
//! that creates a temporary directory (where a `path = ...` argument asks,
//! if one is given) and calls the declared function with the directory's
//! path; dropping the directory handle at the end of the wrapper removes
//! the directory again. Anything else passes through unchanged.

use vstd::prelude::*;

use crate::args::{config_path, AttrArg, Configuration};
use crate::expand::build_tempdir;
use crate::render::{render_tempdir_into, spec_render_tempdir, spec_render_tempdir_path};

verus! {

/// One token of the annotated item, as far as this variant looks at it.
#[derive(Debug, PartialEq, Eq)]
pub enum TokenShape {
    /// An identifier or keyword, with its text.
    Ident(String),
    /// Any other token, with its text.
    Other(String),
}

/// Holds when the item can be wrapped: its first token is the keyword `fn`
/// and its second token is an identifier, the function's name.
pub open spec fn wrappable(tokens: Seq<TokenShape>) -> bool {
    &&& tokens.len() >= 2
    &&& tokens[0] matches TokenShape::Ident(w) && w@ == "fn"@
    &&& tokens[1] is Ident
}

/// The name of the function being wrapped.
pub open spec fn wrapped_name(tokens: Seq<TokenShape>) -> Seq<char>
    recommends
        wrappable(tokens),
{
    tokens[1]->Ident_0@
}

/// Picks out the name of the declared function, when the item starts with
/// `fn` followed by an identifier.
pub fn leading_fn_name(tokens: &Vec<TokenShape>) -> (r: Option<String>)
    ensures
        r is Some <==> wrappable(tokens@),
        r matches Some(n) ==> n@ == wrapped_name(tokens@),
{
    if tokens.len() >= 2 {
        match (&tokens[0], &tokens[1]) {
            (TokenShape::Ident(word), TokenShape::Ident(name)) => {
                let keyword: String = String::from_str("fn");
                if *word == keyword {
                    Some(name.clone())
                } else {
                    None
                }
            },
            _ => None,
        }
    } else {
        None
    }
}

/// The rendering of the wrapper this variant expands to: a test function
/// under the fixed name `wrapped_function` that holds the original item,
/// creates the temporary directory where the configured path asks, and
/// calls the original function with the directory's path.
pub open spec fn spec_render_test_wrapper(
    name: Seq<char>,
    source: Seq<char>,
    path: Option<Seq<char>>,
) -> Seq<char> {
    "#[test]\nfn wrapped_function() { "@ + source + " let temp_dir = "@
        + spec_render_tempdir_path(path) + ".expect(\"Failed to create a temporary folder\"); "@
        + name + "(&temp_dir.path()); }"@
}

/// Expands the token-level variant of the attribute: when the item declares
/// a function, the output wraps the item's source in a test function that
/// creates the temporary directory where the attribute's arguments ask and
/// hands its path to the declared function; otherwise the source passes
/// through unchanged.
pub fn test_with_tempdir(args: &Vec<AttrArg>, tokens: &Vec<TokenShape>, source: &str) -> (r:
    String)
    ensures
        wrappable(tokens@) ==> r@ == spec_render_test_wrapper(
            wrapped_name(tokens@),
            source@,
            config_path(args@),
        ),
        !wrappable(tokens@) ==> r@ == source@,
{
    match leading_fn_name(tokens) {
        Some(name) => {
            let configuration = Configuration::from_args(args);
            let tempdir = build_tempdir(&configuration.path);
            let mut out = String::from_str("#[test]\nfn wrapped_function() { ");
            out.append(source);
            out.append(" let temp_dir = ");
            render_tempdir_into(&mut out, &tempdir);
            out.append(".expect(\"Failed to create a temporary folder\"); ");
            out.append(name.as_str());
            out.append("(&temp_dir.path()); }");
            proof {
                assert(spec_render_tempdir(tempdir) == spec_render_tempdir_path(
                    config_path(args@),
                ));
                assert(out@ =~= spec_render_test_wrapper(
                    wrapped_name(tokens@),
                    source@,
                    config_path(args@),
                ));
            }
            out
        },
        None => String::from_str(source),
    }
}

} // verus!
