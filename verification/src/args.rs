//! Parsing of the attribute's own arguments into a [`Configuration`].
//!
//! The attribute accepts `path = "..."` (or `path = b"..."` with UTF-8
//! encoded bytes) to choose where the temporary directory is created. Later
//! occurrences win over earlier ones; arguments of any other form, and byte
//! strings that are not UTF-8, are silently ignored.

use vstd::prelude::*;
use vstd::utf8::{decode_utf8, valid_utf8};

verus! {

/// The literal of a `name = literal` attribute argument, as far as the
/// attribute distinguishes literals.
#[derive(Debug, PartialEq, Eq)]
pub enum MetaLit {
    /// A string literal such as `"./tests"`.
    Str(String),
    /// A byte-string literal such as `b"./tests"`.
    ByteStr(Vec<u8>),
    /// Any other literal.
    Other,
}

/// One argument given to the attribute itself.
#[derive(Debug, PartialEq, Eq)]
pub enum AttrArg {
    /// A `name = literal` argument.
    NameValue { name: String, lit: MetaLit },
    /// Any other argument form.
    Other,
}

/// The configuration the attribute runs under: where to create the
/// temporary directory, if a place was chosen.
#[derive(Debug, PartialEq, Eq)]
pub struct Configuration {
    pub path: Option<String>,
}

impl Default for Configuration {
    /// The configuration before any argument is read: no path chosen.
    fn default() -> (c: Configuration)
        ensures
            c.path is None,
    {
        Configuration { path: None }
    }
}

/// The path text a single argument contributes, if any: the value of a
/// `path = ...` argument whose literal is a string, or a byte string made of
/// UTF-8 encoded bytes.
pub open spec fn arg_path_value(arg: AttrArg) -> Option<Seq<char>> {
    match arg {
        AttrArg::NameValue { name, lit } => if name@ == "path"@ {
            match lit {
                MetaLit::Str(s) => Some(s@),
                MetaLit::ByteStr(b) => if valid_utf8(b@) {
                    Some(decode_utf8(b@))
                } else {
                    None
                },
                MetaLit::Other => None,
            }
        } else {
            None
        },
        AttrArg::Other => None,
    }
}

/// The path chosen by a whole argument list: the value of the last argument
/// that contributes one, or nothing if none does.
pub open spec fn config_path(args: Seq<AttrArg>) -> Option<Seq<char>>
    decreases args.len(),
{
    if args.len() == 0 {
        None
    } else {
        match arg_path_value(args.last()) {
            Some(p) => Some(p),
            None => config_path(args.drop_last()),
        }
    }
}

/// Relies on `String::from_utf8`: it succeeds exactly on UTF-8 encoded
/// bytes, and the string it returns is the decoding of those bytes.
#[verifier::external_body]
fn string_from_utf8(v: &Vec<u8>) -> (r: Option<String>)
    ensures
        r is Some <==> valid_utf8(v@),
        r matches Some(s) ==> s@ == decode_utf8(v@),
{
    String::from_utf8(v.clone()).ok()
}

/// The path text one argument contributes, as an owned string.
fn path_value_of(arg: &AttrArg) -> (r: Option<String>)
    ensures
        r.deep_view() == arg_path_value(*arg),
{
    match arg {
        AttrArg::NameValue { name, lit } => {
            let key: String = String::from_str("path");
            if *name == key {
                match lit {
                    MetaLit::Str(s) => Some(s.clone()),
                    MetaLit::ByteStr(b) => string_from_utf8(b),
                    MetaLit::Other => None,
                }
            } else {
                None
            }
        },
        AttrArg::Other => None,
    }
}

impl Configuration {
    /// Reads the attribute's arguments in order, keeping the path of the
    /// last `path = ...` argument that carries a usable value.
    pub fn from_args(args: &Vec<AttrArg>) -> (c: Configuration)
        ensures
            c.path.deep_view() == config_path(args@),
    {
        let mut c = Configuration::default();
        let mut i: usize = 0;
        while i < args.len()
            invariant
                i <= args.len(),
                c.path.deep_view() == config_path(args@.take(i as int)),
            decreases args.len() - i,
        {
            match path_value_of(&args[i]) {
                Some(p) => {
                    c.path = Some(p);
                },
                None => {},
            }
            proof {
                let taken = args@.take(i + 1 as int);
                assert(taken.last() == args@[i as int]);
                assert(taken.drop_last() =~= args@.take(i as int));
            }
            i += 1;
        }
        proof {
            assert(args@.take(args@.len() as int) =~= args@);
        }
        c
    }
}

} // verus!
