//! Rendering of the attribute's output as source text.
//!
//! The wrapper built by [`crate::wrap_function`] is turned into the source
//! text of a Rust function: the kept attributes, the signature qualifiers,
//! a zero-argument signature under the original name, and a body that holds
//! the inner function, creates the temporary directory and calls the inner
//! function with the directory's path.

use vstd::prelude::*;

use crate::model::{FnArgShape, Function};
use crate::expand::{TempdirExpr, WrappedFn};

verus! {

/// Relies on `String::push`: it appends exactly one character.
#[verifier::external_body]
fn push_char(s: &mut String, c: char)
    ensures
        final (s)@ == old(s)@.push(c),
{
    s.push(c);
}

/// How one character appears inside a double-quoted string literal: quotes
/// and backslashes get a backslash in front, a carriage return becomes the
/// escape `\r` (a bare one is not lexable inside a literal), all else stays
/// itself.
pub open spec fn escape_char(c: char) -> Seq<char> {
    if c == '"' || c == '\\' {
        seq!['\\', c]
    } else if c == '\r' {
        seq!['\\', 'r']
    } else {
        seq![c]
    }
}

/// How a text appears inside a double-quoted string literal.
pub open spec fn escape_text(s: Seq<char>) -> Seq<char>
    decreases s.len(),
{
    if s.len() == 0 {
        Seq::empty()
    } else {
        escape_text(s.drop_last()) + escape_char(s.last())
    }
}

/// Escapes a text for use inside a double-quoted string literal.
pub fn escape(s: &str) -> (r: String)
    ensures
        r@ == escape_text(s@),
{
    let n = s.unicode_len();
    let mut r = String::new();
    let mut i: usize = 0;
    while i < n
        invariant
            i <= n,
            n == s@.len(),
            r@ == escape_text(s@.take(i as int)),
        decreases n - i,
    {
        let c = s.get_char(i);
        let ghost before = r@;
        if c == '"' || c == '\\' {
            push_char(&mut r, '\\');
            push_char(&mut r, c);
        } else if c == '\r' {
            push_char(&mut r, '\\');
            push_char(&mut r, 'r');
        } else {
            push_char(&mut r, c);
        }
        proof {
            let taken = s@.take(i + 1 as int);
            assert(taken.drop_last() =~= s@.take(i as int));
            assert(taken.last() == s@[i as int]);
            assert(r@ =~= before + escape_char(s@[i as int]));
        }
        i += 1;
    }
    proof {
        assert(s@.take(s@.len() as int) =~= s@);
    }
    r
}

/// The rendering of an attribute list: each attribute's text followed by a
/// line break.
pub open spec fn spec_render_attrs(attrs: Seq<String>) -> Seq<char>
    decreases attrs.len(),
{
    if attrs.len() == 0 {
        Seq::empty()
    } else {
        spec_render_attrs(attrs.drop_last()) + attrs.last()@ + "\n"@
    }
}

/// Appends the rendering of an attribute list.
fn render_attrs_into(out: &mut String, attrs: &Vec<String>)
    ensures
        final (out)@ == old(out)@ + spec_render_attrs(attrs@),
{
    let mut i: usize = 0;
    while i < attrs.len()
        invariant
            i <= attrs.len(),
            out@ == old(out)@ + spec_render_attrs(attrs@.take(i as int)),
        decreases attrs.len() - i,
    {
        out.append(attrs[i].as_str());
        out.append("\n");
        proof {
            let taken = attrs@.take(i + 1 as int);
            assert(taken.drop_last() =~= attrs@.take(i as int));
            assert(taken.last() == attrs@[i as int]);
            assert(out@ =~= old(out)@ + spec_render_attrs(taken));
        }
        i += 1;
    }
    proof {
        assert(attrs@.take(attrs@.len() as int) =~= attrs@);
    }
}

/// The rendering of an optional signature part such as a visibility or an
/// `extern ...` qualifier: the part followed by a space, or nothing.
pub open spec fn spec_render_opt(v: Option<String>) -> Seq<char> {
    match v {
        Some(s) => s@ + " "@,
        None => Seq::empty(),
    }
}

/// Appends an optional signature part.
fn render_opt_into(out: &mut String, v: &Option<String>)
    ensures
        final (out)@ == old(out)@ + spec_render_opt(*v),
{
    match v {
        Some(s) => {
            out.append(s.as_str());
            out.append(" ");
        },
        None => {},
    }
}

/// The rendering of a signature flag: the keyword and a space when the flag
/// is set, nothing otherwise.
pub open spec fn spec_render_flag(set: bool, keyword: Seq<char>) -> Seq<char> {
    if set {
        keyword
    } else {
        Seq::empty()
    }
}

/// The source text of one argument.
pub open spec fn arg_text(a: FnArgShape) -> Seq<char> {
    match a {
        FnArgShape::Captured { text, .. } => text@,
        FnArgShape::Other(text) => text@,
    }
}

/// The rendering of an argument list: the arguments' text, separated by
/// commas.
pub open spec fn spec_render_args(args: Seq<FnArgShape>) -> Seq<char>
    decreases args.len(),
{
    if args.len() == 0 {
        Seq::empty()
    } else if args.len() == 1 {
        arg_text(args[0])
    } else {
        spec_render_args(args.drop_last()) + ", "@ + arg_text(args.last())
    }
}

/// Appends the rendering of an argument list.
fn render_args_into(out: &mut String, args: &Vec<FnArgShape>)
    ensures
        final (out)@ == old(out)@ + spec_render_args(args@),
{
    let mut i: usize = 0;
    while i < args.len()
        invariant
            i <= args.len(),
            out@ == old(out)@ + spec_render_args(args@.take(i as int)),
        decreases args.len() - i,
    {
        if i > 0 {
            out.append(", ");
        }
        match &args[i] {
            FnArgShape::Captured { text, .. } => out.append(text.as_str()),
            FnArgShape::Other(text) => out.append(text.as_str()),
        }
        proof {
            let taken = args@.take(i + 1 as int);
            assert(taken.drop_last() =~= args@.take(i as int));
            assert(taken.last() == args@[i as int]);
            if i == 0 {
                assert(taken =~= seq![args@[0]]);
                assert(out@ =~= old(out)@ + spec_render_args(taken));
            } else {
                assert(out@ =~= old(out)@ + spec_render_args(taken));
            }
        }
        i += 1;
    }
    proof {
        assert(args@.take(args@.len() as int) =~= args@);
    }
}

/// The rendering of the expression that creates the temporary directory,
/// given the configured path.
pub open spec fn spec_render_tempdir_path(path: Option<Seq<char>>) -> Seq<char> {
    match path {
        Some(p) => "tempfile::Builder::new().tempdir_in(\""@ + escape_text(p)
            + "\")"@,
        None => "tempfile::Builder::new().tempdir()"@,
    }
}

/// The path a tempdir expression creates the directory in, if one was
/// chosen.
pub open spec fn tempdir_expr_path(t: TempdirExpr) -> Option<Seq<char>> {
    match t {
        TempdirExpr::InDir(p) => Some(p@),
        TempdirExpr::System => None,
    }
}

/// The rendering of the expression that creates the temporary directory.
pub open spec fn spec_render_tempdir(t: TempdirExpr) -> Seq<char> {
    spec_render_tempdir_path(tempdir_expr_path(t))
}

/// Appends the expression that creates the temporary directory.
pub(crate) fn render_tempdir_into(out: &mut String, t: &TempdirExpr)
    ensures
        final (out)@ == old(out)@ + spec_render_tempdir(*t),
{
    match t {
        TempdirExpr::InDir(p) => {
            out.append("tempfile::Builder::new().tempdir_in(\"");
            let escaped = escape(p.as_str());
            out.append(escaped.as_str());
            out.append("\")");
            proof {
                assert(out@ =~= old(out)@ + spec_render_tempdir(*t));
            }
        },
        TempdirExpr::System => {
            out.append("tempfile::Builder::new().tempdir()");
        },
    }
}

/// The rendering of a whole function: attributes, signature qualifiers, the
/// signature, and the body's text.
pub open spec fn spec_render_function(f: Function) -> Seq<char> {
    spec_render_attrs(f.attrs@) + spec_render_opt(f.vis) + spec_render_flag(
        f.constness,
        "const "@,
    ) + spec_render_flag(f.asyncness, "async "@) + spec_render_flag(f.unsafety, "unsafe "@)
        + spec_render_opt(f.abi) + "fn "@ + f.name@ + "("@ + spec_render_args(f.inputs@) + ") "@
        + f.body@
}

/// Appends the rendering of a whole function.
#[verifier::rlimit(50)]
fn render_function_into(out: &mut String, f: &Function)
    ensures
        final (out)@ == old(out)@ + spec_render_function(*f),
{
    render_attrs_into(out, &f.attrs);
    render_opt_into(out, &f.vis);
    if f.constness {
        out.append("const ");
    }
    if f.asyncness {
        out.append("async ");
    }
    if f.unsafety {
        out.append("unsafe ");
    }
    render_opt_into(out, &f.abi);
    out.append("fn ");
    out.append(f.name.as_str());
    out.append("(");
    render_args_into(out, &f.inputs);
    out.append(") ");
    out.append(f.body.as_str());
    proof {
        assert(out@ =~= old(out)@ + spec_render_function(*f));
    }
}

/// The rendering of the wrapper function the attribute expands to.
pub open spec fn spec_render_wrapped(w: WrappedFn) -> Seq<char> {
    spec_render_attrs(w.attrs@) + spec_render_opt(w.vis) + spec_render_flag(
        w.constness,
        "const "@,
    ) + spec_render_flag(w.asyncness, "async "@) + spec_render_flag(w.unsafety, "unsafe "@)
        + spec_render_opt(w.abi) + "fn "@ + w.name@ + "() { "@ + spec_render_function(w.inner)
        + " let temp_dir = "@ + spec_render_tempdir(w.tempdir)
        + ".expect(\"Failed to create a temporary folder\"); "@ + w.name@
        + "(&temp_dir.path()); }"@
}

/// Renders the wrapper function as source text.
pub fn render_wrapped(w: &WrappedFn) -> (s: String)
    ensures
        s@ == spec_render_wrapped(*w),
{
    let mut out = String::new();
    render_attrs_into(&mut out, &w.attrs);
    render_opt_into(&mut out, &w.vis);
    if w.constness {
        out.append("const ");
    }
    if w.asyncness {
        out.append("async ");
    }
    if w.unsafety {
        out.append("unsafe ");
    }
    render_opt_into(&mut out, &w.abi);
    out.append("fn ");
    out.append(w.name.as_str());
    out.append("() { ");
    render_function_into(&mut out, &w.inner);
    out.append(" let temp_dir = ");
    render_tempdir_into(&mut out, &w.tempdir);
    out.append(".expect(\"Failed to create a temporary folder\"); ");
    out.append(w.name.as_str());
    out.append("(&temp_dir.path()); }");
    proof {
        assert(out@ =~= spec_render_wrapped(*w));
    }
    out
}

} // verus!
