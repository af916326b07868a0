//! Rendering the sorted entry points as the text of the loader's files.

use vstd::prelude::*;
use vstd::string::*;
use crate::symbol::{symbols, Proc, Symbol};

verus! {

/// The column width to which a pointer type name is filled up.
pub const TYPE_COLUMN: usize = 52;

/// The column width to which the name of a macro is filled up.
pub const MACRO_COLUMN: usize = 45;

/// The fixed text that surrounds the generated lines.
#[derive(Debug, PartialEq, Eq)]
pub struct Boilerplate {
    /// Opens both files.
    pub preamble: String,
    /// Follows the preamble in the declarations.
    pub header: String,
    /// Closes the declarations.
    pub footer: String,
    /// Follows the preamble in the implementation.
    pub source: String,
}

/// The fixed text as mathematical text.
pub struct BoilerplateText {
    pub preamble: Seq<char>,
    pub header: Seq<char>,
    pub footer: Seq<char>,
    pub source: Seq<char>,
}

impl View for Boilerplate {
    type V = BoilerplateText;

    open spec fn view(&self) -> BoilerplateText {
        BoilerplateText {
            preamble: self.preamble@,
            header: self.header@,
            footer: self.footer@,
            source: self.source@,
        }
    }
}

/// The four kinds of line that are generated once for every entry point.
#[derive(Debug, Clone, Copy, PartialEq, Eq, Structural)]
pub enum Line {
    /// Declares the loader's variable in the declarations.
    Extern,
    /// Lets the API's name stand for the loader's variable.
    Define,
    /// Defines the loader's variable in the implementation.
    Variable,
    /// Assigns the looked-up address to the loader's variable.
    Load,
}

/// `name`, followed by as many spaces as it is shorter than `width`
/// characters.
pub open spec fn padded(name: Seq<char>, width: nat) -> Seq<char> {
    name + Seq::new(
        if name.len() < width {
            (width - name.len()) as nat
        } else {
            0
        },
        |i: int| ' ',
    )
}

/// The line of the given kind for one symbol, with its line end.
pub open spec fn line_text(kind: Line, s: Symbol) -> Seq<char> {
    match kind {
        Line::Extern => "extern "@ + padded(s.pointer_type_name, TYPE_COLUMN as nat) + " "@
            + s.loader_name + ";\n"@,
        Line::Define => "#define "@ + padded(s.raw_name, MACRO_COLUMN as nat) + " "@
            + s.loader_name + "\n"@,
        Line::Variable => padded(s.pointer_type_name, TYPE_COLUMN as nat) + " "@ + s.loader_name
            + ";\n"@,
        Line::Load => "    "@ + s.loader_name + " = ("@ + s.pointer_type_name
            + ") get_proc(\""@ + s.raw_name + "\");\n"@,
    }
}

/// The lines of one kind for all symbols, in their order.
pub open spec fn section(kind: Line, all: Seq<Symbol>) -> Seq<char>
    decreases all.len(),
{
    if all.len() == 0 {
        Seq::empty()
    } else {
        section(kind, all.drop_last()) + line_text(kind, all.last())
    }
}

/// The line that opens the function which loads every entry point.
pub open spec fn load_procs_open() -> Seq<char> {
    "static void load_procs(void)\n{\n"@
}

/// The declarations: preamble, fixed declarations, one variable declaration
/// for each symbol, an empty line, one macro for each symbol, an empty line,
/// and the footer.
pub open spec fn header_text(b: BoilerplateText, all: Seq<Symbol>) -> Seq<char> {
    b.preamble + b.header + section(Line::Extern, all) + "\n"@ + section(Line::Define, all)
        + "\n"@ + b.footer
}

/// The implementation: preamble, fixed implementation, one variable for each
/// symbol, an empty line, and the function that loads every entry point.
pub open spec fn source_text(b: BoilerplateText, all: Seq<Symbol>) -> Seq<char> {
    b.preamble + b.source + section(Line::Variable, all) + "\n"@ + load_procs_open() + section(
        Line::Load,
        all,
    ) + "}\n"@
}

/// Opens the part of the combined file that is compiled once only.
pub open spec fn guard_open() -> Seq<char> {
    "\n#if defined(GL3W_IMPLEMENTATION) && !defined(GL3W_IMPLEMENTATION_DONE)\n#define GL3W_IMPLEMENTATION_DONE\n\n"@
}

/// Closes the part of the combined file that is compiled once only.
pub open spec fn guard_close() -> Seq<char> {
    "\n#endif /* GL3W_IMPLEMENTATION */\n\n"@
}

/// The combined file: the declarations, then the implementation between its
/// guards.
pub open spec fn single_text(b: BoilerplateText, all: Seq<Symbol>) -> Seq<char> {
    header_text(b, all) + guard_open() + source_text(b, all) + guard_close()
}

/// Appends `name` and fills it up with spaces to `width` characters.
fn push_padded(out: &mut String, name: &str, width: usize)
    ensures
        final(out)@ == old(out)@ + padded(name@, width as nat),
{
    let ghost start = out@;
    out.append(name);
    let mut n = name.unicode_len();
    let ghost len = n;
    proof {
        assert(out@ =~= start + name@ + Seq::new(0, |i: int| ' '));
    }
    while n < width
        invariant
            len == name@.len(),
            len <= n,
            n <= width || n == len,
            out@ == start + name@ + Seq::new((n - len) as nat, |i: int| ' '),
        decreases width - n,
    {
        let ghost filled = out@;
        out.append(" ");
        proof {
            reveal_strlit(" ");
            assert(" "@ =~= seq![' ']);
            assert(out@ =~= start + name@ + Seq::new((n + 1 - len) as nat, |i: int| ' '));
        }
        n += 1;
    }
    proof {
        assert(out@ =~= start + padded(name@, width as nat));
    }
}

/// Appends the line of the given kind for one entry point.
fn push_line(out: &mut String, kind: Line, p: &Proc)
    ensures
        final(out)@ == old(out)@ + line_text(kind, p@),
{
    let ghost start = out@;
    match kind {
        Line::Extern => {
            out.append("extern ");
            push_padded(out, p.pointer_type_name(), TYPE_COLUMN);
            out.append(" ");
            out.append(p.loader_name());
            out.append(";\n");
        },
        Line::Define => {
            out.append("#define ");
            push_padded(out, p.raw_name(), MACRO_COLUMN);
            out.append(" ");
            out.append(p.loader_name());
            out.append("\n");
        },
        Line::Variable => {
            push_padded(out, p.pointer_type_name(), TYPE_COLUMN);
            out.append(" ");
            out.append(p.loader_name());
            out.append(";\n");
        },
        Line::Load => {
            out.append("    ");
            out.append(p.loader_name());
            out.append(" = (");
            out.append(p.pointer_type_name());
            out.append(") get_proc(\"");
            out.append(p.raw_name());
            out.append("\");\n");
        },
    }
    proof {
        assert(out@ =~= start + line_text(kind, p@));
    }
}

/// Appends the lines of the given kind for all entry points, in their order.
fn push_section(out: &mut String, kind: Line, procs: &[Proc])
    ensures
        final(out)@ == old(out)@ + section(kind, symbols(procs@)),
{
    let ghost start = out@;
    let ghost all = symbols(procs@);
    let mut i: usize = 0;
    proof {
        assert(out@ =~= start + section(kind, all.take(0)));
    }
    while i < procs.len()
        invariant
            i <= procs@.len(),
            all == symbols(procs@),
            out@ == start + section(kind, all.take(i as int)),
        decreases procs@.len() - i,
    {
        push_line(out, kind, &procs[i]);
        proof {
            assert(all.take(i + 1).drop_last() =~= all.take(i as int));
            assert(out@ =~= start + section(kind, all.take(i + 1)));
        }
        i += 1;
    }
    proof {
        assert(all.take(i as int) =~= all);
    }
}

/// Appends the text of the declarations to `out`.
pub fn gen_gl3w_h(out: &mut String, boilerplate: &Boilerplate, procs: &[Proc])
    ensures
        final(out)@ == old(out)@ + header_text(boilerplate@, symbols(procs@)),
{
    let ghost start = out@;
    out.append(boilerplate.preamble.as_str());
    out.append(boilerplate.header.as_str());
    push_section(out, Line::Extern, procs);
    out.append("\n");
    push_section(out, Line::Define, procs);
    out.append("\n");
    out.append(boilerplate.footer.as_str());
    proof {
        assert(out@ =~= start + header_text(boilerplate@, symbols(procs@)));
    }
}

/// Appends the text of the implementation to `out`.
pub fn gen_gl3w_c(out: &mut String, boilerplate: &Boilerplate, procs: &[Proc])
    ensures
        final(out)@ == old(out)@ + source_text(boilerplate@, symbols(procs@)),
{
    let ghost start = out@;
    out.append(boilerplate.preamble.as_str());
    out.append(boilerplate.source.as_str());
    push_section(out, Line::Variable, procs);
    out.append("\n");
    out.append("static void load_procs(void)\n{\n");
    push_section(out, Line::Load, procs);
    out.append("}\n");
    proof {
        assert(out@ =~= start + source_text(boilerplate@, symbols(procs@)));
    }
}

/// Appends the text of the combined file to `out`.
pub fn gen_gl3w_single(out: &mut String, boilerplate: &Boilerplate, procs: &[Proc])
    ensures
        final(out)@ == old(out)@ + single_text(boilerplate@, symbols(procs@)),
{
    let ghost start = out@;
    gen_gl3w_h(out, boilerplate, procs);
    out.append(
        "\n#if defined(GL3W_IMPLEMENTATION) && !defined(GL3W_IMPLEMENTATION_DONE)\n#define GL3W_IMPLEMENTATION_DONE\n\n",
    );
    gen_gl3w_c(out, boilerplate, procs);
    out.append("\n#endif /* GL3W_IMPLEMENTATION */\n\n");
    proof {
        assert(out@ =~= start + single_text(boilerplate@, symbols(procs@)));
    }
}

} // verus!
