//! Where the generated lines stand within the rendered texts.

use vstd::prelude::*;
use vstd::relations::sorted_by;
use crate::emit::{
    guard_close, guard_open, header_text, line_text, load_procs_open, section, single_text,
    source_text, BoilerplateText, Line,
};
use crate::order::{lemma_name_order_total, name_lt, name_order};
use crate::symbol::{symbol_order, Symbol};

verus! {

/// Where the line of the symbol with index `i` begins within its section:
/// behind the lines of the symbols before it.
pub open spec fn line_start(kind: Line, all: Seq<Symbol>, i: int) -> int {
    section(kind, all.take(i)).len() as int
}

/// The rendered text that holds the lines of a kind: the declarations or
/// the implementation.
pub open spec fn text_with(kind: Line, b: BoilerplateText, all: Seq<Symbol>) -> Seq<char> {
    match kind {
        Line::Extern | Line::Define => header_text(b, all),
        Line::Variable | Line::Load => source_text(b, all),
    }
}

/// Where the section of a kind begins within the text that holds it.
pub open spec fn section_start(kind: Line, b: BoilerplateText, all: Seq<Symbol>) -> int {
    match kind {
        Line::Extern => (b.preamble.len() + b.header.len()) as int,
        Line::Define => (b.preamble.len() + b.header.len() + section(Line::Extern, all).len()
            + 1) as int,
        Line::Variable => (b.preamble.len() + b.source.len()) as int,
        Line::Load => (b.preamble.len() + b.source.len() + section(Line::Variable, all).len() + 1
            + load_procs_open().len()) as int,
    }
}

/// The section of two lists, one after the other, is the section of the
/// first followed by the section of the second.
pub proof fn lemma_section_concat(kind: Line, a: Seq<Symbol>, b: Seq<Symbol>)
    ensures
        section(kind, a + b) == section(kind, a) + section(kind, b),
    decreases b.len(),
{
    if b.len() == 0 {
        assert(a + b =~= a);
        assert(section(kind, a + b) =~= section(kind, a) + section(kind, b));
    } else {
        assert((a + b).drop_last() =~= a + b.drop_last());
        assert((a + b).last() == b.last());
        lemma_section_concat(kind, a, b.drop_last());
        assert(section(kind, a + b) =~= section(kind, a) + section(kind, b));
    }
}

/// The line of each symbol stands whole within its section, between its
/// start and the start of the next.
pub proof fn lemma_line_in_section(kind: Line, all: Seq<Symbol>, i: int)
    requires
        0 <= i < all.len(),
    ensures
        line_start(kind, all, i + 1) == line_start(kind, all, i) + line_text(kind, all[i]).len(),
        line_start(kind, all, i + 1) <= section(kind, all).len(),
        section(kind, all).subrange(line_start(kind, all, i), line_start(kind, all, i + 1))
            == line_text(kind, all[i]),
{
    let upto = all.take(i + 1);
    assert(upto.drop_last() =~= all.take(i));
    assert(upto.last() == all[i]);
    assert(all =~= upto + all.skip(i + 1));
    lemma_section_concat(kind, upto, all.skip(i + 1));
    assert(section(kind, all).subrange(line_start(kind, all, i), line_start(kind, all, i + 1))
        =~= line_text(kind, all[i]));
}

/// The lines of a section begin in the order of the list.
pub proof fn lemma_line_starts_ordered(kind: Line, all: Seq<Symbol>, i: int, j: int)
    requires
        0 <= i <= j <= all.len(),
    ensures
        line_start(kind, all, i) <= line_start(kind, all, j),
{
    assert(all.take(j) =~= all.take(i) + all.subrange(i, j));
    lemma_section_concat(kind, all.take(i), all.subrange(i, j));
}

/// Each section stands whole within the text that holds it, at its start.
pub proof fn lemma_section_in_text(kind: Line, b: BoilerplateText, all: Seq<Symbol>)
    ensures
        0 <= section_start(kind, b, all),
        section_start(kind, b, all) + section(kind, all).len() <= text_with(kind, b, all).len(),
        text_with(kind, b, all).subrange(
            section_start(kind, b, all),
            section_start(kind, b, all) + section(kind, all).len(),
        ) == section(kind, all),
{
    reveal_strlit("\n");
    let start = section_start(kind, b, all);
    assert(text_with(kind, b, all).subrange(start, start + section(kind, all).len())
        =~= section(kind, all));
}

/// In a sorted list, of two symbols with different raw identifiers the one
/// whose identifier is the smaller comes first, and so does its line in
/// every section of the rendered texts: each line stands whole at its place,
/// and the line of the first ends before the line of the second begins.
pub proof fn lemma_smaller_name_first(
    kind: Line,
    b: BoilerplateText,
    all: Seq<Symbol>,
    i: int,
    j: int,
)
    requires
        sorted_by(all, symbol_order()),
        0 <= i < all.len(),
        0 <= j < all.len(),
        name_lt(all[i].raw_name, all[j].raw_name),
    ensures
        i < j,
        ({
            let text = text_with(kind, b, all);
            let first = section_start(kind, b, all) + line_start(kind, all, i);
            let second = section_start(kind, b, all) + line_start(kind, all, j);
            &&& text.subrange(first, first + line_text(kind, all[i]).len()) == line_text(
                kind,
                all[i],
            )
            &&& text.subrange(second, second + line_text(kind, all[j]).len()) == line_text(
                kind,
                all[j],
            )
            &&& first + line_text(kind, all[i]).len() <= second
            &&& second + line_text(kind, all[j]).len() <= text.len()
        }),
{
    lemma_name_order_total();
    let n = name_order();
    if j < i {
        let r = symbol_order();
        assert(r(all[j], all[i]));
        assert(n(all[j].raw_name, all[i].raw_name) && n(all[i].raw_name, all[j].raw_name));
    }
    lemma_line_in_section(kind, all, i);
    lemma_line_in_section(kind, all, j);
    lemma_line_starts_ordered(kind, all, i + 1, j);
    lemma_section_in_text(kind, b, all);
    let text = text_with(kind, b, all);
    let start = section_start(kind, b, all);
    let whole = section(kind, all);
    assert(text.subrange(start, start + whole.len()) == whole);
    let first = start + line_start(kind, all, i);
    let second = start + line_start(kind, all, j);
    assert(text.subrange(first, first + line_text(kind, all[i]).len()) =~= whole.subrange(
        line_start(kind, all, i),
        line_start(kind, all, i + 1),
    ));
    assert(text.subrange(second, second + line_text(kind, all[j]).len()) =~= whole.subrange(
        line_start(kind, all, j),
        line_start(kind, all, j + 1),
    ));
}

/// The combined file holds the declarations and the implementation whole
/// and unchanged: the declarations first, then the opening guard, the
/// implementation, and the closing guard, and nothing else. Without the two
/// guards it is the declarations followed by the implementation.
pub proof fn lemma_single_holds_both(b: BoilerplateText, all: Seq<Symbol>)
    ensures
        ({
            let single = single_text(b, all);
            let header = header_text(b, all);
            let source = source_text(b, all);
            let opened = header.len() + guard_open().len();
            let closed = opened + source.len();
            &&& single.len() == closed + guard_close().len()
            &&& single.subrange(0, header.len() as int) == header
            &&& single.subrange(header.len() as int, opened as int) == guard_open()
            &&& single.subrange(opened as int, closed as int) == source
            &&& single.subrange(closed as int, single.len() as int) == guard_close()
            &&& single.subrange(0, header.len() as int) + single.subrange(
                opened as int,
                closed as int,
            ) == header + source
        }),
{
    let single = single_text(b, all);
    let header = header_text(b, all);
    let source = source_text(b, all);
    let opened = header.len() + guard_open().len();
    let closed = opened + source.len();
    assert(single.subrange(0, header.len() as int) =~= header);
    assert(single.subrange(header.len() as int, opened as int) =~= guard_open());
    assert(single.subrange(opened as int, closed as int) =~= source);
    assert(single.subrange(closed as int, single.len() as int) =~= guard_close());
}

/// With no symbol the rendered texts hold the fixed text alone, in its
/// order, with the empty lines and the empty loading function.
pub proof fn lemma_boilerplate_alone(b: BoilerplateText)
    ensures
        header_text(b, Seq::empty()) == b.preamble + b.header + "\n"@ + "\n"@ + b.footer,
        source_text(b, Seq::empty()) == b.preamble + b.source + "\n"@ + load_procs_open()
            + "}\n"@,
        single_text(b, Seq::empty()) == header_text(b, Seq::empty()) + guard_open()
            + source_text(b, Seq::empty()) + guard_close(),
{
    let none = Seq::<Symbol>::empty();
    assert(header_text(b, none) =~= b.preamble + b.header + "\n"@ + "\n"@ + b.footer);
    assert(source_text(b, none) =~= b.preamble + b.source + "\n"@ + load_procs_open() + "}\n"@);
}

} // verus!
