//! Finding the declared entry points in the text of the API header.

use vstd::prelude::*;
use vstd::string::*;
use vstd::seq_lib::*;
use vstd::relations::sorted_by;
use crate::order::name_le;
use crate::symbol::{
    lemma_symbol_order_is_raw_name_order, lemma_symbol_order_total, symbol_le, symbol_of,
    symbol_order, symbols, Proc, Symbol,
};

verus! {

/// The regex crate's error for a pattern that it refuses. It is passed on
/// and never looked into.
#[verifier::external_type_specification]
#[verifier::external_body]
pub struct ExRegexError(regex::Error);

/// What a search of `text` for `pattern` finds, as the regex crate performs
/// it: `None` where the crate refuses the pattern; otherwise, for each match
/// from left to right, none overlapping another, the text that the capture
/// group with index `group` matched, or `None` where the pattern has no such
/// group or the group took no part in the match.
pub uninterp spec fn group_captures(pattern: Seq<char>, text: Seq<char>, group: int) -> Option<
    Seq<Option<Seq<char>>>,
>;

/// Compiles `pattern` with `regex::Regex::new` and walks all matches in
/// `text` with `Regex::captures_iter`, taking from each the group `group`
/// with `Captures::get` and its text with `Match::as_str`. Trusted: the
/// outcome is the one that `group_captures` names for these arguments, an
/// error standing for a refused pattern.
#[verifier::external_body]
pub(crate) fn capture_group(pattern: &str, text: &str, group: usize) -> (r: Result<
    Vec<Option<String>>,
    regex::Error,
>)
    ensures
        match r {
            Ok(found) => group_captures(pattern@, text@, group as int) == Some(
                found.deep_view(),
            ),
            Err(_) => group_captures(pattern@, text@, group as int) is None,
        },
{
    let re = regex::Regex::new(pattern)?;
    Ok(re.captures_iter(text).map(|c| c.get(group).map(|m| m.as_str().to_string())).collect())
}

/// The pattern of one declaration: the marker `GLAPI`, the shortest run of
/// characters within the line up to the marker `APIENTRY`, white space, and
/// the identifier, a run of word characters, as the capture group.
pub open spec fn declaration_pattern() -> Seq<char> {
    "GLAPI.*?APIENTRY\\s+(\\w+)"@
}

/// The index of the capture group that holds the identifier.
pub open spec fn identifier_group() -> int {
    1
}

/// Why no list of entry points could be made from a text.
#[derive(Debug, Clone, Copy, PartialEq, Eq, Structural)]
pub enum ExtractError {
    /// The pattern of a declaration was refused by the pattern engine.
    Pattern,
    /// The declaration with this index, counted from zero in the order of the
    /// text, names no identifier of at least two characters, so that no
    /// loader name can be derived for it.
    ShortIdentifier(usize),
}

/// Whether a captured text is an identifier that a symbol can be derived from.
pub open spec fn usable(capture: Option<Seq<char>>) -> bool {
    capture is Some && capture->0.len() >= 2
}

/// The symbols of the captured identifiers, in the order of the captures.
pub open spec fn captured_symbols(found: Seq<Option<Seq<char>>>) -> Seq<Symbol> {
    found.map_values(|c: Option<Seq<char>>| symbol_of(c->0))
}

/// What extraction makes of the outcome of the search: a refused pattern is
/// an error; so is the first capture that is no usable identifier; otherwise
/// the result holds the symbols of all captures, sorted in the order of
/// symbols.
pub open spec fn extracted(
    outcome: Option<Seq<Option<Seq<char>>>>,
    result: Result<Seq<Symbol>, ExtractError>,
) -> bool {
    match outcome {
        None => result == Err::<Seq<Symbol>, ExtractError>(ExtractError::Pattern),
        Some(found) => match result {
            Ok(sorted) => {
                &&& forall|i: int| 0 <= i < found.len() ==> usable(#[trigger] found[i])
                &&& sorted == captured_symbols(found).sort_by(symbol_order())
            },
            Err(ExtractError::ShortIdentifier(i)) => {
                &&& i < found.len()
                &&& !usable(found[i as int])
                &&& forall|j: int| 0 <= j < i ==> usable(#[trigger] found[j])
            },
            Err(ExtractError::Pattern) => false,
        },
    }
}

/// The mathematical content of a result of extraction.
pub open spec fn result_symbols(r: Result<Vec<Proc>, ExtractError>) -> Result<
    Seq<Symbol>,
    ExtractError,
> {
    match r {
        Ok(procs) => Ok(symbols(procs@)),
        Err(e) => Err(e),
    }
}

/// The outcome of the search leaves one result only.
pub proof fn lemma_extraction_unique(
    outcome: Option<Seq<Option<Seq<char>>>>,
    first: Result<Seq<Symbol>, ExtractError>,
    second: Result<Seq<Symbol>, ExtractError>,
)
    requires
        extracted(outcome, first),
        extracted(outcome, second),
    ensures
        first == second,
{
    if let Some(found) = outcome {
        match (first, second) {
            (Err(ExtractError::ShortIdentifier(i)), Err(ExtractError::ShortIdentifier(j))) => {
                if i < j {
                    assert(usable(found[i as int]));
                }
                if j < i {
                    assert(usable(found[j as int]));
                }
            },
            (Ok(_), Err(ExtractError::ShortIdentifier(j))) => {
                assert(usable(found[j as int]));
            },
            (Err(ExtractError::ShortIdentifier(i)), Ok(_)) => {
                assert(usable(found[i as int]));
            },
            _ => {},
        }
    }
}

/// A search that finds no declaration gives the empty list.
pub proof fn lemma_nothing_declared(result: Result<Seq<Symbol>, ExtractError>)
    requires
        extracted(Some(Seq::<Option<Seq<char>>>::empty()), result),
    ensures
        result == Ok::<Seq<Symbol>, ExtractError>(Seq::<Symbol>::empty()),
{
    broadcast use {group_to_multiset_ensures, vstd::multiset::group_multiset_axioms};

    let none = captured_symbols(Seq::<Option<Seq<char>>>::empty());
    assert(none =~= Seq::<Symbol>::empty());
    lemma_symbol_order_total();
    none.lemma_sort_by_ensures(symbol_order());
    assert(none.to_multiset().len() == 0);
    assert(none.sort_by(symbol_order()).len() == 0);
    assert(none.sort_by(symbol_order()) =~= Seq::<Symbol>::empty());
}

/// The list that extraction gives holds the symbol of every captured
/// identifier, each as often as it was captured, and no other; it is sorted
/// in the order of symbols, which for these symbols is the order of their
/// raw identifiers.
pub proof fn lemma_extraction_sorted(found: Seq<Option<Seq<char>>>, sorted: Seq<Symbol>)
    requires
        extracted(Some(found), Ok(sorted)),
    ensures
        sorted.len() == found.len(),
        sorted.to_multiset() == captured_symbols(found).to_multiset(),
        sorted_by(sorted, symbol_order()),
        forall|i: int|
            0 <= i < sorted.len() ==> (#[trigger] sorted[i]) == symbol_of(sorted[i].raw_name),
        forall|i: int, j: int|
            0 <= i < j < sorted.len() ==> name_le(
                (#[trigger] sorted[i]).raw_name,
                (#[trigger] sorted[j]).raw_name,
            ),
{
    broadcast use {group_to_multiset_ensures, vstd::multiset::group_multiset_axioms};

    let caught = captured_symbols(found);
    lemma_symbol_order_total();
    caught.lemma_sort_by_ensures(symbol_order());
    assert(sorted.to_multiset().len() == caught.to_multiset().len());
    assert forall|i: int| 0 <= i < sorted.len() implies (#[trigger] sorted[i]) == symbol_of(
        sorted[i].raw_name,
    ) by {
        assert(sorted.contains(sorted[i]));
        assert(caught.contains(sorted[i]));
        let k = choose|k: int| 0 <= k < caught.len() && caught[k] == sorted[i];
        assert(caught[k] == symbol_of(found[k]->0));
    }
    assert forall|i: int, j: int| 0 <= i < j < sorted.len() implies name_le(
        (#[trigger] sorted[i]).raw_name,
        (#[trigger] sorted[j]).raw_name,
    ) by {
        let r = symbol_order();
        assert(r(sorted[i], sorted[j]));
        lemma_symbol_order_is_raw_name_order(sorted[i].raw_name, sorted[j].raw_name);
    }
}

/// Sorts entry points into the order of symbols. Every entry point stays,
/// as often as it occurs; those with the same identifier have all their
/// names in common and come to stand side by side.
pub fn sort_procs(procs: Vec<Proc>) -> (sorted: Vec<Proc>)
    ensures
        symbols(sorted@) == symbols(procs@).sort_by(symbol_order()),
        sorted_by(symbols(sorted@), symbol_order()),
        symbols(sorted@).to_multiset() == symbols(procs@).to_multiset(),
{
    let ghost all = symbols(procs@);
    let mut rest = procs;
    let mut sorted: Vec<Proc> = Vec::new();
    proof {
        broadcast use {group_to_multiset_ensures, vstd::multiset::group_multiset_axioms};

        lemma_symbol_order_total();
        assert(symbols(sorted@) =~= Seq::<Symbol>::empty());
        assert(symbols(sorted@).to_multiset().len() == 0);
        assert(symbols(sorted@).to_multiset().add(all.to_multiset()) =~= all.to_multiset());
    }
    while rest.len() > 0
        invariant
            vstd::relations::total_ordering(symbol_order()),
            sorted_by(symbols(sorted@), symbol_order()),
            symbols(sorted@).to_multiset().add(symbols(rest@).to_multiset()) == all.to_multiset(),
        decreases rest.len(),
    {
        let ghost before = rest@;
        let ghost placed = symbols(sorted@);
        let p = rest.pop().unwrap();
        let mut j: usize = 0;
        while j < sorted.len() && !p.precedes(&sorted[j])
            invariant
                j <= sorted.len(),
                placed == symbols(sorted@),
                forall|k: int| 0 <= k < j ==> symbol_le(#[trigger] placed[k], p@),
                vstd::relations::total_ordering(symbol_order()),
            decreases sorted.len() - j,
        {
            proof {
                let r = symbol_order();
                assert(r(p@, placed[j as int]) || r(placed[j as int], p@));
            }
            j += 1;
        }
        proof {
            let r = symbol_order();
            let grown = placed.insert(j as int, p@);
            assert forall|a: int, b: int| 0 <= a < b < grown.len() implies #[trigger] r(
                grown[a],
                grown[b],
            ) by {
                if b < j {
                    assert(r(placed[a], placed[b]));
                } else if b == j {
                    assert(r(placed[a], p@));
                } else if a == j {
                    assert(r(p@, placed[j as int]));
                    if b - 1 > j {
                        assert(r(placed[j as int], placed[b - 1]));
                    }
                    assert(r(p@, placed[b - 1]));
                } else if a < j {
                    assert(r(placed[a], placed[b - 1]));
                } else {
                    assert(r(placed[a - 1], placed[b - 1]));
                }
            }
            assert(symbols(sorted@.insert(j as int, p)) =~= grown);
            to_multiset_insert(placed, j as int, p@);
            assert(symbols(before) =~= symbols(rest@).push(p@));
            to_multiset_build(symbols(rest@), p@);
            assert(grown.to_multiset().add(symbols(rest@).to_multiset()) =~= all.to_multiset());
        }
        sorted.insert(j, p);
    }
    proof {
        broadcast use {group_to_multiset_ensures, vstd::multiset::group_multiset_axioms};

        assert(symbols(rest@) =~= Seq::<Symbol>::empty());
        assert(symbols(rest@).to_multiset().len() == 0);
        assert(symbols(sorted@).to_multiset() =~= all.to_multiset());
        all.lemma_sort_by_ensures(symbol_order());
        lemma_sorted_unique(symbols(sorted@), all.sort_by(symbol_order()), symbol_order());
    }
    sorted
}

/// Makes the sorted list of entry points from what the search for
/// declarations found: the captured identifier of each match, in the order
/// of the text.
pub fn procs_from_captures(found: &[Option<String>]) -> (r: Result<Vec<Proc>, ExtractError>)
    ensures
        extracted(Some(found.deep_view()), result_symbols(r)),
{
    let ghost caught = found.deep_view();
    let mut procs: Vec<Proc> = Vec::new();
    let mut i: usize = 0;
    while i < found.len()
        invariant
            i <= found.len(),
            caught == found.deep_view(),
            forall|j: int| 0 <= j < i ==> usable(#[trigger] caught[j]),
            symbols(procs@) == captured_symbols(caught.take(i as int)),
        decreases found.len() - i,
    {
        let ghost so_far = symbols(procs@);
        match &found[i] {
            Some(id) => {
                if id.as_str().unicode_len() < 2 {
                    return Err(ExtractError::ShortIdentifier(i));
                }
                procs.push(Proc::new(id.as_str()));
            },
            None => {
                return Err(ExtractError::ShortIdentifier(i));
            },
        }
        proof {
            assert(symbols(procs@) =~= so_far.push(symbol_of(caught[i as int]->0)));
            assert(caught.take(i + 1) =~= caught.take(i as int).push(caught[i as int]));
            assert(captured_symbols(caught.take(i + 1)) =~= captured_symbols(
                caught.take(i as int),
            ).push(symbol_of(caught[i as int]->0)));
        }
        i += 1;
    }
    proof {
        assert(caught.take(i as int) =~= caught);
    }
    Ok(sort_procs(procs))
}

} // verus!
