//! One entry point of the API and the names the loader derives for it.

use vstd::prelude::*;
use vstd::string::*;
use crate::order::{lemma_bytes_le_reflexive, lemma_name_order_total, name_le, name_order, name_precedes};

verus! {

/// What std's `str::to_uppercase` makes of a text: every character replaced
/// by its uppercase form under Unicode's rules, which may be longer than one
/// character.
pub uninterp spec fn uppercase(text: Seq<char>) -> Seq<char>;

/// Calls `str::to_uppercase` of std. Trusted: the result is the uppercase
/// form of `text`, to which `uppercase` gives a name; nothing else is claimed
/// of it.
#[verifier::external_body]
fn to_uppercase(text: &str) -> (r: String)
    ensures
        r@ == uppercase(text@),
{
    text.to_uppercase()
}

/// The prefix that the loader's own names carry in place of the API's.
pub open spec fn loader_prefix() -> Seq<char> {
    "gl3w"@
}

/// The loader's name for the entry point `id`: the loader's prefix in place
/// of the first two characters.
pub open spec fn loader_name(id: Seq<char>) -> Seq<char>
    recommends
        id.len() >= 2,
{
    loader_prefix() + id.subrange(2, id.len() as int)
}

/// The name of the function-pointer type of the entry point `id`.
pub open spec fn pointer_type_name(id: Seq<char>) -> Seq<char> {
    "PFN"@ + uppercase(id) + "PROC"@
}

/// The three names of one entry point, as mathematical text.
pub struct Symbol {
    /// The identifier as the API header declares it.
    pub raw_name: Seq<char>,
    /// The loader's own name for it.
    pub loader_name: Seq<char>,
    /// The name of its function-pointer type.
    pub pointer_type_name: Seq<char>,
}

/// The symbol that belongs to the identifier `id`.
pub open spec fn symbol_of(id: Seq<char>) -> Symbol
    recommends
        id.len() >= 2,
{
    Symbol {
        raw_name: id,
        loader_name: loader_name(id),
        pointer_type_name: pointer_type_name(id),
    }
}

/// The order of symbols: by raw name, then loader name, then pointer type
/// name, each in the order of names.
pub open spec fn symbol_le(p: Symbol, q: Symbol) -> bool {
    if p.raw_name != q.raw_name {
        name_le(p.raw_name, q.raw_name)
    } else if p.loader_name != q.loader_name {
        name_le(p.loader_name, q.loader_name)
    } else {
        name_le(p.pointer_type_name, q.pointer_type_name)
    }
}

/// The order of symbols as a relation.
pub open spec fn symbol_order() -> spec_fn(Symbol, Symbol) -> bool {
    |p: Symbol, q: Symbol| symbol_le(p, q)
}

/// The order of symbols is total.
pub proof fn lemma_symbol_order_total()
    ensures
        vstd::relations::total_ordering(symbol_order()),
{
    lemma_name_order_total();
    let n = name_order();
    let r = symbol_order();
    assert forall|x: Symbol| #[trigger] r(x, x) by {
        assert(n(x.pointer_type_name, x.pointer_type_name));
    }
    assert forall|x: Symbol, y: Symbol| #[trigger] r(x, y) && #[trigger] r(y, x) implies x
        == y by {
        assert(n(x.raw_name, y.raw_name) && n(y.raw_name, x.raw_name) ==> x.raw_name
            == y.raw_name);
        assert(n(x.loader_name, y.loader_name) && n(y.loader_name, x.loader_name)
            ==> x.loader_name == y.loader_name);
        assert(n(x.pointer_type_name, y.pointer_type_name) && n(
            y.pointer_type_name,
            x.pointer_type_name,
        ) ==> x.pointer_type_name == y.pointer_type_name);
    }
    assert forall|x: Symbol, y: Symbol, z: Symbol| #[trigger] r(x, y) && #[trigger] r(y, z)
        implies r(x, z) by {
        lemma_symbol_le_transitive(x, y, z);
    }
    assert forall|x: Symbol, y: Symbol| #[trigger] r(x, y) || #[trigger] r(y, x) by {
        assert(n(x.raw_name, y.raw_name) || n(y.raw_name, x.raw_name));
        assert(n(x.loader_name, y.loader_name) || n(y.loader_name, x.loader_name));
        assert(n(x.pointer_type_name, y.pointer_type_name) || n(
            y.pointer_type_name,
            x.pointer_type_name,
        ));
    }
}

/// The order of names carries through a third name; where the two ends are
/// the same name, the one between them is that name too.
proof fn lemma_name_le_chain(a: Seq<char>, b: Seq<char>, c: Seq<char>)
    requires
        name_le(a, b),
        name_le(b, c),
    ensures
        name_le(a, c),
        a == c ==> a == b,
{
    lemma_name_order_total();
    let n = name_order();
    assert(n(a, b) && n(b, c));
    assert(n(a, c));
    if a == c {
        assert(n(b, a));
    }
}

/// The order of symbols carries through a third.
proof fn lemma_symbol_le_transitive(x: Symbol, y: Symbol, z: Symbol)
    requires
        symbol_le(x, y),
        symbol_le(y, z),
    ensures
        symbol_le(x, z),
{
    if x.raw_name != y.raw_name {
        if y.raw_name != z.raw_name {
            lemma_name_le_chain(x.raw_name, y.raw_name, z.raw_name);
        }
    } else if y.raw_name != z.raw_name {
    } else if x.loader_name != y.loader_name {
        if y.loader_name != z.loader_name {
            lemma_name_le_chain(x.loader_name, y.loader_name, z.loader_name);
        }
    } else if y.loader_name != z.loader_name {
    } else {
        lemma_name_le_chain(x.pointer_type_name, y.pointer_type_name, z.pointer_type_name);
    }
}

/// Symbols that belong to identifiers are ordered as the identifiers are:
/// the derived names never decide.
pub proof fn lemma_symbol_order_is_raw_name_order(a: Seq<char>, b: Seq<char>)
    ensures
        symbol_le(symbol_of(a), symbol_of(b)) == name_le(a, b),
{
    if a == b {
        lemma_bytes_le_reflexive(vstd::utf8::encode_utf8(a));
        lemma_bytes_le_reflexive(vstd::utf8::encode_utf8(pointer_type_name(a)));
    }
}

/// One entry point of the API with the names derived for it.
#[derive(Debug, PartialEq, Eq, PartialOrd, Ord)]
pub struct Proc {
    raw_name: String,
    loader_name: String,
    pointer_type_name: String,
}

impl View for Proc {
    type V = Symbol;

    closed spec fn view(&self) -> Symbol {
        Symbol {
            raw_name: self.raw_name@,
            loader_name: self.loader_name@,
            pointer_type_name: self.pointer_type_name@,
        }
    }
}

/// The symbols of a sequence of entry points.
pub open spec fn symbols(procs: Seq<Proc>) -> Seq<Symbol> {
    procs.map_values(|p: Proc| p@)
}

impl Clone for Proc {
    fn clone(&self) -> (r: Self)
        ensures
            r@ == self@,
    {
        proof {
            use_type_invariant(self);
        }
        Proc {
            raw_name: self.raw_name.clone(),
            loader_name: self.loader_name.clone(),
            pointer_type_name: self.pointer_type_name.clone(),
        }
    }
}

impl Proc {
    /// Every value holds an identifier of at least two characters and the
    /// names derived from it.
    #[verifier::type_invariant]
    closed spec fn well_formed(self) -> bool {
        self.raw_name@.len() >= 2 && self@ == symbol_of(self.raw_name@)
    }

    /// The entry point declared as `id`, with its derived names.
    pub fn new(id: &str) -> (p: Proc)
        requires
            id@.len() >= 2,
        ensures
            p@ == symbol_of(id@),
            p@.raw_name == id@,
            p@.loader_name == loader_prefix() + id@.subrange(2, id@.len() as int),
            p@.pointer_type_name == "PFN"@ + uppercase(id@) + "PROC"@,
    {
        let n = id.unicode_len();
        let mut loader = String::from_str("gl3w");
        loader.append(id.substring_char(2, n));
        let upper = to_uppercase(id);
        let mut pointer = String::from_str("PFN");
        pointer.append(upper.as_str());
        pointer.append("PROC");
        Proc { raw_name: String::from_str(id), loader_name: loader, pointer_type_name: pointer }
    }

    /// The identifier as the API header declares it.
    pub fn raw_name(&self) -> (r: &str)
        ensures
            r@ == self@.raw_name,
            r@.len() >= 2,
    {
        proof {
            use_type_invariant(self);
        }
        self.raw_name.as_str()
    }

    /// The loader's own name for the entry point.
    pub fn loader_name(&self) -> (r: &str)
        ensures
            r@ == self@.loader_name,
            r@ == loader_name(self@.raw_name),
    {
        proof {
            use_type_invariant(self);
        }
        self.loader_name.as_str()
    }

    /// The name of the entry point's function-pointer type.
    pub fn pointer_type_name(&self) -> (r: &str)
        ensures
            r@ == self@.pointer_type_name,
            r@ == pointer_type_name(self@.raw_name),
    {
        proof {
            use_type_invariant(self);
        }
        self.pointer_type_name.as_str()
    }

    /// Whether `self` is `other` or comes before it in the order of symbols.
    pub fn precedes(&self, other: &Proc) -> (r: bool)
        ensures
            r == symbol_le(self@, other@),
            r == name_le(self@.raw_name, other@.raw_name),
    {
        proof {
            use_type_invariant(self);
            use_type_invariant(other);
            lemma_symbol_order_is_raw_name_order(self@.raw_name, other@.raw_name);
        }
        name_precedes(self.raw_name.as_str(), other.raw_name.as_str())
    }
}

} // verus!
