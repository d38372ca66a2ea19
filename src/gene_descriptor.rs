use vstd::prelude::*;
use vstd::string::StringExecFns;

use crate::builders::strings_view;

verus! {

/// A gene: its identifier and symbol, with other names and references.
#[derive(Clone, Debug)]
pub struct GeneDescriptor {
    pub value_id: String,
    pub symbol: String,
    pub description: String,
    pub alternate_ids: Vec<String>,
    pub alternate_symbols: Vec<String>,
    pub xrefs: Vec<String>,
}

pub ghost struct GeneDescriptorView {
    pub value_id: Seq<char>,
    pub symbol: Seq<char>,
    pub description: Seq<char>,
    pub alternate_ids: Seq<Seq<char>>,
    pub alternate_symbols: Seq<Seq<char>>,
    pub xrefs: Seq<Seq<char>>,
}

impl View for GeneDescriptor {
    type V = GeneDescriptorView;

    open spec fn view(&self) -> GeneDescriptorView {
        GeneDescriptorView {
            value_id: self.value_id@,
            symbol: self.symbol@,
            description: self.description@,
            alternate_ids: strings_view(self.alternate_ids@),
            alternate_symbols: strings_view(self.alternate_symbols@),
            xrefs: strings_view(self.xrefs@),
        }
    }
}

/// A gene with an id and a symbol and nothing else.
pub open spec fn bare_gene(value_id: Seq<char>, symbol: Seq<char>) -> GeneDescriptorView {
    GeneDescriptorView {
        value_id,
        symbol,
        description: Seq::empty(),
        alternate_ids: Seq::empty(),
        alternate_symbols: Seq::empty(),
        xrefs: Seq::empty(),
    }
}

/// Appends the strings of `more` to `v`.
pub fn append_strings(v: &mut Vec<String>, more: Vec<String>)
    ensures
        strings_view(final(v)@) == strings_view(old(v)@) + strings_view(more@),
{
    let mut more = more;
    let ghost before = v@;
    let ghost added = more@;
    v.append(&mut more);
    assert(strings_view(v@) =~= strings_view(before) + strings_view(added));
}

/// Appends one string to `v`.
pub fn push_string(v: &mut Vec<String>, s: &str)
    ensures
        strings_view(final(v)@) == strings_view(old(v)@).push(s@),
{
    let ghost before = v@;
    v.push(String::from_str(s));
    assert(strings_view(v@) =~= strings_view(before).push(s@));
}

/// Builds a `GeneDescriptor` one field at a time.
pub struct GeneDescriptorBuilder {
    gene: GeneDescriptor,
}

impl View for GeneDescriptorBuilder {
    type V = GeneDescriptorView;

    closed spec fn view(&self) -> GeneDescriptorView {
        self.gene@
    }
}

impl GeneDescriptorBuilder {
    /// A gene with an id and a symbol and nothing else.
    pub fn of(value_id: &str, symbol: &str) -> (r: GeneDescriptor)
        ensures
            r@ == bare_gene(value_id@, symbol@),
    {
        let r = GeneDescriptor {
            value_id: String::from_str(value_id),
            symbol: String::from_str(symbol),
            description: String::new(),
            alternate_ids: Vec::new(),
            alternate_symbols: Vec::new(),
            xrefs: Vec::new(),
        };
        assert(strings_view(r.alternate_ids@) =~= Seq::<Seq<char>>::empty());
        assert(strings_view(r.alternate_symbols@) =~= Seq::<Seq<char>>::empty());
        assert(strings_view(r.xrefs@) =~= Seq::<Seq<char>>::empty());
        r
    }

    pub fn builder(value_id: &str, symbol: &str) -> (r: Self)
        ensures
            r@ == bare_gene(value_id@, symbol@),
    {
        GeneDescriptorBuilder { gene: Self::of(value_id, symbol) }
    }

    pub fn description(self, desc: &str) -> (r: Self)
        ensures
            r@ == (GeneDescriptorView { description: desc@, ..self@ }),
    {
        let mut s = self;
        s.gene.description = String::from_str(desc);
        s
    }

    pub fn add_alternate_id(self, alt_id: &str) -> (r: Self)
        ensures
            r@ == (GeneDescriptorView { alternate_ids: self@.alternate_ids.push(alt_id@), ..self@ }),
    {
        let mut s = self;
        push_string(&mut s.gene.alternate_ids, alt_id);
        s
    }

    pub fn add_all_alternate_ids(self, alt_ids: Vec<String>) -> (r: Self)
        ensures
            r@ == (GeneDescriptorView {
                alternate_ids: self@.alternate_ids + strings_view(alt_ids@),
                ..self@
            }),
    {
        let mut s = self;
        append_strings(&mut s.gene.alternate_ids, alt_ids);
        s
    }

    pub fn add_xref(self, xref: &str) -> (r: Self)
        ensures
            r@ == (GeneDescriptorView { xrefs: self@.xrefs.push(xref@), ..self@ }),
    {
        let mut s = self;
        push_string(&mut s.gene.xrefs, xref);
        s
    }

    pub fn add_all_xrefs(self, xrefs: Vec<String>) -> (r: Self)
        ensures
            r@ == (GeneDescriptorView { xrefs: self@.xrefs + strings_view(xrefs@), ..self@ }),
    {
        let mut s = self;
        append_strings(&mut s.gene.xrefs, xrefs);
        s
    }

    pub fn add_alternate_symbol(self, alt_symbol: &str) -> (r: Self)
        ensures
            r@ == (GeneDescriptorView {
                alternate_symbols: self@.alternate_symbols.push(alt_symbol@),
                ..self@
            }),
    {
        let mut s = self;
        push_string(&mut s.gene.alternate_symbols, alt_symbol);
        s
    }

    pub fn add_all_alternate_symbols(self, alt_symbols: Vec<String>) -> (r: Self)
        ensures
            r@ == (GeneDescriptorView {
                alternate_symbols: self@.alternate_symbols + strings_view(alt_symbols@),
                ..self@
            }),
    {
        let mut s = self;
        append_strings(&mut s.gene.alternate_symbols, alt_symbols);
        s
    }

    /// The gene with the fields set so far.
    pub fn build(self) -> (r: GeneDescriptor)
        ensures
            r@ == self@,
    {
        self.gene
    }
}

} // verus!
