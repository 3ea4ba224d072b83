//! Names: identifiers and qualified paths.

use vstd::prelude::*;

verus! {

/// A name as written in the source program.
#[derive(Debug, Clone)]
pub struct Ident {
    pub name: String,
}

impl View for Ident {
    type V = Seq<char>;

    open spec fn view(&self) -> Seq<char> {
        self.name@
    }
}

impl Ident {
    pub fn new(name: String) -> (r: Ident)
        ensures
            r@ == name@,
    {
        Ident { name }
    }
}

impl PartialEq for Ident {
    /// Two identifiers are the same name when their text is the same.
    fn eq(&self, other: &Ident) -> (r: bool)
        ensures
            r == (self@ == other@),
    {
        self.name == other.name
    }
}

impl vstd::std_specs::cmp::PartialEqSpecImpl for Ident {
    open spec fn obeys_eq_spec() -> bool {
        true
    }

    open spec fn eq_spec(&self, other: &Ident) -> bool {
        self@ == other@
    }
}

/// The names of a sequence of identifiers.
pub open spec fn idents_view(s: Seq<Ident>) -> Seq<Seq<char>> {
    s.map_values(|i: Ident| i@)
}

/// A qualified path such as `std::token::Token`: the leading segments and the
/// final name.
#[derive(Debug, Clone)]
pub struct CallPath {
    pub prefixes: Vec<Ident>,
    pub suffix: Ident,
}

impl View for CallPath {
    type V = (Seq<Seq<char>>, Seq<char>);

    open spec fn view(&self) -> (Seq<Seq<char>>, Seq<char>) {
        (idents_view(self.prefixes@), self.suffix@)
    }
}

impl CallPath {
    pub fn new(prefixes: Vec<Ident>, suffix: Ident) -> (r: CallPath)
        ensures
            r@ == (idents_view(prefixes@), suffix@),
    {
        CallPath { prefixes, suffix }
    }
}

impl PartialEq for CallPath {
    /// Two paths are the same when they have the same segments in the same
    /// order.
    fn eq(&self, other: &CallPath) -> (r: bool)
        ensures
            r == (self@ == other@),
    {
        if self.prefixes.len() != other.prefixes.len() {
            assert(idents_view(self.prefixes@).len() != idents_view(other.prefixes@).len());
            return false;
        }
        let mut i: usize = 0;
        while i < self.prefixes.len()
            invariant
                self.prefixes.len() == other.prefixes.len(),
                0 <= i <= self.prefixes.len(),
                forall|j: int| 0 <= j < i ==> self.prefixes@[j]@ == other.prefixes@[j]@,
            decreases self.prefixes.len() - i,
        {
            if self.prefixes[i] != other.prefixes[i] {
                assert(idents_view(self.prefixes@)[i as int] != idents_view(other.prefixes@)[i as int]);
                return false;
            }
            i = i + 1;
        }
        assert(idents_view(self.prefixes@) =~= idents_view(other.prefixes@));
        self.suffix == other.suffix
    }
}

impl vstd::std_specs::cmp::PartialEqSpecImpl for CallPath {
    open spec fn obeys_eq_spec() -> bool {
        true
    }

    open spec fn eq_spec(&self, other: &CallPath) -> bool {
        self@ == other@
    }
}

} // verus!
