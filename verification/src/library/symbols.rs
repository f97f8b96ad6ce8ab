//! The symbols that the library can draw.

use vstd::prelude::*;
use crate::symbols::find_name;

verus! {

/// The names of the symbols, in the order of their table.
pub open spec fn symbol_names() -> Seq<Seq<char>> {
    seq!["de_bf"@, "de_hp"@]
}

/// A reference to a symbol.
#[derive(Clone, Copy, Debug)]
pub struct Symbol(usize);

impl Symbol {
    /// The index of the symbol in the table.
    pub closed spec fn index(self) -> int {
        self.0 as int
    }

    /// Looks up a symbol by its name.
    pub fn lookup(name: &str) -> (res: Option<Self>)
        ensures
            match res {
                Some(sym) => 0 <= sym.index() < symbol_names().len()
                    && symbol_names()[sym.index()] == name@
                    && forall|k: int| 0 <= k < sym.index() ==> symbol_names()[k] != name@,
                None => !symbol_names().contains(name@),
            },
    {
        let table: [&str; 2] = ["de_bf", "de_hp"];
        assert(table@.map_values(|s: &str| s@) =~= symbol_names());
        match find_name(&table, name) {
            Some(i) => Some(Symbol(i)),
            None => None,
        }
    }
}

} // verus!
