//! The functions of the import language.

use vstd::prelude::*;
use crate::symbols::find_name;

verus! {

/// The names of the functions, in the order of their table.
pub open spec fn function_names() -> Seq<Seq<char>> {
    seq![
        "align"@, "dashed_line"@, "font"@, "hbox"@, "line"@, "mono_symbol"@, "path"@, "rgb"@,
        "rgba"@, "span"@, "vbox"@,
    ]
}

/// A reference to a function.
#[derive(Clone, Copy, Debug)]
pub struct Function(usize);

impl Function {
    /// The index of the function in the table.
    pub closed spec fn index(self) -> int {
        self.0 as int
    }

    /// Looks up a function by its name.
    pub fn lookup(name: &str) -> (res: Option<Self>)
        ensures
            match res {
                Some(f) => 0 <= f.index() < function_names().len()
                    && function_names()[f.index()] == name@
                    && forall|k: int| 0 <= k < f.index() ==> function_names()[k] != name@,
                None => !function_names().contains(name@),
            },
    {
        let table: [&str; 11] = [
            "align", "dashed_line", "font", "hbox", "line", "mono_symbol", "path", "rgb", "rgba",
            "span", "vbox",
        ];
        assert(table@.map_values(|s: &str| s@) =~= function_names());
        match find_name(&table, name) {
            Some(i) => Some(Function(i)),
            None => None,
        }
    }
}

} // verus!
