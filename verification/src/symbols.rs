//! Sets of symbols.
//!
//! Features carry a set of symbols such as `:first:open:cat:ac15` that
//! describe them. The classification code takes symbols out of such a set
//! one by one so that, at the end, anything left over was not understood.

use vstd::prelude::*;
use crate::import::load::Failed;

verus! {

/// The names of a sequence of strings.
pub open spec fn names_of(v: Seq<String>) -> Seq<Seq<char>> {
    v.map_values(|s: String| s@)
}

/// Removing an entry from a sequence without duplicates removes its value
/// from the set of values.
proof fn lemma_remove_to_set(s: Seq<Seq<char>>, i: int)
    requires
        s.no_duplicates(),
        0 <= i < s.len(),
    ensures
        s.remove(i).to_set() =~= s.to_set().remove(s[i]),
        s.remove(i).no_duplicates(),
{
    let r = s.remove(i);
    assert forall|x: Seq<char>| r.to_set().contains(x) <==> s.to_set().remove(s[i]).contains(x) by {
        if r.to_set().contains(x) {
            let k = choose|k: int| 0 <= k < r.len() && r[k] == x;
            if k < i {
                assert(s[k] == x);
            } else {
                assert(s[k + 1] == x);
            }
        }
        if s.to_set().remove(s[i]).contains(x) {
            let k = choose|k: int| 0 <= k < s.len() && s[k] == x;
            assert(k != i);
            if k < i {
                assert(r[k] == x);
            } else {
                assert(r[k - 1] == x);
            }
        }
    }
}

/// A set of symbol names.
///
/// Each name occurs at most once. The names keep the order in which they
/// were added so that left-over names can be reported in source order.
pub struct SymbolSet {
    symbols: Vec<String>,
}

impl View for SymbolSet {
    type V = Set<Seq<char>>;

    open spec fn view(&self) -> Set<Seq<char>> {
        self.names().to_set()
    }
}

impl SymbolSet {
    /// The names in the set in the order they were added.
    pub closed spec fn names(&self) -> Seq<Seq<char>> {
        names_of(self.symbols@)
    }

    /// The set is well formed: no name occurs twice.
    pub closed spec fn wf(&self) -> bool {
        self.names().no_duplicates()
    }

    /// Creates an empty set.
    pub fn new() -> (res: Self)
        ensures
            res.wf(),
            res@ == Set::<Seq<char>>::empty(),
            res.names() == Seq::<Seq<char>>::empty(),
    {
        let res = SymbolSet { symbols: Vec::new() };
        assert(res.names() =~= Seq::<Seq<char>>::empty());
        assert(res@ =~= Set::<Seq<char>>::empty());
        res
    }

    /// Returns the position of `name` in the set, if it is there.
    fn position(&self, name: &String) -> (res: Option<usize>)
        ensures
            match res {
                Some(i) => i < self.names().len() && self.names()[i as int] == name@,
                None => !self.names().contains(name@),
            },
    {
        let mut i: usize = 0;
        while i < self.symbols.len()
            invariant
                i <= self.symbols.len(),
                forall|k: int| 0 <= k < i ==> self.names()[k] != name@,
            decreases self.symbols.len() - i,
        {
            if self.symbols[i] == *name {
                return Some(i);
            }
            i = i + 1;
        }
        None
    }

    /// Adds a name to the set.
    ///
    /// Adding a name that is already present leaves the set unchanged.
    pub fn insert(&mut self, name: &str)
        requires
            old(self).wf(),
        ensures
            final(self).wf(),
            final(self)@ == old(self)@.insert(name@),
            old(self)@.contains(name@) ==> final(self).names() == old(self).names(),
            !old(self)@.contains(name@) ==> final(self).names() == old(self).names().push(name@),
    {
        let name = String::from_str(name);
        match self.position(&name) {
            Some(_) => {
                assert(self@ =~= self@.insert(name@));
            }
            None => {
                let ghost before = self.names();
                self.symbols.push(name);
                assert(self.names() =~= before.push(name@));
                assert forall|x: Seq<char>| self@.contains(x) <==> before.to_set().insert(name@).contains(x) by {
                    if self@.contains(x) {
                        let k = choose|k: int| 0 <= k < self.names().len() && self.names()[k] == x;
                        if k < before.len() {
                            assert(before[k] == x);
                        }
                    }
                    if before.to_set().contains(x) {
                        let k = choose|k: int| 0 <= k < before.len() && before[k] == x;
                        assert(self.names()[k] == x);
                    }
                    if x == name@ {
                        assert(self.names()[before.len() as int] == x);
                    }
                }
                assert(self@ =~= before.to_set().insert(name@));
            }
        }
    }

    /// Returns whether the set contains `name`.
    pub fn contains(&self, name: &str) -> (res: bool)
        ensures
            res == self@.contains(name@),
    {
        let name = String::from_str(name);
        self.position(&name).is_some()
    }

    /// Fails if any symbol is left in the set.
    pub fn check_exhausted(&self) -> (res: Result<(), Failed>)
        ensures
            res is Ok <==> self@ == Set::<Seq<char>>::empty(),
    {
        if self.is_empty() {
            Ok(())
        } else {
            Err(Failed)
        }
    }

    /// Returns the number of symbols in the set.
    pub fn len(&self) -> (res: usize)
        requires
            self.wf(),
        ensures
            res == self@.len(),
    {
        proof {
            self.names().unique_seq_to_set();
        }
        self.symbols.len()
    }

    /// Takes `name` out of the set.
    ///
    /// Returns whether the name was present.
    pub fn take(&mut self, name: &str) -> (res: bool)
        requires
            old(self).wf(),
        ensures
            final(self).wf(),
            res == old(self)@.contains(name@),
            final(self)@ == old(self)@.remove(name@),
            !res ==> final(self)@ == old(self)@,
            !res ==> final(self).names() == old(self).names(),
    {
        let name = String::from_str(name);
        match self.position(&name) {
            Some(i) => {
                let ghost before = self.names();
                proof {
                    lemma_remove_to_set(before, i as int);
                }
                self.symbols.remove(i);
                assert(self.names() =~= before.remove(i as int));
                true
            }
            None => {
                assert(self@ =~= self@.remove(name@));
                false
            }
        }
    }

    /// Returns whether no names are left.
    pub fn is_empty(&self) -> (res: bool)
        ensures
            res == (self@ == Set::<Seq<char>>::empty()),
    {
        if self.symbols.len() == 0 {
            assert(self@ =~= Set::<Seq<char>>::empty());
            true
        } else {
            assert(self@.contains(self.names()[0]));
            false
        }
    }
}

//------------ Names ---------------------------------------------------------

/// Whether two strings are equal.
pub fn str_eq(a: &str, b: &str) -> (res: bool)
    ensures
        res == (a@ == b@),
{
    let n = a.unicode_len();
    if n != b.unicode_len() {
        return false;
    }
    let mut i: usize = 0;
    while i < n
        invariant
            n == a@.len(),
            n == b@.len(),
            i <= n,
            a@.subrange(0, i as int) == b@.subrange(0, i as int),
        decreases n - i,
    {
        if a.get_char(i) != b.get_char(i) {
            assert(a@[i as int] != b@[i as int]);
            return false;
        }
        assert(a@.subrange(0, i + 1) =~= a@.subrange(0, i as int).push(a@[i as int]));
        assert(b@.subrange(0, i + 1) =~= b@.subrange(0, i as int).push(b@[i as int]));
        i = i + 1;
    }
    assert(a@ =~= a@.subrange(0, n as int));
    assert(b@ =~= b@.subrange(0, n as int));
    true
}

/// Finds the first entry of a table of names that equals `name`.
pub fn find_name(table: &[&str], name: &str) -> (res: Option<usize>)
    ensures
        match res {
            Some(i) => i < table@.len() && table@[i as int]@ == name@
                && forall|k: int| 0 <= k < i ==> table@[k]@ != name@,
            None => forall|k: int| 0 <= k < table@.len() ==> table@[k]@ != name@,
        },
{
    let mut i: usize = 0;
    while i < table.len()
        invariant
            i <= table@.len(),
            forall|k: int| 0 <= k < i ==> table@[k]@ != name@,
        decreases table@.len() - i,
    {
        if str_eq(table[i], name) {
            return Some(i);
        }
        i = i + 1;
    }
    None
}

} // verus!
