//! The store provider: a dependency-injected resolver from table name to
//! source text. Whoever composes the application decides where table text
//! comes from; nested foreign-key resolutions draw on the same provider.

use vstd::prelude::*;

use crate::record::assoc_map;
use crate::record::lemma_assoc_map_absent;
use crate::record::lemma_assoc_map_found;
use crate::text::str_eq;

verus! {

/// Maps table names to the text of their sources. Modelled as a
/// `Map<Seq<char>, Seq<char>>` from name to text.
pub struct StoreProvider {
    tables: Vec<(String, String)>,
}

impl View for StoreProvider {
    type V = Map<Seq<char>, Seq<char>>;

    closed spec fn view(&self) -> Map<Seq<char>, Seq<char>> {
        assoc_map(self.tables.deep_view())
    }
}

impl StoreProvider {
    /// A provider that knows no tables.
    pub fn new() -> (r: StoreProvider)
        ensures
            r@ == Map::<Seq<char>, Seq<char>>::empty(),
    {
        StoreProvider { tables: Vec::new() }
    }

    /// Bind a table name to its source text, shadowing any earlier binding.
    pub fn add_table(&mut self, name: &str, content: &str)
        ensures
            final(self)@ == old(self)@.insert(name@, content@),
    {
        let ghost prev = self.tables.deep_view();
        self.tables.push((String::from_str(name), String::from_str(content)));
        proof {
            assert(self.tables.deep_view() =~= prev.push((name@, content@)));
            assert(self.tables.deep_view().drop_last() =~= prev);
        }
    }

    /// The source text bound to `name`, if any.
    pub fn lookup(&self, name: &str) -> (r: Option<String>)
        ensures
            match r {
                Some(text) => self@.contains_key(name@) && text@ == self@[name@],
                None => !self@.contains_key(name@),
            },
    {
        let mut i: usize = self.tables.len();
        while i > 0
            invariant
                i <= self.tables@.len(),
                forall|l: int|
                    i <= l < self.tables@.len() ==> (#[trigger] self.tables.deep_view()[l]).0
                        != name@,
            decreases i,
        {
            i = i - 1;
            if str_eq(self.tables[i].0.as_str(), name) {
                proof {
                    lemma_assoc_map_found(self.tables.deep_view(), name@, i as int);
                }
                return Some(self.tables[i].1.clone());
            }
        }
        proof {
            lemma_assoc_map_absent(self.tables.deep_view(), name@);
        }
        None
    }
}

} // verus!
