//! A record: one row of a parsed table, a mapping from column name to
//! string value. Modelled as a `Map<Seq<char>, Seq<char>>`; entries added
//! later shadow earlier ones with the same name.

use vstd::prelude::*;

use crate::text::str_eq;

verus! {

/// The map denoted by an association list, later entries shadowing earlier
/// ones.
pub open spec fn assoc_map(s: Seq<(Seq<char>, Seq<char>)>) -> Map<Seq<char>, Seq<char>>
    decreases s.len(),
{
    if s.len() == 0 {
        Map::empty()
    } else {
        assoc_map(s.drop_last()).insert(s.last().0, s.last().1)
    }
}

pub proof fn lemma_assoc_map_absent(s: Seq<(Seq<char>, Seq<char>)>, k: Seq<char>)
    requires
        forall|j: int| 0 <= j < s.len() ==> (#[trigger] s[j]).0 != k,
    ensures
        !assoc_map(s).contains_key(k),
    decreases s.len(),
{
    if s.len() > 0 {
        lemma_assoc_map_absent(s.drop_last(), k);
    }
}

pub proof fn lemma_assoc_map_found(s: Seq<(Seq<char>, Seq<char>)>, k: Seq<char>, j: int)
    requires
        0 <= j < s.len(),
        s[j].0 == k,
        forall|l: int| j < l < s.len() ==> (#[trigger] s[l]).0 != k,
    ensures
        assoc_map(s).contains_key(k),
        assoc_map(s)[k] == s[j].1,
    decreases s.len(),
{
    if j < s.len() - 1 {
        lemma_assoc_map_found(s.drop_last(), k, j);
    }
}

/// The value bound to `k`, or the default `d` where `k` is absent: how
/// the faking constructors read their attribute maps.
pub open spec fn attr_or(m: Map<Seq<char>, Seq<char>>, k: Seq<char>, d: Seq<char>) -> Seq<char> {
    if m.contains_key(k) {
        m[k]
    } else {
        d
    }
}

/// One row of a table: column names paired with the values that stood
/// under them.
#[derive(Debug, PartialEq, Eq)]
pub struct Record {
    fields: Vec<(String, String)>,
}

impl View for Record {
    type V = Map<Seq<char>, Seq<char>>;

    closed spec fn view(&self) -> Map<Seq<char>, Seq<char>> {
        assoc_map(self.fields.deep_view())
    }
}

impl DeepView for Record {
    type V = Map<Seq<char>, Seq<char>>;

    open spec fn deep_view(&self) -> Map<Seq<char>, Seq<char>> {
        self.view()
    }
}

impl Clone for Record {
    /// A clone denotes the same map.
    fn clone(&self) -> (r: Self)
        ensures
            r@ == self@,
    {
        let mut fields: Vec<(String, String)> = Vec::new();
        let mut i: usize = 0;
        while i < self.fields.len()
            invariant
                i <= self.fields@.len(),
                fields.deep_view() =~= self.fields.deep_view().subrange(0, i as int),
            decreases self.fields@.len() - i,
        {
            let ghost prev = fields.deep_view();
            let name = self.fields[i].0.clone();
            let value = self.fields[i].1.clone();
            fields.push((name, value));
            proof {
                assert(fields.deep_view() =~= prev.push(self.fields.deep_view()[i as int]));
                assert(fields.deep_view() =~= self.fields.deep_view().subrange(0, i + 1));
            }
            i = i + 1;
        }
        proof {
            assert(fields.deep_view() =~= self.fields.deep_view());
        }
        Record { fields }
    }
}

impl Record {
    /// An empty record.
    pub fn new() -> (r: Record)
        ensures
            r@ == Map::<Seq<char>, Seq<char>>::empty(),
    {
        Record { fields: Vec::new() }
    }

    /// Bind `name` to `value`, shadowing any earlier binding.
    pub fn insert(&mut self, name: &str, value: &str)
        ensures
            final(self)@ == old(self)@.insert(name@, value@),
    {
        let ghost prev = self.fields.deep_view();
        self.fields.push((String::from_str(name), String::from_str(value)));
        proof {
            assert(self.fields.deep_view() =~= prev.push((name@, value@)));
            assert(self.fields.deep_view().drop_last() =~= prev);
        }
    }

    /// The value bound to `name`, if any.
    pub fn get(&self, name: &str) -> (r: Option<String>)
        ensures
            match r {
                Some(v) => self@.contains_key(name@) && v@ == self@[name@],
                None => !self@.contains_key(name@),
            },
    {
        let mut i: usize = self.fields.len();
        while i > 0
            invariant
                i <= self.fields@.len(),
                forall|l: int|
                    i <= l < self.fields@.len() ==> (#[trigger] self.fields.deep_view()[l]).0
                        != name@,
            decreases i,
        {
            i = i - 1;
            if str_eq(self.fields[i].0.as_str(), name) {
                proof {
                    lemma_assoc_map_found(self.fields.deep_view(), name@, i as int);
                }
                return Some(self.fields[i].1.clone());
            }
        }
        proof {
            lemma_assoc_map_absent(self.fields.deep_view(), name@);
        }
        None
    }
}

} // verus!
