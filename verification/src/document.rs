//! The parsed manifest: a tree of string-keyed values whose tables keep the
//! keys in declaration order, together with the raw file text.

use vstd::prelude::*;
use crate::text::str_eq;

verus! {

/// One node of the parsed document tree. A table keeps its entries in the
/// order they were declared in the file; that order is exactly what the
/// checker validates, so it must not be re-sorted.
#[derive(Debug)]
pub enum Value {
    /// A string scalar.
    Str(String),
    /// An array of values.
    Arr(Vec<Value>),
    /// A table of string-keyed entries, in declaration order.
    Table(Vec<(String, Value)>),
    /// Any other scalar; the checker never looks inside these.
    Other,
}

/// A parsed manifest together with the raw file contents it came from.
/// The raw text is consulted only for the exploded-table-header exception.
#[derive(Debug)]
pub struct Manifest {
    pub value: Value,
    pub parsed_file: String,
}

/// The value of the first entry whose key reads `key`, if any.
pub open spec fn table_lookup(entries: Seq<(String, Value)>, key: Seq<char>) -> Option<Value>
    decreases entries.len(),
{
    if entries.len() == 0 {
        None
    } else if entries[0].0@ == key {
        Some(entries[0].1)
    } else {
        table_lookup(entries.drop_first(), key)
    }
}

/// Looking a key up in a value: only tables have entries; on anything else
/// the lookup finds nothing.
pub open spec fn get_spec(v: Value, key: Seq<char>) -> Option<Value> {
    match v {
        Value::Table(entries) => table_lookup(entries@, key),
        _ => None,
    }
}

proof fn lemma_lookup_at_first_match(entries: Seq<(String, Value)>, key: Seq<char>, i: int)
    requires
        0 <= i < entries.len(),
        forall|j: int| 0 <= j < i ==> entries[j].0@ != key,
        entries[i].0@ == key,
    ensures
        table_lookup(entries, key) == Some(entries[i].1),
    decreases i,
{
    if i > 0 {
        lemma_lookup_at_first_match(entries.drop_first(), key, i - 1);
    }
}

proof fn lemma_lookup_no_match(entries: Seq<(String, Value)>, key: Seq<char>)
    requires
        forall|j: int| 0 <= j < entries.len() ==> entries[j].0@ != key,
    ensures
        table_lookup(entries, key) is None,
    decreases entries.len(),
{
    if entries.len() > 0 {
        lemma_lookup_no_match(entries.drop_first(), key);
    }
}

impl Value {
    /// The first entry under `key`, if this value is a table that has one.
    #[verifier::loop_isolation(false)]
    pub fn get<'a>(&'a self, key: &str) -> (r: Option<&'a Value>)
        ensures
            match r {
                Some(v) => get_spec(*self, key@) == Some(*v),
                None => get_spec(*self, key@) is None,
            },
    {
        match self {
            Value::Table(entries) => {
                let n = entries.len();
                let mut i: usize = 0;
                while i < n
                    invariant
                        i <= n,
                        forall|j: int| 0 <= j < i ==> entries@[j].0@ != key@,
                    decreases n - i,
                {
                    if str_eq(entries[i].0.as_str(), key) {
                        proof {
                            lemma_lookup_at_first_match(entries@, key@, i as int);
                        }
                        return Some(&entries[i].1);
                    }
                    i += 1;
                }
                proof {
                    lemma_lookup_no_match(entries@, key@);
                }
                None
            },
            _ => None,
        }
    }
}

} // verus!
