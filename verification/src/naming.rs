//! Names of the common table expressions that make up a query chain.
use vstd::prelude::*;
use crate::text::{decimal, append_decimal, lemma_decimal_injective};

verus! {

/// The name of the query at position `index` of a chain with the given prefix.
pub open spec fn cte_name(prefix: Seq<char>, index: nat) -> Seq<char> {
    prefix + decimal(index)
}

/// The name of the query at position `index`: the prefix followed by the
/// decimal numeral of the index.
pub fn cte_name_for_index(prefix: &str, index: usize) -> (name: String)
    ensures
        name@ == cte_name(prefix@, index as nat),
{
    let mut name = String::new();
    name.append(prefix);
    append_decimal(&mut name, index as u64);
    name
}

/// The name of the query that a chain of `index` queries reads from when it is
/// extended: the last query already in the chain.
pub fn parent_cte_name_for_index(prefix: &str, index: usize) -> (name: String)
    requires
        index >= 1,
    ensures
        name@ == cte_name(prefix@, (index - 1) as nat),
{
    cte_name_for_index(prefix, index - 1)
}

/// Within one chain, distinct positions have distinct names.
pub proof fn lemma_cte_names_distinct(prefix: Seq<char>, i: nat, j: nat)
    requires
        i != j,
    ensures
        cte_name(prefix, i) != cte_name(prefix, j),
{
    if cte_name(prefix, i) == cte_name(prefix, j) {
        assert(decimal(i) =~= cte_name(prefix, i).subrange(prefix.len() as int, cte_name(prefix, i).len() as int));
        assert(decimal(j) =~= cte_name(prefix, j).subrange(prefix.len() as int, cte_name(prefix, j).len() as int));
        lemma_decimal_injective(i, j);
    }
}

} // verus!
