//! The table of named values that a nested directive carries: `a = 5, b = 10`.
//!
//! It is kept in the order of the names, each name once; a value written
//! later for the same name takes the place of the earlier one.

use crate::derive::text::lemma_name_less_irreflexive;
use crate::derive::text::lemma_name_less_total;
use crate::derive::text::lemma_name_less_transitive;
use crate::derive::text::less_text;
use crate::derive::text::name_less;
use crate::derive::text::same_text;
use vstd::prelude::*;

verus! {

/// One named value: a field's name and the expression written for it.
pub struct AttributeValue {
    pub name: String,
    pub value: String,
}

impl View for AttributeValue {
    type V = (Seq<char>, Seq<char>);

    open spec fn view(&self) -> (Seq<char>, Seq<char>) {
        (self.name@, self.value@)
    }
}

/// What a vector of named values holds, entry by entry.
pub open spec fn values_view(v: Seq<AttributeValue>) -> Seq<(Seq<char>, Seq<char>)> {
    Seq::new(v.len(), |i: int| v[i]@)
}

/// The first position at or after `from` whose name does not come before
/// `name`.
pub open spec fn lower_bound(table: Seq<(Seq<char>, Seq<char>)>, name: Seq<char>, from: int) -> int
    decreases table.len() - from,
{
    if from < 0 || from >= table.len() || !name_less(table[from].0, name) {
        from
    } else {
        lower_bound(table, name, from + 1)
    }
}

/// The table with `name` bound to `value`: in place of the entry of that name
/// where there is one, else in front of the first entry that does not come
/// before it.
pub open spec fn table_insert(
    table: Seq<(Seq<char>, Seq<char>)>,
    name: Seq<char>,
    value: Seq<char>,
) -> Seq<(Seq<char>, Seq<char>)> {
    let at = lower_bound(table, name, 0);
    if at < table.len() && table[at].0 == name {
        table.update(at, (name, value))
    } else {
        table.insert(at, (name, value))
    }
}

/// The table made of the first `n` of `entries`, bound one after the other.
pub open spec fn table_of(entries: Seq<(Seq<char>, Seq<char>)>, n: int) -> Seq<(Seq<char>, Seq<char>)>
    decreases n,
{
    if n <= 0 {
        Seq::empty()
    } else {
        table_insert(table_of(entries, n - 1), entries[n - 1].0, entries[n - 1].1)
    }
}

/// Whether the names of a table rise strictly from entry to entry, so that
/// no name stands in it twice.
pub open spec fn table_sorted(table: Seq<(Seq<char>, Seq<char>)>) -> bool {
    forall|i: int, j: int|
        0 <= i < j < table.len() ==> name_less((#[trigger] table[i]).0, (#[trigger] table[j]).0)
}

/// Every entry in front of the lower bound comes before the name, and the
/// entry at the lower bound does not.
pub proof fn lemma_lower_bound(table: Seq<(Seq<char>, Seq<char>)>, name: Seq<char>, from: int)
    requires
        0 <= from <= table.len(),
    ensures
        from <= lower_bound(table, name, from) <= table.len(),
        forall|j: int|
            from <= j < lower_bound(table, name, from) ==> name_less(
                (#[trigger] table[j]).0,
                name,
            ),
        lower_bound(table, name, from) < table.len() ==> !name_less(
            table[lower_bound(table, name, from)].0,
            name,
        ),
    decreases table.len() - from,
{
    if from < table.len() && name_less(table[from].0, name) {
        lemma_lower_bound(table, name, from + 1);
    }
}

/// A table in the order of names stays so when a name is bound in it.
pub proof fn lemma_insert_keeps_sorted(
    table: Seq<(Seq<char>, Seq<char>)>,
    name: Seq<char>,
    value: Seq<char>,
)
    requires
        table_sorted(table),
    ensures
        table_sorted(table_insert(table, name, value)),
{
    let at = lower_bound(table, name, 0);
    lemma_lower_bound(table, name, 0);
    let after = table_insert(table, name, value);
    if at < table.len() && table[at].0 == name {
        assert forall|i: int, j: int| 0 <= i < j < after.len() implies name_less(
            (#[trigger] after[i]).0,
            (#[trigger] after[j]).0,
        ) by {
            assert(after[i].0 == table[i].0);
            assert(after[j].0 == table[j].0);
        }
    } else {
        if at < table.len() {
            lemma_name_less_total(name, table[at].0);
        }
        assert forall|i: int, j: int| 0 <= i < j < after.len() implies name_less(
            (#[trigger] after[i]).0,
            (#[trigger] after[j]).0,
        ) by {
            if j < at {
                assert(after[i] == table[i] && after[j] == table[j]);
            } else if j == at {
                assert(after[i] == table[i]);
            } else if i == at {
                assert(after[j] == table[j - 1]);
                if j - 1 > at {
                    assert(name_less(table[at].0, table[j - 1].0));
                    lemma_name_less_transitive(name, table[at].0, table[j - 1].0);
                }
            } else if i < at {
                assert(after[i] == table[i] && after[j] == table[j - 1]);
            } else {
                assert(after[i] == table[i - 1] && after[j] == table[j - 1]);
            }
        }
    }
}

/// In a table in the order of names no name stands twice.
pub proof fn lemma_sorted_names_differ(table: Seq<(Seq<char>, Seq<char>)>, i: int, j: int)
    requires
        table_sorted(table),
        0 <= i < j < table.len(),
    ensures
        table[i].0 != table[j].0,
{
    lemma_name_less_irreflexive(table[i].0);
}

/// The table made of any entries is in the order of names, each name once.
pub proof fn lemma_table_of_sorted(entries: Seq<(Seq<char>, Seq<char>)>, n: int)
    ensures
        table_sorted(table_of(entries, n)),
    decreases n,
{
    if n > 0 {
        lemma_table_of_sorted(entries, n - 1);
        lemma_insert_keeps_sorted(
            table_of(entries, n - 1),
            entries[n - 1].0,
            entries[n - 1].1,
        );
    }
}

/// Binds `name` to `value` in `table`.
pub fn insert_value(table: &mut Vec<AttributeValue>, name: String, value: String)
    ensures
        values_view(final(table)@) == table_insert(values_view(old(table)@), name@, value@),
        table_sorted(values_view(old(table)@)) ==> table_sorted(values_view(final(table)@)),
{
    proof {
        if table_sorted(values_view(table@)) {
            lemma_insert_keeps_sorted(values_view(table@), name@, value@);
        }
    }
    let ghost before = values_view(table@);
    let n = table.len();
    let mut at: usize = 0;
    while at < n && less_text(table[at].name.as_str(), name.as_str())
        invariant
            at <= n,
            n == table@.len(),
            before == values_view(table@),
            lower_bound(before, name@, 0) == lower_bound(before, name@, at as int),
        decreases n - at,
    {
        at = at + 1;
    }
    let entry = AttributeValue { name, value };
    if at < n && same_text(table[at].name.as_str(), entry.name.as_str()) {
        table.set(at, entry);
        assert(values_view(table@) =~= before.update(at as int, entry@));
    } else {
        table.insert(at, entry);
        assert(values_view(table@) =~= before.insert(at as int, entry@));
    }
}

} // verus!
