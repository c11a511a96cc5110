//! How the processes table orders its rows by a column.
use std::cmp::Ordering;
use vstd::prelude::*;
use vstd::std_specs::iter::IteratorSpec;

use crate::columns::SortOrder;
use crate::process::{float_order_key, sort_key, QueryProcess, QueryProcessesColumn, SortKey};

verus! {

broadcast use vstd::string::group_string_axioms;

/// Lexicographic order of character sequences: the first differing character
/// decides, and a proper prefix comes first. It is the order of `String`'s
/// `Ord`, which compares UTF-8 bytes, since UTF-8 preserves the order of code
/// points.
pub open spec fn text_order(a: Seq<char>, b: Seq<char>) -> Ordering
    decreases a.len(),
{
    if a.len() == 0 {
        if b.len() == 0 {
            Ordering::Equal
        } else {
            Ordering::Less
        }
    } else if b.len() == 0 {
        Ordering::Greater
    } else if a[0] < b[0] {
        Ordering::Less
    } else if b[0] < a[0] {
        Ordering::Greater
    } else {
        text_order(a.drop_first(), b.drop_first())
    }
}

/// The usual order of integers.
pub open spec fn number_order(a: int, b: int) -> Ordering {
    if a < b {
        Ordering::Less
    } else if a == b {
        Ordering::Equal
    } else {
        Ordering::Greater
    }
}

/// How two keys compare; `None` when the column has no key here.
pub open spec fn key_order(a: SortKey, b: SortKey) -> Option<Ordering> {
    match (a, b) {
        (SortKey::Text(x), SortKey::Text(y)) => Some(text_order(x, y)),
        (SortKey::Number(x), SortKey::Number(y)) => Some(number_order(x, y)),
        _ => None,
    }
}

/// How `column` orders `a` against `b`.
pub open spec fn column_order(a: crate::process::ProcessModel, b: crate::process::ProcessModel, column: QueryProcessesColumn) -> Option<Ordering> {
    key_order(sort_key(a, column), sort_key(b, column))
}

/// The ordering seen from the other side.
pub open spec fn flipped(o: Ordering) -> Ordering {
    match o {
        Ordering::Less => Ordering::Greater,
        Ordering::Equal => Ordering::Equal,
        Ordering::Greater => Ordering::Less,
    }
}

/// Compares two strings by `text_order`.
pub fn compare_text(a: &String, b: &String) -> (res: Ordering)
    ensures
        res == text_order(a@, b@),
{
    let mut left = a.as_str().chars();
    let mut right = b.as_str().chars();
    loop
        invariant
            left.obeys_prophetic_iter_laws(),
            right.obeys_prophetic_iter_laws(),
            left.decrease() is Some,
            text_order(left.remaining(), right.remaining()) == text_order(a@, b@),
        decreases left.decrease()->0,
    {
        let ghost l = left.remaining();
        let ghost r = right.remaining();
        let x = left.next();
        let y = right.next();
        match (x, y) {
            (None, None) => {
                return Ordering::Equal;
            },
            (None, Some(_)) => {
                return Ordering::Less;
            },
            (Some(_), None) => {
                return Ordering::Greater;
            },
            (Some(c), Some(d)) => {
                if c < d {
                    return Ordering::Less;
                } else if d < c {
                    return Ordering::Greater;
                }
                assert(text_order(l, r) == text_order(l.drop_first(), r.drop_first()));
            },
        }
    }
}

/// Compares two unsigned integers.
fn compare_u64(a: u64, b: u64) -> (res: Ordering)
    ensures
        res == (if a < b {
            Ordering::Less
        } else if a == b {
            Ordering::Equal
        } else {
            Ordering::Greater
        }),
{
    if a < b {
        Ordering::Less
    } else if a == b {
        Ordering::Equal
    } else {
        Ordering::Greater
    }
}

/// Compares two signed integers.
fn compare_i64(a: i64, b: i64) -> (res: Ordering)
    ensures
        res == (if a < b {
            Ordering::Less
        } else if a == b {
            Ordering::Equal
        } else {
            Ordering::Greater
        }),
{
    if a < b {
        Ordering::Less
    } else if a == b {
        Ordering::Equal
    } else {
        Ordering::Greater
    }
}

/// Compares two floats, given by their bit patterns, in IEEE 754 total order,
/// as `f64::total_cmp` does.
pub fn compare_float_bits(a: u64, b: u64) -> (res: Ordering)
    ensures
        res == number_order(float_order_key(a), float_order_key(b)),
{
    let a_negative = a >= 0x8000_0000_0000_0000u64;
    let b_negative = b >= 0x8000_0000_0000_0000u64;
    if a_negative != b_negative {
        if a_negative {
            Ordering::Less
        } else {
            Ordering::Greater
        }
    } else if a_negative {
        compare_u64(b, a)
    } else {
        compare_u64(a, b)
    }
}

impl QueryProcess {
    /// How the table orders this process against `other` by `column`; `None`
    /// for the columns ordered by floating-point rates (cpu, disk and network),
    /// which this library does not compute.
    pub fn cmp(&self, other: &QueryProcess, column: QueryProcessesColumn) -> (res: Option<Ordering>)
        ensures
            res == column_order(self@, other@, column),
    {
        match column {
            QueryProcessesColumn::HostName => Some(compare_text(&self.host_name, &other.host_name)),
            QueryProcessesColumn::SubQueries => Some(compare_u64(self.subqueries, other.subqueries)),
            QueryProcessesColumn::Cpu => None,
            QueryProcessesColumn::User => Some(compare_text(&self.user, &other.user)),
            QueryProcessesColumn::Threads => {
                let r = if self.threads < other.threads {
                    Ordering::Less
                } else if self.threads == other.threads {
                    Ordering::Equal
                } else {
                    Ordering::Greater
                };
                Some(r)
            },
            QueryProcessesColumn::Memory => Some(compare_i64(self.memory, other.memory)),
            QueryProcessesColumn::DiskIO => None,
            QueryProcessesColumn::NetIO => None,
            QueryProcessesColumn::Elapsed => Some(compare_float_bits(self.elapsed_bits, other.elapsed_bits)),
            QueryProcessesColumn::QueryId => Some(compare_text(&self.query_id, &other.query_id)),
            QueryProcessesColumn::Query => Some(compare_text(&self.normalized_query, &other.normalized_query)),
        }
    }
}


proof fn lemma_text_order_flip(a: Seq<char>, b: Seq<char>)
    ensures
        text_order(b, a) == flipped(text_order(a, b)),
    decreases a.len(),
{
    if a.len() > 0 && b.len() > 0 && a[0] == b[0] {
        lemma_text_order_flip(a.drop_first(), b.drop_first());
    }
}

proof fn lemma_text_order_equal(a: Seq<char>, b: Seq<char>)
    ensures
        (text_order(a, b) == Ordering::Equal) == (a == b),
    decreases a.len(),
{
    if a.len() > 0 && b.len() > 0 {
        lemma_text_order_equal(a.drop_first(), b.drop_first());
        assert(a =~= seq![a[0]] + a.drop_first());
        assert(b =~= seq![b[0]] + b.drop_first());
        if a == b {
            assert(a[0] == b[0]);
        }
    } else if a.len() == 0 && b.len() == 0 {
        assert(a =~= b);
    }
}

proof fn lemma_text_order_less_transitive(a: Seq<char>, b: Seq<char>, c: Seq<char>)
    requires
        text_order(a, b) == Ordering::Less,
        text_order(b, c) == Ordering::Less,
    ensures
        text_order(a, c) == Ordering::Less,
    decreases a.len(),
{
    if a.len() > 0 && b.len() > 0 && c.len() > 0 && a[0] == b[0] && b[0] == c[0] {
        lemma_text_order_less_transitive(a.drop_first(), b.drop_first(), c.drop_first());
    }
}

/// The order of a column is a total order on the column's keys: a process
/// compares `Equal` to itself (whatever its elapsed time, NaN included),
/// comparing the other way round gives the flipped result, `Equal` means
/// equal keys, and `Less` is transitive. The rate columns (cpu, disk, network) are the
/// ones without an order here, and an order is always defined for the others.
pub proof fn lemma_column_order_is_total(
    a: crate::process::ProcessModel,
    b: crate::process::ProcessModel,
    c: crate::process::ProcessModel,
    column: QueryProcessesColumn,
)
    ensures
        column_order(a, a, column) is Some ==> column_order(a, a, column) == Some(Ordering::Equal),
        (column_order(a, b, column) is None) == (column == QueryProcessesColumn::Cpu
            || column == QueryProcessesColumn::DiskIO || column == QueryProcessesColumn::NetIO),
        column_order(a, b, column) is Some ==> column_order(b, a, column) == Some(
            flipped(column_order(a, b, column)->0),
        ),
        column_order(a, b, column) is Some ==> ((column_order(a, b, column) == Some(Ordering::Equal))
            == (sort_key(a, column) == sort_key(b, column))),
        column_order(a, b, column) == Some(Ordering::Less) && column_order(b, c, column) == Some(
            Ordering::Less,
        ) ==> column_order(a, c, column) == Some(Ordering::Less),
{
    match (sort_key(a, column), sort_key(b, column), sort_key(c, column)) {
        (SortKey::Text(x), SortKey::Text(y), SortKey::Text(z)) => {
            lemma_text_order_equal(x, x);
            lemma_text_order_flip(x, y);
            lemma_text_order_equal(x, y);
            if text_order(x, y) == Ordering::Less && text_order(y, z) == Ordering::Less {
                lemma_text_order_less_transitive(x, y, z);
            }
        },
        _ => {},
    }
}


/// Text order, said directly: `a` comes before `b` when it is a proper
/// prefix of `b`, or when at the first position where they differ the
/// character of `a` is the smaller; `Greater` is the same the other way round.
pub proof fn lemma_text_order_meaning(a: Seq<char>, b: Seq<char>)
    ensures
        (text_order(a, b) == Ordering::Less) == ((a.len() < b.len() && forall|i: int|
            0 <= i < a.len() ==> a[i] == b[i]) || exists|k: int|
            0 <= k < a.len() && k < b.len() && (forall|i: int| 0 <= i < k ==> a[i] == b[i]) && #[trigger] a[k]
                < b[k]),
        (text_order(a, b) == Ordering::Greater) == (text_order(b, a) == Ordering::Less),
        (text_order(a, b) == Ordering::Equal) == (a == b),
    decreases a.len(),
{
    lemma_text_order_flip(a, b);
    lemma_text_order_equal(a, b);
    if a.len() > 0 && b.len() > 0 {
        let ta = a.drop_first();
        let tb = b.drop_first();
        lemma_text_order_meaning(ta, tb);
        let prefix = a.len() < b.len() && forall|i: int| 0 <= i < a.len() ==> a[i] == b[i];
        let differs = exists|k: int|
            0 <= k < a.len() && k < b.len() && (forall|i: int| 0 <= i < k ==> a[i] == b[i]) && #[trigger] a[k]
                < b[k];
        if a[0] == b[0] {
            let tprefix = ta.len() < tb.len() && forall|i: int| 0 <= i < ta.len() ==> ta[i] == tb[i];
            let tdiffers = exists|k: int|
                0 <= k < ta.len() && k < tb.len() && (forall|i: int| 0 <= i < k ==> ta[i] == tb[i])
                    && #[trigger] ta[k] < tb[k];
            if tprefix {
                assert forall|i: int| 0 <= i < a.len() implies a[i] == b[i] by {
                    if i > 0 {
                        assert(ta[i - 1] == tb[i - 1]);
                    }
                }
            }
            if prefix {
                assert forall|i: int| 0 <= i < ta.len() implies ta[i] == tb[i] by {
                    assert(a[i + 1] == b[i + 1]);
                }
            }
            if tdiffers {
                let k = choose|k: int|
                    0 <= k < ta.len() && k < tb.len() && (forall|i: int| 0 <= i < k ==> ta[i] == tb[i])
                        && #[trigger] ta[k] < tb[k];
                assert forall|i: int| 0 <= i < k + 1 implies a[i] == b[i] by {
                    if i > 0 {
                        assert(ta[i - 1] == tb[i - 1]);
                    }
                }
                assert(a[k + 1] < b[k + 1]);
            }
            if differs {
                let k = choose|k: int|
                    0 <= k < a.len() && k < b.len() && (forall|i: int| 0 <= i < k ==> a[i] == b[i])
                        && #[trigger] a[k] < b[k];
                assert(k > 0);
                assert forall|i: int| 0 <= i < k - 1 implies ta[i] == tb[i] by {
                    assert(a[i + 1] == b[i + 1]);
                }
                assert(ta[k - 1] < tb[k - 1]);
            }
        } else if a[0] < b[0] {
            assert(a[0] < b[0]);
        } else {
            if differs {
                let k = choose|k: int|
                    0 <= k < a.len() && k < b.len() && (forall|i: int| 0 <= i < k ==> a[i] == b[i])
                        && #[trigger] a[k] < b[k];
                if k > 0 {
                    assert(a[0] == b[0]);
                }
            }
            if prefix {
                assert(a[0] == b[0]);
            }
        }
    }
}

/// How each column orders two processes: by host name, user, query id or
/// normalized query in text order; by number of subqueries, thread count or
/// peak memory as numbers; by elapsed time in float total order; the rate
/// columns (cpu, disk, network) have no order here.
pub proof fn lemma_column_order_fields(
    a: crate::process::ProcessModel,
    b: crate::process::ProcessModel,
)
    ensures
        column_order(a, b, QueryProcessesColumn::HostName) == Some(text_order(a.host_name, b.host_name)),
        column_order(a, b, QueryProcessesColumn::User) == Some(text_order(a.user, b.user)),
        column_order(a, b, QueryProcessesColumn::QueryId) == Some(text_order(a.query_id, b.query_id)),
        column_order(a, b, QueryProcessesColumn::Query) == Some(
            text_order(a.normalized_query, b.normalized_query),
        ),
        column_order(a, b, QueryProcessesColumn::SubQueries) == Some(
            if a.subqueries < b.subqueries {
                Ordering::Less
            } else if a.subqueries == b.subqueries {
                Ordering::Equal
            } else {
                Ordering::Greater
            },
        ),
        column_order(a, b, QueryProcessesColumn::Threads) == Some(
            if a.threads < b.threads {
                Ordering::Less
            } else if a.threads == b.threads {
                Ordering::Equal
            } else {
                Ordering::Greater
            },
        ),
        column_order(a, b, QueryProcessesColumn::Memory) == Some(
            if a.memory < b.memory {
                Ordering::Less
            } else if a.memory == b.memory {
                Ordering::Equal
            } else {
                Ordering::Greater
            },
        ),
        column_order(a, b, QueryProcessesColumn::Elapsed) == Some(
            if float_order_key(a.elapsed_bits) < float_order_key(b.elapsed_bits) {
                Ordering::Less
            } else if a.elapsed_bits == b.elapsed_bits {
                Ordering::Equal
            } else {
                Ordering::Greater
            },
        ),
        column_order(a, b, QueryProcessesColumn::Cpu) is None,
        column_order(a, b, QueryProcessesColumn::DiskIO) is None,
        column_order(a, b, QueryProcessesColumn::NetIO) is None,
{
    lemma_float_order_key(a.elapsed_bits, b.elapsed_bits);
}

/// Float total order on bit patterns: values without the sign bit are
/// ordered by their bits, values with it by their bits reversed, every value
/// with the sign bit comes first, and only equal bits compare equal.
pub proof fn lemma_float_order_key(a: u64, b: u64)
    ensures
        a < 0x8000_0000_0000_0000 && b < 0x8000_0000_0000_0000 ==> (float_order_key(a)
            < float_order_key(b)) == (a < b),
        a >= 0x8000_0000_0000_0000 && b >= 0x8000_0000_0000_0000 ==> (float_order_key(a)
            < float_order_key(b)) == (b < a),
        a >= 0x8000_0000_0000_0000 && b < 0x8000_0000_0000_0000 ==> float_order_key(a) < float_order_key(b),
        (float_order_key(a) == float_order_key(b)) == (a == b),
{
}

/// A process compares `Equal` to itself in every column that the library
/// orders, whatever its elapsed time (NaN included); the rate columns (cpu,
/// disk, network) get no order here.
pub proof fn lemma_column_order_reflexive(a: crate::process::ProcessModel, column: QueryProcessesColumn)
    ensures
        column_order(a, a, column) == (if column == QueryProcessesColumn::Cpu || column
            == QueryProcessesColumn::DiskIO || column == QueryProcessesColumn::NetIO {
            None
        } else {
            Some(Ordering::Equal)
        }),
{
    lemma_column_order_is_total(a, a, a, column);
}

/// The `Ordering` by which a table is told to sort in `order`: `Less` for
/// ascending, `Greater` for descending.
pub fn sort_ordering(order: SortOrder) -> (res: Ordering)
    ensures
        res == (match order {
            SortOrder::Ascending => Ordering::Less,
            SortOrder::Descending => Ordering::Greater,
        }),
{
    match order {
        SortOrder::Ascending => Ordering::Less,
        SortOrder::Descending => Ordering::Greater,
    }
}

} // verus!
