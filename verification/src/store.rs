//! Rules of the store that do not need the database itself: the query that
//! lists entries, the seconds a finished entry is stored with, and which
//! schema migrations are still to run.

use vstd::prelude::*;
use crate::clock::{format_stamp, formatted_stamp, pattern_text, StampFormat};
use crate::models::stamp_ok;
use crate::text::{chars_of, push_text, string_of};

verus! {

/// A parameter of a query.
#[derive(Debug)]
pub enum SqlValue {
    Int(i64),
    Text(String),
}

/// The view of a parameter: an integer, or the characters of a text.
pub open spec fn value_view(v: SqlValue) -> Result<i64, Seq<char>> {
    match v {
        SqlValue::Int(n) => Ok(n),
        SqlValue::Text(t) => Err(t@),
    }
}

/// The views of a list of parameters.
pub open spec fn values_view(v: Seq<SqlValue>) -> Seq<Result<i64, Seq<char>>> {
    v.map_values(|x: SqlValue| value_view(x))
}

/// The query listing entries: of project `?` when one is given, starting
/// no earlier than `?` and no later than `?` when those are given, newest
/// first, and at most `?` of them when a limit is given.
pub open spec fn entries_sql(project: bool, from: bool, to: bool, limit: bool) -> Seq<char> {
    "SELECT id, uuid, project_id, description, start_time, end_time,\n                    duration_secs, billable, created_at, updated_at\n             FROM time_entries WHERE 1=1"@
        + (if project {
        " AND project_id = ?"@
    } else {
        Seq::<char>::empty()
    }) + (if from {
        " AND start_time >= ?"@
    } else {
        Seq::<char>::empty()
    }) + (if to {
        " AND start_time <= ?"@
    } else {
        Seq::<char>::empty()
    }) + " ORDER BY start_time DESC"@ + (if limit {
        " LIMIT ?"@
    } else {
        Seq::<char>::empty()
    })
}

/// The parameters of the entry listing, in the order of their `?`: the
/// project, the two bounds written as the store writes stamps, the limit.
pub open spec fn entries_params(
    project: Option<i64>,
    from: Option<i64>,
    to: Option<i64>,
    limit: Option<i64>,
) -> Seq<Result<i64, Seq<char>>> {
    (match project {
        Some(p) => seq![Ok(p)],
        None => Seq::empty(),
    }) + (match from {
        Some(t) => seq![Err(formatted_stamp(t, pattern_text(StampFormat::Stored)))],
        None => Seq::empty(),
    }) + (match to {
        Some(t) => seq![Err(formatted_stamp(t, pattern_text(StampFormat::Stored)))],
        None => Seq::empty(),
    }) + (match limit {
        Some(n) => seq![Ok(n)],
        None => Seq::empty(),
    })
}

/// The query and parameters that list entries.
pub fn entries_query(project: Option<i64>, from: Option<i64>, to: Option<i64>, limit: Option<i64>) -> (r: (
    String,
    Vec<SqlValue>,
))
    ensures
        r.0@ == entries_sql(project is Some, from is Some, to is Some, limit is Some),
        values_view(r.1@) == entries_params(project, from, to, limit),
{
    let mut sql = chars_of(
        "SELECT id, uuid, project_id, description, start_time, end_time,\n                    duration_secs, billable, created_at, updated_at\n             FROM time_entries WHERE 1=1",
    );
    let mut params: Vec<SqlValue> = Vec::new();
    let ghost p0 = params@;
    match project {
        Some(p) => {
            push_text(&mut sql, " AND project_id = ?");
            params.push(SqlValue::Int(p));
        },
        None => {},
    }
    let ghost p1 = params@;
    match from {
        Some(t) => {
            push_text(&mut sql, " AND start_time >= ?");
            params.push(SqlValue::Text(format_stamp(t, StampFormat::Stored)));
        },
        None => {},
    }
    let ghost p2 = params@;
    match to {
        Some(t) => {
            push_text(&mut sql, " AND start_time <= ?");
            params.push(SqlValue::Text(format_stamp(t, StampFormat::Stored)));
        },
        None => {},
    }
    let ghost p3 = params@;
    push_text(&mut sql, " ORDER BY start_time DESC");
    match limit {
        Some(n) => {
            push_text(&mut sql, " LIMIT ?");
            params.push(SqlValue::Int(n));
        },
        None => {},
    }
    proof {
        assert(sql@ =~= entries_sql(project is Some, from is Some, to is Some, limit is Some));
        assert(values_view(params@) =~= entries_params(project, from, to, limit));
    }
    (string_of(sql.as_slice()), params)
}

/// The seconds an entry is stored with: from its start to its end, when it
/// has ended.
pub fn stored_duration(start: i64, end: Option<i64>) -> (r: Option<i64>)
    requires
        stamp_ok(start),
        end matches Some(e) ==> stamp_ok(e),
    ensures
        r == match end {
            Some(e) => Some((e - start) as i64),
            None => None::<i64>,
        },
{
    match end {
        Some(e) => Some(e - start),
        None => None,
    }
}

/// The schema versions still to apply, in order, when the store is at
/// version `current` and `known` migrations exist (numbered from 1).
pub open spec fn pending(current: i64, known: nat) -> Seq<i64>
    decreases known,
{
    if known == 0 {
        Seq::empty()
    } else if known > current {
        pending(current, (known - 1) as nat).push(known as i64)
    } else {
        pending(current, (known - 1) as nat)
    }
}

/// The schema versions still to apply, in order.
pub fn pending_migrations(current: i64, known: u32) -> (r: Vec<i64>)
    ensures
        r@ == pending(current, known as nat),
{
    let mut r: Vec<i64> = Vec::new();
    let mut v: u32 = 0;
    while v < known
        invariant
            0 <= v <= known,
            r@ == pending(current, v as nat),
        decreases known - v,
    {
        v = v + 1;
        if (v as i64) > current {
            r.push(v as i64);
        }
    }
    r
}

/// Every pending version is newer than the store's, each comes once, and
/// they come in increasing order, up to the last known one.
pub proof fn law_pending_ascending(current: i64, known: nat)
    requires
        known <= i64::MAX,
    ensures
        forall|i: int| 0 <= i < pending(current, known).len() ==> current < #[trigger] pending(
            current,
            known,
        )[i] <= known,
        forall|i: int, j: int|
            0 <= i < j < pending(current, known).len() ==> pending(current, known)[i] < pending(
                current,
                known,
            )[j],
    decreases known,
{
    if known > 0 {
        let k1 = (known - 1) as nat;
        law_pending_ascending(current, k1);
        let prev = pending(current, k1);
        let all = pending(current, known);
        if known > current {
            assert(all == prev.push(known as i64));
            assert forall|i: int| 0 <= i < all.len() implies current < #[trigger] all[i] <= known by {
                if i < prev.len() {
                    assert(all[i] == prev[i]);
                }
            }
            assert forall|i: int, j: int| 0 <= i < j < all.len() implies all[i] < all[j] by {
                assert(all[i] == prev[i]);
                if j < prev.len() {
                    assert(all[j] == prev[j]);
                }
            }
        } else {
            assert(all == prev);
        }
    }
}

} // verus!
