use vstd::prelude::*;

use crate::decimal::{decimal_i64, decimal_u16, parse_i64, parse_u16};
use crate::text::{has_prefix, split_spec, split_text, starts_with};

verus! {

/// Paging options of the listing operations, read from a query string.
#[derive(Debug, Clone, Copy, PartialEq, Eq, Structural)]
pub struct QueryOptions {
    pub limit: Option<u16>,
    pub from_server_id: Option<i64>,
}

impl QueryOptions {
    /// Both options unset.
    pub open spec fn unset() -> QueryOptions {
        QueryOptions { limit: None, from_server_id: None }
    }
}

/// Applies one `key=value` pair to the options read so far. Only the keys `limit`
/// and `from_server_id` are accepted, each at most once, and the value must be
/// a decimal integer of the field's type.
pub open spec fn apply_pair(o: QueryOptions, pair: Seq<char>) -> Option<QueryOptions> {
    if starts_with(pair, "limit="@) {
        match decimal_u16(pair.subrange("limit="@.len() as int, pair.len() as int)) {
            Some(v) => if o.limit is None {
                Some(QueryOptions { limit: Some(v), ..o })
            } else {
                None
            },
            None => None,
        }
    } else if starts_with(pair, "from_server_id="@) {
        match decimal_i64(pair.subrange("from_server_id="@.len() as int, pair.len() as int)) {
            Some(v) => if o.from_server_id is None {
                Some(QueryOptions { from_server_id: Some(v), ..o })
            } else {
                None
            },
            None => None,
        }
    } else {
        None
    }
}

/// Applies the pairs in order, starting from unset options.
pub open spec fn apply_pairs(pairs: Seq<Seq<char>>) -> Option<QueryOptions>
    decreases pairs.len(),
{
    if pairs.len() == 0 {
        Some(QueryOptions::unset())
    } else {
        match apply_pairs(pairs.drop_last()) {
            Some(o) => apply_pair(o, pairs.last()),
            None => None,
        }
    }
}

/// The options that a query string gives: the empty query sets nothing; any other
/// is a list of pairs joined by `&`. `None` where the query is not of that form.
pub open spec fn query_options_of(q: Seq<char>) -> Option<QueryOptions> {
    if q.len() == 0 {
        Some(QueryOptions::unset())
    } else {
        apply_pairs(split_spec(q, '&'))
    }
}

fn decode_pair(o: QueryOptions, pair: &str) -> (r: Option<QueryOptions>)
    ensures
        r == apply_pair(o, pair@),
{
    let n = pair.unicode_len();
    if has_prefix(pair, "limit=") {
        let k = "limit=".unicode_len();
        match parse_u16(pair.substring_char(k, n)) {
            Some(v) => if o.limit.is_none() {
                Some(QueryOptions { limit: Some(v), ..o })
            } else {
                None
            },
            None => None,
        }
    } else if has_prefix(pair, "from_server_id=") {
        let k = "from_server_id=".unicode_len();
        match parse_i64(pair.substring_char(k, n)) {
            Some(v) => if o.from_server_id.is_none() {
                Some(QueryOptions { from_server_id: Some(v), ..o })
            } else {
                None
            },
            None => None,
        }
    } else {
        None
    }
}

/// Reads the paging options from a query string.
pub fn decode_query(q: &str) -> (r: Option<QueryOptions>)
    ensures
        r == query_options_of(q@),
{
    if q.unicode_len() == 0 {
        return Some(QueryOptions { limit: None, from_server_id: None });
    }
    let pairs = split_text(q, '&');
    let ghost ps = pairs@.map_values(|x: String| x@);
    let mut o = QueryOptions { limit: None, from_server_id: None };
    let mut i: usize = 0;
    proof {
        assert(ps.subrange(0, 0) =~= Seq::<Seq<char>>::empty());
    }
    while i < pairs.len()
        invariant
            ps == pairs@.map_values(|x: String| x@),
            ps == split_spec(q@, '&'),
            q@.len() != 0,
            i <= pairs.len(),
            apply_pairs(ps.subrange(0, i as int)) == Some(o),
        decreases pairs.len() - i,
    {
        proof {
            assert(ps.subrange(0, i + 1).drop_last() =~= ps.subrange(0, i as int));
            assert(ps.subrange(0, i + 1).last() == pairs@[i as int]@);
        }
        match decode_pair(o, pairs[i].as_str()) {
            Some(next) => {
                o = next;
            },
            None => {
                proof {
                    assert(apply_pairs(ps.subrange(0, i + 1)) is None);
                    lemma_rejected_stays_rejected(ps, i as int + 1);
                    assert(ps.subrange(0, ps.len() as int) =~= ps);
                }
                return None;
            },
        }
        i += 1;
    }
    proof {
        assert(ps.subrange(0, pairs.len() as int) =~= ps);
    }
    Some(o)
}

proof fn lemma_rejected_stays_rejected(ps: Seq<Seq<char>>, k: int)
    requires
        0 <= k <= ps.len(),
        apply_pairs(ps.subrange(0, k)) is None,
    ensures
        apply_pairs(ps.subrange(0, ps.len() as int)) is None,
    decreases ps.len() - k,
{
    if k < ps.len() {
        assert(ps.subrange(0, k + 1).drop_last() =~= ps.subrange(0, k));
        lemma_rejected_stays_rejected(ps, k + 1);
    }
}

} // verus!
