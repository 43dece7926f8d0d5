//! The query language of the accounting API: one `SELECT` with a page
//! window and, if asked for, a filter and an order.

use crate::constants::MAX_QUERY_LENGTH;
use crate::error::Error;
use crate::error::Precondition;
use crate::text::contains_in_order;
use crate::text::decimal;
use crate::text::decimal_string;
use crate::text::join;
use crate::text::lemma_join_stands_in_order;
use crate::types::config::QueryConfig;
use crate::types::config::QueryView;
use vstd::prelude::*;

verus! {

/// The query that asks for the company's own record.
pub const COMPANY_INFO_QUERY: &'static str = "SELECT * FROM CompanyInfo";

/// The page size that is asked for: what the caller wants, but never more
/// than the service allows.
pub open spec fn page_size(max_results: nat) -> nat {
    if max_results <= MAX_QUERY_LENGTH {
        max_results
    } else {
        MAX_QUERY_LENGTH as nat
    }
}

/// The page size that is written never exceeds the service's maximum, and
/// is what the caller asked for whenever that is within the maximum.
pub proof fn lemma_page_size_within_limit(max_results: nat)
    ensures
        page_size(max_results) <= MAX_QUERY_LENGTH,
        page_size(max_results) <= max_results,
        max_results <= MAX_QUERY_LENGTH ==> page_size(max_results) == max_results,
{
}

/// A clause of a query: the keyword and the text, or nothing.
pub open spec fn clause(keyword: Seq<char>, text: Option<Seq<char>>) -> Seq<char> {
    match text {
        Some(text) => keyword + text,
        None => Seq::empty(),
    }
}

/// The text of a query for the resource `key`:
///
/// ```text
/// SELECT * FROM <key> MAXRESULTS <n> STARTPOSITION <p>[ WHERE <w>][ ORDERBY <o>]
/// ```
///
/// The key and both clauses stand in it as given.
pub open spec fn query_text(key: Seq<char>, query: QueryView) -> Seq<char> {
    "SELECT * FROM "@ + key + " MAXRESULTS "@ + decimal(page_size(query.max_results))
        + " STARTPOSITION "@ + decimal(query.start_position) + clause(
        " WHERE "@,
        query.where_clause,
    ) + clause(" ORDERBY "@, query.order_by)
}

/// A phrase of a query, if it is asked for: the keyword and the text.
pub open spec fn phrase(keyword: Seq<char>, text: Option<Seq<char>>) -> Seq<Seq<char>> {
    match text {
        Some(text) => seq![keyword + text],
        None => Seq::empty(),
    }
}

/// The phrases of a query, in the order they are written in.
pub open spec fn query_phrases(key: Seq<char>, query: QueryView) -> Seq<Seq<char>> {
    seq![
        "SELECT * FROM "@ + key,
        "MAXRESULTS "@ + decimal(page_size(query.max_results)),
        "STARTPOSITION "@ + decimal(query.start_position),
    ] + phrase("WHERE "@, query.where_clause) + phrase("ORDERBY "@, query.order_by)
}

/// The text of a query is its phrases with one space between each two.
pub proof fn lemma_query_text_is_joined(key: Seq<char>, query: QueryView)
    ensures
        query_text(key, query) == join(query_phrases(key, query), " "@),
{
    reveal_strlit(" ");
    reveal_strlit(" MAXRESULTS ");
    reveal_strlit("MAXRESULTS ");
    reveal_strlit(" STARTPOSITION ");
    reveal_strlit("STARTPOSITION ");
    reveal_strlit(" WHERE ");
    reveal_strlit("WHERE ");
    reveal_strlit(" ORDERBY ");
    reveal_strlit("ORDERBY ");
    let sep = " "@;
    let first = seq![
        "SELECT * FROM "@ + key,
        "MAXRESULTS "@ + decimal(page_size(query.max_results)),
        "STARTPOSITION "@ + decimal(query.start_position),
    ];
    let with_where = first + phrase("WHERE "@, query.where_clause);
    let all = with_where + phrase("ORDERBY "@, query.order_by);
    let head = "SELECT * FROM "@ + key + " MAXRESULTS "@ + decimal(page_size(query.max_results))
        + " STARTPOSITION "@ + decimal(query.start_position);
    assert(join(first, sep) =~= head) by {
        reveal_with_fuel(join, 4);
    }
    assert(join(with_where, sep) =~= head + clause(" WHERE "@, query.where_clause)) by {
        if query.where_clause is Some {
            assert(with_where.drop_last() =~= first);
        }
    }
    assert(join(all, sep) =~= head + clause(" WHERE "@, query.where_clause) + clause(
        " ORDERBY "@,
        query.order_by,
    )) by {
        if query.order_by is Some {
            assert(all.drop_last() =~= with_where);
        }
    }
}

/// Every query holds, in this order and apart from each other: the
/// selection from its resource, the page size, the start position, then
/// the filter if there is one, then the order if there is one.
pub proof fn lemma_query_text_in_order(key: Seq<char>, query: QueryView)
    ensures
        contains_in_order(
            query_text(key, query),
            seq![
                "SELECT * FROM "@ + key,
                "MAXRESULTS "@ + decimal(page_size(query.max_results)),
                "STARTPOSITION "@ + decimal(query.start_position),
            ] + phrase("WHERE "@, query.where_clause) + phrase("ORDERBY "@, query.order_by),
        ),
{
    lemma_query_text_is_joined(key, query);
    lemma_join_stands_in_order(query_phrases(key, query), " "@);
}

/// Writes the query for the resource `key`.
///
/// Position zero is refused. A page size above the service's maximum is
/// lowered to that maximum.
pub fn build_query_string(key: &str, config: &QueryConfig) -> (built: Result<String, Error>)
    ensures
        config.start_position == 0 ==> built == Err::<String, Error>(
            Error::Precondition(Precondition::StartPosition),
        ),
        config.start_position >= 1 ==> built is Ok && built->Ok_0@ == query_text(
            key@,
            config@,
        ),
{
    if config.start_position == 0 {
        return Err(Error::Precondition(Precondition::StartPosition));
    }
    let page: usize = if config.max_results <= MAX_QUERY_LENGTH {
        config.max_results
    } else {
        MAX_QUERY_LENGTH
    };
    let mut text = String::from_str("SELECT * FROM ");
    text.append(key);
    text.append(" MAXRESULTS ");
    text.append(decimal_string(page).as_str());
    text.append(" STARTPOSITION ");
    text.append(decimal_string(config.start_position).as_str());
    match config.where_clause {
        Some(filter) => {
            text.append(" WHERE ");
            text.append(filter);
        },
        None => {},
    }
    match config.order_by {
        Some(order) => {
            text.append(" ORDERBY ");
            text.append(order);
        },
        None => {},
    }
    Ok(text)
}

} // verus!
