//! Statements as the database driver takes them.

use crate::statement::{Param, ParamView, Statement};
use vstd::prelude::*;

verus! {

#[verifier::external_type_specification]
#[verifier::external_body]
pub struct ExQuery(neo4rs::Query);

/// The Cypher text that a driver query holds.
pub uninterp spec fn query_text(query: neo4rs::Query) -> Seq<char>;

/// The parameters of a driver query that are bound to integers, by name.
pub uninterp spec fn query_integers(query: neo4rs::Query) -> Map<Seq<char>, int>;

/// The parameters of a driver query that are bound to texts, by name.
pub uninterp spec fn query_texts(query: neo4rs::Query) -> Map<Seq<char>, Seq<char>>;

/// No parameter of the query is bound.
pub open spec fn unbound(query: neo4rs::Query) -> bool {
    &&& query_integers(query) == Map::<Seq<char>, int>::empty()
    &&& query_texts(query) == Map::<Seq<char>, Seq<char>>::empty()
}

/// Calls `neo4rs::query`, which makes a query of the text with no parameter
/// bound. Trusted, not proved.
#[verifier::external_body]
fn query_of_text(text: &str) -> (made: neo4rs::Query)
    ensures
        query_text(made) == text@,
        unbound(made),
{
    neo4rs::query(text)
}

/// Calls `neo4rs::Query::param` with an integer, which binds `name` to it
/// in place of whatever `name` was bound to; text and other parameters stay.
/// Trusted, not proved.
#[verifier::external_body]
fn with_integer(query: neo4rs::Query, name: &str, value: i64) -> (bound: neo4rs::Query)
    ensures
        query_text(bound) == query_text(query),
        query_integers(bound) == query_integers(query).insert(name@, value as int),
        query_texts(bound) == query_texts(query).remove(name@),
{
    query.param(name, value)
}

/// Calls `neo4rs::Query::param` with a text, which binds `name` to it in
/// place of whatever `name` was bound to; text and other parameters stay.
/// Trusted, not proved.
#[verifier::external_body]
fn with_text(query: neo4rs::Query, name: &str, value: &str) -> (bound: neo4rs::Query)
    ensures
        query_text(bound) == query_text(query),
        query_integers(bound) == query_integers(query).remove(name@),
        query_texts(bound) == query_texts(query).insert(name@, value@),
{
    query.param(name, value)
}

/// The integers that `params` bind when they are bound in order: a later
/// binding of a name replaces an earlier one.
pub open spec fn integers_in(params: Seq<(Seq<char>, ParamView)>) -> Map<Seq<char>, int>
    decreases params.len(),
{
    if params.len() == 0 {
        Map::empty()
    } else {
        let before = integers_in(params.drop_last());
        match params.last().1 {
            ParamView::Integer(value) => before.insert(params.last().0, value),
            ParamView::Text(_) => before.remove(params.last().0),
        }
    }
}

/// The texts that `params` bind when they are bound in order.
pub open spec fn texts_in(params: Seq<(Seq<char>, ParamView)>) -> Map<Seq<char>, Seq<char>>
    decreases params.len(),
{
    if params.len() == 0 {
        Map::empty()
    } else {
        let before = texts_in(params.drop_last());
        match params.last().1 {
            ParamView::Integer(_) => before.remove(params.last().0),
            ParamView::Text(value) => before.insert(params.last().0, value),
        }
    }
}

/// The driver's query for a statement: its text, and each of its parameters
/// bound under its name.
pub fn query_for(statement: &Statement) -> (query: neo4rs::Query)
    ensures
        query_text(query) == statement@.text,
        query_integers(query) == integers_in(statement@.params),
        query_texts(query) == texts_in(statement@.params),
{
    let mut query = query_of_text(statement.text.as_str());
    let mut i: usize = 0;
    while i < statement.params.len()
        invariant
            i <= statement.params.len(),
            query_text(query) == statement@.text,
            query_integers(query) == integers_in(statement@.params.take(i as int)),
            query_texts(query) == texts_in(statement@.params.take(i as int)),
        decreases statement.params.len() - i,
    {
        proof {
            let bound = statement@.params.take(i + 1);
            assert(bound.drop_last() =~= statement@.params.take(i as int));
            assert(bound.last() == (statement.params@[i as int].0@, statement.params@[i as int].1@));
        }
        let name = statement.params[i].0.as_str();
        query = match &statement.params[i].1 {
            Param::Integer(value) => with_integer(query, name, *value),
            Param::Text(value) => with_text(query, name, value.as_str()),
        };
        i = i + 1;
    }
    assert(statement@.params.take(i as int) =~= statement@.params);
    query
}

} // verus!
