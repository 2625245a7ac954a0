//! The statements that ask a relational store for what the store's
//! operations describe: their text, and the values of their parameters.

use crate::error::{RepositoryError, RepositoryErrorView};
use crate::persistence::{filter_not_text, filters_compare_text};
use crate::state::{filter_text, filters_are_text};
use crate::types::{ExtractorBinding, ExtractorBindingView, ExtractorFilter, ExtractorFilterView};
use crate::views::{lemma_deep_view_push, lemma_take_all, lemma_take_next};
use vstd::prelude::*;
use vstd::string::StringExecFns;

verus! {

/// A statement with numbered parameters `$1`, `$2`, and so on, and the
/// value of each parameter.
#[derive(Debug)]
pub struct Statement {
    pub sql: String,
    pub values: Vec<String>,
}

/// What a [`Statement`] holds.
pub struct StatementView {
    pub sql: Seq<char>,
    pub values: Seq<Seq<char>>,
}

impl DeepView for Statement {
    type V = StatementView;

    open spec fn deep_view(&self) -> StatementView {
        StatementView { sql: self.sql@, values: self.values.deep_view() }
    }
}

/// The ten decimal digits.
pub open spec fn decimal_digits() -> Seq<char> {
    seq!['0', '1', '2', '3', '4', '5', '6', '7', '8', '9']
}

/// A number in decimal digits, without leading zeros.
pub open spec fn decimal(n: nat) -> Seq<char>
    decreases n,
{
    if n < 10 {
        seq![decimal_digits()[n as int]]
    } else {
        decimal(n / 10).push(decimal_digits()[(n % 10) as int])
    }
}

/// The parameter with a number, as it stands in a statement.
pub open spec fn placeholder(n: nat) -> Seq<char> {
    "$"@ + decimal(n)
}

/// The condition that a filter adds to a statement, where `first` is the
/// number of the parameter for the filter's field and the next number that
/// of the parameter for the string it compares with.
pub open spec fn filter_clause(filter: ExtractorFilterView, first: nat) -> Seq<char> {
    match filter {
        ExtractorFilterView::Eq { field, value } => " and metadata->>"@ + placeholder(first)
            + " = "@ + placeholder(first + 1),
        ExtractorFilterView::Neq { field, value } => " and metadata->>"@ + placeholder(first)
            + " != "@ + placeholder(first + 1),
    }
}

/// The conditions that a list of filters adds to a statement, where the
/// first filter's parameters start at the number `first`.
pub open spec fn filter_clauses(filters: Seq<ExtractorFilterView>, first: nat) -> Seq<char>
    decreases filters.len(),
{
    if filters.len() == 0 {
        Seq::empty()
    } else {
        filter_clauses(filters.drop_last(), first) + filter_clause(
            filters.last(),
            first + 2 * (filters.len() - 1) as nat,
        )
    }
}

/// The field of a filter.
pub open spec fn filter_field(filter: ExtractorFilterView) -> Seq<char> {
    match filter {
        ExtractorFilterView::Eq { field, value } => field,
        ExtractorFilterView::Neq { field, value } => field,
    }
}

/// The values of the parameters of a list of filters: for each filter its
/// field, then the string it compares with.
pub open spec fn filter_values(filters: Seq<ExtractorFilterView>) -> Seq<Seq<char>>
    decreases filters.len(),
{
    if filters.len() == 0 {
        Seq::empty()
    } else {
        filter_values(filters.drop_last()).push(filter_field(filters.last())).push(
            filter_text(filters.last())->0,
        )
    }
}

/// The start of the statement that selects the content of a repository to
/// which the extractor of a binding was not applied.
pub open spec fn unapplied_head() -> Seq<char> {
    "select * from content where repository_id=$1 and COALESCE(cast(extractor_bindings_state->'state'->>$2 as int),0) < 1"@
}

/// The statement that selects the content of a repository that the
/// extractor of a binding still has to be applied to.
pub open spec fn unapplied_statement(
    repository: Seq<char>,
    binding: ExtractorBindingView,
    content_id: Option<Seq<char>>,
) -> StatementView {
    match content_id {
        Some(id) => StatementView {
            sql: unapplied_head() + " and id = $3"@ + filter_clauses(binding.filters, 4),
            values: seq![repository, binding.id, id] + filter_values(binding.filters),
        },
        None => StatementView {
            sql: unapplied_head() + filter_clauses(binding.filters, 3),
            values: seq![repository, binding.id] + filter_values(binding.filters),
        },
    }
}

fn decimal_digit(d: u128) -> (s: &'static str)
    requires
        d < 10,
    ensures
        s@ == seq![decimal_digits()[d as int]],
{
    proof {
        reveal_strlit("0");
        reveal_strlit("1");
        reveal_strlit("2");
        reveal_strlit("3");
        reveal_strlit("4");
        reveal_strlit("5");
        reveal_strlit("6");
        reveal_strlit("7");
        reveal_strlit("8");
        reveal_strlit("9");
    }
    let s = if d == 0 {
        "0"
    } else if d == 1 {
        "1"
    } else if d == 2 {
        "2"
    } else if d == 3 {
        "3"
    } else if d == 4 {
        "4"
    } else if d == 5 {
        "5"
    } else if d == 6 {
        "6"
    } else if d == 7 {
        "7"
    } else if d == 8 {
        "8"
    } else {
        "9"
    };
    assert(s@ =~= seq![decimal_digits()[d as int]]);
    s
}

/// Writes a number in decimal digits, without leading zeros.
pub fn to_decimal(n: u128) -> (text: String)
    ensures
        text@ == decimal(n as nat),
{
    let mut text = String::from_str(decimal_digit(n % 10));
    let mut rest: u128 = n / 10;
    while rest > 0
        invariant
            decimal(n as nat) == (if rest == 0 {
                text@
            } else {
                decimal(rest as nat) + text@
            }),
        decreases rest,
    {
        let digit = decimal_digit(rest % 10);
        let ghost before = text@;
        text = String::from_str(digit).concat(text.as_str());
        proof {
            if rest >= 10 {
                assert(decimal(rest as nat) + before =~= decimal((rest / 10) as nat) + text@);
            } else {
                assert(decimal(rest as nat) + before =~= text@);
            }
        }
        rest = rest / 10;
    }
    text
}

/// The parameter with a number, as it stands in a statement.
pub fn to_placeholder(n: u128) -> (text: String)
    ensures
        text@ == placeholder(n as nat),
{
    String::from_str("$").concat(to_decimal(n).as_str())
}

/// The statement that selects, in a relational store, the content of a
/// repository that the extractor of a binding still has to be applied to:
/// the rows of the repository whose marker for the binding is absent or
/// below one, where an item is named that item alone, and with one
/// condition on the metadata for each filter. A filter that compares with
/// anything but a string is refused.
pub fn unapplied_content_statement(
    repo_id: &str,
    extractor_binding: &ExtractorBinding,
    content_id: Option<&str>,
) -> (result: Result<Statement, RepositoryError>)
    ensures
        result is Ok == filters_are_text(extractor_binding.deep_view().filters),
        result is Ok ==> result->Ok_0.deep_view() == unapplied_statement(
            repo_id@,
            extractor_binding.deep_view(),
            content_id.deep_view(),
        ),
        result is Err ==> result->Err_0.deep_view() == RepositoryErrorView::LogicError(
            filter_not_text(),
        ),
{
    if !filters_compare_text(&extractor_binding.filters) {
        return Err(RepositoryError::LogicError(String::from_str("filter value is not a string")));
    }
    let ghost filters = extractor_binding.filters.deep_view();
    let mut values: Vec<String> = Vec::new();
    values.push(String::from_str(repo_id));
    values.push(extractor_binding.id.clone());
    let mut sql = String::from_str(
        "select * from content where repository_id=$1 and COALESCE(cast(extractor_bindings_state->'state'->>$2 as int),0) < 1",
    );
    let mut first: u128 = 3;
    match content_id {
        Some(id) => {
            values.push(String::from_str(id));
            sql.append(" and id = $3");
            first = 4;
        },
        None => {},
    }
    let ghost head = sql@;
    let ghost fixed = values.deep_view();
    let ghost start = first as nat;
    proof {
        match content_id {
            Some(id) => {
                assert(fixed =~= seq![repo_id@, extractor_binding.id@, id@]);
            },
            None => {
                assert(fixed =~= seq![repo_id@, extractor_binding.id@]);
            },
        }
        assert(filters.take(0) =~= Seq::empty());
        assert(head + filter_clauses(filters.take(0), start) =~= head);
        assert(fixed + filter_values(filters.take(0)) =~= fixed);
    }
    let mut i: usize = 0;
    while i < extractor_binding.filters.len()
        invariant
            i <= extractor_binding.filters.len(),
            filters == extractor_binding.filters.deep_view(),
            filters_are_text(filters),
            start == 3 || start == 4,
            first == start + 2 * i,
            sql@ == head + filter_clauses(filters.take(i as int), start),
            values.deep_view() == fixed + filter_values(filters.take(i as int)),
        decreases extractor_binding.filters.len() - i,
    {
        proof {
            lemma_take_next(filters, i as int);
            assert(filter_text(filters[i as int]) is Some);
        }
        let ghost text_before = sql@;
        let ghost values_before = values.deep_view();
        match &extractor_binding.filters[i] {
            ExtractorFilter::Eq { field, value } => {
                let wanted = match value.as_str() {
                    Some(text) => String::from_str(text),
                    None => String::new(),
                };
                let ghost listed = values;
                values.push(field.clone());
                let ghost with_field = values;
                values.push(wanted);
                proof {
                    lemma_deep_view_push(listed, with_field, *field);
                    lemma_deep_view_push(with_field, values, wanted);
                }
                sql.append(" and metadata->>");
                sql.append(to_placeholder(first).as_str());
                sql.append(" = ");
                sql.append(to_placeholder(first + 1).as_str());
            },
            ExtractorFilter::Neq { field, value } => {
                let wanted = match value.as_str() {
                    Some(text) => String::from_str(text),
                    None => String::new(),
                };
                let ghost listed = values;
                values.push(field.clone());
                let ghost with_field = values;
                values.push(wanted);
                proof {
                    lemma_deep_view_push(listed, with_field, *field);
                    lemma_deep_view_push(with_field, values, wanted);
                }
                sql.append(" and metadata->>");
                sql.append(to_placeholder(first).as_str());
                sql.append(" != ");
                sql.append(to_placeholder(first + 1).as_str());
            },
        }
        proof {
            let clause = filter_clause(filters[i as int], first as nat);
            assert(sql@ =~= text_before + clause);
            assert(sql@ =~= head + filter_clauses(filters.take(i as int + 1), start));
            assert(values.deep_view() =~= fixed + filter_values(filters.take(i as int + 1)));
        }
        first = first + 2;
        i = i + 1;
    }
    proof {
        lemma_take_all(filters);
    }
    Ok(Statement { sql, values })
}

/// The statement that marks, in a relational store, the extractor of a
/// binding as applied to a content item: it sets the item's marker for the
/// binding to one and touches no other marker.
pub fn mark_content_statement(content_id: &str, binding_id: &str) -> (statement: Statement)
    ensures
        statement.deep_view() == (StatementView {
            sql: "update content set extractor_bindings_state['state'][$2] = '1' where id=$1"@,
            values: seq![content_id@, binding_id@],
        }),
{
    let mut values: Vec<String> = Vec::new();
    values.push(String::from_str(content_id));
    values.push(String::from_str(binding_id));
    assert(values.deep_view() =~= seq![content_id@, binding_id@]);
    Statement {
        sql: String::from_str(
            "update content set extractor_bindings_state['state'][$2] = '1' where id=$1",
        ),
        values,
    }
}

/// The statement that selects, in a relational store, the repositories
/// that declare a binding with an identifier.
pub fn binding_statement(id: &str) -> (statement: Statement)
    ensures
        statement.deep_view() == (StatementView {
            sql: "select name, metadata, data_connectors, extractor_bindings  from data_repository, jsonb_each(data_repository.extractor_bindings) binding_ids where binding_ids.key = $1"@,
            values: seq![id@],
        }),
{
    let mut values: Vec<String> = Vec::new();
    values.push(String::from_str(id));
    assert(values.deep_view() =~= seq![id@]);
    Statement {
        sql: String::from_str(
            "select name, metadata, data_connectors, extractor_bindings  from data_repository, jsonb_each(data_repository.extractor_bindings) binding_ids where binding_ids.key = $1",
        ),
        values,
    }
}

} // verus!
