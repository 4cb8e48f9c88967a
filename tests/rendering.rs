// sea_query renders a whole statement only through a type that implements
// its builder traits; this one hands each dialect hook to the library.

use clickhouse_query::{ClickHouseQueryBuilder, DistinctClause, VendorOperator};
use sea_query::extension::postgres::PgBinOper;
use sea_query::{
    Alias, BinOper, Condition, Expr, Query, EscapeBuilder, Oper, OperLeftAssocDecider, PostgresQueryBuilder, PrecedenceDecider,
    QueryBuilder, Quote, QuotedBuilder, SelectDistinct, SimpleExpr, SqlWriter, SubQueryStatement,
    TableRefBuilder, Value,
};

/// The dialect as a sea_query backend.
#[derive(Debug, Clone, Copy, Default)]
pub struct ClickHouseDialect;

const HOOKS: ClickHouseQueryBuilder = ClickHouseQueryBuilder;

fn vendor_operator(op: &PgBinOper) -> Option<VendorOperator> {
    match op {
        PgBinOper::ILike => Some(VendorOperator::ILike),
        PgBinOper::NotILike => Some(VendorOperator::NotILike),
        PgBinOper::Matches => Some(VendorOperator::Matches),
        PgBinOper::Contains => Some(VendorOperator::Contains),
        PgBinOper::Contained => Some(VendorOperator::Contained),
        PgBinOper::Concatenate => Some(VendorOperator::Concatenate),
        PgBinOper::Similarity => Some(VendorOperator::Similarity),
        PgBinOper::WordSimilarity => Some(VendorOperator::WordSimilarity),
        PgBinOper::StrictWordSimilarity => Some(VendorOperator::StrictWordSimilarity),
        PgBinOper::SimilarityDistance => Some(VendorOperator::SimilarityDistance),
        PgBinOper::WordSimilarityDistance => Some(VendorOperator::WordSimilarityDistance),
        PgBinOper::StrictWordSimilarityDistance => {
            Some(VendorOperator::StrictWordSimilarityDistance)
        }
        _ => None,
    }
}

impl QuotedBuilder for ClickHouseDialect {
    fn quote(&self) -> Quote {
        Quote::new(HOOKS.quote() as u8)
    }
}

impl EscapeBuilder for ClickHouseDialect {}

impl TableRefBuilder for ClickHouseDialect {}

impl PrecedenceDecider for ClickHouseDialect {
    fn inner_expr_well_known_greater_precedence(&self, inner: &SimpleExpr, outer_oper: &Oper) -> bool {
        PostgresQueryBuilder.inner_expr_well_known_greater_precedence(inner, outer_oper)
    }
}

impl OperLeftAssocDecider for ClickHouseDialect {
    fn well_known_left_associative(&self, op: &BinOper) -> bool {
        PostgresQueryBuilder.well_known_left_associative(op)
    }
}

impl QueryBuilder for ClickHouseDialect {
    fn placeholder(&self) -> (&str, bool) {
        HOOKS.placeholder()
    }

    fn prepare_select_distinct(&self, select_distinct: &SelectDistinct, sql: &mut dyn SqlWriter) {
        let clause = match select_distinct {
            SelectDistinct::All => DistinctClause::All,
            SelectDistinct::Distinct => DistinctClause::Distinct,
            SelectDistinct::DistinctRow => DistinctClause::DistinctRow,
            SelectDistinct::DistinctOn(cols) => DistinctClause::DistinctOn(
                cols.iter()
                    .map(|column_ref| {
                        let mut text = String::new();
                        self.prepare_column_ref(column_ref, &mut text);
                        text
                    })
                    .collect(),
            ),
        };
        let mut text = String::new();
        HOOKS.prepare_select_distinct(&clause, &mut text);
        sql.write_str(&text).unwrap();
    }

    fn prepare_bin_oper(&self, bin_oper: &BinOper, sql: &mut dyn SqlWriter) {
        match bin_oper {
            BinOper::PgOperator(op) => match vendor_operator(op) {
                Some(vendor) => {
                    let mut text = String::new();
                    HOOKS.prepare_bin_oper(&vendor, &mut text);
                    sql.write_str(&text).unwrap();
                }
                None => PostgresQueryBuilder.prepare_bin_oper(bin_oper, sql),
            },
            _ => self.prepare_bin_oper_common(bin_oper, sql),
        }
    }

    fn prepare_query_statement(&self, _: &SubQueryStatement, sql: &mut dyn SqlWriter) {
        let mut text = String::new();
        HOOKS.prepare_query_statement(&mut text);
        sql.write_str(&text).unwrap();
    }

    fn prepare_value(&self, value: &Value, sql: &mut dyn SqlWriter) {
        sql.push_param(value.clone(), self as _);
    }

    fn write_string_quoted(&self, string: &str, buffer: &mut String) {
        HOOKS.write_string_quoted(string, buffer);
    }

    fn if_null_function(&self) -> &str {
        HOOKS.if_null_function()
    }
}

#[test]
fn basic_select() {
    let query = Query::select()
        .from(Alias::new("users"))
        .column(Alias::new("name"))
        .to_string(ClickHouseDialect);
    assert_eq!("SELECT \"name\" FROM \"users\"", query);
}

#[test]
fn select_with_eq() {
    let query = Query::select()
        .from(Alias::new("users"))
        .column(Alias::new("name"))
        .cond_where(Condition::all().add(Expr::col(Alias::new("name")).eq("serega")))
        .to_string(ClickHouseDialect);
    assert_eq!("SELECT \"name\" FROM \"users\" WHERE \"name\" = 'serega'", query);
}

#[test]
fn bound_values_get_fresh_numbered_placeholders() {
    let (sql, values) = Query::select()
        .from(Alias::new("users"))
        .column(Alias::new("name"))
        .and_where(Expr::col(Alias::new("a")).eq(5))
        .and_where(Expr::col(Alias::new("b")).eq(5))
        .and_where(Expr::col(Alias::new("c")).eq("x"))
        .build(ClickHouseDialect);
    assert_eq!(
        sql,
        "SELECT \"name\" FROM \"users\" WHERE \"a\" = $1 AND \"b\" = $2 AND \"c\" = $3"
    );
    assert_eq!(values.0.len(), 3);
}

#[test]
fn select_all_with_limit() {
    let (sql, values) = Query::select()
        .expr(Expr::asterisk())
        .from(Alias::new("service_cycles"))
        .limit(100)
        .build(ClickHouseDialect);
    assert_eq!(sql, "SELECT * FROM \"service_cycles\" LIMIT $1");
    assert_eq!(values.0.len(), 1);
}

#[test]
fn vendor_operator_in_a_statement() {
    let query = Query::select()
        .from(Alias::new("users"))
        .column(Alias::new("name"))
        .and_where(Expr::col(Alias::new("name")).binary(BinOper::PgOperator(PgBinOper::ILike), "se%"))
        .to_string(ClickHouseDialect);
    assert_eq!(query, "SELECT \"name\" FROM \"users\" WHERE \"name\" ILIKE 'se%'");
}

#[test]
fn distinct_on_in_a_statement() {
    let query = Query::select()
        .distinct_on([Alias::new("a"), Alias::new("b")])
        .column(Alias::new("a"))
        .from(Alias::new("t"))
        .to_string(ClickHouseDialect);
    assert_eq!(query, "SELECT DISTINCT ON (\"a\", \"b\") \"a\" FROM \"t\"");
}
