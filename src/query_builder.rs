use vstd::prelude::*;

verus! {

/// The dialect: double-quoted identifiers, numbered `$n` placeholders,
/// backslash-aware string literals and a few vendor operators.
pub struct ClickHouseQueryBuilder;

/// The DISTINCT shapes of a select; in `DistinctOn` each column reference
/// is already rendered.
pub enum DistinctClause {
    All,
    Distinct,
    DistinctRow,
    DistinctOn(Vec<String>),
}

/// The pattern, containment and similarity operators that render as
/// their own tokens.
pub enum VendorOperator {
    ILike,
    NotILike,
    Matches,
    Contains,
    Contained,
    Concatenate,
    Similarity,
    WordSimilarity,
    StrictWordSimilarity,
    SimilarityDistance,
    WordSimilarityDistance,
    StrictWordSimilarityDistance,
}

/// The column references joined with `, `.
pub open spec fn comma_joined(cols: Seq<Seq<char>>) -> Seq<char>
    decreases cols.len(),
{
    if cols.len() == 0 {
        Seq::empty()
    } else if cols.len() == 1 {
        cols[0]
    } else {
        comma_joined(cols.drop_last()) + ", "@ + cols.last()
    }
}

/// The text of a DISTINCT clause; a shape the dialect lacks renders nothing.
pub open spec fn distinct_text(d: DistinctClause) -> Seq<char> {
    match d {
        DistinctClause::All => "ALL"@,
        DistinctClause::Distinct => "DISTINCT"@,
        DistinctClause::DistinctRow => Seq::empty(),
        DistinctClause::DistinctOn(cols) => "DISTINCT ON ("@ + comma_joined(
            cols@.map_values(|c: String| c@),
        ) + ")"@,
    }
}

/// The token of a vendor operator.
pub open spec fn operator_token(op: VendorOperator) -> Seq<char> {
    match op {
        VendorOperator::ILike => "ILIKE"@,
        VendorOperator::NotILike => "NOT ILIKE"@,
        VendorOperator::Matches => "@@"@,
        VendorOperator::Contains => "@>"@,
        VendorOperator::Contained => "<@"@,
        VendorOperator::Concatenate => "||"@,
        VendorOperator::Similarity => "%"@,
        VendorOperator::WordSimilarity => "<%"@,
        VendorOperator::StrictWordSimilarity => "<<%"@,
        VendorOperator::SimilarityDistance => "<->"@,
        VendorOperator::WordSimilarityDistance => "<<->"@,
        VendorOperator::StrictWordSimilarityDistance => "<<<->"@,
    }
}


/// The escape sequence that the base escaping routine writes for one character.
pub open spec fn escaped_char(c: char) -> Seq<char> {
    if c == '\\' {
        seq!['\\', '\\']
    } else if c == '"' {
        seq!['\\', '"']
    } else if c == '\'' {
        seq!['\\', '\'']
    } else if c == '\0' {
        seq!['\\', '0']
    } else if c == '\x08' {
        seq!['\\', 'b']
    } else if c == '\t' {
        seq!['\\', 't']
    } else if c == '\x1a' {
        seq!['\\', 'z']
    } else if c == '\n' {
        seq!['\\', 'n']
    } else if c == '\r' {
        seq!['\\', 'r']
    } else {
        seq![c]
    }
}

/// The string with every character replaced by its escape sequence.
pub open spec fn escaped(s: Seq<char>) -> Seq<char>
    decreases s.len(),
{
    if s.len() == 0 {
        Seq::empty()
    } else {
        escaped(s.drop_last()) + escaped_char(s.last())
    }
}

/// An escaped string in single quotes, marked with `E` where a backslash
/// survived escaping.
pub open spec fn quoted_literal(escaped: Seq<char>) -> Seq<char> {
    if escaped.contains('\\') {
        "E'"@ + escaped + "'"@
    } else {
        "'"@ + escaped + "'"@
    }
}

/// Whether escaping turns the character into a backslash sequence.
pub open spec fn needs_escape(c: char) -> bool {
    c == '\\' || c == '"' || c == '\'' || c == '\0' || c == '\x08' || c == '\t' || c == '\x1a'
        || c == '\n' || c == '\r'
}

proof fn lemma_concat_contains(a: Seq<char>, b: Seq<char>, x: char)
    ensures
        (a + b).contains(x) <==> a.contains(x) || b.contains(x),
{
    if (a + b).contains(x) {
        let k = choose|k: int| 0 <= k < (a + b).len() && (a + b)[k] == x;
        if k < a.len() {
            assert(a[k] == x);
        } else {
            assert(b[k - a.len()] == x);
        }
    }
    if a.contains(x) {
        let k = choose|k: int| 0 <= k < a.len() && a[k] == x;
        assert((a + b)[k] == x);
    }
    if b.contains(x) {
        let k = choose|k: int| 0 <= k < b.len() && b[k] == x;
        assert((a + b)[a.len() + k] == x);
    }
}

/// A string literal carries the `E` marker exactly when the string holds a
/// character that escaping turns into a backslash sequence.
pub proof fn lemma_marker_iff_escapable(s: Seq<char>)
    ensures
        escaped(s).contains('\\') <==> exists|i: int| 0 <= i < s.len() && needs_escape(s[i]),
    decreases s.len(),
{
    if s.len() > 0 {
        let init = s.drop_last();
        let c = s.last();
        lemma_marker_iff_escapable(init);
        lemma_concat_contains(escaped(init), escaped_char(c), '\\');
        if needs_escape(c) {
            assert(escaped_char(c)[0] == '\\');
        } else {
            assert(escaped_char(c) =~= seq![c]);
            assert(!escaped_char(c).contains('\\'));
        }
        if exists|i: int| 0 <= i < s.len() && needs_escape(s[i]) {
            let i = choose|i: int| 0 <= i < s.len() && needs_escape(s[i]);
            if i < init.len() {
                assert(init[i] == s[i]);
            }
        }
        if exists|i: int| 0 <= i < init.len() && needs_escape(init[i]) {
            let i = choose|i: int| 0 <= i < init.len() && needs_escape(init[i]);
            assert(s[i] == init[i]);
        }
        if needs_escape(c) {
            assert(s[s.len() - 1] == c);
        }
    }
}

/// Relies on sea_query's default `EscapeBuilder::escape_string` (the one the
/// Postgres builder keeps): each of backslash, double quote, single quote,
/// NUL, backspace, tab, SUB, newline and carriage return becomes a backslash
/// sequence; `replace` runs on each in turn, and no replacement writes a
/// character that a later one replaces.
#[verifier::external_body]
fn escape_string(string: &str) -> (r: String)
    ensures
        r@ == escaped(string@),
{
    sea_query::EscapeBuilder::escape_string(&sea_query::PostgresQueryBuilder, string)
}

/// Relies on `str::find` with a `char` pattern: `Some` exactly where the
/// character occurs.
#[verifier::external_body]
fn find_char(s: &str, c: char) -> (r: Option<usize>)
    ensures
        r is Some <==> s@.contains(c),
{
    s.find(c)
}

impl ClickHouseQueryBuilder {
    /// The identifier quote.
    pub fn quote(&self) -> (r: char)
        ensures
            r == '"',
    {
        '"'
    }

    /// The placeholder marker, and that placeholders are numbered.
    pub fn placeholder(&self) -> (r: (&'static str, bool))
        ensures
            r.0@ == "$"@,
            r.1,
    {
        ("$", true)
    }

    /// A nested subquery statement renders nothing at this hook.
    pub fn prepare_query_statement(&self, sql: &mut String)
        ensures
            final(sql)@ == old(sql)@,
    {
    }

    /// Appends `string` as a quoted, escaped literal to `buffer`.
    pub fn write_string_quoted(&self, string: &str, buffer: &mut String)
        ensures
            final(buffer)@ == old(buffer)@ + quoted_literal(escaped(string@)),
    {
        let escaped = escape_string(string);
        let found = find_char(escaped.as_str(), '\\');
        if found.is_some() {
            buffer.append("E'");
        } else {
            buffer.append("'");
        }
        buffer.append(escaped.as_str());
        buffer.append("'");
        proof {
            assert(buffer@ =~= old(buffer)@ + quoted_literal(escaped@));
        }
    }

    /// The name of the NULL-coalescing function.
    pub fn if_null_function(&self) -> (r: &'static str)
        ensures
            r@ == "COALESCE"@,
    {
        "COALESCE"
    }

    /// Appends the DISTINCT clause to `sql`.
    pub fn prepare_select_distinct(&self, select_distinct: &DistinctClause, sql: &mut String)
        ensures
            final(sql)@ == old(sql)@ + distinct_text(*select_distinct),
    {
        match select_distinct {
            DistinctClause::All => {
                proof { reveal_strlit("ALL"); }
                sql.append("ALL");
            },
            DistinctClause::Distinct => {
                proof { reveal_strlit("DISTINCT"); }
                sql.append("DISTINCT");
            },
            DistinctClause::DistinctRow => {
                assert(old(sql)@ + Seq::<char>::empty() =~= old(sql)@);
            },
            DistinctClause::DistinctOn(cols) => {
                let ghost start = sql@;
                let ghost views = cols@.map_values(|c: String| c@);
                sql.append("DISTINCT ON (");
                let mut i: usize = 0;
                while i < cols.len()
                    invariant
                        i <= cols.len(),
                        views == cols@.map_values(|c: String| c@),
                        sql@ == start + "DISTINCT ON ("@ + comma_joined(views.take(i as int)),
                    decreases cols.len() - i,
                {
                    if i > 0 {
                        sql.append(", ");
                    }
                    sql.append(cols[i].as_str());
                    proof {
                        assert(views.take(i + 1).drop_last() =~= views.take(i as int));
                        assert(views.take(i + 1).last() == cols@[i as int]@);
                    }
                    i = i + 1;
                }
                sql.append(")");
                proof {
                    assert(views.take(cols.len() as int) =~= views);
                }
            },
        }
    }

    /// Appends the token of a vendor operator to `sql`.
    pub fn prepare_bin_oper(&self, bin_oper: &VendorOperator, sql: &mut String)
        ensures
            final(sql)@ == old(sql)@ + operator_token(*bin_oper),
    {
        let token = match bin_oper {
            VendorOperator::ILike => "ILIKE",
            VendorOperator::NotILike => "NOT ILIKE",
            VendorOperator::Matches => "@@",
            VendorOperator::Contains => "@>",
            VendorOperator::Contained => "<@",
            VendorOperator::Concatenate => "||",
            VendorOperator::Similarity => "%",
            VendorOperator::WordSimilarity => "<%",
            VendorOperator::StrictWordSimilarity => "<<%",
            VendorOperator::SimilarityDistance => "<->",
            VendorOperator::WordSimilarityDistance => "<<->",
            VendorOperator::StrictWordSimilarityDistance => "<<<->",
        };
        sql.append(token);
    }
}

} // verus!
