//! The text format of observer tables: one sample per line, as comma-separated
//! fields `wavelength, x-bar, y-bar, z-bar`. Blank lines are skipped, lines and
//! fields are trimmed of white space, fields after the fourth are ignored, and
//! every one of the four fields must be a float literal.
use vstd::prelude::*;
use crate::error::{LuxError, LuxResult};
use crate::text::{
    char_rows, chars_of, check_float_literal, is_float_literal, lemma_split_on_nonempty, split_chars,
    split_on, string_of, trim, trim_chars,
};

verus! {

/// One line of an observer table: its four fields, trimmed, each a float
/// literal.
#[derive(Debug, Clone)]
pub struct TableRow {
    pub wavelength: String,
    pub x_bar: String,
    pub y_bar: String,
    pub z_bar: String,
}

/// The four fields of a row, in order.
pub open spec fn row_fields(row: TableRow) -> Seq<Seq<char>> {
    seq![row.wavelength@, row.x_bar@, row.y_bar@, row.z_bar@]
}

/// The text of the error for a missing field.
pub open spec fn missing_field_text(i: int) -> &'static str {
    if i == 0 {
        "missing wavelength"
    } else if i == 1 {
        "missing x_bar"
    } else if i == 2 {
        "missing y_bar"
    } else {
        "missing z_bar"
    }
}

/// The text of the error for a field that is not a float literal.
pub open spec fn invalid_field_text(i: int) -> &'static str {
    if i == 0 {
        "invalid wavelength"
    } else if i == 1 {
        "invalid x_bar"
    } else if i == 2 {
        "invalid y_bar"
    } else {
        "invalid z_bar"
    }
}

/// The error for field `i` of a line split into `parts`, if any.
pub open spec fn field_error(parts: Seq<Seq<char>>, i: int) -> Option<LuxError> {
    if parts.len() <= i {
        Some(LuxError::ParseError(missing_field_text(i)))
    } else if !is_float_literal(trim(parts[i])) {
        Some(LuxError::ParseError(invalid_field_text(i)))
    } else {
        None
    }
}

/// What reading one non-blank, trimmed line gives: the first field error in
/// field order, or the four trimmed fields.
pub open spec fn row_outcome(line: Seq<char>) -> Result<Seq<Seq<char>>, LuxError> {
    let parts = split_on(line, ',');
    if field_error(parts, 0) is Some {
        Err(field_error(parts, 0)->0)
    } else if field_error(parts, 1) is Some {
        Err(field_error(parts, 1)->0)
    } else if field_error(parts, 2) is Some {
        Err(field_error(parts, 2)->0)
    } else if field_error(parts, 3) is Some {
        Err(field_error(parts, 3)->0)
    } else {
        Ok(seq![trim(parts[0]), trim(parts[1]), trim(parts[2]), trim(parts[3])])
    }
}

/// What reading the lines gives, in order: the rows of the non-blank lines,
/// or the error of the first line that has one.
pub open spec fn rows_outcome(lines: Seq<Seq<char>>) -> Result<Seq<Seq<Seq<char>>>, LuxError>
    decreases lines.len(),
{
    if lines.len() == 0 {
        Ok(Seq::empty())
    } else if trim(lines[0]).len() == 0 {
        rows_outcome(lines.drop_first())
    } else {
        match row_outcome(trim(lines[0])) {
            Err(e) => Err(e),
            Ok(row) => match rows_outcome(lines.drop_first()) {
                Ok(rest) => Ok(seq![row] + rest),
                Err(e) => Err(e),
            },
        }
    }
}

/// What reading a table gives: the rows of its lines, and `EmptyInput` when
/// it has no non-blank line.
pub open spec fn table_outcome(text: Seq<char>) -> Result<Seq<Seq<Seq<char>>>, LuxError> {
    match rows_outcome(split_on(text, '\n')) {
        Err(e) => Err(e),
        Ok(rows) => if rows.len() == 0 {
            Err(LuxError::EmptyInput)
        } else {
            Ok(rows)
        },
    }
}

/// A line is read exactly when it has at least four comma-separated fields
/// and each of the first four, trimmed, is a float literal; the row is then
/// those four trimmed fields, in order.
pub proof fn law_row_accepted(line: Seq<char>)
    ensures
        row_outcome(line) is Ok <==> (split_on(line, ',').len() >= 4 && is_float_literal(
            trim(split_on(line, ',')[0]),
        ) && is_float_literal(trim(split_on(line, ',')[1])) && is_float_literal(
            trim(split_on(line, ',')[2]),
        ) && is_float_literal(trim(split_on(line, ',')[3]))),
        row_outcome(line) is Ok ==> row_outcome(line)->Ok_0 == seq![
            trim(split_on(line, ',')[0]),
            trim(split_on(line, ',')[1]),
            trim(split_on(line, ',')[2]),
            trim(split_on(line, ',')[3]),
        ],
        split_on(line, ',').len() < 2 ==> row_outcome(line) == Err::<Seq<Seq<char>>, LuxError>(
            LuxError::ParseError("missing x_bar"),
        ) || row_outcome(line) == Err::<Seq<Seq<char>>, LuxError>(
            LuxError::ParseError("invalid wavelength"),
        ),
{
    lemma_split_on_nonempty(line, ',');
}

/// Every row of a table that is read has four fields, each a float literal.
pub proof fn law_table_rows_are_literals(text: Seq<char>)
    ensures
        table_outcome(text) is Ok ==> table_outcome(text)->Ok_0.len() > 0 && forall|r: int|
            0 <= r < table_outcome(text)->Ok_0.len() ==> #[trigger] table_outcome(text)->Ok_0[r].len()
                == 4 && forall|k: int|
                0 <= k < 4 ==> is_float_literal(table_outcome(text)->Ok_0[r][k]),
{
    let lines = split_on(text, '\n');
    lemma_rows_are_literals(lines);
    if table_outcome(text) is Ok {
        let rows = table_outcome(text)->Ok_0;
        assert(rows == rows_outcome(lines)->Ok_0);
        assert forall|r: int| 0 <= r < rows.len() implies #[trigger] rows[r].len() == 4 && forall|
            k: int,
        | 0 <= k < 4 ==> is_float_literal(rows[r][k]) by {
            let f = rows[r];
            assert(f == rows_outcome(lines)->Ok_0[r]);
            assert(f.len() == 4);
        }
    }
}

proof fn lemma_rows_are_literals(lines: Seq<Seq<char>>)
    ensures
        rows_outcome(lines) is Ok ==> forall|r: int|
            0 <= r < rows_outcome(lines)->Ok_0.len() ==> #[trigger] rows_outcome(lines)->Ok_0[r].len()
                == 4 && forall|k: int|
                0 <= k < 4 ==> is_float_literal(rows_outcome(lines)->Ok_0[r][k]),
    decreases lines.len(),
{
    if lines.len() > 0 {
        lemma_rows_are_literals(lines.drop_first());
        if trim(lines[0]).len() != 0 && rows_outcome(lines) is Ok {
            let row = row_outcome(trim(lines[0]))->Ok_0;
            law_row_accepted(trim(lines[0]));
            let rest = rows_outcome(lines.drop_first())->Ok_0;
            assert(rows_outcome(lines)->Ok_0 == seq![row] + rest);
            assert forall|r: int| 0 <= r < rows_outcome(lines)->Ok_0.len() implies #[trigger] rows_outcome(
                lines,
            )->Ok_0[r].len() == 4 && forall|k: int|
                0 <= k < 4 ==> is_float_literal(rows_outcome(lines)->Ok_0[r][k]) by {
                if r == 0 {
                    let f = rows_outcome(lines)->Ok_0[0];
                    assert(f == row);
                    assert(f.len() == 4);
                    assert(is_float_literal(f[0]));
                    assert(is_float_literal(f[1]));
                    assert(is_float_literal(f[2]));
                    assert(is_float_literal(f[3]));
                } else {
                    let f = rows_outcome(lines)->Ok_0[r];
                    assert(f == rest[r - 1]);
                    assert(rest[r - 1].len() == 4);
                }
            }
        }
    }
}

/// `rows` followed by what `rest` gives.
pub open spec fn after_rows(
    rows: Seq<Seq<Seq<char>>>,
    rest: Result<Seq<Seq<Seq<char>>>, LuxError>,
) -> Result<Seq<Seq<Seq<char>>>, LuxError> {
    match rest {
        Ok(more) => Ok(rows + more),
        Err(e) => Err(e),
    }
}

/// Field `i` of `parts`, trimmed, or the error for it.
fn read_field(parts: &Vec<Vec<char>>, i: usize) -> (r: LuxResult<String>)
    requires
        i < 4,
    ensures
        match r {
            Ok(text) => field_error(char_rows(parts@), i as int) is None && text@ == trim(
                char_rows(parts@)[i as int],
            ),
            Err(e) => field_error(char_rows(parts@), i as int) == Some(e),
        },
{
    if parts.len() <= i {
        return Err(
            LuxError::ParseError(
                if i == 0 {
                    "missing wavelength"
                } else if i == 1 {
                    "missing x_bar"
                } else if i == 2 {
                    "missing y_bar"
                } else {
                    "missing z_bar"
                },
            ),
        );
    }
    let field = trim_chars(parts[i].as_slice());
    assert(char_rows(parts@)[i as int] == parts@[i as int]@);
    if !check_float_literal(field.as_slice()) {
        return Err(
            LuxError::ParseError(
                if i == 0 {
                    "invalid wavelength"
                } else if i == 1 {
                    "invalid x_bar"
                } else if i == 2 {
                    "invalid y_bar"
                } else {
                    "invalid z_bar"
                },
            ),
        );
    }
    Ok(string_of(field.as_slice()))
}

/// Reads one non-blank, trimmed line.
fn read_row(line: &[char]) -> (r: LuxResult<TableRow>)
    ensures
        match r {
            Ok(row) => row_outcome(line@) == Ok::<Seq<Seq<char>>, LuxError>(row_fields(row)),
            Err(e) => row_outcome(line@) == Err::<Seq<Seq<char>>, LuxError>(e),
        },
{
    let parts = split_chars(line, ',');
    let wavelength = match read_field(&parts, 0) {
        Ok(text) => text,
        Err(e) => return Err(e),
    };
    let x_bar = match read_field(&parts, 1) {
        Ok(text) => text,
        Err(e) => return Err(e),
    };
    let y_bar = match read_field(&parts, 2) {
        Ok(text) => text,
        Err(e) => return Err(e),
    };
    let z_bar = match read_field(&parts, 3) {
        Ok(text) => text,
        Err(e) => return Err(e),
    };
    let row = TableRow { wavelength, x_bar, y_bar, z_bar };
    assert(row_fields(row) =~= seq![
        trim(char_rows(parts@)[0]),
        trim(char_rows(parts@)[1]),
        trim(char_rows(parts@)[2]),
        trim(char_rows(parts@)[3]),
    ]);
    Ok(row)
}

/// Reads an observer table (see [`table_outcome`]): the fields of every
/// non-blank line, in order; the error of the first line that has a missing
/// field or a field that is not a float literal; or `EmptyInput` when the
/// text has no non-blank line.
pub fn parse_observer_table(text: &str) -> (r: LuxResult<Vec<TableRow>>)
    ensures
        match r {
            Ok(rows) => table_outcome(text@) == Ok::<Seq<Seq<Seq<char>>>, LuxError>(
                rows@.map_values(|row: TableRow| row_fields(row)),
            ),
            Err(e) => table_outcome(text@) == Err::<Seq<Seq<Seq<char>>>, LuxError>(e),
        },
{
    let chars = chars_of(text);
    let lines = split_chars(chars.as_slice(), '\n');
    let ghost all = char_rows(lines@);
    assert(chars@ == text@);
    let mut rows: Vec<TableRow> = Vec::new();
    let mut i: usize = 0;
    assert(all.skip(0) =~= all);
    assert(rows@.map_values(|row: TableRow| row_fields(row)) =~= Seq::<Seq<Seq<char>>>::empty());
    while i < lines.len()
        invariant
            0 <= i <= lines@.len(),
            all == char_rows(lines@),
            all == split_on(text@, '\n'),
            rows_outcome(all) == after_rows(
                rows@.map_values(|row: TableRow| row_fields(row)),
                rows_outcome(all.skip(i as int)),
            ),
        decreases lines@.len() - i,
    {
        let ghost rest = all.skip(i as int);
        assert(rest.drop_first() =~= all.skip(i + 1));
        assert(rest[0] == lines@[i as int]@);
        let line = trim_chars(lines[i].as_slice());
        if line.len() > 0 {
            let ghost before = rows@.map_values(|row: TableRow| row_fields(row));
            match read_row(line.as_slice()) {
                Ok(row) => {
                    rows.push(row);
                    assert(rows@.map_values(|row: TableRow| row_fields(row)) =~= before + seq![
                        row_fields(row),
                    ]);
                    assert(before + (seq![row_fields(row)] + rows_outcome(all.skip(i + 1))->Ok_0)
                        =~= (before + seq![row_fields(row)]) + rows_outcome(all.skip(i + 1))->Ok_0);
                },
                Err(e) => {
                    assert(line@ == trim(rest[0]));
                    assert(rows_outcome(rest) == Err::<Seq<Seq<Seq<char>>>, LuxError>(e));
                    assert(rows_outcome(all) == Err::<Seq<Seq<Seq<char>>>, LuxError>(e));
                    assert(split_on(text@, '\n') == all);
                    return Err(e);
                },
            }
        }
        i = i + 1;
    }
    assert(all.skip(i as int) =~= Seq::<Seq<char>>::empty());
    assert(rows@.map_values(|row: TableRow| row_fields(row)) + Seq::<Seq<Seq<char>>>::empty()
        =~= rows@.map_values(|row: TableRow| row_fields(row)));
    if rows.len() == 0 {
        return Err(LuxError::EmptyInput);
    }
    Ok(rows)
}

} // verus!
