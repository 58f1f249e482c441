//! The detail table of a person.

use vstd::prelude::*;
use vstd::string::*;
use crate::commands::people::{Person, Position};
use crate::output::{
    detail_field, detail_table, field_cells, number_cell, number_or_dash, print_detail_table,
    text_cell, text_or_dash, truncate, truncate_spec, Field, FOOTER,
};
use crate::text::owned;

verus! {

/// The row of one position: the title of the position, or `Position` where
/// it has none, and the coin by name and identifier.
pub open spec fn position_cells(position: Position) -> Seq<Seq<char>> {
    seq![
        match position.position {
            Some(title) => title@,
            None => "Position"@,
        },
        text_or_dash(position.coin_name.deep_view()) + " ("@ + text_or_dash(
            position.coin_id.deep_view(),
        ) + ")"@,
    ]
}

/// The rows that every person has in their detail table.
pub open spec fn person_fixed_cells(person: Person) -> Seq<Seq<Seq<char>>> {
    seq![
        seq!["Name"@, text_or_dash(person.name.deep_view())],
        seq!["ID"@, text_or_dash(person.id.deep_view())],
        seq!["Teams"@, number_or_dash(person.teams_count)],
    ]
}

/// The rows for the positions of a person, in their order.
pub open spec fn position_rows(positions: Seq<Position>) -> Seq<Seq<Seq<char>>> {
    Seq::new(positions.len(), |i: int| position_cells(positions[i]))
}

/// The rows of a person's detail table: the fixed rows, one row for each
/// position, and the description shortened to 200 characters, where there
/// is one that is not empty.
pub open spec fn person_detail_cells(person: Person) -> Seq<Seq<Seq<char>>> {
    let placed = match person.positions {
        Some(positions) => person_fixed_cells(person) + position_rows(positions@),
        None => person_fixed_cells(person),
    };
    match person.description {
        Some(text) => if text@.len() > 0 {
            placed.push(seq!["Description"@, truncate_spec(text@, 200)])
        } else {
            placed
        },
        None => placed,
    }
}

/// The text shown for one person: their detail table and the footer.
pub fn print_person_detail(person: &Person) -> (r: String)
    ensures
        r@ == detail_table(person_detail_cells(*person)) + "\n"@ + FOOTER@,
{
    let mut rows: Vec<Field> = Vec::new();
    assert(field_cells(rows@) =~= Seq::empty());
    detail_field(&mut rows, "Name", text_cell(&person.name));
    detail_field(&mut rows, "ID", text_cell(&person.id));
    detail_field(&mut rows, "Teams", number_cell(person.teams_count));
    assert(field_cells(rows@) =~= person_fixed_cells(*person));
    if let Some(positions) = &person.positions {
        let mut i: usize = 0;
        assert(position_rows(positions@.take(0)) =~= Seq::empty());
        assert(field_cells(rows@) =~= person_fixed_cells(*person) + position_rows(
            positions@.take(0),
        ));
        while i < positions.len()
            invariant
                i <= positions.len(),
                field_cells(rows@) == person_fixed_cells(*person) + position_rows(
                    positions@.take(i as int),
                ),
            decreases positions.len() - i,
        {
            let pos = &positions[i];
            let label = match &pos.position {
                Some(title) => title.clone(),
                None => owned("Position"),
            };
            let mut value = text_cell(&pos.coin_name);
            value.append(" (");
            let coin_id = text_cell(&pos.coin_id);
            value.append(coin_id.as_str());
            value.append(")");
            assert(seq![label@, value@] =~= position_cells(*pos));
            detail_field(&mut rows, label.as_str(), value);
            proof {
                assert(position_rows(positions@.take(i + 1)) =~= position_rows(
                    positions@.take(i as int),
                ).push(position_cells(positions@[i as int])));
                assert(field_cells(rows@) =~= person_fixed_cells(*person) + position_rows(
                    positions@.take(i + 1),
                ));
            }
            i += 1;
        }
        assert(positions@.take(positions@.len() as int) =~= positions@);
    }
    if let Some(desc) = &person.description {
        if !desc.as_str().is_empty() {
            detail_field(&mut rows, "Description", truncate(desc.as_str(), 200));
        }
    }
    let mut r = print_detail_table(rows);
    r.append(FOOTER);
    r
}

} // verus!
