//! Tables for tags.

use vstd::prelude::*;
use vstd::string::*;
use crate::commands::tags::Tag;
use crate::output::{
    detail_field, detail_table, field_cells, lemma_table_cells_grow, number_cell, number_or_dash,
    print_detail_table, print_table, push_row, rounded_table, table_cells, text_cell, text_or_dash,
    truncate, truncate_spec, Field, FOOTER,
};
use crate::text::{owned, push_string};

verus! {

/// The rows of the detail table of a tag: identifier, name, type and
/// counters, and the description, shortened to 200 characters, where there
/// is one.
pub open spec fn tag_detail_cells(tag: Tag) -> Seq<Seq<Seq<char>>> {
    let fixed = seq![
        seq!["ID"@, tag.id@],
        seq!["Name"@, tag.name@],
        seq!["Type"@, text_or_dash(tag.tag_type.deep_view())],
        seq!["Coins"@, number_or_dash(tag.coin_counter)],
        seq!["ICOs"@, number_or_dash(tag.ico_counter)],
    ];
    match tag.description {
        Some(text) => if text@.len() > 0 {
            fixed.push(seq!["Description"@, truncate_spec(text@, 200)])
        } else {
            fixed
        },
        None => fixed,
    }
}

/// The text shown for one tag: its detail table and the footer.
pub fn print_tag_detail(tag: &Tag) -> (r: String)
    ensures
        r@ == detail_table(tag_detail_cells(*tag)) + "\n"@ + FOOTER@,
{
    let mut rows: Vec<Field> = Vec::new();
    assert(field_cells(rows@) =~= Seq::empty());
    detail_field(&mut rows, "ID", tag.id.clone());
    detail_field(&mut rows, "Name", tag.name.clone());
    detail_field(&mut rows, "Type", text_cell(&tag.tag_type));
    detail_field(&mut rows, "Coins", number_cell(tag.coin_counter));
    detail_field(&mut rows, "ICOs", number_cell(tag.ico_counter));
    if let Some(desc) = &tag.description {
        if !desc.as_str().is_empty() {
            detail_field(&mut rows, "Description", truncate(desc.as_str(), 200));
        }
    }
    assert(field_cells(rows@) =~= tag_detail_cells(*tag));
    let mut r = print_detail_table(rows);
    r.append(FOOTER);
    r
}

/// Column titles of the list of tags.
pub open spec fn tag_header() -> Seq<Seq<char>> {
    seq!["ID"@, "Name"@, "Type"@, "Coins"@, "ICOs"@]
}

/// The row of one tag: identifier, name shortened to 35 characters, type
/// and counters.
pub open spec fn tag_row(tag: Tag) -> Seq<Seq<char>> {
    seq![
        tag.id@,
        truncate_spec(tag.name@, 35),
        text_or_dash(tag.tag_type.deep_view()),
        number_or_dash(tag.coin_counter),
        number_or_dash(tag.ico_counter),
    ]
}

/// The text shown for a list of tags: the table and the footer.
pub fn print_tags_table(tags: &Vec<Tag>) -> (r: String)
    ensures
        r@ == rounded_table(table_cells(tag_header(), tags@, |t: Tag| tag_row(t))) + "\n"@
            + FOOTER@,
{
    let ghost row = |t: Tag| tag_row(t);
    let mut rows: Vec<Vec<String>> = Vec::new();
    let mut header: Vec<String> = Vec::new();
    push_string(&mut header, owned("ID"));
    push_string(&mut header, owned("Name"));
    push_string(&mut header, owned("Type"));
    push_string(&mut header, owned("Coins"));
    push_string(&mut header, owned("ICOs"));
    assert(header.deep_view() =~= tag_header());
    push_row(&mut rows, header);
    assert(rows.deep_view() =~= seq![tag_header()]);
    let mut i: usize = 0;
    proof {
        assert(table_cells(tag_header(), tags@.take(0), row) =~= seq![tag_header()]);
    }
    while i < tags.len()
        invariant
            i <= tags.len(),
            row == |t: Tag| tag_row(t),
            rows.deep_view() == table_cells(tag_header(), tags@.take(i as int), row),
        decreases tags.len() - i,
    {
        let tag = &tags[i];
        let mut cells: Vec<String> = Vec::new();
        push_string(&mut cells, tag.id.clone());
        push_string(&mut cells, truncate(tag.name.as_str(), 35));
        push_string(&mut cells, text_cell(&tag.tag_type));
        push_string(&mut cells, number_cell(tag.coin_counter));
        push_string(&mut cells, number_cell(tag.ico_counter));
        assert(cells.deep_view() =~= tag_row(*tag));
        push_row(&mut rows, cells);
        proof {
            lemma_table_cells_grow(tag_header(), tags@, row, i as int);
        }
        i += 1;
    }
    assert(tags@.take(tags@.len() as int) =~= tags@);
    let mut r = print_table(&rows);
    r.append(FOOTER);
    r
}

} // verus!
