//! The text shown for what a search found.

use vstd::prelude::*;
use vstd::string::*;
use crate::commands::search::{
    SearchCurrency, SearchExchange, SearchPerson, SearchResult, SearchTag,
};
use crate::output::{
    lemma_lines_grow, lemma_table_cells_grow, lines, number_cell, number_or_dash, print_table,
    push_row, rounded_table, table_cells, text_cell, text_or_dash, truncate, truncate_spec, FOOTER,
};
use crate::text::{owned, push_string, signed_decimal, signed_to_string};

verus! {

/// Column titles of the coins that a search found.
pub open spec fn currency_header() -> Seq<Seq<char>> {
    seq!["Rank"@, "Symbol"@, "Name"@, "ID"@]
}

/// The row of one coin: rank, symbol, name shortened to 30 characters, and
/// identifier.
pub open spec fn currency_row(currency: SearchCurrency) -> Seq<Seq<char>> {
    seq![
        number_or_dash(currency.rank),
        currency.symbol@,
        truncate_spec(currency.name@, 30),
        currency.id@,
    ]
}

/// A count as the lists show it: zero where none is given.
pub open spec fn count_or_zero(count: Option<i64>) -> Seq<char> {
    match count {
        Some(n) => signed_decimal(n as int),
        None => signed_decimal(0),
    }
}

/// The line of one exchange.
pub open spec fn exchange_line(exchange: SearchExchange) -> Seq<char> {
    "  "@ + text_or_dash(exchange.id.deep_view()) + " \u{2014} "@ + text_or_dash(
        exchange.name.deep_view(),
    ) + "\n"@
}

/// The line of one person.
pub open spec fn person_line(person: SearchPerson) -> Seq<char> {
    "  "@ + text_or_dash(person.id.deep_view()) + " \u{2014} "@ + text_or_dash(
        person.name.deep_view(),
    ) + " (teams: "@ + count_or_zero(person.teams_count) + ")\n"@
}

/// The line of one tag.
pub open spec fn tag_line(tag: SearchTag) -> Seq<char> {
    "  "@ + text_or_dash(tag.id.deep_view()) + " \u{2014} "@ + text_or_dash(tag.name.deep_view())
        + " (coins: "@ + count_or_zero(tag.coin_counter) + ")\n"@
}

/// The part for coins: a title, the table and an empty line; nothing where
/// no coin was found.
pub open spec fn currency_section(currencies: Option<Vec<SearchCurrency>>) -> Seq<char> {
    match currencies {
        Some(list) => if list@.len() > 0 {
            "Currencies:\n"@ + rounded_table(
                table_cells(currency_header(), list@, |c: SearchCurrency| currency_row(c)),
            ) + "\n\n"@
        } else {
            Seq::empty()
        },
        None => Seq::empty(),
    }
}

/// A part that lists its records line by line: a title, the lines and an
/// empty line; nothing where there is no record.
pub open spec fn listed_section<T>(
    title: Seq<char>,
    records: Option<Vec<T>>,
    line: spec_fn(T) -> Seq<char>,
) -> Seq<char> {
    match records {
        Some(list) => if list@.len() > 0 {
            title + lines(list@, line) + "\n"@
        } else {
            Seq::empty()
        },
        None => Seq::empty(),
    }
}

/// The text shown for a search: the parts for coins, exchanges, people and
/// tags, in this order, each only where something was found, and the footer.
pub open spec fn search_text(result: SearchResult) -> Seq<char> {
    currency_section(result.currencies) + listed_section(
        "Exchanges:\n"@,
        result.exchanges,
        |e: SearchExchange| exchange_line(e),
    ) + listed_section("People:\n"@, result.people, |p: SearchPerson| person_line(p))
        + listed_section("Tags:\n"@, result.tags, |t: SearchTag| tag_line(t)) + FOOTER@
}

fn push_currencies(out: &mut String, currencies: &Option<Vec<SearchCurrency>>)
    ensures
        final(out)@ == old(out)@ + currency_section(*currencies),
{
    let ghost start = out@;
    if let Some(list) = currencies {
        if list.len() > 0 {
            let ghost row = |c: SearchCurrency| currency_row(c);
            let mut rows: Vec<Vec<String>> = Vec::new();
            let mut header: Vec<String> = Vec::new();
            push_string(&mut header, owned("Rank"));
            push_string(&mut header, owned("Symbol"));
            push_string(&mut header, owned("Name"));
            push_string(&mut header, owned("ID"));
            assert(header.deep_view() =~= currency_header());
            push_row(&mut rows, header);
            assert(rows.deep_view() =~= seq![currency_header()]);
            let mut i: usize = 0;
            proof {
                assert(table_cells(currency_header(), list@.take(0), row) =~= seq![
                    currency_header(),
                ]);
            }
            while i < list.len()
                invariant
                    i <= list.len(),
                    row == |c: SearchCurrency| currency_row(c),
                    rows.deep_view() == table_cells(currency_header(), list@.take(i as int), row),
                decreases list.len() - i,
            {
                let currency = &list[i];
                let mut cells: Vec<String> = Vec::new();
                push_string(&mut cells, number_cell(currency.rank));
                push_string(&mut cells, currency.symbol.clone());
                push_string(&mut cells, truncate(currency.name.as_str(), 30));
                push_string(&mut cells, currency.id.clone());
                assert(cells.deep_view() =~= currency_row(*currency));
                push_row(&mut rows, cells);
                proof {
                    lemma_table_cells_grow(currency_header(), list@, row, i as int);
                }
                i += 1;
            }
            assert(list@.take(list@.len() as int) =~= list@);
            out.append("Currencies:\n");
            let table = print_table(&rows);
            out.append(table.as_str());
            out.append("\n");
            proof {
                reveal_strlit("\n");
                reveal_strlit("\n\n");
                assert("\n"@ + "\n"@ =~= "\n\n"@);
                assert(out@ =~= start + currency_section(*currencies));
            }
        }
    }
    assert(out@ =~= start + currency_section(*currencies));
}

fn count_cell(count: Option<i64>) -> (r: String)
    ensures
        r@ == count_or_zero(count),
{
    match count {
        Some(n) => signed_to_string(n),
        None => signed_to_string(0),
    }
}

fn exchange_text(item: &SearchExchange) -> (r: String)
    ensures
        r@ == exchange_line(*item),
{
    let mut r = owned("  ");
    let id = text_cell(&item.id);
    r.append(id.as_str());
    r.append(" \u{2014} ");
    let name = text_cell(&item.name);
    r.append(name.as_str());
    r.append("\n");
    r
}

fn person_text(item: &SearchPerson) -> (r: String)
    ensures
        r@ == person_line(*item),
{
    let mut r = owned("  ");
    let id = text_cell(&item.id);
    r.append(id.as_str());
    r.append(" \u{2014} ");
    let name = text_cell(&item.name);
    r.append(name.as_str());
    r.append(" (teams: ");
    let count = count_cell(item.teams_count);
    r.append(count.as_str());
    r.append(")\n");
    r
}

fn tag_text(item: &SearchTag) -> (r: String)
    ensures
        r@ == tag_line(*item),
{
    let mut r = owned("  ");
    let id = text_cell(&item.id);
    r.append(id.as_str());
    r.append(" \u{2014} ");
    let name = text_cell(&item.name);
    r.append(name.as_str());
    r.append(" (coins: ");
    let count = count_cell(item.coin_counter);
    r.append(count.as_str());
    r.append(")\n");
    r
}

fn push_exchanges(out: &mut String, exchanges: &Option<Vec<SearchExchange>>)
    ensures
        final(out)@ == old(out)@ + listed_section(
            "Exchanges:\n"@,
            *exchanges,
            |e: SearchExchange| exchange_line(e),
        ),
{
    let ghost start = out@;
    let ghost line = |e: SearchExchange| exchange_line(e);
    if let Some(list) = exchanges {
        if list.len() > 0 {
            out.append("Exchanges:\n");
            let mut i: usize = 0;
            assert(lines(list@.take(0), line) =~= Seq::empty());
            while i < list.len()
                invariant
                    i <= list.len(),
                    line == |e: SearchExchange| exchange_line(e),
                    out@ == start + "Exchanges:\n"@ + lines(list@.take(i as int), line),
                decreases list.len() - i,
            {
                let text = exchange_text(&list[i]);
                out.append(text.as_str());
                proof {
                    lemma_lines_grow(list@, line, i as int);
                    assert(out@ =~= start + "Exchanges:\n"@ + lines(list@.take(i + 1), line));
                }
                i += 1;
            }
            assert(list@.take(list@.len() as int) =~= list@);
            out.append("\n");
        }
    }
    assert(out@ =~= start + listed_section("Exchanges:\n"@, *exchanges, line));
}

fn push_people(out: &mut String, people: &Option<Vec<SearchPerson>>)
    ensures
        final(out)@ == old(out)@ + listed_section(
            "People:\n"@,
            *people,
            |p: SearchPerson| person_line(p),
        ),
{
    let ghost start = out@;
    let ghost line = |p: SearchPerson| person_line(p);
    if let Some(list) = people {
        if list.len() > 0 {
            out.append("People:\n");
            let mut i: usize = 0;
            assert(lines(list@.take(0), line) =~= Seq::empty());
            while i < list.len()
                invariant
                    i <= list.len(),
                    line == |p: SearchPerson| person_line(p),
                    out@ == start + "People:\n"@ + lines(list@.take(i as int), line),
                decreases list.len() - i,
            {
                let text = person_text(&list[i]);
                out.append(text.as_str());
                proof {
                    lemma_lines_grow(list@, line, i as int);
                    assert(out@ =~= start + "People:\n"@ + lines(list@.take(i + 1), line));
                }
                i += 1;
            }
            assert(list@.take(list@.len() as int) =~= list@);
            out.append("\n");
        }
    }
    assert(out@ =~= start + listed_section("People:\n"@, *people, line));
}

fn push_tags(out: &mut String, tags: &Option<Vec<SearchTag>>)
    ensures
        final(out)@ == old(out)@ + listed_section("Tags:\n"@, *tags, |t: SearchTag| tag_line(t)),
{
    let ghost start = out@;
    let ghost line = |t: SearchTag| tag_line(t);
    if let Some(list) = tags {
        if list.len() > 0 {
            out.append("Tags:\n");
            let mut i: usize = 0;
            assert(lines(list@.take(0), line) =~= Seq::empty());
            while i < list.len()
                invariant
                    i <= list.len(),
                    line == |t: SearchTag| tag_line(t),
                    out@ == start + "Tags:\n"@ + lines(list@.take(i as int), line),
                decreases list.len() - i,
            {
                let text = tag_text(&list[i]);
                out.append(text.as_str());
                proof {
                    lemma_lines_grow(list@, line, i as int);
                    assert(out@ =~= start + "Tags:\n"@ + lines(list@.take(i + 1), line));
                }
                i += 1;
            }
            assert(list@.take(list@.len() as int) =~= list@);
            out.append("\n");
        }
    }
    assert(out@ =~= start + listed_section("Tags:\n"@, *tags, line));
}

/// The text shown for what a search found.
pub fn print_search_results(result: &SearchResult) -> (r: String)
    ensures
        r@ == search_text(*result),
{
    let mut r = String::new();
    push_currencies(&mut r, &result.currencies);
    push_exchanges(&mut r, &result.exchanges);
    push_people(&mut r, &result.people);
    push_tags(&mut r, &result.tags);
    r.append(FOOTER);
    assert(r@ =~= search_text(*result));
    r
}

} // verus!
