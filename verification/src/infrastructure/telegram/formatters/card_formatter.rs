//! Cards as texts for people.

use vstd::prelude::*;
use vstd::string::*;
use crate::domain::entities::card::{card_views, web_address, Card, CardView};
use crate::domain::value_objects::time::date_text;
use crate::text::{
    decimal_text, html_escaped, join, joined, push_decimal, push_html_escaped, push_joined, texts,
};

verus! {

pub struct CardFormatter;

/// A line where there is one.
pub open spec fn line_if(present: bool, line: Seq<char>) -> Seq<Seq<char>> {
    if present {
        seq![line]
    } else {
        Seq::empty()
    }
}

/// The first line of a card: the pictogram of its status, its number in
/// bold, and its title.
pub open spec fn card_heading(card: CardView) -> Seq<char> {
    card.status.pictogram() + " <b>#"@ + decimal_text(card.number as int) + "</b> "@ + html_escaped(
        card.title,
    )
}

/// The lines that name the board and the column of a card, where they are
/// known.
pub open spec fn place_lines(card: CardView) -> Seq<Seq<char>> {
    (match card.board_name {
        Some(name) => seq!["Board: "@ + html_escaped(name)],
        None => Seq::empty(),
    }) + (match card.column_name {
        Some(name) => seq!["Column: "@ + html_escaped(name)],
        None => Seq::empty(),
    })
}

/// The lines that name the assignees and the tags of a card, where there
/// are any.
pub open spec fn people_lines(card: CardView) -> Seq<Seq<char>> {
    line_if(card.assignee_names.len() > 0, "Assignees: "@ + joined(card.assignee_names, ", "@))
        + line_if(card.tag_titles.len() > 0, "Tags: "@ + joined(card.tag_titles, ", "@))
}

/// The lines at the end of a card: its due day where there is one, a mark
/// where it is golden, and a link where a base address is given.
pub open spec fn closing_lines(card: CardView, base_url: Option<Seq<char>>) -> Seq<Seq<char>> {
    (match card.due_on {
        Some(day) => seq!["Due: "@ + date_text(day)],
        None => Seq::empty(),
    }) + line_if(card.is_golden, "\u{2B50} Golden"@) + (match base_url {
        Some(base) => seq![
            "\n<a href=\""@ + web_address(base, card.account_id, card.number as int)
                + "\">Open in Fizzy</a>"@,
        ],
        None => Seq::empty(),
    })
}

/// The lines of a card: the heading, the board and the column, the status,
/// the assignees and the tags, and the closing lines.
pub open spec fn card_lines(card: CardView, base_url: Option<Seq<char>>) -> Seq<Seq<char>> {
    seq![card_heading(card)] + place_lines(card) + seq!["Status: "@ + card.status.shown_name()]
        + people_lines(card) + closing_lines(card, base_url)
}

/// The line of a card in a list: the heading, and the due day where there
/// is one.
pub open spec fn card_list_line(card: CardView) -> Seq<char> {
    card_heading(card) + (match card.due_on {
        Some(day) => " \u{1F4C5} "@ + date_text(day),
        None => Seq::empty(),
    })
}

/// The text of a list of cards: a line for each, or a notice that there
/// are none.
pub open spec fn card_list_text(cards: Seq<CardView>) -> Seq<char> {
    if cards.len() == 0 {
        "No cards found."@
    } else {
        joined(cards.map_values(|c: CardView| card_list_line(c)), "\n"@)
    }
}

/// Puts the heading of a card behind `out`.
fn push_heading(out: &mut String, card: &Card)
    ensures
        final(out)@ == old(out)@ + card_heading(card@),
{
    out.append(card.status.emoji());
    out.append(" <b>#");
    push_decimal(out, card.number);
    out.append("</b> ");
    push_html_escaped(out, card.title.as_str());
    assert(out@ =~= old(out)@ + card_heading(card@));
}

/// Puts a line behind the lines so far.
fn add_line(lines: &mut Vec<String>, line: String)
    ensures
        texts(final(lines)@) == texts(old(lines)@).push(line@),
{
    lines.push(line);
    assert(texts(lines@) =~= texts(old(lines)@).push(line@));
}

/// Puts the lines that name the board and the column behind the lines so
/// far.
fn add_place_lines(lines: &mut Vec<String>, card: &Card)
    ensures
        texts(final(lines)@) == texts(old(lines)@) + place_lines(card@),
{
    if let Some(name) = &card.board_name {
        let mut line = String::from_str("Board: ");
        push_html_escaped(&mut line, name.as_str());
        add_line(lines, line);
    }
    if let Some(name) = &card.column_name {
        let mut line = String::from_str("Column: ");
        push_html_escaped(&mut line, name.as_str());
        add_line(lines, line);
    }
    assert(texts(lines@) =~= texts(old(lines)@) + place_lines(card@));
}

/// Puts the lines that name assignees and tags behind the lines so far.
fn add_people_lines(lines: &mut Vec<String>, card: &Card)
    ensures
        texts(final(lines)@) == texts(old(lines)@) + people_lines(card@),
{
    if card.assignee_names.len() > 0 {
        let mut line = String::from_str("Assignees: ");
        push_joined(&mut line, &card.assignee_names, ", ");
        add_line(lines, line);
    }
    if card.tag_titles.len() > 0 {
        let mut line = String::from_str("Tags: ");
        push_joined(&mut line, &card.tag_titles, ", ");
        add_line(lines, line);
    }
    assert(texts(lines@) =~= texts(old(lines)@) + people_lines(card@));
}

/// Puts the closing lines behind the lines so far.
fn add_closing_lines(lines: &mut Vec<String>, card: &Card, base_url: Option<&str>)
    ensures
        texts(final(lines)@) == texts(old(lines)@) + closing_lines(
            card@,
            match base_url {
                Some(base) => Some(base@),
                None => None,
            },
        ),
{
    if let Some(day) = card.due_on {
        let mut line = String::from_str("Due: ");
        day.push_to(&mut line);
        add_line(lines, line);
    }
    if card.is_golden {
        add_line(lines, String::from_str("\u{2B50} Golden"));
    }
    if let Some(url) = card.web_url(base_url) {
        let mut line = String::from_str("\n<a href=\"");
        line.append(url.as_str());
        line.append("\">Open in Fizzy</a>");
        add_line(lines, line);
    }
    assert(texts(lines@) =~= texts(old(lines)@) + closing_lines(
        card@,
        match base_url {
            Some(base) => Some(base@),
            None => None,
        },
    ));
}

impl CardFormatter {
    /// The text of one card, a line for each thing known of it.
    pub fn format_card(card: &Card, base_url: Option<&str>) -> (r: String)
        ensures
            r@ == joined(
                card_lines(
                    card@,
                    match base_url {
                        Some(base) => Some(base@),
                        None => None,
                    },
                ),
                "\n"@,
            ),
    {
        let mut lines: Vec<String> = Vec::new();
        let mut heading = String::new();
        push_heading(&mut heading, card);
        add_line(&mut lines, heading);
        assert(texts(lines@) =~= seq![card_heading(card@)]);
        add_place_lines(&mut lines, card);
        let mut status = String::from_str("Status: ");
        status.append(card.status.display_name());
        add_line(&mut lines, status);
        add_people_lines(&mut lines, card);
        add_closing_lines(&mut lines, card, base_url);
        assert(texts(lines@) =~= card_lines(
            card@,
            match base_url {
                Some(base) => Some(base@),
                None => None,
            },
        ));
        join(&lines, "\n")
    }

    /// The text of a list of cards.
    pub fn format_card_list(cards: &[Card]) -> (r: String)
        ensures
            r@ == card_list_text(card_views(cards@)),
    {
        if cards.len() == 0 {
            return String::from_str("No cards found.");
        }
        let ghost lines = card_views(cards@).map_values(|c: CardView| card_list_line(c));
        let mut out = String::new();
        let mut i: usize = 0;
        assert(out@ =~= joined(lines.take(0), "\n"@));
        while i < cards.len()
            invariant
                i <= cards.len(),
                lines == card_views(cards@).map_values(|c: CardView| card_list_line(c)),
                out@ == joined(lines.take(i as int), "\n"@),
            decreases cards.len() - i,
        {
            if i > 0 {
                out.append("\n");
            }
            let ghost start = out@;
            let card = &cards[i];
            push_heading(&mut out, card);
            if let Some(day) = card.due_on {
                out.append(" \u{1F4C5} ");
                day.push_to(&mut out);
            }
            proof {
                assert(out@ =~= start + card_list_line(card@));
                let next = lines.take(i + 1);
                assert(next.drop_last() =~= lines.take(i as int));
                assert(next.last() == card_list_line(card@));
                assert(out@ =~= joined(next, "\n"@));
            }
            i += 1;
        }
        assert(lines.take(i as int) =~= lines);
        out
    }
}

} // verus!
