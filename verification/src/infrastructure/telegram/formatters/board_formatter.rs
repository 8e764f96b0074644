//! Boards as texts for people.

use vstd::prelude::*;
use vstd::string::*;
use crate::domain::entities::board::{board_views, Board, BoardView};
use crate::text::{decimal_text, html_escaped, joined, push_decimal, push_html_escaped};

verus! {

pub struct BoardFormatter;

/// The line of a board: a globe for a board open to all and a lock for any
/// other, the name in bold, and the count of its cards where it is known.
pub open spec fn board_line(board: BoardView) -> Seq<char> {
    (if board.all_access {
        "\u{1F310}"@
    } else {
        "\u{1F512}"@
    }) + " <b>"@ + html_escaped(board.name) + "</b>"@ + (match board.card_count {
        Some(n) => " ("@ + decimal_text(n as int) + " cards)"@,
        None => Seq::empty(),
    })
}

/// The text of a list of boards: a line for each, or a notice that there
/// are none.
pub open spec fn board_list_text(boards: Seq<BoardView>) -> Seq<char> {
    if boards.len() == 0 {
        "No boards found."@
    } else {
        joined(boards.map_values(|b: BoardView| board_line(b)), "\n"@)
    }
}

impl BoardFormatter {
    /// The text of a list of boards.
    pub fn format_board_list(boards: &[Board]) -> (r: String)
        ensures
            r@ == board_list_text(board_views(boards@)),
    {
        if boards.len() == 0 {
            return String::from_str("No boards found.");
        }
        let ghost lines = board_views(boards@).map_values(|b: BoardView| board_line(b));
        let mut out = String::new();
        let mut i: usize = 0;
        assert(out@ =~= joined(lines.take(0), "\n"@));
        while i < boards.len()
            invariant
                i <= boards.len(),
                lines == board_views(boards@).map_values(|b: BoardView| board_line(b)),
                out@ == joined(lines.take(i as int), "\n"@),
            decreases boards.len() - i,
        {
            let ghost before = out@;
            if i > 0 {
                out.append("\n");
            }
            let ghost start = out@;
            let board = &boards[i];
            if board.all_access {
                out.append("\u{1F310}");
            } else {
                out.append("\u{1F512}");
            }
            out.append(" <b>");
            push_html_escaped(&mut out, board.name.as_str());
            out.append("</b>");
            if let Some(n) = board.card_count {
                out.append(" (");
                push_decimal(&mut out, n);
                out.append(" cards)");
            }
            proof {
                assert(out@ =~= start + board_line(board@));
                let next = lines.take(i + 1);
                assert(next.drop_last() =~= lines.take(i as int));
                assert(next.last() == board_line(board@));
                assert(out@ =~= joined(next, "\n"@));
            }
            i += 1;
        }
        assert(lines.take(i as int) =~= lines);
        out
    }
}

} // verus!
