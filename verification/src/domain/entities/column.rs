//! Columns: the ordered lanes of a board.

use vstd::prelude::*;
use crate::domain::value_objects::fizzy_id::FizzyId;
use crate::sorting::Ranked;
use crate::text::str_eq;
use vstd::string::*;

verus! {

/// A lane of a board. `position` orders the lanes of one board.
#[derive(Debug)]
pub struct Column {
    pub id: FizzyId,
    pub account_id: FizzyId,
    pub board_id: FizzyId,
    pub name: String,
    pub color: String,
    pub position: i32,
}

/// What a column holds, as plain values.
pub struct ColumnView {
    pub id: Seq<char>,
    pub account_id: Seq<char>,
    pub board_id: Seq<char>,
    pub name: Seq<char>,
    pub color: Seq<char>,
    pub position: i32,
}

impl View for Column {
    type V = ColumnView;

    open spec fn view(&self) -> ColumnView {
        ColumnView {
            id: self.id@,
            account_id: self.account_id@,
            board_id: self.board_id@,
            name: self.name@,
            color: self.color@,
            position: self.position,
        }
    }
}

impl Clone for Column {
    fn clone(&self) -> (r: Self)
        ensures
            r@ == self@,
    {
        Column {
            id: self.id.clone(),
            account_id: self.account_id.clone(),
            board_id: self.board_id.clone(),
            name: self.name.clone(),
            color: self.color.clone(),
            position: self.position,
        }
    }
}

/// Columns rank by position.
impl Ranked for Column {
    open spec fn ranks_before(&self, other: &Self) -> bool {
        self.position <= other.position
    }

    fn is_ranked_before(&self, other: &Self) -> (r: bool) {
        self.position <= other.position
    }
}

/// The views of a list of columns.
pub open spec fn column_views(columns: Seq<Column>) -> Seq<ColumnView> {
    columns.map_values(|c: Column| c@)
}

/// A text in lowercase, as `str::to_lowercase` of std gives it: each
/// character replaced by its lowercase according to Unicode.
pub uninterp spec fn lowercased(s: Seq<char>) -> Seq<char>;

/// `str::to_lowercase` of std returns the lowercase equivalent of a string
/// slice as a new string. Taken on trust: the result depends on nothing but
/// the characters of the slice, and is what `lowercased` names.
#[verifier::external_body]
fn to_lowercase(s: &str) -> (r: String)
    ensures
        r@ == lowercased(s@),
{
    s.to_lowercase()
}

/// The pictogram of a color name in lowercase; a white square for a name
/// that is none of the known ones.
pub open spec fn color_pictogram(lowered: Seq<char>) -> Seq<char> {
    if lowered == "red"@ {
        "\u{1F534}"@
    } else if lowered == "orange"@ {
        "\u{1F7E0}"@
    } else if lowered == "yellow"@ {
        "\u{1F7E1}"@
    } else if lowered == "green"@ {
        "\u{1F7E2}"@
    } else if lowered == "blue"@ {
        "\u{1F535}"@
    } else if lowered == "purple"@ {
        "\u{1F7E3}"@
    } else if lowered == "gray"@ || lowered == "grey"@ {
        "\u{26AA}"@
    } else {
        "\u{2B1C}"@
    }
}

/// The pictogram of a color name in lowercase.
pub fn color_emoji(lowered: &str) -> (r: &'static str)
    ensures
        r@ == color_pictogram(lowered@),
{
    if str_eq(lowered, "red") {
        "\u{1F534}"
    } else if str_eq(lowered, "orange") {
        "\u{1F7E0}"
    } else if str_eq(lowered, "yellow") {
        "\u{1F7E1}"
    } else if str_eq(lowered, "green") {
        "\u{1F7E2}"
    } else if str_eq(lowered, "blue") {
        "\u{1F535}"
    } else if str_eq(lowered, "purple") {
        "\u{1F7E3}"
    } else if str_eq(lowered, "gray") || str_eq(lowered, "grey") {
        "\u{26AA}"
    } else {
        "\u{2B1C}"
    }
}

impl Column {
    /// The name of the column behind the pictogram of its color, which is
    /// found by the color's name in lowercase.
    pub fn formatted_name(&self) -> (r: String)
        ensures
            r@ == color_pictogram(lowercased(self.color@)) + " "@ + self.name@,
    {
        let lowered = to_lowercase(self.color.as_str());
        let mut out = String::from_str(color_emoji(lowered.as_str()));
        out.append(" ");
        out.append(self.name.as_str());
        out
    }
}

} // verus!
