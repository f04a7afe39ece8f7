//! The table that lists the profiles: a header, then one row per profile,
//! with the row of the active identity emphasised.

use vstd::prelude::*;
use crate::profile::{Profile, ProfileView, profile_views};
use crate::store::unique_keys;
use crate::text::same_text;

verus! {

/// `Table` of comfy_table, carried as it is: header, rows and drawing style.
#[verifier::external_type_specification]
#[verifier::external_body]
pub struct ExTable(comfy_table::Table);

/// `Cell` of comfy_table, carried as it is: text, colours and attributes.
#[verifier::external_type_specification]
#[verifier::external_body]
pub struct ExCell(comfy_table::Cell);

/// The foreground colours that the table uses.
#[derive(Debug, Clone, Copy, PartialEq, Eq, Structural)]
pub enum Tint {
    DarkYellow,
    Green,
    Blue,
}

/// The text attributes that the table uses.
#[derive(Debug, Clone, Copy, PartialEq, Eq, Structural)]
pub enum Emphasis {
    Bold,
    Italic,
}

/// What a cell shows: its text, its foreground colour if it has one, and its
/// attributes in the order in which they were added.
pub struct CellLook {
    pub text: Seq<char>,
    pub tint: Option<Tint>,
    pub emphasis: Seq<Emphasis>,
}

/// What `cell` shows.
pub uninterp spec fn cell_look(cell: comfy_table::Cell) -> CellLook;

/// The cells of the header of `table`, if it has one.
pub uninterp spec fn table_header(table: comfy_table::Table) -> Option<Seq<CellLook>>;

/// The cells of each row of `table` below the header, from the top.
pub uninterp spec fn table_rows(table: comfy_table::Table) -> Seq<Seq<CellLook>>;

/// What each of `cells` shows, in order.
pub open spec fn cell_looks(cells: Seq<comfy_table::Cell>) -> Seq<CellLook> {
    cells.map_values(|c: comfy_table::Cell| cell_look(c))
}

/// The attributes of the cells of a row: bold and italic for the row of the
/// active identity, none for the others.
pub open spec fn row_emphasis(active: bool) -> Seq<Emphasis> {
    if active {
        seq![Emphasis::Bold, Emphasis::Italic]
    } else {
        Seq::<Emphasis>::empty()
    }
}

/// The header: the three column titles, in bold.
pub open spec fn header_looks() -> Seq<CellLook> {
    seq![
        CellLook { text: "Alias"@, tint: None, emphasis: seq![Emphasis::Bold] },
        CellLook { text: "Name"@, tint: None, emphasis: seq![Emphasis::Bold] },
        CellLook { text: "Email"@, tint: None, emphasis: seq![Emphasis::Bold] },
    ]
}

/// The row of one profile: alias, name and e-mail address, each in the colour
/// of its column, emphasised where the e-mail address is `current_email`.
pub open spec fn row_looks(p: ProfileView, current_email: Seq<char>) -> Seq<CellLook> {
    let emphasis = row_emphasis(p.email == current_email);
    seq![
        CellLook { text: p.alias, tint: Some(Tint::DarkYellow), emphasis },
        CellLook { text: p.name, tint: Some(Tint::Green), emphasis },
        CellLook { text: p.email, tint: Some(Tint::Blue), emphasis },
    ]
}

/// The rows below the header: one per profile, in the order of `profiles`.
pub open spec fn body_looks(profiles: Seq<ProfileView>, current_email: Seq<char>) -> Seq<
    Seq<CellLook>,
> {
    profiles.map_values(|p: ProfileView| row_looks(p, current_email))
}

/// A row is emphasised where it has cells and each carries an attribute.
pub open spec fn is_emphasised(row: Seq<CellLook>) -> bool {
    row.len() > 0 && forall|k: int| 0 <= k < row.len() ==> (#[trigger] row[k]).emphasis.len() > 0
}

/// The row of a profile is emphasised exactly where its e-mail address is
/// the current one; so among profiles with unique keys at most one row is.
pub proof fn lemma_only_active_row_emphasised(
    profiles: Seq<ProfileView>,
    current_email: Seq<char>,
    i: int,
    j: int,
)
    requires
        unique_keys(profiles),
        0 <= i < profiles.len(),
        0 <= j < profiles.len(),
    ensures
        is_emphasised(body_looks(profiles, current_email)[i]) <==> profiles[i].email
            == current_email,
        is_emphasised(body_looks(profiles, current_email)[i]) && is_emphasised(
            body_looks(profiles, current_email)[j],
        ) ==> i == j,
{
    lemma_row_emphasis(profiles[i], current_email);
    lemma_row_emphasis(profiles[j], current_email);
}

/// The row of a profile is emphasised exactly where its e-mail address is
/// the current one.
pub proof fn lemma_row_emphasis(p: ProfileView, current_email: Seq<char>)
    ensures
        is_emphasised(row_looks(p, current_email)) <==> p.email == current_email,
{
    let row = row_looks(p, current_email);
    if p.email != current_email {
        assert(row[0].emphasis.len() == 0);
    }
}

/// `Cell::new` of comfy_table: a cell with the given text, no colour and no
/// attribute.
#[verifier::external_body]
fn new_cell(text: &str) -> (cell: comfy_table::Cell)
    ensures
        cell_look(cell) == (CellLook {
            text: text@,
            tint: None,
            emphasis: Seq::<Emphasis>::empty(),
        }),
{
    comfy_table::Cell::new(text)
}

/// `Cell::fg` of comfy_table: the same cell with the foreground colour set.
#[verifier::external_body]
fn with_tint(cell: comfy_table::Cell, tint: Tint) -> (out: comfy_table::Cell)
    ensures
        cell_look(out) == (CellLook { tint: Some(tint), ..cell_look(cell) }),
{
    cell.fg(
        match tint {
            Tint::DarkYellow => comfy_table::Color::DarkYellow,
            Tint::Green => comfy_table::Color::Green,
            Tint::Blue => comfy_table::Color::Blue,
        },
    )
}

/// `Cell::add_attribute` of comfy_table: the same cell with one more
/// attribute behind those it has.
#[verifier::external_body]
fn with_emphasis(cell: comfy_table::Cell, emphasis: Emphasis) -> (out: comfy_table::Cell)
    ensures
        cell_look(out) == (CellLook {
            emphasis: cell_look(cell).emphasis.push(emphasis),
            ..cell_look(cell)
        }),
{
    cell.add_attribute(
        match emphasis {
            Emphasis::Bold => comfy_table::Attribute::Bold,
            Emphasis::Italic => comfy_table::Attribute::Italic,
        },
    )
}

/// `Table::new` of comfy_table: a table without header and without rows.
#[verifier::external_body]
fn new_table() -> (table: comfy_table::Table)
    ensures
        table_header(table) is None,
        table_rows(table) == Seq::<Seq<CellLook>>::empty(),
{
    comfy_table::Table::new()
}

/// `Table::load_preset` of comfy_table: sets the characters that borders and
/// lines are drawn with, and leaves header and rows as they are.
#[verifier::external_body]
fn load_preset(table: &mut comfy_table::Table, preset: &str)
    ensures
        table_header(*final(table)) == table_header(*old(table)),
        table_rows(*final(table)) == table_rows(*old(table)),
{
    table.load_preset(preset);
}

/// `Table::set_header` of comfy_table: makes `cells` the header and leaves
/// the rows as they are.
#[verifier::external_body]
fn set_header(table: &mut comfy_table::Table, cells: Vec<comfy_table::Cell>)
    ensures
        table_header(*final(table)) == Some(cell_looks(cells@)),
        table_rows(*final(table)) == table_rows(*old(table)),
{
    table.set_header(cells);
}

/// `Table::add_row` of comfy_table: puts a row of `cells` below the rows
/// that the table has and leaves the header as it is.
#[verifier::external_body]
fn add_row(table: &mut comfy_table::Table, cells: Vec<comfy_table::Cell>)
    ensures
        table_header(*final(table)) == table_header(*old(table)),
        table_rows(*final(table)) == table_rows(*old(table)).push(cell_looks(cells@)),
{
    table.add_row(cells);
}

/// The preset that draws every border and line with box-drawing characters.
pub fn frame() -> (preset: &'static str)
    ensures
        preset@ == "││──╞═╪╡┆╌┼├┤┬┴┌┐└┘"@,
{
    "││──╞═╪╡┆╌┼├┤┬┴┌┐└┘"
}

/// A bold cell without colour, for a column title.
fn title_cell(text: &str) -> (cell: comfy_table::Cell)
    ensures
        cell_look(cell) == (CellLook { text: text@, tint: None, emphasis: seq![Emphasis::Bold] }),
{
    let cell = with_emphasis(new_cell(text), Emphasis::Bold);
    assert(cell_look(cell).emphasis =~= seq![Emphasis::Bold]);
    cell
}

/// A coloured cell for one value of a profile, bold and italic where the
/// profile is the active one.
fn value_cell(text: &str, tint: Tint, active: bool) -> (cell: comfy_table::Cell)
    ensures
        cell_look(cell) == (CellLook {
            text: text@,
            tint: Some(tint),
            emphasis: row_emphasis(active),
        }),
{
    let plain = with_tint(new_cell(text), tint);
    if active {
        let cell = with_emphasis(with_emphasis(plain, Emphasis::Bold), Emphasis::Italic);
        assert(cell_look(cell).emphasis =~= row_emphasis(true));
        cell
    } else {
        plain
    }
}

/// The three title cells.
fn header_cells() -> (cells: Vec<comfy_table::Cell>)
    ensures
        cell_looks(cells@) == header_looks(),
{
    let mut cells: Vec<comfy_table::Cell> = Vec::new();
    cells.push(title_cell("Alias"));
    cells.push(title_cell("Name"));
    cells.push(title_cell("Email"));
    assert(cell_looks(cells@) =~= header_looks());
    cells
}

/// The three cells of the row of `profile`.
fn profile_cells(profile: &Profile, current_email: &str) -> (cells: Vec<comfy_table::Cell>)
    ensures
        cell_looks(cells@) == row_looks(profile@, current_email@),
{
    let active = same_text(profile.email.as_str(), current_email);
    let mut cells: Vec<comfy_table::Cell> = Vec::new();
    cells.push(value_cell(profile.alias.as_str(), Tint::DarkYellow, active));
    cells.push(value_cell(profile.name.as_str(), Tint::Green, active));
    cells.push(value_cell(profile.email.as_str(), Tint::Blue, active));
    assert(cell_looks(cells@) =~= row_looks(profile@, current_email@));
    cells
}

/// The table of `profiles`: the header with the three column titles, then
/// one row per profile in the order given. The cells of a row are emphasised
/// exactly where the e-mail address of its profile is `current_email`.
pub fn profile_table(profiles: &Vec<Profile>, current_email: &str) -> (table: comfy_table::Table)
    ensures
        table_header(table) == Some(header_looks()),
        table_rows(table) == body_looks(profile_views(profiles@), current_email@),
{
    let mut table = new_table();
    load_preset(&mut table, frame());
    set_header(&mut table, header_cells());
    let mut i: usize = 0;
    while i < profiles.len()
        invariant
            i <= profiles.len(),
            table_header(table) == Some(header_looks()),
            table_rows(table) == body_looks(profile_views(profiles@), current_email@).take(
                i as int,
            ),
        decreases profiles.len() - i,
    {
        add_row(&mut table, profile_cells(&profiles[i], current_email));
        proof {
            let body = body_looks(profile_views(profiles@), current_email@);
            assert(body.take(i as int).push(body[i as int]) =~= body.take(i + 1));
        }
        i += 1;
    }
    proof {
        let body = body_looks(profile_views(profiles@), current_email@);
        assert(body.take(body.len() as int) =~= body);
    }
    table
}

} // verus!
