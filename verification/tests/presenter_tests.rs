use comfy_table::{Attribute, Cell, Color, Table};
use git_profiles::presenter::{frame, profile_table};
use git_profiles::profile::Profile;

fn profiles() -> Vec<Profile> {
    vec![Profile::new("Alice", "alice@x.com", "work"), Profile::new("Bob", "bob@x.com", "home")]
}

fn cells_of(table: &Table, row: usize) -> Vec<Cell> {
    table.row(row).unwrap().cell_iter().cloned().collect()
}

fn plain_row(alias: &str, name: &str, email: &str) -> Vec<Cell> {
    vec![
        Cell::new(alias).fg(Color::DarkYellow),
        Cell::new(name).fg(Color::Green),
        Cell::new(email).fg(Color::Blue),
    ]
}

fn active_row(alias: &str, name: &str, email: &str) -> Vec<Cell> {
    plain_row(alias, name, email)
        .into_iter()
        .map(|c| c.add_attribute(Attribute::Bold).add_attribute(Attribute::Italic))
        .collect()
}

#[test]
fn frame_is_the_full_utf8_preset() {
    assert_eq!(frame(), comfy_table::presets::UTF8_FULL);
    assert_eq!(frame().chars().count(), 19);
}

#[test]
fn header_has_three_bold_titles() {
    let table = profile_table(&profiles(), "");
    let header: Vec<Cell> = table.header().unwrap().cell_iter().cloned().collect();
    assert_eq!(
        header,
        vec![
            Cell::new("Alias").add_attribute(Attribute::Bold),
            Cell::new("Name").add_attribute(Attribute::Bold),
            Cell::new("Email").add_attribute(Attribute::Bold),
        ]
    );
}

#[test]
fn empty_list_gives_header_only() {
    let table = profile_table(&Vec::new(), "bob@x.com");
    assert!(table.header().is_some());
    assert_eq!(table.row_count(), 0);
}

#[test]
fn rows_follow_the_order_of_the_profiles() {
    let table = profile_table(&profiles(), "nobody@x.com");
    assert_eq!(table.row_count(), 2);
    assert_eq!(cells_of(&table, 0), plain_row("work", "Alice", "alice@x.com"));
    assert_eq!(cells_of(&table, 1), plain_row("home", "Bob", "bob@x.com"));
}

#[test]
fn row_of_current_email_is_bold_and_italic() {
    let table = profile_table(&profiles(), "bob@x.com");
    assert_eq!(cells_of(&table, 0), plain_row("work", "Alice", "alice@x.com"));
    assert_eq!(cells_of(&table, 1), active_row("home", "Bob", "bob@x.com"));
    let table = profile_table(&profiles(), "alice@x.com");
    assert_eq!(cells_of(&table, 0), active_row("work", "Alice", "alice@x.com"));
    assert_eq!(cells_of(&table, 1), plain_row("home", "Bob", "bob@x.com"));
}

#[test]
fn current_email_is_matched_exactly() {
    for current in ["", "bob@x.co", "Bob@x.com", "bob@x.com ", "ob@x.com"] {
        let table = profile_table(&profiles(), current);
        assert_eq!(cells_of(&table, 0), plain_row("work", "Alice", "alice@x.com"));
        assert_eq!(cells_of(&table, 1), plain_row("home", "Bob", "bob@x.com"));
    }
}

#[test]
fn table_renders_with_box_drawing_borders() {
    let mut table = profile_table(&profiles(), "bob@x.com");
    table.force_no_tty();
    let expected = [
        "┌───────┬───────┬─────────────┐",
        "│ Alias ┆ Name  ┆ Email       │",
        "╞═══════╪═══════╪═════════════╡",
        "│ work  ┆ Alice ┆ alice@x.com │",
        "├╌╌╌╌╌╌╌┼╌╌╌╌╌╌╌┼╌╌╌╌╌╌╌╌╌╌╌╌╌┤",
        "│ home  ┆ Bob   ┆ bob@x.com   │",
        "└───────┴───────┴─────────────┘",
    ]
    .join("\n");
    assert_eq!(table.to_string(), expected);
}

#[test]
fn styled_rendering_marks_only_the_active_row() {
    let mut table = profile_table(&profiles(), "bob@x.com");
    table.enforce_styling();
    let lines: Vec<String> = table.lines().collect();
    let alice = lines.iter().find(|l| l.contains("alice@x.com")).unwrap();
    let bob = lines.iter().find(|l| l.contains("bob@x.com")).unwrap();
    assert!(bob.contains("\u{1b}[1m"));
    assert!(bob.contains("\u{1b}[3m"));
    assert!(!alice.contains("\u{1b}[1m"));
    assert!(!alice.contains("\u{1b}[3m"));
}
