use music_manager::{get_tables_from_columns, same_text, select, Conditional, ParseError, TableColumn};

#[test]
fn from_lists_each_table_once_in_first_occurrence_order() {
    let columns = [
        TableColumn::Rolas("titulo"),
        TableColumn::Albums("nombre"),
        TableColumn::Rolas("id"),
    ];
    assert_eq!(get_tables_from_columns(&columns), "rolas, albums");
    assert_eq!(
        select(&columns, &[]),
        "SELECT rolas.titulo, albums.nombre, rolas.id FROM rolas, albums"
    );
}

#[test]
fn from_skips_repeated_table_at_the_end() {
    let columns = [
        TableColumn::Albums("a"),
        TableColumn::Performers("b"),
        TableColumn::Albums("c"),
        TableColumn::Albums("d"),
    ];
    assert_eq!(get_tables_from_columns(&columns), "albums, performers");
}

#[test]
fn from_of_a_single_table() {
    let columns = [TableColumn::Groups("x"), TableColumn::Groups("y")];
    assert_eq!(get_tables_from_columns(&columns), "groups");
}

#[test]
fn from_of_all_tables() {
    let columns = [
        TableColumn::InGroup("id"),
        TableColumn::Types("id"),
        TableColumn::Performers("id"),
        TableColumn::Persons("id"),
        TableColumn::Groups("id"),
        TableColumn::Albums("id"),
        TableColumn::Rolas("id"),
        TableColumn::Types("nombre"),
    ];
    assert_eq!(
        get_tables_from_columns(&columns),
        "in_group, types, performers, persons, groups, albums, rolas"
    );
}

#[test]
fn select_lists_every_column_in_order() {
    let q = select(&[TableColumn::Performers("nombre")], &[]);
    assert!(q.starts_with("SELECT performers.nombre FROM performers"));
    assert_eq!(q, "SELECT performers.nombre FROM performers");
}

#[test]
fn select_keeps_repeated_columns() {
    let columns = [TableColumn::Types("nombre"), TableColumn::Types("nombre")];
    assert_eq!(
        select(&columns, &[]),
        "SELECT types.nombre, types.nombre FROM types"
    );
}

#[test]
fn select_with_no_columns() {
    assert_eq!(select(&[], &[]), "SELECT  FROM ");
}

#[test]
fn no_where_without_conditionals() {
    let q = select(&[TableColumn::Types("nombre")], &[]);
    assert_eq!(q, "SELECT types.nombre FROM types");
    assert!(!q.contains("WHERE"));
}

#[test]
fn where_with_one_conditional() {
    let q = select(
        &[TableColumn::Types("nombre")],
        &[Conditional::EqVal(TableColumn::Types("nombre"), "rock")],
    );
    assert_eq!(q, "SELECT types.nombre FROM types WHERE types.nombre = 'rock'");
}

#[test]
fn where_joins_conditionals_with_and() {
    let q = select(
        &[TableColumn::Rolas("titulo")],
        &[
            Conditional::Like(TableColumn::Rolas("titulo"), "amor"),
            Conditional::EqVal(TableColumn::Rolas("genero"), "pop"),
            Conditional::Eq(TableColumn::Rolas("album_id"), TableColumn::Albums("id")),
        ],
    );
    assert_eq!(
        q,
        "SELECT rolas.titulo FROM rolas WHERE rolas.titulo LIKE '%amor%' AND rolas.genero = 'pop' AND rolas.album_id = albums.id"
    );
}

#[test]
fn like_wraps_literal_in_wildcards() {
    let c = Conditional::Like(TableColumn::Rolas("titulo"), "amor");
    assert_eq!(c.to_string(), "rolas.titulo LIKE '%amor%'");
}

#[test]
fn eq_val_quotes_literal_verbatim() {
    let c = Conditional::EqVal(TableColumn::Persons("nombre"), "O'Brien");
    assert_eq!(c.to_string(), "persons.nombre = 'O'Brien'");
}

#[test]
fn eq_renders_two_qualified_names() {
    let c = Conditional::Eq(TableColumn::InGroup("group_id"), TableColumn::Groups("id"));
    assert_eq!(c.to_string(), "in_group.group_id = groups.id");
}

#[test]
fn qualified_names_of_every_table() {
    assert_eq!(TableColumn::Types("c").to_string(), "types.c");
    assert_eq!(TableColumn::Performers("c").to_string(), "performers.c");
    assert_eq!(TableColumn::Persons("c").to_string(), "persons.c");
    assert_eq!(TableColumn::Groups("c").to_string(), "groups.c");
    assert_eq!(TableColumn::Albums("c").to_string(), "albums.c");
    assert_eq!(TableColumn::Rolas("c").to_string(), "rolas.c");
    assert_eq!(TableColumn::InGroup("c").to_string(), "in_group.c");
}

#[test]
fn table_of_every_column() {
    assert_eq!(TableColumn::Types("c").as_table(), "types");
    assert_eq!(TableColumn::Performers("c").as_table(), "performers");
    assert_eq!(TableColumn::Persons("c").as_table(), "persons");
    assert_eq!(TableColumn::Groups("c").as_table(), "groups");
    assert_eq!(TableColumn::Albums("c").as_table(), "albums");
    assert_eq!(TableColumn::Rolas("c").as_table(), "rolas");
    assert_eq!(TableColumn::InGroup("c").as_table(), "in_group");
    assert_eq!(TableColumn::Albums("nombre").column(), "nombre");
}

#[test]
fn parse_singular_and_plural_alias() {
    let a = TableColumn::from_str("type", "nombre").unwrap();
    let b = TableColumn::from_str("types", "nombre").unwrap();
    assert_eq!(a, TableColumn::Types("nombre"));
    assert_eq!(b, TableColumn::Types("nombre"));
    assert_eq!(a.to_string(), "types.nombre");
    assert_eq!(b.to_string(), "types.nombre");
}

#[test]
fn parse_every_alias() {
    let cases = [
        ("performers", TableColumn::Performers("x")),
        ("performer", TableColumn::Performers("x")),
        ("persons", TableColumn::Persons("x")),
        ("person", TableColumn::Persons("x")),
        ("groups", TableColumn::Groups("x")),
        ("group", TableColumn::Groups("x")),
        ("albums", TableColumn::Albums("x")),
        ("album", TableColumn::Albums("x")),
        ("rolas", TableColumn::Rolas("x")),
        ("rola", TableColumn::Rolas("x")),
        ("in_group", TableColumn::InGroup("x")),
    ];
    for (table, expected) in cases {
        assert_eq!(TableColumn::from_str(table, "x"), Ok(expected));
    }
}

#[test]
fn parse_unknown_table_is_an_error() {
    let r = TableColumn::from_str("unknown_table", "x");
    assert_eq!(r, Err(ParseError::UnknownTable));
    assert_eq!(r.unwrap_err().message(), "unknown table");
}

#[test]
fn parse_rejects_near_misses() {
    for table in ["", "Types", "typess", "in_groups", "ingroup", "rol", " types"] {
        assert_eq!(TableColumn::from_str(table, "x"), Err(ParseError::UnknownTable));
    }
}

#[test]
fn select_is_idempotent() {
    let columns = [TableColumn::Albums("nombre"), TableColumn::Rolas("titulo")];
    let conditionals = [Conditional::Like(TableColumn::Rolas("titulo"), "sol")];
    let first = select(&columns, &conditionals);
    let second = select(&columns, &conditionals);
    assert_eq!(first, second);
}

#[test]
fn end_to_end_albums_and_performers() {
    let q = select(
        &[TableColumn::Albums("nombre"), TableColumn::Performers("nombre")],
        &[Conditional::Eq(TableColumn::Albums("performer_id"), TableColumn::Performers("id"))],
    );
    assert_eq!(
        q,
        "SELECT albums.nombre, performers.nombre FROM albums, performers WHERE albums.performer_id = performers.id"
    );
}

#[test]
fn text_comparison() {
    assert!(same_text("types", "types"));
    assert!(!same_text("types", "type"));
    assert!(!same_text("rolas", "rolaz"));
    assert!(same_text("", ""));
    assert!(same_text("canción", "canción"));
}
