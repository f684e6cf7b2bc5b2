use prisma_d2::{
    render, Attribute, D2Diagram, D2Relation, D2SqlColumn, D2SqlTable, Field, FieldType, Model,
    Schema, SqlConstraint,
};

fn column(name: &str, datatype: &str, constraints: Vec<SqlConstraint>) -> D2SqlColumn {
    D2SqlColumn { name: name.to_string(), datatype: datatype.to_string(), constraints }
}

fn supported(name: &str, datatype: &str, attributes: &[&str]) -> Field {
    Field {
        name: name.to_string(),
        field_type: FieldType::Supported(datatype.to_string()),
        attributes: attributes.iter().map(|a| Attribute { name: a.to_string() }).collect(),
    }
}

#[test]
fn constraint_keywords() {
    assert_eq!(SqlConstraint::PrimaryKey.to_string(), "primary_key");
    assert_eq!(SqlConstraint::ForeignKey.to_string(), "foreign_key");
    assert_eq!(SqlConstraint::Unique.to_string(), "unique");
}

#[test]
fn constraint_list_of_nothing_is_empty() {
    assert_eq!(column("id", "Int", vec![]).constraint_list(), "");
}

#[test]
fn constraint_list_of_one_has_no_separator() {
    assert_eq!(column("id", "Int", vec![SqlConstraint::Unique]).constraint_list(), "unique");
}

#[test]
fn constraint_list_joins_with_semicolon_and_space() {
    let c = column(
        "id",
        "Int",
        vec![SqlConstraint::PrimaryKey, SqlConstraint::ForeignKey, SqlConstraint::Unique],
    );
    assert_eq!(c.constraint_list(), "primary_key; foreign_key; unique");
}

#[test]
fn plain_column_line() {
    assert_eq!(column("name", "String", vec![]).to_string(), "\tname: String\n");
}

#[test]
fn column_line_with_one_constraint() {
    assert_eq!(
        column("id", "Int", vec![SqlConstraint::PrimaryKey]).to_string(),
        "\tid: Int { constraint: [primary_key] }\n"
    );
}

#[test]
fn column_line_lists_constraints_in_attachment_order() {
    assert_eq!(
        column("id", "Int", vec![SqlConstraint::Unique, SqlConstraint::PrimaryKey]).to_string(),
        "\tid: Int { constraint: [unique; primary_key] }\n"
    );
}

#[test]
fn column_line_with_foreign_key() {
    assert_eq!(
        column("authorId", "Int", vec![SqlConstraint::ForeignKey]).to_string(),
        "\tauthorId: Int { constraint: [foreign_key] }\n"
    );
}

#[test]
fn table_block_without_columns() {
    let t = D2SqlTable::with_name("Empty".to_string());
    assert_eq!(t.to_string(), "Empty {\n\tshape: sql_table\n}");
}

#[test]
fn table_block_with_columns_in_order() {
    let t = D2SqlTable {
        name: "User".to_string(),
        columns: vec![
            column("id", "Int", vec![SqlConstraint::PrimaryKey]),
            column("name", "String", vec![]),
            column("email", "String", vec![SqlConstraint::Unique]),
        ],
    };
    assert_eq!(
        t.to_string(),
        "User {\n\tshape: sql_table\n\tid: Int { constraint: [primary_key] }\n\tname: String\n\temail: String { constraint: [unique] }\n}"
    );
}

#[test]
fn relation_line_without_label() {
    let r = D2Relation { from: "Post".to_string(), to: "User".to_string(), label: None };
    assert_eq!(r.to_string(), "Post -> User");
}

#[test]
fn relation_line_with_label() {
    let r = D2Relation {
        from: "Post".to_string(),
        to: "User".to_string(),
        label: Some("author".to_string()),
    };
    assert_eq!(r.to_string(), "Post -> User: author");
}

#[test]
fn relation_line_with_empty_label_keeps_the_colon() {
    let r =
        D2Relation { from: "Post".to_string(), to: "User".to_string(), label: Some(String::new()) };
    assert_eq!(r.to_string(), "Post -> User: ");
}

#[test]
fn empty_diagram_has_no_text() {
    assert_eq!(D2Diagram::new().to_string(), "");
}

#[test]
fn diagram_separates_blocks_with_empty_lines() {
    let d = D2Diagram {
        sql_tables: vec![
            D2SqlTable::with_name("A".to_string()),
            D2SqlTable { name: "B".to_string(), columns: vec![column("x", "Int", vec![])] },
        ],
        relations: vec![
            D2Relation { from: "B".to_string(), to: "A".to_string(), label: None },
            D2Relation { from: "A".to_string(), to: "B".to_string(), label: Some("back".to_string()) },
        ],
    };
    assert_eq!(
        d.to_string(),
        "A {\n\tshape: sql_table\n}\n\nB {\n\tshape: sql_table\n\tx: Int\n}\n\nB -> A\n\nA -> B: back\n\n"
    );
}

#[test]
fn diagram_keeps_tables_before_relations_without_sorting() {
    let d = D2Diagram {
        sql_tables: vec![D2SqlTable::with_name("Z".to_string()), D2SqlTable::with_name("A".to_string())],
        relations: vec![
            D2Relation { from: "Z".to_string(), to: "A".to_string(), label: None },
            D2Relation { from: "A".to_string(), to: "Z".to_string(), label: None },
            D2Relation { from: "Z".to_string(), to: "A".to_string(), label: None },
        ],
    };
    assert_eq!(
        d.to_string(),
        "Z {\n\tshape: sql_table\n}\n\nA {\n\tshape: sql_table\n}\n\nZ -> A\n\nA -> Z\n\nZ -> A\n\n"
    );
}

#[test]
fn names_are_written_as_they_stand() {
    let d = D2Diagram {
        sql_tables: vec![D2SqlTable {
            name: "Stra\u{00df}e".to_string(),
            columns: vec![column("l\u{00e4}nge", "D\u{00e9}cimal", vec![])],
        }],
        relations: vec![],
    };
    assert_eq!(
        d.to_string(),
        "Stra\u{00df}e {\n\tshape: sql_table\n\tl\u{00e4}nge: D\u{00e9}cimal\n}\n\n"
    );
}

#[test]
fn user_model_with_id_and_unique_email() {
    let schema = Schema {
        models: vec![Model {
            name: "User".to_string(),
            fields: vec![supported("id", "Int", &["id"]), supported("email", "String", &["unique"])],
        }],
    };
    let text = render(&schema).to_string();
    let expected = "User {\n\
                    \tshape: sql_table\n\
                    \tid: Int { constraint: [primary_key] }\n\
                    \temail: String { constraint: [unique] }\n\
                    }\n\n";
    assert_eq!(text, expected);
}

#[test]
fn post_author_relation_line_comes_after_all_table_blocks() {
    let schema = Schema {
        models: vec![
            Model { name: "Post".to_string(), fields: vec![supported("author", "User", &["relation"])] },
            Model { name: "User".to_string(), fields: vec![supported("id", "Int", &["id"])] },
        ],
    };
    let text = render(&schema).to_string();
    assert_eq!(
        text,
        "Post {\n\tshape: sql_table\n\tauthor: User\n}\n\n\
         User {\n\tshape: sql_table\n\tid: Int { constraint: [primary_key] }\n}\n\n\
         Post -> User\n\n"
    );
    let line = text.find("Post -> User").unwrap();
    let last_block_end = text.rfind("}").unwrap();
    assert!(last_block_end < line);
    assert_eq!(text.matches("Post -> User").count(), 1);
}

#[test]
fn model_with_zero_fields_renders_only_name_shape_and_braces() {
    let schema = Schema { models: vec![Model { name: "Empty".to_string(), fields: vec![] }] };
    let text = render(&schema).to_string();
    assert_eq!(text, "Empty {\n\tshape: sql_table\n}\n\n");
    assert_eq!(text.lines().collect::<Vec<_>>(), vec!["Empty {", "\tshape: sql_table", "}", ""]);
}

#[test]
fn serializing_twice_gives_the_same_text() {
    let schema = Schema {
        models: vec![
            Model {
                name: "User".to_string(),
                fields: vec![supported("id", "Int", &["id"]), supported("posts", "Post", &["relation"])],
            },
            Model { name: "Post".to_string(), fields: vec![supported("author", "User", &["relation"])] },
        ],
    };
    let first = render(&schema).to_string();
    let second = render(&schema.clone()).to_string();
    assert_eq!(first, second);
    let diagram = render(&schema);
    assert_eq!(diagram.to_string(), diagram.to_string());
}

#[test]
fn text_keeps_model_and_field_order() {
    let schema = Schema {
        models: vec![
            Model {
                name: "Second".to_string(),
                fields: vec![supported("zeta", "Int", &[]), supported("alpha", "Int", &[])],
            },
            Model { name: "First".to_string(), fields: vec![supported("only", "Int", &[])] },
        ],
    };
    let text = render(&schema).to_string();
    let second = text.find("Second {").unwrap();
    let zeta = text.find("\tzeta: Int").unwrap();
    let alpha = text.find("\talpha: Int").unwrap();
    let first = text.find("First {").unwrap();
    let only = text.find("\tonly: Int").unwrap();
    assert_eq!(second, 0);
    assert!(second < zeta && zeta < alpha && alpha < first && first < only);
}

#[test]
fn id_and_unique_show_in_the_line_and_neither_shows_no_annotation() {
    let schema = Schema {
        models: vec![Model {
            name: "T".to_string(),
            fields: vec![
                supported("a", "Int", &["id"]),
                supported("b", "Int", &["unique"]),
                supported("c", "Int", &["default"]),
                supported("d", "Int", &["unique", "id"]),
            ],
        }],
    };
    let text = render(&schema).to_string();
    let lines: Vec<&str> = text.lines().collect();
    assert_eq!(lines[2], "\ta: Int { constraint: [primary_key] }");
    assert_eq!(lines[3], "\tb: Int { constraint: [unique] }");
    assert_eq!(lines[4], "\tc: Int");
    assert_eq!(lines[5], "\td: Int { constraint: [unique; primary_key] }");
}

#[test]
fn only_relation_fields_give_relation_lines() {
    let schema = Schema {
        models: vec![Model {
            name: "Post".to_string(),
            fields: vec![
                supported("id", "Int", &["id"]),
                supported("author", "User", &["relation"]),
                supported("title", "String", &[]),
                supported("editor", "User", &["relation"]),
            ],
        }],
    };
    let text = render(&schema).to_string();
    let after_block = &text[text.find("}\n\n").unwrap() + 3..];
    assert_eq!(after_block, "Post -> User\n\nPost -> User\n\n");
    assert_eq!(text.matches(" -> ").count(), 2);
}

#[test]
fn unsupported_type_token_shows_as_the_datatype() {
    let schema = Schema {
        models: vec![Model {
            name: "Place".to_string(),
            fields: vec![Field {
                name: "at".to_string(),
                field_type: FieldType::Unsupported("geometry(Point, 4326)".to_string()),
                attributes: vec![],
            }],
        }],
    };
    assert_eq!(
        render(&schema).to_string(),
        "Place {\n\tshape: sql_table\n\tat: geometry(Point, 4326)\n}\n\n"
    );
}
