use bevy_erm::prelude::{
    ColumnDefinition, ColumnName, ConfigurationError, ErmTypesRegistry, FieldAttribute, FieldConstraint,
    FieldDescriptor, Key, MaxLength, PrimitiveKind, Reference, SqlType, StructDescriptor, TableDefinition,
    TableName, TypeShape, Unique,
};
use bevy_erm::derivation::{field_definition, rust_to_sql_type};

fn field(name: &str, shape: TypeShape, attributes: Vec<FieldAttribute>) -> FieldDescriptor {
    FieldDescriptor { name: name.to_owned(), shape: Some(shape), attributes }
}

fn prim(k: PrimitiveKind) -> TypeShape {
    TypeShape::Primitive(k)
}

fn optional(inner: TypeShape) -> TypeShape {
    TypeShape::Optional(Box::new(inner))
}

fn list(inner: TypeShape) -> TypeShape {
    TypeShape::Collection(Box::new(inner))
}

fn strukt(name: &str) -> TypeShape {
    TypeShape::Struct(name.to_owned())
}

fn descriptor(name: &str, table: Option<&str>, fields: Vec<FieldDescriptor>) -> StructDescriptor {
    StructDescriptor {
        name: name.to_owned(),
        named_fields: true,
        table_name: table.map(TableName::new),
        fields,
    }
}

fn player() -> StructDescriptor {
    descriptor(
        "Player",
        Some("Players"),
        vec![
            field("id", prim(PrimitiveKind::I64), vec![FieldAttribute::Key(Key)]),
            field("name", prim(PrimitiveKind::Text), vec![FieldAttribute::MaxLength(MaxLength::new(64))]),
            field("comments", optional(prim(PrimitiveKind::Text)), vec![]),
        ],
    )
}

fn zombie() -> StructDescriptor {
    descriptor(
        "Zombie",
        Some("Zombies"),
        vec![
            field("id", prim(PrimitiveKind::I64), vec![FieldAttribute::Key(Key)]),
            field(
                "target",
                optional(strukt("Player")),
                vec![FieldAttribute::Reference(Reference::new("Player", "id"))],
            ),
        ],
    )
}

fn game_mode() -> StructDescriptor {
    descriptor(
        "GameMode",
        Some("GameModes"),
        vec![
            field("id", prim(PrimitiveKind::I64), vec![FieldAttribute::Key(Key)]),
            field(
                "spawn_points",
                list(strukt("SpawnPoint")),
                vec![FieldAttribute::Reference(Reference::new("SpawnPoints", "id"))],
            ),
        ],
    )
}

fn spawn_point() -> StructDescriptor {
    descriptor(
        "SpawnPoint",
        Some("SpawnPoints"),
        vec![
            field("id", prim(PrimitiveKind::I64), vec![FieldAttribute::Key(Key)]),
            field("location", TypeShape::FixedWidth, vec![]),
        ],
    )
}

fn prepared_registry() -> ErmTypesRegistry {
    let mut registry = ErmTypesRegistry::default();
    let player_name = registry.register_type(&player()).unwrap();
    let zombie_name = registry.register_type(&zombie()).unwrap();
    let game_mode_name = registry.register_type(&game_mode()).unwrap();
    let spawn_point_name = registry.register_type(&spawn_point()).unwrap();
    assert!(player_name.is_some());
    assert!(zombie_name.is_some());
    assert!(game_mode_name.is_some());
    assert!(spawn_point_name.is_some());
    registry
}

fn check_key_column(table_def: &TableDefinition) {
    assert!(table_def.get("id").unwrap().is_key());
    assert!(table_def.get("id").unwrap().is_not_null());
    assert!(!table_def.get("id").unwrap().is_reference());
    assert!(!table_def.get("id").unwrap().is_unique());
    assert!(!table_def.get("id").unwrap().has_max_length());
    assert_eq!(table_def.get("id").unwrap().sql_type, SqlType::Integer(64, true));
}

#[test]
fn basic_table_mapping() {
    let erm_types_registry = prepared_registry();
    assert!(erm_types_registry.get_table_definition("Player").is_some());
    assert!(erm_types_registry.get_table_definition("Players").is_some());

    let table_def = erm_types_registry.get_table_definition("Player").unwrap();

    assert_eq!(table_def.no_fields(), 3);
    assert!(table_def.get("id").is_some());
    assert!(table_def.get("name").is_some());
    assert!(table_def.get("comments").is_some());

    check_key_column(table_def);

    assert!(!table_def.get("name").unwrap().is_key());
    assert!(table_def.get("name").unwrap().is_not_null());
    assert!(!table_def.get("name").unwrap().is_reference());
    assert!(!table_def.get("name").unwrap().is_unique());
    assert!(table_def.get("name").unwrap().has_max_length());
    assert_eq!(table_def.get("name").unwrap().sql_type, SqlType::Text(true));

    assert!(!table_def.get("comments").unwrap().is_key());
    assert!(!table_def.get("comments").unwrap().is_not_null());
    assert!(!table_def.get("comments").unwrap().is_reference());
    assert!(!table_def.get("comments").unwrap().is_unique());
    assert!(!table_def.get("comments").unwrap().has_max_length());
    assert_eq!(table_def.get("comments").unwrap().sql_type, SqlType::Text(false));
}

#[test]
fn basic_table_mapping_with_relation() {
    let erm_types_registry = prepared_registry();
    assert!(erm_types_registry.get_table_definition("Zombie").is_some());
    assert!(erm_types_registry.get_table_definition("Zombies").is_some());

    let table_def = erm_types_registry.get_table_definition("Zombie").unwrap();

    assert_eq!(table_def.no_fields(), 2);
    assert!(table_def.get("id").is_some());
    assert!(table_def.get("target").is_some());

    check_key_column(table_def);

    assert!(!table_def.get("target").unwrap().is_key());
    assert!(!table_def.get("target").unwrap().is_not_null());
    assert!(table_def.get("target").unwrap().is_reference());
    assert!(!table_def.get("target").unwrap().is_unique());
    assert!(!table_def.get("target").unwrap().has_max_length());

    let target_column = table_def.get("target").unwrap();
    assert!(target_column.is_reference());
    assert_eq!(
        target_column.get_refence().unwrap(),
        FieldConstraint::Reference("Player".to_owned(), "id".to_owned())
    );

    // A relation behind an option is loaded lazily.
    assert_eq!(
        table_def.get("target").unwrap().sql_type,
        SqlType::One2One("Player".to_owned(), false)
    );
}

#[test]
fn many_to_many() {
    let erm_types_registry = prepared_registry();
    assert!(erm_types_registry.get_table_definition("GameMode").is_some());
    assert!(erm_types_registry.get_table_definition("GameModes").is_some());

    let table_def = erm_types_registry.get_table_definition("GameMode").unwrap();

    assert_eq!(table_def.no_fields(), 2);
    assert!(table_def.get("id").is_some());
    assert!(table_def.get("spawn_points").is_some());

    check_key_column(table_def);

    assert!(!table_def.get("spawn_points").unwrap().is_key());
    assert!(!table_def.get("spawn_points").unwrap().is_not_null());
    assert!(table_def.get("spawn_points").unwrap().is_reference());
    assert!(!table_def.get("spawn_points").unwrap().is_unique());
    assert!(!table_def.get("spawn_points").unwrap().has_max_length());

    let target_column = table_def.get("spawn_points").unwrap();
    assert!(target_column.is_reference());
    assert_eq!(
        target_column.get_refence().unwrap(),
        FieldConstraint::Reference("SpawnPoints".to_owned(), "id".to_owned())
    );

    // A relation that is not behind an option is loaded eagerly.
    assert_eq!(
        table_def.get("spawn_points").unwrap().sql_type,
        SqlType::Many2Many("SpawnPoint".to_owned(), true)
    );
}

#[test]
fn player_scenario() {
    let mut registry = ErmTypesRegistry::new();
    let d = descriptor(
        "Player",
        Some("Players"),
        vec![
            field(
                "key",
                prim(PrimitiveKind::I32),
                vec![FieldAttribute::Key(Key), FieldAttribute::ColumnName(ColumnName::new("id"))],
            ),
            field("name", prim(PrimitiveKind::Text), vec![FieldAttribute::MaxLength(MaxLength::new(64))]),
            field(
                "comment",
                optional(prim(PrimitiveKind::Text)),
                vec![FieldAttribute::MaxLength(MaxLength::new(128))],
            ),
        ],
    );
    let sql_name = registry.register_type(&d).unwrap();
    assert_eq!(sql_name, Some("Players".to_owned()));
    let table = registry.get_table_definition("Players").unwrap();
    assert_eq!(table.sql_name, "Players");
    assert_eq!(table.rust_name, "Player");
    assert_eq!(table.no_fields(), 3);

    let id = table.get("id").unwrap();
    assert_eq!(id.rust_name, "key");
    assert_eq!(id.sql_type, SqlType::Integer(32, true));
    assert_eq!(id.constraints, vec![FieldConstraint::Key]);
    assert_eq!(id.order, 0);

    let name = table.get("name").unwrap();
    assert_eq!(name.sql_type, SqlType::Text(true));
    assert_eq!(name.constraints, vec![FieldConstraint::MaxLength(64)]);
    assert_eq!(name.get_max_length(), Some(64));

    let comment = table.get("comment").unwrap();
    assert_eq!(comment.sql_type, SqlType::Text(false));
    assert_eq!(comment.constraints, vec![FieldConstraint::MaxLength(128)]);
    assert_eq!(comment.get_max_length(), Some(128));
    assert_eq!(comment.order, 2);

    // The native field name finds the renamed column too.
    assert_eq!(table.get("key").unwrap().sql_name, "id");
}

#[test]
fn register_twice_returns_nothing_and_keeps_table() {
    let mut registry = ErmTypesRegistry::new();
    assert_eq!(registry.register_type(&player()).unwrap(), Some("Players".to_owned()));
    assert_eq!(registry.register_type(&player()).unwrap(), None);
    assert_eq!(registry.no_tables(), 1);
    let table = registry.get_table_definition("Player").unwrap();
    assert_eq!(table.no_fields(), 3);
    assert_eq!(table.sql_name, "Players");
}

#[test]
fn register_taken_sql_name_is_refused() {
    let mut registry = ErmTypesRegistry::new();
    assert!(registry.register_type(&player()).unwrap().is_some());
    let other = descriptor("Gamer", Some("Players"), vec![field("id", prim(PrimitiveKind::U8), vec![])]);
    assert_eq!(registry.register_type(&other).unwrap(), None);
    assert!(registry.get_table_definition("Gamer").is_none());
    assert_eq!(registry.no_tables(), 1);
}

#[test]
fn register_tuple_struct_is_refused() {
    let mut registry = ErmTypesRegistry::new();
    let mut d = descriptor("Pair", None, vec![field("0", prim(PrimitiveKind::U8), vec![])]);
    d.named_fields = false;
    assert_eq!(registry.register_type(&d).unwrap(), None);
    assert_eq!(registry.no_tables(), 0);
}

#[test]
fn register_without_rename_uses_native_name() {
    let mut registry = ErmTypesRegistry::new();
    let d = descriptor("Item", None, vec![field("weight", prim(PrimitiveKind::Float32), vec![])]);
    assert_eq!(registry.register_type(&d).unwrap(), Some("Item".to_owned()));
    let t = registry.get_table_definition("Item").unwrap();
    assert_eq!(t.sql_name, "Item");
    assert_eq!(t.get("weight").unwrap().sql_type, SqlType::Float(32, true));
}

#[test]
fn lookup_by_both_names_finds_same_table() {
    let registry = prepared_registry();
    let by_native = registry.get_table_definition("SpawnPoint").unwrap();
    let by_sql = registry.get_table_definition("SpawnPoints").unwrap();
    assert!(std::ptr::eq(by_native, by_sql));
    assert!(registry.get_table_definition("Nothing").is_none());
}

#[test]
fn column_count_skips_unknown_and_duplicates() {
    let mut registry = ErmTypesRegistry::new();
    let d = descriptor(
        "Thing",
        None,
        vec![
            field("a", prim(PrimitiveKind::U16), vec![]),
            FieldDescriptor { name: "b".to_owned(), shape: None, attributes: vec![] },
            field("c", prim(PrimitiveKind::Bool), vec![FieldAttribute::ColumnName(ColumnName::new("a"))]),
            field("d", prim(PrimitiveKind::U128), vec![]),
        ],
    );
    assert!(registry.register_type(&d).unwrap().is_some());
    let t = registry.get_table_definition("Thing").unwrap();
    assert_eq!(t.no_fields(), 2);
    // The first column named "a" stays.
    assert_eq!(t.get("a").unwrap().sql_type, SqlType::UnsingedInteger(16, true));
    assert_eq!(t.get("d").unwrap().order, 3);
    assert!(t.get("b").is_none());
}

#[test]
fn unresolved_optional_is_an_error() {
    let mut registry = ErmTypesRegistry::new();
    let d = descriptor("Broken", None, vec![field("x", optional(TypeShape::Unresolved), vec![])]);
    assert_eq!(registry.register_type(&d), Err(ConfigurationError::UnresolvedType));
    assert_eq!(registry.no_tables(), 0);
}

#[test]
fn nested_relation_is_an_error() {
    assert_eq!(
        rust_to_sql_type(&list(list(strukt("Tile")))),
        Err(ConfigurationError::NestedRelation)
    );
    let mut registry = ErmTypesRegistry::new();
    let d = descriptor("Map", None, vec![field("tiles", list(list(strukt("Tile"))), vec![])]);
    assert_eq!(registry.register_type(&d), Err(ConfigurationError::NestedRelation));
    assert!(registry.get_table_definition("Map").is_none());
}

#[test]
fn primitive_and_optional_primitive_types() {
    let cases = [
        (PrimitiveKind::U8, SqlType::UnsingedInteger(8, true)),
        (PrimitiveKind::U32, SqlType::UnsingedInteger(32, true)),
        (PrimitiveKind::U64, SqlType::UnsingedInteger(64, true)),
        (PrimitiveKind::I8, SqlType::Integer(8, true)),
        (PrimitiveKind::I16, SqlType::Integer(16, true)),
        (PrimitiveKind::I128, SqlType::Integer(128, true)),
        (PrimitiveKind::Usize, SqlType::Integer(64, true)),
        (PrimitiveKind::Float64, SqlType::Float(64, true)),
        (PrimitiveKind::Text, SqlType::Text(true)),
        (PrimitiveKind::Bool, SqlType::Boolean(true)),
    ];
    for (k, expected) in cases {
        let bare = rust_to_sql_type(&prim(k)).unwrap();
        assert_eq!(bare, expected);
        assert!(bare.not_null());
        let opt = rust_to_sql_type(&optional(prim(k))).unwrap();
        assert!(!opt.not_null());
    }
    assert_eq!(
        rust_to_sql_type(&optional(prim(PrimitiveKind::I32))).unwrap(),
        SqlType::Integer(32, false)
    );
    assert_eq!(rust_to_sql_type(&optional(prim(PrimitiveKind::Bool))).unwrap(), SqlType::Boolean(false));
}

#[test]
fn collection_and_struct_relations() {
    assert_eq!(rust_to_sql_type(&list(strukt("Y"))).unwrap(), SqlType::Many2Many("Y".to_owned(), true));
    assert_eq!(
        rust_to_sql_type(&optional(list(strukt("Y")))).unwrap(),
        SqlType::Many2Many("Y".to_owned(), false)
    );
    assert_eq!(rust_to_sql_type(&strukt("Z")).unwrap(), SqlType::One2One("Z".to_owned(), true));
    assert_eq!(rust_to_sql_type(&optional(strukt("Z"))).unwrap(), SqlType::One2One("Z".to_owned(), false));
    assert_eq!(rust_to_sql_type(&TypeShape::FixedWidth).unwrap(), SqlType::Blob(true));
    assert_eq!(rust_to_sql_type(&TypeShape::Opaque).unwrap(), SqlType::Blob(true));
    assert_eq!(rust_to_sql_type(&optional(TypeShape::FixedWidth)).unwrap(), SqlType::Blob(false));
    assert_eq!(rust_to_sql_type(&list(prim(PrimitiveKind::Text))).unwrap(), SqlType::Text(false));
    assert_eq!(rust_to_sql_type(&TypeShape::Unresolved), Err(ConfigurationError::UnresolvedType));
}

#[test]
fn max_length_applied_twice_keeps_last() {
    let mut col = ColumnDefinition::new("name", "name");
    col.add(FieldConstraint::Unique);
    col.add(FieldConstraint::MaxLength(10));
    col.add(FieldConstraint::MaxLength(20));
    assert_eq!(col.constraints, vec![FieldConstraint::Unique, FieldConstraint::MaxLength(20)]);
    assert_eq!(col.get_max_length(), Some(20));
}

#[test]
fn key_and_unique_are_added_once() {
    let mut col = ColumnDefinition::new("id", "id");
    col.add(FieldConstraint::Key);
    col.add(FieldConstraint::Unique);
    col.add(FieldConstraint::Key);
    col.add(FieldConstraint::Unique);
    assert_eq!(col.constraints, vec![FieldConstraint::Key, FieldConstraint::Unique]);
    assert!(col.is_key());
    assert!(col.is_unique());
}

#[test]
fn reference_is_replaced() {
    let mut col = ColumnDefinition::new("owner", "owner_id");
    col.add(FieldConstraint::Reference("A".to_owned(), "id".to_owned()));
    col.add(FieldConstraint::Key);
    col.add(FieldConstraint::Reference("B".to_owned(), "key".to_owned()));
    assert_eq!(
        col.constraints,
        vec![FieldConstraint::Key, FieldConstraint::Reference("B".to_owned(), "key".to_owned())]
    );
    assert_eq!(col.get_refence(), Some(FieldConstraint::Reference("B".to_owned(), "key".to_owned())));
}

#[test]
fn absent_constraints_give_none() {
    let col = ColumnDefinition::new("a", "b");
    assert_eq!(col.rust_name, "a");
    assert_eq!(col.sql_name, "b");
    assert_eq!(col.sql_type, SqlType::Blob(true));
    assert!(col.is_not_null());
    assert_eq!(col.get_max_length(), None);
    assert_eq!(col.get_refence(), None);
    assert!(!col.is_key());
    assert!(!col.has_max_length());
}

#[test]
fn field_definition_applies_attributes_in_order() {
    let f = field(
        "label",
        optional(prim(PrimitiveKind::Text)),
        vec![
            FieldAttribute::ColumnName(ColumnName::new("first")),
            FieldAttribute::Unique(Unique),
            FieldAttribute::MaxLength(MaxLength::new(5)),
            FieldAttribute::ColumnName(ColumnName::new("second")),
            FieldAttribute::MaxLength(MaxLength::new(7)),
        ],
    );
    let col = field_definition(&f, 4).unwrap().unwrap();
    assert_eq!(col.rust_name, "label");
    assert_eq!(col.sql_name, "second");
    assert_eq!(col.order, 4);
    assert_eq!(col.sql_type, SqlType::Text(false));
    assert_eq!(col.constraints, vec![FieldConstraint::Unique, FieldConstraint::MaxLength(7)]);
    let unknown = FieldDescriptor { name: "x".to_owned(), shape: None, attributes: vec![] };
    assert!(field_definition(&unknown, 0).unwrap().is_none());
}

#[test]
fn table_keeps_first_column_of_a_name() {
    let mut table = TableDefinition::new("T", "Ts");
    let mut first = ColumnDefinition::new("a", "col");
    first.add(FieldConstraint::Key);
    table.add(first);
    table.add(ColumnDefinition::new("b", "col"));
    assert_eq!(table.no_fields(), 1);
    assert!(table.get("col").unwrap().is_key());
    assert_eq!(table.get("a").unwrap().rust_name, "a");
    assert!(table.get("b").is_none());
}

#[test]
fn sql_type_text() {
    assert_eq!(SqlType::Integer(32, true).describe(), "i-32 (not null)");
    assert_eq!(SqlType::UnsingedInteger(128, false).describe(), "u-128 (nullable)");
    assert_eq!(SqlType::Float(64, true).describe(), "f-64 (not null)");
    assert_eq!(SqlType::Text(false).describe(), "Text (nullable)");
    assert_eq!(SqlType::Blob(true).describe(), "Blob (not null)");
    assert_eq!(SqlType::Placeholder.describe(), "None");
    assert_eq!(SqlType::One2One("Player".to_owned(), false).describe(), "One2One (Eager: lazy loading)");
    assert_eq!(SqlType::Many2Many("Spawn".to_owned(), true).describe(), "Many2Many (Eager: eager loading)");
}

#[test]
fn constraint_and_column_text() {
    assert_eq!(FieldConstraint::Key.describe(), "key");
    assert_eq!(FieldConstraint::MaxLength(0).describe(), "length max: 0");
    assert_eq!(FieldConstraint::MaxLength(1024).describe(), "length max: 1024");
    assert_eq!(
        FieldConstraint::Reference("Player".to_owned(), "id".to_owned()).describe(),
        "reference (Player - id)"
    );
    let mut col = ColumnDefinition::new("key", "id");
    col.sql_type = SqlType::Integer(32, true);
    assert_eq!(col.describe(), "key (id) - i-32 (not null) ");
    col.add(FieldConstraint::Key);
    col.add(FieldConstraint::MaxLength(usize::MAX));
    assert_eq!(
        col.describe(),
        format!("key (id) - i-32 (not null) key - length max: {}", usize::MAX)
    );
}

#[test]
fn table_text() {
    let mut table = TableDefinition::new("Player", "Players");
    assert_eq!(table.describe(), "Table: Player (Players)\n");
    table.add(ColumnDefinition::new("a", "a"));
    let mut b = ColumnDefinition::new("b", "bee");
    b.add(FieldConstraint::Unique);
    table.add(b);
    assert_eq!(
        table.describe(),
        "Table: Player (Players)\n\ta (a) - Blob (not null) \n\tb (bee) - Blob (not null) unique"
    );
}
