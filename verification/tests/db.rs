use laraxum::db::stage1::{
    self, ColumnAttr, ColumnAttrRequest, ColumnAttrResponse, ColumnAttrTy, ColumnAttrTyCompound,
    ColumnAttrIndex, ColumnAttrIndexFilter, ColumnAttrIndexLimit, Field, Item, ItemMod,
    ItemStruct, TableAttr, TableAttrController, TableAttrModel, Visibility,
};
use laraxum::db::stage2;
use laraxum::db::stage3;
use laraxum::db::stage4;
use laraxum::utils::syn::{GenericArgument, PathArguments, PathSegment, SynError, Type, TypePath};

fn path_ty(name: &str) -> Type {
    Type::Path(TypePath {
        qself: None,
        leading_colon: false,
        segments: vec![PathSegment { ident: name.to_string(), arguments: PathArguments::Bare }],
    })
}

fn generic_ty(outer: &str, inner: Type) -> Type {
    Type::Path(TypePath {
        qself: None,
        leading_colon: false,
        segments: vec![PathSegment {
            ident: outer.to_string(),
            arguments: PathArguments::AngleBracketed(vec![GenericArgument::Type(inner)]),
        }],
    })
}

fn attr() -> ColumnAttr {
    ColumnAttr {
        name: None,
        ty: None,
        response: ColumnAttrResponse { name: None, skip: false },
        request: ColumnAttrRequest { name: None, validate: vec![] },
        real_rs_ty: None,
        unique: false,
        borrow: None,
        index: vec![],
        struct_name: None,
        attrs: vec![],
    }
}

fn field(name: &str, ty: Type, attr: ColumnAttr) -> Field {
    Field {
        ident: Some(name.to_string()),
        vis: Visibility::Inherited,
        mutable: false,
        ty,
        attrs: Ok(attr),
    }
}

fn id_field() -> Field {
    let mut a = attr();
    a.ty = Some(ColumnAttrTy::Id);
    field("id", path_ty("u64"), a)
}

fn table_attr(name: &str, model: bool) -> TableAttr {
    TableAttr {
        model: if model { Some(TableAttrModel { many: false }) } else { None },
        controller: None,
        name: Some(name.to_string()),
        index_name: None,
        attrs: vec![],
    }
}

fn table_item(ident: &str, attrs: TableAttr, fields: Vec<Field>) -> Item {
    Item::Struct(ItemStruct {
        attrs: Ok(attrs),
        vis: Visibility::Public,
        ident: ident.to_string(),
        generic_params: 0,
        has_where_clause: false,
        fields,
    })
}

fn messages(e: &SynError) -> Vec<String> {
    e.messages.clone()
}

fn address() -> Item {
    let mut street = attr();
    street.ty = Some(ColumnAttrTy::Varchar(255));
    let mut postcode = attr();
    postcode.ty = Some(ColumnAttrTy::Char(5));
    table_item(
        "Address",
        table_attr("addresses", true),
        vec![
            id_field(),
            field("street", path_ty("String"), street),
            field("postcode", path_ty("String"), postcode),
        ],
    )
}

fn contact() -> Item {
    let mut address = attr();
    address.ty = Some(ColumnAttrTy::Compound(ColumnAttrTyCompound { many: None }));
    address.name = Some("address_id".to_string());
    table_item(
        "Contact",
        table_attr("contacts", true),
        vec![
            id_field(),
            field("address", path_ty("Address"), address),
            field("firstname", path_ty("String"), attr()),
        ],
    )
}

fn app_db(items: Vec<Item>) -> stage2::Db {
    let item = Item::Mod(ItemMod {
        attr_count: 0,
        vis: Visibility::Public,
        is_unsafe: false,
        ident: "AppDb".to_string(),
        content: Some(items),
    });
    let db = stage1::Db::try_from(item).ok().unwrap();
    let attr = stage1::DbAttr { name: Some("database".to_string()) };
    match stage2::Db::try_new(db, attr) {
        Ok(db) => db,
        Err(e) => panic!("{:?}", messages(&e)),
    }
}

#[test]
fn create_table_sql() {
    let db = app_db(vec![address(), contact()]);
    let db3 = stage3::Db::try_from(&db).ok().unwrap();
    let migrations = stage4::migrations(&db3);
    let address_sql = "CREATE TABLE IF NOT EXISTS database.addresses (\
        id BIGINT UNSIGNED NOT NULL PRIMARY KEY AUTO_INCREMENT,\
        street VARCHAR(255) NOT NULL,\
        postcode CHAR(5) NOT NULL);";
    let contact_sql = "CREATE TABLE IF NOT EXISTS database.contacts (\
        id BIGINT UNSIGNED NOT NULL PRIMARY KEY AUTO_INCREMENT,\
        address_id BIGINT UNSIGNED NOT NULL FOREIGN KEY REFERENCES addresses(id),\
        firstname VARCHAR(255) NOT NULL);";
    assert_eq!(stage4::migration_up(&db3.tables[0]), address_sql);
    assert_eq!(stage4::migration_up(&db3.tables[1]), contact_sql);
    assert_eq!(
        migrations.up,
        format!("BEGIN TRANSACTION;{}{}COMMIT;", address_sql, contact_sql)
    );
    assert_eq!(
        migrations.down,
        "BEGIN TRANSACTION;DROP TABLE database.contacts;DROP TABLE database.addresses;COMMIT;"
    );
    assert_eq!(
        migrations.up_full,
        format!("CREATE DATABASE IF NOT EXISTS database;{}", migrations.up)
    );
    assert_eq!(migrations.down_full, "DROP DATABASE database;");
}

#[test]
fn get_all_joins_foreign_tables() {
    let db = app_db(vec![address(), contact()]);
    let db3 = stage3::Db::try_from(&db).ok().unwrap();
    let contacts = &db3.tables[1];
    assert_eq!(contacts.name_intern, "database.contacts");
    assert_eq!(contacts.name_extern, "database__contacts");
    assert_eq!(contacts.create_request_rs_name, "ContactCreateRequest");
    let getters: Vec<stage3::ResponseColumnGetterRef> =
        contacts.columns.iter().into_iter().map(|c| c.response_getter()).collect();
    let (elements, compounds) = stage4::flatten(&getters);
    assert_eq!(elements.len(), 5);
    assert_eq!(compounds.len(), 1);
    let sql = stage4::get_all(
        &contacts.name_intern,
        &contacts.name_extern,
        (&elements, &compounds),
    );
    let ext = "database__contacts__addresses__address_id";
    let expected = format!(
        "SELECT database__contacts.id AS `database__contacts__id!`,\
        {ext}.id AS `{ext}__id!`,\
        {ext}.street AS `{ext}__street!`,\
        {ext}.postcode AS `{ext}__postcode!`,\
        database__contacts.firstname AS `database__contacts__firstname!` \
        FROM database.contacts AS database__contacts \
        LEFT JOIN database.addresses AS {ext} ON database__contacts.address_id={ext}.id"
    );
    assert_eq!(sql, expected);
}

#[test]
fn string_without_ty_is_varchar_255() {
    let db = app_db(vec![address(), contact()]);
    let contacts = &db.tables[1];
    let firstname = match &contacts.columns {
        stage2::Columns::Model { columns, .. } => &columns[1],
        _ => panic!("contacts is a model"),
    };
    assert_eq!(firstname.ty.max_len(), Some(255));
    assert_eq!(firstname.validate.len(), 1);
}

#[test]
fn table_errors() {
    let item = table_item("Orphan", table_attr("orphans", false), vec![id_field()]);
    let db_item = Item::Mod(ItemMod {
        attr_count: 0,
        vis: Visibility::Public,
        is_unsafe: false,
        ident: "AppDb".to_string(),
        content: Some(vec![item]),
    });
    let db = stage1::Db::try_from(db_item).ok().unwrap();
    let e = stage2::Db::try_new(db, stage1::DbAttr { name: None }).err().unwrap();
    assert_eq!(messages(&e), vec![stage2::TABLE_MUST_IMPLEMENT_MODEL.to_string()]);

    let item = table_item("NoId", table_attr("no_ids", true), vec![]);
    let t = stage2::Table::try_from(stage1::Table::try_from(item).ok().unwrap());
    assert_eq!(messages(&t.err().unwrap()), vec![stage2::TABLE_MUST_HAVE_ID.to_string()]);
}

#[test]
fn column_errors_are_all_reported() {
    let mut bad_id = attr();
    bad_id.ty = Some(ColumnAttrTy::Id);
    let mut bad_time = attr();
    bad_time.ty = Some(ColumnAttrTy::OnCreate);
    let item = table_item(
        "Broken",
        table_attr("broken", true),
        vec![
            field("id", path_ty("u32"), bad_id),
            field("created", path_ty("String"), bad_time),
            field("other", path_ty("Unknown"), attr()),
        ],
    );
    let t = stage2::Table::try_from(stage1::Table::try_from(item).ok().unwrap());
    assert_eq!(
        messages(&t.err().unwrap()),
        vec![
            stage2::ID_MUST_BE_U64.to_string(),
            stage2::COLUMN_MUST_BE_TIME.to_string(),
            stage1::UNKNOWN_TYPE.to_string(),
        ]
    );
}

#[test]
fn optional_column_is_nullable() {
    let item = table_item(
        "Note",
        table_attr("notes", true),
        vec![id_field(), field("text", generic_ty("Option", path_ty("String")), attr())],
    );
    let db = app_db(vec![item]);
    let db3 = stage3::Db::try_from(&db).ok().unwrap();
    assert_eq!(
        stage4::migration_up(&db3.tables[0]),
        "CREATE TABLE IF NOT EXISTS database.notes (\
        id BIGINT UNSIGNED NOT NULL PRIMARY KEY AUTO_INCREMENT,text VARCHAR(255));"
    );
}

#[test]
fn missing_foreign_table() {
    let db = app_db(vec![contact()]);
    let e = stage3::Db::try_from(&db).err().unwrap();
    assert_eq!(messages(&e), vec![stage2::TABLE_DOES_NOT_EXIST.to_string()]);
}

#[test]
fn controller_needs_model() {
    let mut attrs = table_attr("things", false);
    attrs.controller = Some(TableAttrController { auth: None });
    let item = table_item("Thing", attrs, vec![]);
    let t = stage2::Table::try_from(stage1::Table::try_from(item).ok().unwrap());
    assert_eq!(
        messages(&t.err().unwrap()),
        vec![stage2::TABLE_MUST_NOT_IMPLEMENT_CONTROLLER.to_string()]
    );
}

#[test]
fn decimal_digits() {
    assert_eq!(stage4::decimal(0), "0");
    assert_eq!(stage4::decimal(255), "255");
    assert_eq!(stage4::decimal(u64::MAX), u64::MAX.to_string());
}

fn refers(name: &str, foreign: &str, column: &str) -> Field {
    let mut a = attr();
    a.ty = Some(ColumnAttrTy::Compound(ColumnAttrTyCompound { many: None }));
    a.name = Some(column.to_string());
    field(name, path_ty(foreign), a)
}

#[test]
fn acyclic_references() {
    let db = app_db(vec![address(), contact()]);
    assert!(stage3::is_acyclic(&db));
    let db = app_db(vec![contact()]);
    assert!(stage3::is_acyclic(&db));
}

#[test]
fn cyclic_references() {
    let a = table_item(
        "Left",
        table_attr("lefts", true),
        vec![id_field(), refers("right", "Right", "right_id")],
    );
    let b = table_item(
        "Right",
        table_attr("rights", true),
        vec![id_field(), refers("left", "Left", "left_id")],
    );
    let db = app_db(vec![a, b]);
    assert!(!stage3::is_acyclic(&db));

    let own = table_item(
        "Node",
        table_attr("nodes", true),
        vec![id_field(), refers("parent", "Node", "parent_id")],
    );
    let db = app_db(vec![own, address()]);
    assert!(!stage3::is_acyclic(&db));
}

fn user_by_email(unique: bool) -> stage2::Db {
    let mut email = attr();
    email.unique = unique;
    email.index = vec![ColumnAttrIndex {
        rs_name: "UserByEmail".to_string(),
        filter: ColumnAttrIndexFilter::Eq,
        sort: false,
        limit: ColumnAttrIndexLimit::Limit,
        controller: false,
    }];
    let user = table_item(
        "User",
        table_attr("users", true),
        vec![id_field(), field("email", path_ty("String"), email)],
    );
    app_db(vec![user])
}

fn email_query(db: &stage2::Db) -> String {
    let db3 = stage3::Db::try_from(db).ok().unwrap();
    let users = &db3.tables[0];
    let getters: Vec<stage3::ResponseColumnGetterRef> =
        users.columns.iter().into_iter().map(|c| c.response_getter()).collect();
    let (elements, compounds) = stage4::flatten(&getters);
    let email = match &users.columns {
        stage2::Columns::Model { columns, .. } => match &columns[0] {
            stage3::Column::Molecule(m) => m,
            _ => panic!("email is stored in the table"),
        },
        _ => panic!("users is a model"),
    };
    assert_eq!(email.aggregates.len(), 1);
    match stage4::aggregate_queries(
        &users.name_intern,
        &users.name_extern,
        (&elements, &compounds),
        email,
        &email.aggregates[0],
    ) {
        stage4::AggregateQueries::Unsorted(q) => q,
        _ => panic!("the aggregate is not sorted"),
    }
}

#[test]
fn unique_equal_aggregate_is_limited_to_one() {
    let q = email_query(&user_by_email(true));
    assert!(q.ends_with(" LIMIT 1"), "{}", q);
    assert!(q.contains("WHERE database__users.email=?"), "{}", q);
    let q = email_query(&user_by_email(false));
    assert!(!q.ends_with(" LIMIT 1"), "{}", q);
    assert!(q.ends_with(" LIMIT ?"), "{}", q);
}

#[test]
fn aggregate_plan_of_unique_email() {
    for unique in [true, false] {
        let db = user_by_email(unique);
        let db3 = stage3::Db::try_from(&db).ok().unwrap();
        let users = &db3.tables[0];
        let refs = users.columns.iter();
        let getters: Vec<stage3::ResponseColumnGetterRef> =
            refs.iter().map(|c| c.response_getter()).collect();
        let (elements, compounds) = stage4::flatten(&getters);
        let plans = stage4::aggregate_plans(
            &users.name_intern,
            &users.name_extern,
            (&elements, &compounds),
            &refs,
        );
        assert_eq!(plans.len(), 1);
        let plan = &plans[0];
        assert_eq!(plan.rs_name, "UserByEmail");
        assert_eq!(plan.is_one, unique);
        assert_eq!(plan.filter_parameter.as_deref(), Some("filter_email_eq"));
        assert_eq!(plan.limit_parameter.as_deref(), if unique { None } else { Some("limit") });
        assert_eq!(plan.per_page, None);
        assert_eq!(plan.sort_parameter, None);
        match &plan.queries {
            stage4::AggregateQueries::Unsorted(q) => assert_eq!(q, &email_query(&db)),
            _ => panic!("the aggregate is not sorted"),
        }
    }
}
