//! Stage 1 of the `db` macro: the syntax of the database module as written,
//! checked for the shape that the macro accepts.

use vstd::prelude::*;

use crate::text::str_eq;
use crate::utils::multiplicity::{self, spec_multiplicity, spec_optional, Multiplicity};
use crate::utils::syn::{
    parse_ident_from_type, spec_ident_from_type, GenericArgument, PathArguments, PathSegment,
    SynError, Type, EXPECTED_IDENT,
};

verus! {

pub const DB_ITEM_MUST_BE_MOD: &'static str = "db item must be module";
pub const DB_MOD_MUST_HAVE_CONTENT: &'static str = "db mod must have content";
pub const DB_MOD_MUST_NOT_HAVE_ATTRS: &'static str = "db mod must not have attrs";
pub const DB_MOD_MUST_NOT_BE_UNSAFE: &'static str = "db mod must not be unsafe";
pub const TABLE_MUST_BE_STRUCT: &'static str = "item must be struct";
pub const TABLE_MUST_BE_FIELD_STRUCT: &'static str = "table must be field struct";
pub const GENERICS_ARE_NOT_ALLOWED: &'static str = "generics are not allowed";
pub const FIELD_MUST_NOT_HAVE_VIS: &'static str = "field must not have visibility";
pub const FIELD_MUST_NOT_BE_MUT: &'static str = "field must not be mutable";
pub const UNKNOWN_TYPE: &'static str = "unknown type";

/// The length of a string column.
pub type StringLen = u16;

/// The types that a value column can have.
#[allow(non_camel_case_types)]
#[derive(PartialEq, Eq, Structural)]
pub enum AtomicTy {
    String,
    bool,
    u8,
    i8,
    u16,
    i16,
    u32,
    i32,
    u64,
    i64,
    /// the 32-bit floating-point type
    Float32,
    /// the 64-bit floating-point type
    Float64,
    /// TIMESTAMP
    TimeOffsetDateTime,
    /// DATETIME
    TimeDateTime,
    /// DATE
    TimeDate,
    /// TIME
    TimeTime,
    /// TIME
    TimeDuration,
    /// TIMESTAMP
    ChronoDateTimeUtc,
    /// TIMESTAMP
    ChronoDateTimeLocal,
    /// DATETIME
    ChronoNaiveDateTime,
    /// DATE
    ChronoNaiveDate,
    /// TIME
    ChronoNaiveTime,
    /// TIME
    ChronoTimeDelta,
}

/// A plain path segment `ident` without arguments.
pub open spec fn is_bare_segment(segment: PathSegment, ident: Seq<char>) -> bool {
    segment.ident@ == ident && segment.arguments is Bare
}

/// The type is the plain path `a` (one segment, no arguments).
pub open spec fn is_path1(ty: Type, a: Seq<char>) -> bool {
    match ty {
        Type::Path(p) => p.qself is None && !p.leading_colon && p.segments@.len() == 1
            && is_bare_segment(p.segments@[0], a),
        Type::Other(_) => false,
    }
}

/// The type is the plain path `a::b` (two segments, no arguments).
pub open spec fn is_path2(ty: Type, a: Seq<char>, b: Seq<char>) -> bool {
    match ty {
        Type::Path(p) => p.qself is None && !p.leading_colon && p.segments@.len() == 2
            && is_bare_segment(p.segments@[0], a) && is_bare_segment(p.segments@[1], b),
        Type::Other(_) => false,
    }
}

/// The type is `chrono::DateTime<chrono::tz>`.
pub open spec fn is_chrono_date_time(ty: Type, tz: Seq<char>) -> bool {
    match ty {
        Type::Path(p) => p.qself is None && !p.leading_colon && p.segments@.len() == 2
            && is_bare_segment(p.segments@[0], "chrono"@) && p.segments@[1].ident@
            == "DateTime"@ && match p.segments@[1].arguments {
            PathArguments::AngleBracketed(args) => args@.len() == 1 && match args@[0] {
                GenericArgument::Type(arg) => is_path2(arg, "chrono"@, tz),
                GenericArgument::Other(_) => false,
            },
            _ => false,
        },
        Type::Other(_) => false,
    }
}

/// The value column type that a Rust type names, if any.
pub open spec fn spec_atomic_ty(ty: Type) -> Option<AtomicTy> {
    if is_path1(ty, "String"@) {
        Some(AtomicTy::String)
    } else if is_path1(ty, "bool"@) {
        Some(AtomicTy::bool)
    } else if is_path1(ty, "u8"@) {
        Some(AtomicTy::u8)
    } else if is_path1(ty, "i8"@) {
        Some(AtomicTy::i8)
    } else if is_path1(ty, "u16"@) {
        Some(AtomicTy::u16)
    } else if is_path1(ty, "i16"@) {
        Some(AtomicTy::i16)
    } else if is_path1(ty, "u32"@) {
        Some(AtomicTy::u32)
    } else if is_path1(ty, "i32"@) {
        Some(AtomicTy::i32)
    } else if is_path1(ty, "u64"@) {
        Some(AtomicTy::u64)
    } else if is_path1(ty, "i64"@) {
        Some(AtomicTy::i64)
    } else if is_path1(ty, seq!['f', '3', '2']) {
        Some(AtomicTy::Float32)
    } else if is_path1(ty, seq!['f', '6', '4']) {
        Some(AtomicTy::Float64)
    } else if is_path2(ty, "time"@, "OffsetDateTime"@) {
        Some(AtomicTy::TimeOffsetDateTime)
    } else if is_path2(ty, "time"@, "PrimitiveDateTime"@) {
        Some(AtomicTy::TimeDateTime)
    } else if is_path2(ty, "time"@, "Date"@) {
        Some(AtomicTy::TimeDate)
    } else if is_path2(ty, "time"@, "Time"@) {
        Some(AtomicTy::TimeTime)
    } else if is_path2(ty, "time"@, "Duration"@) {
        Some(AtomicTy::TimeDuration)
    } else if is_chrono_date_time(ty, "Utc"@) {
        Some(AtomicTy::ChronoDateTimeUtc)
    } else if is_chrono_date_time(ty, "Local"@) {
        Some(AtomicTy::ChronoDateTimeLocal)
    } else if is_path2(ty, "chrono"@, "NaiveDateTime"@) {
        Some(AtomicTy::ChronoNaiveDateTime)
    } else if is_path2(ty, "chrono"@, "NaiveDate"@) {
        Some(AtomicTy::ChronoNaiveDate)
    } else if is_path2(ty, "chrono"@, "NaiveTime"@) {
        Some(AtomicTy::ChronoNaiveTime)
    } else if is_path2(ty, "chrono"@, "TimeDelta"@) {
        Some(AtomicTy::ChronoTimeDelta)
    } else {
        None
    }
}

fn segment_is_bare(segment: &PathSegment, ident: &str) -> (r: bool)
    ensures
        r == is_bare_segment(*segment, ident@),
{
    match segment.arguments {
        PathArguments::Bare => str_eq(segment.ident.as_str(), ident),
        _ => false,
    }
}

fn type_is_path1(ty: &Type, a: &str) -> (r: bool)
    ensures
        r == is_path1(*ty, a@),
{
    match ty {
        Type::Path(p) => p.qself.is_none() && !p.leading_colon && p.segments.len() == 1 && segment_is_bare(
            &p.segments[0],
            a,
        ),
        Type::Other(_) => false,
    }
}

/// The type is the floating-point type named `f` followed by the two digits.
fn type_is_float(ty: &Type, d1: char, d2: char) -> (r: bool)
    ensures
        r == is_path1(*ty, seq!['f', d1, d2]),
{
    match ty {
        Type::Path(p) => {
            if p.qself.is_some() || p.leading_colon || p.segments.len() != 1 {
                return false;
            }
            match p.segments[0].arguments {
                PathArguments::Bare => {},
                _ => return false,
            }
            let name = &p.segments[0].ident;
            let n = name.as_str().unicode_len();
            if n != 3 {
                return false;
            }
            let c0 = name.as_str().get_char(0);
            let c1 = name.as_str().get_char(1);
            let c2 = name.as_str().get_char(2);
            let r = c0 == 'f' && c1 == d1 && c2 == d2;
            proof {
                if r {
                    assert(name@ =~= seq!['f', d1, d2]);
                } else {
                    assert(name@ != seq!['f', d1, d2]) by {
                        if name@ == seq!['f', d1, d2] {
                            assert(name@[0] == 'f');
                        }
                    }
                }
            }
            r
        },
        Type::Other(_) => false,
    }
}

fn type_is_path2(ty: &Type, a: &str, b: &str) -> (r: bool)
    ensures
        r == is_path2(*ty, a@, b@),
{
    match ty {
        Type::Path(p) => p.qself.is_none() && !p.leading_colon && p.segments.len() == 2 && segment_is_bare(
            &p.segments[0],
            a,
        ) && segment_is_bare(&p.segments[1], b),
        Type::Other(_) => false,
    }
}

fn type_is_chrono_date_time(ty: &Type, tz: &str) -> (r: bool)
    ensures
        r == is_chrono_date_time(*ty, tz@),
{
    match ty {
        Type::Path(p) => {
            if p.qself.is_some() || p.leading_colon || p.segments.len() != 2 {
                return false;
            }
            if !segment_is_bare(&p.segments[0], "chrono") || !str_eq(
                p.segments[1].ident.as_str(),
                "DateTime",
            ) {
                return false;
            }
            match &p.segments[1].arguments {
                PathArguments::AngleBracketed(args) => args.len() == 1 && match &args[0] {
                    GenericArgument::Type(arg) => type_is_path2(arg, "chrono", tz),
                    GenericArgument::Other(_) => false,
                },
                _ => false,
            }
        },
        Type::Other(_) => false,
    }
}

impl AtomicTy {
    /// The value column type that a Rust type names; otherwise the error "unknown type".
    pub fn try_from(ty: &Type) -> (r: Result<AtomicTy, SynError>)
        ensures
            match r {
                Ok(atomic) => spec_atomic_ty(*ty) == Some(atomic),
                Err(e) => spec_atomic_ty(*ty) is None && e.message_views() == seq![UNKNOWN_TYPE@],
            },
    {
        if type_is_path1(ty, "String") {
            Ok(Self::String)
        } else if type_is_path1(ty, "bool") {
            Ok(Self::bool)
        } else if type_is_path1(ty, "u8") {
            Ok(Self::u8)
        } else if type_is_path1(ty, "i8") {
            Ok(Self::i8)
        } else if type_is_path1(ty, "u16") {
            Ok(Self::u16)
        } else if type_is_path1(ty, "i16") {
            Ok(Self::i16)
        } else if type_is_path1(ty, "u32") {
            Ok(Self::u32)
        } else if type_is_path1(ty, "i32") {
            Ok(Self::i32)
        } else if type_is_path1(ty, "u64") {
            Ok(Self::u64)
        } else if type_is_path1(ty, "i64") {
            Ok(Self::i64)
        } else if type_is_float(ty, '3', '2') {
            Ok(Self::Float32)
        } else if type_is_float(ty, '6', '4') {
            Ok(Self::Float64)
        } else if type_is_path2(ty, "time", "OffsetDateTime") {
            Ok(Self::TimeOffsetDateTime)
        } else if type_is_path2(ty, "time", "PrimitiveDateTime") {
            Ok(Self::TimeDateTime)
        } else if type_is_path2(ty, "time", "Date") {
            Ok(Self::TimeDate)
        } else if type_is_path2(ty, "time", "Time") {
            Ok(Self::TimeTime)
        } else if type_is_path2(ty, "time", "Duration") {
            Ok(Self::TimeDuration)
        } else if type_is_chrono_date_time(ty, "Utc") {
            Ok(Self::ChronoDateTimeUtc)
        } else if type_is_chrono_date_time(ty, "Local") {
            Ok(Self::ChronoDateTimeLocal)
        } else if type_is_path2(ty, "chrono", "NaiveDateTime") {
            Ok(Self::ChronoNaiveDateTime)
        } else if type_is_path2(ty, "chrono", "NaiveDate") {
            Ok(Self::ChronoNaiveDate)
        } else if type_is_path2(ty, "chrono", "NaiveTime") {
            Ok(Self::ChronoNaiveTime)
        } else if type_is_path2(ty, "chrono", "TimeDelta") {
            Ok(Self::ChronoTimeDelta)
        } else {
            Err(SynError::new(UNKNOWN_TYPE))
        }
    }
}

/// A value column type, and whether it is optional (`Option<T>`).
pub struct TyElementValue {
    pub ty: AtomicTy,
    pub optional: bool,
}

impl TyElementValue {
    /// The value column type of a Rust type, looking inside `Option<..>`.
    pub fn try_from(rs_ty: &Type) -> (r: Result<TyElementValue, SynError>)
        ensures
            match r {
                Ok(v) => spec_atomic_ty(spec_optional(*rs_ty).0) == Some(v.ty) && v.optional
                    == spec_optional(*rs_ty).1,
                Err(e) => spec_atomic_ty(spec_optional(*rs_ty).0) is None && e.message_views()
                    == seq![UNKNOWN_TYPE@],
            },
    {
        let (rs_ty, optional) = multiplicity::optional(rs_ty);
        let ty = match AtomicTy::try_from(rs_ty) {
            Ok(ty) => ty,
            Err(e) => return Err(e),
        };
        Ok(Self { ty, optional })
    }
}

/// A column that refers to another table: the table's name and how many records it refers to.
pub struct TyCompound {
    pub ty: String,
    pub multiplicity: Multiplicity,
}

impl TyCompound {
    /// The referred table of a Rust type, looking inside `Option<..>` and `Vec<..>`.
    pub fn try_from(rs_ty: &Type) -> (r: Result<TyCompound, SynError>)
        ensures
            match r {
                Ok(c) => spec_ident_from_type(spec_multiplicity(*rs_ty).0) == Some(c.ty)
                    && c.multiplicity == spec_multiplicity(*rs_ty).1,
                Err(e) => spec_ident_from_type(spec_multiplicity(*rs_ty).0) is None
                    && e.message_views() == seq![EXPECTED_IDENT@],
            },
    {
        let (rs_ty, multiplicity) = multiplicity::multiplicity(rs_ty);
        let ty = match parse_ident_from_type(rs_ty) {
            Ok(ty) => ty.clone(),
            Err(e) => return Err(e),
        };
        Ok(Self { ty, multiplicity })
    }
}

/// A column that refers to other tables: with `many`, the records of an intermediate table.
pub struct ColumnAttrTyCompounds {
    /// the intermediate table of a many-to-many relationship
    pub model_rs_name: String,
    /// the aggregate type that the intermediate table is indexed by
    pub index_rs_ty: Option<String>,
}

/// `ty(foreign)` or `ty(foreign(many(..)))`.
pub struct ColumnAttrTyCompound {
    pub many: Option<ColumnAttrTyCompounds>,
}

/// The `ty` attribute of a column.
pub enum ColumnAttrTy {
    /// `foreign`: the column refers to another table
    Compound(ColumnAttrTyCompound),
    /// the identifier column of the table
    Id,
    Varchar(StringLen),
    Char(StringLen),
    Text,
    /// a time set when the record is created
    OnCreate,
    /// a time set when the record is updated
    OnUpdate,
}

/// The `response` attribute of a column.
pub struct ColumnAttrResponse {
    pub name: Option<String>,
    pub skip: bool,
}

/// A validation rule of a request field; each holds the Rust source of its argument.
pub enum ValidateRule {
    MinLen(String),
    Func(String),
    Matches(String),
    NMatches(String),
    Eq(String),
    NEq(String),
    Gt(String),
    Lt(String),
    Gte(String),
    Lte(String),
}

/// The `request` attribute of a column.
pub struct ColumnAttrRequest {
    pub name: Option<String>,
    pub validate: Vec<ValidateRule>,
}

/// How an index query filters by its column.
#[derive(PartialEq, Eq, Structural, Clone, Copy)]
pub enum ColumnAttrIndexFilter {
    /// no filter
    Unfiltered,
    Eq,
    Like,
    Gt,
    Lt,
    Gte,
    Lte,
}

impl ColumnAttrIndexFilter {
    /// The name of the query parameter of the filter.
    pub open spec fn spec_parameter(self) -> Option<Seq<char>> {
        match self {
            Self::Unfiltered => None,
            Self::Eq => Some("eq"@),
            Self::Like => Some("like"@),
            Self::Gt => Some("gt"@),
            Self::Lt => Some("lt"@),
            Self::Gte => Some("gte"@),
            Self::Lte => Some("lte"@),
        }
    }

    /// The name of the query parameter of the filter.
    pub fn parameter(&self) -> (r: Option<&'static str>)
        ensures
            match r {
                Some(p) => self.spec_parameter() == Some(p@),
                None => self.spec_parameter() is None,
            },
    {
        match self {
            Self::Unfiltered => None,
            Self::Eq => Some("eq"),
            Self::Like => Some("like"),
            Self::Gt => Some("gt"),
            Self::Lt => Some("lt"),
            Self::Gte => Some("gte"),
            Self::Lte => Some("lte"),
        }
    }

    /// The query does not filter.
    pub fn is_none(&self) -> (r: bool)
        ensures
            r == (*self is Unfiltered),
    {
        match self {
            Self::Unfiltered => true,
            _ => false,
        }
    }

    /// The query filters by equality.
    pub fn is_eq(&self) -> (r: bool)
        ensures
            r == (*self is Eq),
    {
        match self {
            Self::Eq => true,
            _ => false,
        }
    }
}

/// By default an index query does not filter.
impl Default for ColumnAttrIndexFilter {
    fn default() -> (r: ColumnAttrIndexFilter)
        ensures
            r is Unfiltered,
    {
        ColumnAttrIndexFilter::Unfiltered
    }
}

/// How an index query limits the number of records.
#[derive(PartialEq, Eq, Structural, Clone, Copy)]
pub enum ColumnAttrIndexLimit {
    /// no limit
    Unlimited,
    Limit,
    Page { per_page: u64 },
}

/// By default an index query does not limit the number of records.
impl Default for ColumnAttrIndexLimit {
    fn default() -> (r: ColumnAttrIndexLimit)
        ensures
            r is Unlimited,
    {
        ColumnAttrIndexLimit::Unlimited
    }
}

impl ColumnAttrIndexLimit {
    /// The name of the query parameter of the limit.
    pub open spec fn spec_parameter(self) -> Option<Seq<char>> {
        match self {
            Self::Unlimited => None,
            Self::Limit => Some("limit"@),
            Self::Page { .. } => Some("page"@),
        }
    }

    /// The name of the query parameter of the limit.
    pub fn parameter(&self) -> (r: Option<&'static str>)
        ensures
            match r {
                Some(p) => self.spec_parameter() == Some(p@),
                None => self.spec_parameter() is None,
            },
    {
        match self {
            Self::Unlimited => None,
            Self::Limit => Some("limit"),
            Self::Page { .. } => Some("page"),
        }
    }
}

/// An index query on a column.
pub struct ColumnAttrIndex {
    pub rs_name: String,
    pub filter: ColumnAttrIndexFilter,
    pub sort: bool,
    pub limit: ColumnAttrIndexLimit,
    pub controller: bool,
}

/// The attributes of a column.
pub struct ColumnAttr {
    pub name: Option<String>,
    pub ty: Option<ColumnAttrTy>,
    pub response: ColumnAttrResponse,
    pub request: ColumnAttrRequest,
    pub real_rs_ty: Option<Box<Type>>,
    pub unique: bool,
    pub borrow: Option<Option<Box<Type>>>,
    pub index: Vec<ColumnAttrIndex>,
    pub struct_name: Option<String>,
    /// the forwarded `doc` and `allow` attributes, as Rust source
    pub attrs: Vec<String>,
}

/// The visibility of an item or a field.
#[derive(PartialEq, Eq, Structural, Clone, Copy)]
pub enum Visibility {
    /// `pub`
    Public,
    /// `pub(crate)`, `pub(super)`, `pub(in path)`
    Restricted,
    /// no visibility written
    Inherited,
}

/// A field of a table struct.
pub struct Field {
    /// the name of a named field; `None` for a tuple field
    pub ident: Option<String>,
    pub vis: Visibility,
    /// the field is declared mutable
    pub mutable: bool,
    pub ty: Type,
    /// the `db` attributes of the field, as read by the attribute parser
    pub attrs: Result<ColumnAttr, SynError>,
}

/// A column as written: its name, type and attributes.
pub struct Column {
    pub rs_name: String,
    pub rs_ty: Box<Type>,
    pub attr: ColumnAttr,
}

/// What is wrong with a field, in the order the checks are made; `Ok` when nothing is.
pub open spec fn spec_field_check(field: Field) -> Result<(), Seq<Seq<char>>> {
    if field.ident is None {
        Err(seq![TABLE_MUST_BE_FIELD_STRUCT@])
    } else if field.vis != Visibility::Inherited {
        Err(seq![FIELD_MUST_NOT_HAVE_VIS@])
    } else if field.mutable {
        Err(seq![FIELD_MUST_NOT_BE_MUT@])
    } else {
        match field.attrs {
            Ok(_) => Ok(()),
            Err(e) => Err(e.message_views()),
        }
    }
}

/// The column made of a field that passes the checks.
pub open spec fn spec_column_of(field: Field, column: Column) -> bool {
    &&& field.ident == Some(column.rs_name)
    &&& *column.rs_ty == field.ty
    &&& field.attrs == Ok::<ColumnAttr, SynError>(column.attr)
}

impl Column {
    /// A column from a named, private, immutable field with valid attributes.
    pub fn try_from(field: Field) -> (r: Result<Column, SynError>)
        ensures
            match r {
                Ok(c) => spec_field_check(field) is Ok && spec_column_of(field, c),
                Err(e) => spec_field_check(field) == Err::<(), Seq<Seq<char>>>(e.message_views()),
            },
    {
        let Field { attrs, vis, mutable, ident, ty } = field;
        let rs_name = match ident {
            Some(rs_name) => rs_name,
            None => return Err(SynError::new(TABLE_MUST_BE_FIELD_STRUCT)),
        };
        match vis {
            Visibility::Inherited => {},
            _ => return Err(SynError::new(FIELD_MUST_NOT_HAVE_VIS)),
        }
        if mutable {
            return Err(SynError::new(FIELD_MUST_NOT_BE_MUT));
        }
        let attr = match attrs {
            Ok(attr) => attr,
            Err(e) => return Err(e),
        };
        Ok(Self { rs_name, rs_ty: Box::new(ty), attr })
    }
}

/// `model` or `model(many)`.
pub struct TableAttrModel {
    pub many: bool,
}

/// `controller` or `controller(auth(T))`.
pub struct TableAttrController {
    pub auth: Option<Box<Type>>,
}

/// The attributes of a table.
pub struct TableAttr {
    pub model: Option<TableAttrModel>,
    pub controller: Option<TableAttrController>,
    pub name: Option<String>,
    pub index_name: Option<String>,
    /// the forwarded `allow` and `doc` attributes, as Rust source
    pub attrs: Vec<String>,
}

/// A table as written: a struct of columns with its attributes.
pub struct Table {
    pub rs_name: String,
    pub columns: Vec<Column>,
    pub attr: TableAttr,
    pub rs_vis: Visibility,
}

/// A struct item.
pub struct ItemStruct {
    /// the `db` attributes of the struct, as read by the attribute parser
    pub attrs: Result<TableAttr, SynError>,
    pub vis: Visibility,
    pub ident: String,
    /// the number of generic parameters
    pub generic_params: usize,
    pub has_where_clause: bool,
    pub fields: Vec<Field>,
}

/// A module item.
pub struct ItemMod {
    /// the number of attributes written on the module
    pub attr_count: usize,
    pub vis: Visibility,
    pub is_unsafe: bool,
    pub ident: String,
    /// the items of a module with a body; `None` for `mod name;`
    pub content: Option<Vec<Item>>,
}

/// An item of Rust source.
pub enum Item {
    Struct(ItemStruct),
    Mod(ItemMod),
    Other,
}

/// Columns of all fields, stopping at the first field that fails.
fn columns_from_fields(fields: Vec<Field>) -> (r: Result<Vec<Column>, SynError>)
    ensures
        r is Ok ==> forall|i: int|
            0 <= i < fields@.len() ==> (#[trigger] spec_field_check(fields@[i])) is Ok,
        r matches Err(e) ==> exists|i: int|
            0 <= i < fields@.len() && spec_field_check(#[trigger] fields@[i]) == Err::<
                (),
                Seq<Seq<char>>,
            >(e.message_views()) && forall|j: int|
                0 <= j < i ==> (#[trigger] spec_field_check(fields@[j])) is Ok,
        r matches Ok(columns) ==> columns@.len() == fields@.len() && forall|i: int|
            0 <= i < fields@.len() ==> spec_column_of(#[trigger] fields@[i], columns@[i]),
{
    let ghost all = fields@;
    let mut rest = fields;
    let mut columns: Vec<Column> = Vec::new();
    let len = rest.len();
    let mut i: usize = 0;
    while i < len
        invariant
            all == fields@,
            i <= len,
            len == all.len(),
            rest@ == all.skip(i as int),
            columns@.len() == i,
            forall|j: int| 0 <= j < i ==> (#[trigger] spec_field_check(all[j])) is Ok,
            forall|j: int| 0 <= j < i ==> spec_column_of(#[trigger] all[j], columns@[j]),
        decreases len - i,
    {
        assert(rest@[0] == all[i as int]);
        let field = rest.remove(0);
        let column = match Column::try_from(field) {
            Ok(column) => column,
            Err(e) => {
                let ghost k = i as int;
                assert(0 <= k < all.len() && spec_field_check(all[k]) == Err::<(), Seq<Seq<char>>>(
                    e.message_views(),
                ) && forall|j: int| 0 <= j < k ==> (#[trigger] spec_field_check(all[j])) is Ok);
                return Err(e);
            },
        };
        columns.push(column);
        i = i + 1;
        assert(rest@ =~= all.skip(i as int));
    }
    Ok(columns)
}

/// `r` is what checking `item` as a table gives: an error unless it is a struct without
/// generics whose fields are all valid columns; the first error of a field, else the error
/// of the attributes of the struct.
pub open spec fn spec_table_from(item: Item, r: Result<Table, SynError>) -> bool {
    match item {
        Item::Struct(s) => if s.generic_params > 0 || s.has_where_clause {
            r matches Err(e) && e.message_views() == seq![GENERICS_ARE_NOT_ALLOWED@]
        } else if exists|i: int|
            0 <= i < s.fields@.len() && (#[trigger] spec_field_check(s.fields@[i])) is Err {
            r matches Err(e) && exists|i: int|
                0 <= i < s.fields@.len() && spec_field_check(#[trigger] s.fields@[i]) == Err::<
                    (),
                    Seq<Seq<char>>,
                >(e.message_views()) && forall|j: int|
                    0 <= j < i ==> (#[trigger] spec_field_check(s.fields@[j])) is Ok
        } else {
            match s.attrs {
                Err(attr_error) => r == Err::<Table, SynError>(attr_error),
                Ok(attr) => r matches Ok(t) && t.rs_name == s.ident && t.attr == attr && t.rs_vis
                    == s.vis && t.columns@.len() == s.fields@.len() && forall|i: int|
                    0 <= i < s.fields@.len() ==> spec_column_of(
                        #[trigger] s.fields@[i],
                        t.columns@[i],
                    ),
            }
        },
        _ => r matches Err(e) && e.message_views() == seq![TABLE_MUST_BE_STRUCT@],
    }
}

impl Table {
    /// A table from a struct item without generics whose fields are all valid columns.
    pub fn try_from(item: Item) -> (r: Result<Table, SynError>)
        ensures
            spec_table_from(item, r),
    {
        let item_struct = match item {
            Item::Struct(item_struct) => item_struct,
            _ => return Err(SynError::new(TABLE_MUST_BE_STRUCT)),
        };
        let ItemStruct { attrs, vis, ident, generic_params, has_where_clause, fields } =
            item_struct;
        if generic_params > 0 {
            return Err(SynError::new(GENERICS_ARE_NOT_ALLOWED));
        }
        if has_where_clause {
            return Err(SynError::new(GENERICS_ARE_NOT_ALLOWED));
        }
        let columns = match columns_from_fields(fields) {
            Ok(columns) => columns,
            Err(e) => return Err(e),
        };
        let attr = match attrs {
            Ok(attr) => attr,
            Err(e) => return Err(e),
        };
        Ok(Self { rs_name: ident, columns, attr, rs_vis: vis })
    }
}

/// The attributes of the database module: `db(name = "..")`.
pub struct DbAttr {
    pub name: Option<String>,
}

/// A database as written: a module of table structs.
pub struct Db {
    pub rs_name: String,
    pub tables: Vec<Table>,
    pub rs_vis: Visibility,
}

/// The item is a valid table: a struct without generics, whose fields are all valid columns
/// and whose attributes are valid.
pub open spec fn spec_table_ok(item: Item) -> bool {
    &&& item matches Item::Struct(s)
    &&& s.generic_params == 0
    &&& !s.has_where_clause
    &&& forall|i: int| 0 <= i < s.fields@.len() ==> (#[trigger] spec_field_check(s.fields@[i])) is Ok
    &&& s.attrs is Ok
}

/// Each of the first `n` items is a valid table.
pub open spec fn spec_tables_before(items: Seq<Item>, n: int) -> bool {
    forall|j: int| 0 <= j < n ==> spec_table_ok(#[trigger] items[j])
}

/// Tables of all items, stopping at the first item that fails.
fn tables_from_items(items: Vec<Item>) -> (r: Result<Vec<Table>, SynError>)
    ensures
        r matches Ok(tables) ==> tables@.len() == items@.len() && forall|i: int|
            0 <= i < items@.len() ==> spec_table_from(
                #[trigger] items@[i],
                Ok::<Table, SynError>(tables@[i]),
            ),
        r matches Err(e) ==> exists|i: int|
            0 <= i < items@.len() && spec_table_from(
                #[trigger] items@[i],
                Err::<Table, SynError>(e),
            ) && spec_tables_before(items@, i),
{
    let ghost all = items@;
    let mut rest = items;
    let mut tables: Vec<Table> = Vec::new();
    let len = rest.len();
    let mut i: usize = 0;
    while i < len
        invariant
            i <= len,
            len == all.len(),
            all == items@,
            rest@ == all.skip(i as int),
            tables@.len() == i,
            forall|k: int|
                0 <= k < i ==> spec_table_from(#[trigger] all[k], Ok::<Table, SynError>(tables@[k])),
        decreases len - i,
    {
        assert(rest@[0] == all[i as int]);
        let item = rest.remove(0);
        let table = match Table::try_from(item) {
            Ok(table) => table,
            Err(e) => {
                assert(spec_table_from(items@[i as int], Err::<Table, SynError>(e)));
                assert(spec_tables_before(items@, i as int)) by {
                    assert forall|j: int| 0 <= j < i as int implies spec_table_ok(
                        #[trigger] items@[j],
                    ) by {
                        assert(spec_table_from(all[j], Ok::<Table, SynError>(tables@[j])));
                    }
                }
                return Err(e);
            },
        };
        tables.push(table);
        i = i + 1;
        assert(rest@ =~= all.skip(i as int));
    }
    Ok(tables)
}

impl Db {
    /// A database from a module item without attributes, not `unsafe`, with a body of tables.
    pub fn try_from(item: Item) -> (r: Result<Db, SynError>)
        ensures
            !(item is Mod) ==> (r matches Err(e) && e.message_views() == seq![
                DB_ITEM_MUST_BE_MOD@,
            ]),
            item matches Item::Mod(m) ==> {
                if m.attr_count > 0 {
                    r matches Err(e) && e.message_views() == seq![DB_MOD_MUST_NOT_HAVE_ATTRS@]
                } else if m.is_unsafe {
                    r matches Err(e) && e.message_views() == seq![DB_MOD_MUST_NOT_BE_UNSAFE@]
                } else if m.content is None {
                    r matches Err(e) && e.message_views() == seq![DB_MOD_MUST_HAVE_CONTENT@]
                } else {
                    let items = m.content->0@;
                    &&& r matches Ok(db) ==> db.rs_name == m.ident && db.rs_vis == m.vis
                        && db.tables@.len() == items.len() && forall|i: int|
                        0 <= i < items.len() ==> spec_table_from(
                            #[trigger] items[i],
                            Ok::<Table, SynError>(db.tables@[i]),
                        )
                    &&& r matches Err(e) ==> exists|i: int|
                        0 <= i < items.len() && spec_table_from(
                            #[trigger] items[i],
                            Err::<Table, SynError>(e),
                        ) && spec_tables_before(items, i)
                }
            },
    {
        let item_mod = match item {
            Item::Mod(item_mod) => item_mod,
            _ => return Err(SynError::new(DB_ITEM_MUST_BE_MOD)),
        };
        let ItemMod { attr_count, vis, is_unsafe, ident, content } = item_mod;
        if attr_count > 0 {
            return Err(SynError::new(DB_MOD_MUST_NOT_HAVE_ATTRS));
        }
        if is_unsafe {
            return Err(SynError::new(DB_MOD_MUST_NOT_BE_UNSAFE));
        }
        let items = match content {
            Some(items) => items,
            None => return Err(SynError::new(DB_MOD_MUST_HAVE_CONTENT)),
        };
        let tables = match tables_from_items(items) {
            Ok(tables) => tables,
            Err(e) => return Err(e),
        };
        Ok(Self { rs_name: ident, tables, rs_vis: vis })
    }
}

} // verus!
