//! Stage 2 of the `db` macro: the checked schema. Every column has a resolved type,
//! and every table is a collection, a model with one identifier column,
//! or a many-to-many model of exactly two columns.

use vstd::prelude::*;

use super::stage1;
use super::stage1::{spec_atomic_ty, UNKNOWN_TYPE};
use crate::text::{spec_unraw, unraw};
use crate::utils::collections::{all_ok, error_messages, oks, try_collect_all_vec};
use crate::utils::multiplicity::{spec_multiplicity, spec_optional, Multiplicity};
use crate::utils::syn::{spec_ident_from_type, SynError, Type, EXPECTED_IDENT};

verus! {

pub const TABLE_MUST_HAVE_ID: &'static str = "table must have an ID";
pub const TABLE_MUST_NOT_HAVE_ID: &'static str = "table must not have an ID";
pub const TABLE_MUST_NOT_HAVE_MULTIPLE_IDS: &'static str = "table must not have multiple IDs";
pub const TABLE_MUST_IMPLEMENT_MODEL: &'static str =
    "table must implement model to implement controller";
pub const TABLE_MUST_HAVE_TWO_COLUMNS: &'static str = "table must have two columns";
pub const TABLE_DOES_NOT_EXIST: &'static str = "table does not exist";
pub const TABLE_MUST_NOT_IMPLEMENT_CONTROLLER: &'static str =
    "table must not implement controller";
pub const ID_MUST_BE_U64: &'static str = "id must be u64";
pub const COLUMN_MUST_BE_STRING: &'static str = "column must be string";
pub const COLUMN_MUST_BE_TIME: &'static str = "column must be time";
pub const COLUMN_MUST_NOT_BE_OPTIONAL: &'static str = "column must not be optional";
pub const COLUMN_MUST_NOT_BE_UNIQUE: &'static str = "column must not be unique";
pub const COLUMN_MUST_BE_VEC: &'static str = "column must be Vec";
pub const COLUMN_MUST_SPECIFY_INTERMEDIATE_TABLE: &'static str =
    "column must specify intermediate table";

/// The SQL string types.
#[derive(PartialEq, Eq, Structural, Clone, Copy)]
pub enum AtomicTyString {
    Varchar(stage1::StringLen),
    Char(stage1::StringLen),
    Text,
}

/// The SQL time types, by the Rust type they are read into.
#[derive(PartialEq, Eq, Structural, Clone, Copy)]
pub enum AtomicTyTime {
    ChronoDateTimeUtc,
    ChronoDateTimeLocal,
    ChronoNaiveDateTime,
    ChronoNaiveDate,
    ChronoNaiveTime,
    ChronoTimeDelta,
    TimeOffsetDateTime,
    TimePrimitiveDateTime,
    TimeDate,
    TimeTime,
    TimeDuration,
}

/// The SQL integer types, by the Rust type they are read into.
#[allow(non_camel_case_types)]
#[derive(PartialEq, Eq, Structural, Clone, Copy)]
pub enum AtomicTyInt {
    u8,
    i8,
    u16,
    i16,
    u32,
    i32,
    u64,
    i64,
}

/// The SQL floating-point types, by the Rust type they are read into.
#[derive(PartialEq, Eq, Structural, Clone, Copy)]
pub enum AtomicTyFloat {
    /// the 32-bit floating-point type
    Float32,
    /// the 64-bit floating-point type
    Float64,
}

/// The type of a value column.
#[allow(non_camel_case_types)]
#[derive(PartialEq, Eq, Structural, Clone, Copy)]
pub enum AtomicTy {
    bool,
    Int(AtomicTyInt),
    Float(AtomicTyFloat),
    String(AtomicTyString),
    Time(AtomicTyTime),
}

impl AtomicTy {
    /// The column type of a Rust value type; a `String` is a `VARCHAR(255)`.
    pub open spec fn spec_from(atomic_ty: stage1::AtomicTy) -> AtomicTy {
        match atomic_ty {
            stage1::AtomicTy::bool => AtomicTy::bool,
            stage1::AtomicTy::u8 => AtomicTy::Int(AtomicTyInt::u8),
            stage1::AtomicTy::i8 => AtomicTy::Int(AtomicTyInt::i8),
            stage1::AtomicTy::u16 => AtomicTy::Int(AtomicTyInt::u16),
            stage1::AtomicTy::i16 => AtomicTy::Int(AtomicTyInt::i16),
            stage1::AtomicTy::u32 => AtomicTy::Int(AtomicTyInt::u32),
            stage1::AtomicTy::i32 => AtomicTy::Int(AtomicTyInt::i32),
            stage1::AtomicTy::u64 => AtomicTy::Int(AtomicTyInt::u64),
            stage1::AtomicTy::i64 => AtomicTy::Int(AtomicTyInt::i64),
            stage1::AtomicTy::Float32 => AtomicTy::Float(AtomicTyFloat::Float32),
            stage1::AtomicTy::Float64 => AtomicTy::Float(AtomicTyFloat::Float64),
            stage1::AtomicTy::String => AtomicTy::String(AtomicTyString::Varchar(255)),
            stage1::AtomicTy::ChronoDateTimeUtc => AtomicTy::Time(AtomicTyTime::ChronoDateTimeUtc),
            stage1::AtomicTy::ChronoDateTimeLocal => AtomicTy::Time(
                AtomicTyTime::ChronoDateTimeLocal,
            ),
            stage1::AtomicTy::ChronoNaiveDateTime => AtomicTy::Time(
                AtomicTyTime::ChronoNaiveDateTime,
            ),
            stage1::AtomicTy::ChronoNaiveDate => AtomicTy::Time(AtomicTyTime::ChronoNaiveDate),
            stage1::AtomicTy::ChronoNaiveTime => AtomicTy::Time(AtomicTyTime::ChronoNaiveTime),
            stage1::AtomicTy::ChronoTimeDelta => AtomicTy::Time(AtomicTyTime::ChronoTimeDelta),
            stage1::AtomicTy::TimeDateTime => AtomicTy::Time(AtomicTyTime::TimePrimitiveDateTime),
            stage1::AtomicTy::TimeOffsetDateTime => AtomicTy::Time(
                AtomicTyTime::TimeOffsetDateTime,
            ),
            stage1::AtomicTy::TimeDate => AtomicTy::Time(AtomicTyTime::TimeDate),
            stage1::AtomicTy::TimeTime => AtomicTy::Time(AtomicTyTime::TimeTime),
            stage1::AtomicTy::TimeDuration => AtomicTy::Time(AtomicTyTime::TimeDuration),
        }
    }

    /// The column type of a Rust value type; a `String` is a `VARCHAR(255)`.
    pub fn from(atomic_ty: stage1::AtomicTy) -> (r: AtomicTy)
        ensures
            r == Self::spec_from(atomic_ty),
    {
        match atomic_ty {
            stage1::AtomicTy::bool => Self::bool,
            stage1::AtomicTy::u8 => Self::Int(AtomicTyInt::u8),
            stage1::AtomicTy::i8 => Self::Int(AtomicTyInt::i8),
            stage1::AtomicTy::u16 => Self::Int(AtomicTyInt::u16),
            stage1::AtomicTy::i16 => Self::Int(AtomicTyInt::i16),
            stage1::AtomicTy::u32 => Self::Int(AtomicTyInt::u32),
            stage1::AtomicTy::i32 => Self::Int(AtomicTyInt::i32),
            stage1::AtomicTy::u64 => Self::Int(AtomicTyInt::u64),
            stage1::AtomicTy::i64 => Self::Int(AtomicTyInt::i64),
            stage1::AtomicTy::Float32 => Self::Float(AtomicTyFloat::Float32),
            stage1::AtomicTy::Float64 => Self::Float(AtomicTyFloat::Float64),
            stage1::AtomicTy::String => Self::String(AtomicTyString::Varchar(255)),
            stage1::AtomicTy::ChronoDateTimeUtc => Self::Time(AtomicTyTime::ChronoDateTimeUtc),
            stage1::AtomicTy::ChronoDateTimeLocal => Self::Time(AtomicTyTime::ChronoDateTimeLocal),
            stage1::AtomicTy::ChronoNaiveDateTime => Self::Time(AtomicTyTime::ChronoNaiveDateTime),
            stage1::AtomicTy::ChronoNaiveDate => Self::Time(AtomicTyTime::ChronoNaiveDate),
            stage1::AtomicTy::ChronoNaiveTime => Self::Time(AtomicTyTime::ChronoNaiveTime),
            stage1::AtomicTy::ChronoTimeDelta => Self::Time(AtomicTyTime::ChronoTimeDelta),
            stage1::AtomicTy::TimeDateTime => Self::Time(AtomicTyTime::TimePrimitiveDateTime),
            stage1::AtomicTy::TimeOffsetDateTime => Self::Time(AtomicTyTime::TimeOffsetDateTime),
            stage1::AtomicTy::TimeDate => Self::Time(AtomicTyTime::TimeDate),
            stage1::AtomicTy::TimeTime => Self::Time(AtomicTyTime::TimeTime),
            stage1::AtomicTy::TimeDuration => Self::Time(AtomicTyTime::TimeDuration),
        }
    }
}

/// A value column: its type, and whether it is optional and unique.
#[derive(PartialEq, Eq, Structural, Clone, Copy)]
pub struct TyElementValue {
    pub ty: AtomicTy,
    pub optional: bool,
    pub unique: bool,
}

impl TyElementValue {
    pub fn new(ty_element_value: stage1::TyElementValue, unique: bool) -> (r: TyElementValue)
        ensures
            r == (TyElementValue {
                ty: AtomicTy::spec_from(ty_element_value.ty),
                optional: ty_element_value.optional,
                unique,
            }),
    {
        TyElementValue {
            ty: AtomicTy::from(ty_element_value.ty),
            optional: ty_element_value.optional,
            unique,
        }
    }
}

/// When a time column is set automatically.
#[derive(PartialEq, Eq, Structural, Clone, Copy)]
pub enum AutoTimeEvent {
    OnCreate,
    OnUpdate,
}

/// A time column that is set automatically.
#[derive(PartialEq, Eq, Structural, Clone, Copy)]
pub struct TyElementAutoTime {
    pub ty: AtomicTyTime,
    pub event: AutoTimeEvent,
}

/// What the `ty` attribute says of a column that holds a value.
#[derive(PartialEq, Eq, Structural, Clone, Copy)]
pub enum ColumnAttrTyElement {
    Id,
    /// no `ty` attribute
    Plain,
    String(AtomicTyString),
    AutoTime(AutoTimeEvent),
}

/// What the `ty` attribute says of a column that refers to other tables.
pub enum ColumnAttrTyCompound {
    One,
    Many { model_rs_name: String, aggregate_rs_name: Option<String> },
}

/// What the `ty` attribute says of a column.
pub enum ColumnAttrTy {
    Compound(ColumnAttrTyCompound),
    Element(ColumnAttrTyElement),
}

impl ColumnAttrTy {
    /// What the `ty` attribute says of a column.
    pub open spec fn spec_from(attr_ty: Option<stage1::ColumnAttrTy>) -> ColumnAttrTy {
        match attr_ty {
            None => ColumnAttrTy::Element(ColumnAttrTyElement::Plain),
            Some(stage1::ColumnAttrTy::Compound(c)) => match c.many {
                None => ColumnAttrTy::Compound(ColumnAttrTyCompound::One),
                Some(many) => ColumnAttrTy::Compound(
                    ColumnAttrTyCompound::Many {
                        model_rs_name: many.model_rs_name,
                        aggregate_rs_name: many.index_rs_ty,
                    },
                ),
            },
            Some(stage1::ColumnAttrTy::Id) => ColumnAttrTy::Element(ColumnAttrTyElement::Id),
            Some(stage1::ColumnAttrTy::Varchar(len)) => ColumnAttrTy::Element(
                ColumnAttrTyElement::String(AtomicTyString::Varchar(len)),
            ),
            Some(stage1::ColumnAttrTy::Char(len)) => ColumnAttrTy::Element(
                ColumnAttrTyElement::String(AtomicTyString::Char(len)),
            ),
            Some(stage1::ColumnAttrTy::Text) => ColumnAttrTy::Element(
                ColumnAttrTyElement::String(AtomicTyString::Text),
            ),
            Some(stage1::ColumnAttrTy::OnCreate) => ColumnAttrTy::Element(
                ColumnAttrTyElement::AutoTime(AutoTimeEvent::OnCreate),
            ),
            Some(stage1::ColumnAttrTy::OnUpdate) => ColumnAttrTy::Element(
                ColumnAttrTyElement::AutoTime(AutoTimeEvent::OnUpdate),
            ),
        }
    }

    /// What the `ty` attribute says of a column.
    pub fn from(attr_ty: Option<stage1::ColumnAttrTy>) -> (r: ColumnAttrTy)
        ensures
            r == Self::spec_from(attr_ty),
    {
        match attr_ty {
            None => Self::Element(ColumnAttrTyElement::Plain),
            Some(stage1::ColumnAttrTy::Compound(c)) => match c.many {
                None => Self::Compound(ColumnAttrTyCompound::One),
                Some(many) => Self::Compound(
                    ColumnAttrTyCompound::Many {
                        model_rs_name: many.model_rs_name,
                        aggregate_rs_name: many.index_rs_ty,
                    },
                ),
            },
            Some(stage1::ColumnAttrTy::Id) => Self::Element(ColumnAttrTyElement::Id),
            Some(stage1::ColumnAttrTy::Varchar(len)) => Self::Element(
                ColumnAttrTyElement::String(AtomicTyString::Varchar(len)),
            ),
            Some(stage1::ColumnAttrTy::Char(len)) => Self::Element(
                ColumnAttrTyElement::String(AtomicTyString::Char(len)),
            ),
            Some(stage1::ColumnAttrTy::Text) => Self::Element(
                ColumnAttrTyElement::String(AtomicTyString::Text),
            ),
            Some(stage1::ColumnAttrTy::OnCreate) => Self::Element(
                ColumnAttrTyElement::AutoTime(AutoTimeEvent::OnCreate),
            ),
            Some(stage1::ColumnAttrTy::OnUpdate) => Self::Element(
                ColumnAttrTyElement::AutoTime(AutoTimeEvent::OnUpdate),
            ),
        }
    }
}

/// The default value of a column in SQL.
pub enum DefaultValue<'a> {
    /// the current time, of the given time type
    AutoTime(&'a AtomicTyTime),
}

/// A column that holds a value.
#[derive(PartialEq, Eq, Structural, Clone, Copy)]
pub enum TyElement {
    /// the identifier column, a `u64`
    Id,
    Value(TyElementValue),
    AutoTime(TyElementAutoTime),
}

impl TyElement {
    pub open spec fn spec_optional(self) -> bool {
        self matches Self::Value(value) && value.optional
    }

    pub fn optional(&self) -> (r: bool)
        ensures
            r == self.spec_optional(),
    {
        match self {
            Self::Value(value) => value.optional,
            _ => false,
        }
    }

    pub open spec fn spec_unique(self) -> bool {
        match self {
            Self::Id => true,
            Self::Value(value) => value.unique,
            Self::AutoTime(_) => false,
        }
    }

    pub fn unique(&self) -> (r: bool)
        ensures
            r == self.spec_unique(),
    {
        match self {
            Self::Id => true,
            Self::Value(value) => value.unique,
            Self::AutoTime(_) => false,
        }
    }

    pub fn is_id(&self) -> (r: bool)
        ensures
            r == (*self is Id),
    {
        match self {
            Self::Id => true,
            _ => false,
        }
    }

    /// The current time, for a time column that is set automatically.
    pub fn default_value(&self) -> (r: Option<DefaultValue<'_>>)
        ensures
            match *self {
                Self::AutoTime(auto_time) => r matches Some(DefaultValue::AutoTime(t)) && *t
                    == auto_time.ty,
                _ => r is None,
            },
    {
        match self {
            Self::AutoTime(time_ty) => Some(DefaultValue::AutoTime(&time_ty.ty)),
            _ => None,
        }
    }

    /// Whether requests may change the column.
    pub fn is_updatable(&self) -> (r: bool)
        ensures
            r == (*self is Value),
    {
        match self {
            Self::Value(_) => true,
            _ => false,
        }
    }

    pub open spec fn spec_max_len(self) -> Option<u16> {
        match self {
            Self::Value(value) => match value.ty {
                AtomicTy::String(AtomicTyString::Varchar(len)) => Some(len),
                AtomicTy::String(AtomicTyString::Char(len)) => Some(len),
                _ => None,
            },
            _ => None,
        }
    }

    /// The maximum length of a `VARCHAR` or `CHAR` column.
    pub fn max_len(&self) -> (r: Option<u16>)
        ensures
            r == self.spec_max_len(),
    {
        match self {
            Self::Value(value) => match value.ty {
                AtomicTy::String(AtomicTyString::Varchar(len)) => Some(len),
                AtomicTy::String(AtomicTyString::Char(len)) => Some(len),
                _ => None,
            },
            _ => None,
        }
    }
}

/// How many records of another table a column refers to.
pub enum TyCompoundMultiplicity {
    /// one record, or at most one when optional
    One { optional: bool, unique: bool },
    /// many records, through an intermediate table
    Many { model_rs_name: String, aggregate_rs_name: Option<String> },
}

impl TyCompoundMultiplicity {
    pub open spec fn spec_optional(self) -> bool {
        self matches Self::One { optional, .. } && optional
    }

    pub fn optional(&self) -> (r: bool)
        ensures
            r == self.spec_optional(),
    {
        match self {
            Self::One { optional, .. } => *optional,
            _ => false,
        }
    }

    pub open spec fn spec_unique(self) -> bool {
        self matches Self::One { unique, .. } && unique
    }

    pub fn unique(&self) -> (r: bool)
        ensures
            r == self.spec_unique(),
    {
        match self {
            Self::One { unique, .. } => *unique,
            _ => false,
        }
    }
}

/// A column that refers to records of another table.
pub struct TyCompound {
    /// the referred table
    pub ty: String,
    pub multiplicity: TyCompoundMultiplicity,
}

impl TyCompound {
    pub fn optional(&self) -> (r: bool)
        ensures
            r == self.multiplicity.spec_optional(),
    {
        self.multiplicity.optional()
    }

    pub fn unique(&self) -> (r: bool)
        ensures
            r == self.multiplicity.spec_unique(),
    {
        self.multiplicity.unique()
    }
}

/// The resolved type of a column.
pub enum Ty {
    Compound(TyCompound),
    Element(TyElement),
}

impl Ty {
    pub open spec fn spec_optional(&self) -> bool {
        match self {
            Self::Compound(compound) => compound.multiplicity.spec_optional(),
            Self::Element(element) => element.spec_optional(),
        }
    }

    pub fn optional(&self) -> (r: bool)
        ensures
            r == self.spec_optional(),
    {
        match self {
            Self::Compound(compound) => compound.optional(),
            Self::Element(element) => element.optional(),
        }
    }

    pub open spec fn spec_unique(&self) -> bool {
        match self {
            Self::Compound(compound) => compound.multiplicity.spec_unique(),
            Self::Element(element) => element.spec_unique(),
        }
    }

    pub fn unique(&self) -> (r: bool)
        ensures
            r == self.spec_unique(),
    {
        match self {
            Self::Compound(compound) => compound.unique(),
            Self::Element(element) => element.unique(),
        }
    }

    /// The default value of a time column that is set automatically.
    pub fn default_value(&self) -> (r: Option<DefaultValue<'_>>)
        ensures
            match *self {
                Self::Element(TyElement::AutoTime(auto_time)) => r matches Some(
                    DefaultValue::AutoTime(t),
                ) && *t == auto_time.ty,
                _ => r is None,
            },
    {
        match self {
            Self::Compound(_) => None,
            Self::Element(element) => element.default_value(),
        }
    }

    pub open spec fn spec_max_len(&self) -> Option<u16> {
        match self {
            Self::Compound(_) => None,
            Self::Element(element) => element.spec_max_len(),
        }
    }

    /// The maximum length of a `VARCHAR` or `CHAR` column.
    pub fn max_len(&self) -> (r: Option<u16>)
        ensures
            r == self.spec_max_len(),
    {
        match self {
            Self::Compound(_) => None,
            Self::Element(element) => element.max_len(),
        }
    }
}

/// The `response` attribute of a column.
pub struct ColumnAttrResponse {
    pub name: Option<String>,
    pub skip: bool,
}

/// A validation rule of a request field; each holds the Rust source of its argument,
/// but for the maximum length of a string column, which the column type gives.
pub enum ValidateRule {
    MinLen(String),
    MaxLen(usize),
    Func(String),
    Matches(String),
    NMatches(String),
    Eq(String),
    NEq(String),
    Gt(String),
    Lt(String),
    Gte(String),
    Lte(String),
}

/// The validation rules of a request field.
pub type Validate = Vec<ValidateRule>;

/// The rule of the schema for a rule as written.
pub open spec fn spec_validate_rule(rule: stage1::ValidateRule) -> ValidateRule {
    match rule {
        stage1::ValidateRule::MinLen(a) => ValidateRule::MinLen(a),
        stage1::ValidateRule::Func(a) => ValidateRule::Func(a),
        stage1::ValidateRule::Matches(a) => ValidateRule::Matches(a),
        stage1::ValidateRule::NMatches(a) => ValidateRule::NMatches(a),
        stage1::ValidateRule::Eq(a) => ValidateRule::Eq(a),
        stage1::ValidateRule::NEq(a) => ValidateRule::NEq(a),
        stage1::ValidateRule::Gt(a) => ValidateRule::Gt(a),
        stage1::ValidateRule::Lt(a) => ValidateRule::Lt(a),
        stage1::ValidateRule::Gte(a) => ValidateRule::Gte(a),
        stage1::ValidateRule::Lte(a) => ValidateRule::Lte(a),
    }
}

fn validate_rule(rule: stage1::ValidateRule) -> (r: ValidateRule)
    ensures
        r == spec_validate_rule(rule),
{
    match rule {
        stage1::ValidateRule::MinLen(a) => ValidateRule::MinLen(a),
        stage1::ValidateRule::Func(a) => ValidateRule::Func(a),
        stage1::ValidateRule::Matches(a) => ValidateRule::Matches(a),
        stage1::ValidateRule::NMatches(a) => ValidateRule::NMatches(a),
        stage1::ValidateRule::Eq(a) => ValidateRule::Eq(a),
        stage1::ValidateRule::NEq(a) => ValidateRule::NEq(a),
        stage1::ValidateRule::Gt(a) => ValidateRule::Gt(a),
        stage1::ValidateRule::Lt(a) => ValidateRule::Lt(a),
        stage1::ValidateRule::Gte(a) => ValidateRule::Gte(a),
        stage1::ValidateRule::Lte(a) => ValidateRule::Lte(a),
    }
}

/// The `request` attribute of a column.
pub struct ColumnAttrRequest {
    pub name: Option<String>,
}

/// How an aggregate query filters by its column.
pub type ColumnAttrAggregateFilter = stage1::ColumnAttrIndexFilter;

/// How an aggregate query limits the number of records.
pub type ColumnAttrAggregateLimit = stage1::ColumnAttrIndexLimit;

/// An aggregate query on a column: a named query type that filters, sorts or limits by it.
pub struct ColumnAttrAggregate {
    /// the name of the query type
    pub rs_name: String,
    pub filter: ColumnAttrAggregateFilter,
    pub is_sort: bool,
    pub limit: ColumnAttrAggregateLimit,
    /// the query is also offered by the controller
    pub is_controller: bool,
}

/// The aggregate query of an `index` attribute.
pub open spec fn spec_aggregate(index: stage1::ColumnAttrIndex) -> ColumnAttrAggregate {
    ColumnAttrAggregate {
        rs_name: index.rs_name,
        filter: index.filter,
        is_sort: index.sort,
        limit: index.limit,
        is_controller: index.controller,
    }
}

fn aggregates_of(index: Vec<stage1::ColumnAttrIndex>) -> (r: Vec<ColumnAttrAggregate>)
    ensures
        r@ == index@.map_values(|i: stage1::ColumnAttrIndex| spec_aggregate(i)),
{
    let ghost all = index@;
    let mut rest = index;
    let mut out: Vec<ColumnAttrAggregate> = Vec::new();
    let len = rest.len();
    let mut i: usize = 0;
    while i < len
        invariant
            i <= len,
            len == all.len(),
            rest@ == all.skip(i as int),
            out@ == all.take(i as int).map_values(|i: stage1::ColumnAttrIndex| spec_aggregate(i)),
        decreases len - i,
    {
        assert(rest@[0] == all[i as int]);
        let index = rest.remove(0);
        out.push(
            ColumnAttrAggregate {
                rs_name: index.rs_name,
                filter: index.filter,
                is_sort: index.sort,
                limit: index.limit,
                is_controller: index.controller,
            },
        );
        assert(all.take(i + 1) =~= all.take(i as int).push(all[i as int]));
        i = i + 1;
        assert(rest@ =~= all.skip(i as int));
        assert(out@ =~= all.take(i as int).map_values(
            |i: stage1::ColumnAttrIndex| spec_aggregate(i),
        ));
    }
    assert(all.take(len as int) =~= all);
    out
}

/// The validation rules of a column: the rules as written, then the maximum length
/// of a `VARCHAR` or `CHAR` column.
pub open spec fn spec_validate(rules: Seq<stage1::ValidateRule>, max_len: Option<u16>) -> Seq<
    ValidateRule,
> {
    let written = rules.map_values(|r: stage1::ValidateRule| spec_validate_rule(r));
    match max_len {
        Some(len) => written.push(ValidateRule::MaxLen(len as usize)),
        None => written,
    }
}

/// The kind of a validation rule as written, by its name in the attribute.
pub open spec fn spec_written_rule_kind(rule: stage1::ValidateRule) -> Seq<char> {
    match rule {
        stage1::ValidateRule::MinLen(_) => "min_len"@,
        stage1::ValidateRule::Func(_) => "func"@,
        stage1::ValidateRule::Matches(_) => "matches"@,
        stage1::ValidateRule::NMatches(_) => "n_matches"@,
        stage1::ValidateRule::Eq(_) => "eq"@,
        stage1::ValidateRule::NEq(_) => "n_eq"@,
        stage1::ValidateRule::Gt(_) => "gt"@,
        stage1::ValidateRule::Lt(_) => "lt"@,
        stage1::ValidateRule::Gte(_) => "gte"@,
        stage1::ValidateRule::Lte(_) => "lte"@,
    }
}

/// The argument of a validation rule as written.
pub open spec fn spec_written_rule_argument(rule: stage1::ValidateRule) -> String {
    match rule {
        stage1::ValidateRule::MinLen(a) | stage1::ValidateRule::Func(a)
        | stage1::ValidateRule::Matches(a) | stage1::ValidateRule::NMatches(a)
        | stage1::ValidateRule::Eq(a) | stage1::ValidateRule::NEq(a)
        | stage1::ValidateRule::Gt(a) | stage1::ValidateRule::Lt(a)
        | stage1::ValidateRule::Gte(a) | stage1::ValidateRule::Lte(a) => a,
    }
}

/// The kind of a validation rule of the schema, by the name of the rule.
pub open spec fn spec_rule_kind(rule: ValidateRule) -> Seq<char> {
    match rule {
        ValidateRule::MinLen(_) => "min_len"@,
        ValidateRule::MaxLen(_) => "max_len"@,
        ValidateRule::Func(_) => "func"@,
        ValidateRule::Matches(_) => "matches"@,
        ValidateRule::NMatches(_) => "n_matches"@,
        ValidateRule::Eq(_) => "eq"@,
        ValidateRule::NEq(_) => "n_eq"@,
        ValidateRule::Gt(_) => "gt"@,
        ValidateRule::Lt(_) => "lt"@,
        ValidateRule::Gte(_) => "gte"@,
        ValidateRule::Lte(_) => "lte"@,
    }
}

/// The argument of a validation rule of the schema, if it has one as text.
pub open spec fn spec_rule_argument(rule: ValidateRule) -> Option<String> {
    match rule {
        ValidateRule::MaxLen(_) => None,
        ValidateRule::MinLen(a) | ValidateRule::Func(a) | ValidateRule::Matches(a)
        | ValidateRule::NMatches(a) | ValidateRule::Eq(a) | ValidateRule::NEq(a)
        | ValidateRule::Gt(a) | ValidateRule::Lt(a) | ValidateRule::Gte(a)
        | ValidateRule::Lte(a) => Some(a),
    }
}

/// Each validation rule as written is kept, in order, as the rule of the same kind with the
/// same argument (`gt(17)` stays a `gt` rule of `17`, never another comparison); after them
/// comes the maximum length of a `VARCHAR` or `CHAR` column, when it has one. So two
/// different rules as written never become the same rule.
pub proof fn law_validate_keeps_rules(rules: Seq<stage1::ValidateRule>, max_len: Option<u16>)
    ensures
        spec_validate(rules, max_len).len() == rules.len() + (if max_len is Some {
            1int
        } else {
            0int
        }),
        forall|i: int|
            0 <= i < rules.len() ==> spec_rule_kind(#[trigger] spec_validate(rules, max_len)[i])
                == spec_written_rule_kind(rules[i]) && spec_rule_argument(
                spec_validate(rules, max_len)[i],
            ) == Some(spec_written_rule_argument(rules[i])),
        forall|i: int, j: int|
            0 <= i < rules.len() && 0 <= j < rules.len() && rules[i] != rules[j] ==> #[trigger] spec_validate(
                rules,
                max_len,
            )[i] != #[trigger] spec_validate(rules, max_len)[j],
        max_len matches Some(len) ==> spec_validate(rules, max_len).last() == ValidateRule::MaxLen(
            len as usize,
        ),
{
    reveal_strlit("min_len");
    reveal_strlit("max_len");
    reveal_strlit("func");
    reveal_strlit("matches");
    reveal_strlit("n_matches");
    reveal_strlit("eq");
    reveal_strlit("n_eq");
    reveal_strlit("gt");
    reveal_strlit("lt");
    reveal_strlit("gte");
    reveal_strlit("lte");
    let v = spec_validate(rules, max_len);
    assert forall|i: int| 0 <= i < rules.len() implies v[i] == spec_validate_rule(rules[i]) by {}
    assert forall|i: int, j: int|
        0 <= i < rules.len() && 0 <= j < rules.len() && rules[i] != rules[j] implies #[trigger] v[i]
        != #[trigger] v[j] by {
        assert(v[i] == spec_validate_rule(rules[i]));
        assert(v[j] == spec_validate_rule(rules[j]));
    }
}

fn validate_of(rules: Vec<stage1::ValidateRule>, max_len: Option<u16>) -> (r: Vec<ValidateRule>)
    ensures
        r@ == spec_validate(rules@, max_len),
{
    let ghost all = rules@;
    let mut rest = rules;
    let mut out: Vec<ValidateRule> = Vec::new();
    let len = rest.len();
    let mut i: usize = 0;
    while i < len
        invariant
            i <= len,
            len == all.len(),
            rest@ == all.skip(i as int),
            out@ == all.take(i as int).map_values(|r: stage1::ValidateRule| spec_validate_rule(r)),
        decreases len - i,
    {
        assert(rest@[0] == all[i as int]);
        let rule = rest.remove(0);
        out.push(validate_rule(rule));
        assert(all.take(i + 1) =~= all.take(i as int).push(all[i as int]));
        i = i + 1;
        assert(rest@ =~= all.skip(i as int));
        assert(out@ =~= all.take(i as int).map_values(
            |r: stage1::ValidateRule| spec_validate_rule(r),
        ));
    }
    assert(all.take(len as int) =~= all);
    match max_len {
        Some(len) => out.push(ValidateRule::MaxLen(len as usize)),
        None => {},
    }
    out
}

/// A column of the checked schema.
pub struct Column {
    /// the name of the column in the database
    pub name: String,
    /// the name of the column in the Rust struct
    pub rs_name: String,
    /// the type of the column
    pub ty: Ty,
    /// the type of the column in the Rust struct
    pub rs_ty: Box<Type>,
    pub response: ColumnAttrResponse,
    pub request: ColumnAttrRequest,
    /// validation rules of the request field
    pub validate: Validate,
    /// the aggregate queries on the column
    pub aggregates: Vec<ColumnAttrAggregate>,
    /// `borrow`, or `borrow(T)`: the request field borrows its value, as `T` when given
    pub borrow: Option<Option<Box<Type>>>,
    /// the name of a unit struct that names the column
    pub struct_name: Option<String>,
    /// the forwarded attributes, as Rust source
    pub rs_attrs: Vec<String>,
}

/// The name of a column or table: the one given by attribute, else the Rust name
/// without its raw-identifier prefix.
pub open spec fn spec_name(name: Option<String>, rs_name: String) -> Seq<char> {
    match name {
        Some(name) => name@,
        None => spec_unraw(rs_name@),
    }
}

fn name_of(name: Option<String>, rs_name: &String) -> (r: String)
    ensures
        r@ == spec_name(name, *rs_name),
{
    match name {
        Some(name) => name,
        None => unraw(rs_name),
    }
}

/// The type that a column's type is read from: `real_ty` when given, else the field type.
pub open spec fn spec_real_ty(column: stage1::Column) -> Type {
    match column.attr.real_rs_ty {
        Some(source_ty) => *source_ty,
        None => *column.rs_ty,
    }
}

/// The resolved type of a column, or the message of what is wrong with it.
pub open spec fn spec_column_ty(column: stage1::Column) -> Result<Ty, Seq<char>> {
    spec_column_ty_of(column.attr.ty, spec_real_ty(column), column.attr.unique)
}

/// The resolved type of a column with `ty` attribute `attr_ty`, read from type `source_ty`,
/// or the message of what is wrong with it.
pub open spec fn spec_column_ty_of(
    attr_ty: Option<stage1::ColumnAttrTy>,
    source_ty: Type,
    unique: bool,
) -> Result<Ty, Seq<char>> {
    match ColumnAttrTy::spec_from(attr_ty) {
        ColumnAttrTy::Compound(compound) => {
            let (inner, m) = spec_multiplicity(source_ty);
            match spec_ident_from_type(inner) {
                None => Err(EXPECTED_IDENT@),
                Some(ty) => match compound {
                    ColumnAttrTyCompound::One => match m {
                        Multiplicity::One => Ok(
                            Ty::Compound(
                                TyCompound {
                                    ty,
                                    multiplicity: TyCompoundMultiplicity::One {
                                        optional: false,
                                        unique,
                                    },
                                },
                            ),
                        ),
                        Multiplicity::OneOrZero => Ok(
                            Ty::Compound(
                                TyCompound {
                                    ty,
                                    multiplicity: TyCompoundMultiplicity::One {
                                        optional: true,
                                        unique,
                                    },
                                },
                            ),
                        ),
                        Multiplicity::Many => Err(COLUMN_MUST_SPECIFY_INTERMEDIATE_TABLE@),
                    },
                    ColumnAttrTyCompound::Many { model_rs_name, aggregate_rs_name } => match m {
                        Multiplicity::Many => Ok(
                            Ty::Compound(
                                TyCompound {
                                    ty,
                                    multiplicity: TyCompoundMultiplicity::Many {
                                        model_rs_name,
                                        aggregate_rs_name,
                                    },
                                },
                            ),
                        ),
                        _ => Err(COLUMN_MUST_BE_VEC@),
                    },
                },
            }
        },
        ColumnAttrTy::Element(element) => {
            let (inner, optional) = spec_optional(source_ty);
            match spec_atomic_ty(inner) {
                None => Err(UNKNOWN_TYPE@),
                Some(atomic) => {
                    let ty = AtomicTy::spec_from(atomic);
                    match element {
                        ColumnAttrTyElement::Plain => Ok(
                            Ty::Element(TyElement::Value(TyElementValue { ty, optional, unique })),
                        ),
                        ColumnAttrTyElement::Id => if unique {
                            Err(COLUMN_MUST_NOT_BE_UNIQUE@)
                        } else if ty != AtomicTy::Int(AtomicTyInt::u64) {
                            Err(ID_MUST_BE_U64@)
                        } else if optional {
                            Err(COLUMN_MUST_NOT_BE_OPTIONAL@)
                        } else {
                            Ok(Ty::Element(TyElement::Id))
                        },
                        ColumnAttrTyElement::String(string) => if ty is String {
                            Ok(
                                Ty::Element(
                                    TyElement::Value(
                                        TyElementValue {
                                            ty: AtomicTy::String(string),
                                            optional,
                                            unique,
                                        },
                                    ),
                                ),
                            )
                        } else {
                            Err(COLUMN_MUST_BE_STRING@)
                        },
                        ColumnAttrTyElement::AutoTime(event) => if unique {
                            Err(COLUMN_MUST_NOT_BE_UNIQUE@)
                        } else {
                            match ty {
                                AtomicTy::Time(time) => if optional {
                                    Err(COLUMN_MUST_NOT_BE_OPTIONAL@)
                                } else {
                                    Ok(
                                        Ty::Element(
                                            TyElement::AutoTime(TyElementAutoTime { ty: time, event }),
                                        ),
                                    )
                                },
                                _ => Err(COLUMN_MUST_BE_TIME@),
                            }
                        },
                    }
                },
            }
        },
    }
}

/// `column` is the checked column of `src`, whose type resolved to `column.ty`.
pub open spec fn spec_column_of(src: stage1::Column, column: Column) -> bool {
    &&& spec_column_ty(src) == Ok::<Ty, Seq<char>>(column.ty)
    &&& column.name@ == spec_name(src.attr.name, src.rs_name)
    &&& column.rs_name == src.rs_name
    &&& column.rs_ty == src.rs_ty
    &&& column.response == (ColumnAttrResponse {
        name: src.attr.response.name,
        skip: src.attr.response.skip,
    })
    &&& column.request == (ColumnAttrRequest { name: src.attr.request.name })
    &&& column.validate@ == spec_validate(src.attr.request.validate@, column.ty.spec_max_len())
    &&& column.aggregates@ == src.attr.index@.map_values(
        |i: stage1::ColumnAttrIndex| spec_aggregate(i),
    )
    &&& column.borrow == src.attr.borrow
    &&& column.struct_name == src.attr.struct_name
    &&& column.rs_attrs == src.attr.attrs
}

/// The resolved type of a column, from its `ty` attribute and the type it is read from.
fn column_ty(attr_ty: Option<stage1::ColumnAttrTy>, source_ty: &Type, unique: bool) -> (r: Result<
    Ty,
    SynError,
>)
    ensures
        match r {
            Ok(ty) => spec_column_ty_of(attr_ty, *source_ty, unique) == Ok::<Ty, Seq<char>>(ty),
            Err(e) => spec_column_ty_of(attr_ty, *source_ty, unique) matches Err(m)
                && e.message_views() == seq![m],
        },
{
    match ColumnAttrTy::from(attr_ty) {
        ColumnAttrTy::Compound(compound) => {
            let c = match stage1::TyCompound::try_from(source_ty) {
                Ok(c) => c,
                Err(e) => return Err(e),
            };
            let stage1::TyCompound { ty, multiplicity } = c;
            match compound {
                ColumnAttrTyCompound::One => match multiplicity {
                    Multiplicity::One => Ok(
                        Ty::Compound(
                            TyCompound {
                                ty,
                                multiplicity: TyCompoundMultiplicity::One {
                                    optional: false,
                                    unique,
                                },
                            },
                        ),
                    ),
                    Multiplicity::OneOrZero => Ok(
                        Ty::Compound(
                            TyCompound {
                                ty,
                                multiplicity: TyCompoundMultiplicity::One { optional: true, unique },
                            },
                        ),
                    ),
                    Multiplicity::Many => Err(SynError::new(COLUMN_MUST_SPECIFY_INTERMEDIATE_TABLE)),
                },
                ColumnAttrTyCompound::Many { model_rs_name, aggregate_rs_name } => match multiplicity {
                    Multiplicity::Many => Ok(
                        Ty::Compound(
                            TyCompound {
                                ty,
                                multiplicity: TyCompoundMultiplicity::Many {
                                    model_rs_name,
                                    aggregate_rs_name,
                                },
                            },
                        ),
                    ),
                    _ => Err(SynError::new(COLUMN_MUST_BE_VEC)),
                },
            }
        },
        ColumnAttrTy::Element(element) => {
            let value = match stage1::TyElementValue::try_from(source_ty) {
                Ok(value) => value,
                Err(e) => return Err(e),
            };
            let value = TyElementValue::new(value, unique);
            let TyElementValue { ty, optional, unique } = value;
            match element {
                ColumnAttrTyElement::Plain => Ok(
                    Ty::Element(TyElement::Value(TyElementValue { ty, optional, unique })),
                ),
                ColumnAttrTyElement::Id => {
                    if unique {
                        return Err(SynError::new(COLUMN_MUST_NOT_BE_UNIQUE));
                    }
                    match ty {
                        AtomicTy::Int(AtomicTyInt::u64) => {},
                        _ => return Err(SynError::new(ID_MUST_BE_U64)),
                    }
                    if optional {
                        return Err(SynError::new(COLUMN_MUST_NOT_BE_OPTIONAL));
                    }
                    Ok(Ty::Element(TyElement::Id))
                },
                ColumnAttrTyElement::String(string) => match ty {
                    AtomicTy::String(_) => Ok(
                        Ty::Element(
                            TyElement::Value(
                                TyElementValue { ty: AtomicTy::String(string), optional, unique },
                            ),
                        ),
                    ),
                    _ => Err(SynError::new(COLUMN_MUST_BE_STRING)),
                },
                ColumnAttrTyElement::AutoTime(event) => {
                    if unique {
                        return Err(SynError::new(COLUMN_MUST_NOT_BE_UNIQUE));
                    }
                    let time = match ty {
                        AtomicTy::Time(time) => time,
                        _ => return Err(SynError::new(COLUMN_MUST_BE_TIME)),
                    };
                    if optional {
                        return Err(SynError::new(COLUMN_MUST_NOT_BE_OPTIONAL));
                    }
                    Ok(Ty::Element(TyElement::AutoTime(TyElementAutoTime { ty: time, event })))
                },
            }
        },
    }
}

impl Column {
    /// The checked column of a column as written; the error says what is wrong with its type.
    pub fn try_from(column: stage1::Column) -> (r: Result<Column, SynError>)
        ensures
            match r {
                Ok(c) => spec_column_of(column, c),
                Err(e) => spec_column_ty(column) matches Err(m) && e.message_views() == seq![m],
            },
    {
        let ghost src = column;
        let stage1::Column { rs_name, rs_ty, attr } = column;
        let stage1::ColumnAttr {
            name,
            ty: attr_ty,
            response,
            request,
            real_rs_ty,
            unique,
            borrow,
            index,
            struct_name,
            attrs,
        } = attr;
        let name = name_of(name, &rs_name);
        let ty = match &real_rs_ty {
            Some(source_ty) => column_ty(attr_ty, &**source_ty, unique),
            None => column_ty(attr_ty, &*rs_ty, unique),
        };
        let ty = match ty {
            Ok(ty) => ty,
            Err(e) => return Err(e),
        };
        let max_len = ty.max_len();
        let stage1::ColumnAttrRequest { name: request_name, validate } = request;
        let validate = validate_of(validate, max_len);
        let aggregates = aggregates_of(index);
        let response = ColumnAttrResponse { name: response.name, skip: response.skip };
        let request = ColumnAttrRequest { name: request_name };
        Ok(
            Column {
                name,
                rs_name,
                ty,
                rs_ty,
                response,
                request,
                validate,
                aggregates,
                borrow,
                struct_name,
                rs_attrs: attrs,
            },
        )
    }
}

/// What the controller of a model checks: the type that authorizes its requests, if any.
pub struct Controller {
    pub auth: Option<Box<Type>>,
}

impl Controller {
    pub fn from(controller: stage1::TableAttrController) -> (r: Controller)
        ensures
            r.auth == controller.auth,
    {
        Controller { auth: controller.auth }
    }
}

/// The columns of a table: a collection of records, a model with an identifier column,
/// or a many-to-many model of exactly two columns.
pub enum Columns<T, I, C> {
    CollectionOnly { columns: Vec<T> },
    Model { id: I, columns: Vec<T>, controller: Option<C> },
    ManyModel { a: I, b: I },
}

impl<T, I, C> Columns<T, I, C> {
    /// The identifier column of a model.
    pub fn model(&self) -> (r: Option<&I>)
        ensures
            match *self {
                Columns::Model { id, .. } => r == Some(&id),
                _ => r is None,
            },
    {
        match self {
            Self::Model { id, .. } => Some(id),
            _ => None,
        }
    }

    /// The two columns of a many-to-many model.
    pub fn many_model(&self) -> (r: Option<(&I, &I)>)
        ensures
            match *self {
                Columns::ManyModel { a, b } => r == Some((&a, &b)),
                _ => r is None,
            },
    {
        match self {
            Self::ManyModel { a, b } => Some((a, b)),
            _ => None,
        }
    }

    /// Whether the table is read as a collection of records (all but many-to-many models).
    pub fn is_collection(&self) -> (r: bool)
        ensures
            r == !(*self is ManyModel),
    {
        match self {
            Self::CollectionOnly { .. } | Self::Model { .. } => true,
            Self::ManyModel { .. } => false,
        }
    }

    /// The controller of a model, if it has one.
    pub fn controller(&self) -> (r: Option<&C>)
        ensures
            match *self {
                Columns::Model { controller, .. } => match controller {
                    Some(c) => r == Some(&c),
                    None => r is None,
                },
                _ => r is None,
            },
    {
        match self {
            Self::Model { controller, .. } => match controller {
                Some(c) => Some(c),
                None => None,
            },
            _ => None,
        }
    }
}

impl<T, C> Columns<T, T, C> {
    /// All the columns in order: the identifier or the two columns of a
    /// many-to-many model first, then the others.
    pub open spec fn spec_items(self) -> Seq<T> {
        match self {
            Columns::CollectionOnly { columns } => columns@,
            Columns::Model { id, columns, .. } => seq![id] + columns@,
            Columns::ManyModel { a, b } => seq![a, b],
        }
    }

    /// All the columns in order: the identifier or the two columns of a
    /// many-to-many model first, then the others.
    pub fn iter(&self) -> (r: Vec<&T>)
        ensures
            r@.len() == self.spec_items().len(),
            forall|i: int| 0 <= i < r@.len() ==> *r@[i] == self.spec_items()[i],
    {
        let mut r: Vec<&T> = Vec::new();
        let ghost items = self.spec_items();
        let columns = match self {
            Self::CollectionOnly { columns } => columns,
            Self::Model { id, columns, .. } => {
                r.push(id);
                columns
            },
            Self::ManyModel { a, b } => {
                r.push(a);
                r.push(b);
                return r;
            },
        };
        let ghost off = r@.len() as int;
        assert(items.len() == off + columns@.len());
        assert(forall|k: int| 0 <= k < columns@.len() ==> items[off + k] == columns@[k]);
        let n = columns.len();
        for j in 0..n
            invariant
                n == columns@.len(),
                items == self.spec_items(),
                items.len() == off + n,
                forall|k: int| 0 <= k < n ==> items[off + k] == columns@[k],
                r@.len() == off + j,
                forall|k: int| 0 <= k < r@.len() ==> *r@[k] == items[k],
        {
            r.push(&columns[j]);
        }
        r
    }

    /// Map every column with `f`, keeping the shape and the controller: all the columns when
    /// every call succeeds, else the first error of the identifier or the two columns of a
    /// many-to-many model, else the errors of all the other columns combined.
    pub fn map_try_collect_all_default<T2, F: Fn(&T) -> Result<T2, SynError>>(&self, f: F) -> (r:
        Result<Columns<T2, T2, &C>, SynError>)
        requires
            forall|i: int|
                0 <= i < self.spec_items().len() ==> call_requires(f, (&self.spec_items()[i],)),
        ensures
            r matches Ok(m) ==> {
                &&& m.spec_items().len() == self.spec_items().len()
                &&& forall|i: int|
                    0 <= i < m.spec_items().len() ==> call_ensures(
                        f,
                        (&self.spec_items()[i],),
                        Ok::<T2, SynError>(#[trigger] m.spec_items()[i]),
                    )
                &&& match (*self, m) {
                    (Columns::CollectionOnly { .. }, Columns::CollectionOnly { .. }) => true,
                    (
                        Columns::Model { controller: c1, .. },
                        Columns::Model { controller: c2, .. },
                    ) => match c1 {
                        Some(c) => c2 == Some(&c),
                        None => c2 is None,
                    },
                    (Columns::ManyModel { .. }, Columns::ManyModel { .. }) => true,
                    _ => false,
                }
            },
            r is Err ==> exists|i: int, e: SynError|
                0 <= i < self.spec_items().len() && call_ensures(
                    f,
                    (&self.spec_items()[i],),
                    Err::<T2, SynError>(e),
                ),
            r matches Err(e) ==> match *self {
                Columns::CollectionOnly { columns } => exists|rs: Seq<Result<T2, SynError>>|
                    spec_mapped(f, columns@, rs) && !all_ok(rs) && e.message_views()
                        == error_messages(rs),
                Columns::Model { id, columns, .. } => call_ensures(
                    f,
                    (&id,),
                    Err::<T2, SynError>(e),
                ) || ((exists|i: T2| call_ensures(f, (&id,), Ok::<T2, SynError>(i))) && exists|
                    rs: Seq<Result<T2, SynError>>,
                |
                    spec_mapped(f, columns@, rs) && !all_ok(rs) && e.message_views()
                        == error_messages(rs)),
                Columns::ManyModel { a, b } => call_ensures(f, (&a,), Err::<T2, SynError>(e)) || ((
                exists|x: T2| call_ensures(f, (&a,), Ok::<T2, SynError>(x))) && call_ensures(
                    f,
                    (&b,),
                    Err::<T2, SynError>(e),
                )),
            },
    {
        match self {
            Self::CollectionOnly { columns } => {
                assert(self.spec_items() == columns@);
                let columns = match map_all(columns, &f) {
                    Ok(columns) => columns,
                    Err(e) => return Err(e),
                };
                let r = Columns::CollectionOnly { columns };
                assert(r.spec_items() == columns@);
                Ok(r)
            },
            Self::Model { id, columns, controller } => {
                assert(self.spec_items()[0] == *id);
                let id = match f(id) {
                    Ok(id) => id,
                    Err(e) => return Err(e),
                };
                proof {
                    assert forall|i: int| 0 <= i < columns@.len() implies call_requires(
                        f,
                        (&columns@[i],),
                    ) by {
                        assert(self.spec_items()[i + 1] == columns@[i]);
                    }
                }
                let mapped = match map_all(columns, &f) {
                    Ok(mapped) => mapped,
                    Err(e) => {
                        proof {
                            let (i, e2) = choose|i: int, e2: SynError|
                                0 <= i < columns@.len() && call_ensures(
                                    f,
                                    (&columns@[i],),
                                    Err::<T2, SynError>(e2),
                                );
                            assert(self.spec_items()[i + 1] == columns@[i]);
                        }
                        return Err(e);
                    },
                };
                let controller = match controller {
                    Some(c) => Some(c),
                    None => None,
                };
                let r = Columns::Model { id, columns: mapped, controller };
                proof {
                    assert forall|i: int| 0 <= i < r.spec_items().len() implies call_ensures(
                        f,
                        (&self.spec_items()[i],),
                        Ok::<T2, SynError>(#[trigger] r.spec_items()[i]),
                    ) by {
                        if i > 0 {
                            assert(self.spec_items()[i] == columns@[i - 1]);
                            assert(r.spec_items()[i] == mapped@[i - 1]);
                        }
                    }
                }
                Ok(r)
            },
            Self::ManyModel { a, b } => {
                assert(self.spec_items()[0] == *a);
                assert(self.spec_items()[1] == *b);
                let a = match f(a) {
                    Ok(a) => a,
                    Err(e) => return Err(e),
                };
                let b = match f(b) {
                    Ok(b) => b,
                    Err(e) => return Err(e),
                };
                let r = Columns::ManyModel { a, b };
                assert(r.spec_items()[0] == a);
                assert(r.spec_items()[1] == b);
                Ok(r)
            },
        }
    }
}

/// Every value is `Ok`: the values in order are those of the results.
proof fn lemma_oks_of_all_ok<T, E>(results: Seq<Result<T, E>>)
    requires
        all_ok(results),
    ensures
        oks(results).len() == results.len(),
        forall|i: int| 0 <= i < results.len() ==> results[i] == Ok::<T, E>(#[trigger] oks(results)[i]),
    decreases results.len(),
{
    if results.len() > 0 {
        let rest = results.drop_last();
        assert(all_ok(rest)) by {
            assert forall|i: int| 0 <= i < rest.len() implies (#[trigger] rest[i]) is Ok by {
                assert(rest[i] == results[i]);
            }
        }
        lemma_oks_of_all_ok(rest);
        assert(results[results.len() - 1] is Ok);
        assert forall|i: int| 0 <= i < results.len() implies results[i] == Ok::<T, E>(
            #[trigger] oks(results)[i],
        ) by {
            if i < results.len() - 1 {
                assert(rest[i] == results[i]);
            }
        }
    }
}

/// `results` are what `f` may give for each of `values`, in order.
pub open spec fn spec_mapped<T, T2, F: Fn(&T) -> Result<T2, SynError>>(
    f: F,
    values: Seq<T>,
    results: Seq<Result<T2, SynError>>,
) -> bool {
    &&& results.len() == values.len()
    &&& forall|k: int| 0 <= k < values.len() ==> call_ensures(f, (&values[k],), #[trigger] results[k])
}

/// Map every value with `f`: all the results when every call succeeds, else all the errors
/// combined in order.
fn map_all<T, T2, F: Fn(&T) -> Result<T2, SynError>>(values: &Vec<T>, f: &F) -> (r: Result<
    Vec<T2>,
    SynError,
>)
    requires
        forall|i: int| 0 <= i < values@.len() ==> call_requires(*f, (&values@[i],)),
    ensures
        r matches Ok(v) ==> v@.len() == values@.len() && forall|i: int|
            0 <= i < v@.len() ==> call_ensures(*f, (&values@[i],), Ok::<T2, SynError>(#[trigger] v@[i])),
        r is Err ==> exists|i: int, e: SynError|
            0 <= i < values@.len() && call_ensures(*f, (&values@[i],), Err::<T2, SynError>(e)),
        r matches Err(e) ==> exists|rs: Seq<Result<T2, SynError>>|
            spec_mapped(*f, values@, rs) && !all_ok(rs) && e.message_views() == error_messages(rs),
{
    let mut results: Vec<Result<T2, SynError>> = Vec::new();
    let n = values.len();
    for j in 0..n
        invariant
            n == values@.len(),
            forall|i: int| 0 <= i < values@.len() ==> call_requires(*f, (&values@[i],)),
            results@.len() == j,
            forall|k: int| 0 <= k < j ==> call_ensures(*f, (&values@[k],), #[trigger] results@[k]),
    {
        let result = f(&values[j]);
        results.push(result);
    }
    let ghost rs = results@;
    match try_collect_all_vec(results) {
        Ok(v) => {
            proof {
                lemma_oks_of_all_ok(rs);
            }
            Ok(v)
        },
        Err(e) => {
            proof {
                let k = choose|k: int| 0 <= k < rs.len() && !((#[trigger] rs[k]) is Ok);
                assert(call_ensures(*f, (&values@[k],), Err::<T2, SynError>(rs[k]->Err_0)));
                assert(spec_mapped(*f, values@, rs));
            }
            Err(e)
        },
    }
}

/// A table of the checked schema.
pub struct Table {
    /// the name of the SQL table, for example `customers`
    pub name: String,
    /// the name of the table struct, for example `Customer`
    pub rs_name: String,
    pub columns: Columns<Column, Column, Controller>,
    pub rs_vis: stage1::Visibility,
    /// the forwarded attributes, as Rust source
    pub rs_attrs: Vec<String>,
    /// the name of the type of the table's own aggregate queries
    pub aggregate_rs_name: Option<String>,
}

/// The column as written resolves to the identifier column.
pub open spec fn spec_is_id(column: stage1::Column) -> bool {
    spec_column_ty(column) == Ok::<Ty, Seq<char>>(Ty::Element(TyElement::Id))
}

/// The position of the first identifier column, if any.
pub open spec fn spec_first_id(columns: Seq<stage1::Column>) -> Option<int>
    decreases columns.len(),
{
    if columns.len() == 0 {
        None
    } else {
        match spec_first_id(columns.drop_last()) {
            Some(i) => Some(i),
            None => if spec_is_id(columns.last()) {
                Some(columns.len() - 1)
            } else {
                None
            },
        }
    }
}

/// The messages of what is wrong with the columns, in order: the error of each column
/// whose type does not resolve, and of each identifier column after the first.
pub open spec fn spec_column_errors(columns: Seq<stage1::Column>) -> Seq<Seq<char>>
    decreases columns.len(),
{
    if columns.len() == 0 {
        Seq::empty()
    } else {
        let rest = spec_column_errors(columns.drop_last());
        match spec_column_ty(columns.last()) {
            Err(m) => rest.push(m),
            Ok(_) => if spec_is_id(columns.last()) && spec_first_id(columns.drop_last()) is Some {
                rest.push(TABLE_MUST_NOT_HAVE_MULTIPLE_IDS@)
            } else {
                rest
            },
        }
    }
}

/// The columns other than identifier columns, in order.
pub open spec fn spec_value_columns(columns: Seq<stage1::Column>) -> Seq<stage1::Column>
    decreases columns.len(),
{
    if columns.len() == 0 {
        Seq::empty()
    } else {
        let rest = spec_value_columns(columns.drop_last());
        if spec_is_id(columns.last()) {
            rest
        } else {
            rest.push(columns.last())
        }
    }
}

/// The messages of what is wrong with a table as written; empty when nothing is.
/// The column errors come first; then the kind of table is checked against its columns:
/// a model needs an identifier column, only a model may have a controller, a collection
/// must not have an identifier column, and a many-to-many model has exactly two columns
/// and no identifier column.
pub open spec fn spec_table_errors(table: stage1::Table) -> Seq<Seq<char>> {
    let columns = table.columns@;
    let errors = spec_column_errors(columns);
    let id = spec_first_id(columns);
    if errors.len() > 0 {
        errors
    } else if table.attr.model matches Some(m) && !m.many {
        if id is None {
            seq![TABLE_MUST_HAVE_ID@]
        } else {
            seq![]
        }
    } else if table.attr.controller is Some {
        seq![TABLE_MUST_NOT_IMPLEMENT_CONTROLLER@]
    } else if table.attr.model is None {
        if id is Some {
            seq![TABLE_MUST_IMPLEMENT_MODEL@]
        } else {
            seq![]
        }
    } else if id is Some {
        seq![TABLE_MUST_NOT_HAVE_ID@]
    } else if spec_value_columns(columns).len() != 2 {
        seq![TABLE_MUST_HAVE_TWO_COLUMNS@]
    } else {
        seq![]
    }
}

/// `columns` are the checked columns of `src`, in order.
pub open spec fn spec_columns_of(src: Seq<stage1::Column>, columns: Seq<Column>) -> bool {
    &&& columns.len() == src.len()
    &&& forall|i: int| 0 <= i < src.len() ==> spec_column_of(src[i], #[trigger] columns[i])
}

/// `table` is the checked table of `src`.
pub open spec fn spec_table_of(src: stage1::Table, table: Table) -> bool {
    let columns = src.columns@;
    let values = spec_value_columns(columns);
    &&& table.name@ == spec_name(src.attr.name, src.rs_name)
    &&& table.rs_name == src.rs_name
    &&& table.rs_vis == src.rs_vis
    &&& table.rs_attrs == src.attr.attrs
    &&& table.aggregate_rs_name == src.attr.index_name
    &&& match table.columns {
        Columns::CollectionOnly { columns: cs } => src.attr.model is None && spec_columns_of(
            values,
            cs@,
        ),
        Columns::Model { id, columns: cs, controller } => {
            &&& src.attr.model matches Some(m) && !m.many
            &&& spec_first_id(columns) matches Some(k) && spec_column_of(columns[k], id)
            &&& spec_columns_of(values, cs@)
            &&& match src.attr.controller {
                Some(c) => controller matches Some(c2) && c2.auth == c.auth,
                None => controller is None,
            }
        },
        Columns::ManyModel { a, b } => {
            &&& src.attr.model matches Some(m) && m.many
            &&& values.len() == 2
            &&& spec_column_of(values[0], a)
            &&& spec_column_of(values[1], b)
        },
    }
}

proof fn lemma_first_id_bound(columns: Seq<stage1::Column>)
    ensures
        spec_first_id(columns) matches Some(k) ==> 0 <= k < columns.len() && spec_is_id(
            columns[k],
        ),
    decreases columns.len(),
{
    if columns.len() > 0 {
        lemma_first_id_bound(columns.drop_last());
    }
}

/// The checked columns of a table: the first identifier column apart, and the others in order,
/// or all the errors of the columns.
fn check_columns(columns: Vec<stage1::Column>) -> (r: Result<(Option<Column>, Vec<Column>), SynError>)
    ensures
        spec_column_errors(columns@).len() > 0 ==> (r matches Err(e) && e.message_views()
            == spec_column_errors(columns@)),
        spec_column_errors(columns@).len() == 0 ==> (r matches Ok((id, values)) && (match id {
            Some(id) => spec_first_id(columns@) matches Some(k) && spec_column_of(
                columns@[k],
                id,
            ),
            None => spec_first_id(columns@) is None,
        }) && spec_columns_of(spec_value_columns(columns@), values@)),
{
    let ghost all = columns@;
    let mut rest = columns;
    let mut errors: Option<SynError> = None;
    let mut id: Option<Column> = None;
    let mut values: Vec<Column> = Vec::new();
    let len = rest.len();
    let mut i: usize = 0;
    while i < len
        invariant
            i <= len,
            len == all.len(),
            rest@ == all.skip(i as int),
            errors is None <==> spec_column_errors(all.take(i as int)).len() == 0,
            errors matches Some(e) ==> e.message_views() == spec_column_errors(all.take(i as int)),
            match id {
                Some(c) => spec_first_id(all.take(i as int)) matches Some(k) && 0 <= k < i
                    && spec_column_of(all[k], c),
                None => spec_first_id(all.take(i as int)) is None,
            },
            errors is None ==> spec_columns_of(spec_value_columns(all.take(i as int)), values@),
        decreases len - i,
    {
        let ghost prefix = all.take(i as int);
        let ghost next = all.take(i + 1);
        assert(next.drop_last() =~= prefix);
        assert(next.last() == all[i as int]);
        assert(rest@[0] == all[i as int]);
        let src = rest.remove(0);
        match Column::try_from(src) {
            Err(e) => {
                assert(spec_column_errors(next) == spec_column_errors(prefix).push(
                    e.message_views()[0],
                ));
                assert(!spec_is_id(all[i as int]));
                match errors {
                    Some(mut errs) => {
                        errs.combine(e);
                        assert(errs.message_views() =~= spec_column_errors(next));
                        errors = Some(errs);
                    },
                    None => {
                        assert(e.message_views() =~= spec_column_errors(next));
                        errors = Some(e);
                    },
                }
            },
            Ok(column) => {
                let is_id = match &column.ty {
                    Ty::Element(TyElement::Id) => true,
                    _ => false,
                };
                if is_id {
                    assert(spec_is_id(all[i as int]));
                    match id {
                        Some(_) => {
                            assert(spec_column_errors(next) == spec_column_errors(prefix).push(
                                TABLE_MUST_NOT_HAVE_MULTIPLE_IDS@,
                            ));
                            let e = SynError::new(TABLE_MUST_NOT_HAVE_MULTIPLE_IDS);
                            match errors {
                                Some(mut errs) => {
                                    errs.combine(e);
                                    assert(errs.message_views() =~= spec_column_errors(next));
                                    errors = Some(errs);
                                },
                                None => {
                                    assert(e.message_views() =~= spec_column_errors(next));
                                    errors = Some(e);
                                },
                            }
                        },
                        None => {
                            assert(spec_first_id(next) == Some(i as int));
                            assert(spec_column_errors(next) == spec_column_errors(prefix));
                            assert(spec_value_columns(next) == spec_value_columns(prefix));
                            id = Some(column);
                        },
                    }
                } else {
                    assert(!spec_is_id(all[i as int]));
                    assert(spec_column_errors(next) == spec_column_errors(prefix));
                    assert(spec_value_columns(next) == spec_value_columns(prefix).push(
                        all[i as int],
                    ));
                    values.push(column);
                }
            },
        }
        i = i + 1;
        assert(rest@ =~= all.skip(i as int));
    }
    assert(all.take(len as int) =~= all);
    match errors {
        Some(e) => Err(e),
        None => Ok((id, values)),
    }
}

impl Table {
    /// The checked table of a table as written; the error holds every message of
    /// [`spec_table_errors`].
    pub fn try_from(table: stage1::Table) -> (r: Result<Table, SynError>)
        ensures
            spec_table_errors(table).len() == 0 ==> (r matches Ok(t) && spec_table_of(table, t)),
            spec_table_errors(table).len() > 0 ==> (r matches Err(e) && e.message_views()
                == spec_table_errors(table)),
    {
        let stage1::Table { rs_name, columns, attr, rs_vis } = table;
        let stage1::TableAttr { model, controller, name, index_name, attrs } = attr;
        let name = name_of(name, &rs_name);
        let (id, values) = match check_columns(columns) {
            Ok(checked) => checked,
            Err(e) => return Err(e),
        };
        let many = match model {
            Some(m) => Some(m.many),
            None => None,
        };
        let columns = match many {
            Some(false) => {
                let id = match id {
                    Some(id) => id,
                    None => return Err(SynError::new(TABLE_MUST_HAVE_ID)),
                };
                let controller = match controller {
                    Some(c) => Some(Controller::from(c)),
                    None => None,
                };
                Columns::Model { id, columns: values, controller }
            },
            _ => {
                if controller.is_some() {
                    return Err(SynError::new(TABLE_MUST_NOT_IMPLEMENT_CONTROLLER));
                }
                match many {
                    None => {
                        if id.is_some() {
                            return Err(SynError::new(TABLE_MUST_IMPLEMENT_MODEL));
                        }
                        Columns::CollectionOnly { columns: values }
                    },
                    Some(_) => {
                        if id.is_some() {
                            return Err(SynError::new(TABLE_MUST_NOT_HAVE_ID));
                        }
                        if values.len() != 2 {
                            return Err(SynError::new(TABLE_MUST_HAVE_TWO_COLUMNS));
                        }
                        let ghost vs = values@;
                        let mut values = values;
                        let a = values.remove(0);
                        let b = values.remove(0);
                        assert(a == vs[0] && b == vs[1]);
                        Columns::ManyModel { a, b }
                    },
                }
            },
        };
        Ok(
            Table {
                name,
                rs_name,
                columns,
                rs_vis,
                rs_attrs: attrs,
                aggregate_rs_name: index_name,
            },
        )
    }
}

/// A database of the checked schema.
pub struct Db {
    /// the name of the database
    pub name: String,
    /// the name of the database module, for example `db`
    pub rs_name: String,
    pub tables: Vec<Table>,
    pub rs_vis: stage1::Visibility,
}

/// The messages of what is wrong with the tables, in the order of the tables.
pub open spec fn spec_db_errors(tables: Seq<stage1::Table>) -> Seq<Seq<char>>
    decreases tables.len(),
{
    if tables.len() == 0 {
        Seq::empty()
    } else {
        spec_db_errors(tables.drop_last()) + spec_table_errors(tables.last())
    }
}

impl Db {
    /// The checked database of a database as written, named by its attribute or its module;
    /// the error holds the messages of every table in order.
    pub fn try_new(db: stage1::Db, attr: stage1::DbAttr) -> (r: Result<Db, SynError>)
        ensures
            spec_db_errors(db.tables@).len() == 0 ==> (r matches Ok(d) && d.name@ == spec_name(
                attr.name,
                db.rs_name,
            ) && d.rs_name == db.rs_name && d.rs_vis == db.rs_vis && d.tables@.len()
                == db.tables@.len() && forall|i: int|
                0 <= i < db.tables@.len() ==> spec_table_of(
                    db.tables@[i],
                    #[trigger] d.tables@[i],
                )),
            spec_db_errors(db.tables@).len() > 0 ==> (r matches Err(e) && e.message_views()
                == spec_db_errors(db.tables@)),
    {
        let stage1::Db { rs_name, tables, rs_vis } = db;
        let name = name_of(attr.name, &rs_name);
        let ghost all = tables@;
        let mut rest = tables;
        let mut errors: Option<SynError> = None;
        let mut checked: Vec<Table> = Vec::new();
        let len = rest.len();
        let mut i: usize = 0;
        while i < len
            invariant
                i <= len,
                len == all.len(),
                rest@ == all.skip(i as int),
                errors is None <==> spec_db_errors(all.take(i as int)).len() == 0,
                errors matches Some(e) ==> e.message_views() == spec_db_errors(all.take(i as int)),
                errors is None ==> checked@.len() == i && forall|k: int|
                    0 <= k < i ==> spec_table_of(all[k], #[trigger] checked@[k]),
            decreases len - i,
        {
            let ghost prefix = all.take(i as int);
            let ghost next = all.take(i + 1);
            assert(next.drop_last() =~= prefix);
            assert(next.last() == all[i as int]);
            assert(rest@[0] == all[i as int]);
            let src = rest.remove(0);
            assert(spec_db_errors(next) == spec_db_errors(prefix) + spec_table_errors(
                all[i as int],
            ));
            match Table::try_from(src) {
                Ok(table) => {
                    assert(spec_db_errors(next) =~= spec_db_errors(prefix));
                    checked.push(table);
                },
                Err(e) => match errors {
                    Some(mut errs) => {
                        errs.combine(e);
                        errors = Some(errs);
                    },
                    None => {
                        assert(spec_db_errors(next) =~= e.message_views());
                        errors = Some(e);
                    },
                },
            }
            i = i + 1;
            assert(rest@ =~= all.skip(i as int));
        }
        assert(all.take(len as int) =~= all);
        match errors {
            Some(e) => Err(e),
            None => Ok(Db { name, rs_name, tables: checked, rs_vis }),
        }
    }
}

/// The position of the first table named `rs_name`, if any.
pub open spec fn spec_find_table(tables: Seq<Table>, rs_name: Seq<char>) -> Option<int>
    decreases tables.len(),
{
    if tables.len() == 0 {
        None
    } else {
        match spec_find_table(tables.drop_last(), rs_name) {
            Some(i) => Some(i),
            None => if tables.last().rs_name@ == rs_name {
                Some(tables.len() - 1)
            } else {
                None
            },
        }
    }
}

proof fn lemma_find_table_prefix(tables: Seq<Table>, rs_name: Seq<char>, n: int)
    requires
        0 <= n <= tables.len(),
    ensures
        spec_find_table(tables.take(n), rs_name) matches Some(i) ==> spec_find_table(
            tables,
            rs_name,
        ) == Some(i),
        spec_find_table(tables, rs_name) matches Some(i) ==> 0 <= i < tables.len()
            && tables[i].rs_name@ == rs_name,
    decreases tables.len(),
{
    if tables.len() > 0 {
        if n == tables.len() {
            assert(tables.take(n) =~= tables);
            lemma_find_table_prefix(tables.drop_last(), rs_name, n - 1);
        } else {
            assert(tables.drop_last().take(n) =~= tables.take(n));
            lemma_find_table_prefix(tables.drop_last(), rs_name, n);
        }
    }
}

/// A table found by name is one of the tables, with that name.
pub proof fn lemma_find_table_found(tables: Seq<Table>, rs_name: Seq<char>)
    ensures
        spec_find_table(tables, rs_name) matches Some(i) ==> 0 <= i < tables.len()
            && tables[i].rs_name@ == rs_name,
{
    lemma_find_table_prefix(tables, rs_name, 0);
}

/// The first table named `rs_name`; otherwise the error "table does not exist".
pub fn find_table<'a>(tables: &'a Vec<Table>, rs_name: &String) -> (r: Result<&'a Table, SynError>)
    ensures
        match spec_find_table(tables@, rs_name@) {
            Some(i) => r matches Ok(t) && *t == tables@[i],
            None => r matches Err(e) && e.message_views() == seq![TABLE_DOES_NOT_EXIST@],
        },
{
    let n = tables.len();
    let mut i: usize = 0;
    while i < n
        invariant
            i <= n,
            n == tables@.len(),
            spec_find_table(tables@.take(i as int), rs_name@) is None,
        decreases n - i,
    {
        let ghost next = tables@.take(i + 1);
        assert(next.drop_last() =~= tables@.take(i as int));
        if tables[i].rs_name == *rs_name {
            proof {
                assert(spec_find_table(next, rs_name@) == Some(i as int));
                lemma_find_table_prefix(tables@, rs_name@, i + 1);
            }
            return Ok(&tables[i]);
        }
        i = i + 1;
    }
    assert(tables@.take(n as int) =~= tables@);
    Err(SynError::new(TABLE_DOES_NOT_EXIST))
}

/// A `String` column without a `ty` attribute is a `VARCHAR(255)`: the same column as with
/// the attribute `ty(varchar = 255)`.
pub proof fn law_string_defaults_to_varchar_255(source_ty: Type, unique: bool)
    requires
        spec_atomic_ty(spec_optional(source_ty).0) == Some(stage1::AtomicTy::String),
    ensures
        spec_column_ty_of(None, source_ty, unique) == spec_column_ty_of(
            Some(stage1::ColumnAttrTy::Varchar(255)),
            source_ty,
            unique,
        ),
        spec_column_ty_of(None, source_ty, unique) == Ok::<Ty, Seq<char>>(
            Ty::Element(
                TyElement::Value(
                    TyElementValue {
                        ty: AtomicTy::String(AtomicTyString::Varchar(255)),
                        optional: spec_optional(source_ty).1,
                        unique,
                    },
                ),
            ),
        ),
{
}

} // verus!
