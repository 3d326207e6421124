//! Stage 4 of the `db` macro: the SQL of each table, for MySQL. The column types of
//! `CREATE TABLE`, the queries that read records with the records they refer to,
//! and the statements that create, update and delete records.

use vstd::prelude::*;

use super::stage1::{ColumnAttrIndexFilter, ColumnAttrIndexLimit};
use super::stage2::{
    AtomicTy, AtomicTyFloat, AtomicTyInt, AtomicTyString, AtomicTyTime, ColumnAttrAggregate,
    DefaultValue, TyElement,
};
use super::stage3;

verus! {

/// The decimal digits of a number.
pub open spec fn spec_decimal(n: nat) -> Seq<char>
    decreases n,
{
    if n < 10 {
        seq![spec_digit(n)]
    } else {
        spec_decimal(n / 10).push(spec_digit(n % 10))
    }
}

/// The decimal digit of a number below ten.
pub open spec fn spec_digit(d: nat) -> char {
    if d == 0 {
        '0'
    } else if d == 1 {
        '1'
    } else if d == 2 {
        '2'
    } else if d == 3 {
        '3'
    } else if d == 4 {
        '4'
    } else if d == 5 {
        '5'
    } else if d == 6 {
        '6'
    } else if d == 7 {
        '7'
    } else if d == 8 {
        '8'
    } else {
        '9'
    }
}

fn digit(d: u64) -> (r: &'static str)
    requires
        d < 10,
    ensures
        r@ == seq![spec_digit(d as nat)],
{
    proof {
        reveal_strlit("0");
        reveal_strlit("1");
        reveal_strlit("2");
        reveal_strlit("3");
        reveal_strlit("4");
        reveal_strlit("5");
        reveal_strlit("6");
        reveal_strlit("7");
        reveal_strlit("8");
        reveal_strlit("9");
    }
    if d == 0 {
        "0"
    } else if d == 1 {
        "1"
    } else if d == 2 {
        "2"
    } else if d == 3 {
        "3"
    } else if d == 4 {
        "4"
    } else if d == 5 {
        "5"
    } else if d == 6 {
        "6"
    } else if d == 7 {
        "7"
    } else if d == 8 {
        "8"
    } else {
        "9"
    }
}

/// The decimal digits of a number.
pub fn decimal(n: u64) -> (r: String)
    ensures
        r@ == spec_decimal(n as nat),
    decreases n,
{
    if n < 10 {
        String::from_str(digit(n))
    } else {
        let mut r = decimal(n / 10);
        r.append(digit(n % 10));
        r
    }
}

impl AtomicTyInt {
    pub open spec fn spec_ty(self) -> Seq<char> {
        match self {
            AtomicTyInt::u8 => "TINYINT UNSIGNED"@,
            AtomicTyInt::i8 => "TINYINT"@,
            AtomicTyInt::u16 => "SMALLINT UNSIGNED"@,
            AtomicTyInt::i16 => "SMALLINT"@,
            AtomicTyInt::u32 => "INT UNSIGNED"@,
            AtomicTyInt::i32 => "INT"@,
            AtomicTyInt::u64 => "BIGINT UNSIGNED"@,
            AtomicTyInt::i64 => "BIGINT"@,
        }
    }

    /// The SQL type of an integer column.
    pub fn ty(&self) -> (r: &'static str)
        ensures
            r@ == self.spec_ty(),
    {
        match self {
            Self::u8 => "TINYINT UNSIGNED",
            Self::i8 => "TINYINT",
            Self::u16 => "SMALLINT UNSIGNED",
            Self::i16 => "SMALLINT",
            Self::u32 => "INT UNSIGNED",
            Self::i32 => "INT",
            Self::u64 => "BIGINT UNSIGNED",
            Self::i64 => "BIGINT",
        }
    }
}

impl AtomicTyFloat {
    pub open spec fn spec_ty(self) -> Seq<char> {
        match self {
            AtomicTyFloat::Float32 => "FLOAT"@,
            AtomicTyFloat::Float64 => "DOUBLE"@,
        }
    }

    /// The SQL type of a floating-point column.
    pub fn ty(&self) -> (r: &'static str)
        ensures
            r@ == self.spec_ty(),
    {
        match self {
            Self::Float32 => "FLOAT",
            Self::Float64 => "DOUBLE",
        }
    }
}

impl AtomicTyString {
    pub open spec fn spec_ty(self) -> Seq<char> {
        match self {
            AtomicTyString::Varchar(len) => "VARCHAR("@ + spec_decimal(len as nat) + ")"@,
            AtomicTyString::Char(len) => "CHAR("@ + spec_decimal(len as nat) + ")"@,
            AtomicTyString::Text => "TEXT"@,
        }
    }

    /// The SQL type of a string column.
    pub fn ty(&self) -> (r: String)
        ensures
            r@ == self.spec_ty(),
    {
        match self {
            Self::Varchar(len) => {
                let mut r = String::from_str("VARCHAR(");
                r.append(decimal(*len as u64).as_str());
                r.append(")");
                r
            },
            Self::Char(len) => {
                let mut r = String::from_str("CHAR(");
                r.append(decimal(*len as u64).as_str());
                r.append(")");
                r
            },
            Self::Text => String::from_str("TEXT"),
        }
    }
}

impl AtomicTyTime {
    pub open spec fn spec_ty(self) -> Seq<char> {
        match self {
            AtomicTyTime::ChronoDateTimeUtc
            | AtomicTyTime::ChronoDateTimeLocal
            | AtomicTyTime::TimeOffsetDateTime => "TIMESTAMP"@,
            AtomicTyTime::ChronoNaiveDateTime | AtomicTyTime::TimePrimitiveDateTime => "DATETIME"@,
            AtomicTyTime::ChronoNaiveDate | AtomicTyTime::TimeDate => "DATE"@,
            AtomicTyTime::ChronoNaiveTime
            | AtomicTyTime::TimeTime
            | AtomicTyTime::ChronoTimeDelta
            | AtomicTyTime::TimeDuration => "TIME"@,
        }
    }

    /// The SQL type of a time column.
    pub fn ty(&self) -> (r: &'static str)
        ensures
            r@ == self.spec_ty(),
    {
        match self {
            Self::ChronoDateTimeUtc | Self::ChronoDateTimeLocal | Self::TimeOffsetDateTime => {
                "TIMESTAMP"
            },
            Self::ChronoNaiveDateTime | Self::TimePrimitiveDateTime => "DATETIME",
            Self::ChronoNaiveDate | Self::TimeDate => "DATE",
            Self::ChronoNaiveTime | Self::TimeTime | Self::ChronoTimeDelta | Self::TimeDuration => {
                "TIME"
            },
        }
    }

    pub open spec fn spec_current_time_func(self) -> Seq<char> {
        match self {
            AtomicTyTime::ChronoDateTimeUtc => "UTC_TIMESTAMP()"@,
            AtomicTyTime::ChronoDateTimeLocal
            | AtomicTyTime::TimeOffsetDateTime
            | AtomicTyTime::ChronoNaiveDateTime
            | AtomicTyTime::TimePrimitiveDateTime => "CURRENT_TIMESTAMP()"@,
            AtomicTyTime::ChronoNaiveDate | AtomicTyTime::TimeDate => "CURRENT_DATE()"@,
            AtomicTyTime::ChronoNaiveTime
            | AtomicTyTime::TimeTime
            | AtomicTyTime::ChronoTimeDelta
            | AtomicTyTime::TimeDuration => "CURRENT_TIME()"@,
        }
    }

    /// The SQL function that gives the current time, of the column's type.
    pub fn current_time_func(&self) -> (r: &'static str)
        ensures
            r@ == self.spec_current_time_func(),
    {
        match self {
            Self::ChronoDateTimeUtc => "UTC_TIMESTAMP()",
            Self::ChronoDateTimeLocal
            | Self::TimeOffsetDateTime
            | Self::ChronoNaiveDateTime
            | Self::TimePrimitiveDateTime => "CURRENT_TIMESTAMP()",
            Self::ChronoNaiveDate | Self::TimeDate => "CURRENT_DATE()",
            Self::ChronoNaiveTime | Self::TimeTime | Self::ChronoTimeDelta | Self::TimeDuration => {
                "CURRENT_TIME()"
            },
        }
    }
}

impl AtomicTy {
    pub open spec fn spec_ty(self) -> Seq<char> {
        match self {
            AtomicTy::bool => "BOOL"@,
            AtomicTy::Int(int_ty) => int_ty.spec_ty(),
            AtomicTy::Float(float) => float.spec_ty(),
            AtomicTy::String(string) => string.spec_ty(),
            AtomicTy::Time(time) => time.spec_ty(),
        }
    }

    /// The SQL type of a value column.
    pub fn ty(&self) -> (r: String)
        ensures
            r@ == self.spec_ty(),
    {
        match self {
            Self::bool => String::from_str("BOOL"),
            Self::Int(int_ty) => String::from_str(int_ty.ty()),
            Self::Float(float) => String::from_str(float.ty()),
            Self::String(string) => string.ty(),
            Self::Time(time) => String::from_str(time.ty()),
        }
    }
}

impl DefaultValue<'_> {
    pub open spec fn spec_default_value(self) -> Seq<char> {
        match self {
            DefaultValue::AutoTime(time) => time.spec_current_time_func(),
        }
    }

    /// The SQL default value of the column.
    pub fn default_value(&self) -> (r: &'static str)
        ensures
            r@ == self.spec_default_value(),
    {
        match self {
            Self::AutoTime(time) => time.current_time_func(),
        }
    }
}

impl TyElement {
    pub open spec fn spec_ty(self) -> Seq<char> {
        match self {
            TyElement::Id => AtomicTyInt::u64.spec_ty(),
            TyElement::Value(value) => value.ty.spec_ty(),
            TyElement::AutoTime(auto_time) => auto_time.ty.spec_ty(),
        }
    }

    /// The SQL type of a column that holds a value; the identifier is a `u64`.
    pub fn ty(&self) -> (r: String)
        ensures
            r@ == self.spec_ty(),
    {
        match self {
            Self::Id => String::from_str(AtomicTyInt::u64.ty()),
            Self::Value(value) => value.ty.ty(),
            Self::AutoTime(auto_time) => String::from_str(auto_time.ty.ty()),
        }
    }
}

impl stage3::TyCompound<'_> {
    pub open spec fn spec_ty(self) -> Seq<char> {
        self.ty.spec_ty()
    }

    /// The SQL type of a foreign column: that of the foreign identifier.
    pub fn ty(&self) -> (r: &'static str)
        ensures
            r@ == self.spec_ty(),
    {
        self.ty.ty()
    }
}

impl stage3::TyMolecule<'_> {
    pub open spec fn spec_ty(self) -> Seq<char> {
        match self {
            stage3::TyMolecule::Compound(compound) => compound.spec_ty(),
            stage3::TyMolecule::Element(element) => element.spec_ty(),
        }
    }

    /// The SQL type of a column stored in its table.
    pub fn ty(&self) -> (r: String)
        ensures
            r@ == self.spec_ty(),
    {
        match self {
            Self::Compound(compound) => String::from_str(compound.ty()),
            Self::Element(element) => element.ty(),
        }
    }
}

/// The parts joined by a separator.
pub open spec fn spec_join(parts: Seq<Seq<char>>, sep: Seq<char>) -> Seq<char>
    decreases parts.len(),
{
    if parts.len() == 0 {
        Seq::empty()
    } else if parts.len() == 1 {
        parts[0]
    } else {
        spec_join(parts.drop_last(), sep) + sep + parts.last()
    }
}

/// The parts one after the other.
pub open spec fn spec_concat(parts: Seq<Seq<char>>) -> Seq<char>
    decreases parts.len(),
{
    if parts.len() == 0 {
        Seq::empty()
    } else {
        spec_concat(parts.drop_last()) + parts.last()
    }
}

/// Joining one more part.
proof fn lemma_join_push(parts: Seq<Seq<char>>, part: Seq<char>, sep: Seq<char>)
    ensures
        spec_join(parts.push(part), sep) == if parts.len() == 0 {
            part
        } else {
            spec_join(parts, sep) + sep + part
        },
{
    assert(parts.push(part).drop_last() =~= parts);
}

/// Concatenating one more part.
proof fn lemma_concat_push(parts: Seq<Seq<char>>, part: Seq<char>)
    ensures
        spec_concat(parts.push(part)) == spec_concat(parts) + part,
{
    assert(parts.push(part).drop_last() =~= parts);
}

impl stage3::TyMolecule<'_> {
    /// The column definition after the column's name in `CREATE TABLE`: its type, `NOT NULL`
    /// unless it is optional, `UNIQUE` for a unique column other than the identifier,
    /// the default of a time column set automatically, and the key it is.
    pub open spec fn spec_sql(self) -> Seq<char> {
        let not_null = if !self.spec_is_optional() {
            " NOT NULL"@
        } else {
            Seq::empty()
        };
        let unique = if self.spec_is_unique() && !(self matches stage3::TyMolecule::Element(e)
            && e is Id) {
            " UNIQUE"@
        } else {
            Seq::empty()
        };
        let default = match self {
            stage3::TyMolecule::Element(TyElement::AutoTime(auto_time)) => " DEFAULT "@
                + auto_time.ty.spec_current_time_func(),
            _ => Seq::empty(),
        };
        let key = match self {
            stage3::TyMolecule::Element(TyElement::Id) => " PRIMARY KEY AUTO_INCREMENT"@,
            stage3::TyMolecule::Element(_) => Seq::empty(),
            stage3::TyMolecule::Compound(c) => " FOREIGN KEY REFERENCES "@ + c.foreign_table_name@
                + "("@ + c.foreign_table_id_name@ + ")"@,
        };
        self.spec_ty() + not_null + unique + default + key
    }

    /// Write the column definition after the column's name in `CREATE TABLE`.
    pub fn write_to(&self, w: &mut String)
        ensures
            final(w)@ == old(w)@ + self.spec_sql(),
    {
        let ghost start = w@;
        w.append(self.ty().as_str());
        let ghost s1 = w@;
        if !self.is_optional() {
            w.append(" NOT NULL");
        }
        let ghost s2 = w@;
        if self.is_unique() && !self.is_id() {
            w.append(" UNIQUE");
        }
        let ghost s3 = w@;
        match self.default_value() {
            Some(default_value) => {
                w.append(" DEFAULT ");
                w.append(default_value.default_value());
            },
            None => {},
        }
        let ghost s4 = w@;
        match self {
            Self::Element(TyElement::Id) => {
                w.append(" PRIMARY KEY AUTO_INCREMENT");
            },
            Self::Element(_) => {},
            Self::Compound(compound) => {
                w.append(" FOREIGN KEY REFERENCES ");
                w.append(compound.foreign_table_name.as_str());
                w.append("(");
                w.append(compound.foreign_table_id_name.as_str());
                w.append(")");
            },
        }
        assert(w@ =~= start + self.spec_sql());
    }
}

impl stage3::CreateColumn<'_> {
    /// The column definition in `CREATE TABLE`: the name, then the type and constraints.
    pub open spec fn spec_sql(self) -> Seq<char> {
        self.name@ + " "@ + self.ty.spec_sql()
    }

    /// Write the column definition in `CREATE TABLE`.
    pub fn write_to(&self, w: &mut String)
        ensures
            final(w)@ == old(w)@ + self.spec_sql(),
    {
        let ghost start = w@;
        w.append(self.name.as_str());
        w.append(" ");
        self.ty.write_to(w);
        assert(w@ =~= start + self.spec_sql());
    }
}

/// A value column that a query reads, and whether a foreign record it belongs to is optional.
pub struct ResponseColumnGetterElement<'a> {
    pub element: &'a stage3::ResponseColumnGetterElement<'a>,
    pub parent_optional: bool,
}

impl ResponseColumnGetterElement<'_> {
    /// The column in the `SELECT` list, as its alias; the alias of a column that is never
    /// null is marked so with `!`.
    pub open spec fn spec_sql(self) -> Seq<char> {
        if self.parent_optional || self.element.is_optional {
            self.element.name_intern@ + " AS "@ + self.element.name_extern@
        } else {
            self.element.name_intern@ + " AS `"@ + self.element.name_extern@ + "!`"@
        }
    }

    /// Write the column in the `SELECT` list.
    pub fn write_to(&self, w: &mut String)
        ensures
            final(w)@ == old(w)@ + self.spec_sql(),
    {
        let ghost start = w@;
        w.append(self.element.name_intern.as_str());
        if self.parent_optional || self.element.is_optional {
            w.append(" AS ");
            w.append(self.element.name_extern.as_str());
        } else {
            w.append(" AS `");
            w.append(self.element.name_extern.as_str());
            w.append("!`");
        }
        assert(w@ =~= start + self.spec_sql());
    }
}

/// The order of a sorted query.
#[derive(PartialEq, Eq, Structural, Clone, Copy)]
pub enum Sort {
    Ascending,
    Descending,
}

/// The definitions of the columns stored in their table, in order.
pub open spec fn spec_create_columns<'a>(columns: Seq<stage3::ColumnRef<'a>>) -> Seq<Seq<char>>
    decreases columns.len(),
{
    if columns.len() == 0 {
        seq![]
    } else {
        let rest = spec_create_columns(columns.drop_last());
        match columns.last() {
            stage3::ColumnRef::Molecule(m) => rest.push(m.create.spec_sql()),
            stage3::ColumnRef::Collection(_) => rest,
        }
    }
}

/// `CREATE TABLE IF NOT EXISTS` with the definitions of the columns stored in the table.
pub open spec fn spec_create_table<'a>(
    table_name_intern: Seq<char>,
    columns: Seq<stage3::ColumnRef<'a>>,
) -> Seq<char> {
    "CREATE TABLE IF NOT EXISTS "@ + table_name_intern + " ("@ + spec_join(
        spec_create_columns(columns),
        ","@,
    ) + ");"@
}

/// `CREATE TABLE IF NOT EXISTS` with the definitions of the columns stored in the table.
pub fn create_table<'a>(table_name_intern: &str, columns: &Vec<stage3::ColumnRef<'a>>) -> (r:
    String)
    ensures
        r@ == spec_create_table(table_name_intern@, columns@),
{
    let mut r = String::from_str("CREATE TABLE IF NOT EXISTS ");
    r.append(table_name_intern);
    r.append(" (");
    let ghost start = r@;
    let n = columns.len();
    let mut count: usize = 0;
    for i in 0..n
        invariant
            n == columns@.len(),
            r@ == start + spec_join(spec_create_columns(columns@.take(i as int)), ","@),
            count == spec_create_columns(columns@.take(i as int)).len(),
            count <= i,
    {
        let ghost prefix = columns@.take(i as int);
        let ghost next = columns@.take(i + 1);
        assert(next.drop_last() =~= prefix);
        let column = columns[i];
        match column.create() {
            Some(create) => {
                let ghost parts = spec_create_columns(prefix);
                proof {
                    lemma_join_push(parts, create.spec_sql(), ","@);
                }
                if count > 0 {
                    r.append(",");
                }
                create.write_to(&mut r);
                count = count + 1;
                assert(r@ =~= start + spec_join(spec_create_columns(next), ","@));
            },
            None => {
                assert(spec_create_columns(next) == spec_create_columns(prefix));
            },
        }
    }
    assert(columns@.take(n as int) =~= columns@);
    r.append(");");
    r
}

/// `DROP TABLE`.
pub fn delete_table(table_name_intern: &str) -> (r: String)
    ensures
        r@ == "DROP TABLE "@ + table_name_intern@ + ";"@,
{
    let mut r = String::from_str("DROP TABLE ");
    r.append(table_name_intern);
    r.append(";");
    r
}

/// The `LEFT JOIN` of the foreign table that a foreign column refers to.
pub open spec fn spec_join_sql<'a>(c: stage3::ResponseColumnGetterCompound<'a>) -> Seq<char> {
    " LEFT JOIN "@ + c.foreign_table_name_intern@ + " AS "@ + c.foreign_table_name_extern@
        + " ON "@ + c.name_intern@ + "="@ + c.foreign_table_id_name_intern@
}

/// The `SELECT` list of the value columns read, in order.
pub open spec fn spec_elements_sql<'a>(elements: Seq<ResponseColumnGetterElement<'a>>) -> Seq<
    Seq<char>,
> {
    elements.map_values(|e: ResponseColumnGetterElement<'a>| e.spec_sql())
}

/// The joins of the foreign tables read, in order.
pub open spec fn spec_joins_sql<'a>(compounds: Seq<&'a stage3::ResponseColumnGetterCompound<'a>>) -> Seq<
    Seq<char>,
> {
    compounds.map_values(|c: &'a stage3::ResponseColumnGetterCompound<'a>| spec_join_sql(*c))
}

/// The `WHERE` clause of a filter by a column.
pub open spec fn spec_filter_sql(filter: ColumnAttrIndexFilter, column: Seq<char>) -> Seq<char> {
    match filter {
        ColumnAttrIndexFilter::Unfiltered => Seq::empty(),
        ColumnAttrIndexFilter::Eq => " WHERE "@ + column + "=?"@,
        ColumnAttrIndexFilter::Like => " WHERE "@ + column + " LIKE CONCAT('%', ?, '%')"@,
        ColumnAttrIndexFilter::Gt => " WHERE "@ + column + ">?"@,
        ColumnAttrIndexFilter::Lt => " WHERE "@ + column + "<?"@,
        ColumnAttrIndexFilter::Gte => " WHERE "@ + column + ">=?"@,
        ColumnAttrIndexFilter::Lte => " WHERE "@ + column + "<=?"@,
    }
}

/// The `ORDER BY` clause of a sort by a column.
pub open spec fn spec_sort_sql(sort: Sort, column: Seq<char>) -> Seq<char> {
    match sort {
        Sort::Ascending => " ORDER BY "@ + column + " ASC"@,
        Sort::Descending => " ORDER BY "@ + column + " DESC"@,
    }
}

/// The `LIMIT` clause: one record for a query of one, else the limit or page asked for;
/// the offset of a page is given as a parameter.
pub open spec fn spec_limit_sql(limit: Option<ColumnAttrIndexLimit>, is_one: bool) -> Seq<char> {
    if is_one {
        " LIMIT 1"@
    } else {
        match limit {
            Some(ColumnAttrIndexLimit::Limit) => " LIMIT ?"@,
            Some(ColumnAttrIndexLimit::Page { per_page }) => " LIMIT "@ + spec_decimal(
                per_page as nat,
            ) + " OFFSET ? "@,
            _ => Seq::empty(),
        }
    }
}

/// The query that reads records: the value columns, from the table joined with the foreign
/// tables, then the filter, the sort and the limit.
pub open spec fn spec_get<'a>(
    table_name_intern: Seq<char>,
    table_name_extern: Seq<char>,
    elements: Seq<ResponseColumnGetterElement<'a>>,
    compounds: Seq<&'a stage3::ResponseColumnGetterCompound<'a>>,
    aggregate_filter: Option<(ColumnAttrIndexFilter, Seq<char>)>,
    aggregate_sort: Option<(Sort, Seq<char>)>,
    aggregate_limit: Option<ColumnAttrIndexLimit>,
    is_one: bool,
) -> Seq<char> {
    "SELECT "@ + spec_join(spec_elements_sql(elements), ","@) + " FROM "@ + table_name_intern
        + " AS "@ + table_name_extern + spec_concat(spec_joins_sql(compounds)) + match aggregate_filter {
        Some((filter, column)) => spec_filter_sql(filter, column),
        None => Seq::empty(),
    } + match aggregate_sort {
        Some((sort, column)) => spec_sort_sql(sort, column),
        None => Seq::empty(),
    } + spec_limit_sql(aggregate_limit, is_one)
}

fn write_select<'a>(w: &mut String, elements: &[ResponseColumnGetterElement<'a>])
    ensures
        final(w)@ == old(w)@ + spec_join(spec_elements_sql(elements@), ","@),
{
    let ghost start = w@;
    let n = elements.len();
    for i in 0..n
        invariant
            n == elements@.len(),
            w@ == start + spec_join(spec_elements_sql(elements@.take(i as int)), ","@),
    {
        let ghost prefix = elements@.take(i as int);
        let ghost next = elements@.take(i + 1);
        assert(next =~= prefix.push(elements@[i as int]));
        assert(spec_elements_sql(next) =~= spec_elements_sql(prefix).push(
            elements@[i as int].spec_sql(),
        ));
        proof {
            lemma_join_push(spec_elements_sql(prefix), elements@[i as int].spec_sql(), ","@);
        }
        if i > 0 {
            w.append(",");
        }
        elements[i].write_to(w);
        assert(w@ =~= start + spec_join(spec_elements_sql(next), ","@));
    }
    assert(elements@.take(n as int) =~= elements@);
}

fn write_joins<'a>(w: &mut String, compounds: &[&'a stage3::ResponseColumnGetterCompound<'a>])
    ensures
        final(w)@ == old(w)@ + spec_concat(spec_joins_sql(compounds@)),
{
    let ghost start = w@;
    let n = compounds.len();
    for i in 0..n
        invariant
            n == compounds@.len(),
            w@ == start + spec_concat(spec_joins_sql(compounds@.take(i as int))),
    {
        let ghost prefix = compounds@.take(i as int);
        let ghost next = compounds@.take(i + 1);
        assert(next =~= prefix.push(compounds@[i as int]));
        assert(spec_joins_sql(next) =~= spec_joins_sql(prefix).push(
            spec_join_sql(*compounds@[i as int]),
        ));
        proof {
            lemma_concat_push(spec_joins_sql(prefix), spec_join_sql(*compounds@[i as int]));
        }
        let compound = compounds[i];
        w.append(" LEFT JOIN ");
        w.append(compound.foreign_table_name_intern.as_str());
        w.append(" AS ");
        w.append(compound.foreign_table_name_extern.as_str());
        w.append(" ON ");
        w.append(compound.name_intern.as_str());
        w.append("=");
        w.append(compound.foreign_table_id_name_intern.as_str());
        assert(w@ =~= start + spec_concat(spec_joins_sql(next)));
    }
    assert(compounds@.take(n as int) =~= compounds@);
}

fn write_filter(w: &mut String, aggregate_filter: Option<(ColumnAttrIndexFilter, &str)>)
    ensures
        final(w)@ == old(w)@ + match aggregate_filter {
            Some((filter, column)) => spec_filter_sql(filter, column@),
            None => Seq::empty(),
        },
{
    let ghost start = w@;
    match aggregate_filter {
        Some((filter, column)) => {
            match filter {
                ColumnAttrIndexFilter::Unfiltered => {},
                ColumnAttrIndexFilter::Eq => {
                    w.append(" WHERE ");
                    w.append(column);
                    w.append("=?");
                },
                ColumnAttrIndexFilter::Like => {
                    w.append(" WHERE ");
                    w.append(column);
                    w.append(" LIKE CONCAT('%', ?, '%')");
                },
                ColumnAttrIndexFilter::Gt => {
                    w.append(" WHERE ");
                    w.append(column);
                    w.append(">?");
                },
                ColumnAttrIndexFilter::Lt => {
                    w.append(" WHERE ");
                    w.append(column);
                    w.append("<?");
                },
                ColumnAttrIndexFilter::Gte => {
                    w.append(" WHERE ");
                    w.append(column);
                    w.append(">=?");
                },
                ColumnAttrIndexFilter::Lte => {
                    w.append(" WHERE ");
                    w.append(column);
                    w.append("<=?");
                },
            }
            assert(w@ =~= start + spec_filter_sql(filter, column@));
        },
        None => {
            assert(w@ =~= start + Seq::<char>::empty());
        },
    }
}

fn write_sort(w: &mut String, aggregate_sort: Option<(Sort, &str)>)
    ensures
        final(w)@ == old(w)@ + match aggregate_sort {
            Some((sort, column)) => spec_sort_sql(sort, column@),
            None => Seq::empty(),
        },
{
    let ghost start = w@;
    match aggregate_sort {
        Some((sort, column)) => {
            match sort {
                Sort::Ascending => {
                    w.append(" ORDER BY ");
                    w.append(column);
                    w.append(" ASC");
                },
                Sort::Descending => {
                    w.append(" ORDER BY ");
                    w.append(column);
                    w.append(" DESC");
                },
            }
            assert(w@ =~= start + spec_sort_sql(sort, column@));
        },
        None => {
            assert(w@ =~= start + Seq::<char>::empty());
        },
    }
}

fn write_limit(w: &mut String, aggregate_limit: Option<ColumnAttrIndexLimit>, is_one: bool)
    ensures
        final(w)@ == old(w)@ + spec_limit_sql(aggregate_limit, is_one),
{
    let ghost start = w@;
    if is_one {
        w.append(" LIMIT 1");
    } else {
        match aggregate_limit {
            Some(ColumnAttrIndexLimit::Limit) => {
                w.append(" LIMIT ?");
            },
            Some(ColumnAttrIndexLimit::Page { per_page }) => {
                w.append(" LIMIT ");
                w.append(decimal(per_page).as_str());
                w.append(" OFFSET ? ");
            },
            _ => {},
        }
    }
    assert(w@ =~= start + spec_limit_sql(aggregate_limit, is_one));
}

/// The query that reads records: the value columns, from the table joined with the foreign
/// tables, then the filter, the sort and the limit.
pub fn get<'a>(
    table_name_intern: &str,
    table_name_extern: &str,
    response_getters: (&[ResponseColumnGetterElement<'a>], &[&'a stage3::ResponseColumnGetterCompound<'a>]),
    aggregate_filter: Option<(ColumnAttrIndexFilter, &str)>,
    aggregate_sort: Option<(Sort, &str)>,
    aggregate_limit: Option<ColumnAttrIndexLimit>,
    is_one: bool,
) -> (r: String)
    ensures
        r@ == spec_get(
            table_name_intern@,
            table_name_extern@,
            response_getters.0@,
            response_getters.1@,
            match aggregate_filter {
                Some((f, c)) => Some((f, c@)),
                None => None,
            },
            match aggregate_sort {
                Some((s, c)) => Some((s, c@)),
                None => None,
            },
            aggregate_limit,
            is_one,
        ),
{
    let (elements, compounds) = response_getters;
    let mut get = String::from_str("SELECT ");
    write_select(&mut get, elements);
    get.append(" FROM ");
    get.append(table_name_intern);
    get.append(" AS ");
    get.append(table_name_extern);
    write_joins(&mut get, compounds);
    write_filter(&mut get, aggregate_filter);
    write_sort(&mut get, aggregate_sort);
    write_limit(&mut get, aggregate_limit, is_one);
    get
}

/// The query that reads all the records.
pub fn get_all<'a>(
    table_name_intern: &str,
    table_name_extern: &str,
    response_getters: (&[ResponseColumnGetterElement<'a>], &[&'a stage3::ResponseColumnGetterCompound<'a>]),
) -> (r: String)
    ensures
        r@ == spec_get(
            table_name_intern@,
            table_name_extern@,
            response_getters.0@,
            response_getters.1@,
            None,
            None,
            None,
            false,
        ),
{
    get(table_name_intern, table_name_extern, response_getters, None, None, None, false)
}

/// The query that reads the one record that a filter selects.
pub fn get_one<'a>(
    table_name_intern: &str,
    table_name_extern: &str,
    response_getters: (&[ResponseColumnGetterElement<'a>], &[&'a stage3::ResponseColumnGetterCompound<'a>]),
    aggregate_filter: (ColumnAttrIndexFilter, &str),
) -> (r: String)
    ensures
        r@ == spec_get(
            table_name_intern@,
            table_name_extern@,
            response_getters.0@,
            response_getters.1@,
            Some((aggregate_filter.0, aggregate_filter.1@)),
            None,
            None,
            true,
        ),
{
    get(
        table_name_intern,
        table_name_extern,
        response_getters,
        Some(aggregate_filter),
        None,
        None,
        true,
    )
}

/// The query that reads the records that a filter selects.
pub fn get_many<'a>(
    table_name_intern: &str,
    table_name_extern: &str,
    response_getters: (&[ResponseColumnGetterElement<'a>], &[&'a stage3::ResponseColumnGetterCompound<'a>]),
    aggregate_filter: (ColumnAttrIndexFilter, &str),
) -> (r: String)
    ensures
        r@ == spec_get(
            table_name_intern@,
            table_name_extern@,
            response_getters.0@,
            response_getters.1@,
            Some((aggregate_filter.0, aggregate_filter.1@)),
            None,
            None,
            false,
        ),
{
    get(
        table_name_intern,
        table_name_extern,
        response_getters,
        Some(aggregate_filter),
        None,
        None,
        false,
    )
}

/// The two queries sorted by a column: ascending, then descending.
pub fn get_sort_asc_desc<'a>(
    table_name_intern: &str,
    table_name_extern: &str,
    response_getters: (&[ResponseColumnGetterElement<'a>], &[&'a stage3::ResponseColumnGetterCompound<'a>]),
    aggregate_filter: Option<(ColumnAttrIndexFilter, &str)>,
    sort_column_name_intern: &str,
    aggregate_limit: Option<ColumnAttrIndexLimit>,
    is_one: bool,
) -> (r: (String, String))
    ensures
        r.0@ == spec_get(
            table_name_intern@,
            table_name_extern@,
            response_getters.0@,
            response_getters.1@,
            match aggregate_filter {
                Some((f, c)) => Some((f, c@)),
                None => None,
            },
            Some((Sort::Ascending, sort_column_name_intern@)),
            aggregate_limit,
            is_one,
        ),
        r.1@ == spec_get(
            table_name_intern@,
            table_name_extern@,
            response_getters.0@,
            response_getters.1@,
            match aggregate_filter {
                Some((f, c)) => Some((f, c@)),
                None => None,
            },
            Some((Sort::Descending, sort_column_name_intern@)),
            aggregate_limit,
            is_one,
        ),
{
    (
        get(
            table_name_intern,
            table_name_extern,
            response_getters,
            aggregate_filter,
            Some((Sort::Ascending, sort_column_name_intern)),
            aggregate_limit,
            is_one,
        ),
        get(
            table_name_intern,
            table_name_extern,
            response_getters,
            aggregate_filter,
            Some((Sort::Descending, sort_column_name_intern)),
            aggregate_limit,
            is_one,
        ),
    )
}

/// The column that a request writes, and the value it is set to: a parameter, or the current
/// time for a time column set on every update.
pub open spec fn spec_request_setter_column<'a>(column: stage3::RequestColumnMolecule<'a>) -> (
    Seq<char>,
    Seq<char>,
) {
    match column {
        stage3::RequestColumnMolecule::Mutable(value) => (value.setter.name@, "?"@),
        stage3::RequestColumnMolecule::OnUpdate(on_update) => (
            on_update.name@,
            on_update.time_ty.spec_current_time_func(),
        ),
    }
}

/// The column that a request writes, and the value it is set to: a parameter, or the current
/// time for a time column set on every update.
pub fn request_setter_column<'a>(column: &'a stage3::RequestColumnMolecule<'a>) -> (r: (
    &'a str,
    &'a str,
))
    ensures
        (r.0@, r.1@) == spec_request_setter_column(*column),
{
    match column {
        stage3::RequestColumnMolecule::Mutable(value) => (value.setter.name.as_str(), "?"),
        stage3::RequestColumnMolecule::OnUpdate(on_update) => (
            on_update.name.as_str(),
            on_update.time_ty.current_time_func(),
        ),
    }
}

/// The columns that a request writes, in order.
pub open spec fn spec_setter_names<'a>(columns: Seq<&'a stage3::RequestColumnMolecule<'a>>) -> Seq<
    Seq<char>,
> {
    columns.map_values(|c: &'a stage3::RequestColumnMolecule<'a>| spec_request_setter_column(*c).0)
}

/// The values that a request sets, in order.
pub open spec fn spec_setter_values<'a>(columns: Seq<&'a stage3::RequestColumnMolecule<'a>>) -> Seq<
    Seq<char>,
> {
    columns.map_values(|c: &'a stage3::RequestColumnMolecule<'a>| spec_request_setter_column(*c).1)
}

/// The assignments of an update, in order: `column=value`.
pub open spec fn spec_setter_assignments<'a>(
    columns: Seq<&'a stage3::RequestColumnMolecule<'a>>,
) -> Seq<Seq<char>> {
    columns.map_values(
        |c: &'a stage3::RequestColumnMolecule<'a>|
            spec_request_setter_column(*c).0 + "="@ + spec_request_setter_column(*c).1,
    )
}

/// Write, joined by commas, a part of each column's setter: the column names (`part == 0`),
/// the values (`part == 1`) or the assignments (`part == 2`).
fn write_setters<'a>(
    w: &mut String,
    columns: &[&'a stage3::RequestColumnMolecule<'a>],
    part: u8,
)
    requires
        part < 3,
    ensures
        final(w)@ == old(w)@ + spec_join(
            if part == 0 {
                spec_setter_names(columns@)
            } else if part == 1 {
                spec_setter_values(columns@)
            } else {
                spec_setter_assignments(columns@)
            },
            ","@,
        ),
{
    let ghost start = w@;
    let ghost parts = if part == 0 {
        spec_setter_names(columns@)
    } else if part == 1 {
        spec_setter_values(columns@)
    } else {
        spec_setter_assignments(columns@)
    };
    let n = columns.len();
    for i in 0..n
        invariant
            n == columns@.len(),
            parts.len() == n,
            part < 3,
            parts == (if part == 0 {
                spec_setter_names(columns@)
            } else if part == 1 {
                spec_setter_values(columns@)
            } else {
                spec_setter_assignments(columns@)
            }),
            w@ == start + spec_join(parts.take(i as int), ","@),
    {
        proof {
            lemma_join_push(parts.take(i as int), parts[i as int], ","@);
            assert(parts.take(i + 1) =~= parts.take(i as int).push(parts[i as int]));
        }
        if i > 0 {
            w.append(",");
        }
        let (name, value) = request_setter_column(columns[i]);
        if part == 0 {
            w.append(name);
        } else if part == 1 {
            w.append(value);
        } else {
            w.append(name);
            w.append("=");
            w.append(value);
        }
        assert(w@ =~= start + spec_join(parts.take(i + 1), ","@));
    }
    assert(parts.take(n as int) =~= parts);
}

/// `INSERT INTO` the table: the columns that the request writes, then their values.
pub fn create_one<'a>(table_name_intern: &str, columns: &[&'a stage3::RequestColumnMolecule<'a>]) -> (r:
    String)
    ensures
        r@ == "INSERT INTO "@ + table_name_intern@ + " ("@ + spec_join(
            spec_setter_names(columns@),
            ","@,
        ) + ") VALUES ("@ + spec_join(spec_setter_values(columns@), ","@) + ")"@,
{
    let mut r = String::from_str("INSERT INTO ");
    r.append(table_name_intern);
    r.append(" (");
    write_setters(&mut r, columns, 0);
    r.append(") VALUES (");
    write_setters(&mut r, columns, 1);
    r.append(")");
    r
}

/// `UPDATE` the record with the given identifier: each column that the request writes
/// set to its value.
pub fn update_one<'a>(
    table_name_intern: &str,
    id_name: &str,
    columns: &[&'a stage3::RequestColumnMolecule<'a>],
) -> (r: String)
    ensures
        r@ == "UPDATE "@ + table_name_intern@ + " SET "@ + spec_join(
            spec_setter_assignments(columns@),
            ","@,
        ) + " WHERE "@ + id_name@ + "=?"@,
{
    let mut r = String::from_str("UPDATE ");
    r.append(table_name_intern);
    r.append(" SET ");
    write_setters(&mut r, columns, 2);
    r.append(" WHERE ");
    r.append(id_name);
    r.append("=?");
    r
}

/// `UPDATE` one column of the record with the given identifier.
pub fn patch_one<'a>(
    table_name_intern: &str,
    id_name: &str,
    column: &'a stage3::RequestColumnMolecule<'a>,
) -> (r: String)
    ensures
        r@ == "UPDATE "@ + table_name_intern@ + " SET "@ + spec_request_setter_column(*column).0
            + "="@ + spec_request_setter_column(*column).1 + " WHERE "@ + id_name@ + "=?"@,
{
    let columns: Vec<&'a stage3::RequestColumnMolecule<'a>> = vec![column];
    let r = update_one(table_name_intern, id_name, columns.as_slice());
    proof {
        assert(spec_setter_assignments(columns@) =~= seq![
            spec_request_setter_column(*column).0 + "="@ + spec_request_setter_column(*column).1,
        ]);
    }
    r
}

/// `DELETE` the record with the given identifier.
pub fn delete_one(table_name_intern: &str, id_name: &str) -> (r: String)
    ensures
        r@ == "DELETE FROM "@ + table_name_intern@ + " WHERE "@ + id_name@ + "=?"@,
{
    let mut r = String::from_str("DELETE FROM ");
    r.append(table_name_intern);
    r.append(" WHERE ");
    r.append(id_name);
    r.append("=?");
    r
}

/// The value columns and the foreign tables that reading a column takes, in the order they
/// are met: each value column with whether a foreign record it belongs to is optional,
/// and each foreign column, before the columns of its foreign table.
pub open spec fn spec_flatten_molecule<'a>(
    molecule: stage3::ResponseColumnGetterMolecule<'a>,
    parent_optional: bool,
) -> (Seq<(stage3::ResponseColumnGetterElement<'a>, bool)>, Seq<stage3::ResponseColumnGetterCompound<'a>>)
    decreases molecule,
{
    match molecule {
        stage3::ResponseColumnGetterMolecule::Element(e) => (seq![(e, parent_optional)], seq![]),
        stage3::ResponseColumnGetterMolecule::Compound(c) => {
            let (es, cs) = spec_flatten_getters(c.columns@, parent_optional || c.is_optional);
            (es, seq![c] + cs)
        },
    }
}

/// What reading each of the columns takes, in order; many-to-many columns take nothing.
pub open spec fn spec_flatten_getters<'a>(
    getters: Seq<stage3::ResponseColumnGetter<'a>>,
    parent_optional: bool,
) -> (Seq<(stage3::ResponseColumnGetterElement<'a>, bool)>, Seq<stage3::ResponseColumnGetterCompound<'a>>)
    decreases getters,
{
    if getters.len() == 0 {
        (seq![], seq![])
    } else {
        let (es1, cs1) = spec_flatten_getters(getters.drop_last(), parent_optional);
        let (es2, cs2) = match getters.last() {
            stage3::ResponseColumnGetter::Molecule(m) => spec_flatten_molecule(m, parent_optional),
            stage3::ResponseColumnGetter::Collection(_) => (seq![], seq![]),
        };
        (es1 + es2, cs1 + cs2)
    }
}

/// What reading each of the columns, by reference, takes, in order.
pub open spec fn spec_flatten_refs<'a>(
    getters: Seq<stage3::ResponseColumnGetterRef<'a>>,
    parent_optional: bool,
) -> (Seq<(stage3::ResponseColumnGetterElement<'a>, bool)>, Seq<stage3::ResponseColumnGetterCompound<'a>>)
    decreases getters.len(),
{
    if getters.len() == 0 {
        (seq![], seq![])
    } else {
        let (es1, cs1) = spec_flatten_refs(getters.drop_last(), parent_optional);
        let (es2, cs2) = match getters.last() {
            stage3::ResponseColumnGetterRef::Molecule(m) => spec_flatten_molecule(
                *m,
                parent_optional,
            ),
            stage3::ResponseColumnGetterRef::Collection(_) => (seq![], seq![]),
        };
        (es1 + es2, cs1 + cs2)
    }
}

/// The value columns read, as pairs of the column and whether a foreign record it belongs
/// to is optional.
pub open spec fn spec_elements_of<'a>(elements: Seq<ResponseColumnGetterElement<'a>>) -> Seq<
    (stage3::ResponseColumnGetterElement<'a>, bool),
> {
    elements.map_values(|e: ResponseColumnGetterElement<'a>| (*e.element, e.parent_optional))
}

/// The foreign tables joined.
pub open spec fn spec_compounds_of<'a>(compounds: Seq<&'a stage3::ResponseColumnGetterCompound<'a>>) -> Seq<
    stage3::ResponseColumnGetterCompound<'a>,
> {
    compounds.map_values(|c: &'a stage3::ResponseColumnGetterCompound<'a>| *c)
}

fn flatten_molecule<'a>(
    molecule: &'a stage3::ResponseColumnGetterMolecule<'a>,
    parent_optional: bool,
    elements: &mut Vec<ResponseColumnGetterElement<'a>>,
    compounds: &mut Vec<&'a stage3::ResponseColumnGetterCompound<'a>>,
)
    ensures
        spec_elements_of(final(elements)@) == spec_elements_of(old(elements)@)
            + spec_flatten_molecule(*molecule, parent_optional).0,
        spec_compounds_of(final(compounds)@) == spec_compounds_of(old(compounds)@)
            + spec_flatten_molecule(*molecule, parent_optional).1,
    decreases *molecule,
{
    match molecule {
        stage3::ResponseColumnGetterMolecule::Element(element) => {
            let ghost before = elements@;
            elements.push(ResponseColumnGetterElement { element, parent_optional });
            assert(spec_elements_of(elements@) =~= spec_elements_of(before) + seq![
                (*element, parent_optional),
            ]);
            assert(spec_compounds_of(compounds@) =~= spec_compounds_of(compounds@) + seq![]);
        },
        stage3::ResponseColumnGetterMolecule::Compound(compound) => {
            let ghost before = compounds@;
            compounds.push(compound);
            assert(spec_compounds_of(compounds@) =~= spec_compounds_of(before) + seq![*compound]);
            let parent_optional = parent_optional || compound.is_optional;
            flatten_getters(&compound.columns, parent_optional, elements, compounds);
            proof {
                let (es, cs) = spec_flatten_getters(compound.columns@, parent_optional);
                assert(spec_compounds_of(compounds@) =~= spec_compounds_of(before) + (seq![
                    *compound,
                ] + cs));
            }
        },
    }
}

fn flatten_getters<'a>(
    getters: &'a Vec<stage3::ResponseColumnGetter<'a>>,
    parent_optional: bool,
    elements: &mut Vec<ResponseColumnGetterElement<'a>>,
    compounds: &mut Vec<&'a stage3::ResponseColumnGetterCompound<'a>>,
)
    ensures
        spec_elements_of(final(elements)@) == spec_elements_of(old(elements)@)
            + spec_flatten_getters(getters@, parent_optional).0,
        spec_compounds_of(final(compounds)@) == spec_compounds_of(old(compounds)@)
            + spec_flatten_getters(getters@, parent_optional).1,
    decreases getters,
{
    let ghost es0 = spec_elements_of(elements@);
    let ghost cs0 = spec_compounds_of(compounds@);
    let n = getters.len();
    for i in 0..n
        invariant
            n == getters@.len(),
            spec_elements_of(elements@) == es0 + spec_flatten_getters(
                getters@.take(i as int),
                parent_optional,
            ).0,
            spec_compounds_of(compounds@) == cs0 + spec_flatten_getters(
                getters@.take(i as int),
                parent_optional,
            ).1,
    {
        let ghost next = getters@.take(i + 1);
        assert(next.drop_last() =~= getters@.take(i as int));
        assert(next.last() == getters@[i as int]);
        proof {
            assert(decreases_to!(getters => getters@[i as int]));
        }
        match &getters[i] {
            stage3::ResponseColumnGetter::Molecule(molecule) => {
                flatten_molecule(molecule, parent_optional, elements, compounds);
            },
            stage3::ResponseColumnGetter::Collection(_) => {},
        }
        assert(spec_elements_of(elements@) =~= es0 + spec_flatten_getters(next, parent_optional).0);
        assert(spec_compounds_of(compounds@) =~= cs0 + spec_flatten_getters(
            next,
            parent_optional,
        ).1);
    }
    assert(getters@.take(n as int) =~= getters@);
}

/// Add the value columns and the foreign tables that reading the columns takes, in the order
/// they are met.
pub fn flatten_internal<'a>(
    response_getter_columns: &Vec<stage3::ResponseColumnGetterRef<'a>>,
    parent_optional: bool,
    response_getter_column_elements: &mut Vec<ResponseColumnGetterElement<'a>>,
    response_getter_column_compounds: &mut Vec<&'a stage3::ResponseColumnGetterCompound<'a>>,
)
    ensures
        spec_elements_of(final(response_getter_column_elements)@) == spec_elements_of(
            old(response_getter_column_elements)@,
        ) + spec_flatten_refs(response_getter_columns@, parent_optional).0,
        spec_compounds_of(final(response_getter_column_compounds)@) == spec_compounds_of(
            old(response_getter_column_compounds)@,
        ) + spec_flatten_refs(response_getter_columns@, parent_optional).1,
{
    let ghost es0 = spec_elements_of(response_getter_column_elements@);
    let ghost cs0 = spec_compounds_of(response_getter_column_compounds@);
    let n = response_getter_columns.len();
    for i in 0..n
        invariant
            n == response_getter_columns@.len(),
            spec_elements_of(response_getter_column_elements@) == es0 + spec_flatten_refs(
                response_getter_columns@.take(i as int),
                parent_optional,
            ).0,
            spec_compounds_of(response_getter_column_compounds@) == cs0 + spec_flatten_refs(
                response_getter_columns@.take(i as int),
                parent_optional,
            ).1,
    {
        let ghost next = response_getter_columns@.take(i + 1);
        assert(next.drop_last() =~= response_getter_columns@.take(i as int));
        assert(next.last() == response_getter_columns@[i as int]);
        match response_getter_columns[i] {
            stage3::ResponseColumnGetterRef::Molecule(molecule) => {
                flatten_molecule(
                    molecule,
                    parent_optional,
                    response_getter_column_elements,
                    response_getter_column_compounds,
                );
            },
            stage3::ResponseColumnGetterRef::Collection(_) => {},
        }
        assert(spec_elements_of(response_getter_column_elements@) =~= es0 + spec_flatten_refs(
            next,
            parent_optional,
        ).0);
        assert(spec_compounds_of(response_getter_column_compounds@) =~= cs0 + spec_flatten_refs(
            next,
            parent_optional,
        ).1);
    }
    assert(response_getter_columns@.take(n as int) =~= response_getter_columns@);
}

/// The value columns and the foreign tables that reading the columns takes, in the order
/// they are met.
pub fn flatten<'a>(response_getter_columns: &Vec<stage3::ResponseColumnGetterRef<'a>>) -> (r: (
    Vec<ResponseColumnGetterElement<'a>>,
    Vec<&'a stage3::ResponseColumnGetterCompound<'a>>,
))
    ensures
        spec_elements_of(r.0@) == spec_flatten_refs(response_getter_columns@, false).0,
        spec_compounds_of(r.1@) == spec_flatten_refs(response_getter_columns@, false).1,
{
    let mut elements: Vec<ResponseColumnGetterElement<'a>> = Vec::new();
    let mut compounds: Vec<&'a stage3::ResponseColumnGetterCompound<'a>> = Vec::new();
    assert(spec_elements_of(elements@) =~= seq![]);
    assert(spec_compounds_of(compounds@) =~= seq![]);
    flatten_internal(response_getter_columns, false, &mut elements, &mut compounds);
    assert(spec_elements_of(elements@) =~= spec_flatten_refs(response_getter_columns@, false).0);
    assert(spec_compounds_of(compounds@) =~= spec_flatten_refs(response_getter_columns@, false).1);
    (elements, compounds)
}

/// The statement that creates a table.
pub open spec fn spec_migration_up<'a>(table: stage3::Table<'a>) -> Seq<char> {
    spec_create_table(table.name_intern@, table.columns.spec_refs())
}

/// The statement that drops a table.
pub open spec fn spec_migration_down<'a>(table: stage3::Table<'a>) -> Seq<char> {
    "DROP TABLE "@ + table.name_intern@ + ";"@
}

/// The statement that creates a table.
pub fn migration_up<'a>(table: &'a stage3::Table<'a>) -> (r: String)
    ensures
        r@ == spec_migration_up(*table),
{
    let columns = table.columns.iter();
    create_table(table.name_intern.as_str(), &columns)
}

/// The statement that drops a table.
pub fn migration_down<'a>(table: &'a stage3::Table<'a>) -> (r: String)
    ensures
        r@ == spec_migration_down(*table),
{
    delete_table(table.name_intern.as_str())
}

/// The migrations of a database: up creates the tables in order, down drops them in reverse
/// order, each in one transaction; in full, up also creates the database and down drops it.
pub struct Migrations {
    pub up: String,
    pub down: String,
    pub up_full: String,
    pub down_full: String,
}

/// The statements that create the tables, in order.
pub open spec fn spec_ups<'a>(tables: Seq<stage3::Table<'a>>) -> Seq<Seq<char>> {
    tables.map_values(|t: stage3::Table<'a>| spec_migration_up(t))
}

/// The statements that drop the tables, in reverse order.
pub open spec fn spec_downs<'a>(tables: Seq<stage3::Table<'a>>) -> Seq<Seq<char>> {
    tables.reverse().map_values(|t: stage3::Table<'a>| spec_migration_down(t))
}

/// The migrations of a database.
pub fn migrations<'a>(db: &'a stage3::Db<'a>) -> (r: Migrations)
    ensures
        r.up@ == "BEGIN TRANSACTION;"@ + spec_concat(spec_ups(db.tables@)) + "COMMIT;"@,
        r.down@ == "BEGIN TRANSACTION;"@ + spec_concat(spec_downs(db.tables@)) + "COMMIT;"@,
        r.up_full@ == "CREATE DATABASE IF NOT EXISTS "@ + db.name@ + ";"@ + r.up@,
        r.down_full@ == "DROP DATABASE "@ + db.name@ + ";"@,
{
    let n = db.tables.len();
    let mut up = String::from_str("BEGIN TRANSACTION;");
    let ghost up0 = up@;
    for i in 0..n
        invariant
            n == db.tables@.len(),
            up@ == up0 + spec_concat(spec_ups(db.tables@.take(i as int))),
    {
        let ghost prefix = db.tables@.take(i as int);
        assert(db.tables@.take(i + 1) =~= prefix.push(db.tables@[i as int]));
        assert(spec_ups(db.tables@.take(i + 1)) =~= spec_ups(prefix).push(
            spec_migration_up(db.tables@[i as int]),
        ));
        proof {
            lemma_concat_push(spec_ups(prefix), spec_migration_up(db.tables@[i as int]));
        }
        up.append(migration_up(&db.tables[i]).as_str());
        assert(up@ =~= up0 + spec_concat(spec_ups(db.tables@.take(i + 1))));
    }
    assert(db.tables@.take(n as int) =~= db.tables@);
    up.append("COMMIT;");
    let mut down = String::from_str("BEGIN TRANSACTION;");
    let ghost down0 = down@;
    let ghost rev = db.tables@.reverse();
    let mut k: usize = 0;
    while k < n
        invariant
            k <= n,
            n == db.tables@.len(),
            rev == db.tables@.reverse(),
            down@ == down0 + spec_concat(spec_downs(db.tables@).take(k as int)),
        decreases n - k,
    {
        let ghost downs = spec_downs(db.tables@);
        assert(downs[k as int] == spec_migration_down(db.tables@[n - 1 - k]));
        assert(downs.take(k + 1) =~= downs.take(k as int).push(downs[k as int]));
        proof {
            lemma_concat_push(downs.take(k as int), downs[k as int]);
        }
        down.append(migration_down(&db.tables[n - 1 - k]).as_str());
        k = k + 1;
    }
    assert(spec_downs(db.tables@).take(n as int) =~= spec_downs(db.tables@));
    down.append("COMMIT;");
    let mut up_full = String::from_str("CREATE DATABASE IF NOT EXISTS ");
    up_full.append(db.name.as_str());
    up_full.append(";");
    up_full.append(up.as_str());
    let mut down_full = String::from_str("DROP DATABASE ");
    down_full.append(db.name.as_str());
    down_full.append(";");
    Migrations { up, down, up_full, down_full }
}

/// An aggregate of a column selects at most one record: the column is unique and the
/// aggregate filters by equality.
pub open spec fn spec_aggregate_is_one<'a>(
    column: stage3::ColumnMolecule<'a>,
    aggregate: ColumnAttrAggregate,
) -> bool {
    column.create.ty.spec_is_unique() && aggregate.filter is Eq
}

/// Whether an aggregate of a column selects at most one record.
pub fn aggregate_is_one<'a>(column: &stage3::ColumnMolecule<'a>, aggregate: &ColumnAttrAggregate) -> (r:
    bool)
    ensures
        r == spec_aggregate_is_one(*column, *aggregate),
{
    column.create.ty.is_unique() && aggregate.filter.is_eq()
}

/// The queries of an aggregate: one for each order of a sorted aggregate, else one.
pub enum AggregateQueries {
    Sorted { ascending: String, descending: String },
    Unsorted(String),
}

/// The name of the column in queries.
pub open spec fn spec_column_name_intern<'a>(column: stage3::ColumnMolecule<'a>) -> Seq<char> {
    match column.response.getter {
        stage3::ResponseColumnGetterMolecule::Element(e) => e.name_intern@,
        stage3::ResponseColumnGetterMolecule::Compound(c) => c.name_intern@,
    }
}

/// `r` are the queries of an aggregate of a column: filtered by the column as the aggregate
/// asks, sorted by it when the aggregate sorts, limited as it asks unless it selects at most
/// one record, which is limited to one.
pub open spec fn spec_aggregate_queries<'a>(
    table_name_intern: Seq<char>,
    table_name_extern: Seq<char>,
    elements: Seq<ResponseColumnGetterElement<'a>>,
    compounds: Seq<&'a stage3::ResponseColumnGetterCompound<'a>>,
    column: stage3::ColumnMolecule<'a>,
    aggregate: ColumnAttrAggregate,
    r: AggregateQueries,
) -> bool {
    let name_intern = spec_column_name_intern(column);
    let is_one = spec_aggregate_is_one(column, aggregate);
    let q = |sort: Option<(Sort, Seq<char>)>|
        spec_get(
            table_name_intern,
            table_name_extern,
            elements,
            compounds,
            Some((aggregate.filter, name_intern)),
            sort,
            Some(aggregate.limit),
            is_one,
        );
    if aggregate.is_sort {
        r matches AggregateQueries::Sorted { ascending, descending } && ascending@ == q(
            Some((Sort::Ascending, name_intern)),
        ) && descending@ == q(Some((Sort::Descending, name_intern)))
    } else {
        r matches AggregateQueries::Unsorted(query) && query@ == q(None)
    }
}

/// The queries of an aggregate of a column: filtered by the column as the aggregate asks,
/// sorted by it when the aggregate sorts, limited as it asks unless it selects at most one
/// record, which is limited to one.
pub fn aggregate_queries<'a>(
    table_name_intern: &str,
    table_name_extern: &str,
    response_getters: (&[ResponseColumnGetterElement<'a>], &[&'a stage3::ResponseColumnGetterCompound<'a>]),
    column: &stage3::ColumnMolecule<'a>,
    aggregate: &ColumnAttrAggregate,
) -> (r: AggregateQueries)
    ensures
        spec_aggregate_queries(
            table_name_intern@,
            table_name_extern@,
            response_getters.0@,
            response_getters.1@,
            *column,
            *aggregate,
            r,
        ),
{
    let name_intern = column.name_intern().as_str();
    let is_one = aggregate_is_one(column, aggregate);
    if aggregate.is_sort {
        let (ascending, descending) = get_sort_asc_desc(
            table_name_intern,
            table_name_extern,
            response_getters,
            Some((aggregate.filter, name_intern)),
            name_intern,
            Some(aggregate.limit),
            is_one,
        );
        AggregateQueries::Sorted { ascending, descending }
    } else {
        AggregateQueries::Unsorted(
            get(
                table_name_intern,
                table_name_extern,
                response_getters,
                Some((aggregate.filter, name_intern)),
                None,
                Some(aggregate.limit),
                is_one,
            ),
        )
    }
}

/// What an aggregate of a column runs: the name of its query type, whether it selects at most
/// one record, whether the controller offers it, the names of its query parameters, the
/// number of records of a page, and its queries.
pub struct AggregatePlan {
    pub rs_name: String,
    pub is_one: bool,
    pub is_controller: bool,
    /// `filter_<field>_<filter>`, when the aggregate filters
    pub filter_parameter: Option<String>,
    /// `limit` or `page`, when the aggregate limits and may select more than one record
    pub limit_parameter: Option<String>,
    /// the records of a page, when the aggregate pages and may select more than one record
    pub per_page: Option<u64>,
    /// `sort_<field>`, when the aggregate sorts
    pub sort_parameter: Option<String>,
    pub queries: AggregateQueries,
}

/// The query parameter of the filter of an aggregate on the field `field`.
pub open spec fn spec_filter_parameter(field: Seq<char>, filter: ColumnAttrIndexFilter) -> Option<
    Seq<char>,
> {
    match filter.spec_parameter() {
        Some(p) => Some("filter_"@ + field + "_"@ + p),
        None => None,
    }
}

/// The query parameter of the limit of an aggregate: none for an aggregate of one record.
pub open spec fn spec_limit_parameter(limit: ColumnAttrIndexLimit, is_one: bool) -> Option<Seq<char>> {
    if is_one {
        None
    } else {
        limit.spec_parameter()
    }
}

/// The records of a page of an aggregate: none for an aggregate of one record.
pub open spec fn spec_per_page(limit: ColumnAttrIndexLimit, is_one: bool) -> Option<u64> {
    match limit {
        ColumnAttrIndexLimit::Page { per_page } => if is_one {
            None
        } else {
            Some(per_page)
        },
        _ => None,
    }
}

/// An optional string, by its characters.
pub open spec fn spec_opt_view(s: Option<String>) -> Option<Seq<char>> {
    match s {
        Some(s) => Some(s@),
        None => None,
    }
}

/// `plan` is what the aggregate of the column runs.
pub open spec fn spec_aggregate_plan<'a>(
    table_name_intern: Seq<char>,
    table_name_extern: Seq<char>,
    elements: Seq<ResponseColumnGetterElement<'a>>,
    compounds: Seq<&'a stage3::ResponseColumnGetterCompound<'a>>,
    column: stage3::ColumnMolecule<'a>,
    aggregate: ColumnAttrAggregate,
    plan: AggregatePlan,
) -> bool {
    let field = column.response.field.rs_name@;
    let is_one = spec_aggregate_is_one(column, aggregate);
    &&& plan.rs_name == aggregate.rs_name
    &&& plan.is_one == is_one
    &&& plan.is_controller == aggregate.is_controller
    &&& spec_opt_view(plan.filter_parameter) == spec_filter_parameter(field, aggregate.filter)
    &&& spec_opt_view(plan.limit_parameter) == spec_limit_parameter(aggregate.limit, is_one)
    &&& plan.per_page == spec_per_page(aggregate.limit, is_one)
    &&& spec_opt_view(plan.sort_parameter) == (if aggregate.is_sort {
        Some("sort_"@ + field)
    } else {
        None
    })
    &&& spec_aggregate_queries(
        table_name_intern,
        table_name_extern,
        elements,
        compounds,
        column,
        aggregate,
        plan.queries,
    )
}

/// What the aggregate of the column runs.
pub fn aggregate_plan<'a>(
    table_name_intern: &str,
    table_name_extern: &str,
    response_getters: (&[ResponseColumnGetterElement<'a>], &[&'a stage3::ResponseColumnGetterCompound<'a>]),
    column: &stage3::ColumnMolecule<'a>,
    aggregate: &ColumnAttrAggregate,
) -> (r: AggregatePlan)
    ensures
        spec_aggregate_plan(
            table_name_intern@,
            table_name_extern@,
            response_getters.0@,
            response_getters.1@,
            *column,
            *aggregate,
            r,
        ),
{
    let field = column.response.field.rs_name.as_str();
    let is_one = aggregate_is_one(column, aggregate);
    let filter_parameter = match aggregate.filter.parameter() {
        Some(p) => {
            let mut s = String::from_str("filter_");
            s.append(field);
            s.append("_");
            s.append(p);
            Some(s)
        },
        None => None,
    };
    let limit_parameter = if is_one {
        None
    } else {
        match aggregate.limit.parameter() {
            Some(p) => Some(String::from_str(p)),
            None => None,
        }
    };
    let per_page = match aggregate.limit {
        ColumnAttrIndexLimit::Page { per_page } => if is_one {
            None
        } else {
            Some(per_page)
        },
        _ => None,
    };
    let sort_parameter = if aggregate.is_sort {
        let mut s = String::from_str("sort_");
        s.append(field);
        Some(s)
    } else {
        None
    };
    let queries = aggregate_queries(
        table_name_intern,
        table_name_extern,
        response_getters,
        column,
        aggregate,
    );
    AggregatePlan {
        rs_name: aggregate.rs_name.clone(),
        is_one,
        is_controller: aggregate.is_controller,
        filter_parameter,
        limit_parameter,
        per_page,
        sort_parameter,
        queries,
    }
}

/// Each column stored in its table with each of its aggregates, column after column.
pub open spec fn spec_aggregate_pairs<'a>(columns: Seq<stage3::ColumnRef<'a>>) -> Seq<
    (stage3::ColumnMolecule<'a>, ColumnAttrAggregate),
>
    decreases columns.len(),
{
    if columns.len() == 0 {
        Seq::empty()
    } else {
        spec_aggregate_pairs(columns.drop_last()) + match columns.last() {
            stage3::ColumnRef::Molecule(m) => m.aggregates@.map_values(
                |a: ColumnAttrAggregate| (*m, a),
            ),
            stage3::ColumnRef::Collection(_) => Seq::empty(),
        }
    }
}

/// What every aggregate of the columns runs, column after column.
pub fn aggregate_plans<'a>(
    table_name_intern: &str,
    table_name_extern: &str,
    response_getters: (&[ResponseColumnGetterElement<'a>], &[&'a stage3::ResponseColumnGetterCompound<'a>]),
    columns: &Vec<stage3::ColumnRef<'a>>,
) -> (r: Vec<AggregatePlan>)
    ensures
        r@.len() == spec_aggregate_pairs(columns@).len(),
        forall|k: int|
            0 <= k < r@.len() ==> spec_aggregate_plan(
                table_name_intern@,
                table_name_extern@,
                response_getters.0@,
                response_getters.1@,
                spec_aggregate_pairs(columns@)[k].0,
                spec_aggregate_pairs(columns@)[k].1,
                #[trigger] r@[k],
            ),
{
    let mut r: Vec<AggregatePlan> = Vec::new();
    let n = columns.len();
    for i in 0..n
        invariant
            n == columns@.len(),
            r@.len() == spec_aggregate_pairs(columns@.take(i as int)).len(),
            forall|k: int|
                0 <= k < r@.len() ==> spec_aggregate_plan(
                    table_name_intern@,
                    table_name_extern@,
                    response_getters.0@,
                    response_getters.1@,
                    spec_aggregate_pairs(columns@.take(i as int))[k].0,
                    spec_aggregate_pairs(columns@.take(i as int))[k].1,
                    #[trigger] r@[k],
                ),
    {
        let ghost before = spec_aggregate_pairs(columns@.take(i as int));
        proof {
            assert(columns@.take(i + 1).drop_last() =~= columns@.take(i as int));
        }
        match columns[i] {
            stage3::ColumnRef::Molecule(m) => {
                let aggregates = m.aggregates;
                let ghost added = aggregates@.map_values(|a: ColumnAttrAggregate| (*m, a));
                assert(spec_aggregate_pairs(columns@.take(i + 1)) == before + added);
                let count = aggregates.len();
                for j in 0..count
                    invariant
                        count == aggregates@.len(),
                        added == aggregates@.map_values(|a: ColumnAttrAggregate| (*m, a)),
                        r@.len() == before.len() + j,
                        forall|k: int|
                            0 <= k < r@.len() ==> spec_aggregate_plan(
                                table_name_intern@,
                                table_name_extern@,
                                response_getters.0@,
                                response_getters.1@,
                                (before + added)[k].0,
                                (before + added)[k].1,
                                #[trigger] r@[k],
                            ),
                        forall|k: int|
                            0 <= k < before.len() ==> (before + added)[k] == before[k],
                {
                    let plan = aggregate_plan(
                        table_name_intern,
                        table_name_extern,
                        response_getters,
                        m,
                        &aggregates[j],
                    );
                    assert((before + added)[before.len() + j] == (*m, aggregates@[j as int]));
                    r.push(plan);
                }
            },
            stage3::ColumnRef::Collection(_) => {
                assert(spec_aggregate_pairs(columns@.take(i + 1)) =~= before);
            },
        }
    }
    assert(columns@.take(n as int) =~= columns@);
    r
}

/// The offset of a page of records: the page times the records of a page, or the largest
/// offset when that does not fit.
pub fn page_offset(page: u64, per_page: u64) -> (r: u64)
    ensures
        r == (if page * per_page <= u64::MAX {
            page * per_page
        } else {
            u64::MAX as int
        }),
{
    match page.checked_mul(per_page) {
        Some(offset) => offset,
        None => u64::MAX,
    }
}

/// How a value column is read from a row of a query.
pub enum ReadForm {
    /// an optional column: a missing value reads as none
    Optional,
    /// a required column of an optional foreign record: a missing value means the foreign
    /// record is missing
    UnderOptionalParent,
    /// a required column: the value as it is
    Required,
}

/// How a value column is read from a row: as optional when the column is optional, else as
/// the sign of its optional foreign record when it belongs to one, else as it is.
pub fn read_form(is_optional: bool, is_parent_optional: bool) -> (r: ReadForm)
    ensures
        r == (if is_optional {
            ReadForm::Optional
        } else if is_parent_optional {
            ReadForm::UnderOptionalParent
        } else {
            ReadForm::Required
        }),
{
    if is_optional {
        ReadForm::Optional
    } else if is_parent_optional {
        ReadForm::UnderOptionalParent
    } else {
        ReadForm::Required
    }
}

/// `pattern` occurs in `s`.
pub open spec fn spec_contains(s: Seq<char>, pattern: Seq<char>) -> bool {
    exists|i: int|
        0 <= i <= s.len() - pattern.len() && (#[trigger] s.skip(i)).take(pattern.len() as int)
            == pattern
}

/// The integer type is signed.
pub open spec fn spec_is_signed(t: AtomicTyInt) -> bool {
    t is i8 || t is i16 || t is i32 || t is i64
}

/// The signed and the unsigned integer type of one width.
pub open spec fn spec_int_widths() -> Seq<(AtomicTyInt, AtomicTyInt)> {
    seq![
        (AtomicTyInt::i8, AtomicTyInt::u8),
        (AtomicTyInt::i16, AtomicTyInt::u16),
        (AtomicTyInt::i32, AtomicTyInt::u32),
        (AtomicTyInt::i64, AtomicTyInt::u64),
    ]
}

/// The SQL type of a signed integer column is signed, `TINYINT`, `SMALLINT`, `INT` or `BIGINT`
/// by its width, and never holds `UNSIGNED`; the SQL type of the unsigned integer column of
/// the same width is that type followed by ` UNSIGNED`.
pub proof fn law_integer_types(t: AtomicTyInt)
    ensures
        spec_is_signed(t) ==> !spec_contains(t.spec_ty(), "UNSIGNED"@),
        AtomicTyInt::i8.spec_ty() == "TINYINT"@,
        AtomicTyInt::i16.spec_ty() == "SMALLINT"@,
        AtomicTyInt::i32.spec_ty() == "INT"@,
        AtomicTyInt::i64.spec_ty() == "BIGINT"@,
        forall|k: int|
            0 <= k < spec_int_widths().len() ==> (#[trigger] spec_int_widths()[k]).1.spec_ty()
                == spec_int_widths()[k].0.spec_ty() + " UNSIGNED"@,
{
    reveal_strlit("TINYINT");
    reveal_strlit("SMALLINT");
    reveal_strlit("INT");
    reveal_strlit("BIGINT");
    reveal_strlit("UNSIGNED");
    reveal_strlit("TINYINT UNSIGNED");
    reveal_strlit("SMALLINT UNSIGNED");
    reveal_strlit("INT UNSIGNED");
    reveal_strlit("BIGINT UNSIGNED");
    reveal_strlit(" UNSIGNED");
    assert("TINYINT UNSIGNED"@ =~= "TINYINT"@ + " UNSIGNED"@);
    assert("SMALLINT UNSIGNED"@ =~= "SMALLINT"@ + " UNSIGNED"@);
    assert("INT UNSIGNED"@ =~= "INT"@ + " UNSIGNED"@);
    assert("BIGINT UNSIGNED"@ =~= "BIGINT"@ + " UNSIGNED"@);
    if spec_is_signed(t) && spec_contains(t.spec_ty(), "UNSIGNED"@) {
        let s = t.spec_ty();
        let i = choose|i: int|
            0 <= i <= s.len() - "UNSIGNED"@.len() && (#[trigger] s.skip(i)).take(
                "UNSIGNED"@.len() as int,
            ) == "UNSIGNED"@;
        assert(s.skip(i).take(8)[0] == 'U');
        assert(s.skip(i).take(8)[0] == s[i]);
    }
}

/// The `WHERE` clause of each filter compares the column with the parameter by its own
/// operator: `=` for `eq`, `>` for `gt`, `<` for `lt`, `>=` for `gte`, `<=` for `lte`, and
/// `LIKE` for `like`; no filter has none; and two different filters never give the same
/// clause.
pub proof fn law_filter_comparisons(column: Seq<char>)
    ensures
        spec_filter_sql(ColumnAttrIndexFilter::Unfiltered, column) == Seq::<char>::empty(),
        spec_filter_sql(ColumnAttrIndexFilter::Eq, column) == " WHERE "@ + column + "=?"@,
        spec_filter_sql(ColumnAttrIndexFilter::Gt, column) == " WHERE "@ + column + ">?"@,
        spec_filter_sql(ColumnAttrIndexFilter::Lt, column) == " WHERE "@ + column + "<?"@,
        spec_filter_sql(ColumnAttrIndexFilter::Gte, column) == " WHERE "@ + column + ">=?"@,
        spec_filter_sql(ColumnAttrIndexFilter::Lte, column) == " WHERE "@ + column + "<=?"@,
        spec_filter_sql(ColumnAttrIndexFilter::Like, column) == " WHERE "@ + column
            + " LIKE CONCAT('%', ?, '%')"@,
        forall|f: ColumnAttrIndexFilter, g: ColumnAttrIndexFilter|
            f != g ==> #[trigger] spec_filter_sql(f, column) != #[trigger] spec_filter_sql(
                g,
                column,
            ),
{
    reveal_strlit(" WHERE ");
    reveal_strlit("=?");
    reveal_strlit(">?");
    reveal_strlit("<?");
    reveal_strlit(">=?");
    reveal_strlit("<=?");
    reveal_strlit(" LIKE CONCAT('%', ?, '%')");
    let p = " WHERE "@ + column;
    assert forall|f: ColumnAttrIndexFilter, g: ColumnAttrIndexFilter|
        f != g implies #[trigger] spec_filter_sql(f, column) != #[trigger] spec_filter_sql(
            g,
            column,
        ) by {
        let a = spec_filter_sql(f, column);
        let b = spec_filter_sql(g, column);
        if a == b {
            if f is Unfiltered || g is Unfiltered {
                assert(a.len() != b.len());
            } else {
                let x = a.skip(p.len() as int);
                let y = b.skip(p.len() as int);
                assert(x == y);
                match f {
                    ColumnAttrIndexFilter::Eq => assert(x =~= "=?"@),
                    ColumnAttrIndexFilter::Gt => assert(x =~= ">?"@),
                    ColumnAttrIndexFilter::Lt => assert(x =~= "<?"@),
                    ColumnAttrIndexFilter::Gte => assert(x =~= ">=?"@),
                    ColumnAttrIndexFilter::Lte => assert(x =~= "<=?"@),
                    ColumnAttrIndexFilter::Like => assert(x =~= " LIKE CONCAT('%', ?, '%')"@),
                    ColumnAttrIndexFilter::Unfiltered => {},
                }
                match g {
                    ColumnAttrIndexFilter::Eq => assert(y =~= "=?"@),
                    ColumnAttrIndexFilter::Gt => assert(y =~= ">?"@),
                    ColumnAttrIndexFilter::Lt => assert(y =~= "<?"@),
                    ColumnAttrIndexFilter::Gte => assert(y =~= ">=?"@),
                    ColumnAttrIndexFilter::Lte => assert(y =~= "<=?"@),
                    ColumnAttrIndexFilter::Like => assert(y =~= " LIKE CONCAT('%', ?, '%')"@),
                    ColumnAttrIndexFilter::Unfiltered => {},
                }
                assert(x[0] != y[0] || x.len() != y.len() || x[1] != y[1]);
            }
        }
    }
}

/// In `INSERT` and `UPDATE`, a column is given a `?` parameter exactly when the request sets
/// it; a column set on update is given the current time of its time type instead (for
/// example `UTC_TIMESTAMP()` for a UTC date and time), a function call that is never a
/// parameter.
pub proof fn law_request_values<'a>(columns: Seq<&'a stage3::RequestColumnMolecule<'a>>)
    ensures
        spec_setter_values(columns).len() == columns.len(),
        forall|k: int|
            0 <= k < columns.len() ==> ((#[trigger] spec_setter_values(columns)[k] == "?"@)
                <==> columns[k] is Mutable),
        forall|k: int|
            0 <= k < columns.len() ==> (columns[k] matches stage3::RequestColumnMolecule::OnUpdate(
                o,
            ) ==> #[trigger] spec_setter_values(columns)[k] == o.time_ty.spec_current_time_func()),
        forall|t: AtomicTyTime|
            #![trigger t.spec_current_time_func()]
            t.spec_current_time_func().len() > 2 && t.spec_current_time_func().last() == ')',
        AtomicTyTime::ChronoDateTimeUtc.spec_current_time_func() == "UTC_TIMESTAMP()"@,
{
    reveal_strlit("?");
    reveal_strlit("UTC_TIMESTAMP()");
    reveal_strlit("CURRENT_TIMESTAMP()");
    reveal_strlit("CURRENT_DATE()");
    reveal_strlit("CURRENT_TIME()");
    assert forall|t: AtomicTyTime|
        #![trigger t.spec_current_time_func()]
        t.spec_current_time_func().len() > 2 && t.spec_current_time_func().last() == ')' by {}
    assert forall|k: int|
        0 <= k < columns.len() implies ((#[trigger] spec_setter_values(columns)[k] == "?"@)
            <==> columns[k] is Mutable) by {
        match *columns[k] {
            stage3::RequestColumnMolecule::Mutable(_) => {},
            stage3::RequestColumnMolecule::OnUpdate(o) => {
                let v = o.time_ty.spec_current_time_func();
                assert(v.len() > 2);
                assert("?"@.len() == 1);
            },
        }
    }
}

/// A sorted query orders by the column, ascending with `ASC` and descending with `DESC`, so
/// the two orders never give the same clause.
pub proof fn law_sort_orders(column: Seq<char>)
    ensures
        spec_sort_sql(Sort::Ascending, column) == " ORDER BY "@ + column + " ASC"@,
        spec_sort_sql(Sort::Descending, column) == " ORDER BY "@ + column + " DESC"@,
        spec_sort_sql(Sort::Ascending, column) != spec_sort_sql(Sort::Descending, column),
{
    reveal_strlit(" ASC");
    reveal_strlit(" DESC");
    assert(spec_sort_sql(Sort::Ascending, column).len() != spec_sort_sql(
        Sort::Descending,
        column,
    ).len());
}

/// A query of one record reads one record, whatever limit is asked for; otherwise a limit
/// reads at most as many records as the `?` parameter, a page reads `per_page` records after
/// the offset given as the parameter, and no limit adds no clause.
pub proof fn law_limits(limit: Option<ColumnAttrIndexLimit>, per_page: u64)
    ensures
        spec_limit_sql(limit, true) == " LIMIT 1"@,
        spec_limit_sql(Some(ColumnAttrIndexLimit::Limit), false) == " LIMIT ?"@,
        spec_limit_sql(Some(ColumnAttrIndexLimit::Page { per_page }), false) == " LIMIT "@
            + spec_decimal(per_page as nat) + " OFFSET ? "@,
        spec_limit_sql(Some(ColumnAttrIndexLimit::Unlimited), false) == Seq::<char>::empty(),
        spec_limit_sql(None, false) == Seq::<char>::empty(),
{
}

/// A query of one record ends in `LIMIT 1`, whatever limit its aggregate asks for: an
/// aggregate that filters a unique column by equality returns zero or one records.
pub proof fn law_query_of_one_is_limited_to_one<'a>(
    table_name_intern: Seq<char>,
    table_name_extern: Seq<char>,
    elements: Seq<ResponseColumnGetterElement<'a>>,
    compounds: Seq<&'a stage3::ResponseColumnGetterCompound<'a>>,
    aggregate_filter: Option<(ColumnAttrIndexFilter, Seq<char>)>,
    aggregate_sort: Option<(Sort, Seq<char>)>,
    aggregate_limit: Option<ColumnAttrIndexLimit>,
)
    ensures
        ({
            let q = spec_get(
                table_name_intern,
                table_name_extern,
                elements,
                compounds,
                aggregate_filter,
                aggregate_sort,
                aggregate_limit,
                true,
            );
            q.len() >= 8 && q.subrange(q.len() - 8, q.len() as int) == " LIMIT 1"@
        }),
{
    reveal_strlit(" LIMIT 1");
    let q = spec_get(
        table_name_intern,
        table_name_extern,
        elements,
        compounds,
        aggregate_filter,
        aggregate_sort,
        aggregate_limit,
        true,
    );
    let prefix = q.subrange(0, q.len() - 8);
    assert(q.subrange(q.len() - 8, q.len() as int) =~= " LIMIT 1"@);
}

} // verus!
