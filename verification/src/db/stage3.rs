//! Stage 3 of the `db` macro: the schema resolved against the whole database.
//! Each column knows how it is created, read and written: the SQL names it is read
//! under, the foreign tables it joins, and the request field that sets it.

use vstd::prelude::*;

use super::stage2;
use super::stage2::{
    AtomicTyInt, AtomicTyTime, AutoTimeEvent, ColumnAttrAggregate, Columns, DefaultValue,
    TyElement, TyElementAutoTime, Validate,
};
use super::stage1;
use vstd::set_lib::{lemma_int_range, lemma_len_subset, set_int_range};
use crate::utils::borrow::CowBoxDeref;
use crate::utils::syn::{
    clone_type, same_type, spec_path_segments_from_type, spec_type_single_arg_from_path_segments,
    GenericArgument, PathArguments, PathSegment, QSelf, SynError, Type, TypePath,
};

verus! {

pub const TABLE_MUST_HAVE_ID: &'static str = "table must have an ID";
pub const COLUMN_MUST_NOT_BE_COLLECTION: &'static str =
    "column must not be many-to-many relationship";

/// The name of `child` within `parent` in a query: `parent.child`.
pub open spec fn spec_name_intern(parent: Seq<char>, child: Seq<char>) -> Seq<char> {
    parent + "."@ + child
}

/// The flat alias of `child` within `parent` in a query: `parent__child`.
pub open spec fn spec_name_extern(parent: Seq<char>, child: Seq<char>) -> Seq<char> {
    parent + "__"@ + child
}

/// The name of `child` within `parent` in a query: `parent.child`.
pub fn name_intern(parent_child: (&str, &str)) -> (r: String)
    ensures
        r@ == spec_name_intern(parent_child.0@, parent_child.1@),
{
    let (parent, child) = parent_child;
    let mut r = String::from_str(parent);
    r.append(".");
    r.append(child);
    proof {
        reveal_strlit(".");
    }
    r
}

/// The flat alias of `child` within `parent` in a query: `parent__child`.
pub fn name_extern(parent_child: (&str, &str)) -> (r: String)
    ensures
        r@ == spec_name_extern(parent_child.0@, parent_child.1@),
{
    let (parent, child) = parent_child;
    let mut r = String::from_str(parent);
    r.append("__");
    r.append(child);
    proof {
        reveal_strlit("__");
    }
    r
}

/// The flat alias of `child` within `parent` within `grandparent`: `grandparent__parent__child`.
pub fn name_extern_triple(names: (&str, &str, &str)) -> (r: String)
    ensures
        r@ == spec_name_extern(spec_name_extern(names.0@, names.1@), names.2@),
{
    let (grandparent, parent, child) = names;
    let mut r = String::from_str(grandparent);
    r.append("__");
    r.append(parent);
    r.append("__");
    r.append(child);
    proof {
        reveal_strlit("__");
    }
    r
}

/// The name and the flat alias of `child` within `parent`.
pub fn name_intern_extern(parent_child: (&str, &str)) -> (r: (String, String))
    ensures
        r.0@ == spec_name_intern(parent_child.0@, parent_child.1@),
        r.1@ == spec_name_extern(parent_child.0@, parent_child.1@),
{
    (name_intern(parent_child), name_extern(parent_child))
}

/// A column that refers to a record of another table by its identifier.
pub struct TyCompound<'a> {
    pub foreign_table_name: &'a String,
    pub foreign_table_id_name: &'a String,
    /// the integer type of the foreign identifier
    pub ty: AtomicTyInt,
    pub is_optional: bool,
    pub is_unique: bool,
}

impl TyCompound<'_> {
    pub fn is_optional(&self) -> (r: bool)
        ensures
            r == self.is_optional,
    {
        self.is_optional
    }

    pub fn is_unique(&self) -> (r: bool)
        ensures
            r == self.is_unique,
    {
        self.is_unique
    }
}

/// The type of a column that is stored in its table: a value, or a foreign identifier.
pub enum TyMolecule<'a> {
    Element(TyElement),
    Compound(TyCompound<'a>),
}

impl TyMolecule<'_> {
    pub open spec fn spec_is_optional(&self) -> bool {
        match self {
            TyMolecule::Element(element) => element.spec_optional(),
            TyMolecule::Compound(compound) => compound.is_optional,
        }
    }

    pub fn is_optional(&self) -> (r: bool)
        ensures
            r == self.spec_is_optional(),
    {
        match self {
            Self::Element(element) => element.optional(),
            Self::Compound(compound) => compound.is_optional(),
        }
    }

    pub open spec fn spec_is_unique(&self) -> bool {
        match self {
            TyMolecule::Element(element) => element.spec_unique(),
            TyMolecule::Compound(compound) => compound.is_unique,
        }
    }

    pub fn is_unique(&self) -> (r: bool)
        ensures
            r == self.spec_is_unique(),
    {
        match self {
            Self::Element(element) => element.unique(),
            Self::Compound(compound) => compound.is_unique(),
        }
    }

    /// The current time, for a time column that is set automatically.
    pub fn default_value(&self) -> (r: Option<DefaultValue<'_>>)
        ensures
            match *self {
                TyMolecule::Element(TyElement::AutoTime(auto_time)) => r matches Some(
                    DefaultValue::AutoTime(t),
                ) && *t == auto_time.ty,
                _ => r is None,
            },
    {
        match self {
            Self::Compound(_) => None,
            Self::Element(element) => element.default_value(),
        }
    }

    pub fn is_id(&self) -> (r: bool)
        ensures
            r == (*self matches TyMolecule::Element(e) && e is Id),
    {
        match self {
            Self::Element(element) => element.is_id(),
            Self::Compound(_) => false,
        }
    }
}

/// How a column is created in `CREATE TABLE`.
pub struct CreateColumn<'a> {
    pub name: &'a String,
    pub ty: TyMolecule<'a>,
}

/// How a value column is read: its name in the query and the flat alias it is read as.
pub struct ResponseColumnGetterElement<'a> {
    pub name_intern: String,
    pub name_extern: String,
    pub is_optional: bool,
    pub rs_name: &'a String,
}

/// How a foreign column is read: the foreign table is joined under an alias,
/// and its columns are read in turn.
pub struct ResponseColumnGetterCompound<'a> {
    pub name_intern: String,
    pub foreign_table_id_name_intern: String,
    pub foreign_table_name_intern: String,
    pub foreign_table_name_extern: String,
    pub is_optional: bool,
    pub rs_name: &'a String,
    pub foreign_table_rs_name: &'a String,
    pub columns: Vec<ResponseColumnGetter<'a>>,
}

/// How a column stored in its table is read.
pub enum ResponseColumnGetterMolecule<'a> {
    Element(ResponseColumnGetterElement<'a>),
    Compound(ResponseColumnGetterCompound<'a>),
}

impl<'a> ResponseColumnGetterMolecule<'a> {
    pub fn name_intern(&self) -> (r: &String)
        ensures
            match *self {
                ResponseColumnGetterMolecule::Element(element) => *r == element.name_intern,
                ResponseColumnGetterMolecule::Compound(compound) => *r == compound.name_intern,
            },
    {
        match self {
            Self::Element(element) => &element.name_intern,
            Self::Compound(compound) => &compound.name_intern,
        }
    }

    pub fn rs_name(&self) -> (r: &'a String)
        ensures
            match *self {
                ResponseColumnGetterMolecule::Element(element) => r == element.rs_name,
                ResponseColumnGetterMolecule::Compound(compound) => r == compound.rs_name,
            },
    {
        match self {
            Self::Element(element) => element.rs_name,
            Self::Compound(compound) => compound.rs_name,
        }
    }

    pub fn is_optional(&self) -> (r: bool)
        ensures
            match *self {
                ResponseColumnGetterMolecule::Element(element) => r == element.is_optional,
                ResponseColumnGetterMolecule::Compound(compound) => r == compound.is_optional,
            },
    {
        match self {
            Self::Element(element) => element.is_optional,
            Self::Compound(compound) => compound.is_optional,
        }
    }
}

/// How a many-to-many column is read: from the intermediate table, by the table's identifier.
pub struct ResponseColumnGetterCollection<'a> {
    pub rs_name: &'a String,
    pub aggregate_rs_name: &'a String,
    pub table_id_name_extern: String,
    pub many_foreign_table_rs_name: &'a String,
}

/// How a column is read.
pub enum ResponseColumnGetter<'a> {
    Molecule(ResponseColumnGetterMolecule<'a>),
    Collection(ResponseColumnGetterCollection<'a>),
}

/// How a column is read, by reference.
#[derive(Clone, Copy)]
pub enum ResponseColumnGetterRef<'a> {
    Molecule(&'a ResponseColumnGetterMolecule<'a>),
    Collection(&'a ResponseColumnGetterCollection<'a>),
}

impl<'a> ResponseColumnGetterRef<'a> {
    pub fn rs_name(&self) -> (r: &'a String)
        ensures
            match *self {
                ResponseColumnGetterRef::Molecule(m) => match *m {
                    ResponseColumnGetterMolecule::Element(element) => r == element.rs_name,
                    ResponseColumnGetterMolecule::Compound(compound) => r == compound.rs_name,
                },
                ResponseColumnGetterRef::Collection(collection) => r == collection.rs_name,
            },
    {
        match self {
            Self::Molecule(molecule) => molecule.rs_name(),
            Self::Collection(collection) => collection.rs_name,
        }
    }

    pub fn from(column: &'a ResponseColumnGetter<'a>) -> (r: ResponseColumnGetterRef<'a>)
        ensures
            match *column {
                ResponseColumnGetter::Molecule(m) => r == ResponseColumnGetterRef::Molecule(&m),
                ResponseColumnGetter::Collection(c) => r == ResponseColumnGetterRef::Collection(&c),
            },
    {
        match column {
            ResponseColumnGetter::Molecule(molecule) => Self::Molecule(molecule),
            ResponseColumnGetter::Collection(collection) => Self::Collection(collection),
        }
    }
}

/// The field of a column in the response struct.
pub struct ResponseColumnField<'a> {
    pub rs_name: &'a String,
    pub rs_ty: &'a Type,
    pub attr: &'a stage2::ColumnAttrResponse,
    pub rs_attrs: &'a Vec<String>,
}

/// How a column stored in its table is answered.
pub struct ResponseColumnMolecule<'a> {
    pub field: ResponseColumnField<'a>,
    pub getter: ResponseColumnGetterMolecule<'a>,
}

/// How a many-to-many column is answered.
pub struct ResponseColumnCollection<'a> {
    pub field: ResponseColumnField<'a>,
    pub getter: ResponseColumnGetterCollection<'a>,
}

/// How a request sets a column stored in its table.
pub struct RequestColumnSetterMolecule<'a> {
    pub rs_name: &'a String,
    pub name: &'a String,
    pub is_optional: bool,
    /// whether updates may change the column; every column with a request field may be
    /// changed
    pub is_mut: bool,
    pub validate: &'a Validate,
}

/// How a request sets a many-to-many column: through the intermediate table.
pub struct RequestColumnSetterCollection<'a> {
    pub rs_name: &'a String,
    pub aggregate_rs_name: &'a String,
    pub many_foreign_table_rs_name: &'a String,
}

/// The field of a column in the request structs.
pub struct RequestColumnField<'a> {
    pub rs_name: &'a String,
    pub rs_ty: CowBoxDeref<'a, Type>,
    pub attr: &'a stage2::ColumnAttrRequest,
    pub rs_attrs: &'a Vec<String>,
}

/// A column that requests set.
pub struct RequestColumnMoleculeMutable<'a> {
    pub field: RequestColumnField<'a>,
    pub setter: RequestColumnSetterMolecule<'a>,
}

/// A time column set to the current time on every update.
pub struct RequestColumnMoleculeOnUpdate<'a> {
    pub name: &'a String,
    pub time_ty: AtomicTyTime,
}

/// How a request writes a column stored in its table.
pub enum RequestColumnMolecule<'a> {
    Mutable(RequestColumnMoleculeMutable<'a>),
    OnUpdate(RequestColumnMoleculeOnUpdate<'a>),
}

impl<'a> RequestColumnMolecule<'a> {
    pub fn mutable(&self) -> (r: Option<&RequestColumnMoleculeMutable<'a>>)
        ensures
            match *self {
                RequestColumnMolecule::Mutable(m) => r == Some(&m),
                RequestColumnMolecule::OnUpdate(_) => r is None,
            },
    {
        match self {
            Self::Mutable(mutable) => Some(mutable),
            Self::OnUpdate(_) => None,
        }
    }

    pub fn field(&self) -> (r: Option<&RequestColumnField<'a>>)
        ensures
            match *self {
                RequestColumnMolecule::Mutable(m) => r == Some(&m.field),
                RequestColumnMolecule::OnUpdate(_) => r is None,
            },
    {
        match self {
            Self::Mutable(mutable) => Some(&mutable.field),
            Self::OnUpdate(_) => None,
        }
    }

    pub fn setter(&self) -> (r: Option<&RequestColumnSetterMolecule<'a>>)
        ensures
            match *self {
                RequestColumnMolecule::Mutable(m) => r == Some(&m.setter),
                RequestColumnMolecule::OnUpdate(_) => r is None,
            },
    {
        match self {
            Self::Mutable(mutable) => Some(&mutable.setter),
            Self::OnUpdate(_) => None,
        }
    }

    pub open spec fn spec_is_mut(&self) -> bool {
        match self {
            RequestColumnMolecule::Mutable(m) => m.setter.is_mut,
            RequestColumnMolecule::OnUpdate(_) => true,
        }
    }

    /// Whether updates change the column.
    pub fn is_mut(&self) -> (r: bool)
        ensures
            r == self.spec_is_mut(),
    {
        match self {
            Self::Mutable(mutable) => mutable.setter.is_mut,
            Self::OnUpdate(_) => true,
        }
    }
}

/// How a request writes a many-to-many column.
pub struct RequestColumnCollection<'a> {
    pub field: RequestColumnField<'a>,
    pub setter: RequestColumnSetterCollection<'a>,
}

/// A column stored in its table.
pub struct ColumnMolecule<'a> {
    pub create: CreateColumn<'a>,
    pub response: ResponseColumnMolecule<'a>,
    pub request: Option<RequestColumnMolecule<'a>>,
    pub aggregates: &'a Vec<ColumnAttrAggregate>,
    pub borrow: Option<Option<&'a Type>>,
    pub struct_name: Option<&'a String>,
}

impl<'a> ColumnMolecule<'a> {
    pub fn name(&self) -> (r: &'a String)
        ensures
            r == self.create.name,
    {
        self.create.name
    }

    pub fn name_intern(&self) -> (r: &String)
        ensures
            match self.response.getter {
                ResponseColumnGetterMolecule::Element(element) => *r == element.name_intern,
                ResponseColumnGetterMolecule::Compound(compound) => *r == compound.name_intern,
            },
    {
        self.response.getter.name_intern()
    }
}

/// A many-to-many column, stored in an intermediate table.
pub struct ColumnCollection<'a> {
    pub response: ResponseColumnCollection<'a>,
    pub request: RequestColumnCollection<'a>,
    pub struct_name: Option<&'a String>,
}

/// A column resolved against the database.
pub enum Column<'a> {
    Molecule(ColumnMolecule<'a>),
    Collection(ColumnCollection<'a>),
}

impl<'a> ColumnMolecule<'a> {
    /// The column, if it is stored in its table; otherwise the error that it must not be
    /// a many-to-many column.
    pub fn try_from(column: Column<'a>) -> (r: Result<ColumnMolecule<'a>, SynError>)
        ensures
            match column {
                Column::Molecule(m) => r == Ok::<ColumnMolecule<'a>, SynError>(m),
                Column::Collection(_) => r matches Err(e) && e.message_views() == seq![
                    COLUMN_MUST_NOT_BE_COLLECTION@,
                ],
            },
    {
        match column {
            Column::Molecule(molecule) => Ok(molecule),
            Column::Collection(_) => Err(SynError::new(COLUMN_MUST_NOT_BE_COLLECTION)),
        }
    }
}

/// A column resolved against the database, by reference.
#[derive(Clone, Copy)]
pub enum ColumnRef<'a> {
    Molecule(&'a ColumnMolecule<'a>),
    Collection(&'a ColumnCollection<'a>),
}

impl<'a> ColumnRef<'a> {
    pub fn create(self) -> (r: Option<&'a CreateColumn<'a>>)
        ensures
            match self {
                ColumnRef::Molecule(m) => r == Some(&m.create),
                ColumnRef::Collection(_) => r is None,
            },
    {
        match self {
            Self::Molecule(molecule) => Some(&molecule.create),
            Self::Collection(_) => None,
        }
    }

    pub fn response_field(self) -> (r: &'a ResponseColumnField<'a>)
        ensures
            match self {
                ColumnRef::Molecule(m) => *r == m.response.field,
                ColumnRef::Collection(c) => *r == c.response.field,
            },
    {
        match self {
            Self::Molecule(molecule) => &molecule.response.field,
            Self::Collection(collection) => &collection.response.field,
        }
    }

    pub fn response_getter(self) -> (r: ResponseColumnGetterRef<'a>)
        ensures
            match self {
                ColumnRef::Molecule(m) => r == ResponseColumnGetterRef::Molecule(&m.response.getter),
                ColumnRef::Collection(c) => r == ResponseColumnGetterRef::Collection(
                    &c.response.getter,
                ),
            },
    {
        match self {
            Self::Molecule(molecule) => ResponseColumnGetterRef::Molecule(&molecule.response.getter),
            Self::Collection(collection) => ResponseColumnGetterRef::Collection(
                &collection.response.getter,
            ),
        }
    }

    pub fn request_field(self) -> (r: Option<&'a RequestColumnField<'a>>)
        ensures
            match self {
                ColumnRef::Molecule(m) => match m.request {
                    Some(RequestColumnMolecule::Mutable(mm)) => r == Some(&mm.field),
                    _ => r is None,
                },
                ColumnRef::Collection(c) => r == Some(&c.request.field),
            },
    {
        match self {
            Self::Molecule(molecule) => match &molecule.request {
                Some(request) => request.field(),
                None => None,
            },
            Self::Collection(collection) => Some(&collection.request.field),
        }
    }

    pub fn request_molecule(self) -> (r: Option<&'a RequestColumnMolecule<'a>>)
        ensures
            match self {
                ColumnRef::Molecule(m) => match m.request {
                    Some(request) => r == Some(&request),
                    None => r is None,
                },
                ColumnRef::Collection(_) => r is None,
            },
    {
        match self {
            Self::Molecule(molecule) => match &molecule.request {
                Some(request) => Some(request),
                None => None,
            },
            Self::Collection(_) => None,
        }
    }

    pub fn request_collection(self) -> (r: Option<&'a RequestColumnCollection<'a>>)
        ensures
            match self {
                ColumnRef::Molecule(_) => r is None,
                ColumnRef::Collection(c) => r == Some(&c.request),
            },
    {
        match self {
            Self::Molecule(_) => None,
            Self::Collection(collection) => Some(&collection.request),
        }
    }

    pub fn request_setter_molecule(self) -> (r: Option<&'a RequestColumnSetterMolecule<'a>>)
        ensures
            match self {
                ColumnRef::Molecule(m) => match m.request {
                    Some(RequestColumnMolecule::Mutable(mm)) => r == Some(&mm.setter),
                    _ => r is None,
                },
                ColumnRef::Collection(_) => r is None,
            },
    {
        match self {
            Self::Molecule(molecule) => match &molecule.request {
                Some(request) => request.setter(),
                None => None,
            },
            Self::Collection(_) => None,
        }
    }

    pub fn request_setter_collection(self) -> (r: Option<&'a RequestColumnSetterCollection<'a>>)
        ensures
            match self {
                ColumnRef::Molecule(_) => r is None,
                ColumnRef::Collection(c) => r == Some(&c.request.setter),
            },
    {
        match self {
            Self::Molecule(_) => None,
            Self::Collection(collection) => Some(&collection.request.setter),
        }
    }

    pub fn struct_name(self) -> (r: Option<&'a String>)
        ensures
            match self {
                ColumnRef::Molecule(m) => r == m.struct_name,
                ColumnRef::Collection(c) => r == c.struct_name,
            },
    {
        match self {
            Self::Molecule(molecule) => molecule.struct_name,
            Self::Collection(collection) => collection.struct_name,
        }
    }

    /// Whether updates change the column.
    pub fn is_mut(self) -> (r: bool)
        ensures
            match self {
                ColumnRef::Molecule(m) => r == (m.request matches Some(request)
                    && request.spec_is_mut()),
                ColumnRef::Collection(_) => r,
            },
    {
        match self {
            Self::Molecule(molecule) => match &molecule.request {
                Some(request) => request.is_mut(),
                None => false,
            },
            Self::Collection(_) => true,
        }
    }

    pub fn from(column: &'a Column<'a>) -> (r: ColumnRef<'a>)
        ensures
            match *column {
                Column::Molecule(m) => r == ColumnRef::Molecule(&m),
                Column::Collection(c) => r == ColumnRef::Collection(&c),
            },
    {
        match column {
            Column::Molecule(molecule) => ColumnRef::Molecule(molecule),
            Column::Collection(collection) => ColumnRef::Collection(collection),
        }
    }
}

impl<'a, C> Columns<Column<'a>, ColumnMolecule<'a>, C> {
    /// All the columns by reference, in order: the identifier or the two columns of a
    /// many-to-many model first, then the others.
    pub open spec fn spec_refs(&'a self) -> Seq<ColumnRef<'a>> {
        match self {
            Columns::CollectionOnly { columns } => Seq::new(
                columns@.len(),
                |i: int| spec_column_ref(&columns@[i]),
            ),
            Columns::Model { id, columns, .. } => seq![ColumnRef::Molecule(id)] + Seq::new(
                columns@.len(),
                |i: int| spec_column_ref(&columns@[i]),
            ),
            Columns::ManyModel { a, b } => seq![ColumnRef::Molecule(a), ColumnRef::Molecule(b)],
        }
    }

    /// All the columns by reference, in order: the identifier or the two columns of a
    /// many-to-many model first, then the others.
    pub fn iter(&'a self) -> (r: Vec<ColumnRef<'a>>)
        ensures
            r@ == self.spec_refs(),
    {
        let mut r: Vec<ColumnRef<'a>> = Vec::new();
        let columns = match self {
            Columns::CollectionOnly { columns } => columns,
            Columns::Model { id, columns, .. } => {
                r.push(ColumnRef::Molecule(id));
                columns
            },
            Columns::ManyModel { a, b } => {
                r.push(ColumnRef::Molecule(a));
                r.push(ColumnRef::Molecule(b));
                assert(r@ =~= self.spec_refs());
                return r;
            },
        };
        let ghost start = r@;
        let ghost rest = Seq::new(columns@.len(), |i: int| spec_column_ref(&columns@[i]));
        assert(self.spec_refs() == start + rest);
        let n = columns.len();
        for j in 0..n
            invariant
                n == columns@.len(),
                rest.len() == n,
                forall|k: int| 0 <= k < n ==> rest[k] == spec_column_ref(&columns@[k]),
                r@ == start + rest.take(j as int),
        {
            r.push(ColumnRef::from(&columns[j]));
            assert(rest.take(j + 1) =~= rest.take(j as int).push(rest[j as int]));
        }
        assert(rest.take(n as int) =~= rest);
        r
    }
}

/// A column by reference.
pub open spec fn spec_column_ref<'a>(column: &'a Column<'a>) -> ColumnRef<'a> {
    match *column {
        Column::Molecule(m) => ColumnRef::Molecule(&m),
        Column::Collection(c) => ColumnRef::Collection(&c),
    }
}

/// A column of `table` refers to a record of the table named `foreign`.
pub open spec fn spec_refers_to(table: stage2::Table, foreign: Seq<char>) -> bool {
    exists|i: int|
        0 <= i < table.columns.spec_items().len() && ((#[trigger] table.columns.spec_items()[i]).ty
            matches stage2::Ty::Compound(c) && c.multiplicity is One && c.ty@ == foreign)
}

/// `rank` orders the tables so that every table refers to records of lower-ranked tables only.
pub open spec fn spec_ranked(db: stage2::Db, rank: spec_fn(Seq<char>) -> nat) -> bool {
    forall|t: int, f: int|
        0 <= t < db.tables@.len() && 0 <= f < db.tables@.len() && #[trigger] spec_refers_to(
            db.tables@[t],
            db.tables@[f].rs_name@,
        ) ==> rank(db.tables@[f].rs_name@) < rank(db.tables@[t].rs_name@)
}

/// The references between the tables of the database have no cycle, so that reading a record
/// with the records it refers to ends.
pub open spec fn spec_acyclic(db: stage2::Db) -> bool {
    exists|rank: spec_fn(Seq<char>) -> nat| spec_ranked(db, rank)
}

/// The rank of a table in an order of [`spec_acyclic`].
pub open spec fn spec_rank(db: stage2::Db, name: Seq<char>) -> nat {
    (choose|rank: spec_fn(Seq<char>) -> nat| spec_ranked(db, rank))(name)
}

/// The table is one of the database.
pub open spec fn spec_table_in(db: stage2::Db, table: stage2::Table) -> bool {
    exists|t: int| 0 <= t < db.tables@.len() && db.tables@[t] == table
}

/// The column is one of the table.
pub open spec fn spec_column_in(table: stage2::Table, column: stage2::Column) -> bool {
    exists|i: int|
        0 <= i < table.columns.spec_items().len() && table.columns.spec_items()[i] == column
}

/// Every table named `name` refers only to tables that `done` already ranks.
pub open spec fn spec_ready(db: stage2::Db, done: Seq<Option<usize>>, name: Seq<char>) -> bool {
    forall|g: int, f: int|
        0 <= g < db.tables@.len() && 0 <= f < db.tables@.len() && db.tables@[g].rs_name@ == name
            && #[trigger] spec_refers_to(db.tables@[g], db.tables@[f].rs_name@) ==> done[f] is Some
}

/// Whether a column of `table` refers to a record of the table named `name`.
fn refers_to(table: &stage2::Table, name: &String) -> (r: bool)
    ensures
        r == spec_refers_to(*table, name@),
{
    let items = table.columns.iter();
    let n = items.len();
    for k in 0..n
        invariant
            n == items@.len(),
            items@.len() == table.columns.spec_items().len(),
            forall|j: int| 0 <= j < n ==> *items@[j] == table.columns.spec_items()[j],
            forall|j: int|
                0 <= j < k ==> !((#[trigger] table.columns.spec_items()[j]).ty matches stage2::Ty::Compound(
                    c,
                ) && c.multiplicity is One && c.ty@ == name@),
    {
        if let stage2::Ty::Compound(c) = &items[k].ty {
            if let stage2::TyCompoundMultiplicity::One { .. } = &c.multiplicity {
                if c.ty == *name {
                    assert(table.columns.spec_items()[k as int] == *items@[k as int]);
                    return true;
                }
            }
        }
    }
    false
}

/// Whether every table named `name` refers only to tables that `done` already ranks.
fn is_ready(db: &stage2::Db, done: &Vec<Option<usize>>, name: &String) -> (r: bool)
    requires
        done@.len() == db.tables@.len(),
    ensures
        r == spec_ready(*db, done@, name@),
{
    let n = db.tables.len();
    for g in 0..n
        invariant
            n == db.tables@.len(),
            done@.len() == n,
            forall|g2: int, f: int|
                0 <= g2 < g && 0 <= f < n && db.tables@[g2].rs_name@ == name@
                    && #[trigger] spec_refers_to(db.tables@[g2], db.tables@[f].rs_name@)
                    ==> done@[f] is Some,
    {
        if db.tables[g].rs_name == *name {
            for f in 0..n
                invariant
                    n == db.tables@.len(),
                    done@.len() == n,
                    0 <= g < n,
                    db.tables@[g as int].rs_name@ == name@,
                    forall|f2: int|
                        0 <= f2 < f && #[trigger] spec_refers_to(
                            db.tables@[g as int],
                            db.tables@[f2].rs_name@,
                        ) ==> done@[f2] is Some,
            {
                if done[f].is_none() && refers_to(&db.tables[g], &db.tables[f].rs_name) {
                    return false;
                }
            }
        }
    }
    true
}

/// The positions that `done` ranks.
pub open spec fn spec_marked(done: Seq<Option<usize>>) -> Set<int> {
    Set::new(|i: int| 0 <= i < done.len() && done[i] is Some)
}

/// `done` ranks the tables consistently: below `count`, equally for equal names, and every
/// ranked table above the tables it refers to.
pub open spec fn spec_ranking(db: stage2::Db, done: Seq<Option<usize>>, count: usize) -> bool {
    &&& done.len() == db.tables@.len()
    &&& forall|i: int| 0 <= i < done.len() && done[i] is Some ==> done[i]->0 < count
    &&& forall|i: int, j: int|
        0 <= i < done.len() && 0 <= j < done.len() && db.tables@[i].rs_name@
            == db.tables@[j].rs_name@ ==> done[i] == done[j]
    &&& forall|t: int, f: int|
        0 <= t < done.len() && 0 <= f < done.len() && done[t] is Some
            && #[trigger] spec_refers_to(db.tables@[t], db.tables@[f].rs_name@) ==> done[f] is Some
            && done[f]->0 < done[t]->0
}

/// With every table ranked, the ranks order the tables.
proof fn lemma_ranking_acyclic(db: stage2::Db, done: Seq<Option<usize>>, count: usize)
    requires
        spec_ranking(db, done, count),
        forall|i: int| 0 <= i < done.len() ==> done[i] is Some,
    ensures
        spec_acyclic(db),
{
    let tables = db.tables@;
    let rank = |name: Seq<char>|
        if exists|i: int| 0 <= i < tables.len() && tables[i].rs_name@ == name {
            done[choose|i: int| 0 <= i < tables.len() && tables[i].rs_name@ == name]->0 as nat
        } else {
            0nat
        };
    assert forall|t: int, f: int|
        0 <= t < tables.len() && 0 <= f < tables.len() && #[trigger] spec_refers_to(
            tables[t],
            tables[f].rs_name@,
        ) implies rank(tables[f].rs_name@) < rank(tables[t].rs_name@) by {
        let it = choose|i: int| 0 <= i < tables.len() && tables[i].rs_name@ == tables[t].rs_name@;
        let jf = choose|i: int| 0 <= i < tables.len() && tables[i].rs_name@ == tables[f].rs_name@;
        assert(done[it] == done[t]);
        assert(done[jf] == done[f]);
    }
    assert(spec_ranked(db, rank));
}

/// When no unranked table is ready, no order ranks the tables: an unranked table of the
/// least rank would refer to an unranked table of still lower rank.
proof fn lemma_stuck_cyclic(db: stage2::Db, done: Seq<Option<usize>>, u: int)
    requires
        done.len() == db.tables@.len(),
        0 <= u < done.len(),
        done[u] is None,
        forall|i: int|
            0 <= i < done.len() && done[i] is None ==> !spec_ready(
                db,
                done,
                #[trigger] db.tables@[i].rs_name@,
            ),
    ensures
        !spec_acyclic(db),
{
    if spec_acyclic(db) {
        let rank = choose|rank: spec_fn(Seq<char>) -> nat| spec_ranked(db, rank);
        assert(spec_ranked(db, rank));
        lemma_stuck_rank_bound(db, done, rank, rank(db.tables@[u].rs_name@) + 1);
        assert(rank(db.tables@[u].rs_name@) >= rank(db.tables@[u].rs_name@) + 1);
    }
}

/// Every unranked table ranks at least `k` in an order of the tables, when none is ready.
proof fn lemma_stuck_rank_bound(
    db: stage2::Db,
    done: Seq<Option<usize>>,
    rank: spec_fn(Seq<char>) -> nat,
    k: nat,
)
    requires
        done.len() == db.tables@.len(),
        spec_ranked(db, rank),
        forall|i: int|
            0 <= i < done.len() && done[i] is None ==> !spec_ready(
                db,
                done,
                #[trigger] db.tables@[i].rs_name@,
            ),
    ensures
        forall|u: int|
            0 <= u < done.len() && done[u] is None ==> rank(#[trigger] db.tables@[u].rs_name@) >= k,
    decreases k,
{
    if k > 0 {
        lemma_stuck_rank_bound(db, done, rank, (k - 1) as nat);
        assert forall|u: int|
            0 <= u < done.len() && done[u] is None implies rank(
                #[trigger] db.tables@[u].rs_name@,
            ) >= k by {
            assert(!spec_ready(db, done, db.tables@[u].rs_name@));
            let (g, f) = choose|g: int, f: int|
                0 <= g < db.tables@.len() && 0 <= f < db.tables@.len() && db.tables@[g].rs_name@
                    == db.tables@[u].rs_name@ && #[trigger] spec_refers_to(
                    db.tables@[g],
                    db.tables@[f].rs_name@,
                ) && !(done[f] is Some);
            assert(rank(db.tables@[f].rs_name@) >= k - 1);
        }
    }
}

/// Whether the references between the tables have no cycle, so that reading a record with
/// the records it refers to ends: the tables are ranked in turn, each once every table it
/// refers to is ranked, until all are ranked or none is ready.
pub fn is_acyclic(db: &stage2::Db) -> (r: bool)
    ensures
        r == spec_acyclic(*db),
{
    let n = db.tables.len();
    let mut done: Vec<Option<usize>> = Vec::new();
    for i in 0..n
        invariant
            done@.len() == i,
            forall|k: int| 0 <= k < i ==> done@[k] is None,
    {
        done.push(None);
    }
    let mut count: usize = 0;
    proof {
        lemma_int_range(0, n as int);
        assert(spec_marked(done@) =~= Set::empty());
    }
    loop
        invariant
            n == db.tables@.len(),
            spec_ranking(*db, done@, count),
            spec_marked(done@).finite(),
            count <= spec_marked(done@).len() <= n,
        ensures
            n == db.tables@.len(),
            spec_ranking(*db, done@, count),
            forall|j: int|
                0 <= j < n && done@[j] is None ==> !spec_ready(
                    *db,
                    done@,
                    #[trigger] db.tables@[j].rs_name@,
                ),
        decreases n - count,
    {
        let ghost start = done@;
        let ghost start_count = count;
        let mut progress = false;
        for i in 0..n
            invariant
                n == db.tables@.len(),
                spec_ranking(*db, done@, count),
                spec_marked(done@).finite(),
                count <= spec_marked(done@).len() <= n,
                start_count <= count,
                progress ==> start_count < count,
                !progress ==> done@ == start,
                !progress ==> forall|k: int|
                    0 <= k < i && done@[k] is None ==> !spec_ready(
                        *db,
                        done@,
                        #[trigger] db.tables@[k].rs_name@,
                    ),
        {
            if done[i].is_none() && is_ready(db, &done, &db.tables[i].rs_name) {
                let ghost before = done@;
                let name = &db.tables[i].rs_name;
                for j in 0..n
                    invariant
                        n == db.tables@.len(),
                        done@.len() == n,
                        0 <= i < n,
                        *name == db.tables@[i as int].rs_name,
                        forall|k: int|
                            0 <= k < j ==> done@[k] == (if db.tables@[k].rs_name@ == name@ {
                                Some(count)
                            } else {
                                before[k]
                            }),
                        forall|k: int| j <= k < n ==> done@[k] == before[k],
                {
                    if db.tables[j].rs_name == *name {
                        done.set(j, Some(count));
                    }
                }
                proof {
                    let nm = db.tables@[i as int].rs_name@;
                    assert forall|k: int| 0 <= k < n && db.tables@[k].rs_name@ == nm implies before[k]
                        is None by {
                        assert(before[k] == before[i as int]);
                    }
                    assert forall|t: int, f: int|
                        0 <= t < n && 0 <= f < n && done@[t] is Some && #[trigger] spec_refers_to(
                            db.tables@[t],
                            db.tables@[f].rs_name@,
                        ) implies done@[f] is Some && done@[f]->0 < done@[t]->0 by {
                        if db.tables@[t].rs_name@ == nm {
                            assert(before[f] is Some);
                        }
                    }
                    lemma_int_range(0, n as int);
                    let old_marked = spec_marked(before);
                    let new_marked = spec_marked(done@);
                    assert(old_marked.insert(i as int).subset_of(new_marked));
                    assert(new_marked.subset_of(set_int_range(0, n as int)));
                    lemma_len_subset(new_marked, set_int_range(0, n as int));
                    lemma_len_subset(old_marked.insert(i as int), new_marked);
                }
                count = count + 1;
                progress = true;
            }
        }
        if !progress {
            break;
        }
    }
    let mut k: usize = 0;
    while k < n
        invariant
            n == db.tables@.len(),
            spec_ranking(*db, done@, count),
            k <= n,
            forall|j: int| 0 <= j < k ==> done@[j] is Some,
            forall|j: int|
                0 <= j < n && done@[j] is None ==> !spec_ready(
                    *db,
                    done@,
                    #[trigger] db.tables@[j].rs_name@,
                ),
        decreases n - k,
    {
        if done[k].is_none() {
            proof {
                lemma_stuck_cyclic(*db, done@, k as int);
            }
            return false;
        }
        k = k + 1;
    }
    proof {
        lemma_ranking_acyclic(*db, done@, count);
    }
    true
}

/// The alias of the foreign table that `column` of the table aliased `ext` joins.
pub open spec fn spec_foreign_ext(ext: Seq<char>, foreign: Seq<char>, column: Seq<char>) -> Seq<
    char,
> {
    spec_name_extern(spec_name_extern(ext, foreign), column)
}

/// The messages of what is wrong with reading `column` of `table`, aliased `ext`:
/// a foreign table that does not exist or has no identifier, and what is wrong with
/// reading the foreign table in turn; a many-to-many column of a table without identifier.
pub open spec fn spec_getter_errors(
    db: stage2::Db,
    table: stage2::Table,
    ext: Seq<char>,
    column: stage2::Column,
) -> Seq<Seq<char>>
    decreases spec_rank(db, table.rs_name@), 0int, 0int,
{
    match column.ty {
        stage2::Ty::Element(_) => seq![],
        stage2::Ty::Compound(c) => match c.multiplicity {
            stage2::TyCompoundMultiplicity::One { .. } => match stage2::spec_find_table(
                db.tables@,
                c.ty@,
            ) {
                None => seq![stage2::TABLE_DOES_NOT_EXIST@],
                Some(k) => {
                    let foreign = db.tables@[k];
                    if foreign.columns is Model {
                        if spec_rank(db, foreign.rs_name@) < spec_rank(db, table.rs_name@) {
                            spec_items_errors(
                                db,
                                foreign,
                                spec_foreign_ext(ext, foreign.name@, column.name@),
                                foreign.columns.spec_items(),
                            )
                        } else {
                            seq![]
                        }
                    } else {
                        seq![TABLE_MUST_HAVE_ID@]
                    }
                },
            },
            stage2::TyCompoundMultiplicity::Many { .. } => if table.columns is Model {
                seq![]
            } else {
                seq![TABLE_MUST_HAVE_ID@]
            },
        },
    }
}

/// The messages of what is wrong with reading each of `items` of `table`, in order.
pub open spec fn spec_items_errors(
    db: stage2::Db,
    table: stage2::Table,
    ext: Seq<char>,
    items: Seq<stage2::Column>,
) -> Seq<Seq<char>>
    decreases spec_rank(db, table.rs_name@), 1int, items.len(),
{
    if items.len() == 0 {
        seq![]
    } else {
        spec_items_errors(db, table, ext, items.drop_last()) + spec_getter_errors(
            db,
            table,
            ext,
            items.last(),
        )
    }
}

/// `getter` reads `column` of `table`, aliased `ext`: a value column under its name and
/// alias; a foreign column by joining the foreign table under its own alias and reading its
/// columns in turn; a many-to-many column from the intermediate table, by the table's
/// identifier.
pub open spec fn spec_getter_of<'a>(
    db: stage2::Db,
    table: stage2::Table,
    ext: Seq<char>,
    column: stage2::Column,
    getter: ResponseColumnGetter<'a>,
) -> bool
    decreases spec_rank(db, table.rs_name@), 0int, 0int,
{
    let ni = spec_name_intern(ext, column.name@);
    let ne = spec_name_extern(ext, column.name@);
    match column.ty {
        stage2::Ty::Element(e) => getter matches ResponseColumnGetter::Molecule(
            ResponseColumnGetterMolecule::Element(g),
        ) && g.name_intern@ == ni && g.name_extern@ == ne && g.is_optional == e.spec_optional()
            && *g.rs_name == column.rs_name,
        stage2::Ty::Compound(c) => match c.multiplicity {
            stage2::TyCompoundMultiplicity::One { optional, .. } => match stage2::spec_find_table(
                db.tables@,
                c.ty@,
            ) {
                None => false,
                Some(k) => {
                    let foreign = db.tables@[k];
                    let fext = spec_foreign_ext(ext, foreign.name@, column.name@);
                    match foreign.columns {
                        Columns::Model { id, .. } => if spec_rank(db, foreign.rs_name@) < spec_rank(
                            db,
                            table.rs_name@,
                        ) {
                            getter matches ResponseColumnGetter::Molecule(
                                ResponseColumnGetterMolecule::Compound(g),
                            ) && g.name_intern@ == ni && g.foreign_table_name_intern@
                                == spec_name_intern(db.name@, foreign.name@)
                                && g.foreign_table_name_extern@ == fext
                                && g.foreign_table_id_name_intern@ == spec_name_intern(
                                fext,
                                id.name@,
                            ) && g.is_optional == optional && *g.rs_name == column.rs_name
                                && *g.foreign_table_rs_name == foreign.rs_name
                                && spec_items_getters(
                                db,
                                foreign,
                                fext,
                                foreign.columns.spec_items(),
                                g.columns@,
                            )
                        } else {
                            false
                        },
                        _ => false,
                    }
                },
            },
            stage2::TyCompoundMultiplicity::Many { model_rs_name, aggregate_rs_name } => match table.columns {
                Columns::Model { id, .. } => getter matches ResponseColumnGetter::Collection(g)
                    && *g.rs_name == column.rs_name && *g.aggregate_rs_name == (match aggregate_rs_name {
                    Some(a) => a,
                    None => table.rs_name,
                }) && g.table_id_name_extern@ == spec_name_extern(ext, id.name@)
                    && *g.many_foreign_table_rs_name == model_rs_name,
                _ => false,
            },
        },
    }
}

/// `getters` read each of `items` of `table`, in order.
pub open spec fn spec_items_getters<'a>(
    db: stage2::Db,
    table: stage2::Table,
    ext: Seq<char>,
    items: Seq<stage2::Column>,
    getters: Seq<ResponseColumnGetter<'a>>,
) -> bool
    decreases spec_rank(db, table.rs_name@), 1int, items.len(),
{
    if items.len() == 0 {
        getters.len() == 0
    } else {
        getters.len() == items.len() && spec_items_getters(
            db,
            table,
            ext,
            items.drop_last(),
            getters.drop_last(),
        ) && spec_getter_of(db, table, ext, items.last(), getters.last())
    }
}

/// The foreign table that a column refers to ranks lower than the column's table.
proof fn lemma_foreign_ranks_lower(
    db: stage2::Db,
    table: stage2::Table,
    column: stage2::Column,
    k: int,
)
    requires
        spec_acyclic(db),
        spec_table_in(db, table),
        spec_column_in(table, column),
        (column.ty matches stage2::Ty::Compound(c) && c.multiplicity is One
            && stage2::spec_find_table(db.tables@, c.ty@) == Some(k)),
    ensures
        0 <= k < db.tables@.len(),
        spec_rank(db, db.tables@[k].rs_name@) < spec_rank(db, table.rs_name@),
{
    let c = column.ty->Compound_0;
    stage2::lemma_find_table_found(db.tables@, c.ty@);
    let t = choose|t: int| 0 <= t < db.tables@.len() && db.tables@[t] == table;
    let i = choose|i: int|
        0 <= i < table.columns.spec_items().len() && table.columns.spec_items()[i] == column;
    assert(spec_refers_to(db.tables@[t], db.tables@[k].rs_name@)) by {
        assert(table.columns.spec_items()[i] == column);
    }
    let rank = choose|rank: spec_fn(Seq<char>) -> nat| spec_ranked(db, rank);
    assert(spec_ranked(db, rank));
}

/// The getter of `column` of `table`, aliased `ext`.
fn getter_of<'a>(
    ext: &str,
    table: &'a stage2::Table,
    db: &'a stage2::Db,
    column: &'a stage2::Column,
) -> (r: Result<ResponseColumnGetter<'a>, SynError>)
    requires
        spec_acyclic(*db),
        spec_table_in(*db, *table),
        spec_column_in(*table, *column),
    ensures
        spec_getter_errors(*db, *table, ext@, *column).len() == 0 ==> (r matches Ok(g)
            && spec_getter_of(*db, *table, ext@, *column, g)),
        spec_getter_errors(*db, *table, ext@, *column).len() > 0 ==> (r matches Err(e)
            && e.message_views() == spec_getter_errors(*db, *table, ext@, *column)),
    decreases spec_rank(*db, table.rs_name@), 0int, 0int,
{
    let (column_name_intern, column_name_extern) = name_intern_extern((ext, column.name.as_str()));
    match &column.ty {
        stage2::Ty::Element(element) => Ok(
            ResponseColumnGetter::Molecule(
                ResponseColumnGetterMolecule::Element(
                    ResponseColumnGetterElement {
                        name_intern: column_name_intern,
                        name_extern: column_name_extern,
                        is_optional: element.optional(),
                        rs_name: &column.rs_name,
                    },
                ),
            ),
        ),
        stage2::Ty::Compound(compound) => match &compound.multiplicity {
            stage2::TyCompoundMultiplicity::One { optional, .. } => {
                let foreign = match stage2::find_table(&db.tables, &compound.ty) {
                    Ok(foreign) => foreign,
                    Err(e) => return Err(e),
                };
                let ghost k = stage2::spec_find_table(db.tables@, compound.ty@)->Some_0;
                let foreign_id = match foreign.columns.model() {
                    Some(id) => id,
                    None => return Err(SynError::new(TABLE_MUST_HAVE_ID)),
                };
                proof {
                    lemma_foreign_ranks_lower(*db, *table, *column, k);
                    assert(spec_table_in(*db, *foreign));
                }
                let foreign_table_name_intern = name_intern((db.name.as_str(), foreign.name.as_str()));
                let foreign_table_name_extern = name_extern_triple(
                    (ext, foreign.name.as_str(), column.name.as_str()),
                );
                let foreign_table_id_name_intern = name_intern(
                    (foreign_table_name_extern.as_str(), foreign_id.name.as_str()),
                );
                let columns = match traverse(foreign_table_name_extern.as_str(), foreign, db) {
                    Ok(columns) => columns,
                    Err(e) => return Err(e),
                };
                Ok(
                    ResponseColumnGetter::Molecule(
                        ResponseColumnGetterMolecule::Compound(
                            ResponseColumnGetterCompound {
                                name_intern: column_name_intern,
                                foreign_table_id_name_intern,
                                foreign_table_name_intern,
                                foreign_table_name_extern,
                                is_optional: *optional,
                                rs_name: &column.rs_name,
                                foreign_table_rs_name: &foreign.rs_name,
                                columns,
                            },
                        ),
                    ),
                )
            },
            stage2::TyCompoundMultiplicity::Many { model_rs_name, aggregate_rs_name } => {
                let aggregate_rs_name = match aggregate_rs_name {
                    Some(a) => a,
                    None => &table.rs_name,
                };
                let table_id = match table.columns.model() {
                    Some(id) => id,
                    None => return Err(SynError::new(TABLE_MUST_HAVE_ID)),
                };
                let table_id_name_extern = name_extern((ext, table_id.name.as_str()));
                Ok(
                    ResponseColumnGetter::Collection(
                        ResponseColumnGetterCollection {
                            rs_name: &column.rs_name,
                            aggregate_rs_name,
                            table_id_name_extern,
                            many_foreign_table_rs_name: model_rs_name,
                        },
                    ),
                )
            },
        },
    }
}

/// The getters of all the columns of `table`, aliased `ext`, in order; or the errors of all.
fn traverse<'a>(ext: &str, table: &'a stage2::Table, db: &'a stage2::Db) -> (r: Result<
    Vec<ResponseColumnGetter<'a>>,
    SynError,
>)
    requires
        spec_acyclic(*db),
        spec_table_in(*db, *table),
    ensures
        spec_items_errors(*db, *table, ext@, table.columns.spec_items()).len() == 0 ==> (r matches Ok(
            gs,
        ) && spec_items_getters(*db, *table, ext@, table.columns.spec_items(), gs@)),
        spec_items_errors(*db, *table, ext@, table.columns.spec_items()).len() > 0 ==> (r matches Err(
            e,
        ) && e.message_views() == spec_items_errors(
            *db,
            *table,
            ext@,
            table.columns.spec_items(),
        )),
    decreases spec_rank(*db, table.rs_name@), 1int, 0int,
{
    let items = table.columns.iter();
    let ghost all = table.columns.spec_items();
    let n = items.len();
    let mut errors: Option<SynError> = None;
    let mut getters: Vec<ResponseColumnGetter<'a>> = Vec::new();
    let mut j: usize = 0;
    while j < n
        invariant
            j <= n,
            n == all.len(),
            items@.len() == n,
            forall|k: int| 0 <= k < n ==> *items@[k] == all[k],
            all == table.columns.spec_items(),
            spec_acyclic(*db),
            spec_table_in(*db, *table),
            errors is None <==> spec_items_errors(*db, *table, ext@, all.take(j as int)).len() == 0,
            errors matches Some(e) ==> e.message_views() == spec_items_errors(
                *db,
                *table,
                ext@,
                all.take(j as int),
            ),
            errors is None ==> spec_items_getters(*db, *table, ext@, all.take(j as int), getters@),
        decreases n - j,
    {
        let ghost prefix = all.take(j as int);
        let ghost next = all.take(j + 1);
        assert(next.drop_last() =~= prefix);
        assert(next.last() == all[j as int]);
        let column = items[j];
        assert(spec_column_in(*table, *column));
        match getter_of(ext, table, db, column) {
            Ok(getter) => {
                assert(spec_items_errors(*db, *table, ext@, next) =~= spec_items_errors(
                    *db,
                    *table,
                    ext@,
                    prefix,
                ));
                if errors.is_none() {
                    let ghost before = getters@;
                    getters.push(getter);
                    assert(getters@.drop_last() =~= before);
                }
            },
            Err(e) => {
                match errors {
                    Some(mut errs) => {
                        errs.combine(e);
                        errors = Some(errs);
                    },
                    None => {
                        assert(spec_items_errors(*db, *table, ext@, next) =~= e.message_views());
                        errors = Some(e);
                    },
                }
            },
        }
        j = j + 1;
    }
    assert(all.take(n as int) =~= all);
    match errors {
        Some(e) => Err(e),
        None => Ok(getters),
    }
}

/// A segment `ident` without arguments.
fn bare_segment(ident: &str) -> (r: PathSegment)
    ensures
        stage1::is_bare_segment(r, ident@),
{
    PathSegment { ident: String::from_str(ident), arguments: PathArguments::Bare }
}

/// The type named by the single identifier `ident`.
fn ident_type(ident: &str) -> (r: Type)
    ensures
        stage1::is_path1(r, ident@),
{
    let mut segments: Vec<PathSegment> = Vec::new();
    segments.push(bare_segment(ident));
    Type::Path(TypePath { qself: None, leading_colon: false, segments })
}

/// The type `ident<arg>`, such as `Option<T>`.
pub open spec fn spec_is_generic(ty: Type, ident: Seq<char>, arg: Type) -> bool {
    match spec_path_segments_from_type(ty) {
        Some(segments) => match spec_type_single_arg_from_path_segments(segments@) {
            Some((i, a)) => i@ == ident && a == arg,
            None => false,
        },
        None => false,
    }
}

/// The type `ident<arg>`, such as `Option<T>`.
fn generic_type(ident: &str, arg: Type) -> (r: Type)
    ensures
        spec_is_generic(r, ident@, arg),
{
    let mut args: Vec<GenericArgument> = Vec::new();
    args.push(GenericArgument::Type(arg));
    let mut segments: Vec<PathSegment> = Vec::new();
    segments.push(
        PathSegment { ident: String::from_str(ident), arguments: PathArguments::AngleBracketed(args) },
    );
    Type::Path(TypePath { qself: None, leading_colon: false, segments })
}

/// The type of the requests of the intermediate table `model` of a many-to-many column,
/// aggregated by `aggregate`: `<model as ::laraxum::ManyModel<aggregate>>::ManyRequest`.
pub open spec fn spec_is_many_request(ty: Type, model: Seq<char>, aggregate: Seq<char>) -> bool {
    match ty {
        Type::Path(p) => match p.qself {
            Some(q) => {
                &&& q.position == 2
                &&& stage1::is_path1(*q.ty, model)
                &&& p.leading_colon
                &&& p.segments@.len() == 3
                &&& stage1::is_bare_segment(p.segments@[0], "laraxum"@)
                &&& p.segments@[1].ident@ == "ManyModel"@
                &&& match p.segments@[1].arguments {
                    PathArguments::AngleBracketed(args) => {
                        &&& args@.len() == 1
                        &&& match args@[0] {
                            GenericArgument::Type(a) => stage1::is_path1(a, aggregate),
                            GenericArgument::Other(_) => false,
                        }
                    },
                    _ => false,
                }
                &&& stage1::is_bare_segment(p.segments@[2], "ManyRequest"@)
            },
            None => false,
        },
        Type::Other(_) => false,
    }
}

/// The request type of a many-to-many column: `Vec` of the requests of the intermediate table.
fn many_request_type(model: &str, aggregate: &str) -> (r: Type)
    ensures
        spec_is_many_request_field(r, model@, aggregate@),
{
    let mut args: Vec<GenericArgument> = Vec::new();
    args.push(GenericArgument::Type(ident_type(aggregate)));
    let mut segments: Vec<PathSegment> = Vec::new();
    segments.push(bare_segment("laraxum"));
    segments.push(
        PathSegment {
            ident: String::from_str("ManyModel"),
            arguments: PathArguments::AngleBracketed(args),
        },
    );
    segments.push(bare_segment("ManyRequest"));
    let qself = QSelf { ty: Box::new(ident_type(model)), position: 2 };
    let inner = Type::Path(TypePath { qself: Some(qself), leading_colon: true, segments });
    proof {
        reveal_strlit("ManyModel");
    }
    generic_type("Vec", inner)
}

/// The request field type of a foreign column: the type of the foreign identifier,
/// in `Option` when the column is optional.
pub open spec fn spec_is_foreign_request(ty: Type, id_ty: Type, optional: bool) -> bool {
    if optional {
        match spec_path_segments_from_type(ty) {
            Some(segments) => match spec_type_single_arg_from_path_segments(segments@) {
                Some((i, a)) => i@ == "Option"@ && same_type(id_ty, a),
                None => false,
            },
            None => false,
        }
    } else {
        ty == id_ty
    }
}

/// What every stored column keeps of its column of the schema.
pub open spec fn spec_molecule_common<'a>(src: stage2::Column, m: ColumnMolecule<'a>) -> bool {
    &&& *m.create.name == src.name
    &&& *m.response.field.rs_name == src.rs_name
    &&& *m.response.field.rs_ty == *src.rs_ty
    &&& *m.response.field.attr == src.response
    &&& *m.response.field.rs_attrs == src.rs_attrs
    &&& *m.aggregates == src.aggregates
    &&& match src.borrow {
        None => m.borrow is None,
        Some(None) => m.borrow == Some(None::<&Type>),
        Some(Some(t)) => m.borrow matches Some(Some(r)) && *r == *t,
    }
    &&& match src.struct_name {
        None => m.struct_name is None,
        Some(n) => m.struct_name matches Some(r) && *r == n,
    }
}

/// The request field and setter of a stored column that requests set.
pub open spec fn spec_mutable_of<'a>(
    src: stage2::Column,
    mm: RequestColumnMoleculeMutable<'a>,
    is_optional: bool,
) -> bool {
    &&& *mm.field.rs_name == src.rs_name
    &&& *mm.field.attr == src.request
    &&& *mm.field.rs_attrs == src.rs_attrs
    &&& *mm.setter.rs_name == src.rs_name
    &&& *mm.setter.name == src.name
    &&& mm.setter.is_optional == is_optional
    &&& mm.setter.is_mut
    &&& *mm.setter.validate == src.validate
}

/// `column` is `src` of `table`, aliased `ext`, resolved against the database: how it is
/// created, read ([`spec_getter_of`]) and written.
pub open spec fn spec_column_of<'a>(
    db: stage2::Db,
    table: stage2::Table,
    ext: Seq<char>,
    src: stage2::Column,
    column: Column<'a>,
) -> bool {
    match src.ty {
        stage2::Ty::Element(e) => match column {
            Column::Molecule(m) => {
                &&& spec_molecule_common(src, m)
                &&& m.create.ty == TyMolecule::Element(e)
                &&& spec_getter_of(
                    db,
                    table,
                    ext,
                    src,
                    ResponseColumnGetter::Molecule(m.response.getter),
                )
                &&& match e {
                    TyElement::Value(_) => match m.request {
                        Some(RequestColumnMolecule::Mutable(mm)) => {
                            &&& spec_mutable_of(src, mm, e.spec_optional())
                            &&& mm.field.rs_ty.value() == *src.rs_ty
                        },
                        _ => false,
                    },
                    TyElement::AutoTime(auto_time) => if auto_time.event is OnUpdate {
                        match m.request {
                            Some(RequestColumnMolecule::OnUpdate(u)) => *u.name == src.name
                                && u.time_ty == auto_time.ty,
                            _ => false,
                        }
                    } else {
                        m.request is None
                    },
                    TyElement::Id => m.request is None,
                }
            },
            Column::Collection(_) => false,
        },
        stage2::Ty::Compound(c) => match c.multiplicity {
            stage2::TyCompoundMultiplicity::One { optional, unique } => match stage2::spec_find_table(
                db.tables@,
                c.ty@,
            ) {
                Some(k) => match db.tables@[k].columns {
                    Columns::Model { id, .. } => match column {
                        Column::Molecule(m) => {
                            &&& spec_molecule_common(src, m)
                            &&& m.create.ty == TyMolecule::Compound(
                                TyCompound {
                                    foreign_table_name: &db.tables@[k].name,
                                    foreign_table_id_name: &id.name,
                                    ty: AtomicTyInt::u64,
                                    is_optional: optional,
                                    is_unique: unique,
                                },
                            )
                            &&& spec_getter_of(
                                db,
                                table,
                                ext,
                                src,
                                ResponseColumnGetter::Molecule(m.response.getter),
                            )
                            &&& match m.request {
                                Some(RequestColumnMolecule::Mutable(mm)) => {
                                    &&& spec_mutable_of(src, mm, optional)
                                    &&& spec_is_foreign_request(
                                        mm.field.rs_ty.value(),
                                        *id.rs_ty,
                                        optional,
                                    )
                                },
                                _ => false,
                            }
                        },
                        Column::Collection(_) => false,
                    },
                    _ => false,
                },
                None => false,
            },
            stage2::TyCompoundMultiplicity::Many { model_rs_name, aggregate_rs_name } => {
                let aggregate = match aggregate_rs_name {
                    Some(a) => a,
                    None => table.rs_name,
                };
                match column {
                    Column::Collection(cc) => {
                        &&& spec_getter_of(
                            db,
                            table,
                            ext,
                            src,
                            ResponseColumnGetter::Collection(cc.response.getter),
                        )
                        &&& *cc.response.field.rs_name == src.rs_name
                        &&& *cc.response.field.rs_ty == *src.rs_ty
                        &&& *cc.response.field.attr == src.response
                        &&& *cc.response.field.rs_attrs == src.rs_attrs
                        &&& *cc.request.field.rs_name == src.rs_name
                        &&& *cc.request.field.attr == src.request
                        &&& *cc.request.field.rs_attrs == src.rs_attrs
                        &&& spec_is_many_request_field(
                            cc.request.field.rs_ty.value(),
                            model_rs_name@,
                            aggregate@,
                        )
                        &&& *cc.request.setter.rs_name == src.rs_name
                        &&& *cc.request.setter.aggregate_rs_name == aggregate
                        &&& *cc.request.setter.many_foreign_table_rs_name == model_rs_name
                        &&& match src.struct_name {
                            None => cc.struct_name is None,
                            Some(n) => match cc.struct_name {
                                Some(r) => *r == n,
                                None => false,
                            },
                        }
                    },
                    Column::Molecule(_) => false,
                }
            },
        },
    }
}

/// The request field type of a many-to-many column: `Vec` of the requests of the
/// intermediate table.
pub open spec fn spec_is_many_request_field(ty: Type, model: Seq<char>, aggregate: Seq<char>) -> bool {
    match spec_path_segments_from_type(ty) {
        Some(segments) => match spec_type_single_arg_from_path_segments(segments@) {
            Some((i, a)) => i@ == "Vec"@ && spec_is_many_request(a, model, aggregate),
            None => false,
        },
        None => false,
    }
}

/// A column of `table`, aliased `ext`, resolved against the database.
fn column_of<'a>(
    ext: &str,
    table: &'a stage2::Table,
    db: &'a stage2::Db,
    column: &'a stage2::Column,
) -> (r: Result<Column<'a>, SynError>)
    requires
        spec_acyclic(*db),
        spec_table_in(*db, *table),
        spec_column_in(*table, *column),
    ensures
        spec_getter_errors(*db, *table, ext@, *column).len() == 0 ==> (r matches Ok(c)
            && spec_column_of(*db, *table, ext@, *column, c)),
        spec_getter_errors(*db, *table, ext@, *column).len() > 0 ==> (r matches Err(e)
            && e.message_views() == spec_getter_errors(*db, *table, ext@, *column)),
{
    let getter = match getter_of(ext, table, db, column) {
        Ok(getter) => getter,
        Err(e) => return Err(e),
    };
    let borrow = match &column.borrow {
        None => None,
        Some(None) => Some(None),
        Some(Some(t)) => Some(Some(&**t)),
    };
    let struct_name = match &column.struct_name {
        Some(n) => Some(n),
        None => None,
    };
    let response_field = ResponseColumnField {
        rs_name: &column.rs_name,
        rs_ty: &*column.rs_ty,
        attr: &column.response,
        rs_attrs: &column.rs_attrs,
    };
    match getter {
        ResponseColumnGetter::Molecule(getter) => match &column.ty {
            stage2::Ty::Element(element) => {
                let request = match element {
                    TyElement::Value(_) => Some(
                        RequestColumnMolecule::Mutable(
                            RequestColumnMoleculeMutable {
                                field: RequestColumnField {
                                    rs_name: &column.rs_name,
                                    rs_ty: CowBoxDeref::Borrowed(&*column.rs_ty),
                                    attr: &column.request,
                                    rs_attrs: &column.rs_attrs,
                                },
                                setter: RequestColumnSetterMolecule {
                                    rs_name: &column.rs_name,
                                    name: &column.name,
                                    is_optional: element.optional(),
                                    is_mut: true,
                                    validate: &column.validate,
                                },
                            },
                        ),
                    ),
                    TyElement::AutoTime(auto_time) => match auto_time.event {
                        AutoTimeEvent::OnUpdate => Some(
                            RequestColumnMolecule::OnUpdate(
                                RequestColumnMoleculeOnUpdate {
                                    name: &column.name,
                                    time_ty: auto_time.ty,
                                },
                            ),
                        ),
                        AutoTimeEvent::OnCreate => None,
                    },
                    TyElement::Id => None,
                };
                Ok(
                    Column::Molecule(
                        ColumnMolecule {
                            create: CreateColumn { name: &column.name, ty: TyMolecule::Element(*element) },
                            response: ResponseColumnMolecule { field: response_field, getter },
                            request,
                            aggregates: &column.aggregates,
                            borrow,
                            struct_name,
                        },
                    ),
                )
            },
            stage2::Ty::Compound(compound) => {
                let (optional, unique) = match &compound.multiplicity {
                    stage2::TyCompoundMultiplicity::One { optional, unique } => (*optional, *unique),
                    stage2::TyCompoundMultiplicity::Many { .. } => {
                        assert(false);
                        (false, false)
                    },
                };
                let foreign = match stage2::find_table(&db.tables, &compound.ty) {
                    Ok(foreign) => foreign,
                    Err(e) => {
                        assert(false);
                        return Err(e);
                    },
                };
                let foreign_id = match foreign.columns.model() {
                    Some(id) => id,
                    None => {
                        assert(false);
                        return Err(SynError::new(TABLE_MUST_HAVE_ID));
                    },
                };
                let rs_ty = if optional {
                    CowBoxDeref::Owned(Box::new(generic_type("Option", clone_type(&foreign_id.rs_ty))))
                } else {
                    CowBoxDeref::Borrowed(&*foreign_id.rs_ty)
                };
                proof {
                    reveal_strlit("Option");
                }
                Ok(
                    Column::Molecule(
                        ColumnMolecule {
                            create: CreateColumn {
                                name: &column.name,
                                ty: TyMolecule::Compound(
                                    TyCompound {
                                        foreign_table_name: &foreign.name,
                                        foreign_table_id_name: &foreign_id.name,
                                        ty: AtomicTyInt::u64,
                                        is_optional: optional,
                                        is_unique: unique,
                                    },
                                ),
                            },
                            response: ResponseColumnMolecule { field: response_field, getter },
                            request: Some(
                                RequestColumnMolecule::Mutable(
                                    RequestColumnMoleculeMutable {
                                        field: RequestColumnField {
                                            rs_name: &column.rs_name,
                                            rs_ty,
                                            attr: &column.request,
                                            rs_attrs: &column.rs_attrs,
                                        },
                                        setter: RequestColumnSetterMolecule {
                                            rs_name: &column.rs_name,
                                            name: &column.name,
                                            is_optional: optional,
                                            is_mut: true,
                                            validate: &column.validate,
                                        },
                                    },
                                ),
                            ),
                            aggregates: &column.aggregates,
                            borrow,
                            struct_name,
                        },
                    ),
                )
            },
        },
        ResponseColumnGetter::Collection(getter) => {
            let setter = RequestColumnSetterCollection {
                rs_name: getter.rs_name,
                aggregate_rs_name: getter.aggregate_rs_name,
                many_foreign_table_rs_name: getter.many_foreign_table_rs_name,
            };
            let many_request = many_request_type(
                getter.many_foreign_table_rs_name.as_str(),
                getter.aggregate_rs_name.as_str(),
            );
            proof {
                reveal_strlit("Vec");
            }
            Ok(
                Column::Collection(
                    ColumnCollection {
                        response: ResponseColumnCollection { field: response_field, getter },
                        request: RequestColumnCollection {
                            field: RequestColumnField {
                                rs_name: &column.rs_name,
                                rs_ty: CowBoxDeref::Owned(Box::new(many_request)),
                                attr: &column.request,
                                rs_attrs: &column.rs_attrs,
                            },
                            setter,
                        },
                        struct_name,
                    },
                ),
            )
        },
    }
}

/// A table resolved against the database.
pub struct Table<'a> {
    /// the table's name in queries: `database.table`
    pub name_intern: String,
    /// the table's alias in queries: `database__table`
    pub name_extern: String,
    pub rs_name: &'a String,
    pub create_request_rs_name: String,
    pub update_request_rs_name: String,
    pub patch_request_rs_name: String,
    pub request_error_rs_name: String,
    pub aggregate_rs_name: Option<&'a String>,
    pub db_rs_name: &'a String,
    pub rs_attrs: &'a Vec<String>,
    pub columns: Columns<Column<'a>, ColumnMolecule<'a>, &'a stage2::Controller>,
}

/// The column is a many-to-many column.
pub open spec fn spec_is_collection(column: stage2::Column) -> bool {
    column.ty matches stage2::Ty::Compound(c) && c.multiplicity is Many
}

/// The alias of a table in queries: `database__table`.
pub open spec fn spec_table_ext(db: stage2::Db, table: stage2::Table) -> Seq<char> {
    spec_name_extern(db.name@, table.name@)
}

/// The messages of what is wrong with resolving a stored column: what is wrong with reading
/// it, else that it is a many-to-many column.
pub open spec fn spec_molecule_errors(
    db: stage2::Db,
    table: stage2::Table,
    column: stage2::Column,
) -> Seq<Seq<char>> {
    let errors = spec_getter_errors(db, table, spec_table_ext(db, table), column);
    if errors.len() > 0 {
        errors
    } else if spec_is_collection(column) {
        seq![COLUMN_MUST_NOT_BE_COLLECTION@]
    } else {
        seq![]
    }
}

/// The messages of what is wrong with resolving a table: those of its other columns together,
/// after the first error of its identifier column or of the two columns of a many-to-many
/// model, which must be stored in their table.
pub open spec fn spec_table_errors(db: stage2::Db, table: stage2::Table) -> Seq<Seq<char>> {
    let ext = spec_table_ext(db, table);
    match table.columns {
        Columns::CollectionOnly { columns } => spec_items_errors(db, table, ext, columns@),
        Columns::Model { id, columns, .. } => {
            let errors = spec_molecule_errors(db, table, id);
            if errors.len() > 0 {
                errors
            } else {
                spec_items_errors(db, table, ext, columns@)
            }
        },
        Columns::ManyModel { a, b } => {
            let errors = spec_molecule_errors(db, table, a);
            if errors.len() > 0 {
                errors
            } else {
                spec_molecule_errors(db, table, b)
            }
        },
    }
}

/// `columns` are `src` of `table` resolved against the database, in order.
pub open spec fn spec_columns_of<'a>(
    db: stage2::Db,
    table: stage2::Table,
    src: Seq<stage2::Column>,
    columns: Seq<Column<'a>>,
) -> bool {
    &&& columns.len() == src.len()
    &&& forall|i: int|
        0 <= i < src.len() ==> spec_column_of(
            db,
            table,
            spec_table_ext(db, table),
            src[i],
            #[trigger] columns[i],
        )
}

/// `t` is `table` resolved against the database: named in queries after the database, with
/// the names of its request types after its own, and each column resolved.
pub open spec fn spec_table_of<'a>(db: stage2::Db, table: stage2::Table, t: Table<'a>) -> bool {
    let ext = spec_table_ext(db, table);
    &&& t.name_intern@ == spec_name_intern(db.name@, table.name@)
    &&& t.name_extern@ == ext
    &&& *t.rs_name == table.rs_name
    &&& t.create_request_rs_name@ == table.rs_name@ + "CreateRequest"@
    &&& t.update_request_rs_name@ == table.rs_name@ + "UpdateRequest"@
    &&& t.patch_request_rs_name@ == table.rs_name@ + "PatchRequest"@
    &&& t.request_error_rs_name@ == table.rs_name@ + "RequestError"@
    &&& match table.aggregate_rs_name {
        Some(a) => t.aggregate_rs_name matches Some(r) && *r == a,
        None => t.aggregate_rs_name is None,
    }
    &&& *t.db_rs_name == db.rs_name
    &&& *t.rs_attrs == table.rs_attrs
    &&& match (table.columns, t.columns) {
        (Columns::CollectionOnly { columns }, Columns::CollectionOnly { columns: cs }) => spec_columns_of(
            db,
            table,
            columns@,
            cs@,
        ),
        (
            Columns::Model { id, columns, controller },
            Columns::Model { id: mid, columns: cs, controller: c },
        ) => {
            &&& spec_column_of(db, table, ext, id, Column::Molecule(mid))
            &&& spec_columns_of(db, table, columns@, cs@)
            &&& match controller {
                Some(controller) => c matches Some(r) && *r == controller,
                None => c is None,
            }
        },
        (Columns::ManyModel { a, b }, Columns::ManyModel { a: ma, b: mb }) => {
            &&& spec_column_of(db, table, ext, a, Column::Molecule(ma))
            &&& spec_column_of(db, table, ext, b, Column::Molecule(mb))
        },
        _ => false,
    }
}

/// A name followed by a suffix.
fn suffixed(name: &String, suffix: &str) -> (r: String)
    ensures
        r@ == name@ + suffix@,
{
    let mut r = name.clone();
    r.append(suffix);
    r
}

/// A stored column of `table`, resolved against the database.
fn molecule_of<'a>(
    ext: &str,
    table: &'a stage2::Table,
    db: &'a stage2::Db,
    column: &'a stage2::Column,
) -> (r: Result<ColumnMolecule<'a>, SynError>)
    requires
        spec_acyclic(*db),
        spec_table_in(*db, *table),
        spec_column_in(*table, *column),
        ext@ == spec_table_ext(*db, *table),
    ensures
        spec_molecule_errors(*db, *table, *column).len() == 0 ==> (r matches Ok(m)
            && spec_column_of(*db, *table, ext@, *column, Column::Molecule(m))),
        spec_molecule_errors(*db, *table, *column).len() > 0 ==> (r matches Err(e)
            && e.message_views() == spec_molecule_errors(*db, *table, *column)),
{
    let column = match column_of(ext, table, db, column) {
        Ok(column) => column,
        Err(e) => return Err(e),
    };
    ColumnMolecule::try_from(column)
}

/// All of `columns` of `table` resolved against the database, in order; or the errors of all.
fn columns_of<'a>(
    ext: &str,
    table: &'a stage2::Table,
    db: &'a stage2::Db,
    columns: &'a Vec<stage2::Column>,
) -> (r: Result<Vec<Column<'a>>, SynError>)
    requires
        spec_acyclic(*db),
        spec_table_in(*db, *table),
        forall|i: int| 0 <= i < columns@.len() ==> spec_column_in(*table, #[trigger] columns@[i]),
        ext@ == spec_table_ext(*db, *table),
    ensures
        spec_items_errors(*db, *table, ext@, columns@).len() == 0 ==> (r matches Ok(cs)
            && spec_columns_of(*db, *table, columns@, cs@)),
        spec_items_errors(*db, *table, ext@, columns@).len() > 0 ==> (r matches Err(e)
            && e.message_views() == spec_items_errors(*db, *table, ext@, columns@)),
{
    let ghost all = columns@;
    let n = columns.len();
    let mut errors: Option<SynError> = None;
    let mut out: Vec<Column<'a>> = Vec::new();
    let mut j: usize = 0;
    while j < n
        invariant
            j <= n,
            n == all.len(),
            all == columns@,
            spec_acyclic(*db),
            spec_table_in(*db, *table),
            forall|i: int| 0 <= i < all.len() ==> spec_column_in(*table, #[trigger] all[i]),
            ext@ == spec_table_ext(*db, *table),
            errors is None <==> spec_items_errors(*db, *table, ext@, all.take(j as int)).len() == 0,
            errors matches Some(e) ==> e.message_views() == spec_items_errors(
                *db,
                *table,
                ext@,
                all.take(j as int),
            ),
            errors is None ==> spec_columns_of(*db, *table, all.take(j as int), out@),
        decreases n - j,
    {
        let ghost prefix = all.take(j as int);
        let ghost next = all.take(j + 1);
        assert(next.drop_last() =~= prefix);
        assert(next.last() == all[j as int]);
        assert(spec_column_in(*table, all[j as int]));
        match column_of(ext, table, db, &columns[j]) {
            Ok(column) => {
                assert(spec_items_errors(*db, *table, ext@, next) =~= spec_items_errors(
                    *db,
                    *table,
                    ext@,
                    prefix,
                ));
                if errors.is_none() {
                    out.push(column);
                    assert forall|i: int| 0 <= i < next.len() implies spec_column_of(
                        *db,
                        *table,
                        spec_table_ext(*db, *table),
                        next[i],
                        #[trigger] out@[i],
                    ) by {
                        if i < j {
                            assert(next[i] == prefix[i]);
                        }
                    }
                }
            },
            Err(e) => {
                match errors {
                    Some(mut errs) => {
                        errs.combine(e);
                        errors = Some(errs);
                    },
                    None => {
                        assert(spec_items_errors(*db, *table, ext@, next) =~= e.message_views());
                        errors = Some(e);
                    },
                }
            },
        }
        j = j + 1;
    }
    assert(all.take(n as int) =~= all);
    match errors {
        Some(e) => Err(e),
        None => Ok(out),
    }
}

impl<'a> Table<'a> {
    /// `table` of `db` resolved against the database.
    pub fn try_new(table: &'a stage2::Table, db: &'a stage2::Db) -> (r: Result<Table<'a>, SynError>)
        requires
            spec_acyclic(*db),
            spec_table_in(*db, *table),
        ensures
            spec_table_errors(*db, *table).len() == 0 ==> (r matches Ok(t) && spec_table_of(
                *db,
                *table,
                t,
            )),
            spec_table_errors(*db, *table).len() > 0 ==> (r matches Err(e) && e.message_views()
                == spec_table_errors(*db, *table)),
    {
        let (name_intern, name_extern) = name_intern_extern((db.name.as_str(), table.name.as_str()));
        let ext = name_extern.as_str();
        let columns = match &table.columns {
            Columns::CollectionOnly { columns } => {
                proof {
                    assert forall|i: int| 0 <= i < columns@.len() implies spec_column_in(
                        *table,
                        #[trigger] columns@[i],
                    ) by {
                        assert(table.columns.spec_items()[i] == columns@[i]);
                    }
                }
                match columns_of(ext, table, db, columns) {
                    Ok(columns) => Columns::CollectionOnly { columns },
                    Err(e) => return Err(e),
                }
            },
            Columns::Model { id, columns, controller } => {
                assert(table.columns.spec_items()[0] == *id);
                let id = match molecule_of(ext, table, db, id) {
                    Ok(id) => id,
                    Err(e) => return Err(e),
                };
                proof {
                    assert forall|i: int| 0 <= i < columns@.len() implies spec_column_in(
                        *table,
                        #[trigger] columns@[i],
                    ) by {
                        assert(table.columns.spec_items()[i + 1] == columns@[i]);
                    }
                }
                let columns = match columns_of(ext, table, db, columns) {
                    Ok(columns) => columns,
                    Err(e) => return Err(e),
                };
                let controller = match controller {
                    Some(c) => Some(c),
                    None => None,
                };
                Columns::Model { id, columns, controller }
            },
            Columns::ManyModel { a, b } => {
                assert(table.columns.spec_items()[0] == *a);
                assert(table.columns.spec_items()[1] == *b);
                let a = match molecule_of(ext, table, db, a) {
                    Ok(a) => a,
                    Err(e) => return Err(e),
                };
                let b = match molecule_of(ext, table, db, b) {
                    Ok(b) => b,
                    Err(e) => return Err(e),
                };
                Columns::ManyModel { a, b }
            },
        };
        let aggregate_rs_name = match &table.aggregate_rs_name {
            Some(a) => Some(a),
            None => None,
        };
        proof {
            reveal_strlit("CreateRequest");
            reveal_strlit("UpdateRequest");
            reveal_strlit("PatchRequest");
            reveal_strlit("RequestError");
        }
        Ok(
            Table {
                name_intern,
                create_request_rs_name: suffixed(&table.rs_name, "CreateRequest"),
                update_request_rs_name: suffixed(&table.rs_name, "UpdateRequest"),
                patch_request_rs_name: suffixed(&table.rs_name, "PatchRequest"),
                request_error_rs_name: suffixed(&table.rs_name, "RequestError"),
                name_extern,
                rs_name: &table.rs_name,
                aggregate_rs_name,
                db_rs_name: &db.rs_name,
                rs_attrs: &table.rs_attrs,
                columns,
            },
        )
    }
}

/// A database resolved as a whole.
pub struct Db<'a> {
    /// the name of the database
    pub name: &'a String,
    /// the name of the database module, for example `db`
    pub rs_name: &'a String,
    pub tables: Vec<Table<'a>>,
    pub rs_vis: &'a stage1::Visibility,
}

/// The messages of what is wrong with resolving the first `n` tables, in order.
pub open spec fn spec_db_errors(db: stage2::Db, n: int) -> Seq<Seq<char>>
    decreases n,
{
    if n <= 0 {
        seq![]
    } else {
        spec_db_errors(db, n - 1) + spec_table_errors(db, db.tables@[n - 1])
    }
}

impl<'a> Db<'a> {
    /// Every table of the database resolved against it; or the errors of all the tables.
    pub fn try_from(db: &'a stage2::Db) -> (r: Result<Db<'a>, SynError>)
        requires
            spec_acyclic(*db),
        ensures
            spec_db_errors(*db, db.tables@.len() as int).len() == 0 ==> (r matches Ok(d) && *d.name
                == db.name && *d.rs_name == db.rs_name && *d.rs_vis == db.rs_vis && d.tables@.len()
                == db.tables@.len() && forall|i: int|
                0 <= i < db.tables@.len() ==> spec_table_of(
                    *db,
                    db.tables@[i],
                    #[trigger] d.tables@[i],
                )),
            spec_db_errors(*db, db.tables@.len() as int).len() > 0 ==> (r matches Err(e)
                && e.message_views() == spec_db_errors(*db, db.tables@.len() as int)),
    {
        let n = db.tables.len();
        let mut errors: Option<SynError> = None;
        let mut tables: Vec<Table<'a>> = Vec::new();
        let mut j: usize = 0;
        while j < n
            invariant
                j <= n,
                n == db.tables@.len(),
                spec_acyclic(*db),
                errors is None <==> spec_db_errors(*db, j as int).len() == 0,
                errors matches Some(e) ==> e.message_views() == spec_db_errors(*db, j as int),
                errors is None ==> tables@.len() == j && forall|i: int|
                    0 <= i < j ==> spec_table_of(*db, db.tables@[i], #[trigger] tables@[i]),
            decreases n - j,
        {
            assert(spec_table_in(*db, db.tables@[j as int]));
            match Table::try_new(&db.tables[j], db) {
                Ok(table) => {
                    assert(spec_db_errors(*db, j + 1) =~= spec_db_errors(*db, j as int));
                    if errors.is_none() {
                        tables.push(table);
                    }
                },
                Err(e) => match errors {
                    Some(mut errs) => {
                        errs.combine(e);
                        errors = Some(errs);
                    },
                    None => {
                        assert(spec_db_errors(*db, j + 1) =~= e.message_views());
                        errors = Some(e);
                    },
                },
            }
            j = j + 1;
        }
        match errors {
            Some(e) => Err(e),
            None => Ok(Db { name: &db.name, rs_name: &db.rs_name, tables, rs_vis: &db.rs_vis }),
        }
    }
}

} // verus!
