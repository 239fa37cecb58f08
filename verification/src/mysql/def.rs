//! The MySQL schema model: column types with their attributes, column and
//! index descriptions.

use vstd::prelude::*;

verus! {

/// Attributes of a numeric type, as in `DECIMAL(18,4) UNSIGNED ZEROFILL`.
#[derive(Clone, Copy, Debug, PartialEq, Eq)]
pub struct NumericAttr {
    pub maximum: Option<u32>,
    pub decimal: Option<u32>,
    pub unsigned: Option<bool>,
    pub zero_fill: Option<bool>,
}

/// Attributes of a time type: the fractional seconds precision.
#[derive(Clone, Copy, Debug, PartialEq, Eq)]
pub struct TimeAttr {
    pub fractional: Option<u32>,
}

/// Attributes of a character or binary string type.
#[derive(Clone, Debug, PartialEq, Eq)]
pub struct StringAttr {
    pub length: Option<u32>,
    pub charset_name: Option<String>,
    pub collation_name: Option<String>,
}

/// Attributes of the `BLOB` type.
#[derive(Clone, Copy, Debug, PartialEq, Eq)]
pub struct BlobAttr {
    pub length: Option<u32>,
}

/// The values of an `ENUM` type.
#[derive(Clone, Debug, PartialEq, Eq)]
pub struct EnumDef {
    pub values: Vec<String>,
    pub attr: StringAttr,
}

/// The members of a `SET` type.
#[derive(Clone, Debug, PartialEq, Eq)]
pub struct SetDef {
    pub members: Vec<String>,
    pub attr: StringAttr,
}

/// Attributes of a spatial type: its spatial reference system.
#[derive(Clone, Copy, Debug, PartialEq, Eq)]
pub struct GeometryAttr {
    pub srid: Option<u32>,
}

/// A MySQL column type.
#[derive(Clone, Debug, PartialEq, Eq)]
pub enum Type {
    Serial(NumericAttr),
    Bit(NumericAttr),
    TinyInt(NumericAttr),
    Bool(NumericAttr),
    SmallInt(NumericAttr),
    MediumInt(NumericAttr),
    Int(NumericAttr),
    BigInt(NumericAttr),
    Decimal(NumericAttr),
    Float(NumericAttr),
    Double(NumericAttr),
    Date,
    Time(TimeAttr),
    DateTime(TimeAttr),
    Timestamp(TimeAttr),
    Year,
    Char(StringAttr),
    NChar(StringAttr),
    Varchar(StringAttr),
    NVarchar(StringAttr),
    Binary(StringAttr),
    Varbinary(StringAttr),
    Text(StringAttr),
    TinyText(StringAttr),
    MediumText(StringAttr),
    LongText(StringAttr),
    Blob(BlobAttr),
    TinyBlob,
    MediumBlob,
    LongBlob,
    Enum(EnumDef),
    SetOf(SetDef),
    Geometry(GeometryAttr),
    Point(GeometryAttr),
    LineString(GeometryAttr),
    Polygon(GeometryAttr),
    MultiPoint(GeometryAttr),
    MultiLineString(GeometryAttr),
    MultiPolygon(GeometryAttr),
    GeometryCollection(GeometryAttr),
    Json,
    Unknown(String),
}

pub type ColumnType = Type;

/// The name of a column type, without its attributes.
#[derive(Clone, Copy, Debug, PartialEq, Eq)]
pub enum TypeName {
    Serial,
    Bit,
    TinyInt,
    Bool,
    SmallInt,
    MediumInt,
    Int,
    BigInt,
    Decimal,
    Float,
    Double,
    Date,
    Time,
    DateTime,
    Timestamp,
    Year,
    Char,
    NChar,
    Varchar,
    NVarchar,
    Binary,
    Varbinary,
    Text,
    TinyText,
    MediumText,
    LongText,
    Blob,
    TinyBlob,
    MediumBlob,
    LongBlob,
    Enum,
    SetOf,
    Geometry,
    Point,
    LineString,
    Polygon,
    MultiPoint,
    MultiLineString,
    MultiPolygon,
    GeometryCollection,
    Json,
    Unknown,
}

/// The families of column types, by the attributes that follow their name.
#[derive(Clone, Copy, Debug, PartialEq, Eq)]
pub enum TypeCategory {
    Numeric,
    Time,
    Str,
    FreeSizeBlob,
    Enum,
    SetOf,
    Geometry,
    Plain,
    Unknown,
}

/// The view of a `StringAttr`.
pub struct StringAttrModel {
    pub length: Option<u32>,
    pub charset_name: Option<Seq<char>>,
    pub collation_name: Option<Seq<char>>,
}

/// The view of an `EnumDef` or a `SetDef`: its values and string attributes.
pub struct ValueListModel {
    pub values: Seq<Seq<char>>,
    pub attr: StringAttrModel,
}

/// The attributes of a column type, seen as values.
pub enum AttrModel {
    Plain,
    Numeric(NumericAttr),
    Time(TimeAttr),
    Str(StringAttrModel),
    Blob(BlobAttr),
    Enum(ValueListModel),
    SetMembers(ValueListModel),
    Geometry(GeometryAttr),
    Unknown(Seq<char>),
}

/// The view of a column type: its name and its attributes.
pub struct TypeModel {
    pub name: TypeName,
    pub attr: AttrModel,
}

pub open spec fn opt_string_view(o: Option<String>) -> Option<Seq<char>> {
    match o {
        Some(s) => Some(s@),
        None => None,
    }
}

impl View for StringAttr {
    type V = StringAttrModel;

    open spec fn view(&self) -> StringAttrModel {
        StringAttrModel {
            length: self.length,
            charset_name: opt_string_view(self.charset_name),
            collation_name: opt_string_view(self.collation_name),
        }
    }
}

impl View for EnumDef {
    type V = ValueListModel;

    open spec fn view(&self) -> ValueListModel {
        ValueListModel { values: self.values@.map_values(|s: String| s@), attr: self.attr@ }
    }
}

impl View for SetDef {
    type V = ValueListModel;

    open spec fn view(&self) -> ValueListModel {
        ValueListModel { values: self.members@.map_values(|s: String| s@), attr: self.attr@ }
    }
}

impl View for Type {
    type V = TypeModel;

    open spec fn view(&self) -> TypeModel {
        match self {
            Type::Serial(a) => TypeModel { name: TypeName::Serial, attr: AttrModel::Numeric(*a) },
            Type::Bit(a) => TypeModel { name: TypeName::Bit, attr: AttrModel::Numeric(*a) },
            Type::TinyInt(a) => TypeModel { name: TypeName::TinyInt, attr: AttrModel::Numeric(*a) },
            Type::Bool(a) => TypeModel { name: TypeName::Bool, attr: AttrModel::Numeric(*a) },
            Type::SmallInt(a) => TypeModel { name: TypeName::SmallInt, attr: AttrModel::Numeric(*a) },
            Type::MediumInt(a) => TypeModel { name: TypeName::MediumInt, attr: AttrModel::Numeric(*a) },
            Type::Int(a) => TypeModel { name: TypeName::Int, attr: AttrModel::Numeric(*a) },
            Type::BigInt(a) => TypeModel { name: TypeName::BigInt, attr: AttrModel::Numeric(*a) },
            Type::Decimal(a) => TypeModel { name: TypeName::Decimal, attr: AttrModel::Numeric(*a) },
            Type::Float(a) => TypeModel { name: TypeName::Float, attr: AttrModel::Numeric(*a) },
            Type::Double(a) => TypeModel { name: TypeName::Double, attr: AttrModel::Numeric(*a) },
            Type::Date => TypeModel { name: TypeName::Date, attr: AttrModel::Plain },
            Type::Time(a) => TypeModel { name: TypeName::Time, attr: AttrModel::Time(*a) },
            Type::DateTime(a) => TypeModel { name: TypeName::DateTime, attr: AttrModel::Time(*a) },
            Type::Timestamp(a) => TypeModel { name: TypeName::Timestamp, attr: AttrModel::Time(*a) },
            Type::Year => TypeModel { name: TypeName::Year, attr: AttrModel::Plain },
            Type::Char(a) => TypeModel { name: TypeName::Char, attr: AttrModel::Str(a@) },
            Type::NChar(a) => TypeModel { name: TypeName::NChar, attr: AttrModel::Str(a@) },
            Type::Varchar(a) => TypeModel { name: TypeName::Varchar, attr: AttrModel::Str(a@) },
            Type::NVarchar(a) => TypeModel { name: TypeName::NVarchar, attr: AttrModel::Str(a@) },
            Type::Binary(a) => TypeModel { name: TypeName::Binary, attr: AttrModel::Str(a@) },
            Type::Varbinary(a) => TypeModel { name: TypeName::Varbinary, attr: AttrModel::Str(a@) },
            Type::Text(a) => TypeModel { name: TypeName::Text, attr: AttrModel::Str(a@) },
            Type::TinyText(a) => TypeModel { name: TypeName::TinyText, attr: AttrModel::Str(a@) },
            Type::MediumText(a) => TypeModel { name: TypeName::MediumText, attr: AttrModel::Str(a@) },
            Type::LongText(a) => TypeModel { name: TypeName::LongText, attr: AttrModel::Str(a@) },
            Type::Blob(a) => TypeModel { name: TypeName::Blob, attr: AttrModel::Blob(*a) },
            Type::TinyBlob => TypeModel { name: TypeName::TinyBlob, attr: AttrModel::Plain },
            Type::MediumBlob => TypeModel { name: TypeName::MediumBlob, attr: AttrModel::Plain },
            Type::LongBlob => TypeModel { name: TypeName::LongBlob, attr: AttrModel::Plain },
            Type::Enum(a) => TypeModel { name: TypeName::Enum, attr: AttrModel::Enum(a@) },
            Type::SetOf(a) => TypeModel { name: TypeName::SetOf, attr: AttrModel::SetMembers(a@) },
            Type::Geometry(a) => TypeModel { name: TypeName::Geometry, attr: AttrModel::Geometry(*a) },
            Type::Point(a) => TypeModel { name: TypeName::Point, attr: AttrModel::Geometry(*a) },
            Type::LineString(a) => TypeModel { name: TypeName::LineString, attr: AttrModel::Geometry(*a) },
            Type::Polygon(a) => TypeModel { name: TypeName::Polygon, attr: AttrModel::Geometry(*a) },
            Type::MultiPoint(a) => TypeModel { name: TypeName::MultiPoint, attr: AttrModel::Geometry(*a) },
            Type::MultiLineString(a) => TypeModel { name: TypeName::MultiLineString, attr: AttrModel::Geometry(*a) },
            Type::MultiPolygon(a) => TypeModel { name: TypeName::MultiPolygon, attr: AttrModel::Geometry(*a) },
            Type::GeometryCollection(a) => TypeModel { name: TypeName::GeometryCollection, attr: AttrModel::Geometry(*a) },
            Type::Json => TypeModel { name: TypeName::Json, attr: AttrModel::Plain },
            Type::Unknown(s) => TypeModel { name: TypeName::Unknown, attr: AttrModel::Unknown(s@) },
        }
    }
}

impl TypeName {
    /// The family of a type name.
    pub open spec fn category_of(self) -> TypeCategory {
        match self {
            TypeName::Serial | TypeName::Bit | TypeName::TinyInt | TypeName::Bool | TypeName::SmallInt | TypeName::MediumInt | TypeName::Int | TypeName::BigInt | TypeName::Decimal | TypeName::Float | TypeName::Double => TypeCategory::Numeric,
            TypeName::Time | TypeName::DateTime | TypeName::Timestamp => TypeCategory::Time,
            TypeName::Char | TypeName::NChar | TypeName::Varchar | TypeName::NVarchar | TypeName::Binary | TypeName::Varbinary | TypeName::Text | TypeName::TinyText | TypeName::MediumText | TypeName::LongText => TypeCategory::Str,
            TypeName::Blob => TypeCategory::FreeSizeBlob,
            TypeName::Enum => TypeCategory::Enum,
            TypeName::SetOf => TypeCategory::SetOf,
            TypeName::Geometry | TypeName::Point | TypeName::LineString | TypeName::Polygon | TypeName::MultiPoint | TypeName::MultiLineString | TypeName::MultiPolygon | TypeName::GeometryCollection => TypeCategory::Geometry,
            TypeName::Date | TypeName::Year | TypeName::TinyBlob | TypeName::MediumBlob | TypeName::LongBlob | TypeName::Json => TypeCategory::Plain,
            TypeName::Unknown => TypeCategory::Unknown,
        }
    }

    /// The family of this type name.
    pub fn category(&self) -> (res: TypeCategory)
        ensures
            res == self.category_of(),
    {
        match self {
            TypeName::Serial | TypeName::Bit | TypeName::TinyInt | TypeName::Bool | TypeName::SmallInt | TypeName::MediumInt | TypeName::Int | TypeName::BigInt | TypeName::Decimal | TypeName::Float | TypeName::Double => TypeCategory::Numeric,
            TypeName::Time | TypeName::DateTime | TypeName::Timestamp => TypeCategory::Time,
            TypeName::Char | TypeName::NChar | TypeName::Varchar | TypeName::NVarchar | TypeName::Binary | TypeName::Varbinary | TypeName::Text | TypeName::TinyText | TypeName::MediumText | TypeName::LongText => TypeCategory::Str,
            TypeName::Blob => TypeCategory::FreeSizeBlob,
            TypeName::Enum => TypeCategory::Enum,
            TypeName::SetOf => TypeCategory::SetOf,
            TypeName::Geometry | TypeName::Point | TypeName::LineString | TypeName::Polygon | TypeName::MultiPoint | TypeName::MultiLineString | TypeName::MultiPolygon | TypeName::GeometryCollection => TypeCategory::Geometry,
            TypeName::Date | TypeName::Year | TypeName::TinyBlob | TypeName::MediumBlob | TypeName::LongBlob | TypeName::Json => TypeCategory::Plain,
            TypeName::Unknown => TypeCategory::Unknown,
        }
    }
}

impl Type {
    /// The numeric type with this name and these attributes.
    pub fn numeric(name: TypeName, attr: NumericAttr) -> (res: Type)
        requires
            name.category_of() == TypeCategory::Numeric,
        ensures
            res@ == (TypeModel { name, attr: AttrModel::Numeric(attr) }),
    {
        match name {
            TypeName::Serial => Type::Serial(attr),
            TypeName::Bit => Type::Bit(attr),
            TypeName::TinyInt => Type::TinyInt(attr),
            TypeName::Bool => Type::Bool(attr),
            TypeName::SmallInt => Type::SmallInt(attr),
            TypeName::MediumInt => Type::MediumInt(attr),
            TypeName::Int => Type::Int(attr),
            TypeName::BigInt => Type::BigInt(attr),
            TypeName::Decimal => Type::Decimal(attr),
            TypeName::Float => Type::Float(attr),
            TypeName::Double => Type::Double(attr),
            _ => {
                proof {
                    assert(false);
                }
                Type::Unknown(String::new())
            },
        }
    }

    /// The time type with this name and these attributes.
    pub fn time(name: TypeName, attr: TimeAttr) -> (res: Type)
        requires
            name.category_of() == TypeCategory::Time,
        ensures
            res@ == (TypeModel { name, attr: AttrModel::Time(attr) }),
    {
        match name {
            TypeName::Time => Type::Time(attr),
            TypeName::DateTime => Type::DateTime(attr),
            TypeName::Timestamp => Type::Timestamp(attr),
            _ => {
                proof {
                    assert(false);
                }
                Type::Unknown(String::new())
            },
        }
    }

    /// The string type with this name and these attributes.
    pub fn string(name: TypeName, attr: StringAttr) -> (res: Type)
        requires
            name.category_of() == TypeCategory::Str,
        ensures
            res@ == (TypeModel { name, attr: AttrModel::Str(attr@) }),
    {
        match name {
            TypeName::Char => Type::Char(attr),
            TypeName::NChar => Type::NChar(attr),
            TypeName::Varchar => Type::Varchar(attr),
            TypeName::NVarchar => Type::NVarchar(attr),
            TypeName::Binary => Type::Binary(attr),
            TypeName::Varbinary => Type::Varbinary(attr),
            TypeName::Text => Type::Text(attr),
            TypeName::TinyText => Type::TinyText(attr),
            TypeName::MediumText => Type::MediumText(attr),
            TypeName::LongText => Type::LongText(attr),
            _ => {
                proof {
                    assert(false);
                }
                Type::Unknown(String::new())
            },
        }
    }

    /// The spatial type with this name and these attributes.
    pub fn geometry(name: TypeName, attr: GeometryAttr) -> (res: Type)
        requires
            name.category_of() == TypeCategory::Geometry,
        ensures
            res@ == (TypeModel { name, attr: AttrModel::Geometry(attr) }),
    {
        match name {
            TypeName::Geometry => Type::Geometry(attr),
            TypeName::Point => Type::Point(attr),
            TypeName::LineString => Type::LineString(attr),
            TypeName::Polygon => Type::Polygon(attr),
            TypeName::MultiPoint => Type::MultiPoint(attr),
            TypeName::MultiLineString => Type::MultiLineString(attr),
            TypeName::MultiPolygon => Type::MultiPolygon(attr),
            TypeName::GeometryCollection => Type::GeometryCollection(attr),
            _ => {
                proof {
                    assert(false);
                }
                Type::Unknown(String::new())
            },
        }
    }

    /// The type with this name, for a name that takes no attributes.
    pub fn plain(name: TypeName) -> (res: Type)
        requires
            name.category_of() == TypeCategory::Plain,
        ensures
            res@ == (TypeModel { name, attr: AttrModel::Plain }),
    {
        match name {
            TypeName::Date => Type::Date,
            TypeName::Year => Type::Year,
            TypeName::TinyBlob => Type::TinyBlob,
            TypeName::MediumBlob => Type::MediumBlob,
            TypeName::LongBlob => Type::LongBlob,
            TypeName::Json => Type::Json,
            _ => {
                proof {
                    assert(false);
                }
                Type::Unknown(String::new())
            },
        }
    }
}

impl Default for NumericAttr {
    fn default() -> (res: Self)
        ensures
            res == (NumericAttr { maximum: None, decimal: None, unsigned: None, zero_fill: None }),
    {
        NumericAttr { maximum: None, decimal: None, unsigned: None, zero_fill: None }
    }
}

impl Default for TimeAttr {
    fn default() -> (res: Self)
        ensures
            res == (TimeAttr { fractional: None }),
    {
        TimeAttr { fractional: None }
    }
}

impl Default for BlobAttr {
    fn default() -> (res: Self)
        ensures
            res == (BlobAttr { length: None }),
    {
        BlobAttr { length: None }
    }
}

impl Default for GeometryAttr {
    fn default() -> (res: Self)
        ensures
            res == (GeometryAttr { srid: None }),
    {
        GeometryAttr { srid: None }
    }
}

/// String attributes with nothing set.
pub open spec fn empty_string_attr() -> StringAttrModel {
    StringAttrModel { length: None, charset_name: None, collation_name: None }
}

/// A value list with no values and no string attributes set.
pub open spec fn empty_value_list() -> ValueListModel {
    ValueListModel { values: Seq::empty(), attr: empty_string_attr() }
}

impl Default for StringAttr {
    fn default() -> (res: Self)
        ensures
            res@ == empty_string_attr(),
    {
        StringAttr { length: None, charset_name: None, collation_name: None }
    }
}

impl Default for EnumDef {
    fn default() -> (res: Self)
        ensures
            res@ == empty_value_list(),
    {
        let res = EnumDef { values: Vec::new(), attr: StringAttr::default() };
        assert(res@.values =~= Seq::<Seq<char>>::empty());
        res
    }
}

impl Default for SetDef {
    fn default() -> (res: Self)
        ensures
            res@ == empty_value_list(),
    {
        let res = SetDef { members: Vec::new(), attr: StringAttr::default() };
        assert(res@.values =~= Seq::<Seq<char>>::empty());
        res
    }
}

/// The attributes that a type of each family has before any are read.
pub open spec fn default_attr(c: TypeCategory) -> AttrModel {
    match c {
        TypeCategory::Numeric => AttrModel::Numeric(
            NumericAttr { maximum: None, decimal: None, unsigned: None, zero_fill: None },
        ),
        TypeCategory::Time => AttrModel::Time(TimeAttr { fractional: None }),
        TypeCategory::Str => AttrModel::Str(empty_string_attr()),
        TypeCategory::FreeSizeBlob => AttrModel::Blob(BlobAttr { length: None }),
        TypeCategory::Enum => AttrModel::Enum(empty_value_list()),
        TypeCategory::SetOf => AttrModel::SetMembers(empty_value_list()),
        TypeCategory::Geometry => AttrModel::Geometry(GeometryAttr { srid: None }),
        TypeCategory::Plain => AttrModel::Plain,
        TypeCategory::Unknown => AttrModel::Plain,
    }
}

/// The key that a column takes part in.
#[derive(Clone, Copy, Debug, PartialEq, Eq)]
pub enum ColumnKey {
    Null,
    Primary,
    Unique,
    Multiple,
}

/// A column's default value, as an SQL expression.
#[derive(Clone, Debug, PartialEq, Eq)]
pub struct ColumnDefault {
    pub expr: String,
}

/// The extra properties of a column.
#[derive(Clone, Copy, Debug, PartialEq, Eq)]
pub struct ColumnExtra {
    pub auto_increment: bool,
    pub on_update_current_timestamp: bool,
    pub generated: bool,
    pub default_generated: bool,
}

impl Default for ColumnExtra {
    fn default() -> (res: Self)
        ensures
            res == (ColumnExtra {
                auto_increment: false,
                on_update_current_timestamp: false,
                generated: false,
                default_generated: false,
            }),
    {
        ColumnExtra {
            auto_increment: false,
            on_update_current_timestamp: false,
            generated: false,
            default_generated: false,
        }
    }
}

/// A column of a table.
#[derive(Clone, Debug, PartialEq, Eq)]
pub struct ColumnInfo {
    pub name: String,
    pub col_type: ColumnType,
    pub key: ColumnKey,
    pub default: Option<ColumnDefault>,
    pub extra: ColumnExtra,
    pub comment: String,
}

/// The order in which an index keeps a column.
#[derive(Clone, Copy, Debug, PartialEq, Eq)]
pub enum IndexOrder {
    Ascending,
    Descending,
    Unordered,
}

/// The data structure of an index.
#[derive(Clone, Copy, Debug, PartialEq, Eq)]
pub enum IndexType {
    BTree,
    FullText,
    Hash,
    RTree,
    Spatial,
}

/// The name under which MySQL reports an index type.
pub open spec fn index_type_name(t: IndexType) -> Seq<char> {
    match t {
        IndexType::BTree => "BTREE"@,
        IndexType::FullText => "FULLTEXT"@,
        IndexType::Hash => "HASH"@,
        IndexType::RTree => "RTREE"@,
        IndexType::Spatial => "SPATIAL"@,
    }
}

impl IndexType {
    /// The name under which MySQL reports this index type.
    pub fn to_string(&self) -> (res: String)
        ensures
            res@ == index_type_name(*self),
    {
        match self {
            IndexType::BTree => "BTREE".to_owned(),
            IndexType::FullText => "FULLTEXT".to_owned(),
            IndexType::Hash => "HASH".to_owned(),
            IndexType::RTree => "RTREE".to_owned(),
            IndexType::Spatial => "SPATIAL".to_owned(),
        }
    }
}

/// One column of an index, with the length of the indexed prefix if only a
/// prefix is indexed.
#[derive(Clone, Debug, PartialEq, Eq)]
pub struct IndexPart {
    pub column: String,
    pub order: IndexOrder,
    pub sub_part: Option<u32>,
}

/// An index of a table.
#[derive(Clone, Debug, PartialEq, Eq)]
pub struct IndexInfo {
    pub name: String,
    pub unique: bool,
    pub parts: Vec<IndexPart>,
    pub idx_type: IndexType,
}

} // verus!
