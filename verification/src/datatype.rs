//! Logical data types of columnar values, and their mathematical model.
//!
//! `DataType` and `Field` carry the same information as the data types of the
//! columnar format: every variant, every unit, the time zone of a timestamp,
//! and the name, nullability, dictionary settings and metadata of a field.
//! Their view replaces each string by its sequence of characters and each
//! vector by a sequence, so that two values are the same data type exactly
//! when their views are equal.

use vstd::prelude::*;

verus! {

broadcast use vstd::std_specs::vec::group_vec_axioms;

/// A unit of time.
#[derive(Debug, Clone, Copy, PartialEq, Eq, Structural)]
pub enum TimeUnit {
    Second,
    Millisecond,
    Microsecond,
    Nanosecond,
}

/// The unit of a date.
#[derive(Debug, Clone, Copy, PartialEq, Eq, Structural)]
pub enum DateUnit {
    Day,
    Millisecond,
}

/// The unit of a calendar interval.
#[derive(Debug, Clone, Copy, PartialEq, Eq, Structural)]
pub enum IntervalUnit {
    YearMonth,
    DayTime,
}

/// The logical type of a column.
#[derive(Debug)]
pub enum DataType {
    Null,
    Boolean,
    Int8,
    Int16,
    Int32,
    Int64,
    UInt8,
    UInt16,
    UInt32,
    UInt64,
    Float16,
    Float32,
    Float64,
    /// A timestamp in the given unit, with an optional time zone.
    Timestamp(TimeUnit, Option<String>),
    Date32(DateUnit),
    Date64(DateUnit),
    Time32(TimeUnit),
    Time64(TimeUnit),
    Duration(TimeUnit),
    Interval(IntervalUnit),
    Binary,
    FixedSizeBinary(i32),
    LargeBinary,
    Utf8,
    LargeUtf8,
    List(Box<Field>),
    /// A list of the given number of items per value.
    FixedSizeList(Box<Field>, i32),
    LargeList(Box<Field>),
    Struct(Vec<Field>),
    Union(Vec<Field>),
    /// A dictionary with the given key type and value type.
    Dictionary(Box<DataType>, Box<DataType>),
    /// A decimal with the given precision and scale.
    Decimal(usize, usize),
}

/// A named, typed slot: the child of a nested type.
#[derive(Debug)]
pub struct Field {
    pub name: String,
    pub data_type: DataType,
    pub nullable: bool,
    pub dict_id: i64,
    pub dict_is_ordered: bool,
    /// Key-value pairs: a map from each key to the value of its last pair.
    pub metadata: Option<Vec<(String, String)>>,
}

/// The model of a `DataType`.
pub enum SpecDataType {
    Null,
    Boolean,
    Int8,
    Int16,
    Int32,
    Int64,
    UInt8,
    UInt16,
    UInt32,
    UInt64,
    Float16,
    Float32,
    Float64,
    Timestamp(TimeUnit, Option<Seq<char>>),
    Date32(DateUnit),
    Date64(DateUnit),
    Time32(TimeUnit),
    Time64(TimeUnit),
    Duration(TimeUnit),
    Interval(IntervalUnit),
    Binary,
    FixedSizeBinary(i32),
    LargeBinary,
    Utf8,
    LargeUtf8,
    List(Box<SpecField>),
    FixedSizeList(Box<SpecField>, i32),
    LargeList(Box<SpecField>),
    Struct(Seq<SpecField>),
    Union(Seq<SpecField>),
    Dictionary(Box<SpecDataType>, Box<SpecDataType>),
    Decimal(usize, usize),
}

/// The model of a `Field`.
pub struct SpecField {
    pub name: Seq<char>,
    pub data_type: SpecDataType,
    pub nullable: bool,
    pub dict_id: i64,
    pub dict_is_ordered: bool,
    pub metadata: Option<Map<Seq<char>, Seq<char>>>,
}

pub open spec fn spec_option_string(s: Option<String>) -> Option<Seq<char>> {
    match s {
        Some(s) => Some(s@),
        None => None,
    }
}

pub open spec fn spec_pairs(v: Seq<(String, String)>) -> Seq<(Seq<char>, Seq<char>)> {
    v.map_values(|p: (String, String)| (p.0@, p.1@))
}

/// The map of key-value pairs: each key to the value of its last pair.
pub open spec fn spec_pairs_map(pairs: Seq<(Seq<char>, Seq<char>)>) -> Map<Seq<char>, Seq<char>>
    decreases pairs.len(),
{
    if pairs.len() == 0 {
        Map::empty()
    } else {
        spec_pairs_map(pairs.drop_last()).insert(pairs.last().0, pairs.last().1)
    }
}

pub open spec fn spec_metadata(m: Option<Vec<(String, String)>>) -> Option<
    Map<Seq<char>, Seq<char>>,
> {
    match m {
        Some(v) => Some(spec_pairs_map(spec_pairs(v@))),
        None => None,
    }
}

pub open spec fn spec_data_type(t: DataType) -> SpecDataType
    decreases t,
{
    match t {
        DataType::Null => SpecDataType::Null,
        DataType::Boolean => SpecDataType::Boolean,
        DataType::Int8 => SpecDataType::Int8,
        DataType::Int16 => SpecDataType::Int16,
        DataType::Int32 => SpecDataType::Int32,
        DataType::Int64 => SpecDataType::Int64,
        DataType::UInt8 => SpecDataType::UInt8,
        DataType::UInt16 => SpecDataType::UInt16,
        DataType::UInt32 => SpecDataType::UInt32,
        DataType::UInt64 => SpecDataType::UInt64,
        DataType::Float16 => SpecDataType::Float16,
        DataType::Float32 => SpecDataType::Float32,
        DataType::Float64 => SpecDataType::Float64,
        DataType::Timestamp(u, tz) => SpecDataType::Timestamp(u, spec_option_string(tz)),
        DataType::Date32(u) => SpecDataType::Date32(u),
        DataType::Date64(u) => SpecDataType::Date64(u),
        DataType::Time32(u) => SpecDataType::Time32(u),
        DataType::Time64(u) => SpecDataType::Time64(u),
        DataType::Duration(u) => SpecDataType::Duration(u),
        DataType::Interval(u) => SpecDataType::Interval(u),
        DataType::Binary => SpecDataType::Binary,
        DataType::FixedSizeBinary(n) => SpecDataType::FixedSizeBinary(n),
        DataType::LargeBinary => SpecDataType::LargeBinary,
        DataType::Utf8 => SpecDataType::Utf8,
        DataType::LargeUtf8 => SpecDataType::LargeUtf8,
        DataType::List(f) => SpecDataType::List(Box::new(spec_field(*f))),
        DataType::FixedSizeList(f, n) => SpecDataType::FixedSizeList(Box::new(spec_field(*f)), n),
        DataType::LargeList(f) => SpecDataType::LargeList(Box::new(spec_field(*f))),
        DataType::Struct(fs) => SpecDataType::Struct(spec_fields(fs@)),
        DataType::Union(fs) => SpecDataType::Union(spec_fields(fs@)),
        DataType::Dictionary(k, v) => SpecDataType::Dictionary(
            Box::new(spec_data_type(*k)),
            Box::new(spec_data_type(*v)),
        ),
        DataType::Decimal(p, s) => SpecDataType::Decimal(p, s),
    }
}

pub open spec fn spec_field(f: Field) -> SpecField
    decreases f,
{
    SpecField {
        name: f.name@,
        data_type: spec_data_type(f.data_type),
        nullable: f.nullable,
        dict_id: f.dict_id,
        dict_is_ordered: f.dict_is_ordered,
        metadata: spec_metadata(f.metadata),
    }
}

pub open spec fn spec_fields(fs: Seq<Field>) -> Seq<SpecField>
    decreases fs,
{
    if fs.len() == 0 {
        Seq::empty()
    } else {
        spec_fields(fs.subrange(0, fs.len() - 1)).push(spec_field(fs[fs.len() - 1]))
    }
}

impl View for DataType {
    type V = SpecDataType;

    open spec fn view(&self) -> SpecDataType {
        spec_data_type(*self)
    }
}

impl View for Field {
    type V = SpecField;

    open spec fn view(&self) -> SpecField {
        spec_field(*self)
    }
}


/// The model of a sequence of fields has the same length as the sequence, and
/// holds the model of each field at its index.
pub proof fn lemma_spec_fields(fs: Seq<Field>)
    ensures
        spec_fields(fs).len() == fs.len(),
        forall|i: int| 0 <= i < fs.len() ==> #[trigger] spec_fields(fs)[i] == spec_field(fs[i]),
    decreases fs.len(),
{
    if fs.len() > 0 {
        lemma_spec_fields(fs.subrange(0, fs.len() - 1));
    }
}

fn option_string_eq(a: &Option<String>, b: &Option<String>) -> (r: bool)
    ensures
        r == (spec_option_string(*a) == spec_option_string(*b)),
{
    match (a, b) {
        (Some(x), Some(y)) => *x == *y,
        (None, None) => true,
        _ => false,
    }
}

/// A key is in the map of pairs exactly when some pair has it.
proof fn lemma_pairs_map_domain(pairs: Seq<(Seq<char>, Seq<char>)>, key: Seq<char>)
    ensures
        spec_pairs_map(pairs).dom().contains(key) <==> exists|i: int|
            0 <= i < pairs.len() && (#[trigger] pairs[i]).0 == key,
    decreases pairs.len(),
{
    if pairs.len() > 0 {
        let rest = pairs.drop_last();
        lemma_pairs_map_domain(rest, key);
        if exists|i: int| 0 <= i < pairs.len() && (#[trigger] pairs[i]).0 == key {
            let i = choose|i: int| 0 <= i < pairs.len() && (#[trigger] pairs[i]).0 == key;
            if i < rest.len() {
                assert(rest[i] == pairs[i]);
            }
        }
        if exists|i: int| 0 <= i < rest.len() && (#[trigger] rest[i]).0 == key {
            let i = choose|i: int| 0 <= i < rest.len() && (#[trigger] rest[i]).0 == key;
            assert(pairs[i] == rest[i]);
        }
    }
}

/// The index of the last pair of `v` with the key `key`, if any.
fn last_with_key(v: &Vec<(String, String)>, key: &String) -> (r: Option<usize>)
    ensures
        match r {
            Some(j) => j < v@.len() && spec_pairs_map(spec_pairs(v@)).dom().contains(key@)
                && spec_pairs_map(spec_pairs(v@))[key@] == v@[j as int].1@,
            None => !spec_pairs_map(spec_pairs(v@)).dom().contains(key@),
        },
{
    let ghost pairs = spec_pairs(v@);
    let mut found: Option<usize> = None;
    let mut i: usize = 0;
    while i < v.len()
        invariant
            0 <= i <= v@.len(),
            pairs == spec_pairs(v@),
            match found {
                Some(j) => j < i && spec_pairs_map(pairs.take(i as int)).dom().contains(key@)
                    && spec_pairs_map(pairs.take(i as int))[key@] == v@[j as int].1@,
                None => !spec_pairs_map(pairs.take(i as int)).dom().contains(key@),
            },
        decreases v@.len() - i,
    {
        assert(pairs.take(i + 1).drop_last() =~= pairs.take(i as int));
        assert(pairs.take(i + 1).last() == pairs[i as int]);
        if v[i].0 == *key {
            found = Some(i);
        }
        i = i + 1;
    }
    assert(pairs.take(v@.len() as int) =~= pairs);
    found
}

fn metadata_eq(a: &Option<Vec<(String, String)>>, b: &Option<Vec<(String, String)>>) -> (r: bool)
    ensures
        r == (spec_metadata(*a) == spec_metadata(*b)),
{
    match (a, b) {
        (Some(x), Some(y)) => {
            let ghost px = spec_pairs(x@);
            let ghost py = spec_pairs(y@);
            let ghost mx = spec_pairs_map(px);
            let ghost my = spec_pairs_map(py);
            // every key of x is a key of y, with the same value
            let mut i: usize = 0;
            while i < x.len()
                invariant
                    0 <= i <= x@.len(),
                    px == spec_pairs(x@),
                    py == spec_pairs(y@),
                    mx == spec_pairs_map(px),
                    my == spec_pairs_map(py),
                    spec_metadata(*a) == Some(mx),
                    spec_metadata(*b) == Some(my),
                    forall|j: int|
                        0 <= j < i ==> my.dom().contains((#[trigger] px[j]).0) && my[px[j].0]
                            == mx[px[j].0],
                decreases x@.len() - i,
            {
                let key = &x[i].0;
                assert(px[i as int].0 == key@);
                let jx = last_with_key(x, key);
                let jy = last_with_key(y, key);
                match (jx, jy) {
                    (Some(jx), Some(jy)) => {
                        if !(x[jx].1 == y[jy].1) {
                            assert(mx[key@] != my[key@]);
                            return false;
                        }
                    },
                    (_, None) => {
                        proof {
                            lemma_pairs_map_domain(px, key@);
                        }
                        assert(mx.dom().contains(key@));
                        return false;
                    },
                    (None, Some(_)) => {
                        proof {
                            lemma_pairs_map_domain(px, key@);
                        }
                        assert(false);
                    },
                }
                i = i + 1;
            }
            // every key of y is a key of x
            let mut i: usize = 0;
            while i < y.len()
                invariant
                    0 <= i <= y@.len(),
                    px == spec_pairs(x@),
                    py == spec_pairs(y@),
                    mx == spec_pairs_map(px),
                    my == spec_pairs_map(py),
                    spec_metadata(*a) == Some(mx),
                    spec_metadata(*b) == Some(my),
                    forall|j: int|
                        0 <= j < px.len() ==> my.dom().contains((#[trigger] px[j]).0) && my[px[j].0]
                            == mx[px[j].0],
                    forall|j: int| 0 <= j < i ==> mx.dom().contains((#[trigger] py[j]).0),
                decreases y@.len() - i,
            {
                let key = &y[i].0;
                assert(py[i as int].0 == key@);
                if last_with_key(x, key).is_none() {
                    proof {
                        lemma_pairs_map_domain(py, key@);
                    }
                    assert(my.dom().contains(key@));
                    return false;
                }
                i = i + 1;
            }
            assert forall|k: Seq<char>|
                #![trigger mx.dom().contains(k)]
                #![trigger my.dom().contains(k)]
                mx.dom().contains(k) <==> my.dom().contains(k) by {
                lemma_pairs_map_domain(px, k);
                lemma_pairs_map_domain(py, k);
                if mx.dom().contains(k) {
                    let j = choose|j: int| 0 <= j < px.len() && (#[trigger] px[j]).0 == k;
                    assert(my.dom().contains(px[j].0));
                }
                if my.dom().contains(k) {
                    let j = choose|j: int| 0 <= j < py.len() && (#[trigger] py[j]).0 == k;
                    assert(mx.dom().contains(py[j].0));
                }
            }
            assert forall|k: Seq<char>| #[trigger] mx.dom().contains(k) implies my[k] == mx[k] by {
                lemma_pairs_map_domain(px, k);
                let j = choose|j: int| 0 <= j < px.len() && (#[trigger] px[j]).0 == k;
                assert(my[px[j].0] == mx[px[j].0]);
            }
            assert(mx.dom() =~= my.dom());
            assert(mx =~= my);
            true
        },
        (None, None) => true,
        _ => false,
    }
}

fn data_type_eq(a: &DataType, b: &DataType) -> (r: bool)
    ensures
        r == (a@ == b@),
    decreases a,
{
    match (a, b) {
        (DataType::Null, DataType::Null) => true,
        (DataType::Boolean, DataType::Boolean) => true,
        (DataType::Int8, DataType::Int8) => true,
        (DataType::Int16, DataType::Int16) => true,
        (DataType::Int32, DataType::Int32) => true,
        (DataType::Int64, DataType::Int64) => true,
        (DataType::UInt8, DataType::UInt8) => true,
        (DataType::UInt16, DataType::UInt16) => true,
        (DataType::UInt32, DataType::UInt32) => true,
        (DataType::UInt64, DataType::UInt64) => true,
        (DataType::Float16, DataType::Float16) => true,
        (DataType::Float32, DataType::Float32) => true,
        (DataType::Float64, DataType::Float64) => true,
        (DataType::Timestamp(u1, z1), DataType::Timestamp(u2, z2)) => *u1 == *u2
            && option_string_eq(z1, z2),
        (DataType::Date32(u1), DataType::Date32(u2)) => *u1 == *u2,
        (DataType::Date64(u1), DataType::Date64(u2)) => *u1 == *u2,
        (DataType::Time32(u1), DataType::Time32(u2)) => *u1 == *u2,
        (DataType::Time64(u1), DataType::Time64(u2)) => *u1 == *u2,
        (DataType::Duration(u1), DataType::Duration(u2)) => *u1 == *u2,
        (DataType::Interval(u1), DataType::Interval(u2)) => *u1 == *u2,
        (DataType::Binary, DataType::Binary) => true,
        (DataType::FixedSizeBinary(n1), DataType::FixedSizeBinary(n2)) => *n1 == *n2,
        (DataType::LargeBinary, DataType::LargeBinary) => true,
        (DataType::Utf8, DataType::Utf8) => true,
        (DataType::LargeUtf8, DataType::LargeUtf8) => true,
        (DataType::List(f1), DataType::List(f2)) => field_eq(f1, f2),
        (DataType::FixedSizeList(f1, n1), DataType::FixedSizeList(f2, n2)) => *n1 == *n2
            && field_eq(f1, f2),
        (DataType::LargeList(f1), DataType::LargeList(f2)) => field_eq(f1, f2),
        (DataType::Struct(v1), DataType::Struct(v2)) => fields_eq(v1, v2),
        (DataType::Union(v1), DataType::Union(v2)) => fields_eq(v1, v2),
        (DataType::Dictionary(k1, v1), DataType::Dictionary(k2, v2)) => data_type_eq(k1, k2)
            && data_type_eq(v1, v2),
        (DataType::Decimal(p1, s1), DataType::Decimal(p2, s2)) => *p1 == *p2 && *s1 == *s2,
        _ => false,
    }
}

fn field_eq(a: &Field, b: &Field) -> (r: bool)
    ensures
        r == (a@ == b@),
    decreases a,
{
    a.name == b.name && a.nullable == b.nullable && a.dict_id == b.dict_id && a.dict_is_ordered
        == b.dict_is_ordered && metadata_eq(&a.metadata, &b.metadata) && data_type_eq(
        &a.data_type,
        &b.data_type,
    )
}

fn fields_eq(a: &Vec<Field>, b: &Vec<Field>) -> (r: bool)
    ensures
        r == (spec_fields(a@) == spec_fields(b@)),
    decreases a,
{
    proof {
        lemma_spec_fields(a@);
        lemma_spec_fields(b@);
    }
    if a.len() != b.len() {
        return false;
    }
    let mut i: usize = 0;
    while i < a.len()
        invariant
            0 <= i <= a.len(),
            a.len() == b.len(),
            spec_fields(a@).len() == a@.len(),
            spec_fields(b@).len() == b@.len(),
            forall|j: int| 0 <= j < a@.len() ==> #[trigger] spec_fields(a@)[j] == spec_field(a@[j]),
            forall|j: int| 0 <= j < b@.len() ==> #[trigger] spec_fields(b@)[j] == spec_field(b@[j]),
            forall|j: int| 0 <= j < i ==> spec_field(a@[j]) == spec_field(b@[j]),
        decreases a.len() - i,
    {
        if !field_eq(&a[i], &b[i]) {
            assert(spec_fields(a@)[i as int] != spec_fields(b@)[i as int]);
            return false;
        }
        i = i + 1;
    }
    assert(spec_fields(a@) =~= spec_fields(b@));
    true
}

fn clone_option_string(a: &Option<String>) -> (r: Option<String>)
    ensures
        spec_option_string(r) == spec_option_string(*a),
{
    match a {
        Some(s) => Some(s.clone()),
        None => None,
    }
}

fn clone_metadata(a: &Option<Vec<(String, String)>>) -> (r: Option<Vec<(String, String)>>)
    ensures
        spec_metadata(r) == spec_metadata(*a),
{
    match a {
        Some(v) => {
            let mut r: Vec<(String, String)> = Vec::new();
            let mut i: usize = 0;
            while i < v.len()
                invariant
                    0 <= i <= v.len(),
                    r@.len() == i,
                    forall|j: int|
                        0 <= j < i ==> (#[trigger] r@[j]).0@ == v@[j].0@ && r@[j].1@ == v@[j].1@,
                decreases v.len() - i,
            {
                r.push((v[i].0.clone(), v[i].1.clone()));
                i = i + 1;
            }
            assert(spec_pairs(r@) =~= spec_pairs(v@));
            Some(r)
        },
        None => None,
    }
}

fn clone_data_type(a: &DataType) -> (r: DataType)
    ensures
        r@ == a@,
    decreases a,
{
    match a {
        DataType::Null => DataType::Null,
        DataType::Boolean => DataType::Boolean,
        DataType::Int8 => DataType::Int8,
        DataType::Int16 => DataType::Int16,
        DataType::Int32 => DataType::Int32,
        DataType::Int64 => DataType::Int64,
        DataType::UInt8 => DataType::UInt8,
        DataType::UInt16 => DataType::UInt16,
        DataType::UInt32 => DataType::UInt32,
        DataType::UInt64 => DataType::UInt64,
        DataType::Float16 => DataType::Float16,
        DataType::Float32 => DataType::Float32,
        DataType::Float64 => DataType::Float64,
        DataType::Timestamp(u, z) => DataType::Timestamp(*u, clone_option_string(z)),
        DataType::Date32(u) => DataType::Date32(*u),
        DataType::Date64(u) => DataType::Date64(*u),
        DataType::Time32(u) => DataType::Time32(*u),
        DataType::Time64(u) => DataType::Time64(*u),
        DataType::Duration(u) => DataType::Duration(*u),
        DataType::Interval(u) => DataType::Interval(*u),
        DataType::Binary => DataType::Binary,
        DataType::FixedSizeBinary(n) => DataType::FixedSizeBinary(*n),
        DataType::LargeBinary => DataType::LargeBinary,
        DataType::Utf8 => DataType::Utf8,
        DataType::LargeUtf8 => DataType::LargeUtf8,
        DataType::List(f) => DataType::List(Box::new(clone_field(f))),
        DataType::FixedSizeList(f, n) => DataType::FixedSizeList(Box::new(clone_field(f)), *n),
        DataType::LargeList(f) => DataType::LargeList(Box::new(clone_field(f))),
        DataType::Struct(v) => DataType::Struct(clone_fields(v)),
        DataType::Union(v) => DataType::Union(clone_fields(v)),
        DataType::Dictionary(k, v) => DataType::Dictionary(
            Box::new(clone_data_type(k)),
            Box::new(clone_data_type(v)),
        ),
        DataType::Decimal(p, s) => DataType::Decimal(*p, *s),
    }
}

fn clone_field(a: &Field) -> (r: Field)
    ensures
        r@ == a@,
    decreases a,
{
    Field {
        name: a.name.clone(),
        data_type: clone_data_type(&a.data_type),
        nullable: a.nullable,
        dict_id: a.dict_id,
        dict_is_ordered: a.dict_is_ordered,
        metadata: clone_metadata(&a.metadata),
    }
}

fn clone_fields(a: &Vec<Field>) -> (r: Vec<Field>)
    ensures
        spec_fields(r@) == spec_fields(a@),
    decreases a,
{
    let mut r: Vec<Field> = Vec::new();
    let mut i: usize = 0;
    while i < a.len()
        invariant
            0 <= i <= a.len(),
            r@.len() == i,
            forall|j: int| 0 <= j < i ==> (#[trigger] r@[j])@ == a@[j]@,
        decreases a.len() - i,
    {
        r.push(clone_field(&a[i]));
        i = i + 1;
    }
    proof {
        lemma_spec_fields(a@);
        lemma_spec_fields(r@);
        assert(spec_fields(r@) =~= spec_fields(a@));
    }
    r
}

impl PartialEq for DataType {
    fn eq(&self, other: &Self) -> (r: bool) {
        data_type_eq(self, other)
    }
}

impl vstd::std_specs::cmp::PartialEqSpecImpl for DataType {
    open spec fn obeys_eq_spec() -> bool {
        true
    }

    open spec fn eq_spec(&self, other: &DataType) -> bool {
        self@ == other@
    }
}

impl Eq for DataType {

}

impl PartialEq for Field {
    fn eq(&self, other: &Self) -> (r: bool) {
        field_eq(self, other)
    }
}

impl vstd::std_specs::cmp::PartialEqSpecImpl for Field {
    open spec fn obeys_eq_spec() -> bool {
        true
    }

    open spec fn eq_spec(&self, other: &Field) -> bool {
        self@ == other@
    }
}

impl Eq for Field {

}

impl Clone for DataType {
    fn clone(&self) -> (r: Self)
        ensures
            r@ == self@,
    {
        clone_data_type(self)
    }
}

impl Clone for Field {
    fn clone(&self) -> (r: Self)
        ensures
            r@ == self@,
    {
        clone_field(self)
    }
}

impl Field {
    /// A field with the given name, type and nullability, no dictionary and no
    /// metadata.
    pub fn new(name: &str, data_type: DataType, nullable: bool) -> (f: Field)
        ensures
            f@ == (SpecField {
                name: name@,
                data_type: data_type@,
                nullable,
                dict_id: 0,
                dict_is_ordered: false,
                metadata: None,
            }),
    {
        Field {
            name: name.to_owned(),
            data_type,
            nullable,
            dict_id: 0,
            dict_is_ordered: false,
            metadata: None,
        }
    }
}

} // verus!
