//! Rows returned by a query.
use vstd::prelude::*;

use crate::bindings as sql;
use crate::driver::{TypeInfo, Value};
use crate::error::Error;
use crate::util::{debug_str, decimal, str_debug, u128_to_decimal};

verus! {

/// A column of a row: its position, name and type.
#[derive(Debug)]
pub struct Column {
    ordinal: usize,
    name: String,
    type_info: TypeInfo,
}

impl Column {
    /// The position of the column in its row.
    pub closed spec fn spec_ordinal(self) -> usize {
        self.ordinal
    }

    /// The name of the column.
    pub closed spec fn spec_name(self) -> Seq<char> {
        self.name@
    }

    /// The type of the column.
    pub closed spec fn spec_type_info(self) -> sql::TypeInfo {
        self.type_info@
    }

    /// The name of the column.
    pub fn name(&self) -> (name: &str)
        ensures
            name@ == self.spec_name(),
    {
        self.name.as_str()
    }

    /// The position of the column in its row.
    pub fn ordinal(&self) -> (ordinal: usize)
        ensures
            ordinal == self.spec_ordinal(),
    {
        self.ordinal
    }

    /// The type of the column.
    pub fn type_info(&self) -> (ty: &TypeInfo)
        ensures
            ty@ == self.spec_type_info(),
    {
        &self.type_info
    }
}

/// A row returned by a query: its columns and the value in each.
#[derive(Debug)]
pub struct Row {
    columns: Vec<Column>,
    values: Vec<Value>,
}

/// How a column of a row is selected: by position or by name.
#[derive(Clone, Copy, Debug)]
pub enum ColumnIndex<'a> {
    Position(usize),
    Name(&'a str),
}

impl Row {
    #[verifier::type_invariant]
    spec fn well_formed(self) -> bool {
        &&& self.columns.len() == self.values.len()
        &&& forall|i: int| 0 <= i < self.columns.len() ==> #[trigger] self.columns@[i].ordinal == i
        &&& forall|i: int|
            0 <= i < self.columns.len() ==> #[trigger] self.columns@[i].type_info@
                == self.values@[i].0.spec_type_info()
    }

    /// The number of columns.
    pub closed spec fn spec_len(self) -> nat {
        self.columns.len() as nat
    }

    /// The name of the column at a position.
    pub closed spec fn column_name(self, i: int) -> Seq<char> {
        self.columns@[i].name@
    }

    /// The value at a position.
    pub closed spec fn value_at(self, i: int) -> sql::Value {
        self.values@[i].0
    }

    /// The column at a position.
    pub closed spec fn column_at(self, i: int) -> Column {
        self.columns@[i]
    }

    /// Whether this row was built from the given row returned by the runtime.
    pub open spec fn built_from(self, raw: sql::Row) -> bool {
        &&& self.spec_len() == raw.columns.len()
        &&& forall|i: int|
            0 <= i < raw.columns.len() ==> #[trigger] self.column_name(i) == raw.columns@[i].name@
                && self.value_at(i) == raw.columns@[i].value && self.column_at(i).spec_ordinal()
                == i && self.column_at(i).spec_name() == raw.columns@[i].name@
                && self.column_at(i).spec_type_info() == raw.columns@[i].value.spec_type_info()
    }

    /// Build a row from a row returned by the runtime.
    ///
    /// Column `i` is named as the runtime named it, has ordinal `i` and the
    /// type of its value.
    pub fn from_raw(raw: sql::Row) -> (row: Self)
        ensures
            row.built_from(raw),
    {
        let ghost raw_columns = raw.columns@;
        let mut columns: Vec<Column> = Vec::new();
        let mut values: Vec<Value> = Vec::new();
        for column in it: raw.columns.into_iter()
            invariant
                it.seq() == raw_columns,
                columns.len() == it.index(),
                values.len() == it.index(),
                forall|i: int| 0 <= i < it.index() ==> #[trigger] columns@[i].ordinal == i,
                forall|i: int|
                    0 <= i < it.index() ==> #[trigger] columns@[i].type_info@
                        == values@[i].0.spec_type_info(),
                forall|i: int|
                    0 <= i < it.index() ==> #[trigger] columns@[i].name@ == raw_columns[i].name@
                        && values@[i].0 == raw_columns[i].value,
        {
            let ghost n = it.index() as int;
            let ghost before_columns = columns@;
            let ghost before_values = values@;
            let value = Value(column.value);
            let type_info = value.type_info();
            columns.push(Column { ordinal: columns.len(), name: column.name, type_info });
            values.push(value);
            proof {
                assert(columns@[n].name@ == raw_columns[n].name@ && values@[n].0 == raw_columns[n].value);
                assert forall|i: int| 0 <= i < n implies #[trigger] columns@[i] == before_columns[i]
                    && values@[i] == before_values[i] by {}
                assert forall|i: int| 0 <= i < n + 1 implies #[trigger] columns@[i].name@ == raw_columns[i].name@
                    && values@[i].0 == raw_columns[i].value by {
                    if i < n {
                        assert(columns@[i] == before_columns[i]);
                    }
                }
            }
        }
        Row { columns, values }
    }

    /// A copy of this row: columns of the same names holding copies of the
    /// same values.
    pub fn clone(&self) -> (copy: Row)
        ensures
            copy.spec_len() == self.spec_len(),
            forall|i: int|
                0 <= i < self.spec_len() ==> #[trigger] copy.column_name(i) == self.column_name(i)
                    && copy.value_at(i).same_value(self.value_at(i)),
    {
        proof {
            use_type_invariant(self);
        }
        let mut columns: Vec<Column> = Vec::new();
        let mut values: Vec<Value> = Vec::new();
        let mut i: usize = 0;
        while i < self.values.len()
            invariant
                self.columns.len() == self.values.len(),
                i <= self.values.len(),
                columns.len() == i,
                values.len() == i,
                forall|k: int| 0 <= k < i ==> #[trigger] columns@[k].ordinal == k,
                forall|k: int|
                    0 <= k < i ==> #[trigger] columns@[k].type_info@ == values@[k].0.spec_type_info(),
                forall|k: int|
                    0 <= k < i ==> #[trigger] columns@[k].name@ == self.columns@[k].name@
                        && values@[k].0.same_value(self.values@[k].0),
            decreases self.values.len() - i,
        {
            let value = self.values[i].clone();
            let type_info = value.type_info();
            let ghost before_columns = columns@;
            let ghost before_values = values@;
            columns.push(Column { ordinal: i, name: self.columns[i].name.clone(), type_info });
            values.push(value);
            proof {
                assert forall|k: int| 0 <= k < i implies #[trigger] columns@[k] == before_columns[k]
                    && values@[k] == before_values[k] by {}
                assert(values@[i as int].0.same_value(self.values@[i as int].0));
                assert(columns@[i as int].name@ == self.columns@[i as int].name@);
                assert forall|k: int| 0 <= k < i + 1 implies #[trigger] columns@[k].name@ == self.columns@[k].name@
                    && values@[k].0.same_value(self.values@[k].0) by {
                    if k < i {
                        assert(columns@[k] == before_columns[k]);
                        assert(values@[k] == before_values[k]);
                    }
                }
            }
            i += 1;
        }
        Row { columns, values }
    }

    /// The number of columns in this row.
    pub fn len(&self) -> (len: usize)
        ensures
            len == self.spec_len(),
    {
        proof {
            use_type_invariant(self);
        }
        self.columns.len()
    }

    /// Whether this row has no columns.
    pub fn is_empty(&self) -> (empty: bool)
        ensures
            empty == (self.spec_len() == 0),
    {
        self.len() == 0
    }

    /// The columns of this row.
    pub fn columns(&self) -> (columns: &Vec<Column>)
        ensures
            columns.len() == self.spec_len(),
            forall|i: int| 0 <= i < columns.len() ==> #[trigger] columns@[i] == self.column_at(i),
    {
        &self.columns
    }

    /// The first position whose column has the given name.
    pub open spec fn first_named(self, name: Seq<char>) -> Option<int> {
        if exists|i: int| 0 <= i < self.spec_len() && #[trigger] self.column_name(i) == name {
            Some(
                choose|i: int|
                    0 <= i < self.spec_len() && #[trigger] self.column_name(i) == name && forall|
                        j: int,
                    |
                        0 <= j < i ==> #[trigger] self.column_name(j) != name,
            )
        } else {
            None
        }
    }

    /// The position of the column that `index` selects, if any.
    pub open spec fn position(self, index: ColumnIndex) -> Option<int> {
        match index {
            ColumnIndex::Position(i) => if i < self.spec_len() {
                Some(i as int)
            } else {
                None
            },
            ColumnIndex::Name(name) => self.first_named(name@),
        }
    }

    /// The position of the column selected by `index`.
    ///
    /// A position must be smaller than the number of columns, else the error
    /// is `ColumnIndexOutOfBounds`. A name selects the first column with that
    /// name, else the error is `ColumnNotFound`.
    pub fn index(&self, index: ColumnIndex) -> (position: Result<usize, Error>)
        ensures
            position is Ok <==> self.position(index) is Some,
            position matches Ok(p) ==> self.position(index) == Some(p as int),
            index matches ColumnIndex::Position(i) ==> {
                &&& i < self.spec_len() ==> position == Ok::<usize, Error>(i)
                &&& i >= self.spec_len() ==> position == Err::<usize, Error>(
                    Error::ColumnIndexOutOfBounds { index: i, len: self.spec_len() as usize },
                )
            },
            index matches ColumnIndex::Name(name) ==> {
                &&& position matches Ok(p) ==> {
                    &&& p < self.spec_len()
                    &&& self.column_name(p as int) == name@
                    &&& forall|j: int| 0 <= j < p ==> #[trigger] self.column_name(j) != name@
                }
                &&& position is Err ==> forall|j: int|
                    0 <= j < self.spec_len() ==> #[trigger] self.column_name(j) != name@
                &&& position matches Err(e) ==> (e matches Error::ColumnNotFound(n) && n@
                    == name@)
            },
    {
        proof {
            use_type_invariant(self);
        }
        match index {
            ColumnIndex::Position(i) => {
                if i >= self.len() {
                    Err(Error::ColumnIndexOutOfBounds { index: i, len: self.len() })
                } else {
                    Ok(i)
                }
            },
            ColumnIndex::Name(name) => {
                let target = name.to_owned();
                let mut j: usize = 0;
                while j < self.columns.len()
                    invariant
                        j <= self.columns.len(),
                        target@ == name@,
                        index == ColumnIndex::Name(name),
                        forall|k: int| 0 <= k < j ==> #[trigger] self.column_name(k) != name@,
                    decreases self.columns.len() - j,
                {
                    if self.columns[j].name == target {
                        proof {
                            let w = j as int;
                            assert(self.column_name(w) == name@);
                            assert(forall|k: int| 0 <= k < w ==> #[trigger] self.column_name(k) != name@);
                            let c = choose|i: int|
                                0 <= i < self.spec_len() && #[trigger] self.column_name(i) == name@
                                    && forall|k: int| 0 <= k < i ==> #[trigger] self.column_name(k) != name@;
                            assert(c == w);
                        }
                        return Ok(j);
                    }
                    j += 1;
                }
                Err(Error::ColumnNotFound(target))
            },
        }
    }

    /// Whether `e` is the error of selecting a column with `index` that
    /// selects none.
    pub open spec fn index_error(self, index: ColumnIndex, e: Error) -> bool {
        match index {
            ColumnIndex::Position(i) => e == Error::ColumnIndexOutOfBounds {
                index: i,
                len: self.spec_len() as usize,
            },
            ColumnIndex::Name(n) => (e matches Error::ColumnNotFound(m) && m@ == n@),
        }
    }

    /// The value of the column selected by `index`, without decoding it.
    pub fn try_get_raw(&self, index: ColumnIndex) -> (value: Result<&Value, Error>)
        ensures
            value is Ok <==> self.position(index) is Some,
            value matches Ok(v) ==> v.0 == self.value_at(self.position(index).unwrap()),
            value matches Err(e) ==> self.index_error(index, e),
    {
        proof {
            use_type_invariant(self);
        }
        let position = self.index(index)?;
        Ok(&self.values[position])
    }

    /// Decode the value of the column selected by `index`.
    ///
    /// `rust_type` and `sql_type` name the type decoded into and the SQL type
    /// that it is stored as; `compatible` says whether it can be decoded from
    /// a SQL type and `decode` decodes it. A value that is not NULL and whose
    /// type is not compatible is refused without decoding it.
    pub fn try_get<T, C: Fn(&TypeInfo) -> bool, D: Fn(&Value) -> Result<T, String>>(
        &self,
        index: ColumnIndex,
        rust_type: &str,
        sql_type: &TypeInfo,
        compatible: C,
        decode: D,
    ) -> (r: Result<T, Error>)
        requires
            forall|t: &TypeInfo| #[trigger] compatible.requires((t,)),
            forall|v: &Value| #[trigger] decode.requires((v,)),
        ensures
            self.position(index) is None ==> (r matches Err(e) && self.index_error(index, e)),
            self.position(index) matches Some(p) ==> decoded(
                self.value_at(p),
                index_label(index),
                rust_type@,
                sql_type@.spec_name(),
                compatible,
                decode,
                r,
            ),
    {
        let value = match self.try_get_raw(index) {
            Ok(value) => value,
            Err(e) => return Err(e),
        };
        if !value.is_null() {
            let ty = value.type_info();
            if !ty.is_null() && !compatible(&ty) {
                let mut source = String::from_str("mismatched types; Rust type `");
                source.append(rust_type);
                source.append("` (as SQL type `");
                source.append(sql_type.name());
                source.append("`) is not compatible with SQL type `");
                source.append(ty.name());
                source.append("`");
                proof {
                    assert(source@ =~= mismatch_message(rust_type@, sql_type@.spec_name(), ty@.spec_name()));
                }
                return Err(Error::ColumnDecode { index: column_label(index), source });
            }
        }
        let x = decode(value);
        match x {
            Ok(o) => Ok(o),
            Err(source) => Err(Error::ColumnDecode { index: column_label(index), source }),
        }
    }

    /// Decode the value of the column selected by `index`, where that column
    /// exists and its value decodes.
    ///
    /// See `try_get`.
    pub fn get<T, C: Fn(&TypeInfo) -> bool, D: Fn(&Value) -> Result<T, String>>(
        &self,
        index: ColumnIndex,
        rust_type: &str,
        sql_type: &TypeInfo,
        compatible: C,
        decode: D,
    ) -> (t: T)
        requires
            forall|t: &TypeInfo| #[trigger] compatible.requires((t,)),
            forall|v: &Value| #[trigger] decode.requires((v,)),
            self.position(index) is Some,
            !(self.value_at(self.position(index).unwrap()) is Null) ==> forall|t: &TypeInfo, b: bool|
                t@ == self.value_at(self.position(index).unwrap()).spec_type_info()
                    && #[trigger] compatible.ensures((t,), b) ==> b,
            forall|v: &Value, x: Result<T, String>|
                v.0 == self.value_at(self.position(index).unwrap()) && #[trigger] decode.ensures((v,), x)
                    ==> x is Ok,
        ensures
            exists|v: Value|
                v.0 == self.value_at(self.position(index).unwrap()) && #[trigger] decode.ensures(
                    (&v,),
                    Ok::<T, String>(t),
                ),
    {
        let r = self.try_get(index, rust_type, sql_type, compatible, decode);
        match r {
            Ok(t) => t,
            Err(_) => vstd::pervasive::unreached(),
        }
    }
}

/// The text by which an error names the column that `index` selects: a
/// position in decimal, a name as `Debug` writes it.
pub open spec fn index_label(index: ColumnIndex) -> Seq<char> {
    match index {
        ColumnIndex::Position(i) => decimal(i as nat),
        ColumnIndex::Name(n) => str_debug(n@),
    }
}

/// The text by which an error names the column that `index` selects.
fn column_label(index: ColumnIndex) -> (label: String)
    ensures
        label@ == index_label(index),
{
    match index {
        ColumnIndex::Position(i) => u128_to_decimal(i as u128),
        ColumnIndex::Name(n) => debug_str(n),
    }
}

/// The message for a value whose SQL type `actual` the Rust type
/// `rust_type`, stored as SQL type `sql_type`, cannot be decoded from.
pub open spec fn mismatch_message(rust_type: Seq<char>, sql_type: Seq<char>, actual: Seq<char>) -> Seq<char> {
    "mismatched types; Rust type `"@ + rust_type + "` (as SQL type `"@ + sql_type
        + "`) is not compatible with SQL type `"@ + actual + "`"@
}

/// Whether `r` is what decoding the value `raw` of the column named `label`
/// gives, with `compatible` and `decode`: a value that is not NULL and whose
/// type is found incompatible is refused; otherwise it is decoded, and an
/// error of decoding names the column.
pub open spec fn decoded<T, C: Fn(&TypeInfo) -> bool, D: Fn(&Value) -> Result<T, String>>(
    raw: sql::Value,
    label: Seq<char>,
    rust_type: Seq<char>,
    sql_type: Seq<char>,
    compatible: C,
    decode: D,
    r: Result<T, Error>,
) -> bool {
    ||| {
        &&& !(raw is Null)
        &&& exists|t: TypeInfo| t@ == raw.spec_type_info() && #[trigger] compatible.ensures((&t,), false)
        &&& r matches Err(Error::ColumnDecode { index, source })
        &&& index@ == label
        &&& source@ == mismatch_message(rust_type, sql_type, raw.spec_type_info().spec_name())
    }
    ||| {
        &&& (raw is Null || exists|t: TypeInfo|
            t@ == raw.spec_type_info() && #[trigger] compatible.ensures((&t,), true))
        &&& exists|v: Value, x: Result<T, String>|
            {
                &&& v.0 == raw
                &&& #[trigger] decode.ensures((&v,), x)
                &&& match x {
                    Ok(o) => r == Ok::<T, Error>(o),
                    Err(s) => (r matches Err(Error::ColumnDecode { index, source }) && index@ == label
                        && source@ == s@),
                }
            }
    }
}

} // verus!
