//! The arguments bound to a query.
use vstd::prelude::*;

use crate::bindings as sql;
use crate::driver::{TypeInfo, Value};

verus! {

/// Whether encoding a value produced a NULL.
#[derive(Clone, Copy, Debug, PartialEq, Eq, Structural)]
pub enum IsNull {
    /// The value is NULL; nothing was written.
    Yes,
    /// The value is not NULL.
    No,
}

/// The values bound to the parameters of a query, in order.
#[derive(Debug)]
pub struct Arguments(Vec<Value>);

/// The values that binding one argument leaves behind: the values that its
/// encoder wrote, followed by a NULL of its type when the encoder reported a
/// NULL.
pub open spec fn bound_values(ty: sql::TypeInfo, written: Seq<Value>, encoded: Result<IsNull, String>) -> Seq<Value> {
    match encoded {
        Ok(IsNull::Yes) => written.push(Value(sql::Value::Null(ty))),
        _ => written,
    }
}

/// Binding an argument keeps what its encoder wrote, in order; a NULL that the
/// encoder reported adds exactly one value after those, a NULL of the
/// argument's own type, and nothing else is ever added.
pub proof fn lemma_bound_values_keep_written(
    ty: sql::TypeInfo,
    written: Seq<Value>,
    encoded: Result<IsNull, String>,
)
    ensures
        bound_values(ty, written, encoded).subrange(0, written.len() as int) == written,
        encoded == Ok::<IsNull, String>(IsNull::Yes) ==> {
            &&& bound_values(ty, written, encoded).len() == written.len() + 1
            &&& bound_values(ty, written, encoded)[written.len() as int].0 == sql::Value::Null(ty)
        },
        encoded != Ok::<IsNull, String>(IsNull::Yes) ==> bound_values(ty, written, encoded).len()
            == written.len(),
{
    let b = bound_values(ty, written, encoded);
    assert(b.subrange(0, written.len() as int) =~= written);
}

impl Arguments {
    /// The bound values.
    pub closed spec fn spec_values(self) -> Seq<Value> {
        self.0@
    }

    /// No arguments.
    pub fn new() -> (args: Self)
        ensures
            args.spec_values() == Seq::<Value>::empty(),
    {
        Arguments(Vec::new())
    }

    /// The number of bound values.
    pub fn len(&self) -> (len: usize)
        ensures
            len == self.spec_values().len(),
    {
        self.0.len()
    }

    /// Make room for `additional` more values.
    pub fn reserve(&mut self, additional: usize)
        ensures
            final(self).spec_values() == old(self).spec_values(),
    {
        self.0.reserve(additional);
    }

    /// Bind one argument.
    ///
    /// `written` holds the values that the argument's encoder wrote, and
    /// `encoded` what the encoder reported. When it reported a NULL, a NULL of
    /// the argument's type `ty` is bound. An encoding error is handed back
    /// after the written values have been kept.
    pub fn add(&mut self, ty: TypeInfo, written: Vec<Value>, encoded: Result<IsNull, String>) -> (r: Result<(), String>)
        ensures
            final(self).spec_values() == old(self).spec_values() + bound_values(ty@, written@, encoded),
            r is Ok <==> encoded is Ok,
            r matches Err(e) ==> encoded == Err::<IsNull, String>(e),
    {
        let mut written = written;
        let ghost w = written@;
        self.0.append(&mut written);
        match encoded {
            Ok(IsNull::Yes) => {
                self.0.push(Value(sql::Value::Null(ty.into_inner())));
                Ok(())
            },
            Ok(IsNull::No) => Ok(()),
            Err(e) => Err(e),
        }
    }

    /// The bound values.
    pub fn values(&self) -> (values: &Vec<Value>)
        ensures
            values@ == self.spec_values(),
    {
        &self.0
    }

    /// The bound values, as the runtime takes them.
    pub fn into_raw(self) -> (raw: Vec<sql::Value>)
        ensures
            raw.len() == self.spec_values().len(),
            forall|i: int| 0 <= i < raw.len() ==> #[trigger] raw@[i] == self.spec_values()[i].0,
    {
        let ghost values = self.0@;
        let mut raw: Vec<sql::Value> = Vec::new();
        for value in it: self.0.into_iter()
            invariant
                it.seq() == values,
                raw.len() == it.index(),
                forall|i: int| 0 <= i < it.index() ==> #[trigger] raw@[i] == values[i].0,
        {
            raw.push(value.0);
        }
        raw
    }
}

} // verus!
