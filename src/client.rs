//! The caller's side: building requests, and the statement and row handles
//! built from what requests resolve with.
use vstd::prelude::*;
use crate::connection::{str_eq, BatchExecute, CopyOut, Execute, Prepare, Query};
use crate::error::Error;
use crate::message::Column;
use crate::request::Response;
use crate::transaction::Transaction;
use crate::value::{decode, deserialize, encode, serialize, type_oid, Type, Value, ValueView};

verus! {

/// A prepared statement: its server-side name, parameter types and result
/// columns.
pub struct Statement {
    name: String,
    params: Vec<u32>,
    columns: Vec<Column>,
}

impl Statement {
    pub closed spec fn name_view(&self) -> Seq<char> {
        self.name@
    }

    pub closed spec fn params_view(&self) -> Seq<u32> {
        self.params@
    }

    pub closed spec fn columns_view(&self) -> Seq<Column> {
        self.columns@
    }

    /// The statement that a prepare request named `name` resolved with;
    /// `None` for a response of another kind.
    pub fn from_response(name: String, response: Response) -> (r: Option<Statement>)
        ensures
            match response {
                Response::Prepared { params, columns } => r matches Some(s) && s.name_view() == name@
                    && s.params_view() == params@
                    && s.columns_view() == match columns {
                        Some(c) => c@,
                        None => Seq::<Column>::empty(),
                    },
                _ => r is None,
            },
    {
        match response {
            Response::Prepared { params, columns } => {
                let columns = match columns {
                    Some(c) => c,
                    None => Vec::new(),
                };
                Some(Statement { name, params, columns })
            },
            _ => None,
        }
    }

    pub fn name(&self) -> (r: &str)
        ensures
            r@ == self.name_view(),
    {
        self.name.as_str()
    }

    /// The object ids of the parameter types.
    pub fn params(&self) -> (r: &[u32])
        ensures
            r@ == self.params_view(),
    {
        self.params.as_slice()
    }

    pub fn columns(&self) -> (r: &[Column])
        ensures
            r@ == self.columns_view(),
    {
        self.columns.as_slice()
    }
}

/// Whether `p` is the encoding of the parameter `v` (`None` for SQL NULL).
pub open spec fn param_encoded(p: Option<Vec<u8>>, v: Option<Value>) -> bool {
    match (p, v) {
        (Some(b), Some(x)) => b@ == encode(x@),
        (None, None) => true,
        _ => false,
    }
}

pub open spec fn params_encoded(ps: Seq<Option<Vec<u8>>>, vs: Seq<Option<Value>>) -> bool {
    &&& ps.len() == vs.len()
    &&& forall|i: int| 0 <= i < ps.len() ==> param_encoded(#[trigger] ps[i], vs[i])
}

fn encode_params(params: &[Option<Value>]) -> (r: Vec<Option<Vec<u8>>>)
    ensures
        params_encoded(r@, params@),
{
    let mut r: Vec<Option<Vec<u8>>> = Vec::new();
    let mut i: usize = 0;
    while i < params.len()
        invariant
            i <= params@.len(),
            params_encoded(r@, params@.take(i as int)),
        decreases params@.len() - i,
    {
        let p = match &params[i] {
            Some(v) => Some(serialize(v)),
            None => None,
        };
        r.push(p);
        i = i + 1;
        proof {
            assert forall|k: int| 0 <= k < r@.len() implies param_encoded(#[trigger] r@[k], params@.take(i as int)[k]) by {
                if k < r@.len() - 1 {
                    assert(params@.take(i as int)[k] == params@.take(i - 1)[k]);
                }
            }
        }
    }
    proof {
        assert(params@.take(i as int) =~= params@);
    }
    r
}

/// Builds requests; the connection that takes a prepare names its statement.
pub struct Client {}

impl Client {
    pub fn new() -> (r: Client) {
        Client {}
    }

    /// A prepare request for `query`, with the parameter types left to the
    /// server.
    pub fn prepare(&mut self, query: &str) -> (r: Prepare)
        ensures
            r.query@ == query@,
            r.param_types@.len() == 0,
    {
        self.prepare_typed(query, &[])
    }

    /// A prepare request for `query` with the given parameter types.
    pub fn prepare_typed(&mut self, query: &str, param_types: &[Type]) -> (r: Prepare)
        ensures
            r.query@ == query@,
            r.param_types@.len() == param_types@.len(),
            forall|i: int| 0 <= i < param_types@.len() ==> r.param_types@[i] == type_oid(#[trigger] param_types@[i]),
    {
        let mut oids: Vec<u32> = Vec::new();
        let mut i: usize = 0;
        while i < param_types.len()
            invariant
                i <= param_types@.len(),
                oids@.len() == i,
                forall|k: int| 0 <= k < i ==> oids@[k] == type_oid(#[trigger] param_types@[k]),
            decreases param_types@.len() - i,
        {
            oids.push(param_types[i].oid());
            i = i + 1;
        }
        Prepare { query: String::from_str(query), param_types: oids }
    }

    /// An execute request for `statement` with `params`.
    pub fn execute(&mut self, statement: &Statement, params: &[Option<Value>]) -> (r: Execute)
        ensures
            r.statement@ == statement.name_view(),
            params_encoded(r.params@, params@),
    {
        Execute { statement: self.statement_name_of(statement), params: encode_params(params) }
    }

    /// A query request for `statement` with `params`.
    pub fn query(&mut self, statement: &Statement, params: &[Option<Value>]) -> (r: Query)
        ensures
            r.statement@ == statement.name_view(),
            params_encoded(r.params@, params@),
    {
        Query { statement: self.statement_name_of(statement), params: encode_params(params) }
    }

    /// A copy-out request for `statement` with `params`.
    pub fn copy_out(&mut self, statement: &Statement, params: &[Option<Value>]) -> (r: CopyOut)
        ensures
            r.statement@ == statement.name_view(),
            params_encoded(r.params@, params@),
    {
        CopyOut { statement: self.statement_name_of(statement), params: encode_params(params) }
    }

    /// A simple-protocol request for the statements in `query`.
    pub fn batch_execute(&mut self, query: &str) -> (r: BatchExecute)
        ensures
            r.query@ == query@,
    {
        BatchExecute { query: String::from_str(query) }
    }

    /// A transaction around a unit of work whose value is `T` and whose error
    /// is `E`; it starts by sending `BEGIN`.
    pub fn transaction<T, E>(&mut self) -> (r: Transaction<T, E>)
        ensures
            r.is_starting(),
    {
        Transaction::new()
    }

    fn statement_name_of(&self, statement: &Statement) -> (r: String)
        ensures
            r@ == statement.name_view(),
    {
        String::from_str(statement.name.as_str())
    }
}

/// The value of column `idx` read as type `ty`: `None` where the row has no
/// such column, a type error where the column has another type, `Some(None)`
/// for SQL NULL.
pub open spec fn cell(columns: Seq<Column>, values: Seq<Option<Vec<u8>>>, idx: int, ty: Type)
    -> Result<Option<Option<ValueView>>, Error>
{
    if idx < 0 || idx >= values.len() || idx >= columns.len() {
        Ok(None)
    } else if columns[idx].type_oid != type_oid(ty) {
        Err(Error::WrongType)
    } else {
        match values[idx] {
            None => Ok(Some(None)),
            Some(b) => match decode(b@, ty) {
                Some(v) => Ok(Some(Some(v))),
                None => Err(Error::InvalidValue),
            },
        }
    }
}

pub open spec fn cell_view(r: Result<Option<Option<Value>>, Error>) -> Result<Option<Option<ValueView>>, Error> {
    match r {
        Ok(Some(Some(v))) => Ok(Some(Some(v@))),
        Ok(Some(None)) => Ok(Some(None)),
        Ok(None) => Ok(None),
        Err(e) => Err(e),
    }
}

/// The index of the first column named `name`.
pub open spec fn column_position(columns: Seq<Column>, name: Seq<char>) -> Option<int> {
    if exists|i: int| 0 <= i < columns.len() && (#[trigger] columns[i]).name@ == name {
        Some(choose|i: int| 0 <= i < columns.len() && columns[i].name@ == name
            && forall|j: int| 0 <= j < i ==> (#[trigger] columns[j]).name@ != name)
    } else {
        None
    }
}

/// Two column lists with the same names and types, in the same order.
pub open spec fn same_columns(a: Seq<Column>, b: Seq<Column>) -> bool {
    &&& a.len() == b.len()
    &&& forall|i: int| 0 <= i < a.len() ==> (#[trigger] a[i]).name@ == b[i].name@ && a[i].type_oid == b[i].type_oid
}

fn copy_columns(cs: &[Column]) -> (r: Vec<Column>)
    ensures
        same_columns(r@, cs@),
{
    let mut r: Vec<Column> = Vec::new();
    let mut i: usize = 0;
    while i < cs.len()
        invariant
            i <= cs@.len(),
            r@.len() == i,
            forall|k: int| 0 <= k < i ==> (#[trigger] r@[k]).name@ == cs@[k].name@ && r@[k].type_oid == cs@[k].type_oid,
        decreases cs@.len() - i,
    {
        r.push(Column { name: String::from_str(cs[i].name.as_str()), type_oid: cs[i].type_oid });
        i = i + 1;
    }
    r
}

/// One result row with the columns of the statement that produced it.
pub struct Row {
    columns: Vec<Column>,
    values: Vec<Option<Vec<u8>>>,
}

impl Row {
    pub closed spec fn columns_view(&self) -> Seq<Column> {
        self.columns@
    }

    pub closed spec fn values_view(&self) -> Seq<Option<Vec<u8>>> {
        self.values@
    }

    pub fn new(columns: Vec<Column>, values: Vec<Option<Vec<u8>>>) -> (r: Row)
        ensures
            r.columns_view() == columns@,
            r.values_view() == values@,
    {
        Row { columns, values }
    }

    /// The row that a query of `statement` handed out as `values`: it carries
    /// the statement's columns.
    pub fn from_statement(statement: &Statement, values: Vec<Option<Vec<u8>>>) -> (r: Row)
        ensures
            same_columns(r.columns_view(), statement.columns_view()),
            r.values_view() == values@,
    {
        Row { columns: copy_columns(statement.columns()), values }
    }

    pub fn columns(&self) -> (r: &[Column])
        ensures
            r@ == self.columns_view(),
    {
        self.columns.as_slice()
    }

    /// The number of values in the row.
    pub fn len(&self) -> (r: usize)
        ensures
            r == self.values_view().len(),
    {
        self.values.len()
    }

    /// The index of the first column named `name`, if any.
    pub fn column_index(&self, name: &str) -> (r: Option<usize>)
        ensures
            match r {
                Some(i) => column_position(self.columns_view(), name@) == Some(i as int),
                None => column_position(self.columns_view(), name@) is None,
            },
    {
        let mut i: usize = 0;
        while i < self.columns.len()
            invariant
                i <= self.columns@.len(),
                forall|j: int| 0 <= j < i ==> (#[trigger] self.columns@[j]).name@ != name@,
            decreases self.columns@.len() - i,
        {
            if str_eq(self.columns[i].name.as_str(), name) {
                proof {
                    let cs = self.columns@;
                    assert(0 <= i < cs.len() && cs[i as int].name@ == name@);
                    let k = column_position(cs, name@)->Some_0;
                    assert(k == i) by {
                        if k < i {
                        } else if k > i {
                            assert(cs[i as int].name@ == name@);
                        }
                    }
                }
                return Some(i);
            }
            i = i + 1;
        }
        None
    }

    /// The value of column `idx` as type `ty`.
    pub fn try_get(&self, idx: usize, ty: Type) -> (r: Result<Option<Option<Value>>, Error>)
        ensures
            cell_view(r) == cell(self.columns_view(), self.values_view(), idx as int, ty),
    {
        if idx >= self.values.len() || idx >= self.columns.len() {
            return Ok(None);
        }
        if self.columns[idx].type_oid != ty.oid() {
            return Err(Error::WrongType);
        }
        match &self.values[idx] {
            None => Ok(Some(None)),
            Some(b) => match deserialize(b.as_slice(), ty) {
                Ok(v) => Ok(Some(Some(v))),
                Err(e) => Err(e),
            },
        }
    }

    /// The value of the first column named `name` as type `ty`: `None` where
    /// no column has that name.
    pub fn try_get_named(&self, name: &str, ty: Type) -> (r: Result<Option<Option<Value>>, Error>)
        ensures
            match column_position(self.columns_view(), name@) {
                Some(i) => cell_view(r) == cell(self.columns_view(), self.values_view(), i, ty),
                None => r matches Ok(None),
            },
    {
        match self.column_index(name) {
            Some(i) => self.try_get(i, ty),
            None => Ok(None),
        }
    }

    /// The value of column `idx` as type `ty` (`None` for NULL), where the
    /// column exists and reading it succeeds.
    pub fn get(&self, idx: usize, ty: Type) -> (r: Option<Value>)
        requires
            cell(self.columns_view(), self.values_view(), idx as int, ty) matches Ok(Some(_)),
        ensures
            cell_view(Ok(Some(r))) == cell(self.columns_view(), self.values_view(), idx as int, ty),
    {
        match self.try_get(idx, ty) {
            Ok(Some(v)) => v,
            _ => None,
        }
    }
}

} // verus!
