use vstd::prelude::*;

verus! {

/// A graph database value, as far as this library reads it.
/// A float is held by its IEEE-754 bit pattern.
pub enum Value {
    Boolean(bool),
    Integer(i64),
    Float(u64),
    Str(String),
    List(Vec<Value>),
    Dict(Vec<(String, Value)>),
    Null,
    Other,
}

/// One record returned by a query: its fields in order.
pub struct Record {
    pub fields: Vec<Value>,
}

/// The flattened values of a query result.
pub struct Neo4jResult(pub Vec<Value>);

/// A single value on its way to JSON.
pub struct WrappedValue(pub Value);


/// The values of all records, record after record, each record's fields in order.
pub open spec fn flatten_records(records: Seq<Record>) -> Seq<Value>
    decreases records.len(),
{
    if records.len() == 0 {
        Seq::empty()
    } else {
        flatten_records(records.drop_last()) + records.last().fields@
    }
}

/// The number of fields over all records.
pub open spec fn total_fields(records: Seq<Record>) -> nat
    decreases records.len(),
{
    if records.len() == 0 {
        0
    } else {
        total_fields(records.drop_last()) + records.last().fields@.len()
    }
}

/// Flattening keeps every field: the flat list is as long as all records'
/// fields together, and field `j` of record `k` stands at the position after
/// the fields of the records before `k`.
pub proof fn lemma_flatten_keeps_every_field(records: Seq<Record>)
    ensures
        flatten_records(records).len() == total_fields(records),
        forall|k: int, j: int|
            0 <= k < records.len() && 0 <= j < records[k].fields@.len() ==> flatten_records(
                records,
            )[total_fields(records.take(k)) + j] == #[trigger] records[k].fields@[j],
    decreases records.len(),
{
    if records.len() > 0 {
        let prev = records.drop_last();
        lemma_flatten_keeps_every_field(prev);
        assert(records.take(records.len() - 1) =~= prev);
        assert forall|k: int, j: int|
            0 <= k < records.len() && 0 <= j < records[k].fields@.len() implies flatten_records(
                records,
            )[total_fields(records.take(k)) + j] == #[trigger] records[k].fields@[j] by {
            if k < records.len() - 1 {
                assert(prev.take(k) =~= records.take(k));
                assert(prev[k] == records[k]);
                lemma_total_fields_prefix(prev, k);
            }
        }
    }
}

proof fn lemma_total_fields_prefix(records: Seq<Record>, k: int)
    requires
        0 <= k < records.len(),
    ensures
        total_fields(records.take(k)) + records[k].fields@.len() <= total_fields(records),
    decreases records.len(),
{
    if k < records.len() - 1 {
        let prev = records.drop_last();
        assert(prev.take(k) =~= records.take(k));
        lemma_total_fields_prefix(prev, k);
    } else {
        assert(records.take(k) =~= records.drop_last());
    }
}

/// A single record flattens to its own fields.
pub proof fn lemma_flatten_single_record(r: Record)
    ensures
        flatten_records(seq![r]) == r.fields@,
{
    assert(seq![r].drop_last() =~= Seq::<Record>::empty());
    assert(flatten_records(Seq::<Record>::empty()) == Seq::<Value>::empty());
    assert(seq![r].last() == r);
    assert(flatten_records(seq![r]) =~= r.fields@);
}

impl Neo4jResult {
    /// Collects the fields of every record into one flat list of values.
    pub fn from(records: Vec<Record>) -> (result: Neo4jResult)
        ensures
            result.0@ == flatten_records(records@),
            result.0@.len() == total_fields(records@),
            forall|k: int, j: int|
                0 <= k < records@.len() && 0 <= j < records@[k].fields@.len() ==> result.0@[total_fields(
                    records@.take(k),
                ) + j] == #[trigger] records@[k].fields@[j],
    {
        let mut values: Vec<Value> = Vec::new();
        let ghost all = records@;
        for record in it: records
            invariant
                it.seq() == all,
                values@ == flatten_records(all.take(it.index() as int)),
        {
            let ghost before = values@;
            let mut fields = record.fields;
            values.append(&mut fields);
            proof {
                assert(all.take(it.index() + 1).drop_last() =~= all.take(it.index() as int));
            }
        }
        proof {
            assert(all.take(all.len() as int) =~= all);
            lemma_flatten_keeps_every_field(all);
        }
        Neo4jResult(values)
    }
}


/// A JSON document as it is sent back to clients.
/// A float is held by its IEEE-754 bit pattern.
pub enum Json {
    Null,
    Bool(bool),
    Int(i64),
    UInt(u64),
    Float(u64),
    Str(String),
    Array(Vec<Json>),
    Object(Vec<(String, Json)>),
}

/// `j` is the JSON rendering of the database value `v`: scalars and strings map
/// to their JSON counterparts, a dictionary maps entry by entry (same keys, same
/// order, each value rendered in turn), and every other kind of value renders as
/// the empty string.
pub open spec fn renders_as(v: Value, j: Json) -> bool
    decreases v,
{
    match v {
        Value::Boolean(b) => j == Json::Bool(b),
        Value::Integer(n) => j == Json::Int(n),
        Value::Float(bits) => j == Json::Float(bits),
        Value::Str(s) => j matches Json::Str(t) && t@ == s@,
        Value::Dict(entries) => j matches Json::Object(out) && out@.len() == entries@.len()
            && forall|i: int|
            0 <= i < entries@.len() ==> {
                &&& #[trigger] out@[i].0@ == entries@[i].0@
                &&& renders_as(entries@[i].1, out@[i].1)
            },
        _ => j matches Json::Str(t) && t@.len() == 0,
    }
}


/// Scalars render as the JSON scalar of the same value, and a string as the
/// same text: a boolean `b` as `Bool(b)`, an integer `n` as `Int(n)`, a
/// float as the same bits.
pub proof fn lemma_scalars_render_as_themselves(v: Value, j: Json)
    requires
        renders_as(v, j),
    ensures
        v matches Value::Boolean(b) ==> j == Json::Bool(b),
        v matches Value::Integer(n) ==> j == Json::Int(n),
        v matches Value::Float(bits) ==> j == Json::Float(bits),
        v matches Value::Str(s) ==> (j matches Json::Str(t) && t@ == s@),
{
}

/// Renders a database value as JSON; values without a JSON counterpart render
/// as the empty string.
pub fn to_json(v: &Value) -> (j: Json)
    ensures
        renders_as(*v, j),
        *v matches Value::Boolean(b) ==> j == Json::Bool(b),
        *v matches Value::Integer(n) ==> j == Json::Int(n),
        *v matches Value::Float(bits) ==> j == Json::Float(bits),
        *v matches Value::Str(s) ==> (j matches Json::Str(t) && t@ == s@),
    decreases v,
{
    match v {
        Value::Boolean(b) => Json::Bool(*b),
        Value::Integer(n) => Json::Int(*n),
        Value::Float(bits) => Json::Float(*bits),
        Value::Str(s) => Json::Str(s.clone()),
        Value::Dict(entries) => {
            let mut out: Vec<(String, Json)> = Vec::new();
            let mut i: usize = 0;
            while i < entries.len()
                invariant
                    *v == Value::Dict(*entries),
                    i <= entries@.len(),
                    out@.len() == i,
                    forall|k: int|
                        0 <= k < i ==> {
                            &&& #[trigger] out@[k].0@ == entries@[k].0@
                            &&& renders_as(entries@[k].1, out@[k].1)
                        },
                decreases entries@.len() - i,
            {
                proof {
                    let ghost e = entries@[i as int];
                    assert(decreases_to!(*v => (*v)->Dict_0));
                    assert((*v)->Dict_0 == *entries);
                    assert(decreases_to!(*entries => entries@)) by {
                        broadcast use vstd::std_specs::vec::axiom_vec_decreases_to_view;
                    }
                    assert(decreases_to!(entries@ => e));
                    assert(decreases_to!(e => e.1));
                    assert(decreases_to!(*v => e.1));
                }
                let key = entries[i].0.clone();
                let rendered = to_json(&entries[i].1);
                out.push((key, rendered));
                i = i + 1;
            }
            Json::Object(out)
        },
        _ => Json::Str(String::new()),
    }
}


/// `j` is an array rendering each value in turn.
pub open spec fn renders_all(values: Seq<Value>, j: Json) -> bool {
    j matches Json::Array(items) && items@.len() == values.len() && forall|i: int|
        0 <= i < values.len() ==> renders_as(#[trigger] values[i], items@[i])
}

impl WrappedValue {
    /// Renders the wrapped value as JSON.
    pub fn to_json(&self) -> (j: Json)
        ensures
            renders_as(self.0, j),
    {
        to_json(&self.0)
    }
}

impl Neo4jResult {
    /// Renders the result as a JSON array of its values.
    pub fn to_json(&self) -> (j: Json)
        ensures
            renders_all(self.0@, j),
    {
        let mut items: Vec<Json> = Vec::new();
        let mut i: usize = 0;
        while i < self.0.len()
            invariant
                i <= self.0@.len(),
                items@.len() == i,
                forall|k: int| 0 <= k < i ==> renders_as(#[trigger] self.0@[k], items@[k]),
            decreases self.0@.len() - i,
        {
            let rendered = to_json(&self.0[i]);
            items.push(rendered);
            i = i + 1;
        }
        Json::Array(items)
    }
}

} // verus!
