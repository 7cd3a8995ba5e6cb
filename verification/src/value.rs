//! Literal values as they are written in a query document.

use vstd::prelude::*;

verus! {

/// The mathematical model of a literal value tree.
pub enum ValueView {
    /// A reference to another variable, by its name.
    Variable(Seq<char>),
    Int(i64),
    /// A floating-point number, held as the 64 bits of its IEEE 754 encoding.
    Float(u64),
    String(Seq<char>),
    Boolean(bool),
    Null,
    /// An enum constant, by its name.
    Enum(Seq<char>),
    List(Seq<ValueView>),
    /// An object: a mapping from field names to values, in no order.
    Object(Map<Seq<char>, ValueView>),
}

impl ValueView {
    /// Whether every object in the tree has finitely many entries, as every
    /// literal that was ever written has.
    pub open spec fn wf(self) -> bool
        decreases self,
    {
        match self {
            ValueView::List(items) => forall|i: int|
                0 <= i < items.len() ==> (#[trigger] items[i]).wf(),
            ValueView::Object(object) => object.dom().finite() && forall|name: Seq<char>| #[trigger]
                object.contains_key(name) ==> object[name].wf(),
            _ => true,
        }
    }
}

/// One `name: value` entry of an object literal.
#[derive(Debug, PartialEq)]
pub struct ObjectField {
    pub name: String,
    pub value: Value,
}

/// A literal value tree, read-only input of the compiler.
#[derive(Debug, PartialEq)]
pub enum Value {
    /// A reference to another variable, by its name.
    Variable(String),
    Int(i64),
    /// A floating-point number, held as the 64 bits of its IEEE 754 encoding.
    Float(u64),
    String(String),
    Boolean(bool),
    Null,
    /// An enum constant, by its name.
    Enum(String),
    List(Vec<Value>),
    /// An object, as the list of its entries. Where a name is entered more
    /// than once, the last entry counts.
    Object(Vec<ObjectField>),
}

impl View for Value {
    type V = ValueView;

    open spec fn view(&self) -> ValueView {
        self.model()
    }
}

impl Value {
    /// The literal as a mathematical value; `view` is this function.
    pub open spec fn model(&self) -> ValueView
        decreases self, 0nat,
    {
        match self {
            Value::Variable(name) => ValueView::Variable(name@),
            Value::Int(i) => ValueView::Int(*i),
            Value::Float(bits) => ValueView::Float(*bits),
            Value::String(s) => ValueView::String(s@),
            Value::Boolean(b) => ValueView::Boolean(*b),
            Value::Null => ValueView::Null,
            Value::Enum(name) => ValueView::Enum(name@),
            Value::List(items) => ValueView::List(
                Seq::new(
                    items.len() as nat,
                    |i: int|
                        if 0 <= i < items.len() {
                            items[i].model()
                        } else {
                            arbitrary()
                        },
                ),
            ),
            Value::Object(fields) => ValueView::Object(Self::object_model(*fields)),
        }
    }

    /// The mapping that the entries of an object literal make up.
    pub open spec fn object_model(fields: Vec<ObjectField>) -> Map<Seq<char>, ValueView>
        decreases fields, fields.len() + 1,
    {
        Self::fields_model(fields, fields.len() as nat)
    }

    /// The mapping that the first `n` entries of an object literal make up.
    pub open spec fn fields_model(fields: Vec<ObjectField>, n: nat) -> Map<Seq<char>, ValueView>
        decreases fields, n,
    {
        if n == 0 || n > fields.len() {
            Map::empty()
        } else {
            Self::fields_model(fields, (n - 1) as nat).insert(
                fields[n - 1].name@,
                fields[n - 1].value.model(),
            )
        }
    }
}

/// The mapping that an object literal makes up has finitely many names.
pub proof fn lemma_fields_model_finite(fields: Vec<ObjectField>, n: nat)
    ensures
        Value::fields_model(fields, n).dom().finite(),
    decreases n,
{
    if n == 0 || n > fields.len() {
    } else {
        lemma_fields_model_finite(fields, (n - 1) as nat);
    }
}

/// Where the object literal `fields` supplies a value for `name`: the index of
/// the entry that counts, which is the last one under that name.
pub fn position(fields: &Vec<ObjectField>, name: &String) -> (found: Option<usize>)
    ensures
        match found {
            Some(k) => {
                &&& k < fields.len()
                &&& fields[k as int].name@ == name@
                &&& Value::object_model(*fields).contains_key(name@)
                &&& Value::object_model(*fields)[name@] == fields[k as int].value@
            },
            None => !Value::object_model(*fields).contains_key(name@),
        },
{
    let ghost whole = Value::object_model(*fields);
    let mut i: usize = fields.len();
    while i > 0
        invariant
            i <= fields.len(),
            whole == Value::object_model(*fields),
            whole.contains_key(name@) == Value::fields_model(*fields, i as nat).contains_key(
                name@,
            ),
            whole.contains_key(name@) ==> whole[name@] == Value::fields_model(
                *fields,
                i as nat,
            )[name@],
        decreases i,
    {
        i = i - 1;
        if fields[i].name.eq(name) {
            return Some(i);
        }
    }
    None
}

/// Every entry of the mapping that an object literal makes up is the model of
/// one of the literal's entries.
pub proof fn lemma_fields_model_entries(fields: Vec<ObjectField>, n: nat, name: Seq<char>)
    requires
        Value::fields_model(fields, n).contains_key(name),
    ensures
        exists|k: int|
            0 <= k < fields.len() && Value::fields_model(fields, n)[name] == (
            #[trigger] fields[k]).value@,
    decreases n,
{
    if n == 0 || n > fields.len() {
    } else if fields[n - 1].name@ == name {
        assert(Value::fields_model(fields, n)[name] == fields[n - 1].value@);
    } else {
        lemma_fields_model_entries(fields, (n - 1) as nat, name);
    }
}

/// The model of a literal is well formed.
pub proof fn lemma_model_wf(value: Value)
    ensures
        value@.wf(),
    decreases value,
{
    match value {
        Value::List(items) => {
            let views = value@->List_0;
            assert forall|i: int| 0 <= i < views.len() implies (#[trigger] views[i]).wf() by {
                lemma_model_wf(items[i]);
            }
        },
        Value::Object(fields) => {
            let object = Value::fields_model(fields, fields.len() as nat);
            assert(Value::object_model(fields) == object);
            assert(value@ == ValueView::Object(object));
            lemma_fields_model_finite(fields, fields.len() as nat);
            assert forall|name: Seq<char>| #[trigger]
                object.contains_key(name) implies object[name].wf() by {
                lemma_fields_model_entries(fields, fields.len() as nat, name);
                let k = choose|k: int|
                    0 <= k < fields.len() && object[name] == (#[trigger] fields[k]).value@;
                lemma_model_wf(fields[k].value);
            }
        },
        _ => {},
    }
}

} // verus!
