//! The input types that a schema declares, looked up by name.

use vstd::prelude::*;
use crate::field_type::{FieldType, TypeView};

verus! {

/// The mathematical model of a declared field: its name and its type.
pub struct FieldView {
    pub name: Seq<char>,
    pub ty: TypeView,
}

/// The mathematical model of the registry of input types: for each declared
/// name, the fields of that input type in their declared order.
pub struct SchemaView {
    pub inputs: Map<Seq<char>, Seq<FieldView>>,
}

/// Whether no two of the given fields share a name.
pub open spec fn distinct_names(fields: Seq<FieldView>) -> bool {
    forall|i: int, j: int|
        0 <= i < j < fields.len() ==> (#[trigger] fields[i]).name != (#[trigger] fields[j]).name
}

impl SchemaView {
    /// Whether every declared input type names each of its fields once.
    pub open spec fn wf(self) -> bool {
        forall|name: Seq<char>| #[trigger]
            self.inputs.contains_key(name) ==> distinct_names(self.inputs[name])
    }
}

/// A field of an input type, as the schema declares it.
#[derive(Debug, PartialEq)]
pub struct GqlObjectField {
    pub name: String,
    pub type_: FieldType,
}

/// An input type: a name and its fields, in their declared order.
#[derive(Debug, PartialEq)]
pub struct GqlInput {
    pub name: String,
    pub fields: Vec<GqlObjectField>,
}

/// The input types of a schema. Where a name is declared more than once, the
/// last declaration counts.
#[derive(Debug, PartialEq)]
pub struct Schema {
    pub inputs: Vec<GqlInput>,
}

impl View for GqlObjectField {
    type V = FieldView;

    open spec fn view(&self) -> FieldView {
        FieldView { name: self.name@, ty: self.type_@ }
    }
}

impl View for GqlInput {
    type V = Seq<FieldView>;

    /// The declared fields, in their declared order.
    open spec fn view(&self) -> Seq<FieldView> {
        Seq::new(self.fields.len() as nat, |i: int| self.fields[i]@)
    }
}

impl View for Schema {
    type V = SchemaView;

    open spec fn view(&self) -> SchemaView {
        SchemaView { inputs: Self::inputs_model(self.inputs@, self.inputs.len() as nat) }
    }
}

impl GqlObjectField {
    /// A field with the given name and type.
    pub fn new(name: String, type_: FieldType) -> (field: GqlObjectField)
        ensures
            field@ == (FieldView { name: name@, ty: type_@ }),
    {
        GqlObjectField { name, type_ }
    }
}

impl GqlInput {
    /// Whether no two fields share a name.
    pub open spec fn wf(&self) -> bool {
        distinct_names(self@)
    }

    /// An input type without fields.
    pub fn new(name: String) -> (input: GqlInput)
        ensures
            input.name@ == name@,
            input@ == Seq::<FieldView>::empty(),
            input.wf(),
    {
        GqlInput { name, fields: Vec::new() }
    }

    /// Whether a field is declared under `name`.
    pub fn declares(&self, name: &String) -> (found: bool)
        ensures
            found == exists|i: int| 0 <= i < self@.len() && (#[trigger] self@[i]).name == name@,
    {
        let mut i: usize = 0;
        while i < self.fields.len()
            invariant
                i <= self.fields.len(),
                forall|j: int| 0 <= j < i ==> (#[trigger] self@[j]).name != name@,
            decreases self.fields.len() - i,
        {
            if self.fields[i].name.eq(name) {
                assert(self@[i as int].name == name@);
                return true;
            }
            i += 1;
        }
        false
    }

    /// Declares `field` after the fields that are there, unless one of them
    /// has its name already: then nothing changes. Says whether the field was
    /// added.
    pub fn add_field(&mut self, field: GqlObjectField) -> (added: bool)
        ensures
            added == !exists|i: int|
                0 <= i < old(self)@.len() && (#[trigger] old(self)@[i]).name == field.name@,
            added ==> final(self)@ == old(self)@.push(field@),
            !added ==> final(self)@ == old(self)@,
            final(self).name == old(self).name,
            old(self).wf() ==> final(self).wf(),
    {
        if self.declares(&field.name) {
            false
        } else {
            let ghost before = self@;
            self.fields.push(field);
            assert(self@ =~= before.push(field@));
            true
        }
    }
}

impl Schema {
    /// Whether every input type names each of its fields once.
    pub open spec fn wf(&self) -> bool {
        self@.wf()
    }

    /// Declares `input`, in place of any input type of the same name.
    pub fn add_input(&mut self, input: GqlInput)
        ensures
            final(self)@.inputs == old(self)@.inputs.insert(input.name@, input@),
            old(self).wf() && input.wf() ==> final(self).wf(),
    {
        let ghost before = self.inputs@;
        let ghost n = before.len();
        self.inputs.push(input);
        proof {
            lemma_inputs_model_prefix(before, self.inputs@, n);
            let earlier = Schema::inputs_model(before, n);
            let now = self@.inputs;
            assert(now == earlier.insert(input.name@, input@));
            if old(self).wf() && input.wf() {
                assert forall|name: Seq<char>| #[trigger]
                    now.contains_key(name) implies distinct_names(now[name]) by {
                    if name != input.name@ {
                        assert(old(self)@.inputs == earlier);
                        assert(earlier.contains_key(name));
                        assert(now[name] == earlier[name]);
                    } else {
                        assert(now[name] == input@);
                    }
                }
            }
        }
    }

    /// The mapping that the first `n` declarations make up.
    pub open spec fn inputs_model(inputs: Seq<GqlInput>, n: nat) -> Map<Seq<char>, Seq<FieldView>>
        decreases n,
    {
        if n == 0 || n > inputs.len() {
            Map::empty()
        } else {
            Self::inputs_model(inputs, (n - 1) as nat).insert(inputs[n - 1].name@, inputs[n - 1]@)
        }
    }

    /// A schema without input types.
    pub fn new() -> (schema: Schema)
        ensures
            schema@.inputs == Map::<Seq<char>, Seq<FieldView>>::empty(),
            schema@.wf(),
    {
        Schema { inputs: Vec::new() }
    }

    /// The input type declared under `name`, if there is one.
    pub fn input(&self, name: &String) -> (found: Option<&GqlInput>)
        ensures
            match found {
                Some(input) => self@.inputs.contains_key(name@) && self@.inputs[name@] == input@
                    && input.name@ == name@,
                None => !self@.inputs.contains_key(name@),
            },
    {
        let mut i: usize = self.inputs.len();
        while i > 0
            invariant
                i <= self.inputs.len(),
                self@.inputs.contains_key(name@) == Self::inputs_model(
                    self.inputs@,
                    i as nat,
                ).contains_key(name@),
                self@.inputs.contains_key(name@) ==> self@.inputs[name@] == Self::inputs_model(
                    self.inputs@,
                    i as nat,
                )[name@],
            decreases i,
        {
            i = i - 1;
            let input = &self.inputs[i];
            if input.name.eq(name) {
                return Some(input);
            }
        }
        None
    }
}

/// The mapping that the first `n` declarations make up depends on those
/// declarations only.
pub proof fn lemma_inputs_model_prefix(one: Seq<GqlInput>, other: Seq<GqlInput>, n: nat)
    requires
        n <= one.len(),
        n <= other.len(),
        forall|i: int| 0 <= i < n ==> one[i] == other[i],
    ensures
        Schema::inputs_model(one, n) == Schema::inputs_model(other, n),
    decreases n,
{
    if n > 0 {
        lemma_inputs_model_prefix(one, other, (n - 1) as nat);
    }
}

} // verus!
