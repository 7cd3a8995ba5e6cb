//! What the compiler may read of the query's surroundings.

use vstd::prelude::*;
use crate::schema::{Schema, SchemaView};

verus! {

/// The read-only context of a code generation run: the schema against which
/// the query was written.
#[derive(Debug, PartialEq)]
pub struct QueryContext {
    pub schema: Schema,
}

impl View for QueryContext {
    type V = SchemaView;

    open spec fn view(&self) -> SchemaView {
        self.schema@
    }
}

impl QueryContext {
    /// A context that reads the given schema.
    pub fn new(schema: Schema) -> (context: QueryContext)
        ensures
            context@ == schema@,
    {
        QueryContext { schema }
    }
}

} // verus!
