use vstd::prelude::*;
use crate::text::str_eq;

verus! {

/// Types a schema can give a variable.
#[derive(Debug, Clone, PartialEq, Eq)]
pub enum DataType {
    /// Unsigned 64-bit integer.
    Uint64,
    /// Unsigned 32-bit integer.
    Uint32,
    /// Signed 64-bit integer.
    Int64,
    /// Signed 32-bit integer.
    Int32,
    /// Text.
    String,
    /// Truth value.
    Bool,
    /// Fixed-point decimal.
    Decimal,
    /// A named type with optional inclusive bounds.
    Custom { name: String, range_min: Option<i128>, range_max: Option<i128> },
}

impl DataType {
    /// Whether the type is one of the four integer types.
    pub open spec fn is_integer(&self) -> bool {
        matches!(self, DataType::Uint64 | DataType::Uint32 | DataType::Int64 | DataType::Int32)
    }

    /// A copy of the value.
    pub fn duplicate(&self) -> (r: DataType)
        ensures
            r == *self,
    {
        match self {
            DataType::Uint64 => DataType::Uint64,
            DataType::Uint32 => DataType::Uint32,
            DataType::Int64 => DataType::Int64,
            DataType::Int32 => DataType::Int32,
            DataType::String => DataType::String,
            DataType::Bool => DataType::Bool,
            DataType::Decimal => DataType::Decimal,
            DataType::Custom { name, range_min, range_max } => DataType::Custom {
                name: name.clone(),
                range_min: *range_min,
                range_max: *range_max,
            },
        }
    }
}

/// Errors of the schema registry.
#[derive(Debug, Clone, PartialEq, Eq)]
pub enum SchemaError {
    /// A field was added after the schema was frozen.
    SchemaFrozen,
}

/// Variable typing environment with a traceability identifier.
#[derive(Debug, Clone, PartialEq, Eq)]
pub struct Schema {
    /// Variable name and type, in the order the names were first added.
    pub fields: Vec<(String, DataType)>,
    /// Documentation for some of the fields.
    pub documentation: Vec<(String, String)>,
    /// Identifier of the analysis run the schema belongs to.
    pub traceability_id: String,
    /// Once set, no field can be added.
    pub frozen: bool,
}

/// Whether `fs` has an entry named `name`.
pub open spec fn has_key<V>(fs: Seq<(String, V)>, name: Seq<char>) -> bool {
    exists|i: int| 0 <= i < fs.len() && (#[trigger] fs[i]).0@ == name
}

/// The index of the entry named `name` in `fs` (meaningful when there is one).
pub open spec fn key_index<V>(fs: Seq<(String, V)>, name: Seq<char>) -> int {
    choose|i: int| 0 <= i < fs.len() && (#[trigger] fs[i]).0@ == name
}

/// No two entries of `fs` share a name.
pub open spec fn keys_unique<V>(fs: Seq<(String, V)>) -> bool {
    forall|i: int, j: int|
        0 <= i < fs.len() && 0 <= j < fs.len() && (#[trigger] fs[i]).0@ == (#[trigger] fs[j]).0@
            ==> i == j
}

/// The type that `fs` gives `name`; `Int32` for a name it does not hold.
pub open spec fn type_in(fs: Seq<(String, DataType)>, name: Seq<char>) -> DataType {
    if has_key(fs, name) {
        fs[key_index(fs, name)].1
    } else {
        DataType::Int32
    }
}

/// `fs` after setting `name` to `v`: replaced in place, or appended.
pub open spec fn with_entry<V>(fs: Seq<(String, V)>, name: String, v: V) -> Seq<(String, V)> {
    if has_key(fs, name@) {
        fs.update(key_index(fs, name@), (name, v))
    } else {
        fs.push((name, v))
    }
}

/// Position of the entry named `name`, if any.
pub(crate) fn find_key<V>(fs: &Vec<(String, V)>, name: &str) -> (r: Option<usize>)
    ensures
        r is None <==> !has_key(fs@, name@),
        r matches Some(i) ==> i < fs@.len() && fs@[i as int].0@ == name@,
{
    let mut i: usize = 0;
    while i < fs.len()
        invariant
            i <= fs.len(),
            forall|k: int| 0 <= k < i ==> (#[trigger] fs@[k]).0@ != name@,
        decreases fs.len() - i,
    {
        if str_eq(fs[i].0.as_str(), name) {
            return Some(i);
        }
        i = i + 1;
    }
    None
}

/// Sets `name` to `v` in `fs`, keeping names unique.
fn set_entry<V>(fs: &mut Vec<(String, V)>, name: String, v: V)
    requires
        keys_unique(old(fs)@),
    ensures
        final(fs)@ == with_entry(old(fs)@, name, v),
        keys_unique(final(fs)@),
{
    match find_key(fs, name.as_str()) {
        Some(i) => {
            proof {
                let k = key_index(old(fs)@, name@);
                assert(old(fs)@[k].0@ == name@);
            }
            fs.set(i, (name, v));
        },
        None => {
            fs.push((name, v));
        },
    }
}

impl Schema {
    /// Well-formed: field names and documented names are unique.
    pub open spec fn wf(&self) -> bool {
        keys_unique(self.fields@) && keys_unique(self.documentation@)
    }

    /// The type the schema gives `name`.
    pub open spec fn type_of(&self, name: Seq<char>) -> DataType {
        type_in(self.fields@, name)
    }

    /// An empty schema carrying `traceability_id`.
    pub fn new(traceability_id: String) -> (r: Schema)
        ensures
            r.wf(),
            r.fields@.len() == 0,
            r.documentation@.len() == 0,
            r.traceability_id == traceability_id,
            !r.frozen,
    {
        Schema { fields: Vec::new(), documentation: Vec::new(), traceability_id, frozen: false }
    }

    /// Adds or retypes a field and, when given, its documentation. Fails
    /// with `SchemaFrozen`, changing nothing, once the schema is frozen.
    pub fn add_field(&mut self, name: String, data_type: DataType, docs: Option<String>) -> (r:
        Result<(), SchemaError>)
        requires
            old(self).wf(),
        ensures
            final(self).wf(),
            old(self).frozen ==> r == Err::<(), SchemaError>(SchemaError::SchemaFrozen)
                && *final(self) == *old(self),
            !old(self).frozen ==> {
                &&& r is Ok
                &&& final(self).fields@ == with_entry(old(self).fields@, name, data_type)
                &&& final(self).documentation@ == match docs {
                    Some(d) => with_entry(old(self).documentation@, name, d),
                    None => old(self).documentation@,
                }
                &&& final(self).traceability_id == old(self).traceability_id
                &&& !final(self).frozen
            },
    {
        if self.frozen {
            return Err(SchemaError::SchemaFrozen);
        }
        let key = name.clone();
        set_entry(&mut self.fields, name, data_type);
        match docs {
            Some(d) => set_entry(&mut self.documentation, key, d),
            None => {},
        }
        Ok(())
    }

    /// Freezes the schema: later `add_field` calls fail.
    pub fn freeze(&mut self)
        ensures
            final(self).frozen,
            final(self).fields == old(self).fields,
            final(self).documentation == old(self).documentation,
            final(self).traceability_id == old(self).traceability_id,
    {
        self.frozen = true;
    }

    /// The type of `name`, `Int32` when the schema does not hold it.
    pub fn get_type(&self, name: &str) -> (r: DataType)
        requires
            self.wf(),
        ensures
            r == self.type_of(name@),
    {
        match find_key(&self.fields, name) {
            Some(i) => {
                proof {
                    let k = key_index(self.fields@, name@);
                    assert(self.fields@[k].0@ == name@);
                }
                self.fields[i].1.duplicate()
            },
            None => DataType::Int32,
        }
    }

    /// Whether the schema holds `name`.
    pub fn has_field(&self, name: &str) -> (r: bool)
        ensures
            r == has_key(self.fields@, name@),
    {
        find_key(&self.fields, name).is_some()
    }

    /// Whether arithmetic on `name` must be overflow-checked: its type is
    /// one of the integer types (an unknown name counts as `Int32`).
    pub fn requires_overflow_protection(&self, name: &str) -> (r: bool)
        requires
            self.wf(),
        ensures
            r == self.type_of(name@).is_integer(),
    {
        match self.get_type(name) {
            DataType::Uint64 | DataType::Uint32 | DataType::Int64 | DataType::Int32 => true,
            _ => false,
        }
    }

    /// The traceability identifier.
    pub fn traceability_id(&self) -> (r: &str)
        ensures
            r@ == self.traceability_id@,
    {
        self.traceability_id.as_str()
    }
}

} // verus!
