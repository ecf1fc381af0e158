//! The schemas that callers supply and the schemas that the registry knows.

use vstd::prelude::*;
use vstd::std_specs::cmp::PartialEqSpecImpl;

verus! {

/// The registry supports three types of schema by default. There may be more
/// in the future, or one of your own: those go by their name.
#[derive(Debug)]
pub enum SchemaType {
    Avro,
    Protobuf,
    Json,
    Other(String),
}

/// The mathematical content of a [`SchemaType`].
pub enum SchemaTypeView {
    Avro,
    Protobuf,
    Json,
    Other(Seq<char>),
}

impl View for SchemaType {
    type V = SchemaTypeView;

    open spec fn view(&self) -> SchemaTypeView {
        match self {
            SchemaType::Avro => SchemaTypeView::Avro,
            SchemaType::Protobuf => SchemaTypeView::Protobuf,
            SchemaType::Json => SchemaTypeView::Json,
            SchemaType::Other(name) => SchemaTypeView::Other(name@),
        }
    }
}

impl SchemaTypeView {
    /// The name by which the registry knows the type.
    pub open spec fn name(self) -> Seq<char> {
        match self {
            SchemaTypeView::Avro => "AVRO"@,
            SchemaTypeView::Protobuf => "PROTOBUF"@,
            SchemaTypeView::Json => "JSON"@,
            SchemaTypeView::Other(name) => name,
        }
    }

    /// The type that a name of the registry stands for; without a name it is
    /// Avro.
    pub open spec fn from_name(name: Option<Seq<char>>) -> SchemaTypeView {
        match name {
            None => SchemaTypeView::Avro,
            Some(n) => if n == "AVRO"@ {
                SchemaTypeView::Avro
            } else if n == "PROTOBUF"@ {
                SchemaTypeView::Protobuf
            } else if n == "JSON"@ {
                SchemaTypeView::Json
            } else {
                SchemaTypeView::Other(n)
            },
        }
    }
}

impl SchemaType {
    /// The name by which the registry knows the type.
    pub fn name(&self) -> (name: String)
        ensures
            name@ == self@.name(),
    {
        match self {
            SchemaType::Avro => String::from_str("AVRO"),
            SchemaType::Protobuf => String::from_str("PROTOBUF"),
            SchemaType::Json => String::from_str("JSON"),
            SchemaType::Other(name) => name.clone(),
        }
    }

    /// The type that a name of the registry stands for; without a name it is
    /// Avro.
    pub fn from_name(name: Option<&str>) -> (schema_type: SchemaType)
        ensures
            schema_type@ == SchemaTypeView::from_name(
                match name {
                    Some(n) => Some(n@),
                    None => None,
                },
            ),
    {
        match name {
            None => SchemaType::Avro,
            Some(n) => {
                if str_equal(n, "AVRO") {
                    SchemaType::Avro
                } else if str_equal(n, "PROTOBUF") {
                    SchemaType::Protobuf
                } else if str_equal(n, "JSON") {
                    SchemaType::Json
                } else {
                    SchemaType::Other(String::from_str(n))
                }
            },
        }
    }
}

/// Whether two texts are the same, character by character.
pub fn str_equal(left: &str, right: &str) -> (same: bool)
    ensures
        same == (left@ == right@),
{
    let a = String::from_str(left);
    let b = String::from_str(right);
    a == b
}

impl Clone for SchemaType {
    fn clone(&self) -> (result: SchemaType)
        ensures
            result@ == self@,
    {
        match self {
            SchemaType::Avro => SchemaType::Avro,
            SchemaType::Protobuf => SchemaType::Protobuf,
            SchemaType::Json => SchemaType::Json,
            SchemaType::Other(name) => SchemaType::Other(name.clone()),
        }
    }
}

impl PartialEq for SchemaType {
    fn eq(&self, other: &SchemaType) -> (result: bool) {
        match self {
            SchemaType::Avro => match other {
                SchemaType::Avro => true,
                _ => false,
            },
            SchemaType::Protobuf => match other {
                SchemaType::Protobuf => true,
                _ => false,
            },
            SchemaType::Json => match other {
                SchemaType::Json => true,
                _ => false,
            },
            SchemaType::Other(mine) => match other {
                SchemaType::Other(theirs) => *mine == *theirs,
                _ => false,
            },
        }
    }
}

/// Two types are equal when they are the same variant and, for `Other`, have
/// the same name.
impl PartialEqSpecImpl for SchemaType {
    open spec fn obeys_eq_spec() -> bool {
        true
    }

    open spec fn eq_spec(&self, other: &SchemaType) -> bool {
        self@ == other@
    }
}

/// The registry supports sub schemas, which are stored separately in it: a
/// reference is such a sub schema as the caller supplies it, with the sub
/// schemas that it depends on in turn.
#[derive(Debug)]
pub struct SuppliedReference {
    pub name: String,
    pub subject: String,
    pub schema: String,
    pub references: Vec<SuppliedReference>,
}

/// The mathematical content of a [`SuppliedReference`].
pub struct SuppliedReferenceView {
    pub name: Seq<char>,
    pub subject: Seq<char>,
    pub schema: Seq<char>,
    pub references: Seq<SuppliedReferenceView>,
}

impl View for SuppliedReference {
    type V = SuppliedReferenceView;

    open spec fn view(&self) -> SuppliedReferenceView
        decreases self,
    {
        SuppliedReferenceView {
            name: self.name@,
            subject: self.subject@,
            schema: self.schema@,
            references: supplied_references_view(self.references),
        }
    }
}

/// The content of a list of references, in the same order.
pub open spec fn supplied_references_view(references: Vec<SuppliedReference>) -> Seq<
    SuppliedReferenceView,
>
    decreases references,
{
    Seq::new(
        references.len() as nat,
        |i: int|
            if 0 <= i < references.len() {
                references[i]@
            } else {
                arbitrary()
            },
    )
}

/// A schema as a caller provides it to create messages; it is added to the
/// registry if it is not there yet.
#[derive(Debug)]
pub struct SuppliedSchema {
    pub name: Option<String>,
    pub schema_type: SchemaType,
    pub schema: String,
    pub references: Vec<SuppliedReference>,
}

/// The mathematical content of a [`SuppliedSchema`].
pub struct SuppliedSchemaView {
    pub name: Option<Seq<char>>,
    pub schema_type: SchemaTypeView,
    pub schema: Seq<char>,
    pub references: Seq<SuppliedReferenceView>,
}

impl View for SuppliedSchema {
    type V = SuppliedSchemaView;

    open spec fn view(&self) -> SuppliedSchemaView {
        SuppliedSchemaView {
            name: match self.name {
                Some(name) => Some(name@),
                None => None,
            },
            schema_type: self.schema_type@,
            schema: self.schema@,
            references: supplied_references_view(self.references),
        }
    }
}

/// A reference as the registry knows it: the version is the registry's.
#[derive(Debug)]
pub struct RegisteredReference {
    pub name: String,
    pub subject: String,
    pub version: u32,
}

/// The mathematical content of a [`RegisteredReference`].
pub struct RegisteredReferenceView {
    pub name: Seq<char>,
    pub subject: Seq<char>,
    pub version: u32,
}

impl View for RegisteredReference {
    type V = RegisteredReferenceView;

    open spec fn view(&self) -> RegisteredReferenceView {
        RegisteredReferenceView {
            name: self.name@,
            subject: self.subject@,
            version: self.version,
        }
    }
}

/// The content of a list of registered references, in the same order.
pub open spec fn registered_references_view(references: Seq<RegisteredReference>) -> Seq<
    RegisteredReferenceView,
> {
    references.map_values(|r: RegisteredReference| r@)
}

/// A schema as retrieved from the registry. It is close to the JSON received
/// and makes no transformation that is specific to a type of schema.
#[derive(Debug)]
pub struct RegisteredSchema {
    pub id: u32,
    pub schema_type: SchemaType,
    pub schema: String,
    pub references: Vec<RegisteredReference>,
}

/// The mathematical content of a [`RegisteredSchema`].
pub struct RegisteredSchemaView {
    pub id: u32,
    pub schema_type: SchemaTypeView,
    pub schema: Seq<char>,
    pub references: Seq<RegisteredReferenceView>,
}

impl View for RegisteredSchema {
    type V = RegisteredSchemaView;

    open spec fn view(&self) -> RegisteredSchemaView {
        RegisteredSchemaView {
            id: self.id,
            schema_type: self.schema_type@,
            schema: self.schema@,
            references: registered_references_view(self.references@),
        }
    }
}

impl Clone for RegisteredReference {
    fn clone(&self) -> (result: RegisteredReference)
        ensures
            result@ == self@,
    {
        RegisteredReference {
            name: self.name.clone(),
            subject: self.subject.clone(),
            version: self.version,
        }
    }
}

/// A copy of a list of registered references.
pub fn clone_registered_references(references: &Vec<RegisteredReference>) -> (result: Vec<
    RegisteredReference,
>)
    ensures
        registered_references_view(result@) == registered_references_view(references@),
{
    let mut result: Vec<RegisteredReference> = Vec::new();
    let mut i: usize = 0;
    while i < references.len()
        invariant
            i <= references.len(),
            result@.len() == i,
            forall|k: int| 0 <= k < i ==> result@[k]@ == references@[k]@,
        decreases references.len() - i,
    {
        result.push(references[i].clone());
        i += 1;
    }
    result
}

impl PartialEq for RegisteredReference {
    fn eq(&self, other: &RegisteredReference) -> (result: bool) {
        self.name == other.name && self.subject == other.subject && self.version == other.version
    }
}

/// Two registered references are equal when name, subject and version are.
impl PartialEqSpecImpl for RegisteredReference {
    open spec fn obeys_eq_spec() -> bool {
        true
    }

    open spec fn eq_spec(&self, other: &RegisteredReference) -> bool {
        self@ == other@
    }
}

/// Whether two lists hold equal references in the same order.
pub fn same_registered_references(
    left: &Vec<RegisteredReference>,
    right: &Vec<RegisteredReference>,
) -> (same: bool)
    ensures
        same == (registered_references_view(left@) == registered_references_view(right@)),
{
    let ghost l = registered_references_view(left@);
    let ghost r = registered_references_view(right@);
    if left.len() != right.len() {
        assert(l.len() != r.len());
        return false;
    }
    let mut i: usize = 0;
    while i < left.len()
        invariant
            i <= left.len(),
            left.len() == right.len(),
            l == registered_references_view(left@),
            r == registered_references_view(right@),
            forall|k: int| 0 <= k < i ==> l[k] == r[k],
        decreases left.len() - i,
    {
        if !(left[i] == right[i]) {
            assert(l[i as int] != r[i as int]);
            return false;
        }
        i += 1;
    }
    assert(l =~= r);
    true
}

impl PartialEq for RegisteredSchema {
    fn eq(&self, other: &RegisteredSchema) -> (result: bool) {
        self.id == other.id && self.schema_type == other.schema_type && self.schema
            == other.schema && same_registered_references(&self.references, &other.references)
    }
}

/// Two registered schemas are equal when identifier, type, text and
/// references are.
impl PartialEqSpecImpl for RegisteredSchema {
    open spec fn obeys_eq_spec() -> bool {
        true
    }

    open spec fn eq_spec(&self, other: &RegisteredSchema) -> bool {
        self@ == other@
    }
}

impl Clone for RegisteredSchema {
    fn clone(&self) -> (result: RegisteredSchema)
        ensures
            result@ == self@,
    {
        RegisteredSchema {
            id: self.id,
            schema_type: self.schema_type.clone(),
            schema: self.schema.clone(),
            references: clone_registered_references(&self.references),
        }
    }
}

impl Clone for SuppliedReference {
    fn clone(&self) -> (result: SuppliedReference)
        ensures
            result@ == self@,
        decreases self,
    {
        let mut references: Vec<SuppliedReference> = Vec::new();
        let mut i: usize = 0;
        while i < self.references.len()
            invariant
                i <= self.references.len(),
                references@.len() == i,
                forall|k: int| 0 <= k < i ==> references@[k]@ == self.references@[k]@,
            decreases self.references.len() - i,
        {
            references.push(self.references[i].clone());
            i += 1;
        }
        assert(supplied_references_view(references) =~= supplied_references_view(
            self.references,
        ));
        SuppliedReference {
            name: self.name.clone(),
            subject: self.subject.clone(),
            schema: self.schema.clone(),
            references,
        }
    }
}

/// A copy of a list of supplied references.
pub fn clone_supplied_references(references: &Vec<SuppliedReference>) -> (result: Vec<
    SuppliedReference,
>)
    ensures
        supplied_references_view(result) == supplied_references_view(*references),
{
    let mut result: Vec<SuppliedReference> = Vec::new();
    let mut i: usize = 0;
    while i < references.len()
        invariant
            i <= references.len(),
            result@.len() == i,
            forall|k: int| 0 <= k < i ==> result@[k]@ == references@[k]@,
        decreases references.len() - i,
    {
        result.push(references[i].clone());
        i += 1;
    }
    result
}

impl Clone for SuppliedSchema {
    fn clone(&self) -> (result: SuppliedSchema)
        ensures
            result@ == self@,
    {
        let name = match &self.name {
            Some(name) => Some(name.clone()),
            None => None,
        };
        SuppliedSchema {
            name,
            schema_type: self.schema_type.clone(),
            schema: self.schema.clone(),
            references: clone_supplied_references(&self.references),
        }
    }
}

/// The name by which the registry knows a type stands for that type again,
/// unless the type goes by a name of its own that is one of the three names
/// which the registry has for its own types.
pub proof fn lemma_schema_type_by_name(schema_type: SchemaTypeView)
    ensures
        !(schema_type matches SchemaTypeView::Other(name) && (name == "AVRO"@ || name
            == "PROTOBUF"@ || name == "JSON"@)) ==> SchemaTypeView::from_name(
            Some(schema_type.name()),
        ) == schema_type,
        SchemaTypeView::from_name(None) == SchemaTypeView::Avro,
{
    reveal_strlit("AVRO");
    reveal_strlit("PROTOBUF");
    reveal_strlit("JSON");
    assert("PROTOBUF"@.len() == 8);
    assert("AVRO"@[0] == 'A');
}

} // verus!
