//! The registry of contract schemas that requests are validated against.
use vstd::prelude::*;
use crate::errors::AppError;
use crate::json::{json_document, parse_json_text};
use crate::text::{concat2, concat3, concat5};

pub mod validation;

verus! {

broadcast use vstd::string::group_string_axioms;

/// A compiled JSON Schema validator, as `jsonschema` builds it.
#[verifier::external_type_specification]
#[verifier::external_body]
pub struct ExJSONSchema(jsonschema::JSONSchema);

/// The words (its error's `Display`) with which `JSONSchema::compile`
/// refuses `document`, or `None` where it accepts it as a schema.
pub uninterp spec fn schema_compile_error(document: serde_json::Value) -> Option<Seq<char>>;

/// `validator` is what `JSONSchema::compile` built from `document`.
pub uninterp spec fn schema_compiled_from(
    validator: jsonschema::JSONSchema,
    document: serde_json::Value,
) -> bool;

/// Compiles `document` with `JSONSchema::compile`, writing a refusal by its
/// error's `Display`. Trusted: whether a schema comes out, and the words of a
/// refusal, are a function of the document, and the validator that comes out
/// is the one compiled from it.
#[verifier::external_body]
pub fn compile_schema(document: &serde_json::Value) -> (res: Result<jsonschema::JSONSchema, String>)
    ensures
        match res {
            Ok(validator) => schema_compile_error(*document) is None && schema_compiled_from(
                validator,
                *document,
            ),
            Err(words) => schema_compile_error(*document) == Some(words@),
        },
{
    jsonschema::JSONSchema::compile(document).map_err(|error| error.to_string())
}

/// A contract schema, compiled.
pub struct CompiledSchema {
    pub validator: jsonschema::JSONSchema,
}

/// The contract schemas that the service loads, by name, each with the
/// document it was compiled from.
pub struct SchemaRegistry {
    schemas: Vec<(String, CompiledSchema)>,
    documents: Ghost<Seq<serde_json::Value>>,
}

/// The text of one schema file, as it was read: its path, and its contents or
/// the error that reading it gave.
pub struct SchemaSource {
    pub path: String,
    pub contents: Result<String, String>,
}

/// The number of schemas the service requires.
pub open spec fn required_schema_count() -> int {
    3
}

/// The name of the `i`-th required schema.
pub open spec fn required_schema_name(i: int) -> Seq<char> {
    if i == 0 {
        "signal"@
    } else if i == 1 {
        "confidence_gate"@
    } else {
        "signalDecision"@
    }
}

/// The file the `i`-th required schema is read from.
pub open spec fn required_schema_file(i: int) -> Seq<char> {
    if i == 0 {
        "signal.json"@
    } else if i == 1 {
        "confidenceGate.json"@
    } else {
        "signalDecision.json"@
    }
}

/// The names and files of the schemas the service requires, in the order they
/// are loaded.
pub fn required_schemas() -> (r: Vec<(&'static str, &'static str)>)
    ensures
        r.len() == required_schema_count(),
        forall|i: int|
            0 <= i < r.len() ==> (#[trigger] r[i]).0@ == required_schema_name(i) && r[i].1@
                == required_schema_file(i),
{
    let mut r: Vec<(&'static str, &'static str)> = Vec::new();
    r.push(("signal", "signal.json"));
    r.push(("confidence_gate", "confidenceGate.json"));
    r.push(("signalDecision", "signalDecision.json"));
    r
}

/// The `i`-th required schema loads from `source`: the file was read, holds a
/// JSON document, and that document compiles.
pub open spec fn source_loads(source: SchemaSource) -> bool {
    &&& source.contents matches Ok(text)
    &&& json_document(text@) matches Ok(document)
    &&& schema_compile_error(document) is None
}

/// `message` reports why the `i`-th required schema did not load from `source`:
/// the error reading the file, the parser's words for a file that is not a
/// JSON document, or the compiler's words for a document that is not a schema,
/// each after the step, the schema's name and the file's path.
pub open spec fn load_failure(i: int, source: SchemaSource, message: Seq<char>) -> bool {
    let name = required_schema_name(i);
    match source.contents {
        Err(error) => message == "failed reading schema "@ + name + " from "@ + source.path@
            + ": "@ + error@,
        Ok(text) => match json_document(text@) {
            Err(words) => message == "failed parsing schema "@ + name + " from "@ + source.path@
                + ": "@ + words,
            Ok(document) => match schema_compile_error(document) {
                Some(words) => message == "failed compiling schema "@ + name + " from "@
                    + source.path@ + ": "@ + words,
                None => false,
            },
        },
    }
}

/// The JSON document read from `source`, for a source that loads.
pub open spec fn source_document(source: SchemaSource) -> serde_json::Value {
    json_document(source.contents->Ok_0@)->Ok_0
}

/// The first of the schemas read from `sources` that does not load is the `i`-th.
pub open spec fn first_failure(sources: Seq<SchemaSource>, i: int) -> bool {
    &&& 0 <= i < sources.len()
    &&& forall|j: int| 0 <= j < i ==> source_loads(#[trigger] sources[j])
    &&& !source_loads(sources[i])
}

/// Loads the `i`-th required schema from `source`.
fn load_one(i: usize, name: &str, source: &SchemaSource) -> (res: Result<CompiledSchema, AppError>)
    requires
        name@ == required_schema_name(i as int),
    ensures
        res is Ok <==> source_loads(*source),
        res matches Ok(schema) ==> schema_compiled_from(schema.validator, source_document(*source)),
        res matches Err(e) ==> (e matches AppError::SchemaLoading { message } && load_failure(
            i as int,
            *source,
            message@,
        )),
{
    let text = match &source.contents {
        Ok(text) => text,
        Err(error) => {
            let head = concat5("failed reading schema ", name, " from ", source.path.as_str(), ": ");
            return Err(AppError::schema_loading(concat2(head.as_str(), error.as_str())));
        },
    };
    let document = match parse_json_text(text.as_str()) {
        Ok(document) => document,
        Err(words) => {
            let head = concat5("failed parsing schema ", name, " from ", source.path.as_str(), ": ");
            return Err(AppError::schema_loading(concat2(head.as_str(), words.as_str())));
        },
    };
    match compile_schema(&document) {
        Ok(validator) => Ok(CompiledSchema { validator }),
        Err(words) => {
            let head = concat5("failed compiling schema ", name, " from ", source.path.as_str(), ": ");
            Err(AppError::schema_loading(concat2(head.as_str(), words.as_str())))
        },
    }
}

impl SchemaRegistry {
    /// The names of the schemas held, in the order they were loaded.
    pub closed spec fn names(self) -> Seq<Seq<char>> {
        self.schemas@.map_values(|entry: (String, CompiledSchema)| entry.0@)
    }

    /// The index of the first schema held under `name`, if any.
    pub closed spec fn index_of(self, name: Seq<char>) -> Option<int> {
        if exists|i: int| 0 <= i < self.schemas.len() && self.schemas[i].0@ == name {
            Some(
                choose|i: int|
                    0 <= i < self.schemas.len() && self.schemas[i].0@ == name && forall|j: int|
                        0 <= j < i ==> self.schemas[j].0@ != name,
            )
        } else {
            None
        }
    }

    /// Each validator held was compiled from the document held beside it.
    #[verifier::type_invariant]
    spec fn validators_match_documents(self) -> bool {
        &&& self.documents@.len() == self.schemas.len()
        &&& forall|i: int|
            0 <= i < self.schemas.len() ==> schema_compiled_from(
                #[trigger] self.schemas[i].1.validator,
                self.documents@[i],
            )
    }

    /// The document that the schema held under `name` was compiled from, if
    /// a schema is held under `name`.
    pub closed spec fn document_for(self, name: Seq<char>) -> Option<serde_json::Value> {
        match self.index_of(name) {
            Some(i) => Some(self.documents@[i]),
            None => None,
        }
    }

    /// A schema is held under `name` exactly when `name` is among the names.
    pub proof fn lemma_registered(self, name: Seq<char>)
        ensures
            self.document_for(name) is Some <==> self.names().contains(name),
    {
        if self.names().contains(name) {
            let k = choose|k: int| 0 <= k < self.names().len() && self.names()[k] == name;
            assert(self.schemas[k].0@ == name);
            self.lemma_first_index(name, k);
        } else if exists|i: int| 0 <= i < self.schemas.len() && self.schemas[i].0@ == name {
            let i = choose|i: int| 0 <= i < self.schemas.len() && self.schemas[i].0@ == name;
            assert(self.names()[i] == name);
        }
    }

    proof fn lemma_first_index(self, name: Seq<char>, k: int)
        requires
            0 <= k < self.schemas.len(),
            self.schemas[k].0@ == name,
        ensures
            exists|i: int|
                0 <= i < self.schemas.len() && self.schemas[i].0@ == name && forall|j: int|
                    0 <= j < i ==> self.schemas[j].0@ != name,
        decreases k,
    {
        if exists|j: int| 0 <= j < k && self.schemas[j].0@ == name {
            let j = choose|j: int| 0 <= j < k && self.schemas[j].0@ == name;
            self.lemma_first_index(name, j);
        }
    }

    /// Loads the required schemas from the files read for them, in order,
    /// stopping at the first that does not load.
    pub fn load(sources: Vec<SchemaSource>) -> (res: Result<SchemaRegistry, AppError>)
        requires
            sources.len() == required_schema_count(),
        ensures
            res is Ok <==> forall|i: int| 0 <= i < sources.len() ==> source_loads(#[trigger] sources[i]),
            res matches Ok(registry) ==> registry.names() == seq![
                required_schema_name(0),
                required_schema_name(1),
                required_schema_name(2),
            ],
            res matches Ok(registry) ==> forall|i: int|
                0 <= i < sources.len() ==> registry.document_for(required_schema_name(i)) == Some(
                    source_document(#[trigger] sources[i]),
                ),
            res matches Err(e) ==> exists|i: int|
                first_failure(sources@, i) && (e matches AppError::SchemaLoading { message }
                    && load_failure(i, sources[i], message@)),
    {
        let required = required_schemas();
        let mut schemas: Vec<(String, CompiledSchema)> = Vec::new();
        let ghost mut documents: Seq<serde_json::Value> = Seq::empty();
        let mut i: usize = 0;
        while i < sources.len()
            invariant
                sources.len() == required_schema_count(),
                required.len() == required_schema_count(),
                forall|k: int|
                    0 <= k < required.len() ==> (#[trigger] required[k]).0@ == required_schema_name(k),
                i <= sources.len(),
                schemas.len() == i,
                forall|k: int| 0 <= k < i ==> source_loads(#[trigger] sources[k]),
                forall|k: int| 0 <= k < i ==> (#[trigger] schemas[k]).0@ == required_schema_name(k),
                documents.len() == i,
                forall|k: int| 0 <= k < i ==> documents[k] == source_document(#[trigger] sources[k]),
                forall|k: int|
                    0 <= k < i ==> schema_compiled_from(
                        #[trigger] schemas[k].1.validator,
                        documents[k],
                    ),
            decreases sources.len() - i,
        {
            let name = required[i].0;
            match load_one(i, name, &sources[i]) {
                Ok(compiled) => {
                    schemas.push((crate::text::owned(name), compiled));
                    proof {
                        documents = documents.push(source_document(sources[i as int]));
                    }
                },
                Err(e) => {
                    proof {
                        assert(first_failure(sources@, i as int));
                    }
                    return Err(e);
                },
            }
            i = i + 1;
        }
        let registry = SchemaRegistry { schemas, documents: Ghost(documents) };
        proof {
            assert(registry.names() =~= seq![
                required_schema_name(0),
                required_schema_name(1),
                required_schema_name(2),
            ]);
            lemma_required_names_distinct();
            assert forall|i: int| 0 <= i < sources.len() implies registry.document_for(
                required_schema_name(i),
            ) == Some(source_document(#[trigger] sources[i])) by {
                assert(registry.schemas[i].0@ == required_schema_name(i));
                assert(forall|j: int| 0 <= j < i ==> registry.schemas[j].0@ != required_schema_name(i));
                assert(registry.index_of(required_schema_name(i)) == Some(i));
            }
        }
        Ok(registry)
    }

    /// The schema registered under `schema_name`, or an error saying that none is.
    pub fn get(&self, schema_name: &str) -> (res: Result<&CompiledSchema, AppError>)
        ensures
            match res {
                Ok(schema) => self.document_for(schema_name@) matches Some(document)
                    && schema_compiled_from(schema.validator, document),
                Err(e) => self.document_for(schema_name@) is None && e == AppError::SchemaLoading {
                    message: e->SchemaLoading_message,
                } && e->SchemaLoading_message@ == "schema "@ + schema_name@ + " is not registered"@,
            },
    {
        proof {
            use_type_invariant(self);
        }
        let wanted = crate::text::owned(schema_name);
        let mut i: usize = 0;
        while i < self.schemas.len()
            invariant
                wanted@ == schema_name@,
                i <= self.schemas.len(),
                forall|j: int| 0 <= j < i ==> self.schemas[j].0@ != schema_name@,
            decreases self.schemas.len() - i,
        {
            if self.schemas[i].0 == wanted {
                proof {
                    use_type_invariant(self);
                    assert(self.index_of(schema_name@) == Some(i as int));
                }
                return Ok(&self.schemas[i].1);
            }
            i = i + 1;
        }
        Err(AppError::schema_loading(concat3("schema ", schema_name, " is not registered")))
    }
}


/// The names of the required schemas differ from one another.
pub proof fn lemma_required_names_distinct()
    ensures
        required_schema_name(0) != required_schema_name(1),
        required_schema_name(0) != required_schema_name(2),
        required_schema_name(1) != required_schema_name(2),
{
    reveal_strlit("signal");
    reveal_strlit("confidence_gate");
    reveal_strlit("signalDecision");
    assert(required_schema_name(0).len() != required_schema_name(1).len());
    assert(required_schema_name(0).len() != required_schema_name(2).len());
    assert(required_schema_name(1).len() != required_schema_name(2).len());
}

/// A registry loaded from the required schemas serves exactly the required
/// schemas: `get` finds a schema under each of their names and under no other.
pub proof fn law_loaded_registry_serves_required(registry: SchemaRegistry, name: Seq<char>)
    requires
        registry.names() == seq![
            required_schema_name(0),
            required_schema_name(1),
            required_schema_name(2),
        ],
    ensures
        registry.document_for(name) is Some <==> (name == required_schema_name(0) || name
            == required_schema_name(1) || name == required_schema_name(2)),
{
    registry.lemma_registered(name);
    if name == required_schema_name(0) {
        assert(registry.names()[0] == name);
    } else if name == required_schema_name(1) {
        assert(registry.names()[1] == name);
    } else if name == required_schema_name(2) {
        assert(registry.names()[2] == name);
    }
}

} // verus!
