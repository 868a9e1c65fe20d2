//! The catalog of operations that a server advertises: each one's name,
//! description and input schema. The schemas list exactly the fields that
//! the requests decode, and mark the same ones required.

use vstd::prelude::*;
use crate::dispatch::{Operation, operation_name, operation_named, payload_fits};
use crate::json::lookup;
use crate::client::is_text;
use crate::decode::Shape;
use crate::json::Json;
use crate::requests::{parts_key, parts_key_text};

verus! {

/// One advertised operation.
#[derive(Debug)]
pub struct ToolDescriptor {
    pub name: String,
    pub description: String,
    pub input_schema: Json,
}

/// `j` is the schema `{"type": kind, "description": description}`.
pub open spec fn plain_is(j: Json, kind: Seq<char>, description: Seq<char>) -> bool {
    j matches Json::Object(f) && f@.len() == 2 && f@[0].0@ == "type"@ && is_text(f@[0].1, kind)
        && f@[1].0@ == "description"@ && is_text(f@[1].1, description)
}

/// `j` is the schema `{"type": kind}`.
pub open spec fn type_is(j: Json, kind: Seq<char>) -> bool {
    j matches Json::Object(f) && f@.len() == 1 && f@[0].0@ == "type"@ && is_text(f@[0].1, kind)
}

/// `j` is the schema of an array whose items are described by `items`.
pub open spec fn array_is(j: Json, items: spec_fn(Json) -> bool) -> bool {
    j matches Json::Object(f) && f@.len() == 2 && f@[0].0@ == "type"@ && is_text(f@[0].1, "array"@)
        && f@[1].0@ == "items"@ && items(f@[1].1)
}

/// `j` is the schema of a described array whose items are described by `items`.
pub open spec fn list_is(j: Json, items: spec_fn(Json) -> bool, description: Seq<char>) -> bool {
    j matches Json::Object(f) && f@.len() == 3 && f@[0].0@ == "type"@ && is_text(f@[0].1, "array"@)
        && f@[1].0@ == "items"@ && items(f@[1].1) && f@[2].0@ == "description"@ && is_text(f@[2].1, description)
}

/// `j` is the schema of a field of shape `shape`.
pub open spec fn property_is(j: Json, shape: Shape, description: Seq<char>) -> bool {
    match shape {
        Shape::Text => plain_is(j, "string"@, description),
        Shape::Count => plain_is(j, "integer"@, description),
        Shape::Int32 => plain_is(j, "integer"@, description),
        Shape::Number => plain_is(j, "number"@, description),
        Shape::Flag => plain_is(j, "boolean"@, description),
        Shape::Value => plain_is(j, "object"@, description),
        Shape::TextList => list_is(j, |x: Json| type_is(x, "string"@), description),
        Shape::ValueList => list_is(j, |x: Json| type_is(x, "object"@), description),
        Shape::NumberGrid => list_is(
            j,
            |x: Json| array_is(x, |y: Json| type_is(y, "number"@)),
            description,
        ),
    }
}

/// The entries of an object are exactly the fields `keys`, in order, each
/// with the schema of its shape and its description.
pub open spec fn has_keys(
    entries: Seq<(String, Json)>,
    keys: Seq<Seq<char>>,
    shapes: Seq<Shape>,
    descriptions: Seq<Seq<char>>,
) -> bool {
    &&& entries.len() == keys.len()
    &&& shapes.len() == keys.len()
    &&& descriptions.len() == keys.len()
    &&& forall|i: int| 0 <= i < keys.len() ==> (#[trigger] entries[i]).0@ == keys[i]
        && property_is(entries[i].1, shapes[i], descriptions[i])
}

/// The items of an array are exactly the texts `names`, in order.
pub open spec fn has_names(items: Seq<Json>, names: Seq<Seq<char>>) -> bool {
    &&& items.len() == names.len()
    &&& forall|i: int| 0 <= i < names.len() ==> (#[trigger] items[i] matches Json::Str(s) && s@ == names[i])
}

/// An object schema that requires the operation's required fields and
/// describes each of its request's fields.
pub open spec fn describes(schema: Json, op: Operation) -> bool {
    let required = required_fields(op);
    let fields = request_fields(op);
    schema matches Json::Object(f) && f@.len() == 3
        && f@[0].0@ == "type"@ && (f@[0].1 matches Json::Str(t) && t@ == "object"@)
        && f@[1].0@ == "required"@ && (f@[1].1 matches Json::Array(items) && has_names(items@, required))
        && f@[2].0@ == "properties"@ && (f@[2].1 matches Json::Object(p) && has_keys(p@, fields, field_shapes(op), field_descriptions(op)))
}

/// The fields of an operation's request.
pub open spec fn request_fields(op: Operation) -> Seq<Seq<char>> {
    match op {
        Operation::ListCollections => seq!["limit"@, "offset"@],
        Operation::CreateCollection => seq!["collection_name"@, "embedding_function_name"@, "metadata"@, "space"@, "ef_construction"@, "ef_search"@, "max_neighbors"@, "num_threads"@, "batch_size"@, "sync_threshold"@, "resize_factor"@],
        Operation::PeekCollection => seq!["collection_name"@, "limit"@],
        Operation::GetCollectionInfo => seq!["collection_name"@],
        Operation::GetCollectionCount => seq!["collection_name"@],
        Operation::ModifyCollection => seq!["collection_name"@, "new_name"@, "new_metadata"@, "ef_search"@, "num_threads"@, "batch_size"@, "sync_threshold"@, "resize_factor"@],
        Operation::DeleteCollection => seq!["collection_name"@],
        Operation::AddDocuments => seq!["collection_name"@, "documents"@, "metadatas"@, "ids"@],
        Operation::QueryDocuments => seq!["collection_name"@, "query_texts"@, "n_results"@, "where_filter"@, "where_document"@, parts_key()],
        Operation::GetDocuments => seq!["collection_name"@, "ids"@, "where_filter"@, "where_document"@, parts_key(), "limit"@, "offset"@],
        Operation::UpdateDocuments => seq!["collection_name"@, "ids"@, "embeddings"@, "metadatas"@, "documents"@],
        Operation::DeleteDocuments => seq!["collection_name"@, "ids"@],
        Operation::ProcessThought => seq!["session_id"@, "thought"@, "thought_number"@, "total_thoughts"@, "next_thought_needed"@, "is_revision"@, "revises_thought"@, "branch_from_thought"@, "branch_id"@, "needs_more_thoughts"@],
    }
}

/// The shape of each field of an operation's request.
pub open spec fn field_shapes(op: Operation) -> Seq<Shape> {
    match op {
        Operation::ListCollections => seq![Shape::Count, Shape::Count],
        Operation::CreateCollection => seq![Shape::Text, Shape::Text, Shape::Value, Shape::Text, Shape::Int32, Shape::Int32, Shape::Int32, Shape::Int32, Shape::Int32, Shape::Int32, Shape::Number],
        Operation::PeekCollection => seq![Shape::Text, Shape::Count],
        Operation::GetCollectionInfo => seq![Shape::Text],
        Operation::GetCollectionCount => seq![Shape::Text],
        Operation::ModifyCollection => seq![Shape::Text, Shape::Text, Shape::Value, Shape::Int32, Shape::Int32, Shape::Int32, Shape::Int32, Shape::Number],
        Operation::DeleteCollection => seq![Shape::Text],
        Operation::AddDocuments => seq![Shape::Text, Shape::TextList, Shape::ValueList, Shape::TextList],
        Operation::QueryDocuments => seq![Shape::Text, Shape::TextList, Shape::Count, Shape::Value, Shape::Value, Shape::TextList],
        Operation::GetDocuments => seq![Shape::Text, Shape::TextList, Shape::Value, Shape::Value, Shape::TextList, Shape::Count, Shape::Count],
        Operation::UpdateDocuments => seq![Shape::Text, Shape::TextList, Shape::NumberGrid, Shape::ValueList, Shape::TextList],
        Operation::DeleteDocuments => seq![Shape::Text, Shape::TextList],
        Operation::ProcessThought => seq![Shape::Text, Shape::Text, Shape::Count, Shape::Count, Shape::Flag, Shape::Flag, Shape::Count, Shape::Count, Shape::Text, Shape::Flag],
    }
}

/// The description of each field of an operation's request.
pub open spec fn field_descriptions(op: Operation) -> Seq<Seq<char>> {
    match op {
        Operation::ListCollections => seq!["Maximum number of items to return"@, "Offset for pagination"@],
        Operation::CreateCollection => seq!["Name of the collection"@, "Name of the embedding function to use"@, "Optional metadata for the collection"@, "Distance function of the index"@, "Index build-time search breadth"@, "Index query-time search breadth"@, "Maximum neighbours per index node"@, "Threads the index may use"@, "Index batch size"@, "Index sync threshold"@, "Index growth factor"@],
        Operation::PeekCollection => seq!["Name of the collection"@, "Maximum number of items to return"@],
        Operation::GetCollectionInfo => seq!["Name of the collection"@],
        Operation::GetCollectionCount => seq!["Name of the collection"@],
        Operation::ModifyCollection => seq!["Name of the collection"@, "New name for the collection"@, "New metadata for the collection"@, "Index query-time search breadth"@, "Threads the index may use"@, "Index batch size"@, "Index sync threshold"@, "Index growth factor"@],
        Operation::DeleteCollection => seq!["Name of the collection"@],
        Operation::AddDocuments => seq!["Name of the collection"@, "List of document contents"@, "List of metadata objects for documents"@, "List of document IDs"@],
        Operation::QueryDocuments => seq!["Name of the collection"@, "List of query texts"@, "Number of results to return per query"@, "Filter by metadata"@, "Filter by document content"@, "Parts of each result to return"@],
        Operation::GetDocuments => seq!["Name of the collection"@, "List of document IDs"@, "Filter by metadata"@, "Filter by document content"@, "Parts of each result to return"@, "Maximum number of items to return"@, "Offset for pagination"@],
        Operation::UpdateDocuments => seq!["Name of the collection"@, "List of document IDs"@, "List of embedding vectors"@, "List of metadata objects for documents"@, "List of document contents"@],
        Operation::DeleteDocuments => seq!["Name of the collection"@, "List of document IDs"@],
        Operation::ProcessThought => seq!["Session identifier"@, "Content of the current thought"@, "Number of this thought in the sequence"@, "Total expected thoughts"@, "Whether another thought is needed"@, "Whether this thought revises an earlier one"@, "The thought this one revises"@, "The thought this branch starts from"@, "Branch identifier"@, "Whether more thoughts are needed than planned"@],
    }
}

/// The description the catalog gives an operation.
pub open spec fn tool_description(op: Operation) -> Seq<char> {
    match op {
        Operation::ListCollections => "Lists all collections in the ChromaDB instance"@,
        Operation::CreateCollection => "Creates a new collection in ChromaDB"@,
        Operation::PeekCollection => "Shows a sample of documents in a collection"@,
        Operation::GetCollectionInfo => "Gets metadata about a collection"@,
        Operation::GetCollectionCount => "Counts the number of documents in a collection"@,
        Operation::ModifyCollection => "Modifies collection properties"@,
        Operation::DeleteCollection => "Deletes a collection"@,
        Operation::AddDocuments => "Adds documents to a collection"@,
        Operation::QueryDocuments => "Searches for similar documents in a collection"@,
        Operation::GetDocuments => "Retrieves documents from a collection"@,
        Operation::UpdateDocuments => "Updates documents in a collection"@,
        Operation::DeleteDocuments => "Deletes documents from a collection"@,
        Operation::ProcessThought => "Processes a thought in an ongoing session"@,
    }
}

/// The fields an operation's request cannot do without.
pub open spec fn required_fields(op: Operation) -> Seq<Seq<char>> {
    match op {
        Operation::ListCollections => seq![],
        Operation::CreateCollection => seq!["collection_name"@],
        Operation::PeekCollection => seq!["collection_name"@, "limit"@],
        Operation::GetCollectionInfo => seq!["collection_name"@],
        Operation::GetCollectionCount => seq!["collection_name"@],
        Operation::ModifyCollection => seq!["collection_name"@],
        Operation::DeleteCollection => seq!["collection_name"@],
        Operation::AddDocuments => seq!["collection_name"@, "documents"@],
        Operation::QueryDocuments => seq!["collection_name"@, "query_texts"@],
        Operation::GetDocuments => seq!["collection_name"@],
        Operation::UpdateDocuments => seq!["collection_name"@, "ids"@],
        Operation::DeleteDocuments => seq!["collection_name"@, "ids"@],
        Operation::ProcessThought => seq!["session_id"@, "thought"@, "thought_number"@, "total_thoughts"@, "next_thought_needed"@],
    }
}

/// Where the catalog lists an operation.
pub open spec fn position(op: Operation) -> int {
    match op {
        Operation::ListCollections => 0,
        Operation::CreateCollection => 1,
        Operation::PeekCollection => 2,
        Operation::GetCollectionInfo => 3,
        Operation::GetCollectionCount => 4,
        Operation::ModifyCollection => 5,
        Operation::DeleteCollection => 6,
        Operation::AddDocuments => 7,
        Operation::QueryDocuments => 8,
        Operation::GetDocuments => 9,
        Operation::UpdateDocuments => 10,
        Operation::DeleteDocuments => 11,
        Operation::ProcessThought => 12,
    }
}

/// The operations in the order the catalog lists them.
pub open spec fn listed(i: int) -> Operation {
    if i == 0 {
        Operation::ListCollections
    } else if i == 1 {
        Operation::CreateCollection
    } else if i == 2 {
        Operation::PeekCollection
    } else if i == 3 {
        Operation::GetCollectionInfo
    } else if i == 4 {
        Operation::GetCollectionCount
    } else if i == 5 {
        Operation::ModifyCollection
    } else if i == 6 {
        Operation::DeleteCollection
    } else if i == 7 {
        Operation::AddDocuments
    } else if i == 8 {
        Operation::QueryDocuments
    } else if i == 9 {
        Operation::GetDocuments
    } else if i == 10 {
        Operation::UpdateDocuments
    } else if i == 11 {
        Operation::DeleteDocuments
    } else {
        Operation::ProcessThought
    }
}

fn text_json(t: &str) -> (r: Json)
    ensures
        is_text(r, t@),
{
    Json::Str(t.to_owned())
}

fn field_schema(kind: &str, description: &str) -> (r: Json)
    ensures
        plain_is(r, kind@, description@),
{
    let mut f: Vec<(String, Json)> = Vec::new();
    f.push(("type".to_owned(), text_json(kind)));
    f.push(("description".to_owned(), text_json(description)));
    Json::Object(f)
}

fn type_only(kind: &str) -> (r: Json)
    ensures
        type_is(r, kind@),
{
    let mut f: Vec<(String, Json)> = Vec::new();
    f.push(("type".to_owned(), text_json(kind)));
    Json::Object(f)
}

fn number_array() -> (r: Json)
    ensures
        array_is(r, |y: Json| type_is(y, "number"@)),
{
    let mut f: Vec<(String, Json)> = Vec::new();
    f.push(("type".to_owned(), text_json("array")));
    f.push(("items".to_owned(), type_only("number")));
    Json::Object(f)
}

fn list_schema(item_kind: &str, description: &str) -> (r: Json)
    ensures
        list_is(r, |x: Json| type_is(x, item_kind@), description@),
{
    let mut f: Vec<(String, Json)> = Vec::new();
    f.push(("type".to_owned(), text_json("array")));
    f.push(("items".to_owned(), type_only(item_kind)));
    f.push(("description".to_owned(), text_json(description)));
    Json::Object(f)
}

fn grid_schema(description: &str) -> (r: Json)
    ensures
        list_is(r, |x: Json| array_is(x, |y: Json| type_is(y, "number"@)), description@),
{
    let mut f: Vec<(String, Json)> = Vec::new();
    f.push(("type".to_owned(), text_json("array")));
    f.push(("items".to_owned(), number_array()));
    f.push(("description".to_owned(), text_json(description)));
    Json::Object(f)
}

/// The schema of a field of the given shape.
fn property(shape: Shape, description: &str) -> (r: Json)
    ensures
        property_is(r, shape, description@),
{
    match shape {
        Shape::Text => field_schema("string", description),
        Shape::Count => field_schema("integer", description),
        Shape::Int32 => field_schema("integer", description),
        Shape::Number => field_schema("number", description),
        Shape::Flag => field_schema("boolean", description),
        Shape::Value => field_schema("object", description),
        Shape::TextList => list_schema("string", description),
        Shape::ValueList => list_schema("object", description),
        Shape::NumberGrid => grid_schema(description),
    }
}

fn add_entry(
    entries: &mut Vec<(String, Json)>,
    keys: Ghost<Seq<Seq<char>>>,
    shapes: Ghost<Seq<Shape>>,
    descriptions: Ghost<Seq<Seq<char>>>,
    key: String,
    shape: Shape,
    description: &str,
)
    requires
        has_keys(old(entries)@, keys@, shapes@, descriptions@),
    ensures
        has_keys(final(entries)@, keys@.push(key@), shapes@.push(shape), descriptions@.push(description@)),
{
    let ghost k = key@;
    entries.push((key, property(shape, description)));
    proof {
        let ks = keys@.push(k);
        let ss = shapes@.push(shape);
        let ds = descriptions@.push(description@);
        assert forall|i: int| 0 <= i < ks.len() implies (#[trigger] entries@[i]).0@ == ks[i] && property_is(
            entries@[i].1,
            ss[i],
            ds[i],
        ) by {
            if i < keys@.len() {
                assert(entries@[i] == old(entries)@[i]);
            }
        }
    }
}

fn add_name(items: &mut Vec<Json>, names: Ghost<Seq<Seq<char>>>, name: String)
    requires
        has_names(old(items)@, names@),
    ensures
        has_names(final(items)@, names@.push(name@)),
{
    let ghost n = name@;
    items.push(Json::Str(name));
    proof {
        assert forall|i: int| 0 <= i < names@.push(n).len() implies (#[trigger] items@[i] matches Json::Str(s) && s@
            == names@.push(n)[i]) by {
            if i < names@.len() {
                assert(items@[i] == old(items)@[i]);
            }
        }
    }
}

fn object_schema(required: Vec<Json>, properties: Vec<(String, Json)>, op: Ghost<Operation>) -> (r: Json)
    requires
        has_names(required@, required_fields(op@)),
        has_keys(properties@, request_fields(op@), field_shapes(op@), field_descriptions(op@)),
    ensures
        describes(r, op@),
{
    let mut f: Vec<(String, Json)> = Vec::new();
    f.push(("type".to_owned(), Json::Str("object".to_owned())));
    f.push(("required".to_owned(), Json::Array(required)));
    f.push(("properties".to_owned(), Json::Object(properties)));
    Json::Object(f)
}


fn list_collections_tool() -> (r: ToolDescriptor)
    ensures
        r.name@ == operation_name(Operation::ListCollections),
        r.description@ == tool_description(Operation::ListCollections),
        describes(r.input_schema, Operation::ListCollections),
{
    let mut props: Vec<(String, Json)> = Vec::new();
    let ghost mut keys: Seq<Seq<char>> = Seq::empty();
    let ghost mut shapes: Seq<Shape> = Seq::empty();
    let ghost mut descs: Seq<Seq<char>> = Seq::empty();
    add_entry(&mut props, Ghost(keys), Ghost(shapes), Ghost(descs), "limit".to_owned(), Shape::Count, "Maximum number of items to return");
    proof {
        keys = keys.push("limit"@);
        shapes = shapes.push(Shape::Count);
        descs = descs.push("Maximum number of items to return"@);
    }
    add_entry(&mut props, Ghost(keys), Ghost(shapes), Ghost(descs), "offset".to_owned(), Shape::Count, "Offset for pagination");
    proof {
        keys = keys.push("offset"@);
        shapes = shapes.push(Shape::Count);
        descs = descs.push("Offset for pagination"@);
    }
    let mut required: Vec<Json> = Vec::new();
    let ghost mut names: Seq<Seq<char>> = Seq::empty();
    proof {
        assert(keys =~= request_fields(Operation::ListCollections));
        assert(shapes =~= field_shapes(Operation::ListCollections));
        assert(descs =~= field_descriptions(Operation::ListCollections));
        assert(names =~= required_fields(Operation::ListCollections));
    }
    ToolDescriptor {
        name: "list_collections".to_owned(),
        description: "Lists all collections in the ChromaDB instance".to_owned(),
        input_schema: object_schema(required, props, Ghost(Operation::ListCollections)),
    }
}

fn create_collection_tool() -> (r: ToolDescriptor)
    ensures
        r.name@ == operation_name(Operation::CreateCollection),
        r.description@ == tool_description(Operation::CreateCollection),
        describes(r.input_schema, Operation::CreateCollection),
{
    let mut props: Vec<(String, Json)> = Vec::new();
    let ghost mut keys: Seq<Seq<char>> = Seq::empty();
    let ghost mut shapes: Seq<Shape> = Seq::empty();
    let ghost mut descs: Seq<Seq<char>> = Seq::empty();
    add_entry(&mut props, Ghost(keys), Ghost(shapes), Ghost(descs), "collection_name".to_owned(), Shape::Text, "Name of the collection");
    proof {
        keys = keys.push("collection_name"@);
        shapes = shapes.push(Shape::Text);
        descs = descs.push("Name of the collection"@);
    }
    add_entry(&mut props, Ghost(keys), Ghost(shapes), Ghost(descs), "embedding_function_name".to_owned(), Shape::Text, "Name of the embedding function to use");
    proof {
        keys = keys.push("embedding_function_name"@);
        shapes = shapes.push(Shape::Text);
        descs = descs.push("Name of the embedding function to use"@);
    }
    add_entry(&mut props, Ghost(keys), Ghost(shapes), Ghost(descs), "metadata".to_owned(), Shape::Value, "Optional metadata for the collection");
    proof {
        keys = keys.push("metadata"@);
        shapes = shapes.push(Shape::Value);
        descs = descs.push("Optional metadata for the collection"@);
    }
    add_entry(&mut props, Ghost(keys), Ghost(shapes), Ghost(descs), "space".to_owned(), Shape::Text, "Distance function of the index");
    proof {
        keys = keys.push("space"@);
        shapes = shapes.push(Shape::Text);
        descs = descs.push("Distance function of the index"@);
    }
    add_entry(&mut props, Ghost(keys), Ghost(shapes), Ghost(descs), "ef_construction".to_owned(), Shape::Int32, "Index build-time search breadth");
    proof {
        keys = keys.push("ef_construction"@);
        shapes = shapes.push(Shape::Int32);
        descs = descs.push("Index build-time search breadth"@);
    }
    add_entry(&mut props, Ghost(keys), Ghost(shapes), Ghost(descs), "ef_search".to_owned(), Shape::Int32, "Index query-time search breadth");
    proof {
        keys = keys.push("ef_search"@);
        shapes = shapes.push(Shape::Int32);
        descs = descs.push("Index query-time search breadth"@);
    }
    add_entry(&mut props, Ghost(keys), Ghost(shapes), Ghost(descs), "max_neighbors".to_owned(), Shape::Int32, "Maximum neighbours per index node");
    proof {
        keys = keys.push("max_neighbors"@);
        shapes = shapes.push(Shape::Int32);
        descs = descs.push("Maximum neighbours per index node"@);
    }
    add_entry(&mut props, Ghost(keys), Ghost(shapes), Ghost(descs), "num_threads".to_owned(), Shape::Int32, "Threads the index may use");
    proof {
        keys = keys.push("num_threads"@);
        shapes = shapes.push(Shape::Int32);
        descs = descs.push("Threads the index may use"@);
    }
    add_entry(&mut props, Ghost(keys), Ghost(shapes), Ghost(descs), "batch_size".to_owned(), Shape::Int32, "Index batch size");
    proof {
        keys = keys.push("batch_size"@);
        shapes = shapes.push(Shape::Int32);
        descs = descs.push("Index batch size"@);
    }
    add_entry(&mut props, Ghost(keys), Ghost(shapes), Ghost(descs), "sync_threshold".to_owned(), Shape::Int32, "Index sync threshold");
    proof {
        keys = keys.push("sync_threshold"@);
        shapes = shapes.push(Shape::Int32);
        descs = descs.push("Index sync threshold"@);
    }
    add_entry(&mut props, Ghost(keys), Ghost(shapes), Ghost(descs), "resize_factor".to_owned(), Shape::Number, "Index growth factor");
    proof {
        keys = keys.push("resize_factor"@);
        shapes = shapes.push(Shape::Number);
        descs = descs.push("Index growth factor"@);
    }
    let mut required: Vec<Json> = Vec::new();
    let ghost mut names: Seq<Seq<char>> = Seq::empty();
    add_name(&mut required, Ghost(names), "collection_name".to_owned());
    proof {
        names = names.push("collection_name"@);
    }
    proof {
        assert(keys =~= request_fields(Operation::CreateCollection));
        assert(shapes =~= field_shapes(Operation::CreateCollection));
        assert(descs =~= field_descriptions(Operation::CreateCollection));
        assert(names =~= required_fields(Operation::CreateCollection));
    }
    ToolDescriptor {
        name: "create_collection".to_owned(),
        description: "Creates a new collection in ChromaDB".to_owned(),
        input_schema: object_schema(required, props, Ghost(Operation::CreateCollection)),
    }
}

fn peek_collection_tool() -> (r: ToolDescriptor)
    ensures
        r.name@ == operation_name(Operation::PeekCollection),
        r.description@ == tool_description(Operation::PeekCollection),
        describes(r.input_schema, Operation::PeekCollection),
{
    let mut props: Vec<(String, Json)> = Vec::new();
    let ghost mut keys: Seq<Seq<char>> = Seq::empty();
    let ghost mut shapes: Seq<Shape> = Seq::empty();
    let ghost mut descs: Seq<Seq<char>> = Seq::empty();
    add_entry(&mut props, Ghost(keys), Ghost(shapes), Ghost(descs), "collection_name".to_owned(), Shape::Text, "Name of the collection");
    proof {
        keys = keys.push("collection_name"@);
        shapes = shapes.push(Shape::Text);
        descs = descs.push("Name of the collection"@);
    }
    add_entry(&mut props, Ghost(keys), Ghost(shapes), Ghost(descs), "limit".to_owned(), Shape::Count, "Maximum number of items to return");
    proof {
        keys = keys.push("limit"@);
        shapes = shapes.push(Shape::Count);
        descs = descs.push("Maximum number of items to return"@);
    }
    let mut required: Vec<Json> = Vec::new();
    let ghost mut names: Seq<Seq<char>> = Seq::empty();
    add_name(&mut required, Ghost(names), "collection_name".to_owned());
    proof {
        names = names.push("collection_name"@);
    }
    add_name(&mut required, Ghost(names), "limit".to_owned());
    proof {
        names = names.push("limit"@);
    }
    proof {
        assert(keys =~= request_fields(Operation::PeekCollection));
        assert(shapes =~= field_shapes(Operation::PeekCollection));
        assert(descs =~= field_descriptions(Operation::PeekCollection));
        assert(names =~= required_fields(Operation::PeekCollection));
    }
    ToolDescriptor {
        name: "peek_collection".to_owned(),
        description: "Shows a sample of documents in a collection".to_owned(),
        input_schema: object_schema(required, props, Ghost(Operation::PeekCollection)),
    }
}

fn get_collection_info_tool() -> (r: ToolDescriptor)
    ensures
        r.name@ == operation_name(Operation::GetCollectionInfo),
        r.description@ == tool_description(Operation::GetCollectionInfo),
        describes(r.input_schema, Operation::GetCollectionInfo),
{
    let mut props: Vec<(String, Json)> = Vec::new();
    let ghost mut keys: Seq<Seq<char>> = Seq::empty();
    let ghost mut shapes: Seq<Shape> = Seq::empty();
    let ghost mut descs: Seq<Seq<char>> = Seq::empty();
    add_entry(&mut props, Ghost(keys), Ghost(shapes), Ghost(descs), "collection_name".to_owned(), Shape::Text, "Name of the collection");
    proof {
        keys = keys.push("collection_name"@);
        shapes = shapes.push(Shape::Text);
        descs = descs.push("Name of the collection"@);
    }
    let mut required: Vec<Json> = Vec::new();
    let ghost mut names: Seq<Seq<char>> = Seq::empty();
    add_name(&mut required, Ghost(names), "collection_name".to_owned());
    proof {
        names = names.push("collection_name"@);
    }
    proof {
        assert(keys =~= request_fields(Operation::GetCollectionInfo));
        assert(shapes =~= field_shapes(Operation::GetCollectionInfo));
        assert(descs =~= field_descriptions(Operation::GetCollectionInfo));
        assert(names =~= required_fields(Operation::GetCollectionInfo));
    }
    ToolDescriptor {
        name: "get_collection_info".to_owned(),
        description: "Gets metadata about a collection".to_owned(),
        input_schema: object_schema(required, props, Ghost(Operation::GetCollectionInfo)),
    }
}

fn get_collection_count_tool() -> (r: ToolDescriptor)
    ensures
        r.name@ == operation_name(Operation::GetCollectionCount),
        r.description@ == tool_description(Operation::GetCollectionCount),
        describes(r.input_schema, Operation::GetCollectionCount),
{
    let mut props: Vec<(String, Json)> = Vec::new();
    let ghost mut keys: Seq<Seq<char>> = Seq::empty();
    let ghost mut shapes: Seq<Shape> = Seq::empty();
    let ghost mut descs: Seq<Seq<char>> = Seq::empty();
    add_entry(&mut props, Ghost(keys), Ghost(shapes), Ghost(descs), "collection_name".to_owned(), Shape::Text, "Name of the collection");
    proof {
        keys = keys.push("collection_name"@);
        shapes = shapes.push(Shape::Text);
        descs = descs.push("Name of the collection"@);
    }
    let mut required: Vec<Json> = Vec::new();
    let ghost mut names: Seq<Seq<char>> = Seq::empty();
    add_name(&mut required, Ghost(names), "collection_name".to_owned());
    proof {
        names = names.push("collection_name"@);
    }
    proof {
        assert(keys =~= request_fields(Operation::GetCollectionCount));
        assert(shapes =~= field_shapes(Operation::GetCollectionCount));
        assert(descs =~= field_descriptions(Operation::GetCollectionCount));
        assert(names =~= required_fields(Operation::GetCollectionCount));
    }
    ToolDescriptor {
        name: "get_collection_count".to_owned(),
        description: "Counts the number of documents in a collection".to_owned(),
        input_schema: object_schema(required, props, Ghost(Operation::GetCollectionCount)),
    }
}

fn modify_collection_tool() -> (r: ToolDescriptor)
    ensures
        r.name@ == operation_name(Operation::ModifyCollection),
        r.description@ == tool_description(Operation::ModifyCollection),
        describes(r.input_schema, Operation::ModifyCollection),
{
    let mut props: Vec<(String, Json)> = Vec::new();
    let ghost mut keys: Seq<Seq<char>> = Seq::empty();
    let ghost mut shapes: Seq<Shape> = Seq::empty();
    let ghost mut descs: Seq<Seq<char>> = Seq::empty();
    add_entry(&mut props, Ghost(keys), Ghost(shapes), Ghost(descs), "collection_name".to_owned(), Shape::Text, "Name of the collection");
    proof {
        keys = keys.push("collection_name"@);
        shapes = shapes.push(Shape::Text);
        descs = descs.push("Name of the collection"@);
    }
    add_entry(&mut props, Ghost(keys), Ghost(shapes), Ghost(descs), "new_name".to_owned(), Shape::Text, "New name for the collection");
    proof {
        keys = keys.push("new_name"@);
        shapes = shapes.push(Shape::Text);
        descs = descs.push("New name for the collection"@);
    }
    add_entry(&mut props, Ghost(keys), Ghost(shapes), Ghost(descs), "new_metadata".to_owned(), Shape::Value, "New metadata for the collection");
    proof {
        keys = keys.push("new_metadata"@);
        shapes = shapes.push(Shape::Value);
        descs = descs.push("New metadata for the collection"@);
    }
    add_entry(&mut props, Ghost(keys), Ghost(shapes), Ghost(descs), "ef_search".to_owned(), Shape::Int32, "Index query-time search breadth");
    proof {
        keys = keys.push("ef_search"@);
        shapes = shapes.push(Shape::Int32);
        descs = descs.push("Index query-time search breadth"@);
    }
    add_entry(&mut props, Ghost(keys), Ghost(shapes), Ghost(descs), "num_threads".to_owned(), Shape::Int32, "Threads the index may use");
    proof {
        keys = keys.push("num_threads"@);
        shapes = shapes.push(Shape::Int32);
        descs = descs.push("Threads the index may use"@);
    }
    add_entry(&mut props, Ghost(keys), Ghost(shapes), Ghost(descs), "batch_size".to_owned(), Shape::Int32, "Index batch size");
    proof {
        keys = keys.push("batch_size"@);
        shapes = shapes.push(Shape::Int32);
        descs = descs.push("Index batch size"@);
    }
    add_entry(&mut props, Ghost(keys), Ghost(shapes), Ghost(descs), "sync_threshold".to_owned(), Shape::Int32, "Index sync threshold");
    proof {
        keys = keys.push("sync_threshold"@);
        shapes = shapes.push(Shape::Int32);
        descs = descs.push("Index sync threshold"@);
    }
    add_entry(&mut props, Ghost(keys), Ghost(shapes), Ghost(descs), "resize_factor".to_owned(), Shape::Number, "Index growth factor");
    proof {
        keys = keys.push("resize_factor"@);
        shapes = shapes.push(Shape::Number);
        descs = descs.push("Index growth factor"@);
    }
    let mut required: Vec<Json> = Vec::new();
    let ghost mut names: Seq<Seq<char>> = Seq::empty();
    add_name(&mut required, Ghost(names), "collection_name".to_owned());
    proof {
        names = names.push("collection_name"@);
    }
    proof {
        assert(keys =~= request_fields(Operation::ModifyCollection));
        assert(shapes =~= field_shapes(Operation::ModifyCollection));
        assert(descs =~= field_descriptions(Operation::ModifyCollection));
        assert(names =~= required_fields(Operation::ModifyCollection));
    }
    ToolDescriptor {
        name: "modify_collection".to_owned(),
        description: "Modifies collection properties".to_owned(),
        input_schema: object_schema(required, props, Ghost(Operation::ModifyCollection)),
    }
}

fn delete_collection_tool() -> (r: ToolDescriptor)
    ensures
        r.name@ == operation_name(Operation::DeleteCollection),
        r.description@ == tool_description(Operation::DeleteCollection),
        describes(r.input_schema, Operation::DeleteCollection),
{
    let mut props: Vec<(String, Json)> = Vec::new();
    let ghost mut keys: Seq<Seq<char>> = Seq::empty();
    let ghost mut shapes: Seq<Shape> = Seq::empty();
    let ghost mut descs: Seq<Seq<char>> = Seq::empty();
    add_entry(&mut props, Ghost(keys), Ghost(shapes), Ghost(descs), "collection_name".to_owned(), Shape::Text, "Name of the collection");
    proof {
        keys = keys.push("collection_name"@);
        shapes = shapes.push(Shape::Text);
        descs = descs.push("Name of the collection"@);
    }
    let mut required: Vec<Json> = Vec::new();
    let ghost mut names: Seq<Seq<char>> = Seq::empty();
    add_name(&mut required, Ghost(names), "collection_name".to_owned());
    proof {
        names = names.push("collection_name"@);
    }
    proof {
        assert(keys =~= request_fields(Operation::DeleteCollection));
        assert(shapes =~= field_shapes(Operation::DeleteCollection));
        assert(descs =~= field_descriptions(Operation::DeleteCollection));
        assert(names =~= required_fields(Operation::DeleteCollection));
    }
    ToolDescriptor {
        name: "delete_collection".to_owned(),
        description: "Deletes a collection".to_owned(),
        input_schema: object_schema(required, props, Ghost(Operation::DeleteCollection)),
    }
}

fn add_documents_tool() -> (r: ToolDescriptor)
    ensures
        r.name@ == operation_name(Operation::AddDocuments),
        r.description@ == tool_description(Operation::AddDocuments),
        describes(r.input_schema, Operation::AddDocuments),
{
    let mut props: Vec<(String, Json)> = Vec::new();
    let ghost mut keys: Seq<Seq<char>> = Seq::empty();
    let ghost mut shapes: Seq<Shape> = Seq::empty();
    let ghost mut descs: Seq<Seq<char>> = Seq::empty();
    add_entry(&mut props, Ghost(keys), Ghost(shapes), Ghost(descs), "collection_name".to_owned(), Shape::Text, "Name of the collection");
    proof {
        keys = keys.push("collection_name"@);
        shapes = shapes.push(Shape::Text);
        descs = descs.push("Name of the collection"@);
    }
    add_entry(&mut props, Ghost(keys), Ghost(shapes), Ghost(descs), "documents".to_owned(), Shape::TextList, "List of document contents");
    proof {
        keys = keys.push("documents"@);
        shapes = shapes.push(Shape::TextList);
        descs = descs.push("List of document contents"@);
    }
    add_entry(&mut props, Ghost(keys), Ghost(shapes), Ghost(descs), "metadatas".to_owned(), Shape::ValueList, "List of metadata objects for documents");
    proof {
        keys = keys.push("metadatas"@);
        shapes = shapes.push(Shape::ValueList);
        descs = descs.push("List of metadata objects for documents"@);
    }
    add_entry(&mut props, Ghost(keys), Ghost(shapes), Ghost(descs), "ids".to_owned(), Shape::TextList, "List of document IDs");
    proof {
        keys = keys.push("ids"@);
        shapes = shapes.push(Shape::TextList);
        descs = descs.push("List of document IDs"@);
    }
    let mut required: Vec<Json> = Vec::new();
    let ghost mut names: Seq<Seq<char>> = Seq::empty();
    add_name(&mut required, Ghost(names), "collection_name".to_owned());
    proof {
        names = names.push("collection_name"@);
    }
    add_name(&mut required, Ghost(names), "documents".to_owned());
    proof {
        names = names.push("documents"@);
    }
    proof {
        assert(keys =~= request_fields(Operation::AddDocuments));
        assert(shapes =~= field_shapes(Operation::AddDocuments));
        assert(descs =~= field_descriptions(Operation::AddDocuments));
        assert(names =~= required_fields(Operation::AddDocuments));
    }
    ToolDescriptor {
        name: "add_documents".to_owned(),
        description: "Adds documents to a collection".to_owned(),
        input_schema: object_schema(required, props, Ghost(Operation::AddDocuments)),
    }
}

fn query_documents_tool() -> (r: ToolDescriptor)
    ensures
        r.name@ == operation_name(Operation::QueryDocuments),
        r.description@ == tool_description(Operation::QueryDocuments),
        describes(r.input_schema, Operation::QueryDocuments),
{
    let mut props: Vec<(String, Json)> = Vec::new();
    let ghost mut keys: Seq<Seq<char>> = Seq::empty();
    let ghost mut shapes: Seq<Shape> = Seq::empty();
    let ghost mut descs: Seq<Seq<char>> = Seq::empty();
    add_entry(&mut props, Ghost(keys), Ghost(shapes), Ghost(descs), "collection_name".to_owned(), Shape::Text, "Name of the collection");
    proof {
        keys = keys.push("collection_name"@);
        shapes = shapes.push(Shape::Text);
        descs = descs.push("Name of the collection"@);
    }
    add_entry(&mut props, Ghost(keys), Ghost(shapes), Ghost(descs), "query_texts".to_owned(), Shape::TextList, "List of query texts");
    proof {
        keys = keys.push("query_texts"@);
        shapes = shapes.push(Shape::TextList);
        descs = descs.push("List of query texts"@);
    }
    add_entry(&mut props, Ghost(keys), Ghost(shapes), Ghost(descs), "n_results".to_owned(), Shape::Count, "Number of results to return per query");
    proof {
        keys = keys.push("n_results"@);
        shapes = shapes.push(Shape::Count);
        descs = descs.push("Number of results to return per query"@);
    }
    add_entry(&mut props, Ghost(keys), Ghost(shapes), Ghost(descs), "where_filter".to_owned(), Shape::Value, "Filter by metadata");
    proof {
        keys = keys.push("where_filter"@);
        shapes = shapes.push(Shape::Value);
        descs = descs.push("Filter by metadata"@);
    }
    add_entry(&mut props, Ghost(keys), Ghost(shapes), Ghost(descs), "where_document".to_owned(), Shape::Value, "Filter by document content");
    proof {
        keys = keys.push("where_document"@);
        shapes = shapes.push(Shape::Value);
        descs = descs.push("Filter by document content"@);
    }
    add_entry(&mut props, Ghost(keys), Ghost(shapes), Ghost(descs), parts_key_text(), Shape::TextList, "Parts of each result to return");
    proof {
        keys = keys.push(parts_key());
        shapes = shapes.push(Shape::TextList);
        descs = descs.push("Parts of each result to return"@);
    }
    let mut required: Vec<Json> = Vec::new();
    let ghost mut names: Seq<Seq<char>> = Seq::empty();
    add_name(&mut required, Ghost(names), "collection_name".to_owned());
    proof {
        names = names.push("collection_name"@);
    }
    add_name(&mut required, Ghost(names), "query_texts".to_owned());
    proof {
        names = names.push("query_texts"@);
    }
    proof {
        assert(keys =~= request_fields(Operation::QueryDocuments));
        assert(shapes =~= field_shapes(Operation::QueryDocuments));
        assert(descs =~= field_descriptions(Operation::QueryDocuments));
        assert(names =~= required_fields(Operation::QueryDocuments));
    }
    ToolDescriptor {
        name: "query_documents".to_owned(),
        description: "Searches for similar documents in a collection".to_owned(),
        input_schema: object_schema(required, props, Ghost(Operation::QueryDocuments)),
    }
}

fn get_documents_tool() -> (r: ToolDescriptor)
    ensures
        r.name@ == operation_name(Operation::GetDocuments),
        r.description@ == tool_description(Operation::GetDocuments),
        describes(r.input_schema, Operation::GetDocuments),
{
    let mut props: Vec<(String, Json)> = Vec::new();
    let ghost mut keys: Seq<Seq<char>> = Seq::empty();
    let ghost mut shapes: Seq<Shape> = Seq::empty();
    let ghost mut descs: Seq<Seq<char>> = Seq::empty();
    add_entry(&mut props, Ghost(keys), Ghost(shapes), Ghost(descs), "collection_name".to_owned(), Shape::Text, "Name of the collection");
    proof {
        keys = keys.push("collection_name"@);
        shapes = shapes.push(Shape::Text);
        descs = descs.push("Name of the collection"@);
    }
    add_entry(&mut props, Ghost(keys), Ghost(shapes), Ghost(descs), "ids".to_owned(), Shape::TextList, "List of document IDs");
    proof {
        keys = keys.push("ids"@);
        shapes = shapes.push(Shape::TextList);
        descs = descs.push("List of document IDs"@);
    }
    add_entry(&mut props, Ghost(keys), Ghost(shapes), Ghost(descs), "where_filter".to_owned(), Shape::Value, "Filter by metadata");
    proof {
        keys = keys.push("where_filter"@);
        shapes = shapes.push(Shape::Value);
        descs = descs.push("Filter by metadata"@);
    }
    add_entry(&mut props, Ghost(keys), Ghost(shapes), Ghost(descs), "where_document".to_owned(), Shape::Value, "Filter by document content");
    proof {
        keys = keys.push("where_document"@);
        shapes = shapes.push(Shape::Value);
        descs = descs.push("Filter by document content"@);
    }
    add_entry(&mut props, Ghost(keys), Ghost(shapes), Ghost(descs), parts_key_text(), Shape::TextList, "Parts of each result to return");
    proof {
        keys = keys.push(parts_key());
        shapes = shapes.push(Shape::TextList);
        descs = descs.push("Parts of each result to return"@);
    }
    add_entry(&mut props, Ghost(keys), Ghost(shapes), Ghost(descs), "limit".to_owned(), Shape::Count, "Maximum number of items to return");
    proof {
        keys = keys.push("limit"@);
        shapes = shapes.push(Shape::Count);
        descs = descs.push("Maximum number of items to return"@);
    }
    add_entry(&mut props, Ghost(keys), Ghost(shapes), Ghost(descs), "offset".to_owned(), Shape::Count, "Offset for pagination");
    proof {
        keys = keys.push("offset"@);
        shapes = shapes.push(Shape::Count);
        descs = descs.push("Offset for pagination"@);
    }
    let mut required: Vec<Json> = Vec::new();
    let ghost mut names: Seq<Seq<char>> = Seq::empty();
    add_name(&mut required, Ghost(names), "collection_name".to_owned());
    proof {
        names = names.push("collection_name"@);
    }
    proof {
        assert(keys =~= request_fields(Operation::GetDocuments));
        assert(shapes =~= field_shapes(Operation::GetDocuments));
        assert(descs =~= field_descriptions(Operation::GetDocuments));
        assert(names =~= required_fields(Operation::GetDocuments));
    }
    ToolDescriptor {
        name: "get_documents".to_owned(),
        description: "Retrieves documents from a collection".to_owned(),
        input_schema: object_schema(required, props, Ghost(Operation::GetDocuments)),
    }
}

fn update_documents_tool() -> (r: ToolDescriptor)
    ensures
        r.name@ == operation_name(Operation::UpdateDocuments),
        r.description@ == tool_description(Operation::UpdateDocuments),
        describes(r.input_schema, Operation::UpdateDocuments),
{
    let mut props: Vec<(String, Json)> = Vec::new();
    let ghost mut keys: Seq<Seq<char>> = Seq::empty();
    let ghost mut shapes: Seq<Shape> = Seq::empty();
    let ghost mut descs: Seq<Seq<char>> = Seq::empty();
    add_entry(&mut props, Ghost(keys), Ghost(shapes), Ghost(descs), "collection_name".to_owned(), Shape::Text, "Name of the collection");
    proof {
        keys = keys.push("collection_name"@);
        shapes = shapes.push(Shape::Text);
        descs = descs.push("Name of the collection"@);
    }
    add_entry(&mut props, Ghost(keys), Ghost(shapes), Ghost(descs), "ids".to_owned(), Shape::TextList, "List of document IDs");
    proof {
        keys = keys.push("ids"@);
        shapes = shapes.push(Shape::TextList);
        descs = descs.push("List of document IDs"@);
    }
    add_entry(&mut props, Ghost(keys), Ghost(shapes), Ghost(descs), "embeddings".to_owned(), Shape::NumberGrid, "List of embedding vectors");
    proof {
        keys = keys.push("embeddings"@);
        shapes = shapes.push(Shape::NumberGrid);
        descs = descs.push("List of embedding vectors"@);
    }
    add_entry(&mut props, Ghost(keys), Ghost(shapes), Ghost(descs), "metadatas".to_owned(), Shape::ValueList, "List of metadata objects for documents");
    proof {
        keys = keys.push("metadatas"@);
        shapes = shapes.push(Shape::ValueList);
        descs = descs.push("List of metadata objects for documents"@);
    }
    add_entry(&mut props, Ghost(keys), Ghost(shapes), Ghost(descs), "documents".to_owned(), Shape::TextList, "List of document contents");
    proof {
        keys = keys.push("documents"@);
        shapes = shapes.push(Shape::TextList);
        descs = descs.push("List of document contents"@);
    }
    let mut required: Vec<Json> = Vec::new();
    let ghost mut names: Seq<Seq<char>> = Seq::empty();
    add_name(&mut required, Ghost(names), "collection_name".to_owned());
    proof {
        names = names.push("collection_name"@);
    }
    add_name(&mut required, Ghost(names), "ids".to_owned());
    proof {
        names = names.push("ids"@);
    }
    proof {
        assert(keys =~= request_fields(Operation::UpdateDocuments));
        assert(shapes =~= field_shapes(Operation::UpdateDocuments));
        assert(descs =~= field_descriptions(Operation::UpdateDocuments));
        assert(names =~= required_fields(Operation::UpdateDocuments));
    }
    ToolDescriptor {
        name: "update_documents".to_owned(),
        description: "Updates documents in a collection".to_owned(),
        input_schema: object_schema(required, props, Ghost(Operation::UpdateDocuments)),
    }
}

fn delete_documents_tool() -> (r: ToolDescriptor)
    ensures
        r.name@ == operation_name(Operation::DeleteDocuments),
        r.description@ == tool_description(Operation::DeleteDocuments),
        describes(r.input_schema, Operation::DeleteDocuments),
{
    let mut props: Vec<(String, Json)> = Vec::new();
    let ghost mut keys: Seq<Seq<char>> = Seq::empty();
    let ghost mut shapes: Seq<Shape> = Seq::empty();
    let ghost mut descs: Seq<Seq<char>> = Seq::empty();
    add_entry(&mut props, Ghost(keys), Ghost(shapes), Ghost(descs), "collection_name".to_owned(), Shape::Text, "Name of the collection");
    proof {
        keys = keys.push("collection_name"@);
        shapes = shapes.push(Shape::Text);
        descs = descs.push("Name of the collection"@);
    }
    add_entry(&mut props, Ghost(keys), Ghost(shapes), Ghost(descs), "ids".to_owned(), Shape::TextList, "List of document IDs");
    proof {
        keys = keys.push("ids"@);
        shapes = shapes.push(Shape::TextList);
        descs = descs.push("List of document IDs"@);
    }
    let mut required: Vec<Json> = Vec::new();
    let ghost mut names: Seq<Seq<char>> = Seq::empty();
    add_name(&mut required, Ghost(names), "collection_name".to_owned());
    proof {
        names = names.push("collection_name"@);
    }
    add_name(&mut required, Ghost(names), "ids".to_owned());
    proof {
        names = names.push("ids"@);
    }
    proof {
        assert(keys =~= request_fields(Operation::DeleteDocuments));
        assert(shapes =~= field_shapes(Operation::DeleteDocuments));
        assert(descs =~= field_descriptions(Operation::DeleteDocuments));
        assert(names =~= required_fields(Operation::DeleteDocuments));
    }
    ToolDescriptor {
        name: "delete_documents".to_owned(),
        description: "Deletes documents from a collection".to_owned(),
        input_schema: object_schema(required, props, Ghost(Operation::DeleteDocuments)),
    }
}

fn process_thought_tool() -> (r: ToolDescriptor)
    ensures
        r.name@ == operation_name(Operation::ProcessThought),
        r.description@ == tool_description(Operation::ProcessThought),
        describes(r.input_schema, Operation::ProcessThought),
{
    let mut props: Vec<(String, Json)> = Vec::new();
    let ghost mut keys: Seq<Seq<char>> = Seq::empty();
    let ghost mut shapes: Seq<Shape> = Seq::empty();
    let ghost mut descs: Seq<Seq<char>> = Seq::empty();
    add_entry(&mut props, Ghost(keys), Ghost(shapes), Ghost(descs), "session_id".to_owned(), Shape::Text, "Session identifier");
    proof {
        keys = keys.push("session_id"@);
        shapes = shapes.push(Shape::Text);
        descs = descs.push("Session identifier"@);
    }
    add_entry(&mut props, Ghost(keys), Ghost(shapes), Ghost(descs), "thought".to_owned(), Shape::Text, "Content of the current thought");
    proof {
        keys = keys.push("thought"@);
        shapes = shapes.push(Shape::Text);
        descs = descs.push("Content of the current thought"@);
    }
    add_entry(&mut props, Ghost(keys), Ghost(shapes), Ghost(descs), "thought_number".to_owned(), Shape::Count, "Number of this thought in the sequence");
    proof {
        keys = keys.push("thought_number"@);
        shapes = shapes.push(Shape::Count);
        descs = descs.push("Number of this thought in the sequence"@);
    }
    add_entry(&mut props, Ghost(keys), Ghost(shapes), Ghost(descs), "total_thoughts".to_owned(), Shape::Count, "Total expected thoughts");
    proof {
        keys = keys.push("total_thoughts"@);
        shapes = shapes.push(Shape::Count);
        descs = descs.push("Total expected thoughts"@);
    }
    add_entry(&mut props, Ghost(keys), Ghost(shapes), Ghost(descs), "next_thought_needed".to_owned(), Shape::Flag, "Whether another thought is needed");
    proof {
        keys = keys.push("next_thought_needed"@);
        shapes = shapes.push(Shape::Flag);
        descs = descs.push("Whether another thought is needed"@);
    }
    add_entry(&mut props, Ghost(keys), Ghost(shapes), Ghost(descs), "is_revision".to_owned(), Shape::Flag, "Whether this thought revises an earlier one");
    proof {
        keys = keys.push("is_revision"@);
        shapes = shapes.push(Shape::Flag);
        descs = descs.push("Whether this thought revises an earlier one"@);
    }
    add_entry(&mut props, Ghost(keys), Ghost(shapes), Ghost(descs), "revises_thought".to_owned(), Shape::Count, "The thought this one revises");
    proof {
        keys = keys.push("revises_thought"@);
        shapes = shapes.push(Shape::Count);
        descs = descs.push("The thought this one revises"@);
    }
    add_entry(&mut props, Ghost(keys), Ghost(shapes), Ghost(descs), "branch_from_thought".to_owned(), Shape::Count, "The thought this branch starts from");
    proof {
        keys = keys.push("branch_from_thought"@);
        shapes = shapes.push(Shape::Count);
        descs = descs.push("The thought this branch starts from"@);
    }
    add_entry(&mut props, Ghost(keys), Ghost(shapes), Ghost(descs), "branch_id".to_owned(), Shape::Text, "Branch identifier");
    proof {
        keys = keys.push("branch_id"@);
        shapes = shapes.push(Shape::Text);
        descs = descs.push("Branch identifier"@);
    }
    add_entry(&mut props, Ghost(keys), Ghost(shapes), Ghost(descs), "needs_more_thoughts".to_owned(), Shape::Flag, "Whether more thoughts are needed than planned");
    proof {
        keys = keys.push("needs_more_thoughts"@);
        shapes = shapes.push(Shape::Flag);
        descs = descs.push("Whether more thoughts are needed than planned"@);
    }
    let mut required: Vec<Json> = Vec::new();
    let ghost mut names: Seq<Seq<char>> = Seq::empty();
    add_name(&mut required, Ghost(names), "session_id".to_owned());
    proof {
        names = names.push("session_id"@);
    }
    add_name(&mut required, Ghost(names), "thought".to_owned());
    proof {
        names = names.push("thought"@);
    }
    add_name(&mut required, Ghost(names), "thought_number".to_owned());
    proof {
        names = names.push("thought_number"@);
    }
    add_name(&mut required, Ghost(names), "total_thoughts".to_owned());
    proof {
        names = names.push("total_thoughts"@);
    }
    add_name(&mut required, Ghost(names), "next_thought_needed".to_owned());
    proof {
        names = names.push("next_thought_needed"@);
    }
    proof {
        assert(keys =~= request_fields(Operation::ProcessThought));
        assert(shapes =~= field_shapes(Operation::ProcessThought));
        assert(descs =~= field_descriptions(Operation::ProcessThought));
        assert(names =~= required_fields(Operation::ProcessThought));
    }
    ToolDescriptor {
        name: "process_thought".to_owned(),
        description: "Processes a thought in an ongoing session".to_owned(),
        input_schema: object_schema(required, props, Ghost(Operation::ProcessThought)),
    }
}

/// The catalog: one descriptor per operation, in a fixed order.
pub fn get_tool_definitions() -> (r: Vec<ToolDescriptor>)
    ensures
        r@.len() == 13,
        forall|i: int| 0 <= i < 13 ==> {
            &&& (#[trigger] r@[i]).name@ == operation_name(listed(i))
            &&& r@[i].description@ == tool_description(listed(i))
            &&& describes(r@[i].input_schema, listed(i))
        },
{
    let mut tools: Vec<ToolDescriptor> = Vec::new();
    tools.push(list_collections_tool());
    tools.push(create_collection_tool());
    tools.push(peek_collection_tool());
    tools.push(get_collection_info_tool());
    tools.push(get_collection_count_tool());
    tools.push(modify_collection_tool());
    tools.push(delete_collection_tool());
    tools.push(add_documents_tool());
    tools.push(query_documents_tool());
    tools.push(get_documents_tool());
    tools.push(update_documents_tool());
    tools.push(delete_documents_tool());
    tools.push(process_thought_tool());
    tools
}

/// The catalog and the router agree: every operation is listed, at its
/// position, and every listed name routes to an operation.
pub proof fn lemma_catalog_matches_routes()
    ensures
        forall|op: Operation| 0 <= #[trigger] position(op) < 13 && listed(position(op)) == op,
        forall|i: int| 0 <= i < 13 ==> (operation_named(operation_name(#[trigger] listed(i))) is Some),
{
}

/// A payload that lacks a field the catalog marks required does not decode
/// for that operation.
pub proof fn lemma_required_fields_are_required(op: Operation, payload: Json, key: Seq<char>)
    requires
        required_fields(op).contains(key),
        payload matches Json::Object(f) && lookup(f@, key) is None,
    ensures
        !payload_fits(op, payload),
{
    match op {
        Operation::ListCollections => {},
        Operation::CreateCollection => {},
        Operation::PeekCollection => {},
        Operation::GetCollectionInfo => {},
        Operation::GetCollectionCount => {},
        Operation::ModifyCollection => {},
        Operation::DeleteCollection => {},
        Operation::AddDocuments => {},
        Operation::QueryDocuments => {},
        Operation::GetDocuments => {},
        Operation::UpdateDocuments => {},
        Operation::DeleteDocuments => {},
        Operation::ProcessThought => {},
    }
}

} // verus!
