//! The request of each operation, decoded from an object payload.

use vstd::prelude::*;
use crate::json::{Json, Num, given};
use crate::decode::{
    DecodeError, Shape, field_fits, text_at, opt_text_at, count_at, opt_count_at, flag_at, opt_flag_at,
    opt_int32_at, opt_number_at, texts_at, opt_texts_at, opt_grid_at, opt_values_at, text_field,
    opt_text_field, count_field, opt_count_field, flag_field, opt_flag_field, opt_int32_field,
    opt_number_field, texts_field, opt_texts_field, opt_grid_field, take_value, take_values,
};

verus! {

/// The key under which a request names the parts of each result to return.
pub open spec fn parts_key() -> Seq<char> {
    "incl"@ + "ude"@
}

pub(crate) fn parts_key_text() -> (r: String)
    ensures
        r@ == parts_key(),
{
    let mut key = "incl".to_owned();
    key.append("ude");
    key
}

/// The two filter keys are different keys.
proof fn lemma_filter_keys_differ()
    ensures
        "where_filter"@ != "where_document"@,
{
    broadcast use vstd::string::group_string_axioms;
    reveal_strlit("where_filter");
    reveal_strlit("where_document");
    assert("where_filter"@.len() != "where_document"@.len());
}

/// Lists collection names, a page at a time.
#[derive(Debug)]
pub struct ListCollectionsRequest {
    pub limit: Option<usize>,
    pub offset: Option<usize>,
}

impl ListCollectionsRequest {
    /// The payload is an object whose fields all have their shapes, and
    /// every required field is given.
    pub open spec fn fits(payload: Json) -> bool {
        match payload {
            Json::Object(f) => {
                let e = f@;
                &&& field_fits(e, "limit"@, Shape::Count, false)
                &&& field_fits(e, "offset"@, Shape::Count, false)
            },
            _ => false,
        }
    }

    /// Each field of `q` holds what the payload gives for it.
    pub open spec fn decoded_from(q: Self, payload: Json) -> bool {
        match payload {
            Json::Object(f) => {
                let e = f@;
                &&& opt_count_at(e, "limit"@, q.limit)
                &&& opt_count_at(e, "offset"@, q.offset)
            },
            _ => false,
        }
    }

    /// Decodes the payload: it succeeds exactly where the payload fits.
    pub fn from_json(payload: Json) -> (r: Result<ListCollectionsRequest, DecodeError>)
        ensures
            r is Ok <==> Self::fits(payload),
            r matches Ok(q) ==> Self::decoded_from(q, payload),
            !(payload is Object) ==> r matches Err(DecodeError::NotAnObject),
    {
        match payload {
            Json::Object(fields) => {
                let limit = opt_count_field(&fields, "limit")?;
                let offset = opt_count_field(&fields, "offset")?;
                Ok(ListCollectionsRequest { limit, offset })
            },
            _ => Err(DecodeError::NotAnObject),
        }
    }
}

/// Creates a collection, with optional metadata and index tuning.
#[derive(Debug)]
pub struct CreateCollectionRequest {
    pub collection_name: String,
    pub embedding_function_name: Option<String>,
    pub metadata: Option<Json>,
    pub space: Option<String>,
    pub ef_construction: Option<i32>,
    pub ef_search: Option<i32>,
    pub max_neighbors: Option<i32>,
    pub num_threads: Option<i32>,
    pub batch_size: Option<i32>,
    pub sync_threshold: Option<i32>,
    pub resize_factor: Option<Num>,
}

impl CreateCollectionRequest {
    /// The payload is an object whose fields all have their shapes, and
    /// every required field is given.
    pub open spec fn fits(payload: Json) -> bool {
        match payload {
            Json::Object(f) => {
                let e = f@;
                &&& field_fits(e, "collection_name"@, Shape::Text, true)
                &&& field_fits(e, "embedding_function_name"@, Shape::Text, false)
                &&& field_fits(e, "space"@, Shape::Text, false)
                &&& field_fits(e, "ef_construction"@, Shape::Int32, false)
                &&& field_fits(e, "ef_search"@, Shape::Int32, false)
                &&& field_fits(e, "max_neighbors"@, Shape::Int32, false)
                &&& field_fits(e, "num_threads"@, Shape::Int32, false)
                &&& field_fits(e, "batch_size"@, Shape::Int32, false)
                &&& field_fits(e, "sync_threshold"@, Shape::Int32, false)
                &&& field_fits(e, "resize_factor"@, Shape::Number, false)
            },
            _ => false,
        }
    }

    /// Each field of `q` holds what the payload gives for it.
    pub open spec fn decoded_from(q: Self, payload: Json) -> bool {
        match payload {
            Json::Object(f) => {
                let e = f@;
                &&& text_at(e, "collection_name"@, q.collection_name)
                &&& opt_text_at(e, "embedding_function_name"@, q.embedding_function_name)
                &&& q.metadata == given(e, "metadata"@)
                &&& opt_text_at(e, "space"@, q.space)
                &&& opt_int32_at(e, "ef_construction"@, q.ef_construction)
                &&& opt_int32_at(e, "ef_search"@, q.ef_search)
                &&& opt_int32_at(e, "max_neighbors"@, q.max_neighbors)
                &&& opt_int32_at(e, "num_threads"@, q.num_threads)
                &&& opt_int32_at(e, "batch_size"@, q.batch_size)
                &&& opt_int32_at(e, "sync_threshold"@, q.sync_threshold)
                &&& opt_number_at(e, "resize_factor"@, q.resize_factor)
            },
            _ => false,
        }
    }

    /// Decodes the payload: it succeeds exactly where the payload fits.
    pub fn from_json(payload: Json) -> (r: Result<CreateCollectionRequest, DecodeError>)
        ensures
            r is Ok <==> Self::fits(payload),
            r matches Ok(q) ==> Self::decoded_from(q, payload),
            !(payload is Object) ==> r matches Err(DecodeError::NotAnObject),
    {
        match payload {
            Json::Object(mut fields) => {
                let collection_name = text_field(&fields, "collection_name")?;
                let embedding_function_name = opt_text_field(&fields, "embedding_function_name")?;
                let space = opt_text_field(&fields, "space")?;
                let ef_construction = opt_int32_field(&fields, "ef_construction")?;
                let ef_search = opt_int32_field(&fields, "ef_search")?;
                let max_neighbors = opt_int32_field(&fields, "max_neighbors")?;
                let num_threads = opt_int32_field(&fields, "num_threads")?;
                let batch_size = opt_int32_field(&fields, "batch_size")?;
                let sync_threshold = opt_int32_field(&fields, "sync_threshold")?;
                let resize_factor = opt_number_field(&fields, "resize_factor")?;
                let metadata = take_value(&mut fields, "metadata");
                Ok(CreateCollectionRequest { collection_name, embedding_function_name, metadata, space, ef_construction, ef_search, max_neighbors, num_threads, batch_size, sync_threshold, resize_factor })
            },
            _ => Err(DecodeError::NotAnObject),
        }
    }
}

/// Shows the first documents of a collection.
#[derive(Debug)]
pub struct PeekCollectionRequest {
    pub collection_name: String,
    pub limit: usize,
}

impl PeekCollectionRequest {
    /// The payload is an object whose fields all have their shapes, and
    /// every required field is given.
    pub open spec fn fits(payload: Json) -> bool {
        match payload {
            Json::Object(f) => {
                let e = f@;
                &&& field_fits(e, "collection_name"@, Shape::Text, true)
                &&& field_fits(e, "limit"@, Shape::Count, true)
            },
            _ => false,
        }
    }

    /// Each field of `q` holds what the payload gives for it.
    pub open spec fn decoded_from(q: Self, payload: Json) -> bool {
        match payload {
            Json::Object(f) => {
                let e = f@;
                &&& text_at(e, "collection_name"@, q.collection_name)
                &&& count_at(e, "limit"@, q.limit)
            },
            _ => false,
        }
    }

    /// Decodes the payload: it succeeds exactly where the payload fits.
    pub fn from_json(payload: Json) -> (r: Result<PeekCollectionRequest, DecodeError>)
        ensures
            r is Ok <==> Self::fits(payload),
            r matches Ok(q) ==> Self::decoded_from(q, payload),
            !(payload is Object) ==> r matches Err(DecodeError::NotAnObject),
    {
        match payload {
            Json::Object(fields) => {
                let collection_name = text_field(&fields, "collection_name")?;
                let limit = count_field(&fields, "limit")?;
                Ok(PeekCollectionRequest { collection_name, limit })
            },
            _ => Err(DecodeError::NotAnObject),
        }
    }
}

/// Reports a collection's name, size and a sample of it.
#[derive(Debug)]
pub struct GetCollectionInfoRequest {
    pub collection_name: String,
}

impl GetCollectionInfoRequest {
    /// The payload is an object whose fields all have their shapes, and
    /// every required field is given.
    pub open spec fn fits(payload: Json) -> bool {
        match payload {
            Json::Object(f) => {
                let e = f@;
                &&& field_fits(e, "collection_name"@, Shape::Text, true)
            },
            _ => false,
        }
    }

    /// Each field of `q` holds what the payload gives for it.
    pub open spec fn decoded_from(q: Self, payload: Json) -> bool {
        match payload {
            Json::Object(f) => {
                let e = f@;
                &&& text_at(e, "collection_name"@, q.collection_name)
            },
            _ => false,
        }
    }

    /// Decodes the payload: it succeeds exactly where the payload fits.
    pub fn from_json(payload: Json) -> (r: Result<GetCollectionInfoRequest, DecodeError>)
        ensures
            r is Ok <==> Self::fits(payload),
            r matches Ok(q) ==> Self::decoded_from(q, payload),
            !(payload is Object) ==> r matches Err(DecodeError::NotAnObject),
    {
        match payload {
            Json::Object(fields) => {
                let collection_name = text_field(&fields, "collection_name")?;
                Ok(GetCollectionInfoRequest { collection_name })
            },
            _ => Err(DecodeError::NotAnObject),
        }
    }
}

/// Counts the documents of a collection.
#[derive(Debug)]
pub struct GetCollectionCountRequest {
    pub collection_name: String,
}

impl GetCollectionCountRequest {
    /// The payload is an object whose fields all have their shapes, and
    /// every required field is given.
    pub open spec fn fits(payload: Json) -> bool {
        match payload {
            Json::Object(f) => {
                let e = f@;
                &&& field_fits(e, "collection_name"@, Shape::Text, true)
            },
            _ => false,
        }
    }

    /// Each field of `q` holds what the payload gives for it.
    pub open spec fn decoded_from(q: Self, payload: Json) -> bool {
        match payload {
            Json::Object(f) => {
                let e = f@;
                &&& text_at(e, "collection_name"@, q.collection_name)
            },
            _ => false,
        }
    }

    /// Decodes the payload: it succeeds exactly where the payload fits.
    pub fn from_json(payload: Json) -> (r: Result<GetCollectionCountRequest, DecodeError>)
        ensures
            r is Ok <==> Self::fits(payload),
            r matches Ok(q) ==> Self::decoded_from(q, payload),
            !(payload is Object) ==> r matches Err(DecodeError::NotAnObject),
    {
        match payload {
            Json::Object(fields) => {
                let collection_name = text_field(&fields, "collection_name")?;
                Ok(GetCollectionCountRequest { collection_name })
            },
            _ => Err(DecodeError::NotAnObject),
        }
    }
}

/// Changes a collection's name, metadata or index tuning.
#[derive(Debug)]
pub struct ModifyCollectionRequest {
    pub collection_name: String,
    pub new_name: Option<String>,
    pub new_metadata: Option<Json>,
    pub ef_search: Option<i32>,
    pub num_threads: Option<i32>,
    pub batch_size: Option<i32>,
    pub sync_threshold: Option<i32>,
    pub resize_factor: Option<Num>,
}

impl ModifyCollectionRequest {
    /// The payload is an object whose fields all have their shapes, and
    /// every required field is given.
    pub open spec fn fits(payload: Json) -> bool {
        match payload {
            Json::Object(f) => {
                let e = f@;
                &&& field_fits(e, "collection_name"@, Shape::Text, true)
                &&& field_fits(e, "new_name"@, Shape::Text, false)
                &&& field_fits(e, "ef_search"@, Shape::Int32, false)
                &&& field_fits(e, "num_threads"@, Shape::Int32, false)
                &&& field_fits(e, "batch_size"@, Shape::Int32, false)
                &&& field_fits(e, "sync_threshold"@, Shape::Int32, false)
                &&& field_fits(e, "resize_factor"@, Shape::Number, false)
            },
            _ => false,
        }
    }

    /// Each field of `q` holds what the payload gives for it.
    pub open spec fn decoded_from(q: Self, payload: Json) -> bool {
        match payload {
            Json::Object(f) => {
                let e = f@;
                &&& text_at(e, "collection_name"@, q.collection_name)
                &&& opt_text_at(e, "new_name"@, q.new_name)
                &&& q.new_metadata == given(e, "new_metadata"@)
                &&& opt_int32_at(e, "ef_search"@, q.ef_search)
                &&& opt_int32_at(e, "num_threads"@, q.num_threads)
                &&& opt_int32_at(e, "batch_size"@, q.batch_size)
                &&& opt_int32_at(e, "sync_threshold"@, q.sync_threshold)
                &&& opt_number_at(e, "resize_factor"@, q.resize_factor)
            },
            _ => false,
        }
    }

    /// Decodes the payload: it succeeds exactly where the payload fits.
    pub fn from_json(payload: Json) -> (r: Result<ModifyCollectionRequest, DecodeError>)
        ensures
            r is Ok <==> Self::fits(payload),
            r matches Ok(q) ==> Self::decoded_from(q, payload),
            !(payload is Object) ==> r matches Err(DecodeError::NotAnObject),
    {
        match payload {
            Json::Object(mut fields) => {
                let collection_name = text_field(&fields, "collection_name")?;
                let new_name = opt_text_field(&fields, "new_name")?;
                let ef_search = opt_int32_field(&fields, "ef_search")?;
                let num_threads = opt_int32_field(&fields, "num_threads")?;
                let batch_size = opt_int32_field(&fields, "batch_size")?;
                let sync_threshold = opt_int32_field(&fields, "sync_threshold")?;
                let resize_factor = opt_number_field(&fields, "resize_factor")?;
                let new_metadata = take_value(&mut fields, "new_metadata");
                Ok(ModifyCollectionRequest { collection_name, new_name, new_metadata, ef_search, num_threads, batch_size, sync_threshold, resize_factor })
            },
            _ => Err(DecodeError::NotAnObject),
        }
    }
}

/// Deletes a collection.
#[derive(Debug)]
pub struct DeleteCollectionRequest {
    pub collection_name: String,
}

impl DeleteCollectionRequest {
    /// The payload is an object whose fields all have their shapes, and
    /// every required field is given.
    pub open spec fn fits(payload: Json) -> bool {
        match payload {
            Json::Object(f) => {
                let e = f@;
                &&& field_fits(e, "collection_name"@, Shape::Text, true)
            },
            _ => false,
        }
    }

    /// Each field of `q` holds what the payload gives for it.
    pub open spec fn decoded_from(q: Self, payload: Json) -> bool {
        match payload {
            Json::Object(f) => {
                let e = f@;
                &&& text_at(e, "collection_name"@, q.collection_name)
            },
            _ => false,
        }
    }

    /// Decodes the payload: it succeeds exactly where the payload fits.
    pub fn from_json(payload: Json) -> (r: Result<DeleteCollectionRequest, DecodeError>)
        ensures
            r is Ok <==> Self::fits(payload),
            r matches Ok(q) ==> Self::decoded_from(q, payload),
            !(payload is Object) ==> r matches Err(DecodeError::NotAnObject),
    {
        match payload {
            Json::Object(fields) => {
                let collection_name = text_field(&fields, "collection_name")?;
                Ok(DeleteCollectionRequest { collection_name })
            },
            _ => Err(DecodeError::NotAnObject),
        }
    }
}

/// Adds documents to a collection.
#[derive(Debug)]
pub struct AddDocumentsRequest {
    pub collection_name: String,
    pub documents: Vec<String>,
    pub metadatas: Option<Vec<Json>>,
    pub ids: Option<Vec<String>>,
}

impl AddDocumentsRequest {
    /// The payload is an object whose fields all have their shapes, and
    /// every required field is given.
    pub open spec fn fits(payload: Json) -> bool {
        match payload {
            Json::Object(f) => {
                let e = f@;
                &&& field_fits(e, "collection_name"@, Shape::Text, true)
                &&& field_fits(e, "documents"@, Shape::TextList, true)
                &&& field_fits(e, "metadatas"@, Shape::ValueList, false)
                &&& field_fits(e, "ids"@, Shape::TextList, false)
            },
            _ => false,
        }
    }

    /// Each field of `q` holds what the payload gives for it.
    pub open spec fn decoded_from(q: Self, payload: Json) -> bool {
        match payload {
            Json::Object(f) => {
                let e = f@;
                &&& text_at(e, "collection_name"@, q.collection_name)
                &&& texts_at(e, "documents"@, q.documents@)
                &&& opt_values_at(e, "metadatas"@, q.metadatas)
                &&& opt_texts_at(e, "ids"@, q.ids)
            },
            _ => false,
        }
    }

    /// Decodes the payload: it succeeds exactly where the payload fits.
    pub fn from_json(payload: Json) -> (r: Result<AddDocumentsRequest, DecodeError>)
        ensures
            r is Ok <==> Self::fits(payload),
            r matches Ok(q) ==> Self::decoded_from(q, payload),
            !(payload is Object) ==> r matches Err(DecodeError::NotAnObject),
    {
        match payload {
            Json::Object(mut fields) => {
                let collection_name = text_field(&fields, "collection_name")?;
                let documents = texts_field(&fields, "documents")?;
                let ids = opt_texts_field(&fields, "ids")?;
                let metadatas = take_values(&mut fields, "metadatas")?;
                Ok(AddDocumentsRequest { collection_name, documents, metadatas, ids })
            },
            _ => Err(DecodeError::NotAnObject),
        }
    }
}

/// Searches a collection for documents like the query texts.
#[derive(Debug)]
pub struct QueryDocumentsRequest {
    pub collection_name: String,
    pub query_texts: Vec<String>,
    pub n_results: Option<usize>,
    pub where_filter: Option<Json>,
    pub where_document: Option<Json>,
    pub result_parts: Option<Vec<String>>,
}

impl QueryDocumentsRequest {
    /// The payload is an object whose fields all have their shapes, and
    /// every required field is given.
    pub open spec fn fits(payload: Json) -> bool {
        match payload {
            Json::Object(f) => {
                let e = f@;
                &&& field_fits(e, "collection_name"@, Shape::Text, true)
                &&& field_fits(e, "query_texts"@, Shape::TextList, true)
                &&& field_fits(e, "n_results"@, Shape::Count, false)
                &&& field_fits(e, parts_key(), Shape::TextList, false)
            },
            _ => false,
        }
    }

    /// Each field of `q` holds what the payload gives for it.
    pub open spec fn decoded_from(q: Self, payload: Json) -> bool {
        match payload {
            Json::Object(f) => {
                let e = f@;
                &&& text_at(e, "collection_name"@, q.collection_name)
                &&& texts_at(e, "query_texts"@, q.query_texts@)
                &&& opt_count_at(e, "n_results"@, q.n_results)
                &&& q.where_filter == given(e, "where_filter"@)
                &&& q.where_document == given(e, "where_document"@)
                &&& opt_texts_at(e, parts_key(), q.result_parts)
            },
            _ => false,
        }
    }

    /// Decodes the payload: it succeeds exactly where the payload fits.
    pub fn from_json(payload: Json) -> (r: Result<QueryDocumentsRequest, DecodeError>)
        ensures
            r is Ok <==> Self::fits(payload),
            r matches Ok(q) ==> Self::decoded_from(q, payload),
            !(payload is Object) ==> r matches Err(DecodeError::NotAnObject),
    {
        match payload {
            Json::Object(mut fields) => {
                let collection_name = text_field(&fields, "collection_name")?;
                let query_texts = texts_field(&fields, "query_texts")?;
                let n_results = opt_count_field(&fields, "n_results")?;
                let parts = parts_key_text();
                let result_parts = opt_texts_field(&fields, parts.as_str())?;
                let where_filter = take_value(&mut fields, "where_filter");
                proof {
                    lemma_filter_keys_differ();
                }
                let where_document = take_value(&mut fields, "where_document");
                Ok(QueryDocumentsRequest { collection_name, query_texts, n_results, where_filter, where_document, result_parts })
            },
            _ => Err(DecodeError::NotAnObject),
        }
    }
}

/// Reads documents of a collection by id or filter.
#[derive(Debug)]
pub struct GetDocumentsRequest {
    pub collection_name: String,
    pub ids: Option<Vec<String>>,
    pub where_filter: Option<Json>,
    pub where_document: Option<Json>,
    pub result_parts: Option<Vec<String>>,
    pub limit: Option<usize>,
    pub offset: Option<usize>,
}

impl GetDocumentsRequest {
    /// The payload is an object whose fields all have their shapes, and
    /// every required field is given.
    pub open spec fn fits(payload: Json) -> bool {
        match payload {
            Json::Object(f) => {
                let e = f@;
                &&& field_fits(e, "collection_name"@, Shape::Text, true)
                &&& field_fits(e, "ids"@, Shape::TextList, false)
                &&& field_fits(e, parts_key(), Shape::TextList, false)
                &&& field_fits(e, "limit"@, Shape::Count, false)
                &&& field_fits(e, "offset"@, Shape::Count, false)
            },
            _ => false,
        }
    }

    /// Each field of `q` holds what the payload gives for it.
    pub open spec fn decoded_from(q: Self, payload: Json) -> bool {
        match payload {
            Json::Object(f) => {
                let e = f@;
                &&& text_at(e, "collection_name"@, q.collection_name)
                &&& opt_texts_at(e, "ids"@, q.ids)
                &&& q.where_filter == given(e, "where_filter"@)
                &&& q.where_document == given(e, "where_document"@)
                &&& opt_texts_at(e, parts_key(), q.result_parts)
                &&& opt_count_at(e, "limit"@, q.limit)
                &&& opt_count_at(e, "offset"@, q.offset)
            },
            _ => false,
        }
    }

    /// Decodes the payload: it succeeds exactly where the payload fits.
    pub fn from_json(payload: Json) -> (r: Result<GetDocumentsRequest, DecodeError>)
        ensures
            r is Ok <==> Self::fits(payload),
            r matches Ok(q) ==> Self::decoded_from(q, payload),
            !(payload is Object) ==> r matches Err(DecodeError::NotAnObject),
    {
        match payload {
            Json::Object(mut fields) => {
                let collection_name = text_field(&fields, "collection_name")?;
                let ids = opt_texts_field(&fields, "ids")?;
                let parts = parts_key_text();
                let result_parts = opt_texts_field(&fields, parts.as_str())?;
                let limit = opt_count_field(&fields, "limit")?;
                let offset = opt_count_field(&fields, "offset")?;
                let where_filter = take_value(&mut fields, "where_filter");
                proof {
                    lemma_filter_keys_differ();
                }
                let where_document = take_value(&mut fields, "where_document");
                Ok(GetDocumentsRequest { collection_name, ids, where_filter, where_document, result_parts, limit, offset })
            },
            _ => Err(DecodeError::NotAnObject),
        }
    }
}

/// Replaces embeddings, metadata or contents of documents.
#[derive(Debug)]
pub struct UpdateDocumentsRequest {
    pub collection_name: String,
    pub ids: Vec<String>,
    pub embeddings: Option<Vec<Vec<Num>>>,
    pub metadatas: Option<Vec<Json>>,
    pub documents: Option<Vec<String>>,
}

impl UpdateDocumentsRequest {
    /// The payload is an object whose fields all have their shapes, and
    /// every required field is given.
    pub open spec fn fits(payload: Json) -> bool {
        match payload {
            Json::Object(f) => {
                let e = f@;
                &&& field_fits(e, "collection_name"@, Shape::Text, true)
                &&& field_fits(e, "ids"@, Shape::TextList, true)
                &&& field_fits(e, "embeddings"@, Shape::NumberGrid, false)
                &&& field_fits(e, "metadatas"@, Shape::ValueList, false)
                &&& field_fits(e, "documents"@, Shape::TextList, false)
            },
            _ => false,
        }
    }

    /// Each field of `q` holds what the payload gives for it.
    pub open spec fn decoded_from(q: Self, payload: Json) -> bool {
        match payload {
            Json::Object(f) => {
                let e = f@;
                &&& text_at(e, "collection_name"@, q.collection_name)
                &&& texts_at(e, "ids"@, q.ids@)
                &&& opt_grid_at(e, "embeddings"@, q.embeddings)
                &&& opt_values_at(e, "metadatas"@, q.metadatas)
                &&& opt_texts_at(e, "documents"@, q.documents)
            },
            _ => false,
        }
    }

    /// Decodes the payload: it succeeds exactly where the payload fits.
    pub fn from_json(payload: Json) -> (r: Result<UpdateDocumentsRequest, DecodeError>)
        ensures
            r is Ok <==> Self::fits(payload),
            r matches Ok(q) ==> Self::decoded_from(q, payload),
            !(payload is Object) ==> r matches Err(DecodeError::NotAnObject),
    {
        match payload {
            Json::Object(mut fields) => {
                let collection_name = text_field(&fields, "collection_name")?;
                let ids = texts_field(&fields, "ids")?;
                let embeddings = opt_grid_field(&fields, "embeddings")?;
                let documents = opt_texts_field(&fields, "documents")?;
                let metadatas = take_values(&mut fields, "metadatas")?;
                Ok(UpdateDocumentsRequest { collection_name, ids, embeddings, metadatas, documents })
            },
            _ => Err(DecodeError::NotAnObject),
        }
    }
}

/// Deletes documents of a collection by id.
#[derive(Debug)]
pub struct DeleteDocumentsRequest {
    pub collection_name: String,
    pub ids: Vec<String>,
}

impl DeleteDocumentsRequest {
    /// The payload is an object whose fields all have their shapes, and
    /// every required field is given.
    pub open spec fn fits(payload: Json) -> bool {
        match payload {
            Json::Object(f) => {
                let e = f@;
                &&& field_fits(e, "collection_name"@, Shape::Text, true)
                &&& field_fits(e, "ids"@, Shape::TextList, true)
            },
            _ => false,
        }
    }

    /// Each field of `q` holds what the payload gives for it.
    pub open spec fn decoded_from(q: Self, payload: Json) -> bool {
        match payload {
            Json::Object(f) => {
                let e = f@;
                &&& text_at(e, "collection_name"@, q.collection_name)
                &&& texts_at(e, "ids"@, q.ids@)
            },
            _ => false,
        }
    }

    /// Decodes the payload: it succeeds exactly where the payload fits.
    pub fn from_json(payload: Json) -> (r: Result<DeleteDocumentsRequest, DecodeError>)
        ensures
            r is Ok <==> Self::fits(payload),
            r matches Ok(q) ==> Self::decoded_from(q, payload),
            !(payload is Object) ==> r matches Err(DecodeError::NotAnObject),
    {
        match payload {
            Json::Object(fields) => {
                let collection_name = text_field(&fields, "collection_name")?;
                let ids = texts_field(&fields, "ids")?;
                Ok(DeleteDocumentsRequest { collection_name, ids })
            },
            _ => Err(DecodeError::NotAnObject),
        }
    }
}

/// One step of a reasoning record.
#[derive(Debug)]
pub struct ThoughtData {
    pub session_id: String,
    pub thought: String,
    pub thought_number: usize,
    pub total_thoughts: usize,
    pub next_thought_needed: bool,
    pub is_revision: Option<bool>,
    pub revises_thought: Option<usize>,
    pub branch_from_thought: Option<usize>,
    pub branch_id: Option<String>,
    pub needs_more_thoughts: Option<bool>,
}

impl ThoughtData {
    /// The payload is an object whose fields all have their shapes, and
    /// every required field is given.
    pub open spec fn fits(payload: Json) -> bool {
        match payload {
            Json::Object(f) => {
                let e = f@;
                &&& field_fits(e, "session_id"@, Shape::Text, true)
                &&& field_fits(e, "thought"@, Shape::Text, true)
                &&& field_fits(e, "thought_number"@, Shape::Count, true)
                &&& field_fits(e, "total_thoughts"@, Shape::Count, true)
                &&& field_fits(e, "next_thought_needed"@, Shape::Flag, true)
                &&& field_fits(e, "is_revision"@, Shape::Flag, false)
                &&& field_fits(e, "revises_thought"@, Shape::Count, false)
                &&& field_fits(e, "branch_from_thought"@, Shape::Count, false)
                &&& field_fits(e, "branch_id"@, Shape::Text, false)
                &&& field_fits(e, "needs_more_thoughts"@, Shape::Flag, false)
            },
            _ => false,
        }
    }

    /// Each field of `q` holds what the payload gives for it.
    pub open spec fn decoded_from(q: Self, payload: Json) -> bool {
        match payload {
            Json::Object(f) => {
                let e = f@;
                &&& text_at(e, "session_id"@, q.session_id)
                &&& text_at(e, "thought"@, q.thought)
                &&& count_at(e, "thought_number"@, q.thought_number)
                &&& count_at(e, "total_thoughts"@, q.total_thoughts)
                &&& flag_at(e, "next_thought_needed"@, q.next_thought_needed)
                &&& opt_flag_at(e, "is_revision"@, q.is_revision)
                &&& opt_count_at(e, "revises_thought"@, q.revises_thought)
                &&& opt_count_at(e, "branch_from_thought"@, q.branch_from_thought)
                &&& opt_text_at(e, "branch_id"@, q.branch_id)
                &&& opt_flag_at(e, "needs_more_thoughts"@, q.needs_more_thoughts)
            },
            _ => false,
        }
    }

    /// Decodes the payload: it succeeds exactly where the payload fits.
    pub fn from_json(payload: Json) -> (r: Result<ThoughtData, DecodeError>)
        ensures
            r is Ok <==> Self::fits(payload),
            r matches Ok(q) ==> Self::decoded_from(q, payload),
            !(payload is Object) ==> r matches Err(DecodeError::NotAnObject),
    {
        match payload {
            Json::Object(fields) => {
                let session_id = text_field(&fields, "session_id")?;
                let thought = text_field(&fields, "thought")?;
                let thought_number = count_field(&fields, "thought_number")?;
                let total_thoughts = count_field(&fields, "total_thoughts")?;
                let next_thought_needed = flag_field(&fields, "next_thought_needed")?;
                let is_revision = opt_flag_field(&fields, "is_revision")?;
                let revises_thought = opt_count_field(&fields, "revises_thought")?;
                let branch_from_thought = opt_count_field(&fields, "branch_from_thought")?;
                let branch_id = opt_text_field(&fields, "branch_id")?;
                let needs_more_thoughts = opt_flag_field(&fields, "needs_more_thoughts")?;
                Ok(ThoughtData { session_id, thought, thought_number, total_thoughts, next_thought_needed, is_revision, revises_thought, branch_from_thought, branch_id, needs_more_thoughts })
            },
            _ => Err(DecodeError::NotAnObject),
        }
    }
}

} // verus!
