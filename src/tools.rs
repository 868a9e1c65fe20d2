//! The operation handlers: each checks its request's rules, then calls the
//! backend, then words or shapes the result. A request that breaks a rule
//! reaches no backend call.

use vstd::prelude::*;
use crate::client::{
    ChromaClient, Collection, BackendError, is_sample_page, is_sample_answer, is_sample_list, sample_count,
};
use crate::error::DispatchError;
use crate::json::{Json, Num};
use crate::requests::{
    ListCollectionsRequest, CreateCollectionRequest, PeekCollectionRequest, GetCollectionInfoRequest,
    GetCollectionCountRequest, ModifyCollectionRequest, DeleteCollectionRequest, AddDocumentsRequest,
    QueryDocumentsRequest, GetDocumentsRequest, UpdateDocumentsRequest, DeleteDocumentsRequest,
};
use crate::text::{decimal, decimal_text};

verus! {

fn backend(e: BackendError) -> (r: DispatchError)
    ensures
        r matches DispatchError::BackendError(m) && m == e.message,
{
    DispatchError::BackendError(e.message)
}

fn open_collection(client: &ChromaClient, name: &String) -> (r: Result<Collection, DispatchError>)
    ensures
        r matches Ok(c) && c.name@ == name@,
{
    match client.get_collection(name.as_str()) {
        Ok(c) => Ok(c),
        Err(e) => Err(backend(e)),
    }
}

pub fn chroma_list_collections(client: &ChromaClient, request: ListCollectionsRequest) -> (r: Result<
    Vec<String>,
    DispatchError,
>)
    ensures
        r matches Ok(names) && is_sample_list(names@),
{
    match client.list_collections(request.limit, request.offset) {
        Ok(names) => Ok(names),
        Err(e) => Err(backend(e)),
    }
}

pub fn chroma_create_collection(client: &ChromaClient, request: CreateCollectionRequest) -> (r: Result<
    String,
    DispatchError,
>)
    ensures
        r matches Ok(s) && s@ == "Created collection: "@ + request.collection_name@,
{
    match client.create_collection(request.collection_name.as_str(), request.metadata) {
        Ok(s) => Ok(s),
        Err(e) => Err(backend(e)),
    }
}

pub fn chroma_peek_collection(client: &ChromaClient, request: PeekCollectionRequest) -> (r: Result<
    Json,
    DispatchError,
>)
    ensures
        r matches Ok(j) && is_sample_page(j),
{
    let collection = open_collection(client, &request.collection_name)?;
    match collection.peek(request.limit) {
        Ok(j) => Ok(j),
        Err(e) => Err(backend(e)),
    }
}

/// A collection's summary: its name, its size and a sample of its documents.
pub open spec fn is_info(j: Json, name: Seq<char>, count: usize) -> bool {
    j matches Json::Object(f) && f@.len() == 3
        && f@[0].0@ == "name"@ && (f@[0].1 matches Json::Str(s) && s@ == name)
        && f@[1].0@ == "count"@ && f@[1].1 == Json::Number(Num::PosInt(count as u64))
        && f@[2].0@ == "sample_documents"@ && is_sample_page(f@[2].1)
}

pub fn chroma_get_collection_info(client: &ChromaClient, request: GetCollectionInfoRequest) -> (r: Result<
    Json,
    DispatchError,
>)
    ensures
        r matches Ok(j) && is_info(j, request.collection_name@, sample_count()),
{
    let collection = open_collection(client, &request.collection_name)?;
    let count = match collection.count() {
        Ok(n) => n,
        Err(e) => return Err(backend(e)),
    };
    let sample = match collection.peek(3) {
        Ok(j) => j,
        Err(e) => return Err(backend(e)),
    };
    let mut fields: Vec<(String, Json)> = Vec::new();
    fields.push(("name".to_owned(), Json::Str(request.collection_name)));
    fields.push(("count".to_owned(), Json::Number(Num::PosInt(count as u64))));
    fields.push(("sample_documents".to_owned(), sample));
    Ok(Json::Object(fields))
}

pub fn chroma_get_collection_count(client: &ChromaClient, request: GetCollectionCountRequest) -> (r: Result<
    usize,
    DispatchError,
>)
    ensures
        r matches Ok(n) && n == sample_count(),
{
    let collection = open_collection(client, &request.collection_name)?;
    match collection.count() {
        Ok(n) => Ok(n),
        Err(e) => Err(backend(e)),
    }
}

/// Aspects joined by " and ", in order.
pub open spec fn joined(parts: Seq<Seq<char>>) -> Seq<char>
    decreases parts.len(),
{
    if parts.len() == 0 {
        Seq::empty()
    } else if parts.len() == 1 {
        parts[0]
    } else {
        joined(parts.drop_last()) + " and "@ + parts.last()
    }
}

/// Which aspects of a collection a modification changes, in order.
pub open spec fn modified_aspects(q: ModifyCollectionRequest) -> Seq<Seq<char>> {
    let a = if q.new_name is Some { seq!["name"@] } else { Seq::empty() };
    let b = if q.new_metadata is Some { a.push("metadata"@) } else { a };
    if q.ef_search is Some || q.num_threads is Some || q.batch_size is Some || q.sync_threshold is Some
        || q.resize_factor is Some {
        b.push("hnsw"@)
    } else {
        b
    }
}

fn add_aspect(text: &mut String, parts: Ghost<Seq<Seq<char>>>, first: bool, part: &str)
    requires
        old(text)@ == joined(parts@),
        first == (parts@.len() == 0),
    ensures
        final(text)@ == joined(parts@.push(part@)),
{
    proof {
        assert(parts@.push(part@).drop_last() =~= parts@);
    }
    if !first {
        text.append(" and ");
    }
    text.append(part);
}

pub fn chroma_modify_collection(client: &ChromaClient, request: ModifyCollectionRequest) -> (r: Result<
    String,
    DispatchError,
>)
    ensures
        r matches Ok(s) && s@ == "Successfully modified collection "@ + request.collection_name@
            + ": updated "@ + joined(modified_aspects(request)),
{
    let collection = open_collection(client, &request.collection_name)?;
    let tuning = request.ef_search.is_some() || request.num_threads.is_some() || request.batch_size.is_some()
        || request.sync_threshold.is_some() || request.resize_factor.is_some();
    let has_name = request.new_name.is_some();
    let has_metadata = request.new_metadata.is_some();
    let ghost aspects = modified_aspects(request);
    match collection.modify(request.new_name, request.new_metadata) {
        Ok(()) => {},
        Err(e) => return Err(backend(e)),
    }
    let mut summary = String::new();
    let ghost mut parts: Seq<Seq<char>> = Seq::empty();
    if has_name {
        add_aspect(&mut summary, Ghost(parts), true, "name");
        proof {
            parts = parts.push("name"@);
        }
    }
    if has_metadata {
        add_aspect(&mut summary, Ghost(parts), !has_name, "metadata");
        proof {
            parts = parts.push("metadata"@);
        }
    }
    if tuning {
        add_aspect(&mut summary, Ghost(parts), !has_name && !has_metadata, "hnsw");
        proof {
            parts = parts.push("hnsw"@);
        }
    }
    proof {
        assert(parts =~= aspects);
    }
    let mut message = "Successfully modified collection ".to_owned();
    message.append(request.collection_name.as_str());
    message.append(": updated ");
    message.append(summary.as_str());
    Ok(message)
}

pub fn chroma_delete_collection(client: &ChromaClient, request: DeleteCollectionRequest) -> (r: Result<
    String,
    DispatchError,
>)
    ensures
        r matches Ok(s) && s@ == "Successfully deleted collection "@ + request.collection_name@,
{
    match client.delete_collection(request.collection_name.as_str()) {
        Ok(()) => {},
        Err(e) => return Err(backend(e)),
    }
    let mut message = "Successfully deleted collection ".to_owned();
    message.append(request.collection_name.as_str());
    Ok(message)
}

/// The ids for `n` documents: the given ones, or else the positions
/// `"0"`, `"1"`, ... in document order.
pub fn document_ids(ids: Option<Vec<String>>, n: usize) -> (r: Vec<String>)
    ensures
        match ids {
            Some(given) => r@ == given@,
            None => r@.len() == n && forall|i: int| 0 <= i < n ==> (#[trigger] r@[i])@ == decimal(i as nat),
        },
{
    match ids {
        Some(given) => given,
        None => {
            let mut out: Vec<String> = Vec::new();
            let mut i: usize = 0;
            while i < n
                invariant
                    i <= n,
                    out@.len() == i,
                    forall|k: int| 0 <= k < i ==> (#[trigger] out@[k])@ == decimal(k as nat),
                decreases n - i,
            {
                out.push(decimal_text(i));
                i = i + 1;
            }
            out
        },
    }
}

pub fn chroma_add_documents(client: &ChromaClient, request: AddDocumentsRequest) -> (r: Result<
    String,
    DispatchError,
>)
    ensures
        request.documents@.len() == 0 ==> (r matches Err(DispatchError::ValidationError(m))
            && m@ == "The 'documents' list cannot be empty."@),
        request.documents@.len() > 0 ==> (r matches Ok(s) && s@ == "Successfully added "@ + decimal(
            request.documents@.len(),
        ) + " documents to collection "@ + request.collection_name@),
{
    if request.documents.len() == 0 {
        return Err(DispatchError::ValidationError("The 'documents' list cannot be empty.".to_owned()));
    }
    let collection = open_collection(client, &request.collection_name)?;
    let documents_len = request.documents.len();
    let ids = document_ids(request.ids, documents_len);
    match collection.add(request.documents, request.metadatas, ids) {
        Ok(()) => {},
        Err(e) => return Err(backend(e)),
    }
    let mut message = "Successfully added ".to_owned();
    message.append(decimal_text(documents_len).as_str());
    message.append(" documents to collection ");
    message.append(request.collection_name.as_str());
    Ok(message)
}

/// The number of results per query: 5 unless the request says.
pub fn query_result_count(n_results: Option<usize>) -> (r: usize)
    ensures
        r == match n_results {
            Some(n) => n,
            None => 5,
        },
{
    match n_results {
        Some(n) => n,
        None => 5,
    }
}

/// The parts of each result to return: those the request names, else the
/// defaults it is given.
pub fn result_parts_or(given: Option<Vec<String>>, with_distances: bool) -> (r: Vec<String>)
    ensures
        match given {
            Some(v) => r@ == v@,
            None => if with_distances {
                r@.len() == 3 && r@[0]@ == "documents"@ && r@[1]@ == "metadatas"@ && r@[2]@ == "distances"@
            } else {
                r@.len() == 2 && r@[0]@ == "documents"@ && r@[1]@ == "metadatas"@
            },
        },
{
    match given {
        Some(v) => v,
        None => {
            let mut parts: Vec<String> = Vec::new();
            parts.push("documents".to_owned());
            parts.push("metadatas".to_owned());
            if with_distances {
                parts.push("distances".to_owned());
            }
            parts
        },
    }
}

pub fn chroma_query_documents(client: &ChromaClient, request: QueryDocumentsRequest) -> (r: Result<
    Json,
    DispatchError,
>)
    ensures
        request.query_texts@.len() == 0 ==> (r matches Err(DispatchError::ValidationError(m))
            && m@ == "The 'query_texts' list cannot be empty."@),
        request.query_texts@.len() > 0 ==> (r matches Ok(j) && is_sample_answer(j)),
{
    if request.query_texts.len() == 0 {
        return Err(DispatchError::ValidationError("The 'query_texts' list cannot be empty.".to_owned()));
    }
    let collection = open_collection(client, &request.collection_name)?;
    let n_results = query_result_count(request.n_results);
    let parts = result_parts_or(request.result_parts, true);
    match collection.query(request.query_texts, n_results, request.where_filter, request.where_document, parts) {
        Ok(j) => Ok(j),
        Err(e) => Err(backend(e)),
    }
}

pub fn chroma_get_documents(client: &ChromaClient, request: GetDocumentsRequest) -> (r: Result<
    Json,
    DispatchError,
>)
    ensures
        r matches Ok(j) && is_sample_page(j),
{
    let collection = open_collection(client, &request.collection_name)?;
    let parts = result_parts_or(request.result_parts, false);
    match collection.get(
        request.ids,
        request.where_filter,
        request.where_document,
        parts,
        request.limit,
        request.offset,
    ) {
        Ok(j) => Ok(j),
        Err(e) => Err(backend(e)),
    }
}

/// What is wrong with an update, checked in this order, if anything is.
pub open spec fn update_problem(q: UpdateDocumentsRequest) -> Option<Seq<char>> {
    let n = q.ids@.len();
    if n == 0 {
        Some("The 'ids' list cannot be empty."@)
    } else if q.embeddings is None && q.metadatas is None && q.documents is None {
        Some("At least one of 'embeddings', 'metadatas', or 'documents' must be provided for update."@)
    } else if q.embeddings matches Some(e) && e@.len() != n {
        Some("Length of 'embeddings' list must match length of 'ids' list."@)
    } else if q.metadatas matches Some(m) && m@.len() != n {
        Some("Length of 'metadatas' list must match length of 'ids' list."@)
    } else if q.documents matches Some(d) && d@.len() != n {
        Some("Length of 'documents' list must match length of 'ids' list."@)
    } else {
        None
    }
}

fn check_update(request: &UpdateDocumentsRequest) -> (r: Result<(), DispatchError>)
    ensures
        match update_problem(*request) {
            Some(m) => r matches Err(DispatchError::ValidationError(t)) && t@ == m,
            None => r is Ok,
        },
{
    let n = request.ids.len();
    if n == 0 {
        return Err(DispatchError::ValidationError("The 'ids' list cannot be empty.".to_owned()));
    }
    if request.embeddings.is_none() && request.metadatas.is_none() && request.documents.is_none() {
        return Err(
            DispatchError::ValidationError(
                "At least one of 'embeddings', 'metadatas', or 'documents' must be provided for update.".to_owned(),
            ),
        );
    }
    if let Some(e) = &request.embeddings {
        if e.len() != n {
            return Err(
                DispatchError::ValidationError(
                    "Length of 'embeddings' list must match length of 'ids' list.".to_owned(),
                ),
            );
        }
    }
    if let Some(m) = &request.metadatas {
        if m.len() != n {
            return Err(
                DispatchError::ValidationError(
                    "Length of 'metadatas' list must match length of 'ids' list.".to_owned(),
                ),
            );
        }
    }
    if let Some(d) = &request.documents {
        if d.len() != n {
            return Err(
                DispatchError::ValidationError(
                    "Length of 'documents' list must match length of 'ids' list.".to_owned(),
                ),
            );
        }
    }
    Ok(())
}

pub fn chroma_update_documents(client: &ChromaClient, request: UpdateDocumentsRequest) -> (r: Result<
    String,
    DispatchError,
>)
    ensures
        match update_problem(request) {
            Some(m) => r matches Err(DispatchError::ValidationError(t)) && t@ == m,
            None => r matches Ok(s) && s@ == "Successfully updated "@ + decimal(request.ids@.len())
                + " documents in collection '"@ + request.collection_name@ + "'"@,
        },
{
    check_update(&request)?;
    let collection = open_collection(client, &request.collection_name)?;
    let n = request.ids.len();
    match collection.update(request.ids, request.embeddings, request.metadatas, request.documents) {
        Ok(()) => {},
        Err(e) => return Err(backend(e)),
    }
    let mut message = "Successfully updated ".to_owned();
    message.append(decimal_text(n).as_str());
    message.append(" documents in collection '");
    message.append(request.collection_name.as_str());
    message.append("'");
    Ok(message)
}

pub fn chroma_delete_documents(client: &ChromaClient, request: DeleteDocumentsRequest) -> (r: Result<
    String,
    DispatchError,
>)
    ensures
        request.ids@.len() == 0 ==> (r matches Err(DispatchError::ValidationError(m))
            && m@ == "The 'ids' list cannot be empty."@),
        request.ids@.len() > 0 ==> (r matches Ok(s) && s@ == "Successfully deleted "@ + decimal(
            request.ids@.len(),
        ) + " documents from collection '"@ + request.collection_name@ + "'"@),
{
    if request.ids.len() == 0 {
        return Err(DispatchError::ValidationError("The 'ids' list cannot be empty.".to_owned()));
    }
    let collection = open_collection(client, &request.collection_name)?;
    let n = request.ids.len();
    match collection.delete(request.ids) {
        Ok(()) => {},
        Err(e) => return Err(backend(e)),
    }
    let mut message = "Successfully deleted ".to_owned();
    message.append(decimal_text(n).as_str());
    message.append(" documents from collection '");
    message.append(request.collection_name.as_str());
    message.append("'");
    Ok(message)
}

} // verus!
