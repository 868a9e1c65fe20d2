//! Routing a call by operation name: decode the payload into the
//! operation's request, run its handler, and shape the outcome.

use vstd::prelude::*;
use crate::client::{ChromaClient, is_text, is_sample_page, is_sample_answer, sample_count};
use crate::decode::DecodeError;
use crate::error::DispatchError;
use crate::json::{Json, Num, given};
use crate::requests::{
    ListCollectionsRequest, CreateCollectionRequest, PeekCollectionRequest, GetCollectionInfoRequest,
    GetCollectionCountRequest, ModifyCollectionRequest, DeleteCollectionRequest, AddDocumentsRequest,
    QueryDocumentsRequest, GetDocumentsRequest, UpdateDocumentsRequest, DeleteDocumentsRequest, ThoughtData,
};
use crate::text::decimal;
use crate::thought::{ThoughtResponse, process_thought, step_problem};
use crate::tools::{
    chroma_list_collections, chroma_create_collection, chroma_peek_collection, chroma_get_collection_info,
    chroma_get_collection_count, chroma_modify_collection, chroma_delete_collection, chroma_add_documents,
    chroma_query_documents, chroma_get_documents, chroma_update_documents, chroma_delete_documents, is_info,
    joined,
};

verus! {

/// The operations that can be called.
#[derive(Clone, Copy, Debug, PartialEq, Eq, Structural)]
pub enum Operation {
    ListCollections,
    CreateCollection,
    PeekCollection,
    GetCollectionInfo,
    GetCollectionCount,
    ModifyCollection,
    DeleteCollection,
    AddDocuments,
    QueryDocuments,
    GetDocuments,
    UpdateDocuments,
    DeleteDocuments,
    ProcessThought,
}

/// The name an operation is called by.
pub open spec fn operation_name(op: Operation) -> Seq<char> {
    match op {
        Operation::ListCollections => "list_collections"@,
        Operation::CreateCollection => "create_collection"@,
        Operation::PeekCollection => "peek_collection"@,
        Operation::GetCollectionInfo => "get_collection_info"@,
        Operation::GetCollectionCount => "get_collection_count"@,
        Operation::ModifyCollection => "modify_collection"@,
        Operation::DeleteCollection => "delete_collection"@,
        Operation::AddDocuments => "add_documents"@,
        Operation::QueryDocuments => "query_documents"@,
        Operation::GetDocuments => "get_documents"@,
        Operation::UpdateDocuments => "update_documents"@,
        Operation::DeleteDocuments => "delete_documents"@,
        Operation::ProcessThought => "process_thought"@,
    }
}

/// The operation a name calls, if any.
pub open spec fn operation_named(name: Seq<char>) -> Option<Operation> {
    if name == "list_collections"@ {
        Some(Operation::ListCollections)
    } else if name == "create_collection"@ {
        Some(Operation::CreateCollection)
    } else if name == "peek_collection"@ {
        Some(Operation::PeekCollection)
    } else if name == "get_collection_info"@ {
        Some(Operation::GetCollectionInfo)
    } else if name == "get_collection_count"@ {
        Some(Operation::GetCollectionCount)
    } else if name == "modify_collection"@ {
        Some(Operation::ModifyCollection)
    } else if name == "delete_collection"@ {
        Some(Operation::DeleteCollection)
    } else if name == "add_documents"@ {
        Some(Operation::AddDocuments)
    } else if name == "query_documents"@ {
        Some(Operation::QueryDocuments)
    } else if name == "get_documents"@ {
        Some(Operation::GetDocuments)
    } else if name == "update_documents"@ {
        Some(Operation::UpdateDocuments)
    } else if name == "delete_documents"@ {
        Some(Operation::DeleteDocuments)
    } else if name == "process_thought"@ {
        Some(Operation::ProcessThought)
    } else {
        None
    }
}

/// The payload decodes into the operation's request.
pub open spec fn payload_fits(op: Operation, payload: Json) -> bool {
    match op {
        Operation::ListCollections => ListCollectionsRequest::fits(payload),
        Operation::CreateCollection => CreateCollectionRequest::fits(payload),
        Operation::PeekCollection => PeekCollectionRequest::fits(payload),
        Operation::GetCollectionInfo => GetCollectionInfoRequest::fits(payload),
        Operation::GetCollectionCount => GetCollectionCountRequest::fits(payload),
        Operation::ModifyCollection => ModifyCollectionRequest::fits(payload),
        Operation::DeleteCollection => DeleteCollectionRequest::fits(payload),
        Operation::AddDocuments => AddDocumentsRequest::fits(payload),
        Operation::QueryDocuments => QueryDocumentsRequest::fits(payload),
        Operation::GetDocuments => GetDocumentsRequest::fits(payload),
        Operation::UpdateDocuments => UpdateDocumentsRequest::fits(payload),
        Operation::DeleteDocuments => DeleteDocumentsRequest::fits(payload),
        Operation::ProcessThought => ThoughtData::fits(payload),
    }
}

/// The length of the list that a payload gives under `key`.
pub open spec fn list_len(payload: Json, key: Seq<char>) -> int {
    match payload {
        Json::Object(f) => match given(f@, key) {
            Some(Json::Array(items)) => items@.len() as int,
            _ => 0,
        },
        _ => 0,
    }
}

/// The text that a payload gives under `key`, if it gives one.
pub open spec fn text_given(payload: Json, key: Seq<char>) -> Seq<char> {
    match payload {
        Json::Object(f) => match given(f@, key) {
            Some(Json::Str(s)) => s@,
            _ => Seq::empty(),
        },
        _ => Seq::empty(),
    }
}

/// A payload gives a value under `key`.
pub open spec fn gives(payload: Json, key: Seq<char>) -> bool {
    payload matches Json::Object(f) && given(f@, key) is Some
}

/// A list under `key` is given and its length differs from `n`.
pub open spec fn length_differs(payload: Json, key: Seq<char>, n: int) -> bool {
    gives(payload, key) && list_len(payload, key) != n
}

/// The message of the first rule of its operation that a decoded request
/// breaks, if it breaks one.
pub open spec fn rule_message(op: Operation, payload: Json) -> Option<Seq<char>> {
    match op {
        Operation::AddDocuments => if list_len(payload, "documents"@) == 0 {
            Some("The 'documents' list cannot be empty."@)
        } else {
            None
        },
        Operation::QueryDocuments => if list_len(payload, "query_texts"@) == 0 {
            Some("The 'query_texts' list cannot be empty."@)
        } else {
            None
        },
        Operation::DeleteDocuments => if list_len(payload, "ids"@) == 0 {
            Some("The 'ids' list cannot be empty."@)
        } else {
            None
        },
        Operation::UpdateDocuments => {
            let n = list_len(payload, "ids"@);
            if n == 0 {
                Some("The 'ids' list cannot be empty."@)
            } else if !gives(payload, "embeddings"@) && !gives(payload, "metadatas"@) && !gives(
                payload,
                "documents"@,
            ) {
                Some("At least one of 'embeddings', 'metadatas', or 'documents' must be provided for update."@)
            } else if length_differs(payload, "embeddings"@, n) {
                Some("Length of 'embeddings' list must match length of 'ids' list."@)
            } else if length_differs(payload, "metadatas"@, n) {
                Some("Length of 'metadatas' list must match length of 'ids' list."@)
            } else if length_differs(payload, "documents"@, n) {
                Some("Length of 'documents' list must match length of 'ids' list."@)
            } else {
                None
            }
        },
        _ => None,
    }
}

/// A decoded request breaks one of its operation's rules.
pub open spec fn breaks_rule(op: Operation, payload: Json) -> bool {
    rule_message(op, payload) is Some
}

/// The non-negative integer that a payload gives under `key`.
pub open spec fn count_given(payload: Json, key: Seq<char>) -> int {
    match payload {
        Json::Object(f) => match given(f@, key) {
            Some(Json::Number(Num::PosInt(k))) => k as int,
            _ => 0,
        },
        _ => 0,
    }
}

/// The boolean that a payload gives under `key`.
pub open spec fn flag_given(payload: Json, key: Seq<char>) -> bool {
    payload matches Json::Object(f) && given(f@, key) == Some(Json::Bool(true))
}

/// Which aspects of a collection a modification payload changes, in order.
pub open spec fn aspects_given(payload: Json) -> Seq<Seq<char>> {
    let a = if gives(payload, "new_name"@) {
        seq!["name"@]
    } else {
        Seq::empty()
    };
    let b = if gives(payload, "new_metadata"@) {
        a.push("metadata"@)
    } else {
        a
    };
    if gives(payload, "ef_search"@) || gives(payload, "num_threads"@) || gives(payload, "batch_size"@) || gives(
        payload,
        "sync_threshold"@,
    ) || gives(payload, "resize_factor"@) {
        b.push("hnsw"@)
    } else {
        b
    }
}

/// The answer to a reasoning step: the step echoed, its total raised to its
/// number where that is larger, or else the reason it fails and `failed`.
pub open spec fn thought_answer(payload: Json, j: Json) -> bool {
    let session = text_given(payload, "session_id"@);
    let number = count_given(payload, "thought_number"@);
    let total = count_given(payload, "total_thoughts"@);
    let problem = step_problem(session, text_given(payload, "thought"@), number, total);
    let shown_total = match problem {
        Some(_) => total,
        None => if number > total {
            number
        } else {
            total
        },
    };
    j matches Json::Object(f) && f@.len() >= 4
        && f@[0].0@ == "session_id"@ && is_text(f@[0].1, session)
        && f@[1].0@ == "thought_number"@ && f@[1].1 == Json::Number(Num::PosInt(number as u64))
        && f@[2].0@ == "total_thoughts"@ && f@[2].1 == Json::Number(Num::PosInt(shown_total as u64))
        && f@[3].0@ == "next_thought_needed"@ && f@[3].1 == Json::Bool(flag_given(payload, "next_thought_needed"@))
        && match problem {
            Some(m) => f@.len() == 6 && f@[4].0@ == "error"@ && is_text(f@[4].1, m) && f@[5].0@ == "status"@
                && is_text(f@[5].1, "failed"@),
            None => f@.len() == 4,
        }
}

/// What an operation answers to a payload that decodes and breaks none of
/// its rules.
pub open spec fn answers(op: Operation, payload: Json, j: Json) -> bool {
    let name = text_given(payload, "collection_name"@);
    match op {
        Operation::ListCollections => j matches Json::Array(items) && items@.len() == 1 && is_text(
            items@[0],
            "test_collection"@,
        ),
        Operation::CreateCollection => is_text(j, "Created collection: "@ + name),
        Operation::PeekCollection => is_sample_page(j),
        Operation::GetCollectionInfo => is_info(j, name, sample_count()),
        Operation::GetCollectionCount => j == Json::Number(Num::PosInt(sample_count() as u64)),
        Operation::ModifyCollection => is_text(
            j,
            "Successfully modified collection "@ + name + ": updated "@ + joined(aspects_given(payload)),
        ),
        Operation::DeleteCollection => is_text(j, "Successfully deleted collection "@ + name),
        Operation::AddDocuments => is_text(
            j,
            "Successfully added "@ + decimal(list_len(payload, "documents"@) as nat) + " documents to collection "@
                + name,
        ),
        Operation::QueryDocuments => is_sample_answer(j),
        Operation::GetDocuments => is_sample_page(j),
        Operation::UpdateDocuments => is_text(
            j,
            "Successfully updated "@ + decimal(list_len(payload, "ids"@) as nat) + " documents in collection '"@
                + name + "'"@,
        ),
        Operation::DeleteDocuments => is_text(
            j,
            "Successfully deleted "@ + decimal(list_len(payload, "ids"@) as nat) + " documents from collection '"@
                + name + "'"@,
        ),
        Operation::ProcessThought => thought_answer(payload, j),
    }
}

impl Operation {
    /// The name this operation is called by.
    pub fn name(&self) -> (r: &'static str)
        ensures
            r@ == operation_name(*self),
    {
        match self {
            Operation::ListCollections => "list_collections",
            Operation::CreateCollection => "create_collection",
            Operation::PeekCollection => "peek_collection",
            Operation::GetCollectionInfo => "get_collection_info",
            Operation::GetCollectionCount => "get_collection_count",
            Operation::ModifyCollection => "modify_collection",
            Operation::DeleteCollection => "delete_collection",
            Operation::AddDocuments => "add_documents",
            Operation::QueryDocuments => "query_documents",
            Operation::GetDocuments => "get_documents",
            Operation::UpdateDocuments => "update_documents",
            Operation::DeleteDocuments => "delete_documents",
            Operation::ProcessThought => "process_thought",
        }
    }
}

/// Finds the operation a name calls.
pub fn route(name: &str) -> (r: Option<Operation>)
    ensures
        r == operation_named(name@),
{
    let name = name.to_owned();
    if name == "list_collections".to_owned() {
        return Some(Operation::ListCollections);
    }
    if name == "create_collection".to_owned() {
        return Some(Operation::CreateCollection);
    }
    if name == "peek_collection".to_owned() {
        return Some(Operation::PeekCollection);
    }
    if name == "get_collection_info".to_owned() {
        return Some(Operation::GetCollectionInfo);
    }
    if name == "get_collection_count".to_owned() {
        return Some(Operation::GetCollectionCount);
    }
    if name == "modify_collection".to_owned() {
        return Some(Operation::ModifyCollection);
    }
    if name == "delete_collection".to_owned() {
        return Some(Operation::DeleteCollection);
    }
    if name == "add_documents".to_owned() {
        return Some(Operation::AddDocuments);
    }
    if name == "query_documents".to_owned() {
        return Some(Operation::QueryDocuments);
    }
    if name == "get_documents".to_owned() {
        return Some(Operation::GetDocuments);
    }
    if name == "update_documents".to_owned() {
        return Some(Operation::UpdateDocuments);
    }
    if name == "delete_documents".to_owned() {
        return Some(Operation::DeleteDocuments);
    }
    if name == "process_thought".to_owned() {
        return Some(Operation::ProcessThought);
    }
    None
}

fn invalid(e: DecodeError) -> (r: DispatchError)
    ensures
        r is InvalidParams,
{
    DispatchError::InvalidParams(e.message())
}

fn names_json(names: Vec<String>) -> (r: Json)
    ensures
        r matches Json::Array(items) && items@.len() == names@.len() && forall|i: int|
            0 <= i < names@.len() ==> #[trigger] items@[i] == Json::Str(names@[i]),
{
    let mut items: Vec<Json> = Vec::new();
    let mut i: usize = 0;
    while i < names.len()
        invariant
            i <= names@.len(),
            items@.len() == i,
            forall|k: int| 0 <= k < i ==> #[trigger] items@[k] == Json::Str(names@[k]),
        decreases names@.len() - i,
    {
        items.push(Json::Str(names[i].clone()));
        i = i + 1;
    }
    Json::Array(items)
}

/// A reasoning step's answer as an object; `error` and `status` appear only
/// where they are set.
pub fn thought_json(t: ThoughtResponse) -> (r: Json)
    ensures
        r matches Json::Object(f) && {
            &&& f@.len() == 4 + (if t.error is Some { 1int } else { 0 }) + (if t.status is Some { 1int } else { 0 })
            &&& f@[0].0@ == "session_id"@ && f@[0].1 == Json::Str(t.session_id)
            &&& f@[1].0@ == "thought_number"@ && f@[1].1 == Json::Number(Num::PosInt(t.thought_number as u64))
            &&& f@[2].0@ == "total_thoughts"@ && f@[2].1 == Json::Number(Num::PosInt(t.total_thoughts as u64))
            &&& f@[3].0@ == "next_thought_needed"@ && f@[3].1 == Json::Bool(t.next_thought_needed)
            &&& (t.error matches Some(e) ==> f@[4].0@ == "error"@ && f@[4].1 == Json::Str(e))
            &&& (t.status matches Some(s) ==> f@[f@.len() - 1].0@ == "status"@ && f@[f@.len() - 1].1 == Json::Str(s))
        },
{
    let mut f: Vec<(String, Json)> = Vec::new();
    f.push(("session_id".to_owned(), Json::Str(t.session_id)));
    f.push(("thought_number".to_owned(), Json::Number(Num::PosInt(t.thought_number as u64))));
    f.push(("total_thoughts".to_owned(), Json::Number(Num::PosInt(t.total_thoughts as u64))));
    f.push(("next_thought_needed".to_owned(), Json::Bool(t.next_thought_needed)));
    if let Some(e) = t.error {
        f.push(("error".to_owned(), Json::Str(e)));
    }
    if let Some(s) = t.status {
        f.push(("status".to_owned(), Json::Str(s)));
    }
    Json::Object(f)
}

/// Runs one call: an unknown name fails with `MethodNotFound`; a payload
/// that does not decode into the operation's request fails with
/// `InvalidParams`; a request that breaks its operation's rules fails with
/// `ValidationError` and the rule's message; anything else is handled, and
/// the handler's answer on the decoded request is returned.
pub fn dispatch(client: &ChromaClient, name: &str, payload: Json) -> (r: Result<Json, DispatchError>)
    ensures
        operation_named(name@) is None <==> (r matches Err(DispatchError::MethodNotFound(n)) && n@ == name@),
        operation_named(name@) matches Some(op) ==> {
            &&& (r matches Err(DispatchError::InvalidParams(_))) <==> !payload_fits(op, payload)
            &&& payload_fits(op, payload) ==> ((r matches Err(DispatchError::ValidationError(_))) <==> breaks_rule(op, payload))
            &&& payload_fits(op, payload) && breaks_rule(op, payload)
                ==> (r matches Err(DispatchError::ValidationError(t)) && rule_message(op, payload) == Some(t@))
            &&& payload_fits(op, payload) && !breaks_rule(op, payload) ==> (r matches Ok(j) && answers(op, payload, j))
        },
{
    let op = match route(name) {
        Some(op) => op,
        None => return Err(DispatchError::MethodNotFound(name.to_owned())),
    };
    match op {
        Operation::ListCollections => {
            let request = match ListCollectionsRequest::from_json(payload) {
                Ok(q) => q,
                Err(e) => return Err(invalid(e)),
            };
            match chroma_list_collections(client, request) {
                Ok(out) => Ok(names_json(out)),
                Err(e) => Err(e),
            }
        },
        Operation::CreateCollection => {
            let request = match CreateCollectionRequest::from_json(payload) {
                Ok(q) => q,
                Err(e) => return Err(invalid(e)),
            };
            match chroma_create_collection(client, request) {
                Ok(out) => Ok(Json::Str(out)),
                Err(e) => Err(e),
            }
        },
        Operation::PeekCollection => {
            let request = match PeekCollectionRequest::from_json(payload) {
                Ok(q) => q,
                Err(e) => return Err(invalid(e)),
            };
            match chroma_peek_collection(client, request) {
                Ok(out) => Ok(out),
                Err(e) => Err(e),
            }
        },
        Operation::GetCollectionInfo => {
            let request = match GetCollectionInfoRequest::from_json(payload) {
                Ok(q) => q,
                Err(e) => return Err(invalid(e)),
            };
            match chroma_get_collection_info(client, request) {
                Ok(out) => Ok(out),
                Err(e) => Err(e),
            }
        },
        Operation::GetCollectionCount => {
            let request = match GetCollectionCountRequest::from_json(payload) {
                Ok(q) => q,
                Err(e) => return Err(invalid(e)),
            };
            match chroma_get_collection_count(client, request) {
                Ok(out) => Ok(Json::Number(Num::PosInt(out as u64))),
                Err(e) => Err(e),
            }
        },
        Operation::ModifyCollection => {
            let request = match ModifyCollectionRequest::from_json(payload) {
                Ok(q) => q,
                Err(e) => return Err(invalid(e)),
            };
            match chroma_modify_collection(client, request) {
                Ok(out) => Ok(Json::Str(out)),
                Err(e) => Err(e),
            }
        },
        Operation::DeleteCollection => {
            let request = match DeleteCollectionRequest::from_json(payload) {
                Ok(q) => q,
                Err(e) => return Err(invalid(e)),
            };
            match chroma_delete_collection(client, request) {
                Ok(out) => Ok(Json::Str(out)),
                Err(e) => Err(e),
            }
        },
        Operation::AddDocuments => {
            let request = match AddDocumentsRequest::from_json(payload) {
                Ok(q) => q,
                Err(e) => return Err(invalid(e)),
            };
            match chroma_add_documents(client, request) {
                Ok(out) => Ok(Json::Str(out)),
                Err(e) => Err(e),
            }
        },
        Operation::QueryDocuments => {
            let request = match QueryDocumentsRequest::from_json(payload) {
                Ok(q) => q,
                Err(e) => return Err(invalid(e)),
            };
            match chroma_query_documents(client, request) {
                Ok(out) => Ok(out),
                Err(e) => Err(e),
            }
        },
        Operation::GetDocuments => {
            let request = match GetDocumentsRequest::from_json(payload) {
                Ok(q) => q,
                Err(e) => return Err(invalid(e)),
            };
            match chroma_get_documents(client, request) {
                Ok(out) => Ok(out),
                Err(e) => Err(e),
            }
        },
        Operation::UpdateDocuments => {
            let request = match UpdateDocumentsRequest::from_json(payload) {
                Ok(q) => q,
                Err(e) => return Err(invalid(e)),
            };
            match chroma_update_documents(client, request) {
                Ok(out) => Ok(Json::Str(out)),
                Err(e) => Err(e),
            }
        },
        Operation::DeleteDocuments => {
            let request = match DeleteDocumentsRequest::from_json(payload) {
                Ok(q) => q,
                Err(e) => return Err(invalid(e)),
            };
            match chroma_delete_documents(client, request) {
                Ok(out) => Ok(Json::Str(out)),
                Err(e) => Err(e),
            }
        },
        Operation::ProcessThought => {
            let request = match ThoughtData::from_json(payload) {
                Ok(q) => q,
                Err(e) => return Err(invalid(e)),
            };
            Ok(thought_json(process_thought(request)))
        },
    }
}

} // verus!
