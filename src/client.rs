//! The backend client that the operations call: collections of documents in
//! a vector store. This client answers from fixed sample data.

use vstd::prelude::*;
use crate::json::{Json, Num};

verus! {

/// A failure reported by the backend.
#[derive(Debug)]
pub struct BackendError {
    pub message: String,
}

/// A connection to the backend.
#[derive(Debug)]
pub struct ChromaClient {
    pub host: String,
    pub port: u16,
    pub username: Option<String>,
    pub password: Option<String>,
}

/// A handle on one named collection.
#[derive(Debug)]
pub struct Collection {
    pub name: String,
}

pub open spec fn is_digit(c: char) -> bool {
    '0' <= c <= '9'
}

pub open spec fn all_digits(s: Seq<char>) -> bool {
    forall|i: int| 0 <= i < s.len() ==> is_digit(#[trigger] s[i])
}

/// The number that a run of decimal digits writes.
pub open spec fn digits_value(s: Seq<char>) -> int
    decreases s.len(),
{
    if s.len() == 0 {
        0
    } else {
        digits_value(s.drop_last()) * 10 + (s.last() as int - '0' as int)
    }
}

/// The digits of a port number's text, after an optional `+`.
pub open spec fn port_digits(s: Seq<char>) -> Seq<char> {
    if s.len() > 0 && s[0] == '+' {
        s.drop_first()
    } else {
        s
    }
}

/// The port that a text names: an optional `+`, then at least one decimal
/// digit, for a value that fits in 16 bits.
pub open spec fn parsed_port(s: Seq<char>) -> Option<u16> {
    let d = port_digits(s);
    if d.len() > 0 && all_digits(d) && digits_value(d) <= u16::MAX {
        Some(digits_value(d) as u16)
    } else {
        None
    }
}

/// A run of digits is worth at least any of its prefixes.
proof fn lemma_digits_grow(d: Seq<char>, k: int)
    requires
        0 <= k <= d.len(),
        all_digits(d),
    ensures
        digits_value(d) >= digits_value(d.subrange(0, k)),
        digits_value(d.subrange(0, k)) >= 0,
    decreases d.len(),
{
    if k == d.len() {
        assert(d.subrange(0, k) =~= d);
        lemma_digits_nonneg(d);
    } else {
        assert(all_digits(d.drop_last()));
        lemma_digits_grow(d.drop_last(), k);
        assert(d.drop_last().subrange(0, k) =~= d.subrange(0, k));
        lemma_digits_nonneg(d.drop_last());
        assert(is_digit(d[d.len() - 1]));
    }
}

proof fn lemma_digits_nonneg(d: Seq<char>)
    requires
        all_digits(d),
    ensures
        digits_value(d) >= 0,
    decreases d.len(),
{
    if d.len() > 0 {
        assert(all_digits(d.drop_last()));
        lemma_digits_nonneg(d.drop_last());
        assert(is_digit(d[d.len() - 1]));
    }
}

/// Reads a port number from its text.
pub fn parse_port(text: &str) -> (r: Option<u16>)
    ensures
        r == parsed_port(text@),
{
    let n = text.unicode_len();
    let mut start: usize = 0;
    if n > 0 && text.get_char(0) == '+' {
        start = 1;
    }
    let ghost d = port_digits(text@);
    proof {
        if start == 1 {
            assert(d =~= text@.subrange(1, n as int));
        } else {
            assert(d =~= text@);
        }
    }
    if start == n {
        return None;
    }
    let mut value: u32 = 0;
    let mut i: usize = start;
    while i < n
        invariant
            start <= i <= n,
            n == text@.len(),
            d == text@.subrange(start as int, n as int),
            d == port_digits(text@),
            d.len() > 0,
            value <= u16::MAX,
            all_digits(d.subrange(0, i - start)),
            value as int == digits_value(d.subrange(0, i - start)),
        decreases n - i,
    {
        let c = text.get_char(i);
        let ghost k = i - start;
        proof {
            assert(d[k] == c);
            assert(d.subrange(0, k + 1).drop_last() =~= d.subrange(0, k));
        }
        if !('0' <= c && c <= '9') {
            proof {
                assert(!is_digit(d[k]));
            }
            return None;
        }
        value = value * 10 + (c as u32 - '0' as u32);
        proof {
            assert(all_digits(d.subrange(0, k + 1)));
            assert(d.subrange(0, k + 1).last() == c);
            assert(value as int == digits_value(d.subrange(0, k + 1)));
        }
        if value > 65535 {
            proof {
                if all_digits(d) {
                    lemma_digits_grow(d, k + 1);
                }
            }
            return None;
        }
        i = i + 1;
    }
    proof {
        assert(d.subrange(0, n - start) =~= d);
    }
    Some(value as u16)
}

/// A client for the settings found in the environment: the host defaults
/// to `localhost`, and the port to 8000 where it is absent or unreadable.
pub fn initialize_client(
    host: Option<String>,
    port: Option<String>,
    username: Option<String>,
    password: Option<String>,
) -> (r: ChromaClient)
    ensures
        r.host@ == match host {
            Some(h) => h@,
            None => "localhost"@,
        },
        r.port == match port {
            Some(p) => match parsed_port(p@) {
                Some(v) => v,
                None => 8000,
            },
            None => 8000,
        },
        r.username == username,
        r.password == password,
{
    let host = match host {
        Some(h) => h,
        None => "localhost".to_owned(),
    };
    let port = match port {
        Some(p) => match parse_port(p.as_str()) {
            Some(v) => v,
            None => 8000,
        },
        None => 8000,
    };
    ChromaClient { host, port, username, password }
}

fn owned(s: Option<&str>) -> (r: Option<String>)
    ensures
        match s {
            Some(t) => r matches Some(u) && u@ == t@,
            None => r is None,
        },
{
    match s {
        Some(t) => Some(t.to_owned()),
        None => None,
    }
}

fn text_value(s: &str) -> (r: Json)
    ensures
        r matches Json::Str(t) && t@ == s@,
{
    Json::Str(s.to_owned())
}

fn pair_value(a: Json, b: Json) -> (r: Json)
    ensures
        r matches Json::Array(items) && items@ == seq![a, b],
{
    let mut items: Vec<Json> = Vec::new();
    items.push(a);
    items.push(b);
    Json::Array(items)
}

fn one_value(a: Json) -> (r: Json)
    ensures
        r matches Json::Array(items) && items@ == seq![a],
{
    let mut items: Vec<Json> = Vec::new();
    items.push(a);
    Json::Array(items)
}

fn source_value(s: &str) -> (r: Json)
    ensures
        is_source(r, s@),
{
    let mut fields: Vec<(String, Json)> = Vec::new();
    fields.push(("source".to_owned(), text_value(s)));
    Json::Object(fields)
}

/// `j` is the text `t`.
pub open spec fn is_text(j: Json, t: Seq<char>) -> bool {
    j matches Json::Str(s) && s@ == t
}

/// `j` is the array of the two texts `a` and `b`.
pub open spec fn is_text_pair(j: Json, a: Seq<char>, b: Seq<char>) -> bool {
    j matches Json::Array(items) && items@.len() == 2 && is_text(items@[0], a) && is_text(items@[1], b)
}

/// `j` is the metadata object `{"source": t}`.
pub open spec fn is_source(j: Json, t: Seq<char>) -> bool {
    j matches Json::Object(f) && f@.len() == 1 && f@[0].0@ == "source"@ && is_text(f@[0].1, t)
}

/// `j` is the array of the two sample metadata objects.
pub open spec fn is_source_pair(j: Json) -> bool {
    j matches Json::Array(items) && items@.len() == 2 && is_source(items@[0], "test1"@)
        && is_source(items@[1], "test2"@)
}

/// The one item of an array that holds exactly one.
pub open spec fn only_item(j: Json) -> Option<Json> {
    match j {
        Json::Array(items) => if items@.len() == 1 {
            Some(items@[0])
        } else {
            None
        },
        _ => None,
    }
}

/// `j` is the number written `t`.
pub open spec fn is_number_text(j: Json, t: Seq<char>) -> bool {
    j matches Json::Number(Num::Float(s)) && s@ == t
}

/// The sample distances of a query's results.
pub open spec fn is_sample_distances(j: Json) -> bool {
    j matches Json::Array(d) && d@.len() == 2 && is_number_text(d@[0], "0.1"@) && is_number_text(d@[1], "0.2"@)
}

/// The sample page of documents the backend answers with.
pub open spec fn is_sample_page(j: Json) -> bool {
    j matches Json::Object(f) && f@.len() == 3
        && f@[0].0@ == "ids"@ && is_text_pair(f@[0].1, "doc1"@, "doc2"@)
        && f@[1].0@ == "documents"@ && is_text_pair(f@[1].1, "document1"@, "document2"@)
        && f@[2].0@ == "metadatas"@ && is_source_pair(f@[2].1)
}

/// The sample answer to a query: one result list per query.
pub open spec fn is_sample_answer(j: Json) -> bool {
    j matches Json::Object(f) && f@.len() == 4
        && f@[0].0@ == "ids"@ && (only_item(f@[0].1) matches Some(x) && is_text_pair(x, "doc1"@, "doc2"@))
        && f@[1].0@ == "documents"@
        && (only_item(f@[1].1) matches Some(x) && is_text_pair(x, "document1"@, "document2"@))
        && f@[2].0@ == "metadatas"@ && (only_item(f@[2].1) matches Some(x) && is_source_pair(x))
        && f@[3].0@ == "distances"@ && (only_item(f@[3].1) matches Some(x) && is_sample_distances(x))
}

/// The collection names the backend lists.
pub open spec fn is_sample_list(names: Seq<String>) -> bool {
    names.len() == 1 && names[0]@ == "test_collection"@
}

/// The number of documents the backend reports for a collection.
pub open spec fn sample_count() -> usize {
    3
}

fn sample_page() -> (r: Json)
    ensures
        is_sample_page(r),
{
    let mut fields: Vec<(String, Json)> = Vec::new();
    fields.push(("ids".to_owned(), pair_value(text_value("doc1"), text_value("doc2"))));
    fields.push(("documents".to_owned(), pair_value(text_value("document1"), text_value("document2"))));
    fields.push(("metadatas".to_owned(), pair_value(source_value("test1"), source_value("test2"))));
    Json::Object(fields)
}

impl ChromaClient {
    pub fn new(host: &str, port: u16, username: Option<&str>, password: Option<&str>) -> (r: ChromaClient)
        ensures
            r.host@ == host@,
            r.port == port,
            match username {
                Some(u) => r.username matches Some(v) && v@ == u@,
                None => r.username is None,
            },
            match password {
                Some(p) => r.password matches Some(v) && v@ == p@,
                None => r.password is None,
            },
    {
        ChromaClient { host: host.to_owned(), port, username: owned(username), password: owned(password) }
    }

    pub fn list_collections(&self, limit: Option<usize>, offset: Option<usize>) -> (r: Result<Vec<String>, BackendError>)
        ensures
            r matches Ok(names) && is_sample_list(names@),
    {
        let mut names: Vec<String> = Vec::new();
        names.push("test_collection".to_owned());
        Ok(names)
    }

    pub fn create_collection(&self, name: &str, metadata: Option<Json>) -> (r: Result<String, BackendError>)
        ensures
            r matches Ok(s) && s@ == "Created collection: "@ + name@,
    {
        let mut s = "Created collection: ".to_owned();
        s.append(name);
        Ok(s)
    }

    pub fn get_collection(&self, name: &str) -> (r: Result<Collection, BackendError>)
        ensures
            r matches Ok(c) && c.name@ == name@,
    {
        Ok(Collection { name: name.to_owned() })
    }

    pub fn delete_collection(&self, name: &str) -> (r: Result<(), BackendError>)
        ensures
            r is Ok,
    {
        Ok(())
    }
}

impl Collection {
    pub fn add(&self, documents: Vec<String>, metadatas: Option<Vec<Json>>, ids: Vec<String>) -> (r: Result<(), BackendError>)
        ensures
            r is Ok,
    {
        Ok(())
    }

    pub fn query(
        &self,
        query_texts: Vec<String>,
        n_results: usize,
        where_filter: Option<Json>,
        where_document: Option<Json>,
        result_parts: Vec<String>,
    ) -> (r: Result<Json, BackendError>)
        ensures
            r matches Ok(j) && is_sample_answer(j),
    {
        let mut fields: Vec<(String, Json)> = Vec::new();
        fields.push(("ids".to_owned(), one_value(pair_value(text_value("doc1"), text_value("doc2")))));
        fields.push(
            ("documents".to_owned(), one_value(pair_value(text_value("document1"), text_value("document2")))),
        );
        fields.push(
            ("metadatas".to_owned(), one_value(pair_value(source_value("test1"), source_value("test2")))),
        );
        let near = Json::Number(Num::Float("0.1".to_owned()));
        let far = Json::Number(Num::Float("0.2".to_owned()));
        fields.push(("distances".to_owned(), one_value(pair_value(near, far))));
        Ok(Json::Object(fields))
    }

    pub fn get(
        &self,
        ids: Option<Vec<String>>,
        where_filter: Option<Json>,
        where_document: Option<Json>,
        result_parts: Vec<String>,
        limit: Option<usize>,
        offset: Option<usize>,
    ) -> (r: Result<Json, BackendError>)
        ensures
            r matches Ok(j) && is_sample_page(j),
    {
        Ok(sample_page())
    }

    pub fn update(
        &self,
        ids: Vec<String>,
        embeddings: Option<Vec<Vec<Num>>>,
        metadatas: Option<Vec<Json>>,
        documents: Option<Vec<String>>,
    ) -> (r: Result<(), BackendError>)
        ensures
            r is Ok,
    {
        Ok(())
    }

    pub fn delete(&self, ids: Vec<String>) -> (r: Result<(), BackendError>)
        ensures
            r is Ok,
    {
        Ok(())
    }

    pub fn count(&self) -> (r: Result<usize, BackendError>)
        ensures
            r matches Ok(n) && n == sample_count(),
    {
        Ok(3)
    }

    pub fn peek(&self, limit: usize) -> (r: Result<Json, BackendError>)
        ensures
            r matches Ok(j) && is_sample_page(j),
    {
        Ok(sample_page())
    }

    pub fn modify(&self, name: Option<String>, metadata: Option<Json>) -> (r: Result<(), BackendError>)
        ensures
            r is Ok,
    {
        Ok(())
    }
}

} // verus!
