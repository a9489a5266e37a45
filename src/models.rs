use mongodb::bson::Document;
use vstd::prelude::*;

verus! {

#[verifier::external_type_specification]
#[verifier::external_body]
pub struct ExDocument(Document);

/// Relies on the derived `Clone` of bson's `Document`: a copy of the same
/// entries, in the same order.
pub assume_specification[ <Document as Clone>::clone ](d: &Document) -> (r: Document)
    ensures
        r == *d,
;

/// Relies on `Duration` being `Copy`: its clone is the same value.
pub assume_specification[ <std::time::Duration as Clone>::clone ](
    d: &std::time::Duration,
) -> (r: std::time::Duration)
    ensures
        r == *d,
;

/// A database as the server lists it.
#[derive(Debug, Clone)]
pub struct DatabaseInfo {
    pub name: String,
    pub size_on_disk: u64,
    pub collection_count: usize,
    pub empty: bool,
}

/// A collection as the server lists it.
#[derive(Debug, Clone)]
pub struct CollectionInfo {
    pub name: String,
    pub document_count: u64,
    pub size: u64,
    pub indexes: Vec<String>,
    pub capped: bool,
}

impl DatabaseInfo {
    /// A database as the server lists it; the listing does not count its
    /// collections, so none are counted.
    pub fn listed(name: String, size_on_disk: u64, empty: bool) -> (r: Self)
        ensures
            r == (DatabaseInfo { name, size_on_disk, collection_count: 0, empty }),
    {
        DatabaseInfo { name, size_on_disk, collection_count: 0, empty }
    }
}

impl CollectionInfo {
    /// A collection with what could be learnt of it: a count or index list
    /// that could not be read shows as zero or as none.
    pub fn listed(name: String, document_count: Option<u64>, indexes: Option<Vec<String>>) -> (r:
        Self)
        ensures
            r.name == name,
            r.document_count == match document_count {
                Some(n) => n,
                None => 0,
            },
            r.indexes@ == match indexes {
                Some(v) => v@,
                None => Seq::<String>::empty(),
            },
            r.size == 0,
            !r.capped,
    {
        let document_count = match document_count {
            Some(n) => n,
            None => 0,
        };
        let indexes = match indexes {
            Some(v) => v,
            None => Vec::new(),
        };
        CollectionInfo { name, document_count, size: 0, indexes, capped: false }
    }
}

/// Version and address of the server a session is connected to.
#[derive(Debug, Clone)]
pub struct ServerInfo {
    pub version: String,
    pub host: String,
    pub port: u16,
}

/// An index of a collection.
#[derive(Debug, Clone)]
pub struct IndexInfo {
    pub name: String,
    pub keys: Document,
    pub unique: bool,
}

/// One page of documents to fetch from a collection.
#[derive(Debug, Clone)]
pub struct QueryParams {
    pub database: String,
    pub collection: String,
    pub filter: Option<Document>,
    pub skip: u64,
    pub limit: i64,
    pub sort: Option<Document>,
}

/// Documents a query returned, with their total count and the time it took.
#[derive(Debug, Clone)]
pub struct QueryResult {
    pub document: Vec<Document>,
    pub total_count: u64,
    pub execution_time: std::time::Duration,
}

} // verus!
