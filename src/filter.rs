use crate::history::texts;
use mongodb::bson::Document;
use vstd::prelude::*;
use vstd::string::*;

verus! {

#[verifier::external_type_specification]
#[verifier::external_body]
pub struct ExJsonError(serde_json::Error);

/// What a document holds under one key, as far as this library reads or
/// writes it.
pub enum FieldValue {
    Text(Seq<char>),
    Nested(Seq<(Seq<char>, FieldValue)>),
    List(Seq<Seq<(Seq<char>, FieldValue)>>),
    Other,
}

/// The keys of a document, in order, each with what it holds.
pub uninterp spec fn entries(d: Document) -> Seq<(Seq<char>, FieldValue)>;

/// The document bson reads from `s`, a document written in JSON; none where
/// it cannot read one.
pub uninterp spec fn document_read(s: Seq<char>) -> Option<Seq<(Seq<char>, FieldValue)>>;

/// What each of a list of documents holds.
pub open spec fn entries_of_each(ds: Seq<Document>) -> Seq<Seq<(Seq<char>, FieldValue)>> {
    ds.map_values(|d: Document| entries(d))
}

/// The keys of a document, in order.
pub open spec fn keys_of(d: Document) -> Seq<Seq<char>> {
    entries(d).map_values(|e: (Seq<char>, FieldValue)| e.0)
}

/// `es` with `key` set to `v`: in place where the key is present, else at the
/// end.
pub open spec fn upsert(
    es: Seq<(Seq<char>, FieldValue)>,
    key: Seq<char>,
    v: FieldValue,
) -> Seq<(Seq<char>, FieldValue)> {
    if exists|i: int| 0 <= i < es.len() && es[i].0 == key {
        let i = choose|i: int| 0 <= i < es.len() && es[i].0 == key;
        es.update(i, (key, v))
    } else {
        es.push((key, v))
    }
}

/// Relies on bson's `Document::new`: a document with no entries.
pub assume_specification[ Document::new ]() -> (r: Document)
    ensures
        entries(r) == Seq::<(Seq<char>, FieldValue)>::empty(),
;

/// Relies on bson's `Document::insert` with a string value, which sets the key
/// in place or appends it, as `IndexMap::insert` does.
#[verifier::external_body]
fn put_text(d: &mut Document, key: &str, value: &str)
    ensures
        entries(*final(d)) == upsert(entries(*old(d)), key@, FieldValue::Text(value@)),
{
    d.insert(key, value);
}

/// Relies on bson's `Document::insert` with a document value.
#[verifier::external_body]
fn put_document(d: &mut Document, key: &str, value: Document)
    ensures
        entries(*final(d)) == upsert(entries(*old(d)), key@, FieldValue::Nested(entries(value))),
{
    d.insert(key, value);
}

/// Relies on bson's `Document::insert` with an array of documents.
#[verifier::external_body]
fn put_documents(d: &mut Document, key: &str, values: Vec<Document>)
    ensures
        entries(*final(d)) == upsert(
            entries(*old(d)),
            key@,
            FieldValue::List(entries_of_each(values@)),
        ),
{
    d.insert(key, values);
}

/// Relies on bson's `Document::keys`: the keys in insertion order.
#[verifier::external_body]
pub(crate) fn field_names(d: &Document) -> (r: Vec<String>)
    ensures
        texts(r@) == keys_of(*d),
{
    d.keys().cloned().collect()
}

/// Relies on `serde_json::from_str` into bson's `Document`: whether it reads
/// the text, and the document it reads, depend on the text alone.
#[verifier::external_body]
fn read_document(text: &str) -> (r: Result<Document, serde_json::Error>)
    ensures
        r is Ok <==> document_read(text@) is Some,
        r matches Ok(d) ==> document_read(text@) == Some(entries(d)),
{
    serde_json::from_str::<Document>(text)
}

/// The key every stored document carries as its identity.
pub open spec fn id_key() -> Seq<char> {
    "_id"@
}

/// Fields of a sample document that a text search looks in: all but the
/// identity.
pub open spec fn searchable_fields(keys: Seq<Seq<char>>) -> Seq<Seq<char>> {
    keys.filter(|k: Seq<char>| k != id_key())
}

/// Condition that `field` holds `text` anywhere, in any case.
pub open spec fn contains_text(field: Seq<char>, text: Seq<char>) -> Seq<(Seq<char>, FieldValue)> {
    seq![
        (
            field,
            FieldValue::Nested(seq![("$regex"@, FieldValue::Text(text)), ("$options"@, FieldValue::Text("i"@))]),
        ),
    ]
}

/// One condition per field, that it holds `text`.
pub open spec fn conditions(fields: Seq<Seq<char>>, text: Seq<char>) -> Seq<
    Seq<(Seq<char>, FieldValue)>,
> {
    fields.map_values(|f: Seq<char>| contains_text(f, text))
}

/// Filter that matches a document where any of `fields` holds `text`.
pub open spec fn any_field_contains(fields: Seq<Seq<char>>, text: Seq<char>) -> Seq<
    (Seq<char>, FieldValue),
> {
    seq![
        (
            "$or"@,
            FieldValue::List(conditions(fields, text)),
        ),
    ]
}

/// The filter that a live search builds from a sample looks in each field of
/// the sample but its identity, and in no other: one condition per field, in
/// the sample's order, each a case-insensitive match of the search text.
pub proof fn lemma_live_filter_fields(keys: Seq<Seq<char>>, text: Seq<char>)
    ensures
        forall|i: int|
            0 <= i < searchable_fields(keys).len() ==> #[trigger] searchable_fields(keys)[i]
                != id_key() && keys.contains(searchable_fields(keys)[i]),
        forall|i: int|
            0 <= i < keys.len() && #[trigger] keys[i] != id_key() ==> searchable_fields(
                keys,
            ).contains(keys[i]),
        forall|i: int|
            0 <= i < searchable_fields(keys).len() ==> #[trigger] conditions(
                searchable_fields(keys),
                text,
            )[i] == contains_text(searchable_fields(keys)[i], text),
{
    broadcast use vstd::seq_lib::group_filter_ensures;

    let sf = searchable_fields(keys);
    assert forall|i: int| 0 <= i < sf.len() implies #[trigger] sf[i] != id_key() && keys.contains(
        sf[i],
    ) by {
        reveal(Seq::filter);
        lemma_filter_from(keys, i);
    }
}

/// Each field a search looks in is a key of the sample.
proof fn lemma_filter_from(keys: Seq<Seq<char>>, i: int)
    requires
        0 <= i < searchable_fields(keys).len(),
    ensures
        keys.contains(searchable_fields(keys)[i]),
        searchable_fields(keys)[i] != id_key(),
    decreases keys.len(),
{
    reveal(Seq::filter);
    let d = keys.drop_last();
    if i < searchable_fields(d).len() {
        lemma_filter_from(d, i);
        let j = choose|j: int| 0 <= j < d.len() && d[j] == searchable_fields(d)[i];
        assert(keys[j] == searchable_fields(keys)[i]);
    } else {
        assert(searchable_fields(keys)[i] == keys.last());
        assert(keys[keys.len() - 1] == keys.last());
    }
}

/// Condition that `field` holds `text` anywhere, in any case.
fn contains_text_condition(field: &str, text: &str) -> (r: Document)
    ensures
        entries(r) == contains_text(field@, text@),
{
    let mut inner = Document::new();
    put_text(&mut inner, "$regex", text);
    put_text(&mut inner, "$options", "i");
    proof {
        reveal_strlit("$regex");
        reveal_strlit("$options");
        assert("$regex"@[1] != "$options"@[1]);
    }
    assert(entries(inner) =~= seq![("$regex"@, FieldValue::Text(text@)), ("$options"@, FieldValue::Text("i"@))]);
    let mut clause = Document::new();
    put_document(&mut clause, field, inner);
    assert(entries(clause) =~= contains_text(field@, text@));
    clause
}

/// The keys that a text search looks in: all but the identity, in order.
pub fn search_fields(keys: &Vec<String>) -> (r: Vec<String>)
    ensures
        texts(r@) == searchable_fields(texts(keys@)),
{
    let ghost k = texts(keys@);
    let id = String::from_str("_id");
    let mut out: Vec<String> = Vec::new();
    let mut i: usize = 0;
    while i < keys.len()
        invariant
            0 <= i <= keys.len(),
            k == texts(keys@),
            id@ == id_key(),
            texts(out@) == searchable_fields(k.take(i as int)),
        decreases keys.len() - i,
    {
        let skip = keys[i] == id;
        proof {
            reveal(Seq::filter);
            assert(k.take(i as int + 1).drop_last() =~= k.take(i as int));
            assert(k.take(i as int + 1).last() == keys@[i as int]@);
        }
        if !skip {
            out.push(keys[i].clone());
            assert(texts(out@) =~= searchable_fields(k.take(i as int + 1)));
        }
        i = i + 1;
    }
    assert(k.take(i as int) =~= k);
    out
}

/// Filter that finds `text`, in any case, in any field of `sample` but its
/// identity; none where `sample` has no such field.
pub fn live_filter(sample: &Document, text: &str) -> (r: Option<Document>)
    ensures
        searchable_fields(keys_of(*sample)).len() == 0 ==> r is None,
        searchable_fields(keys_of(*sample)).len() > 0 ==> (r matches Some(d) && entries(d)
            == any_field_contains(searchable_fields(keys_of(*sample)), text@)),
{
    let names = field_names(sample);
    let fields = search_fields(&names);
    let ghost fs = searchable_fields(keys_of(*sample));
    if fields.len() == 0 {
        return None;
    }
    let mut clauses: Vec<Document> = Vec::new();
    let mut i: usize = 0;
    while i < fields.len()
        invariant
            0 <= i <= fields.len(),
            texts(fields@) == fs,
            clauses.len() == i,
            entries_of_each(clauses@) == conditions(fs.take(i as int), text@),
        decreases fields.len() - i,
    {
        let c = contains_text_condition(fields[i].as_str(), text);
        assert(fs[i as int] == fields@[i as int]@);
        assert(entries(c) == contains_text(fs[i as int], text@));
        let ghost before = clauses@;
        clauses.push(c);
        assert forall|j: int| 0 <= j < i + 1 implies entries_of_each(clauses@)[j] == conditions(
            fs.take(i as int + 1),
            text@,
        )[j] by {
            if j < i {
                assert(clauses@[j] == before[j]);
                assert(entries_of_each(before)[j] == conditions(fs.take(i as int), text@)[j]);
            }
        }
        assert(entries_of_each(clauses@) =~= conditions(fs.take(i as int + 1), text@));
        i = i + 1;
    }
    assert(fs.take(i as int) =~= fs);
    let mut filter = Document::new();
    put_documents(&mut filter, "$or", clauses);
    assert(entries(filter) =~= any_field_contains(fs, text@));
    Some(filter)
}

/// Reads a filter written as a JSON document; the error says why it could not.
pub fn parse_filter(text: &str) -> (r: Result<Document, String>)
    ensures
        r is Ok <==> document_read(text@) is Some,
        r matches Ok(d) ==> document_read(text@) == Some(entries(d)),
        r matches Err(m) ==> "Invalid filter: "@.is_prefix_of(m@),
{
    match read_document(text) {
        Ok(d) => Ok(d),
        Err(e) => {
            let mut msg = String::from_str("Invalid filter: ");
            msg.append(e.to_string().as_str());
            Err(msg)
        },
    }
}

} // verus!
