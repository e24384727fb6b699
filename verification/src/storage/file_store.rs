//! What is stored for an inquiry and what is read back for export.
//!
//! Each inquiry is one JSON document in a file named by its identifier. The
//! functions here decide the name and the text of that file, which files of
//! the storage directory hold inquiries and in which order, and what the
//! documents read from them are. Reading and writing the files is left to the
//! caller.

use crate::json::{
    compact_json, docs_of, json_parse, parse_json, pretty_json, write_compact, write_pretty,
    JsonDoc, JsonValue,
};
use crate::models::contact::{text_of, ContactInquiry, InquiryModel};
use crate::text::{
    chars_le, ends_with, from_chars, join_lines, joined_lines, lemma_text_le_total,
    lemma_text_le_transitive, text_eq, text_le, texts_of, to_chars,
};
use vstd::prelude::*;
use vstd::string::StringExecFns;

verus! {

/// `std::io::Error`, why the file system refused. It is carried through as
/// it is.
#[verifier::external_type_specification]
#[verifier::external_body]
pub struct ExIoError(std::io::Error);

/// The directory that holds the inquiries.
pub const CONTACTS_DIR: &'static str = "data/contacts";

/// The ending of the name of a file that holds an inquiry.
pub const JSON_SUFFIX: &'static str = ".json";

pub const KEY_ID: &'static str = "id";

pub const KEY_SUBMITTED_AT: &'static str = "submitted_at";

pub const KEY_NAME: &'static str = "name";

pub const KEY_EMAIL: &'static str = "email";

pub const KEY_PHONE: &'static str = "phone";

pub const KEY_SUBJECT: &'static str = "subject";

pub const KEY_MESSAGE: &'static str = "message";

pub const KEY_USER_AGENT: &'static str = "user_agent";

pub const KEY_IP_ADDRESS: &'static str = "ip_address";

/// Why an inquiry was not stored, or the stored inquiries not read.
#[derive(Debug)]
pub enum FileStoreError {
    /// The file system refused.
    Io(std::io::Error),
    /// A document could not be written as JSON or read as JSON.
    Json(serde_json::Error),
    /// The time of the inquiry has no RFC 3339 form.
    TimestampFormat,
}

/// A file to be written: where, and with which text.
#[derive(Debug)]
pub struct InquiryFile {
    pub path: String,
    pub contents: String,
}

/// The document for an optional text: the text, or `null`.
pub open spec fn optional_text_doc(value: Option<Seq<char>>) -> JsonDoc {
    match value {
        Some(text) => JsonDoc::Text(text),
        None => JsonDoc::Null,
    }
}

/// The document that stores an inquiry: an object with one member for each
/// field, the time in its RFC 3339 form.
pub open spec fn inquiry_document(inquiry: InquiryModel) -> JsonDoc {
    JsonDoc::Object(
        seq![
            (KEY_ID@, JsonDoc::Text(inquiry.id)),
            (KEY_SUBMITTED_AT@, JsonDoc::Text(inquiry.submitted_at.rfc3339())),
            (KEY_NAME@, JsonDoc::Text(inquiry.name)),
            (KEY_EMAIL@, optional_text_doc(inquiry.email)),
            (KEY_PHONE@, JsonDoc::Text(inquiry.phone)),
            (KEY_SUBJECT@, optional_text_doc(inquiry.subject)),
            (KEY_MESSAGE@, JsonDoc::Text(inquiry.message)),
            (KEY_USER_AGENT@, optional_text_doc(inquiry.user_agent)),
            (KEY_IP_ADDRESS@, optional_text_doc(inquiry.ip_address)),
        ],
    )
}

/// The path of the file `name` in the directory `dir`: the two with one `/`
/// between them, and `name` alone where `dir` is empty.
pub open spec fn path_in(dir: Seq<char>, name: Seq<char>) -> Seq<char> {
    if dir.len() == 0 {
        name
    } else if dir.last() == '/' {
        dir + name
    } else {
        dir + seq!['/'] + name
    }
}

/// The path of the file that stores the inquiry with the identifier `id`
/// in the directory `dir`.
pub open spec fn file_path_for(dir: Seq<char>, id: Seq<char>) -> Seq<char> {
    path_in(dir, id + JSON_SUFFIX@)
}

fn text_member(key: &str, text: &String) -> (member: (String, JsonValue))
    ensures
        member.0@ == key@,
        member.1@ == JsonDoc::Text(text@),
{
    (String::from_str(key), JsonValue::Text(text.clone()))
}

fn optional_member(key: &str, text: &Option<String>) -> (member: (String, JsonValue))
    ensures
        member.0@ == key@,
        member.1@ == optional_text_doc(text_of(*text)),
{
    match text {
        Some(t) => (String::from_str(key), JsonValue::Text(t.clone())),
        None => (String::from_str(key), JsonValue::Null),
    }
}

/// The document that stores `inquiry`, where its time has an RFC 3339 form.
pub fn to_document(inquiry: &ContactInquiry) -> (made: Result<JsonValue, FileStoreError>)
    ensures
        match made {
            Ok(document) => inquiry.submitted_at.has_rfc3339() && document@ == inquiry_document(
                inquiry@,
            ),
            Err(error) => !inquiry.submitted_at.has_rfc3339() && error is TimestampFormat,
        },
{
    let submitted_at = match inquiry.submitted_at.to_rfc3339() {
        Some(text) => text,
        None => {
            return Err(FileStoreError::TimestampFormat);
        },
    };
    let mut members: Vec<(String, JsonValue)> = Vec::new();
    members.push(text_member(KEY_ID, &inquiry.id));
    members.push(text_member(KEY_SUBMITTED_AT, &submitted_at));
    members.push(text_member(KEY_NAME, &inquiry.name));
    members.push(optional_member(KEY_EMAIL, &inquiry.email));
    members.push(text_member(KEY_PHONE, &inquiry.phone));
    members.push(optional_member(KEY_SUBJECT, &inquiry.subject));
    members.push(text_member(KEY_MESSAGE, &inquiry.message));
    members.push(optional_member(KEY_USER_AGENT, &inquiry.user_agent));
    members.push(optional_member(KEY_IP_ADDRESS, &inquiry.ip_address));
    let document = JsonValue::Object(members);
    proof {
        assert(document@->Object_0 =~= inquiry_document(inquiry@)->Object_0);
    }
    Ok(document)
}

/// The file that stores `inquiry` in the directory `base_dir`: named by the
/// identifier of the inquiry, with the inquiry as indented JSON. For an
/// inquiry whose identifier is derived from its time, as every accepted one
/// is, that is the name that the time gives.
pub fn save_contact_inquiry_to(inquiry: &ContactInquiry, base_dir: &str) -> (file: Result<
    InquiryFile,
    FileStoreError,
>)
    ensures
        match file {
            Ok(f) => {
                &&& inquiry.submitted_at.has_rfc3339()
                &&& f.path@ == file_path_for(base_dir@, inquiry@.id)
                &&& inquiry@.id_is_derived() ==> f.path@ == file_path_for(
                    base_dir@,
                    inquiry.submitted_at.id_text(),
                )
                &&& pretty_json(inquiry_document(inquiry@)) == Some(f.contents@)
            },
            Err(FileStoreError::TimestampFormat) => !inquiry.submitted_at.has_rfc3339(),
            Err(FileStoreError::Json(_)) => inquiry.submitted_at.has_rfc3339() && pretty_json(
                inquiry_document(inquiry@),
            ) is None,
            Err(FileStoreError::Io(_)) => false,
        },
{
    let document = match to_document(inquiry) {
        Ok(document) => document,
        Err(error) => {
            return Err(error);
        },
    };
    let contents = match write_pretty(&document) {
        Ok(text) => text,
        Err(error) => {
            return Err(FileStoreError::Json(error));
        },
    };
    let dir = to_chars(base_dir);
    let mut path = String::from_str(base_dir);
    if dir.len() > 0 && dir[dir.len() - 1] != '/' {
        path.push('/');
    }
    path.append(inquiry.id.as_str());
    path.append(JSON_SUFFIX);
    assert(path@ =~= file_path_for(base_dir@, inquiry@.id));
    Ok(InquiryFile { path, contents })
}

/// The file that stores `inquiry` in the directory of the inquiries.
pub fn save_contact_inquiry(inquiry: &ContactInquiry) -> (file: Result<InquiryFile, FileStoreError>)
    ensures
        match file {
            Ok(f) => {
                &&& inquiry.submitted_at.has_rfc3339()
                &&& f.path@ == file_path_for(CONTACTS_DIR@, inquiry@.id)
                &&& inquiry@.id_is_derived() ==> f.path@ == file_path_for(
                    CONTACTS_DIR@,
                    inquiry.submitted_at.id_text(),
                )
                &&& pretty_json(inquiry_document(inquiry@)) == Some(f.contents@)
            },
            Err(FileStoreError::TimestampFormat) => !inquiry.submitted_at.has_rfc3339(),
            Err(FileStoreError::Json(_)) => inquiry.submitted_at.has_rfc3339() && pretty_json(
                inquiry_document(inquiry@),
            ) is None,
            Err(FileStoreError::Io(_)) => false,
        },
{
    save_contact_inquiry_to(inquiry, CONTACTS_DIR)
}

/// A time text without the expanded-year prefix `+00`, however often it is
/// repeated at the start.
pub open spec fn strip_expanded_year(s: Seq<char>) -> Seq<char>
    decreases s.len(),
{
    if has_expanded_year(s) {
        strip_expanded_year(s.skip(3))
    } else {
        s
    }
}

/// Whether a time text begins with the expanded-year prefix `+00`.
pub open spec fn has_expanded_year(s: Seq<char>) -> bool {
    s.len() >= 3 && s[0] == '+' && s[1] == '0' && s[2] == '0'
}

/// A member of a stored document as it is handed out: the text of a member
/// `submitted_at` without the expanded-year prefix, any other member as it is.
pub open spec fn normalized_member(member: (Seq<char>, JsonDoc)) -> (Seq<char>, JsonDoc) {
    if member.0 == KEY_SUBMITTED_AT@ {
        match member.1 {
            JsonDoc::Text(text) => (member.0, JsonDoc::Text(strip_expanded_year(text))),
            _ => member,
        }
    } else {
        member
    }
}

/// A stored document as it is handed out: an object with each member
/// normalized, any other document as it is.
pub open spec fn normalized_document(document: JsonDoc) -> JsonDoc {
    match document {
        JsonDoc::Object(members) => JsonDoc::Object(
            members.map_values(|m: (Seq<char>, JsonDoc)| normalized_member(m)),
        ),
        _ => document,
    }
}

/// Whether a member shows a time with the expanded-year prefix: it is named
/// `submitted_at` and its text begins with `+00`.
pub open spec fn member_shows_expanded_year(member: (Seq<char>, JsonDoc)) -> bool {
    member.0 == KEY_SUBMITTED_AT@ && match member.1 {
        JsonDoc::Text(text) => has_expanded_year(text),
        _ => false,
    }
}

/// Whether a document shows a time with the expanded-year prefix: it is an
/// object and one of its members does.
pub open spec fn shows_expanded_year(document: JsonDoc) -> bool {
    match document {
        JsonDoc::Object(members) => exists|k: int|
            0 <= k < members.len() && member_shows_expanded_year(#[trigger] members[k]),
        _ => false,
    }
}

/// What is left of a text after stripping has no prefix left to strip.
pub proof fn lemma_strip_expanded_year_done(s: Seq<char>)
    ensures
        !has_expanded_year(strip_expanded_year(s)),
        strip_expanded_year(strip_expanded_year(s)) == strip_expanded_year(s),
    decreases s.len(),
{
    if has_expanded_year(s) {
        lemma_strip_expanded_year_done(s.skip(3));
    }
}

/// A normalized document never shows the expanded-year prefix, and
/// normalizing it again changes nothing.
pub proof fn lemma_normalized_document_is_clean(document: JsonDoc)
    ensures
        !shows_expanded_year(normalized_document(document)),
        normalized_document(normalized_document(document)) == normalized_document(document),
{
    match document {
        JsonDoc::Object(members) => {
            let once = members.map_values(|m: (Seq<char>, JsonDoc)| normalized_member(m));
            let twice = once.map_values(|m: (Seq<char>, JsonDoc)| normalized_member(m));
            assert forall|k: int| 0 <= k < once.len() implies normalized_member(#[trigger] once[k])
                == once[k] && !member_shows_expanded_year(once[k]) by {
                if let JsonDoc::Text(text) = members[k].1 {
                    lemma_strip_expanded_year_done(text);
                }
            }
            assert(twice =~= once);
        },
        _ => {},
    }
}

/// `text` without the expanded-year prefix.
fn strip_expanded_year_prefix(text: &str) -> (stripped: String)
    ensures
        stripped@ == strip_expanded_year(text@),
{
    let chars = to_chars(text);
    let n: usize = chars.len();
    let mut k: usize = 0;
    assert(chars@.skip(0) =~= chars@);
    while n - k >= 3 && chars[k] == '+' && chars[k + 1] == '0' && chars[k + 2] == '0'
        invariant
            n == chars.len(),
            k <= n,
            strip_expanded_year(chars@) == strip_expanded_year(chars@.skip(k as int)),
        decreases n - k,
    {
        proof {
            let rest = chars@.skip(k as int);
            assert(rest.len() == n - k);
            assert(rest[0] == chars@[k as int] && rest[1] == chars@[k + 1] && rest[2] == chars@[k
                + 2]);
            assert(has_expanded_year(rest));
            assert(strip_expanded_year(rest) == strip_expanded_year(rest.skip(3)));
            assert(rest.skip(3) =~= chars@.skip(k + 3));
        }
        k += 3;
    }
    proof {
        let rest = chars@.skip(k as int);
        assert(rest.len() == n - k);
        if rest.len() >= 3 {
            assert(rest[0] == chars@[k as int] && rest[1] == chars@[k + 1] && rest[2] == chars@[k
                + 2]);
        }
        assert(!has_expanded_year(rest));
        assert(strip_expanded_year(rest) == rest);
        assert(rest =~= chars@.subrange(k as int, n as int));
    }
    from_chars(&chars, k, n)
}

fn normalize_members(members: Vec<(String, JsonValue)>) -> (normalized: Vec<(String, JsonValue)>)
    ensures
        JsonValue::Object(normalized)@ == normalized_document(JsonValue::Object(members)@),
{
    let ghost original = members;
    let ghost before = members@;
    let mut members = members;
    let mut i: usize = 0;
    while i < members.len()
        invariant
            i <= members.len(),
            members@.len() == before.len(),
            forall|k: int|
                0 <= k < i ==> ((#[trigger] members@[k]).0@, members@[k].1@) == normalized_member(
                    (before[k].0@, before[k].1@),
                ),
            forall|k: int| i <= k < members.len() ==> #[trigger] members@[k] == before[k],
        decreases members.len() - i,
    {
        let stripped: Option<String> = match &members[i] {
            (key, JsonValue::Text(text)) => {
                if text_eq(key.as_str(), KEY_SUBMITTED_AT) {
                    Some(strip_expanded_year_prefix(text.as_str()))
                } else {
                    None
                }
            },
            _ => None,
        };
        match stripped {
            Some(text) => {
                let key = members[i].0.clone();
                members.set(i, (key, JsonValue::Text(text)));
            },
            None => {},
        }
        i += 1;
    }
    proof {
        assert(JsonValue::Object(members)@->Object_0 =~= normalized_document(
            JsonValue::Object(original)@,
        )->Object_0);
    }
    members
}

/// Rewrites the time of a stored document to the four-digit-year form: in an
/// object, the text of each member `submitted_at` loses the prefix `+00`.
pub fn normalize_submitted_at(value: &mut JsonValue)
    ensures
        final(value)@ == normalized_document(old(value)@),
{
    let mut taken = JsonValue::Null;
    core::mem::swap(value, &mut taken);
    match taken {
        JsonValue::Object(members) => {
            *value = JsonValue::Object(normalize_members(members));
        },
        other => {
            *value = other;
        },
    }
}

/// Whether a file of this name holds an inquiry.
pub open spec fn is_contact_file(name: Seq<char>) -> bool {
    JSON_SUFFIX@.is_suffix_of(name)
}

/// The names among `names` of files that hold an inquiry, in the order of `names`.
pub open spec fn contact_files(names: Seq<Seq<char>>) -> Seq<Seq<char>>
    decreases names.len(),
{
    if names.len() == 0 {
        names
    } else if is_contact_file(names.last()) {
        contact_files(names.drop_last()).push(names.last())
    } else {
        contact_files(names.drop_last())
    }
}

/// Each name comes no later in the order of names than the ones after it.
pub open spec fn sorted_by_name(names: Seq<Seq<char>>) -> bool {
    forall|i: int, j: int| 0 <= i < j < names.len() ==> text_le(names[i], names[j])
}

proof fn lemma_no_names_no_multiset()
    ensures
        Seq::<Seq<char>>::empty().to_multiset() == vstd::multiset::Multiset::<Seq<char>>::empty(),
{
    let none = Seq::<Seq<char>>::empty();
    assert forall|name: Seq<char>| none.to_multiset().count(name) == 0 by {
        vstd::seq_lib::to_multiset_contains(none, name);
    }
    assert(none.to_multiset() =~= vstd::multiset::Multiset::<Seq<char>>::empty());
}

/// The files of the storage directory that hold inquiries, by name: those
/// among `names` that end in `.json`, each as often as it is listed, sorted.
pub fn select_contact_files(names: Vec<String>) -> (selected: Vec<String>)
    ensures
        sorted_by_name(texts_of(selected@)),
        texts_of(selected@).to_multiset() == contact_files(texts_of(names@)).to_multiset(),
{
    let suffix = to_chars(JSON_SUFFIX);
    let ghost all = texts_of(names@);
    let mut names = names;
    let mut selected: Vec<String> = Vec::new();
    proof {
        lemma_no_names_no_multiset();
        assert(texts_of(selected@) =~= Seq::<Seq<char>>::empty());
        assert(texts_of(selected@).to_multiset().add(
            contact_files(texts_of(names@)).to_multiset(),
        ) =~= contact_files(all).to_multiset());
    }
    while names.len() > 0
        invariant
            suffix@ == JSON_SUFFIX@,
            sorted_by_name(texts_of(selected@)),
            texts_of(selected@).to_multiset().add(contact_files(texts_of(names@)).to_multiset())
                == contact_files(all).to_multiset(),
        decreases names.len(),
    {
        let ghost rest = texts_of(names@);
        let name = names.pop().unwrap();
        assert(texts_of(names@) =~= rest.drop_last());
        assert(name@ == rest.last());
        let chars = to_chars(name.as_str());
        if ends_with(&chars, &suffix) {
            let mut at: usize = 0;
            let mut found = false;
            while at < selected.len() && !found
                invariant
                    at <= selected.len(),
                    chars@ == name@,
                    forall|k: int| 0 <= k < at ==> text_le(#[trigger] texts_of(selected@)[k], name@),
                    found ==> at < selected.len() && !text_le(
                        texts_of(selected@)[at as int],
                        name@,
                    ),
                decreases selected.len() - at, (if found { 0int } else { 1int }),
            {
                let other = to_chars(selected[at].as_str());
                if chars_le(&other, &chars) {
                    at += 1;
                } else {
                    found = true;
                }
            }
            let ghost sorted = texts_of(selected@);
            proof {
                assert forall|k: int| at <= k < sorted.len() implies text_le(
                    name@,
                    #[trigger] sorted[k],
                ) by {
                    assert(found);
                    lemma_text_le_total(sorted[at as int], name@);
                    if k > at {
                        lemma_text_le_transitive(name@, sorted[at as int], sorted[k]);
                    }
                }
            }
            selected.insert(at, name);
            proof {
                assert(texts_of(selected@) =~= sorted.insert(at as int, name@));
                assert(contact_files(rest) == contact_files(rest.drop_last()).push(name@));
                vstd::seq_lib::to_multiset_insert(sorted, at as int, name@);
                vstd::seq_lib::to_multiset_build(contact_files(rest.drop_last()), name@);
                assert(texts_of(selected@).to_multiset().add(
                    contact_files(texts_of(names@)).to_multiset(),
                ) =~= sorted.to_multiset().add(contact_files(rest).to_multiset()));
            }
        } else {
            assert(contact_files(rest) == contact_files(rest.drop_last()));
        }
    }
    proof {
        lemma_no_names_no_multiset();
        assert(texts_of(names@) =~= Seq::<Seq<char>>::empty());
        assert(texts_of(selected@).to_multiset() =~= texts_of(selected@).to_multiset().add(
            contact_files(texts_of(names@)).to_multiset(),
        ));
    }
    selected
}

/// The document that a stored text holds, as it is handed out; `None` where
/// the text is no JSON document.
pub open spec fn stored_document(text: Seq<char>) -> Option<JsonDoc> {
    match json_parse(text) {
        Some(document) => Some(normalized_document(document)),
        None => None,
    }
}

/// Whether every one of the stored texts holds a JSON document.
pub open spec fn all_readable(contents: Seq<Seq<char>>) -> bool {
    forall|k: int| 0 <= k < contents.len() ==> json_parse(#[trigger] contents[k]) is Some
}

/// The documents that the stored texts hold, in order.
pub open spec fn stored_documents(contents: Seq<Seq<char>>) -> Seq<JsonDoc> {
    Seq::new(contents.len(), |k: int| stored_document(contents[k]).unwrap())
}

/// The documents held by the texts of the stored files, in the order of the
/// texts; none at all where one of the texts is no JSON document.
pub fn read_contacts_as_values(contents: &Vec<String>) -> (read: Result<
    Vec<JsonValue>,
    FileStoreError,
>)
    ensures
        match read {
            Ok(values) => all_readable(texts_of(contents@)) && docs_of(values@) == stored_documents(
                texts_of(contents@),
            ),
            Err(error) => !all_readable(texts_of(contents@)) && error is Json,
        },
{
    let mut values: Vec<JsonValue> = Vec::new();
    let mut i: usize = 0;
    while i < contents.len()
        invariant
            i <= contents.len(),
            values@.len() == i,
            forall|k: int| 0 <= k < i ==> json_parse(#[trigger] texts_of(contents@)[k]) is Some,
            forall|k: int|
                0 <= k < i ==> stored_document(texts_of(contents@)[k]) == Some(
                    (#[trigger] values@[k])@,
                ),
        decreases contents.len() - i,
    {
        let mut value = match parse_json(contents[i].as_str()) {
            Ok(value) => value,
            Err(error) => {
                assert(json_parse(texts_of(contents@)[i as int]) is None);
                return Err(FileStoreError::Json(error));
            },
        };
        normalize_submitted_at(&mut value);
        values.push(value);
        i += 1;
    }
    assert(docs_of(values@) =~= stored_documents(texts_of(contents@)));
    Ok(values)
}

/// Whether every one of the documents can be written on one line.
pub open spec fn all_writable(documents: Seq<JsonDoc>) -> bool {
    forall|k: int| 0 <= k < documents.len() ==> compact_json(#[trigger] documents[k]) is Some
}

/// The documents, each written on one line.
pub open spec fn compact_lines(documents: Seq<JsonDoc>) -> Seq<Seq<char>> {
    Seq::new(documents.len(), |k: int| compact_json(documents[k]).unwrap())
}

/// The documents as newline-delimited JSON: each on one line, in order, with
/// a line feed between two and none at the end.
pub fn export_contacts_ndjson(values: &Vec<JsonValue>) -> (body: Result<String, FileStoreError>)
    ensures
        match body {
            Ok(text) => all_writable(docs_of(values@)) && text@ == joined_lines(
                compact_lines(docs_of(values@)),
            ),
            Err(error) => !all_writable(docs_of(values@)) && error is Json,
        },
{
    let mut lines: Vec<String> = Vec::new();
    let mut i: usize = 0;
    while i < values.len()
        invariant
            i <= values.len(),
            lines@.len() == i,
            forall|k: int| 0 <= k < i ==> compact_json(#[trigger] docs_of(values@)[k]) == Some(
                lines@[k]@,
            ),
        decreases values.len() - i,
    {
        match write_compact(&values[i]) {
            Ok(line) => {
                lines.push(line);
            },
            Err(error) => {
                assert(compact_json(docs_of(values@)[i as int]) is None);
                return Err(FileStoreError::Json(error));
            },
        }
        i += 1;
    }
    assert(texts_of(lines@) =~= compact_lines(docs_of(values@)));
    Ok(join_lines(&lines))
}

/// The documents as one indented JSON array, in order.
pub fn export_contacts_json_array_pretty(values: Vec<JsonValue>) -> (body: Result<
    String,
    FileStoreError,
>)
    ensures
        match body {
            Ok(text) => pretty_json(JsonDoc::Array(docs_of(values@))) == Some(text@),
            Err(error) => pretty_json(JsonDoc::Array(docs_of(values@))) is None && error is Json,
        },
{
    let array = JsonValue::Array(values);
    proof {
        assert(array@->Array_0 =~= docs_of(values@));
    }
    match write_pretty(&array) {
        Ok(text) => Ok(text),
        Err(error) => Err(FileStoreError::Json(error)),
    }
}

/// The two forms in which the stored inquiries are exported.
#[derive(Clone, Copy, Debug, PartialEq, Eq, Structural)]
pub enum ExportFormat {
    /// One document to a line.
    Ndjson,
    /// One indented array of all documents.
    JsonArrayPretty,
}

/// The stored inquiries as newline-delimited JSON, where every stored text
/// holds a document and every document can be written.
pub open spec fn ndjson_export(contents: Seq<Seq<char>>) -> Option<Seq<char>> {
    if all_readable(contents) && all_writable(stored_documents(contents)) {
        Some(joined_lines(compact_lines(stored_documents(contents))))
    } else {
        None
    }
}

/// The stored inquiries as one indented JSON array, where every stored text
/// holds a document and the array can be written.
pub open spec fn json_export(contents: Seq<Seq<char>>) -> Option<Seq<char>> {
    if all_readable(contents) {
        pretty_json(JsonDoc::Array(stored_documents(contents)))
    } else {
        None
    }
}

/// The stored inquiries in the given form.
pub open spec fn export_text(contents: Seq<Seq<char>>, format: ExportFormat) -> Option<Seq<char>> {
    match format {
        ExportFormat::Ndjson => ndjson_export(contents),
        ExportFormat::JsonArrayPretty => json_export(contents),
    }
}

/// The stored inquiries in the given form. `contents` are the texts of the
/// stored files, in the order of their names.
pub fn export(contents: &Vec<String>, format: ExportFormat) -> (body: Result<
    String,
    FileStoreError,
>)
    ensures
        match body {
            Ok(text) => export_text(texts_of(contents@), format) == Some(text@),
            Err(error) => export_text(texts_of(contents@), format) is None && error is Json,
        },
{
    let values = match read_contacts_as_values(contents) {
        Ok(values) => values,
        Err(error) => {
            return Err(error);
        },
    };
    match format {
        ExportFormat::Ndjson => export_contacts_ndjson(&values),
        ExportFormat::JsonArrayPretty => export_contacts_json_array_pretty(values),
    }
}

/// Both forms of export are made of the same records, in the same order: the
/// documents read from the stored texts, each normalized, so that none shows
/// the expanded-year prefix. The forms differ in how the records are framed:
/// each on a line of its own, or all in one array.
pub proof fn lemma_exports_frame_the_same_records(contents: Seq<Seq<char>>)
    requires
        all_readable(contents),
    ensures
        stored_documents(contents).len() == contents.len(),
        forall|k: int|
            0 <= k < contents.len() ==> !shows_expanded_year(
                #[trigger] stored_documents(contents)[k],
            ),
        ndjson_export(contents) is Some ==> ndjson_export(contents) == Some(
            joined_lines(compact_lines(stored_documents(contents))),
        ),
        json_export(contents) == pretty_json(JsonDoc::Array(stored_documents(contents))),
{
    assert forall|k: int| 0 <= k < contents.len() implies !shows_expanded_year(
        #[trigger] stored_documents(contents)[k],
    ) by {
        lemma_normalized_document_is_clean(json_parse(contents[k]).unwrap());
    }
}

impl FileStoreError {
    /// The failure in words, with the cause as the file system or
    /// `serde_json` words it.
    pub fn to_string(&self) -> (text: String)
        ensures
            match *self {
                FileStoreError::Io(_) => "IO error: "@.is_prefix_of(text@),
                FileStoreError::Json(_) => "JSON error: "@.is_prefix_of(text@),
                FileStoreError::TimestampFormat => text@ == "Failed to format timestamp"@,
            },
    {
        match self {
            FileStoreError::Io(cause) => {
                let mut text = String::from_str("IO error: ");
                let detail = cause.to_string();
                text.append(detail.as_str());
                assert(text@.subrange(0, "IO error: "@.len() as int) =~= "IO error: "@);
                text
            },
            FileStoreError::Json(cause) => {
                let mut text = String::from_str("JSON error: ");
                let detail = cause.to_string();
                text.append(detail.as_str());
                assert(text@.subrange(0, "JSON error: "@.len() as int) =~= "JSON error: "@);
                text
            },
            FileStoreError::TimestampFormat => String::from_str("Failed to format timestamp"),
        }
    }
}

} // verus!
