//! The saved start-up URL: one JSON document with one recognised member.
//!
//! The shell reads and writes the file; what the file's text means, and what
//! is to be written, is decided here.
use vstd::prelude::*;
use vstd::string::*;
use crate::error::ErrorKind;
use crate::json::{
    error_text, json_member, json_object, json_parsed, json_pretty, json_text, member, object_of,
    parse, pretty, text_of,
};

verus! {

/// The name of the configuration file, below the platform's configuration
/// directory.
pub open spec fn config_file_name_text() -> Seq<char> {
    "url_config.json"@
}

/// The member of the document that holds the URL.
pub open spec fn url_key_text() -> Seq<char> {
    "startup_url"@
}

/// The URL that is loaded where none is saved, and that seeds a new
/// configuration file.
pub open spec fn default_url_text() -> Seq<char> {
    "http://127.0.0.1:1420"@
}

/// A text, or none, as its characters.
pub open spec fn text_view(text: Option<String>) -> Option<Seq<char>> {
    match text {
        Some(held) => Some(held@),
        None => None,
    }
}

/// A string slice, or none, as its characters.
pub open spec fn slice_view(text: Option<&str>) -> Option<Seq<char>> {
    match text {
        Some(held) => Some(held@),
        None => None,
    }
}

/// The URL that a document holds: the text of its member `startup_url`.
/// Other members are of no account; a document that is no object, has no
/// such member or holds something else than a string there, holds none.
pub open spec fn saved_url_in(doc: serde_json::Value) -> Option<Seq<char>> {
    match json_member(doc, url_key_text()) {
        Some(held) => json_text(held),
        None => None,
    }
}

/// The document has no member but the one under `key`.
pub open spec fn sole_member(doc: serde_json::Value, key: Seq<char>) -> bool {
    forall|other: Seq<char>| other != key ==> json_member(doc, other) is None
}

/// The URL that the text of a configuration file holds. A text that is no
/// JSON holds none.
pub open spec fn saved_url_of_text(text: Seq<char>) -> Option<Seq<char>> {
    match json_parsed(text) {
        Some(doc) => saved_url_in(doc),
        None => None,
    }
}

/// What reading the configuration gives: what the file's text holds, and
/// nothing where no text could be had.
pub open spec fn saved_url_read(contents: Option<Seq<char>>) -> Option<Seq<char>> {
    match contents {
        Some(text) => saved_url_of_text(text),
        None => None,
    }
}

/// The bytes that saving `url` writes: the document that holds `url` alone,
/// as indented JSON. `None` where the serializer fails on it.
pub open spec fn config_bytes(url: Seq<char>) -> Option<Seq<u8>> {
    json_pretty(json_object(url_key_text(), url))
}

/// `made` is the result of saving a document whose bytes are `wanted`: those
/// bytes, or an `IoError` where there are none.
pub open spec fn saves(made: Result<Vec<u8>, ErrorKind>, wanted: Option<Seq<u8>>) -> bool {
    match wanted {
        Some(bytes) => made is Ok && made->Ok_0@ == bytes,
        None => made is Err && made->Err_0 is IoError,
    }
}

/// The name of the configuration file.
pub fn config_file_name() -> (r: &'static str)
    ensures
        r@ == config_file_name_text(),
{
    "url_config.json"
}

/// The URL that stands in for a saved one.
pub fn default_url() -> (r: &'static str)
    ensures
        r@ == default_url_text(),
{
    "http://127.0.0.1:1420"
}

/// The URL that a parsed configuration document holds.
pub fn saved_url_from(doc: &serde_json::Value) -> (r: Option<String>)
    ensures
        text_view(r) == saved_url_in(*doc),
{
    match member(doc, "startup_url") {
        Some(held) => match text_of(held) {
            Some(text) => Some(String::from_str(text)),
            None => None,
        },
        None => None,
    }
}

/// The URL that the text of a configuration file holds.
pub fn parse_saved_url(text: &str) -> (r: Option<String>)
    ensures
        text_view(r) == saved_url_of_text(text@),
{
    match parse(text) {
        Ok(doc) => saved_url_from(&doc),
        Err(_) => None,
    }
}

/// Reads the saved URL from what the shell found on disk: `contents` is the
/// file's text, or `None` where the configuration directory is unknown or
/// the file is missing or unreadable. Every failure is "nothing saved".
pub fn read_saved_url(contents: Option<&str>) -> (r: Option<String>)
    ensures
        text_view(r) == saved_url_read(slice_view(contents)),
{
    match contents {
        Some(text) => parse_saved_url(text),
        None => None,
    }
}

/// The document that holds `url` and nothing else: it has the one member
/// `startup_url`. Read back, it gives `url`.
pub fn config_value(url: &str) -> (doc: serde_json::Value)
    ensures
        doc == json_object(url_key_text(), url@),
        saved_url_in(doc) == Some(url@),
        sole_member(doc, url_key_text()),
{
    object_of("startup_url", url)
}

/// Turns what the serializer made of a document into the bytes to write, or
/// into the failure to report: an `IoError` with the serializer's words.
pub fn written_bytes(made: Result<Vec<u8>, serde_json::Error>) -> (r: Result<Vec<u8>, ErrorKind>)
    ensures
        saves(
            r,
            match made {
                Ok(bytes) => Some(bytes@),
                Err(_) => None,
            },
        ),
{
    match made {
        Ok(bytes) => Ok(bytes),
        Err(error) => Err(ErrorKind::IoError(error_text(&error))),
    }
}

/// The bytes of the configuration file that holds `url`: the one-member
/// document as indented JSON.
pub fn config_document(url: &str) -> (r: Result<Vec<u8>, ErrorKind>)
    ensures
        saves(r, config_bytes(url@)),
{
    let doc = config_value(url);
    written_bytes(pretty(&doc))
}

/// Saves `url`: gives the bytes that replace the configuration file, or
/// `ConfigDirUnavailable` where the platform named no directory to keep it
/// in.
pub fn write_saved_url(config_dir_known: bool, url: &str) -> (r: Result<Vec<u8>, ErrorKind>)
    ensures
        !config_dir_known ==> r == Err::<Vec<u8>, ErrorKind>(ErrorKind::ConfigDirUnavailable),
        config_dir_known ==> saves(r, config_bytes(url@)),
{
    if !config_dir_known {
        return Err(ErrorKind::ConfigDirUnavailable);
    }
    config_document(url)
}

/// The URL to load at start-up: the saved one, or the default.
pub fn startup_url(saved: Option<String>) -> (r: String)
    ensures
        r@ == match saved {
            Some(url) => url@,
            None => default_url_text(),
        },
{
    match saved {
        Some(url) => url,
        None => String::from_str("http://127.0.0.1:1420"),
    }
}

} // verus!
