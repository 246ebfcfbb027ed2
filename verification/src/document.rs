//! Section-grouped key-value documents, as the `ini` crate reads and writes them.
//!
//! Nothing in this file is proved: each function states what the crate's source
//! shows of the call it makes.

use vstd::prelude::*;

verus! {

/// The crate's document: an ordered list of sections, each an ordered list of
/// key-value pairs.
#[verifier::external_type_specification]
#[verifier::external_body]
pub struct ExIni(ini::Ini);

/// What a document holds under its named sections. A section name maps to the
/// first section of that name, and in it a key maps to its first value.
pub uninterp spec fn ini_sections(doc: ini::Ini) -> Map<Seq<char>, Map<Seq<char>, Seq<char>>>;

/// What `Ini::load_from_str` makes of a text: the sections of the document it
/// returns, or nothing where it reports a syntax error.
pub uninterp spec fn parsed_ini(text: Seq<char>) -> Option<Map<Seq<char>, Map<Seq<char>, Seq<char>>>>;

/// The text that a document is written as: its sections in their order, each
/// with its pairs in their order. Nothing where it cannot be written.
pub uninterp spec fn ini_text(doc: ini::Ini) -> Option<Seq<char>>;

/// The value of `key` in `section`, if the section is there and holds the key.
pub open spec fn section_value(
    sections: Map<Seq<char>, Map<Seq<char>, Seq<char>>>,
    section: Seq<char>,
    key: Seq<char>,
) -> Option<Seq<char>> {
    if sections.contains_key(section) && sections[section].contains_key(key) {
        Some(sections[section][key])
    } else {
        None
    }
}

/// A document's sections when it has none that is named.
pub open spec fn no_sections() -> Map<Seq<char>, Map<Seq<char>, Seq<char>>> {
    Map::empty()
}

/// The sections once `key` is set to `value` in `section`: the section is
/// made if it was missing, and any earlier value of the key is replaced.
pub open spec fn sections_with(
    sections: Map<Seq<char>, Map<Seq<char>, Seq<char>>>,
    section: Seq<char>,
    key: Seq<char>,
    value: Seq<char>,
) -> Map<Seq<char>, Map<Seq<char>, Seq<char>>> {
    let before = if sections.contains_key(section) {
        sections[section]
    } else {
        Map::empty()
    };
    sections.insert(section, before.insert(key, value))
}

/// `Ini::load_from_str`. The outcome depends on the text alone, so it is the
/// named `parsed_ini` of the text; a syntax error gives `None`.
#[verifier::external_body]
pub(crate) fn parse_document(text: &str) -> (r: Option<ini::Ini>)
    ensures
        match r {
            Some(doc) => parsed_ini(text@) == Some(ini_sections(doc)),
            None => parsed_ini(text@) is None,
        },
{
    ini::Ini::load_from_str(text).ok()
}

/// `Ini::section`, asked whether it finds a section of the given name.
#[verifier::external_body]
pub(crate) fn has_section(doc: &ini::Ini, section: &str) -> (r: bool)
    ensures
        r == ini_sections(*doc).contains_key(section@),
{
    doc.section(Some(section)).is_some()
}

/// `Ini::get_from`: the first value of `key` in the first section named
/// `section`, or `None` where the section or the key is missing.
#[verifier::external_body]
pub(crate) fn lookup<'a>(doc: &'a ini::Ini, section: &str, key: &str) -> (r: Option<&'a str>)
    ensures
        match r {
            Some(value) => section_value(ini_sections(*doc), section@, key@) == Some(value@),
            None => section_value(ini_sections(*doc), section@, key@) is None,
        },
{
    doc.get_from(Some(section), key)
}

/// `Ini::new`: a document without named sections.
#[verifier::external_body]
pub(crate) fn new_document() -> (r: ini::Ini)
    ensures
        ini_sections(r) == no_sections(),
{
    ini::Ini::new()
}

/// `Ini::set_to`: sets `key` to `value` in the first section named `section`,
/// which it makes if there is none, replacing what the key held.
#[verifier::external_body]
pub(crate) fn set_value(doc: &mut ini::Ini, section: &str, key: &str, value: &str)
    ensures
        ini_sections(*final(doc)) == sections_with(ini_sections(*old(doc)), section@, key@, value@),
{
    doc.set_to(Some(section), key.to_string(), value.to_string())
}

/// `Ini::write_to_opt`, into a buffer in memory, with the crate's default
/// escaping and `=` between key and value, and with a line feed after each
/// line whatever the machine. What is written depends on the document alone,
/// so it is the named `ini_text` of the document; `None` stands for a write
/// that failed or did not give UTF-8.
#[verifier::external_body]
pub(crate) fn render(doc: &ini::Ini) -> (r: Option<String>)
    ensures
        match r {
            Some(text) => ini_text(*doc) == Some(text@),
            None => ini_text(*doc) is None,
        },
{
    let mut buffer: Vec<u8> = Vec::new();
    let style = ini::WriteOption { line_separator: ini::LineSeparator::CR, ..Default::default() };
    match doc.write_to_opt(&mut buffer, style) {
        Ok(()) => String::from_utf8(buffer).ok(),
        Err(_) => None,
    }
}

} // verus!
