use vstd::prelude::*;
use crate::xml::xml_declaration;

verus! {

/// The core document properties: the creation and modification dates, each
/// kept as the caller gave it.
pub struct DocProps {
    pub created: Option<String>,
    pub modified: Option<String>,
}

/// The date written when none was set.
pub open spec fn default_date() -> Seq<char> {
    "1970-01-01T00:00:00Z"@
}

pub open spec fn date_or_default(d: Option<String>) -> Seq<char> {
    match d {
        Some(s) => s@,
        None => default_date(),
    }
}

pub open spec fn core_props_head() -> Seq<char> {
    xml_declaration()
        + "<cp:coreProperties xmlns:cp=\"http://schemas.openxmlformats.org/package/2006/metadata/core-properties\" xmlns:dc=\"http://purl.org/dc/elements/1.1/\" xmlns:dcterms=\"http://purl.org/dc/terms/\" xmlns:xsi=\"http://www.w3.org/2001/XMLSchema-instance\"><dcterms:created xsi:type=\"dcterms:W3CDTF\">"@
}

pub open spec fn core_props_middle() -> Seq<char> {
    "</dcterms:created><dcterms:modified xsi:type=\"dcterms:W3CDTF\">"@
}

pub open spec fn core_props_tail() -> Seq<char> {
    "</dcterms:modified></cp:coreProperties>"@
}

/// The core properties part for the given creation and modification dates.
pub open spec fn core_props_xml(created: Seq<char>, modified: Seq<char>) -> Seq<char> {
    core_props_head() + created + core_props_middle() + modified + core_props_tail()
}

fn push_date(d: &Option<String>, out: &mut String)
    ensures
        final(out)@ == old(out)@ + date_or_default(*d),
{
    match d {
        Some(s) => out.append(s.as_str()),
        None => out.append("1970-01-01T00:00:00Z"),
    }
}

impl DocProps {
    pub fn new() -> (r: DocProps)
        ensures
            r.created is None,
            r.modified is None,
    {
        DocProps { created: None, modified: None }
    }

    /// Sets the creation date, kept verbatim.
    pub fn created_at(self, date: &str) -> (r: DocProps)
        ensures
            r.created is Some,
            date_or_default(r.created) == date@,
            r.modified == self.modified,
    {
        DocProps { created: Some(String::from_str(date)), modified: self.modified }
    }

    /// Sets the modification date, kept verbatim.
    pub fn updated_at(self, date: &str) -> (r: DocProps)
        ensures
            r.modified is Some,
            date_or_default(r.modified) == date@,
            r.created == self.created,
    {
        DocProps { created: self.created, modified: Some(String::from_str(date)) }
    }

    /// The core properties part's markup.
    pub fn build(&self) -> (r: String)
        ensures
            r@ == core_props_xml(date_or_default(self.created), date_or_default(self.modified)),
    {
        let mut out = String::new();
        out.append("<?xml version=\"1.0\" encoding=\"UTF-8\" standalone=\"yes\"?>");
        out.append("<cp:coreProperties xmlns:cp=\"http://schemas.openxmlformats.org/package/2006/metadata/core-properties\" xmlns:dc=\"http://purl.org/dc/elements/1.1/\" xmlns:dcterms=\"http://purl.org/dc/terms/\" xmlns:xsi=\"http://www.w3.org/2001/XMLSchema-instance\"><dcterms:created xsi:type=\"dcterms:W3CDTF\">");
        push_date(&self.created, &mut out);
        out.append("</dcterms:created><dcterms:modified xsi:type=\"dcterms:W3CDTF\">");
        push_date(&self.modified, &mut out);
        out.append("</dcterms:modified></cp:coreProperties>");
        out
    }
}

} // verus!
