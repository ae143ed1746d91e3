use vstd::prelude::*;
use crate::body::document_xml;
use crate::comments::{comments_part_xml, Comments};
use crate::doc_props::{core_props_xml, date_or_default, DocProps};
use crate::document::{document_comments, Comment, Document, Paragraph, Table};
use crate::numberings::{numberings_part_xml, Numbering, Numberings};
use crate::parts::{
    content_types_xml, document_rels_xml, font_table_xml, rels_xml, settings_xml, styles_xml,
    ContentTypes, DocumentRels, FontTable, Rels, Settings, Styles,
};

verus! {

/// The document aggregate: one of each package part, and the document body.
pub struct Docx {
    pub content_type: ContentTypes,
    pub rels: Rels,
    pub document_rels: DocumentRels,
    pub doc_props: DocProps,
    pub styles: Styles,
    pub document: Document,
    pub comments: Comments,
    pub numberings: Numberings,
    pub settings: Settings,
    pub font_table: FontTable,
}

/// The markup of every part of a package.
pub struct XMLDocx {
    pub content_type: String,
    pub rels: String,
    pub doc_props: String,
    pub styles: String,
    pub document: String,
    pub comments: String,
    pub document_rels: String,
    pub settings: String,
    pub font_table: String,
    pub numberings: String,
}

impl XMLDocx {
    /// `self` is the markup of every part of `d`.
    pub open spec fn renders(self, d: Docx) -> bool {
        &&& self.content_type@ == content_types_xml()
        &&& self.rels@ == rels_xml()
        &&& self.doc_props@ == core_props_xml(
            date_or_default(d.doc_props.created),
            date_or_default(d.doc_props.modified),
        )
        &&& self.styles@ == styles_xml()
        &&& self.document@ == document_xml(d.document.children@)
        &&& self.comments@ == comments_part_xml(d.comments.comments@)
        &&& self.document_rels@ == document_rels_xml()
        &&& self.settings@ == settings_xml()
        &&& self.font_table@ == font_table_xml()
        &&& self.numberings@ == numberings_part_xml(d.numberings.numberings@)
    }
}

impl Docx {
    /// A new aggregate: an empty body, no comments, no numberings, no dates set.
    pub open spec fn is_fresh(self) -> bool {
        &&& self.document.children@.len() == 0
        &&& self.comments.comments@.len() == 0
        &&& self.numberings.numberings@.len() == 0
        &&& self.doc_props.created is None
        &&& self.doc_props.modified is None
    }

    /// `after` is `self` with its comments part holding exactly the comments
    /// started in the body, and `out` is the markup of `after`.
    pub open spec fn build_step(self, after: Docx, out: XMLDocx) -> bool {
        &&& after.document == self.document
        &&& after.doc_props == self.doc_props
        &&& after.numberings == self.numberings
        &&& after.comments.comments@ == document_comments(self.document.children@)
        &&& out.renders(after)
    }

    /// `after` differs from `self` in the document body at most.
    pub open spec fn same_parts(self, after: Docx) -> bool {
        &&& after.doc_props == self.doc_props
        &&& after.numberings == self.numberings
        &&& after.comments == self.comments
    }

    pub fn new() -> (r: Docx)
        ensures
            r.is_fresh(),
    {
        Docx::default()
    }

    pub fn add_paragraph(self, p: Paragraph) -> (r: Docx)
        ensures
            r.document.children@ == self.document.children@.push(
                crate::document::DocumentChild::Paragraph(p),
            ),
            self.same_parts(r),
    {
        Docx { document: self.document.add_paragraph(p), ..self }
    }

    pub fn add_table(self, t: Table) -> (r: Docx)
        ensures
            r.document.children@ == self.document.children@.push(
                crate::document::DocumentChild::Table(t),
            ),
            self.same_parts(r),
    {
        Docx { document: self.document.add_table(t), ..self }
    }

    pub fn add_numbering(self, num: Numbering) -> (r: Docx)
        ensures
            r.numberings.numberings@ == self.numberings.numberings@.push(num),
            r.document == self.document,
            r.doc_props == self.doc_props,
            r.comments == self.comments,
    {
        Docx { numberings: self.numberings.add_numbering(num), ..self }
    }

    /// Sets the creation date, forwarded verbatim to the document properties.
    pub fn created_at(self, date: &str) -> (r: Docx)
        ensures
            r.doc_props.created is Some,
            date_or_default(r.doc_props.created) == date@,
            r.doc_props.modified == self.doc_props.modified,
            r.document == self.document,
            r.numberings == self.numberings,
            r.comments == self.comments,
    {
        Docx { doc_props: self.doc_props.created_at(date), ..self }
    }

    /// Sets the modification date, forwarded verbatim to the document properties.
    pub fn updated_at(self, date: &str) -> (r: Docx)
        ensures
            r.doc_props.modified is Some,
            date_or_default(r.doc_props.modified) == date@,
            r.doc_props.created == self.doc_props.created,
            r.document == self.document,
            r.numberings == self.numberings,
            r.comments == self.comments,
    {
        Docx { doc_props: self.doc_props.updated_at(date), ..self }
    }

    /// Collects the comments started in the body and makes them the whole
    /// content of the comments part, then renders every part.
    pub fn build(&mut self) -> (r: XMLDocx)
        ensures
            old(self).build_step(*final(self), r),
    {
        self.update_comments();
        XMLDocx {
            content_type: self.content_type.build(),
            rels: self.rels.build(),
            doc_props: self.doc_props.build(),
            styles: self.styles.build(),
            document: self.document.build(),
            comments: self.comments.build(),
            document_rels: self.document_rels.build(),
            settings: self.settings.build(),
            font_table: self.font_table.build(),
            numberings: self.numberings.build(),
        }
    }

    /// Replaces the comments part with the comments started in the body.
    fn update_comments(&mut self)
        ensures
            final(self).document == old(self).document,
            final(self).doc_props == old(self).doc_props,
            final(self).numberings == old(self).numberings,
            final(self).comments.comments@ == document_comments(old(self).document.children@),
    {
        let comments: Vec<Comment> = self.document.collect_comments();
        self.comments.add_comments(comments);
    }
}

impl Default for Docx {
    fn default() -> (r: Docx)
        ensures
            r.is_fresh(),
    {
        let content_type = ContentTypes::new();
        let rels = Rels::new();
        let doc_props = DocProps::new();
        let styles = Styles::new();
        let document = Document::new();
        let document_rels = DocumentRels::new();
        let settings = Settings::new();
        let font_table = FontTable::new();
        let comments = Comments::new();
        let numberings = Numberings::new();
        Docx {
            content_type,
            rels,
            doc_props,
            styles,
            document,
            comments,
            document_rels,
            settings,
            font_table,
            numberings,
        }
    }
}

} // verus!
