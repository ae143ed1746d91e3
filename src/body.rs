use vstd::prelude::*;
use crate::document::{
    Document, DocumentChild, Paragraph, ParagraphChild, TableCell, TableCellContent, TableRow, Table,
};
use crate::xml::{decimal, push_decimal, xml_declaration};

verus! {

pub open spec fn child_xml(c: ParagraphChild) -> Seq<char> {
    match c {
        ParagraphChild::Run(r) => "<w:r><w:t xml:space=\"preserve\">"@ + r.text@ + "</w:t></w:r>"@,
        ParagraphChild::CommentStart(s) => "<w:commentRangeStart w:id=\""@ + decimal(
            s.comment.id as nat,
        ) + "\"/>"@,
        ParagraphChild::CommentEnd(e) => "<w:commentRangeEnd w:id=\""@ + decimal(e.id as nat)
            + "\"/><w:r><w:commentReference w:id=\""@ + decimal(e.id as nat) + "\"/></w:r>"@,
    }
}

pub open spec fn children_xml(cs: Seq<ParagraphChild>) -> Seq<char>
    decreases cs.len(),
{
    if cs.len() == 0 {
        Seq::empty()
    } else {
        children_xml(cs.drop_last()) + child_xml(cs.last())
    }
}

pub open spec fn paragraph_xml(p: Paragraph) -> Seq<char> {
    "<w:p>"@ + children_xml(p.children@) + "</w:p>"@
}

pub open spec fn paragraphs_xml(ps: Seq<Paragraph>) -> Seq<char>
    decreases ps.len(),
{
    if ps.len() == 0 {
        Seq::empty()
    } else {
        paragraphs_xml(ps.drop_last()) + paragraph_xml(ps.last())
    }
}

pub open spec fn content_xml(c: TableCellContent) -> Seq<char> {
    match c {
        TableCellContent::Paragraph(p) => paragraph_xml(p),
    }
}

pub open spec fn contents_xml(cs: Seq<TableCellContent>) -> Seq<char>
    decreases cs.len(),
{
    if cs.len() == 0 {
        Seq::empty()
    } else {
        contents_xml(cs.drop_last()) + content_xml(cs.last())
    }
}

pub open spec fn cells_xml(cells: Seq<TableCell>) -> Seq<char>
    decreases cells.len(),
{
    if cells.len() == 0 {
        Seq::empty()
    } else {
        cells_xml(cells.drop_last()) + "<w:tc>"@ + contents_xml(cells.last().contents@)
            + "</w:tc>"@
    }
}

pub open spec fn rows_xml(rows: Seq<TableRow>) -> Seq<char>
    decreases rows.len(),
{
    if rows.len() == 0 {
        Seq::empty()
    } else {
        rows_xml(rows.drop_last()) + "<w:tr>"@ + cells_xml(rows.last().cells@) + "</w:tr>"@
    }
}

pub open spec fn node_xml(c: DocumentChild) -> Seq<char> {
    match c {
        DocumentChild::Paragraph(p) => paragraph_xml(p),
        DocumentChild::Table(t) => "<w:tbl>"@ + rows_xml(t.rows@) + "</w:tbl>"@,
        DocumentChild::StructuredDataTag(s) => "<w:sdt><w:sdtContent>"@ + paragraphs_xml(
            s.children@,
        ) + "</w:sdtContent></w:sdt>"@,
        DocumentChild::SectionBreak => "<w:p><w:pPr><w:sectPr/></w:pPr></w:p>"@,
    }
}

pub open spec fn nodes_xml(cs: Seq<DocumentChild>) -> Seq<char>
    decreases cs.len(),
{
    if cs.len() == 0 {
        Seq::empty()
    } else {
        nodes_xml(cs.drop_last()) + node_xml(cs.last())
    }
}

/// The whole main document part for a body holding `cs`.
pub open spec fn document_xml(cs: Seq<DocumentChild>) -> Seq<char> {
    xml_declaration()
        + "<w:document xmlns:w=\"http://schemas.openxmlformats.org/wordprocessingml/2006/main\"><w:body>"@
        + nodes_xml(cs) + "<w:sectPr/></w:body></w:document>"@
}

fn push_child_xml(c: &ParagraphChild, out: &mut String)
    ensures
        final(out)@ == old(out)@ + child_xml(*c),
{
    match c {
        ParagraphChild::Run(r) => {
            out.append("<w:r><w:t xml:space=\"preserve\">");
            out.append(r.text.as_str());
            out.append("</w:t></w:r>");
        },
        ParagraphChild::CommentStart(s) => {
            out.append("<w:commentRangeStart w:id=\"");
            push_decimal(s.comment.id, out);
            out.append("\"/>");
        },
        ParagraphChild::CommentEnd(e) => {
            out.append("<w:commentRangeEnd w:id=\"");
            push_decimal(e.id, out);
            out.append("\"/><w:r><w:commentReference w:id=\"");
            push_decimal(e.id, out);
            out.append("\"/></w:r>");
        },
    }
}

fn push_paragraph_xml(p: &Paragraph, out: &mut String)
    ensures
        final(out)@ == old(out)@ + paragraph_xml(*p),
{
    out.append("<w:p>");
    let ghost start = out@;
    let n = p.children.len();
    let mut i: usize = 0;
    while i < n
        invariant
            n == p.children@.len(),
            i <= n,
            out@ == start + children_xml(p.children@.take(i as int)),
        decreases n - i,
    {
        assert(p.children@.take(i + 1).drop_last() == p.children@.take(i as int));
        push_child_xml(&p.children[i], out);
        i = i + 1;
    }
    assert(p.children@.take(n as int) == p.children@);
    out.append("</w:p>");
}

fn push_paragraphs_xml(ps: &Vec<Paragraph>, out: &mut String)
    ensures
        final(out)@ == old(out)@ + paragraphs_xml(ps@),
{
    let ghost start = out@;
    let n = ps.len();
    let mut i: usize = 0;
    while i < n
        invariant
            n == ps@.len(),
            i <= n,
            out@ == start + paragraphs_xml(ps@.take(i as int)),
        decreases n - i,
    {
        assert(ps@.take(i + 1).drop_last() == ps@.take(i as int));
        push_paragraph_xml(&ps[i], out);
        i = i + 1;
    }
    assert(ps@.take(n as int) == ps@);
}

fn push_cell_xml(cell: &TableCell, out: &mut String)
    ensures
        final(out)@ == old(out)@ + "<w:tc>"@ + contents_xml(cell.contents@) + "</w:tc>"@,
{
    out.append("<w:tc>");
    let ghost start = out@;
    let n = cell.contents.len();
    let mut i: usize = 0;
    while i < n
        invariant
            n == cell.contents@.len(),
            i <= n,
            out@ == start + contents_xml(cell.contents@.take(i as int)),
        decreases n - i,
    {
        assert(cell.contents@.take(i + 1).drop_last() == cell.contents@.take(i as int));
        match &cell.contents[i] {
            TableCellContent::Paragraph(p) => push_paragraph_xml(p, out),
        }
        i = i + 1;
    }
    assert(cell.contents@.take(n as int) == cell.contents@);
    out.append("</w:tc>");
}

fn push_row_xml(row: &TableRow, out: &mut String)
    ensures
        final(out)@ == old(out)@ + "<w:tr>"@ + cells_xml(row.cells@) + "</w:tr>"@,
{
    out.append("<w:tr>");
    let ghost start = out@;
    let n = row.cells.len();
    let mut i: usize = 0;
    while i < n
        invariant
            n == row.cells@.len(),
            i <= n,
            out@ == start + cells_xml(row.cells@.take(i as int)),
        decreases n - i,
    {
        assert(row.cells@.take(i + 1).drop_last() == row.cells@.take(i as int));
        push_cell_xml(&row.cells[i], out);
        i = i + 1;
    }
    assert(row.cells@.take(n as int) == row.cells@);
    out.append("</w:tr>");
}

fn push_table_xml(t: &Table, out: &mut String)
    ensures
        final(out)@ == old(out)@ + "<w:tbl>"@ + rows_xml(t.rows@) + "</w:tbl>"@,
{
    out.append("<w:tbl>");
    let ghost start = out@;
    let n = t.rows.len();
    let mut i: usize = 0;
    while i < n
        invariant
            n == t.rows@.len(),
            i <= n,
            out@ == start + rows_xml(t.rows@.take(i as int)),
        decreases n - i,
    {
        assert(t.rows@.take(i + 1).drop_last() == t.rows@.take(i as int));
        push_row_xml(&t.rows[i], out);
        i = i + 1;
    }
    assert(t.rows@.take(n as int) == t.rows@);
    out.append("</w:tbl>");
}

fn push_node_xml(c: &DocumentChild, out: &mut String)
    ensures
        final(out)@ == old(out)@ + node_xml(*c),
{
    match c {
        DocumentChild::Paragraph(p) => push_paragraph_xml(p, out),
        DocumentChild::Table(t) => push_table_xml(t, out),
        DocumentChild::StructuredDataTag(s) => {
            out.append("<w:sdt><w:sdtContent>");
            push_paragraphs_xml(&s.children, out);
            out.append("</w:sdtContent></w:sdt>");
        },
        DocumentChild::SectionBreak => out.append("<w:p><w:pPr><w:sectPr/></w:pPr></w:p>"),
    }
}

impl Document {
    /// The main document part's markup.
    pub fn build(&self) -> (r: String)
        ensures
            r@ == document_xml(self.children@),
    {
        let mut out = String::new();
        out.append("<?xml version=\"1.0\" encoding=\"UTF-8\" standalone=\"yes\"?>");
        out.append("<w:document xmlns:w=\"http://schemas.openxmlformats.org/wordprocessingml/2006/main\"><w:body>");
        let ghost start = out@;
        let n = self.children.len();
        let mut i: usize = 0;
        while i < n
            invariant
                n == self.children@.len(),
                i <= n,
                out@ == start + nodes_xml(self.children@.take(i as int)),
            decreases n - i,
        {
            assert(self.children@.take(i + 1).drop_last() == self.children@.take(i as int));
            push_node_xml(&self.children[i], &mut out);
            i = i + 1;
        }
        assert(self.children@.take(n as int) == self.children@);
        out.append("<w:sectPr/></w:body></w:document>");
        out
    }
}

} // verus!
