//! Properties of the comment pass and of the assembled package.
use vstd::prelude::*;
use crate::doc_props::{core_props_head, core_props_middle, core_props_xml};
use crate::document::{
    document_comments, node_comments, paragraph_comments, cell_comments, row_comments,
    table_comments, Comment, DocumentChild, ParagraphChild, TableCell, TableCellContent, TableRow,
};
use crate::docx::{Docx, XMLDocx};

verus! {

/// No child of the paragraph starts a comment.
pub open spec fn children_free(cs: Seq<ParagraphChild>) -> bool {
    forall|j: int| 0 <= j < cs.len() ==> !(cs[j] is CommentStart)
}

pub open spec fn contents_free(cs: Seq<TableCellContent>) -> bool {
    forall|j: int|
        0 <= j < cs.len() ==> match #[trigger] cs[j] {
            TableCellContent::Paragraph(p) => children_free(p.children@),
        }
}

pub open spec fn cells_free(cells: Seq<TableCell>) -> bool {
    forall|j: int| 0 <= j < cells.len() ==> contents_free(#[trigger] cells[j].contents@)
}

pub open spec fn rows_free(rows: Seq<TableRow>) -> bool {
    forall|j: int| 0 <= j < rows.len() ==> cells_free(#[trigger] rows[j].cells@)
}

/// No paragraph anywhere in the node starts a comment.
pub open spec fn node_free(c: DocumentChild) -> bool {
    match c {
        DocumentChild::Paragraph(p) => children_free(p.children@),
        DocumentChild::Table(t) => rows_free(t.rows@),
        DocumentChild::StructuredDataTag(s) => forall|j: int|
            0 <= j < s.children@.len() ==> children_free(#[trigger] s.children@[j].children@),
        DocumentChild::SectionBreak => true,
    }
}

/// No paragraph anywhere in the body starts a comment.
pub open spec fn document_free(cs: Seq<DocumentChild>) -> bool {
    forall|j: int| 0 <= j < cs.len() ==> node_free(#[trigger] cs[j])
}

proof fn lemma_children_free(cs: Seq<ParagraphChild>)
    requires
        children_free(cs),
    ensures
        paragraph_comments(cs) == Seq::<Comment>::empty(),
    decreases cs.len(),
{
    if cs.len() > 0 {
        lemma_children_free(cs.drop_last());
        assert(!(cs[cs.len() - 1] is CommentStart));
    }
}

proof fn lemma_contents_free(cs: Seq<TableCellContent>)
    requires
        contents_free(cs),
    ensures
        cell_comments(cs) == Seq::<Comment>::empty(),
    decreases cs.len(),
{
    if cs.len() > 0 {
        lemma_contents_free(cs.drop_last());
        match cs[cs.len() - 1] {
            TableCellContent::Paragraph(p) => lemma_children_free(p.children@),
        }
    }
}

proof fn lemma_cells_free(cells: Seq<TableCell>)
    requires
        cells_free(cells),
    ensures
        row_comments(cells) == Seq::<Comment>::empty(),
    decreases cells.len(),
{
    if cells.len() > 0 {
        lemma_cells_free(cells.drop_last());
        lemma_contents_free(cells[cells.len() - 1].contents@);
    }
}

proof fn lemma_rows_free(rows: Seq<TableRow>)
    requires
        rows_free(rows),
    ensures
        table_comments(rows) == Seq::<Comment>::empty(),
    decreases rows.len(),
{
    if rows.len() > 0 {
        lemma_rows_free(rows.drop_last());
        lemma_cells_free(rows[rows.len() - 1].cells@);
    }
}

/// A body in which no paragraph starts a comment yields no comments.
pub proof fn lemma_no_comment_starts_no_comments(cs: Seq<DocumentChild>)
    requires
        document_free(cs),
    ensures
        document_comments(cs) == Seq::<Comment>::empty(),
    decreases cs.len(),
{
    if cs.len() > 0 {
        lemma_no_comment_starts_no_comments(cs.drop_last());
        let c = cs[cs.len() - 1];
        assert(node_free(c));
        match c {
            DocumentChild::Paragraph(p) => lemma_children_free(p.children@),
            DocumentChild::Table(t) => lemma_rows_free(t.rows@),
            _ => {},
        }
    }
}

/// The comments of two bodies placed one after the other are the comments of
/// the first followed by those of the second: extraction keeps document order.
pub proof fn lemma_comments_in_document_order(a: Seq<DocumentChild>, b: Seq<DocumentChild>)
    ensures
        document_comments(a + b) == document_comments(a) + document_comments(b),
    decreases b.len(),
{
    if b.len() > 0 {
        lemma_comments_in_document_order(a, b.drop_last());
        assert((a + b).drop_last() == a + b.drop_last());
    } else {
        assert(a + b == a);
    }
}

/// The children hold exactly one comment start, at `k`.
pub open spec fn single_start_at(cs: Seq<ParagraphChild>, k: int) -> bool {
    &&& 0 <= k < cs.len()
    &&& cs[k] is CommentStart
    &&& forall|j: int| 0 <= j < cs.len() && j != k ==> !(cs[j] is CommentStart)
}

proof fn lemma_single_start(cs: Seq<ParagraphChild>, k: int)
    requires
        single_start_at(cs, k),
    ensures
        paragraph_comments(cs) == seq![cs[k]->CommentStart_0.comment],
    decreases cs.len(),
{
    let n = cs.len() - 1;
    if k == n {
        assert(children_free(cs.drop_last()));
        lemma_children_free(cs.drop_last());
    } else {
        assert(single_start_at(cs.drop_last(), k));
        lemma_single_start(cs.drop_last(), k);
        assert(!(cs[n] is CommentStart));
    }
}

/// The comment started by the paragraph at top-level position `i`, whose
/// single comment start is at `ks[i]`.
pub open spec fn started_comment(ps: Seq<DocumentChild>, ks: Seq<int>, i: int) -> Comment {
    ps[i]->Paragraph_0.children@[ks[i]]->CommentStart_0.comment
}

/// A body of paragraphs, each starting exactly one comment, yields one comment
/// per paragraph, in the paragraphs' order, each equal to its source payload.
pub proof fn lemma_one_comment_per_paragraph(ps: Seq<DocumentChild>, ks: Seq<int>)
    requires
        ks.len() == ps.len(),
        forall|i: int|
            0 <= i < ps.len() ==> (#[trigger] ps[i] is Paragraph) && single_start_at(
                ps[i]->Paragraph_0.children@,
                ks[i],
            ),
    ensures
        document_comments(ps).len() == ps.len(),
        forall|i: int|
            0 <= i < ps.len() ==> #[trigger] document_comments(ps)[i] == started_comment(ps, ks, i),
    decreases ps.len(),
{
    if ps.len() > 0 {
        let n = ps.len() - 1;
        let front = ps.drop_last();
        let kf = ks.drop_last();
        assert forall|i: int|
            0 <= i < front.len() implies (#[trigger] front[i] is Paragraph) && single_start_at(
                front[i]->Paragraph_0.children@,
                kf[i],
            ) by {
            assert(ps[i] is Paragraph);
        }
        lemma_one_comment_per_paragraph(front, kf);
        assert(ps[n] is Paragraph);
        lemma_single_start(ps[n]->Paragraph_0.children@, ks[n]);
        assert forall|i: int|
            0 <= i < ps.len() implies #[trigger] document_comments(ps)[i] == started_comment(
                ps,
                ks,
                i,
            ) by {
            if i < n {
                assert(document_comments(front)[i] == started_comment(front, kf, i));
            }
        }
    }
}

/// A top-level node other than a paragraph or a table adds no comment, even
/// when paragraphs inside it start comments.
pub proof fn lemma_other_nodes_add_nothing(cs: Seq<DocumentChild>, c: DocumentChild)
    requires
        !(c is Paragraph),
        !(c is Table),
    ensures
        document_comments(cs.push(c)) == document_comments(cs),
{
    assert(cs.push(c).drop_last() == cs);
    assert(node_comments(c) == Seq::<Comment>::empty());
}

/// Building twice with nothing changed in between gives the same comments
/// part, and the same markup for every part, both times.
pub proof fn lemma_build_twice(d0: Docx, d1: Docx, out1: XMLDocx, d2: Docx, out2: XMLDocx)
    requires
        d0.build_step(d1, out1),
        d1.build_step(d2, out2),
    ensures
        d2.comments.comments@ == d1.comments.comments@,
        out2.content_type@ == out1.content_type@,
        out2.rels@ == out1.rels@,
        out2.doc_props@ == out1.doc_props@,
        out2.styles@ == out1.styles@,
        out2.document@ == out1.document@,
        out2.comments@ == out1.comments@,
        out2.document_rels@ == out1.document_rels@,
        out2.settings@ == out1.settings@,
        out2.font_table@ == out1.font_table@,
        out2.numberings@ == out1.numberings@,
{
}

/// The creation and modification dates stand verbatim in the core
/// properties markup, each at its fixed place.
pub proof fn lemma_dates_verbatim(created: Seq<char>, modified: Seq<char>)
    ensures
        ({
            let x = core_props_xml(created, modified);
            let a: int = core_props_head().len() as int;
            let b: int = a + created.len() + core_props_middle().len();
            &&& x.subrange(a, a + created.len()) == created
            &&& x.subrange(b, b + modified.len()) == modified
        }),
{
    let x = core_props_xml(created, modified);
    let a: int = core_props_head().len() as int;
    let b: int = a + created.len() + core_props_middle().len();
    assert(x.subrange(a, a + created.len()) =~= created);
    assert(x.subrange(b, b + modified.len()) =~= modified);
}

} // verus!
