use docx_core::document::{
    Comment, Document, Paragraph, Run, StructuredDataTag, Table, TableCell, TableRow,
};
use docx_core::docx::Docx;

fn comment_paragraph(id: usize, author: &str, text: &str) -> Paragraph {
    Paragraph::new()
        .add_comment_start(Comment::new(id, author, "2019-01-01T00:00:00Z", text))
        .add_run(Run::new("body"))
        .add_comment_end(id)
}

fn two_by_two_with(cell_1_2: TableCell) -> Table {
    let row1 = TableRow::new(vec![
        TableCell::new().add_paragraph(Paragraph::new().add_run(Run::new("a"))),
        cell_1_2,
    ]);
    let row2 = TableRow::new(vec![TableCell::new(), TableCell::new()]);
    Table::new(vec![row1, row2])
}

#[test]
fn empty_aggregate_has_no_comments() {
    let mut docx = Docx::new();
    let out = docx.build();
    assert!(docx.comments.comments.is_empty());
    assert!(out.comments.contains("<w:comments "));
    assert!(!out.comments.contains("<w:comment "));
}

#[test]
fn paragraphs_without_comment_starts_give_no_comments() {
    let mut docx = Docx::new()
        .add_paragraph(Paragraph::new().add_run(Run::new("plain")))
        .add_table(two_by_two_with(TableCell::new()));
    docx.build();
    assert_eq!(docx.comments.comments.len(), 0);
}

#[test]
fn one_comment_in_a_paragraph() {
    let p = Paragraph::new()
        .add_comment_start(Comment::new(1, "A", "2019-01-01T00:00:00Z", "hi"))
        .add_comment_end(1);
    let mut docx = Docx::new().add_paragraph(p);
    let out = docx.build();
    assert_eq!(docx.comments.comments.len(), 1);
    let c = &docx.comments.comments[0];
    assert_eq!(c.id, 1);
    assert_eq!(c.author, "A");
    assert_eq!(c.text, "hi");
    assert!(out.comments.contains(
        "<w:comment w:id=\"1\" w:author=\"A\" w:date=\"2019-01-01T00:00:00Z\" w:initials=\"\"><w:p><w:r><w:t xml:space=\"preserve\">hi</w:t></w:r></w:p></w:comment>"
    ));
}

#[test]
fn comment_in_a_table_cell() {
    let cell = TableCell::new().add_paragraph(comment_paragraph(7, "B", "in table"));
    let mut docx = Docx::new().add_table(two_by_two_with(cell));
    docx.build();
    assert_eq!(docx.comments.comments.len(), 1);
    assert_eq!(docx.comments.comments[0].id, 7);
    assert_eq!(docx.comments.comments[0].text, "in table");
}

#[test]
fn comments_follow_document_order() {
    let cell = TableCell::new().add_paragraph(comment_paragraph(2, "B", "second"));
    let mut docx = Docx::new()
        .add_paragraph(comment_paragraph(9, "A", "first"))
        .add_table(two_by_two_with(cell))
        .add_paragraph(comment_paragraph(1, "C", "third"));
    docx.build();
    let ids: Vec<usize> = docx.comments.comments.iter().map(|c| c.id).collect();
    assert_eq!(ids, vec![9, 2, 1]);
    assert_eq!(docx.comments.comments[0].author, "A");
    assert_eq!(docx.comments.comments[1].author, "B");
    assert_eq!(docx.comments.comments[2].author, "C");
}

#[test]
fn two_starts_in_one_paragraph_give_two_comments() {
    let p = Paragraph::new()
        .add_comment_start(Comment::new(3, "A", "d", "x"))
        .add_comment_start(Comment::new(4, "A", "d", "y"))
        .add_comment_end(4)
        .add_comment_end(3);
    let mut docx = Docx::new().add_paragraph(p);
    docx.build();
    let ids: Vec<usize> = docx.comments.comments.iter().map(|c| c.id).collect();
    assert_eq!(ids, vec![3, 4]);
}

#[test]
fn build_twice_gives_same_comments() {
    let mut docx = Docx::new()
        .add_paragraph(comment_paragraph(5, "A", "once"))
        .add_paragraph(comment_paragraph(6, "B", "twice"));
    let first = docx.build();
    let ids1: Vec<usize> = docx.comments.comments.iter().map(|c| c.id).collect();
    let second = docx.build();
    let ids2: Vec<usize> = docx.comments.comments.iter().map(|c| c.id).collect();
    assert_eq!(ids1, vec![5, 6]);
    assert_eq!(ids1, ids2);
    assert_eq!(first.comments, second.comments);
    assert_eq!(first.document, second.document);
}

#[test]
fn build_replaces_comments_set_before() {
    let mut docx = Docx::new().add_paragraph(comment_paragraph(5, "A", "kept"));
    docx.comments
        .add_comments(vec![Comment::new(99, "Z", "d", "stale")]);
    docx.build();
    assert_eq!(docx.comments.comments.len(), 1);
    assert_eq!(docx.comments.comments[0].id, 5);
}

#[test]
fn comment_in_structured_data_tag_is_dropped() {
    let mut docx = Docx::new();
    docx.document = Document::new()
        .add_structured_data_tag(StructuredDataTag::new().add_paragraph(comment_paragraph(
            8, "A", "hidden",
        )))
        .add_section_break();
    docx.build();
    assert!(docx.comments.comments.is_empty());
}

#[test]
fn collect_comments_on_document() {
    let doc = Document::new()
        .add_paragraph(comment_paragraph(12, "A", "x"))
        .add_section_break();
    let cs = doc.collect_comments();
    assert_eq!(cs.len(), 1);
    assert_eq!(cs[0].id, 12);
}
