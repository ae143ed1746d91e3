use docx_core::comments::Comments;
use docx_core::doc_props::DocProps;
use docx_core::document::{Comment, Paragraph, Run, Table, TableCell, TableRow};
use docx_core::docx::Docx;
use docx_core::numberings::{Numbering, Numberings};
use docx_core::width_type::WidthType;

#[test]
fn dates_appear_verbatim() {
    let mut docx = Docx::new()
        .created_at("2019-01-01T00:00:00Z")
        .updated_at("2019-02-03T04:05:06Z");
    let out = docx.build();
    assert!(out.doc_props.contains(
        "<dcterms:created xsi:type=\"dcterms:W3CDTF\">2019-01-01T00:00:00Z</dcterms:created>"
    ));
    assert!(out.doc_props.contains(
        "<dcterms:modified xsi:type=\"dcterms:W3CDTF\">2019-02-03T04:05:06Z</dcterms:modified>"
    ));
}

#[test]
fn unset_dates_use_the_default() {
    let out = DocProps::new().created_at("not a date").build();
    assert!(out.contains(">not a date</dcterms:created>"));
    assert!(out.contains(">1970-01-01T00:00:00Z</dcterms:modified>"));
}

#[test]
fn numberings_are_rendered_in_order() {
    let mut docx = Docx::new()
        .add_numbering(Numbering::new(1, 0))
        .add_numbering(Numbering::new(12, 305));
    let out = docx.build();
    assert_eq!(docx.numberings.numberings.len(), 2);
    assert!(out.numberings.contains(
        "<w:num w:numId=\"1\"><w:abstractNumId w:val=\"0\"/></w:num><w:num w:numId=\"12\"><w:abstractNumId w:val=\"305\"/></w:num></w:numbering>"
    ));
}

#[test]
fn empty_numberings_part() {
    let out = Numberings::new().build();
    assert!(out.ends_with("<w:numbering xmlns:w=\"http://schemas.openxmlformats.org/wordprocessingml/2006/main\"></w:numbering>"));
}

#[test]
fn large_comment_id_is_written_in_decimal() {
    let mut c = Comments::new();
    c.add_comments(vec![Comment::new(4294967296, "A", "d", "t")]);
    assert!(c.build().contains("w:id=\"4294967296\""));
}

#[test]
fn document_markup() {
    let p = Paragraph::new()
        .add_comment_start(Comment::new(3, "A", "d", "t"))
        .add_run(Run::new("Hello"))
        .add_comment_end(3);
    let cell = TableCell::new().add_paragraph(Paragraph::new().add_run(Run::new("c")));
    let mut docx = Docx::new()
        .add_paragraph(p)
        .add_table(Table::new(vec![TableRow::new(vec![cell])]));
    let out = docx.build();
    assert!(out.document.contains(
        "<w:body><w:p><w:commentRangeStart w:id=\"3\"/><w:r><w:t xml:space=\"preserve\">Hello</w:t></w:r><w:commentRangeEnd w:id=\"3\"/><w:r><w:commentReference w:id=\"3\"/></w:r></w:p><w:tbl><w:tr><w:tc><w:p><w:r><w:t xml:space=\"preserve\">c</w:t></w:r></w:p></w:tc></w:tr></w:tbl><w:sectPr/></w:body>"
    ));
}

#[test]
fn package_parts_are_registered() {
    let mut docx = Docx::new();
    let out = docx.build();
    assert!(out.content_type.contains("PartName=\"/word/comments.xml\""));
    assert!(out.content_type.contains("PartName=\"/word/numbering.xml\""));
    assert!(out.document_rels.contains("Target=\"comments.xml\""));
    assert!(out.rels.contains("Target=\"word/document.xml\""));
    assert!(out.styles.contains("w:styleId=\"Normal\""));
    assert!(out.settings.starts_with("<?xml"));
    assert!(out.font_table.contains("<w:fonts "));
}

#[test]
fn width_type_token() {
    assert_eq!(WidthType::DXA.token(), "dxa");
}
