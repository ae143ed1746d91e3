use vstd::prelude::*;

verus! {

/// One comment: its identity, author, date and body text.
pub struct Comment {
    pub id: usize,
    pub author: String,
    pub date: String,
    pub text: String,
}

impl Comment {
    pub fn new(id: usize, author: &str, date: &str, text: &str) -> (r: Comment)
        ensures
            r.id == id,
            r.author@ == author@,
            r.date@ == date@,
            r.text@ == text@,
    {
        Comment {
            id,
            author: String::from_str(author),
            date: String::from_str(date),
            text: String::from_str(text),
        }
    }

    /// A field-by-field copy.
    pub fn copy(&self) -> (r: Comment)
        ensures
            r == *self,
    {
        Comment {
            id: self.id,
            author: self.author.clone(),
            date: self.date.clone(),
            text: self.text.clone(),
        }
    }
}

/// A run of text inside a paragraph.
pub struct Run {
    pub text: String,
}

impl Run {
    pub fn new(text: &str) -> (r: Run)
        ensures
            r.text@ == text@,
    {
        Run { text: String::from_str(text) }
    }
}

/// The start of a commented range; it carries the comment's payload.
pub struct CommentRangeStart {
    pub comment: Comment,
}

impl CommentRangeStart {
    pub fn new(comment: Comment) -> (r: CommentRangeStart)
        ensures
            r.comment == comment,
    {
        CommentRangeStart { comment }
    }

    /// A copy of the carried comment.
    pub fn comment(&self) -> (r: Comment)
        ensures
            r == self.comment,
    {
        self.comment.copy()
    }
}

/// The end of a commented range; it refers to the comment by id only.
pub struct CommentRangeEnd {
    pub id: usize,
}

pub enum ParagraphChild {
    Run(Run),
    CommentStart(CommentRangeStart),
    CommentEnd(CommentRangeEnd),
}

pub struct Paragraph {
    pub children: Vec<ParagraphChild>,
}

pub enum TableCellContent {
    Paragraph(Paragraph),
}

pub struct TableCell {
    pub contents: Vec<TableCellContent>,
}

pub struct TableRow {
    pub cells: Vec<TableCell>,
}

pub struct Table {
    pub rows: Vec<TableRow>,
}

/// A container of paragraphs that the comment pass does not look into.
pub struct StructuredDataTag {
    pub children: Vec<Paragraph>,
}

pub enum DocumentChild {
    Paragraph(Paragraph),
    Table(Table),
    StructuredDataTag(StructuredDataTag),
    SectionBreak,
}

/// The body of the document: its top-level content in order.
pub struct Document {
    pub children: Vec<DocumentChild>,
}

impl Paragraph {
    pub fn new() -> (r: Paragraph)
        ensures
            r.children@.len() == 0,
    {
        Paragraph { children: Vec::new() }
    }

    pub fn add_run(self, run: Run) -> (r: Paragraph)
        ensures
            r.children@ == self.children@.push(ParagraphChild::Run(run)),
    {
        let mut children = self.children;
        children.push(ParagraphChild::Run(run));
        Paragraph { children }
    }

    /// Opens a commented range carrying `comment`.
    pub fn add_comment_start(self, comment: Comment) -> (r: Paragraph)
        ensures
            r.children@ == self.children@.push(
                ParagraphChild::CommentStart(CommentRangeStart { comment }),
            ),
    {
        let mut children = self.children;
        children.push(ParagraphChild::CommentStart(CommentRangeStart::new(comment)));
        Paragraph { children }
    }

    /// Closes the commented range of comment `id`.
    pub fn add_comment_end(self, id: usize) -> (r: Paragraph)
        ensures
            r.children@ == self.children@.push(
                ParagraphChild::CommentEnd(CommentRangeEnd { id }),
            ),
    {
        let mut children = self.children;
        children.push(ParagraphChild::CommentEnd(CommentRangeEnd { id }));
        Paragraph { children }
    }
}

impl TableCell {
    pub fn new() -> (r: TableCell)
        ensures
            r.contents@.len() == 0,
    {
        TableCell { contents: Vec::new() }
    }

    pub fn add_paragraph(self, p: Paragraph) -> (r: TableCell)
        ensures
            r.contents@ == self.contents@.push(TableCellContent::Paragraph(p)),
    {
        let mut contents = self.contents;
        contents.push(TableCellContent::Paragraph(p));
        TableCell { contents }
    }
}

impl TableRow {
    pub fn new(cells: Vec<TableCell>) -> (r: TableRow)
        ensures
            r.cells@ == cells@,
    {
        TableRow { cells }
    }
}

impl Table {
    pub fn new(rows: Vec<TableRow>) -> (r: Table)
        ensures
            r.rows@ == rows@,
    {
        Table { rows }
    }
}

impl StructuredDataTag {
    pub fn new() -> (r: StructuredDataTag)
        ensures
            r.children@.len() == 0,
    {
        StructuredDataTag { children: Vec::new() }
    }

    pub fn add_paragraph(self, p: Paragraph) -> (r: StructuredDataTag)
        ensures
            r.children@ == self.children@.push(p),
    {
        let mut children = self.children;
        children.push(p);
        StructuredDataTag { children }
    }
}

impl Document {
    pub fn new() -> (r: Document)
        ensures
            r.children@.len() == 0,
    {
        Document { children: Vec::new() }
    }

    pub fn add_paragraph(self, p: Paragraph) -> (r: Document)
        ensures
            r.children@ == self.children@.push(DocumentChild::Paragraph(p)),
    {
        let mut children = self.children;
        children.push(DocumentChild::Paragraph(p));
        Document { children }
    }

    pub fn add_table(self, t: Table) -> (r: Document)
        ensures
            r.children@ == self.children@.push(DocumentChild::Table(t)),
    {
        let mut children = self.children;
        children.push(DocumentChild::Table(t));
        Document { children }
    }

    pub fn add_structured_data_tag(self, t: StructuredDataTag) -> (r: Document)
        ensures
            r.children@ == self.children@.push(DocumentChild::StructuredDataTag(t)),
    {
        let mut children = self.children;
        children.push(DocumentChild::StructuredDataTag(t));
        Document { children }
    }

    pub fn add_section_break(self) -> (r: Document)
        ensures
            r.children@ == self.children@.push(DocumentChild::SectionBreak),
    {
        let mut children = self.children;
        children.push(DocumentChild::SectionBreak);
        Document { children }
    }
}

/// The comment a paragraph child contributes: its payload if it starts a comment.
pub open spec fn child_comments(c: ParagraphChild) -> Seq<Comment> {
    match c {
        ParagraphChild::CommentStart(s) => seq![s.comment],
        _ => Seq::empty(),
    }
}

/// The comments of a paragraph's children, in order.
pub open spec fn paragraph_comments(cs: Seq<ParagraphChild>) -> Seq<Comment>
    decreases cs.len(),
{
    if cs.len() == 0 {
        Seq::empty()
    } else {
        paragraph_comments(cs.drop_last()) + child_comments(cs.last())
    }
}

pub open spec fn content_comments(c: TableCellContent) -> Seq<Comment> {
    match c {
        TableCellContent::Paragraph(p) => paragraph_comments(p.children@),
    }
}

/// The comments of a cell's contents, in order.
pub open spec fn cell_comments(cs: Seq<TableCellContent>) -> Seq<Comment>
    decreases cs.len(),
{
    if cs.len() == 0 {
        Seq::empty()
    } else {
        cell_comments(cs.drop_last()) + content_comments(cs.last())
    }
}

/// The comments of a row's cells, in order.
pub open spec fn row_comments(cells: Seq<TableCell>) -> Seq<Comment>
    decreases cells.len(),
{
    if cells.len() == 0 {
        Seq::empty()
    } else {
        row_comments(cells.drop_last()) + cell_comments(cells.last().contents@)
    }
}

/// The comments of a table's rows, in order.
pub open spec fn table_comments(rows: Seq<TableRow>) -> Seq<Comment>
    decreases rows.len(),
{
    if rows.len() == 0 {
        Seq::empty()
    } else {
        table_comments(rows.drop_last()) + row_comments(rows.last().cells@)
    }
}

/// The comments one top-level node contributes: those of a paragraph or of a
/// table's cell paragraphs; nothing from any other kind of node.
pub open spec fn node_comments(c: DocumentChild) -> Seq<Comment> {
    match c {
        DocumentChild::Paragraph(p) => paragraph_comments(p.children@),
        DocumentChild::Table(t) => table_comments(t.rows@),
        _ => Seq::empty(),
    }
}

/// The comments of a document body, in document order.
pub open spec fn document_comments(cs: Seq<DocumentChild>) -> Seq<Comment>
    decreases cs.len(),
{
    if cs.len() == 0 {
        Seq::empty()
    } else {
        document_comments(cs.drop_last()) + node_comments(cs.last())
    }
}

/// Appends the comments started in `p` to `out`.
fn push_paragraph_comments(p: &Paragraph, out: &mut Vec<Comment>)
    ensures
        final(out)@ == old(out)@ + paragraph_comments(p.children@),
{
    let ghost start = out@;
    let n = p.children.len();
    let mut i: usize = 0;
    while i < n
        invariant
            n == p.children@.len(),
            i <= n,
            out@ == start + paragraph_comments(p.children@.take(i as int)),
        decreases n - i,
    {
        assert(p.children@.take(i + 1).drop_last() == p.children@.take(i as int));
        match &p.children[i] {
            ParagraphChild::CommentStart(c) => {
                out.push(c.comment());
            },
            _ => {},
        }
        i = i + 1;
    }
    assert(p.children@.take(n as int) == p.children@);
}

/// Appends the comments of a cell's paragraphs to `out`.
fn push_cell_comments(cell: &TableCell, out: &mut Vec<Comment>)
    ensures
        final(out)@ == old(out)@ + cell_comments(cell.contents@),
{
    let ghost start = out@;
    let n = cell.contents.len();
    let mut i: usize = 0;
    while i < n
        invariant
            n == cell.contents@.len(),
            i <= n,
            out@ == start + cell_comments(cell.contents@.take(i as int)),
        decreases n - i,
    {
        assert(cell.contents@.take(i + 1).drop_last() == cell.contents@.take(i as int));
        match &cell.contents[i] {
            TableCellContent::Paragraph(p) => {
                push_paragraph_comments(p, out);
            },
        }
        i = i + 1;
    }
    assert(cell.contents@.take(n as int) == cell.contents@);
}

/// Appends the comments of a row's cells to `out`.
fn push_row_comments(row: &TableRow, out: &mut Vec<Comment>)
    ensures
        final(out)@ == old(out)@ + row_comments(row.cells@),
{
    let ghost start = out@;
    let n = row.cells.len();
    let mut i: usize = 0;
    while i < n
        invariant
            n == row.cells@.len(),
            i <= n,
            out@ == start + row_comments(row.cells@.take(i as int)),
        decreases n - i,
    {
        assert(row.cells@.take(i + 1).drop_last() == row.cells@.take(i as int));
        push_cell_comments(&row.cells[i], out);
        i = i + 1;
    }
    assert(row.cells@.take(n as int) == row.cells@);
}

/// Appends the comments of a table's rows to `out`.
fn push_table_comments(t: &Table, out: &mut Vec<Comment>)
    ensures
        final(out)@ == old(out)@ + table_comments(t.rows@),
{
    let ghost start = out@;
    let n = t.rows.len();
    let mut i: usize = 0;
    while i < n
        invariant
            n == t.rows@.len(),
            i <= n,
            out@ == start + table_comments(t.rows@.take(i as int)),
        decreases n - i,
    {
        assert(t.rows@.take(i + 1).drop_last() == t.rows@.take(i as int));
        push_row_comments(&t.rows[i], out);
        i = i + 1;
    }
    assert(t.rows@.take(n as int) == t.rows@);
}

impl Document {
    /// Every comment started in a body paragraph or in a paragraph of a table
    /// cell, copied out in document order.
    pub fn collect_comments(&self) -> (r: Vec<Comment>)
        ensures
            r@ == document_comments(self.children@),
    {
        let mut out: Vec<Comment> = Vec::new();
        let n = self.children.len();
        let mut i: usize = 0;
        while i < n
            invariant
                n == self.children@.len(),
                i <= n,
                out@ == document_comments(self.children@.take(i as int)),
            decreases n - i,
        {
            assert(self.children@.take(i + 1).drop_last() == self.children@.take(i as int));
            match &self.children[i] {
                DocumentChild::Paragraph(p) => {
                    push_paragraph_comments(p, &mut out);
                },
                DocumentChild::Table(t) => {
                    push_table_comments(t, &mut out);
                },
                _ => {},
            }
            i = i + 1;
        }
        assert(self.children@.take(n as int) == self.children@);
        out
    }
}

} // verus!
