use vstd::prelude::*;
use crate::document::Comment;
use crate::xml::{decimal, push_decimal, xml_declaration};

verus! {

/// The comments part: the comments the document refers to.
pub struct Comments {
    pub comments: Vec<Comment>,
}

/// The markup of one comment.
pub open spec fn comment_xml(c: Comment) -> Seq<char> {
    "<w:comment w:id=\""@ + decimal(c.id as nat) + "\" w:author=\""@ + c.author@
        + "\" w:date=\""@ + c.date@ + "\" w:initials=\"\"><w:p><w:r><w:t xml:space=\"preserve\">"@
        + c.text@ + "</w:t></w:r></w:p></w:comment>"@
}

/// The markup of a sequence of comments, in order.
pub open spec fn comment_list_xml(cs: Seq<Comment>) -> Seq<char>
    decreases cs.len(),
{
    if cs.len() == 0 {
        Seq::empty()
    } else {
        comment_list_xml(cs.drop_last()) + comment_xml(cs.last())
    }
}

/// The whole comments part holding `cs`.
pub open spec fn comments_part_xml(cs: Seq<Comment>) -> Seq<char> {
    xml_declaration()
        + "<w:comments xmlns:w=\"http://schemas.openxmlformats.org/wordprocessingml/2006/main\">"@
        + comment_list_xml(cs) + "</w:comments>"@
}

fn push_comment_xml(c: &Comment, out: &mut String)
    ensures
        final(out)@ == old(out)@ + comment_xml(*c),
{
    out.append("<w:comment w:id=\"");
    push_decimal(c.id, out);
    out.append("\" w:author=\"");
    out.append(c.author.as_str());
    out.append("\" w:date=\"");
    out.append(c.date.as_str());
    out.append("\" w:initials=\"\"><w:p><w:r><w:t xml:space=\"preserve\">");
    out.append(c.text.as_str());
    out.append("</w:t></w:r></w:p></w:comment>");
}

impl Comments {
    pub fn new() -> (r: Comments)
        ensures
            r.comments@.len() == 0,
    {
        Comments { comments: Vec::new() }
    }

    /// Replaces the whole collection with `comments`.
    pub fn add_comments(&mut self, comments: Vec<Comment>)
        ensures
            final(self).comments@ == comments@,
    {
        self.comments = comments;
    }

    /// The comments part's markup.
    pub fn build(&self) -> (r: String)
        ensures
            r@ == comments_part_xml(self.comments@),
    {
        let mut out = String::new();
        out.append("<?xml version=\"1.0\" encoding=\"UTF-8\" standalone=\"yes\"?>");
        out.append("<w:comments xmlns:w=\"http://schemas.openxmlformats.org/wordprocessingml/2006/main\">");
        let ghost head = out@;
        let n = self.comments.len();
        let mut i: usize = 0;
        while i < n
            invariant
                n == self.comments@.len(),
                i <= n,
                out@ == head + comment_list_xml(self.comments@.take(i as int)),
            decreases n - i,
        {
            assert(self.comments@.take(i + 1).drop_last() == self.comments@.take(i as int));
            push_comment_xml(&self.comments[i], &mut out);
            i = i + 1;
        }
        assert(self.comments@.take(n as int) == self.comments@);
        out.append("</w:comments>");
        out
    }
}

} // verus!
