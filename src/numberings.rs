use vstd::prelude::*;
use crate::xml::{decimal, push_decimal, xml_declaration};

verus! {

/// A numbering instance: its id, and the abstract list definition it uses.
pub struct Numbering {
    pub id: usize,
    pub abstract_num_id: usize,
}

impl Numbering {
    pub fn new(id: usize, abstract_num_id: usize) -> (r: Numbering)
        ensures
            r.id == id,
            r.abstract_num_id == abstract_num_id,
    {
        Numbering { id, abstract_num_id }
    }
}

/// The numbering part: the numbering instances paragraphs may refer to.
pub struct Numberings {
    pub numberings: Vec<Numbering>,
}

pub open spec fn numbering_xml(n: Numbering) -> Seq<char> {
    "<w:num w:numId=\""@ + decimal(n.id as nat) + "\"><w:abstractNumId w:val=\""@
        + decimal(n.abstract_num_id as nat) + "\"/></w:num>"@
}

pub open spec fn numbering_list_xml(ns: Seq<Numbering>) -> Seq<char>
    decreases ns.len(),
{
    if ns.len() == 0 {
        Seq::empty()
    } else {
        numbering_list_xml(ns.drop_last()) + numbering_xml(ns.last())
    }
}

/// The whole numbering part holding `ns`.
pub open spec fn numberings_part_xml(ns: Seq<Numbering>) -> Seq<char> {
    xml_declaration()
        + "<w:numbering xmlns:w=\"http://schemas.openxmlformats.org/wordprocessingml/2006/main\">"@
        + numbering_list_xml(ns) + "</w:numbering>"@
}

fn push_numbering_xml(n: &Numbering, out: &mut String)
    ensures
        final(out)@ == old(out)@ + numbering_xml(*n),
{
    out.append("<w:num w:numId=\"");
    push_decimal(n.id, out);
    out.append("\"><w:abstractNumId w:val=\"");
    push_decimal(n.abstract_num_id, out);
    out.append("\"/></w:num>");
}

impl Numberings {
    pub fn new() -> (r: Numberings)
        ensures
            r.numberings@.len() == 0,
    {
        Numberings { numberings: Vec::new() }
    }

    pub fn add_numbering(self, n: Numbering) -> (r: Numberings)
        ensures
            r.numberings@ == self.numberings@.push(n),
    {
        let mut numberings = self.numberings;
        numberings.push(n);
        Numberings { numberings }
    }

    /// The numbering part's markup.
    pub fn build(&self) -> (r: String)
        ensures
            r@ == numberings_part_xml(self.numberings@),
    {
        let mut out = String::new();
        out.append("<?xml version=\"1.0\" encoding=\"UTF-8\" standalone=\"yes\"?>");
        out.append("<w:numbering xmlns:w=\"http://schemas.openxmlformats.org/wordprocessingml/2006/main\">");
        let ghost head = out@;
        let len = self.numberings.len();
        let mut i: usize = 0;
        while i < len
            invariant
                len == self.numberings@.len(),
                i <= len,
                out@ == head + numbering_list_xml(self.numberings@.take(i as int)),
            decreases len - i,
        {
            assert(self.numberings@.take(i + 1).drop_last() == self.numberings@.take(i as int));
            push_numbering_xml(&self.numberings[i], &mut out);
            i = i + 1;
        }
        assert(self.numberings@.take(len as int) == self.numberings@);
        out.append("</w:numbering>");
        out
    }
}

} // verus!
