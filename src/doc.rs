use crate::inch::{fits_i64, In};
use crate::mrg::{mrg_in_1, Mrg};
use crate::pag::{pages_of, split_state};
use crate::sze::{ansi_letter, Sze};
use crate::text::{replace_all, replaced};
use crate::unit::Unit;
use google_fonts::Font;
use vstd::prelude::*;

verus! {

/// Determines the style of text in a paragraph.
#[derive(Debug, Default, Clone, Copy, PartialEq, Eq, Structural, Hash)]
pub enum Style {
    /// The default, unstyled text.
    #[default]
    Normal,
    /// Text that's styled with an italic font.
    Italic,
    /// Text that's styled with a bold font.
    Bold,
    /// Text that's styled with both bold and italic fonts.
    BoldItalic,
}

/// Determines _horizontal_ text alignment of a paragraph.
#[derive(Debug, Default, Clone, Copy, PartialEq, Eq, Structural, Hash)]
pub enum Align {
    /// Aligns text to the left edge of the paragraph.
    #[default]
    Left,
    /// Aligns text to the right edge of the paragraph.
    Right,
    /// Centers the text horizontally within the paragraph.
    Center,
    /// Stretches the text so that each line has equal width.
    ///
    /// The last line is aligned to the left.
    Justify,
}

/// Determines the amount of space between lines of a paragraph, as a
/// multiple of the line height.
#[derive(Debug, Default, Clone, Copy, PartialEq, Eq, Structural, Hash)]
pub enum LineSpace {
    /// Single line spacing.
    #[default]
    Single,
    /// Double line spacing.
    Double,
    /// Custom line spacing, in thousandths: `Custom(1350)` is 1.35.
    Custom(i64),
}

impl LineSpace {
    /// The multiple in thousandths.
    pub open spec fn val_spec(self) -> int {
        match self {
            LineSpace::Single => 1000,
            LineSpace::Double => 2000,
            LineSpace::Custom(v) => v as int,
        }
    }

    /// Returns the multiple in thousandths.
    pub fn val(self) -> (r: i64)
        ensures
            r == self.val_spec(),
    {
        match self {
            LineSpace::Single => 1000,
            LineSpace::Double => 2000,
            LineSpace::Custom(v) => v,
        }
    }
}

/// The value of an override, or the default where it is unset.
pub open spec fn or_else<T>(o: Option<T>, d: T) -> T {
    match o {
        Some(v) => v,
        None => d,
    }
}

/// A _paragraph_ with formatting options.
///
/// Each option is an override: where it is `None`, the paragraph takes the
/// setting of the document that it is drawn in.
#[derive(Debug)]
pub struct Par {
    /// Indentation length of the first line.
    pub ind: Option<In>,
    /// Font for the paragraph.
    pub fnt: Option<Font>,
    /// The size of the font in thousandths of a point.
    pub fnt_sze: Option<i64>,
    /// Font _style_ of the paragraph.
    pub fnt_sty: Option<Style>,
    /// Text _alignment_ of the paragraph.
    pub aln: Option<Align>,
    /// Line spacing of a paragraph.
    pub spc_lne: Option<LineSpace>,
    /// Spacing _after_ the paragraph.
    pub spc_aft: Option<LineSpace>,
    /// Indicates whether the first line is _indented_.
    pub has_ind: Option<bool>,
    /// Text _content_ of the paragraph.
    pub txt: String,
}

impl Clone for Par {
    fn clone(&self) -> (r: Par)
        ensures
            r == *self,
    {
        Par {
            ind: self.ind,
            fnt: self.fnt,
            fnt_sze: self.fnt_sze,
            fnt_sty: self.fnt_sty,
            aln: self.aln,
            spc_lne: self.spc_lne,
            spc_aft: self.spc_aft,
            has_ind: self.has_ind,
            txt: self.txt.clone(),
        }
    }
}

impl Default for Par {
    fn default() -> (r: Par)
        ensures
            r.overrides_unset(),
            r.txt@ == Seq::<char>::empty(),
    {
        Par {
            ind: None,
            fnt: None,
            fnt_sze: None,
            fnt_sty: None,
            aln: None,
            spc_lne: None,
            spc_aft: None,
            has_ind: None,
            txt: String::new(),
        }
    }
}

/// Creates a paragraph with the given text and no overrides.
pub fn par(txt: &str) -> (r: Par)
    ensures
        r.overrides_unset(),
        r.txt@ == txt@,
{
    Par::default().set_txt(String::from_str(txt))
}

impl Par {
    /// Whether the paragraph sets none of its overrides.
    pub open spec fn overrides_unset(&self) -> bool {
        &&& self.ind is None
        &&& self.fnt is None
        &&& self.fnt_sze is None
        &&& self.fnt_sty is None
        &&& self.aln is None
        &&& self.spc_lne is None
        &&& self.spc_aft is None
        &&& self.has_ind is None
    }

    /// Replaces all matches of a pattern with another string.
    pub fn replace(&mut self, from: &str, to: &str)
        ensures
            final(self).txt@ == replaced(old(self).txt@, from@, to@),
            final(self).ind == old(self).ind,
            final(self).fnt == old(self).fnt,
            final(self).fnt_sze == old(self).fnt_sze,
            final(self).fnt_sty == old(self).fnt_sty,
            final(self).aln == old(self).aln,
            final(self).spc_lne == old(self).spc_lne,
            final(self).spc_aft == old(self).spc_aft,
            final(self).has_ind == old(self).has_ind,
    {
        self.txt = replace_all(self.txt.as_str(), from, to);
    }

    /// Sets the _indentation_ length of the first line.
    pub fn set_ind(self, ind: Option<In>) -> (r: Par)
        ensures
            r == (Par { ind, ..self }),
    {
        Par { ind, ..self }
    }

    /// Sets the _font_ for the paragraph.
    pub fn set_fnt(self, fnt: Option<Font>) -> (r: Par)
        ensures
            r == (Par { fnt, ..self }),
    {
        Par { fnt, ..self }
    }

    /// Sets the _size_ of the font in thousandths of a point.
    pub fn set_fnt_sze(self, fnt_sze: Option<i64>) -> (r: Par)
        ensures
            r == (Par { fnt_sze, ..self }),
    {
        Par { fnt_sze, ..self }
    }

    /// Sets the _font style_ of the paragraph.
    pub fn set_fnt_sty(self, fnt_sty: Option<Style>) -> (r: Par)
        ensures
            r == (Par { fnt_sty, ..self }),
    {
        Par { fnt_sty, ..self }
    }

    /// Sets the _alignment_ of the paragraph.
    pub fn set_aln(self, aln: Option<Align>) -> (r: Par)
        ensures
            r == (Par { aln, ..self }),
    {
        Par { aln, ..self }
    }

    /// Sets the _line spacing_ of the paragraph.
    pub fn set_spc_lne(self, spc_lne: Option<LineSpace>) -> (r: Par)
        ensures
            r == (Par { spc_lne, ..self }),
    {
        Par { spc_lne, ..self }
    }

    /// Sets the _spacing after_ the paragraph.
    pub fn set_spc_aft(self, spc_aft: Option<LineSpace>) -> (r: Par)
        ensures
            r == (Par { spc_aft, ..self }),
    {
        Par { spc_aft, ..self }
    }

    /// Sets whether the first line of the paragraph is _indented_.
    pub fn set_has_ind(self, has_ind: Option<bool>) -> (r: Par)
        ensures
            r == (Par { has_ind, ..self }),
    {
        Par { has_ind, ..self }
    }

    /// Sets the _text content_ of the paragraph.
    pub fn set_txt(self, txt: String) -> (r: Par)
        ensures
            r == (Par { txt, ..self }),
    {
        Par { txt, ..self }
    }
}

/// Elements of a [`Doc`].
#[derive(Debug)]
pub enum Elm {
    /// A _paragraph_ element.
    Par(Par),
    /// A _page break_ element.
    PagBrk,
}

impl Clone for Elm {
    fn clone(&self) -> (r: Elm)
        ensures
            r == *self,
    {
        match self {
            Elm::Par(p) => Elm::Par(p.clone()),
            Elm::PagBrk => Elm::PagBrk,
        }
    }
}

} // verus!

verus! {

/// The formatting of a paragraph once its overrides are merged with the
/// settings of its document.
#[derive(Debug, Clone, Copy)]
pub struct Resolved {
    pub ind: In,
    pub fnt: Font,
    pub fnt_sze: i64,
    pub fnt_sty: Style,
    pub aln: Align,
    pub spc_lne: LineSpace,
    pub spc_aft: LineSpace,
    pub has_ind: bool,
}

impl Resolved {
    /// Returns the width in thousandths of a point of the blank space that
    /// starts the first line, or `None` where the first line is not indented.
    pub fn indent_pt(&self) -> (r: Option<i128>)
        ensures
            self.has_ind ==> (r matches Some(w) && w == self.ind.pt_spec()),
            !self.has_ind ==> r is None,
    {
        if self.has_ind {
            Some(self.ind.pt())
        } else {
            None
        }
    }
}

/// A document: default formatting and an ordered list of elements.
#[derive(Debug)]
pub struct Doc {
    /// Size of the document.
    pub sze: Sze,
    /// Margin lengths of the document.
    pub mrg: Mrg,
    /// Indentation length of a paragraph's first line.
    pub ind: In,
    /// Font for the paragraph.
    pub fnt: Font,
    /// The size of the font in thousandths of a point.
    pub fnt_sze: i64,
    /// Font _style_ of the document.
    pub fnt_sty: Style,
    /// Text _alignment_ of the document.
    pub aln: Align,
    /// Line spacing of a document.
    pub spc_lne: LineSpace,
    /// Spacing _after_ a paragraph.
    pub spc_par_aft: LineSpace,
    /// Indicates whether the first line of a paragraph is _indented_.
    pub has_ind: bool,
    /// Paragraphs and page breaks, in reading order.
    pub elms: Vec<Elm>,
}

/// Creates an _8.5in x 11in_ [`Doc`] with _1in_ margins and a _0.5in_ indent.
pub fn new_ansi_letter() -> (r: Doc)
    ensures
        r.sze == (Sze { width: In(8500), height: In(11000) }),
        r.mrg == (Mrg { lft: In(1000), rht: In(1000), btm: In(1000), top: In(1000) }),
        r.ind == In(500),
        r.fnt == Font::DomineVariable,
        r.fnt_sze == 12000,
        r.fnt_sty == Style::Normal,
        r.aln == Align::Justify,
        r.spc_lne == LineSpace::Custom(1350),
        r.spc_par_aft == LineSpace::Custom(1350),
        r.has_ind,
        r.elms@.len() == 0,
{
    Doc::default().set_sze(ansi_letter()).set_mrg(mrg_in_1()).set_ind(In(500))
}

impl Default for Doc {
    /// A document with no elements, a zero size and margin, a 12pt justified
    /// Domine font, spacing of 1.35 and first lines indented.
    fn default() -> (r: Doc)
        ensures
            r.sze == (Sze { width: In(0), height: In(0) }),
            r.mrg == (Mrg { lft: In(0), rht: In(0), btm: In(0), top: In(0) }),
            r.ind == In(0),
            r.fnt == Font::DomineVariable,
            r.fnt_sze == 12000,
            r.fnt_sty == Style::Normal,
            r.aln == Align::Justify,
            r.spc_lne == LineSpace::Custom(1350),
            r.spc_par_aft == LineSpace::Custom(1350),
            r.has_ind,
            r.elms@.len() == 0,
    {
        Doc {
            sze: Sze { width: In(0), height: In(0) },
            mrg: Mrg { lft: In(0), rht: In(0), btm: In(0), top: In(0) },
            ind: In(0),
            fnt: Font::DomineVariable,
            fnt_sze: 12000,
            fnt_sty: Style::Normal,
            aln: Align::Justify,
            spc_lne: LineSpace::Custom(1350),
            spc_par_aft: LineSpace::Custom(1350),
            has_ind: true,
            elms: Vec::new(),
        }
    }
}

impl Clone for Doc {
    fn clone(&self) -> (r: Doc)
        ensures
            r.same_settings(self),
            r.elms@ == self.elms@,
    {
        let mut elms: Vec<Elm> = Vec::new();
        let mut i: usize = 0;
        while i < self.elms.len()
            invariant
                i <= self.elms@.len(),
                elms@ == self.elms@.take(i as int),
            decreases self.elms@.len() - i,
        {
            elms.push(self.elms[i].clone());
            i += 1;
            assert(elms@ =~= self.elms@.take(i as int));
        }
        assert(elms@ =~= self.elms@);
        Doc {
            sze: self.sze,
            mrg: self.mrg,
            ind: self.ind,
            fnt: self.fnt,
            fnt_sze: self.fnt_sze,
            fnt_sty: self.fnt_sty,
            aln: self.aln,
            spc_lne: self.spc_lne,
            spc_par_aft: self.spc_par_aft,
            has_ind: self.has_ind,
            elms,
        }
    }
}

impl Doc {
    /// Whether two documents have the same settings, whatever their elements.
    pub open spec fn same_settings(&self, o: &Doc) -> bool {
        &&& self.sze == o.sze
        &&& self.mrg == o.mrg
        &&& self.ind == o.ind
        &&& self.fnt == o.fnt
        &&& self.fnt_sze == o.fnt_sze
        &&& self.fnt_sty == o.fnt_sty
        &&& self.aln == o.aln
        &&& self.spc_lne == o.spc_lne
        &&& self.spc_par_aft == o.spc_par_aft
        &&& self.has_ind == o.has_ind
    }

    /// The formatting of `p` in this document: each override of `p` where it
    /// is set, else the document's own setting.
    pub open spec fn resolve_spec(&self, p: Par) -> Resolved {
        Resolved {
            ind: or_else(p.ind, self.ind),
            fnt: or_else(p.fnt, self.fnt),
            fnt_sze: or_else(p.fnt_sze, self.fnt_sze),
            fnt_sty: or_else(p.fnt_sty, self.fnt_sty),
            aln: or_else(p.aln, self.aln),
            spc_lne: or_else(p.spc_lne, self.spc_lne),
            spc_aft: or_else(p.spc_aft, self.spc_par_aft),
            has_ind: or_else(p.has_ind, self.has_ind),
        }
    }

    /// The formatting that the document's own settings give a paragraph.
    pub open spec fn defaults_spec(&self) -> Resolved {
        Resolved {
            ind: self.ind,
            fnt: self.fnt,
            fnt_sze: self.fnt_sze,
            fnt_sty: self.fnt_sty,
            aln: self.aln,
            spc_lne: self.spc_lne,
            spc_aft: self.spc_par_aft,
            has_ind: self.has_ind,
        }
    }

    /// Returns the formatting of `p` in this document.
    pub fn resolve(&self, p: &Par) -> (r: Resolved)
        ensures
            r == self.resolve_spec(*p),
    {
        Resolved {
            ind: p.ind.unwrap_or(self.ind),
            fnt: p.fnt.unwrap_or(self.fnt),
            fnt_sze: p.fnt_sze.unwrap_or(self.fnt_sze),
            fnt_sty: p.fnt_sty.unwrap_or(self.fnt_sty),
            aln: p.aln.unwrap_or(self.aln),
            spc_lne: p.spc_lne.unwrap_or(self.spc_lne),
            spc_aft: p.spc_aft.unwrap_or(self.spc_par_aft),
            has_ind: p.has_ind.unwrap_or(self.has_ind),
        }
    }

    /// Segments `elms` into pages of paragraphs.
    pub fn seg_pags(&self) -> (r: Vec<Vec<Par>>)
        ensures
            r@.len() == pages_of(self.elms@).len(),
            forall|i: int| 0 <= i < r@.len() ==> #[trigger] r@[i]@ == pages_of(self.elms@)[i],
    {
        let mut pages: Vec<Vec<Par>> = Vec::new();
        let mut cur: Vec<Par> = Vec::new();
        let n = self.elms.len();
        let mut i: usize = 0;
        while i < n
            invariant
                n == self.elms@.len(),
                i <= n,
                pages@.len() == split_state(self.elms@.take(i as int)).0.len(),
                forall|k: int| 0 <= k < pages@.len() ==>
                    #[trigger] pages@[k]@ == split_state(self.elms@.take(i as int)).0[k],
                cur@ == split_state(self.elms@.take(i as int)).1,
            decreases n - i,
        {
            assert(self.elms@.take(i + 1).drop_last() =~= self.elms@.take(i as int));
            match &self.elms[i] {
                Elm::Par(p) => {
                    cur.push(p.clone());
                },
                Elm::PagBrk => {
                    if cur.len() > 0 {
                        pages.push(cur);
                        cur = Vec::new();
                    }
                },
            }
            i += 1;
        }
        assert(self.elms@.take(n as int) =~= self.elms@);
        if cur.len() > 0 {
            pages.push(cur);
        }
        pages
    }

    /// Copies and appends the elements of another document, which is left
    /// as it is.
    pub fn copy_pars(&mut self, doc: &Doc)
        ensures
            final(self).elms@ == old(self).elms@ + doc.elms@,
            final(self).same_settings(old(self)),
    {
        let mut i: usize = 0;
        let ghost start = self.elms@;
        while i < doc.elms.len()
            invariant
                i <= doc.elms@.len(),
                self.elms@ == start + doc.elms@.take(i as int),
                self.same_settings(old(self)),
                start == old(self).elms@,
            decreases doc.elms@.len() - i,
        {
            self.elms.push(doc.elms[i].clone());
            i += 1;
            assert(self.elms@ =~= start + doc.elms@.take(i as int));
        }
        assert(doc.elms@.take(i as int) =~= doc.elms@);
    }

    /// Adds a _paragraph_ to the end of the document.
    pub fn add_par(&mut self, par: Par)
        ensures
            final(self).elms@ == old(self).elms@.push(Elm::Par(par)),
            final(self).same_settings(old(self)),
    {
        self.elms.push(Elm::Par(par));
    }

    /// Adds a _page break_ to the end of the document.
    pub fn add_pag_brk(&mut self)
        ensures
            final(self).elms@ == old(self).elms@.push(Elm::PagBrk),
            final(self).same_settings(old(self)),
    {
        self.elms.push(Elm::PagBrk);
    }

    /// Replaces text within the paragraph at `idx`; where `idx` is past the
    /// end or holds a page break, the document is left as it is.
    pub fn replace_par_at(&mut self, idx: usize, from: &str, to: &str)
        ensures
            final(self).same_settings(old(self)),
            idx < old(self).elms@.len() && old(self).elms@[idx as int] is Par ==> ({
                let p = old(self).elms@[idx as int]->Par_0;
                &&& final(self).elms@.len() == old(self).elms@.len()
                &&& forall|k: int| 0 <= k < old(self).elms@.len() && k != idx ==>
                        #[trigger] final(self).elms@[k] == old(self).elms@[k]
                &&& final(self).elms@[idx as int] matches Elm::Par(q)
                &&& q.txt@ == replaced(p.txt@, from@, to@)
                &&& q == (Par { txt: q.txt, ..p })
            }),
            !(idx < old(self).elms@.len() && old(self).elms@[idx as int] is Par)
                ==> final(self).elms@ == old(self).elms@,
    {
        if idx < self.elms.len() {
            if let Elm::Par(p) = &self.elms[idx] {
                let mut q = p.clone();
                q.replace(from, to);
                self.elms.set(idx, Elm::Par(q));
            }
        }
    }

    /// The width that text takes: the page width less the side margins.
    pub fn txt_wid(&self) -> (r: In)
        requires
            fits_i64(self.mrg.lft.0 + self.mrg.rht.0),
            fits_i64(self.sze.width.0 - (self.mrg.lft.0 + self.mrg.rht.0)),
        ensures
            r.0 == self.sze.width.0 - (self.mrg.lft.0 + self.mrg.rht.0),
    {
        self.sze.width - self.mrg.width()
    }

    /// Sets the _size_ of the document.
    pub fn set_sze(self, sze: Sze) -> (r: Doc)
        ensures
            r == (Doc { sze, ..self }),
    {
        Doc { sze, ..self }
    }

    /// Sets the _margin_ lengths of the document.
    pub fn set_mrg(self, mrg: Mrg) -> (r: Doc)
        ensures
            r == (Doc { mrg, ..self }),
    {
        Doc { mrg, ..self }
    }

    /// Sets the _indentation_ length of a paragraph's first line.
    pub fn set_ind(self, ind: In) -> (r: Doc)
        ensures
            r == (Doc { ind, ..self }),
    {
        Doc { ind, ..self }
    }

    /// Sets the _font_ of the document.
    pub fn set_fnt(self, fnt: Font) -> (r: Doc)
        ensures
            r == (Doc { fnt, ..self }),
    {
        Doc { fnt, ..self }
    }

    /// Sets the _font size_ in thousandths of a point.
    pub fn set_fnt_sze(self, fnt_sze: i64) -> (r: Doc)
        ensures
            r == (Doc { fnt_sze, ..self }),
    {
        Doc { fnt_sze, ..self }
    }

    /// Sets the _font style_ of the document.
    pub fn set_fnt_sty(self, fnt_sty: Style) -> (r: Doc)
        ensures
            r == (Doc { fnt_sty, ..self }),
    {
        Doc { fnt_sty, ..self }
    }

    /// Sets the _text alignment_ of the document.
    pub fn set_aln(self, aln: Align) -> (r: Doc)
        ensures
            r == (Doc { aln, ..self }),
    {
        Doc { aln, ..self }
    }

    /// Sets the _line spacing_ of the document.
    pub fn set_spc_lne(self, spc_lne: LineSpace) -> (r: Doc)
        ensures
            r == (Doc { spc_lne, ..self }),
    {
        Doc { spc_lne, ..self }
    }

    /// Sets the _spacing after_ paragraphs in the document.
    pub fn set_spc_par_aft(self, spc_par_aft: LineSpace) -> (r: Doc)
        ensures
            r == (Doc { spc_par_aft, ..self }),
    {
        Doc { spc_par_aft, ..self }
    }

    /// Sets whether the first line of a paragraph is _indented_.
    pub fn set_has_ind(self, has_ind: bool) -> (r: Doc)
        ensures
            r == (Doc { has_ind, ..self }),
    {
        Doc { has_ind, ..self }
    }
}

} // verus!

verus! {

/// Each setting of a paragraph resolves to its override where that is set,
/// and to the document's setting where it is not.
pub proof fn lemma_resolve(doc: Doc, p: Par)
    ensures
        p.ind matches Some(v) ==> doc.resolve_spec(p).ind == v,
        p.fnt matches Some(v) ==> doc.resolve_spec(p).fnt == v,
        p.fnt_sze matches Some(v) ==> doc.resolve_spec(p).fnt_sze == v,
        p.fnt_sty matches Some(v) ==> doc.resolve_spec(p).fnt_sty == v,
        p.aln matches Some(v) ==> doc.resolve_spec(p).aln == v,
        p.spc_lne matches Some(v) ==> doc.resolve_spec(p).spc_lne == v,
        p.spc_aft matches Some(v) ==> doc.resolve_spec(p).spc_aft == v,
        p.has_ind matches Some(v) ==> doc.resolve_spec(p).has_ind == v,
        p.ind is None ==> doc.resolve_spec(p).ind == doc.ind,
        p.fnt is None ==> doc.resolve_spec(p).fnt == doc.fnt,
        p.fnt_sze is None ==> doc.resolve_spec(p).fnt_sze == doc.fnt_sze,
        p.fnt_sty is None ==> doc.resolve_spec(p).fnt_sty == doc.fnt_sty,
        p.aln is None ==> doc.resolve_spec(p).aln == doc.aln,
        p.spc_lne is None ==> doc.resolve_spec(p).spc_lne == doc.spc_lne,
        p.spc_aft is None ==> doc.resolve_spec(p).spc_aft == doc.spc_par_aft,
        p.has_ind is None ==> doc.resolve_spec(p).has_ind == doc.has_ind,
        p.overrides_unset() ==> doc.resolve_spec(p) == doc.defaults_spec(),
{
}

/// Setting an override and then clearing it gives the paragraph the
/// document's setting back, for every one of its settings.
pub proof fn lemma_override_then_clear(
    doc: Doc,
    p: Par,
    ind: In,
    fnt: Font,
    fnt_sze: i64,
    fnt_sty: Style,
    aln: Align,
    spc_lne: LineSpace,
    spc_aft: LineSpace,
    has_ind: bool,
)
    ensures
        doc.resolve_spec(Par { ind: None, ..Par { ind: Some(ind), ..p } }).ind == doc.ind,
        doc.resolve_spec(Par { fnt: None, ..Par { fnt: Some(fnt), ..p } }).fnt == doc.fnt,
        doc.resolve_spec(Par { fnt_sze: None, ..Par { fnt_sze: Some(fnt_sze), ..p } }).fnt_sze
            == doc.fnt_sze,
        doc.resolve_spec(Par { fnt_sty: None, ..Par { fnt_sty: Some(fnt_sty), ..p } }).fnt_sty
            == doc.fnt_sty,
        doc.resolve_spec(Par { aln: None, ..Par { aln: Some(aln), ..p } }).aln == doc.aln,
        doc.resolve_spec(Par { spc_lne: None, ..Par { spc_lne: Some(spc_lne), ..p } }).spc_lne
            == doc.spc_lne,
        doc.resolve_spec(Par { spc_aft: None, ..Par { spc_aft: Some(spc_aft), ..p } }).spc_aft
            == doc.spc_par_aft,
        doc.resolve_spec(Par { has_ind: None, ..Par { has_ind: Some(has_ind), ..p } }).has_ind
            == doc.has_ind,
{
}

} // verus!
