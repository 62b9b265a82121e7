use google_fonts::Font;
use pdf_doc::{
    advance, new_ansi_letter, par, Align, Doc, Elm, In, LineSpace, Mrg, Par, Style, Sze,
};

fn txts(pages: &Vec<Vec<Par>>) -> Vec<Vec<String>> {
    pages.iter().map(|pg| pg.iter().map(|p| p.txt.clone()).collect()).collect()
}

#[test]
fn paginate_empty() {
    let d = Doc::default();
    assert!(d.seg_pags().is_empty());
}

#[test]
fn paginate_lone_break() {
    let mut d = Doc::default();
    d.add_pag_brk();
    assert!(d.seg_pags().is_empty());
}

#[test]
fn paginate_double_break() {
    let mut d = Doc::default();
    d.add_par(par("a"));
    d.add_pag_brk();
    d.add_pag_brk();
    d.add_par(par("b"));
    assert_eq!(txts(&d.seg_pags()), vec![vec!["a"], vec!["b"]]);
}

#[test]
fn paginate_leading_break() {
    let mut d = Doc::default();
    d.add_pag_brk();
    d.add_par(par("a"));
    assert_eq!(txts(&d.seg_pags()), vec![vec!["a"]]);
}

#[test]
fn paginate_no_break() {
    let mut d = Doc::default();
    d.add_par(par("a"));
    d.add_par(par("b"));
    assert_eq!(txts(&d.seg_pags()), vec![vec!["a", "b"]]);
}

#[test]
fn paginate_keeps_order_and_bound() {
    let mut d = Doc::default();
    d.add_par(par("a"));
    d.add_par(par("b"));
    d.add_pag_brk();
    d.add_par(par("c"));
    d.add_pag_brk();
    d.add_pag_brk();
    let pages = d.seg_pags();
    assert_eq!(txts(&pages), vec![vec!["a", "b"], vec!["c"]]);
    assert!(pages.len() <= 3 + 1);
    assert!(pages.iter().all(|p| !p.is_empty()));
}

#[test]
fn resolve_prefers_override() {
    let d = new_ansi_letter();
    let p = par("x")
        .set_fnt_sty(Some(Style::Italic))
        .set_ind(Some(In(250)))
        .set_spc_aft(Some(LineSpace::Double))
        .set_fnt(Some(Font::LoraVariable));
    let r = d.resolve(&p);
    assert_eq!(r.fnt_sty, Style::Italic);
    assert_eq!(r.ind, In(250));
    assert_eq!(r.spc_aft, LineSpace::Double);
    assert_eq!(r.fnt, Font::LoraVariable);
    assert_eq!(r.aln, Align::Justify);
    assert_eq!(r.fnt_sze, 12000);
    assert!(r.has_ind);
}

#[test]
fn resolve_falls_back_after_clear() {
    let d = new_ansi_letter().set_aln(Align::Center);
    let p = par("x").set_aln(Some(Align::Right)).set_aln(None);
    let r = d.resolve(&p);
    assert_eq!(r.aln, Align::Center);
    assert_eq!(r.ind, In(500));
    assert_eq!(r.fnt, Font::DomineVariable);
    assert_eq!(r.spc_lne, LineSpace::Custom(1350));
    assert_eq!(r.spc_aft, LineSpace::Custom(1350));
}

#[test]
fn replace_par_at_valid_index() {
    let mut d = Doc::default();
    d.add_par(par("Dear {{name}}, hi {{name}}"));
    d.add_pag_brk();
    d.replace_par_at(0, "{{name}}", "Paul Dirac");
    match &d.elms[0] {
        Elm::Par(p) => assert_eq!(p.txt, "Dear Paul Dirac, hi Paul Dirac"),
        Elm::PagBrk => panic!("expected a paragraph"),
    }
}

#[test]
fn replace_par_at_break_or_out_of_range_is_noop() {
    let mut d = Doc::default();
    d.add_par(par("{{name}}"));
    d.add_pag_brk();
    d.replace_par_at(1, "{{name}}", "x");
    d.replace_par_at(7, "{{name}}", "x");
    assert_eq!(d.elms.len(), 2);
    assert!(matches!(&d.elms[0], Elm::Par(p) if p.txt == "{{name}}"));
    assert!(matches!(d.elms[1], Elm::PagBrk));
}

#[test]
fn copy_pars_appends_in_order() {
    let mut dst = Doc::default();
    dst.add_par(par("first"));
    let mut src = Doc::default();
    src.add_par(par("a"));
    src.add_pag_brk();
    src.add_par(par("b"));
    let before = src.elms.len();
    dst.copy_pars(&src);
    assert_eq!(dst.elms.len(), 1 + before);
    assert_eq!(src.elms.len(), 3);
    assert_eq!(txts(&dst.seg_pags()), vec![vec!["first", "a"], vec!["b"]]);
}

#[test]
fn ansi_letter_defaults() {
    let d = new_ansi_letter();
    assert_eq!(d.sze, Sze::new(In(8500), In(11000)));
    assert_eq!(d.mrg, Mrg::new(In(1000), In(1000), In(1000), In(1000)));
    assert_eq!(d.ind, In(500));
    assert_eq!(d.fnt, Font::DomineVariable);
    assert_eq!(d.txt_wid(), In(6500));
    assert!(d.has_ind);
    assert!(d.elms.is_empty());
}

#[test]
fn setters_replace_one_setting() {
    let d = Doc::default()
        .set_fnt_sze(10500)
        .set_spc_lne(LineSpace::Single)
        .set_spc_par_aft(LineSpace::Custom(600))
        .set_has_ind(false)
        .set_fnt_sty(Style::Bold)
        .set_fnt(Font::LoraVariable);
    assert_eq!(d.fnt_sze, 10500);
    assert_eq!(d.spc_lne, LineSpace::Single);
    assert_eq!(d.spc_par_aft, LineSpace::Custom(600));
    assert!(!d.has_ind);
    assert_eq!(d.fnt_sty, Style::Bold);
    assert_eq!(d.fnt, Font::LoraVariable);
    assert_eq!(d.aln, Align::Justify);
}

#[test]
fn line_space_values() {
    assert_eq!(LineSpace::Single.val(), 1000);
    assert_eq!(LineSpace::Double.val(), 2000);
    assert_eq!(LineSpace::Custom(1650).val(), 1650);
}

#[test]
fn cursor_advances_by_spacing_and_height() {
    // 14pt first line at 1.5 spacing, 100pt block, from 72pt.
    assert_eq!(advance(72_000, 14_000, LineSpace::Custom(1500), 100_000), 193_000);
    assert_eq!(advance(0, 10_000, LineSpace::Double, 0), 20_000);
    assert_eq!(advance(5, 0, LineSpace::Single, 0), 5);
}

#[test]
fn indent_only_where_flagged() {
    let d = new_ansi_letter();
    assert_eq!(d.resolve(&par("x")).indent_pt(), Some(36_000));
    assert_eq!(d.resolve(&par("x").set_has_ind(Some(false))).indent_pt(), None);
    assert_eq!(d.resolve(&par("x").set_ind(Some(In(1000)))).indent_pt(), Some(72_000));
}

#[test]
fn default_doc_settings() {
    let d = Doc::default();
    assert_eq!(d.fnt, Font::DomineVariable);
    assert_eq!(d.fnt_sze, 12000);
    assert_eq!(d.fnt_sty, Style::Normal);
    assert_eq!(d.aln, Align::Justify);
    assert_eq!(d.spc_lne, LineSpace::Custom(1350));
    assert_eq!(d.spc_par_aft, LineSpace::Custom(1350));
    assert_eq!(d.sze, Sze::new(In(0), In(0)));
    assert!(d.has_ind);
}

#[test]
fn paginate_double_break_mid_document() {
    let mut d = Doc::default();
    d.add_par(par("a"));
    d.add_par(par("b"));
    d.add_pag_brk();
    d.add_pag_brk();
    d.add_par(par("c"));
    d.add_pag_brk();
    d.add_par(par("d"));
    assert_eq!(txts(&d.seg_pags()), vec![vec!["a", "b"], vec!["c"], vec!["d"]]);
}

#[test]
fn copy_pars_leaves_source_usable() {
    let mut dst = Doc::default();
    let mut src = Doc::default();
    src.add_par(par("only"));
    dst.copy_pars(&src);
    dst.copy_pars(&src);
    assert_eq!(dst.elms.len(), 2);
    assert_eq!(txts(&src.seg_pags()), vec![vec!["only"]]);
}

#[test]
fn negative_custom_spacing_is_kept() {
    assert_eq!(LineSpace::Custom(-500).val(), -500);
    assert_eq!(advance(10_000, 2_000, LineSpace::Custom(-500), 0), 9_000);
}
