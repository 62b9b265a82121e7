use pdf_doc::{ansi_letter, mrg_in_1, In, Mrg, Sze};

#[test]
fn margin_width_and_height() {
    let m = Mrg::new(In(1000), In(1500), In(250), In(750));
    assert_eq!(m.width(), In(2500));
    assert_eq!(m.height(), In(1000));
    let one = mrg_in_1();
    assert_eq!(one.width(), In(2000));
    assert_eq!(one.height(), In(2000));
}

#[test]
fn size_in_points() {
    let s = ansi_letter();
    assert_eq!(s, Sze::new(In(8500), In(11000)));
    assert_eq!(s.pt(), (612_000, 792_000));
}
