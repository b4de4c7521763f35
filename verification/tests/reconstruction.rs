use pdf_text_diff::content::{ContentOp, Page, TextItem, VerticalPos};
use pdf_text_diff::decode::decode_text;
use pdf_text_diff::reconstruct::{reconstruct, DecodeError, Reconstruction};

fn matrix(d: f32, f: f32) -> ContentOp {
    ContentOp::SetTextMatrix(VerticalPos::from_bits((d + f).to_bits()))
}

fn draw(text: &str) -> ContentOp {
    ContentOp::DrawText(text.as_bytes().to_vec())
}

fn text_of(ops: Vec<ContentOp>) -> String {
    reconstruct(&vec![Page::Content(ops)]).unwrap()
}

#[test]
fn a_change_of_position_breaks_the_line_once() {
    let text = text_of(vec![matrix(1.0, 700.0), draw("first"), matrix(1.0, 688.0), draw("second")]);
    assert_eq!(text, "first\nsecond");
    assert_eq!(text.matches('\n').count(), 1);
}

#[test]
fn two_matrices_and_one_draw_give_one_line_break_after_the_text() {
    let text = text_of(vec![matrix(1.0, 700.0), draw("only"), matrix(1.0, 650.5)]);
    assert_eq!(text, "only\n");
}

#[test]
fn the_first_matrix_breaks_no_line() {
    assert_eq!(text_of(vec![matrix(1.0, 700.0), draw("a")]), "a");
    assert_eq!(text_of(vec![draw("a"), matrix(1.0, 700.0), draw("b")]), "ab");
}

#[test]
fn a_repeated_position_breaks_no_line() {
    let text = text_of(vec![matrix(1.0, 700.0), draw("a"), matrix(1.0, 700.0), draw("b")]);
    assert_eq!(text, "ab");
}

#[test]
fn the_position_is_the_sum_of_the_two_entries() {
    let text = text_of(vec![matrix(1.0, 700.0), draw("a"), matrix(2.0, 699.0), draw("b")]);
    assert_eq!(text, "ab");
    let text = text_of(vec![matrix(1.0, 700.0), draw("a"), matrix(2.0, 700.0), draw("b")]);
    assert_eq!(text, "a\nb");
}

#[test]
fn the_smallest_difference_of_position_breaks_the_line() {
    let y = 700.0f32;
    let next = f32::from_bits(y.to_bits() + 1);
    let text = text_of(vec![matrix(0.0, y), draw("a"), matrix(0.0, next), draw("b")]);
    assert_eq!(text, "a\nb");
}

#[test]
fn the_two_zeros_are_one_position() {
    let text = text_of(vec![matrix(0.0, 0.0), draw("a"), matrix(-0.0, -0.0), draw("b")]);
    assert_eq!(text, "ab");
    assert!(VerticalPos::from_bits(0).same_as(&VerticalPos::from_bits(0x8000_0000)));
}

#[test]
fn a_position_that_is_no_number_equals_nothing() {
    let nan = ContentOp::SetTextMatrix(VerticalPos::from_bits(f32::NAN.to_bits()));
    let text = text_of(vec![nan.clone(), draw("a"), nan.clone(), draw("b"), nan, draw("c")]);
    assert_eq!(text, "a\nb\nc");
    let p = VerticalPos::from_bits(f32::NAN.to_bits());
    assert!(!p.same_as(&p));
    assert!(!VerticalPos::from_bits(0x7f80_0001).same_as(&VerticalPos::from_bits(0x7f80_0001)));
    assert!(VerticalPos::from_bits(0x7f80_0000).same_as(&VerticalPos::from_bits(0x7f80_0000)));
    assert!(!VerticalPos::from_bits(0x7f80_0000).same_as(&VerticalPos::from_bits(0xff80_0000)));
}

#[test]
fn positions_compare_as_their_numbers_do() {
    let values = [0.0f32, -0.0, 1.5, -1.5, 700.0, f32::INFINITY, f32::NEG_INFINITY, f32::NAN, f32::MIN_POSITIVE];
    for a in values {
        for b in values {
            let same = VerticalPos::from_bits(a.to_bits()).same_as(&VerticalPos::from_bits(b.to_bits()));
            assert_eq!(same, a == b);
        }
    }
}

#[test]
fn draws_on_one_line_are_concatenated() {
    assert_eq!(text_of(vec![draw("Hel"), draw("lo"), draw(", "), draw("world")]), "Hello, world");
}

#[test]
fn spacing_adds_nothing_to_an_adjusted_run() {
    let run = ContentOp::DrawAdjustedText(vec![
        TextItem::Text(b"AB".to_vec()),
        TextItem::Spacing((-50.0f32).to_bits()),
        TextItem::Text(b"CD".to_vec()),
    ]);
    assert_eq!(text_of(vec![run]), "ABCD");
}

#[test]
fn an_adjusted_run_is_one_fragment() {
    let run = ContentOp::DrawAdjustedText(vec![
        TextItem::Spacing(0),
        TextItem::Text(b"x".to_vec()),
        TextItem::Spacing(12),
        TextItem::Spacing(13),
        TextItem::Text(b"y".to_vec()),
    ]);
    assert_eq!(text_of(vec![draw("<"), run, draw(">")]), "<xy>");
    assert_eq!(text_of(vec![ContentOp::DrawAdjustedText(vec![])]), "");
}

#[test]
fn a_new_line_always_breaks_the_line() {
    assert_eq!(text_of(vec![ContentOp::NewLine]), "\n");
    assert_eq!(text_of(vec![draw("a"), ContentOp::NewLine, ContentOp::NewLine, draw("b")]), "a\n\nb");
}

#[test]
fn other_operations_change_nothing() {
    let text = text_of(vec![
        ContentOp::Other,
        matrix(1.0, 5.0),
        ContentOp::Other,
        draw("a"),
        ContentOp::Other,
        matrix(1.0, 5.0),
        draw("b"),
    ]);
    assert_eq!(text, "ab");
}

#[test]
fn malformed_bytes_are_replaced() {
    assert_eq!(text_of(vec![ContentOp::DrawText(vec![b'a', 0xff, b'b'])]), "a\u{fffd}b");
    assert_eq!(decode_text(&[0xc3]), "\u{fffd}");
    assert_eq!(decode_text(&[0xe2, 0x82]), "\u{fffd}");
}

#[test]
fn well_formed_bytes_are_kept() {
    assert_eq!(decode_text("na\u{ef}ve \u{20ac}".as_bytes()), "na\u{ef}ve \u{20ac}");
    assert_eq!(decode_text(&[]), "");
}

#[test]
fn the_entries_of_a_run_are_decoded_one_by_one() {
    let run = ContentOp::DrawAdjustedText(vec![
        TextItem::Text(vec![0xc3]),
        TextItem::Text(vec![0xa9]),
    ]);
    assert_eq!(text_of(vec![run]), "\u{fffd}\u{fffd}");
    assert_eq!(text_of(vec![ContentOp::DrawText(vec![0xc3, 0xa9])]), "\u{e9}");
}

#[test]
fn the_position_is_kept_from_page_to_page() {
    let pages = vec![
        Page::Content(vec![matrix(1.0, 700.0), draw("a")]),
        Page::Content(vec![matrix(1.0, 700.0), draw("b")]),
        Page::Content(vec![matrix(1.0, 600.0), draw("c")]),
    ];
    assert_eq!(reconstruct(&pages), Ok(String::from("ab\nc")));
}

#[test]
fn a_document_without_pages_has_an_empty_text() {
    assert_eq!(reconstruct(&vec![]), Ok(String::new()));
    assert_eq!(reconstruct(&vec![Page::Content(vec![])]), Ok(String::new()));
}

#[test]
fn an_undecodable_page_fails_the_document() {
    let pages = vec![
        Page::Content(vec![draw("a")]),
        Page::Undecodable,
        Page::Content(vec![draw("b")]),
        Page::Undecodable,
    ];
    assert_eq!(reconstruct(&pages), Err(DecodeError { page: 1 }));
    assert_eq!(reconstruct(&vec![Page::Undecodable]), Err(DecodeError { page: 0 }));
}

#[test]
fn a_pass_can_be_fed_step_by_step() {
    let mut pass = Reconstruction::new();
    assert_eq!(pass.text(), "");
    pass.apply(&matrix(1.0, 10.0));
    pass.apply(&draw("a"));
    assert_eq!(pass.text(), "a");
    pass.apply_all(&vec![matrix(1.0, 9.0), draw("b")]);
    assert_eq!(pass.text(), "a\nb");
    assert_eq!(pass.into_text(), "a\nb");
}
