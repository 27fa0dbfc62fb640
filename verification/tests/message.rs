use ecc_gadgets::circuit::{Cell, CellValue, Column};
use ecc_gadgets::field::Fp;
use ecc_gadgets::sinsemilla::message::{Message, MessagePiece};

fn cell(row: usize) -> Cell {
    Cell { region: 2, row, column: Column { index: 1 } }
}

#[test]
fn a_piece_keeps_what_it_was_made_of() {
    let piece = MessagePiece::<10>::new(cell(3), Some(Fp::from_u64(0x3ff)), 25);
    assert_eq!(piece.num_words(), 25);
    assert_eq!(piece.cell(), cell(3));
    assert_eq!(piece.field_elem(), Some(Fp::from_u64(0x3ff)));
    assert_eq!(piece.cell_value(), CellValue { cell: cell(3), value: Some(Fp::from_u64(0x3ff)) });
    let unknown = MessagePiece::<10>::new(cell(4), None, 0);
    assert_eq!(unknown.num_words(), 0);
    assert_eq!(unknown.field_elem(), None);
    assert_eq!(unknown.cell(), cell(4));
}

#[test]
fn a_message_holds_its_pieces_in_order() {
    let pieces = vec![
        MessagePiece::<10>::new(cell(0), Some(Fp::from_u64(1)), 3),
        MessagePiece::<10>::new(cell(1), Some(Fp::from_u64(2)), 4),
        MessagePiece::<10>::new(cell(2), None, 5),
    ];
    let message = Message::<10, 13>::from(pieces.clone());
    let held = message.deref();
    assert_eq!(held.len(), 3);
    for (a, b) in held.iter().zip(&pieces) {
        assert_eq!(a.cell_value(), b.cell_value());
        assert_eq!(a.num_words(), b.num_words());
    }
    let copy = message.clone();
    assert_eq!(copy.deref().len(), 3);
    assert_eq!(copy.deref()[2].num_words(), 5);
}

#[test]
fn a_message_has_fewer_words_than_its_limit() {
    let pieces = vec![
        MessagePiece::<10>::new(cell(0), None, 3),
        MessagePiece::<10>::new(cell(1), None, 4),
        MessagePiece::<10>::new(cell(2), None, 5),
    ];
    assert!(Message::<10, 13>::try_from_pieces(pieces.clone()).is_some());
    assert!(Message::<10, 12>::try_from_pieces(pieces.clone()).is_none());
    assert!(Message::<10, 5>::try_from_pieces(pieces.clone()).is_none());
    assert!(Message::<10, 0>::try_from_pieces(pieces).is_none());
    assert!(Message::<10, 1>::try_from_pieces(Vec::new()).is_some());
    assert!(Message::<10, 0>::try_from_pieces(Vec::new()).is_none());
    let message = Message::<10, 13>::try_from_pieces(vec![MessagePiece::new(
        cell(7),
        Some(Fp::from_u64(9)),
        12,
    )])
    .unwrap();
    assert_eq!(message.deref()[0].cell(), cell(7));
}
