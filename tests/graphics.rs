use blast_blocks::graphics::SquareChar;

#[test]
fn test_square_char_new() {
    let _c = SquareChar::new('a', 'a');
    let _c = SquareChar::new('a', '0');
    let _c = SquareChar::new('0', '0');
    let _c = SquareChar::new('0', ' ');
    let _c = SquareChar::new('0', '_');
    assert_eq!(['0', '_'], _c.0);
}
