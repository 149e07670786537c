use vga_text::interp::accumulate_digit;

#[test]
fn digits_accumulate_and_saturate() {
    assert_eq!(accumulate_digit(0, 7), 7);
    assert_eq!(accumulate_digit(9, 2), 92);
    assert_eq!(accumulate_digit(25, 5), 255);
    assert_eq!(accumulate_digit(25, 6), 255);
    assert_eq!(accumulate_digit(255, 9), 255);
}
