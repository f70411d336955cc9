use chip8::nibbles::{
    combine_three_nibbles, combine_two_nibbles, get_first_nibble, get_second_nibble,
};

#[test]
fn test_get_first_nibble() {
    let byte = 0xAB;
    let first_nibble = get_first_nibble(byte);
    let expected = 0x0A;
    assert_eq!(first_nibble, expected);
}

#[test]
fn test_get_second_nibble() {
    let byte = 0xAB;
    let second_nibble = get_second_nibble(byte);
    let expected = 0x0B;
    assert_eq!(second_nibble, expected);
}

#[test]
fn test_combine_three_nibbles() {
    let nibbles = [0xA, 0xB, 0xC];
    let combined = combine_three_nibbles(nibbles[0], nibbles[1], nibbles[2]);
    let expected = 0x0ABC;
    assert_eq!(combined, expected);
}

#[test]
fn test_combine_two_nibbles() {
    let nibbles = [0xA, 0xB];
    let combined = combine_two_nibbles(nibbles[0], nibbles[1]);
    let expected = 0xAB;
    assert_eq!(combined, expected);
}
