/// Two live `&mut` borrows of one location are expected to violate
/// memory-safety guarantees: the borrow checker rejects them, and safe code
/// has no way to make them. The two exclusive borrows below are taken one
/// after the other, which is all that is allowed; moving the second borrow
/// above the last use of the first does not compile.
#[test]
fn this_should_fail() {
    let mut x: i32 = 42;
    let x1: &mut i32 = &mut x;
    let seen: i32 = *x1;
    let x2: &mut i32 = &mut x;
    println!("{} {}", seen, x2);
    assert_eq!(seen, *x2);
}
