use rglua::bytes::{cstr, rstr, try_cstr};

#[test]
fn cstr_test() {
    let a = cstr(b"Hello world!");
    assert_eq!(a, b"Hello world!\0".to_vec());
    let back = rstr(&a);
    assert_eq!(back, b"Hello world!".to_vec());
}

#[test]
fn rstr_test() {
    let a = cstr(b"How are you?");
    let b = rstr(&a);
    assert_eq!(b, b"How are you?".to_vec());
}

#[test]
fn cstr_empty() {
    let a = cstr(b"");
    assert_eq!(a, vec![0u8]);
    assert_eq!(rstr(&a), Vec::<u8>::new());
}

#[test]
fn try_cstr_rejects_interior_nul() {
    assert!(try_cstr(b"has\0nul").is_none());
    assert_eq!(try_cstr(b"clean"), Some(b"clean\0".to_vec()));
}

#[test]
fn rstr_stops_at_first_nul() {
    assert_eq!(rstr(b"ab\0cd\0"), b"ab".to_vec());
}
