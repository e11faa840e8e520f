use threadporter::text::push_decimal;
use threadporter::thread_bound::write_debug;
use threadporter::{ThreadId, WrongThreadAccess};

#[test]
fn thread_id_keeps_its_number() {
    assert_eq!(ThreadId::new(0).as_u64(), 0);
    assert_eq!(ThreadId::new(17).as_u64(), 17);
    assert_eq!(ThreadId::new(u64::MAX).as_u64(), u64::MAX);
}

#[test]
fn thread_ids_compare_by_number() {
    assert_eq!(ThreadId::new(3), ThreadId::new(3));
    assert_ne!(ThreadId::new(3), ThreadId::new(4));
}

#[test]
fn thread_id_text() {
    assert_eq!(ThreadId::new(0).debug_string(), "ThreadId(0)");
    assert_eq!(ThreadId::new(7).debug_string(), "ThreadId(7)");
    assert_eq!(ThreadId::new(10).debug_string(), "ThreadId(10)");
    assert_eq!(ThreadId::new(12345).debug_string(), "ThreadId(12345)");
    assert_eq!(ThreadId::new(u64::MAX).debug_string(), "ThreadId(18446744073709551615)");
}

#[test]
fn thread_id_text_is_its_debug_form() {
    for n in [0u64, 1, 9, 10, 255, 65536, u64::MAX] {
        let id = ThreadId::new(n);
        assert_eq!(id.debug_string(), format!("{:?}", id));
    }
}

#[test]
fn decimal_is_appended() {
    let mut out = String::from("n=");
    push_decimal(&mut out, 0);
    assert_eq!(out, "n=0");
    push_decimal(&mut out, 9);
    push_decimal(&mut out, 10);
    push_decimal(&mut out, 99);
    push_decimal(&mut out, 100);
    assert_eq!(out, "n=091099100");
    let mut big = String::new();
    push_decimal(&mut big, 1_000_000_007);
    assert_eq!(big, "1000000007");
}

#[test]
fn decimal_agrees_with_the_standard_form() {
    for n in [1u64, 5, 19, 20, 101, 4096, 65535, 9_999_999_999, u64::MAX - 1] {
        let mut out = String::new();
        push_decimal(&mut out, n);
        assert_eq!(out, format!("{}", n));
    }
}

#[test]
fn message_names_type_caller_and_owner() {
    let refusal = WrongThreadAccess { caller: ThreadId::new(12), owner: ThreadId::new(3) };
    assert_eq!(
        refusal.message("alloc::string::String"),
        "cannot use alloc::string::String on thread ThreadId(12) since it belongs to thread ThreadId(3)"
    );
    assert_eq!(
        refusal.message(""),
        "cannot use  on thread ThreadId(12) since it belongs to thread ThreadId(3)"
    );
}

#[test]
fn debug_form_with_and_without_payload() {
    let owner = ThreadId::new(8);
    assert_eq!(write_debug(owner, None), "ThreadBound { thread_id: ThreadId(8) }");
    assert_eq!(
        write_debug(owner, Some("\"x\"")),
        "ThreadBound { thread_id: ThreadId(8), value: \"x\" }"
    );
    assert_eq!(write_debug(owner, Some("")), "ThreadBound { thread_id: ThreadId(8), value:  }");
}
