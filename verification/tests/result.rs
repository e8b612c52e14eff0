use nvim_rs::result::{
    FfiError, NvimError, NvimErrorKind, NvimResult, TAG_EXCEPTION, TAG_NONE, TAG_VALIDATION,
};

#[test]
fn new_ok_converts_to_ok() {
    let r = NvimResult::new_ok();
    assert!(matches!(r.into_result(), Ok(())));
}

#[test]
fn default_converts_to_ok() {
    let r = NvimResult::default();
    assert!(matches!(r.into_result(), Ok(())));
}

#[test]
fn new_ok_ffi_fields() {
    let ffi = NvimResult::new_ok().into_ffi();
    assert_eq!(ffi.tag, TAG_NONE);
    assert!(ffi.msg.is_none());
}

#[test]
fn round_trip_ok() {
    let back = NvimResult::from_result(Ok(())).into_result();
    assert!(matches!(back, Ok(())));
}

#[test]
fn round_trip_exception() {
    let outcome = Err(NvimError {
        kind: NvimErrorKind::Exception,
        msg: String::from("msg"),
    });
    let back = NvimResult::from_result(outcome).into_result();
    let err = back.unwrap_err();
    assert_eq!(err.kind, NvimErrorKind::Exception);
    assert_eq!(err.msg, "msg");
}

#[test]
fn round_trip_validation() {
    let outcome = Err(NvimError {
        kind: NvimErrorKind::Validation,
        msg: String::from("msg"),
    });
    let back = NvimResult::from_result(outcome).into_result();
    let err = back.unwrap_err();
    assert_eq!(err.kind, NvimErrorKind::Validation);
    assert_eq!(err.msg, "msg");
}

#[test]
fn none_representation_is_ok() {
    let mut r = NvimResult::new_ok();
    *r.as_borrowed_ffi_mut() = FfiError {
        tag: TAG_NONE,
        msg: None,
    };
    assert!(r.is_wf());
    assert!(matches!(r.into_result(), Ok(())));
}

#[test]
fn exception_representation_carries_message() {
    let mut r = NvimResult::new_ok();
    *r.as_borrowed_ffi_mut() = FfiError {
        tag: TAG_EXCEPTION,
        msg: Some(String::from("boom")),
    };
    assert!(r.is_wf());
    let err = r.into_result().unwrap_err();
    assert_eq!(err.kind, NvimErrorKind::Exception);
    assert_eq!(err.msg, "boom");
}

#[test]
fn extraction_hands_buffer_out_once() {
    let mut r = NvimResult::new_ok();
    *r.as_borrowed_ffi_mut() = FfiError {
        tag: TAG_EXCEPTION,
        msg: Some(String::from("boom")),
    };
    let ffi = r.into_ffi();
    // `r` was consumed above: only `ffi` owns the message now, and dropping
    // it here is the single release.
    assert_eq!(ffi.tag, TAG_EXCEPTION);
    assert_eq!(ffi.msg.as_deref(), Some("boom"));
}

#[test]
fn validation_outcome_becomes_representation() {
    let outcome = Err(NvimError {
        kind: NvimErrorKind::Validation,
        msg: String::from("bad arg"),
    });
    let r = NvimResult::from_result(outcome);
    assert!(r.is_wf());
    let ffi = r.into_ffi();
    assert_eq!(ffi.tag, TAG_VALIDATION);
    assert_eq!(ffi.msg.as_deref(), Some("bad arg"));
}

#[test]
fn error_tag_without_message_fails_invariant() {
    for tag in [TAG_EXCEPTION, TAG_VALIDATION] {
        let mut r = NvimResult::new_ok();
        *r.as_borrowed_ffi_mut() = FfiError { tag, msg: None };
        assert!(!r.is_wf());
    }
}

#[test]
fn ok_tag_with_message_fails_invariant() {
    let mut r = NvimResult::new_ok();
    *r.as_borrowed_ffi_mut() = FfiError {
        tag: TAG_NONE,
        msg: Some(String::from("stray")),
    };
    assert!(!r.is_wf());
}

#[test]
fn unknown_tag_fails_invariant() {
    for tag in [-1, 3, 7, i32::MAX] {
        let mut r = NvimResult::new_ok();
        *r.as_borrowed_ffi_mut() = FfiError {
            tag,
            msg: Some(String::from("whatever")),
        };
        assert!(!r.is_wf());
    }
}

#[test]
fn well_formed_representations_pass_invariant() {
    let r = NvimResult::new_ok();
    assert!(r.is_wf());
    let mut e = NvimResult::new_ok();
    *e.as_borrowed_ffi_mut() = FfiError {
        tag: TAG_VALIDATION,
        msg: Some(String::from("why")),
    };
    assert!(e.is_wf());
}

#[test]
fn display_text_writes_label_once() {
    let e = NvimError {
        kind: NvimErrorKind::Exception,
        msg: String::from("boom"),
    };
    assert_eq!(e.display_text(), "Exception: boom");
    let v = NvimError {
        kind: NvimErrorKind::Validation,
        msg: String::from("bad arg"),
    };
    assert_eq!(v.display_text(), "Validation: bad arg");
}

#[test]
fn tag_constants_are_distinct() {
    assert_ne!(TAG_NONE, TAG_EXCEPTION);
    assert_ne!(TAG_NONE, TAG_VALIDATION);
    assert_ne!(TAG_EXCEPTION, TAG_VALIDATION);
}
