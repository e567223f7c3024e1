use openfx_playground::status::{
    kOfxStatErrBadIndex, kOfxStatErrFatal, kOfxStatErrMissingHostFeature, kOfxStatErrUnsupported,
    kOfxStatFailed, kOfxStatOK, kOfxStatReplyDefault, ofx_ok, status_from_result,
};

#[test]
fn ok_status_reads_as_success() {
    assert_eq!(ofx_ok(kOfxStatOK), Ok(()));
}

#[test]
fn failing_status_reads_as_its_error() {
    assert_eq!(ofx_ok(kOfxStatErrFatal), Err(kOfxStatErrFatal));
    assert_eq!(ofx_ok(-7), Err(-7));
}

#[test]
fn result_reports_its_status() {
    assert_eq!(status_from_result(Ok(())), kOfxStatOK);
    assert_eq!(status_from_result(Err(kOfxStatReplyDefault)), kOfxStatReplyDefault);
}

#[test]
fn status_round_trip_holds_for_every_status() {
    for s in [-3, 0, 1, 2, 5, 14, 1000] {
        assert_eq!(status_from_result(ofx_ok(s)), s);
    }
}

#[test]
fn result_round_trip_except_ok_failure() {
    for r in [Ok(()), Err(kOfxStatErrUnsupported), Err(3)] {
        assert_eq!(ofx_ok(status_from_result(r)), r);
    }
    assert_eq!(ofx_ok(status_from_result(Err(kOfxStatOK))), Ok(()));
}

#[test]
fn status_codes_have_their_openfx_values() {
    assert_eq!(kOfxStatOK, 0);
    assert_eq!(kOfxStatFailed, 1);
    assert_eq!(kOfxStatErrFatal, 2);
    assert_eq!(kOfxStatErrMissingHostFeature, 4);
    assert_eq!(kOfxStatErrUnsupported, 5);
    assert_eq!(kOfxStatErrBadIndex, 10);
    assert_eq!(kOfxStatReplyDefault, 14);
}
