use thespian::failure::FailureReason;

#[test]
fn failure_reasons_have_their_messages() {
    assert_eq!(FailureReason::DownstreamCallFailure.message(), "(ノಠ益ಠ)ノ彡┻━┻");
    assert_eq!(FailureReason::SimulatedFailure.message(), "¯\\_(ツ)_/¯");
}
