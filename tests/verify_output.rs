use msrv_reporter::{
    CompatibilityReport, Event, Message, OwnedToolchainSpec, ReportError, Reporter,
    TestReporter, Version, VerifyOutput,
};

fn toolchain() -> OwnedToolchainSpec {
    OwnedToolchainSpec::new(&Version::new(1, 2, 3), "test_target")
}

#[test]
fn reported_compatible_toolchain() {
    let mut reporter = TestReporter::default();
    let event = VerifyOutput::compatible(toolchain());

    reporter.reporter().report_event(Event::from(event.clone())).unwrap();

    assert_eq!(
        reporter.wait_for_events(),
        vec![Event::new(Message::Verify(event)),]
    );
}

fn reported_incompatible_toolchain(error_message: Option<String>) {
    let mut reporter = TestReporter::default();
    let event = VerifyOutput::incompatible(toolchain(), error_message);

    reporter.reporter().report_event(Event::from(event.clone())).unwrap();

    assert_eq!(
        reporter.wait_for_events(),
        vec![Event::new(Message::Verify(event)),]
    );
}

#[test]
fn reported_incompatible_toolchain_none() {
    reported_incompatible_toolchain(None);
}

#[test]
fn reported_incompatible_toolchain_some() {
    reported_incompatible_toolchain(Some("whoo!".to_string()));
}

#[test]
fn compatible_output_is_compatible() {
    let output = VerifyOutput::compatible(toolchain());
    assert!(output.is_compatible());
    assert_eq!(output.compatibility_report(), &CompatibilityReport::Compatible);
    assert_eq!(output.toolchain(), &toolchain());
}

#[test]
fn incompatible_output_keeps_its_error() {
    let output = VerifyOutput::incompatible(toolchain(), Some("whoo!".to_string()));
    assert!(!output.is_compatible());
    assert_eq!(
        output.compatibility_report(),
        &CompatibilityReport::Incompatible { error: Some("whoo!".to_string()) }
    );
    assert_eq!(output.toolchain(), &toolchain());
}

#[test]
fn incompatible_output_without_error() {
    let output = VerifyOutput::incompatible(toolchain(), None);
    assert!(!output.is_compatible());
    assert_eq!(
        output.compatibility_report(),
        &CompatibilityReport::Incompatible { error: None }
    );
}

#[test]
fn compatible_scenario_event_contents() {
    let mut reporter = TestReporter::new();
    reporter
        .report_event(Event::from(VerifyOutput::compatible(toolchain())))
        .unwrap();
    let events = reporter.wait_for_events();
    assert_eq!(events.len(), 1);
    match events[0].message() {
        Message::Verify(output) => {
            assert!(output.is_compatible());
            assert_eq!(output.compatibility_report(), &CompatibilityReport::Compatible);
            assert_eq!(output.toolchain().version(), &Version::new(1, 2, 3));
            assert_eq!(output.toolchain().target(), "test_target");
        }
    }
}

#[test]
fn events_arrive_in_emission_order() {
    let first = Event::from(VerifyOutput::compatible(toolchain()));
    let second = Event::from(VerifyOutput::incompatible(toolchain(), None));
    let third = Event::new(Message::Verify(VerifyOutput::incompatible(
        OwnedToolchainSpec::new(&Version::new(1, 40, 0), "x86_64-unknown-linux-gnu"),
        Some("whoo!".to_string()),
    )));
    let mut reporter = TestReporter::new();
    reporter.report_event(first.clone()).unwrap();
    reporter.report_event(second.clone()).unwrap();
    reporter.report_event(third.clone()).unwrap();
    assert_eq!(reporter.wait_for_events(), vec![first, second, third]);
}

#[test]
fn closed_reporter_without_events_yields_nothing() {
    let mut reporter = TestReporter::default();
    reporter.disconnect();
    assert_eq!(reporter.wait_for_events(), Vec::<Event>::new());
}

#[test]
fn closed_reporter_refuses_events_and_keeps_earlier_ones() {
    let kept = Event::from(VerifyOutput::compatible(toolchain()));
    let mut reporter = TestReporter::new();
    reporter.report_event(kept.clone()).unwrap();
    reporter.disconnect();
    let refused = Event::from(VerifyOutput::incompatible(toolchain(), None));
    assert_eq!(reporter.report_event(refused), Err(ReportError));
    assert_eq!(reporter.wait_for_events(), vec![kept]);
}

#[test]
fn event_from_message_and_from_output_agree() {
    let output = VerifyOutput::incompatible(toolchain(), Some("whoo!".to_string()));
    let a = Event::from(output.clone());
    let b: Event = Message::Verify(output.clone()).into();
    assert_eq!(a, b);
    assert_eq!(a.clone().into_message(), Message::Verify(output));
}

#[test]
fn toolchains_differ_by_version_and_target() {
    let a = toolchain();
    let b = OwnedToolchainSpec::new(&Version::new(1, 2, 4), "test_target");
    let c = OwnedToolchainSpec::new(&Version::new(1, 2, 3), "other_target");
    assert_ne!(a, b);
    assert_ne!(a, c);
    assert!(a < b);
    assert_eq!(a.clone(), a);
}
