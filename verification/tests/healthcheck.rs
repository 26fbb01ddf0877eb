use commit_lsp::healthcheck::{
    section_heading, ComponentState, HealthEvent, HealthReport, ResultExt,
};
use commit_lsp::issue_tracker::UpstreamError;

#[test]
fn silent_report_collects_nothing() {
    let mut health = HealthReport::silent();
    health.set_context("Anything");
    health.report("check", ComponentState::Pass(None));
    health.start("other").warn("careful");
    assert!(health.drain().is_empty());
}

#[test]
fn report_collects_in_order() {
    let mut health = HealthReport::new("commit-lsp");
    health.set_context("User Configuration");
    health.start("open config file").info("File does not exist, using default config.");
    health.start("a").ok();
    health.start("b").ok_with("fine");
    health.start("c").warn("hm");
    health.start("d").error("bad");
    health.start("e").complete(ComponentState::Pass(None));
    let events = health.drain();
    assert_eq!(events.len(), 7);
    assert!(matches!(&events[0], HealthEvent::Section(h) if h == "User Configuration"));
    assert!(matches!(
        &events[1],
        HealthEvent::Checked(n, ComponentState::Info(t))
            if n == "open config file" && t == "File does not exist, using default config."
    ));
    assert!(matches!(&events[2], HealthEvent::Checked(n, ComponentState::Pass(None)) if n == "a"));
    assert!(matches!(
        &events[3],
        HealthEvent::Checked(n, ComponentState::Pass(Some(t))) if n == "b" && t == "fine"
    ));
    assert!(matches!(
        &events[4],
        HealthEvent::Checked(n, ComponentState::Warning(t)) if n == "c" && t == "hm"
    ));
    assert!(matches!(
        &events[5],
        HealthEvent::Checked(n, ComponentState::Error(t)) if n == "d" && t == "bad"
    ));
    assert!(matches!(&events[6], HealthEvent::Checked(n, ComponentState::Pass(None)) if n == "e"));
    assert!(health.drain().is_empty());
}

#[test]
fn results_report_themselves() {
    let mut health = HealthReport::new("x");
    let good: Result<u8, UpstreamError> = Ok(1);
    assert_eq!(good.report(&mut health, "good").unwrap(), 1);
    let bad: Result<u8, UpstreamError> = Err(UpstreamError::Authentication);
    assert!(bad.report(&mut health, "bad").is_err());
    let io: Result<u8, UpstreamError> = Err(UpstreamError::Io("down".to_string()));
    assert!(io.report(&mut health, "io").is_err());
    assert_eq!(Some(3).report(&mut health, "some"), Some(3));
    assert_eq!(None::<u8>.report(&mut health, "none"), None);
    let events = health.drain();
    assert!(matches!(&events[0], HealthEvent::Checked(n, ComponentState::Pass(None)) if n == "good"));
    assert!(matches!(
        &events[1],
        HealthEvent::Checked(n, ComponentState::Error(t)) if n == "bad" && t == "Authentication failed"
    ));
    assert!(matches!(
        &events[2],
        HealthEvent::Checked(n, ComponentState::Error(t))
            if n == "io" && t == "IO Error interacting with remote: down"
    ));
    assert!(matches!(&events[3], HealthEvent::Checked(n, ComponentState::Pass(None)) if n == "some"));
    assert!(matches!(
        &events[4],
        HealthEvent::Checked(n, ComponentState::Error(t)) if n == "none" && t.is_empty()
    ));
}

#[test]
fn heading_is_padded_to_its_width() {
    assert_eq!(
        section_heading("Issue Tracker"),
        format!("{0} Issue Tracker {0}", "-".repeat(32))
    );
    assert_eq!(section_heading(""), format!("{0}  {0}", "-".repeat(39)));
    let long = "x".repeat(90);
    assert_eq!(section_heading(&long), format!(" {long} "));
}

#[test]
fn error_messages() {
    assert_eq!(UpstreamError::Authentication.message(), "Authentication failed");
    assert_eq!(UpstreamError::Other("what".to_string()).message(), "what");
    assert_eq!(
        UpstreamError::Io("no route".to_string()).message(),
        "IO Error interacting with remote: no route"
    );
}
