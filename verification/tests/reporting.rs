use fuzzor::monitor::{quits_on, CampaignEvent, ProjectEvent, SolutionReportingMonitor};
use fuzzor::pattern::named_capture;
use fuzzor::reporter::{Solution, SolutionMetadata, StdErrSolutionReporter};

fn solution(metadata: SolutionMetadata) -> Solution {
    Solution { id: "42".to_string(), input_base64: "AAE=".to_string(), metadata }
}

#[test]
fn crash_report() {
    let text = StdErrSolutionReporter.report_text(
        "bitcoin",
        "process_message",
        &solution(SolutionMetadata::Crash("#0 main".to_string())),
    );
    assert_eq!(
        text,
        "New crash id='42' (project='bitcoin' harness='process_message')\n Base64: AAE= \n ===== stack trace ===== \n #0 main \n"
    );
}

#[test]
fn differential_and_timeout_reports() {
    let d = StdErrSolutionReporter.report_text(
        "p",
        "h",
        &solution(SolutionMetadata::Differential("diff".to_string())),
    );
    assert_eq!(
        d,
        "New differential solution (project='p' harness='h')\n Base64: AAE= \n ===== stack trace ===== \n diff"
    );
    let t = StdErrSolutionReporter.report_text(
        "p",
        "h",
        &solution(SolutionMetadata::Timeout("slow".to_string())),
    );
    assert_eq!(t, "New timeout (project='p' harness='h')\n Base64: AAE=");
}

#[test]
fn monitors_decide() {
    let m = SolutionReportingMonitor::new(StdErrSolutionReporter);
    let s = solution(SolutionMetadata::Crash("t".to_string()));
    let r = m.solution_to_report(CampaignEvent::NewSolution("h".to_string(), s));
    assert_eq!(r.map(|(h, s)| (h, s.id)), Some(("h".to_string(), "42".to_string())));
    assert!(m.solution_to_report(CampaignEvent::Other).is_none());
    assert!(quits_on(ProjectEvent::BuildFailure));
    assert!(!quits_on(ProjectEvent::Other));
}

#[test]
fn regex_capture_wrapper() {
    assert_eq!(
        named_capture("id=(?<v>[0-9]+)", "v", "x id=17 y"),
        Some(Some("17".to_string()))
    );
    assert_eq!(named_capture("id=(?<v>[0-9]+)", "v", "nothing"), Some(None));
    assert_eq!(named_capture("id=(?<v>[0-9]+)", "w", "id=3"), Some(None));
    assert_eq!(named_capture("(unclosed", "v", "x"), None);
}
