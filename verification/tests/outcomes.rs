use zenity_dialog::dialog::Calendar;
use zenity_dialog::dialog::Date;
use zenity_dialog::dialog::Info;
use zenity_dialog::dialog::ZenityApplication;
use zenity_dialog::Error;
use zenity_dialog::ZenityDialog;
use zenity_dialog::ZenityOutput;
use zenity_dialog::ZenityOutputExtButton;

fn info_dialog() -> ZenityDialog<Info> {
    ZenityDialog::new(Info::new().with_text("Hello".to_string()))
}

#[test]
fn affirmed_without_content() {
    let out = info_dialog().classify_output(0, "", String::new());
    assert_eq!(out, Ok(ZenityOutput::Affirmed { content: None }));
}

#[test]
fn affirmed_with_content() {
    let out = info_dialog().classify_output(0, "Custom Ok", String::new());
    assert_eq!(out, Ok(ZenityOutput::Affirmed { content: Some("Custom Ok".to_string()) }));
}

#[test]
fn both_reject_codes_are_equivalent() {
    let one = info_dialog().classify_output(1, "", String::new());
    let other = info_dialog().classify_output(256, "", String::new());
    assert_eq!(one, Ok(ZenityOutput::Rejected { content: None }));
    assert_eq!(other, Ok(ZenityOutput::Rejected { content: None }));
}

#[test]
fn rejected_with_content() {
    let out = info_dialog().classify_output(256, "Nah", String::new());
    assert_eq!(out, Ok(ZenityOutput::Rejected { content: Some("Nah".to_string()) }));
}

#[test]
fn stdout_is_trimmed_before_classification() {
    let out = info_dialog().classify_output(1, "  hello  \n", String::new());
    assert_eq!(out, Ok(ZenityOutput::Rejected { content: Some("hello".to_string()) }));
}

#[test]
fn whitespace_only_stdout_counts_as_empty() {
    let out = info_dialog().classify_output(0, " \n\t ", String::new());
    assert_eq!(out, Ok(ZenityOutput::Affirmed { content: None }));
}

#[test]
fn unknown_exit_code_is_surfaced_verbatim() {
    let out = info_dialog().classify_output(42, "odd", "noise".to_string());
    assert_eq!(
        out,
        Ok(ZenityOutput::Unknown {
            exit_code: 42,
            stdout: "odd".to_string(),
            stderr: "noise".to_string(),
        })
    );
}

#[test]
fn classification_is_deterministic() {
    let first = info_dialog().classify_output(1, "same", "err".to_string());
    let second = info_dialog().classify_output(1, "same", "err".to_string());
    assert_eq!(first, second);
}

#[test]
fn extra_button_label_match_remaps_rejection() {
    let dialog = info_dialog().with_extra_button("Maybe".to_string());
    let out = dialog.classify_output(1, "Maybe", String::new());
    assert_eq!(out, Ok(ZenityOutputExtButton::ExtButton { content: "Maybe".to_string() }));
}

#[test]
fn extra_button_other_rejection_passes_through() {
    let dialog = info_dialog().with_extra_button("Maybe".to_string());
    let out = dialog.classify_output(1, "Other", String::new());
    assert_eq!(out, Ok(ZenityOutputExtButton::Rejected { content: Some("Other".to_string()) }));
}

#[test]
fn extra_button_empty_rejection_stays_rejected() {
    let dialog = info_dialog().with_extra_button("Maybe".to_string());
    let out = dialog.classify_output(256, "", String::new());
    assert_eq!(out, Ok(ZenityOutputExtButton::Rejected { content: None }));
}

#[test]
fn extra_button_affirmation_passes_through() {
    let dialog = info_dialog().with_extra_button("Maybe".to_string());
    let out = dialog.classify_output(0, "Maybe", String::new());
    assert_eq!(out, Ok(ZenityOutputExtButton::Affirmed { content: Some("Maybe".to_string()) }));
}

#[test]
fn from_output_retags_field_for_field() {
    let unknown: ZenityOutput<String> = ZenityOutput::Unknown {
        exit_code: 9,
        stdout: "s".to_string(),
        stderr: "e".to_string(),
    };
    assert_eq!(
        ZenityOutputExtButton::from_output(unknown),
        ZenityOutputExtButton::Unknown {
            exit_code: 9,
            stdout: "s".to_string(),
            stderr: "e".to_string(),
        }
    );
}

#[test]
fn calendar_parses_default_format() {
    let date = Calendar::new().parse("05/09/15").unwrap();
    assert_eq!(date, Date { year: 2015, month: 9, day: 5 });
}

#[test]
fn calendar_parses_custom_format() {
    let calendar = Calendar::new().with_format("%Y-%m-%d".to_string());
    let date = calendar.parse("1984-02-29").unwrap();
    assert_eq!(date, Date { year: 1984, month: 2, day: 29 });
}

#[test]
fn calendar_parse_trims_input() {
    let date = Calendar::new().parse("  05/09/15\n").unwrap();
    assert_eq!(date, Date { year: 2015, month: 9, day: 5 });
}

#[test]
fn calendar_parse_failure_is_parse_error() {
    let result = Calendar::new().parse("not a date");
    assert!(matches!(result, Err(Error::ParseResultFailure(_))));
}

#[test]
fn calendar_classification_carries_parsed_date() {
    let dialog = ZenityDialog::new(Calendar::new());
    let out = dialog.classify_output(0, "24/12/99\n", String::new());
    assert_eq!(
        out,
        Ok(ZenityOutput::Affirmed { content: Some(Date { year: 1999, month: 12, day: 24 }) })
    );
}

#[test]
fn calendar_classification_parse_failure_is_fatal() {
    let dialog = ZenityDialog::new(Calendar::new());
    let out = dialog.classify_output(0, "gibberish", String::new());
    assert!(matches!(out, Err(Error::ParseResultFailure(_))));
}

#[test]
fn info_parse_is_identity() {
    let parsed = Info::new().parse("anything at all").unwrap();
    assert_eq!(parsed, "anything at all");
}

#[test]
fn error_messages_name_each_kind() {
    assert_eq!(
        Error::ZenityNotInstalled("why".to_string()).message(),
        "Zenity is not installed: why"
    );
    assert_eq!(
        Error::UnexpectedIoError("why".to_string()).message(),
        "Unexpected io error occured: why"
    );
    assert_eq!(
        Error::InvalidUtf8FromStdout("why".to_string()).message(),
        "Failed to decode stdout as utf-8: why"
    );
    assert_eq!(Error::MissingExitCode.message(), "Zenity failed to return an exit code.");
    assert_eq!(
        Error::ParseResultFailure("why".to_string()).message(),
        "Failed to parse the output: why"
    );
}
