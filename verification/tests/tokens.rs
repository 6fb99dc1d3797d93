use zenity_dialog::dialog::Calendar;
use zenity_dialog::dialog::Entry;
use zenity_dialog::dialog::Error as ErrorDialog;
use zenity_dialog::dialog::Icon;
use zenity_dialog::dialog::Info;
use zenity_dialog::dialog::Month;
use zenity_dialog::dialog::ToArgVector;
use zenity_dialog::numfmt::isize_to_string;
use zenity_dialog::numfmt::u64_to_string;
use zenity_dialog::numfmt::usize_to_string;
use zenity_dialog::Arg;
use zenity_dialog::ZenityDialog;

#[test]
fn arg_render_plain_name() {
    let arg = Arg::new("foo".to_string());
    assert_eq!(arg.render(), "--foo");
}

#[test]
fn arg_render_name_already_prefixed() {
    let arg = Arg::new("--foo".to_string());
    assert_eq!(arg.render(), "--foo");
}

#[test]
fn arg_render_with_value() {
    let arg = Arg::with_value("ok-label".to_string(), "Sure".to_string());
    assert_eq!(arg.render(), "--ok-label=Sure");
}

#[test]
fn arg_render_prefixed_with_value() {
    let arg = Arg::with_value("--ok-label".to_string(), "Sure".to_string());
    assert_eq!(arg.render(), "--ok-label=Sure");
}

#[test]
fn info_kind_flag_only_when_unset() {
    let args = Info::new().to_argv();
    assert_eq!(args, vec!["--info".to_string()]);
}

#[test]
fn default_matches_new_for_each_kind() {
    assert_eq!(Info::default().to_argv(), Info::new().to_argv());
    assert_eq!(Entry::default().to_argv(), Entry::new().to_argv());
    assert_eq!(ErrorDialog::default().to_argv(), ErrorDialog::new().to_argv());
    assert_eq!(Calendar::default().to_argv(), Calendar::new().to_argv());
}

#[test]
fn info_tokens_in_fixed_order() {
    let args = Info::new()
        .with_text("Hello".to_string())
        .with_ok_label("Fine".to_string())
        .set_no_wrap()
        .set_no_markup()
        .set_ellipsize()
        .to_argv();
    assert_eq!(
        args,
        vec![
            "--info".to_string(),
            "--text=Hello".to_string(),
            "--ok-label=Fine".to_string(),
            "--no-wrap".to_string(),
            "--no-markup".to_string(),
            "--ellipsize".to_string(),
        ]
    );
}

#[test]
fn info_set_field_contributes_exactly_one_token() {
    let args = Info::new().with_ok_label("Fine".to_string()).to_argv();
    assert_eq!(args, vec!["--info".to_string(), "--ok-label=Fine".to_string()]);
}

#[test]
fn entry_tokens_in_fixed_order() {
    let args = Entry::new()
        .with_text("Name?".to_string())
        .with_entry_text("nobody".to_string())
        .set_hide_text()
        .to_argv();
    assert_eq!(
        args,
        vec![
            "--entry".to_string(),
            "--text=Name?".to_string(),
            "--entry-text=nobody".to_string(),
            "--hide-text".to_string(),
        ]
    );
}

#[test]
fn error_tokens_in_fixed_order() {
    let args = ErrorDialog::new()
        .with_text("Boom".to_string())
        .set_no_wrap()
        .set_no_markup()
        .to_argv();
    assert_eq!(
        args,
        vec![
            "--error".to_string(),
            "--text=Boom".to_string(),
            "--no-wrap".to_string(),
            "--no-markup".to_string(),
        ]
    );
}

#[test]
fn calendar_month_december_renders_twelve() {
    let args = Calendar::new().with_month(Month::December).to_argv();
    assert_eq!(args, vec!["--calendar".to_string(), "--month=12".to_string()]);
}

#[test]
fn calendar_tokens_in_fixed_order() {
    let args = Calendar::new()
        .with_text("Pick a day".to_string())
        .with_day(24)
        .with_month(Month::April)
        .with_year(-44)
        .with_format("%Y-%m-%d".to_string())
        .to_argv();
    assert_eq!(
        args,
        vec![
            "--calendar".to_string(),
            "--text=Pick a day".to_string(),
            "--day=24".to_string(),
            "--month=4".to_string(),
            "--year=-44".to_string(),
            "--date-format=%Y-%m-%d".to_string(),
        ]
    );
}

#[test]
fn month_numbers_run_from_one_to_twelve() {
    let months = [
        Month::January,
        Month::Feburary,
        Month::March,
        Month::April,
        Month::May,
        Month::June,
        Month::July,
        Month::August,
        Month::September,
        Month::October,
        Month::November,
        Month::December,
    ];
    for (index, month) in months.iter().enumerate() {
        assert_eq!(month.as_number() as usize, index + 1);
    }
}

#[test]
fn dialog_argv_shared_fields_in_fixed_order() {
    let mut dialog = ZenityDialog::new(Info::new().with_text("Hi".to_string()))
        .with_title("Greeting".to_string())
        .with_icon(Icon::Question)
        .with_width(300)
        .with_height(200)
        .with_timeout(30)
        .with_modal_hint("modal".to_string())
        .with_additional_arg(Arg::new("no-markup".to_string()));
    let args = dialog.get_argv();
    assert_eq!(
        args,
        vec![
            "--info".to_string(),
            "--text=Hi".to_string(),
            "--title=Greeting".to_string(),
            "--icon-name=question".to_string(),
            "--width=300".to_string(),
            "--height=200".to_string(),
            "--timeout=30".to_string(),
            "--modal=modal".to_string(),
            "--no-markup".to_string(),
        ]
    );
}

#[test]
fn dialog_argv_drains_additional_args() {
    let mut dialog = ZenityDialog::new(Info::new())
        .with_additional_args(vec![
            Arg::new("--no-wrap".to_string()),
            Arg::with_value("timeout".to_string(), "5".to_string()),
        ]);
    let first = dialog.get_argv();
    assert_eq!(
        first,
        vec!["--info".to_string(), "--no-wrap".to_string(), "--timeout=5".to_string()]
    );
    let second = dialog.get_argv();
    assert_eq!(second, vec!["--info".to_string()]);
}

#[test]
fn extra_button_token_comes_last() {
    let mut dialog = ZenityDialog::new(Info::new())
        .with_extra_button("Maybe".to_string())
        .with_title("T".to_string())
        .with_additional_arg(Arg::new("no-wrap".to_string()));
    let args = dialog.get_argv();
    assert_eq!(
        args,
        vec![
            "--info".to_string(),
            "--title=T".to_string(),
            "--no-wrap".to_string(),
            "--extra-button=Maybe".to_string(),
        ]
    );
}

#[test]
fn icon_renders_lowercase_tag_or_path() {
    assert_eq!(Icon::Error.render(), "error");
    assert_eq!(Icon::Info.render(), "info");
    assert_eq!(Icon::Question.render(), "question");
    assert_eq!(Icon::Warning.render(), "warning");
    assert_eq!(Icon::IconPath("/tmp/icon.png".to_string()).render(), "/tmp/icon.png");
}

#[test]
fn decimal_rendering_exact_values() {
    assert_eq!(u64_to_string(0), "0");
    assert_eq!(u64_to_string(7), "7");
    assert_eq!(u64_to_string(1234567890), "1234567890");
    assert_eq!(u64_to_string(u64::MAX), "18446744073709551615");
    assert_eq!(usize_to_string(42), "42");
    assert_eq!(isize_to_string(0), "0");
    assert_eq!(isize_to_string(-1), "-1");
    assert_eq!(isize_to_string(isize::MIN), "-9223372036854775808");
}
