use photo_sort::analysis::name_formatters::{
    resolve, BracketInfo, BracketedFormat, FileType, FormatDate, FormatDuplicate, FormatError,
    FormatExtension, FormatFileType, FormatName, FormatOriginalFileName, FormatOriginalName,
    Formatter, FormatterFailure, NameFormatter, NameFormatterInvocationInfo,
};
use photo_sort::datetime::DateTime;

fn info() -> NameFormatterInvocationInfo {
    NameFormatterInvocationInfo {
        date: Some(DateTime { year: 2023, month: 1, day: 2, hour: 10, minute: 20, second: 30 }),
        date_string: "20230102-102030".to_string(),
        date_default_format: "%Y%m%d-%H%M%S".to_string(),
        file_type: FileType::Image,
        cleaned_name: "holiday".to_string(),
        original_name: "IMG_holiday".to_string(),
        original_filename: "IMG_holiday.jpg".to_string(),
        duplicate_counter: None,
        extension: "jpg".to_string(),
        bracket_info: None,
    }
}

fn bracket() -> BracketInfo {
    BracketInfo {
        sequence_number: 2,
        first: "/in/DSC001.ARW".to_string(),
        last: "/in/DSC003.ARW".to_string(),
        first_name: "DSC001".to_string(),
        last_name: "DSC003".to_string(),
        sequence_length: 3,
        group_index: 7,
    }
}

fn standard() -> Vec<Formatter> {
    vec![
        Formatter::Name(FormatName::default()),
        Formatter::OriginalName(FormatOriginalName::default()),
        Formatter::OriginalFileName(FormatOriginalFileName::default()),
        Formatter::Duplicate(FormatDuplicate::default()),
        Formatter::Date(FormatDate::default()),
        Formatter::FileType(FormatFileType::default()),
        Formatter::Extension(FormatExtension::default()),
        Formatter::Bracketed(BracketedFormat::default()),
    ]
}

#[test]
fn name_formatter_answers_name_and_n_only() {
    let f = FormatName::default();
    assert!(f.matches("name"));
    assert!(f.matches("n"));
    assert!(!f.matches("names"));
    assert!(!f.matches("name?x"));
    assert!(!f.matches(""));
    assert_eq!(f.replacement_text("name", &info()), Ok("holiday".to_string()));
}

#[test]
fn original_name_formatters_give_the_names_as_found() {
    let on = FormatOriginalName::default();
    let ofn = FormatOriginalFileName::default();
    assert!(on.matches("original_name") && on.matches("on"));
    assert!(ofn.matches("original_filename") && ofn.matches("ofn"));
    assert!(!on.matches("ofn") && !ofn.matches("on"));
    assert_eq!(on.replacement_text("on", &info()), Ok("IMG_holiday".to_string()));
    assert_eq!(ofn.replacement_text("ofn", &info()), Ok("IMG_holiday.jpg".to_string()));
}

#[test]
fn date_formatter_uses_argument_or_default_format() {
    let f = FormatDate::default();
    assert!(f.matches("date") && f.matches("d") && f.matches("date?%Y") && f.matches("d?%H:%M"));
    assert!(!f.matches("date?"));
    assert!(!f.matches("date?%Y\n"));
    assert!(!f.matches("dates"));
    assert_eq!(f.replacement_text("date", &info()), Ok("20230102-102030".to_string()));
    assert_eq!(f.replacement_text("date?%Y/%m", &info()), Ok("2023/01".to_string()));
    assert_eq!(f.replacement_text("d?%H?%M", &info()), Ok("10?20".to_string()));
}

#[test]
fn date_formatter_without_date_gives_nodate() {
    let mut i = info();
    i.date = None;
    let f = FormatDate::default();
    assert_eq!(f.replacement_text("date", &i), Ok("NODATE".to_string()));
    assert_eq!(f.replacement_text("date?%Y", &i), Ok("NODATE".to_string()));
}

#[test]
fn date_formatter_refuses_a_bad_format_string() {
    let f = FormatDate::default();
    assert_eq!(f.replacement_text("date?%Q", &info()), Err(FormatterFailure::InvalidDateFormat));
}

#[test]
fn duplicate_formatter_gives_counter_or_nothing() {
    let f = FormatDuplicate::default();
    assert!(f.matches("dup") && f.matches("duplicate") && !f.matches("dupe"));
    let mut i = info();
    assert_eq!(f.replacement_text("dup", &i), Ok(String::new()));
    i.duplicate_counter = Some(1);
    assert_eq!(f.replacement_text("dup", &i), Ok("1".to_string()));
    i.duplicate_counter = Some(1203);
    assert_eq!(f.replacement_text("dup", &i), Ok("1203".to_string()));
    i.duplicate_counter = Some(u32::MAX);
    assert_eq!(f.replacement_text("dup", &i), Ok("4294967295".to_string()));
    i.duplicate_counter = Some(0);
    assert_eq!(f.replacement_text("dup", &i), Ok("0".to_string()));
}

#[test]
fn extension_upper_and_copy() {
    let f = FormatExtension::default();
    assert_eq!(f.replacement_text("ext?upper", &info()), Ok("JPG".to_string()));
    assert_eq!(f.replacement_text("ext?copy", &info()), Ok("jpg".to_string()));
    assert_eq!(f.replacement_text("ext", &info()), Ok("jpg".to_string()));
}

#[test]
fn extension_options() {
    let f = FormatExtension::default();
    let mut i = info();
    i.extension = "JpG".to_string();
    for option in ["lower", "low", "lowercase", "l"] {
        assert_eq!(f.replacement_text(&format!("ext?{}", option), &i), Ok("jpg".to_string()));
    }
    for option in ["upper", "up", "uppercase", "u"] {
        assert_eq!(f.replacement_text(&format!("extension?{}", option), &i), Ok("JPG".to_string()));
    }
    for option in ["copy", "normal", "standard", "pass", "p"] {
        assert_eq!(f.replacement_text(&format!("ext?{}", option), &i), Ok("JpG".to_string()));
    }
    assert_eq!(f.replacement_text("ext?mixed", &i), Err(FormatterFailure::UnknownExtensionFormat));
    assert!(f.matches("ext?mixed"));
    assert!(!f.matches("ext?"));
    assert!(!f.matches("exte"));
}

#[test]
fn file_type_labels() {
    let f = FormatFileType::default();
    assert!(f.matches("ftype") && f.matches("type") && f.matches("t"));
    assert!(f.matches("type?a,b") && f.matches("type?a") && f.matches("type?") && f.matches("t?,b"));
    assert!(!f.matches("type?a,b,c"));
    assert!(!f.matches("type?a\n"));
    let mut i = info();
    assert_eq!(f.replacement_text("type", &i), Ok("IMG".to_string()));
    assert_eq!(f.replacement_text("type?pic,clip", &i), Ok("pic".to_string()));
    assert_eq!(f.replacement_text("type?", &i), Ok(String::new()));
    i.file_type = FileType::Video;
    assert_eq!(f.replacement_text("type", &i), Ok("MOV".to_string()));
    assert_eq!(f.replacement_text("type?pic,clip", &i), Ok("clip".to_string()));
    assert_eq!(f.replacement_text("type?pic", &i), Ok("MOV".to_string()));
    i.file_type = FileType::Other;
    assert_eq!(f.replacement_text("type", &i), Ok(String::new()));
    assert_eq!(f.replacement_text("type?pic,clip", &i), Ok(String::new()));
}

#[test]
fn bracket_fields() {
    let f = BracketedFormat::default();
    let mut i = info();
    i.bracket_info = Some(bracket());
    for a in ["seq", "index"] {
        assert_eq!(f.replacement_text(&format!("bracket?{}", a), &i), Ok("2".to_string()));
    }
    for a in ["name", "name_first", "first"] {
        assert_eq!(f.replacement_text(&format!("b?{}", a), &i), Ok("DSC001".to_string()));
    }
    for a in ["name_last", "last"] {
        assert_eq!(f.replacement_text(&format!("bracketed?{}", a), &i), Ok("DSC003".to_string()));
    }
    for a in ["len", "length"] {
        assert_eq!(f.replacement_text(&format!("b?{}", a), &i), Ok("3".to_string()));
    }
    for a in ["group", "grp", "num"] {
        assert_eq!(f.replacement_text(&format!("b?{}", a), &i), Ok("7".to_string()));
    }
}

#[test]
fn bracket_seq_outside_a_group_is_empty() {
    let f = BracketedFormat::default();
    assert!(f.matches("bracket?seq"));
    assert_eq!(f.replacement_text("bracket?seq", &info()), Ok(String::new()));
    assert_eq!(resolve(&standard(), "bracket?seq", &info()), Ok(String::new()));
}

#[test]
fn bracket_argument_errors() {
    let f = BracketedFormat::default();
    assert!(f.matches("bracket") && f.matches("bracket?") && f.matches("b?nonsense"));
    assert!(!f.matches("bracket?seq\n"));
    assert_eq!(f.replacement_text("bracket", &info()), Err(FormatterFailure::MissingBracketArgument));
    assert_eq!(f.replacement_text("bracket?", &info()), Err(FormatterFailure::UnknownBracketArgument));
    let mut i = info();
    i.bracket_info = Some(bracket());
    assert_eq!(f.replacement_text("b?nonsense", &i), Err(FormatterFailure::UnknownBracketArgument));
}

#[test]
fn unknown_command_is_an_error() {
    assert_eq!(
        resolve(&standard(), "foo", &info()),
        Err(FormatError::UnknownCommand("foo".to_string()))
    );
    assert_eq!(
        resolve(&Vec::new(), "name", &info()),
        Err(FormatError::UnknownCommand("name".to_string()))
    );
}

#[test]
fn name_resolves_to_cleaned_name_in_any_registry() {
    let mut reversed = standard();
    reversed.reverse();
    assert_eq!(resolve(&standard(), "name", &info()), Ok("holiday".to_string()));
    assert_eq!(resolve(&reversed, "n", &info()), Ok("holiday".to_string()));
    let only = vec![Formatter::Date(FormatDate::default()), Formatter::Name(FormatName::default())];
    assert_eq!(resolve(&only, "name", &info()), Ok("holiday".to_string()));
}

#[test]
fn failure_of_the_first_match_is_final() {
    assert_eq!(
        resolve(&standard(), "ext?mixed", &info()),
        Err(FormatError::Failed("ext?mixed".to_string(), FormatterFailure::UnknownExtensionFormat))
    );
    assert_eq!(
        resolve(&standard(), "bracket", &info()),
        Err(FormatError::Failed("bracket".to_string(), FormatterFailure::MissingBracketArgument))
    );
}
