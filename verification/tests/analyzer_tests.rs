use photo_sort::action::{ActionMode, ActualAction};
use photo_sort::analysis::exif2date::MetadataError;
use photo_sort::analysis::filename2date::NaiveFileNameParser;
use photo_sort::analysis::name_formatters::{
    BracketInfo, BracketedFormat, FileType, FormatDate, FormatDuplicate, FormatError,
    FormatExtension, FormatFileType, FormatName, FormatOriginalFileName, FormatOriginalName,
    Formatter,
};
use photo_sort::analyzer::{
    contains_text, AnalyzeError, FileJob, MetadataReading, MetadataSource, PendingFile, Resolution, Routing,
    RunError, SetupError, SourceFile,
};
use photo_sort::datetime::DateTime;
use photo_sort::{AnalysisType, Analyzer, AnalyzerSettings};

fn settings(kind: AnalysisType, template: &str) -> AnalyzerSettings {
    AnalyzerSettings {
        analysis_type: kind,
        source_dirs: vec!["in".to_string()],
        target_dir: "out".to_string(),
        recursive_source: false,
        file_format: template.to_string(),
        nodate_file_format: "NODATE_{name}{dup}.{ext}".to_string(),
        unknown_file_format: None,
        bracketed_file_format: None,
        date_format: "%Y%m%d-%H%M%S".to_string(),
        extensions: vec!["jpg".to_string(), "png".to_string(), "both".to_string()],
        video_extensions: vec!["mp4".to_string(), "both".to_string()],
        action_type: ActionMode::Execute(ActualAction::Copy),
        mkdir: true,
    }
}

fn analyzer_with(s: AnalyzerSettings) -> Analyzer<NaiveFileNameParser> {
    let mut a = Analyzer::new(s, true, &vec![true]).unwrap();
    a.add_transformer(NaiveFileNameParser::default());
    a.add_formatter(Formatter::Name(FormatName::default()));
    a.add_formatter(Formatter::OriginalName(FormatOriginalName::default()));
    a.add_formatter(Formatter::OriginalFileName(FormatOriginalFileName::default()));
    a.add_formatter(Formatter::Duplicate(FormatDuplicate::default()));
    a.add_formatter(Formatter::Date(FormatDate::default()));
    a.add_formatter(Formatter::FileType(FormatFileType::default()));
    a.add_formatter(Formatter::Extension(FormatExtension::default()));
    a.add_formatter(Formatter::Bracketed(BracketedFormat::default()));
    a
}

fn analyzer(kind: AnalysisType) -> Analyzer<NaiveFileNameParser> {
    analyzer_with(settings(kind, "{type}_{date}_{name}{dup}.{ext}"))
}

fn source(name: &str, stem: &str, extension: Option<&str>) -> SourceFile {
    SourceFile {
        path: format!("in/{}", name),
        parent: Some("in".to_string()),
        file_name: name.to_string(),
        stem: stem.to_string(),
        extension: extension.map(|e| e.to_string()),
    }
}

fn text(t: &str) -> MetadataReading {
    MetadataReading::Text(t.to_string())
}

fn date(year: i32, month: u32, day: u32, hour: u32, minute: u32, second: u32) -> DateTime {
    DateTime { year, month, day, hour, minute, second }
}

fn resolve_against(a: &Analyzer<NaiveFileNameParser>, start: PendingFile, taken: &[&str]) -> FileJob {
    let mut pending = start;
    let mut counters = Vec::new();
    loop {
        counters.push(pending.info.duplicate_counter);
        let exists = taken.contains(&pending.target.join("/").as_str());
        match a.resolve_duplicate(pending, exists).unwrap() {
            Resolution::Ready(job) => {
                for (i, c) in counters.iter().enumerate() {
                    assert_eq!(*c, if i == 0 { None } else { Some(i as u32) });
                }
                return job;
            }
            Resolution::Probe(next) => pending = next,
        }
    }
}

#[test]
fn analysis_types_are_read_in_any_case() {
    for w in ["only_exif", "exif", "EXIF"] {
        assert_eq!(AnalysisType::from_str(w), Ok(AnalysisType::OnlyExif));
    }
    for w in ["only_name", "name", "Name"] {
        assert_eq!(AnalysisType::from_str(w), Ok(AnalysisType::OnlyName));
    }
    for w in ["exif_then_name", "exif_name"] {
        assert_eq!(AnalysisType::from_str(w), Ok(AnalysisType::ExifThenName));
    }
    for w in ["name_then_exif", "NAME_EXIF"] {
        assert_eq!(AnalysisType::from_str(w), Ok(AnalysisType::NameThenExif));
    }
    assert_eq!(AnalysisType::from_str("both"), Err(SetupError::InvalidAnalysisType));
    assert_eq!(AnalysisType::from_lowercase("EXIF"), None);
}

#[test]
fn setup_needs_the_directories() {
    let s = || {
        let mut s = settings(AnalysisType::OnlyName, "{name}");
        s.source_dirs = vec!["a".to_string(), "b".to_string(), "c".to_string()];
        s
    };
    let new = |target: bool, sources: Vec<bool>| {
        Analyzer::<NaiveFileNameParser>::new(s(), target, &sources).map(|a| {
            (a.name_transformers.len(), a.name_formatters.len(), a.settings == s())
        })
    };
    assert_eq!(new(true, vec![true, true, true]), Ok((0, 0, true)));
    assert_eq!(new(false, vec![true, true, true]), Err(SetupError::TargetDirMissing));
    assert_eq!(new(false, vec![false, false]), Err(SetupError::TargetDirMissing));
    assert_eq!(new(true, vec![true, false, false]), Err(SetupError::SourceDirMissing(1)));
    assert_eq!(new(true, vec![true, true]), Err(SetupError::SourceDirMissing(2)));
    assert_eq!(new(true, vec![]), Err(SetupError::SourceDirMissing(0)));
}

#[test]
fn registries_grow_at_the_end() {
    let mut a = Analyzer::new(settings(AnalysisType::OnlyName, "{name}"), true, &vec![true]).unwrap();
    a.add_transformer(NaiveFileNameParser::default());
    a.add_formatter(Formatter::Date(FormatDate::default()));
    a.add_formatter(Formatter::Name(FormatName::default()));
    assert_eq!(a.name_transformers.len(), 1);
    assert!(matches!(a.name_formatters[0], Formatter::Date(_)));
    assert!(matches!(a.name_formatters[1], Formatter::Name(_)));
}

#[test]
fn extensions_are_compared_in_lower_case() {
    let a = analyzer(AnalysisType::OnlyName);
    assert!(a.is_valid_photo_extension(Some("jpg")) && a.is_valid_photo_extension(Some("JPG")));
    assert!(!a.is_valid_photo_extension(Some("mp4")) && !a.is_valid_photo_extension(None));
    assert!(a.is_valid_video_extension(Some("Mp4")) && !a.is_valid_video_extension(Some("jpg")));
    assert!(a.is_valid_extension(Some("PNG")) && a.is_valid_extension(Some("mp4")));
    assert!(!a.is_valid_extension(Some("txt")) && !a.is_valid_extension(Some("")));
    assert_eq!(a.classify(Some("jpg")), FileType::Image);
    assert_eq!(a.classify(Some("MP4")), FileType::Video);
    assert_eq!(a.classify(Some("both")), FileType::Video);
    assert_eq!(a.classify(Some("txt")), FileType::Other);
    assert_eq!(a.classify(None), FileType::Other);
}

#[test]
fn files_are_routed_by_extension() {
    let a = analyzer(AnalysisType::OnlyName);
    assert_eq!(a.route(Some("jpg")), Routing::Known);
    assert_eq!(a.route(Some("mp4")), Routing::Known);
    assert_eq!(a.route(Some("txt")), Routing::Skip);
    assert_eq!(a.route(None), Routing::Skip);
    let mut s = settings(AnalysisType::OnlyName, "{name}");
    s.unknown_file_format = Some("other/{name}".to_string());
    let a = analyzer_with(s);
    assert_eq!(a.route(Some("txt")), Routing::Unknown);
    assert_eq!(a.route(None), Routing::Unknown);
    assert_eq!(a.route(Some("jpg")), Routing::Known);
}

#[test]
fn metadata_source_by_extension() {
    let a = analyzer(AnalysisType::OnlyExif);
    assert_eq!(a.exif_source(Some("jpg")), Ok(MetadataSource::Photo));
    assert_eq!(a.exif_source(Some("mp4")), Ok(MetadataSource::Video));
    assert_eq!(a.exif_source(Some("both")), Err(MetadataError::AmbiguousExtension));
    assert_eq!(a.exif_source(Some("txt")), Err(MetadataError::NoSource));
    assert_eq!(a.analyze_exif(Some("jpg"), &MetadataReading::Absent), Ok(None));
    assert_eq!(a.analyze_exif(Some("jpg"), &MetadataReading::Failed), Err(MetadataError::Unreadable));
    assert_eq!(
        a.analyze_exif(Some("jpg"), &text("2020-02-03 04:05:06")),
        Ok(Some(date(2020, 2, 3, 4, 5, 6)))
    );
    assert_eq!(
        a.analyze_exif(Some("mp4"), &text("2020-02-03T04:05:06Z")),
        Ok(Some(date(2020, 2, 3, 4, 5, 6)))
    );
    assert_eq!(
        a.analyze_exif(Some("mp4"), &text("2020-02-03 04:05:06")),
        Err(MetadataError::InvalidDate)
    );
    assert_eq!(a.analyze_exif(Some("txt"), &MetadataReading::Absent), Err(MetadataError::NoSource));
}

#[test]
fn analysis_only_exif() {
    let a = analyzer(AnalysisType::OnlyExif);
    assert!(a.needs_metadata("x_2021-01-01.jpg"));
    assert_eq!(
        a.analyze("x_2021-01-01.jpg", Some("jpg"), &text("2020-02-03 04:05:06")),
        Ok((Some(date(2020, 2, 3, 4, 5, 6)), "x_.jpg".to_string()))
    );
    assert_eq!(
        a.analyze("x.jpg", Some("jpg"), &MetadataReading::Absent),
        Ok((None, "x.jpg".to_string()))
    );
    assert_eq!(
        a.analyze("x_2021-01-01.jpg", Some("jpg"), &MetadataReading::Failed),
        Err(AnalyzeError::Metadata(MetadataError::Unreadable))
    );
    assert_eq!(
        a.analyze("x.both", Some("both"), &MetadataReading::Absent),
        Err(AnalyzeError::Metadata(MetadataError::AmbiguousExtension))
    );
    assert_eq!(
        a.analyze("x.txt", Some("txt"), &MetadataReading::Absent),
        Err(AnalyzeError::InvalidExtension)
    );
}

#[test]
fn analysis_only_name() {
    let a = analyzer(AnalysisType::OnlyName);
    assert!(!a.needs_metadata("x_2021-01-01.jpg"));
    assert_eq!(
        a.analyze("x_2021-01-01.jpg", Some("jpg"), &text("2020-02-03 04:05:06")),
        Ok((Some(date(2021, 1, 1, 0, 0, 0)), "x_.jpg".to_string()))
    );
    assert_eq!(
        a.analyze("x.jpg", Some("jpg"), &MetadataReading::Failed),
        Ok((None, "x.jpg".to_string()))
    );
    assert_eq!(a.analyze("x.jpg", None, &MetadataReading::Failed), Err(AnalyzeError::InvalidExtension));
}

#[test]
fn analysis_exif_then_name() {
    let a = analyzer(AnalysisType::ExifThenName);
    assert!(a.needs_metadata("x.jpg"));
    assert_eq!(
        a.analyze("x_2021-01-01.jpg", Some("jpg"), &text("2020-02-03 04:05:06")),
        Ok((Some(date(2020, 2, 3, 4, 5, 6)), "x_.jpg".to_string()))
    );
    assert_eq!(
        a.analyze("x_2021-01-01.jpg", Some("jpg"), &MetadataReading::Failed),
        Ok((Some(date(2021, 1, 1, 0, 0, 0)), "x_.jpg".to_string()))
    );
    assert_eq!(
        a.analyze("x_2021-01-01.jpg", Some("jpg"), &MetadataReading::Absent),
        Ok((Some(date(2021, 1, 1, 0, 0, 0)), "x_.jpg".to_string()))
    );
    assert_eq!(
        a.analyze("x_2021-01-01.jpg", Some("jpg"), &text("garbage")),
        Ok((Some(date(2021, 1, 1, 0, 0, 0)), "x_.jpg".to_string()))
    );
    assert_eq!(
        a.analyze("x.jpg", Some("jpg"), &MetadataReading::Failed),
        Ok((None, "x.jpg".to_string()))
    );
}

#[test]
fn analysis_name_then_exif() {
    let a = analyzer(AnalysisType::NameThenExif);
    assert!(a.needs_metadata("x.jpg"));
    assert!(!a.needs_metadata("x_2021-01-01.jpg"));
    assert_eq!(
        a.analyze("x_2021-01-01.jpg", Some("jpg"), &MetadataReading::Failed),
        Ok((Some(date(2021, 1, 1, 0, 0, 0)), "x_.jpg".to_string()))
    );
    assert_eq!(
        a.analyze("x.jpg", Some("jpg"), &text("2020-02-03 04:05:06")),
        Ok((Some(date(2020, 2, 3, 4, 5, 6)), "x.jpg".to_string()))
    );
    assert_eq!(
        a.analyze("x.jpg", Some("jpg"), &MetadataReading::Failed),
        Err(AnalyzeError::Metadata(MetadataError::Unreadable))
    );
    assert_eq!(a.analyze("x.jpg", Some("jpg"), &MetadataReading::Absent), Ok((None, "x.jpg".to_string())));
}

#[test]
fn end_to_end_with_one_collision() {
    let a = analyzer(AnalysisType::ExifThenName);
    let file = source("IMG_2023-01-01.jpg", "IMG_2023-01-01", Some("jpg"));
    let pending = a.run_file(&file, false, &text("2023-01-01 10:00:00"), None).unwrap();
    assert_eq!(pending.target, vec!["IMG_20230101-100000_.jpg".to_string()]);
    assert_eq!(pending.info.duplicate_counter, None);
    assert_eq!(pending.info.date_string, "20230101-100000");
    assert_eq!(pending.info.cleaned_name, "");
    assert_eq!(pending.info.original_name, "IMG_2023-01-01");
    assert_eq!(pending.info.original_filename, "IMG_2023-01-01.jpg");
    assert_eq!(pending.info.file_type, FileType::Image);
    assert_eq!(pending.source, "in/IMG_2023-01-01.jpg");
    let job = resolve_against(&a, pending, &["IMG_20230101-100000_.jpg"]);
    assert_eq!(
        job,
        FileJob {
            source: "in/IMG_2023-01-01.jpg".to_string(),
            target: vec!["IMG_20230101-100000_1.jpg".to_string()],
            action: ActionMode::Execute(ActualAction::Copy),
            mkdir: true,
        }
    );
}

#[test]
fn free_target_needs_no_counter() {
    let a = analyzer(AnalysisType::ExifThenName);
    let file = source("IMG_2023-01-01.jpg", "IMG_2023-01-01", Some("jpg"));
    let pending = a.run_file(&file, false, &text("2023-01-01 10:00:00"), None).unwrap();
    let job = resolve_against(&a, pending, &[]);
    assert_eq!(job.target, vec!["IMG_20230101-100000_.jpg".to_string()]);
}

#[test]
fn n_collisions_give_counter_n() {
    let a = analyzer_with(settings(AnalysisType::OnlyName, "{name}{-:dup}.{ext}"));
    let file = source("beach.jpg", "beach", Some("jpg"));
    let taken = ["NODATE_beach.jpg", "NODATE_beach1.jpg", "NODATE_beach2.jpg", "NODATE_beach4.jpg"];
    let pending = a.run_file(&file, false, &MetadataReading::Failed, None).unwrap();
    let job = resolve_against(&a, pending, &taken);
    assert_eq!(job.target, vec!["NODATE_beach3.jpg".to_string()]);
}

#[test]
fn counter_is_exhausted_at_the_largest_number() {
    let a = analyzer(AnalysisType::OnlyName);
    let file = source("beach.jpg", "beach", Some("jpg"));
    let mut pending = a.run_file(&file, false, &MetadataReading::Failed, None).unwrap();
    pending.info.duplicate_counter = Some(u32::MAX - 1);
    let next = match a.resolve_duplicate(pending, true) {
        Ok(Resolution::Probe(p)) => p,
        other => panic!("{:?}", other),
    };
    assert_eq!(next.info.duplicate_counter, Some(u32::MAX));
    assert_eq!(next.target, vec!["NODATE_beach4294967295.jpg".to_string()]);
    assert_eq!(a.resolve_duplicate(next, true), Err(RunError::TooManyDuplicates));
}

#[test]
fn templates_are_chosen_by_kind_of_file() {
    let mut s = settings(AnalysisType::OnlyName, "dated/{name}.{ext}");
    s.nodate_file_format = "undated/{name}.{ext}".to_string();
    s.unknown_file_format = Some("unknown/{name}{.:ext}".to_string());
    s.bracketed_file_format = Some("bracket/{bracket?num}/{bracket?seq}_{name}.{ext}".to_string());
    let a = analyzer_with(s);
    let run = |name: &str, stem: &str, ext: Option<&str>, unknown: bool, b: Option<BracketInfo>| {
        a.run_file(&source(name, stem, ext), unknown, &MetadataReading::Failed, b).map(|p| p.target)
    };
    assert_eq!(
        run("a_2020-01-02.jpg", "a_2020-01-02", Some("jpg"), false, None),
        Ok(vec!["dated".to_string(), "a.jpg".to_string()])
    );
    assert_eq!(
        run("a.jpg", "a", Some("jpg"), false, None),
        Ok(vec!["undated".to_string(), "a.jpg".to_string()])
    );
    assert_eq!(
        run("notes.txt", "notes", Some("txt"), true, None),
        Ok(vec!["unknown".to_string(), "notes.txt".to_string()])
    );
    assert_eq!(
        run("README", "README", None, true, None),
        Ok(vec!["unknown".to_string(), "README".to_string()])
    );
    let b = BracketInfo {
        sequence_number: 2,
        first: "in/a.jpg".to_string(),
        last: "in/c.jpg".to_string(),
        first_name: "a".to_string(),
        last_name: "c".to_string(),
        sequence_length: 3,
        group_index: 4,
    };
    assert_eq!(
        run("b_2020-01-02.jpg", "b_2020-01-02", Some("jpg"), false, Some(b.clone())),
        Ok(vec!["bracket".to_string(), "4".to_string(), "2_b.jpg".to_string()])
    );
    assert_eq!(
        run("notes.txt", "notes", Some("txt"), true, Some(b)),
        Ok(vec!["bracket".to_string(), "4".to_string(), "2_notes.txt".to_string()])
    );
}

#[test]
fn run_file_errors() {
    let a = analyzer(AnalysisType::OnlyExif);
    let jpg = source("a.jpg", "a", Some("jpg"));
    let txt = source("a.txt", "a", Some("txt"));
    assert_eq!(
        a.run_file(&jpg, false, &MetadataReading::Failed, None),
        Err(RunError::Analyze(AnalyzeError::Metadata(MetadataError::Unreadable)))
    );
    assert_eq!(
        a.run_file(&txt, false, &MetadataReading::Absent, None),
        Err(RunError::Analyze(AnalyzeError::InvalidExtension))
    );
    assert_eq!(a.run_file(&txt, true, &MetadataReading::Absent, None), Err(RunError::NoUnknownFormat));
    let bad = analyzer_with(settings(AnalysisType::OnlyExif, "{foo}"));
    assert_eq!(
        bad.run_file(&jpg, false, &text("2020-02-03 04:05:06"), None),
        Err(RunError::Format(FormatError::UnknownCommand("foo".to_string())))
    );
    let mut s = settings(AnalysisType::OnlyExif, "{name}");
    s.date_format = "%Q".to_string();
    let bad = analyzer_with(s);
    assert_eq!(
        bad.run_file(&jpg, false, &text("2020-02-03 04:05:06"), None),
        Err(RunError::DateFormat)
    );
    assert!(bad.run_file(&jpg, false, &MetadataReading::Absent, None).is_ok());
}

#[test]
fn source_file_copies_are_equal() {
    let f = source("a.jpg", "a", Some("jpg"));
    assert_eq!(f.copy(), f);
    let g = SourceFile { parent: None, extension: None, ..f.copy() };
    assert_eq!(g.copy(), g);
}

#[test]
fn format_string_is_rendered_with_the_registered_formatters() {
    let a = analyzer(AnalysisType::OnlyName);
    let file = source("beach.jpg", "beach", Some("jpg"));
    let pending = a.run_file(&file, false, &MetadataReading::Failed, None).unwrap();
    assert_eq!(
        a.replace_filepath_parts("{on}|{ofn}|{t}|{d}|{n}|{dup}|{ext?u}", &pending.info),
        Ok("beach|beach.jpg|IMG|NODATE|beach||JPG".to_string())
    );
    assert_eq!(a.replace_filepath_parts("plain", &pending.info), Ok("plain".to_string()));
    let empty = Analyzer::<NaiveFileNameParser>::new(
        settings(AnalysisType::OnlyName, "{name}"),
        true,
        &vec![true],
    )
    .unwrap();
    assert_eq!(
        empty.replace_filepath_parts("{name}", &pending.info),
        Err(FormatError::UnknownCommand("name".to_string()))
    );
}

#[test]
fn texts_are_found_in_lists() {
    let list = vec!["jpg".to_string(), "png".to_string()];
    assert!(contains_text(&list, "jpg") && contains_text(&list, "png"));
    assert!(!contains_text(&list, "JPG") && !contains_text(&list, "") && !contains_text(&list, "jp"));
    assert!(!contains_text(&Vec::new(), "jpg"));
}
