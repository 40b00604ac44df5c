//! The analyzer: the settings of one run, the registered transformers and
//! formatters, and the decisions taken for each file.
//!
//! The analyzer reads no file and touches none. The caller hands in what it
//! found (the parts of the path, the date text from the metadata, whether a
//! target exists) and carries out what the analyzer decides.

use vstd::prelude::*;
use crate::action::ActionMode;
use crate::analysis::exif2date::{exif_time, get_exif_time, MetadataError};
use crate::analysis::filename2date::FileNameToDateTransformer;
use crate::analysis::name_formatters::{
    BracketInfo, BracketInfoView, FileType, FormatError, FormatErrorView, Formatter,
    InvocationView, NameFormatterInvocationInfo,
};
use crate::analysis::video2date::{get_video_time, video_time};
use crate::analysis::{get_name_time, name_time};
use crate::datetime::DateTime;
use crate::render::texts;
use crate::text::{is_word, lowercase_text, option_text, same_text, to_chars, to_lowercase};

verus! {

/// Where the date of a file is looked for.
#[derive(Debug, Copy, Clone, PartialEq, Eq, Structural)]
pub enum AnalysisType {
    /// In the metadata only.
    OnlyExif,
    /// In the file name only.
    OnlyName,
    /// In the metadata, then in the file name.
    ExifThenName,
    /// In the file name, then in the metadata.
    NameThenExif,
}

/// The kind of analysis that a lower-case word names.
pub open spec fn analysis_named(word: Seq<char>) -> Option<AnalysisType> {
    if word == "only_exif"@ || word == "exif"@ {
        Some(AnalysisType::OnlyExif)
    } else if word == "only_name"@ || word == "name"@ {
        Some(AnalysisType::OnlyName)
    } else if word == "exif_then_name"@ || word == "exif_name"@ {
        Some(AnalysisType::ExifThenName)
    } else if word == "name_then_exif"@ || word == "name_exif"@ {
        Some(AnalysisType::NameThenExif)
    } else {
        None
    }
}

/// What can go wrong when an analyzer is set up.
#[derive(Debug, Copy, Clone, PartialEq, Eq, Structural)]
pub enum SetupError {
    /// The text names no kind of analysis.
    InvalidAnalysisType,
    /// The target directory does not exist.
    TargetDirMissing,
    /// The source directory with this index does not exist.
    SourceDirMissing(usize),
}

impl AnalysisType {
    /// The kind of analysis that a word in lower case names.
    pub fn from_lowercase(word: &str) -> (kind: Option<AnalysisType>)
        ensures
            kind == analysis_named(word@),
    {
        let w = to_chars(word);
        let w = w.as_slice();
        if is_word(w, "only_exif") || is_word(w, "exif") {
            Some(AnalysisType::OnlyExif)
        } else if is_word(w, "only_name") || is_word(w, "name") {
            Some(AnalysisType::OnlyName)
        } else if is_word(w, "exif_then_name") || is_word(w, "exif_name") {
            Some(AnalysisType::ExifThenName)
        } else if is_word(w, "name_then_exif") || is_word(w, "name_exif") {
            Some(AnalysisType::NameThenExif)
        } else {
            None
        }
    }

    /// Reads the kind of analysis from its name, in any case.
    pub fn from_str(s: &str) -> (kind: Result<AnalysisType, SetupError>)
        ensures
            kind == match analysis_named(lowercase_text(s@)) {
                Some(k) => Ok::<AnalysisType, SetupError>(k),
                None => Err(SetupError::InvalidAnalysisType),
            },
    {
        let lower = to_lowercase(s);
        match AnalysisType::from_lowercase(lower.as_str()) {
            Some(k) => Ok(k),
            None => Err(SetupError::InvalidAnalysisType),
        }
    }
}

/// The settings of one run.
#[derive(Debug, Clone, PartialEq, Eq)]
pub struct AnalyzerSettings {
    pub analysis_type: AnalysisType,
    /// The directories that files are taken from.
    pub source_dirs: Vec<String>,
    /// The directory that target paths are relative to.
    pub target_dir: String,
    /// Whether the directories below the source directories are read too.
    pub recursive_source: bool,
    /// Template for a file with a date.
    pub file_format: String,
    /// Template for a file without a date.
    pub nodate_file_format: String,
    /// Template for a file whose extension is not listed. Without it such
    /// files are left alone.
    pub unknown_file_format: Option<String>,
    /// Template for a file that belongs to a bracket group.
    pub bracketed_file_format: Option<String>,
    /// Format of the date where a template gives none.
    pub date_format: String,
    /// The extensions of photos, in lower case.
    pub extensions: Vec<String>,
    /// The extensions of videos, in lower case.
    pub video_extensions: Vec<String>,
    pub action_type: ActionMode,
    /// Whether folders on the way to a target may be created.
    pub mkdir: bool,
}

/// A file of a source directory, as the parts of its path.
#[derive(Debug, Clone, PartialEq, Eq)]
pub struct SourceFile {
    /// The whole path.
    pub path: String,
    /// The directory that the file lies in.
    pub parent: Option<String>,
    /// The last part of the path.
    pub file_name: String,
    /// The file name without its extension.
    pub stem: String,
    /// The extension, without the dot.
    pub extension: Option<String>,
}

/// The mathematical value of a `SourceFile`.
pub struct SourceFileView {
    pub path: Seq<char>,
    pub parent: Option<Seq<char>>,
    pub file_name: Seq<char>,
    pub stem: Seq<char>,
    pub extension: Option<Seq<char>>,
}

impl View for SourceFile {
    type V = SourceFileView;

    open spec fn view(&self) -> SourceFileView {
        SourceFileView {
            path: self.path@,
            parent: option_text(self.parent),
            file_name: self.file_name@,
            stem: self.stem@,
            extension: option_text(self.extension),
        }
    }
}

impl SourceFile {
    /// A copy of the file's parts.
    pub fn copy(&self) -> (c: SourceFile)
        ensures
            c@ == self@,
    {
        SourceFile {
            path: self.path.clone(),
            parent: match &self.parent {
                Some(p) => Some(p.clone()),
                None => None,
            },
            file_name: self.file_name.clone(),
            stem: self.stem.clone(),
            extension: match &self.extension {
                Some(e) => Some(e.clone()),
                None => None,
            },
        }
    }
}

/// What reading the metadata of a file gave.
#[derive(Debug, Clone, PartialEq, Eq)]
pub enum MetadataReading {
    /// The metadata was not read or could not be read.
    Failed,
    /// The metadata holds no date.
    Absent,
    /// The text of the date that the metadata holds.
    Text(String),
}

/// The mathematical value of a `MetadataReading`.
pub enum MetadataReadingView {
    Failed,
    Absent,
    Text(Seq<char>),
}

impl View for MetadataReading {
    type V = MetadataReadingView;

    open spec fn view(&self) -> MetadataReadingView {
        match self {
            MetadataReading::Failed => MetadataReadingView::Failed,
            MetadataReading::Absent => MetadataReadingView::Absent,
            MetadataReading::Text(t) => MetadataReadingView::Text(t@),
        }
    }
}

/// The kind of metadata that a file carries.
#[derive(Debug, Copy, Clone, PartialEq, Eq, Structural)]
pub enum MetadataSource {
    Photo,
    Video,
}

/// Why the analysis of a file gave no result.
#[derive(Debug, Copy, Clone, PartialEq, Eq, Structural)]
pub enum AnalyzeError {
    /// The extension is listed neither as a photo's nor as a video's.
    InvalidExtension,
    /// The metadata was needed and gave no answer.
    Metadata(MetadataError),
}

/// Why no target path was found for a file.
#[derive(Debug, Clone, PartialEq, Eq)]
pub enum RunError {
    Analyze(AnalyzeError),
    /// The file counts as unknown and the settings hold no template for
    /// unknown files.
    NoUnknownFormat,
    /// The date cannot be written under the default date format.
    DateFormat,
    /// The template could not be rendered.
    Format(FormatError),
    /// Every duplicate counter is taken.
    TooManyDuplicates,
}

/// The mathematical value of a `RunError`.
pub enum RunErrorView {
    Analyze(AnalyzeError),
    NoUnknownFormat,
    DateFormat,
    Format(FormatErrorView),
    TooManyDuplicates,
}

impl View for RunError {
    type V = RunErrorView;

    open spec fn view(&self) -> RunErrorView {
        match self {
            RunError::Analyze(e) => RunErrorView::Analyze(*e),
            RunError::NoUnknownFormat => RunErrorView::NoUnknownFormat,
            RunError::DateFormat => RunErrorView::DateFormat,
            RunError::Format(e) => RunErrorView::Format(e@),
            RunError::TooManyDuplicates => RunErrorView::TooManyDuplicates,
        }
    }
}

/// A file on its way to a target path: the facts that its name is made of,
/// the template that was chosen for it, and the target that is to be tried
/// next.
#[derive(Debug, Clone, PartialEq, Eq)]
pub struct PendingFile {
    /// Path of the file.
    pub source: String,
    pub info: NameFormatterInvocationInfo,
    pub template: String,
    /// The components of the candidate path, below the target directory.
    pub target: Vec<String>,
}

/// The mathematical value of a `PendingFile`.
pub struct PendingView {
    pub source: Seq<char>,
    pub info: InvocationView,
    pub template: Seq<char>,
    pub target: Seq<Seq<char>>,
}

impl View for PendingFile {
    type V = PendingView;

    open spec fn view(&self) -> PendingView {
        PendingView {
            source: self.source@,
            info: self.info@,
            template: self.template@,
            target: texts(self.target@),
        }
    }
}

/// A file with its final target path, ready for the file action.
#[derive(Debug, Clone, PartialEq, Eq)]
pub struct FileJob {
    pub source: String,
    /// The components of the target path, below the target directory.
    pub target: Vec<String>,
    pub action: ActionMode,
    pub mkdir: bool,
}

/// The mathematical value of a `FileJob`.
pub struct FileJobView {
    pub source: Seq<char>,
    pub target: Seq<Seq<char>>,
    pub action: ActionMode,
    pub mkdir: bool,
}

impl View for FileJob {
    type V = FileJobView;

    open spec fn view(&self) -> FileJobView {
        FileJobView {
            source: self.source@,
            target: texts(self.target@),
            action: self.action,
            mkdir: self.mkdir,
        }
    }
}

/// What the duplicate resolver decides after one look at the target.
#[derive(Debug, Clone, PartialEq, Eq)]
pub enum Resolution {
    /// The candidate is taken: look at the next one.
    Probe(PendingFile),
    /// The candidate is free: act.
    Ready(FileJob),
}

/// The mathematical value of a `Resolution`.
pub enum ResolutionView {
    Probe(PendingView),
    Ready(FileJobView),
}

impl View for Resolution {
    type V = ResolutionView;

    open spec fn view(&self) -> ResolutionView {
        match self {
            Resolution::Probe(p) => ResolutionView::Probe(p@),
            Resolution::Ready(j) => ResolutionView::Ready(j@),
        }
    }
}

/// How a file of a source directory is treated.
#[derive(Debug, Copy, Clone, PartialEq, Eq, Structural)]
pub enum Routing {
    /// The extension is listed: the file is analyzed and named.
    Known,
    /// The extension is not listed and there is a template for such files:
    /// the file is named without analysis.
    Unknown,
    /// The extension is not listed and there is no template for such files:
    /// the file is left alone.
    Skip,
}

/// Whether the lower-case form of an extension is one of the listed.
pub open spec fn extension_listed(list: Seq<String>, extension: Option<Seq<char>>) -> bool {
    match extension {
        None => false,
        Some(e) => exists|i: int| 0 <= i < list.len() && (#[trigger] list[i])@ == lowercase_text(e),
    }
}

/// The value of a result that holds a pending file.
pub open spec fn pending_result(r: Result<PendingFile, RunError>) -> Result<
    PendingView,
    RunErrorView,
> {
    match r {
        Ok(p) => Ok(p@),
        Err(e) => Err(e@),
    }
}

/// The value of a result that holds a resolution.
pub open spec fn resolution_result(r: Result<Resolution, RunError>) -> Result<
    ResolutionView,
    RunErrorView,
> {
    match r {
        Ok(p) => Ok(p@),
        Err(e) => Err(e@),
    }
}

/// The value of an optional bracket info.
pub open spec fn bracket_view(bracket: Option<BracketInfo>) -> Option<BracketInfoView> {
    match bracket {
        Some(b) => Some(b@),
        None => None,
    }
}

/// The facts about a file with the duplicate counter set anew.
pub open spec fn with_counter(info: InvocationView, counter: Option<u32>) -> InvocationView {
    InvocationView {
        date: info.date,
        date_string: info.date_string,
        date_default_format: info.date_default_format,
        file_type: info.file_type,
        cleaned_name: info.cleaned_name,
        original_name: info.original_name,
        original_filename: info.original_filename,
        duplicate_counter: counter,
        extension: info.extension,
        bracket_info: info.bracket_info,
    }
}

/// The duplicate counter of the candidate that is tried after `n`
/// candidates were found taken.
pub open spec fn counter_after(n: nat) -> Option<u32> {
    if n == 0 {
        None
    } else {
        Some(n as u32)
    }
}

/// Whether a text is one of the listed.
pub fn contains_text(list: &Vec<String>, text: &str) -> (found: bool)
    ensures
        found == exists|i: int| 0 <= i < list@.len() && (#[trigger] list@[i])@ == text@,
{
    let mut i: usize = 0;
    while i < list.len()
        invariant
            i <= list.len(),
            forall|j: int| 0 <= j < i ==> (#[trigger] list@[j])@ != text@,
        decreases list.len() - i,
    {
        if same_text(list[i].as_str(), text) {
            return true;
        }
        i += 1;
    }
    false
}

fn listed(list: &Vec<String>, extension: Option<&str>) -> (found: bool)
    ensures
        found == extension_listed(
            list@,
            match extension {
                Some(e) => Some(e@),
                None => None,
            },
        ),
{
    match extension {
        None => false,
        Some(e) => {
            let lower = to_lowercase(e);
            contains_text(list, lower.as_str())
        },
    }
}

/// The settings of a run together with the registered transformers and
/// formatters.
pub struct Analyzer<T: FileNameToDateTransformer> {
    /// Tried in order on a file name; the first that finds a date wins.
    pub name_transformers: Vec<T>,
    /// Tried in order on a format command; the first that answers wins.
    pub name_formatters: Vec<Formatter>,
    pub settings: AnalyzerSettings,
}

impl<T: FileNameToDateTransformer> Analyzer<T> {
    /// The registered transformers, in the order they were added.
    pub open spec fn transformers(&self) -> Seq<T> {
        self.name_transformers@
    }

    /// The registered formatters, in the order they were added.
    pub open spec fn formatters(&self) -> Seq<Formatter> {
        self.name_formatters@
    }

    /// The index of the first source directory that does not exist.
    pub open spec fn first_missing(count: nat, exists: Seq<bool>, from: int) -> Option<usize>
        decreases count - from,
    {
        if from < 0 || from >= count {
            None
        } else if from >= exists.len() || !exists[from] {
            Some(from as usize)
        } else {
            Self::first_missing(count, exists, from + 1)
        }
    }

    /// Creates an analyzer without transformers and formatters. The caller
    /// says whether the target directory exists and, for each source
    /// directory in order, whether it exists; a source directory without an
    /// answer counts as missing.
    pub fn new(settings: AnalyzerSettings, target_dir_exists: bool, source_dirs_exist: &Vec<bool>)
        -> (analyzer: Result<Analyzer<T>, SetupError>)
        ensures
            !target_dir_exists ==> analyzer == Err::<Analyzer<T>, SetupError>(
                SetupError::TargetDirMissing,
            ),
            target_dir_exists ==> match Self::first_missing(
                settings.source_dirs@.len(),
                source_dirs_exist@,
                0,
            ) {
                Some(i) => analyzer == Err::<Analyzer<T>, SetupError>(
                    SetupError::SourceDirMissing(i),
                ),
                None => analyzer is Ok && analyzer->Ok_0.settings == settings
                    && analyzer->Ok_0.transformers().len() == 0
                    && analyzer->Ok_0.formatters().len() == 0,
            },
    {
        if !target_dir_exists {
            return Err(SetupError::TargetDirMissing);
        }
        let mut i: usize = 0;
        while i < settings.source_dirs.len()
            invariant
                i <= settings.source_dirs.len(),
                target_dir_exists,
                Self::first_missing(settings.source_dirs@.len(), source_dirs_exist@, 0)
                    == Self::first_missing(
                    settings.source_dirs@.len(),
                    source_dirs_exist@,
                    i as int,
                ),
            decreases settings.source_dirs.len() - i,
        {
            if i >= source_dirs_exist.len() || !source_dirs_exist[i] {
                return Err(SetupError::SourceDirMissing(i));
            }
            i += 1;
        }
        Ok(Analyzer { name_transformers: Vec::new(), name_formatters: Vec::new(), settings })
    }

    /// Adds a transformer after those that are registered.
    pub fn add_transformer(&mut self, transformer: T)
        ensures
            final(self).transformers() == old(self).transformers().push(transformer),
            final(self).formatters() == old(self).formatters(),
            final(self).settings == old(self).settings,
    {
        self.name_transformers.push(transformer);
    }

    /// Adds a formatter after those that are registered.
    pub fn add_formatter(&mut self, formatter: Formatter)
        ensures
            final(self).formatters() == old(self).formatters().push(formatter),
            final(self).transformers() == old(self).transformers(),
            final(self).settings == old(self).settings,
    {
        self.name_formatters.push(formatter);
    }

    /// The date and the remaining name that the transformers read out of a
    /// file name; without a date the name stays as it is.
    pub open spec fn name_analysis(&self, name: Seq<char>) -> (Option<DateTime>, Seq<char>) {
        match name_time(name, self.transformers()) {
            Some((date, rest)) => (Some(date), rest),
            None => (None, name),
        }
    }

    /// Looks for a date in the file name.
    pub fn analyze_name(&self, name: &str) -> (found: (Option<DateTime>, String))
        ensures
            (found.0, found.1@) == self.name_analysis(name@),
    {
        match get_name_time(name, &self.name_transformers) {
            Some((date, rest)) => (Some(date), rest),
            None => (None, name.to_owned()),
        }
    }

    /// Whether the extension is listed as a photo's.
    pub open spec fn photo_extension(&self, extension: Option<Seq<char>>) -> bool {
        extension_listed(self.settings.extensions@, extension)
    }

    /// Whether the extension is listed as a video's.
    pub open spec fn video_extension(&self, extension: Option<Seq<char>>) -> bool {
        extension_listed(self.settings.video_extensions@, extension)
    }

    /// Whether the extension, in lower case, is one of the photo extensions.
    pub fn is_valid_photo_extension(&self, extension: Option<&str>) -> (valid: bool)
        ensures
            valid == self.photo_extension(
                match extension {
                    Some(e) => Some(e@),
                    None => None,
                },
            ),
    {
        listed(&self.settings.extensions, extension)
    }

    /// Whether the extension, in lower case, is one of the video extensions.
    pub fn is_valid_video_extension(&self, extension: Option<&str>) -> (valid: bool)
        ensures
            valid == self.video_extension(
                match extension {
                    Some(e) => Some(e@),
                    None => None,
                },
            ),
    {
        listed(&self.settings.video_extensions, extension)
    }

    /// Whether the extension is listed at all.
    pub fn is_valid_extension(&self, extension: Option<&str>) -> (valid: bool)
        ensures
            valid == (self.photo_extension(
                match extension {
                    Some(e) => Some(e@),
                    None => None,
                },
            ) || self.video_extension(
                match extension {
                    Some(e) => Some(e@),
                    None => None,
                },
            )),
    {
        let photo = self.is_valid_photo_extension(extension);
        let video = self.is_valid_video_extension(extension);
        photo || video
    }

    /// How a file with this extension is treated.
    pub fn route(&self, extension: Option<&str>) -> (routing: Routing)
        ensures
            routing == if self.photo_extension(
                match extension {
                    Some(e) => Some(e@),
                    None => None,
                },
            ) || self.video_extension(
                match extension {
                    Some(e) => Some(e@),
                    None => None,
                },
            ) {
                Routing::Known
            } else if self.settings.unknown_file_format is Some {
                Routing::Unknown
            } else {
                Routing::Skip
            },
    {
        if self.is_valid_extension(extension) {
            Routing::Known
        } else if self.settings.unknown_file_format.is_some() {
            Routing::Unknown
        } else {
            Routing::Skip
        }
    }

    /// The kind of file that an extension stands for.
    pub open spec fn file_type(&self, extension: Option<Seq<char>>) -> FileType {
        if self.video_extension(extension) {
            FileType::Video
        } else if self.photo_extension(extension) {
            FileType::Image
        } else {
            FileType::Other
        }
    }

    /// Classifies a file by its extension. An extension that is listed for
    /// both kinds counts as a video's.
    pub fn classify(&self, extension: Option<&str>) -> (kind: FileType)
        ensures
            kind == self.file_type(
                match extension {
                    Some(e) => Some(e@),
                    None => None,
                },
            ),
    {
        if self.is_valid_video_extension(extension) {
            FileType::Video
        } else if self.is_valid_photo_extension(extension) {
            FileType::Image
        } else {
            FileType::Other
        }
    }

    /// The kind of metadata that a file with this extension carries.
    pub open spec fn metadata_source(&self, extension: Option<Seq<char>>) -> Result<
        MetadataSource,
        MetadataError,
    > {
        if self.video_extension(extension) && self.photo_extension(extension) {
            Err(MetadataError::AmbiguousExtension)
        } else if self.photo_extension(extension) {
            Ok(MetadataSource::Photo)
        } else if self.video_extension(extension) {
            Ok(MetadataSource::Video)
        } else {
            Err(MetadataError::NoSource)
        }
    }

    /// Says which metadata to read for a file with this extension.
    pub fn exif_source(&self, extension: Option<&str>) -> (source: Result<
        MetadataSource,
        MetadataError,
    >)
        ensures
            source == self.metadata_source(
                match extension {
                    Some(e) => Some(e@),
                    None => None,
                },
            ),
    {
        let video = self.is_valid_video_extension(extension);
        let photo = self.is_valid_photo_extension(extension);
        if video && photo {
            Err(MetadataError::AmbiguousExtension)
        } else if photo {
            Ok(MetadataSource::Photo)
        } else if video {
            Ok(MetadataSource::Video)
        } else {
            Err(MetadataError::NoSource)
        }
    }

    /// The date that the metadata gives.
    pub open spec fn metadata_date(
        &self,
        extension: Option<Seq<char>>,
        reading: MetadataReadingView,
    ) -> Result<Option<DateTime>, MetadataError> {
        match self.metadata_source(extension) {
            Err(e) => Err(e),
            Ok(source) => match reading {
                MetadataReadingView::Failed => Err(MetadataError::Unreadable),
                MetadataReadingView::Absent => Ok(None),
                MetadataReadingView::Text(t) => match source {
                    MetadataSource::Photo => exif_time(Some(t)),
                    MetadataSource::Video => video_time(Some(t)),
                },
            },
        }
    }

    /// Turns what was read from the metadata into a date.
    pub fn analyze_exif(&self, extension: Option<&str>, reading: &MetadataReading) -> (date:
        Result<Option<DateTime>, MetadataError>)
        ensures
            date == self.metadata_date(
                match extension {
                    Some(e) => Some(e@),
                    None => None,
                },
                reading@,
            ),
    {
        let source = self.exif_source(extension)?;
        match reading {
            MetadataReading::Failed => Err(MetadataError::Unreadable),
            MetadataReading::Absent => Ok(None),
            MetadataReading::Text(t) => match source {
                MetadataSource::Photo => get_exif_time(Some(t.as_str())),
                MetadataSource::Video => get_video_time(Some(t.as_str())),
            },
        }
    }

    /// Whether the metadata is looked at for a file name, under the
    /// settings' kind of analysis.
    pub open spec fn metadata_wanted(&self, name: Seq<char>) -> bool {
        match self.settings.analysis_type {
            AnalysisType::OnlyExif => true,
            AnalysisType::OnlyName => false,
            AnalysisType::ExifThenName => true,
            AnalysisType::NameThenExif => self.name_analysis(name).0 is None,
        }
    }

    /// Says whether the metadata of the file has to be read: always where
    /// the metadata comes first or alone, never where only the name counts,
    /// and after the name where the name holds no date.
    pub fn needs_metadata(&self, name: &str) -> (wanted: bool)
        ensures
            wanted == self.metadata_wanted(name@),
    {
        match self.settings.analysis_type {
            AnalysisType::OnlyExif => true,
            AnalysisType::OnlyName => false,
            AnalysisType::ExifThenName => true,
            AnalysisType::NameThenExif => {
                let found = self.analyze_name(name);
                found.0.is_none()
            },
        }
    }

    /// The date of a file and what is left of its name, under the settings'
    /// kind of analysis.
    pub open spec fn analyzed(
        &self,
        name: Seq<char>,
        extension: Option<Seq<char>>,
        reading: MetadataReadingView,
    ) -> Result<(Option<DateTime>, Seq<char>), AnalyzeError> {
        let named = self.name_analysis(name);
        let metadata = self.metadata_date(extension, reading);
        if !(self.photo_extension(extension) || self.video_extension(extension)) {
            Err(AnalyzeError::InvalidExtension)
        } else {
            match self.settings.analysis_type {
                AnalysisType::OnlyExif => match metadata {
                    Err(e) => Err(AnalyzeError::Metadata(e)),
                    Ok(date) => Ok((date, named.1)),
                },
                AnalysisType::OnlyName => Ok(named),
                AnalysisType::ExifThenName => match metadata {
                    Ok(Some(date)) => Ok((Some(date), named.1)),
                    _ => Ok(named),
                },
                AnalysisType::NameThenExif => if named.0 is Some {
                    Ok(named)
                } else {
                    match metadata {
                        Err(e) => Err(AnalyzeError::Metadata(e)),
                        Ok(date) => Ok((date, named.1)),
                    }
                },
            }
        }
    }

    /// Analyzes a file for a date. The first source that gives one wins;
    /// where the metadata comes first and fails, the name is tried.
    pub fn analyze(&self, name: &str, extension: Option<&str>, reading: &MetadataReading) -> (r:
        Result<(Option<DateTime>, String), AnalyzeError>)
        ensures
            match r {
                Ok((date, rest)) => self.analyzed(
                    name@,
                    match extension {
                        Some(e) => Some(e@),
                        None => None,
                    },
                    reading@,
                ) == Ok::<(Option<DateTime>, Seq<char>), AnalyzeError>((date, rest@)),
                Err(e) => self.analyzed(
                    name@,
                    match extension {
                        Some(e) => Some(e@),
                        None => None,
                    },
                    reading@,
                ) == Err::<(Option<DateTime>, Seq<char>), AnalyzeError>(e),
            },
    {
        if !self.is_valid_extension(extension) {
            return Err(AnalyzeError::InvalidExtension);
        }
        match self.settings.analysis_type {
            AnalysisType::OnlyExif => {
                match self.analyze_exif(extension, reading) {
                    Err(e) => Err(AnalyzeError::Metadata(e)),
                    Ok(date) => {
                        let named = self.analyze_name(name);
                        Ok((date, named.1))
                    },
                }
            },
            AnalysisType::OnlyName => Ok(self.analyze_name(name)),
            AnalysisType::ExifThenName => {
                let metadata = self.analyze_exif(extension, reading);
                let named = self.analyze_name(name);
                match metadata {
                    Ok(Some(date)) => Ok((Some(date), named.1)),
                    _ => Ok(named),
                }
            },
            AnalysisType::NameThenExif => {
                let named = self.analyze_name(name);
                if named.0.is_some() {
                    Ok(named)
                } else {
                    match self.analyze_exif(extension, reading) {
                        Err(e) => Err(AnalyzeError::Metadata(e)),
                        Ok(date) => Ok((date, named.1)),
                    }
                }
            },
        }
    }
}

} // verus!
