//! From a file to its target path: the facts about the file, the choice of
//! the template, the first candidate, and the search for a candidate that
//! is free.

use vstd::prelude::*;
use crate::analysis::filename2date::FileNameToDateTransformer;
use crate::analysis::name_formatters::{
    rendering, BracketInfo, BracketInfoView, FormatError, FormatErrorView, InvocationView,
    NameFormatterInvocationInfo,
};
use crate::analyzer::{
    bracket_view, counter_after, pending_result, resolution_result, with_counter, Analyzer,
    FileJob, FileJobView, MetadataReading, MetadataReadingView, PendingFile, PendingView,
    Resolution, ResolutionView, RunError, RunErrorView, SourceFile, SourceFileView,
};
use crate::datetime::DateTime;
use crate::name::{clean_image_name, cleaned_image_name};
use crate::render::{render_path, render_template, rendered_path, rendered_template};
use crate::template::has_block;

verus! {

/// The date under the default format; `NODATE` without a date. `None` where
/// the date cannot be written under the format.
pub open spec fn default_date_text(date: Option<DateTime>, format: Seq<char>) -> Option<
    Seq<char>,
> {
    match date {
        None => Some("NODATE"@),
        Some(d) => d.formatted(format),
    }
}

impl<T: FileNameToDateTransformer> Analyzer<T> {
    /// The template for a file: the one for bracketed files where the file
    /// belongs to a bracket group and such a template is set; else the one
    /// for unknown files where the file counts as unknown; else the one for
    /// dated files where a date was found; else the one for files without a
    /// date. `None` where the template for unknown files is asked for and
    /// not set.
    pub open spec fn chosen_template(&self, is_unknown_file: bool, dated: bool, bracketed: bool)
        -> Option<Seq<char>> {
        if bracketed && self.settings.bracketed_file_format is Some {
            Some(self.settings.bracketed_file_format->0@)
        } else if is_unknown_file {
            match self.settings.unknown_file_format {
                Some(template) => Some(template@),
                None => None,
            }
        } else if dated {
            Some(self.settings.file_format@)
        } else {
            Some(self.settings.nodate_file_format@)
        }
    }

    /// The date and the cleaned name of a file. An unknown file is not
    /// analyzed: it has no date and keeps its name without the extension.
    pub open spec fn dated_name(
        &self,
        file: SourceFileView,
        is_unknown_file: bool,
        reading: MetadataReadingView,
    ) -> Result<(Option<DateTime>, Seq<char>), RunErrorView> {
        if is_unknown_file {
            Ok((None, file.stem))
        } else {
            match self.analyzed(file.file_name, file.extension, reading) {
                Err(e) => Err(RunErrorView::Analyze(e)),
                Ok((date, rest)) => Ok((date, cleaned_image_name(rest))),
            }
        }
    }

    /// The facts about a file that the formatters are given, before any
    /// duplicate was met.
    pub open spec fn invocation(
        &self,
        file: SourceFileView,
        is_unknown_file: bool,
        reading: MetadataReadingView,
        bracket: Option<BracketInfoView>,
    ) -> Result<InvocationView, RunErrorView> {
        match self.dated_name(file, is_unknown_file, reading) {
            Err(e) => Err(e),
            Ok((date, cleaned)) => match default_date_text(date, self.settings.date_format@) {
                None => Err(RunErrorView::DateFormat),
                Some(text) => Ok(
                    InvocationView {
                        date,
                        date_string: text,
                        date_default_format: self.settings.date_format@,
                        file_type: self.file_type(file.extension),
                        cleaned_name: cleaned,
                        original_name: file.stem,
                        original_filename: file.file_name,
                        duplicate_counter: None,
                        extension: match file.extension {
                            Some(e) => e,
                            None => Seq::empty(),
                        },
                        bracket_info: bracket,
                    },
                ),
            },
        }
    }

    /// The state of a file after its first rendering.
    pub open spec fn started(
        &self,
        file: SourceFileView,
        is_unknown_file: bool,
        reading: MetadataReadingView,
        bracket: Option<BracketInfoView>,
    ) -> Result<PendingView, RunErrorView> {
        match self.invocation(file, is_unknown_file, reading, bracket) {
            Err(e) => Err(e),
            Ok(info) => match self.chosen_template(
                is_unknown_file,
                info.date is Some,
                bracket is Some,
            ) {
                None => Err(RunErrorView::NoUnknownFormat),
                Some(template) => match rendered_path(self.formatters(), template, info) {
                    Err(e) => Err(RunErrorView::Format(e)),
                    Ok(target) => Ok(PendingView { source: file.path, info, template, target }),
                },
            },
        }
    }

    /// What is decided about a pending file once it is known whether its
    /// candidate exists. A free candidate is final. A taken one raises the
    /// duplicate counter by one, from none to 1, and the template is
    /// rendered anew.
    pub open spec fn advanced(&self, pending: PendingView, target_exists: bool) -> Result<
        ResolutionView,
        RunErrorView,
    > {
        if !target_exists {
            Ok(
                ResolutionView::Ready(
                    FileJobView {
                        source: pending.source,
                        target: pending.target,
                        action: self.settings.action_type,
                        mkdir: self.settings.mkdir,
                    },
                ),
            )
        } else {
            let next: int = match pending.info.duplicate_counter {
                None => 1,
                Some(counter) => counter + 1,
            };
            if next > u32::MAX {
                Err(RunErrorView::TooManyDuplicates)
            } else {
                let info = with_counter(pending.info, Some(next as u32));
                match rendered_path(self.formatters(), pending.template, info) {
                    Err(e) => Err(RunErrorView::Format(e)),
                    Ok(target) => Ok(
                        ResolutionView::Probe(
                            PendingView {
                                source: pending.source,
                                info,
                                template: pending.template,
                                target,
                            },
                        ),
                    ),
                }
            }
        }
    }

    /// The pending file after `n` candidates in a row were found taken.
    pub open spec fn after_collisions(&self, start: PendingView, n: nat) -> Result<
        PendingView,
        RunErrorView,
    >
        decreases n,
    {
        if n == 0 {
            Ok(start)
        } else {
            match self.after_collisions(start, (n - 1) as nat) {
                Err(e) => Err(e),
                Ok(pending) => match self.advanced(pending, true) {
                    Ok(ResolutionView::Probe(next)) => Ok(next),
                    Ok(ResolutionView::Ready(_)) => Ok(pending),
                    Err(e) => Err(e),
                },
            }
        }
    }

    /// Replaces the command blocks of a format string by their texts, with
    /// the formatters that are registered.
    pub fn replace_filepath_parts(&self, format_string: &str, info: &NameFormatterInvocationInfo)
        -> (text: Result<String, FormatError>)
        ensures
            rendering(text) == rendered_template(self.formatters(), format_string@, info@),
            !has_block(format_string@) ==> rendering(text) == Ok::<Seq<char>, FormatErrorView>(
                format_string@,
            ),
    {
        render_template(&self.name_formatters, format_string, info)
    }

    /// Starts a file on its way: analyzes it unless it counts as unknown,
    /// gathers the facts for the formatters, chooses the template and
    /// renders the first candidate for the target path.
    pub fn run_file(
        &self,
        file: &SourceFile,
        is_unknown_file: bool,
        reading: &MetadataReading,
        bracket_info: Option<BracketInfo>,
    ) -> (pending: Result<PendingFile, RunError>)
        ensures
            pending_result(pending) == self.started(
                file@,
                is_unknown_file,
                reading@,
                bracket_view(bracket_info),
            ),
    {
        let extension = match &file.extension {
            Some(e) => Some(e.as_str()),
            None => None,
        };
        let (date, cleaned_name) = if !is_unknown_file {
            match self.analyze(file.file_name.as_str(), extension, reading) {
                Err(e) => {
                    return Err(RunError::Analyze(e));
                },
                Ok((date, rest)) => (date, clean_image_name(rest.as_str())),
            }
        } else {
            (None, file.stem.clone())
        };
        let date_string = match date {
            None => "NODATE".to_owned(),
            Some(d) => match d.format(self.settings.date_format.as_str()) {
                Some(text) => text,
                None => {
                    return Err(RunError::DateFormat);
                },
            },
        };
        let file_type = self.classify(extension);
        let bracketed = bracket_info.is_some();
        let info = NameFormatterInvocationInfo {
            date,
            date_string,
            date_default_format: self.settings.date_format.clone(),
            file_type,
            cleaned_name,
            original_name: file.stem.clone(),
            original_filename: file.file_name.clone(),
            duplicate_counter: None,
            extension: match &file.extension {
                Some(e) => e.clone(),
                None => String::new(),
            },
            bracket_info,
        };
        let template = if bracketed && self.settings.bracketed_file_format.is_some() {
            match &self.settings.bracketed_file_format {
                Some(template) => template.clone(),
                None => String::new(),
            }
        } else if is_unknown_file {
            match &self.settings.unknown_file_format {
                Some(template) => template.clone(),
                None => {
                    return Err(RunError::NoUnknownFormat);
                },
            }
        } else if date.is_some() {
            self.settings.file_format.clone()
        } else {
            self.settings.nodate_file_format.clone()
        };
        match render_path(&self.name_formatters, template.as_str(), &info) {
            Err(e) => Err(RunError::Format(e)),
            Ok(target) => Ok(PendingFile { source: file.path.clone(), info, template, target }),
        }
    }

    /// Takes one step of the duplicate resolver. The caller looks whether
    /// the pending file's target exists and reports it; the answer is the
    /// final job where the target is free, or the next candidate to look at.
    pub fn resolve_duplicate(&self, pending: PendingFile, target_exists: bool) -> (resolution:
        Result<Resolution, RunError>)
        ensures
            resolution_result(resolution) == self.advanced(pending@, target_exists),
    {
        if !target_exists {
            return Ok(
                Resolution::Ready(
                    FileJob {
                        source: pending.source,
                        target: pending.target,
                        action: self.settings.action_type,
                        mkdir: self.settings.mkdir,
                    },
                ),
            );
        }
        let next: u32 = match pending.info.duplicate_counter {
            None => 1,
            Some(counter) => {
                if counter == u32::MAX {
                    return Err(RunError::TooManyDuplicates);
                }
                counter + 1
            },
        };
        let mut pending = pending;
        pending.info.duplicate_counter = Some(next);
        match render_path(&self.name_formatters, pending.template.as_str(), &pending.info) {
            Err(e) => Err(RunError::Format(e)),
            Ok(target) => {
                pending.target = target;
                Ok(Resolution::Probe(pending))
            },
        }
    }

    /// However many candidates are found taken, the duplicate counter goes
    /// up by one each time and never comes back to a value it had: after
    /// `n` taken candidates the counter is `n` (none for 0) and everything
    /// else about the file is as it was at the start. The candidate is the
    /// template rendered with that counter, and where it is free it is the
    /// final target.
    pub proof fn lemma_duplicates_count_up(&self, start: PendingView, n: nat)
        requires
            start.info.duplicate_counter is None,
            self.after_collisions(start, n) is Ok,
        ensures
            n <= u32::MAX,
            self.after_collisions(start, n)->Ok_0.source == start.source,
            self.after_collisions(start, n)->Ok_0.template == start.template,
            self.after_collisions(start, n)->Ok_0.info == with_counter(
                start.info,
                counter_after(n),
            ),
            n > 0 ==> rendered_path(
                self.formatters(),
                start.template,
                with_counter(start.info, counter_after(n)),
            ) == Ok::<Seq<Seq<char>>, FormatErrorView>(
                self.after_collisions(start, n)->Ok_0.target,
            ),
            forall|k: nat|
                k < n ==> (#[trigger] self.after_collisions(start, k)) is Ok
                    && self.after_collisions(start, k)->Ok_0.info.duplicate_counter
                    != self.after_collisions(start, n)->Ok_0.info.duplicate_counter,
            self.advanced(self.after_collisions(start, n)->Ok_0, false) == Ok::<
                ResolutionView,
                RunErrorView,
            >(
                ResolutionView::Ready(
                    FileJobView {
                        source: start.source,
                        target: self.after_collisions(start, n)->Ok_0.target,
                        action: self.settings.action_type,
                        mkdir: self.settings.mkdir,
                    },
                ),
            ),
        decreases n,
    {
        if n > 0 {
            let m = (n - 1) as nat;
            self.lemma_duplicates_count_up(start, m);
            assert forall|k: nat| k < n implies (#[trigger] self.after_collisions(start, k)) is Ok
                && self.after_collisions(start, k)->Ok_0.info.duplicate_counter
                != self.after_collisions(start, n)->Ok_0.info.duplicate_counter by {
                if k < m {
                    self.lemma_duplicates_count_up(start, k);
                }
            }
        }
    }
}

} // verus!
