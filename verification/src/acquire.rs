//! Obtaining the text of the API header: from the kept copy where there is
//! one and it may be used, from the network otherwise.
//!
//! The library decides and the caller acts. The caller reports what has
//! happened, is told what to do next, and stops at the first request that it
//! cannot carry out.

use vstd::prelude::*;
use vstd::string::*;
use crate::config::{ConfigText, Gl3wExec, Gl3wPath, TargetText};

verus! {

/// How far the acquisition has come: what the caller was last asked to do.
#[derive(Debug, PartialEq, Eq)]
pub enum Phase {
    /// Nothing yet.
    Idle,
    /// To make the directories.
    Directories,
    /// To look for the kept copy.
    Probe,
    /// To fetch the text.
    Download,
    /// To keep the fetched text, which is held here meanwhile.
    Store(String),
    /// To read the kept copy.
    Cache,
    /// To take the text: the acquisition is over.
    Finished,
}

/// What the caller reports.
#[derive(Debug, PartialEq, Eq)]
pub enum Report {
    /// The acquisition is to begin.
    Start,
    /// The directories exist.
    DirectoriesReady,
    /// Whether a kept copy exists.
    CacheFound(bool),
    /// The text that was fetched.
    Downloaded(String),
    /// The fetched text has been kept.
    Stored,
    /// The text of the kept copy.
    CacheRead(String),
}

/// What the caller is asked to do.
#[derive(Debug, PartialEq, Eq)]
pub enum Request {
    /// Make sure that the directory of each of these files exists.
    MakeParents(Vec<String>),
    /// Find out whether the file with this path exists.
    Probe(String),
    /// Fetch the text from this address.
    Download(String),
    /// Write the text (second) to the file with this path (first),
    /// replacing what the file held.
    Store(String, String),
    /// Read the whole file with this path.
    ReadCache(String),
    /// Take this text as the text of the API header.
    Deliver(String),
}

/// A phase, as mathematical text.
pub enum PhaseText {
    Idle,
    Directories,
    Probe,
    Download,
    Store(Seq<char>),
    Cache,
    Finished,
}

/// A report, as mathematical text.
pub enum ReportText {
    Start,
    DirectoriesReady,
    CacheFound(bool),
    Downloaded(Seq<char>),
    Stored,
    CacheRead(Seq<char>),
}

/// A request, as mathematical text.
pub enum RequestText {
    MakeParents(Seq<Seq<char>>),
    Probe(Seq<char>),
    Download(Seq<char>),
    Store(Seq<char>, Seq<char>),
    ReadCache(Seq<char>),
    Deliver(Seq<char>),
}

impl View for Phase {
    type V = PhaseText;

    open spec fn view(&self) -> PhaseText {
        match self {
            Phase::Idle => PhaseText::Idle,
            Phase::Directories => PhaseText::Directories,
            Phase::Probe => PhaseText::Probe,
            Phase::Download => PhaseText::Download,
            Phase::Store(text) => PhaseText::Store(text@),
            Phase::Cache => PhaseText::Cache,
            Phase::Finished => PhaseText::Finished,
        }
    }
}

impl View for Report {
    type V = ReportText;

    open spec fn view(&self) -> ReportText {
        match self {
            Report::Start => ReportText::Start,
            Report::DirectoriesReady => ReportText::DirectoriesReady,
            Report::CacheFound(found) => ReportText::CacheFound(*found),
            Report::Downloaded(text) => ReportText::Downloaded(text@),
            Report::Stored => ReportText::Stored,
            Report::CacheRead(text) => ReportText::CacheRead(text@),
        }
    }
}

impl View for Request {
    type V = RequestText;

    open spec fn view(&self) -> RequestText {
        match self {
            Request::MakeParents(files) => RequestText::MakeParents(files.deep_view()),
            Request::Probe(path) => RequestText::Probe(path@),
            Request::Download(url) => RequestText::Download(url@),
            Request::Store(path, text) => RequestText::Store(path@, text@),
            Request::ReadCache(path) => RequestText::ReadCache(path@),
            Request::Deliver(text) => RequestText::Deliver(text@),
        }
    }
}

/// The files whose directories a run needs: the kept copy, then the
/// generated files.
pub open spec fn files_of(config: ConfigText) -> Seq<Seq<char>> {
    match config.target {
        TargetText::Single(path) => seq![config.cache, path],
        TargetText::Separate(header, source) => seq![config.cache, header, source],
    }
}

/// The request for the text itself, once it is known whether the kept copy
/// may be used: the copy is read if it exists and the run is not told to
/// pass it by; otherwise the text is fetched.
pub open spec fn source_of_text(config: ConfigText, cache_exists: bool) -> (
    PhaseText,
    RequestText,
) {
    if config.no_cache || !cache_exists {
        (PhaseText::Download, RequestText::Download(config.url))
    } else {
        (PhaseText::Cache, RequestText::ReadCache(config.cache))
    }
}

/// The next phase and the request that answer a report in a phase, or
/// `None` where the report is not the one that the phase waits for.
pub open spec fn step(config: ConfigText, phase: PhaseText, report: ReportText) -> Option<
    (PhaseText, RequestText),
> {
    match (phase, report) {
        (PhaseText::Idle, ReportText::Start) => Some(
            (PhaseText::Directories, RequestText::MakeParents(files_of(config))),
        ),
        (PhaseText::Directories, ReportText::DirectoriesReady) => if config.no_cache {
            Some(source_of_text(config, false))
        } else {
            Some((PhaseText::Probe, RequestText::Probe(config.cache)))
        },
        (PhaseText::Probe, ReportText::CacheFound(found)) => Some(source_of_text(config, found)),
        (PhaseText::Download, ReportText::Downloaded(text)) => Some(
            (PhaseText::Store(text), RequestText::Store(config.cache, text)),
        ),
        (PhaseText::Store(text), ReportText::Stored) => Some(
            (PhaseText::Finished, RequestText::Deliver(text)),
        ),
        (PhaseText::Cache, ReportText::CacheRead(text)) => Some(
            (PhaseText::Finished, RequestText::Deliver(text)),
        ),
        _ => None,
    }
}

/// The mathematical content of an answer.
pub open spec fn answer_text(answer: Option<(Phase, Request)>) -> Option<
    (PhaseText, RequestText),
> {
    match answer {
        Some((phase, request)) => Some((phase@, request@)),
        None => None,
    }
}

/// A run that is told to pass the kept copy by never asks whether one
/// exists: once the directories are there it has the text fetched, and were
/// it told of a kept copy it would still have the text fetched. The fetched
/// text is then written over the kept copy, unchanged, and delivered.
pub proof fn lemma_bypass_fetches_and_keeps(config: ConfigText, found: bool, fetched: Seq<char>)
    requires
        config.no_cache,
    ensures
        step(config, PhaseText::Directories, ReportText::DirectoriesReady) == Some(
            (PhaseText::Download, RequestText::Download(config.url)),
        ),
        step(config, PhaseText::Probe, ReportText::CacheFound(found)) == Some(
            (PhaseText::Download, RequestText::Download(config.url)),
        ),
        step(config, PhaseText::Download, ReportText::Downloaded(fetched)) == Some(
            (PhaseText::Store(fetched), RequestText::Store(config.cache, fetched)),
        ),
        step(config, PhaseText::Store(fetched), ReportText::Stored) == Some(
            (PhaseText::Finished, RequestText::Deliver(fetched)),
        ),
{
}

/// A run that may use the kept copy and finds one reads it and delivers its
/// text unchanged; on that way nothing is fetched and nothing is written, so
/// a second run finds the same text.
pub proof fn lemma_kept_copy_is_read(config: ConfigText, kept: Seq<char>)
    requires
        !config.no_cache,
    ensures
        step(config, PhaseText::Directories, ReportText::DirectoriesReady) == Some(
            (PhaseText::Probe, RequestText::Probe(config.cache)),
        ),
        step(config, PhaseText::Probe, ReportText::CacheFound(true)) == Some(
            (PhaseText::Cache, RequestText::ReadCache(config.cache)),
        ),
        step(config, PhaseText::Cache, ReportText::CacheRead(kept)) == Some(
            (PhaseText::Finished, RequestText::Deliver(kept)),
        ),
{
}

/// A run that may use the kept copy and finds none has the text fetched.
pub proof fn lemma_missing_copy_is_fetched(config: ConfigText)
    ensures
        step(config, PhaseText::Probe, ReportText::CacheFound(false)) == Some(
            (PhaseText::Download, RequestText::Download(config.url)),
        ),
{
}

/// Nothing follows the end: a finished acquisition answers no report.
pub proof fn lemma_finished_is_final(config: ConfigText, report: ReportText)
    ensures
        step(config, PhaseText::Finished, report) is None,
{
}

impl Gl3wExec {
    /// The files whose directories the run needs.
    fn files(&self) -> (files: Vec<String>)
        ensures
            files.deep_view() == files_of(self@),
    {
        let mut files: Vec<String> = Vec::new();
        files.push(self.path_glcorearb.clone());
        match &self.path_gl3w {
            Gl3wPath::Single(path) => {
                files.push(path.clone());
            },
            Gl3wPath::Separate(header, source) => {
                files.push(header.clone());
                files.push(source.clone());
            },
        }
        proof {
            assert(files.deep_view() =~= files_of(self@));
        }
        files
    }

    /// The request for the text itself.
    fn text_source(&self, cache_exists: bool) -> (r: (Phase, Request))
        ensures
            (r.0@, r.1@) == source_of_text(self@, cache_exists),
    {
        if self.no_cache || !cache_exists {
            (Phase::Download, Request::Download(self.url_glcorearb.clone()))
        } else {
            (Phase::Cache, Request::ReadCache(self.path_glcorearb.clone()))
        }
    }

    /// One step of obtaining the text of the API header: answers the
    /// caller's report with the next phase and the next request, or with
    /// `None` where the report does not belong to the phase.
    pub fn get_glcorearb_h(&self, phase: Phase, report: Report) -> (answer: Option<
        (Phase, Request),
    >)
        ensures
            answer_text(answer) == step(self@, phase@, report@),
    {
        match (phase, report) {
            (Phase::Idle, Report::Start) => Some(
                (Phase::Directories, Request::MakeParents(self.files())),
            ),
            (Phase::Directories, Report::DirectoriesReady) => {
                if self.no_cache {
                    Some(self.text_source(false))
                } else {
                    Some((Phase::Probe, Request::Probe(self.path_glcorearb.clone())))
                }
            },
            (Phase::Probe, Report::CacheFound(found)) => Some(self.text_source(found)),
            (Phase::Download, Report::Downloaded(text)) => {
                let kept = text.clone();
                Some((Phase::Store(kept), Request::Store(self.path_glcorearb.clone(), text)))
            },
            (Phase::Store(text), Report::Stored) => Some(
                (Phase::Finished, Request::Deliver(text)),
            ),
            (Phase::Cache, Report::CacheRead(text)) => Some(
                (Phase::Finished, Request::Deliver(text)),
            ),
            _ => None,
        }
    }
}

} // verus!
