//! The settings of one run, and what a run makes of the header's text.

use vstd::prelude::*;
use vstd::string::*;
use crate::emit::{
    gen_gl3w_c, gen_gl3w_h, gen_gl3w_single, header_text, single_text, source_text, Boilerplate,
    BoilerplateText,
};
use crate::extract::{
    capture_group, declaration_pattern, extracted, group_captures, identifier_group,
    lemma_extraction_unique, procs_from_captures, result_symbols, ExtractError,
};
use crate::symbol::{symbols, Proc, Symbol};

verus! {

/// Where the generated text goes.
#[derive(Debug, PartialEq, Eq)]
pub enum Gl3wPath {
    /// One combined file.
    Single(String),
    /// A file of declarations and a file with the implementation.
    Separate(String, String),
}

/// The settings of one run.
#[derive(Debug, PartialEq, Eq)]
pub struct Gl3wExec {
    /// Where the API header is fetched from.
    pub url_glcorearb: String,
    /// Where the fetched API header is kept.
    pub path_glcorearb: String,
    /// Where the generated text goes.
    pub path_gl3w: Gl3wPath,
    /// Whether to fetch the API header even if a kept copy exists.
    pub no_cache: bool,
}

/// The target of the generated text, as mathematical text.
pub enum TargetText {
    Single(Seq<char>),
    Separate(Seq<char>, Seq<char>),
}

/// The settings of one run, as mathematical text.
pub struct ConfigText {
    pub url: Seq<char>,
    pub cache: Seq<char>,
    pub target: TargetText,
    pub no_cache: bool,
}

impl View for Gl3wPath {
    type V = TargetText;

    open spec fn view(&self) -> TargetText {
        match self {
            Gl3wPath::Single(path) => TargetText::Single(path@),
            Gl3wPath::Separate(header, source) => TargetText::Separate(header@, source@),
        }
    }
}

impl View for Gl3wExec {
    type V = ConfigText;

    open spec fn view(&self) -> ConfigText {
        ConfigText {
            url: self.url_glcorearb@,
            cache: self.path_glcorearb@,
            target: self.path_gl3w@,
            no_cache: self.no_cache,
        }
    }
}

/// The settings of a run that is given none: the header of the registry,
/// kept under `include/GL`, and two files generated under `src`.
pub open spec fn default_config() -> ConfigText {
    ConfigText {
        url: "https://www.opengl.org/registry/api/GL/glcorearb.h"@,
        cache: "include/GL/glcorearb.h"@,
        target: TargetText::Separate("src/gl3w.h"@, "src/gl3w.c"@),
        no_cache: false,
    }
}

impl Default for Gl3wExec {
    fn default() -> (r: Gl3wExec)
        ensures
            r@ == default_config(),
    {
        Gl3wExec {
            url_glcorearb: String::from_str("https://www.opengl.org/registry/api/GL/glcorearb.h"),
            path_glcorearb: String::from_str("include/GL/glcorearb.h"),
            path_gl3w: Gl3wPath::Separate(
                String::from_str("src/gl3w.h"),
                String::from_str("src/gl3w.c"),
            ),
            no_cache: false,
        }
    }
}

/// One file to be written: its path and its whole text.
#[derive(Debug, PartialEq, Eq)]
pub struct Artifact {
    pub path: String,
    pub text: String,
}

/// The paths and texts of a sequence of files.
pub open spec fn artifact_texts(files: Seq<Artifact>) -> Seq<(Seq<char>, Seq<char>)> {
    files.map_values(|f: Artifact| (f.path@, f.text@))
}

/// The files of a run, in the order in which they are written: the combined
/// file alone, or the declarations and then the implementation.
pub open spec fn rendered(target: TargetText, b: BoilerplateText, all: Seq<Symbol>) -> Seq<
    (Seq<char>, Seq<char>),
> {
    match target {
        TargetText::Single(path) => seq![(path, single_text(b, all))],
        TargetText::Separate(header, source) => seq![
            (header, header_text(b, all)),
            (source, source_text(b, all)),
        ],
    }
}

/// Two runs with the same settings and the same fixed text over the same
/// text of the API header end alike: with the same error, or with the same
/// list of entry points and the same files.
pub proof fn lemma_same_text_same_files(
    config: ConfigText,
    b: BoilerplateText,
    text: Seq<char>,
    first: Result<Seq<Symbol>, ExtractError>,
    second: Result<Seq<Symbol>, ExtractError>,
)
    requires
        extracted(group_captures(declaration_pattern(), text, identifier_group()), first),
        extracted(group_captures(declaration_pattern(), text, identifier_group()), second),
    ensures
        first == second,
        match (first, second) {
            (Ok(one), Ok(other)) => rendered(config.target, b, one) == rendered(
                config.target,
                b,
                other,
            ),
            _ => true,
        },
{
    lemma_extraction_unique(
        group_captures(declaration_pattern(), text, identifier_group()),
        first,
        second,
    );
}

impl Gl3wExec {
    /// Finds the entry points that the text of the API header declares and
    /// sorts them. The search for declarations is the pattern engine's; an
    /// identifier too short for a loader name fails the extraction.
    pub fn gen_procs(&self, glcorearb_h: &str) -> (r: Result<Vec<Proc>, ExtractError>)
        ensures
            extracted(
                group_captures(declaration_pattern(), glcorearb_h@, identifier_group()),
                result_symbols(r),
            ),
    {
        match capture_group("GLAPI.*?APIENTRY\\s+(\\w+)", glcorearb_h, 1) {
            Ok(found) => procs_from_captures(found.as_slice()),
            Err(_) => Err(ExtractError::Pattern),
        }
    }

    /// Renders the files of the run from the sorted entry points.
    pub fn gen(&self, boilerplate: &Boilerplate, procs: &[Proc]) -> (files: Vec<Artifact>)
        ensures
            artifact_texts(files@) == rendered(self@.target, boilerplate@, symbols(procs@)),
    {
        let mut files: Vec<Artifact> = Vec::new();
        match &self.path_gl3w {
            Gl3wPath::Single(path) => {
                let mut text = String::new();
                gen_gl3w_single(&mut text, boilerplate, procs);
                files.push(Artifact { path: path.clone(), text });
            },
            Gl3wPath::Separate(header, source) => {
                let mut declarations = String::new();
                gen_gl3w_h(&mut declarations, boilerplate, procs);
                let mut implementation = String::new();
                gen_gl3w_c(&mut implementation, boilerplate, procs);
                files.push(Artifact { path: header.clone(), text: declarations });
                files.push(Artifact { path: source.clone(), text: implementation });
            },
        }
        proof {
            assert(artifact_texts(files@) =~= rendered(
                self@.target,
                boilerplate@,
                symbols(procs@),
            ));
        }
        files
    }
}

} // verus!
