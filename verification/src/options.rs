//! The settings of a run.

use vstd::prelude::*;

verus! {

/// The settings of a run, as given on the command line.
#[derive(Debug, Clone, PartialEq, Eq)]
pub struct Options {
    /// Go into subdirectories of the source.
    pub recursive: bool,
    /// Take hidden files and directories too.
    pub hidden: bool,
    /// Show more.
    pub verbose: bool,
    /// Show nothing.
    pub quiet: bool,
    /// Show where each file would go, and move nothing.
    pub dry_run: bool,
    /// Reverse an earlier run from its log.
    pub undo: bool,
    /// Where the log is written, or read from.
    pub log_path: String,
    /// The directory to organize, as given.
    pub source_raw: Option<String>,
    /// The directory to organize, once resolved.
    pub source: String,
    /// The output directory, as given.
    pub output_raw: Option<String>,
    /// The output directory, once resolved.
    pub output: String,
}

/// What is wrong with the settings.
#[derive(PartialEq, Eq, Structural, Clone, Copy, Debug)]
pub enum UsageError {
    /// Quiet and verbose were asked for together.
    QuietAndVerbose,
    /// A normal run needs a source directory.
    MissingSource,
    /// A normal run needs an output directory.
    MissingOutput,
}

impl Options {
    /// The line to show where the run is verbose; nothing otherwise.
    pub fn verbose_print(&self, text: &str) -> (line: Option<String>)
        ensures
            line.deep_view() == (if self.verbose {
                Some(text@)
            } else {
                None
            }),
    {
        if self.verbose {
            Some(text.to_owned())
        } else {
            None
        }
    }

    /// The line to show unless the run is quiet.
    pub fn default_print(&self, text: &str) -> (line: Option<String>)
        ensures
            line.deep_view() == (if self.quiet {
                None
            } else {
                Some(text@)
            }),
    {
        if !self.quiet {
            Some(text.to_owned())
        } else {
            None
        }
    }

    /// What is wrong with the settings, if anything: quiet and verbose
    /// exclude each other, and a run that is no undo needs a source and an
    /// output directory.
    pub open spec fn fault(&self) -> Option<UsageError> {
        if self.quiet && self.verbose {
            Some(UsageError::QuietAndVerbose)
        } else if self.undo {
            None
        } else if self.source_raw is None {
            Some(UsageError::MissingSource)
        } else if self.output_raw is None {
            Some(UsageError::MissingOutput)
        } else {
            None
        }
    }

    /// Checks the settings against each other.
    pub fn validate(&self) -> (checked: Result<(), UsageError>)
        ensures
            match checked {
                Ok(_) => self.fault() is None,
                Err(e) => self.fault() == Some(e),
            },
    {
        if self.quiet && self.verbose {
            Err(UsageError::QuietAndVerbose)
        } else if self.undo {
            Ok(())
        } else if self.source_raw.is_none() {
            Err(UsageError::MissingSource)
        } else if self.output_raw.is_none() {
            Err(UsageError::MissingOutput)
        } else {
            Ok(())
        }
    }

    /// Takes the source and output directories as given for those of the
    /// run. Both must have been given.
    pub fn resolve(&mut self)
        requires
            old(self).source_raw is Some,
            old(self).output_raw is Some,
        ensures
            final(self).source@ == old(self).source_raw->0@,
            final(self).output@ == old(self).output_raw->0@,
            final(self).recursive == old(self).recursive,
            final(self).hidden == old(self).hidden,
            final(self).verbose == old(self).verbose,
            final(self).quiet == old(self).quiet,
            final(self).dry_run == old(self).dry_run,
            final(self).undo == old(self).undo,
            final(self).log_path == old(self).log_path,
            final(self).source_raw == old(self).source_raw,
            final(self).output_raw == old(self).output_raw,
    {
        let source = match &self.source_raw {
            Some(path) => path.clone(),
            None => String::new(),
        };
        let output = match &self.output_raw {
            Some(path) => path.clone(),
            None => String::new(),
        };
        self.source = source;
        self.output = output;
    }

    /// Whether progress is shown: one unit for each file considered, but not
    /// in a quiet run nor in a dry run.
    pub fn shows_progress(&self) -> (shown: bool)
        ensures
            shown == (!self.quiet && !self.dry_run),
    {
        !self.quiet && !self.dry_run
    }
}

} // verus!
