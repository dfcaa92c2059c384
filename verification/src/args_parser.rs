//! The run's command-line arguments, and how the suite-file path is
//! derived from them. Reading the actual command line and canonicalizing
//! the directory are the caller's job; this type holds the result.

use vstd::prelude::*;

verus! {

/// The default suite-file name looked for in the target directory when no
/// file is named explicitly.
pub const DEFAULT_FILE_NAME: &'static str = ".ftest.toml";

/// The arguments of a run: the directory in which to run the tests, an
/// optional explicit path of the suite file, and the two flags.
pub struct ArgsParser {
    /// Directory in which to run the tests.
    pub directory: String,
    /// Path of the suite file to use; when absent, a `.ftest.toml` file in
    /// the target directory is used instead.
    pub file: Option<String>,
    /// Stop after the first failure.
    pub stop_on_failure: bool,
    /// Output more information about the tests.
    pub verbose: bool,
}

/// Whether a path is absolute, that is, starts with a slash.
pub open spec fn starts_with_slash(path: Seq<char>) -> bool {
    path.len() > 0 && path[0] == '/'
}

impl ArgsParser {
    /// Packs parsed arguments.
    pub fn new(directory: String, file: Option<String>, stop_on_failure: bool, verbose: bool) -> (r:
        ArgsParser)
        ensures
            r.directory@ == directory@,
            r.file.deep_view() == file.deep_view(),
            r.stop_on_failure == stop_on_failure,
            r.verbose == verbose,
    {
        ArgsParser { directory, file, stop_on_failure, verbose }
    }

    /// Makes the suite-file path relative to the target directory when it
    /// is not absolute. A path that starts with a slash is kept as it is;
    /// any other (an empty one included) is prefixed with the directory and
    /// a slash.
    pub fn relate_file_path_if_not_absolute(&mut self)
        ensures
            final(self).directory@ == old(self).directory@,
            final(self).stop_on_failure == old(self).stop_on_failure,
            final(self).verbose == old(self).verbose,
            final(self).file.deep_view() == match old(self).file.deep_view() {
                None => None::<Seq<char>>,
                Some(f) => Some(
                    if starts_with_slash(f) {
                        f
                    } else {
                        old(self).directory@ + "/"@ + f
                    },
                ),
            },
    {
        let absolute = match &self.file {
            None => true,
            Some(f) => !f.as_str().is_empty() && f.as_str().get_char(0) == '/',
        };
        if !absolute {
            let file = match &self.file {
                Some(f) => f.clone(),
                None => String::new(),
            };
            let mut related = self.directory.clone();
            related.append("/");
            related.append(file.as_str());
            self.file = Some(related);
        }
    }

    /// The suite-file path to load: the explicit one when given, else the
    /// default file name inside the target directory.
    pub fn get_file_path(&self) -> (p: String)
        ensures
            p@ == match self.file.deep_view() {
                Some(f) => f,
                None => self.directory@ + "/"@ + DEFAULT_FILE_NAME@,
            },
    {
        match &self.file {
            None => {
                let mut p = self.directory.clone();
                p.append("/");
                p.append(DEFAULT_FILE_NAME);
                p
            },
            Some(file) => file.clone(),
        }
    }
}

} // verus!
