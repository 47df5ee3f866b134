//! Whether the daemon can use its working directory and the file for its
//! process id, decided from what the program has found out about the paths.

use crate::error::{Error, ErrorView};
use crate::types::Config;
use vstd::prelude::*;

verus! {

/// What was found out about one path.
#[derive(Debug, PartialEq, Eq)]
pub struct PathProbe {
    /// Whether anything is there.
    pub exists: bool,
    /// Whether what is there is a regular file; or why that could not be
    /// told.
    pub metadata: Result<bool, String>,
    /// Whether it can be read and written.
    pub accessible: bool,
    /// Whether the directory that holds it can be read and written.
    pub parent_accessible: bool,
}

/// What a `PathProbe` holds, as mathematical values.
pub struct PathProbeView {
    pub exists: bool,
    pub metadata: Result<bool, Seq<char>>,
    pub accessible: bool,
    pub parent_accessible: bool,
}

impl View for PathProbe {
    type V = PathProbeView;

    open spec fn view(&self) -> PathProbeView {
        PathProbeView {
            exists: self.exists,
            metadata: match self.metadata {
                Ok(is_file) => Ok(is_file),
                Err(source) => Err(source@),
            },
            accessible: self.accessible,
            parent_accessible: self.parent_accessible,
        }
    }
}

/// `path` without its last component, as the standard library's paths see
/// it; `path` itself where there is nothing to take away.
pub uninterp spec fn parent_path(path: Seq<char>) -> Seq<char>;

/// Takes the last component off `path` with `std::path::PathBuf::pop`. The
/// contract only names the result.
#[verifier::external_body]
fn pop_last_component(path: &str) -> (parent: String)
    ensures
        parent@ == parent_path(path@),
{
    let mut buffer = std::path::PathBuf::from(path);
    buffer.pop();
    buffer.to_string_lossy().into_owned()
}

/// The directory that holds `path`.
pub fn parent_dir(path: &str) -> (parent: String)
    ensures
        parent@ == parent_path(path@),
{
    pop_last_component(path)
}

/// Passes a path that can be read and written; reports any other.
pub fn check_writeable(path: &str, accessible: bool) -> (checked: Result<(), Error>)
    ensures
        accessible ==> checked is Ok,
        !accessible ==> (checked matches Err(error) && error@ == (
        ErrorView::CouldNotWriteToFileOrDirectory { path: path@ })),
{
    if accessible {
        Ok(())
    } else {
        Err(Error::CouldNotWriteToFileOrDirectory { path: path.to_owned() })
    }
}

/// Passes a path that holds a regular file; reports one that holds something
/// else, and one of which this could not be told.
pub fn check_is_file(path: &str, metadata: &Result<bool, String>) -> (checked: Result<(), Error>)
    ensures
        match *metadata {
            Ok(true) => checked is Ok,
            Ok(false) => checked matches Err(error) && error@ == (ErrorView::PathNoFile {
                path: path@,
            }),
            Err(source) => checked matches Err(error) && error@ == (ErrorView::PathMetadataError {
                path: path@,
                source: source@,
            }),
        },
{
    match metadata {
        Ok(true) => Ok(()),
        Ok(false) => Err(Error::PathNoFile { path: path.to_owned() }),
        Err(source) => Err(
            Error::PathMetadataError { path: path.to_owned(), source: source.clone() },
        ),
    }
}

/// Passes a path whose directory can be read and written; reports the
/// directory otherwise.
pub fn check_parent_dir_writeable(path: &str, parent_accessible: bool) -> (checked: Result<
    (),
    Error,
>)
    ensures
        parent_accessible ==> checked is Ok,
        !parent_accessible ==> (checked matches Err(error) && error@ == (
        ErrorView::CouldNotWriteToFileOrDirectory { path: parent_path(path@) })),
{
    if parent_accessible {
        Ok(())
    } else {
        Err(Error::CouldNotWriteToFileOrDirectory { path: parent_dir(path) })
    }
}

/// What stands in the way of writing a file at `path`, if anything. A path
/// that exists has to hold a regular file that can be read and written; the
/// first of these that fails is reported. At a path that does not exist, the
/// directory has to allow reading and writing.
pub open spec fn writeable_file_fault(path: Seq<char>, probe: PathProbeView) -> Option<ErrorView> {
    if probe.exists {
        match probe.metadata {
            Err(source) => Some(ErrorView::PathMetadataError { path, source }),
            Ok(false) => Some(ErrorView::PathNoFile { path }),
            Ok(true) => if probe.accessible {
                None
            } else {
                Some(ErrorView::CouldNotWriteToFileOrDirectory { path })
            },
        }
    } else if probe.parent_accessible {
        None
    } else {
        Some(ErrorView::CouldNotWriteToFileOrDirectory { path: parent_path(path) })
    }
}

/// Passes a path at which a file can be written; reports what stands in the
/// way otherwise.
pub fn check_writeable_file(path: &str, probe: &PathProbe) -> (checked: Result<(), Error>)
    ensures
        match writeable_file_fault(path@, probe@) {
            None => checked is Ok,
            Some(fault) => checked matches Err(error) && error@ == fault,
        },
{
    if probe.exists {
        match check_is_file(path, &probe.metadata) {
            Ok(_) => check_writeable(path, probe.accessible),
            Err(error) => Err(error),
        }
    } else {
        check_parent_dir_writeable(path, probe.parent_accessible)
    }
}

/// Passes settings whose working directory can be read and written.
pub fn check_working_dir(config: &Config, accessible: bool) -> (checked: Result<(), Error>)
    ensures
        accessible ==> checked is Ok,
        !accessible ==> (checked matches Err(error) && error@ == (
        ErrorView::CouldNotWriteToFileOrDirectory { path: config@.working_dir })),
{
    check_writeable(config.working_dir.as_str(), accessible)
}

/// Passes settings whose file for the process id can be written, `probe`
/// being what was found out about its path.
pub fn check_pid_file(config: &Config, probe: &PathProbe) -> (checked: Result<(), Error>)
    ensures
        match writeable_file_fault(config@.pid_file, probe@) {
            None => checked is Ok,
            Some(fault) => checked matches Err(error) && error@ == fault,
        },
{
    check_writeable_file(config.pid_file.as_str(), probe)
}

} // verus!
