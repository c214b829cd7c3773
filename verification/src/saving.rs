//! Where the canvas is saved.
//!
//! The directory is the one that the operating system sets aside for the
//! data of this program, and the file is the entry [`SAVE_FILE_NAME`] of
//! that directory. Which directory that is depends on the machine and on
//! the user, and how a path is put together depends on the system. So the
//! contracts here promise nothing of what a path holds: they say when a
//! path comes back, for every answer of the system.

use vstd::prelude::*;

verus! {

/// The first part of the name that the program is known by to the system:
/// the domain of its maker, without the maker's own name.
pub const QUALIFIER: &'static str = "com";

/// The maker of the program.
pub const ORGANIZATION: &'static str = "creikey";

/// The program's own name.
pub const APPLICATION: &'static str = "Explain";

/// The name of the file that the canvas is saved in.
pub const SAVE_FILE_NAME: &'static str = "save.explain";

/// A path of the file system, owned. The library hands paths on and never
/// looks inside one.
#[verifier::external_type_specification]
#[verifier::external_body]
pub struct ExPathBuf(std::path::PathBuf);

/// The directories that `directories` has found for a program.
#[verifier::external_type_specification]
#[verifier::external_body]
pub struct ExProjectDirs(directories::ProjectDirs);

/// `ProjectDirs::from`: the directories of the program with the given
/// names, or `None` where the system has no home directory for the user.
/// The answer depends on the machine's environment; nothing is claimed of
/// it.
#[verifier::external_body]
fn project_dirs(qualifier: &str, organization: &str, application: &str) -> (dirs: Option<
    directories::ProjectDirs,
>) {
    directories::ProjectDirs::from(qualifier, organization, application)
}

/// `ProjectDirs::data_dir`, as an owned path: the directory for the
/// program's data.
#[verifier::external_body]
fn data_dir(dirs: &directories::ProjectDirs) -> (dir: std::path::PathBuf) {
    dirs.data_dir().to_path_buf()
}

/// `Path::join`: the path of the entry `name` of the directory `dir`.
#[verifier::external_body]
fn join(dir: &std::path::PathBuf, name: &str) -> (path: std::path::PathBuf) {
    dir.join(name)
}

/// The directory that the canvas is saved in, given the directories that
/// the system has for the program: their data directory, and none exactly
/// if the system has no directories for the program.
pub fn save_directory_of(dirs: Option<directories::ProjectDirs>) -> (dir: Option<
    std::path::PathBuf,
>)
    ensures
        dir is Some <==> dirs is Some,
{
    match dirs {
        Some(dirs) => Some(data_dir(&dirs)),
        None => None,
    }
}

/// The directory that the canvas is saved in, or `None` where the system
/// has none for it: the data directory among the directories that the
/// system has for the program named by [`QUALIFIER`], [`ORGANIZATION`] and
/// [`APPLICATION`].
///
/// The system's answer can differ from one call to the next, so nothing is
/// promised of the result here; [`save_directory_of`] says what is made of
/// each answer.
pub fn get_save_directory_path() -> (dir: Option<std::path::PathBuf>) {
    save_directory_of(project_dirs(QUALIFIER, ORGANIZATION, APPLICATION))
}

/// The file that the canvas is saved in, given the directory for it: the
/// entry [`SAVE_FILE_NAME`] of the directory, and none exactly if there is
/// no directory.
pub fn save_file_in(save_directory: Option<std::path::PathBuf>) -> (path: Option<
    std::path::PathBuf,
>)
    ensures
        path is Some <==> save_directory is Some,
{
    match save_directory {
        Some(dir) => Some(join(&dir, SAVE_FILE_NAME)),
        None => None,
    }
}

/// The file that the canvas is saved in, or `None` where the system has no
/// directory for it.
///
/// The directory is asked for anew on every call, so nothing is promised of
/// the result here; [`save_file_in`] says what is made of each directory.
pub fn get_save_file_path() -> (path: Option<std::path::PathBuf>) {
    save_file_in(get_save_directory_path())
}

} // verus!
