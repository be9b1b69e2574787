//! The command handlers' decision logic: everything each command does to a
//! response body once it has been fetched — parse, decode, select, format —
//! and the rules for where a downloaded file may be written.
use vstd::prelude::*;

use crate::decode::decode_game_versions;
use crate::decode::decode_project_response;
use crate::decode::decode_project_versions;
use crate::decode::decode_search_response;
use crate::decode::spec_game_versions;
use crate::decode::spec_project_response;
use crate::decode::spec_project_versions;
use crate::decode::spec_search_response;
use crate::errors::ClientError;
use crate::json::json_of;
use crate::json::parse_json;
use crate::models::GameFiles;
use crate::models::GameFilesV;
use crate::models::GameVersion;
use crate::models::GameVersionV;
use crate::models::ProjectDependency;
use crate::models::ProjectDependencyV;
use crate::models::ProjectResponse;
use crate::models::ProjectResponseV;
use crate::models::ProjectVersionV;
use crate::output::format_hits;
use crate::output::format_project_info;
use crate::output::hits_output;
use crate::output::info_output;

verus! {

/// A string result, seen through the string's view.
pub open spec fn str_result_view(r: Result<String, ClientError>) -> Result<
    Seq<char>,
    ClientError,
> {
    match r {
        Ok(s) => Ok(s@),
        Err(e) => Err(e),
    }
}

/// A dependency-list result, seen through the list's view.
pub open spec fn dep_result_view(r: Result<Vec<ProjectDependency>, ClientError>) -> Result<
    Seq<ProjectDependencyV>,
    ClientError,
> {
    match r {
        Ok(ds) => Ok(ds.deep_view()),
        Err(e) => Err(e),
    }
}

/// A file-entry result, seen through the entry's view.
pub open spec fn files_result_view(r: Result<GameFiles, ClientError>) -> Result<
    GameFilesV,
    ClientError,
> {
    match r {
        Ok(f) => Ok(f@),
        Err(e) => Err(e),
    }
}

/// What the search command makes of a response body: a decode failure, or
/// one printed block per hit.
pub open spec fn spec_search_output(body: Seq<char>) -> Result<Seq<char>, ClientError> {
    match json_of(body) {
        Some(j) => match spec_search_response(j) {
            Some(hs) => Ok(hits_output(hs)),
            None => Err(ClientError::Decode),
        },
        None => Err(ClientError::Decode),
    }
}

/// Processes a search response body: parse, decode, format the hits.
pub fn search_hits_output(body: &str) -> (r: Result<String, ClientError>)
    ensures
        str_result_view(r) == spec_search_output(body@),
{
    let j = match parse_json(body) {
        Some(j) => j,
        None => {
            return Err(ClientError::Decode);
        },
    };
    let resp = match decode_search_response(&j) {
        Ok(m) => m,
        Err(e) => {
            return Err(e);
        },
    };
    Ok(format_hits(&resp.hits))
}

/// What the info command makes of a response body: a decode failure, or the
/// formatted project page.
pub open spec fn spec_info_output(body: Seq<char>) -> Result<Seq<char>, ClientError> {
    match json_of(body) {
        Some(j) => match spec_project_response(j) {
            Some(pv) => Ok(info_output(pv)),
            None => Err(ClientError::Decode),
        },
        None => Err(ClientError::Decode),
    }
}

/// Processes a project-detail response body: parse, decode, format.
pub fn project_info_output(body: &str) -> (r: Result<String, ClientError>)
    ensures
        str_result_view(r) == spec_info_output(body@),
{
    let j = match parse_json(body) {
        Some(j) => j,
        None => {
            return Err(ClientError::Decode);
        },
    };
    match decode_project_response(&j) {
        Ok(p) => Ok(format_project_info(&p)),
        Err(e) => Err(e),
    }
}

/// A project-detail result, seen through the model's view.
pub open spec fn project_result_view(r: Result<ProjectResponse, ClientError>) -> Result<
    ProjectResponseV,
    ClientError,
> {
    match r {
        Ok(p) => Ok(p@),
        Err(e) => Err(e),
    }
}

/// What a project-detail body decodes to.
pub open spec fn spec_project_body(body: Seq<char>) -> Result<ProjectResponseV, ClientError> {
    match json_of(body) {
        Some(j) => match spec_project_response(j) {
            Some(pv) => Ok(pv),
            None => Err(ClientError::Decode),
        },
        None => Err(ClientError::Decode),
    }
}

/// Parses and decodes a project-detail response body into its model, as the
/// dependency resolution reads one per dependency.
pub fn decode_project_body(body: &str) -> (r: Result<ProjectResponse, ClientError>)
    ensures
        project_result_view(r) == spec_project_body(body@),
{
    let j = match parse_json(body) {
        Some(j) => j,
        None => {
            return Err(ClientError::Decode);
        },
    };
    decode_project_response(&j)
}

/// The dependency listing consults the first returned version only: no
/// versions at all and an empty dependency list are distinct errors.
pub open spec fn spec_first_dependencies(vs: Seq<ProjectVersionV>) -> Result<
    Seq<ProjectDependencyV>,
    ClientError,
> {
    if vs.len() == 0 {
        Err(ClientError::NoVersions)
    } else if vs[0].dependencies.len() == 0 {
        Err(ClientError::NoDependencies)
    } else {
        Ok(vs[0].dependencies)
    }
}

/// What the dependencies command extracts from a response body.
pub open spec fn spec_version_dependencies(body: Seq<char>) -> Result<
    Seq<ProjectDependencyV>,
    ClientError,
> {
    match json_of(body) {
        Some(j) => match spec_project_versions(j) {
            Some(vs) => spec_first_dependencies(vs),
            None => Err(ClientError::Decode),
        },
        None => Err(ClientError::Decode),
    }
}

/// Processes a version-list response body for the dependencies command:
/// parse, decode, take the first version's dependency list.
pub fn version_dependencies(body: &str) -> (r: Result<Vec<ProjectDependency>, ClientError>)
    ensures
        dep_result_view(r) == spec_version_dependencies(body@),
{
    let j = match parse_json(body) {
        Some(j) => j,
        None => {
            return Err(ClientError::Decode);
        },
    };
    let mut versions = match decode_project_versions(&j) {
        Ok(vs) => vs,
        Err(e) => {
            return Err(e);
        },
    };
    if versions.len() == 0 {
        return Err(ClientError::NoVersions);
    }
    let ghost vs0 = versions.deep_view();
    let first = versions.remove(0);
    proof {
        assert(first.deep_view() == vs0[0]);
    }
    if first.dependencies.len() == 0 {
        return Err(ClientError::NoDependencies);
    }
    Ok(first.dependencies)
}

/// Whether a loader list contains the given loader.
pub open spec fn contains_str(ss: Seq<Seq<char>>, s: Seq<char>) -> bool {
    exists|i: int| 0 <= i < ss.len() && ss[i] == s
}

/// Checks a version's loader list for the requested loader.
pub fn loaders_contain(loaders: &Vec<String>, loader: &str) -> (r: bool)
    ensures
        r == contains_str(loaders.deep_view(), loader@),
{
    let ls = String::from_str(loader);
    let n: usize = loaders.len();
    let mut i: usize = 0;
    proof {
        assert(loaders.deep_view().len() == n);
    }
    while i < n
        invariant
            n == loaders@.len(),
            i <= n,
            ls@ == loader@,
            loaders.deep_view().len() == n,
            forall|k: int| 0 <= k < i ==> loaders.deep_view()[k] != loader@,
        decreases n - i,
    {
        if loaders[i] == ls {
            proof {
                assert(loaders.deep_view()[i as int] == loader@);
            }
            return true;
        }
        i = i + 1;
    }
    false
}

/// The download selection: the first version whose loader set contains the
/// requested loader decides the outcome; its first file is taken, and a
/// matching version without files is a not-found error, never a panic.
pub open spec fn spec_select_files(vs: Seq<GameVersionV>, loader: Seq<char>) -> Result<
    GameFilesV,
    ClientError,
>
    decreases vs.len(),
{
    if vs.len() == 0 {
        Err(ClientError::NoMatchingFiles)
    } else if contains_str(vs[0].loaders, loader) {
        if vs[0].files.len() > 0 {
            Ok(vs[0].files[0])
        } else {
            Err(ClientError::NoMatchingFiles)
        }
    } else {
        spec_select_files(vs.drop_first(), loader)
    }
}

/// Selection is first-match, never best-match: the first entry whose loader
/// set contains the requested loader decides the outcome, even when a later
/// entry also matches.
pub proof fn lemma_select_first_match(vs: Seq<GameVersionV>, loader: Seq<char>, i: int)
    requires
        0 <= i < vs.len(),
        contains_str(vs[i].loaders, loader),
        forall|j: int| 0 <= j < i ==> !contains_str((#[trigger] vs[j]).loaders, loader),
    ensures
        spec_select_files(vs, loader) == if vs[i].files.len() > 0 {
            Ok::<GameFilesV, ClientError>(vs[i].files[0])
        } else {
            Err::<GameFilesV, ClientError>(ClientError::NoMatchingFiles)
        },
    decreases i,
{
    if i > 0 {
        lemma_select_first_match(vs.drop_first(), loader, i - 1);
    }
}

proof fn lemma_select_none(vs: Seq<GameVersionV>, loader: Seq<char>)
    requires
        forall|j: int| 0 <= j < vs.len() ==> !contains_str((#[trigger] vs[j]).loaders, loader),
    ensures
        spec_select_files(vs, loader) == Err::<GameFilesV, ClientError>(
            ClientError::NoMatchingFiles,
        ),
    decreases vs.len(),
{
    if vs.len() > 0 {
        lemma_select_none(vs.drop_first(), loader);
    }
}

/// Scans the version list for the first entry matching the loader and takes
/// its first file entry.
pub fn select_game_files(versions: &Vec<GameVersion>, loader: &str) -> (r: Result<
    GameFiles,
    ClientError,
>)
    ensures
        files_result_view(r) == spec_select_files(versions.deep_view(), loader@),
{
    let n: usize = versions.len();
    let mut i: usize = 0;
    proof {
        assert(versions.deep_view().len() == n);
    }
    while i < n
        invariant
            n == versions@.len(),
            i <= n,
            versions.deep_view().len() == n,
            forall|k: int|
                0 <= k < i ==> !contains_str(
                    (#[trigger] versions.deep_view()[k]).loaders,
                    loader@,
                ),
        decreases n - i,
    {
        let v = &versions[i];
        proof {
            assert(v.deep_view() == versions.deep_view()[i as int]);
        }
        if loaders_contain(&v.loaders, loader) {
            proof {
                lemma_select_first_match(versions.deep_view(), loader@, i as int);
            }
            if v.files.len() > 0 {
                let f = &v.files[0];
                let picked = GameFiles { url: f.url.clone(), filename: f.filename.clone() };
                proof {
                    assert(picked@ == versions.deep_view()[i as int].files[0]);
                }
                return Ok(picked);
            } else {
                return Err(ClientError::NoMatchingFiles);
            }
        }
        i = i + 1;
    }
    proof {
        lemma_select_none(versions.deep_view(), loader@);
    }
    Err(ClientError::NoMatchingFiles)
}

/// What the download command makes of a version-list response body.
pub open spec fn spec_download_selection(body: Seq<char>, loader: Seq<char>) -> Result<
    GameFilesV,
    ClientError,
> {
    match json_of(body) {
        Some(j) => match spec_game_versions(j) {
            Some(vs) => spec_select_files(vs, loader),
            None => Err(ClientError::Decode),
        },
        None => Err(ClientError::Decode),
    }
}

/// Processes a version-list response body for the download command: parse,
/// decode, select the file to fetch.
pub fn get_download_link(body: &str, loader: &str) -> (r: Result<GameFiles, ClientError>)
    ensures
        files_result_view(r) == spec_download_selection(body@, loader@),
{
    let j = match parse_json(body) {
        Some(j) => j,
        None => {
            return Err(ClientError::Decode);
        },
    };
    match decode_game_versions(&j) {
        Ok(versions) => select_game_files(&versions, loader),
        Err(e) => Err(e),
    }
}

/// Where the downloaded bytes go: into the mods directory only when asked
/// for and detected, otherwise under the bare filename.
pub open spec fn spec_download_target(
    use_mods_dir: bool,
    mods_dir: Seq<char>,
    filename: Seq<char>,
) -> Seq<char> {
    if use_mods_dir && mods_dir.len() > 0 {
        mods_dir + "/"@ + filename
    } else {
        filename
    }
}

/// Decides whether and where a fetched file may be written: never after a
/// failed fetch, so a non-success status creates or truncates nothing.
pub fn download_target(
    fetch_succeeded: bool,
    use_mods_dir: bool,
    mods_dir: &str,
    filename: &str,
) -> (r: Option<String>)
    ensures
        match r {
            Some(p) => fetch_succeeded && p@ == spec_download_target(
                use_mods_dir,
                mods_dir@,
                filename@,
            ),
            None => !fetch_succeeded,
        },
{
    if !fetch_succeeded {
        return None;
    }
    if use_mods_dir && !mods_dir.is_empty() {
        let mut p = String::from_str(mods_dir);
        p.append("/");
        p.append(filename);
        proof {
            assert(p@ =~= spec_download_target(use_mods_dir, mods_dir@, filename@));
        }
        Some(p)
    } else {
        Some(String::from_str(filename))
    }
}

} // verus!
