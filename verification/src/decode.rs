//! Decoding JSON documents into the response models. A decoder succeeds
//! exactly when every documented field is present with the right type;
//! anything else is a `Decode` error, never a panic. Fields the client does
//! not consume are ignored, as the original wire format allows.
use vstd::prelude::*;

use crate::errors::ClientError;
use crate::json::Json;
use crate::json::lookup;
use crate::json::obj_get;
use crate::models::GameFiles;
use crate::models::GameFilesV;
use crate::models::GameVersion;
use crate::models::GameVersionV;
use crate::models::Hit;
use crate::models::HitV;
use crate::models::ModrinthSearchResponse;
use crate::models::ProjectDependency;
use crate::models::ProjectDependencyV;
use crate::models::ProjectResponse;
use crate::models::ProjectResponseV;
use crate::models::ProjectVersion;
use crate::models::ProjectVersionV;

verus! {

/// The character sequence a JSON string value holds, if the value is one.
pub open spec fn as_str_val(j: Json) -> Option<Seq<char>> {
    match j {
        Json::Str(s) => Some(s@),
        _ => None,
    }
}

/// The string under `key` in an object's entries, if present and a string.
pub open spec fn str_entry(entries: Seq<(String, Json)>, key: Seq<char>) -> Option<Seq<char>> {
    match obj_get(entries, key) {
        Some(j) => as_str_val(j),
        None => None,
    }
}

/// What a search hit decodes to: an object with string fields `slug`,
/// `title` and `description`.
pub open spec fn spec_hit(j: Json) -> Option<HitV> {
    match j {
        Json::Obj(entries) => match (
            str_entry(entries@, "slug"@),
            str_entry(entries@, "title"@),
            str_entry(entries@, "description"@),
        ) {
            (Some(s), Some(t), Some(d)) => Some(HitV { slug: s, title: t, description: d }),
            _ => None,
        },
        _ => None,
    }
}

/// What a list of hits decodes to: every element must decode.
pub open spec fn spec_hit_list(items: Seq<Json>) -> Option<Seq<HitV>> {
    if forall|i: int| 0 <= i < items.len() ==> (#[trigger] spec_hit(items[i])) is Some {
        Some(Seq::new(items.len(), |i: int| spec_hit(items[i]).unwrap()))
    } else {
        None
    }
}

/// What the search response decodes to: an object whose `hits` field is an
/// array of hits.
pub open spec fn spec_search_response(j: Json) -> Option<Seq<HitV>> {
    match j {
        Json::Obj(entries) => match obj_get(entries@, "hits"@) {
            Some(Json::Arr(items)) => spec_hit_list(items@),
            _ => None,
        },
        _ => None,
    }
}

/// Decodes one search hit.
pub fn decode_hit(j: &Json) -> (r: Result<Hit, ClientError>)
    ensures
        match spec_hit(*j) {
            Some(hv) => r matches Ok(h) && h@ == hv,
            None => r matches Err(e) && e == ClientError::Decode,
        },
{
    if let Json::Obj(entries) = j {
        let slug = match lookup(entries, "slug") {
            Some(Json::Str(s)) => s.clone(),
            _ => {
                return Err(ClientError::Decode);
            },
        };
        let title = match lookup(entries, "title") {
            Some(Json::Str(s)) => s.clone(),
            _ => {
                return Err(ClientError::Decode);
            },
        };
        let description = match lookup(entries, "description") {
            Some(Json::Str(s)) => s.clone(),
            _ => {
                return Err(ClientError::Decode);
            },
        };
        Ok(Hit { slug, title, description })
    } else {
        Err(ClientError::Decode)
    }
}

/// Decodes an array of search hits; fails if any element fails.
pub fn decode_hit_list(items: &Vec<Json>) -> (r: Result<Vec<Hit>, ClientError>)
    ensures
        match spec_hit_list(items@) {
            Some(hs) => r matches Ok(v) && v.deep_view() == hs,
            None => r matches Err(e) && e == ClientError::Decode,
        },
{
    let mut out: Vec<Hit> = Vec::new();
    let n: usize = items.len();
    let mut i: usize = 0;
    while i < n
        invariant
            n == items@.len(),
            i <= n,
            out@.len() == i,
            forall|k: int| 0 <= k < i ==> (#[trigger] spec_hit(items@[k])) is Some,
            forall|k: int| 0 <= k < i ==> out@[k]@ == spec_hit(#[trigger] items@[k]).unwrap(),
        decreases n - i,
    {
        match decode_hit(&items[i]) {
            Ok(h) => {
                out.push(h);
            },
            Err(e) => {
                proof {
                    if spec_hit_list(items@) is Some {
                        assert(spec_hit(items@[i as int]) is Some);
                    }
                }
                return Err(e);
            },
        }
        i = i + 1;
    }
    proof {
        assert(out.deep_view() =~= spec_hit_list(items@).unwrap());
    }
    Ok(out)
}

/// Decodes the search response document.
pub fn decode_search_response(j: &Json) -> (r: Result<ModrinthSearchResponse, ClientError>)
    ensures
        match spec_search_response(*j) {
            Some(hs) => r matches Ok(m) && m.hits.deep_view() == hs,
            None => r matches Err(e) && e == ClientError::Decode,
        },
{
    if let Json::Obj(entries) = j {
        match lookup(entries, "hits") {
            Some(Json::Arr(items)) => match decode_hit_list(items) {
                Ok(hits) => Ok(ModrinthSearchResponse { hits }),
                Err(e) => Err(e),
            },
            _ => Err(ClientError::Decode),
        }
    } else {
        Err(ClientError::Decode)
    }
}

/// What a dependency entry decodes to: an object with string fields
/// `project_id` and `dependency_type`.
pub open spec fn spec_dependency(j: Json) -> Option<ProjectDependencyV> {
    match j {
        Json::Obj(entries) => match (
            str_entry(entries@, "project_id"@),
            str_entry(entries@, "dependency_type"@),
        ) {
            (Some(p), Some(d)) => Some(ProjectDependencyV { project_id: p, dependency_type: d }),
            _ => None,
        },
        _ => None,
    }
}

/// What a list of dependencies decodes to: every element must decode.
pub open spec fn spec_dependency_list(items: Seq<Json>) -> Option<Seq<ProjectDependencyV>> {
    if forall|i: int| 0 <= i < items.len() ==> (#[trigger] spec_dependency(items[i])) is Some {
        Some(Seq::new(items.len(), |i: int| spec_dependency(items[i]).unwrap()))
    } else {
        None
    }
}

/// What a version entry decodes to: an object whose `dependencies` field is
/// an array of dependency entries.
pub open spec fn spec_project_version(j: Json) -> Option<ProjectVersionV> {
    match j {
        Json::Obj(entries) => match obj_get(entries@, "dependencies"@) {
            Some(Json::Arr(items)) => match spec_dependency_list(items@) {
                Some(ds) => Some(ProjectVersionV { dependencies: ds }),
                None => None,
            },
            _ => None,
        },
        _ => None,
    }
}

/// What a list of version entries decodes to: every element must decode.
pub open spec fn spec_project_version_list(items: Seq<Json>) -> Option<Seq<ProjectVersionV>> {
    if forall|i: int| 0 <= i < items.len() ==> (#[trigger] spec_project_version(items[i]))
        is Some {
        Some(Seq::new(items.len(), |i: int| spec_project_version(items[i]).unwrap()))
    } else {
        None
    }
}

/// What the version-list response decodes to: a top-level array of version
/// entries.
pub open spec fn spec_project_versions(j: Json) -> Option<Seq<ProjectVersionV>> {
    match j {
        Json::Arr(items) => spec_project_version_list(items@),
        _ => None,
    }
}

/// Decodes one dependency entry.
pub fn decode_dependency(j: &Json) -> (r: Result<ProjectDependency, ClientError>)
    ensures
        match spec_dependency(*j) {
            Some(dv) => r matches Ok(d) && d@ == dv,
            None => r matches Err(e) && e == ClientError::Decode,
        },
{
    if let Json::Obj(entries) = j {
        let project_id = match lookup(entries, "project_id") {
            Some(Json::Str(s)) => s.clone(),
            _ => {
                return Err(ClientError::Decode);
            },
        };
        let dependency_type = match lookup(entries, "dependency_type") {
            Some(Json::Str(s)) => s.clone(),
            _ => {
                return Err(ClientError::Decode);
            },
        };
        Ok(ProjectDependency { project_id, dependency_type })
    } else {
        Err(ClientError::Decode)
    }
}

/// Decodes an array of dependency entries; fails if any element fails.
pub fn decode_dependency_list(items: &Vec<Json>) -> (r: Result<Vec<ProjectDependency>, ClientError>)
    ensures
        match spec_dependency_list(items@) {
            Some(ds) => r matches Ok(v) && v.deep_view() == ds,
            None => r matches Err(e) && e == ClientError::Decode,
        },
{
    let mut out: Vec<ProjectDependency> = Vec::new();
    let n: usize = items.len();
    let mut i: usize = 0;
    while i < n
        invariant
            n == items@.len(),
            i <= n,
            out@.len() == i,
            forall|k: int| 0 <= k < i ==> (#[trigger] spec_dependency(items@[k])) is Some,
            forall|k: int| 0 <= k < i ==> out@[k]@ == spec_dependency(#[trigger] items@[k]).unwrap(),
        decreases n - i,
    {
        match decode_dependency(&items[i]) {
            Ok(d) => {
                out.push(d);
            },
            Err(e) => {
                proof {
                    if spec_dependency_list(items@) is Some {
                        assert(spec_dependency(items@[i as int]) is Some);
                    }
                }
                return Err(e);
            },
        }
        i = i + 1;
    }
    proof {
        assert(out.deep_view() =~= spec_dependency_list(items@).unwrap());
    }
    Ok(out)
}

/// Decodes one version entry.
pub fn decode_project_version(j: &Json) -> (r: Result<ProjectVersion, ClientError>)
    ensures
        match spec_project_version(*j) {
            Some(vv) => r matches Ok(v) && v@ == vv,
            None => r matches Err(e) && e == ClientError::Decode,
        },
{
    if let Json::Obj(entries) = j {
        match lookup(entries, "dependencies") {
            Some(Json::Arr(items)) => match decode_dependency_list(items) {
                Ok(dependencies) => Ok(ProjectVersion { dependencies }),
                Err(e) => Err(e),
            },
            _ => Err(ClientError::Decode),
        }
    } else {
        Err(ClientError::Decode)
    }
}

/// Decodes the version-list response: a top-level array of version entries.
pub fn decode_project_versions(j: &Json) -> (r: Result<Vec<ProjectVersion>, ClientError>)
    ensures
        match spec_project_versions(*j) {
            Some(vs) => r matches Ok(v) && v.deep_view() == vs,
            None => r matches Err(e) && e == ClientError::Decode,
        },
{
    let items = match j {
        Json::Arr(items) => items,
        _ => {
            return Err(ClientError::Decode);
        },
    };
    let mut out: Vec<ProjectVersion> = Vec::new();
    let n: usize = items.len();
    let mut i: usize = 0;
    while i < n
        invariant
            n == items@.len(),
            i <= n,
            out@.len() == i,
            *j == Json::Arr(*items),
            forall|k: int| 0 <= k < i ==> (#[trigger] spec_project_version(items@[k])) is Some,
            forall|k: int|
                0 <= k < i ==> out@[k]@ == spec_project_version(#[trigger] items@[k]).unwrap(),
        decreases n - i,
    {
        match decode_project_version(&items[i]) {
            Ok(v) => {
                out.push(v);
            },
            Err(e) => {
                proof {
                    if spec_project_version_list(items@) is Some {
                        assert(spec_project_version(items@[i as int]) is Some);
                    }
                }
                return Err(e);
            },
        }
        i = i + 1;
    }
    proof {
        assert(out.deep_view() =~= spec_project_version_list(items@).unwrap());
    }
    Ok(out)
}

/// What a list of strings decodes to: every element must be a string.
pub open spec fn spec_string_list(items: Seq<Json>) -> Option<Seq<Seq<char>>> {
    if forall|i: int| 0 <= i < items.len() ==> (#[trigger] as_str_val(items[i])) is Some {
        Some(Seq::new(items.len(), |i: int| as_str_val(items[i]).unwrap()))
    } else {
        None
    }
}

/// Decodes an array of strings; fails if any element is not a string.
pub fn decode_string_list(items: &Vec<Json>) -> (r: Result<Vec<String>, ClientError>)
    ensures
        match spec_string_list(items@) {
            Some(ss) => r matches Ok(v) && v.deep_view() == ss,
            None => r matches Err(e) && e == ClientError::Decode,
        },
{
    let mut out: Vec<String> = Vec::new();
    let n: usize = items.len();
    let mut i: usize = 0;
    while i < n
        invariant
            n == items@.len(),
            i <= n,
            out@.len() == i,
            forall|k: int| 0 <= k < i ==> (#[trigger] as_str_val(items@[k])) is Some,
            forall|k: int| 0 <= k < i ==> out@[k]@ == as_str_val(#[trigger] items@[k]).unwrap(),
        decreases n - i,
    {
        match &items[i] {
            Json::Str(s) => {
                out.push(s.clone());
            },
            _ => {
                proof {
                    if spec_string_list(items@) is Some {
                        assert(as_str_val(items@[i as int]) is Some);
                    }
                }
                return Err(ClientError::Decode);
            },
        }
        i = i + 1;
    }
    proof {
        assert(out.deep_view() =~= spec_string_list(items@).unwrap());
    }
    Ok(out)
}

/// What a file entry decodes to: an object with string fields `url` and
/// `filename`.
pub open spec fn spec_game_files(j: Json) -> Option<GameFilesV> {
    match j {
        Json::Obj(entries) => match (
            str_entry(entries@, "url"@),
            str_entry(entries@, "filename"@),
        ) {
            (Some(u), Some(f)) => Some(GameFilesV { url: u, filename: f }),
            _ => None,
        },
        _ => None,
    }
}

/// What a list of file entries decodes to: every element must decode.
pub open spec fn spec_game_files_list(items: Seq<Json>) -> Option<Seq<GameFilesV>> {
    if forall|i: int| 0 <= i < items.len() ==> (#[trigger] spec_game_files(items[i])) is Some {
        Some(Seq::new(items.len(), |i: int| spec_game_files(items[i]).unwrap()))
    } else {
        None
    }
}

/// What a version entry decodes to for the download handler: an object whose
/// `loaders` field is an array of strings and whose `files` field is an
/// array of file entries.
pub open spec fn spec_game_version(j: Json) -> Option<GameVersionV> {
    match j {
        Json::Obj(entries) => match (obj_get(entries@, "loaders"@), obj_get(entries@, "files"@)) {
            (Some(Json::Arr(ls)), Some(Json::Arr(fs))) => match (
                spec_string_list(ls@),
                spec_game_files_list(fs@),
            ) {
                (Some(loaders), Some(files)) => Some(GameVersionV { loaders, files }),
                _ => None,
            },
            _ => None,
        },
        _ => None,
    }
}

/// What a list of download version entries decodes to.
pub open spec fn spec_game_version_list(items: Seq<Json>) -> Option<Seq<GameVersionV>> {
    if forall|i: int| 0 <= i < items.len() ==> (#[trigger] spec_game_version(items[i])) is Some {
        Some(Seq::new(items.len(), |i: int| spec_game_version(items[i]).unwrap()))
    } else {
        None
    }
}

/// What the download version-list response decodes to: a top-level array.
pub open spec fn spec_game_versions(j: Json) -> Option<Seq<GameVersionV>> {
    match j {
        Json::Arr(items) => spec_game_version_list(items@),
        _ => None,
    }
}

/// Decodes one file entry.
pub fn decode_game_files(j: &Json) -> (r: Result<GameFiles, ClientError>)
    ensures
        match spec_game_files(*j) {
            Some(fv) => r matches Ok(f) && f@ == fv,
            None => r matches Err(e) && e == ClientError::Decode,
        },
{
    if let Json::Obj(entries) = j {
        let url = match lookup(entries, "url") {
            Some(Json::Str(s)) => s.clone(),
            _ => {
                return Err(ClientError::Decode);
            },
        };
        let filename = match lookup(entries, "filename") {
            Some(Json::Str(s)) => s.clone(),
            _ => {
                return Err(ClientError::Decode);
            },
        };
        Ok(GameFiles { url, filename })
    } else {
        Err(ClientError::Decode)
    }
}

/// Decodes an array of file entries; fails if any element fails.
pub fn decode_game_files_list(items: &Vec<Json>) -> (r: Result<Vec<GameFiles>, ClientError>)
    ensures
        match spec_game_files_list(items@) {
            Some(fs) => r matches Ok(v) && v.deep_view() == fs,
            None => r matches Err(e) && e == ClientError::Decode,
        },
{
    let mut out: Vec<GameFiles> = Vec::new();
    let n: usize = items.len();
    let mut i: usize = 0;
    while i < n
        invariant
            n == items@.len(),
            i <= n,
            out@.len() == i,
            forall|k: int| 0 <= k < i ==> (#[trigger] spec_game_files(items@[k])) is Some,
            forall|k: int| 0 <= k < i ==> out@[k]@ == spec_game_files(#[trigger] items@[k]).unwrap(),
        decreases n - i,
    {
        match decode_game_files(&items[i]) {
            Ok(f) => {
                out.push(f);
            },
            Err(e) => {
                proof {
                    if spec_game_files_list(items@) is Some {
                        assert(spec_game_files(items@[i as int]) is Some);
                    }
                }
                return Err(e);
            },
        }
        i = i + 1;
    }
    proof {
        assert(out.deep_view() =~= spec_game_files_list(items@).unwrap());
    }
    Ok(out)
}

/// Decodes one download version entry.
pub fn decode_game_version(j: &Json) -> (r: Result<GameVersion, ClientError>)
    ensures
        match spec_game_version(*j) {
            Some(vv) => r matches Ok(v) && v@ == vv,
            None => r matches Err(e) && e == ClientError::Decode,
        },
{
    if let Json::Obj(entries) = j {
        let loaders = match lookup(entries, "loaders") {
            Some(Json::Arr(ls)) => match decode_string_list(ls) {
                Ok(loaders) => loaders,
                Err(e) => {
                    return Err(e);
                },
            },
            _ => {
                return Err(ClientError::Decode);
            },
        };
        let files = match lookup(entries, "files") {
            Some(Json::Arr(fs)) => match decode_game_files_list(fs) {
                Ok(files) => files,
                Err(e) => {
                    return Err(e);
                },
            },
            _ => {
                return Err(ClientError::Decode);
            },
        };
        Ok(GameVersion { loaders, files })
    } else {
        Err(ClientError::Decode)
    }
}

/// Decodes the download version-list response: a top-level array.
pub fn decode_game_versions(j: &Json) -> (r: Result<Vec<GameVersion>, ClientError>)
    ensures
        match spec_game_versions(*j) {
            Some(vs) => r matches Ok(v) && v.deep_view() == vs,
            None => r matches Err(e) && e == ClientError::Decode,
        },
{
    let items = match j {
        Json::Arr(items) => items,
        _ => {
            return Err(ClientError::Decode);
        },
    };
    let mut out: Vec<GameVersion> = Vec::new();
    let n: usize = items.len();
    let mut i: usize = 0;
    while i < n
        invariant
            n == items@.len(),
            i <= n,
            out@.len() == i,
            *j == Json::Arr(*items),
            forall|k: int| 0 <= k < i ==> (#[trigger] spec_game_version(items@[k])) is Some,
            forall|k: int|
                0 <= k < i ==> out@[k]@ == spec_game_version(#[trigger] items@[k]).unwrap(),
        decreases n - i,
    {
        match decode_game_version(&items[i]) {
            Ok(v) => {
                out.push(v);
            },
            Err(e) => {
                proof {
                    if spec_game_version_list(items@) is Some {
                        assert(spec_game_version(items@[i as int]) is Some);
                    }
                }
                return Err(e);
            },
        }
        i = i + 1;
    }
    proof {
        assert(out.deep_view() =~= spec_game_version_list(items@).unwrap());
    }
    Ok(out)
}

/// What the project-detail response decodes to: an object with string
/// fields `body`, `title`, `project_type` and `slug`, and an array of
/// strings under `categories`.
pub open spec fn spec_project_response(j: Json) -> Option<ProjectResponseV> {
    match j {
        Json::Obj(entries) => {
            let cats = match obj_get(entries@, "categories"@) {
                Some(Json::Arr(cs)) => spec_string_list(cs@),
                _ => None,
            };
            match (
                str_entry(entries@, "body"@),
                cats,
                str_entry(entries@, "title"@),
                str_entry(entries@, "project_type"@),
                str_entry(entries@, "slug"@),
            ) {
                (Some(b), Some(c), Some(t), Some(p), Some(s)) => Some(
                    ProjectResponseV {
                        body: b,
                        categories: c,
                        title: t,
                        project_type: p,
                        slug: s,
                    },
                ),
                _ => None,
            }
        },
        _ => None,
    }
}

/// Decodes the project-detail response.
pub fn decode_project_response(j: &Json) -> (r: Result<ProjectResponse, ClientError>)
    ensures
        match spec_project_response(*j) {
            Some(pv) => r matches Ok(p) && p@ == pv,
            None => r matches Err(e) && e == ClientError::Decode,
        },
{
    if let Json::Obj(entries) = j {
        let body = match lookup(entries, "body") {
            Some(Json::Str(s)) => s.clone(),
            _ => {
                return Err(ClientError::Decode);
            },
        };
        let categories = match lookup(entries, "categories") {
            Some(Json::Arr(cs)) => match decode_string_list(cs) {
                Ok(categories) => categories,
                Err(e) => {
                    return Err(e);
                },
            },
            _ => {
                return Err(ClientError::Decode);
            },
        };
        let title = match lookup(entries, "title") {
            Some(Json::Str(s)) => s.clone(),
            _ => {
                return Err(ClientError::Decode);
            },
        };
        let project_type = match lookup(entries, "project_type") {
            Some(Json::Str(s)) => s.clone(),
            _ => {
                return Err(ClientError::Decode);
            },
        };
        let slug = match lookup(entries, "slug") {
            Some(Json::Str(s)) => s.clone(),
            _ => {
                return Err(ClientError::Decode);
            },
        };
        Ok(ProjectResponse { body, categories, title, project_type, slug })
    } else {
        Err(ClientError::Decode)
    }
}

} // verus!
