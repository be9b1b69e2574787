//! The response models: passive shapes mirroring the four response kinds
//! the API returns. Each is decoded once from a response body and read-only
//! afterwards; each has a mathematical view over character sequences.
use vstd::prelude::*;

verus! {

/// One search result.
#[derive(Debug)]
pub struct Hit {
    pub slug: String,
    pub title: String,
    pub description: String,
}

/// The view of a `Hit`.
pub struct HitV {
    pub slug: Seq<char>,
    pub title: Seq<char>,
    pub description: Seq<char>,
}

impl View for Hit {
    type V = HitV;

    open spec fn view(&self) -> HitV {
        HitV { slug: self.slug@, title: self.title@, description: self.description@ }
    }
}

impl DeepView for Hit {
    type V = HitV;

    open spec fn deep_view(&self) -> HitV {
        self.view()
    }
}

/// The search response: the list of hits.
#[derive(Debug)]
pub struct ModrinthSearchResponse {
    pub hits: Vec<Hit>,
}

/// A project detail response.
#[derive(Debug)]
pub struct ProjectResponse {
    pub body: String,
    pub categories: Vec<String>,
    pub title: String,
    pub project_type: String,
    pub slug: String,
}

/// The view of a `ProjectResponse`.
pub struct ProjectResponseV {
    pub body: Seq<char>,
    pub categories: Seq<Seq<char>>,
    pub title: Seq<char>,
    pub project_type: Seq<char>,
    pub slug: Seq<char>,
}

impl View for ProjectResponse {
    type V = ProjectResponseV;

    open spec fn view(&self) -> ProjectResponseV {
        ProjectResponseV {
            body: self.body@,
            categories: self.categories.deep_view(),
            title: self.title@,
            project_type: self.project_type@,
            slug: self.slug@,
        }
    }
}

impl DeepView for ProjectResponse {
    type V = ProjectResponseV;

    open spec fn deep_view(&self) -> ProjectResponseV {
        self.view()
    }
}

/// One dependency of a project version.
#[derive(Debug)]
pub struct ProjectDependency {
    pub project_id: String,
    pub dependency_type: String,
}

/// The view of a `ProjectDependency`.
pub struct ProjectDependencyV {
    pub project_id: Seq<char>,
    pub dependency_type: Seq<char>,
}

impl View for ProjectDependency {
    type V = ProjectDependencyV;

    open spec fn view(&self) -> ProjectDependencyV {
        ProjectDependencyV {
            project_id: self.project_id@,
            dependency_type: self.dependency_type@,
        }
    }
}

impl DeepView for ProjectDependency {
    type V = ProjectDependencyV;

    open spec fn deep_view(&self) -> ProjectDependencyV {
        self.view()
    }
}

/// One project version, as the dependency listing reads it.
#[derive(Debug)]
pub struct ProjectVersion {
    pub dependencies: Vec<ProjectDependency>,
}

/// The view of a `ProjectVersion`.
pub struct ProjectVersionV {
    pub dependencies: Seq<ProjectDependencyV>,
}

impl View for ProjectVersion {
    type V = ProjectVersionV;

    open spec fn view(&self) -> ProjectVersionV {
        ProjectVersionV { dependencies: self.dependencies.deep_view() }
    }
}

impl DeepView for ProjectVersion {
    type V = ProjectVersionV;

    open spec fn deep_view(&self) -> ProjectVersionV {
        self.view()
    }
}

/// One downloadable file of a version.
#[derive(Debug)]
pub struct GameFiles {
    pub url: String,
    pub filename: String,
}

/// The view of a `GameFiles`.
pub struct GameFilesV {
    pub url: Seq<char>,
    pub filename: Seq<char>,
}

impl View for GameFiles {
    type V = GameFilesV;

    open spec fn view(&self) -> GameFilesV {
        GameFilesV { url: self.url@, filename: self.filename@ }
    }
}

impl DeepView for GameFiles {
    type V = GameFilesV;

    open spec fn deep_view(&self) -> GameFilesV {
        self.view()
    }
}

/// One version entry of the version list, as the download handler reads it.
#[derive(Debug)]
pub struct GameVersion {
    pub loaders: Vec<String>,
    pub files: Vec<GameFiles>,
}

/// The view of a `GameVersion`.
pub struct GameVersionV {
    pub loaders: Seq<Seq<char>>,
    pub files: Seq<GameFilesV>,
}

impl View for GameVersion {
    type V = GameVersionV;

    open spec fn view(&self) -> GameVersionV {
        GameVersionV { loaders: self.loaders.deep_view(), files: self.files.deep_view() }
    }
}

impl DeepView for GameVersion {
    type V = GameVersionV;

    open spec fn deep_view(&self) -> GameVersionV {
        self.view()
    }
}

} // verus!
