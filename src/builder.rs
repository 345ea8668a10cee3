//! Builders that gather a project, and for a Rust package its manifest,
//! before it is written to disk.
use vstd::prelude::*;
use vstd::utf8::encode_utf8;
use crate::path::{join, joined};
use crate::project::{Dir, File, FileModel, Project, ProjectModel};
use crate::rust_tools::{is_default_config, Edition, Manifest, ManifestError};

verus! {

/// A builder for a project of any kind.
#[derive(Debug)]
pub struct GenericBuilder {
    path: String,
    project: Project,
}

impl GenericBuilder {
    /// The project gathered so far.
    pub closed spec fn project_view(&self) -> ProjectModel {
        self.project@
    }

    pub fn new(path: &str) -> (r: GenericBuilder)
        ensures
            r.project_view() == ProjectModel::created(path@),
    {
        GenericBuilder { path: String::from_str(path), project: Project::new(path) }
    }

    pub fn add_dir(self, dir: Dir) -> (r: GenericBuilder)
        ensures
            r.project_view() == self.project_view().with_dir(dir@),
    {
        let GenericBuilder { path, project } = self;
        GenericBuilder { path, project: project.add_dir(dir) }
    }

    pub fn project(&self) -> (r: &Project)
        ensures
            r@ == self.project_view(),
    {
        &self.project
    }

    /// Hands the gathered project over, ending the builder.
    pub fn into_project(self) -> (r: Project)
        ensures
            r@ == self.project_view(),
    {
        self.project
    }
}

/// The file name of a Rust package manifest.
pub open spec fn manifest_file_name() -> Seq<char> {
    "Cargo.toml"@
}

/// A builder for a Rust package: a project whose root directory can hold a
/// `Cargo.toml` made from a manifest.
#[derive(Debug)]
pub struct RustBuilder {
    path: String,
    project: Project,
    manifest: Manifest,
}

impl RustBuilder {
    #[verifier::type_invariant]
    spec fn rooted_at_path(self) -> bool {
        self.project@.rooted() && self.project@.path == self.path@
    }

    /// The project gathered so far.
    pub closed spec fn project_view(&self) -> ProjectModel {
        self.project@
    }

    /// The manifest that was attached last, or the default one.
    pub closed spec fn manifest_view(&self) -> Manifest {
        self.manifest
    }

    pub fn new(path: &str) -> (r: RustBuilder)
        ensures
            r.project_view() == ProjectModel::created(path@),
            is_default_config(r.manifest_view().package),
            r.manifest_view().deps() is None,
    {
        RustBuilder {
            path: String::from_str(path),
            project: Project::new(path),
            manifest: Manifest::default(),
        }
    }

    pub fn add_dir(self, dir: Dir) -> (r: RustBuilder)
        ensures
            r.project_view() == self.project_view().with_dir(dir@),
            r.manifest_view() == self.manifest_view(),
    {
        proof {
            use_type_invariant(&self);
        }
        let RustBuilder { path, project, manifest } = self;
        RustBuilder { path, project: project.add_dir(dir), manifest }
    }

    /// Renders `manifest` as TOML and adds it as `Cargo.toml` to the root
    /// directory. Rendering a manifest cannot fail.
    pub fn add_cargo_toml(self, manifest: Manifest) -> (r: Result<RustBuilder, ManifestError>)
        ensures
            r matches Ok(b) && b.manifest_view() == manifest && b.project_view()
                == self.project_view().with_root_file(
                FileModel {
                    path: joined(self.project_view().path, manifest_file_name()),
                    contents: encode_utf8(manifest.text()),
                },
            ),
    {
        proof {
            use_type_invariant(&self);
        }
        let RustBuilder { path, mut project, manifest: _ } = self;
        let text = manifest.to_toml();
        let full = join(path.as_str(), "Cargo.toml");
        let file = File::new(full.as_str(), text.as_str().as_bytes());
        project.add_root_file(file);
        Ok(RustBuilder { path, project, manifest })
    }

    /// Sets the edition of the manifest held by the builder. A `Cargo.toml`
    /// that was added already keeps the edition it was rendered with.
    pub fn edition(self, edition: Edition) -> (r: RustBuilder)
        ensures
            r.project_view() == self.project_view(),
            r.manifest_view().package.edition == edition,
            r.manifest_view().package.name == self.manifest_view().package.name,
            r.manifest_view().package.version == self.manifest_view().package.version,
            r.manifest_view().package.authors == self.manifest_view().package.authors,
            r.manifest_view().dependencies == self.manifest_view().dependencies,
    {
        proof {
            use_type_invariant(&self);
        }
        let RustBuilder { path, project, mut manifest } = self;
        manifest.package.edition = edition;
        RustBuilder { path, project, manifest }
    }

    pub fn project(&self) -> (r: &Project)
        ensures
            r@ == self.project_view(),
    {
        &self.project
    }

    /// Hands the gathered project over, ending the builder.
    pub fn into_project(self) -> (r: Project)
        ensures
            r@ == self.project_view(),
    {
        self.project
    }
}

} // verus!
