//! What a build leaves behind, and what the caller's build system is told
//! about it.

use vstd::prelude::*;
use vstd::string::*;

verus! {

/// The places and names of what a build has produced.
pub struct Artifacts {
    include_dir: String,
    lib_dir: String,
    libs: Vec<String>,
}

/// What an `Artifacts` value holds.
pub ghost struct ArtifactsView {
    /// The directory of the public headers.
    pub include_dir: Seq<char>,
    /// The directory of the libraries.
    pub lib_dir: Seq<char>,
    /// The names of the libraries, in the order in which they are linked.
    pub libs: Seq<Seq<char>>,
}

impl View for Artifacts {
    type V = ArtifactsView;

    closed spec fn view(&self) -> ArtifactsView {
        ArtifactsView {
            include_dir: self.include_dir@,
            lib_dir: self.lib_dir@,
            libs: self.libs.deep_view(),
        }
    }
}

/// The instructions that tell the caller's build system of the artifacts:
/// where to search for libraries, each library to link statically, and the
/// two directories for crates that depend on this one.
pub open spec fn spec_cargo_metadata(artifacts: ArtifactsView) -> Seq<Seq<char>> {
    seq!["cargo:rustc-link-search=native="@ + artifacts.lib_dir] + artifacts.libs.map_values(
        |lib: Seq<char>| "cargo:rustc-link-lib=static="@ + lib,
    ) + seq!["cargo:include="@ + artifacts.include_dir, "cargo:lib="@ + artifacts.lib_dir]
}

impl Artifacts {
    /// The artifacts of a build that puts the public headers into
    /// `include_dir` and the libraries `libs` into `lib_dir`.
    pub fn new(include_dir: String, lib_dir: String, libs: Vec<String>) -> (artifacts: Artifacts)
        ensures
            artifacts@ == (ArtifactsView {
                include_dir: include_dir@,
                lib_dir: lib_dir@,
                libs: libs.deep_view(),
            }),
    {
        Artifacts { include_dir, lib_dir, libs }
    }

    /// The directory of the public headers.
    pub fn include_dir(&self) -> (dir: &str)
        ensures
            dir@ == self@.include_dir,
    {
        self.include_dir.as_str()
    }

    /// The directory of the libraries.
    pub fn lib_dir(&self) -> (dir: &str)
        ensures
            dir@ == self@.lib_dir,
    {
        self.lib_dir.as_str()
    }

    /// The names of the libraries.
    pub fn libs(&self) -> (names: &[String])
        ensures
            names.deep_view() == self@.libs,
    {
        self.libs.as_slice()
    }

    /// The instructions that tell the caller's build system of the
    /// artifacts, one per line, in the order in which they go out.
    pub fn cargo_metadata(&self) -> (lines: Vec<String>)
        ensures
            lines.deep_view() == spec_cargo_metadata(self@),
    {
        let mut lines: Vec<String> = Vec::new();
        lines.push(String::from_str("cargo:rustc-link-search=native=").concat(self.lib_dir.as_str()));
        let ghost head = lines.deep_view();
        let ghost linked = self@.libs.map_values(
            |lib: Seq<char>| "cargo:rustc-link-lib=static="@ + lib,
        );
        let mut i: usize = 0;
        while i < self.libs.len()
            invariant
                i <= self.libs.len(),
                linked == self@.libs.map_values(
                    |lib: Seq<char>| "cargo:rustc-link-lib=static="@ + lib,
                ),
                lines.deep_view() == head + linked.take(i as int),
            decreases self.libs.len() - i,
        {
            let line = String::from_str("cargo:rustc-link-lib=static=").concat(
                self.libs[i].as_str(),
            );
            let ghost before = lines.deep_view();
            lines.push(line);
            assert(lines.deep_view() =~= before.push(line@));
            i += 1;
        }
        let headers = String::from_str("cargo:include=").concat(self.include_dir.as_str());
        let libraries = String::from_str("cargo:lib=").concat(self.lib_dir.as_str());
        let ghost before = lines.deep_view();
        lines.push(headers);
        lines.push(libraries);
        assert(lines.deep_view() =~= before.push(headers@).push(libraries@));
        lines
    }
}

} // verus!
