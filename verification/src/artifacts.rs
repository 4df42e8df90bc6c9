//! The artifacts of a completed native build: the derived include and
//! library directories, the library names read off a directory listing, and
//! the metadata lines emitted for the calling build orchestrator.

use vstd::prelude::*;

use crate::config::BuildError;
use crate::paths::has_dot;
use crate::paths::join_path;
use crate::paths::join_path_str;
use crate::paths::stem_of;
use crate::paths::strip_extension;

verus! {

/// One entry of the listing of the build tool's library output directory,
/// reduced to what the derivation reads: its file name and whether it is a
/// regular file.
pub struct FsEntry {
    pub name: String,
    pub is_file: bool,
}

/// The artifacts produced by one completed native build.
pub struct Artifacts {
    include_dir: String,
    lib_dir: String,
    libs: Vec<String>,
}

/// The mathematical value of an [`Artifacts`]: two paths and the sequence
/// of library names.
pub struct ArtifactsView {
    pub include_dir: Seq<char>,
    pub lib_dir: Seq<char>,
    pub libs: Seq<Seq<char>>,
}

impl View for Artifacts {
    type V = ArtifactsView;

    closed spec fn view(&self) -> ArtifactsView {
        ArtifactsView {
            include_dir: self.include_dir@,
            lib_dir: self.lib_dir@,
            libs: self.libs.deep_view(),
        }
    }
}

/// Whether an entry is acceptable to the derivation: every regular file
/// must carry an extension delimiter in its name.
pub open spec fn entry_ok(e: FsEntry) -> bool {
    e.is_file ==> has_dot(e.name@)
}

/// Whether every entry of a listing is acceptable to the derivation.
pub open spec fn entries_ok(entries: Seq<FsEntry>) -> bool {
    forall|i: int| 0 <= i < entries.len() ==> entry_ok(entries[i])
}

/// The library names derived from a listing: the stem of each regular
/// file's name, in listing order, with directories left out.
pub open spec fn libs_of(entries: Seq<FsEntry>) -> Seq<Seq<char>>
    decreases entries.len(),
{
    if entries.len() == 0 {
        Seq::empty()
    } else if entries.last().is_file {
        libs_of(entries.drop_last()).push(stem_of(entries.last().name@))
    } else {
        libs_of(entries.drop_last())
    }
}

/// The artifacts belonging to an output directory and a listing of the
/// build tool's library output directory.
pub open spec fn artifacts_of(out_dir: Seq<char>, entries: Seq<FsEntry>) -> ArtifactsView {
    ArtifactsView {
        include_dir: join_path(out_dir, "include"@),
        lib_dir: join_path(out_dir, "lib"@),
        libs: libs_of(entries),
    }
}

/// The metadata lines for a set of artifacts: the include line, the
/// library-directory line, then one link line per library, in order.
pub open spec fn metadata_lines(a: ArtifactsView) -> Seq<Seq<char>> {
    seq!["cargo:include="@ + a.include_dir, "cargo:lib="@ + a.lib_dir]
        + a.libs.map_values(|l: Seq<char>| "cargo:rustc-link-lib="@ + l)
}

impl Artifacts {
    /// Derives the artifacts of a completed build: the include and library
    /// directories under `out_dir`, and one library name per regular file
    /// of the listing, its final extension stripped, in listing order.
    /// Fails exactly when some regular file's name has no extension.
    pub fn from_dir_entries(out_dir: &str, entries: &Vec<FsEntry>) -> (r: Result<
        Artifacts,
        BuildError,
    >)
        ensures
            match r {
                Ok(a) => entries_ok(entries@) && a@ == artifacts_of(out_dir@, entries@),
                Err(e) => e == BuildError::UnexpectedArtifactName && !entries_ok(entries@),
            },
    {
        let mut libs: Vec<String> = Vec::new();
        let n: usize = entries.len();
        let mut i: usize = 0;
        while i < n
            invariant
                i <= n,
                n == entries@.len(),
                entries_ok(entries@.take(i as int)),
                libs.deep_view() == libs_of(entries@.take(i as int)),
            decreases n - i,
        {
            let ghost prev_libs = libs.deep_view();
            if entries[i].is_file {
                match strip_extension(entries[i].name.as_str()) {
                    Some(stem) => {
                        libs.push(stem);
                    },
                    None => {
                        proof {
                            assert(!entry_ok(entries@[i as int]));
                        }
                        return Err(BuildError::UnexpectedArtifactName);
                    },
                }
            }
            proof {
                let t = entries@.take(i + 1);
                assert(t.drop_last() =~= entries@.take(i as int));
                assert(t.last() == entries@[i as int]);
                if entries@[i as int].is_file {
                    assert(libs.deep_view() =~= prev_libs.push(stem_of(t.last().name@)));
                }
                assert(libs.deep_view() == libs_of(t));
            }
            i = i + 1;
        }
        proof {
            assert(entries@.take(n as int) =~= entries@);
        }
        Ok(
            Artifacts {
                include_dir: join_path_str(out_dir, "include"),
                lib_dir: join_path_str(out_dir, "lib"),
                libs,
            },
        )
    }

    /// The include directory.
    pub fn include_dir(&self) -> (r: &String)
        ensures
            r@ == self@.include_dir,
    {
        &self.include_dir
    }

    /// The library directory.
    pub fn lib(&self) -> (r: &String)
        ensures
            r@ == self@.lib_dir,
    {
        &self.lib_dir
    }

    /// The list of library names.
    pub fn libs(&self) -> (r: &[String])
        ensures
            r.deep_view() == self@.libs,
    {
        self.libs.as_slice()
    }

    /// Renders the metadata lines for the calling build orchestrator:
    /// exactly two path lines followed by one link line per library, in
    /// library-list order.
    pub fn cargo_metadata_lines(&self) -> (r: Vec<String>)
        ensures
            r.deep_view() == metadata_lines(self@),
            r@.len() == 2 + self@.libs.len(),
    {
        let mut r: Vec<String> = Vec::new();
        r.push(String::from_str("cargo:include=").concat(self.include_dir.as_str()));
        r.push(String::from_str("cargo:lib=").concat(self.lib_dir.as_str()));
        proof {
            assert(r.deep_view() =~= metadata_lines(self@).take(2));
        }
        let n: usize = self.libs.len();
        let mut i: usize = 0;
        while i < n
            invariant
                i <= n,
                n == self@.libs.len(),
                r.deep_view() == metadata_lines(self@).take(2 + i),
            decreases n - i,
        {
            let ghost prev = r.deep_view();
            r.push(String::from_str("cargo:rustc-link-lib=").concat(self.libs[i].as_str()));
            proof {
                assert(r.deep_view() =~= prev.push("cargo:rustc-link-lib="@ + self@.libs[i as int]));
                assert(r.deep_view() =~= metadata_lines(self@).take(2 + (i + 1)));
            }
            i = i + 1;
        }
        proof {
            assert(metadata_lines(self@).take(2 + n) =~= metadata_lines(self@));
        }
        r
    }
}

} // verus!
