//! The steps of a build, in the order in which they are carried out.

use crate::headers::{public_headers, spec_public_headers};
use crate::paths::{child_path, join};
use crate::platform::Platform;
use crate::settings::{link_directives, spec_link_directives, Linkage};
use crate::version::Version;
use vstd::prelude::*;
use vstd::string::*;

verus! {

/// One thing that a build does to its surroundings.
#[derive(Debug, PartialEq, Eq)]
pub enum Step {
    /// Remove the directory with all that it holds, and create it empty.
    Recreate(String),
    /// Copy every file of the directory `from` into the directory `to`,
    /// each with the content that `scratch_content` gives its copy.
    CopyPatched { from: String, to: String },
    /// Hand the line to the caller's build system.
    Emit(&'static str),
    /// Run the configured compiler to produce the library of this name.
    Compile(&'static str),
    /// Copy the file `from` to the path `to`.
    Copy { from: String, to: String },
}

/// What a `Step` holds.
pub ghost enum StepView {
    Recreate(Seq<char>),
    CopyPatched { from: Seq<char>, to: Seq<char> },
    Emit(Seq<char>),
    Compile(Seq<char>),
    Copy { from: Seq<char>, to: Seq<char> },
}

impl View for Step {
    type V = StepView;

    open spec fn view(&self) -> StepView {
        match self {
            Step::Recreate(dir) => StepView::Recreate(dir@),
            Step::CopyPatched { from, to } => StepView::CopyPatched { from: from@, to: to@ },
            Step::Emit(line) => StepView::Emit(line@),
            Step::Compile(name) => StepView::Compile(name@),
            Step::Copy { from, to } => StepView::Copy { from: from@, to: to@ },
        }
    }
}

/// The steps, each as what it holds.
pub open spec fn views(steps: Seq<Step>) -> Seq<StepView> {
    steps.map_values(|step: Step| step@)
}

/// Where a build puts and finds its files.
pub ghost struct Layout {
    /// The directory of the libraries.
    pub lib_dir: Seq<char>,
    /// The directory of the public headers.
    pub include_dir: Seq<char>,
    /// The source tree of the release.
    pub vendored_dir: Seq<char>,
    /// The directory of the patched copy of the sources.
    pub scratch_dir: Seq<char>,
}

/// The directory that holds all that a build produces: `lua-build` in the
/// output directory of the request.
pub open spec fn build_root(out_dir: Seq<char>) -> Seq<char> {
    child_path(out_dir, "lua-build"@)
}

/// The layout of a build for a request with the output directory
/// `out_dir`, which finds the source trees under `manifest_dir`: libraries
/// in `lua-build/lib`, public headers in `lua-build/include` and the patched
/// copy of the sources in `lua-build/cpp_source`, all under `out_dir`.
pub open spec fn layout(out_dir: Seq<char>, manifest_dir: Seq<char>, version: Version) -> Layout {
    Layout {
        lib_dir: child_path(build_root(out_dir), "lib"@),
        include_dir: child_path(build_root(out_dir), "include"@),
        vendored_dir: child_path(manifest_dir, version.spec_source_dir_name()),
        scratch_dir: child_path(build_root(out_dir), "cpp_source"@),
    }
}

/// The directory that the sources are compiled from: the patched copy for a
/// platform that compiles them as C++, the source tree of the release for
/// any other.
pub open spec fn source_dir(places: Layout, platform: Platform) -> Seq<char> {
    if platform.spec_is_cpp() {
        places.scratch_dir
    } else {
        places.vendored_dir
    }
}

/// The steps that make the directories of the results anew and, for a
/// platform that compiles as C++, the patched copy of the sources.
pub open spec fn preparation(places: Layout, platform: Platform) -> Seq<StepView> {
    seq![StepView::Recreate(places.lib_dir), StepView::Recreate(places.include_dir)] + (
    if platform.spec_is_cpp() {
        seq![
            StepView::Recreate(places.scratch_dir),
            StepView::CopyPatched { from: places.vendored_dir, to: places.scratch_dir },
        ]
    } else {
        seq![]
    })
}

/// The steps that copy the public headers from where the sources are
/// compiled to their directory.
pub open spec fn header_copies(places: Layout, platform: Platform) -> Seq<StepView> {
    spec_public_headers().map_values(
        |header: Seq<char>|
            StepView::Copy {
                from: child_path(source_dir(places, platform), header),
                to: child_path(places.include_dir, header),
            },
    )
}

/// The steps of a build: the preparation, the instructions to the caller's
/// build system, the compiler run, the copies of the public headers.
pub open spec fn spec_steps(
    places: Layout,
    version: Version,
    platform: Platform,
    linkage: Linkage,
) -> Seq<StepView> {
    preparation(places, platform) + spec_link_directives(linkage).map_values(
        |line: Seq<char>| StepView::Emit(line),
    ) + seq![StepView::Compile(version.spec_lib_name())] + header_copies(places, platform)
}

/// The steps of the build of a release from `vendored_dir`, by way of
/// `scratch_dir` where the platform asks for it, into `lib_dir` and
/// `include_dir`.
pub fn steps(
    lib_dir: &str,
    include_dir: &str,
    vendored_dir: &str,
    scratch_dir: &str,
    version: Version,
    platform: Platform,
    linkage: Linkage,
) -> (list: Vec<Step>)
    ensures
        views(list@) == spec_steps(
            Layout {
                lib_dir: lib_dir@,
                include_dir: include_dir@,
                vendored_dir: vendored_dir@,
                scratch_dir: scratch_dir@,
            },
            version,
            platform,
            linkage,
        ),
{
    let ghost places = Layout {
        lib_dir: lib_dir@,
        include_dir: include_dir@,
        vendored_dir: vendored_dir@,
        scratch_dir: scratch_dir@,
    };
    let mut list: Vec<Step> = Vec::new();
    list.push(Step::Recreate(String::from_str(lib_dir)));
    list.push(Step::Recreate(String::from_str(include_dir)));
    let from_dir = if platform.is_cpp() {
        list.push(Step::Recreate(String::from_str(scratch_dir)));
        list.push(
            Step::CopyPatched {
                from: String::from_str(vendored_dir),
                to: String::from_str(scratch_dir),
            },
        );
        scratch_dir
    } else {
        vendored_dir
    };

    let lines = link_directives(linkage);
    let ghost emitted = spec_link_directives(linkage).map_values(
        |line: Seq<char>| StepView::Emit(line),
    );
    let mut i: usize = 0;
    while i < lines.len()
        invariant
            i <= lines.len(),
            lines.deep_view() == spec_link_directives(linkage),
            emitted == spec_link_directives(linkage).map_values(
                |line: Seq<char>| StepView::Emit(line),
            ),
            views(list@) == preparation(places, platform) + emitted.take(i as int),
        decreases lines.len() - i,
    {
        list.push(Step::Emit(lines[i]));
        i += 1;
    }

    let ghost before = views(list@);
    list.push(Step::Compile(version.lib_name()));
    assert(views(list@) =~= before.push(StepView::Compile(version.spec_lib_name())));

    let headers = public_headers();
    let ghost head = views(list@);
    let ghost copies = header_copies(places, platform);
    let mut k: usize = 0;
    while k < headers.len()
        invariant
            k <= headers.len(),
            headers.deep_view() == spec_public_headers(),
            copies == header_copies(places, platform),
            from_dir@ == source_dir(places, platform),
            include_dir@ == places.include_dir,
            views(list@) == head + copies.take(k as int),
        decreases headers.len() - k,
    {
        let ghost before = views(list@);
        let from = join(from_dir, headers[k]);
        let to = join(include_dir, headers[k]);
        list.push(Step::Copy { from, to });
        assert(views(list@) =~= before.push(copies[k as int]));
        k += 1;
    }
    list
}

/// What the steps of a build come to. The first two make the directories
/// of the libraries and of the public headers anew. A platform that
/// compiles as C++ then has the directory of the patched copy made anew and
/// filled; no other platform has a copy made. The last five steps are the
/// one compiler run, for the library that the release names, and the copies
/// of the four public headers into their directory; before them nothing is
/// compiled and no single file copied.
pub proof fn steps_fill_fresh_directories(
    places: Layout,
    version: Version,
    platform: Platform,
    linkage: Linkage,
)
    ensures
        ({
            let steps = spec_steps(places, version, platform, linkage);
            let last = steps.len() - 5;
            &&& steps.len() >= 7
            &&& steps[0] == StepView::Recreate(places.lib_dir)
            &&& steps[1] == StepView::Recreate(places.include_dir)
            &&& platform.spec_is_cpp() ==> steps[2] == StepView::Recreate(places.scratch_dir)
                && steps[3] == (StepView::CopyPatched {
                from: places.vendored_dir,
                to: places.scratch_dir,
            })
            &&& forall|i: int|
                2 <= i < last ==> (#[trigger] steps[i] is Emit || (platform.spec_is_cpp() && i < 4))
            &&& steps[last] == StepView::Compile(version.spec_lib_name())
            &&& forall|k: int|
                0 <= k < 4 ==> #[trigger] steps[last + 1 + k] == (StepView::Copy {
                    from: child_path(source_dir(places, platform), spec_public_headers()[k]),
                    to: child_path(places.include_dir, spec_public_headers()[k]),
                })
        }),
{
}

/// Two entries of one directory have the same path only where they have
/// the same name.
pub proof fn entries_differ_by_name(dir: Seq<char>, first: Seq<char>, second: Seq<char>)
    requires
        first != second,
    ensures
        child_path(dir, first) != child_path(dir, second),
{
    let stem = if dir.len() == 0 || dir.last() == '/' {
        dir
    } else {
        dir + seq!['/']
    };
    if stem + first == stem + second {
        assert((stem + first).subrange(stem.len() as int, (stem + first).len() as int) =~= first);
        assert((stem + second).subrange(stem.len() as int, (stem + second).len() as int)
            =~= second);
    }
}

/// The directories of the libraries, of the public headers and of the
/// patched copy are three different directories.
pub proof fn layout_keeps_directories_apart(
    out_dir: Seq<char>,
    manifest_dir: Seq<char>,
    version: Version,
)
    ensures
        ({
            let places = layout(out_dir, manifest_dir, version);
            &&& places.lib_dir != places.include_dir
            &&& places.lib_dir != places.scratch_dir
            &&& places.include_dir != places.scratch_dir
        }),
{
    reveal_strlit("lib");
    reveal_strlit("include");
    reveal_strlit("cpp_source");
    entries_differ_by_name(build_root(out_dir), "lib"@, "include"@);
    entries_differ_by_name(build_root(out_dir), "lib"@, "cpp_source"@);
    entries_differ_by_name(build_root(out_dir), "include"@, "cpp_source"@);
}

} // verus!
