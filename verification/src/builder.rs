//! The build request and the plan that follows from it.

use crate::artifacts::{Artifacts, ArtifactsView};
use crate::compiler::{configuration, configure, paths_in, spec_configuration, Configuration};
use crate::paths::{child_path, join};
use crate::platform::{
    only_recognized_targets_select, recognized, select_platform, spec_select_platform, Platform,
};
use crate::settings::{linkage, spec_linkage, Switches};
use crate::sources::manifest;
use crate::steps::{
    layout, source_dir, spec_steps, steps, steps_fill_fresh_directories, views, Step, StepView,
};
use crate::text::ends_with;
use crate::version::Version;
use cc::Build as Compiler;
use vstd::prelude::*;
use vstd::string::*;

verus! {

/// A build request: where the results go and which platform they are for.
pub struct Build {
    out_dir: Option<String>,
    target: Option<String>,
    host: Option<String>,
}

/// What a build request holds.
pub ghost struct BuildView {
    /// The output directory as the caller gave it. The results go into
    /// `lua-build` under it.
    pub out_dir: Option<Seq<char>>,
    pub target: Option<Seq<char>>,
    pub host: Option<Seq<char>>,
}

impl View for Build {
    type V = BuildView;

    closed spec fn view(&self) -> BuildView {
        BuildView {
            out_dir: self.out_dir.deep_view(),
            target: self.target.deep_view(),
            host: self.host.deep_view(),
        }
    }
}

/// What the caller knows of its surroundings when it asks for a build.
pub struct Environment {
    /// The directory that holds one source tree per release.
    pub manifest_dir: String,
    /// The family of the target, where it is known.
    pub target_family: Option<String>,
    /// The build profile keeps internal consistency checks.
    pub debug_assertions: bool,
    /// The caller's own thread-safety shims are compiled in.
    pub thread: bool,
    /// A dynamic library is asked for in place of a static one.
    pub build_dylib: bool,
    /// The vendor-specific symbol of the newest release is asked for.
    pub ucid: bool,
}

/// What an `Environment` holds.
pub ghost struct EnvironmentView {
    pub manifest_dir: Seq<char>,
    pub target_family: Option<Seq<char>>,
    pub debug_assertions: bool,
    pub thread: bool,
    pub build_dylib: bool,
    pub ucid: bool,
}

impl View for Environment {
    type V = EnvironmentView;

    open spec fn view(&self) -> EnvironmentView {
        EnvironmentView {
            manifest_dir: self.manifest_dir@,
            target_family: self.target_family.deep_view(),
            debug_assertions: self.debug_assertions,
            thread: self.thread,
            build_dylib: self.build_dylib,
            ucid: self.ucid,
        }
    }
}

/// Why no build can be planned.
#[derive(Debug, PartialEq, Eq)]
pub enum BuildError {
    TargetNotSet,
    HostNotSet,
    OutDirNotSet,
    /// No rule of the platform dispatch matches the target triple.
    UnsupportedTarget(String),
    /// A dynamic library is asked for and the family of the target is not
    /// known.
    TargetFamilyNotSet,
}

/// What a `BuildError` holds.
pub ghost enum Failure {
    TargetNotSet,
    HostNotSet,
    OutDirNotSet,
    UnsupportedTarget(Seq<char>),
    TargetFamilyNotSet,
}

impl View for BuildError {
    type V = Failure;

    open spec fn view(&self) -> Failure {
        match self {
            BuildError::TargetNotSet => Failure::TargetNotSet,
            BuildError::HostNotSet => Failure::HostNotSet,
            BuildError::OutDirNotSet => Failure::OutDirNotSet,
            BuildError::UnsupportedTarget(target) => Failure::UnsupportedTarget(target@),
            BuildError::TargetFamilyNotSet => Failure::TargetFamilyNotSet,
        }
    }
}

/// The text that reports a failure.
pub open spec fn spec_message(failure: Failure) -> Seq<char> {
    match failure {
        Failure::TargetNotSet => "TARGET not set"@,
        Failure::HostNotSet => "HOST not set"@,
        Failure::OutDirNotSet => "OUT_DIR not set"@,
        Failure::UnsupportedTarget(target) => "don't know how to build Lua for "@ + target,
        Failure::TargetFamilyNotSet => "CARGO_CFG_TARGET_FAMILY not set"@,
    }
}

impl BuildError {
    /// The text that reports this failure. That of an unsupported target
    /// names the triple.
    pub fn message(&self) -> (text: String)
        ensures
            text@ == spec_message(self@),
    {
        match self {
            BuildError::TargetNotSet => String::from_str("TARGET not set"),
            BuildError::HostNotSet => String::from_str("HOST not set"),
            BuildError::OutDirNotSet => String::from_str("OUT_DIR not set"),
            BuildError::UnsupportedTarget(target) => String::from_str(
                "don't know how to build Lua for ",
            ).concat(target.as_str()),
            BuildError::TargetFamilyNotSet => String::from_str("CARGO_CFG_TARGET_FAMILY not set"),
        }
    }
}

/// A build, planned to the last step: the configured compiler and what is
/// to be done around it. Carrying out `steps` in their order, the compiler
/// run with `compiler`, leaves `artifacts` behind.
pub struct BuildPlan {
    /// The platform that the target triple selects.
    pub platform: Platform,
    /// What the environment switches on.
    pub switches: Switches,
    pub compiler: Compiler,
    pub steps: Vec<Step>,
    pub artifacts: Artifacts,
}

/// What a `BuildPlan` holds.
pub ghost struct PlanView {
    pub platform: Platform,
    pub switches: Switches,
    pub configuration: Configuration,
    pub steps: Seq<StepView>,
    pub artifacts: ArtifactsView,
}

impl View for BuildPlan {
    type V = PlanView;

    open spec fn view(&self) -> PlanView {
        PlanView {
            platform: self.platform,
            switches: self.switches,
            configuration: configuration(self.compiler),
            steps: views(self.steps@),
            artifacts: self.artifacts@,
        }
    }
}

/// What the environment switches on, `None` where a dynamic library is asked
/// for and the family of the target is not known.
pub open spec fn spec_switches(env: EnvironmentView) -> Option<Switches> {
    match spec_linkage(env.build_dylib, env.target_family) {
        Some(linkage) => Some(
            Switches { ucid: env.ucid, api_check: env.debug_assertions, thread: env.thread, linkage },
        ),
        None => None,
    }
}

/// Why no build can be planned for the request, `None` where one can. The
/// conditions are tested in this order.
pub open spec fn failure(build: BuildView, version: Version, env: EnvironmentView) -> Option<
    Failure,
> {
    if build.target is None {
        Some(Failure::TargetNotSet)
    } else if build.host is None {
        Some(Failure::HostNotSet)
    } else if build.out_dir is None {
        Some(Failure::OutDirNotSet)
    } else if spec_select_platform(build.target->0, version) is None {
        Some(Failure::UnsupportedTarget(build.target->0))
    } else if spec_switches(env) is None {
        Some(Failure::TargetFamilyNotSet)
    } else {
        None
    }
}

/// The plan of the build that the request asks for. The libraries go to
/// `lua-build/lib` and the public headers to `lua-build/include` under the
/// output directory, however the request came by it. A platform that
/// compiles as C++ builds from a patched copy of the sources in
/// `lua-build/cpp_source`, any other from the source tree of the release.
pub open spec fn spec_plan(build: BuildView, version: Version, env: EnvironmentView) -> PlanView
    recommends
        failure(build, version, env) is None,
{
    let platform = spec_select_platform(build.target->0, version)->0;
    let switches = spec_switches(env)->0;
    let places = layout(build.out_dir->0, env.manifest_dir, version);
    PlanView {
        platform,
        switches,
        configuration: spec_configuration(
            build.target->0,
            build.host->0,
            version,
            platform,
            switches,
            source_dir(places, platform),
            places.lib_dir,
        ),
        steps: spec_steps(places, version, platform, switches.linkage),
        artifacts: ArtifactsView {
            include_dir: places.include_dir,
            lib_dir: places.lib_dir,
            libs: seq![version.spec_lib_name()],
        },
    }
}

/// What planning comes to for a request: the plan, or why there is none.
pub open spec fn spec_outcome(build: BuildView, version: Version, env: EnvironmentView) -> Result<
    PlanView,
    Failure,
> {
    match failure(build, version, env) {
        Some(failure) => Err(failure),
        None => Ok(spec_plan(build, version, env)),
    }
}

/// The steps that are left to carry out once planning is over: those of the
/// plan, and none where planning has failed.
pub open spec fn steps_left(outcome: Result<PlanView, Failure>) -> Seq<StepView> {
    match outcome {
        Ok(plan) => plan.steps,
        Err(_) => Seq::empty(),
    }
}

/// A target triple that no rule of the dispatch matches stops the build
/// before anything is done, whatever the release and the environment.
/// Planning fails, so there is no plan, no artifacts, and no step left to
/// carry out: no directory is made, no file copied or written, the compiler
/// not run. Where host and output directory are set, the failure is that of
/// the unsupported target, and its message ends in the triple.
pub proof fn unrecognized_target_stops_before_any_step(
    build: BuildView,
    version: Version,
    env: EnvironmentView,
)
    requires
        build.target is Some,
        !recognized(build.target->0),
    ensures
        spec_outcome(build, version, env) is Err,
        steps_left(spec_outcome(build, version, env)) == Seq::<StepView>::empty(),
        build.host is Some && build.out_dir is Some ==> spec_outcome(build, version, env) == Err::<
            PlanView,
            Failure,
        >(Failure::UnsupportedTarget(build.target->0)),
        ends_with(spec_message(Failure::UnsupportedTarget(build.target->0)), build.target->0),
{
    only_recognized_targets_select(build.target->0, version);
    let target = build.target->0;
    let message = spec_message(Failure::UnsupportedTarget(target));
    assert(message.subrange(message.len() - target.len(), message.len() as int) =~= target);
}

/// The artifacts of a plan lie in `lua-build` under the output directory of
/// the request, and the compiler of the plan and its steps agree with them:
/// the compiler reads the sources of the release from the directory that the
/// steps prepare and puts the one library, named as the release demands,
/// where the artifacts have their libraries, a directory that the first
/// step has made anew; the headers go where the artifacts have theirs.
pub proof fn plan_agrees_with_artifacts(build: BuildView, version: Version, env: EnvironmentView)
    requires
        failure(build, version, env) is None,
    ensures
        ({
            let plan = spec_plan(build, version, env);
            let places = layout(build.out_dir->0, env.manifest_dir, version);
            &&& plan.artifacts.lib_dir == child_path(
                child_path(build.out_dir->0, "lua-build"@),
                "lib"@,
            )
            &&& plan.artifacts.include_dir == child_path(
                child_path(build.out_dir->0, "lua-build"@),
                "include"@,
            )
            &&& plan.artifacts.lib_dir == places.lib_dir
            &&& plan.artifacts.include_dir == places.include_dir
            &&& plan.artifacts.libs == seq![version.spec_lib_name()]
            &&& plan.steps[0] == StepView::Recreate(plan.artifacts.lib_dir)
            &&& plan.steps[1] == StepView::Recreate(plan.artifacts.include_dir)
            &&& plan.steps[plan.steps.len() - 5] == StepView::Compile(plan.artifacts.libs[0])
            &&& plan.configuration.out_dir == Some(plan.artifacts.lib_dir)
            &&& plan.configuration.includes == seq![source_dir(places, plan.platform)]
            &&& plan.configuration.files == paths_in(
                source_dir(places, plan.platform),
                manifest(version),
            )
        }),
{
    let plan = spec_plan(build, version, env);
    let places = layout(build.out_dir->0, env.manifest_dir, version);
    steps_fill_fresh_directories(places, version, plan.platform, plan.switches.linkage);
}

impl Build {
    /// A request with the given output directory, target and host, each as
    /// far as it is known.
    pub fn new(out_dir: Option<&str>, target: Option<&str>, host: Option<&str>) -> (build: Build)
        ensures
            build@ == (BuildView {
                out_dir: out_dir.deep_view(),
                target: target.deep_view(),
                host: host.deep_view(),
            }),
    {
        Build {
            out_dir: match out_dir {
                Some(dir) => Some(String::from_str(dir)),
                None => None,
            },
            target: match target {
                Some(target) => Some(String::from_str(target)),
                None => None,
            },
            host: match host {
                Some(host) => Some(String::from_str(host)),
                None => None,
            },
        }
    }

    /// Sets the output directory. The results are put into `lua-build`
    /// under it, as for a directory given to `new`.
    pub fn out_dir(&mut self, path: &str) -> (this: &mut Build)
        ensures
            this@ == (BuildView { out_dir: Some(path@), ..old(self)@ }),
            final(self)@ == final(this)@,
    {
        self.out_dir = Some(String::from_str(path));
        self
    }

    /// Sets the triple of the platform that the library is built for.
    pub fn target(&mut self, target: &str) -> (this: &mut Build)
        ensures
            this@ == (BuildView { target: Some(target@), ..old(self)@ }),
            final(self)@ == final(this)@,
    {
        self.target = Some(String::from_str(target));
        self
    }

    /// Sets the triple of the platform that the build runs on.
    pub fn host(&mut self, host: &str) -> (this: &mut Build)
        ensures
            this@ == (BuildView { host: Some(host@), ..old(self)@ }),
            final(self)@ == final(this)@,
    {
        self.host = Some(String::from_str(host));
        self
    }

    /// Plans the build of a release. The request is left as it is.
    pub fn build(&mut self, version: Version, env: &Environment) -> (plan: BuildPlan)
        requires
            failure(old(self)@, version, env@) is None,
        ensures
            plan@ == spec_plan(old(self)@, version, env@),
            *final(self) == *old(self),
    {
        let target = self.target.as_ref().unwrap().as_str();
        let host = self.host.as_ref().unwrap().as_str();
        let out_dir = self.out_dir.as_ref().unwrap().as_str();
        let platform = select_platform(target, version).unwrap();
        let switches = Switches {
            ucid: env.ucid,
            api_check: env.debug_assertions,
            thread: env.thread,
            linkage: linkage(env.build_dylib, family_of(env)).unwrap(),
        };
        let root = join(out_dir, "lua-build");
        let lib_dir = join(root.as_str(), "lib");
        let include_dir = join(root.as_str(), "include");
        let vendored_dir = join(env.manifest_dir.as_str(), version.source_dir_name());
        let scratch_dir = join(root.as_str(), "cpp_source");
        let from_dir = if platform.is_cpp() {
            scratch_dir.as_str()
        } else {
            vendored_dir.as_str()
        };
        let compiler = configure(
            target,
            host,
            version,
            platform,
            switches,
            from_dir,
            lib_dir.as_str(),
        );
        let steps = steps(
            lib_dir.as_str(),
            include_dir.as_str(),
            vendored_dir.as_str(),
            scratch_dir.as_str(),
            version,
            platform,
            switches.linkage,
        );
        let mut libs: Vec<String> = Vec::new();
        libs.push(String::from_str(version.lib_name()));
        assert(libs.deep_view() =~= seq![version.spec_lib_name()]);
        BuildPlan {
            platform,
            switches,
            compiler,
            steps,
            artifacts: Artifacts::new(include_dir, lib_dir, libs),
        }
    }

    /// Plans the build of a release, or says why none can be planned. The
    /// request is left as it is.
    pub fn try_build(&mut self, version: Version, env: &Environment) -> (outcome: Result<
        BuildPlan,
        BuildError,
    >)
        ensures
            match spec_outcome(old(self)@, version, env@) {
                Ok(view) => outcome matches Ok(plan) && plan@ == view,
                Err(failure) => outcome matches Err(error) && error@ == failure,
            },
            *final(self) == *old(self),
    {
        let target = match &self.target {
            Some(target) => target.clone(),
            None => { return Err(BuildError::TargetNotSet); },
        };
        if self.host.is_none() {
            return Err(BuildError::HostNotSet);
        }
        if self.out_dir.is_none() {
            return Err(BuildError::OutDirNotSet);
        }
        if select_platform(target.as_str(), version).is_none() {
            return Err(BuildError::UnsupportedTarget(target));
        }
        if linkage(env.build_dylib, family_of(env)).is_none() {
            return Err(BuildError::TargetFamilyNotSet);
        }
        Ok(self.build(version, env))
    }
}

/// The family of the target, where the environment knows it.
fn family_of(env: &Environment) -> (family: Option<&str>)
    ensures
        family.deep_view() == env@.target_family,
{
    match &env.target_family {
        Some(family) => Some(family.as_str()),
        None => None,
    }
}

} // verus!
