//! The native compiler configuration: what this crate sets in a
//! `cc::Build`, and the configuration that a build calls for.

use crate::paths::{child_path, join};
use crate::platform::Platform;
use crate::settings::{defines, flags, spec_defines, spec_flags, Define, Flag, Linkage, Switches};
use crate::sources::{manifest, source_files};
use crate::version::Version;
use cc::Build as Compiler;
use vstd::prelude::*;

verus! {

/// `cc::Build`, the configuration of a native compiler run. Nothing inside
/// it is visible here; what it holds goes by the name `configuration`.
#[verifier::external_type_specification]
#[verifier::external_body]
pub struct ExCompiler(Compiler);

/// What a compiler configuration holds, as far as this crate sets it. Lists
/// are in the order in which their items were added.
pub ghost struct Configuration {
    pub target: Option<Seq<char>>,
    pub host: Option<Seq<char>>,
    /// Where object files and the library are put.
    pub out_dir: Option<Seq<char>>,
    pub opt_level: Option<u32>,
    pub warnings: Option<bool>,
    pub extra_warnings: Option<bool>,
    /// Whether compiling emits link instructions for cargo by itself.
    pub cargo_metadata: bool,
    /// Whether the sources are compiled as C++.
    pub cpp: bool,
    /// Whether position-independent code is asked for or refused.
    pub pic: Option<bool>,
    pub shared_flag: Option<bool>,
    /// The directories that headers are looked up in.
    pub includes: Seq<Seq<char>>,
    /// The preprocessor symbols, each with its value if it has one.
    pub defines: Seq<(Seq<char>, Option<Seq<char>>)>,
    /// The compiler flags; the second component is set where the flag is
    /// passed only to a compiler that accepts it.
    pub flags: Seq<(Seq<char>, bool)>,
    /// The source files.
    pub files: Seq<Seq<char>>,
}

/// What a `cc::Build` holds in the fields that this crate sets, paths and
/// flags as text and the optimization level as the number that it spells.
/// The functions below that call into `cc` say how each call changes it.
pub uninterp spec fn configuration(compiler: Compiler) -> Configuration;

/// `cc::Build::new`: a configuration with nothing set and every list empty,
/// which would emit link instructions for cargo and compiles as C.
#[verifier::external_body]
pub(crate) fn new_compiler() -> (compiler: Compiler)
    ensures
        configuration(compiler) == (Configuration {
            target: None,
            host: None,
            out_dir: None,
            opt_level: None,
            warnings: None,
            extra_warnings: None,
            cargo_metadata: true,
            cpp: false,
            pic: None,
            shared_flag: None,
            includes: Seq::empty(),
            defines: Seq::empty(),
            flags: Seq::empty(),
            files: Seq::empty(),
        }),
{
    Compiler::new()
}

/// `cc::Build::target`: sets the target triple and nothing else.
#[verifier::external_body]
pub(crate) fn set_target(compiler: &mut Compiler, target: &str)
    ensures
        configuration(*final(compiler)) == (Configuration {
            target: Some(target@),
            ..configuration(*old(compiler))
        }),
{
    compiler.target(target);
}

/// `cc::Build::host`: sets the host triple and nothing else.
#[verifier::external_body]
pub(crate) fn set_host(compiler: &mut Compiler, host: &str)
    ensures
        configuration(*final(compiler)) == (Configuration {
            host: Some(host@),
            ..configuration(*old(compiler))
        }),
{
    compiler.host(host);
}

/// `cc::Build::out_dir`: sets the output directory and nothing else.
#[verifier::external_body]
pub(crate) fn set_out_dir(compiler: &mut Compiler, dir: &str)
    ensures
        configuration(*final(compiler)) == (Configuration {
            out_dir: Some(dir@),
            ..configuration(*old(compiler))
        }),
{
    compiler.out_dir(dir);
}

/// `cc::Build::opt_level`: sets the optimization level and nothing else.
#[verifier::external_body]
pub(crate) fn set_opt_level(compiler: &mut Compiler, level: u32)
    ensures
        configuration(*final(compiler)) == (Configuration {
            opt_level: Some(level),
            ..configuration(*old(compiler))
        }),
{
    compiler.opt_level(level);
}

/// `cc::Build::warnings`: switches the warnings and the extra warnings on or
/// off together, and changes nothing else.
#[verifier::external_body]
pub(crate) fn set_warnings(compiler: &mut Compiler, warnings: bool)
    ensures
        configuration(*final(compiler)) == (Configuration {
            warnings: Some(warnings),
            extra_warnings: Some(warnings),
            ..configuration(*old(compiler))
        }),
{
    compiler.warnings(warnings);
}

/// `cc::Build::cargo_metadata`: sets whether compiling emits link
/// instructions for cargo, and nothing else.
#[verifier::external_body]
pub(crate) fn set_cargo_metadata(compiler: &mut Compiler, emit: bool)
    ensures
        configuration(*final(compiler)) == (Configuration {
            cargo_metadata: emit,
            ..configuration(*old(compiler))
        }),
{
    compiler.cargo_metadata(emit);
}

/// `cc::Build::cpp`: sets whether the sources are compiled as C++, and
/// nothing else.
#[verifier::external_body]
pub(crate) fn set_cpp(compiler: &mut Compiler, cpp: bool)
    ensures
        configuration(*final(compiler)) == (Configuration {
            cpp,
            ..configuration(*old(compiler))
        }),
{
    compiler.cpp(cpp);
}

/// `cc::Build::pic`: sets whether position-independent code is emitted, and
/// nothing else.
#[verifier::external_body]
pub(crate) fn set_pic(compiler: &mut Compiler, pic: bool)
    ensures
        configuration(*final(compiler)) == (Configuration {
            pic: Some(pic),
            ..configuration(*old(compiler))
        }),
{
    compiler.pic(pic);
}

/// `cc::Build::shared_flag`: records the wish for a shared object, and
/// changes nothing else.
#[allow(deprecated)]
#[verifier::external_body]
pub(crate) fn set_shared_flag(compiler: &mut Compiler, shared: bool)
    ensures
        configuration(*final(compiler)) == (Configuration {
            shared_flag: Some(shared),
            ..configuration(*old(compiler))
        }),
{
    compiler.shared_flag(shared);
}

/// `cc::Build::includes`, with one directory: appends it to those that
/// headers are looked up in, and changes nothing else.
#[verifier::external_body]
pub(crate) fn add_header_dir(compiler: &mut Compiler, dir: &str)
    ensures
        configuration(*final(compiler)) == (Configuration {
            includes: configuration(*old(compiler)).includes.push(dir@),
            ..configuration(*old(compiler))
        }),
{
    compiler.includes([dir]);
}

/// `cc::Build::define`: appends a preprocessor symbol, with its value if it
/// has one, and changes nothing else.
#[verifier::external_body]
pub(crate) fn add_define(compiler: &mut Compiler, name: &str, value: Option<&str>)
    ensures
        configuration(*final(compiler)) == (Configuration {
            defines: configuration(*old(compiler)).defines.push((name@, value.deep_view())),
            ..configuration(*old(compiler))
        }),
{
    compiler.define(name, value);
}

/// `cc::Build::flag`: appends a flag that is always passed, and changes
/// nothing else.
#[verifier::external_body]
pub(crate) fn add_flag(compiler: &mut Compiler, flag: &str)
    ensures
        configuration(*final(compiler)) == (Configuration {
            flags: configuration(*old(compiler)).flags.push((flag@, false)),
            ..configuration(*old(compiler))
        }),
{
    compiler.flag(flag);
}

/// `cc::Build::flag_if_supported`: appends, to the same list, a flag that is
/// passed only to a compiler that accepts it, and changes nothing else.
#[verifier::external_body]
pub(crate) fn add_flag_if_supported(compiler: &mut Compiler, flag: &str)
    ensures
        configuration(*final(compiler)) == (Configuration {
            flags: configuration(*old(compiler)).flags.push((flag@, true)),
            ..configuration(*old(compiler))
        }),
{
    compiler.flag_if_supported(flag);
}

/// `cc::Build::file`: appends a source file and changes nothing else.
#[verifier::external_body]
pub(crate) fn add_file(compiler: &mut Compiler, path: &str)
    ensures
        configuration(*final(compiler)) == (Configuration {
            files: configuration(*old(compiler)).files.push(path@),
            ..configuration(*old(compiler))
        }),
{
    compiler.file(path);
}

/// The paths of the files `names` in the directory `dir`.
pub open spec fn paths_in(dir: Seq<char>, names: Seq<Seq<char>>) -> Seq<Seq<char>> {
    names.map_values(|name: Seq<char>| child_path(dir, name))
}

/// The configuration that a build calls for: the triples, no warnings,
/// optimization level 2 and no link instructions from the compiler's side;
/// C++ for a platform that needs it; position-independent code for a shared
/// object; headers and sources from `source_dir`, results into `lib_dir`.
pub open spec fn spec_configuration(
    target: Seq<char>,
    host: Seq<char>,
    version: Version,
    platform: Platform,
    switches: Switches,
    source_dir: Seq<char>,
    lib_dir: Seq<char>,
) -> Configuration {
    Configuration {
        target: Some(target),
        host: Some(host),
        out_dir: Some(lib_dir),
        opt_level: Some(2),
        warnings: Some(false),
        extra_warnings: Some(false),
        cargo_metadata: false,
        cpp: platform.spec_is_cpp(),
        pic: if switches.linkage == Linkage::SharedObject {
            Some(true)
        } else {
            None
        },
        shared_flag: if switches.linkage == Linkage::SharedObject {
            Some(true)
        } else {
            None
        },
        includes: seq![source_dir],
        defines: spec_defines(version, platform, switches),
        flags: spec_flags(platform, switches.linkage),
        files: paths_in(source_dir, manifest(version)),
    }
}

/// Adds the symbols to the configuration, in their order.
fn add_defines(compiler: &mut Compiler, symbols: &Vec<Define>)
    ensures
        configuration(*final(compiler)) == (Configuration {
            defines: configuration(*old(compiler)).defines + symbols.deep_view(),
            ..configuration(*old(compiler))
        }),
{
    let ghost before = configuration(*compiler);
    let mut i: usize = 0;
    while i < symbols.len()
        invariant
            i <= symbols.len(),
            configuration(*compiler) == (Configuration {
                defines: before.defines + symbols.deep_view().take(i as int),
                ..before
            }),
        decreases symbols.len() - i,
    {
        let (name, value) = symbols[i];
        add_define(compiler, name, value);
        assert(before.defines + symbols.deep_view().take(i + 1) =~= (before.defines
            + symbols.deep_view().take(i as int)).push((name@, value.deep_view())));
        i += 1;
    }
    assert(symbols.deep_view().take(i as int) =~= symbols.deep_view());
}

/// Adds the flags to the configuration, in their order.
fn add_flags(compiler: &mut Compiler, passed: &Vec<Flag>)
    ensures
        configuration(*final(compiler)) == (Configuration {
            flags: configuration(*old(compiler)).flags + passed.deep_view(),
            ..configuration(*old(compiler))
        }),
{
    let ghost before = configuration(*compiler);
    let mut i: usize = 0;
    while i < passed.len()
        invariant
            i <= passed.len(),
            configuration(*compiler) == (Configuration {
                flags: before.flags + passed.deep_view().take(i as int),
                ..before
            }),
        decreases passed.len() - i,
    {
        let (flag, if_supported) = passed[i];
        if if_supported {
            add_flag_if_supported(compiler, flag);
        } else {
            add_flag(compiler, flag);
        }
        assert(before.flags + passed.deep_view().take(i + 1) =~= (before.flags
            + passed.deep_view().take(i as int)).push((flag@, if_supported)));
        i += 1;
    }
    assert(passed.deep_view().take(i as int) =~= passed.deep_view());
}

/// Adds the files `names` of the directory `dir` to the configuration, in
/// their order.
fn add_files(compiler: &mut Compiler, dir: &str, names: &Vec<&'static str>)
    ensures
        configuration(*final(compiler)) == (Configuration {
            files: configuration(*old(compiler)).files + paths_in(dir@, names.deep_view()),
            ..configuration(*old(compiler))
        }),
{
    let ghost before = configuration(*compiler);
    let ghost all = paths_in(dir@, names.deep_view());
    let mut i: usize = 0;
    while i < names.len()
        invariant
            i <= names.len(),
            all == paths_in(dir@, names.deep_view()),
            configuration(*compiler) == (Configuration {
                files: before.files + all.take(i as int),
                ..before
            }),
        decreases names.len() - i,
    {
        let path = join(dir, names[i]);
        add_file(compiler, path.as_str());
        assert(before.files + all.take(i + 1) =~= (before.files + all.take(i as int)).push(path@));
        i += 1;
    }
    assert(all.take(i as int) =~= all);
}

/// Sets up the compiler for a build.
pub fn configure(
    target: &str,
    host: &str,
    version: Version,
    platform: Platform,
    switches: Switches,
    source_dir: &str,
    lib_dir: &str,
) -> (compiler: Compiler)
    ensures
        configuration(compiler) == spec_configuration(
            target@,
            host@,
            version,
            platform,
            switches,
            source_dir@,
            lib_dir@,
        ),
{
    let mut compiler = new_compiler();
    set_target(&mut compiler, target);
    set_host(&mut compiler, host);
    set_warnings(&mut compiler, false);
    set_opt_level(&mut compiler, 2);
    set_cargo_metadata(&mut compiler, false);
    if platform.is_cpp() {
        set_cpp(&mut compiler, true);
    }
    if switches.linkage == Linkage::SharedObject {
        set_pic(&mut compiler, true);
        set_shared_flag(&mut compiler, true);
    }
    add_defines(&mut compiler, &defines(version, platform, switches));
    add_header_dir(&mut compiler, source_dir);
    add_flags(&mut compiler, &flags(platform, switches.linkage));
    add_files(&mut compiler, source_dir, &source_files(version));
    set_out_dir(&mut compiler, lib_dir);
    compiler
}

} // verus!
