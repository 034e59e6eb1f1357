//! The problems that the detectors identify in build logs.
use vstd::prelude::*;

verus! {

/// The view of an optional text.
pub open spec fn opt_view(s: Option<String>) -> Option<Seq<char>> {
    match s {
        Some(t) => Some(t@),
        None => None,
    }
}

/// The view of a list of texts.
pub open spec fn vec_view(v: Vec<String>) -> Seq<Seq<char>> {
    v@.map_values(|s: String| s@)
}

/// The view of an optional list of texts.
pub open spec fn opt_vec_view(v: Option<Vec<String>>) -> Option<Seq<Seq<char>>> {
    match v {
        Some(t) => Some(vec_view(t)),
        None => None,
    }
}

/// The view of a list of optionally-kinded entries.
pub open spec fn pairs_view(v: Vec<(Option<String>, String)>) -> Seq<(Option<Seq<char>>, Seq<char>)> {
    v@.map_values(|p: (Option<String>, String)| (opt_view(p.0), p.1@))
}

/// The view of an optional problem.
pub open spec fn opt_problem_view(p: Option<Problem>) -> Option<ProblemView> {
    match p {
        Some(q) => Some(q@),
        None => None,
    }
}

/// A problem identified in a build log.
#[derive(Debug, Clone, PartialEq, Eq)]
pub enum Problem {
    /// The device ran out of space.
    NoSpaceOnDevice,
    /// apt failed to fetch a file.
    AptFetchFailure {
        /// The url.
        url: Option<String>,
        /// The error.
        error: String,
    },
    /// apt found broken packages.
    AptBrokenPackages {
        /// The description.
        description: String,
        /// The broken.
        broken: Option<Vec<String>>,
    },
    /// An apt repository has no Release file.
    AptMissingReleaseFile(String),
    /// apt does not know a package.
    AptPackageUnknown(String),
    /// dpkg reported an error.
    DpkgError(String),
    /// Build dependencies cannot be satisfied.
    UnsatisfiedAptDependencies(String),
    /// Build dependencies conflict.
    UnsatisfiedAptConflicts(String),
    /// The chroot that autopkgtest used went away.
    AutopkgtestDepChrootDisappeared,
    /// The autopkgtest testbed failed.
    AutopkgtestTestbedFailure(String),
    /// autopkgtest found an erroneous package.
    AutopkgtestErroneousPackage(String),
    /// A test timed out.
    AutopkgtestTimedOut,
    /// XDG_RUNTIME_DIR was not set.
    XDGRunTimeNotSet,
    /// A test wrote to stderr.
    AutopkgtestStderrFailure(String),
    /// The dependencies of a test cannot be satisfied; the blamed entries, each with its kind.
    AutopkgtestDepsUnsatisfiable(Vec<(Option<String>, String)>),
    /// A chroot does not exist.
    ChrootNotFound {
        /// The chroot.
        chroot: String,
    },
    /// Setting up the testbed failed.
    AutopkgtestTestbedSetupFailure {
        /// The command.
        command: String,
        /// The exit status.
        exit_status: i32,
        /// The error.
        error: String,
    },
    /// A file is missing.
    MissingFile {
        /// The path.
        path: String,
    },
    /// A file of the build tree is missing.
    MissingBuildFile {
        /// The filename.
        filename: String,
    },
    /// A command or a file of the build tree is missing.
    MissingCommandOrBuildFile {
        /// The filename.
        filename: String,
    },
    /// A version control directory is needed.
    VcsControlDirectoryNeeded {
        /// The vcs.
        vcs: Vec<String>,
    },
    /// A command is missing.
    MissingCommand(String),
    /// A pkg-config module is missing.
    MissingPkgConfig {
        /// The module.
        module: String,
        /// The minimum version.
        minimum_version: Option<String>,
    },
    /// The configure script is missing.
    MissingConfigure,
    /// A node module is missing.
    MissingNodeModule(String),
    /// A dependency, named loosely, is missing.
    MissingVagueDependency {
        /// The name.
        name: String,
        /// The url.
        url: Option<String>,
        /// The minimum version.
        minimum_version: Option<String>,
        /// The current version.
        current_version: Option<String>,
    },
    /// Haskell dependencies are missing.
    MissingHaskellDependencies(Vec<String>),
    /// A setup.py command is unknown.
    MissingSetupPyCommand(String),
    /// A Perl module is missing.
    MissingPerlModule {
        /// The module.
        module: String,
        /// The filename.
        filename: Option<String>,
        /// The inc.
        inc: Option<Vec<String>>,
        /// The minimum version.
        minimum_version: Option<String>,
    },
    /// An R package is missing.
    MissingRPackage {
        /// The package.
        package: String,
        /// The minimum version.
        minimum_version: Option<String>,
    },
    /// An autoconf macro is missing.
    MissingAutoconfMacro {
        /// The macro name.
        macro_name: String,
        /// The need rebuild.
        need_rebuild: bool,
    },
    /// Maven artifacts are missing.
    MissingMavenArtifacts(Vec<String>),
    /// A Ruby gem is missing.
    MissingRubyGem {
        /// The gem.
        gem: String,
        /// The version.
        version: Option<String>,
    },
    /// A Python module is missing.
    MissingPythonModule {
        /// The module.
        module: String,
        /// The python version.
        python_version: Option<i32>,
        /// The minimum version.
        minimum_version: Option<String>,
    },
    /// A Python distribution is missing.
    MissingPythonDistribution {
        /// The distribution.
        distribution: String,
        /// The python version.
        python_version: Option<i32>,
        /// The minimum version.
        minimum_version: Option<String>,
    },
    /// A C header is missing.
    MissingCHeader {
        /// The header.
        header: String,
    },
    /// A Go package is missing.
    MissingGoPackage {
        /// The package.
        package: String,
    },
    /// A node package is missing.
    MissingNodePackage(String),
    /// A Vala package is missing.
    MissingValaPackage(String),
    /// A library is missing.
    MissingLibrary(String),
    /// A Haskell module is missing.
    MissingHaskellModule {
        /// The module.
        module: String,
    },
    /// A Perl name that must be predeclared is missing.
    MissingPerlPredeclared(String),
    /// A Perl file is missing.
    MissingPerlFile {
        /// The filename.
        filename: String,
        /// The inc.
        inc: Option<Vec<String>>,
    },
    /// A make target is missing.
    MissingMakeTarget {
        /// The target.
        target: String,
        /// The required by.
        required_by: Option<String>,
    },
    /// Components of a CMake package are missing.
    MissingCMakeComponents {
        /// The name.
        name: String,
        /// The components.
        components: Vec<String>,
    },
    /// The configuration file of a CMake package is missing.
    MissingCMakeConfig {
        /// The name.
        name: String,
        /// The version.
        version: Option<String>,
    },
    /// A debhelper addon failed to load.
    DhAddonLoadFailure {
        /// The name.
        name: String,
        /// The path.
        path: String,
    },
    /// A debhelper tool found nothing for a pattern.
    DebhelperPatternNotFound {
        /// The pattern.
        pattern: String,
        /// The tool.
        tool: String,
        /// The directories.
        directories: Vec<String>,
    },
    /// A LaTeX file is missing.
    MissingLatexFile(String),
    /// A Java class is missing.
    MissingJavaClass {
        /// The classname.
        classname: String,
    },
    /// A file of the JDK is missing.
    MissingJDKFile {
        /// The jdk path.
        jdk_path: String,
        /// The filename.
        filename: String,
    },
    /// The JDK is missing.
    MissingJDK {
        /// The jdk path.
        jdk_path: String,
    },
    /// An OCaml package is missing.
    MissingOCamlPackage(String),
    /// An XML entity is missing.
    MissingXmlEntity {
        /// The url.
        url: String,
    },
    /// A Sprockets asset is missing.
    MissingSprocketsFile {
        /// The name.
        name: String,
        /// The content type.
        content_type: String,
    },
    /// A PHP class is missing.
    MissingPhpClass {
        /// The php class.
        php_class: String,
    },
    /// A PHP extension is missing.
    MissingPHPExtension(String),
    /// A GObject introspection typelib is missing.
    MissingIntrospectionTypelib(String),
    /// A Ruby file is missing.
    MissingRubyFile {
        /// The filename.
        filename: String,
    },
    /// The certificate authority of a URL is unknown.
    UnknownCertificateAuthority(String),
    /// A local directory does not exist.
    DirectoryNonExistant(String),
    /// A file is not executable.
    NotExecutableFile(String),
    /// An input file of config.status is missing.
    MissingConfigStatusInput {
        /// The path.
        path: String,
    },
    /// An input file of automake is missing.
    MissingAutomakeInput {
        /// The path.
        path: String,
    },
    /// The gettext versions of the Makefile and of autoconf differ.
    MismatchGettextVersions {
        /// The makefile version.
        makefile_version: String,
        /// The autoconf version.
        autoconf_version: String,
    },
    /// The debhelper compatibility level is set twice.
    DuplicateDHCompatLevel {
        /// The command.
        command: String,
    },
    /// The debhelper compatibility level is not set.
    MissingDHCompatLevel {
        /// The command.
        command: String,
    },
    /// The destination of a debhelper link is a directory.
    DhLinkDestinationIsDirectory(String),
    /// A file was built but not installed.
    DhMissingUninstalled(String),
    /// A pytest configuration option is not supported.
    UnsupportedPytestConfigOption(String),
    /// debian/control must be regenerated with pg_buildext.
    NeedPgBuildExtUpdateControl {
        /// The generated path.
        generated_path: String,
        /// The template path.
        template_path: String,
    },
    /// ccache failed.
    CcacheError(String),
    /// The debhelper compatibility level requested is older than the oldest supported.
    UnsupportedDebhelperCompatLevel {
        /// The oldest supported.
        oldest_supported: i32,
        /// The requested.
        requested: i32,
    },
    /// A PostgreSQL extension is missing.
    MissingPostgresExtension(String),
    /// A font that fontspec needs is missing.
    MissingFontspec(String),
    /// The build runs as a user it may not run as.
    InvalidCurrentUser(String),
    /// The gnulib directory is missing.
    MissingGnulibDirectory(String),
    /// A Lua module is missing.
    MissingLuaModule(String),
    /// The minimum autoconf version is too old.
    MinimumAutoconfTooOld(String),
    /// A file of a Perl distribution is missing.
    MissingPerlDistributionFile(String),
    /// An ES module must be loaded with import.
    ESModuleMustUseImport(String),
    /// A build dependency is missing from debian/control.
    MissingDebianBuildDep(String),
    /// Qt modules are missing.
    MissingQtModules(Vec<String>),
    /// An entry of go.sum is missing.
    MissingGoSumEntry {
        /// The package.
        package: String,
        /// The version.
        version: String,
    },
    /// A static library is missing.
    MissingStaticLibrary {
        /// The library.
        library: String,
        /// The filename.
        filename: String,
    },
    /// An Xfce dependency is missing.
    MissingXfceDependency {
        /// The package.
        package: String,
    },
    /// An ImageMagick delegate is missing.
    ImageMagickDelegateMissing {
        /// The delegate.
        delegate: String,
    },
    /// A patch did not apply.
    PatchApplicationFailed {
        /// The patchname.
        patchname: String,
    },
    /// A Debian version was rejected.
    DebianVersionRejected {
        /// The version.
        version: String,
    },
    /// A dependency of gnome-common is missing.
    MissingGnomeCommonDependency {
        /// The package.
        package: String,
        /// The minimum version.
        minimum_version: Option<String>,
    },
    /// A Cargo crate is missing.
    MissingCargoCrate {
        /// The crate name.
        crate_name: String,
        /// The requirement.
        requirement: Option<String>,
    },
    /// An upstart file is present.
    UpstartFilePresent(String),
    /// A pytest fixture is missing.
    MissingPytestFixture(String),
    /// pytest does not know some arguments.
    UnsupportedPytestArguments(Vec<String>),
    /// CMake found a package, but not the exact version it needs.
    CMakeNeedExactVersion {
        /// The package.
        package: String,
        /// The version found.
        version_found: String,
        /// The exact version needed.
        exact_version_needed: String,
        /// The path.
        path: String,
    },
    /// CMake package configuration files are missing.
    CMakeFilesMissing {
        /// The filenames.
        filenames: Vec<String>,
        /// The version.
        version: Option<String>,
    },
    /// The upstream tarball of a package could not be found.
    UnableToFindUpstreamTarball {
        /// The package.
        package: String,
        /// The version.
        version: String,
    },
    /// A Mercurial repository holds extra fields that are not understood.
    UnknownMercurialExtraFields(String),
    /// uscan was refused for making too many requests.
    UScanTooManyRequests(String),
    /// The OpenPGP signature of the upstream source did not verify.
    UpstreamPGPSignatureVerificationFailed,
    /// The source format and the version disagree on whether the package is native.
    InconsistentSourceFormat {
        /// The version.
        version: bool,
        /// The source format.
        source_format: bool,
    },
    /// uscan found no upstream release of the requested version.
    UScanRequestVersionMissing(String),
    /// uscan failed to download a file.
    UScanFailed {
        /// The url.
        url: String,
        /// The reason.
        reason: String,
    },
    /// The newest upstream version is not the one uscan was asked for.
    UScanRemoteVersionMismatch {
        /// The package.
        package: String,
        /// The remote version.
        remote_version: String,
        /// The wanted version.
        wanted_version: String,
    },
    /// A paragraph of debian/watch is malformed.
    UScanWatchfileMalformed {
        /// The paragraph.
        paragraph: String,
    },
    /// uscan failed.
    UScanError(String),
    /// The upstream metadata file could not be parsed.
    UpstreamMetadataFileParseError {
        /// The path.
        path: String,
        /// The reason.
        reason: String,
    },
    /// A nested tree cannot be resolved.
    NestedTreeUnresolvable {
        /// The name.
        name: String,
    },
    /// A git submodule was met where none is supported.
    SubmoduleEncountered {
        /// The path.
        path: String,
        /// The sha.
        sha: String,
    },
    /// Breezy hit an internal error.
    BrzInternalError {
        /// The exception type.
        exception_type: String,
        /// The exception message.
        exception_message: String,
    },
    /// debcargo cannot find a crate.
    MissingDebcargoCrate {
        /// The cratename.
        cratename: String,
        /// The version.
        version: Option<String>,
    },
    /// Packing the source package failed.
    DpkgSourcePackFailed(String),
    /// debcargo cannot represent a dependency predicate.
    DebcargoUnacceptablePredicate {
        /// The cratename.
        cratename: String,
        /// The predicate.
        predicate: String,
    },
    /// debcargo cannot represent a dependency comparator.
    DebcargoUnacceptableComparator {
        /// The cratename.
        cratename: String,
        /// The comparator.
        comparator: String,
    },
    /// debcargo failed.
    DebcargoFailure(String),
    /// The changelog could not be parsed.
    ChangelogParseError(String),
    /// A problem of the given kind, whose details this library does not extract.
    Other {
        /// The kind.
        kind: String,
    },
}

/// The content of a [`Problem`], with texts as sequences of characters.
pub enum ProblemView {
    NoSpaceOnDevice,
    AptFetchFailure { url: Option<Seq<char>>, error: Seq<char> },
    AptBrokenPackages { description: Seq<char>, broken: Option<Seq<Seq<char>>> },
    AptMissingReleaseFile(Seq<char>),
    AptPackageUnknown(Seq<char>),
    DpkgError(Seq<char>),
    UnsatisfiedAptDependencies(Seq<char>),
    UnsatisfiedAptConflicts(Seq<char>),
    AutopkgtestDepChrootDisappeared,
    AutopkgtestTestbedFailure(Seq<char>),
    AutopkgtestErroneousPackage(Seq<char>),
    AutopkgtestTimedOut,
    XDGRunTimeNotSet,
    AutopkgtestStderrFailure(Seq<char>),
    AutopkgtestDepsUnsatisfiable(Seq<(Option<Seq<char>>, Seq<char>)>),
    ChrootNotFound { chroot: Seq<char> },
    AutopkgtestTestbedSetupFailure { command: Seq<char>, exit_status: i32, error: Seq<char> },
    MissingFile { path: Seq<char> },
    MissingBuildFile { filename: Seq<char> },
    MissingCommandOrBuildFile { filename: Seq<char> },
    VcsControlDirectoryNeeded { vcs: Seq<Seq<char>> },
    MissingCommand(Seq<char>),
    MissingPkgConfig { module: Seq<char>, minimum_version: Option<Seq<char>> },
    MissingConfigure,
    MissingNodeModule(Seq<char>),
    MissingVagueDependency { name: Seq<char>, url: Option<Seq<char>>, minimum_version: Option<Seq<char>>, current_version: Option<Seq<char>> },
    MissingHaskellDependencies(Seq<Seq<char>>),
    MissingSetupPyCommand(Seq<char>),
    MissingPerlModule { module: Seq<char>, filename: Option<Seq<char>>, inc: Option<Seq<Seq<char>>>, minimum_version: Option<Seq<char>> },
    MissingRPackage { package: Seq<char>, minimum_version: Option<Seq<char>> },
    MissingAutoconfMacro { macro_name: Seq<char>, need_rebuild: bool },
    MissingMavenArtifacts(Seq<Seq<char>>),
    MissingRubyGem { gem: Seq<char>, version: Option<Seq<char>> },
    MissingPythonModule { module: Seq<char>, python_version: Option<i32>, minimum_version: Option<Seq<char>> },
    MissingPythonDistribution { distribution: Seq<char>, python_version: Option<i32>, minimum_version: Option<Seq<char>> },
    MissingCHeader { header: Seq<char> },
    MissingGoPackage { package: Seq<char> },
    MissingNodePackage(Seq<char>),
    MissingValaPackage(Seq<char>),
    MissingLibrary(Seq<char>),
    MissingHaskellModule { module: Seq<char> },
    MissingPerlPredeclared(Seq<char>),
    MissingPerlFile { filename: Seq<char>, inc: Option<Seq<Seq<char>>> },
    MissingMakeTarget { target: Seq<char>, required_by: Option<Seq<char>> },
    MissingCMakeComponents { name: Seq<char>, components: Seq<Seq<char>> },
    MissingCMakeConfig { name: Seq<char>, version: Option<Seq<char>> },
    DhAddonLoadFailure { name: Seq<char>, path: Seq<char> },
    DebhelperPatternNotFound { pattern: Seq<char>, tool: Seq<char>, directories: Seq<Seq<char>> },
    MissingLatexFile(Seq<char>),
    MissingJavaClass { classname: Seq<char> },
    MissingJDKFile { jdk_path: Seq<char>, filename: Seq<char> },
    MissingJDK { jdk_path: Seq<char> },
    MissingOCamlPackage(Seq<char>),
    MissingXmlEntity { url: Seq<char> },
    MissingSprocketsFile { name: Seq<char>, content_type: Seq<char> },
    MissingPhpClass { php_class: Seq<char> },
    MissingPHPExtension(Seq<char>),
    MissingIntrospectionTypelib(Seq<char>),
    MissingRubyFile { filename: Seq<char> },
    UnknownCertificateAuthority(Seq<char>),
    DirectoryNonExistant(Seq<char>),
    NotExecutableFile(Seq<char>),
    MissingConfigStatusInput { path: Seq<char> },
    MissingAutomakeInput { path: Seq<char> },
    MismatchGettextVersions { makefile_version: Seq<char>, autoconf_version: Seq<char> },
    DuplicateDHCompatLevel { command: Seq<char> },
    MissingDHCompatLevel { command: Seq<char> },
    DhLinkDestinationIsDirectory(Seq<char>),
    DhMissingUninstalled(Seq<char>),
    UnsupportedPytestConfigOption(Seq<char>),
    NeedPgBuildExtUpdateControl { generated_path: Seq<char>, template_path: Seq<char> },
    CcacheError(Seq<char>),
    UnsupportedDebhelperCompatLevel { oldest_supported: i32, requested: i32 },
    MissingPostgresExtension(Seq<char>),
    MissingFontspec(Seq<char>),
    InvalidCurrentUser(Seq<char>),
    MissingGnulibDirectory(Seq<char>),
    MissingLuaModule(Seq<char>),
    MinimumAutoconfTooOld(Seq<char>),
    MissingPerlDistributionFile(Seq<char>),
    ESModuleMustUseImport(Seq<char>),
    MissingDebianBuildDep(Seq<char>),
    MissingQtModules(Seq<Seq<char>>),
    MissingGoSumEntry { package: Seq<char>, version: Seq<char> },
    MissingStaticLibrary { library: Seq<char>, filename: Seq<char> },
    MissingXfceDependency { package: Seq<char> },
    ImageMagickDelegateMissing { delegate: Seq<char> },
    PatchApplicationFailed { patchname: Seq<char> },
    DebianVersionRejected { version: Seq<char> },
    MissingGnomeCommonDependency { package: Seq<char>, minimum_version: Option<Seq<char>> },
    MissingCargoCrate { crate_name: Seq<char>, requirement: Option<Seq<char>> },
    UpstartFilePresent(Seq<char>),
    MissingPytestFixture(Seq<char>),
    UnsupportedPytestArguments(Seq<Seq<char>>),
    CMakeNeedExactVersion { package: Seq<char>, version_found: Seq<char>, exact_version_needed: Seq<char>, path: Seq<char> },
    CMakeFilesMissing { filenames: Seq<Seq<char>>, version: Option<Seq<char>> },
    UnableToFindUpstreamTarball { package: Seq<char>, version: Seq<char> },
    UnknownMercurialExtraFields(Seq<char>),
    UScanTooManyRequests(Seq<char>),
    UpstreamPGPSignatureVerificationFailed,
    InconsistentSourceFormat { version: bool, source_format: bool },
    UScanRequestVersionMissing(Seq<char>),
    UScanFailed { url: Seq<char>, reason: Seq<char> },
    UScanRemoteVersionMismatch { package: Seq<char>, remote_version: Seq<char>, wanted_version: Seq<char> },
    UScanWatchfileMalformed { paragraph: Seq<char> },
    UScanError(Seq<char>),
    UpstreamMetadataFileParseError { path: Seq<char>, reason: Seq<char> },
    NestedTreeUnresolvable { name: Seq<char> },
    SubmoduleEncountered { path: Seq<char>, sha: Seq<char> },
    BrzInternalError { exception_type: Seq<char>, exception_message: Seq<char> },
    MissingDebcargoCrate { cratename: Seq<char>, version: Option<Seq<char>> },
    DpkgSourcePackFailed(Seq<char>),
    DebcargoUnacceptablePredicate { cratename: Seq<char>, predicate: Seq<char> },
    DebcargoUnacceptableComparator { cratename: Seq<char>, comparator: Seq<char> },
    DebcargoFailure(Seq<char>),
    ChangelogParseError(Seq<char>),
    Other { kind: Seq<char> },
}

impl View for Problem {
    type V = ProblemView;

    open spec fn view(&self) -> ProblemView {
        match self {
            Problem::NoSpaceOnDevice => ProblemView::NoSpaceOnDevice,
            Problem::AptFetchFailure { url, error } => ProblemView::AptFetchFailure {
                url: opt_view(*url),
                error: error@,
            },
            Problem::AptBrokenPackages { description, broken } => ProblemView::AptBrokenPackages {
                description: description@,
                broken: opt_vec_view(*broken),
            },
            Problem::AptMissingReleaseFile(a0) => ProblemView::AptMissingReleaseFile(a0@),
            Problem::AptPackageUnknown(a0) => ProblemView::AptPackageUnknown(a0@),
            Problem::DpkgError(a0) => ProblemView::DpkgError(a0@),
            Problem::UnsatisfiedAptDependencies(a0) => ProblemView::UnsatisfiedAptDependencies(a0@),
            Problem::UnsatisfiedAptConflicts(a0) => ProblemView::UnsatisfiedAptConflicts(a0@),
            Problem::AutopkgtestDepChrootDisappeared => ProblemView::AutopkgtestDepChrootDisappeared,
            Problem::AutopkgtestTestbedFailure(a0) => ProblemView::AutopkgtestTestbedFailure(a0@),
            Problem::AutopkgtestErroneousPackage(a0) => ProblemView::AutopkgtestErroneousPackage(a0@),
            Problem::AutopkgtestTimedOut => ProblemView::AutopkgtestTimedOut,
            Problem::XDGRunTimeNotSet => ProblemView::XDGRunTimeNotSet,
            Problem::AutopkgtestStderrFailure(a0) => ProblemView::AutopkgtestStderrFailure(a0@),
            Problem::AutopkgtestDepsUnsatisfiable(a0) => ProblemView::AutopkgtestDepsUnsatisfiable(pairs_view(*a0)),
            Problem::ChrootNotFound { chroot } => ProblemView::ChrootNotFound {
                chroot: chroot@,
            },
            Problem::AutopkgtestTestbedSetupFailure { command, exit_status, error } => ProblemView::AutopkgtestTestbedSetupFailure {
                command: command@,
                exit_status: *exit_status,
                error: error@,
            },
            Problem::MissingFile { path } => ProblemView::MissingFile {
                path: path@,
            },
            Problem::MissingBuildFile { filename } => ProblemView::MissingBuildFile {
                filename: filename@,
            },
            Problem::MissingCommandOrBuildFile { filename } => ProblemView::MissingCommandOrBuildFile {
                filename: filename@,
            },
            Problem::VcsControlDirectoryNeeded { vcs } => ProblemView::VcsControlDirectoryNeeded {
                vcs: vec_view(*vcs),
            },
            Problem::MissingCommand(a0) => ProblemView::MissingCommand(a0@),
            Problem::MissingPkgConfig { module, minimum_version } => ProblemView::MissingPkgConfig {
                module: module@,
                minimum_version: opt_view(*minimum_version),
            },
            Problem::MissingConfigure => ProblemView::MissingConfigure,
            Problem::MissingNodeModule(a0) => ProblemView::MissingNodeModule(a0@),
            Problem::MissingVagueDependency { name, url, minimum_version, current_version } => ProblemView::MissingVagueDependency {
                name: name@,
                url: opt_view(*url),
                minimum_version: opt_view(*minimum_version),
                current_version: opt_view(*current_version),
            },
            Problem::MissingHaskellDependencies(a0) => ProblemView::MissingHaskellDependencies(vec_view(*a0)),
            Problem::MissingSetupPyCommand(a0) => ProblemView::MissingSetupPyCommand(a0@),
            Problem::MissingPerlModule { module, filename, inc, minimum_version } => ProblemView::MissingPerlModule {
                module: module@,
                filename: opt_view(*filename),
                inc: opt_vec_view(*inc),
                minimum_version: opt_view(*minimum_version),
            },
            Problem::MissingRPackage { package, minimum_version } => ProblemView::MissingRPackage {
                package: package@,
                minimum_version: opt_view(*minimum_version),
            },
            Problem::MissingAutoconfMacro { macro_name, need_rebuild } => ProblemView::MissingAutoconfMacro {
                macro_name: macro_name@,
                need_rebuild: *need_rebuild,
            },
            Problem::MissingMavenArtifacts(a0) => ProblemView::MissingMavenArtifacts(vec_view(*a0)),
            Problem::MissingRubyGem { gem, version } => ProblemView::MissingRubyGem {
                gem: gem@,
                version: opt_view(*version),
            },
            Problem::MissingPythonModule { module, python_version, minimum_version } => ProblemView::MissingPythonModule {
                module: module@,
                python_version: *python_version,
                minimum_version: opt_view(*minimum_version),
            },
            Problem::MissingPythonDistribution { distribution, python_version, minimum_version } => ProblemView::MissingPythonDistribution {
                distribution: distribution@,
                python_version: *python_version,
                minimum_version: opt_view(*minimum_version),
            },
            Problem::MissingCHeader { header } => ProblemView::MissingCHeader {
                header: header@,
            },
            Problem::MissingGoPackage { package } => ProblemView::MissingGoPackage {
                package: package@,
            },
            Problem::MissingNodePackage(a0) => ProblemView::MissingNodePackage(a0@),
            Problem::MissingValaPackage(a0) => ProblemView::MissingValaPackage(a0@),
            Problem::MissingLibrary(a0) => ProblemView::MissingLibrary(a0@),
            Problem::MissingHaskellModule { module } => ProblemView::MissingHaskellModule {
                module: module@,
            },
            Problem::MissingPerlPredeclared(a0) => ProblemView::MissingPerlPredeclared(a0@),
            Problem::MissingPerlFile { filename, inc } => ProblemView::MissingPerlFile {
                filename: filename@,
                inc: opt_vec_view(*inc),
            },
            Problem::MissingMakeTarget { target, required_by } => ProblemView::MissingMakeTarget {
                target: target@,
                required_by: opt_view(*required_by),
            },
            Problem::MissingCMakeComponents { name, components } => ProblemView::MissingCMakeComponents {
                name: name@,
                components: vec_view(*components),
            },
            Problem::MissingCMakeConfig { name, version } => ProblemView::MissingCMakeConfig {
                name: name@,
                version: opt_view(*version),
            },
            Problem::DhAddonLoadFailure { name, path } => ProblemView::DhAddonLoadFailure {
                name: name@,
                path: path@,
            },
            Problem::DebhelperPatternNotFound { pattern, tool, directories } => ProblemView::DebhelperPatternNotFound {
                pattern: pattern@,
                tool: tool@,
                directories: vec_view(*directories),
            },
            Problem::MissingLatexFile(a0) => ProblemView::MissingLatexFile(a0@),
            Problem::MissingJavaClass { classname } => ProblemView::MissingJavaClass {
                classname: classname@,
            },
            Problem::MissingJDKFile { jdk_path, filename } => ProblemView::MissingJDKFile {
                jdk_path: jdk_path@,
                filename: filename@,
            },
            Problem::MissingJDK { jdk_path } => ProblemView::MissingJDK {
                jdk_path: jdk_path@,
            },
            Problem::MissingOCamlPackage(a0) => ProblemView::MissingOCamlPackage(a0@),
            Problem::MissingXmlEntity { url } => ProblemView::MissingXmlEntity {
                url: url@,
            },
            Problem::MissingSprocketsFile { name, content_type } => ProblemView::MissingSprocketsFile {
                name: name@,
                content_type: content_type@,
            },
            Problem::MissingPhpClass { php_class } => ProblemView::MissingPhpClass {
                php_class: php_class@,
            },
            Problem::MissingPHPExtension(a0) => ProblemView::MissingPHPExtension(a0@),
            Problem::MissingIntrospectionTypelib(a0) => ProblemView::MissingIntrospectionTypelib(a0@),
            Problem::MissingRubyFile { filename } => ProblemView::MissingRubyFile {
                filename: filename@,
            },
            Problem::UnknownCertificateAuthority(a0) => ProblemView::UnknownCertificateAuthority(a0@),
            Problem::DirectoryNonExistant(a0) => ProblemView::DirectoryNonExistant(a0@),
            Problem::NotExecutableFile(a0) => ProblemView::NotExecutableFile(a0@),
            Problem::MissingConfigStatusInput { path } => ProblemView::MissingConfigStatusInput {
                path: path@,
            },
            Problem::MissingAutomakeInput { path } => ProblemView::MissingAutomakeInput {
                path: path@,
            },
            Problem::MismatchGettextVersions { makefile_version, autoconf_version } => ProblemView::MismatchGettextVersions {
                makefile_version: makefile_version@,
                autoconf_version: autoconf_version@,
            },
            Problem::DuplicateDHCompatLevel { command } => ProblemView::DuplicateDHCompatLevel {
                command: command@,
            },
            Problem::MissingDHCompatLevel { command } => ProblemView::MissingDHCompatLevel {
                command: command@,
            },
            Problem::DhLinkDestinationIsDirectory(a0) => ProblemView::DhLinkDestinationIsDirectory(a0@),
            Problem::DhMissingUninstalled(a0) => ProblemView::DhMissingUninstalled(a0@),
            Problem::UnsupportedPytestConfigOption(a0) => ProblemView::UnsupportedPytestConfigOption(a0@),
            Problem::NeedPgBuildExtUpdateControl { generated_path, template_path } => ProblemView::NeedPgBuildExtUpdateControl {
                generated_path: generated_path@,
                template_path: template_path@,
            },
            Problem::CcacheError(a0) => ProblemView::CcacheError(a0@),
            Problem::UnsupportedDebhelperCompatLevel { oldest_supported, requested } => ProblemView::UnsupportedDebhelperCompatLevel {
                oldest_supported: *oldest_supported,
                requested: *requested,
            },
            Problem::MissingPostgresExtension(a0) => ProblemView::MissingPostgresExtension(a0@),
            Problem::MissingFontspec(a0) => ProblemView::MissingFontspec(a0@),
            Problem::InvalidCurrentUser(a0) => ProblemView::InvalidCurrentUser(a0@),
            Problem::MissingGnulibDirectory(a0) => ProblemView::MissingGnulibDirectory(a0@),
            Problem::MissingLuaModule(a0) => ProblemView::MissingLuaModule(a0@),
            Problem::MinimumAutoconfTooOld(a0) => ProblemView::MinimumAutoconfTooOld(a0@),
            Problem::MissingPerlDistributionFile(a0) => ProblemView::MissingPerlDistributionFile(a0@),
            Problem::ESModuleMustUseImport(a0) => ProblemView::ESModuleMustUseImport(a0@),
            Problem::MissingDebianBuildDep(a0) => ProblemView::MissingDebianBuildDep(a0@),
            Problem::MissingQtModules(a0) => ProblemView::MissingQtModules(vec_view(*a0)),
            Problem::MissingGoSumEntry { package, version } => ProblemView::MissingGoSumEntry {
                package: package@,
                version: version@,
            },
            Problem::MissingStaticLibrary { library, filename } => ProblemView::MissingStaticLibrary {
                library: library@,
                filename: filename@,
            },
            Problem::MissingXfceDependency { package } => ProblemView::MissingXfceDependency {
                package: package@,
            },
            Problem::ImageMagickDelegateMissing { delegate } => ProblemView::ImageMagickDelegateMissing {
                delegate: delegate@,
            },
            Problem::PatchApplicationFailed { patchname } => ProblemView::PatchApplicationFailed {
                patchname: patchname@,
            },
            Problem::DebianVersionRejected { version } => ProblemView::DebianVersionRejected {
                version: version@,
            },
            Problem::MissingGnomeCommonDependency { package, minimum_version } => ProblemView::MissingGnomeCommonDependency {
                package: package@,
                minimum_version: opt_view(*minimum_version),
            },
            Problem::MissingCargoCrate { crate_name, requirement } => ProblemView::MissingCargoCrate {
                crate_name: crate_name@,
                requirement: opt_view(*requirement),
            },
            Problem::UpstartFilePresent(a0) => ProblemView::UpstartFilePresent(a0@),
            Problem::MissingPytestFixture(a0) => ProblemView::MissingPytestFixture(a0@),
            Problem::UnsupportedPytestArguments(a0) => ProblemView::UnsupportedPytestArguments(vec_view(*a0)),
            Problem::CMakeNeedExactVersion { package, version_found, exact_version_needed, path } => ProblemView::CMakeNeedExactVersion {
                package: package@,
                version_found: version_found@,
                exact_version_needed: exact_version_needed@,
                path: path@,
            },
            Problem::CMakeFilesMissing { filenames, version } => ProblemView::CMakeFilesMissing {
                filenames: vec_view(*filenames),
                version: opt_view(*version),
            },
            Problem::UnableToFindUpstreamTarball { package, version } => ProblemView::UnableToFindUpstreamTarball {
                package: package@,
                version: version@,
            },
            Problem::UnknownMercurialExtraFields(a0) => ProblemView::UnknownMercurialExtraFields(a0@),
            Problem::UScanTooManyRequests(a0) => ProblemView::UScanTooManyRequests(a0@),
            Problem::UpstreamPGPSignatureVerificationFailed => ProblemView::UpstreamPGPSignatureVerificationFailed,
            Problem::InconsistentSourceFormat { version, source_format } => ProblemView::InconsistentSourceFormat {
                version: *version,
                source_format: *source_format,
            },
            Problem::UScanRequestVersionMissing(a0) => ProblemView::UScanRequestVersionMissing(a0@),
            Problem::UScanFailed { url, reason } => ProblemView::UScanFailed {
                url: url@,
                reason: reason@,
            },
            Problem::UScanRemoteVersionMismatch { package, remote_version, wanted_version } => ProblemView::UScanRemoteVersionMismatch {
                package: package@,
                remote_version: remote_version@,
                wanted_version: wanted_version@,
            },
            Problem::UScanWatchfileMalformed { paragraph } => ProblemView::UScanWatchfileMalformed {
                paragraph: paragraph@,
            },
            Problem::UScanError(a0) => ProblemView::UScanError(a0@),
            Problem::UpstreamMetadataFileParseError { path, reason } => ProblemView::UpstreamMetadataFileParseError {
                path: path@,
                reason: reason@,
            },
            Problem::NestedTreeUnresolvable { name } => ProblemView::NestedTreeUnresolvable {
                name: name@,
            },
            Problem::SubmoduleEncountered { path, sha } => ProblemView::SubmoduleEncountered {
                path: path@,
                sha: sha@,
            },
            Problem::BrzInternalError { exception_type, exception_message } => ProblemView::BrzInternalError {
                exception_type: exception_type@,
                exception_message: exception_message@,
            },
            Problem::MissingDebcargoCrate { cratename, version } => ProblemView::MissingDebcargoCrate {
                cratename: cratename@,
                version: opt_view(*version),
            },
            Problem::DpkgSourcePackFailed(a0) => ProblemView::DpkgSourcePackFailed(a0@),
            Problem::DebcargoUnacceptablePredicate { cratename, predicate } => ProblemView::DebcargoUnacceptablePredicate {
                cratename: cratename@,
                predicate: predicate@,
            },
            Problem::DebcargoUnacceptableComparator { cratename, comparator } => ProblemView::DebcargoUnacceptableComparator {
                cratename: cratename@,
                comparator: comparator@,
            },
            Problem::DebcargoFailure(a0) => ProblemView::DebcargoFailure(a0@),
            Problem::ChangelogParseError(a0) => ProblemView::ChangelogParseError(a0@),
            Problem::Other { kind } => ProblemView::Other {
                kind: kind@,
            },
        }
    }
}

/// The kind identifier of a problem.
pub open spec fn kind_spec(p: ProblemView) -> Seq<char> {
    match p {
        ProblemView::NoSpaceOnDevice => "no-space-on-device"@,
        ProblemView::AptFetchFailure { .. } => "apt-file-fetch-failure"@,
        ProblemView::AptBrokenPackages { .. } => "apt-broken-packages"@,
        ProblemView::AptMissingReleaseFile(..) => "missing-release-file"@,
        ProblemView::AptPackageUnknown(..) => "apt-package-unknown"@,
        ProblemView::DpkgError(..) => "dpkg-error"@,
        ProblemView::UnsatisfiedAptDependencies(..) => "unsatisfied-apt-dependencies"@,
        ProblemView::UnsatisfiedAptConflicts(..) => "unsatisfied-apt-conflicts"@,
        ProblemView::AutopkgtestDepChrootDisappeared => "autopkgtest-dep-chroot-disappeared"@,
        ProblemView::AutopkgtestTestbedFailure(..) => "autopkgtest-testbed-failure"@,
        ProblemView::AutopkgtestErroneousPackage(..) => "autopkgtest-erroneous-package"@,
        ProblemView::AutopkgtestTimedOut => "timed-out"@,
        ProblemView::XDGRunTimeNotSet => "xdg-runtime-dir-not-set"@,
        ProblemView::AutopkgtestStderrFailure(..) => "stderr-output"@,
        ProblemView::AutopkgtestDepsUnsatisfiable(..) => "badpkg"@,
        ProblemView::ChrootNotFound { .. } => "chroot-not-found"@,
        ProblemView::AutopkgtestTestbedSetupFailure { .. } => "testbed-setup-failure"@,
        ProblemView::MissingFile { .. } => "missing-file"@,
        ProblemView::MissingBuildFile { .. } => "missing-build-file"@,
        ProblemView::MissingCommandOrBuildFile { .. } => "missing-command-or-build-file"@,
        ProblemView::VcsControlDirectoryNeeded { .. } => "vcs-control-directory-needed"@,
        ProblemView::MissingCommand(..) => "command-missing"@,
        ProblemView::MissingPkgConfig { .. } => "missing-pkg-config-package"@,
        ProblemView::MissingConfigure => "missing-configure"@,
        ProblemView::MissingNodeModule(..) => "missing-node-module"@,
        ProblemView::MissingVagueDependency { .. } => "missing-vague-dependency"@,
        ProblemView::MissingHaskellDependencies(..) => "missing-haskell-dependencies"@,
        ProblemView::MissingSetupPyCommand(..) => "missing-setup.py-command"@,
        ProblemView::MissingPerlModule { .. } => "missing-perl-module"@,
        ProblemView::MissingRPackage { .. } => "missing-r-package"@,
        ProblemView::MissingAutoconfMacro { .. } => "missing-autoconf-macro"@,
        ProblemView::MissingMavenArtifacts(..) => "missing-maven-artifacts"@,
        ProblemView::MissingRubyGem { .. } => "missing-ruby-gem"@,
        ProblemView::MissingPythonModule { .. } => "missing-python-module"@,
        ProblemView::MissingPythonDistribution { .. } => "missing-python-distribution"@,
        ProblemView::MissingCHeader { .. } => "missing-c-header"@,
        ProblemView::MissingGoPackage { .. } => "missing-go-package"@,
        ProblemView::MissingNodePackage(..) => "missing-node-package"@,
        ProblemView::MissingValaPackage(..) => "missing-vala-package"@,
        ProblemView::MissingLibrary(..) => "missing-library"@,
        ProblemView::MissingHaskellModule { .. } => "missing-haskell-module"@,
        ProblemView::MissingPerlPredeclared(..) => "missing-perl-predeclared"@,
        ProblemView::MissingPerlFile { .. } => "missing-perl-file"@,
        ProblemView::MissingMakeTarget { .. } => "missing-make-target"@,
        ProblemView::MissingCMakeComponents { .. } => "missing-cmake-components"@,
        ProblemView::MissingCMakeConfig { .. } => "missing-cmake-config"@,
        ProblemView::DhAddonLoadFailure { .. } => "dh-addon-load-failure"@,
        ProblemView::DebhelperPatternNotFound { .. } => "debhelper-pattern-not-found"@,
        ProblemView::MissingLatexFile(..) => "missing-latex-file"@,
        ProblemView::MissingJavaClass { .. } => "missing-java-class"@,
        ProblemView::MissingJDKFile { .. } => "missing-jdk-file"@,
        ProblemView::MissingJDK { .. } => "missing-jdk"@,
        ProblemView::MissingOCamlPackage(..) => "missing-ocaml-package"@,
        ProblemView::MissingXmlEntity { .. } => "missing-xml-entity"@,
        ProblemView::MissingSprocketsFile { .. } => "missing-sprockets-file"@,
        ProblemView::MissingPhpClass { .. } => "missing-php-class"@,
        ProblemView::MissingPHPExtension(..) => "missing-php-extension"@,
        ProblemView::MissingIntrospectionTypelib(..) => "missing-introspection-typelib"@,
        ProblemView::MissingRubyFile { .. } => "missing-ruby-file"@,
        ProblemView::UnknownCertificateAuthority(..) => "unknown-certificate-authority"@,
        ProblemView::DirectoryNonExistant(..) => "local-directory-not-existing"@,
        ProblemView::NotExecutableFile(..) => "not-executable-file"@,
        ProblemView::MissingConfigStatusInput { .. } => "missing-config.status-input"@,
        ProblemView::MissingAutomakeInput { .. } => "missing-automake-input"@,
        ProblemView::MismatchGettextVersions { .. } => "mismatch-gettext-versions"@,
        ProblemView::DuplicateDHCompatLevel { .. } => "duplicate-dh-compat-level"@,
        ProblemView::MissingDHCompatLevel { .. } => "missing-dh-compat-level"@,
        ProblemView::DhLinkDestinationIsDirectory(..) => "dh-link-destination-is-directory"@,
        ProblemView::DhMissingUninstalled(..) => "dh-missing-uninstalled"@,
        ProblemView::UnsupportedPytestConfigOption(..) => "unsupported-pytest-config-option"@,
        ProblemView::NeedPgBuildExtUpdateControl { .. } => "need-pg-buildext-updatecontrol"@,
        ProblemView::CcacheError(..) => "ccache-error"@,
        ProblemView::UnsupportedDebhelperCompatLevel { .. } => "unsupported-debhelper-compat-level"@,
        ProblemView::MissingPostgresExtension(..) => "missing-postgresql-extension"@,
        ProblemView::MissingFontspec(..) => "missing-fontspec"@,
        ProblemView::InvalidCurrentUser(..) => "invalid-current-user"@,
        ProblemView::MissingGnulibDirectory(..) => "missing-gnulib-directory"@,
        ProblemView::MissingLuaModule(..) => "missing-lua-module"@,
        ProblemView::MinimumAutoconfTooOld(..) => "minimum-autoconf-too-old"@,
        ProblemView::MissingPerlDistributionFile(..) => "missing-perl-distribution-file"@,
        ProblemView::ESModuleMustUseImport(..) => "esmodule-must-use-import"@,
        ProblemView::MissingDebianBuildDep(..) => "missing-debian-build-dep"@,
        ProblemView::MissingQtModules(..) => "missing-qt-modules"@,
        ProblemView::MissingGoSumEntry { .. } => "missing-go.sum-entry"@,
        ProblemView::MissingStaticLibrary { .. } => "missing-static-library"@,
        ProblemView::MissingXfceDependency { .. } => "missing-xfce-dependency"@,
        ProblemView::ImageMagickDelegateMissing { .. } => "imagemagick-delegate-missing"@,
        ProblemView::PatchApplicationFailed { .. } => "patch-application-failed"@,
        ProblemView::DebianVersionRejected { .. } => "debian-version-rejected"@,
        ProblemView::MissingGnomeCommonDependency { .. } => "missing-gnome-common-dependency"@,
        ProblemView::MissingCargoCrate { .. } => "missing-cargo-crate"@,
        ProblemView::UpstartFilePresent(..) => "upstart-file-present"@,
        ProblemView::MissingPytestFixture(..) => "missing-pytest-fixture"@,
        ProblemView::UnsupportedPytestArguments(..) => "unsupported-pytest-arguments"@,
        ProblemView::CMakeNeedExactVersion { .. } => "cmake-exact-version-missing"@,
        ProblemView::CMakeFilesMissing { .. } => "missing-cmake-files"@,
        ProblemView::UnableToFindUpstreamTarball { .. } => "unable-to-find-upstream-tarball"@,
        ProblemView::UnknownMercurialExtraFields(..) => "unknown-mercurial-extra-fields"@,
        ProblemView::UScanTooManyRequests(..) => "uscan-too-many-requests"@,
        ProblemView::UpstreamPGPSignatureVerificationFailed => "upstream-pgp-signature-verification-failed"@,
        ProblemView::InconsistentSourceFormat { .. } => "inconsistent-source-format"@,
        ProblemView::UScanRequestVersionMissing(..) => "uscan-request-version-missing"@,
        ProblemView::UScanFailed { .. } => "uscan-failed"@,
        ProblemView::UScanRemoteVersionMismatch { .. } => "uscan-remote-version-mismatch"@,
        ProblemView::UScanWatchfileMalformed { .. } => "uscan-watchfile-malformed"@,
        ProblemView::UScanError(..) => "uscan-error"@,
        ProblemView::UpstreamMetadataFileParseError { .. } => "upstream-metadata-file-parse-error"@,
        ProblemView::NestedTreeUnresolvable { .. } => "nested-tree-unresolvable"@,
        ProblemView::SubmoduleEncountered { .. } => "submodule-encountered"@,
        ProblemView::BrzInternalError { .. } => "brz-internal-error"@,
        ProblemView::MissingDebcargoCrate { .. } => "debcargo-missing-crate"@,
        ProblemView::DpkgSourcePackFailed(..) => "dpkg-source-pack-failed"@,
        ProblemView::DebcargoUnacceptablePredicate { .. } => "debcargo-unacceptable-predicate"@,
        ProblemView::DebcargoUnacceptableComparator { .. } => "debcargo-unacceptable-comparator"@,
        ProblemView::DebcargoFailure(..) => "debcargo-failed"@,
        ProblemView::ChangelogParseError(..) => "changelog-parse-error"@,
        ProblemView::Other { kind } => kind,
    }
}

impl Problem {
    /// The kind identifier of the problem.
    pub fn kind(&self) -> (r: String)
        ensures
            r@ == kind_spec(self@),
    {
        match self {
            Problem::NoSpaceOnDevice => "no-space-on-device".to_string(),
            Problem::AptFetchFailure { .. } => "apt-file-fetch-failure".to_string(),
            Problem::AptBrokenPackages { .. } => "apt-broken-packages".to_string(),
            Problem::AptMissingReleaseFile(..) => "missing-release-file".to_string(),
            Problem::AptPackageUnknown(..) => "apt-package-unknown".to_string(),
            Problem::DpkgError(..) => "dpkg-error".to_string(),
            Problem::UnsatisfiedAptDependencies(..) => "unsatisfied-apt-dependencies".to_string(),
            Problem::UnsatisfiedAptConflicts(..) => "unsatisfied-apt-conflicts".to_string(),
            Problem::AutopkgtestDepChrootDisappeared => "autopkgtest-dep-chroot-disappeared".to_string(),
            Problem::AutopkgtestTestbedFailure(..) => "autopkgtest-testbed-failure".to_string(),
            Problem::AutopkgtestErroneousPackage(..) => "autopkgtest-erroneous-package".to_string(),
            Problem::AutopkgtestTimedOut => "timed-out".to_string(),
            Problem::XDGRunTimeNotSet => "xdg-runtime-dir-not-set".to_string(),
            Problem::AutopkgtestStderrFailure(..) => "stderr-output".to_string(),
            Problem::AutopkgtestDepsUnsatisfiable(..) => "badpkg".to_string(),
            Problem::ChrootNotFound { .. } => "chroot-not-found".to_string(),
            Problem::AutopkgtestTestbedSetupFailure { .. } => "testbed-setup-failure".to_string(),
            Problem::MissingFile { .. } => "missing-file".to_string(),
            Problem::MissingBuildFile { .. } => "missing-build-file".to_string(),
            Problem::MissingCommandOrBuildFile { .. } => "missing-command-or-build-file".to_string(),
            Problem::VcsControlDirectoryNeeded { .. } => "vcs-control-directory-needed".to_string(),
            Problem::MissingCommand(..) => "command-missing".to_string(),
            Problem::MissingPkgConfig { .. } => "missing-pkg-config-package".to_string(),
            Problem::MissingConfigure => "missing-configure".to_string(),
            Problem::MissingNodeModule(..) => "missing-node-module".to_string(),
            Problem::MissingVagueDependency { .. } => "missing-vague-dependency".to_string(),
            Problem::MissingHaskellDependencies(..) => "missing-haskell-dependencies".to_string(),
            Problem::MissingSetupPyCommand(..) => "missing-setup.py-command".to_string(),
            Problem::MissingPerlModule { .. } => "missing-perl-module".to_string(),
            Problem::MissingRPackage { .. } => "missing-r-package".to_string(),
            Problem::MissingAutoconfMacro { .. } => "missing-autoconf-macro".to_string(),
            Problem::MissingMavenArtifacts(..) => "missing-maven-artifacts".to_string(),
            Problem::MissingRubyGem { .. } => "missing-ruby-gem".to_string(),
            Problem::MissingPythonModule { .. } => "missing-python-module".to_string(),
            Problem::MissingPythonDistribution { .. } => "missing-python-distribution".to_string(),
            Problem::MissingCHeader { .. } => "missing-c-header".to_string(),
            Problem::MissingGoPackage { .. } => "missing-go-package".to_string(),
            Problem::MissingNodePackage(..) => "missing-node-package".to_string(),
            Problem::MissingValaPackage(..) => "missing-vala-package".to_string(),
            Problem::MissingLibrary(..) => "missing-library".to_string(),
            Problem::MissingHaskellModule { .. } => "missing-haskell-module".to_string(),
            Problem::MissingPerlPredeclared(..) => "missing-perl-predeclared".to_string(),
            Problem::MissingPerlFile { .. } => "missing-perl-file".to_string(),
            Problem::MissingMakeTarget { .. } => "missing-make-target".to_string(),
            Problem::MissingCMakeComponents { .. } => "missing-cmake-components".to_string(),
            Problem::MissingCMakeConfig { .. } => "missing-cmake-config".to_string(),
            Problem::DhAddonLoadFailure { .. } => "dh-addon-load-failure".to_string(),
            Problem::DebhelperPatternNotFound { .. } => "debhelper-pattern-not-found".to_string(),
            Problem::MissingLatexFile(..) => "missing-latex-file".to_string(),
            Problem::MissingJavaClass { .. } => "missing-java-class".to_string(),
            Problem::MissingJDKFile { .. } => "missing-jdk-file".to_string(),
            Problem::MissingJDK { .. } => "missing-jdk".to_string(),
            Problem::MissingOCamlPackage(..) => "missing-ocaml-package".to_string(),
            Problem::MissingXmlEntity { .. } => "missing-xml-entity".to_string(),
            Problem::MissingSprocketsFile { .. } => "missing-sprockets-file".to_string(),
            Problem::MissingPhpClass { .. } => "missing-php-class".to_string(),
            Problem::MissingPHPExtension(..) => "missing-php-extension".to_string(),
            Problem::MissingIntrospectionTypelib(..) => "missing-introspection-typelib".to_string(),
            Problem::MissingRubyFile { .. } => "missing-ruby-file".to_string(),
            Problem::UnknownCertificateAuthority(..) => "unknown-certificate-authority".to_string(),
            Problem::DirectoryNonExistant(..) => "local-directory-not-existing".to_string(),
            Problem::NotExecutableFile(..) => "not-executable-file".to_string(),
            Problem::MissingConfigStatusInput { .. } => "missing-config.status-input".to_string(),
            Problem::MissingAutomakeInput { .. } => "missing-automake-input".to_string(),
            Problem::MismatchGettextVersions { .. } => "mismatch-gettext-versions".to_string(),
            Problem::DuplicateDHCompatLevel { .. } => "duplicate-dh-compat-level".to_string(),
            Problem::MissingDHCompatLevel { .. } => "missing-dh-compat-level".to_string(),
            Problem::DhLinkDestinationIsDirectory(..) => "dh-link-destination-is-directory".to_string(),
            Problem::DhMissingUninstalled(..) => "dh-missing-uninstalled".to_string(),
            Problem::UnsupportedPytestConfigOption(..) => "unsupported-pytest-config-option".to_string(),
            Problem::NeedPgBuildExtUpdateControl { .. } => "need-pg-buildext-updatecontrol".to_string(),
            Problem::CcacheError(..) => "ccache-error".to_string(),
            Problem::UnsupportedDebhelperCompatLevel { .. } => "unsupported-debhelper-compat-level".to_string(),
            Problem::MissingPostgresExtension(..) => "missing-postgresql-extension".to_string(),
            Problem::MissingFontspec(..) => "missing-fontspec".to_string(),
            Problem::InvalidCurrentUser(..) => "invalid-current-user".to_string(),
            Problem::MissingGnulibDirectory(..) => "missing-gnulib-directory".to_string(),
            Problem::MissingLuaModule(..) => "missing-lua-module".to_string(),
            Problem::MinimumAutoconfTooOld(..) => "minimum-autoconf-too-old".to_string(),
            Problem::MissingPerlDistributionFile(..) => "missing-perl-distribution-file".to_string(),
            Problem::ESModuleMustUseImport(..) => "esmodule-must-use-import".to_string(),
            Problem::MissingDebianBuildDep(..) => "missing-debian-build-dep".to_string(),
            Problem::MissingQtModules(..) => "missing-qt-modules".to_string(),
            Problem::MissingGoSumEntry { .. } => "missing-go.sum-entry".to_string(),
            Problem::MissingStaticLibrary { .. } => "missing-static-library".to_string(),
            Problem::MissingXfceDependency { .. } => "missing-xfce-dependency".to_string(),
            Problem::ImageMagickDelegateMissing { .. } => "imagemagick-delegate-missing".to_string(),
            Problem::PatchApplicationFailed { .. } => "patch-application-failed".to_string(),
            Problem::DebianVersionRejected { .. } => "debian-version-rejected".to_string(),
            Problem::MissingGnomeCommonDependency { .. } => "missing-gnome-common-dependency".to_string(),
            Problem::MissingCargoCrate { .. } => "missing-cargo-crate".to_string(),
            Problem::UpstartFilePresent(..) => "upstart-file-present".to_string(),
            Problem::MissingPytestFixture(..) => "missing-pytest-fixture".to_string(),
            Problem::UnsupportedPytestArguments(..) => "unsupported-pytest-arguments".to_string(),
            Problem::CMakeNeedExactVersion { .. } => "cmake-exact-version-missing".to_string(),
            Problem::CMakeFilesMissing { .. } => "missing-cmake-files".to_string(),
            Problem::UnableToFindUpstreamTarball { .. } => "unable-to-find-upstream-tarball".to_string(),
            Problem::UnknownMercurialExtraFields(..) => "unknown-mercurial-extra-fields".to_string(),
            Problem::UScanTooManyRequests(..) => "uscan-too-many-requests".to_string(),
            Problem::UpstreamPGPSignatureVerificationFailed => "upstream-pgp-signature-verification-failed".to_string(),
            Problem::InconsistentSourceFormat { .. } => "inconsistent-source-format".to_string(),
            Problem::UScanRequestVersionMissing(..) => "uscan-request-version-missing".to_string(),
            Problem::UScanFailed { .. } => "uscan-failed".to_string(),
            Problem::UScanRemoteVersionMismatch { .. } => "uscan-remote-version-mismatch".to_string(),
            Problem::UScanWatchfileMalformed { .. } => "uscan-watchfile-malformed".to_string(),
            Problem::UScanError(..) => "uscan-error".to_string(),
            Problem::UpstreamMetadataFileParseError { .. } => "upstream-metadata-file-parse-error".to_string(),
            Problem::NestedTreeUnresolvable { .. } => "nested-tree-unresolvable".to_string(),
            Problem::SubmoduleEncountered { .. } => "submodule-encountered".to_string(),
            Problem::BrzInternalError { .. } => "brz-internal-error".to_string(),
            Problem::MissingDebcargoCrate { .. } => "debcargo-missing-crate".to_string(),
            Problem::DpkgSourcePackFailed(..) => "dpkg-source-pack-failed".to_string(),
            Problem::DebcargoUnacceptablePredicate { .. } => "debcargo-unacceptable-predicate".to_string(),
            Problem::DebcargoUnacceptableComparator { .. } => "debcargo-unacceptable-comparator".to_string(),
            Problem::DebcargoFailure(..) => "debcargo-failed".to_string(),
            Problem::ChangelogParseError(..) => "changelog-parse-error".to_string(),
            Problem::Other { kind } => kind.clone(),
        }
    }
}

} // verus!
