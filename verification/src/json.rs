//! Problems as JSON details: the details that each problem gives, and reading a
//! problem back from its kind and details.
use vstd::prelude::*;
use crate::problem::{kind_spec, opt_problem_view, Problem, ProblemView};
use crate::text::str_eq;

verus! {

/// An element of a JSON array.
#[derive(Debug, Clone, PartialEq)]
pub enum JsonItem {
    /// `null`.
    Null,
    /// A boolean.
    Bool(bool),
    /// An integer that fits in an `i64`.
    Int(i64),
    /// A string.
    Str(String),
    /// A two-element array: a string or `null`, then a string.
    Pair(Option<String>, String),
    /// Any other value (a float, a larger integer, an object, a longer array).
    Other,
}

/// A JSON value that is no object, or a member of an object.
#[derive(Debug, PartialEq)]
pub enum JsonMember {
    /// `null`.
    Null,
    /// A boolean.
    Bool(bool),
    /// An integer that fits in an `i64`.
    Int(i64),
    /// A string.
    Str(String),
    /// An array.
    Array(Vec<JsonItem>),
    /// Any other value (a float, a larger integer, an object).
    Other,
}

/// The JSON details of a problem: an object, with its members in order, or another
/// value.
#[derive(Debug, PartialEq)]
pub enum JsonValue {
    /// An object.
    Object(Vec<(String, JsonMember)>),
    /// Any value that is no object.
    Member(JsonMember),
}

/// The content of a [`JsonItem`].
pub enum ItemView {
    Null,
    Bool(bool),
    Int(i64),
    Str(Seq<char>),
    Pair(Option<Seq<char>>, Seq<char>),
    Other,
}

/// The content of a [`JsonMember`].
pub enum MemberView {
    Null,
    Bool(bool),
    Int(i64),
    Str(Seq<char>),
    Array(Seq<ItemView>),
    Other,
}

/// The content of a [`JsonValue`].
pub enum JsonView {
    Object(Seq<(Seq<char>, MemberView)>),
    Member(MemberView),
}

impl View for JsonItem {
    type V = ItemView;

    open spec fn view(&self) -> ItemView {
        match self {
            JsonItem::Null => ItemView::Null,
            JsonItem::Bool(b) => ItemView::Bool(*b),
            JsonItem::Int(n) => ItemView::Int(*n),
            JsonItem::Str(s) => ItemView::Str(s@),
            JsonItem::Pair(k, s) => ItemView::Pair(crate::problem::opt_view(*k), s@),
            JsonItem::Other => ItemView::Other,
        }
    }
}

/// The content of a list of array elements.
pub open spec fn items_view(items: Seq<JsonItem>) -> Seq<ItemView> {
    items.map_values(|i: JsonItem| i@)
}

impl View for JsonMember {
    type V = MemberView;

    open spec fn view(&self) -> MemberView {
        match self {
            JsonMember::Null => MemberView::Null,
            JsonMember::Bool(b) => MemberView::Bool(*b),
            JsonMember::Int(n) => MemberView::Int(*n),
            JsonMember::Str(s) => MemberView::Str(s@),
            JsonMember::Array(items) => MemberView::Array(items_view(items@)),
            JsonMember::Other => MemberView::Other,
        }
    }
}

/// The content of the members of an object.
pub open spec fn entries_view(entries: Seq<(String, JsonMember)>) -> Seq<(Seq<char>, MemberView)> {
    entries.map_values(|e: (String, JsonMember)| (e.0@, e.1@))
}

impl View for JsonValue {
    type V = JsonView;

    open spec fn view(&self) -> JsonView {
        match self {
            JsonValue::Object(entries) => JsonView::Object(entries_view(entries@)),
            JsonValue::Member(m) => JsonView::Member(m@),
        }
    }
}

/// The value of the first member of `entries` named `key`.
pub open spec fn member_of(entries: Seq<(Seq<char>, MemberView)>, key: Seq<char>) -> Option<MemberView>
    decreases entries.len(),
{
    if entries.len() == 0 {
        None
    } else if entries[0].0 == key {
        Some(entries[0].1)
    } else {
        member_of(entries.drop_first(), key)
    }
}

/// The member named `key` of `v`, when `v` is an object that has one.
pub open spec fn get_spec(v: JsonView, key: Seq<char>) -> Option<MemberView> {
    match v {
        JsonView::Object(entries) => member_of(entries, key),
        JsonView::Member(_) => None,
    }
}

/// The text of a member that is a string.
pub open spec fn as_str_spec(m: Option<MemberView>) -> Option<Seq<char>> {
    match m {
        Some(MemberView::Str(s)) => Some(s),
        _ => None,
    }
}

/// The value of a member that is an integer that fits in an `i64`.
pub open spec fn as_int_spec(m: Option<MemberView>) -> Option<i64> {
    match m {
        Some(MemberView::Int(n)) => Some(n),
        _ => None,
    }
}

/// The value of a member that is a boolean.
pub open spec fn as_bool_spec(m: Option<MemberView>) -> Option<bool> {
    match m {
        Some(MemberView::Bool(b)) => Some(b),
        _ => None,
    }
}

/// The strings among array elements, in order.
pub open spec fn strings_of(items: Seq<ItemView>) -> Seq<Seq<char>>
    decreases items.len(),
{
    if items.len() == 0 {
        Seq::empty()
    } else {
        match items[0] {
            ItemView::Str(s) => seq![s] + strings_of(items.drop_first()),
            _ => strings_of(items.drop_first()),
        }
    }
}

/// The strings of a member that is an array; `None` for any other member.
pub open spec fn as_strings_spec(m: Option<MemberView>) -> Option<Seq<Seq<char>>> {
    match m {
        Some(MemberView::Array(items)) => Some(strings_of(items)),
        _ => None,
    }
}

/// A string member.
pub open spec fn opt_str_member(s: Option<Seq<char>>) -> MemberView {
    match s {
        Some(t) => MemberView::Str(t),
        None => MemberView::Null,
    }
}

/// Array elements that are the given strings.
pub open spec fn str_items(v: Seq<Seq<char>>) -> Seq<ItemView> {
    v.map_values(|s: Seq<char>| ItemView::Str(s))
}

/// Array elements that are the given pairs.
pub open spec fn pair_items(v: Seq<(Option<Seq<char>>, Seq<char>)>) -> Seq<ItemView> {
    v.map_values(|p: (Option<Seq<char>>, Seq<char>)| ItemView::Pair(p.0, p.1))
}

/// An array member of the given strings, or `null`.
pub open spec fn opt_strs_member(v: Option<Seq<Seq<char>>>) -> MemberView {
    match v {
        Some(t) => MemberView::Array(str_items(t)),
        None => MemberView::Null,
    }
}

/// An integer member, or `null`.
pub open spec fn opt_int_member(n: Option<i32>) -> MemberView {
    match n {
        Some(x) => MemberView::Int(x as i64),
        None => MemberView::Null,
    }
}

/// The JSON details of a problem: an object with a member for each of its fields, a
/// field that is absent being `null`; a problem known only by its kind has none.
pub open spec fn json_spec(p: ProblemView) -> JsonView {
    match p {
        ProblemView::NoSpaceOnDevice => JsonView::Object(Seq::empty()),
        ProblemView::AptFetchFailure { url, error } => JsonView::Object(
            seq![
                ("url"@, opt_str_member(url)),
                ("error"@, MemberView::Str(error)),
            ],
        ),
        ProblemView::AptBrokenPackages { description, broken } => JsonView::Object(
            seq![
                ("description"@, MemberView::Str(description)),
                ("broken"@, opt_strs_member(broken)),
            ],
        ),
        ProblemView::AptMissingReleaseFile(a0) => JsonView::Object(seq![("reason"@, MemberView::Str(a0))]),
        ProblemView::AptPackageUnknown(a0) => JsonView::Object(seq![("package"@, MemberView::Str(a0))]),
        ProblemView::DpkgError(a0) => JsonView::Object(seq![("reason"@, MemberView::Str(a0))]),
        ProblemView::UnsatisfiedAptDependencies(a0) => JsonView::Object(seq![("relations"@, MemberView::Str(a0))]),
        ProblemView::UnsatisfiedAptConflicts(a0) => JsonView::Object(seq![("relations"@, MemberView::Str(a0))]),
        ProblemView::AutopkgtestDepChrootDisappeared => JsonView::Object(Seq::empty()),
        ProblemView::AutopkgtestTestbedFailure(a0) => JsonView::Object(seq![("reason"@, MemberView::Str(a0))]),
        ProblemView::AutopkgtestErroneousPackage(a0) => JsonView::Object(seq![("reason"@, MemberView::Str(a0))]),
        ProblemView::AutopkgtestTimedOut => JsonView::Object(Seq::empty()),
        ProblemView::XDGRunTimeNotSet => JsonView::Object(Seq::empty()),
        ProblemView::AutopkgtestStderrFailure(a0) => JsonView::Object(seq![("reason"@, MemberView::Str(a0))]),
        ProblemView::AutopkgtestDepsUnsatisfiable(a0) => JsonView::Object(seq![("reason"@, MemberView::Array(pair_items(a0)))]),
        ProblemView::ChrootNotFound { chroot } => JsonView::Object(
            seq![
                ("chroot"@, MemberView::Str(chroot)),
            ],
        ),
        ProblemView::AutopkgtestTestbedSetupFailure { command, exit_status, error } => JsonView::Object(
            seq![
                ("command"@, MemberView::Str(command)),
                ("exit_status"@, MemberView::Int(exit_status as i64)),
                ("error"@, MemberView::Str(error)),
            ],
        ),
        ProblemView::MissingFile { path } => JsonView::Object(
            seq![
                ("path"@, MemberView::Str(path)),
            ],
        ),
        ProblemView::MissingBuildFile { filename } => JsonView::Object(
            seq![
                ("filename"@, MemberView::Str(filename)),
            ],
        ),
        ProblemView::MissingCommandOrBuildFile { filename } => JsonView::Object(
            seq![
                ("filename"@, MemberView::Str(filename)),
            ],
        ),
        ProblemView::VcsControlDirectoryNeeded { vcs } => JsonView::Object(
            seq![
                ("vcs"@, MemberView::Array(str_items(vcs))),
            ],
        ),
        ProblemView::MissingCommand(a0) => JsonView::Object(seq![("command"@, MemberView::Str(a0))]),
        ProblemView::MissingPkgConfig { module, minimum_version } => JsonView::Object(
            seq![
                ("module"@, MemberView::Str(module)),
                ("minimum_version"@, opt_str_member(minimum_version)),
            ],
        ),
        ProblemView::MissingConfigure => JsonView::Object(Seq::empty()),
        ProblemView::MissingNodeModule(a0) => JsonView::Object(seq![("module"@, MemberView::Str(a0))]),
        ProblemView::MissingVagueDependency { name, url, minimum_version, current_version } => JsonView::Object(
            seq![
                ("name"@, MemberView::Str(name)),
                ("url"@, opt_str_member(url)),
                ("minimum_version"@, opt_str_member(minimum_version)),
                ("current_version"@, opt_str_member(current_version)),
            ],
        ),
        ProblemView::MissingHaskellDependencies(a0) => JsonView::Object(seq![("deps"@, MemberView::Array(str_items(a0)))]),
        ProblemView::MissingSetupPyCommand(a0) => JsonView::Object(seq![("command"@, MemberView::Str(a0))]),
        ProblemView::MissingPerlModule { module, filename, inc, minimum_version } => JsonView::Object(
            seq![
                ("module"@, MemberView::Str(module)),
                ("filename"@, opt_str_member(filename)),
                ("inc"@, opt_strs_member(inc)),
                ("minimum_version"@, opt_str_member(minimum_version)),
            ],
        ),
        ProblemView::MissingRPackage { package, minimum_version } => JsonView::Object(
            seq![
                ("package"@, MemberView::Str(package)),
                ("minimum_version"@, opt_str_member(minimum_version)),
            ],
        ),
        ProblemView::MissingAutoconfMacro { macro_name, need_rebuild } => JsonView::Object(
            seq![
                ("macro"@, MemberView::Str(macro_name)),
                ("need_rebuild"@, MemberView::Bool(need_rebuild)),
            ],
        ),
        ProblemView::MissingMavenArtifacts(a0) => JsonView::Object(seq![("artifacts"@, MemberView::Array(str_items(a0)))]),
        ProblemView::MissingRubyGem { gem, version } => JsonView::Object(
            seq![
                ("gem"@, MemberView::Str(gem)),
                ("version"@, opt_str_member(version)),
            ],
        ),
        ProblemView::MissingPythonModule { module, python_version, minimum_version } => JsonView::Object(
            seq![
                ("module"@, MemberView::Str(module)),
                ("python_version"@, opt_int_member(python_version)),
                ("minimum_version"@, opt_str_member(minimum_version)),
            ],
        ),
        ProblemView::MissingPythonDistribution { distribution, python_version, minimum_version } => JsonView::Object(
            seq![
                ("distribution"@, MemberView::Str(distribution)),
                ("python_version"@, opt_int_member(python_version)),
                ("minimum_version"@, opt_str_member(minimum_version)),
            ],
        ),
        ProblemView::MissingCHeader { header } => JsonView::Object(
            seq![
                ("header"@, MemberView::Str(header)),
            ],
        ),
        ProblemView::MissingGoPackage { package } => JsonView::Object(
            seq![
                ("package"@, MemberView::Str(package)),
            ],
        ),
        ProblemView::MissingNodePackage(a0) => JsonView::Object(seq![("package"@, MemberView::Str(a0))]),
        ProblemView::MissingValaPackage(a0) => JsonView::Object(seq![("package"@, MemberView::Str(a0))]),
        ProblemView::MissingLibrary(a0) => JsonView::Object(seq![("library"@, MemberView::Str(a0))]),
        ProblemView::MissingHaskellModule { module } => JsonView::Object(
            seq![
                ("module"@, MemberView::Str(module)),
            ],
        ),
        ProblemView::MissingPerlPredeclared(a0) => JsonView::Object(seq![("name"@, MemberView::Str(a0))]),
        ProblemView::MissingPerlFile { filename, inc } => JsonView::Object(
            seq![
                ("filename"@, MemberView::Str(filename)),
                ("inc"@, opt_strs_member(inc)),
            ],
        ),
        ProblemView::MissingMakeTarget { target, required_by } => JsonView::Object(
            seq![
                ("target"@, MemberView::Str(target)),
                ("required_by"@, opt_str_member(required_by)),
            ],
        ),
        ProblemView::MissingCMakeComponents { name, components } => JsonView::Object(
            seq![
                ("name"@, MemberView::Str(name)),
                ("components"@, MemberView::Array(str_items(components))),
            ],
        ),
        ProblemView::MissingCMakeConfig { name, version } => JsonView::Object(
            seq![
                ("name"@, MemberView::Str(name)),
                ("version"@, opt_str_member(version)),
            ],
        ),
        ProblemView::DhAddonLoadFailure { name, path } => JsonView::Object(
            seq![
                ("name"@, MemberView::Str(name)),
                ("path"@, MemberView::Str(path)),
            ],
        ),
        ProblemView::DebhelperPatternNotFound { pattern, tool, directories } => JsonView::Object(
            seq![
                ("pattern"@, MemberView::Str(pattern)),
                ("tool"@, MemberView::Str(tool)),
                ("directories"@, MemberView::Array(str_items(directories))),
            ],
        ),
        ProblemView::MissingLatexFile(a0) => JsonView::Object(seq![("filename"@, MemberView::Str(a0))]),
        ProblemView::MissingJavaClass { classname } => JsonView::Object(
            seq![
                ("classname"@, MemberView::Str(classname)),
            ],
        ),
        ProblemView::MissingJDKFile { jdk_path, filename } => JsonView::Object(
            seq![
                ("jdk_path"@, MemberView::Str(jdk_path)),
                ("filename"@, MemberView::Str(filename)),
            ],
        ),
        ProblemView::MissingJDK { jdk_path } => JsonView::Object(
            seq![
                ("jdk_path"@, MemberView::Str(jdk_path)),
            ],
        ),
        ProblemView::MissingOCamlPackage(a0) => JsonView::Object(seq![("package"@, MemberView::Str(a0))]),
        ProblemView::MissingXmlEntity { url } => JsonView::Object(
            seq![
                ("url"@, MemberView::Str(url)),
            ],
        ),
        ProblemView::MissingSprocketsFile { name, content_type } => JsonView::Object(
            seq![
                ("name"@, MemberView::Str(name)),
                ("content_type"@, MemberView::Str(content_type)),
            ],
        ),
        ProblemView::MissingPhpClass { php_class } => JsonView::Object(
            seq![
                ("php_class"@, MemberView::Str(php_class)),
            ],
        ),
        ProblemView::MissingPHPExtension(a0) => JsonView::Object(seq![("extension"@, MemberView::Str(a0))]),
        ProblemView::MissingIntrospectionTypelib(a0) => JsonView::Object(seq![("library"@, MemberView::Str(a0))]),
        ProblemView::MissingRubyFile { filename } => JsonView::Object(
            seq![
                ("filename"@, MemberView::Str(filename)),
            ],
        ),
        ProblemView::UnknownCertificateAuthority(a0) => JsonView::Object(seq![("url"@, MemberView::Str(a0))]),
        ProblemView::DirectoryNonExistant(a0) => JsonView::Object(seq![("path"@, MemberView::Str(a0))]),
        ProblemView::NotExecutableFile(a0) => JsonView::Object(seq![("path"@, MemberView::Str(a0))]),
        ProblemView::MissingConfigStatusInput { path } => JsonView::Object(
            seq![
                ("path"@, MemberView::Str(path)),
            ],
        ),
        ProblemView::MissingAutomakeInput { path } => JsonView::Object(
            seq![
                ("path"@, MemberView::Str(path)),
            ],
        ),
        ProblemView::MismatchGettextVersions { makefile_version, autoconf_version } => JsonView::Object(
            seq![
                ("makefile_version"@, MemberView::Str(makefile_version)),
                ("autoconf_version"@, MemberView::Str(autoconf_version)),
            ],
        ),
        ProblemView::DuplicateDHCompatLevel { command } => JsonView::Object(
            seq![
                ("command"@, MemberView::Str(command)),
            ],
        ),
        ProblemView::MissingDHCompatLevel { command } => JsonView::Object(
            seq![
                ("command"@, MemberView::Str(command)),
            ],
        ),
        ProblemView::DhLinkDestinationIsDirectory(a0) => JsonView::Object(seq![("path"@, MemberView::Str(a0))]),
        ProblemView::DhMissingUninstalled(a0) => JsonView::Object(seq![("path"@, MemberView::Str(a0))]),
        ProblemView::UnsupportedPytestConfigOption(a0) => JsonView::Object(seq![("name"@, MemberView::Str(a0))]),
        ProblemView::NeedPgBuildExtUpdateControl { generated_path, template_path } => JsonView::Object(
            seq![
                ("generated_path"@, MemberView::Str(generated_path)),
                ("template_path"@, MemberView::Str(template_path)),
            ],
        ),
        ProblemView::CcacheError(a0) => JsonView::Object(seq![("error"@, MemberView::Str(a0))]),
        ProblemView::UnsupportedDebhelperCompatLevel { oldest_supported, requested } => JsonView::Object(
            seq![
                ("oldest_supported"@, MemberView::Int(oldest_supported as i64)),
                ("requested"@, MemberView::Int(requested as i64)),
            ],
        ),
        ProblemView::MissingPostgresExtension(a0) => JsonView::Object(seq![("extension"@, MemberView::Str(a0))]),
        ProblemView::MissingFontspec(a0) => JsonView::Object(seq![("font"@, MemberView::Str(a0))]),
        ProblemView::InvalidCurrentUser(a0) => JsonView::Object(seq![("user"@, MemberView::Str(a0))]),
        ProblemView::MissingGnulibDirectory(a0) => JsonView::Object(seq![("directory"@, MemberView::Str(a0))]),
        ProblemView::MissingLuaModule(a0) => JsonView::Object(seq![("module"@, MemberView::Str(a0))]),
        ProblemView::MinimumAutoconfTooOld(a0) => JsonView::Object(seq![("minimum_version"@, MemberView::Str(a0))]),
        ProblemView::MissingPerlDistributionFile(a0) => JsonView::Object(seq![("filename"@, MemberView::Str(a0))]),
        ProblemView::ESModuleMustUseImport(a0) => JsonView::Object(seq![("path"@, MemberView::Str(a0))]),
        ProblemView::MissingDebianBuildDep(a0) => JsonView::Object(seq![("dep"@, MemberView::Str(a0))]),
        ProblemView::MissingQtModules(a0) => JsonView::Object(seq![("modules"@, MemberView::Array(str_items(a0)))]),
        ProblemView::MissingGoSumEntry { package, version } => JsonView::Object(
            seq![
                ("package"@, MemberView::Str(package)),
                ("version"@, MemberView::Str(version)),
            ],
        ),
        ProblemView::MissingStaticLibrary { library, filename } => JsonView::Object(
            seq![
                ("library"@, MemberView::Str(library)),
                ("filename"@, MemberView::Str(filename)),
            ],
        ),
        ProblemView::MissingXfceDependency { package } => JsonView::Object(
            seq![
                ("package"@, MemberView::Str(package)),
            ],
        ),
        ProblemView::ImageMagickDelegateMissing { delegate } => JsonView::Object(
            seq![
                ("delegate"@, MemberView::Str(delegate)),
            ],
        ),
        ProblemView::PatchApplicationFailed { patchname } => JsonView::Object(
            seq![
                ("patchname"@, MemberView::Str(patchname)),
            ],
        ),
        ProblemView::DebianVersionRejected { version } => JsonView::Object(
            seq![
                ("version"@, MemberView::Str(version)),
            ],
        ),
        ProblemView::MissingGnomeCommonDependency { package, minimum_version } => JsonView::Object(
            seq![
                ("package"@, MemberView::Str(package)),
                ("minimum_version"@, opt_str_member(minimum_version)),
            ],
        ),
        ProblemView::MissingCargoCrate { crate_name, requirement } => JsonView::Object(
            seq![
                ("crate_name"@, MemberView::Str(crate_name)),
                ("requirement"@, opt_str_member(requirement)),
            ],
        ),
        ProblemView::UpstartFilePresent(a0) => JsonView::Object(seq![("filename"@, MemberView::Str(a0))]),
        ProblemView::MissingPytestFixture(a0) => JsonView::Object(seq![("fixture"@, MemberView::Str(a0))]),
        ProblemView::UnsupportedPytestArguments(a0) => JsonView::Object(seq![("args"@, MemberView::Array(str_items(a0)))]),
        ProblemView::CMakeNeedExactVersion { package, version_found, exact_version_needed, path } => JsonView::Object(
            seq![
                ("package"@, MemberView::Str(package)),
                ("version_found"@, MemberView::Str(version_found)),
                ("exact_version_needed"@, MemberView::Str(exact_version_needed)),
                ("path"@, MemberView::Str(path)),
            ],
        ),
        ProblemView::CMakeFilesMissing { filenames, version } => JsonView::Object(
            seq![
                ("filenames"@, MemberView::Array(str_items(filenames))),
                ("version"@, opt_str_member(version)),
            ],
        ),
        ProblemView::UnableToFindUpstreamTarball { package, version } => JsonView::Object(
            seq![
                ("package"@, MemberView::Str(package)),
                ("version"@, MemberView::Str(version)),
            ],
        ),
        ProblemView::UnknownMercurialExtraFields(a0) => JsonView::Object(seq![("reason"@, MemberView::Str(a0))]),
        ProblemView::UScanTooManyRequests(a0) => JsonView::Object(seq![("reason"@, MemberView::Str(a0))]),
        ProblemView::UpstreamPGPSignatureVerificationFailed => JsonView::Object(Seq::empty()),
        ProblemView::InconsistentSourceFormat { version, source_format } => JsonView::Object(
            seq![
                ("version"@, MemberView::Bool(version)),
                ("source_format"@, MemberView::Bool(source_format)),
            ],
        ),
        ProblemView::UScanRequestVersionMissing(a0) => JsonView::Object(seq![("reason"@, MemberView::Str(a0))]),
        ProblemView::UScanFailed { url, reason } => JsonView::Object(
            seq![
                ("url"@, MemberView::Str(url)),
                ("reason"@, MemberView::Str(reason)),
            ],
        ),
        ProblemView::UScanRemoteVersionMismatch { package, remote_version, wanted_version } => JsonView::Object(
            seq![
                ("package"@, MemberView::Str(package)),
                ("remote_version"@, MemberView::Str(remote_version)),
                ("wanted_version"@, MemberView::Str(wanted_version)),
            ],
        ),
        ProblemView::UScanWatchfileMalformed { paragraph } => JsonView::Object(
            seq![
                ("paragraph"@, MemberView::Str(paragraph)),
            ],
        ),
        ProblemView::UScanError(a0) => JsonView::Object(seq![("reason"@, MemberView::Str(a0))]),
        ProblemView::UpstreamMetadataFileParseError { path, reason } => JsonView::Object(
            seq![
                ("path"@, MemberView::Str(path)),
                ("reason"@, MemberView::Str(reason)),
            ],
        ),
        ProblemView::NestedTreeUnresolvable { name } => JsonView::Object(
            seq![
                ("name"@, MemberView::Str(name)),
            ],
        ),
        ProblemView::SubmoduleEncountered { path, sha } => JsonView::Object(
            seq![
                ("path"@, MemberView::Str(path)),
                ("sha"@, MemberView::Str(sha)),
            ],
        ),
        ProblemView::BrzInternalError { exception_type, exception_message } => JsonView::Object(
            seq![
                ("exception_type"@, MemberView::Str(exception_type)),
                ("exception_message"@, MemberView::Str(exception_message)),
            ],
        ),
        ProblemView::MissingDebcargoCrate { cratename, version } => JsonView::Object(
            seq![
                ("cratename"@, MemberView::Str(cratename)),
                ("version"@, opt_str_member(version)),
            ],
        ),
        ProblemView::DpkgSourcePackFailed(a0) => JsonView::Object(seq![("reason"@, MemberView::Str(a0))]),
        ProblemView::DebcargoUnacceptablePredicate { cratename, predicate } => JsonView::Object(
            seq![
                ("cratename"@, MemberView::Str(cratename)),
                ("predicate"@, MemberView::Str(predicate)),
            ],
        ),
        ProblemView::DebcargoUnacceptableComparator { cratename, comparator } => JsonView::Object(
            seq![
                ("cratename"@, MemberView::Str(cratename)),
                ("comparator"@, MemberView::Str(comparator)),
            ],
        ),
        ProblemView::DebcargoFailure(a0) => JsonView::Object(seq![("reason"@, MemberView::Str(a0))]),
        ProblemView::ChangelogParseError(a0) => JsonView::Object(seq![("reason"@, MemberView::Str(a0))]),
        ProblemView::Other { .. } => JsonView::Object(Seq::empty()),
    }
}

/// The JSON member for an optional text.
fn opt_str_json(s: &Option<String>) -> (r: JsonMember)
    ensures
        r@ == opt_str_member(crate::problem::opt_view(*s)),
{
    match s {
        Some(t) => JsonMember::Str(t.clone()),
        None => JsonMember::Null,
    }
}

/// The JSON array of a list of texts.
fn strs_json(v: &Vec<String>) -> (r: JsonMember)
    ensures
        r@ == MemberView::Array(str_items(crate::problem::vec_view(*v))),
{
    let mut items: Vec<JsonItem> = Vec::new();
    let mut i: usize = 0;
    while i < v.len()
        invariant
            i <= v@.len(),
            items_view(items@) == str_items(crate::problem::vec_view(*v)).take(i as int),
        decreases v.len() - i,
    {
        let ghost before = items_view(items@);
        items.push(JsonItem::Str(v[i].clone()));
        assert(items_view(items@) =~= before.push(ItemView::Str(v@[i as int]@)));
        assert(str_items(crate::problem::vec_view(*v)).take(i + 1) =~= str_items(
            crate::problem::vec_view(*v),
        ).take(i as int).push(ItemView::Str(v@[i as int]@)));
        i = i + 1;
    }
    assert(str_items(crate::problem::vec_view(*v)).take(i as int) =~= str_items(crate::problem::vec_view(*v)));
    JsonMember::Array(items)
}

/// The JSON array of an optional list of texts, or `null`.
fn opt_strs_json(v: &Option<Vec<String>>) -> (r: JsonMember)
    ensures
        r@ == opt_strs_member(crate::problem::opt_vec_view(*v)),
{
    match v {
        Some(t) => strs_json(t),
        None => JsonMember::Null,
    }
}

/// The JSON member for an optional integer.
fn opt_int_json(n: Option<i32>) -> (r: JsonMember)
    ensures
        r@ == opt_int_member(n),
{
    match n {
        Some(x) => JsonMember::Int(x as i64),
        None => JsonMember::Null,
    }
}

/// The JSON array of a list of optionally-kinded entries.
fn pairs_json(v: &Vec<(Option<String>, String)>) -> (r: JsonMember)
    ensures
        r@ == MemberView::Array(pair_items(crate::problem::pairs_view(*v))),
{
    let mut items: Vec<JsonItem> = Vec::new();
    let mut i: usize = 0;
    while i < v.len()
        invariant
            i <= v@.len(),
            items_view(items@) == pair_items(crate::problem::pairs_view(*v)).take(i as int),
        decreases v.len() - i,
    {
        let ghost before = items_view(items@);
        let k = match &v[i].0 {
            Some(t) => Some(t.clone()),
            None => None,
        };
        items.push(JsonItem::Pair(k, v[i].1.clone()));
        assert(items_view(items@) =~= before.push(
            ItemView::Pair(crate::problem::opt_view(v@[i as int].0), v@[i as int].1@),
        ));
        assert(pair_items(crate::problem::pairs_view(*v)).take(i + 1) =~= pair_items(
            crate::problem::pairs_view(*v),
        ).take(i as int).push(ItemView::Pair(crate::problem::opt_view(v@[i as int].0), v@[i as int].1@)));
        i = i + 1;
    }
    assert(pair_items(crate::problem::pairs_view(*v)).take(i as int) =~= pair_items(crate::problem::pairs_view(*v)));
    JsonMember::Array(items)
}

impl Problem {
    /// The JSON details of the problem: an object with a member for each of its
    /// fields, a field that is absent being `null`.
    pub fn json(&self) -> (r: JsonValue)
        ensures
            r@ == json_spec(self@),
    {
        let mut e: Vec<(String, JsonMember)> = Vec::new();
        match self {
            Problem::NoSpaceOnDevice => {},
            Problem::AptFetchFailure { url, error } => {
                e.push(("url".to_string(), opt_str_json(url)));
                e.push(("error".to_string(), JsonMember::Str(error.clone())));
            },
            Problem::AptBrokenPackages { description, broken } => {
                e.push(("description".to_string(), JsonMember::Str(description.clone())));
                e.push(("broken".to_string(), opt_strs_json(broken)));
            },
            Problem::AptMissingReleaseFile(a0) => {
                e.push(("reason".to_string(), JsonMember::Str(a0.clone())));
            },
            Problem::AptPackageUnknown(a0) => {
                e.push(("package".to_string(), JsonMember::Str(a0.clone())));
            },
            Problem::DpkgError(a0) => {
                e.push(("reason".to_string(), JsonMember::Str(a0.clone())));
            },
            Problem::UnsatisfiedAptDependencies(a0) => {
                e.push(("relations".to_string(), JsonMember::Str(a0.clone())));
            },
            Problem::UnsatisfiedAptConflicts(a0) => {
                e.push(("relations".to_string(), JsonMember::Str(a0.clone())));
            },
            Problem::AutopkgtestDepChrootDisappeared => {},
            Problem::AutopkgtestTestbedFailure(a0) => {
                e.push(("reason".to_string(), JsonMember::Str(a0.clone())));
            },
            Problem::AutopkgtestErroneousPackage(a0) => {
                e.push(("reason".to_string(), JsonMember::Str(a0.clone())));
            },
            Problem::AutopkgtestTimedOut => {},
            Problem::XDGRunTimeNotSet => {},
            Problem::AutopkgtestStderrFailure(a0) => {
                e.push(("reason".to_string(), JsonMember::Str(a0.clone())));
            },
            Problem::AutopkgtestDepsUnsatisfiable(a0) => {
                e.push(("reason".to_string(), pairs_json(a0)));
            },
            Problem::ChrootNotFound { chroot } => {
                e.push(("chroot".to_string(), JsonMember::Str(chroot.clone())));
            },
            Problem::AutopkgtestTestbedSetupFailure { command, exit_status, error } => {
                e.push(("command".to_string(), JsonMember::Str(command.clone())));
                e.push(("exit_status".to_string(), JsonMember::Int(*exit_status as i64)));
                e.push(("error".to_string(), JsonMember::Str(error.clone())));
            },
            Problem::MissingFile { path } => {
                e.push(("path".to_string(), JsonMember::Str(path.clone())));
            },
            Problem::MissingBuildFile { filename } => {
                e.push(("filename".to_string(), JsonMember::Str(filename.clone())));
            },
            Problem::MissingCommandOrBuildFile { filename } => {
                e.push(("filename".to_string(), JsonMember::Str(filename.clone())));
            },
            Problem::VcsControlDirectoryNeeded { vcs } => {
                e.push(("vcs".to_string(), strs_json(vcs)));
            },
            Problem::MissingCommand(a0) => {
                e.push(("command".to_string(), JsonMember::Str(a0.clone())));
            },
            Problem::MissingPkgConfig { module, minimum_version } => {
                e.push(("module".to_string(), JsonMember::Str(module.clone())));
                e.push(("minimum_version".to_string(), opt_str_json(minimum_version)));
            },
            Problem::MissingConfigure => {},
            Problem::MissingNodeModule(a0) => {
                e.push(("module".to_string(), JsonMember::Str(a0.clone())));
            },
            Problem::MissingVagueDependency { name, url, minimum_version, current_version } => {
                e.push(("name".to_string(), JsonMember::Str(name.clone())));
                e.push(("url".to_string(), opt_str_json(url)));
                e.push(("minimum_version".to_string(), opt_str_json(minimum_version)));
                e.push(("current_version".to_string(), opt_str_json(current_version)));
            },
            Problem::MissingHaskellDependencies(a0) => {
                e.push(("deps".to_string(), strs_json(a0)));
            },
            Problem::MissingSetupPyCommand(a0) => {
                e.push(("command".to_string(), JsonMember::Str(a0.clone())));
            },
            Problem::MissingPerlModule { module, filename, inc, minimum_version } => {
                e.push(("module".to_string(), JsonMember::Str(module.clone())));
                e.push(("filename".to_string(), opt_str_json(filename)));
                e.push(("inc".to_string(), opt_strs_json(inc)));
                e.push(("minimum_version".to_string(), opt_str_json(minimum_version)));
            },
            Problem::MissingRPackage { package, minimum_version } => {
                e.push(("package".to_string(), JsonMember::Str(package.clone())));
                e.push(("minimum_version".to_string(), opt_str_json(minimum_version)));
            },
            Problem::MissingAutoconfMacro { macro_name, need_rebuild } => {
                e.push(("macro".to_string(), JsonMember::Str(macro_name.clone())));
                e.push(("need_rebuild".to_string(), JsonMember::Bool(*need_rebuild)));
            },
            Problem::MissingMavenArtifacts(a0) => {
                e.push(("artifacts".to_string(), strs_json(a0)));
            },
            Problem::MissingRubyGem { gem, version } => {
                e.push(("gem".to_string(), JsonMember::Str(gem.clone())));
                e.push(("version".to_string(), opt_str_json(version)));
            },
            Problem::MissingPythonModule { module, python_version, minimum_version } => {
                e.push(("module".to_string(), JsonMember::Str(module.clone())));
                e.push(("python_version".to_string(), opt_int_json(*python_version)));
                e.push(("minimum_version".to_string(), opt_str_json(minimum_version)));
            },
            Problem::MissingPythonDistribution { distribution, python_version, minimum_version } => {
                e.push(("distribution".to_string(), JsonMember::Str(distribution.clone())));
                e.push(("python_version".to_string(), opt_int_json(*python_version)));
                e.push(("minimum_version".to_string(), opt_str_json(minimum_version)));
            },
            Problem::MissingCHeader { header } => {
                e.push(("header".to_string(), JsonMember::Str(header.clone())));
            },
            Problem::MissingGoPackage { package } => {
                e.push(("package".to_string(), JsonMember::Str(package.clone())));
            },
            Problem::MissingNodePackage(a0) => {
                e.push(("package".to_string(), JsonMember::Str(a0.clone())));
            },
            Problem::MissingValaPackage(a0) => {
                e.push(("package".to_string(), JsonMember::Str(a0.clone())));
            },
            Problem::MissingLibrary(a0) => {
                e.push(("library".to_string(), JsonMember::Str(a0.clone())));
            },
            Problem::MissingHaskellModule { module } => {
                e.push(("module".to_string(), JsonMember::Str(module.clone())));
            },
            Problem::MissingPerlPredeclared(a0) => {
                e.push(("name".to_string(), JsonMember::Str(a0.clone())));
            },
            Problem::MissingPerlFile { filename, inc } => {
                e.push(("filename".to_string(), JsonMember::Str(filename.clone())));
                e.push(("inc".to_string(), opt_strs_json(inc)));
            },
            Problem::MissingMakeTarget { target, required_by } => {
                e.push(("target".to_string(), JsonMember::Str(target.clone())));
                e.push(("required_by".to_string(), opt_str_json(required_by)));
            },
            Problem::MissingCMakeComponents { name, components } => {
                e.push(("name".to_string(), JsonMember::Str(name.clone())));
                e.push(("components".to_string(), strs_json(components)));
            },
            Problem::MissingCMakeConfig { name, version } => {
                e.push(("name".to_string(), JsonMember::Str(name.clone())));
                e.push(("version".to_string(), opt_str_json(version)));
            },
            Problem::DhAddonLoadFailure { name, path } => {
                e.push(("name".to_string(), JsonMember::Str(name.clone())));
                e.push(("path".to_string(), JsonMember::Str(path.clone())));
            },
            Problem::DebhelperPatternNotFound { pattern, tool, directories } => {
                e.push(("pattern".to_string(), JsonMember::Str(pattern.clone())));
                e.push(("tool".to_string(), JsonMember::Str(tool.clone())));
                e.push(("directories".to_string(), strs_json(directories)));
            },
            Problem::MissingLatexFile(a0) => {
                e.push(("filename".to_string(), JsonMember::Str(a0.clone())));
            },
            Problem::MissingJavaClass { classname } => {
                e.push(("classname".to_string(), JsonMember::Str(classname.clone())));
            },
            Problem::MissingJDKFile { jdk_path, filename } => {
                e.push(("jdk_path".to_string(), JsonMember::Str(jdk_path.clone())));
                e.push(("filename".to_string(), JsonMember::Str(filename.clone())));
            },
            Problem::MissingJDK { jdk_path } => {
                e.push(("jdk_path".to_string(), JsonMember::Str(jdk_path.clone())));
            },
            Problem::MissingOCamlPackage(a0) => {
                e.push(("package".to_string(), JsonMember::Str(a0.clone())));
            },
            Problem::MissingXmlEntity { url } => {
                e.push(("url".to_string(), JsonMember::Str(url.clone())));
            },
            Problem::MissingSprocketsFile { name, content_type } => {
                e.push(("name".to_string(), JsonMember::Str(name.clone())));
                e.push(("content_type".to_string(), JsonMember::Str(content_type.clone())));
            },
            Problem::MissingPhpClass { php_class } => {
                e.push(("php_class".to_string(), JsonMember::Str(php_class.clone())));
            },
            Problem::MissingPHPExtension(a0) => {
                e.push(("extension".to_string(), JsonMember::Str(a0.clone())));
            },
            Problem::MissingIntrospectionTypelib(a0) => {
                e.push(("library".to_string(), JsonMember::Str(a0.clone())));
            },
            Problem::MissingRubyFile { filename } => {
                e.push(("filename".to_string(), JsonMember::Str(filename.clone())));
            },
            Problem::UnknownCertificateAuthority(a0) => {
                e.push(("url".to_string(), JsonMember::Str(a0.clone())));
            },
            Problem::DirectoryNonExistant(a0) => {
                e.push(("path".to_string(), JsonMember::Str(a0.clone())));
            },
            Problem::NotExecutableFile(a0) => {
                e.push(("path".to_string(), JsonMember::Str(a0.clone())));
            },
            Problem::MissingConfigStatusInput { path } => {
                e.push(("path".to_string(), JsonMember::Str(path.clone())));
            },
            Problem::MissingAutomakeInput { path } => {
                e.push(("path".to_string(), JsonMember::Str(path.clone())));
            },
            Problem::MismatchGettextVersions { makefile_version, autoconf_version } => {
                e.push(("makefile_version".to_string(), JsonMember::Str(makefile_version.clone())));
                e.push(("autoconf_version".to_string(), JsonMember::Str(autoconf_version.clone())));
            },
            Problem::DuplicateDHCompatLevel { command } => {
                e.push(("command".to_string(), JsonMember::Str(command.clone())));
            },
            Problem::MissingDHCompatLevel { command } => {
                e.push(("command".to_string(), JsonMember::Str(command.clone())));
            },
            Problem::DhLinkDestinationIsDirectory(a0) => {
                e.push(("path".to_string(), JsonMember::Str(a0.clone())));
            },
            Problem::DhMissingUninstalled(a0) => {
                e.push(("path".to_string(), JsonMember::Str(a0.clone())));
            },
            Problem::UnsupportedPytestConfigOption(a0) => {
                e.push(("name".to_string(), JsonMember::Str(a0.clone())));
            },
            Problem::NeedPgBuildExtUpdateControl { generated_path, template_path } => {
                e.push(("generated_path".to_string(), JsonMember::Str(generated_path.clone())));
                e.push(("template_path".to_string(), JsonMember::Str(template_path.clone())));
            },
            Problem::CcacheError(a0) => {
                e.push(("error".to_string(), JsonMember::Str(a0.clone())));
            },
            Problem::UnsupportedDebhelperCompatLevel { oldest_supported, requested } => {
                e.push(("oldest_supported".to_string(), JsonMember::Int(*oldest_supported as i64)));
                e.push(("requested".to_string(), JsonMember::Int(*requested as i64)));
            },
            Problem::MissingPostgresExtension(a0) => {
                e.push(("extension".to_string(), JsonMember::Str(a0.clone())));
            },
            Problem::MissingFontspec(a0) => {
                e.push(("font".to_string(), JsonMember::Str(a0.clone())));
            },
            Problem::InvalidCurrentUser(a0) => {
                e.push(("user".to_string(), JsonMember::Str(a0.clone())));
            },
            Problem::MissingGnulibDirectory(a0) => {
                e.push(("directory".to_string(), JsonMember::Str(a0.clone())));
            },
            Problem::MissingLuaModule(a0) => {
                e.push(("module".to_string(), JsonMember::Str(a0.clone())));
            },
            Problem::MinimumAutoconfTooOld(a0) => {
                e.push(("minimum_version".to_string(), JsonMember::Str(a0.clone())));
            },
            Problem::MissingPerlDistributionFile(a0) => {
                e.push(("filename".to_string(), JsonMember::Str(a0.clone())));
            },
            Problem::ESModuleMustUseImport(a0) => {
                e.push(("path".to_string(), JsonMember::Str(a0.clone())));
            },
            Problem::MissingDebianBuildDep(a0) => {
                e.push(("dep".to_string(), JsonMember::Str(a0.clone())));
            },
            Problem::MissingQtModules(a0) => {
                e.push(("modules".to_string(), strs_json(a0)));
            },
            Problem::MissingGoSumEntry { package, version } => {
                e.push(("package".to_string(), JsonMember::Str(package.clone())));
                e.push(("version".to_string(), JsonMember::Str(version.clone())));
            },
            Problem::MissingStaticLibrary { library, filename } => {
                e.push(("library".to_string(), JsonMember::Str(library.clone())));
                e.push(("filename".to_string(), JsonMember::Str(filename.clone())));
            },
            Problem::MissingXfceDependency { package } => {
                e.push(("package".to_string(), JsonMember::Str(package.clone())));
            },
            Problem::ImageMagickDelegateMissing { delegate } => {
                e.push(("delegate".to_string(), JsonMember::Str(delegate.clone())));
            },
            Problem::PatchApplicationFailed { patchname } => {
                e.push(("patchname".to_string(), JsonMember::Str(patchname.clone())));
            },
            Problem::DebianVersionRejected { version } => {
                e.push(("version".to_string(), JsonMember::Str(version.clone())));
            },
            Problem::MissingGnomeCommonDependency { package, minimum_version } => {
                e.push(("package".to_string(), JsonMember::Str(package.clone())));
                e.push(("minimum_version".to_string(), opt_str_json(minimum_version)));
            },
            Problem::MissingCargoCrate { crate_name, requirement } => {
                e.push(("crate_name".to_string(), JsonMember::Str(crate_name.clone())));
                e.push(("requirement".to_string(), opt_str_json(requirement)));
            },
            Problem::UpstartFilePresent(a0) => {
                e.push(("filename".to_string(), JsonMember::Str(a0.clone())));
            },
            Problem::MissingPytestFixture(a0) => {
                e.push(("fixture".to_string(), JsonMember::Str(a0.clone())));
            },
            Problem::UnsupportedPytestArguments(a0) => {
                e.push(("args".to_string(), strs_json(a0)));
            },
            Problem::CMakeNeedExactVersion { package, version_found, exact_version_needed, path } => {
                e.push(("package".to_string(), JsonMember::Str(package.clone())));
                e.push(("version_found".to_string(), JsonMember::Str(version_found.clone())));
                e.push(("exact_version_needed".to_string(), JsonMember::Str(exact_version_needed.clone())));
                e.push(("path".to_string(), JsonMember::Str(path.clone())));
            },
            Problem::CMakeFilesMissing { filenames, version } => {
                e.push(("filenames".to_string(), strs_json(filenames)));
                e.push(("version".to_string(), opt_str_json(version)));
            },
            Problem::UnableToFindUpstreamTarball { package, version } => {
                e.push(("package".to_string(), JsonMember::Str(package.clone())));
                e.push(("version".to_string(), JsonMember::Str(version.clone())));
            },
            Problem::UnknownMercurialExtraFields(a0) => {
                e.push(("reason".to_string(), JsonMember::Str(a0.clone())));
            },
            Problem::UScanTooManyRequests(a0) => {
                e.push(("reason".to_string(), JsonMember::Str(a0.clone())));
            },
            Problem::UpstreamPGPSignatureVerificationFailed => {},
            Problem::InconsistentSourceFormat { version, source_format } => {
                e.push(("version".to_string(), JsonMember::Bool(*version)));
                e.push(("source_format".to_string(), JsonMember::Bool(*source_format)));
            },
            Problem::UScanRequestVersionMissing(a0) => {
                e.push(("reason".to_string(), JsonMember::Str(a0.clone())));
            },
            Problem::UScanFailed { url, reason } => {
                e.push(("url".to_string(), JsonMember::Str(url.clone())));
                e.push(("reason".to_string(), JsonMember::Str(reason.clone())));
            },
            Problem::UScanRemoteVersionMismatch { package, remote_version, wanted_version } => {
                e.push(("package".to_string(), JsonMember::Str(package.clone())));
                e.push(("remote_version".to_string(), JsonMember::Str(remote_version.clone())));
                e.push(("wanted_version".to_string(), JsonMember::Str(wanted_version.clone())));
            },
            Problem::UScanWatchfileMalformed { paragraph } => {
                e.push(("paragraph".to_string(), JsonMember::Str(paragraph.clone())));
            },
            Problem::UScanError(a0) => {
                e.push(("reason".to_string(), JsonMember::Str(a0.clone())));
            },
            Problem::UpstreamMetadataFileParseError { path, reason } => {
                e.push(("path".to_string(), JsonMember::Str(path.clone())));
                e.push(("reason".to_string(), JsonMember::Str(reason.clone())));
            },
            Problem::NestedTreeUnresolvable { name } => {
                e.push(("name".to_string(), JsonMember::Str(name.clone())));
            },
            Problem::SubmoduleEncountered { path, sha } => {
                e.push(("path".to_string(), JsonMember::Str(path.clone())));
                e.push(("sha".to_string(), JsonMember::Str(sha.clone())));
            },
            Problem::BrzInternalError { exception_type, exception_message } => {
                e.push(("exception_type".to_string(), JsonMember::Str(exception_type.clone())));
                e.push(("exception_message".to_string(), JsonMember::Str(exception_message.clone())));
            },
            Problem::MissingDebcargoCrate { cratename, version } => {
                e.push(("cratename".to_string(), JsonMember::Str(cratename.clone())));
                e.push(("version".to_string(), opt_str_json(version)));
            },
            Problem::DpkgSourcePackFailed(a0) => {
                e.push(("reason".to_string(), JsonMember::Str(a0.clone())));
            },
            Problem::DebcargoUnacceptablePredicate { cratename, predicate } => {
                e.push(("cratename".to_string(), JsonMember::Str(cratename.clone())));
                e.push(("predicate".to_string(), JsonMember::Str(predicate.clone())));
            },
            Problem::DebcargoUnacceptableComparator { cratename, comparator } => {
                e.push(("cratename".to_string(), JsonMember::Str(cratename.clone())));
                e.push(("comparator".to_string(), JsonMember::Str(comparator.clone())));
            },
            Problem::DebcargoFailure(a0) => {
                e.push(("reason".to_string(), JsonMember::Str(a0.clone())));
            },
            Problem::ChangelogParseError(a0) => {
                e.push(("reason".to_string(), JsonMember::Str(a0.clone())));
            },
            Problem::Other { .. } => {},
        }
        assert(entries_view(e@) =~= match json_spec(self@) {
            JsonView::Object(x) => x,
            JsonView::Member(_) => Seq::empty(),
        });
        JsonValue::Object(e)
    }
}
/// The content of an optional member.
pub open spec fn opt_member_view(m: Option<&JsonMember>) -> Option<MemberView> {
    match m {
        Some(x) => Some(x@),
        None => None,
    }
}

/// The member named `key` of `v`, when `v` is an object that has one (the first such).
pub fn get<'a>(v: &'a JsonValue, key: &str) -> (r: Option<&'a JsonMember>)
    ensures
        opt_member_view(r) == get_spec(v@, key@),
{
    match v {
        JsonValue::Object(entries) => {
            let ghost ev = entries_view(entries@);
            assert(v@ == JsonView::Object(ev));
            let mut i: usize = 0;
            assert(ev.skip(0) =~= ev);
            while i < entries.len()
                invariant
                    ev == entries_view(entries@),
                    v@ == JsonView::Object(ev),
                    i <= entries@.len(),
                    member_of(ev, key@) == member_of(ev.skip(i as int), key@),
                decreases entries.len() - i,
            {
                assert(ev.skip(i as int)[0] == (entries@[i as int].0@, entries@[i as int].1@));
                assert(ev.skip(i as int).len() > 0);
                if str_eq(entries[i].0.as_str(), key) {
                    assert(member_of(ev.skip(i as int), key@) == Some(ev.skip(i as int)[0].1));
                    return Some(&entries[i].1);
                }
                assert(ev.skip(i as int).drop_first() =~= ev.skip(i + 1));
                i = i + 1;
            }
            assert(ev.skip(i as int).len() == 0);
            None
        },
        JsonValue::Member(_) => None,
    }
}

/// The text of a member that is a string.
pub fn str_of(m: Option<&JsonMember>) -> (r: Option<String>)
    ensures
        crate::problem::opt_view(r) == as_str_spec(opt_member_view(m)),
{
    match m {
        Some(JsonMember::Str(s)) => Some(s.clone()),
        _ => None,
    }
}

/// The value of a member that is an integer.
pub fn int_of(m: Option<&JsonMember>) -> (r: Option<i64>)
    ensures
        r == as_int_spec(opt_member_view(m)),
{
    match m {
        Some(JsonMember::Int(n)) => Some(*n),
        _ => None,
    }
}

/// The value of a member that is a boolean.
pub fn bool_of(m: Option<&JsonMember>) -> (r: Option<bool>)
    ensures
        r == as_bool_spec(opt_member_view(m)),
{
    match m {
        Some(JsonMember::Bool(b)) => Some(*b),
        _ => None,
    }
}

/// The strings among array elements, in order.
pub fn strings_in(items: &Vec<JsonItem>) -> (r: Vec<String>)
    ensures
        crate::problem::vec_view(r) == strings_of(items_view(items@)),
{
    let ghost iv = items_view(items@);
    let mut out: Vec<String> = Vec::new();
    let mut i: usize = 0;
    assert(iv.skip(0) =~= iv);
    assert(crate::problem::vec_view(out) + strings_of(iv) =~= strings_of(iv));
    while i < items.len()
        invariant
            iv == items_view(items@),
            i <= items@.len(),
            strings_of(iv) == crate::problem::vec_view(out) + strings_of(iv.skip(i as int)),
        decreases items.len() - i,
    {
        assert(iv.skip(i as int)[0] == items@[i as int]@);
        assert(iv.skip(i as int).drop_first() =~= iv.skip(i + 1));
        let ghost before = crate::problem::vec_view(out);
        match &items[i] {
            JsonItem::Str(s) => {
                out.push(s.clone());
                assert(crate::problem::vec_view(out) =~= before.push(s@));
                assert(before + strings_of(iv.skip(i as int)) =~= crate::problem::vec_view(out)
                    + strings_of(iv.skip(i + 1)));
            },
            _ => {},
        }
        i = i + 1;
    }
    assert(iv.skip(i as int) =~= Seq::<ItemView>::empty());
    assert(crate::problem::vec_view(out) + strings_of(iv.skip(i as int)) =~= crate::problem::vec_view(out));
    out
}

/// The strings of a member that is an array.
pub fn strings_of_member(m: Option<&JsonMember>) -> (r: Option<Vec<String>>)
    ensures
        crate::problem::opt_vec_view(r) == as_strings_spec(opt_member_view(m)),
{
    match m {
        Some(JsonMember::Array(items)) => Some(strings_in(items)),
        _ => None,
    }
}

/// The Python version that a member gives: an integer, cut to an `i32`.
pub open spec fn python_version_of(m: Option<MemberView>) -> Option<i32> {
    match as_int_spec(m) {
        Some(n) => Some(n as i32),
        None => None,
    }
}

/// The problem that the JSON details `v` of a problem of kind `kind` describe: `None`
/// for a kind that cannot be read back, or details that lack a field the kind needs
/// (or hold it as another type of value). Optional fields that are absent, or of
/// another type, are `None`; `need_rebuild` is then `false`.
pub open spec fn from_json_spec(kind: Seq<char>, v: JsonView) -> Option<ProblemView> {
    if kind == "missing-file"@ {
        match as_str_spec(get_spec(v, "path"@)) {
            Some(path) => Some(ProblemView::MissingFile { path }),
            None => None,
        }
    } else if kind == "command-missing"@ {
        match as_str_spec(get_spec(v, "command"@)) {
            Some(c) => Some(ProblemView::MissingCommand(c)),
            None => None,
        }
    } else if kind == "vcs-control-directory-needed"@ {
        match as_strings_spec(get_spec(v, "vcs"@)) {
            Some(vcs) => Some(ProblemView::VcsControlDirectoryNeeded { vcs }),
            None => None,
        }
    } else if kind == "missing-python-module"@ {
        match as_str_spec(get_spec(v, "module"@)) {
            Some(module) => Some(
                ProblemView::MissingPythonModule {
                    module,
                    python_version: python_version_of(get_spec(v, "python_version"@)),
                    minimum_version: as_str_spec(get_spec(v, "minimum_version"@)),
                },
            ),
            None => None,
        }
    } else if kind == "missing-python-distribution"@ {
        match as_str_spec(get_spec(v, "distribution"@)) {
            Some(distribution) => Some(
                ProblemView::MissingPythonDistribution {
                    distribution,
                    python_version: python_version_of(get_spec(v, "python_version"@)),
                    minimum_version: as_str_spec(get_spec(v, "minimum_version"@)),
                },
            ),
            None => None,
        }
    } else if kind == "missing-c-header"@ {
        match as_str_spec(get_spec(v, "header"@)) {
            Some(header) => Some(ProblemView::MissingCHeader { header }),
            None => None,
        }
    } else if kind == "missing-go-package"@ {
        match as_str_spec(get_spec(v, "package"@)) {
            Some(package) => Some(ProblemView::MissingGoPackage { package }),
            None => None,
        }
    } else if kind == "missing-node-module"@ {
        match as_str_spec(get_spec(v, "module"@)) {
            Some(m) => Some(ProblemView::MissingNodeModule(m)),
            None => None,
        }
    } else if kind == "missing-node-package"@ {
        match as_str_spec(get_spec(v, "package"@)) {
            Some(p) => Some(ProblemView::MissingNodePackage(p)),
            None => None,
        }
    } else if kind == "missing-vala-package"@ {
        match as_str_spec(get_spec(v, "package"@)) {
            Some(p) => Some(ProblemView::MissingValaPackage(p)),
            None => None,
        }
    } else if kind == "missing-library"@ {
        match as_str_spec(get_spec(v, "library"@)) {
            Some(l) => Some(ProblemView::MissingLibrary(l)),
            None => None,
        }
    } else if kind == "missing-haskell-module"@ {
        match as_str_spec(get_spec(v, "module"@)) {
            Some(module) => Some(ProblemView::MissingHaskellModule { module }),
            None => None,
        }
    } else if kind == "missing-haskell-dependencies"@ {
        match (match v {
            JsonView::Member(MemberView::Array(items)) => Some(strings_of(items)),
            _ => as_strings_spec(get_spec(v, "deps"@)),
        }) {
            Some(deps) => Some(ProblemView::MissingHaskellDependencies(deps)),
            None => None,
        }
    } else if kind == "missing-pkg-config-package"@ {
        match as_str_spec(get_spec(v, "module"@)) {
            Some(module) => Some(
                ProblemView::MissingPkgConfig {
                    module,
                    minimum_version: as_str_spec(get_spec(v, "minimum_version"@)),
                },
            ),
            None => None,
        }
    } else if kind == "missing-autoconf-macro"@ {
        match as_str_spec(get_spec(v, "macro"@)) {
            Some(m) => Some(
                ProblemView::MissingAutoconfMacro {
                    macro_name: m,
                    need_rebuild: match as_bool_spec(get_spec(v, "need_rebuild"@)) {
                        Some(b) => b,
                        None => false,
                    },
                },
            ),
            None => None,
        }
    } else if kind == "unsatisfied-apt-dependencies"@ {
        match as_str_spec(get_spec(v, "relations"@)) {
            Some(r) => Some(ProblemView::UnsatisfiedAptDependencies(r)),
            None => None,
        }
    } else if kind == "apt-package-unknown"@ {
        match (match as_str_spec(get_spec(v, "package"@)) {
            Some(p) => Some(p),
            None => match v {
                JsonView::Member(MemberView::Str(s)) => Some(s),
                _ => None,
            },
        }) {
            Some(p) => Some(ProblemView::AptPackageUnknown(p)),
            None => None,
        }
    } else {
        None
    }
}

/// The Python version that a member gives: an integer, cut to an `i32`.
fn python_version_in(m: Option<&JsonMember>) -> (r: Option<i32>)
    ensures
        r == python_version_of(opt_member_view(m)),
{
    match int_of(m) {
        Some(n) => Some(n as i32),
        None => None,
    }
}

/// Reads back a problem from its kind and its JSON details; `None` for a kind that
/// cannot be read back, or details that lack a field the kind needs.
pub fn problem_from_json(kind: &str, details: &JsonValue) -> (r: Option<Problem>)
    ensures
        opt_problem_view(r) == from_json_spec(kind@, details@),
{
    let v = details;
    if str_eq(kind, "missing-file") {
        match str_of(get(v, "path")) {
            Some(path) => Some(Problem::MissingFile { path }),
            None => None,
        }
    } else if str_eq(kind, "command-missing") {
        match str_of(get(v, "command")) {
            Some(c) => Some(Problem::MissingCommand(c)),
            None => None,
        }
    } else if str_eq(kind, "vcs-control-directory-needed") {
        match strings_of_member(get(v, "vcs")) {
            Some(vcs) => Some(Problem::VcsControlDirectoryNeeded { vcs }),
            None => None,
        }
    } else if str_eq(kind, "missing-python-module") {
        match str_of(get(v, "module")) {
            Some(module) => Some(
                Problem::MissingPythonModule {
                    module,
                    python_version: python_version_in(get(v, "python_version")),
                    minimum_version: str_of(get(v, "minimum_version")),
                },
            ),
            None => None,
        }
    } else if str_eq(kind, "missing-python-distribution") {
        match str_of(get(v, "distribution")) {
            Some(distribution) => Some(
                Problem::MissingPythonDistribution {
                    distribution,
                    python_version: python_version_in(get(v, "python_version")),
                    minimum_version: str_of(get(v, "minimum_version")),
                },
            ),
            None => None,
        }
    } else if str_eq(kind, "missing-c-header") {
        match str_of(get(v, "header")) {
            Some(header) => Some(Problem::MissingCHeader { header }),
            None => None,
        }
    } else if str_eq(kind, "missing-go-package") {
        match str_of(get(v, "package")) {
            Some(package) => Some(Problem::MissingGoPackage { package }),
            None => None,
        }
    } else if str_eq(kind, "missing-node-module") {
        match str_of(get(v, "module")) {
            Some(m) => Some(Problem::MissingNodeModule(m)),
            None => None,
        }
    } else if str_eq(kind, "missing-node-package") {
        match str_of(get(v, "package")) {
            Some(p) => Some(Problem::MissingNodePackage(p)),
            None => None,
        }
    } else if str_eq(kind, "missing-vala-package") {
        match str_of(get(v, "package")) {
            Some(p) => Some(Problem::MissingValaPackage(p)),
            None => None,
        }
    } else if str_eq(kind, "missing-library") {
        match str_of(get(v, "library")) {
            Some(l) => Some(Problem::MissingLibrary(l)),
            None => None,
        }
    } else if str_eq(kind, "missing-haskell-module") {
        match str_of(get(v, "module")) {
            Some(module) => Some(Problem::MissingHaskellModule { module }),
            None => None,
        }
    } else if str_eq(kind, "missing-haskell-dependencies") {
        let deps = match v {
            JsonValue::Member(JsonMember::Array(items)) => Some(strings_in(items)),
            _ => strings_of_member(get(v, "deps")),
        };
        match deps {
            Some(deps) => Some(Problem::MissingHaskellDependencies(deps)),
            None => None,
        }
    } else if str_eq(kind, "missing-pkg-config-package") {
        match str_of(get(v, "module")) {
            Some(module) => Some(
                Problem::MissingPkgConfig { module, minimum_version: str_of(get(v, "minimum_version")) },
            ),
            None => None,
        }
    } else if str_eq(kind, "missing-autoconf-macro") {
        match str_of(get(v, "macro")) {
            Some(m) => {
                let need_rebuild = match bool_of(get(v, "need_rebuild")) {
                    Some(b) => b,
                    None => false,
                };
                Some(Problem::MissingAutoconfMacro { macro_name: m, need_rebuild })
            },
            None => None,
        }
    } else if str_eq(kind, "unsatisfied-apt-dependencies") {
        match str_of(get(v, "relations")) {
            Some(r) => Some(Problem::UnsatisfiedAptDependencies(r)),
            None => None,
        }
    } else if str_eq(kind, "apt-package-unknown") {
        let p = match str_of(get(v, "package")) {
            Some(p) => Some(p),
            None => match v {
                JsonValue::Member(JsonMember::Str(s)) => Some(s.clone()),
                _ => None,
            },
        };
        match p {
            Some(p) => Some(Problem::AptPackageUnknown(p)),
            None => None,
        }
    } else {
        None
    }
}

/// The problems that [`problem_from_json`] can read back from their JSON details.
pub open spec fn readable(p: ProblemView) -> bool {
    ||| p is MissingFile
    ||| p is MissingCommand
    ||| p is VcsControlDirectoryNeeded
    ||| p is MissingPythonModule
    ||| p is MissingPythonDistribution
    ||| p is MissingCHeader
    ||| p is MissingGoPackage
    ||| p is MissingNodeModule
    ||| p is MissingNodePackage
    ||| p is MissingValaPackage
    ||| p is MissingLibrary
    ||| p is MissingHaskellModule
    ||| p is MissingHaskellDependencies
    ||| p is MissingPkgConfig
    ||| p is MissingAutoconfMacro
    ||| p is UnsatisfiedAptDependencies
    ||| p is AptPackageUnknown
}

/// The strings of array elements that are all strings are those strings.
pub proof fn lemma_strings_of_str_items(v: Seq<Seq<char>>)
    ensures
        strings_of(str_items(v)) == v,
    decreases v.len(),
{
    if v.len() > 0 {
        assert(str_items(v).drop_first() =~= str_items(v.drop_first()));
        lemma_strings_of_str_items(v.drop_first());
        assert(v =~= seq![v[0]] + v.drop_first());
    }
}

/// The round trip through JSON for a problem of kind `missing-file`.
proof fn lemma_round_trip_missing_file(p: ProblemView)
    requires
        p is MissingFile,
    ensures
        from_json_spec(kind_spec(p), json_spec(p)) == Some(p),
{
    reveal_strlit("missing-file");
}

/// The round trip through JSON for a problem of kind `command-missing`.
proof fn lemma_round_trip_missing_command(p: ProblemView)
    requires
        p is MissingCommand,
    ensures
        from_json_spec(kind_spec(p), json_spec(p)) == Some(p),
{
    reveal_strlit("missing-file");
    reveal_strlit("command-missing");
    assert("command-missing"@.len() == 15 && "missing-file"@.len() == 12);
    assert("command-missing"@ != "missing-file"@);
}

/// The round trip through JSON for a problem of kind `vcs-control-directory-needed`.
proof fn lemma_round_trip_vcs_control_directory_needed(p: ProblemView)
    requires
        p is VcsControlDirectoryNeeded,
    ensures
        from_json_spec(kind_spec(p), json_spec(p)) == Some(p),
{
    reveal_strlit("missing-file");
    reveal_strlit("command-missing");
    reveal_strlit("vcs-control-directory-needed");
    lemma_strings_of_str_items(p->vcs);
    assert("vcs-control-directory-needed"@.len() == 28 && "missing-file"@.len() == 12);
    assert("vcs-control-directory-needed"@ != "missing-file"@);
    assert("vcs-control-directory-needed"@.len() == 28 && "command-missing"@.len() == 15);
    assert("vcs-control-directory-needed"@ != "command-missing"@);
}

/// The round trip through JSON for a problem of kind `missing-python-module`.
proof fn lemma_round_trip_missing_python_module(p: ProblemView)
    requires
        p is MissingPythonModule,
    ensures
        from_json_spec(kind_spec(p), json_spec(p)) == Some(p),
{
    reveal_with_fuel(member_of, 4);
    reveal_strlit("missing-file");
    reveal_strlit("command-missing");
    reveal_strlit("vcs-control-directory-needed");
    reveal_strlit("missing-python-module");
    reveal_strlit("python_version");
    reveal_strlit("minimum_version");
    reveal_strlit("module");
    assert("missing-python-module"@.len() == 21 && "missing-file"@.len() == 12);
    assert("missing-python-module"@ != "missing-file"@);
    assert("missing-python-module"@.len() == 21 && "command-missing"@.len() == 15);
    assert("missing-python-module"@ != "command-missing"@);
    assert("missing-python-module"@.len() == 21 && "vcs-control-directory-needed"@.len() == 28);
    assert("missing-python-module"@ != "vcs-control-directory-needed"@);
    assert("python_version"@.len() == 14 && "module"@.len() == 6);
    assert("python_version"@ != "module"@);
    assert("minimum_version"@.len() == 15 && "module"@.len() == 6);
    assert("minimum_version"@ != "module"@);
    assert("minimum_version"@.len() == 15 && "python_version"@.len() == 14);
    assert("minimum_version"@ != "python_version"@);
    let pv = if p is MissingPythonModule { p->MissingPythonModule_python_version } else { p->MissingPythonDistribution_python_version };
    assert(python_version_of(Some(opt_int_member(pv))) == pv);
}

/// The round trip through JSON for a problem of kind `missing-python-distribution`.
proof fn lemma_round_trip_missing_python_distribution(p: ProblemView)
    requires
        p is MissingPythonDistribution,
    ensures
        from_json_spec(kind_spec(p), json_spec(p)) == Some(p),
{
    reveal_with_fuel(member_of, 4);
    reveal_strlit("missing-file");
    reveal_strlit("command-missing");
    reveal_strlit("vcs-control-directory-needed");
    reveal_strlit("missing-python-module");
    reveal_strlit("missing-python-distribution");
    reveal_strlit("python_version");
    reveal_strlit("minimum_version");
    reveal_strlit("distribution");
    assert("missing-python-distribution"@.len() == 27 && "missing-file"@.len() == 12);
    assert("missing-python-distribution"@ != "missing-file"@);
    assert("missing-python-distribution"@.len() == 27 && "command-missing"@.len() == 15);
    assert("missing-python-distribution"@ != "command-missing"@);
    assert("missing-python-distribution"@.len() == 27 && "vcs-control-directory-needed"@.len() == 28);
    assert("missing-python-distribution"@ != "vcs-control-directory-needed"@);
    assert("missing-python-distribution"@.len() == 27 && "missing-python-module"@.len() == 21);
    assert("missing-python-distribution"@ != "missing-python-module"@);
    assert("python_version"@.len() == 14 && "distribution"@.len() == 12);
    assert("python_version"@ != "distribution"@);
    assert("minimum_version"@.len() == 15 && "distribution"@.len() == 12);
    assert("minimum_version"@ != "distribution"@);
    assert("minimum_version"@.len() == 15 && "python_version"@.len() == 14);
    assert("minimum_version"@ != "python_version"@);
    let pv = if p is MissingPythonModule { p->MissingPythonModule_python_version } else { p->MissingPythonDistribution_python_version };
    assert(python_version_of(Some(opt_int_member(pv))) == pv);
}

/// The round trip through JSON for a problem of kind `missing-c-header`.
proof fn lemma_round_trip_missing_c_header(p: ProblemView)
    requires
        p is MissingCHeader,
    ensures
        from_json_spec(kind_spec(p), json_spec(p)) == Some(p),
{
    reveal_strlit("missing-file");
    reveal_strlit("command-missing");
    reveal_strlit("vcs-control-directory-needed");
    reveal_strlit("missing-python-module");
    reveal_strlit("missing-python-distribution");
    reveal_strlit("missing-c-header");
    assert("missing-c-header"@.len() == 16 && "missing-file"@.len() == 12);
    assert("missing-c-header"@ != "missing-file"@);
    assert("missing-c-header"@.len() == 16 && "command-missing"@.len() == 15);
    assert("missing-c-header"@ != "command-missing"@);
    assert("missing-c-header"@.len() == 16 && "vcs-control-directory-needed"@.len() == 28);
    assert("missing-c-header"@ != "vcs-control-directory-needed"@);
    assert("missing-c-header"@.len() == 16 && "missing-python-module"@.len() == 21);
    assert("missing-c-header"@ != "missing-python-module"@);
    assert("missing-c-header"@.len() == 16 && "missing-python-distribution"@.len() == 27);
    assert("missing-c-header"@ != "missing-python-distribution"@);
}

/// The round trip through JSON for a problem of kind `missing-go-package`.
proof fn lemma_round_trip_missing_go_package(p: ProblemView)
    requires
        p is MissingGoPackage,
    ensures
        from_json_spec(kind_spec(p), json_spec(p)) == Some(p),
{
    reveal_strlit("missing-file");
    reveal_strlit("command-missing");
    reveal_strlit("vcs-control-directory-needed");
    reveal_strlit("missing-python-module");
    reveal_strlit("missing-python-distribution");
    reveal_strlit("missing-c-header");
    reveal_strlit("missing-go-package");
    assert("missing-go-package"@.len() == 18 && "missing-file"@.len() == 12);
    assert("missing-go-package"@ != "missing-file"@);
    assert("missing-go-package"@.len() == 18 && "command-missing"@.len() == 15);
    assert("missing-go-package"@ != "command-missing"@);
    assert("missing-go-package"@.len() == 18 && "vcs-control-directory-needed"@.len() == 28);
    assert("missing-go-package"@ != "vcs-control-directory-needed"@);
    assert("missing-go-package"@.len() == 18 && "missing-python-module"@.len() == 21);
    assert("missing-go-package"@ != "missing-python-module"@);
    assert("missing-go-package"@.len() == 18 && "missing-python-distribution"@.len() == 27);
    assert("missing-go-package"@ != "missing-python-distribution"@);
    assert("missing-go-package"@.len() == 18 && "missing-c-header"@.len() == 16);
    assert("missing-go-package"@ != "missing-c-header"@);
}

/// The round trip through JSON for a problem of kind `missing-node-module`.
proof fn lemma_round_trip_missing_node_module(p: ProblemView)
    requires
        p is MissingNodeModule,
    ensures
        from_json_spec(kind_spec(p), json_spec(p)) == Some(p),
{
    reveal_strlit("missing-file");
    reveal_strlit("command-missing");
    reveal_strlit("vcs-control-directory-needed");
    reveal_strlit("missing-python-module");
    reveal_strlit("missing-python-distribution");
    reveal_strlit("missing-c-header");
    reveal_strlit("missing-go-package");
    reveal_strlit("missing-node-module");
    assert("missing-node-module"@.len() == 19 && "missing-file"@.len() == 12);
    assert("missing-node-module"@ != "missing-file"@);
    assert("missing-node-module"@.len() == 19 && "command-missing"@.len() == 15);
    assert("missing-node-module"@ != "command-missing"@);
    assert("missing-node-module"@.len() == 19 && "vcs-control-directory-needed"@.len() == 28);
    assert("missing-node-module"@ != "vcs-control-directory-needed"@);
    assert("missing-node-module"@.len() == 19 && "missing-python-module"@.len() == 21);
    assert("missing-node-module"@ != "missing-python-module"@);
    assert("missing-node-module"@.len() == 19 && "missing-python-distribution"@.len() == 27);
    assert("missing-node-module"@ != "missing-python-distribution"@);
    assert("missing-node-module"@.len() == 19 && "missing-c-header"@.len() == 16);
    assert("missing-node-module"@ != "missing-c-header"@);
    assert("missing-node-module"@.len() == 19 && "missing-go-package"@.len() == 18);
    assert("missing-node-module"@ != "missing-go-package"@);
}

/// The round trip through JSON for a problem of kind `missing-node-package`.
proof fn lemma_round_trip_missing_node_package(p: ProblemView)
    requires
        p is MissingNodePackage,
    ensures
        from_json_spec(kind_spec(p), json_spec(p)) == Some(p),
{
    reveal_strlit("missing-file");
    reveal_strlit("command-missing");
    reveal_strlit("vcs-control-directory-needed");
    reveal_strlit("missing-python-module");
    reveal_strlit("missing-python-distribution");
    reveal_strlit("missing-c-header");
    reveal_strlit("missing-go-package");
    reveal_strlit("missing-node-module");
    reveal_strlit("missing-node-package");
    assert("missing-node-package"@.len() == 20 && "missing-file"@.len() == 12);
    assert("missing-node-package"@ != "missing-file"@);
    assert("missing-node-package"@.len() == 20 && "command-missing"@.len() == 15);
    assert("missing-node-package"@ != "command-missing"@);
    assert("missing-node-package"@.len() == 20 && "vcs-control-directory-needed"@.len() == 28);
    assert("missing-node-package"@ != "vcs-control-directory-needed"@);
    assert("missing-node-package"@.len() == 20 && "missing-python-module"@.len() == 21);
    assert("missing-node-package"@ != "missing-python-module"@);
    assert("missing-node-package"@.len() == 20 && "missing-python-distribution"@.len() == 27);
    assert("missing-node-package"@ != "missing-python-distribution"@);
    assert("missing-node-package"@.len() == 20 && "missing-c-header"@.len() == 16);
    assert("missing-node-package"@ != "missing-c-header"@);
    assert("missing-node-package"@.len() == 20 && "missing-go-package"@.len() == 18);
    assert("missing-node-package"@ != "missing-go-package"@);
    assert("missing-node-package"@.len() == 20 && "missing-node-module"@.len() == 19);
    assert("missing-node-package"@ != "missing-node-module"@);
}

/// The round trip through JSON for a problem of kind `missing-vala-package`.
proof fn lemma_round_trip_missing_vala_package(p: ProblemView)
    requires
        p is MissingValaPackage,
    ensures
        from_json_spec(kind_spec(p), json_spec(p)) == Some(p),
{
    reveal_strlit("missing-file");
    reveal_strlit("command-missing");
    reveal_strlit("vcs-control-directory-needed");
    reveal_strlit("missing-python-module");
    reveal_strlit("missing-python-distribution");
    reveal_strlit("missing-c-header");
    reveal_strlit("missing-go-package");
    reveal_strlit("missing-node-module");
    reveal_strlit("missing-node-package");
    reveal_strlit("missing-vala-package");
    assert("missing-vala-package"@.len() == 20 && "missing-file"@.len() == 12);
    assert("missing-vala-package"@ != "missing-file"@);
    assert("missing-vala-package"@.len() == 20 && "command-missing"@.len() == 15);
    assert("missing-vala-package"@ != "command-missing"@);
    assert("missing-vala-package"@.len() == 20 && "vcs-control-directory-needed"@.len() == 28);
    assert("missing-vala-package"@ != "vcs-control-directory-needed"@);
    assert("missing-vala-package"@.len() == 20 && "missing-python-module"@.len() == 21);
    assert("missing-vala-package"@ != "missing-python-module"@);
    assert("missing-vala-package"@.len() == 20 && "missing-python-distribution"@.len() == 27);
    assert("missing-vala-package"@ != "missing-python-distribution"@);
    assert("missing-vala-package"@.len() == 20 && "missing-c-header"@.len() == 16);
    assert("missing-vala-package"@ != "missing-c-header"@);
    assert("missing-vala-package"@.len() == 20 && "missing-go-package"@.len() == 18);
    assert("missing-vala-package"@ != "missing-go-package"@);
    assert("missing-vala-package"@.len() == 20 && "missing-node-module"@.len() == 19);
    assert("missing-vala-package"@ != "missing-node-module"@);
    assert("missing-vala-package"@[8] == 'v' && "missing-node-package"@[8] == 'n');
    assert("missing-vala-package"@ != "missing-node-package"@);
}

/// The round trip through JSON for a problem of kind `missing-library`.
proof fn lemma_round_trip_missing_library(p: ProblemView)
    requires
        p is MissingLibrary,
    ensures
        from_json_spec(kind_spec(p), json_spec(p)) == Some(p),
{
    reveal_strlit("missing-file");
    reveal_strlit("command-missing");
    reveal_strlit("vcs-control-directory-needed");
    reveal_strlit("missing-python-module");
    reveal_strlit("missing-python-distribution");
    reveal_strlit("missing-c-header");
    reveal_strlit("missing-go-package");
    reveal_strlit("missing-node-module");
    reveal_strlit("missing-node-package");
    reveal_strlit("missing-vala-package");
    reveal_strlit("missing-library");
    assert("missing-library"@.len() == 15 && "missing-file"@.len() == 12);
    assert("missing-library"@ != "missing-file"@);
    assert("missing-library"@[0] == 'm' && "command-missing"@[0] == 'c');
    assert("missing-library"@ != "command-missing"@);
    assert("missing-library"@.len() == 15 && "vcs-control-directory-needed"@.len() == 28);
    assert("missing-library"@ != "vcs-control-directory-needed"@);
    assert("missing-library"@.len() == 15 && "missing-python-module"@.len() == 21);
    assert("missing-library"@ != "missing-python-module"@);
    assert("missing-library"@.len() == 15 && "missing-python-distribution"@.len() == 27);
    assert("missing-library"@ != "missing-python-distribution"@);
    assert("missing-library"@.len() == 15 && "missing-c-header"@.len() == 16);
    assert("missing-library"@ != "missing-c-header"@);
    assert("missing-library"@.len() == 15 && "missing-go-package"@.len() == 18);
    assert("missing-library"@ != "missing-go-package"@);
    assert("missing-library"@.len() == 15 && "missing-node-module"@.len() == 19);
    assert("missing-library"@ != "missing-node-module"@);
    assert("missing-library"@.len() == 15 && "missing-node-package"@.len() == 20);
    assert("missing-library"@ != "missing-node-package"@);
    assert("missing-library"@.len() == 15 && "missing-vala-package"@.len() == 20);
    assert("missing-library"@ != "missing-vala-package"@);
}

/// The round trip through JSON for a problem of kind `missing-haskell-module`.
proof fn lemma_round_trip_missing_haskell_module(p: ProblemView)
    requires
        p is MissingHaskellModule,
    ensures
        from_json_spec(kind_spec(p), json_spec(p)) == Some(p),
{
    reveal_strlit("missing-file");
    reveal_strlit("command-missing");
    reveal_strlit("vcs-control-directory-needed");
    reveal_strlit("missing-python-module");
    reveal_strlit("missing-python-distribution");
    reveal_strlit("missing-c-header");
    reveal_strlit("missing-go-package");
    reveal_strlit("missing-node-module");
    reveal_strlit("missing-node-package");
    reveal_strlit("missing-vala-package");
    reveal_strlit("missing-library");
    reveal_strlit("missing-haskell-module");
    assert("missing-haskell-module"@.len() == 22 && "missing-file"@.len() == 12);
    assert("missing-haskell-module"@ != "missing-file"@);
    assert("missing-haskell-module"@.len() == 22 && "command-missing"@.len() == 15);
    assert("missing-haskell-module"@ != "command-missing"@);
    assert("missing-haskell-module"@.len() == 22 && "vcs-control-directory-needed"@.len() == 28);
    assert("missing-haskell-module"@ != "vcs-control-directory-needed"@);
    assert("missing-haskell-module"@.len() == 22 && "missing-python-module"@.len() == 21);
    assert("missing-haskell-module"@ != "missing-python-module"@);
    assert("missing-haskell-module"@.len() == 22 && "missing-python-distribution"@.len() == 27);
    assert("missing-haskell-module"@ != "missing-python-distribution"@);
    assert("missing-haskell-module"@.len() == 22 && "missing-c-header"@.len() == 16);
    assert("missing-haskell-module"@ != "missing-c-header"@);
    assert("missing-haskell-module"@.len() == 22 && "missing-go-package"@.len() == 18);
    assert("missing-haskell-module"@ != "missing-go-package"@);
    assert("missing-haskell-module"@.len() == 22 && "missing-node-module"@.len() == 19);
    assert("missing-haskell-module"@ != "missing-node-module"@);
    assert("missing-haskell-module"@.len() == 22 && "missing-node-package"@.len() == 20);
    assert("missing-haskell-module"@ != "missing-node-package"@);
    assert("missing-haskell-module"@.len() == 22 && "missing-vala-package"@.len() == 20);
    assert("missing-haskell-module"@ != "missing-vala-package"@);
    assert("missing-haskell-module"@.len() == 22 && "missing-library"@.len() == 15);
    assert("missing-haskell-module"@ != "missing-library"@);
}

/// The round trip through JSON for a problem of kind `missing-haskell-dependencies`.
proof fn lemma_round_trip_missing_haskell_dependencies(p: ProblemView)
    requires
        p is MissingHaskellDependencies,
    ensures
        from_json_spec(kind_spec(p), json_spec(p)) == Some(p),
{
    reveal_strlit("missing-file");
    reveal_strlit("command-missing");
    reveal_strlit("vcs-control-directory-needed");
    reveal_strlit("missing-python-module");
    reveal_strlit("missing-python-distribution");
    reveal_strlit("missing-c-header");
    reveal_strlit("missing-go-package");
    reveal_strlit("missing-node-module");
    reveal_strlit("missing-node-package");
    reveal_strlit("missing-vala-package");
    reveal_strlit("missing-library");
    reveal_strlit("missing-haskell-module");
    reveal_strlit("missing-haskell-dependencies");
    lemma_strings_of_str_items(p->MissingHaskellDependencies_0);
    assert("missing-haskell-dependencies"@.len() == 28 && "missing-file"@.len() == 12);
    assert("missing-haskell-dependencies"@ != "missing-file"@);
    assert("missing-haskell-dependencies"@.len() == 28 && "command-missing"@.len() == 15);
    assert("missing-haskell-dependencies"@ != "command-missing"@);
    assert("missing-haskell-dependencies"@[0] == 'm' && "vcs-control-directory-needed"@[0] == 'v');
    assert("missing-haskell-dependencies"@ != "vcs-control-directory-needed"@);
    assert("missing-haskell-dependencies"@.len() == 28 && "missing-python-module"@.len() == 21);
    assert("missing-haskell-dependencies"@ != "missing-python-module"@);
    assert("missing-haskell-dependencies"@.len() == 28 && "missing-python-distribution"@.len() == 27);
    assert("missing-haskell-dependencies"@ != "missing-python-distribution"@);
    assert("missing-haskell-dependencies"@.len() == 28 && "missing-c-header"@.len() == 16);
    assert("missing-haskell-dependencies"@ != "missing-c-header"@);
    assert("missing-haskell-dependencies"@.len() == 28 && "missing-go-package"@.len() == 18);
    assert("missing-haskell-dependencies"@ != "missing-go-package"@);
    assert("missing-haskell-dependencies"@.len() == 28 && "missing-node-module"@.len() == 19);
    assert("missing-haskell-dependencies"@ != "missing-node-module"@);
    assert("missing-haskell-dependencies"@.len() == 28 && "missing-node-package"@.len() == 20);
    assert("missing-haskell-dependencies"@ != "missing-node-package"@);
    assert("missing-haskell-dependencies"@.len() == 28 && "missing-vala-package"@.len() == 20);
    assert("missing-haskell-dependencies"@ != "missing-vala-package"@);
    assert("missing-haskell-dependencies"@.len() == 28 && "missing-library"@.len() == 15);
    assert("missing-haskell-dependencies"@ != "missing-library"@);
    assert("missing-haskell-dependencies"@.len() == 28 && "missing-haskell-module"@.len() == 22);
    assert("missing-haskell-dependencies"@ != "missing-haskell-module"@);
}

/// The round trip through JSON for a problem of kind `missing-pkg-config-package`.
proof fn lemma_round_trip_missing_pkg_config(p: ProblemView)
    requires
        p is MissingPkgConfig,
    ensures
        from_json_spec(kind_spec(p), json_spec(p)) == Some(p),
{
    reveal_with_fuel(member_of, 4);
    reveal_strlit("missing-file");
    reveal_strlit("command-missing");
    reveal_strlit("vcs-control-directory-needed");
    reveal_strlit("missing-python-module");
    reveal_strlit("missing-python-distribution");
    reveal_strlit("missing-c-header");
    reveal_strlit("missing-go-package");
    reveal_strlit("missing-node-module");
    reveal_strlit("missing-node-package");
    reveal_strlit("missing-vala-package");
    reveal_strlit("missing-library");
    reveal_strlit("missing-haskell-module");
    reveal_strlit("missing-haskell-dependencies");
    reveal_strlit("missing-pkg-config-package");
    reveal_strlit("minimum_version");
    reveal_strlit("module");
    assert("missing-pkg-config-package"@.len() == 26 && "missing-file"@.len() == 12);
    assert("missing-pkg-config-package"@ != "missing-file"@);
    assert("missing-pkg-config-package"@.len() == 26 && "command-missing"@.len() == 15);
    assert("missing-pkg-config-package"@ != "command-missing"@);
    assert("missing-pkg-config-package"@.len() == 26 && "vcs-control-directory-needed"@.len() == 28);
    assert("missing-pkg-config-package"@ != "vcs-control-directory-needed"@);
    assert("missing-pkg-config-package"@.len() == 26 && "missing-python-module"@.len() == 21);
    assert("missing-pkg-config-package"@ != "missing-python-module"@);
    assert("missing-pkg-config-package"@.len() == 26 && "missing-python-distribution"@.len() == 27);
    assert("missing-pkg-config-package"@ != "missing-python-distribution"@);
    assert("missing-pkg-config-package"@.len() == 26 && "missing-c-header"@.len() == 16);
    assert("missing-pkg-config-package"@ != "missing-c-header"@);
    assert("missing-pkg-config-package"@.len() == 26 && "missing-go-package"@.len() == 18);
    assert("missing-pkg-config-package"@ != "missing-go-package"@);
    assert("missing-pkg-config-package"@.len() == 26 && "missing-node-module"@.len() == 19);
    assert("missing-pkg-config-package"@ != "missing-node-module"@);
    assert("missing-pkg-config-package"@.len() == 26 && "missing-node-package"@.len() == 20);
    assert("missing-pkg-config-package"@ != "missing-node-package"@);
    assert("missing-pkg-config-package"@.len() == 26 && "missing-vala-package"@.len() == 20);
    assert("missing-pkg-config-package"@ != "missing-vala-package"@);
    assert("missing-pkg-config-package"@.len() == 26 && "missing-library"@.len() == 15);
    assert("missing-pkg-config-package"@ != "missing-library"@);
    assert("missing-pkg-config-package"@.len() == 26 && "missing-haskell-module"@.len() == 22);
    assert("missing-pkg-config-package"@ != "missing-haskell-module"@);
    assert("missing-pkg-config-package"@.len() == 26 && "missing-haskell-dependencies"@.len() == 28);
    assert("missing-pkg-config-package"@ != "missing-haskell-dependencies"@);
    assert("minimum_version"@.len() == 15 && "module"@.len() == 6);
    assert("minimum_version"@ != "module"@);
}

/// The round trip through JSON for a problem of kind `missing-autoconf-macro`.
proof fn lemma_round_trip_missing_autoconf_macro(p: ProblemView)
    requires
        p is MissingAutoconfMacro,
    ensures
        from_json_spec(kind_spec(p), json_spec(p)) == Some(p),
{
    reveal_with_fuel(member_of, 4);
    reveal_strlit("missing-file");
    reveal_strlit("command-missing");
    reveal_strlit("vcs-control-directory-needed");
    reveal_strlit("missing-python-module");
    reveal_strlit("missing-python-distribution");
    reveal_strlit("missing-c-header");
    reveal_strlit("missing-go-package");
    reveal_strlit("missing-node-module");
    reveal_strlit("missing-node-package");
    reveal_strlit("missing-vala-package");
    reveal_strlit("missing-library");
    reveal_strlit("missing-haskell-module");
    reveal_strlit("missing-haskell-dependencies");
    reveal_strlit("missing-pkg-config-package");
    reveal_strlit("missing-autoconf-macro");
    reveal_strlit("need_rebuild");
    reveal_strlit("macro");
    assert("missing-autoconf-macro"@.len() == 22 && "missing-file"@.len() == 12);
    assert("missing-autoconf-macro"@ != "missing-file"@);
    assert("missing-autoconf-macro"@.len() == 22 && "command-missing"@.len() == 15);
    assert("missing-autoconf-macro"@ != "command-missing"@);
    assert("missing-autoconf-macro"@.len() == 22 && "vcs-control-directory-needed"@.len() == 28);
    assert("missing-autoconf-macro"@ != "vcs-control-directory-needed"@);
    assert("missing-autoconf-macro"@.len() == 22 && "missing-python-module"@.len() == 21);
    assert("missing-autoconf-macro"@ != "missing-python-module"@);
    assert("missing-autoconf-macro"@.len() == 22 && "missing-python-distribution"@.len() == 27);
    assert("missing-autoconf-macro"@ != "missing-python-distribution"@);
    assert("missing-autoconf-macro"@.len() == 22 && "missing-c-header"@.len() == 16);
    assert("missing-autoconf-macro"@ != "missing-c-header"@);
    assert("missing-autoconf-macro"@.len() == 22 && "missing-go-package"@.len() == 18);
    assert("missing-autoconf-macro"@ != "missing-go-package"@);
    assert("missing-autoconf-macro"@.len() == 22 && "missing-node-module"@.len() == 19);
    assert("missing-autoconf-macro"@ != "missing-node-module"@);
    assert("missing-autoconf-macro"@.len() == 22 && "missing-node-package"@.len() == 20);
    assert("missing-autoconf-macro"@ != "missing-node-package"@);
    assert("missing-autoconf-macro"@.len() == 22 && "missing-vala-package"@.len() == 20);
    assert("missing-autoconf-macro"@ != "missing-vala-package"@);
    assert("missing-autoconf-macro"@.len() == 22 && "missing-library"@.len() == 15);
    assert("missing-autoconf-macro"@ != "missing-library"@);
    assert("missing-autoconf-macro"@[8] == 'a' && "missing-haskell-module"@[8] == 'h');
    assert("missing-autoconf-macro"@ != "missing-haskell-module"@);
    assert("missing-autoconf-macro"@.len() == 22 && "missing-haskell-dependencies"@.len() == 28);
    assert("missing-autoconf-macro"@ != "missing-haskell-dependencies"@);
    assert("missing-autoconf-macro"@.len() == 22 && "missing-pkg-config-package"@.len() == 26);
    assert("missing-autoconf-macro"@ != "missing-pkg-config-package"@);
    assert("need_rebuild"@.len() == 12 && "macro"@.len() == 5);
    assert("need_rebuild"@ != "macro"@);
}

/// The round trip through JSON for a problem of kind `unsatisfied-apt-dependencies`.
proof fn lemma_round_trip_unsatisfied_apt_dependencies(p: ProblemView)
    requires
        p is UnsatisfiedAptDependencies,
    ensures
        from_json_spec(kind_spec(p), json_spec(p)) == Some(p),
{
    reveal_strlit("missing-file");
    reveal_strlit("command-missing");
    reveal_strlit("vcs-control-directory-needed");
    reveal_strlit("missing-python-module");
    reveal_strlit("missing-python-distribution");
    reveal_strlit("missing-c-header");
    reveal_strlit("missing-go-package");
    reveal_strlit("missing-node-module");
    reveal_strlit("missing-node-package");
    reveal_strlit("missing-vala-package");
    reveal_strlit("missing-library");
    reveal_strlit("missing-haskell-module");
    reveal_strlit("missing-haskell-dependencies");
    reveal_strlit("missing-pkg-config-package");
    reveal_strlit("missing-autoconf-macro");
    reveal_strlit("unsatisfied-apt-dependencies");
    assert("unsatisfied-apt-dependencies"@.len() == 28 && "missing-file"@.len() == 12);
    assert("unsatisfied-apt-dependencies"@ != "missing-file"@);
    assert("unsatisfied-apt-dependencies"@.len() == 28 && "command-missing"@.len() == 15);
    assert("unsatisfied-apt-dependencies"@ != "command-missing"@);
    assert("unsatisfied-apt-dependencies"@[0] == 'u' && "vcs-control-directory-needed"@[0] == 'v');
    assert("unsatisfied-apt-dependencies"@ != "vcs-control-directory-needed"@);
    assert("unsatisfied-apt-dependencies"@.len() == 28 && "missing-python-module"@.len() == 21);
    assert("unsatisfied-apt-dependencies"@ != "missing-python-module"@);
    assert("unsatisfied-apt-dependencies"@.len() == 28 && "missing-python-distribution"@.len() == 27);
    assert("unsatisfied-apt-dependencies"@ != "missing-python-distribution"@);
    assert("unsatisfied-apt-dependencies"@.len() == 28 && "missing-c-header"@.len() == 16);
    assert("unsatisfied-apt-dependencies"@ != "missing-c-header"@);
    assert("unsatisfied-apt-dependencies"@.len() == 28 && "missing-go-package"@.len() == 18);
    assert("unsatisfied-apt-dependencies"@ != "missing-go-package"@);
    assert("unsatisfied-apt-dependencies"@.len() == 28 && "missing-node-module"@.len() == 19);
    assert("unsatisfied-apt-dependencies"@ != "missing-node-module"@);
    assert("unsatisfied-apt-dependencies"@.len() == 28 && "missing-node-package"@.len() == 20);
    assert("unsatisfied-apt-dependencies"@ != "missing-node-package"@);
    assert("unsatisfied-apt-dependencies"@.len() == 28 && "missing-vala-package"@.len() == 20);
    assert("unsatisfied-apt-dependencies"@ != "missing-vala-package"@);
    assert("unsatisfied-apt-dependencies"@.len() == 28 && "missing-library"@.len() == 15);
    assert("unsatisfied-apt-dependencies"@ != "missing-library"@);
    assert("unsatisfied-apt-dependencies"@.len() == 28 && "missing-haskell-module"@.len() == 22);
    assert("unsatisfied-apt-dependencies"@ != "missing-haskell-module"@);
    assert("unsatisfied-apt-dependencies"@[0] == 'u' && "missing-haskell-dependencies"@[0] == 'm');
    assert("unsatisfied-apt-dependencies"@ != "missing-haskell-dependencies"@);
    assert("unsatisfied-apt-dependencies"@.len() == 28 && "missing-pkg-config-package"@.len() == 26);
    assert("unsatisfied-apt-dependencies"@ != "missing-pkg-config-package"@);
    assert("unsatisfied-apt-dependencies"@.len() == 28 && "missing-autoconf-macro"@.len() == 22);
    assert("unsatisfied-apt-dependencies"@ != "missing-autoconf-macro"@);
}

/// The round trip through JSON for a problem of kind `apt-package-unknown`.
proof fn lemma_round_trip_apt_package_unknown(p: ProblemView)
    requires
        p is AptPackageUnknown,
    ensures
        from_json_spec(kind_spec(p), json_spec(p)) == Some(p),
{
    reveal_strlit("missing-file");
    reveal_strlit("command-missing");
    reveal_strlit("vcs-control-directory-needed");
    reveal_strlit("missing-python-module");
    reveal_strlit("missing-python-distribution");
    reveal_strlit("missing-c-header");
    reveal_strlit("missing-go-package");
    reveal_strlit("missing-node-module");
    reveal_strlit("missing-node-package");
    reveal_strlit("missing-vala-package");
    reveal_strlit("missing-library");
    reveal_strlit("missing-haskell-module");
    reveal_strlit("missing-haskell-dependencies");
    reveal_strlit("missing-pkg-config-package");
    reveal_strlit("missing-autoconf-macro");
    reveal_strlit("unsatisfied-apt-dependencies");
    reveal_strlit("apt-package-unknown");
    assert("apt-package-unknown"@.len() == 19 && "missing-file"@.len() == 12);
    assert("apt-package-unknown"@ != "missing-file"@);
    assert("apt-package-unknown"@.len() == 19 && "command-missing"@.len() == 15);
    assert("apt-package-unknown"@ != "command-missing"@);
    assert("apt-package-unknown"@.len() == 19 && "vcs-control-directory-needed"@.len() == 28);
    assert("apt-package-unknown"@ != "vcs-control-directory-needed"@);
    assert("apt-package-unknown"@.len() == 19 && "missing-python-module"@.len() == 21);
    assert("apt-package-unknown"@ != "missing-python-module"@);
    assert("apt-package-unknown"@.len() == 19 && "missing-python-distribution"@.len() == 27);
    assert("apt-package-unknown"@ != "missing-python-distribution"@);
    assert("apt-package-unknown"@.len() == 19 && "missing-c-header"@.len() == 16);
    assert("apt-package-unknown"@ != "missing-c-header"@);
    assert("apt-package-unknown"@.len() == 19 && "missing-go-package"@.len() == 18);
    assert("apt-package-unknown"@ != "missing-go-package"@);
    assert("apt-package-unknown"@[0] == 'a' && "missing-node-module"@[0] == 'm');
    assert("apt-package-unknown"@ != "missing-node-module"@);
    assert("apt-package-unknown"@.len() == 19 && "missing-node-package"@.len() == 20);
    assert("apt-package-unknown"@ != "missing-node-package"@);
    assert("apt-package-unknown"@.len() == 19 && "missing-vala-package"@.len() == 20);
    assert("apt-package-unknown"@ != "missing-vala-package"@);
    assert("apt-package-unknown"@.len() == 19 && "missing-library"@.len() == 15);
    assert("apt-package-unknown"@ != "missing-library"@);
    assert("apt-package-unknown"@.len() == 19 && "missing-haskell-module"@.len() == 22);
    assert("apt-package-unknown"@ != "missing-haskell-module"@);
    assert("apt-package-unknown"@.len() == 19 && "missing-haskell-dependencies"@.len() == 28);
    assert("apt-package-unknown"@ != "missing-haskell-dependencies"@);
    assert("apt-package-unknown"@.len() == 19 && "missing-pkg-config-package"@.len() == 26);
    assert("apt-package-unknown"@ != "missing-pkg-config-package"@);
    assert("apt-package-unknown"@.len() == 19 && "missing-autoconf-macro"@.len() == 22);
    assert("apt-package-unknown"@ != "missing-autoconf-macro"@);
    assert("apt-package-unknown"@.len() == 19 && "unsatisfied-apt-dependencies"@.len() == 28);
    assert("apt-package-unknown"@ != "unsatisfied-apt-dependencies"@);
}

/// A problem read back from JSON details is of the kind it was read as.
pub proof fn lemma_from_json_keeps_kind(kind: Seq<char>, v: JsonView)
    ensures
        from_json_spec(kind, v) matches Some(p) ==> kind_spec(p) == kind,
{
}

/// Reading back the JSON details of a problem, by the problem's kind, gives the problem
/// again, for each kind that can be read back: what [`Problem::json`] writes,
/// [`problem_from_json`] reads.
pub proof fn lemma_json_round_trip(p: ProblemView)
    requires
        readable(p),
    ensures
        from_json_spec(kind_spec(p), json_spec(p)) == Some(p),
{
    if p is MissingFile {
        lemma_round_trip_missing_file(p);
    }
    if p is MissingCommand {
        lemma_round_trip_missing_command(p);
    }
    if p is VcsControlDirectoryNeeded {
        lemma_round_trip_vcs_control_directory_needed(p);
    }
    if p is MissingPythonModule {
        lemma_round_trip_missing_python_module(p);
    }
    if p is MissingPythonDistribution {
        lemma_round_trip_missing_python_distribution(p);
    }
    if p is MissingCHeader {
        lemma_round_trip_missing_c_header(p);
    }
    if p is MissingGoPackage {
        lemma_round_trip_missing_go_package(p);
    }
    if p is MissingNodeModule {
        lemma_round_trip_missing_node_module(p);
    }
    if p is MissingNodePackage {
        lemma_round_trip_missing_node_package(p);
    }
    if p is MissingValaPackage {
        lemma_round_trip_missing_vala_package(p);
    }
    if p is MissingLibrary {
        lemma_round_trip_missing_library(p);
    }
    if p is MissingHaskellModule {
        lemma_round_trip_missing_haskell_module(p);
    }
    if p is MissingHaskellDependencies {
        lemma_round_trip_missing_haskell_dependencies(p);
    }
    if p is MissingPkgConfig {
        lemma_round_trip_missing_pkg_config(p);
    }
    if p is MissingAutoconfMacro {
        lemma_round_trip_missing_autoconf_macro(p);
    }
    if p is UnsatisfiedAptDependencies {
        lemma_round_trip_unsatisfied_apt_dependencies(p);
    }
    if p is AptPackageUnknown {
        lemma_round_trip_apt_package_unknown(p);
    }
}

} // verus!
