//! Problems built from the groups of a match by a fixed recipe: each text of the
//! problem is a group of the match, a fixed text, or a simple combination of them.
use vstd::prelude::*;
use crate::pattern::{get_group, group, captures_view};
use crate::problem::{Problem, ProblemView};
use crate::text::{
    concat, lowercase_spec, split_char, split_spec, split_whitespace, to_lowercase, trim,
    trim_char_spec, trim_end_char_spec, trim_end_matches, trim_matches, trim_spec, words_spec,
};

verus! {

/// How one text of a problem is taken from the groups of a match.
#[derive(Debug, Clone)]
pub enum Text {
    /// The text of a group.
    Group(usize),
    /// A fixed text.
    Lit(&'static str),
    /// The text of a group, without surrounding whitespace.
    Trimmed(usize),
    /// The texts of two groups, with a fixed separator between them and a fixed
    /// text after them.
    Joined(usize, &'static str, usize, &'static str),
    /// The text of a group, without the given character repeated at its end.
    TrimmedEnd(usize, char),
    /// The text of a group, without surrounding whitespace, then without the single
    /// quotes around it.
    Unquoted(usize),
    /// A fixed text followed by the text of a group.
    Prefixed(&'static str, usize),
    /// The text of a group followed by a fixed text.
    Suffixed(usize, &'static str),
    /// The text of a group in lower case.
    Lower(usize),
}

/// How a list of texts of a problem is taken from the groups of a match.
#[derive(Debug, Clone)]
pub enum Texts {
    /// The pieces of a group between occurrences of a character.
    Split(usize, char),
    /// The pieces of a group between occurrences of a character, each without
    /// surrounding whitespace.
    SplitTrimmed(usize, char),
    /// The words of a group.
    Words(usize),
    /// The words of a fixed text.
    Lits(&'static str),
    /// A single text.
    One(Text),
}

/// The text that `t` takes from the groups `c`.
pub open spec fn text_spec(t: Text, c: Seq<Option<Seq<char>>>) -> Seq<char> {
    match t {
        Text::Group(g) => group(c, g as int),
        Text::Lit(s) => s@,
        Text::Trimmed(g) => trim_spec(group(c, g as int)),
        Text::Joined(a, sep, b, end) => group(c, a as int) + sep@ + group(c, b as int) + end@,
        Text::TrimmedEnd(g, ch) => trim_end_char_spec(group(c, g as int), ch),
        Text::Unquoted(g) => trim_char_spec(trim_spec(group(c, g as int)), '\''),
        Text::Prefixed(p, g) => p@ + group(c, g as int),
        Text::Suffixed(g, s) => group(c, g as int) + s@,
        Text::Lower(g) => lowercase_spec(group(c, g as int)),
    }
}

/// The optional text that `t` takes from the groups `c`.
pub open spec fn opt_text_spec(t: Option<Text>, c: Seq<Option<Seq<char>>>) -> Option<Seq<char>> {
    match t {
        Some(x) => Some(text_spec(x, c)),
        None => None,
    }
}

/// The list of texts that `t` takes from the groups `c`.
pub open spec fn texts_spec(t: Texts, c: Seq<Option<Seq<char>>>) -> Seq<Seq<char>> {
    match t {
        Texts::Split(g, ch) => split_spec(group(c, g as int), ch),
        Texts::SplitTrimmed(g, ch) => trimmed_pieces(split_spec(group(c, g as int), ch)),
        Texts::Words(g) => words_spec(group(c, g as int)),
        Texts::Lits(s) => words_spec(s@),
        Texts::One(x) => seq![text_spec(x, c)],
    }
}

/// Each of `pieces` without surrounding whitespace.
pub open spec fn trimmed_pieces(pieces: Seq<Seq<char>>) -> Seq<Seq<char>> {
    pieces.map_values(|p: Seq<char>| trim_spec(p))
}

/// The pieces of `text` between occurrences of `ch`, each without surrounding
/// whitespace.
pub fn split_trimmed(text: &str, ch: char) -> (r: Vec<String>)
    ensures
        crate::problem::vec_view(r) == trimmed_pieces(split_spec(text@, ch)),
{
    let parts = split_char(text, ch);
    let ghost pv = parts@.map_values(|t: String| t@);
    let mut r: Vec<String> = Vec::new();
    let mut i: usize = 0;
    while i < parts.len()
        invariant
            pv == parts@.map_values(|t: String| t@),
            pv == split_spec(text@, ch),
            i <= parts@.len(),
            crate::problem::vec_view(r) == trimmed_pieces(pv).take(i as int),
        decreases parts.len() - i,
    {
        let ghost before = crate::problem::vec_view(r);
        assert(pv[i as int] == parts@[i as int]@);
        r.push(trim(parts[i].as_str()).to_string());
        assert(crate::problem::vec_view(r) =~= before.push(trim_spec(pv[i as int])));
        assert(trimmed_pieces(pv).take(i + 1) =~= trimmed_pieces(pv).take(i as int).push(trim_spec(pv[i as int])));
        i = i + 1;
    }
    assert(trimmed_pieces(pv).take(i as int) =~= trimmed_pieces(pv));
    r
}

/// The optional list of texts that `t` takes from the groups `c`.
pub open spec fn opt_texts_spec(t: Option<Texts>, c: Seq<Option<Seq<char>>>) -> Option<Seq<Seq<char>>> {
    match t {
        Some(x) => Some(texts_spec(x, c)),
        None => None,
    }
}

/// Takes a text from the groups of a match.
pub fn text_of(t: &Text, caps: &Vec<Option<String>>) -> (r: String)
    ensures
        r@ == text_spec(*t, captures_view(caps@)),
{
    match t {
        Text::Group(g) => get_group(caps, *g),
        Text::Lit(s) => (*s).to_string(),
        Text::Trimmed(g) => {
            let x = get_group(caps, *g);
            trim(x.as_str()).to_string()
        },
        Text::Joined(a, sep, b, end) => {
            let x = get_group(caps, *a);
            let y = get_group(caps, *b);
            let head = concat(x.as_str(), sep);
            let both = concat(head.as_str(), y.as_str());
            let r = concat(both.as_str(), end);
            assert(r@ == x@ + sep@ + y@ + end@);
            r
        },
        Text::TrimmedEnd(g, ch) => {
            let x = get_group(caps, *g);
            trim_end_matches(x.as_str(), *ch).to_string()
        },
        Text::Unquoted(g) => {
            let x = get_group(caps, *g);
            trim_matches(trim(x.as_str()), '\'').to_string()
        },
        Text::Prefixed(p, g) => {
            let x = get_group(caps, *g);
            concat(p, x.as_str())
        },
        Text::Suffixed(g, s) => {
            let x = get_group(caps, *g);
            concat(x.as_str(), s)
        },
        Text::Lower(g) => {
            let x = get_group(caps, *g);
            to_lowercase(x.as_str())
        },
    }
}

/// Takes an optional text from the groups of a match.
pub fn opt_text_of(t: &Option<Text>, caps: &Vec<Option<String>>) -> (r: Option<String>)
    ensures
        crate::problem::opt_view(r) == opt_text_spec(*t, captures_view(caps@)),
{
    match t {
        Some(x) => Some(text_of(x, caps)),
        None => None,
    }
}

/// Takes a list of texts from the groups of a match.
pub fn texts_of(t: &Texts, caps: &Vec<Option<String>>) -> (r: Vec<String>)
    ensures
        crate::problem::vec_view(r) == texts_spec(*t, captures_view(caps@)),
{
    match t {
        Texts::Split(g, ch) => split_char(get_group(caps, *g).as_str(), *ch),
        Texts::SplitTrimmed(g, ch) => split_trimmed(get_group(caps, *g).as_str(), *ch),
        Texts::Words(g) => split_whitespace(get_group(caps, *g).as_str()),
        Texts::Lits(s) => split_whitespace(s),
        Texts::One(x) => {
            let mut v: Vec<String> = Vec::new();
            v.push(text_of(x, caps));
            assert(crate::problem::vec_view(v) =~= seq![text_spec(*x, captures_view(caps@))]);
            v
        },
    }
}

/// Takes an optional list of texts from the groups of a match.
pub fn opt_texts_of(t: &Option<Texts>, caps: &Vec<Option<String>>) -> (r: Option<Vec<String>>)
    ensures
        crate::problem::opt_vec_view(r) == opt_texts_spec(*t, captures_view(caps@)),
{
    match t {
        Some(x) => Some(texts_of(x, caps)),
        None => None,
    }
}

/// A recipe for a problem: its kind, and how each of its fields is taken from the
/// groups of a match.
#[derive(Debug, Clone)]
pub enum Template {
    /// A chroot does not exist.
    ChrootNotFound {
        /// How the chroot is taken.
        chroot: Text,
    },
    /// A file is missing.
    MissingFile {
        /// How the path is taken.
        path: Text,
    },
    /// A version control directory is needed.
    VcsControlDirectoryNeeded {
        /// How the vcs is taken.
        vcs: Texts,
    },
    /// A command is missing.
    MissingCommand(Text),
    /// A pkg-config module is missing.
    MissingPkgConfig {
        /// How the module is taken.
        module: Text,
        /// How the minimum version is taken.
        minimum_version: Option<Text>,
    },
    /// A node module is missing.
    MissingNodeModule(Text),
    /// A dependency, named loosely, is missing.
    MissingVagueDependency {
        /// How the name is taken.
        name: Text,
        /// How the url is taken.
        url: Option<Text>,
        /// How the minimum version is taken.
        minimum_version: Option<Text>,
        /// How the current version is taken.
        current_version: Option<Text>,
    },
    /// A Perl module is missing.
    MissingPerlModule {
        /// How the module is taken.
        module: Text,
        /// How the filename is taken.
        filename: Option<Text>,
        /// How the inc is taken.
        inc: Option<Texts>,
        /// How the minimum version is taken.
        minimum_version: Option<Text>,
    },
    /// An R package is missing.
    MissingRPackage {
        /// How the package is taken.
        package: Text,
        /// How the minimum version is taken.
        minimum_version: Option<Text>,
    },
    /// An autoconf macro is missing.
    MissingAutoconfMacro {
        /// How the macro name is taken.
        macro_name: Text,
        /// How the need rebuild is taken.
        need_rebuild: bool,
    },
    /// Maven artifacts are missing.
    MissingMavenArtifacts(Texts),
    /// A Ruby gem is missing.
    MissingRubyGem {
        /// How the gem is taken.
        gem: Text,
        /// How the version is taken.
        version: Option<Text>,
    },
    /// A Python module is missing.
    MissingPythonModule {
        /// How the module is taken.
        module: Text,
        /// How the python version is taken.
        python_version: Option<i32>,
        /// How the minimum version is taken.
        minimum_version: Option<Text>,
    },
    /// A Python distribution is missing.
    MissingPythonDistribution {
        /// How the distribution is taken.
        distribution: Text,
        /// How the python version is taken.
        python_version: Option<i32>,
        /// How the minimum version is taken.
        minimum_version: Option<Text>,
    },
    /// A C header is missing.
    MissingCHeader {
        /// How the header is taken.
        header: Text,
    },
    /// A Go package is missing.
    MissingGoPackage {
        /// How the package is taken.
        package: Text,
    },
    /// A node package is missing.
    MissingNodePackage(Text),
    /// A Vala package is missing.
    MissingValaPackage(Text),
    /// A library is missing.
    MissingLibrary(Text),
    /// A Haskell module is missing.
    MissingHaskellModule {
        /// How the module is taken.
        module: Text,
    },
    /// A Perl name that must be predeclared is missing.
    MissingPerlPredeclared(Text),
    /// A Perl file is missing.
    MissingPerlFile {
        /// How the filename is taken.
        filename: Text,
        /// How the inc is taken.
        inc: Option<Texts>,
    },
    /// A make target is missing.
    MissingMakeTarget {
        /// How the target is taken.
        target: Text,
        /// How the required by is taken.
        required_by: Option<Text>,
    },
    /// Components of a CMake package are missing.
    MissingCMakeComponents {
        /// How the name is taken.
        name: Text,
        /// How the components is taken.
        components: Texts,
    },
    /// The configuration file of a CMake package is missing.
    MissingCMakeConfig {
        /// How the name is taken.
        name: Text,
        /// How the version is taken.
        version: Option<Text>,
    },
    /// A debhelper addon failed to load.
    DhAddonLoadFailure {
        /// How the name is taken.
        name: Text,
        /// How the path is taken.
        path: Text,
    },
    /// A debhelper tool found nothing for a pattern.
    DebhelperPatternNotFound {
        /// How the pattern is taken.
        pattern: Text,
        /// How the tool is taken.
        tool: Text,
        /// How the directories is taken.
        directories: Texts,
    },
    /// A LaTeX file is missing.
    MissingLatexFile(Text),
    /// A Java class is missing.
    MissingJavaClass {
        /// How the classname is taken.
        classname: Text,
    },
    /// A file of the JDK is missing.
    MissingJDKFile {
        /// How the jdk path is taken.
        jdk_path: Text,
        /// How the filename is taken.
        filename: Text,
    },
    /// The JDK is missing.
    MissingJDK {
        /// How the jdk path is taken.
        jdk_path: Text,
    },
    /// An OCaml package is missing.
    MissingOCamlPackage(Text),
    /// An XML entity is missing.
    MissingXmlEntity {
        /// How the url is taken.
        url: Text,
    },
    /// A Sprockets asset is missing.
    MissingSprocketsFile {
        /// How the name is taken.
        name: Text,
        /// How the content type is taken.
        content_type: Text,
    },
    /// A PHP class is missing.
    MissingPhpClass {
        /// How the php class is taken.
        php_class: Text,
    },
    /// A PHP extension is missing.
    MissingPHPExtension(Text),
    /// A GObject introspection typelib is missing.
    MissingIntrospectionTypelib(Text),
    /// A Ruby file is missing.
    MissingRubyFile {
        /// How the filename is taken.
        filename: Text,
    },
    /// The certificate authority of a URL is unknown.
    UnknownCertificateAuthority(Text),
    /// A local directory does not exist.
    DirectoryNonExistant(Text),
    /// A file is not executable.
    NotExecutableFile(Text),
    /// An input file of config.status is missing.
    MissingConfigStatusInput {
        /// How the path is taken.
        path: Text,
    },
    /// An input file of automake is missing.
    MissingAutomakeInput {
        /// How the path is taken.
        path: Text,
    },
    /// The gettext versions of the Makefile and of autoconf differ.
    MismatchGettextVersions {
        /// How the makefile version is taken.
        makefile_version: Text,
        /// How the autoconf version is taken.
        autoconf_version: Text,
    },
    /// The debhelper compatibility level is set twice.
    DuplicateDHCompatLevel {
        /// How the command is taken.
        command: Text,
    },
    /// The debhelper compatibility level is not set.
    MissingDHCompatLevel {
        /// How the command is taken.
        command: Text,
    },
    /// The destination of a debhelper link is a directory.
    DhLinkDestinationIsDirectory(Text),
    /// A file was built but not installed.
    DhMissingUninstalled(Text),
    /// A pytest configuration option is not supported.
    UnsupportedPytestConfigOption(Text),
    /// debian/control must be regenerated with pg_buildext.
    NeedPgBuildExtUpdateControl {
        /// How the generated path is taken.
        generated_path: Text,
        /// How the template path is taken.
        template_path: Text,
    },
    /// ccache failed.
    CcacheError(Text),
    /// A PostgreSQL extension is missing.
    MissingPostgresExtension(Text),
    /// A font that fontspec needs is missing.
    MissingFontspec(Text),
    /// The build runs as a user it may not run as.
    InvalidCurrentUser(Text),
    /// The gnulib directory is missing.
    MissingGnulibDirectory(Text),
    /// A Lua module is missing.
    MissingLuaModule(Text),
    /// The minimum autoconf version is too old.
    MinimumAutoconfTooOld(Text),
    /// A file of a Perl distribution is missing.
    MissingPerlDistributionFile(Text),
    /// An ES module must be loaded with import.
    ESModuleMustUseImport(Text),
    /// A build dependency is missing from debian/control.
    MissingDebianBuildDep(Text),
    /// Qt modules are missing.
    MissingQtModules(Texts),
    /// An entry of go.sum is missing.
    MissingGoSumEntry {
        /// How the package is taken.
        package: Text,
        /// How the version is taken.
        version: Text,
    },
    /// A static library is missing.
    MissingStaticLibrary {
        /// How the library is taken.
        library: Text,
        /// How the filename is taken.
        filename: Text,
    },
    /// An Xfce dependency is missing.
    MissingXfceDependency {
        /// How the package is taken.
        package: Text,
    },
    /// An ImageMagick delegate is missing.
    ImageMagickDelegateMissing {
        /// How the delegate is taken.
        delegate: Text,
    },
    /// A patch did not apply.
    PatchApplicationFailed {
        /// How the patchname is taken.
        patchname: Text,
    },
    /// A Debian version was rejected.
    DebianVersionRejected {
        /// How the version is taken.
        version: Text,
    },
    /// A dependency of gnome-common is missing.
    MissingGnomeCommonDependency {
        /// How the package is taken.
        package: Text,
        /// How the minimum version is taken.
        minimum_version: Option<Text>,
    },
    /// A Cargo crate is missing.
    MissingCargoCrate {
        /// How the crate name is taken.
        crate_name: Text,
        /// How the requirement is taken.
        requirement: Option<Text>,
    },
    /// An upstart file is present.
    UpstartFilePresent(Text),
    /// A pytest fixture is missing.
    MissingPytestFixture(Text),
    /// CMake found a package, but not the exact version it needs.
    CMakeNeedExactVersion {
        /// How the package is taken.
        package: Text,
        /// How the version found is taken.
        version_found: Text,
        /// How the exact version needed is taken.
        exact_version_needed: Text,
        /// How the path is taken.
        path: Text,
    },
    /// CMake package configuration files are missing.
    CMakeFilesMissing {
        /// How the filenames is taken.
        filenames: Texts,
        /// How the version is taken.
        version: Option<Text>,
    },
}

/// The problem that the recipe `t` makes of the groups `c`.
pub open spec fn template_spec(t: Template, c: Seq<Option<Seq<char>>>) -> ProblemView {
    match t {
        Template::ChrootNotFound { chroot } => ProblemView::ChrootNotFound {
            chroot: text_spec(chroot, c),
        },
        Template::MissingFile { path } => ProblemView::MissingFile {
            path: text_spec(path, c),
        },
        Template::VcsControlDirectoryNeeded { vcs } => ProblemView::VcsControlDirectoryNeeded {
            vcs: texts_spec(vcs, c),
        },
        Template::MissingCommand(a0) => ProblemView::MissingCommand(text_spec(a0, c)),
        Template::MissingPkgConfig { module, minimum_version } => ProblemView::MissingPkgConfig {
            module: text_spec(module, c),
            minimum_version: opt_text_spec(minimum_version, c),
        },
        Template::MissingNodeModule(a0) => ProblemView::MissingNodeModule(text_spec(a0, c)),
        Template::MissingVagueDependency { name, url, minimum_version, current_version } => ProblemView::MissingVagueDependency {
            name: text_spec(name, c),
            url: opt_text_spec(url, c),
            minimum_version: opt_text_spec(minimum_version, c),
            current_version: opt_text_spec(current_version, c),
        },
        Template::MissingPerlModule { module, filename, inc, minimum_version } => ProblemView::MissingPerlModule {
            module: text_spec(module, c),
            filename: opt_text_spec(filename, c),
            inc: opt_texts_spec(inc, c),
            minimum_version: opt_text_spec(minimum_version, c),
        },
        Template::MissingRPackage { package, minimum_version } => ProblemView::MissingRPackage {
            package: text_spec(package, c),
            minimum_version: opt_text_spec(minimum_version, c),
        },
        Template::MissingAutoconfMacro { macro_name, need_rebuild } => ProblemView::MissingAutoconfMacro {
            macro_name: text_spec(macro_name, c),
            need_rebuild: need_rebuild,
        },
        Template::MissingMavenArtifacts(a0) => ProblemView::MissingMavenArtifacts(texts_spec(a0, c)),
        Template::MissingRubyGem { gem, version } => ProblemView::MissingRubyGem {
            gem: text_spec(gem, c),
            version: opt_text_spec(version, c),
        },
        Template::MissingPythonModule { module, python_version, minimum_version } => ProblemView::MissingPythonModule {
            module: text_spec(module, c),
            python_version: python_version,
            minimum_version: opt_text_spec(minimum_version, c),
        },
        Template::MissingPythonDistribution { distribution, python_version, minimum_version } => ProblemView::MissingPythonDistribution {
            distribution: text_spec(distribution, c),
            python_version: python_version,
            minimum_version: opt_text_spec(minimum_version, c),
        },
        Template::MissingCHeader { header } => ProblemView::MissingCHeader {
            header: text_spec(header, c),
        },
        Template::MissingGoPackage { package } => ProblemView::MissingGoPackage {
            package: text_spec(package, c),
        },
        Template::MissingNodePackage(a0) => ProblemView::MissingNodePackage(text_spec(a0, c)),
        Template::MissingValaPackage(a0) => ProblemView::MissingValaPackage(text_spec(a0, c)),
        Template::MissingLibrary(a0) => ProblemView::MissingLibrary(text_spec(a0, c)),
        Template::MissingHaskellModule { module } => ProblemView::MissingHaskellModule {
            module: text_spec(module, c),
        },
        Template::MissingPerlPredeclared(a0) => ProblemView::MissingPerlPredeclared(text_spec(a0, c)),
        Template::MissingPerlFile { filename, inc } => ProblemView::MissingPerlFile {
            filename: text_spec(filename, c),
            inc: opt_texts_spec(inc, c),
        },
        Template::MissingMakeTarget { target, required_by } => ProblemView::MissingMakeTarget {
            target: text_spec(target, c),
            required_by: opt_text_spec(required_by, c),
        },
        Template::MissingCMakeComponents { name, components } => ProblemView::MissingCMakeComponents {
            name: text_spec(name, c),
            components: texts_spec(components, c),
        },
        Template::MissingCMakeConfig { name, version } => ProblemView::MissingCMakeConfig {
            name: text_spec(name, c),
            version: opt_text_spec(version, c),
        },
        Template::DhAddonLoadFailure { name, path } => ProblemView::DhAddonLoadFailure {
            name: text_spec(name, c),
            path: text_spec(path, c),
        },
        Template::DebhelperPatternNotFound { pattern, tool, directories } => ProblemView::DebhelperPatternNotFound {
            pattern: text_spec(pattern, c),
            tool: text_spec(tool, c),
            directories: texts_spec(directories, c),
        },
        Template::MissingLatexFile(a0) => ProblemView::MissingLatexFile(text_spec(a0, c)),
        Template::MissingJavaClass { classname } => ProblemView::MissingJavaClass {
            classname: text_spec(classname, c),
        },
        Template::MissingJDKFile { jdk_path, filename } => ProblemView::MissingJDKFile {
            jdk_path: text_spec(jdk_path, c),
            filename: text_spec(filename, c),
        },
        Template::MissingJDK { jdk_path } => ProblemView::MissingJDK {
            jdk_path: text_spec(jdk_path, c),
        },
        Template::MissingOCamlPackage(a0) => ProblemView::MissingOCamlPackage(text_spec(a0, c)),
        Template::MissingXmlEntity { url } => ProblemView::MissingXmlEntity {
            url: text_spec(url, c),
        },
        Template::MissingSprocketsFile { name, content_type } => ProblemView::MissingSprocketsFile {
            name: text_spec(name, c),
            content_type: text_spec(content_type, c),
        },
        Template::MissingPhpClass { php_class } => ProblemView::MissingPhpClass {
            php_class: text_spec(php_class, c),
        },
        Template::MissingPHPExtension(a0) => ProblemView::MissingPHPExtension(text_spec(a0, c)),
        Template::MissingIntrospectionTypelib(a0) => ProblemView::MissingIntrospectionTypelib(text_spec(a0, c)),
        Template::MissingRubyFile { filename } => ProblemView::MissingRubyFile {
            filename: text_spec(filename, c),
        },
        Template::UnknownCertificateAuthority(a0) => ProblemView::UnknownCertificateAuthority(text_spec(a0, c)),
        Template::DirectoryNonExistant(a0) => ProblemView::DirectoryNonExistant(text_spec(a0, c)),
        Template::NotExecutableFile(a0) => ProblemView::NotExecutableFile(text_spec(a0, c)),
        Template::MissingConfigStatusInput { path } => ProblemView::MissingConfigStatusInput {
            path: text_spec(path, c),
        },
        Template::MissingAutomakeInput { path } => ProblemView::MissingAutomakeInput {
            path: text_spec(path, c),
        },
        Template::MismatchGettextVersions { makefile_version, autoconf_version } => ProblemView::MismatchGettextVersions {
            makefile_version: text_spec(makefile_version, c),
            autoconf_version: text_spec(autoconf_version, c),
        },
        Template::DuplicateDHCompatLevel { command } => ProblemView::DuplicateDHCompatLevel {
            command: text_spec(command, c),
        },
        Template::MissingDHCompatLevel { command } => ProblemView::MissingDHCompatLevel {
            command: text_spec(command, c),
        },
        Template::DhLinkDestinationIsDirectory(a0) => ProblemView::DhLinkDestinationIsDirectory(text_spec(a0, c)),
        Template::DhMissingUninstalled(a0) => ProblemView::DhMissingUninstalled(text_spec(a0, c)),
        Template::UnsupportedPytestConfigOption(a0) => ProblemView::UnsupportedPytestConfigOption(text_spec(a0, c)),
        Template::NeedPgBuildExtUpdateControl { generated_path, template_path } => ProblemView::NeedPgBuildExtUpdateControl {
            generated_path: text_spec(generated_path, c),
            template_path: text_spec(template_path, c),
        },
        Template::CcacheError(a0) => ProblemView::CcacheError(text_spec(a0, c)),
        Template::MissingPostgresExtension(a0) => ProblemView::MissingPostgresExtension(text_spec(a0, c)),
        Template::MissingFontspec(a0) => ProblemView::MissingFontspec(text_spec(a0, c)),
        Template::InvalidCurrentUser(a0) => ProblemView::InvalidCurrentUser(text_spec(a0, c)),
        Template::MissingGnulibDirectory(a0) => ProblemView::MissingGnulibDirectory(text_spec(a0, c)),
        Template::MissingLuaModule(a0) => ProblemView::MissingLuaModule(text_spec(a0, c)),
        Template::MinimumAutoconfTooOld(a0) => ProblemView::MinimumAutoconfTooOld(text_spec(a0, c)),
        Template::MissingPerlDistributionFile(a0) => ProblemView::MissingPerlDistributionFile(text_spec(a0, c)),
        Template::ESModuleMustUseImport(a0) => ProblemView::ESModuleMustUseImport(text_spec(a0, c)),
        Template::MissingDebianBuildDep(a0) => ProblemView::MissingDebianBuildDep(text_spec(a0, c)),
        Template::MissingQtModules(a0) => ProblemView::MissingQtModules(texts_spec(a0, c)),
        Template::MissingGoSumEntry { package, version } => ProblemView::MissingGoSumEntry {
            package: text_spec(package, c),
            version: text_spec(version, c),
        },
        Template::MissingStaticLibrary { library, filename } => ProblemView::MissingStaticLibrary {
            library: text_spec(library, c),
            filename: text_spec(filename, c),
        },
        Template::MissingXfceDependency { package } => ProblemView::MissingXfceDependency {
            package: text_spec(package, c),
        },
        Template::ImageMagickDelegateMissing { delegate } => ProblemView::ImageMagickDelegateMissing {
            delegate: text_spec(delegate, c),
        },
        Template::PatchApplicationFailed { patchname } => ProblemView::PatchApplicationFailed {
            patchname: text_spec(patchname, c),
        },
        Template::DebianVersionRejected { version } => ProblemView::DebianVersionRejected {
            version: text_spec(version, c),
        },
        Template::MissingGnomeCommonDependency { package, minimum_version } => ProblemView::MissingGnomeCommonDependency {
            package: text_spec(package, c),
            minimum_version: opt_text_spec(minimum_version, c),
        },
        Template::MissingCargoCrate { crate_name, requirement } => ProblemView::MissingCargoCrate {
            crate_name: text_spec(crate_name, c),
            requirement: opt_text_spec(requirement, c),
        },
        Template::UpstartFilePresent(a0) => ProblemView::UpstartFilePresent(text_spec(a0, c)),
        Template::MissingPytestFixture(a0) => ProblemView::MissingPytestFixture(text_spec(a0, c)),
        Template::CMakeNeedExactVersion { package, version_found, exact_version_needed, path } => ProblemView::CMakeNeedExactVersion {
            package: text_spec(package, c),
            version_found: text_spec(version_found, c),
            exact_version_needed: text_spec(exact_version_needed, c),
            path: text_spec(path, c),
        },
        Template::CMakeFilesMissing { filenames, version } => ProblemView::CMakeFilesMissing {
            filenames: texts_spec(filenames, c),
            version: opt_text_spec(version, c),
        },
    }
}

/// Makes the problem that a recipe describes from the groups of a match.
pub fn make_problem(t: &Template, caps: &Vec<Option<String>>) -> (r: Problem)
    ensures
        r@ == template_spec(*t, captures_view(caps@)),
{
    match t {
        Template::ChrootNotFound { chroot } => Problem::ChrootNotFound {
            chroot: text_of(chroot, caps),
        },
        Template::MissingFile { path } => Problem::MissingFile {
            path: text_of(path, caps),
        },
        Template::VcsControlDirectoryNeeded { vcs } => Problem::VcsControlDirectoryNeeded {
            vcs: texts_of(vcs, caps),
        },
        Template::MissingCommand(a0) => Problem::MissingCommand(text_of(a0, caps)),
        Template::MissingPkgConfig { module, minimum_version } => Problem::MissingPkgConfig {
            module: text_of(module, caps),
            minimum_version: opt_text_of(minimum_version, caps),
        },
        Template::MissingNodeModule(a0) => Problem::MissingNodeModule(text_of(a0, caps)),
        Template::MissingVagueDependency { name, url, minimum_version, current_version } => Problem::MissingVagueDependency {
            name: text_of(name, caps),
            url: opt_text_of(url, caps),
            minimum_version: opt_text_of(minimum_version, caps),
            current_version: opt_text_of(current_version, caps),
        },
        Template::MissingPerlModule { module, filename, inc, minimum_version } => Problem::MissingPerlModule {
            module: text_of(module, caps),
            filename: opt_text_of(filename, caps),
            inc: opt_texts_of(inc, caps),
            minimum_version: opt_text_of(minimum_version, caps),
        },
        Template::MissingRPackage { package, minimum_version } => Problem::MissingRPackage {
            package: text_of(package, caps),
            minimum_version: opt_text_of(minimum_version, caps),
        },
        Template::MissingAutoconfMacro { macro_name, need_rebuild } => Problem::MissingAutoconfMacro {
            macro_name: text_of(macro_name, caps),
            need_rebuild: *need_rebuild,
        },
        Template::MissingMavenArtifacts(a0) => Problem::MissingMavenArtifacts(texts_of(a0, caps)),
        Template::MissingRubyGem { gem, version } => Problem::MissingRubyGem {
            gem: text_of(gem, caps),
            version: opt_text_of(version, caps),
        },
        Template::MissingPythonModule { module, python_version, minimum_version } => Problem::MissingPythonModule {
            module: text_of(module, caps),
            python_version: *python_version,
            minimum_version: opt_text_of(minimum_version, caps),
        },
        Template::MissingPythonDistribution { distribution, python_version, minimum_version } => Problem::MissingPythonDistribution {
            distribution: text_of(distribution, caps),
            python_version: *python_version,
            minimum_version: opt_text_of(minimum_version, caps),
        },
        Template::MissingCHeader { header } => Problem::MissingCHeader {
            header: text_of(header, caps),
        },
        Template::MissingGoPackage { package } => Problem::MissingGoPackage {
            package: text_of(package, caps),
        },
        Template::MissingNodePackage(a0) => Problem::MissingNodePackage(text_of(a0, caps)),
        Template::MissingValaPackage(a0) => Problem::MissingValaPackage(text_of(a0, caps)),
        Template::MissingLibrary(a0) => Problem::MissingLibrary(text_of(a0, caps)),
        Template::MissingHaskellModule { module } => Problem::MissingHaskellModule {
            module: text_of(module, caps),
        },
        Template::MissingPerlPredeclared(a0) => Problem::MissingPerlPredeclared(text_of(a0, caps)),
        Template::MissingPerlFile { filename, inc } => Problem::MissingPerlFile {
            filename: text_of(filename, caps),
            inc: opt_texts_of(inc, caps),
        },
        Template::MissingMakeTarget { target, required_by } => Problem::MissingMakeTarget {
            target: text_of(target, caps),
            required_by: opt_text_of(required_by, caps),
        },
        Template::MissingCMakeComponents { name, components } => Problem::MissingCMakeComponents {
            name: text_of(name, caps),
            components: texts_of(components, caps),
        },
        Template::MissingCMakeConfig { name, version } => Problem::MissingCMakeConfig {
            name: text_of(name, caps),
            version: opt_text_of(version, caps),
        },
        Template::DhAddonLoadFailure { name, path } => Problem::DhAddonLoadFailure {
            name: text_of(name, caps),
            path: text_of(path, caps),
        },
        Template::DebhelperPatternNotFound { pattern, tool, directories } => Problem::DebhelperPatternNotFound {
            pattern: text_of(pattern, caps),
            tool: text_of(tool, caps),
            directories: texts_of(directories, caps),
        },
        Template::MissingLatexFile(a0) => Problem::MissingLatexFile(text_of(a0, caps)),
        Template::MissingJavaClass { classname } => Problem::MissingJavaClass {
            classname: text_of(classname, caps),
        },
        Template::MissingJDKFile { jdk_path, filename } => Problem::MissingJDKFile {
            jdk_path: text_of(jdk_path, caps),
            filename: text_of(filename, caps),
        },
        Template::MissingJDK { jdk_path } => Problem::MissingJDK {
            jdk_path: text_of(jdk_path, caps),
        },
        Template::MissingOCamlPackage(a0) => Problem::MissingOCamlPackage(text_of(a0, caps)),
        Template::MissingXmlEntity { url } => Problem::MissingXmlEntity {
            url: text_of(url, caps),
        },
        Template::MissingSprocketsFile { name, content_type } => Problem::MissingSprocketsFile {
            name: text_of(name, caps),
            content_type: text_of(content_type, caps),
        },
        Template::MissingPhpClass { php_class } => Problem::MissingPhpClass {
            php_class: text_of(php_class, caps),
        },
        Template::MissingPHPExtension(a0) => Problem::MissingPHPExtension(text_of(a0, caps)),
        Template::MissingIntrospectionTypelib(a0) => Problem::MissingIntrospectionTypelib(text_of(a0, caps)),
        Template::MissingRubyFile { filename } => Problem::MissingRubyFile {
            filename: text_of(filename, caps),
        },
        Template::UnknownCertificateAuthority(a0) => Problem::UnknownCertificateAuthority(text_of(a0, caps)),
        Template::DirectoryNonExistant(a0) => Problem::DirectoryNonExistant(text_of(a0, caps)),
        Template::NotExecutableFile(a0) => Problem::NotExecutableFile(text_of(a0, caps)),
        Template::MissingConfigStatusInput { path } => Problem::MissingConfigStatusInput {
            path: text_of(path, caps),
        },
        Template::MissingAutomakeInput { path } => Problem::MissingAutomakeInput {
            path: text_of(path, caps),
        },
        Template::MismatchGettextVersions { makefile_version, autoconf_version } => Problem::MismatchGettextVersions {
            makefile_version: text_of(makefile_version, caps),
            autoconf_version: text_of(autoconf_version, caps),
        },
        Template::DuplicateDHCompatLevel { command } => Problem::DuplicateDHCompatLevel {
            command: text_of(command, caps),
        },
        Template::MissingDHCompatLevel { command } => Problem::MissingDHCompatLevel {
            command: text_of(command, caps),
        },
        Template::DhLinkDestinationIsDirectory(a0) => Problem::DhLinkDestinationIsDirectory(text_of(a0, caps)),
        Template::DhMissingUninstalled(a0) => Problem::DhMissingUninstalled(text_of(a0, caps)),
        Template::UnsupportedPytestConfigOption(a0) => Problem::UnsupportedPytestConfigOption(text_of(a0, caps)),
        Template::NeedPgBuildExtUpdateControl { generated_path, template_path } => Problem::NeedPgBuildExtUpdateControl {
            generated_path: text_of(generated_path, caps),
            template_path: text_of(template_path, caps),
        },
        Template::CcacheError(a0) => Problem::CcacheError(text_of(a0, caps)),
        Template::MissingPostgresExtension(a0) => Problem::MissingPostgresExtension(text_of(a0, caps)),
        Template::MissingFontspec(a0) => Problem::MissingFontspec(text_of(a0, caps)),
        Template::InvalidCurrentUser(a0) => Problem::InvalidCurrentUser(text_of(a0, caps)),
        Template::MissingGnulibDirectory(a0) => Problem::MissingGnulibDirectory(text_of(a0, caps)),
        Template::MissingLuaModule(a0) => Problem::MissingLuaModule(text_of(a0, caps)),
        Template::MinimumAutoconfTooOld(a0) => Problem::MinimumAutoconfTooOld(text_of(a0, caps)),
        Template::MissingPerlDistributionFile(a0) => Problem::MissingPerlDistributionFile(text_of(a0, caps)),
        Template::ESModuleMustUseImport(a0) => Problem::ESModuleMustUseImport(text_of(a0, caps)),
        Template::MissingDebianBuildDep(a0) => Problem::MissingDebianBuildDep(text_of(a0, caps)),
        Template::MissingQtModules(a0) => Problem::MissingQtModules(texts_of(a0, caps)),
        Template::MissingGoSumEntry { package, version } => Problem::MissingGoSumEntry {
            package: text_of(package, caps),
            version: text_of(version, caps),
        },
        Template::MissingStaticLibrary { library, filename } => Problem::MissingStaticLibrary {
            library: text_of(library, caps),
            filename: text_of(filename, caps),
        },
        Template::MissingXfceDependency { package } => Problem::MissingXfceDependency {
            package: text_of(package, caps),
        },
        Template::ImageMagickDelegateMissing { delegate } => Problem::ImageMagickDelegateMissing {
            delegate: text_of(delegate, caps),
        },
        Template::PatchApplicationFailed { patchname } => Problem::PatchApplicationFailed {
            patchname: text_of(patchname, caps),
        },
        Template::DebianVersionRejected { version } => Problem::DebianVersionRejected {
            version: text_of(version, caps),
        },
        Template::MissingGnomeCommonDependency { package, minimum_version } => Problem::MissingGnomeCommonDependency {
            package: text_of(package, caps),
            minimum_version: opt_text_of(minimum_version, caps),
        },
        Template::MissingCargoCrate { crate_name, requirement } => Problem::MissingCargoCrate {
            crate_name: text_of(crate_name, caps),
            requirement: opt_text_of(requirement, caps),
        },
        Template::UpstartFilePresent(a0) => Problem::UpstartFilePresent(text_of(a0, caps)),
        Template::MissingPytestFixture(a0) => Problem::MissingPytestFixture(text_of(a0, caps)),
        Template::CMakeNeedExactVersion { package, version_found, exact_version_needed, path } => Problem::CMakeNeedExactVersion {
            package: text_of(package, caps),
            version_found: text_of(version_found, caps),
            exact_version_needed: text_of(exact_version_needed, caps),
            path: text_of(path, caps),
        },
        Template::CMakeFilesMissing { filenames, version } => Problem::CMakeFilesMissing {
            filenames: texts_of(filenames, caps),
            version: opt_text_of(version, caps),
        },
    }
}

} // verus!
