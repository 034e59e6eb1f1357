use buildlog_consultant::common::{
    common_matcher_group, find_build_failure_description_with, find_secondary_build_failure,
    MatcherGroup,
};
use buildlog_consultant::problem::Problem;
use buildlog_consultant::Match;
use std::sync::OnceLock;

/// The matchers for build logs, compiled once for all the checks of a test.
static GROUP: OnceLock<MatcherGroup> = OnceLock::new();

fn find_failure(lines: Vec<&str>) -> (Option<buildlog_consultant::logmatch::LogMatch>, Option<Problem>) {
    find_build_failure_description_with(GROUP.get_or_init(common_matcher_group), lines)
}

fn assert_just_match(lines: Vec<&str>, lineno: usize) {
    let (found, actual_err) = find_failure(lines.clone());
    assert!(actual_err.is_none(), "unexpected problem {:?}", actual_err);
    if let Some(found) = found.as_ref() {
        assert_eq!(&found.line(), &lines[lineno - 1]);
        assert_eq!(lineno, found.lineno());
    } else {
        assert!(found.is_none());
    }
}

fn assert_match(lines: Vec<&str>, lineno: usize, expected: Option<Problem>) {
    let (found, actual_err) = find_failure(lines.clone());
    if let Some(found) = found.as_ref() {
        assert_eq!(&found.line(), &lines[lineno - 1]);
        assert_eq!(lineno, found.lineno());
    } else {
        assert!(found.is_none());
    }
    if let Some(expected) = expected {
        assert!(found.is_some(), "err ({:?}) provided but match missing", &expected);
        assert_eq!(actual_err, Some(expected));
    } else {
        assert!(actual_err.is_none(), "unexpected problem {:?}", actual_err);
    }
}

    #[test]
    fn common_test_make_missing_rule() {
        assert_match(
        vec![
                "make[1]: *** No rule to make target 'nno.autopgen.bin', needed by 'dan-nno.autopgen.bin'.  Stop."
            ],
        1,
        Some(Problem::MissingMakeTarget { target: "nno.autopgen.bin".to_string(), required_by: Some("dan-nno.autopgen.bin".to_string()) }),
    );

        assert_match(
        vec![
                "make[1]: *** No rule to make target '/usr/share/blah/blah', needed by 'dan-nno.autopgen.bin'.  Stop."
            ],
        1,
        Some(Problem::MissingMakeTarget { target: "/usr/share/blah/blah".to_string(), required_by: Some("dan-nno.autopgen.bin".to_string()) }),
    );
        assert_match(
        vec![
                "debian/rules:4: /usr/share/openstack-pkg-tools/pkgos.make: No such file or directory"
            ],
        1,
        Some(Problem::MissingFile { path: "/usr/share/openstack-pkg-tools/pkgos.make".to_string() }),
    );
    }

    #[test]
    fn test_git_identity() {
        assert_match(
        vec![
                "fatal: unable to auto-detect email address (got 'jenkins@osuosl167-amd64.(none)')",
            ],
        1,
        Some(Problem::Other { kind: "missing-git-identity".to_string() }),
    );
    }

    #[test]
    fn test_ioerror() {
        assert_match(
        vec![
                "E   IOError: [Errno 2] No such file or directory: '/usr/lib/python2.7/poly1305/rfc7539.txt'"
            ],
        1,
        Some(Problem::MissingFile { path: "/usr/lib/python2.7/poly1305/rfc7539.txt".to_string() }),
    );
    }

    #[test]
    fn test_vignette() {
        assert_match(
        vec![
                "Error: processing vignette 'uroot-intro.Rnw' failed with diagnostics:",
                "pdflatex is not available",
            ],
        2,
        Some(Problem::MissingVagueDependency { name: "pdflatex".to_string(), url: None, minimum_version: None, current_version: None }),
    );
    }

    #[test]
    fn test_upstart_file_present() {
        assert_match(
        vec![
                "dh_installinit: upstart jobs are no longer supported!  Please remove debian/sddm.upstart and check if you need to add a conffile removal"
            ],
        1,
        Some(Problem::UpstartFilePresent("debian/sddm.upstart".to_string())),
    );
    }

    #[test]
    fn test_missing_go_mod_file() {
        assert_match(
        vec![
                "go: go.mod file not found in current directory or any parent directory; see 'go help modules'"
            ],
        1,
        Some(Problem::Other { kind: "missing-go.mod-file".to_string() }),
    );
    }

    #[test]
    fn test_missing_javascript_runtime() {
        assert_match(
        vec![
                "ExecJS::RuntimeUnavailable: Could not find a JavaScript runtime. See https://github.com/rails/execjs for a list of available runtimes."],
        1,
        Some(Problem::Other { kind: "missing-javascript-runtime".to_string() }),
    );
    }

    #[test]
    fn test_directory_missing() {
        assert_match(
        vec!["debian/components/build: 19: cd: can't cd to rollup-plugin"],
        1,
        Some(Problem::DirectoryNonExistant("rollup-plugin".to_string())),
    );
    }

    #[test]
    fn test_vcs_control_directory() {
        assert_match(
        vec!["   > Cannot find '.git' directory"],
        1,
        Some(Problem::VcsControlDirectoryNeeded { vcs: vec!["git".to_string()] }),
    );
    }

    #[test]
    fn test_missing_sprockets_file() {
        assert_match(
        vec![
                "Sprockets::FileNotFound: couldn't find file 'activestorage' with type 'application/javascript'"
            ],
        1,
        Some(Problem::MissingSprocketsFile { name: "activestorage".to_string(), content_type: "application/javascript".to_string() }),
    );
    }

    #[test]
    fn test_gxx_missing_file() {
        assert_match(
        vec!["g++: error: /usr/lib/x86_64-linux-gnu/libGL.so: No such file or directory"],
        1,
        Some(Problem::MissingFile { path: "/usr/lib/x86_64-linux-gnu/libGL.so".to_string() }),
    );
    }

    #[test]
    fn test_build_xml_missing_file() {
        assert_match(
        vec!["/<<PKGBUILDDIR>>/build.xml:59: /<<PKGBUILDDIR>>/lib does not exist."],
        1,
        Some(Problem::MissingBuildFile { filename: "lib".to_string() }),
    );
    }

    #[test]
    fn test_vignette_builder() {
        assert_match(
        vec!["  vignette builder 'R.rsp' not found"],
        1,
        Some(Problem::MissingRPackage { package: "R.rsp".to_string(), minimum_version: None }),
    );
    }

    #[test]
    fn test_dh_missing_addon() {
        assert_match(
        vec![
                "   dh_auto_clean -O--buildsystem=pybuild",
                "E: Please add appropriate interpreter package to Build-Depends, see pybuild(1) for details.this: $VAR1 = bless( {",
                "     'py3vers' => '3.8',",
                "     'py3def' => '3.8',",
                "     'pyvers' => '',",
                "     'parallel' => '2',",
                "     'cwd' => '/<<PKGBUILDDIR>>',",
                "     'sourcedir' => '.',",
                "     'builddir' => undef,",
                "     'pypydef' => '',",
                "     'pydef' => ''",
                "   }, 'Debian::Debhelper::Buildsystem::pybuild' );",
                "deps: $VAR1 = [];",
            ],
        2,
        Some(Problem::DhAddonLoadFailure { name: "pybuild".to_string(), path: "Debian/Debhelper/Buildsystem/pybuild.pm".to_string() }),
    );
    }

    #[test]
    fn test_libtoolize_missing_file() {
        assert_match(
        vec!["libtoolize:   error: '/usr/share/aclocal/ltdl.m4' does not exist."],
        1,
        Some(Problem::MissingFile { path: "/usr/share/aclocal/ltdl.m4".to_string() }),
    );
    }

    #[test]
    fn test_ruby_missing_file() {
        assert_match(
        vec![
                "Error: Error: ENOENT: no such file or directory, open '/usr/lib/nodejs/requirejs/text.js'"
            ],
        1,
        Some(Problem::MissingFile { path: "/usr/lib/nodejs/requirejs/text.js".to_string() }),
    );
    }

    #[test]
    fn test_vcversioner() {
        assert_match(
        vec![
                "vcversioner: ['git', '--git-dir', '/build/tmp0tlam4pe/pyee/.git', 'describe', '--tags', '--long'] failed and '/build/tmp0tlam4pe/pyee/version.txt' isn't present."
            ],
        1,
        Some(Problem::Other { kind: "missing-vcversioner-version".to_string() }),
    );
    }

    #[test]
    fn test_python_missing_file() {
        assert_match(
        vec![
                "python3.7: can't open file '/usr/bin/blah.py': [Errno 2] No such file or directory"
            ],
        1,
        Some(Problem::MissingFile { path: "/usr/bin/blah.py".to_string() }),
    );
        assert_match(
        vec!["python3.7: can't open file 'setup.py': [Errno 2] No such file or directory"],
        1,
        Some(Problem::MissingBuildFile { filename: "setup.py".to_string() }),
    );
        assert_match(
        vec![
                "E           FileNotFoundError: [Errno 2] No such file or directory: '/usr/share/firmware-microbit-micropython/firmware.hex'"
            ],
        1,
        Some(Problem::MissingFile { path: "/usr/share/firmware-microbit-micropython/firmware.hex".to_string() }),
    );
    }

    #[test]
    fn common_test_vague() {
        assert_match(
        vec![
                "configure: error: Please install gnu flex from http://www.gnu.org/software/flex/",
            ],
        1,
        Some(Problem::MissingVagueDependency { name: "gnu flex".to_string(), url: Some("http://www.gnu.org/software/flex/".to_string()), minimum_version: None, current_version: None }),
    );
        assert_match(
        vec!["RuntimeError: cython is missing"],
        1,
        Some(Problem::MissingVagueDependency { name: "cython".to_string(), url: None, minimum_version: None, current_version: None }),
    );
        assert_match(
        vec![
                "configure: error:",
                "",
                "        Unable to find the Multi Emulator Super System (MESS).",
            ],
        3,
        Some(Problem::MissingVagueDependency { name: "the Multi Emulator Super System (MESS)".to_string(), url: None, minimum_version: None, current_version: None }),
    );
        assert_match(
        vec![
                "configure: error: libwandio 4.0.0 or better is required to compile this version of libtrace. If you have installed libwandio in a non-standard location please use LDFLAGS to specify the location of the library. WANDIO can be obtained from http://research.wand.net.nz/software/libwandio.php"
            ],
        1,
        Some(Problem::MissingVagueDependency { name: "libwandio".to_string(), url: None, minimum_version: Some("4.0.0".to_string()), current_version: None }),
    );
        assert_match(
        vec![
                "configure: error: libpcap0.8 or greater is required to compile libtrace. If you have installed it in a non-standard location please use LDFLAGS to specify the location of the library"
            ],
        1,
        Some(Problem::MissingVagueDependency { name: "libpcap0.8".to_string(), url: None, minimum_version: None, current_version: None }),
    );
        assert_match(
        vec!["Error: Please install xml2 package"],
        1,
        Some(Problem::MissingVagueDependency { name: "xml2".to_string(), url: None, minimum_version: None, current_version: None }),
    );
    }

    #[test]
    fn test_gettext_mismatch() {
        assert_match(
        vec![
                "*** error: gettext infrastructure mismatch: using a Makefile.in.in from gettext version 0.19 but the autoconf macros are from gettext version 0.20"
            ],
        1,
        Some(Problem::MismatchGettextVersions { makefile_version: "0.19".to_string(), autoconf_version: "0.20".to_string() }),
    );
    }

    #[test]
    fn test_x11_missing() {
        assert_match(
        vec![
                "configure: error: *** No X11! Install X-Windows development headers/libraries! ***"
            ],
        1,
        Some(Problem::Other { kind: "missing-x11".to_string() }),
    );
    }

    #[test]
    fn test_multi_line_configure_error() {
        assert_just_match(
            vec!["configure: error:", "", "        Some other error."],
            3,
        );
        assert_match(
        vec![
                "configure: error:",
                "",
                "   Unable to find the Multi Emulator Super System (MESS).",
                "",
                "   Please install MESS, or specify the MESS command with",
                "   a MESS environment variable.",
                "",
                "e.g. MESS=/path/to/program/mess ./configure",
            ],
        3,
        Some(Problem::MissingVagueDependency { name: "the Multi Emulator Super System (MESS)".to_string(), url: None, minimum_version: None, current_version: None }),
    );
    }

    #[test]
    fn test_interpreter_missing() {
        assert_match(
        vec![
                "/bin/bash: /usr/bin/rst2man: /usr/bin/python: bad interpreter: No such file or directory"
            ],
        1,
        Some(Problem::MissingFile { path: "/usr/bin/python".to_string() }),
    );
        assert_just_match(
            vec!["env: ‘/<<PKGBUILDDIR>>/socket-activate’: No such file or directory"],
            1,
        );
    }

    #[test]
    fn test_webpack_missing() {
        assert_just_match(
            vec![
                "ERROR in Entry module not found: Error: Can't resolve 'index.js' in '/<<PKGBUILDDIR>>'"
            ],
            1,
        );
    }

    #[test]
    fn test_installdocs_missing() {
        assert_match(
        vec![
                r#"dh_installdocs: Cannot find (any matches for) "README.txt" (tried in ., debian/tmp)"#,
            ],
        1,
        Some(Problem::DebhelperPatternNotFound { pattern: "README.txt".to_string(), tool: "installdocs".to_string(), directories: vec![".".to_string(), "debian/tmp".to_string()] }),
    );
    }

    #[test]
    fn test_dh_compat_dupe() {
        assert_match(
        vec![
                "dh_autoreconf: debhelper compat level specified both in debian/compat and via build-dependency on debhelper-compat"
            ],
        1,
        Some(Problem::DuplicateDHCompatLevel { command: "dh_autoreconf".to_string() }),
    );
    }

    #[test]
    fn test_dh_compat_missing() {
        assert_match(
        vec!["dh_clean: Please specify the compatibility level in debian/compat"],
        1,
        Some(Problem::MissingDHCompatLevel { command: "dh_clean".to_string() }),
    );
    }

    #[test]
    fn test_dh_compat_too_old() {
        assert_match(
        vec! [
                "dh_clean: error: Compatibility levels before 7 are no longer supported (level 5 requested)"
            ],
        1,
        Some(Problem::UnsupportedDebhelperCompatLevel { oldest_supported: 7, requested: 5 }),
    );
    }

    #[test]
    fn test_dh_udeb_shared_library() {
        assert_just_match(vec![
                "dh_makeshlibs: The udeb libepoxy0-udeb (>= 1.3) does not contain any shared libraries but --add-udeb=libepoxy0-udeb (>= 1.3) was passed!?"
            ],
            1,
        );
    }

    #[test]
    fn test_dh_systemd() {
        assert_just_match(
            vec![
                "dh: unable to load addon systemd: dh: The systemd-sequence is no longer provided in compat >= 11, please rely on dh_installsystemd instead"
            ],
            1,
        );
    }

    #[test]
    fn test_dh_before() {
        assert_just_match(vec![
                "dh: The --before option is not supported any longer (#932537). Use override targets instead."
            ],
            1,
        );
    }

    #[test]
    fn test_meson_missing_git() {
        assert_match(
        vec!["meson.build:13:0: ERROR: Git program not found."],
        1,
        Some(Problem::MissingCommand("git".to_string())),
    );
    }

    #[test]
    fn test_meson_missing_lib() {
        assert_match(
        vec!["meson.build:85:0: ERROR: C++ shared or static library 'vulkan-1' not found"],
        1,
        Some(Problem::MissingLibrary("vulkan-1".to_string())),
    );
    }

    #[test]
    fn test_ocaml_library_missing() {
        assert_match(
        vec![r#"Error: Library "camlp-streams" not found."#],
        1,
        Some(Problem::MissingOCamlPackage("camlp-streams".to_string())),
    );
    }

    #[test]
    fn test_meson_version() {
        assert_match(
        vec!["meson.build:1:0: ERROR: Meson version is 0.49.2 but project requires >=0.50"],
        1,
        Some(Problem::MissingVagueDependency { name: "meson".to_string(), url: None, minimum_version: Some("0.50".to_string()), current_version: Some("0.49.2".to_string()) }),
    );
        assert_match(
        vec!["../meson.build:1:0: ERROR: Meson version is 0.49.2 but project requires >=0.50"],
        1,
        Some(Problem::MissingVagueDependency { name: "meson".to_string(), url: None, minimum_version: Some("0.50".to_string()), current_version: Some("0.49.2".to_string()) }),
    );
    }

    #[test]
    fn test_need_pgbuildext() {
        assert_match(
        vec![
                "Error: debian/control needs updating from debian/control.in. Run 'pg_buildext updatecontrol'."
            ],
        1,
        Some(Problem::NeedPgBuildExtUpdateControl { generated_path: "debian/control".to_string(), template_path: "debian/control.in".to_string() }),
    );
    }

    #[test]
    fn test_cmake_missing_command() {
        assert_match(
        vec![
                "  Could NOT find Git (missing: GIT_EXECUTABLE)",
                "dh_auto_configure: cd obj-x86_64-linux-gnu && cmake with args",
            ],
        1,
        Some(Problem::MissingCommand("git".to_string())),
    );
    }

    #[test]
    fn test_autoconf_version() {
        assert_match(
        vec!["configure.ac:13: error: Autoconf version 2.71 or higher is required"],
        1,
        Some(Problem::MissingVagueDependency { name: "autoconf".to_string(), url: None, minimum_version: Some("2.71".to_string()), current_version: None }),
    );
    }

    #[test]
    fn test_claws_version() {
        assert_match(
        vec!["configure: error: libetpan 0.57 not found"],
        1,
        Some(Problem::MissingVagueDependency { name: "libetpan".to_string(), url: None, minimum_version: Some("0.57".to_string()), current_version: None }),
    );
    }

    #[test]
    fn test_config_status_input() {
        assert_match(
        vec!["config.status: error: cannot find input file: `po/Makefile.in.in'"],
        1,
        Some(Problem::MissingConfigStatusInput { path: "po/Makefile.in.in".to_string() }),
    );
    }

    #[test]
    fn test_jvm() {
        assert_match(
        vec!["ERROR: JAVA_HOME is set to an invalid directory: /usr/lib/jvm/default-java/"],
        1,
        Some(Problem::Other { kind: "missing-jvm".to_string() }),
    );
    }

    #[test]
    fn test_cp() {
        assert_match(
        vec![
                "cp: cannot stat '/<<PKGBUILDDIR>>/debian/patches/lshw-gtk.desktop': No such file or directory"
            ],
        1,
        Some(Problem::MissingBuildFile { filename: "debian/patches/lshw-gtk.desktop".to_string() }),
    );
    }

    #[test]
    fn test_bash_redir_missing() {
        assert_match(
        vec!["/bin/bash: idna-tables-properties.csv: No such file or directory"],
        1,
        Some(Problem::MissingBuildFile { filename: "idna-tables-properties.csv".to_string() }),
    );
    }

    #[test]
    fn test_automake_input() {
        assert_match(
        vec!["automake: error: cannot open < gtk-doc.make: No such file or directory"],
        1,
        Some(Problem::MissingAutomakeInput { path: "gtk-doc.make".to_string() }),
    );
    }

    #[test]
    fn test_shellcheck() {
        assert_just_match(
            vec![
                &(" ".repeat(40)
                    + "^----^ SC2086: Double quote to prevent globbing and word splitting."),
            ],
            1,
        );
    }

    #[test]
    fn test_autoconf_macro() {
        assert_match(
        vec!["configure.in:1802: error: possibly undefined macro: AC_CHECK_CCA"],
        1,
        Some(Problem::MissingAutoconfMacro { macro_name: "AC_CHECK_CCA".to_string(), need_rebuild: false }),
    );
        assert_match(
        vec!["./configure: line 12569: PKG_PROG_PKG_CONFIG: command not found"],
        1,
        Some(Problem::MissingAutoconfMacro { macro_name: "PKG_PROG_PKG_CONFIG".to_string(), need_rebuild: false }),
    );
        assert_match(
        vec![
                "checking for gawk... (cached) mawk",
                "./configure: line 2368: syntax error near unexpected token `APERTIUM,'",
                "./configure: line 2368: `PKG_CHECK_MODULES(APERTIUM, apertium >= 3.7.1)'",
            ],
        3,
        Some(Problem::MissingAutoconfMacro { macro_name: "PKG_CHECK_MODULES".to_string(), need_rebuild: true }),
    );
        assert_match(
        vec![
                "checking for libexif to use... ./configure: line 15968: syntax error near unexpected token `LIBEXIF,libexif'",
                "./configure: line 15968: `\t\t\t\t\t\tPKG_CHECK_MODULES(LIBEXIF,libexif >= 0.6.18,have_LIBEXIF=yes,:)'",
            ],
        2,
        Some(Problem::MissingAutoconfMacro { macro_name: "PKG_CHECK_MODULES".to_string(), need_rebuild: true }),
    );
    }

    #[test]
    fn test_r_missing() {
        assert_match(
        vec![
                "ERROR: dependencies ‘ellipsis’, ‘pkgload’ are not available for package ‘testthat’"
            ],
        1,
        Some(Problem::MissingRPackage { package: "ellipsis".to_string(), minimum_version: None }),
    );
        assert_match(
        vec!["  namespace ‘DBI’ 1.0.0 is being loaded, but >= 1.0.0.9003 is required"],
        1,
        Some(Problem::MissingRPackage { package: "DBI".to_string(), minimum_version: Some("1.0.0.9003".to_string()) }),
    );
        assert_match(
        vec![
                "  namespace ‘spatstat.utils’ 1.13-0 is already loaded, but >= 1.15.0 is required",
            ],
        1,
        Some(Problem::MissingRPackage { package: "spatstat.utils".to_string(), minimum_version: Some("1.15.0".to_string()) }),
    );
        assert_match(
        vec!["Error in library(zeligverse) : there is no package called 'zeligverse'"],
        1,
        Some(Problem::MissingRPackage { package: "zeligverse".to_string(), minimum_version: None }),
    );
        assert_match(
        vec!["there is no package called 'mockr'"],
        1,
        Some(Problem::MissingRPackage { package: "mockr".to_string(), minimum_version: None }),
    );
        assert_match(
        vec![
                "ERROR: dependencies 'igraph', 'matlab', 'expm', 'RcppParallel' are not available for package 'markovchain'"
            ],
        1,
        Some(Problem::MissingRPackage { package: "igraph".to_string(), minimum_version: None }),
    );
        assert_match(
        vec![
                "Error: package 'BH' 1.66.0-1 was found, but >= 1.75.0.0 is required by 'RSQLite'",
            ],
        1,
        Some(Problem::MissingRPackage { package: "BH".to_string(), minimum_version: Some("1.75.0.0".to_string()) }),
    );
        assert_match(
        vec![
                "Error: package ‘AnnotationDbi’ 1.52.0 was found, but >= 1.53.1 is required by ‘GO.db’"
            ],
        1,
        Some(Problem::MissingRPackage { package: "AnnotationDbi".to_string(), minimum_version: Some("1.53.1".to_string()) }),
    );
        assert_match(
        vec!["  namespace 'alakazam' 1.1.0 is being loaded, but >= 1.1.0.999 is required"],
        1,
        Some(Problem::MissingRPackage { package: "alakazam".to_string(), minimum_version: Some("1.1.0.999".to_string()) }),
    );
    }

    #[test]
    fn test_mv_stat() {
        assert_match(
        vec!["mv: cannot stat '/usr/res/boss.png': No such file or directory"],
        1,
        Some(Problem::MissingFile { path: "/usr/res/boss.png".to_string() }),
    );
        assert_just_match(
            vec!["mv: cannot stat 'res/boss.png': No such file or directory"],
            1,
        );
    }

    #[test]
    fn test_dh_link_error() {
        assert_match(
        vec![
                "dh_link: link destination debian/r-cran-crosstalk/usr/lib/R/site-library/crosstalk/lib/ionrangeslider is a directory"
            ],
        1,
        Some(Problem::DhLinkDestinationIsDirectory("debian/r-cran-crosstalk/usr/lib/R/site-library/crosstalk/lib/ionrangeslider".to_string())),
    );
    }

    #[test]
    fn test_go_test() {
        assert_just_match(vec!["FAIL\tgithub.com/edsrzf/mmap-go\t0.083s"], 1);
    }

    #[test]
    fn test_debhelper_pattern() {
        assert_match(
        vec![
                r#"dh_install: Cannot find (any matches for) "server/etc/gnumed/gnumed-restore.conf" (tried in ., debian/tmp)"#,
            ],
        1,
        Some(Problem::DebhelperPatternNotFound { pattern: "server/etc/gnumed/gnumed-restore.conf".to_string(), tool: "install".to_string(), directories: vec![".".to_string(), "debian/tmp".to_string()] }),
    );
    }

    #[test]
    fn test_symbols() {
        assert_match(
        vec![
                "dpkg-gensymbols: error: some symbols or patterns disappeared in the symbols file: see diff output below"
            ],
        1,
        Some(Problem::Other { kind: "disappeared-symbols".to_string() }),
    );
    }

    #[test]
    fn test_missing_php_class() {
        assert_match(
        vec![
                "PHP Fatal error:  Uncaught Error: Class 'PHPUnit_Framework_TestCase' not found in /tmp/autopkgtest.gO7h1t/build.b1p/src/Horde_Text_Diff-2.2.0/test/Horde/Text/Diff/EngineTest.php:9"
            ],
        1,
        Some(Problem::MissingPhpClass { php_class: "PHPUnit_Framework_TestCase".to_string() }),
    );
    }

    #[test]
    fn test_missing_java_class() {
        assert_match(
        r#"Caused by: java.lang.ClassNotFoundException: org.codehaus.Xpp3r$Builder
\tat org.codehaus.strategy.SelfFirstStrategy.loadClass(lfFirstStrategy.java:50)
\tat org.codehaus.realm.ClassRealm.unsynchronizedLoadClass(ClassRealm.java:271)
\tat org.codehaus.realm.ClassRealm.loadClass(ClassRealm.java:247)
\tat org.codehaus.realm.ClassRealm.loadClass(ClassRealm.java:239)
\t... 46 more
"#
            .split("\n")
            .collect::<Vec<&str>>(),
        1,
        Some(Problem::MissingJavaClass { classname: "org.codehaus.Xpp3r$Builder".to_string() }),
    );
    }

    #[test]
    fn test_install_docs_link() {
        assert_just_match(
            r#"dh_installdocs: --link-doc not allowed between sympow and sympow-data (one is \
arch:all and the other not)"#
                .split("\n")
                .collect::<Vec<&str>>(),
            1,
        );
    }

    #[test]
    fn test_dh_until_unsupported() {
        assert_match(
        vec![
                "dh: The --until option is not supported any longer (#932537). Use override targets instead."
            ],
        1,
        Some(Problem::Other { kind: "dh-until-unsupported".to_string() }),
    );
    }

    #[test]
    fn test_missing_xml_entity() {
        assert_match(
        vec![
                "I/O error : Attempt to load network entity http://www.oasis-open.org/docbook/xml/4.5/docbookx.dtd"
            ],
        1,
        Some(Problem::MissingXmlEntity { url: "http://www.oasis-open.org/docbook/xml/4.5/docbookx.dtd".to_string() }),
    );
    }

    #[test]
    fn test_ccache_error() {
        assert_match(
        vec![
                "ccache: error: Failed to create directory /sbuild-nonexistent/.ccache/tmp: Permission denied"
            ],
        1,
        Some(Problem::CcacheError("Failed to create directory /sbuild-nonexistent/.ccache/tmp: Permission denied".to_string())),
    );
    }

    #[test]
    fn test_dh_addon_load_failure() {
        assert_match(
        vec![
                "dh: unable to load addon nodejs: Debian/Debhelper/Sequence/nodejs.pm did not return a true value at (eval 11) line 1."
            ],
        1,
        Some(Problem::DhAddonLoadFailure { name: "nodejs".to_string(), path: "Debian/Debhelper/Sequence/nodejs.pm".to_string() }),
    );
    }

    #[test]
    fn test_missing_library() {
        assert_match(
        vec!["/usr/bin/ld: cannot find -lpthreads"],
        1,
        Some(Problem::MissingLibrary("pthreads".to_string())),
    );
        assert_just_match(
            vec!["./testFortranCompiler.f:4: undefined reference to `sgemm_'"],
            1,
        );
        assert_just_match(
            vec!["writer.d:59: error: undefined reference to 'sam_hdr_parse_'"],
            1,
        );
    }

    #[test]
    fn test_assembler() {
        assert_match(
        vec!["Found no assembler"],
        1,
        Some(Problem::Other { kind: "missing-assembler".to_string() }),
    )
    }

    #[test]
    fn test_command_missing() {
        assert_match(
        vec!["./ylwrap: line 176: yacc: command not found"],
        1,
        Some(Problem::MissingCommand("yacc".to_string())),
    );
        assert_match(
        vec!["/bin/sh: 1: cmake: not found"],
        1,
        Some(Problem::MissingCommand("cmake".to_string())),
    );
        assert_match(
        vec!["sh: 1: git: not found"],
        1,
        Some(Problem::MissingCommand("git".to_string())),
    );
        assert_match(
        vec!["/usr/bin/env: ‘python3’: No such file or directory"],
        1,
        Some(Problem::MissingCommand("python3".to_string())),
    );
        assert_match(
        vec!["%Error: 'flex' must be installed to build"],
        1,
        Some(Problem::MissingCommand("flex".to_string())),
    );
        assert_match(
        vec![r#"pkg-config: exec: "pkg-config": executable file not found in $PATH"#],
        1,
        Some(Problem::MissingCommand("pkg-config".to_string())),
    );
        assert_match(
        vec![r#"Can't exec "git": No such file or directory at Makefile.PL line 25."#],
        1,
        Some(Problem::MissingCommand("git".to_string())),
    );
        assert_match(
        vec![
                "vcver.scm.git.GitCommandError: 'git describe --tags --match 'v*' --abbrev=0' returned an error code 127"
            ],
        1,
        Some(Problem::MissingCommand("git".to_string())),
    );
        assert_match(
        vec!["make[1]: docker: Command not found"],
        1,
        Some(Problem::MissingCommand("docker".to_string())),
    );
        assert_match(
        vec!["make[1]: git: Command not found"],
        1,
        Some(Problem::MissingCommand("git".to_string())),
    );
        assert_just_match(vec!["make[1]: ./docker: Command not found"], 1);
        assert_match(
        vec!["make: dh_elpa: Command not found"],
        1,
        Some(Problem::MissingCommand("dh_elpa".to_string())),
    );
        assert_match(
        vec!["/bin/bash: valac: command not found"],
        1,
        Some(Problem::MissingCommand("valac".to_string())),
    );
        assert_match(
        vec!["E: Failed to execute “python3”: No such file or directory"],
        1,
        Some(Problem::MissingCommand("python3".to_string())),
    );
        assert_match(
        vec![
                r#"Can't exec "cmake": No such file or directory at /usr/share/perl5/Debian/Debhelper/Dh_Lib.pm line 484."#,
            ],
        1,
        Some(Problem::MissingCommand("cmake".to_string())),
    );
        assert_match(
        vec!["Invalid gemspec in [unicorn.gemspec]: No such file or directory - git"],
        1,
        Some(Problem::MissingCommand("git".to_string())),
    );
        assert_match(
        vec!["dbus-run-session: failed to exec 'xvfb-run': No such file or directory"],
        1,
        Some(Problem::MissingCommand("xvfb-run".to_string())),
    );
        assert_match(
        vec!["/bin/sh: 1: ./configure: not found"],
        1,
        Some(Problem::MissingConfigure),
    );
        assert_match(
        vec!["xvfb-run: error: xauth command not found"],
        1,
        Some(Problem::MissingCommand("xauth".to_string())),
    );
        assert_match(
        vec!["meson.build:39:2: ERROR: Program(s) ['wrc'] not found or not executable"],
        1,
        Some(Problem::MissingCommand("wrc".to_string())),
    );
        assert_match(
        vec![
                "/tmp/autopkgtest.FnbV06/build.18W/src/debian/tests/blas-testsuite: 7: dpkg-architecture: not found"
            ],
        1,
        Some(Problem::MissingCommand("dpkg-architecture".to_string())),
    );
        assert_match(
        vec![
                "Traceback (most recent call last):",
                r#"  File "/usr/lib/python3/dist-packages/mesonbuild/mesonmain.py", line 140, in run"#,
                "    return options.run_func(options)",
                r#"  File "/usr/lib/python3/dist-packages/mesonbuild/mdist.py", line 267, in run"#,
                "    names = create_dist_git(dist_name, archives, src_root, bld_root, dist_sub, b.dist_scripts, subprojects)",
                r#"  File "/usr/lib/python3/dist-packages/mesonbuild/mdist.py", line 119, in create_dist_git"#,
                "    git_clone(src_root, distdir)",
                r#"  File "/usr/lib/python3/dist-packages/mesonbuild/mdist.py", line 108, in git_clone"#,
                "    if git_have_dirty_index(src_root):",
                r#"  File "/usr/lib/python3/dist-packages/mesonbuild/mdist.py", line 104, in git_have_dirty_index"#,
                "    ret = subprocess.call(['git', '-C', src_root, 'diff-index', '--quiet', 'HEAD'])",
                r#"  File "/usr/lib/python3.9/subprocess.py", line 349, in call"#,
                "    with Popen(*popenargs, **kwargs) as p:",
                r#"  File "/usr/lib/python3.9/subprocess.py", line 951, in __init__"#,
                "    self._execute_child(args, executable, preexec_fn, close_fds,",
                r#"  File "/usr/lib/python3.9/subprocess.py", line 1823, in _execute_child"#,
                "    raise child_exception_type(errno_num, err_msg, err_filename)",
                "FileNotFoundError: [Errno 2] No such file or directory: 'git'",
            ],
        18,
        Some(Problem::MissingCommand("git".to_string())),
    );
        assert_match(
        vec![r#"> Cannot run program "git": error=2, No such file or directory"#],
        1,
        Some(Problem::MissingCommand("git".to_string())),
    );
        assert_match(
        vec!["E ImportError: Bad git executable"],
        1,
        Some(Problem::MissingCommand("git".to_string())),
    );
        assert_match(
        vec!["E ImportError: Bad git executable."],
        1,
        Some(Problem::MissingCommand("git".to_string())),
    );
        assert_match(
        vec![r#"Could not find external command "java""#],
        1,
        Some(Problem::MissingCommand("java".to_string())),
    );
    }

    #[test]
    fn test_ts_error() {
        assert_just_match(
            vec!["blah/tokenizer.ts(175,21): error TS2532: Object is possibly 'undefined'."],
            1,
        );
    }

    #[test]
    fn test_pkg_config_missing() {
        assert_match(
        vec!["configure: error: Package requirements (apertium-3.2 >= 3.2.0) were not met:"],
        1,
        Some(Problem::MissingPkgConfig { module: "apertium-3.2".to_string(), minimum_version: Some("3.2.0".to_string()) }),
    );
        assert_match(
        vec![
                "checking for GLEW... configure: error: Package requirements (glew) were not met:",
            ],
        1,
        Some(Problem::MissingPkgConfig { module: "glew".to_string(), minimum_version: None }),
    );
        assert_match(
        vec!["meson.build:10:0: ERROR: Dependency \"gssdp-1.2\" not found, tried pkgconfig"],
        1,
        Some(Problem::MissingPkgConfig { module: "gssdp-1.2".to_string(), minimum_version: None }),
    );
        assert_match(
        vec![
                "src/plugins/sysprof/meson.build:3:0: ERROR: Dependency \"sysprof-3\" not found, tried pkgconfig"
            ],
        1,
        Some(Problem::MissingPkgConfig { module: "sysprof-3".to_string(), minimum_version: None }),
    );
        assert_match(
        vec![
                "meson.build:84:0: ERROR: Invalid version of dependency, need 'libpeas-1.0' ['>= 1.24.0'] found '1.22.0'."
            ],
        1,
        Some(Problem::MissingPkgConfig { module: "libpeas-1.0".to_string(), minimum_version: Some("1.24.0".to_string()) }),
    );
        assert_match(
        vec![
                "meson.build:233:0: ERROR: Invalid version of dependency, need 'vte-2.91' ['>=0.63.0'] found '0.62.3'."
            ],
        1,
        Some(Problem::MissingPkgConfig { module: "vte-2.91".to_string(), minimum_version: Some("0.63.0".to_string()) }),
    );

        assert_match(
        vec!["No package 'tepl-3' found"],
        1,
        Some(Problem::MissingPkgConfig { module: "tepl-3".to_string(), minimum_version: None }),
    );
        assert_match(
        vec!["Requested 'vte-2.91 >= 0.59.0' but version of vte is 0.58.2"],
        1,
        Some(Problem::MissingPkgConfig { module: "vte-2.91".to_string(), minimum_version: Some("0.59.0".to_string()) }),
    );
        assert_match(
        vec!["configure: error: x86_64-linux-gnu-pkg-config sdl2 couldn't be found"],
        1,
        Some(Problem::MissingPkgConfig { module: "sdl2".to_string(), minimum_version: None }),
    );
        assert_match(
        vec!["configure: error: No package 'libcrypto' found"],
        1,
        Some(Problem::MissingPkgConfig { module: "libcrypto".to_string(), minimum_version: None }),
    );
        assert_match(
        vec![
                "-- Checking for module 'gtk+-3.0'",
                "--   Package 'gtk+-3.0', required by 'virtual:world', not found",
            ],
        2,
        Some(Problem::MissingPkgConfig { module: "gtk+-3.0".to_string(), minimum_version: None }),
    );
        assert_match(
        vec![
                "configure: error: libfilezilla not found: Package dependency requirement 'libfilezilla >= 0.17.1' could not be satisfied."
            ],
        1,
        Some(Problem::MissingPkgConfig { module: "libfilezilla".to_string(), minimum_version: Some("0.17.1".to_string()) }),
    );
    }

    #[test]
    fn test_pkgconf() {
        assert_match(
        vec!["checking for LAPACK... configure: error: \"Cannot check for existence of module lapack without pkgconf\""],
        1,
        Some(Problem::MissingCommand("pkgconf".to_string())),
    );
    }

    #[test]
    fn test_dh_with_order() {
        assert_match(
        vec!["dh: Unknown sequence --with (options should not come before the sequence)"],
        1,
        Some(Problem::Other { kind: "dh-with-order-incorrect".to_string() }),
    );
    }

    #[test]
    fn test_fpic() {
        assert_just_match(
            vec![
                "/usr/bin/ld: pcap-linux.o: relocation R_X86_64_PC32 against symbol `stderr@@GLIBC_2.2.5' can not be used when making a shared object; recompile with -fPIC"
            ],
            1,
        );
    }

    #[test]
    fn test_rspec() {
        assert_just_match(
            vec![
                "rspec ./spec/acceptance/cookbook_resource_spec.rb:20 # Client API operations downloading a cookbook when the cookbook of the name/version is found downloads the cookbook to the destination"
            ],
            1,
        );
    }

    #[test]
    fn test_multiple_definition() {
        assert_just_match(
            vec![
                "./dconf-paths.c:249: multiple definition of `dconf_is_rel_dir'; client/libdconf-client.a(dconf-paths.c.o):./obj-x86_64-linux-gnu/../common/dconf-paths.c:249: first defined here"
            ],
            1,
        );
        assert_just_match(
            vec![
                "/usr/bin/ld: ../lib/libaxe.a(stream.c.o):(.bss+0x10): multiple definition of `gsl_message_mask'; ../lib/libaxe.a(error.c.o):(.bss+0x8): first defined here"
            ],
            1,
        );
    }

    #[test]
    fn test_missing_ruby_gem() {
        assert_match(
        vec![
                "Could not find gem 'childprocess (~> 0.5)', which is required by gem 'selenium-webdriver', in any of the sources."
            ],
        1,
        Some(Problem::MissingRubyGem { gem: "childprocess".to_string(), version: Some("0.5".to_string()) }),
    );
        assert_match(
        vec![
                "Could not find gem 'rexml', which is required by gem 'rubocop', in any of the sources."
            ],
        1,
        Some(Problem::MissingRubyGem { gem: "rexml".to_string(), version: None }),
    );
        assert_match(
        vec![
                "/usr/lib/ruby/2.5.0/rubygems/dependency.rb:310:in `to_specs': Could not find 'http-parser' (~> 1.2.0) among 59 total gem(s) (Gem::MissingSpecError)"
            ],
        1,
        Some(Problem::MissingRubyGem { gem: "http-parser".to_string(), version: Some("1.2.0".to_string()) }),
    );
        assert_match(
        vec![
                "/usr/lib/ruby/2.5.0/rubygems/dependency.rb:312:in `to_specs': Could not find 'celluloid' (~> 0.17.3) - did find: [celluloid-0.16.0] (Gem::MissingSpecVersionError)"
            ],
        1,
        Some(Problem::MissingRubyGem { gem: "celluloid".to_string(), version: Some("0.17.3".to_string()) }),
    );
        assert_match(
        vec![
                "/usr/lib/ruby/2.5.0/rubygems/dependency.rb:312:in `to_specs': Could not find 'i18n' (~> 0.7) - did find: [i18n-1.5.3] (Gem::MissingSpecVersionError)"
            ],
        1,
        Some(Problem::MissingRubyGem { gem: "i18n".to_string(), version: Some("0.7".to_string()) }),
    );
        assert_match(
        vec![
                "/usr/lib/ruby/2.5.0/rubygems/dependency.rb:310:in `to_specs': Could not find 'sassc' (>= 2.0.0) among 34 total gem(s) (Gem::MissingSpecError)"
            ],
        1,
        Some(Problem::MissingRubyGem { gem: "sassc".to_string(), version: Some("2.0.0".to_string()) }),
    );
        assert_match(
        vec![
                "/usr/lib/ruby/2.7.0/bundler/resolver.rb:290:in `block in verify_gemfile_dependencies_are_found!': Could not find gem 'rake-compiler' in any of the gem sources listed in your Gemfile. (Bundler::GemNotFound)"
            ],
        1,
        Some(Problem::MissingRubyGem { gem: "rake-compiler".to_string(), version: None }),
    );
        assert_match(
        vec![
                "/usr/lib/ruby/2.7.0/rubygems.rb:275:in `find_spec_for_exe': can't find gem rdoc (>= 0.a) with executable rdoc (Gem::GemNotFoundException)"
            ],
        1,
        Some(Problem::MissingRubyGem { gem: "rdoc".to_string(), version: Some("0.a".to_string()) }),
    );
    }

    #[test]
    fn test_missing_maven_artifacts() {
        assert_match(
        vec![
                "[ERROR] Failed to execute goal on project byteman-bmunit5: Could not resolve dependencies for project org.jboss.byteman:byteman-bmunit5:jar:4.0.7: The following artifacts could not be resolved: org.junit.jupiter:junit-jupiter-api:jar:5.4.0, org.junit.jupiter:junit-jupiter-params:jar:5.4.0, org.junit.jupiter:junit-jupiter-engine:jar:5.4.0: Cannot access central (https://repo.maven.apache.org/maven2) in offline mode and the artifact org.junit.jupiter:junit-jupiter-api:jar:5.4.0 has not been downloaded from it before. -> [Help 1]"
            ],
        1,
        Some(Problem::MissingMavenArtifacts(vec!["org.junit.jupiter:junit-jupiter-api:jar:5.4.0".to_string(), "org.junit.jupiter:junit-jupiter-params:jar:5.4.0".to_string(), "org.junit.jupiter:junit-jupiter-engine:jar:5.4.0".to_string()])),
    );
        assert_match(
        vec![
                "[ERROR] Failed to execute goal on project opennlp-uima: Could not resolve dependencies for project org.apache.opennlp:opennlp-uima:jar:1.9.2-SNAPSHOT: Cannot access ApacheIncubatorRepository (http://people.apache.org/repo/m2-incubating-repository/) in offline mode and the artifact org.apache.opennlp:opennlp-tools:jar:debian has not been downloaded from it before. -> [Help 1]"
            ],
        1,
        Some(Problem::MissingMavenArtifacts(vec!["org.apache.opennlp:opennlp-tools:jar:debian".to_string()])),
    );
        assert_match(
        vec![
                "[ERROR] Failed to execute goal on project bookkeeper-server: Could not resolve dependencies for project org.apache.bookkeeper:bookkeeper-server:jar:4.4.0: Cannot access central (https://repo.maven.apache.org/maven2) in offline mode and the artifact io.netty:netty:jar:debian has not been downloaded from it before. -> [Help 1]"
            ],
        1,
        Some(Problem::MissingMavenArtifacts(vec!["io.netty:netty:jar:debian".to_string()])),
    );
        assert_match(
        vec![
                "[ERROR] Unresolveable build extension: Plugin org.apache.felix:maven-bundle-plugin:2.3.7 or one of its dependencies could not be resolved: Cannot access central (https://repo.maven.apache.org/maven2) in offline mode and the artifact org.apache.felix:maven-bundle-plugin:jar:2.3.7 has not been downloaded from it before. @"
            ],
        1,
        Some(Problem::MissingMavenArtifacts(vec!["org.apache.felix:maven-bundle-plugin:2.3.7".to_string()])),
    );
        assert_match(
        vec![
                "[ERROR] Plugin org.apache.maven.plugins:maven-jar-plugin:2.6 or one of its dependencies could not be resolved: Cannot access central (https://repo.maven.apache.org/maven2) in offline mode and the artifact org.apache.maven.plugins:maven-jar-plugin:jar:2.6 has not been downloaded from it before. -> [Help 1]"
            ],
        1,
        Some(Problem::MissingMavenArtifacts(vec!["org.apache.maven.plugins:maven-jar-plugin:2.6".to_string()])),
    );

        assert_match(
        vec![
                "[FATAL] Non-resolvable parent POM for org.joda:joda-convert:2.2.1: Cannot access central (https://repo.maven.apache.org/maven2) in offline mode and the artifact org.joda:joda-parent:pom:1.4.0 has not been downloaded from it before. and 'parent.relativePath' points at wrong local POM @ line 8, column 10"],
        1,
        Some(Problem::MissingMavenArtifacts(vec!["org.joda:joda-parent:pom:1.4.0".to_string()])),
    );

        assert_match(
        vec![
                "[ivy:retrieve] \t\t:: com.carrotsearch.randomizedtesting#junit4-ant;${/com.carrotsearch.randomizedtesting/junit4-ant}: not found"
            ],
        1,
        Some(Problem::MissingMavenArtifacts(vec!["com.carrotsearch.randomizedtesting:junit4-ant:jar:debian".to_string()])),
    );
        assert_match(
        vec![
                "[ERROR] Plugin org.apache.maven.plugins:maven-compiler-plugin:3.10.1 or one of its dependencies could not be resolved: Failed to read artifact descriptor for org.apache.maven.plugins:maven-compiler-plugin:jar:3.10.1: 1 problem was encountered while building the effective model for org.apache.maven.plugins:maven-compiler-plugin:3.10.1"
            ],
        1,
        Some(Problem::MissingMavenArtifacts(vec!["org.apache.maven.plugins:maven-compiler-plugin:3.10.1".to_string()])),
    );
    }

    #[test]
    fn test_maven_errors() {
        assert_just_match(
            vec![
                "[ERROR] Failed to execute goal org.apache.maven.plugins:maven-jar-plugin:3.1.2:jar (default-jar) on project xslthl: Execution default-jar of goal org.apache.maven.plugins:maven-jar-plugin:3.1.2:jar failed: An API incompatibility was encountered while executing org.apache.maven.plugins:maven-jar-plugin:3.1.2:jar: java.lang.NoSuchMethodError: 'void org.codehaus.plexus.util.DirectoryScanner.setFilenameComparator(java.util.Comparator)'"],
            1,
        );
    }

    #[test]
    fn test_dh_missing_uninstalled() {
        assert_match(
        vec![
                "dh_missing --fail-missing", "dh_missing: usr/share/man/man1/florence_applet.1 exists in debian/tmp but is not installed to anywhere", "dh_missing: usr/lib/x86_64-linux-gnu/libflorence-1.0.la exists in debian/tmp but is not installed to anywhere", "dh_missing: missing files, aborting",
            ],
        3,
        Some(Problem::DhMissingUninstalled("usr/lib/x86_64-linux-gnu/libflorence-1.0.la".to_string())),
    );
    }

    #[test]
    fn test_missing_perl_module() {
        assert_match(
        vec![
                "Converting tags.ledger... Can't locate String/Interpolate.pm in @INC (you may need to install the String::Interpolate module) (@INC contains: /etc/perl /usr/local/lib/x86_64-linux-gnu/perl/5.28.1 /usr/local/share/perl/5.28.1 /usr/lib/x86_64-linux-gnu/perl5/5.28 /usr/share/perl5 /usr/lib/x86_64-linux-gnu/perl/5.28 /usr/share/perl/5.28 /usr/local/lib/site_perl /usr/lib/x86_64-linux-gnu/perl-base) at ../bin/ledger2beancount line 23."
            ],
        1,
        Some(Problem::MissingPerlModule { module: "String::Interpolate".to_string(), filename: Some("String/Interpolate.pm".to_string()), inc: Some(vec!["/etc/perl".to_string(), "/usr/local/lib/x86_64-linux-gnu/perl/5.28.1".to_string(), "/usr/local/share/perl/5.28.1".to_string(), "/usr/lib/x86_64-linux-gnu/perl5/5.28".to_string(), "/usr/share/perl5".to_string(), "/usr/lib/x86_64-linux-gnu/perl/5.28".to_string(), "/usr/share/perl/5.28".to_string(), "/usr/local/lib/site_perl".to_string(), "/usr/lib/x86_64-linux-gnu/perl-base".to_string()]), minimum_version: None }),
    );
        assert_match(
        vec![
                "Can't locate Test/Needs.pm in @INC (you may need to install the Test::Needs module) (@INC contains: t/lib /<<PKGBUILDDIR>>/blib/lib /<<PKGBUILDDIR>>/blib/arch /etc/perl /usr/local/lib/x86_64-linux-gnu/perl/5.30.0 /usr/local/share/perl/5.30.0 /usr/lib/x86_64-linux-gnu/perl5/5.30 /usr/share/perl5 /usr/lib/x86_64-linux-gnu/perl/5.30 /usr/share/perl/5.30 /usr/local/lib/site_perl /usr/lib/x86_64-linux-gnu/perl-base .) at t/anon-basic.t line 7."
            ],
        1,
        Some(Problem::MissingPerlModule { module: "Test::Needs".to_string(), filename: Some("Test/Needs.pm".to_string()), inc: Some(vec!["t/lib".to_string(), "/<<PKGBUILDDIR>>/blib/lib".to_string(), "/<<PKGBUILDDIR>>/blib/arch".to_string(), "/etc/perl".to_string(), "/usr/local/lib/x86_64-linux-gnu/perl/5.30.0".to_string(), "/usr/local/share/perl/5.30.0".to_string(), "/usr/lib/x86_64-linux-gnu/perl5/5.30".to_string(), "/usr/share/perl5".to_string(), "/usr/lib/x86_64-linux-gnu/perl/5.30".to_string(), "/usr/share/perl/5.30".to_string(), "/usr/local/lib/site_perl".to_string(), "/usr/lib/x86_64-linux-gnu/perl-base".to_string(), ".".to_string()]), minimum_version: None }),
    );
        assert_match(
        vec!["- ExtUtils::Depends         ...missing. (would need 0.302)"],
        1,
        Some(Problem::MissingPerlModule { module: "ExtUtils::Depends".to_string(), filename: None, inc: None, minimum_version: Some("0.302".to_string()) }),
    );
        assert_match(
        vec![
                r#"Can't locate object method "new" via package "Dist::Inkt::Profile::TOBYINK" (perhaps you forgot to load "Dist::Inkt::Profile::TOBYINK"?) at /usr/share/perl5/Dist/Inkt.pm line 208."#,
            ],
        1,
        Some(Problem::MissingPerlModule { module: "Dist::Inkt::Profile::TOBYINK".to_string(), filename: None, inc: None, minimum_version: None }),
    );
        assert_match(
        vec![
                "Can't locate ExtUtils/Depends.pm in @INC (you may need to install the ExtUtils::Depends module) (@INC contains: /etc/perl /usr/local/lib/x86_64-linux-gnu/perl/5.32.1 /usr/local/share/perl/5.32.1 /usr/lib/x86_64-linux-gnu/perl5/5.32 /usr/share/perl5 /usr/lib/x86_64-linux-gnu/perl-base /usr/lib/x86_64-linux-gnu/perl/5.32 /usr/share/perl/5.32 /usr/local/lib/site_perl) at (eval 11) line 1."
            ],
        1,
        Some(Problem::MissingPerlModule { module: "ExtUtils::Depends".to_string(), filename: Some("ExtUtils/Depends.pm".to_string()), inc: Some(vec!["/etc/perl".to_string(), "/usr/local/lib/x86_64-linux-gnu/perl/5.32.1".to_string(), "/usr/local/share/perl/5.32.1".to_string(), "/usr/lib/x86_64-linux-gnu/perl5/5.32".to_string(), "/usr/share/perl5".to_string(), "/usr/lib/x86_64-linux-gnu/perl-base".to_string(), "/usr/lib/x86_64-linux-gnu/perl/5.32".to_string(), "/usr/share/perl/5.32".to_string(), "/usr/local/lib/site_perl".to_string()]), minimum_version: None }),
    );
        assert_match(
        vec![
                "Pod::Weaver::Plugin::WikiDoc (for section -WikiDoc) does not appear to be installed"
            ],
        1,
        Some(Problem::MissingPerlModule { module: "Pod::Weaver::Plugin::WikiDoc".to_string(), filename: None, inc: None, minimum_version: None }),
    );
        assert_match(
        vec![
                "List::Util version 1.56 required--this is only version 1.55 at /build/tmpttq5hhpt/package/blib/lib/List/AllUtils.pm line 8."
            ],
        1,
        Some(Problem::MissingPerlModule { module: "List::Util".to_string(), filename: None, inc: None, minimum_version: Some("1.56".to_string()) }),
    );
    }

    #[test]
    fn test_missing_perl_file() {
        assert_match(
        vec![
                "Can't locate debian/perldl.conf in @INC (@INC contains: /<<PKGBUILDDIR>>/inc /etc/perl /usr/local/lib/x86_64-linux-gnu/perl/5.28.1 /usr/local/share/perl/5.28.1 /usr/lib/x86_64-linux-gnu/perl5/5.28 /usr/share/perl5 /usr/lib/x86_64-linux-gnu/perl/5.28 /usr/share/perl/5.28 /usr/local/lib/site_perl /usr/lib/x86_64-linux-gnu/perl-base) at Makefile.PL line 131."
            ],
        1,
        Some(Problem::MissingPerlFile { filename: "debian/perldl.conf".to_string(), inc: Some(vec!["/<<PKGBUILDDIR>>/inc".to_string(), "/etc/perl".to_string(), "/usr/local/lib/x86_64-linux-gnu/perl/5.28.1".to_string(), "/usr/local/share/perl/5.28.1".to_string(), "/usr/lib/x86_64-linux-gnu/perl5/5.28".to_string(), "/usr/share/perl5".to_string(), "/usr/lib/x86_64-linux-gnu/perl/5.28".to_string(), "/usr/share/perl/5.28".to_string(), "/usr/local/lib/site_perl".to_string(), "/usr/lib/x86_64-linux-gnu/perl-base".to_string()]) }),
    );
        assert_match(
        vec![r#"Can't open perl script "Makefile.PL": No such file or directory"#],
        1,
        Some(Problem::MissingPerlFile { filename: "Makefile.PL".to_string(), inc: None }),
    );
    }

    #[test]
    fn test_perl_expand() {
        assert_match(
        vec![">(error): Could not expand [ 'Dist::Inkt::Profile::TOBYINK'"],
        1,
        Some(Problem::MissingPerlModule { module: "Dist::Inkt::Profile::TOBYINK".to_string(), filename: None, inc: None, minimum_version: None }),
    );
    }

    #[test]
    fn test_perl_missing_predeclared() {
        assert_match(
        vec![
                "String found where operator expected at Makefile.PL line 13, near \"author_tests 'xt'\"", "\t(Do you need to predeclare author_tests?)",
                "syntax error at Makefile.PL line 13, near \"author_tests 'xt'\"", r#""strict subs" in use at Makefile.PL line 13."#,
            ],
        2,
        Some(Problem::MissingPerlPredeclared("author_tests".to_string())),
    );
        assert_match(
        vec![
                "String found where operator expected at Makefile.PL line 8, near \"readme_from    'lib/URL/Encode.pod'\""
            ],
        1,
        Some(Problem::MissingPerlPredeclared("readme_from".to_string())),
    );

        assert_match(
        vec![
                r#"Bareword "use_test_base" not allowed while "strict subs" in use at Makefile.PL line 12."#,
            ],
        1,
        Some(Problem::MissingPerlPredeclared("use_test_base".to_string())),
    );
    }

    #[test]
    fn test_unknown_cert_authority() {
        assert_match(
        vec![
                r#"go: github.com/golangci/golangci-lint@v1.24.0: Get "https://proxy.golang.org/github.com/golangci/golangci-lint/@v/v1.24.0.mod": x509: certificate signed by unknown authority"#,
            ],
        1,
        Some(Problem::UnknownCertificateAuthority("https://proxy.golang.org/github.com/golangci/golangci-lint/@v/v1.24.0.mod".to_string())),
    );
    }

    #[test]
    fn test_no_disk_space() {
        assert_match(
        vec![
                "/usr/bin/install: error writing '/<<PKGBUILDDIR>>/debian/tmp/usr/lib/gcc/x86_64-linux-gnu/8/cc1objplus': No space left on device"
            ],
        1,
        Some(Problem::NoSpaceOnDevice),
    );

        assert_match(
        ["OSError: [Errno 28] No space left on device"].to_vec(),
        1,
        Some(Problem::NoSpaceOnDevice),
    );
    }

    #[test]
    fn test_segmentation_fault() {
        assert_just_match(
            vec![
                r#"/bin/bash: line 3:  7392 Segmentation fault      itstool -m "${mo}" ${d}/C/index.docbook ${d}/C/legal.xml"#,
            ],
            1,
        );
    }

    #[test]
    fn test_missing_perl_plugin() {
        assert_match(
        vec!["Required plugin bundle Dist::Zilla::PluginBundle::Git isn't installed."],
        1,
        Some(Problem::MissingPerlModule { module: "Dist::Zilla::PluginBundle::Git".to_string(), filename: None, inc: None, minimum_version: None }),
    );
        assert_match(
        vec!["Required plugin Dist::Zilla::Plugin::PPPort isn't installed."],
        1,
        Some(Problem::MissingPerlModule { module: "Dist::Zilla::Plugin::PPPort".to_string(), filename: None, inc: None, minimum_version: None }),
    );
    }

    #[test]
    fn test_nim_error() {
        assert_just_match(
            vec![
                "/<<PKGBUILDDIR>>/msgpack4nim.nim(470, 6) Error: usage of 'isNil' is a user-defined error",
            ],
            1,
        );
    }

    #[test]
    fn test_scala_error() {
        assert_just_match(
            vec![
                "core/src/main/scala/org/json4s/JsonFormat.scala:131: error: No JSON deserializer found for type List[T]. Try to implement an implicit Reader or JsonFormat for this type."
            ],
            1,
        );
    }

    #[test]
    fn test_vala_error() {
        assert_just_match(
vec![
                "../src/Backend/FeedServer.vala:60.98-60.148: error: The name `COLLECTION_CREATE_NONE' does not exist in the context of `Secret.CollectionCreateFlags'"
            ],
            1,
        );
        assert_match(
        vec![
                "error: Package `glib-2.0' not found in specified Vala API directories or GObject-Introspection GIR directories"
            ],
        1,
        Some(Problem::MissingValaPackage("glib-2.0".to_string())),
    );
    }

    #[test]
    fn test_gir() {
        assert_match(
        vec!["ValueError: Namespace GnomeDesktop not available"],
        1,
        Some(Problem::MissingIntrospectionTypelib("GnomeDesktop".to_string())),
    );
    }

    #[test]
    fn test_missing_boost_components() {
        assert_match(
        r#"""CMake Error at /usr/share/cmake-3.18/Modules/FindPackageHandleStandardArgs.cmake:165 (message):
  Could NOT find Boost (missing: program_options filesystem system graph
  serialization iostreams) (found suitable version "1.74.0", minimum required
  is "1.55.0")
Call Stack (most recent call first):
  /usr/share/cmake-3.18/Modules/FindPackageHandleStandardArgs.cmake:458 (_FPHSA_FAILURE_MESSAGE)
  /usr/share/cmake-3.18/Modules/FindBoost.cmake:2177 (find_package_handle_standard_args)
  src/CMakeLists.txt:4 (find_package)
"""#.split_inclusive('\n').collect::<Vec<&str>>(),
        4,
        Some(Problem::MissingCMakeComponents { name: "Boost".to_string(), components: vec!["program_options".to_string(), "filesystem".to_string(), "system".to_string(), "graph".to_string(), "serialization".to_string(), "iostreams".to_string()] }),
    );
    }

    #[test]
    fn test_pkg_config_too_old() {
        assert_match(
        vec![
                "checking for pkg-config... no",
                "",
                "*** Your version of pkg-config is too old. You need atleast",
                "*** pkg-config 0.9.0 or newer. You can download pkg-config",
                "*** from the freedesktop.org software repository at",
                "***",
                "***    https://www.freedesktop.org/wiki/Software/pkg-config/",
                "***",
            ],
        4,
        Some(Problem::MissingVagueDependency { name: "pkg-config".to_string(), url: None, minimum_version: Some("0.9.0".to_string()), current_version: None }),
    );
    }

    #[test]
    fn test_missing_jdk() {
        assert_match(
        vec![
                "> Kotlin could not find the required JDK tools in the Java installation '/usr/lib/jvm/java-8-openjdk-amd64/jre' used by Gradle. Make sure Gradle is running on a JDK, not JRE.",
            ],
        1,
        Some(Problem::MissingJDK { jdk_path: "/usr/lib/jvm/java-8-openjdk-amd64/jre".to_string() }),
    );
    }

    #[test]
    fn test_missing_jre() {
        assert_match(
        vec!["ERROR: JAVA_HOME is not set and no 'java' command could be found in your PATH."],
        1,
        Some(Problem::Other { kind: "missing-jre".to_string() }),
    );
    }

    #[test]
    fn test_node_module_missing() {
        assert_match(
        vec!["Error: Cannot find module 'tape'"],
        1,
        Some(Problem::MissingNodeModule("tape".to_string())),
    );
        assert_just_match(
            vec!["✖ \x1b[31mERROR:\x1b[39m Cannot find module '/<<PKGBUILDDIR>>/test'"],
            1,
        );
        assert_match(
        vec!["npm ERR! [!] Error: Cannot find module '@rollup/plugin-buble'"],
        1,
        Some(Problem::MissingNodeModule("@rollup/plugin-buble".to_string())),
    );
        assert_match(
        vec!["npm ERR! Error: Cannot find module 'fs-extra'"],
        1,
        Some(Problem::MissingNodeModule("fs-extra".to_string())),
    );
        assert_match(
        vec!["\x1b[1m\x1b[31m[!] \x1b[1mError: Cannot find module '@rollup/plugin-buble'"],
        1,
        Some(Problem::MissingNodeModule("@rollup/plugin-buble".to_string())),
    );
    }

    #[test]
    fn test_setup_py_command() {
        assert_match(
        r#"""/usr/lib/python3.9/distutils/dist.py:274: UserWarning: Unknown distribution option: 'long_description_content_type'
  warnings.warn(msg)
/usr/lib/python3.9/distutils/dist.py:274: UserWarning: Unknown distribution option: 'test_suite'
  warnings.warn(msg)
/usr/lib/python3.9/distutils/dist.py:274: UserWarning: Unknown distribution option: 'python_requires'
  warnings.warn(msg)
usage: setup.py [global_opts] cmd1 [cmd1_opts] [cmd2 [cmd2_opts] ...]
   or: setup.py --help [cmd1 cmd2 ...]
   or: setup.py --help-commands
   or: setup.py cmd --help

error: invalid command 'test'
"""#.split_inclusive('\n').collect::<Vec<&str>>(),
        12,
        Some(Problem::MissingSetupPyCommand("test".to_string())),
    );
    }

    #[test]
    fn test_c_header_missing() {
        assert_match(
        vec!["cdhit-common.h:39:9: fatal error: zlib.h: No such file or directory"],
        1,
        Some(Problem::MissingCHeader { header: "zlib.h".to_string() }),
    );
        assert_match(
        vec![
                "/<<PKGBUILDDIR>>/Kernel/Operation_Vector.cpp:15:10: fatal error: petscvec.h: No such file or directory"
            ],
        1,
        Some(Problem::MissingCHeader { header: "petscvec.h".to_string() }),
    );
        assert_match(
        vec!["src/bubble.h:27:10: fatal error: DBlurEffectWidget: No such file or directory"],
        1,
        Some(Problem::MissingCHeader { header: "DBlurEffectWidget".to_string() }),
    );
    }

    #[test]
    fn test_missing_jdk_file() {
        assert_match(
        vec![
                "> Could not find tools.jar. Please check that /usr/lib/jvm/java-8-openjdk-amd64 contains a valid JDK installation.",
            ],
        1,
        Some(Problem::MissingJDKFile { jdk_path: "/usr/lib/jvm/java-8-openjdk-amd64".to_string(), filename: "tools.jar".to_string() }),
    );
    }

    #[test]
    fn test_python2_import() {
        assert_match(
        vec!["ImportError: No module named pytz"],
        1,
        Some(Problem::MissingPythonModule { module: "pytz".to_string(), python_version: None, minimum_version: None }),
    );
        assert_just_match(vec!["ImportError: cannot import name SubfieldBase"], 1);
    }

    #[test]
    fn test_python3_import() {
        assert_match(
        ["ModuleNotFoundError: No module named 'django_crispy_forms'"].to_vec(),
        1,
        Some(Problem::MissingPythonModule { module: "django_crispy_forms".to_string(), python_version: Some(3), minimum_version: None }),
    );
        assert_match(
        [" ModuleNotFoundError: No module named 'Cython'"].to_vec(),
        1,
        Some(Problem::MissingPythonModule { module: "Cython".to_string(), python_version: Some(3), minimum_version: None }),
    );
        assert_match(
        ["ModuleNotFoundError: No module named 'distro'"].to_vec(),
        1,
        Some(Problem::MissingPythonModule { module: "distro".to_string(), python_version: Some(3), minimum_version: None }),
    );
        assert_match(
        ["E   ModuleNotFoundError: No module named 'twisted'"].to_vec(),
        1,
        Some(Problem::MissingPythonModule { module: "twisted".to_string(), python_version: Some(3), minimum_version: None }),
    );
        assert_match(
        vec![
                "E   ImportError: cannot import name 'async_poller' from 'msrest.polling' (/usr/lib/python3/dist-packages/msrest/polling/__init__.py)"
            ],
        1,
        Some(Problem::MissingPythonModule { module: "msrest.polling.async_poller".to_string(), python_version: None, minimum_version: None }),
    );
        assert_match(
        vec!["/usr/bin/python3: No module named sphinx"],
        1,
        Some(Problem::MissingPythonModule { module: "sphinx".to_string(), python_version: Some(3), minimum_version: None }),
    );
        assert_match(
        vec![
                "Could not import extension sphinx.ext.pngmath (exception: No module named pngmath)"
            ],
        1,
        Some(Problem::MissingPythonModule { module: "pngmath".to_string(), python_version: None, minimum_version: None }),
    );
        assert_match(
        vec![
                "/usr/bin/python3: Error while finding module specification for 'pep517.build' (ModuleNotFoundError: No module named 'pep517')"
            ],
        1,
        Some(Problem::MissingPythonModule { module: "pep517".to_string(), python_version: Some(3), minimum_version: None }),
    );
    }

    #[test]
    fn test_sphinx() {
        assert_just_match(
            vec!["There is a syntax error in your configuration file: Unknown syntax: Constant"],
            1,
        );
    }

    #[test]
    fn test_go_missing() {
        assert_match(
        vec![
                r#"src/github.com/vuls/config/config.go:30:2: cannot find package "golang.org/x/xerrors" in any of:"#,
            ],
        1,
        Some(Problem::MissingGoPackage { package: "golang.org/x/xerrors".to_string() }),
    );
    }

    #[test]
    fn test_lazy_font() {
        assert_match(
        vec![
                "[ERROR] LazyFont - Failed to read font file /usr/share/texlive/texmf-dist/fonts/opentype/public/stix2-otf/STIX2Math.otf <java.io.FileNotFoundException: /usr/share/texlive/texmf-dist/fonts/opentype/public/stix2-otf/STIX2Math.otf (No such file or directory)>java.io.FileNotFoundException: /usr/share/texlive/texmf-dist/fonts/opentype/public/stix2-otf/STIX2Math.otf (No such file or directory)"],
        1,
        Some(Problem::MissingFile { path: "/usr/share/texlive/texmf-dist/fonts/opentype/public/stix2-otf/STIX2Math.otf".to_string() }),
    );
    }

    #[test]
    fn test_missing_latex_files() {
        assert_match(
        vec!["! LaTeX Error: File `fancyvrb.sty' not found."],
        1,
        Some(Problem::MissingLatexFile("fancyvrb.sty".to_string())),
    );
    }

    #[test]
    fn test_pytest_import() {
        assert_match(
        vec!["E   ImportError: cannot import name cmod"],
        1,
        Some(Problem::MissingPythonModule { module: "cmod".to_string(), python_version: None, minimum_version: None }),
    );
        assert_match(
        vec!["E   ImportError: No module named mock"],
        1,
        Some(Problem::MissingPythonModule { module: "mock".to_string(), python_version: None, minimum_version: None }),
    );
        assert_match(
        vec![
                "pluggy.manager.PluginValidationError: Plugin 'xdist.looponfail' could not be loaded: (pytest 3.10.1 (/usr/lib/python2.7/dist-packages), Requirement.parse('pytest>=4.4.0'))!"
            ],
        1,
        Some(Problem::MissingPythonModule { module: "pytest".to_string(), python_version: Some(2), minimum_version: Some("4.4.0".to_string()) }),
    );
        assert_match(
        vec![
                r#"ImportError: Error importing plugin "tests.plugins.mock_libudev": No module named mock"#,
            ],
        1,
        Some(Problem::MissingPythonModule { module: "mock".to_string(), python_version: None, minimum_version: None }),
    );
    }

    #[test]
    fn test_sed() {
        assert_match(
        vec!["sed: can't read /etc/locale.gen: No such file or directory"],
        1,
        Some(Problem::MissingFile { path: "/etc/locale.gen".to_string() }),
    );
    }

    #[test]
    fn test_pytest_args() {
        assert_match(
        vec![
                "pytest: error: unrecognized arguments: --cov=janitor --cov-report=html --cov-report=term-missing:skip-covered"
            ],
        1,
        Some(Problem::UnsupportedPytestArguments(vec!["--cov=janitor".to_string(), "--cov-report=html".to_string(), "--cov-report=term-missing:skip-covered".to_string()])),
    );
    }

    #[test]
    fn test_pytest_config() {
        assert_match(
        vec!["INTERNALERROR> pytest.PytestConfigWarning: Unknown config option: asyncio_mode"],
        1,
        Some(Problem::UnsupportedPytestConfigOption("asyncio_mode".to_string())),
    );
    }

    #[test]
    fn test_distutils_missing() {
        assert_match(
        vec![
                "distutils.errors.DistutilsError: Could not find suitable distribution for Requirement.parse('pytest-runner')"
            ],
        1,
        Some(Problem::MissingPythonDistribution { distribution: "pytest-runner".to_string(), python_version: None, minimum_version: None }),
    );
        assert_match(
        vec![
                "distutils.errors.DistutilsError: Could not find suitable distribution for Requirement.parse('certifi>=2019.3.9')"
            ],
        1,
        Some(Problem::MissingPythonDistribution { distribution: "certifi".to_string(), python_version: None, minimum_version: Some("2019.3.9".to_string()) }),
    );
        assert_match(
        vec![
                r#"distutils.errors.DistutilsError: Could not find suitable distribution for Requirement.parse('cffi; platform_python_implementation == "CPython"\')"#,
            ],
        1,
        Some(Problem::MissingPythonDistribution { distribution: "cffi".to_string(), python_version: None, minimum_version: None }),
    );
        assert_match(
        vec!["error: Could not find suitable distribution for Requirement.parse('gitlab')"],
        1,
        Some(Problem::MissingPythonDistribution { distribution: "gitlab".to_string(), python_version: None, minimum_version: None }),
    );
        assert_match(
        vec![
                "pkg_resources.DistributionNotFound: The 'configparser>=3.5' distribution was not found and is required by importlib-metadata"
            ],
        1,
        Some(Problem::MissingPythonDistribution { distribution: "configparser".to_string(), python_version: None, minimum_version: Some("3.5".to_string()) }),
    );
        assert_match(
        vec![
                "error: Command '['/usr/bin/python3.9', '-m', 'pip', '--disable-pip-version-check', 'wheel', '--no-deps', '-w', '/tmp/tmp973_8lhm', '--quiet', 'asynctest']' returned non-zero exit status 1."
            ],
        1,
        Some(Problem::MissingPythonDistribution { distribution: "asynctest".to_string(), python_version: Some(3), minimum_version: None }),
    );
        assert_match(
        vec![
                "subprocess.CalledProcessError: Command '['/usr/bin/python', '-m', 'pip', '--disable-pip-version-check', 'wheel', '--no-deps', '-w', '/tmp/tmpm2l3kcgv', '--quiet', 'setuptools_scm']' returned non-zero exit status 1."
            ],
        1,
        Some(Problem::MissingPythonDistribution { distribution: "setuptools-scm".to_string(), python_version: None, minimum_version: None }),
    );
    }

    #[test]
    fn test_cmake_missing_file() {
        assert_match(
        r#"""CMake Error at /usr/lib/x86_64-/cmake/Qt5Gui/Qt5GuiConfig.cmake:27 (message):
  The imported target "Qt5::Gui" references the file

     "/usr/lib/x86_64-linux-gnu/libEGL.so"

  but this file does not exist.  Possible reasons include:

  * The file was deleted, renamed, or moved to another location.

  * An install or uninstall procedure did not complete successfully.

  * The installation package was faulty and contained

     "/usr/lib/x86_64-linux-gnu/cmake/Qt5Gui/Qt5GuiConfigExtras.cmake"

  but not all the files it references.

Call Stack (most recent call first):
  /usr/lib/x86_64-linux-gnu/QtGui/Qt5Gui.cmake:63 (_qt5_Gui_check_file_exists)
  /usr/lib/x86_64-linux-gnu/QtGui/Qt5Gui.cmake:85 (_qt5gui_find_extra_libs)
  /usr/lib/x86_64-linux-gnu/QtGui/Qt5Gui.cmake:186 (include)
  /usr/lib/x86_64-linux-gnu/QtWidgets/Qt5Widgets.cmake:101 (find_package)
  /usr/lib/x86_64-linux-gnu/Qt/Qt5Config.cmake:28 (find_package)
  CMakeLists.txt:34 (find_package)
dh_auto_configure: cd obj-x86_64-linux-gnu && cmake with args
"""#
            .split_inclusive('\n')
            .collect::<Vec<&str>>(),
        16,
        Some(Problem::MissingFile { path: "/usr/lib/x86_64-linux-gnu/libEGL.so".to_string() }),
    );
    }

    #[test]
    fn test_cmake_missing_include() {
        assert_match(
        r#"""-- Performing Test _OFFT_IS_64BIT
-- Performing Test _OFFT_IS_64BIT - Success
-- Performing Test HAVE_DATE_TIME
-- Performing Test HAVE_DATE_TIME - Success
CMake Error at CMakeLists.txt:43 (include):
  include could not find load file:

    KDEGitCommitHooks


-- Found KF5Activities: /usr/lib/x86_64-linux-gnu/cmake/KF5Activities/KF5ActivitiesConfig.cmake (found version "5.78.0") 
-- Found KF5Config: /usr/lib/x86_64-linux-gnu/cmake/KF5Config/KF5ConfigConfig.cmake (found version "5.78.0") 
"""#.split_inclusive('\n').collect::<Vec<&str>>(),
        8,
        Some(Problem::CMakeFilesMissing { filenames: vec!["KDEGitCommitHooks.cmake".to_string()], version: None }),
    );
    }

    #[test]
    fn test_cmake_missing_cmake_files() {
        assert_match(
        r#"""CMake Error at /usr/share/cmake-3.22/Modules/FindPackageHandleStandardArgs.cmake:230 (message):
  Could not find a package configuration file provided by "sensor_msgs" with
  any of the following names:

    sensor_msgsConfig.cmake
    sensor_msgs-config.cmake

  Add the installation prefix of "sensor_msgs" to CMAKE_PREFIX_PATH or set
  "sensor_msgs_DIR" to a directory containing one of the above files.  If
  "sensor_msgs" provides a separate development package or SDK, be sure it
  has been installed.
dh_auto_configure: cd obj-x86_64-linux-gnu && cmake with args
"""#
            .split_inclusive('\n')
            .collect::<Vec<&str>>(),
        11,
        Some(Problem::CMakeFilesMissing { filenames: vec!["sensor_msgsConfig.cmake".to_string(), "sensor_msgs-config.cmake".to_string()], version: None }),
    );
        assert_match(
        r#"""CMake Error at /usr/share/cmake-3.22/Modules/FindPackageHandleStandardArgs.cmake:230 (message):
  Could NOT find KF5 (missing: Plasma PlasmaQuick Wayland ModemManagerQt
  NetworkManagerQt) (found suitable version "5.92.0", minimum required is
  "5.86")
"""#.split_inclusive('\n').collect::<Vec<&str>>(),
        4,
        Some(Problem::MissingCMakeComponents { name: "KF5".to_string(), components: vec!["Plasma".to_string(), "PlasmaQuick".to_string(), "Wayland".to_string(), "ModemManagerQt".to_string(), "NetworkManagerQt".to_string()] }),
    );
    }

    #[test]
    fn test_cmake_missing_exact_version() {
        assert_match(
        r#"""CMake Error at /usr/share/cmake-3.18/Modules/FindPackageHandleStandardArgs.cmake:165 (message):
  Could NOT find SignalProtocol: Found unsuitable version "2.3.3", but
  required is exact version "2.3.2" (found
  /usr/lib/x86_64-linux-gnu/libsignal-protocol-c.so)
"""#.split_inclusive('\n').collect::<Vec<&str>>(),
        4,
        Some(Problem::CMakeNeedExactVersion { package: "SignalProtocol".to_string(), version_found: "2.3.3".to_string(), exact_version_needed: "2.3.2".to_string(), path: "/usr/lib/x86_64-linux-gnu/libsignal-protocol-c.so".to_string() }),
    );
    }

    #[test]
    fn test_cmake_missing_vague() {
        assert_match(
        vec![
                "CMake Error at CMakeLists.txt:84 (MESSAGE):",
                "  alut not found",
            ],
        2,
        Some(Problem::MissingVagueDependency { name: "alut".to_string(), url: None, minimum_version: None, current_version: None }),
    );
        assert_match(
        vec![
                "CMake Error at CMakeLists.txt:213 (message):",
                "  could not find zlib",
            ],
        2,
        Some(Problem::MissingVagueDependency { name: "zlib".to_string(), url: None, minimum_version: None, current_version: None }),
    );
        assert_match(
        r#"""-- Found LibSolv_ext: /usr/lib/x86_64-linux-gnu/libsolvext.so  
-- Found LibSolv: /usr/include /usr/lib/x86_64-linux-gnu/libsolv.so;/usr/lib/x86_64-linux-gnu/libsolvext.so
-- No usable gpgme flavours found.
CMake Error at cmake/modules/FindGpgme.cmake:398 (message):
  Did not find GPGME
Call Stack (most recent call first):
  CMakeLists.txt:223 (FIND_PACKAGE)
  """#.split_inclusive('\n').collect::<Vec<&str>>(),
        5,
        Some(Problem::MissingVagueDependency { name: "GPGME".to_string(), url: None, minimum_version: None, current_version: None }),
    );
    }

    #[test]
    fn test_secondary() {
        assert!(find_secondary_build_failure(&["Unknown option --foo"], 10).is_some());
        assert!(
            find_secondary_build_failure(&["Unknown option --foo, ignoring."], 10).is_none()
        );
    }
