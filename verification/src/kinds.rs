//! The kinds of problem that this library knows, with their detail fields, as a
//! language model is told about them.
use vstd::prelude::*;

verus! {

/// Part 0 of the kinds of problem, sorted, with the names of their detail fields.
pub open spec fn known_kinds_part0() -> Seq<(&'static str, Seq<&'static str>)> {
    seq![
        ("apt-broken-packages", seq!["description", "broken"]),
        ("apt-file-fetch-failure", seq!["url", "error"]),
        ("apt-package-unknown", seq!["package"]),
        ("autopkgtest-dep-chroot-disappeared", seq![]),
        ("autopkgtest-erroneous-package", seq!["reason"]),
        ("autopkgtest-testbed-failure", seq!["reason"]),
        ("badpkg", seq!["reason"]),
        ("brz-internal-error", seq!["exception_type", "exception_message"]),
        ("ccache-error", seq!["error"]),
        ("changelog-parse-error", seq!["reason"]),
        ("chroot-not-found", seq!["chroot"]),
        ("cmake-exact-version-missing", seq!["package", "version_found", "exact_version_needed", "path"]),
        ("command-missing", seq!["command"]),
        ("debcargo-failed", seq!["reason"]),
        ("debcargo-missing-crate", seq!["cratename", "version"]),
    ]
}

fn known_kinds_table_part0() -> (r: Vec<(&'static str, Vec<&'static str>)>)
    ensures
        r@.len() == known_kinds_part0().len(),
        forall|i: int|
            0 <= i < r@.len() ==> (#[trigger] r@[i]).0 == known_kinds_part0()[i].0 && r@[i].1@ == known_kinds_part0()[i].1,
{
    let mut v: Vec<(&'static str, Vec<&'static str>)> = Vec::new();
    let mut fields_0: Vec<&'static str> = Vec::new();
    fields_0.push("description");
    fields_0.push("broken");
    assert(fields_0@ =~= known_kinds_part0()[0].1);
    v.push(("apt-broken-packages", fields_0));
    let mut fields_1: Vec<&'static str> = Vec::new();
    fields_1.push("url");
    fields_1.push("error");
    assert(fields_1@ =~= known_kinds_part0()[1].1);
    v.push(("apt-file-fetch-failure", fields_1));
    let mut fields_2: Vec<&'static str> = Vec::new();
    fields_2.push("package");
    assert(fields_2@ =~= known_kinds_part0()[2].1);
    v.push(("apt-package-unknown", fields_2));
    let mut fields_3: Vec<&'static str> = Vec::new();
    assert(fields_3@ =~= known_kinds_part0()[3].1);
    v.push(("autopkgtest-dep-chroot-disappeared", fields_3));
    let mut fields_4: Vec<&'static str> = Vec::new();
    fields_4.push("reason");
    assert(fields_4@ =~= known_kinds_part0()[4].1);
    v.push(("autopkgtest-erroneous-package", fields_4));
    let mut fields_5: Vec<&'static str> = Vec::new();
    fields_5.push("reason");
    assert(fields_5@ =~= known_kinds_part0()[5].1);
    v.push(("autopkgtest-testbed-failure", fields_5));
    let mut fields_6: Vec<&'static str> = Vec::new();
    fields_6.push("reason");
    assert(fields_6@ =~= known_kinds_part0()[6].1);
    v.push(("badpkg", fields_6));
    let mut fields_7: Vec<&'static str> = Vec::new();
    fields_7.push("exception_type");
    fields_7.push("exception_message");
    assert(fields_7@ =~= known_kinds_part0()[7].1);
    v.push(("brz-internal-error", fields_7));
    let mut fields_8: Vec<&'static str> = Vec::new();
    fields_8.push("error");
    assert(fields_8@ =~= known_kinds_part0()[8].1);
    v.push(("ccache-error", fields_8));
    let mut fields_9: Vec<&'static str> = Vec::new();
    fields_9.push("reason");
    assert(fields_9@ =~= known_kinds_part0()[9].1);
    v.push(("changelog-parse-error", fields_9));
    let mut fields_10: Vec<&'static str> = Vec::new();
    fields_10.push("chroot");
    assert(fields_10@ =~= known_kinds_part0()[10].1);
    v.push(("chroot-not-found", fields_10));
    let mut fields_11: Vec<&'static str> = Vec::new();
    fields_11.push("package");
    fields_11.push("version_found");
    fields_11.push("exact_version_needed");
    fields_11.push("path");
    assert(fields_11@ =~= known_kinds_part0()[11].1);
    v.push(("cmake-exact-version-missing", fields_11));
    let mut fields_12: Vec<&'static str> = Vec::new();
    fields_12.push("command");
    assert(fields_12@ =~= known_kinds_part0()[12].1);
    v.push(("command-missing", fields_12));
    let mut fields_13: Vec<&'static str> = Vec::new();
    fields_13.push("reason");
    assert(fields_13@ =~= known_kinds_part0()[13].1);
    v.push(("debcargo-failed", fields_13));
    let mut fields_14: Vec<&'static str> = Vec::new();
    fields_14.push("cratename");
    fields_14.push("version");
    assert(fields_14@ =~= known_kinds_part0()[14].1);
    v.push(("debcargo-missing-crate", fields_14));
    v
}

/// Part 1 of the kinds of problem, sorted, with the names of their detail fields.
pub open spec fn known_kinds_part1() -> Seq<(&'static str, Seq<&'static str>)> {
    seq![
        ("debcargo-unacceptable-comparator", seq!["cratename", "comparator"]),
        ("debcargo-unacceptable-predicate", seq!["cratename", "predicate"]),
        ("debhelper-pattern-not-found", seq!["pattern", "tool", "directories"]),
        ("debian-version-rejected", seq!["version"]),
        ("dh-addon-load-failure", seq!["name", "path"]),
        ("dh-link-destination-is-directory", seq!["path"]),
        ("dh-missing-uninstalled", seq!["path"]),
        ("dpkg-error", seq!["reason"]),
        ("dpkg-source-pack-failed", seq!["reason"]),
        ("duplicate-dh-compat-level", seq!["command"]),
        ("esmodule-must-use-import", seq!["path"]),
        ("imagemagick-delegate-missing", seq!["delegate"]),
        ("inconsistent-source-format", seq!["version", "source_format"]),
        ("invalid-current-user", seq!["user"]),
        ("local-directory-not-existing", seq!["path"]),
    ]
}

fn known_kinds_table_part1() -> (r: Vec<(&'static str, Vec<&'static str>)>)
    ensures
        r@.len() == known_kinds_part1().len(),
        forall|i: int|
            0 <= i < r@.len() ==> (#[trigger] r@[i]).0 == known_kinds_part1()[i].0 && r@[i].1@ == known_kinds_part1()[i].1,
{
    let mut v: Vec<(&'static str, Vec<&'static str>)> = Vec::new();
    let mut fields_0: Vec<&'static str> = Vec::new();
    fields_0.push("cratename");
    fields_0.push("comparator");
    assert(fields_0@ =~= known_kinds_part1()[0].1);
    v.push(("debcargo-unacceptable-comparator", fields_0));
    let mut fields_1: Vec<&'static str> = Vec::new();
    fields_1.push("cratename");
    fields_1.push("predicate");
    assert(fields_1@ =~= known_kinds_part1()[1].1);
    v.push(("debcargo-unacceptable-predicate", fields_1));
    let mut fields_2: Vec<&'static str> = Vec::new();
    fields_2.push("pattern");
    fields_2.push("tool");
    fields_2.push("directories");
    assert(fields_2@ =~= known_kinds_part1()[2].1);
    v.push(("debhelper-pattern-not-found", fields_2));
    let mut fields_3: Vec<&'static str> = Vec::new();
    fields_3.push("version");
    assert(fields_3@ =~= known_kinds_part1()[3].1);
    v.push(("debian-version-rejected", fields_3));
    let mut fields_4: Vec<&'static str> = Vec::new();
    fields_4.push("name");
    fields_4.push("path");
    assert(fields_4@ =~= known_kinds_part1()[4].1);
    v.push(("dh-addon-load-failure", fields_4));
    let mut fields_5: Vec<&'static str> = Vec::new();
    fields_5.push("path");
    assert(fields_5@ =~= known_kinds_part1()[5].1);
    v.push(("dh-link-destination-is-directory", fields_5));
    let mut fields_6: Vec<&'static str> = Vec::new();
    fields_6.push("path");
    assert(fields_6@ =~= known_kinds_part1()[6].1);
    v.push(("dh-missing-uninstalled", fields_6));
    let mut fields_7: Vec<&'static str> = Vec::new();
    fields_7.push("reason");
    assert(fields_7@ =~= known_kinds_part1()[7].1);
    v.push(("dpkg-error", fields_7));
    let mut fields_8: Vec<&'static str> = Vec::new();
    fields_8.push("reason");
    assert(fields_8@ =~= known_kinds_part1()[8].1);
    v.push(("dpkg-source-pack-failed", fields_8));
    let mut fields_9: Vec<&'static str> = Vec::new();
    fields_9.push("command");
    assert(fields_9@ =~= known_kinds_part1()[9].1);
    v.push(("duplicate-dh-compat-level", fields_9));
    let mut fields_10: Vec<&'static str> = Vec::new();
    fields_10.push("path");
    assert(fields_10@ =~= known_kinds_part1()[10].1);
    v.push(("esmodule-must-use-import", fields_10));
    let mut fields_11: Vec<&'static str> = Vec::new();
    fields_11.push("delegate");
    assert(fields_11@ =~= known_kinds_part1()[11].1);
    v.push(("imagemagick-delegate-missing", fields_11));
    let mut fields_12: Vec<&'static str> = Vec::new();
    fields_12.push("version");
    fields_12.push("source_format");
    assert(fields_12@ =~= known_kinds_part1()[12].1);
    v.push(("inconsistent-source-format", fields_12));
    let mut fields_13: Vec<&'static str> = Vec::new();
    fields_13.push("user");
    assert(fields_13@ =~= known_kinds_part1()[13].1);
    v.push(("invalid-current-user", fields_13));
    let mut fields_14: Vec<&'static str> = Vec::new();
    fields_14.push("path");
    assert(fields_14@ =~= known_kinds_part1()[14].1);
    v.push(("local-directory-not-existing", fields_14));
    v
}

/// Part 2 of the kinds of problem, sorted, with the names of their detail fields.
pub open spec fn known_kinds_part2() -> Seq<(&'static str, Seq<&'static str>)> {
    seq![
        ("minimum-autoconf-too-old", seq!["minimum_version"]),
        ("mismatch-gettext-versions", seq!["makefile_version", "autoconf_version"]),
        ("missing-autoconf-macro", seq!["macro", "need_rebuild"]),
        ("missing-automake-input", seq!["path"]),
        ("missing-build-file", seq!["filename"]),
        ("missing-c-header", seq!["header"]),
        ("missing-cargo-crate", seq!["crate_name", "requirement"]),
        ("missing-cmake-components", seq!["name", "components"]),
        ("missing-cmake-config", seq!["name", "version"]),
        ("missing-cmake-files", seq!["filenames", "version"]),
        ("missing-command-or-build-file", seq!["filename"]),
        ("missing-config.status-input", seq!["path"]),
        ("missing-configure", seq![]),
        ("missing-debian-build-dep", seq!["dep"]),
        ("missing-dh-compat-level", seq!["command"]),
    ]
}

fn known_kinds_table_part2() -> (r: Vec<(&'static str, Vec<&'static str>)>)
    ensures
        r@.len() == known_kinds_part2().len(),
        forall|i: int|
            0 <= i < r@.len() ==> (#[trigger] r@[i]).0 == known_kinds_part2()[i].0 && r@[i].1@ == known_kinds_part2()[i].1,
{
    let mut v: Vec<(&'static str, Vec<&'static str>)> = Vec::new();
    let mut fields_0: Vec<&'static str> = Vec::new();
    fields_0.push("minimum_version");
    assert(fields_0@ =~= known_kinds_part2()[0].1);
    v.push(("minimum-autoconf-too-old", fields_0));
    let mut fields_1: Vec<&'static str> = Vec::new();
    fields_1.push("makefile_version");
    fields_1.push("autoconf_version");
    assert(fields_1@ =~= known_kinds_part2()[1].1);
    v.push(("mismatch-gettext-versions", fields_1));
    let mut fields_2: Vec<&'static str> = Vec::new();
    fields_2.push("macro");
    fields_2.push("need_rebuild");
    assert(fields_2@ =~= known_kinds_part2()[2].1);
    v.push(("missing-autoconf-macro", fields_2));
    let mut fields_3: Vec<&'static str> = Vec::new();
    fields_3.push("path");
    assert(fields_3@ =~= known_kinds_part2()[3].1);
    v.push(("missing-automake-input", fields_3));
    let mut fields_4: Vec<&'static str> = Vec::new();
    fields_4.push("filename");
    assert(fields_4@ =~= known_kinds_part2()[4].1);
    v.push(("missing-build-file", fields_4));
    let mut fields_5: Vec<&'static str> = Vec::new();
    fields_5.push("header");
    assert(fields_5@ =~= known_kinds_part2()[5].1);
    v.push(("missing-c-header", fields_5));
    let mut fields_6: Vec<&'static str> = Vec::new();
    fields_6.push("crate_name");
    fields_6.push("requirement");
    assert(fields_6@ =~= known_kinds_part2()[6].1);
    v.push(("missing-cargo-crate", fields_6));
    let mut fields_7: Vec<&'static str> = Vec::new();
    fields_7.push("name");
    fields_7.push("components");
    assert(fields_7@ =~= known_kinds_part2()[7].1);
    v.push(("missing-cmake-components", fields_7));
    let mut fields_8: Vec<&'static str> = Vec::new();
    fields_8.push("name");
    fields_8.push("version");
    assert(fields_8@ =~= known_kinds_part2()[8].1);
    v.push(("missing-cmake-config", fields_8));
    let mut fields_9: Vec<&'static str> = Vec::new();
    fields_9.push("filenames");
    fields_9.push("version");
    assert(fields_9@ =~= known_kinds_part2()[9].1);
    v.push(("missing-cmake-files", fields_9));
    let mut fields_10: Vec<&'static str> = Vec::new();
    fields_10.push("filename");
    assert(fields_10@ =~= known_kinds_part2()[10].1);
    v.push(("missing-command-or-build-file", fields_10));
    let mut fields_11: Vec<&'static str> = Vec::new();
    fields_11.push("path");
    assert(fields_11@ =~= known_kinds_part2()[11].1);
    v.push(("missing-config.status-input", fields_11));
    let mut fields_12: Vec<&'static str> = Vec::new();
    assert(fields_12@ =~= known_kinds_part2()[12].1);
    v.push(("missing-configure", fields_12));
    let mut fields_13: Vec<&'static str> = Vec::new();
    fields_13.push("dep");
    assert(fields_13@ =~= known_kinds_part2()[13].1);
    v.push(("missing-debian-build-dep", fields_13));
    let mut fields_14: Vec<&'static str> = Vec::new();
    fields_14.push("command");
    assert(fields_14@ =~= known_kinds_part2()[14].1);
    v.push(("missing-dh-compat-level", fields_14));
    v
}

/// Part 3 of the kinds of problem, sorted, with the names of their detail fields.
pub open spec fn known_kinds_part3() -> Seq<(&'static str, Seq<&'static str>)> {
    seq![
        ("missing-file", seq!["path"]),
        ("missing-fontspec", seq!["font"]),
        ("missing-gnome-common-dependency", seq!["package", "minimum_version"]),
        ("missing-gnulib-directory", seq!["directory"]),
        ("missing-go-package", seq!["package"]),
        ("missing-go.sum-entry", seq!["package", "version"]),
        ("missing-haskell-dependencies", seq!["deps"]),
        ("missing-haskell-module", seq!["module"]),
        ("missing-introspection-typelib", seq!["library"]),
        ("missing-java-class", seq!["classname"]),
        ("missing-jdk", seq!["jdk_path"]),
        ("missing-jdk-file", seq!["jdk_path", "filename"]),
        ("missing-latex-file", seq!["filename"]),
        ("missing-library", seq!["library"]),
        ("missing-lua-module", seq!["module"]),
    ]
}

fn known_kinds_table_part3() -> (r: Vec<(&'static str, Vec<&'static str>)>)
    ensures
        r@.len() == known_kinds_part3().len(),
        forall|i: int|
            0 <= i < r@.len() ==> (#[trigger] r@[i]).0 == known_kinds_part3()[i].0 && r@[i].1@ == known_kinds_part3()[i].1,
{
    let mut v: Vec<(&'static str, Vec<&'static str>)> = Vec::new();
    let mut fields_0: Vec<&'static str> = Vec::new();
    fields_0.push("path");
    assert(fields_0@ =~= known_kinds_part3()[0].1);
    v.push(("missing-file", fields_0));
    let mut fields_1: Vec<&'static str> = Vec::new();
    fields_1.push("font");
    assert(fields_1@ =~= known_kinds_part3()[1].1);
    v.push(("missing-fontspec", fields_1));
    let mut fields_2: Vec<&'static str> = Vec::new();
    fields_2.push("package");
    fields_2.push("minimum_version");
    assert(fields_2@ =~= known_kinds_part3()[2].1);
    v.push(("missing-gnome-common-dependency", fields_2));
    let mut fields_3: Vec<&'static str> = Vec::new();
    fields_3.push("directory");
    assert(fields_3@ =~= known_kinds_part3()[3].1);
    v.push(("missing-gnulib-directory", fields_3));
    let mut fields_4: Vec<&'static str> = Vec::new();
    fields_4.push("package");
    assert(fields_4@ =~= known_kinds_part3()[4].1);
    v.push(("missing-go-package", fields_4));
    let mut fields_5: Vec<&'static str> = Vec::new();
    fields_5.push("package");
    fields_5.push("version");
    assert(fields_5@ =~= known_kinds_part3()[5].1);
    v.push(("missing-go.sum-entry", fields_5));
    let mut fields_6: Vec<&'static str> = Vec::new();
    fields_6.push("deps");
    assert(fields_6@ =~= known_kinds_part3()[6].1);
    v.push(("missing-haskell-dependencies", fields_6));
    let mut fields_7: Vec<&'static str> = Vec::new();
    fields_7.push("module");
    assert(fields_7@ =~= known_kinds_part3()[7].1);
    v.push(("missing-haskell-module", fields_7));
    let mut fields_8: Vec<&'static str> = Vec::new();
    fields_8.push("library");
    assert(fields_8@ =~= known_kinds_part3()[8].1);
    v.push(("missing-introspection-typelib", fields_8));
    let mut fields_9: Vec<&'static str> = Vec::new();
    fields_9.push("classname");
    assert(fields_9@ =~= known_kinds_part3()[9].1);
    v.push(("missing-java-class", fields_9));
    let mut fields_10: Vec<&'static str> = Vec::new();
    fields_10.push("jdk_path");
    assert(fields_10@ =~= known_kinds_part3()[10].1);
    v.push(("missing-jdk", fields_10));
    let mut fields_11: Vec<&'static str> = Vec::new();
    fields_11.push("jdk_path");
    fields_11.push("filename");
    assert(fields_11@ =~= known_kinds_part3()[11].1);
    v.push(("missing-jdk-file", fields_11));
    let mut fields_12: Vec<&'static str> = Vec::new();
    fields_12.push("filename");
    assert(fields_12@ =~= known_kinds_part3()[12].1);
    v.push(("missing-latex-file", fields_12));
    let mut fields_13: Vec<&'static str> = Vec::new();
    fields_13.push("library");
    assert(fields_13@ =~= known_kinds_part3()[13].1);
    v.push(("missing-library", fields_13));
    let mut fields_14: Vec<&'static str> = Vec::new();
    fields_14.push("module");
    assert(fields_14@ =~= known_kinds_part3()[14].1);
    v.push(("missing-lua-module", fields_14));
    v
}

/// Part 4 of the kinds of problem, sorted, with the names of their detail fields.
pub open spec fn known_kinds_part4() -> Seq<(&'static str, Seq<&'static str>)> {
    seq![
        ("missing-make-target", seq!["target", "required_by"]),
        ("missing-maven-artifacts", seq!["artifacts"]),
        ("missing-node-module", seq!["module"]),
        ("missing-node-package", seq!["package"]),
        ("missing-ocaml-package", seq!["package"]),
        ("missing-perl-distribution-file", seq!["filename"]),
        ("missing-perl-file", seq!["filename", "inc"]),
        ("missing-perl-module", seq!["module", "filename", "inc", "minimum_version"]),
        ("missing-perl-predeclared", seq!["name"]),
        ("missing-php-class", seq!["php_class"]),
        ("missing-php-extension", seq!["extension"]),
        ("missing-pkg-config-package", seq!["module", "minimum_version"]),
        ("missing-postgresql-extension", seq!["extension"]),
        ("missing-pytest-fixture", seq!["fixture"]),
        ("missing-python-distribution", seq!["distribution", "python_version", "minimum_version"]),
    ]
}

fn known_kinds_table_part4() -> (r: Vec<(&'static str, Vec<&'static str>)>)
    ensures
        r@.len() == known_kinds_part4().len(),
        forall|i: int|
            0 <= i < r@.len() ==> (#[trigger] r@[i]).0 == known_kinds_part4()[i].0 && r@[i].1@ == known_kinds_part4()[i].1,
{
    let mut v: Vec<(&'static str, Vec<&'static str>)> = Vec::new();
    let mut fields_0: Vec<&'static str> = Vec::new();
    fields_0.push("target");
    fields_0.push("required_by");
    assert(fields_0@ =~= known_kinds_part4()[0].1);
    v.push(("missing-make-target", fields_0));
    let mut fields_1: Vec<&'static str> = Vec::new();
    fields_1.push("artifacts");
    assert(fields_1@ =~= known_kinds_part4()[1].1);
    v.push(("missing-maven-artifacts", fields_1));
    let mut fields_2: Vec<&'static str> = Vec::new();
    fields_2.push("module");
    assert(fields_2@ =~= known_kinds_part4()[2].1);
    v.push(("missing-node-module", fields_2));
    let mut fields_3: Vec<&'static str> = Vec::new();
    fields_3.push("package");
    assert(fields_3@ =~= known_kinds_part4()[3].1);
    v.push(("missing-node-package", fields_3));
    let mut fields_4: Vec<&'static str> = Vec::new();
    fields_4.push("package");
    assert(fields_4@ =~= known_kinds_part4()[4].1);
    v.push(("missing-ocaml-package", fields_4));
    let mut fields_5: Vec<&'static str> = Vec::new();
    fields_5.push("filename");
    assert(fields_5@ =~= known_kinds_part4()[5].1);
    v.push(("missing-perl-distribution-file", fields_5));
    let mut fields_6: Vec<&'static str> = Vec::new();
    fields_6.push("filename");
    fields_6.push("inc");
    assert(fields_6@ =~= known_kinds_part4()[6].1);
    v.push(("missing-perl-file", fields_6));
    let mut fields_7: Vec<&'static str> = Vec::new();
    fields_7.push("module");
    fields_7.push("filename");
    fields_7.push("inc");
    fields_7.push("minimum_version");
    assert(fields_7@ =~= known_kinds_part4()[7].1);
    v.push(("missing-perl-module", fields_7));
    let mut fields_8: Vec<&'static str> = Vec::new();
    fields_8.push("name");
    assert(fields_8@ =~= known_kinds_part4()[8].1);
    v.push(("missing-perl-predeclared", fields_8));
    let mut fields_9: Vec<&'static str> = Vec::new();
    fields_9.push("php_class");
    assert(fields_9@ =~= known_kinds_part4()[9].1);
    v.push(("missing-php-class", fields_9));
    let mut fields_10: Vec<&'static str> = Vec::new();
    fields_10.push("extension");
    assert(fields_10@ =~= known_kinds_part4()[10].1);
    v.push(("missing-php-extension", fields_10));
    let mut fields_11: Vec<&'static str> = Vec::new();
    fields_11.push("module");
    fields_11.push("minimum_version");
    assert(fields_11@ =~= known_kinds_part4()[11].1);
    v.push(("missing-pkg-config-package", fields_11));
    let mut fields_12: Vec<&'static str> = Vec::new();
    fields_12.push("extension");
    assert(fields_12@ =~= known_kinds_part4()[12].1);
    v.push(("missing-postgresql-extension", fields_12));
    let mut fields_13: Vec<&'static str> = Vec::new();
    fields_13.push("fixture");
    assert(fields_13@ =~= known_kinds_part4()[13].1);
    v.push(("missing-pytest-fixture", fields_13));
    let mut fields_14: Vec<&'static str> = Vec::new();
    fields_14.push("distribution");
    fields_14.push("python_version");
    fields_14.push("minimum_version");
    assert(fields_14@ =~= known_kinds_part4()[14].1);
    v.push(("missing-python-distribution", fields_14));
    v
}

/// Part 5 of the kinds of problem, sorted, with the names of their detail fields.
pub open spec fn known_kinds_part5() -> Seq<(&'static str, Seq<&'static str>)> {
    seq![
        ("missing-python-module", seq!["module", "python_version", "minimum_version"]),
        ("missing-qt-modules", seq!["modules"]),
        ("missing-r-package", seq!["package", "minimum_version"]),
        ("missing-release-file", seq!["reason"]),
        ("missing-ruby-file", seq!["filename"]),
        ("missing-ruby-gem", seq!["gem", "version"]),
        ("missing-setup.py-command", seq!["command"]),
        ("missing-sprockets-file", seq!["name", "content_type"]),
        ("missing-static-library", seq!["library", "filename"]),
        ("missing-vague-dependency", seq!["name", "url", "minimum_version", "current_version"]),
        ("missing-vala-package", seq!["package"]),
        ("missing-xfce-dependency", seq!["package"]),
        ("missing-xml-entity", seq!["url"]),
        ("need-pg-buildext-updatecontrol", seq!["generated_path", "template_path"]),
        ("nested-tree-unresolvable", seq!["name"]),
    ]
}

fn known_kinds_table_part5() -> (r: Vec<(&'static str, Vec<&'static str>)>)
    ensures
        r@.len() == known_kinds_part5().len(),
        forall|i: int|
            0 <= i < r@.len() ==> (#[trigger] r@[i]).0 == known_kinds_part5()[i].0 && r@[i].1@ == known_kinds_part5()[i].1,
{
    let mut v: Vec<(&'static str, Vec<&'static str>)> = Vec::new();
    let mut fields_0: Vec<&'static str> = Vec::new();
    fields_0.push("module");
    fields_0.push("python_version");
    fields_0.push("minimum_version");
    assert(fields_0@ =~= known_kinds_part5()[0].1);
    v.push(("missing-python-module", fields_0));
    let mut fields_1: Vec<&'static str> = Vec::new();
    fields_1.push("modules");
    assert(fields_1@ =~= known_kinds_part5()[1].1);
    v.push(("missing-qt-modules", fields_1));
    let mut fields_2: Vec<&'static str> = Vec::new();
    fields_2.push("package");
    fields_2.push("minimum_version");
    assert(fields_2@ =~= known_kinds_part5()[2].1);
    v.push(("missing-r-package", fields_2));
    let mut fields_3: Vec<&'static str> = Vec::new();
    fields_3.push("reason");
    assert(fields_3@ =~= known_kinds_part5()[3].1);
    v.push(("missing-release-file", fields_3));
    let mut fields_4: Vec<&'static str> = Vec::new();
    fields_4.push("filename");
    assert(fields_4@ =~= known_kinds_part5()[4].1);
    v.push(("missing-ruby-file", fields_4));
    let mut fields_5: Vec<&'static str> = Vec::new();
    fields_5.push("gem");
    fields_5.push("version");
    assert(fields_5@ =~= known_kinds_part5()[5].1);
    v.push(("missing-ruby-gem", fields_5));
    let mut fields_6: Vec<&'static str> = Vec::new();
    fields_6.push("command");
    assert(fields_6@ =~= known_kinds_part5()[6].1);
    v.push(("missing-setup.py-command", fields_6));
    let mut fields_7: Vec<&'static str> = Vec::new();
    fields_7.push("name");
    fields_7.push("content_type");
    assert(fields_7@ =~= known_kinds_part5()[7].1);
    v.push(("missing-sprockets-file", fields_7));
    let mut fields_8: Vec<&'static str> = Vec::new();
    fields_8.push("library");
    fields_8.push("filename");
    assert(fields_8@ =~= known_kinds_part5()[8].1);
    v.push(("missing-static-library", fields_8));
    let mut fields_9: Vec<&'static str> = Vec::new();
    fields_9.push("name");
    fields_9.push("url");
    fields_9.push("minimum_version");
    fields_9.push("current_version");
    assert(fields_9@ =~= known_kinds_part5()[9].1);
    v.push(("missing-vague-dependency", fields_9));
    let mut fields_10: Vec<&'static str> = Vec::new();
    fields_10.push("package");
    assert(fields_10@ =~= known_kinds_part5()[10].1);
    v.push(("missing-vala-package", fields_10));
    let mut fields_11: Vec<&'static str> = Vec::new();
    fields_11.push("package");
    assert(fields_11@ =~= known_kinds_part5()[11].1);
    v.push(("missing-xfce-dependency", fields_11));
    let mut fields_12: Vec<&'static str> = Vec::new();
    fields_12.push("url");
    assert(fields_12@ =~= known_kinds_part5()[12].1);
    v.push(("missing-xml-entity", fields_12));
    let mut fields_13: Vec<&'static str> = Vec::new();
    fields_13.push("generated_path");
    fields_13.push("template_path");
    assert(fields_13@ =~= known_kinds_part5()[13].1);
    v.push(("need-pg-buildext-updatecontrol", fields_13));
    let mut fields_14: Vec<&'static str> = Vec::new();
    fields_14.push("name");
    assert(fields_14@ =~= known_kinds_part5()[14].1);
    v.push(("nested-tree-unresolvable", fields_14));
    v
}

/// Part 6 of the kinds of problem, sorted, with the names of their detail fields.
pub open spec fn known_kinds_part6() -> Seq<(&'static str, Seq<&'static str>)> {
    seq![
        ("no-space-on-device", seq![]),
        ("not-executable-file", seq!["path"]),
        ("patch-application-failed", seq!["patchname"]),
        ("stderr-output", seq!["reason"]),
        ("submodule-encountered", seq!["path", "sha"]),
        ("testbed-setup-failure", seq!["command", "exit_status", "error"]),
        ("timed-out", seq![]),
        ("unable-to-find-upstream-tarball", seq!["package", "version"]),
        ("unknown-certificate-authority", seq!["url"]),
        ("unknown-mercurial-extra-fields", seq!["reason"]),
        ("unsatisfied-apt-conflicts", seq!["relations"]),
        ("unsatisfied-apt-dependencies", seq!["relations"]),
        ("unsupported-debhelper-compat-level", seq!["oldest_supported", "requested"]),
        ("unsupported-pytest-arguments", seq!["args"]),
        ("unsupported-pytest-config-option", seq!["name"]),
    ]
}

fn known_kinds_table_part6() -> (r: Vec<(&'static str, Vec<&'static str>)>)
    ensures
        r@.len() == known_kinds_part6().len(),
        forall|i: int|
            0 <= i < r@.len() ==> (#[trigger] r@[i]).0 == known_kinds_part6()[i].0 && r@[i].1@ == known_kinds_part6()[i].1,
{
    let mut v: Vec<(&'static str, Vec<&'static str>)> = Vec::new();
    let mut fields_0: Vec<&'static str> = Vec::new();
    assert(fields_0@ =~= known_kinds_part6()[0].1);
    v.push(("no-space-on-device", fields_0));
    let mut fields_1: Vec<&'static str> = Vec::new();
    fields_1.push("path");
    assert(fields_1@ =~= known_kinds_part6()[1].1);
    v.push(("not-executable-file", fields_1));
    let mut fields_2: Vec<&'static str> = Vec::new();
    fields_2.push("patchname");
    assert(fields_2@ =~= known_kinds_part6()[2].1);
    v.push(("patch-application-failed", fields_2));
    let mut fields_3: Vec<&'static str> = Vec::new();
    fields_3.push("reason");
    assert(fields_3@ =~= known_kinds_part6()[3].1);
    v.push(("stderr-output", fields_3));
    let mut fields_4: Vec<&'static str> = Vec::new();
    fields_4.push("path");
    fields_4.push("sha");
    assert(fields_4@ =~= known_kinds_part6()[4].1);
    v.push(("submodule-encountered", fields_4));
    let mut fields_5: Vec<&'static str> = Vec::new();
    fields_5.push("command");
    fields_5.push("exit_status");
    fields_5.push("error");
    assert(fields_5@ =~= known_kinds_part6()[5].1);
    v.push(("testbed-setup-failure", fields_5));
    let mut fields_6: Vec<&'static str> = Vec::new();
    assert(fields_6@ =~= known_kinds_part6()[6].1);
    v.push(("timed-out", fields_6));
    let mut fields_7: Vec<&'static str> = Vec::new();
    fields_7.push("package");
    fields_7.push("version");
    assert(fields_7@ =~= known_kinds_part6()[7].1);
    v.push(("unable-to-find-upstream-tarball", fields_7));
    let mut fields_8: Vec<&'static str> = Vec::new();
    fields_8.push("url");
    assert(fields_8@ =~= known_kinds_part6()[8].1);
    v.push(("unknown-certificate-authority", fields_8));
    let mut fields_9: Vec<&'static str> = Vec::new();
    fields_9.push("reason");
    assert(fields_9@ =~= known_kinds_part6()[9].1);
    v.push(("unknown-mercurial-extra-fields", fields_9));
    let mut fields_10: Vec<&'static str> = Vec::new();
    fields_10.push("relations");
    assert(fields_10@ =~= known_kinds_part6()[10].1);
    v.push(("unsatisfied-apt-conflicts", fields_10));
    let mut fields_11: Vec<&'static str> = Vec::new();
    fields_11.push("relations");
    assert(fields_11@ =~= known_kinds_part6()[11].1);
    v.push(("unsatisfied-apt-dependencies", fields_11));
    let mut fields_12: Vec<&'static str> = Vec::new();
    fields_12.push("oldest_supported");
    fields_12.push("requested");
    assert(fields_12@ =~= known_kinds_part6()[12].1);
    v.push(("unsupported-debhelper-compat-level", fields_12));
    let mut fields_13: Vec<&'static str> = Vec::new();
    fields_13.push("args");
    assert(fields_13@ =~= known_kinds_part6()[13].1);
    v.push(("unsupported-pytest-arguments", fields_13));
    let mut fields_14: Vec<&'static str> = Vec::new();
    fields_14.push("name");
    assert(fields_14@ =~= known_kinds_part6()[14].1);
    v.push(("unsupported-pytest-config-option", fields_14));
    v
}

/// Part 7 of the kinds of problem, sorted, with the names of their detail fields.
pub open spec fn known_kinds_part7() -> Seq<(&'static str, Seq<&'static str>)> {
    seq![
        ("upstart-file-present", seq!["filename"]),
        ("upstream-metadata-file-parse-error", seq!["path", "reason"]),
        ("upstream-pgp-signature-verification-failed", seq![]),
        ("uscan-error", seq!["reason"]),
        ("uscan-failed", seq!["url", "reason"]),
        ("uscan-remote-version-mismatch", seq!["package", "remote_version", "wanted_version"]),
        ("uscan-request-version-missing", seq!["reason"]),
        ("uscan-too-many-requests", seq!["reason"]),
        ("uscan-watchfile-malformed", seq!["paragraph"]),
        ("vcs-control-directory-needed", seq!["vcs"]),
        ("xdg-runtime-dir-not-set", seq![]),
    ]
}

fn known_kinds_table_part7() -> (r: Vec<(&'static str, Vec<&'static str>)>)
    ensures
        r@.len() == known_kinds_part7().len(),
        forall|i: int|
            0 <= i < r@.len() ==> (#[trigger] r@[i]).0 == known_kinds_part7()[i].0 && r@[i].1@ == known_kinds_part7()[i].1,
{
    let mut v: Vec<(&'static str, Vec<&'static str>)> = Vec::new();
    let mut fields_0: Vec<&'static str> = Vec::new();
    fields_0.push("filename");
    assert(fields_0@ =~= known_kinds_part7()[0].1);
    v.push(("upstart-file-present", fields_0));
    let mut fields_1: Vec<&'static str> = Vec::new();
    fields_1.push("path");
    fields_1.push("reason");
    assert(fields_1@ =~= known_kinds_part7()[1].1);
    v.push(("upstream-metadata-file-parse-error", fields_1));
    let mut fields_2: Vec<&'static str> = Vec::new();
    assert(fields_2@ =~= known_kinds_part7()[2].1);
    v.push(("upstream-pgp-signature-verification-failed", fields_2));
    let mut fields_3: Vec<&'static str> = Vec::new();
    fields_3.push("reason");
    assert(fields_3@ =~= known_kinds_part7()[3].1);
    v.push(("uscan-error", fields_3));
    let mut fields_4: Vec<&'static str> = Vec::new();
    fields_4.push("url");
    fields_4.push("reason");
    assert(fields_4@ =~= known_kinds_part7()[4].1);
    v.push(("uscan-failed", fields_4));
    let mut fields_5: Vec<&'static str> = Vec::new();
    fields_5.push("package");
    fields_5.push("remote_version");
    fields_5.push("wanted_version");
    assert(fields_5@ =~= known_kinds_part7()[5].1);
    v.push(("uscan-remote-version-mismatch", fields_5));
    let mut fields_6: Vec<&'static str> = Vec::new();
    fields_6.push("reason");
    assert(fields_6@ =~= known_kinds_part7()[6].1);
    v.push(("uscan-request-version-missing", fields_6));
    let mut fields_7: Vec<&'static str> = Vec::new();
    fields_7.push("reason");
    assert(fields_7@ =~= known_kinds_part7()[7].1);
    v.push(("uscan-too-many-requests", fields_7));
    let mut fields_8: Vec<&'static str> = Vec::new();
    fields_8.push("paragraph");
    assert(fields_8@ =~= known_kinds_part7()[8].1);
    v.push(("uscan-watchfile-malformed", fields_8));
    let mut fields_9: Vec<&'static str> = Vec::new();
    fields_9.push("vcs");
    assert(fields_9@ =~= known_kinds_part7()[9].1);
    v.push(("vcs-control-directory-needed", fields_9));
    let mut fields_10: Vec<&'static str> = Vec::new();
    assert(fields_10@ =~= known_kinds_part7()[10].1);
    v.push(("xdg-runtime-dir-not-set", fields_10));
    v
}

/// Each kind of problem, sorted, with the names of its detail fields.
pub open spec fn known_kinds() -> Seq<(&'static str, Seq<&'static str>)> {
    known_kinds_part0() + known_kinds_part1() + known_kinds_part2() + known_kinds_part3() + known_kinds_part4() + known_kinds_part5() + known_kinds_part6() + known_kinds_part7()
}

/// Each kind of problem, sorted, with the names of its detail fields.
pub fn known_kinds_table() -> (r: Vec<(&'static str, Vec<&'static str>)>)
    ensures
        r@.len() == known_kinds().len(),
        forall|i: int|
            0 <= i < r@.len() ==> (#[trigger] r@[i]).0 == known_kinds()[i].0 && r@[i].1@ == known_kinds()[i].1,
{
    let mut v = known_kinds_table_part0();
    let ghost mut acc = known_kinds_part0();
    let ghost before = v@;
    let mut p = known_kinds_table_part1();
    let ghost pv = p@;
    v.append(&mut p);
    proof {
        let next = acc + known_kinds_part1();
        assert forall|i: int| 0 <= i < v@.len() implies (#[trigger] v@[i]).0 == next[i].0 && v@[i].1@ == next[i].1 by {
            if i < before.len() {
                assert(v@[i] == before[i]);
            } else {
                assert(v@[i] == pv[i - before.len()]);
            }
        }
        acc = next;
    }
    let ghost before = v@;
    let mut p = known_kinds_table_part2();
    let ghost pv = p@;
    v.append(&mut p);
    proof {
        let next = acc + known_kinds_part2();
        assert forall|i: int| 0 <= i < v@.len() implies (#[trigger] v@[i]).0 == next[i].0 && v@[i].1@ == next[i].1 by {
            if i < before.len() {
                assert(v@[i] == before[i]);
            } else {
                assert(v@[i] == pv[i - before.len()]);
            }
        }
        acc = next;
    }
    let ghost before = v@;
    let mut p = known_kinds_table_part3();
    let ghost pv = p@;
    v.append(&mut p);
    proof {
        let next = acc + known_kinds_part3();
        assert forall|i: int| 0 <= i < v@.len() implies (#[trigger] v@[i]).0 == next[i].0 && v@[i].1@ == next[i].1 by {
            if i < before.len() {
                assert(v@[i] == before[i]);
            } else {
                assert(v@[i] == pv[i - before.len()]);
            }
        }
        acc = next;
    }
    let ghost before = v@;
    let mut p = known_kinds_table_part4();
    let ghost pv = p@;
    v.append(&mut p);
    proof {
        let next = acc + known_kinds_part4();
        assert forall|i: int| 0 <= i < v@.len() implies (#[trigger] v@[i]).0 == next[i].0 && v@[i].1@ == next[i].1 by {
            if i < before.len() {
                assert(v@[i] == before[i]);
            } else {
                assert(v@[i] == pv[i - before.len()]);
            }
        }
        acc = next;
    }
    let ghost before = v@;
    let mut p = known_kinds_table_part5();
    let ghost pv = p@;
    v.append(&mut p);
    proof {
        let next = acc + known_kinds_part5();
        assert forall|i: int| 0 <= i < v@.len() implies (#[trigger] v@[i]).0 == next[i].0 && v@[i].1@ == next[i].1 by {
            if i < before.len() {
                assert(v@[i] == before[i]);
            } else {
                assert(v@[i] == pv[i - before.len()]);
            }
        }
        acc = next;
    }
    let ghost before = v@;
    let mut p = known_kinds_table_part6();
    let ghost pv = p@;
    v.append(&mut p);
    proof {
        let next = acc + known_kinds_part6();
        assert forall|i: int| 0 <= i < v@.len() implies (#[trigger] v@[i]).0 == next[i].0 && v@[i].1@ == next[i].1 by {
            if i < before.len() {
                assert(v@[i] == before[i]);
            } else {
                assert(v@[i] == pv[i - before.len()]);
            }
        }
        acc = next;
    }
    let ghost before = v@;
    let mut p = known_kinds_table_part7();
    let ghost pv = p@;
    v.append(&mut p);
    proof {
        let next = acc + known_kinds_part7();
        assert forall|i: int| 0 <= i < v@.len() implies (#[trigger] v@[i]).0 == next[i].0 && v@[i].1@ == next[i].1 by {
            if i < before.len() {
                assert(v@[i] == before[i]);
            } else {
                assert(v@[i] == pv[i - before.len()]);
            }
        }
        acc = next;
    }
    assert(acc =~= known_kinds());
    v
}

} // verus!
