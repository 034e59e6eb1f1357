use buildlog_consultant::json::{problem_from_json, JsonItem, JsonMember, JsonValue};
use buildlog_consultant::problem::Problem;

fn s(t: &str) -> String {
    t.to_string()
}

fn object(members: Vec<(&str, JsonMember)>) -> JsonValue {
    JsonValue::Object(members.into_iter().map(|(k, v)| (k.to_string(), v)).collect())
}

/// What a problem writes as JSON details reads back, through its kind, as the same
/// problem with the same details.
fn roundtrip(p: &Problem) {
    let kind = p.kind();
    let json = p.json();
    let back = problem_from_json(&kind, &json)
        .unwrap_or_else(|| panic!("no deserializer for kind {:?}", kind));
    assert_eq!(back.kind(), kind);
    assert_eq!(back.json(), json, "round-trip mismatch for kind {}", kind);
    assert_eq!(&back, p);
}

#[test]
fn problem_roundtrip_missing_file() {
    roundtrip(&Problem::MissingFile { path: "/usr/bin/foo".to_string() });
}

#[test]
fn problem_roundtrip_missing_command() {
    roundtrip(&Problem::MissingCommand("foo".to_string()));
}

#[test]
fn problem_roundtrip_vcs_control_directory_needed() {
    roundtrip(&Problem::VcsControlDirectoryNeeded { vcs: vec!["git".to_string(), "bzr".to_string()] });
}

#[test]
fn problem_roundtrip_missing_python_module() {
    roundtrip(&Problem::MissingPythonModule { module: "numpy".to_string(), python_version: None, minimum_version: None });
}

#[test]
fn problem_roundtrip_missing_python_distribution() {
    roundtrip(&Problem::MissingPythonDistribution { distribution: "twisted".to_string(), python_version: Some(3), minimum_version: Some("18.0".to_string()) });
}

#[test]
fn problem_roundtrip_missing_c_header() {
    roundtrip(&Problem::MissingCHeader { header: "stdio.h".to_string() });
}

#[test]
fn problem_roundtrip_missing_go_package() {
    roundtrip(&Problem::MissingGoPackage { package: "github.com/foo/bar".to_string() });
}

#[test]
fn problem_roundtrip_missing_node_module() {
    roundtrip(&Problem::MissingNodeModule("foo".to_string()));
}

#[test]
fn problem_roundtrip_missing_node_package() {
    roundtrip(&Problem::MissingNodePackage("foo".to_string()));
}

#[test]
fn problem_roundtrip_missing_vala_package() {
    roundtrip(&Problem::MissingValaPackage("foo-1.0".to_string()));
}

#[test]
fn problem_roundtrip_missing_library() {
    roundtrip(&Problem::MissingLibrary("foo".to_string()));
}

#[test]
fn problem_roundtrip_missing_haskell_module() {
    roundtrip(&Problem::MissingHaskellModule { module: "Foo.Bar".to_string() });
}

#[test]
fn problem_roundtrip_missing_pkg_config() {
    roundtrip(&Problem::MissingPkgConfig { module: "foo".to_string(), minimum_version: Some("1.0".to_string()) });
}

#[test]
fn problem_roundtrip_missing_python_module_with_versions() {
    roundtrip(&Problem::MissingPythonModule { module: "django".to_string(), python_version: Some(3), minimum_version: Some("4.2".to_string()) });
}

#[test]
fn problem_roundtrip_missing_python_distribution_simple() {
    roundtrip(&Problem::MissingPythonDistribution { distribution: "twisted".to_string(), python_version: None, minimum_version: None });
}

#[test]
fn problem_roundtrip_missing_pkg_config_no_version() {
    roundtrip(&Problem::MissingPkgConfig { module: "glib-2.0".to_string(), minimum_version: None });
}

#[test]
fn problem_roundtrip_missing_haskell_dependencies() {
    roundtrip(&Problem::MissingHaskellDependencies(vec!["aeson".to_string(), "text".to_string()]));
}

#[test]
fn problem_roundtrip_missing_autoconf_macro_default() {
    roundtrip(&Problem::MissingAutoconfMacro { macro_name: "AC_PROG_CC".to_string(), need_rebuild: false });
}

#[test]
fn problem_roundtrip_missing_autoconf_macro_need_rebuild() {
    roundtrip(&Problem::MissingAutoconfMacro { macro_name: "PKG_CHECK_MODULES".to_string(), need_rebuild: true });
}

#[test]
fn problem_roundtrip_unsatisfied_apt_dependencies() {
    roundtrip(&Problem::UnsatisfiedAptDependencies("libssl-dev (>= 1.1)".to_string()));
}

#[test]
fn problem_roundtrip_apt_package_unknown() {
    roundtrip(&Problem::AptPackageUnknown("nonexistent-pkg".to_string()));
}

#[test]
fn problem_missing_haskell_dependencies_accepts_bare_array() {
    // The reader accepts both {"deps": [...]} (the json() shape) and a bare array.
    let v = JsonValue::Member(JsonMember::Array(vec![JsonItem::Str(s("aeson")), JsonItem::Str(s("text"))]));
    let p = problem_from_json("missing-haskell-dependencies", &v).expect("bare array should deserialize");
    assert_eq!(p.json(), object(vec![("deps", JsonMember::Array(vec![JsonItem::Str(s("aeson")), JsonItem::Str(s("text"))]))]));
}

#[test]
fn problem_apt_package_unknown_accepts_bare_string() {
    // The reader accepts both {"package": "..."} (the json() shape) and a bare string.
    let v = JsonValue::Member(JsonMember::Str(s("foo-pkg")));
    let p = problem_from_json("apt-package-unknown", &v).expect("bare string should deserialize");
    assert_eq!(p.json(), object(vec![("package", JsonMember::Str(s("foo-pkg")))]));
}

#[test]
fn problem_missing_file_missing_path_returns_none() {
    // Required field absent.
    let v = object(vec![]);
    assert!(problem_from_json("missing-file", &v).is_none());
}

#[test]
fn problem_missing_file_wrong_type_returns_none() {
    // Required field of the wrong JSON type.
    let v = object(vec![("path", JsonMember::Int(42))]);
    assert!(problem_from_json("missing-file", &v).is_none());
}

#[test]
fn problem_missing_python_module_only_required_field() {
    // Optional fields absent.
    let v = object(vec![("module", JsonMember::Str(s("numpy")))]);
    let p = problem_from_json("missing-python-module", &v).expect("optional fields should be optional");
    assert_eq!(p.kind(), "missing-python-module");
    assert_eq!(
        p.json(),
        object(vec![
            ("module", JsonMember::Str(s("numpy"))),
            ("python_version", JsonMember::Null),
            ("minimum_version", JsonMember::Null),
        ])
    );
}

#[test]
fn problem_missing_autoconf_macro_omits_need_rebuild() {
    // need_rebuild is optional (defaults to false).
    let v = object(vec![("macro", JsonMember::Str(s("AC_PROG_CC")))]);
    let p = problem_from_json("missing-autoconf-macro", &v).expect("need_rebuild should be optional");
    assert_eq!(
        p.json(),
        object(vec![("macro", JsonMember::Str(s("AC_PROG_CC"))), ("need_rebuild", JsonMember::Bool(false))])
    );
}

#[test]
fn problem_unknown_kind_returns_none() {
    let v = object(vec![("foo", JsonMember::Str(s("bar")))]);
    assert!(problem_from_json("not-a-real-kind", &v).is_none());
}

#[test]
fn problem_de_roundtrip_missing_file() {
    roundtrip(&Problem::MissingFile { path: "/usr/bin/foo".to_string() });
}

#[test]
fn problem_de_roundtrip_missing_command() {
    roundtrip(&Problem::MissingCommand("foo".to_string()));
}

#[test]
fn problem_de_roundtrip_vcs_control_directory_needed() {
    roundtrip(&Problem::VcsControlDirectoryNeeded { vcs: vec!["git".to_string(), "bzr".to_string()] });
}

#[test]
fn problem_de_roundtrip_missing_python_module() {
    roundtrip(&Problem::MissingPythonModule { module: "numpy".to_string(), python_version: None, minimum_version: None });
}

#[test]
fn problem_de_roundtrip_missing_python_distribution() {
    roundtrip(&Problem::MissingPythonDistribution { distribution: "twisted".to_string(), python_version: Some(3), minimum_version: Some("18.0".to_string()) });
}

#[test]
fn problem_de_roundtrip_missing_c_header() {
    roundtrip(&Problem::MissingCHeader { header: "stdio.h".to_string() });
}

#[test]
fn problem_de_roundtrip_missing_go_package() {
    roundtrip(&Problem::MissingGoPackage { package: "github.com/foo/bar".to_string() });
}

#[test]
fn problem_de_roundtrip_missing_node_module() {
    roundtrip(&Problem::MissingNodeModule("foo".to_string()));
}

#[test]
fn problem_de_roundtrip_missing_node_package() {
    roundtrip(&Problem::MissingNodePackage("foo".to_string()));
}

#[test]
fn problem_de_roundtrip_missing_vala_package() {
    roundtrip(&Problem::MissingValaPackage("foo-1.0".to_string()));
}

#[test]
fn problem_de_roundtrip_missing_library() {
    roundtrip(&Problem::MissingLibrary("foo".to_string()));
}

#[test]
fn problem_de_roundtrip_missing_haskell_module() {
    roundtrip(&Problem::MissingHaskellModule { module: "Foo.Bar".to_string() });
}

#[test]
fn problem_de_roundtrip_missing_pkg_config() {
    roundtrip(&Problem::MissingPkgConfig { module: "foo".to_string(), minimum_version: Some("1.0".to_string()) });
}

#[test]
fn problem_de_roundtrip_missing_python_module_with_versions() {
    roundtrip(&Problem::MissingPythonModule { module: "django".to_string(), python_version: Some(3), minimum_version: Some("4.2".to_string()) });
}

#[test]
fn problem_de_roundtrip_missing_python_distribution_simple() {
    roundtrip(&Problem::MissingPythonDistribution { distribution: "twisted".to_string(), python_version: None, minimum_version: None });
}

#[test]
fn problem_de_roundtrip_missing_pkg_config_no_version() {
    roundtrip(&Problem::MissingPkgConfig { module: "glib-2.0".to_string(), minimum_version: None });
}

#[test]
fn problem_de_roundtrip_missing_haskell_dependencies() {
    roundtrip(&Problem::MissingHaskellDependencies(vec!["aeson".to_string(), "text".to_string()]));
}

#[test]
fn problem_de_roundtrip_missing_autoconf_macro_default() {
    roundtrip(&Problem::MissingAutoconfMacro { macro_name: "AC_PROG_CC".to_string(), need_rebuild: false });
}

#[test]
fn problem_de_roundtrip_missing_autoconf_macro_need_rebuild() {
    roundtrip(&Problem::MissingAutoconfMacro { macro_name: "PKG_CHECK_MODULES".to_string(), need_rebuild: true });
}

#[test]
fn problem_de_roundtrip_unsatisfied_apt_dependencies() {
    roundtrip(&Problem::UnsatisfiedAptDependencies("libssl-dev (>= 1.1)".to_string()));
}

#[test]
fn problem_de_roundtrip_apt_package_unknown() {
    roundtrip(&Problem::AptPackageUnknown("nonexistent-pkg".to_string()));
}

#[test]
fn problem_de_missing_haskell_dependencies_accepts_bare_array() {
    // The reader accepts both {"deps": [...]} (the json() shape) and a bare array.
    let v = JsonValue::Member(JsonMember::Array(vec![JsonItem::Str(s("aeson")), JsonItem::Str(s("text"))]));
    let p = problem_from_json("missing-haskell-dependencies", &v).expect("bare array should deserialize");
    assert_eq!(p.json(), object(vec![("deps", JsonMember::Array(vec![JsonItem::Str(s("aeson")), JsonItem::Str(s("text"))]))]));
}

#[test]
fn problem_de_apt_package_unknown_accepts_bare_string() {
    // The reader accepts both {"package": "..."} (the json() shape) and a bare string.
    let v = JsonValue::Member(JsonMember::Str(s("foo-pkg")));
    let p = problem_from_json("apt-package-unknown", &v).expect("bare string should deserialize");
    assert_eq!(p.json(), object(vec![("package", JsonMember::Str(s("foo-pkg")))]));
}

#[test]
fn problem_de_missing_file_missing_path_returns_none() {
    // Required field absent.
    let v = object(vec![]);
    assert!(problem_from_json("missing-file", &v).is_none());
}

#[test]
fn problem_de_missing_file_wrong_type_returns_none() {
    // Required field of the wrong JSON type.
    let v = object(vec![("path", JsonMember::Int(42))]);
    assert!(problem_from_json("missing-file", &v).is_none());
}

#[test]
fn problem_de_missing_python_module_only_required_field() {
    // Optional fields absent.
    let v = object(vec![("module", JsonMember::Str(s("numpy")))]);
    let p = problem_from_json("missing-python-module", &v).expect("optional fields should be optional");
    assert_eq!(p.kind(), "missing-python-module");
    assert_eq!(
        p.json(),
        object(vec![
            ("module", JsonMember::Str(s("numpy"))),
            ("python_version", JsonMember::Null),
            ("minimum_version", JsonMember::Null),
        ])
    );
}

#[test]
fn problem_de_missing_autoconf_macro_omits_need_rebuild() {
    // need_rebuild is optional (defaults to false).
    let v = object(vec![("macro", JsonMember::Str(s("AC_PROG_CC")))]);
    let p = problem_from_json("missing-autoconf-macro", &v).expect("need_rebuild should be optional");
    assert_eq!(
        p.json(),
        object(vec![("macro", JsonMember::Str(s("AC_PROG_CC"))), ("need_rebuild", JsonMember::Bool(false))])
    );
}

#[test]
fn problem_de_unknown_kind_returns_none() {
    let v = object(vec![("foo", JsonMember::Str(s("bar")))]);
    assert!(problem_from_json("not-a-real-kind", &v).is_none());
}
