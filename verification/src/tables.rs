//! The tables of matchers that recognise known failures in build logs.
use vstd::prelude::*;
use crate::common::Matcher;
use crate::matcher::{Callback, RegexLineMatcher};
use crate::template::{Template, Text, Texts};

verus! {

/// Part 0 of the matchers for the explanation of a CMake error.
pub open spec fn cmake_error_matchers_part0() -> Seq<RegexLineMatcher> {
    seq![
        RegexLineMatcher { regex: "(?s)Could NOT find (.*) \\(missing:\\s(.*)\\)\\s\\(found\\ssuitable\\sversion\\s.*", callback: Callback::Make(Template::MissingCMakeComponents { name: Text::Group(1), components: Texts::Words(2) }) },
        RegexLineMatcher { regex: "(?s)\\s*--\\s+Package \\'(.*)\\', required by \\'(.*)\\', not found", callback: Callback::Make(Template::MissingPkgConfig { module: Text::Group(1), minimum_version: None }) },
        RegexLineMatcher { regex: "(?s)Could not find a package configuration file provided by\\s\"(.*)\" \\(requested\\sversion\\s(.*)\\)\\swith\\sany\\s+of\\s+the\\s+following\\snames:\\n\\n(  .*\\n)+\\n.*$", callback: Callback::Make(Template::MissingCMakeConfig { name: Text::Group(1), version: Some(Text::Group(2)) }) },
        RegexLineMatcher { regex: "(?s)Could NOT find (.*) \\(missing: (.*)\\)", callback: Callback::Make(Template::MissingCMakeComponents { name: Text::Group(1), components: Texts::Words(2) }) },
        RegexLineMatcher { regex: "(?s)The (.+) compiler\\n\\n  \"(.*)\"\\n\\nis not able to compile a simple test program\\.\\n\\nIt fails with the following output:\\n\\n(.*)\\n\\nCMake will not be able to correctly generate this project.\\n$", callback: Callback::CompilerOutput(3) },
        RegexLineMatcher { regex: "(?s)Could NOT find (.*): Found unsuitable version \\\"(.*)\\\",\\sbut\\srequired\\sis\\sexact version \\\"(.*)\\\" \\(found\\s(.*)\\)", callback: Callback::Make(Template::CMakeNeedExactVersion { package: Text::Group(1), version_found: Text::Group(2), exact_version_needed: Text::Group(3), path: Text::Group(4) }) },
        RegexLineMatcher { regex: "(?s)(.*) couldn't be found \\(missing: .*_LIBRARIES .*_INCLUDE_DIR\\)", callback: Callback::VagueDependency(1) },
        RegexLineMatcher { regex: "(?s)Could NOT find (.*): Found unsuitable version \\\"(.*)\\\",\\sbut\\srequired\\sis\\sat\\sleast\\s\\\"(.*)\\\" \\(found\\s(.*)\\)", callback: Callback::Make(Template::MissingPkgConfig { module: Text::Group(1), minimum_version: Some(Text::Group(3)) }) },
        RegexLineMatcher { regex: "(?s)The imported target \\\"(.*)\\\" references the file\\n\\n\\s*\"(.*)\"\\n\\nbut this file does not exist\\.(.*)", callback: Callback::Make(Template::MissingFile { path: Text::Group(2) }) },
        RegexLineMatcher { regex: "(?s)Could not find a configuration file for package \"(.*)\"\\sthat\\sis\\scompatible\\swith\\srequested\\sversion\\s\"(.*)\"\\.", callback: Callback::Make(Template::MissingCMakeConfig { name: Text::Group(1), version: Some(Text::Group(2)) }) },
        RegexLineMatcher { regex: "(?s).*Could not find a package configuration file provided by \"(.*)\"\\s+with\\s+any\\s+of\\s+the\\s+following\\s+names:\\n\\n(  .*\\n)+\\n.*$", callback: Callback::Make(Template::CMakeFilesMissing { filenames: Texts::Words(2), version: None }) },
        RegexLineMatcher { regex: "(?s).*Could not find a package configuration file provided by \"(.*)\"\\s\\(requested\\sversion\\s(.+\\))\\swith\\sany\\sof\\sthe\\sfollowing\\snames:\\n\\n(  .*\\n)+\\n.*$", callback: Callback::Make(Template::MissingCMakeConfig { name: Text::Group(1), version: Some(Text::Group(2)) }) },
        RegexLineMatcher { regex: "(?s)No CMAKE_(.*)_COMPILER could be found.\\n\\nTell CMake where to find the compiler by setting either\\sthe\\senvironment\\svariable\\s\"(.*)\"\\sor\\sthe\\sCMake\\scache\\sentry\\sCMAKE_(.*)_COMPILER\\sto\\sthe\\sfull\\spath\\sto\\sthe\\scompiler,\\sor\\sto\\sthe\\scompiler\\sname\\sif\\sit\\sis\\sin\\sthe\\sPATH.\\n", callback: Callback::Make(Template::MissingCommand(Text::Lower(1))) },
        RegexLineMatcher { regex: "(?s)file INSTALL cannot find\\s\"(.*)\".\\n", callback: Callback::Make(Template::MissingFile { path: Text::Group(1) }) },
        RegexLineMatcher { regex: "(?s)file INSTALL cannot copy file\\n\"(.*)\"\\sto\\s\"(.*)\":\\sNo space left on device.\\n", callback: Callback::NoSpace },
        RegexLineMatcher { regex: "(?s)patch: \\*\\*\\*\\* write error : No space left on device", callback: Callback::NoSpace },
        RegexLineMatcher { regex: "(?s).*\\(No space left on device\\)", callback: Callback::NoSpace },
        RegexLineMatcher { regex: "(?s)file INSTALL cannot copy file\\n\"(.*)\"\\nto\\n\"(.*)\"\\.\\n", callback: Callback::Nothing },
        RegexLineMatcher { regex: "(?s)Missing (.*)\\.  Either your\\nlib(.*) version is too old, or lib(.*) wasn\\'t found in the place you\\nsaid.", callback: Callback::Make(Template::MissingLibrary(Text::Group(1))) },
        RegexLineMatcher { regex: "(?s)need (.*) of version (.*)", callback: Callback::Make(Template::MissingVagueDependency { name: Text::Group(1), url: None, minimum_version: Some(Text::Group(2)), current_version: None }) },
    ]
}

fn cmake_error_matchers_table_part0() -> (r: Vec<RegexLineMatcher>)
    ensures
        r@ == cmake_error_matchers_part0(),
{
    let mut v: Vec<RegexLineMatcher> = Vec::new();
    v.push(RegexLineMatcher { regex: "(?s)Could NOT find (.*) \\(missing:\\s(.*)\\)\\s\\(found\\ssuitable\\sversion\\s.*", callback: Callback::Make(Template::MissingCMakeComponents { name: Text::Group(1), components: Texts::Words(2) }) });
    v.push(RegexLineMatcher { regex: "(?s)\\s*--\\s+Package \\'(.*)\\', required by \\'(.*)\\', not found", callback: Callback::Make(Template::MissingPkgConfig { module: Text::Group(1), minimum_version: None }) });
    v.push(RegexLineMatcher { regex: "(?s)Could not find a package configuration file provided by\\s\"(.*)\" \\(requested\\sversion\\s(.*)\\)\\swith\\sany\\s+of\\s+the\\s+following\\snames:\\n\\n(  .*\\n)+\\n.*$", callback: Callback::Make(Template::MissingCMakeConfig { name: Text::Group(1), version: Some(Text::Group(2)) }) });
    v.push(RegexLineMatcher { regex: "(?s)Could NOT find (.*) \\(missing: (.*)\\)", callback: Callback::Make(Template::MissingCMakeComponents { name: Text::Group(1), components: Texts::Words(2) }) });
    v.push(RegexLineMatcher { regex: "(?s)The (.+) compiler\\n\\n  \"(.*)\"\\n\\nis not able to compile a simple test program\\.\\n\\nIt fails with the following output:\\n\\n(.*)\\n\\nCMake will not be able to correctly generate this project.\\n$", callback: Callback::CompilerOutput(3) });
    v.push(RegexLineMatcher { regex: "(?s)Could NOT find (.*): Found unsuitable version \\\"(.*)\\\",\\sbut\\srequired\\sis\\sexact version \\\"(.*)\\\" \\(found\\s(.*)\\)", callback: Callback::Make(Template::CMakeNeedExactVersion { package: Text::Group(1), version_found: Text::Group(2), exact_version_needed: Text::Group(3), path: Text::Group(4) }) });
    v.push(RegexLineMatcher { regex: "(?s)(.*) couldn't be found \\(missing: .*_LIBRARIES .*_INCLUDE_DIR\\)", callback: Callback::VagueDependency(1) });
    v.push(RegexLineMatcher { regex: "(?s)Could NOT find (.*): Found unsuitable version \\\"(.*)\\\",\\sbut\\srequired\\sis\\sat\\sleast\\s\\\"(.*)\\\" \\(found\\s(.*)\\)", callback: Callback::Make(Template::MissingPkgConfig { module: Text::Group(1), minimum_version: Some(Text::Group(3)) }) });
    v.push(RegexLineMatcher { regex: "(?s)The imported target \\\"(.*)\\\" references the file\\n\\n\\s*\"(.*)\"\\n\\nbut this file does not exist\\.(.*)", callback: Callback::Make(Template::MissingFile { path: Text::Group(2) }) });
    v.push(RegexLineMatcher { regex: "(?s)Could not find a configuration file for package \"(.*)\"\\sthat\\sis\\scompatible\\swith\\srequested\\sversion\\s\"(.*)\"\\.", callback: Callback::Make(Template::MissingCMakeConfig { name: Text::Group(1), version: Some(Text::Group(2)) }) });
    v.push(RegexLineMatcher { regex: "(?s).*Could not find a package configuration file provided by \"(.*)\"\\s+with\\s+any\\s+of\\s+the\\s+following\\s+names:\\n\\n(  .*\\n)+\\n.*$", callback: Callback::Make(Template::CMakeFilesMissing { filenames: Texts::Words(2), version: None }) });
    v.push(RegexLineMatcher { regex: "(?s).*Could not find a package configuration file provided by \"(.*)\"\\s\\(requested\\sversion\\s(.+\\))\\swith\\sany\\sof\\sthe\\sfollowing\\snames:\\n\\n(  .*\\n)+\\n.*$", callback: Callback::Make(Template::MissingCMakeConfig { name: Text::Group(1), version: Some(Text::Group(2)) }) });
    v.push(RegexLineMatcher { regex: "(?s)No CMAKE_(.*)_COMPILER could be found.\\n\\nTell CMake where to find the compiler by setting either\\sthe\\senvironment\\svariable\\s\"(.*)\"\\sor\\sthe\\sCMake\\scache\\sentry\\sCMAKE_(.*)_COMPILER\\sto\\sthe\\sfull\\spath\\sto\\sthe\\scompiler,\\sor\\sto\\sthe\\scompiler\\sname\\sif\\sit\\sis\\sin\\sthe\\sPATH.\\n", callback: Callback::Make(Template::MissingCommand(Text::Lower(1))) });
    v.push(RegexLineMatcher { regex: "(?s)file INSTALL cannot find\\s\"(.*)\".\\n", callback: Callback::Make(Template::MissingFile { path: Text::Group(1) }) });
    v.push(RegexLineMatcher { regex: "(?s)file INSTALL cannot copy file\\n\"(.*)\"\\sto\\s\"(.*)\":\\sNo space left on device.\\n", callback: Callback::NoSpace });
    v.push(RegexLineMatcher { regex: "(?s)patch: \\*\\*\\*\\* write error : No space left on device", callback: Callback::NoSpace });
    v.push(RegexLineMatcher { regex: "(?s).*\\(No space left on device\\)", callback: Callback::NoSpace });
    v.push(RegexLineMatcher { regex: "(?s)file INSTALL cannot copy file\\n\"(.*)\"\\nto\\n\"(.*)\"\\.\\n", callback: Callback::Nothing });
    v.push(RegexLineMatcher { regex: "(?s)Missing (.*)\\.  Either your\\nlib(.*) version is too old, or lib(.*) wasn\\'t found in the place you\\nsaid.", callback: Callback::Make(Template::MissingLibrary(Text::Group(1))) });
    v.push(RegexLineMatcher { regex: "(?s)need (.*) of version (.*)", callback: Callback::Make(Template::MissingVagueDependency { name: Text::Group(1), url: None, minimum_version: Some(Text::Group(2)), current_version: None }) });
    assert(v@ =~= cmake_error_matchers_part0());
    v
}

/// Part 1 of the matchers for the explanation of a CMake error.
pub open spec fn cmake_error_matchers_part1() -> Seq<RegexLineMatcher> {
    seq![
        RegexLineMatcher { regex: "(?s)\\*\\*\\* (.*) is required to build (.*)\\n", callback: Callback::VagueDependency(1) },
        RegexLineMatcher { regex: "(?s)\\[([^ ]+)\\] not found", callback: Callback::VagueDependency(1) },
        RegexLineMatcher { regex: "(?s)([^ ]+) not found", callback: Callback::VagueDependency(1) },
        RegexLineMatcher { regex: "(?s)error: could not find git .*", callback: Callback::CommandNamed("git") },
        RegexLineMatcher { regex: "(?s)Could not find \\'(.*)\\' executable[\\!,].*", callback: Callback::CommandGroup(1) },
        RegexLineMatcher { regex: "(?s)Could not find (.*)_STATIC_LIBRARIES using the following names: ([a-zA-z0-9_.]+)", callback: Callback::Make(Template::MissingStaticLibrary { library: Text::Group(1), filename: Text::Group(2) }) },
        RegexLineMatcher { regex: "(?s)include could not find (requested|load) file:\n\n  (.*)\n", callback: Callback::CMakeFile(2) },
        RegexLineMatcher { regex: "(?s)(.*) and (.*) are required", callback: Callback::VagueDependency(1) },
        RegexLineMatcher { regex: "(?s)Please check your (.*) installation", callback: Callback::VagueDependency(1) },
        RegexLineMatcher { regex: "(?s)Python module (.*) not found\\!", callback: Callback::Make(Template::MissingPythonModule { module: Text::Group(1), python_version: None, minimum_version: None }) },
        RegexLineMatcher { regex: "(?s)\\s*could not find ([^\\s]+)$", callback: Callback::VagueDependency(1) },
        RegexLineMatcher { regex: "(?s)Please install (.*) before installing (.*)\\.", callback: Callback::VagueDependency(1) },
        RegexLineMatcher { regex: "(?s)Please get (.*) from (www\\..*)", callback: Callback::Make(Template::MissingVagueDependency { name: Text::Group(1), url: Some(Text::Group(2)), minimum_version: None, current_version: None }) },
        RegexLineMatcher { regex: "(?s)Found unsuitable Qt version \"\" from NOTFOUND, this code requires Qt 4.x", callback: Callback::Kind("missing-qt") },
        RegexLineMatcher { regex: "(?s)(.*) executable not found\\! Please install (.*)\\.", callback: Callback::CommandGroup(1) },
        RegexLineMatcher { regex: "(?s)(.*) tool not found", callback: Callback::CommandGroup(1) },
        RegexLineMatcher { regex: "(?s)--   Requested \\'(.*) >= (.*)\\' but version of (.*) is (.*)", callback: Callback::Make(Template::MissingPkgConfig { module: Text::Group(1), minimum_version: Some(Text::Group(2)) }) },
        RegexLineMatcher { regex: "(?s)--   No package \\'(.*)\\' found", callback: Callback::Make(Template::MissingPkgConfig { module: Text::Group(1), minimum_version: None }) },
        RegexLineMatcher { regex: "(?s)([^ ]+) library not found\\.", callback: Callback::Make(Template::MissingLibrary(Text::Group(1))) },
        RegexLineMatcher { regex: "(?s)Please install (.*) so that it is on the PATH and try again\\.", callback: Callback::CommandMissing(1) },
    ]
}

fn cmake_error_matchers_table_part1() -> (r: Vec<RegexLineMatcher>)
    ensures
        r@ == cmake_error_matchers_part1(),
{
    let mut v: Vec<RegexLineMatcher> = Vec::new();
    v.push(RegexLineMatcher { regex: "(?s)\\*\\*\\* (.*) is required to build (.*)\\n", callback: Callback::VagueDependency(1) });
    v.push(RegexLineMatcher { regex: "(?s)\\[([^ ]+)\\] not found", callback: Callback::VagueDependency(1) });
    v.push(RegexLineMatcher { regex: "(?s)([^ ]+) not found", callback: Callback::VagueDependency(1) });
    v.push(RegexLineMatcher { regex: "(?s)error: could not find git .*", callback: Callback::CommandNamed("git") });
    v.push(RegexLineMatcher { regex: "(?s)Could not find \\'(.*)\\' executable[\\!,].*", callback: Callback::CommandGroup(1) });
    v.push(RegexLineMatcher { regex: "(?s)Could not find (.*)_STATIC_LIBRARIES using the following names: ([a-zA-z0-9_.]+)", callback: Callback::Make(Template::MissingStaticLibrary { library: Text::Group(1), filename: Text::Group(2) }) });
    v.push(RegexLineMatcher { regex: "(?s)include could not find (requested|load) file:\n\n  (.*)\n", callback: Callback::CMakeFile(2) });
    v.push(RegexLineMatcher { regex: "(?s)(.*) and (.*) are required", callback: Callback::VagueDependency(1) });
    v.push(RegexLineMatcher { regex: "(?s)Please check your (.*) installation", callback: Callback::VagueDependency(1) });
    v.push(RegexLineMatcher { regex: "(?s)Python module (.*) not found\\!", callback: Callback::Make(Template::MissingPythonModule { module: Text::Group(1), python_version: None, minimum_version: None }) });
    v.push(RegexLineMatcher { regex: "(?s)\\s*could not find ([^\\s]+)$", callback: Callback::VagueDependency(1) });
    v.push(RegexLineMatcher { regex: "(?s)Please install (.*) before installing (.*)\\.", callback: Callback::VagueDependency(1) });
    v.push(RegexLineMatcher { regex: "(?s)Please get (.*) from (www\\..*)", callback: Callback::Make(Template::MissingVagueDependency { name: Text::Group(1), url: Some(Text::Group(2)), minimum_version: None, current_version: None }) });
    v.push(RegexLineMatcher { regex: "(?s)Found unsuitable Qt version \"\" from NOTFOUND, this code requires Qt 4.x", callback: Callback::Kind("missing-qt") });
    v.push(RegexLineMatcher { regex: "(?s)(.*) executable not found\\! Please install (.*)\\.", callback: Callback::CommandGroup(1) });
    v.push(RegexLineMatcher { regex: "(?s)(.*) tool not found", callback: Callback::CommandGroup(1) });
    v.push(RegexLineMatcher { regex: "(?s)--   Requested \\'(.*) >= (.*)\\' but version of (.*) is (.*)", callback: Callback::Make(Template::MissingPkgConfig { module: Text::Group(1), minimum_version: Some(Text::Group(2)) }) });
    v.push(RegexLineMatcher { regex: "(?s)--   No package \\'(.*)\\' found", callback: Callback::Make(Template::MissingPkgConfig { module: Text::Group(1), minimum_version: None }) });
    v.push(RegexLineMatcher { regex: "(?s)([^ ]+) library not found\\.", callback: Callback::Make(Template::MissingLibrary(Text::Group(1))) });
    v.push(RegexLineMatcher { regex: "(?s)Please install (.*) so that it is on the PATH and try again\\.", callback: Callback::CommandMissing(1) });
    assert(v@ =~= cmake_error_matchers_part1());
    v
}

/// Part 2 of the matchers for the explanation of a CMake error.
pub open spec fn cmake_error_matchers_part2() -> Seq<RegexLineMatcher> {
    seq![
        RegexLineMatcher { regex: "(?s)-- Unable to find git\\.  Setting git revision to \\'unknown\\'\\.", callback: Callback::CommandNamed("git") },
        RegexLineMatcher { regex: "(?s)(.*) must be installed before configuration \\& building can proceed", callback: Callback::VagueDependency(1) },
        RegexLineMatcher { regex: "(?s)(.*) development files not found\\.", callback: Callback::VagueDependency(1) },
        RegexLineMatcher { regex: "(?s).* but no (.*) dev libraries found", callback: Callback::VagueDependency(1) },
        RegexLineMatcher { regex: "(?s)Failed to find (.*) \\(missing: .*\\)", callback: Callback::VagueDependency(1) },
        RegexLineMatcher { regex: "(?s)Couldn\\'t find ([^ ]+) development files\\..*", callback: Callback::VagueDependency(1) },
        RegexLineMatcher { regex: "(?s)Could not find required (.*) package\\!", callback: Callback::VagueDependency(1) },
        RegexLineMatcher { regex: "(?s)Cannot find (.*), giving up\\. .*", callback: Callback::VagueDependency(1) },
        RegexLineMatcher { regex: "(?s)Cannot find (.*)\\. (.*) is required for (.*)", callback: Callback::VagueDependency(1) },
        RegexLineMatcher { regex: "(?s)The development\\sfiles\\sfor\\s(.*)\\sare\\srequired\\sto\\sbuild (.*)\\.", callback: Callback::VagueDependency(1) },
        RegexLineMatcher { regex: "(?s)Required library (.*) not found\\.", callback: Callback::VagueDependency(1) },
        RegexLineMatcher { regex: "(?s)(.*) required to compile (.*)", callback: Callback::VagueDependency(1) },
        RegexLineMatcher { regex: "(?s)(.*) requires (.*) ([0-9].*) or newer. See (https://.*)\\s*", callback: Callback::Make(Template::MissingVagueDependency { name: Text::Group(2), url: Some(Text::Group(4)), minimum_version: Some(Text::Group(3)), current_version: None }) },
        RegexLineMatcher { regex: "(?s)(.*) requires (.*) ([0-9].*) or newer.\\s*", callback: Callback::Make(Template::MissingVagueDependency { name: Text::Group(2), url: None, minimum_version: Some(Text::Group(3)), current_version: None }) },
        RegexLineMatcher { regex: "(?s)(.*) requires (.*) to build", callback: Callback::VagueDependency(2) },
        RegexLineMatcher { regex: "(?s)(.*) library missing", callback: Callback::Make(Template::MissingLibrary(Text::Group(1))) },
        RegexLineMatcher { regex: "(?s)(.*) requires (.*)", callback: Callback::VagueDependency(2) },
        RegexLineMatcher { regex: "(?s)Could not find ([A-Za-z-]+)", callback: Callback::VagueDependency(1) },
        RegexLineMatcher { regex: "(?s)(.+) is required for (.*)\\.", callback: Callback::VagueDependency(1) },
        RegexLineMatcher { regex: "(?s)No (.+) version could be found in your system\\.", callback: Callback::VagueDependency(1) },
    ]
}

fn cmake_error_matchers_table_part2() -> (r: Vec<RegexLineMatcher>)
    ensures
        r@ == cmake_error_matchers_part2(),
{
    let mut v: Vec<RegexLineMatcher> = Vec::new();
    v.push(RegexLineMatcher { regex: "(?s)-- Unable to find git\\.  Setting git revision to \\'unknown\\'\\.", callback: Callback::CommandNamed("git") });
    v.push(RegexLineMatcher { regex: "(?s)(.*) must be installed before configuration \\& building can proceed", callback: Callback::VagueDependency(1) });
    v.push(RegexLineMatcher { regex: "(?s)(.*) development files not found\\.", callback: Callback::VagueDependency(1) });
    v.push(RegexLineMatcher { regex: "(?s).* but no (.*) dev libraries found", callback: Callback::VagueDependency(1) });
    v.push(RegexLineMatcher { regex: "(?s)Failed to find (.*) \\(missing: .*\\)", callback: Callback::VagueDependency(1) });
    v.push(RegexLineMatcher { regex: "(?s)Couldn\\'t find ([^ ]+) development files\\..*", callback: Callback::VagueDependency(1) });
    v.push(RegexLineMatcher { regex: "(?s)Could not find required (.*) package\\!", callback: Callback::VagueDependency(1) });
    v.push(RegexLineMatcher { regex: "(?s)Cannot find (.*), giving up\\. .*", callback: Callback::VagueDependency(1) });
    v.push(RegexLineMatcher { regex: "(?s)Cannot find (.*)\\. (.*) is required for (.*)", callback: Callback::VagueDependency(1) });
    v.push(RegexLineMatcher { regex: "(?s)The development\\sfiles\\sfor\\s(.*)\\sare\\srequired\\sto\\sbuild (.*)\\.", callback: Callback::VagueDependency(1) });
    v.push(RegexLineMatcher { regex: "(?s)Required library (.*) not found\\.", callback: Callback::VagueDependency(1) });
    v.push(RegexLineMatcher { regex: "(?s)(.*) required to compile (.*)", callback: Callback::VagueDependency(1) });
    v.push(RegexLineMatcher { regex: "(?s)(.*) requires (.*) ([0-9].*) or newer. See (https://.*)\\s*", callback: Callback::Make(Template::MissingVagueDependency { name: Text::Group(2), url: Some(Text::Group(4)), minimum_version: Some(Text::Group(3)), current_version: None }) });
    v.push(RegexLineMatcher { regex: "(?s)(.*) requires (.*) ([0-9].*) or newer.\\s*", callback: Callback::Make(Template::MissingVagueDependency { name: Text::Group(2), url: None, minimum_version: Some(Text::Group(3)), current_version: None }) });
    v.push(RegexLineMatcher { regex: "(?s)(.*) requires (.*) to build", callback: Callback::VagueDependency(2) });
    v.push(RegexLineMatcher { regex: "(?s)(.*) library missing", callback: Callback::Make(Template::MissingLibrary(Text::Group(1))) });
    v.push(RegexLineMatcher { regex: "(?s)(.*) requires (.*)", callback: Callback::VagueDependency(2) });
    v.push(RegexLineMatcher { regex: "(?s)Could not find ([A-Za-z-]+)", callback: Callback::VagueDependency(1) });
    v.push(RegexLineMatcher { regex: "(?s)(.+) is required for (.*)\\.", callback: Callback::VagueDependency(1) });
    v.push(RegexLineMatcher { regex: "(?s)No (.+) version could be found in your system\\.", callback: Callback::VagueDependency(1) });
    assert(v@ =~= cmake_error_matchers_part2());
    v
}

/// Part 3 of the matchers for the explanation of a CMake error.
pub open spec fn cmake_error_matchers_part3() -> Seq<RegexLineMatcher> {
    seq![
        RegexLineMatcher { regex: "(?s)([^ ]+) >= (.*) is required", callback: Callback::Make(Template::MissingVagueDependency { name: Text::Group(1), url: None, minimum_version: Some(Text::Group(2)), current_version: None }) },
        RegexLineMatcher { regex: "(?s)\\s*([^ ]+) is required", callback: Callback::VagueDependency(1) },
        RegexLineMatcher { regex: "(?s)([^ ]+) binary not found\\!", callback: Callback::CommandGroup(1) },
        RegexLineMatcher { regex: "(?s)error: could not find git for clone of .*", callback: Callback::CommandNamed("git") },
        RegexLineMatcher { regex: "(?s)Did not find ([^\\s]+)", callback: Callback::VagueDependency(1) },
        RegexLineMatcher { regex: "(?s)Could not find the ([^ ]+) external dependency\\.", callback: Callback::VagueDependency(1) },
        RegexLineMatcher { regex: "(?s)Couldn\\'t find (.*)", callback: Callback::VagueDependency(1) },
    ]
}

fn cmake_error_matchers_table_part3() -> (r: Vec<RegexLineMatcher>)
    ensures
        r@ == cmake_error_matchers_part3(),
{
    let mut v: Vec<RegexLineMatcher> = Vec::new();
    v.push(RegexLineMatcher { regex: "(?s)([^ ]+) >= (.*) is required", callback: Callback::Make(Template::MissingVagueDependency { name: Text::Group(1), url: None, minimum_version: Some(Text::Group(2)), current_version: None }) });
    v.push(RegexLineMatcher { regex: "(?s)\\s*([^ ]+) is required", callback: Callback::VagueDependency(1) });
    v.push(RegexLineMatcher { regex: "(?s)([^ ]+) binary not found\\!", callback: Callback::CommandGroup(1) });
    v.push(RegexLineMatcher { regex: "(?s)error: could not find git for clone of .*", callback: Callback::CommandNamed("git") });
    v.push(RegexLineMatcher { regex: "(?s)Did not find ([^\\s]+)", callback: Callback::VagueDependency(1) });
    v.push(RegexLineMatcher { regex: "(?s)Could not find the ([^ ]+) external dependency\\.", callback: Callback::VagueDependency(1) });
    v.push(RegexLineMatcher { regex: "(?s)Couldn\\'t find (.*)", callback: Callback::VagueDependency(1) });
    assert(v@ =~= cmake_error_matchers_part3());
    v
}

/// The matchers for the explanation of a CMake error.
#[verifier::opaque]
pub open spec fn cmake_error_matchers() -> Seq<RegexLineMatcher> {
    cmake_error_matchers_part0() + cmake_error_matchers_part1() + cmake_error_matchers_part2() + cmake_error_matchers_part3()
}

/// The matchers for the explanation of a CMake error.
pub fn cmake_error_matchers_table() -> (r: Vec<RegexLineMatcher>)
    ensures
        r@ == cmake_error_matchers(),
{
    let mut v = cmake_error_matchers_table_part0();
    let mut p = cmake_error_matchers_table_part1();
    v.append(&mut p);
    let mut p = cmake_error_matchers_table_part2();
    v.append(&mut p);
    let mut p = cmake_error_matchers_table_part3();
    v.append(&mut p);
    proof {
        reveal(cmake_error_matchers);
    }
    assert(v@ =~= cmake_error_matchers());
    v
}

/// Part 0 of the matchers for the lines of a build log.
pub open spec fn common_matchers_part0() -> Seq<Matcher> {
    seq![
        Matcher::Regex(RegexLineMatcher { regex: "^[^:]+:\\d+: (.*): No such file or directory$", callback: Callback::FileNotFoundMaybeExecutable(1) }),
        Matcher::Regex(RegexLineMatcher { regex: "^(distutils.errors.DistutilsError|error): Could not find suitable distribution for Requirement.parse\\('([^']+)'\\)$", callback: Callback::PythonDistribution(2, None) }),
        Matcher::Regex(RegexLineMatcher { regex: "^We need the Python library (.*) to be installed. Try runnning: python -m ensurepip$", callback: Callback::Make(Template::MissingPythonDistribution { distribution: Text::Group(1), python_version: None, minimum_version: None }) }),
        Matcher::Regex(RegexLineMatcher { regex: "^pkg_resources.DistributionNotFound: The '([^']+)' distribution was not found and is required by the application$", callback: Callback::PythonDistribution(1, None) }),
        Matcher::Regex(RegexLineMatcher { regex: "^pkg_resources.DistributionNotFound: The '([^']+)' distribution was not found and is required by (.*)$", callback: Callback::PythonDistribution(1, None) }),
        Matcher::Regex(RegexLineMatcher { regex: "^Please install cmake version >= (.*) and re-run setup$", callback: Callback::CommandNamed("cmake") }),
        Matcher::Regex(RegexLineMatcher { regex: "^pluggy.manager.PluginValidationError: Plugin '.*' could not be loaded: \\(.* \\(/usr/lib/python2.[0-9]/dist-packages\\), Requirement.parse\\('(.*)'\\)\\)!$", callback: Callback::PythonRequirement(1) }),
        Matcher::Regex(RegexLineMatcher { regex: "^E ImportError: (.*) could not be imported\\.$", callback: Callback::Make(Template::MissingPythonModule { module: Text::Group(1), python_version: None, minimum_version: None }) }),
        Matcher::Regex(RegexLineMatcher { regex: "^ImportError: could not find any library for ([^ ]+) .*$", callback: Callback::Make(Template::MissingLibrary(Text::Group(1))) }),
        Matcher::Regex(RegexLineMatcher { regex: "^ImportError: cannot import name (.*), introspection typelib not found$", callback: Callback::Make(Template::MissingIntrospectionTypelib(Text::Group(1))) }),
        Matcher::Regex(RegexLineMatcher { regex: "^ValueError: Namespace (.*) not available$", callback: Callback::Make(Template::MissingIntrospectionTypelib(Text::Group(1))) }),
        Matcher::Regex(RegexLineMatcher { regex: "^  namespace '(.*)' ([^ ]+) is being loaded, but >= ([^ ]+) is required$", callback: Callback::Make(Template::MissingRPackage { package: Text::Group(1), minimum_version: Some(Text::Group(3)) }) }),
        Matcher::Regex(RegexLineMatcher { regex: "^ImportError: cannot import name '(.*)' from '(.*)'$", callback: Callback::Make(Template::MissingPythonModule { module: Text::Joined(2, ".", 1, ""), python_version: None, minimum_version: None }) }),
        Matcher::Regex(RegexLineMatcher { regex: "^E       fixture '(.*)' not found$", callback: Callback::Make(Template::MissingPytestFixture(Text::Group(1))) }),
        Matcher::Regex(RegexLineMatcher { regex: "^pytest: error: unrecognized arguments: (.*)$", callback: Callback::PytestArguments(1) }),
        Matcher::Regex(RegexLineMatcher { regex: "^INTERNALERROR> pytest.PytestConfigWarning: Unknown config option: (.*)$", callback: Callback::Make(Template::UnsupportedPytestConfigOption(Text::Group(1))) }),
        Matcher::Regex(RegexLineMatcher { regex: "^E   ImportError: cannot import name '(.*)' from '(.*)'", callback: Callback::Make(Template::MissingPythonModule { module: Text::Joined(2, ".", 1, ""), python_version: None, minimum_version: None }) }),
        Matcher::Regex(RegexLineMatcher { regex: "^E   ImportError: cannot import name ([^']+)", callback: Callback::Make(Template::MissingPythonModule { module: Text::Group(1), python_version: None, minimum_version: None }) }),
        Matcher::Regex(RegexLineMatcher { regex: "^django.core.exceptions.ImproperlyConfigured: Error loading .* module: No module named '(.*)'", callback: Callback::Make(Template::MissingPythonModule { module: Text::Group(1), python_version: None, minimum_version: None }) }),
        Matcher::Regex(RegexLineMatcher { regex: "^E   ImportError: No module named (.*)", callback: Callback::Make(Template::MissingPythonModule { module: Text::Group(1), python_version: None, minimum_version: None }) }),
    ]
}

fn common_matchers_table_part0() -> (r: Vec<Matcher>)
    ensures
        r@ == common_matchers_part0(),
{
    let mut v: Vec<Matcher> = Vec::new();
    v.push(Matcher::Regex(RegexLineMatcher { regex: "^[^:]+:\\d+: (.*): No such file or directory$", callback: Callback::FileNotFoundMaybeExecutable(1) }));
    v.push(Matcher::Regex(RegexLineMatcher { regex: "^(distutils.errors.DistutilsError|error): Could not find suitable distribution for Requirement.parse\\('([^']+)'\\)$", callback: Callback::PythonDistribution(2, None) }));
    v.push(Matcher::Regex(RegexLineMatcher { regex: "^We need the Python library (.*) to be installed. Try runnning: python -m ensurepip$", callback: Callback::Make(Template::MissingPythonDistribution { distribution: Text::Group(1), python_version: None, minimum_version: None }) }));
    v.push(Matcher::Regex(RegexLineMatcher { regex: "^pkg_resources.DistributionNotFound: The '([^']+)' distribution was not found and is required by the application$", callback: Callback::PythonDistribution(1, None) }));
    v.push(Matcher::Regex(RegexLineMatcher { regex: "^pkg_resources.DistributionNotFound: The '([^']+)' distribution was not found and is required by (.*)$", callback: Callback::PythonDistribution(1, None) }));
    v.push(Matcher::Regex(RegexLineMatcher { regex: "^Please install cmake version >= (.*) and re-run setup$", callback: Callback::CommandNamed("cmake") }));
    v.push(Matcher::Regex(RegexLineMatcher { regex: "^pluggy.manager.PluginValidationError: Plugin '.*' could not be loaded: \\(.* \\(/usr/lib/python2.[0-9]/dist-packages\\), Requirement.parse\\('(.*)'\\)\\)!$", callback: Callback::PythonRequirement(1) }));
    v.push(Matcher::Regex(RegexLineMatcher { regex: "^E ImportError: (.*) could not be imported\\.$", callback: Callback::Make(Template::MissingPythonModule { module: Text::Group(1), python_version: None, minimum_version: None }) }));
    v.push(Matcher::Regex(RegexLineMatcher { regex: "^ImportError: could not find any library for ([^ ]+) .*$", callback: Callback::Make(Template::MissingLibrary(Text::Group(1))) }));
    v.push(Matcher::Regex(RegexLineMatcher { regex: "^ImportError: cannot import name (.*), introspection typelib not found$", callback: Callback::Make(Template::MissingIntrospectionTypelib(Text::Group(1))) }));
    v.push(Matcher::Regex(RegexLineMatcher { regex: "^ValueError: Namespace (.*) not available$", callback: Callback::Make(Template::MissingIntrospectionTypelib(Text::Group(1))) }));
    v.push(Matcher::Regex(RegexLineMatcher { regex: "^  namespace '(.*)' ([^ ]+) is being loaded, but >= ([^ ]+) is required$", callback: Callback::Make(Template::MissingRPackage { package: Text::Group(1), minimum_version: Some(Text::Group(3)) }) }));
    v.push(Matcher::Regex(RegexLineMatcher { regex: "^ImportError: cannot import name '(.*)' from '(.*)'$", callback: Callback::Make(Template::MissingPythonModule { module: Text::Joined(2, ".", 1, ""), python_version: None, minimum_version: None }) }));
    v.push(Matcher::Regex(RegexLineMatcher { regex: "^E       fixture '(.*)' not found$", callback: Callback::Make(Template::MissingPytestFixture(Text::Group(1))) }));
    v.push(Matcher::Regex(RegexLineMatcher { regex: "^pytest: error: unrecognized arguments: (.*)$", callback: Callback::PytestArguments(1) }));
    v.push(Matcher::Regex(RegexLineMatcher { regex: "^INTERNALERROR> pytest.PytestConfigWarning: Unknown config option: (.*)$", callback: Callback::Make(Template::UnsupportedPytestConfigOption(Text::Group(1))) }));
    v.push(Matcher::Regex(RegexLineMatcher { regex: "^E   ImportError: cannot import name '(.*)' from '(.*)'", callback: Callback::Make(Template::MissingPythonModule { module: Text::Joined(2, ".", 1, ""), python_version: None, minimum_version: None }) }));
    v.push(Matcher::Regex(RegexLineMatcher { regex: "^E   ImportError: cannot import name ([^']+)", callback: Callback::Make(Template::MissingPythonModule { module: Text::Group(1), python_version: None, minimum_version: None }) }));
    v.push(Matcher::Regex(RegexLineMatcher { regex: "^django.core.exceptions.ImproperlyConfigured: Error loading .* module: No module named '(.*)'", callback: Callback::Make(Template::MissingPythonModule { module: Text::Group(1), python_version: None, minimum_version: None }) }));
    v.push(Matcher::Regex(RegexLineMatcher { regex: "^E   ImportError: No module named (.*)", callback: Callback::Make(Template::MissingPythonModule { module: Text::Group(1), python_version: None, minimum_version: None }) }));
    assert(v@ =~= common_matchers_part0());
    v
}

/// Part 1 of the matchers for the lines of a build log.
pub open spec fn common_matchers_part1() -> Seq<Matcher> {
    seq![
        Matcher::Regex(RegexLineMatcher { regex: "^\\s*ModuleNotFoundError: No module named '(.*)'", callback: Callback::Make(Template::MissingPythonModule { module: Text::Group(1), python_version: Some(3), minimum_version: None }) }),
        Matcher::Regex(RegexLineMatcher { regex: "^Could not import extension .* \\(exception: No module named (.*)\\)", callback: Callback::Make(Template::MissingPythonModule { module: Text::Trimmed(1), python_version: None, minimum_version: None }) }),
        Matcher::Regex(RegexLineMatcher { regex: "^Could not import (.*)\\.", callback: Callback::Make(Template::MissingPythonModule { module: Text::Trimmed(1), python_version: None, minimum_version: None }) }),
        Matcher::Regex(RegexLineMatcher { regex: "^(.*): Error while finding module specification for '(.*)' \\(ModuleNotFoundError: No module named '(.*)'\\)", callback: Callback::PythonModuleRun(1, 3) }),
        Matcher::Regex(RegexLineMatcher { regex: "^E   ModuleNotFoundError: No module named '(.*)'", callback: Callback::Make(Template::MissingPythonModule { module: Text::Group(1), python_version: Some(3), minimum_version: None }) }),
        Matcher::Regex(RegexLineMatcher { regex: "^/usr/bin/python3: No module named ([^ ]+).*", callback: Callback::Make(Template::MissingPythonModule { module: Text::Group(1), python_version: Some(3), minimum_version: None }) }),
        Matcher::Regex(RegexLineMatcher { regex: "^(.*:[0-9]+|package .*): cannot find package \"(.*)\" in any of:", callback: Callback::Make(Template::MissingGoPackage { package: Text::Group(2) }) }),
        Matcher::Regex(RegexLineMatcher { regex: "^ImportError: Error importing plugin \".*\": No module named (.*)", callback: Callback::Make(Template::MissingPythonModule { module: Text::Group(1), python_version: None, minimum_version: None }) }),
        Matcher::Regex(RegexLineMatcher { regex: "^ImportError: No module named (.*)", callback: Callback::Make(Template::MissingPythonModule { module: Text::Group(1), python_version: None, minimum_version: None }) }),
        Matcher::Regex(RegexLineMatcher { regex: "^[^:]+:\\d+:\\d+: fatal error: (.+\\.h|.+\\.hh|.+\\.hpp): No such file or directory", callback: Callback::Make(Template::MissingCHeader { header: Text::Group(1) }) }),
        Matcher::Regex(RegexLineMatcher { regex: "^[^:]+:\\d+:\\d+: fatal error: (.+\\.xpm): No such file or directory", callback: Callback::FileNotFound(1) }),
        Matcher::Regex(RegexLineMatcher { regex: ".*fatal: not a git repository \\(or any parent up to mount point /\\)", callback: Callback::Make(Template::VcsControlDirectoryNeeded { vcs: Texts::Lits("git") }) }),
        Matcher::Regex(RegexLineMatcher { regex: ".*fatal: not a git repository \\(or any of the parent directories\\): \\.git", callback: Callback::Make(Template::VcsControlDirectoryNeeded { vcs: Texts::Lits("git") }) }),
        Matcher::Regex(RegexLineMatcher { regex: "[^:]+\\.[ch]:\\d+:\\d+: fatal error: (.+): No such file or directory", callback: Callback::Make(Template::MissingCHeader { header: Text::Group(1) }) }),
        Matcher::Regex(RegexLineMatcher { regex: "^.*␛\x1b\\[31mERROR:␛\x1b\\[39m Error: Cannot find module '(.*)'", callback: Callback::NodeModuleMissing(1) }),
        Matcher::Regex(RegexLineMatcher { regex: "^\x1b\\[2mError: Cannot find module '(.*)'", callback: Callback::NodeModuleMissing(1) }),
        Matcher::Regex(RegexLineMatcher { regex: "^\x1b\\[1m\x1b\\[31m\\[!\\] \x1b\\[1mError: Cannot find module '(.*)'", callback: Callback::NodeModuleMissing(1) }),
        Matcher::Regex(RegexLineMatcher { regex: "^✖ \x1b\\[31mERROR:\x1b\\[39m Error: Cannot find module '(.*)'", callback: Callback::NodeModuleMissing(1) }),
        Matcher::Regex(RegexLineMatcher { regex: "^\x1b\\[0;31m  Error: To use the transpile option, you must have the '(.*)' module installed", callback: Callback::NodeModuleMissing(1) }),
        Matcher::Regex(RegexLineMatcher { regex: "^\\[31mError: No test files found: \"(.*)\"\\[39m", callback: Callback::Nothing }),
    ]
}

fn common_matchers_table_part1() -> (r: Vec<Matcher>)
    ensures
        r@ == common_matchers_part1(),
{
    let mut v: Vec<Matcher> = Vec::new();
    v.push(Matcher::Regex(RegexLineMatcher { regex: "^\\s*ModuleNotFoundError: No module named '(.*)'", callback: Callback::Make(Template::MissingPythonModule { module: Text::Group(1), python_version: Some(3), minimum_version: None }) }));
    v.push(Matcher::Regex(RegexLineMatcher { regex: "^Could not import extension .* \\(exception: No module named (.*)\\)", callback: Callback::Make(Template::MissingPythonModule { module: Text::Trimmed(1), python_version: None, minimum_version: None }) }));
    v.push(Matcher::Regex(RegexLineMatcher { regex: "^Could not import (.*)\\.", callback: Callback::Make(Template::MissingPythonModule { module: Text::Trimmed(1), python_version: None, minimum_version: None }) }));
    v.push(Matcher::Regex(RegexLineMatcher { regex: "^(.*): Error while finding module specification for '(.*)' \\(ModuleNotFoundError: No module named '(.*)'\\)", callback: Callback::PythonModuleRun(1, 3) }));
    v.push(Matcher::Regex(RegexLineMatcher { regex: "^E   ModuleNotFoundError: No module named '(.*)'", callback: Callback::Make(Template::MissingPythonModule { module: Text::Group(1), python_version: Some(3), minimum_version: None }) }));
    v.push(Matcher::Regex(RegexLineMatcher { regex: "^/usr/bin/python3: No module named ([^ ]+).*", callback: Callback::Make(Template::MissingPythonModule { module: Text::Group(1), python_version: Some(3), minimum_version: None }) }));
    v.push(Matcher::Regex(RegexLineMatcher { regex: "^(.*:[0-9]+|package .*): cannot find package \"(.*)\" in any of:", callback: Callback::Make(Template::MissingGoPackage { package: Text::Group(2) }) }));
    v.push(Matcher::Regex(RegexLineMatcher { regex: "^ImportError: Error importing plugin \".*\": No module named (.*)", callback: Callback::Make(Template::MissingPythonModule { module: Text::Group(1), python_version: None, minimum_version: None }) }));
    v.push(Matcher::Regex(RegexLineMatcher { regex: "^ImportError: No module named (.*)", callback: Callback::Make(Template::MissingPythonModule { module: Text::Group(1), python_version: None, minimum_version: None }) }));
    v.push(Matcher::Regex(RegexLineMatcher { regex: "^[^:]+:\\d+:\\d+: fatal error: (.+\\.h|.+\\.hh|.+\\.hpp): No such file or directory", callback: Callback::Make(Template::MissingCHeader { header: Text::Group(1) }) }));
    v.push(Matcher::Regex(RegexLineMatcher { regex: "^[^:]+:\\d+:\\d+: fatal error: (.+\\.xpm): No such file or directory", callback: Callback::FileNotFound(1) }));
    v.push(Matcher::Regex(RegexLineMatcher { regex: ".*fatal: not a git repository \\(or any parent up to mount point /\\)", callback: Callback::Make(Template::VcsControlDirectoryNeeded { vcs: Texts::Lits("git") }) }));
    v.push(Matcher::Regex(RegexLineMatcher { regex: ".*fatal: not a git repository \\(or any of the parent directories\\): \\.git", callback: Callback::Make(Template::VcsControlDirectoryNeeded { vcs: Texts::Lits("git") }) }));
    v.push(Matcher::Regex(RegexLineMatcher { regex: "[^:]+\\.[ch]:\\d+:\\d+: fatal error: (.+): No such file or directory", callback: Callback::Make(Template::MissingCHeader { header: Text::Group(1) }) }));
    v.push(Matcher::Regex(RegexLineMatcher { regex: "^.*␛\x1b\\[31mERROR:␛\x1b\\[39m Error: Cannot find module '(.*)'", callback: Callback::NodeModuleMissing(1) }));
    v.push(Matcher::Regex(RegexLineMatcher { regex: "^\x1b\\[2mError: Cannot find module '(.*)'", callback: Callback::NodeModuleMissing(1) }));
    v.push(Matcher::Regex(RegexLineMatcher { regex: "^\x1b\\[1m\x1b\\[31m\\[!\\] \x1b\\[1mError: Cannot find module '(.*)'", callback: Callback::NodeModuleMissing(1) }));
    v.push(Matcher::Regex(RegexLineMatcher { regex: "^✖ \x1b\\[31mERROR:\x1b\\[39m Error: Cannot find module '(.*)'", callback: Callback::NodeModuleMissing(1) }));
    v.push(Matcher::Regex(RegexLineMatcher { regex: "^\x1b\\[0;31m  Error: To use the transpile option, you must have the '(.*)' module installed", callback: Callback::NodeModuleMissing(1) }));
    v.push(Matcher::Regex(RegexLineMatcher { regex: "^\\[31mError: No test files found: \"(.*)\"\\[39m", callback: Callback::Nothing }));
    assert(v@ =~= common_matchers_part1());
    v
}

/// Part 2 of the matchers for the lines of a build log.
pub open spec fn common_matchers_part2() -> Seq<Matcher> {
    seq![
        Matcher::Regex(RegexLineMatcher { regex: "^\\x1b\\[31mError: No test files found: \"(.*)\"\\x1b\\[39m", callback: Callback::Nothing }),
        Matcher::Regex(RegexLineMatcher { regex: "^\\s*Error: Cannot find module '(.*)'", callback: Callback::NodeModuleMissing(1) }),
        Matcher::Regex(RegexLineMatcher { regex: "^>> Error: Cannot find module '(.*)'", callback: Callback::NodeModuleMissing(1) }),
        Matcher::Regex(RegexLineMatcher { regex: "^>> Error: Cannot find module '(.*)' from '.*'", callback: Callback::NodeModuleMissing(1) }),
        Matcher::Regex(RegexLineMatcher { regex: "^Error: Failed to load parser '.*' declared in '.*': Cannot find module '(.*)'", callback: Callback::Make(Template::MissingNodeModule(Text::Group(1))) }),
        Matcher::Regex(RegexLineMatcher { regex: "^    Cannot find module '(.*)' from '.*'", callback: Callback::Make(Template::MissingNodeModule(Text::Group(1))) }),
        Matcher::Regex(RegexLineMatcher { regex: "^>> Error: Grunt attempted to load a \\.coffee file but CoffeeScript was not installed\\.", callback: Callback::Make(Template::MissingNodePackage(Text::Lit("coffeescript"))) }),
        Matcher::Regex(RegexLineMatcher { regex: "^>> Got an unexpected exception from the coffee-script compiler. The original exception was: Error: Cannot find module '(.*)'", callback: Callback::NodeModuleMissing(1) }),
        Matcher::Regex(RegexLineMatcher { regex: "^\\s*Module not found: Error: Can't resolve '(.*)' in '(.*)'", callback: Callback::NodeModuleMissing(1) }),
        Matcher::Regex(RegexLineMatcher { regex: "^  Module (.*) in the transform option was not found\\.", callback: Callback::NodeModuleMissing(1) }),
        Matcher::Regex(RegexLineMatcher { regex: "^libtool/glibtool not found!", callback: Callback::Make(Template::MissingVagueDependency { name: Text::Lit("libtool"), url: None, minimum_version: None, current_version: None }) }),
        Matcher::Regex(RegexLineMatcher { regex: "^qmake: could not find a Qt installation of ''", callback: Callback::Kind("missing-qt") }),
        Matcher::Regex(RegexLineMatcher { regex: "^Cannot find X include files via .*", callback: Callback::Kind("missing-x11") }),
        Matcher::Regex(RegexLineMatcher { regex: "^\\*\\*\\* No X11! Install X-Windows development headers/libraries! \\*\\*\\*", callback: Callback::Kind("missing-x11") }),
        Matcher::Regex(RegexLineMatcher { regex: "^configure: error: \\*\\*\\* No X11! Install X-Windows development headers/libraries! \\*\\*\\*", callback: Callback::Kind("missing-x11") }),
        Matcher::Regex(RegexLineMatcher { regex: "^configure: error: The Java compiler javac failed.*", callback: Callback::CommandNamed("javac") }),
        Matcher::Regex(RegexLineMatcher { regex: "^configure: error: No ([^ ]+) command found", callback: Callback::CommandGroup(1) }),
        Matcher::Regex(RegexLineMatcher { regex: "^ERROR: InvocationError for command could not find executable (.*)", callback: Callback::CommandGroup(1) }),
        Matcher::Regex(RegexLineMatcher { regex: "^  \\*\\*\\* The (.*) script could not be found\\. .*", callback: Callback::CommandGroup(1) }),
        Matcher::Regex(RegexLineMatcher { regex: "^(.*)\" command could not be found. (.*)", callback: Callback::CommandGroup(1) }),
    ]
}

fn common_matchers_table_part2() -> (r: Vec<Matcher>)
    ensures
        r@ == common_matchers_part2(),
{
    let mut v: Vec<Matcher> = Vec::new();
    v.push(Matcher::Regex(RegexLineMatcher { regex: "^\\x1b\\[31mError: No test files found: \"(.*)\"\\x1b\\[39m", callback: Callback::Nothing }));
    v.push(Matcher::Regex(RegexLineMatcher { regex: "^\\s*Error: Cannot find module '(.*)'", callback: Callback::NodeModuleMissing(1) }));
    v.push(Matcher::Regex(RegexLineMatcher { regex: "^>> Error: Cannot find module '(.*)'", callback: Callback::NodeModuleMissing(1) }));
    v.push(Matcher::Regex(RegexLineMatcher { regex: "^>> Error: Cannot find module '(.*)' from '.*'", callback: Callback::NodeModuleMissing(1) }));
    v.push(Matcher::Regex(RegexLineMatcher { regex: "^Error: Failed to load parser '.*' declared in '.*': Cannot find module '(.*)'", callback: Callback::Make(Template::MissingNodeModule(Text::Group(1))) }));
    v.push(Matcher::Regex(RegexLineMatcher { regex: "^    Cannot find module '(.*)' from '.*'", callback: Callback::Make(Template::MissingNodeModule(Text::Group(1))) }));
    v.push(Matcher::Regex(RegexLineMatcher { regex: "^>> Error: Grunt attempted to load a \\.coffee file but CoffeeScript was not installed\\.", callback: Callback::Make(Template::MissingNodePackage(Text::Lit("coffeescript"))) }));
    v.push(Matcher::Regex(RegexLineMatcher { regex: "^>> Got an unexpected exception from the coffee-script compiler. The original exception was: Error: Cannot find module '(.*)'", callback: Callback::NodeModuleMissing(1) }));
    v.push(Matcher::Regex(RegexLineMatcher { regex: "^\\s*Module not found: Error: Can't resolve '(.*)' in '(.*)'", callback: Callback::NodeModuleMissing(1) }));
    v.push(Matcher::Regex(RegexLineMatcher { regex: "^  Module (.*) in the transform option was not found\\.", callback: Callback::NodeModuleMissing(1) }));
    v.push(Matcher::Regex(RegexLineMatcher { regex: "^libtool/glibtool not found!", callback: Callback::Make(Template::MissingVagueDependency { name: Text::Lit("libtool"), url: None, minimum_version: None, current_version: None }) }));
    v.push(Matcher::Regex(RegexLineMatcher { regex: "^qmake: could not find a Qt installation of ''", callback: Callback::Kind("missing-qt") }));
    v.push(Matcher::Regex(RegexLineMatcher { regex: "^Cannot find X include files via .*", callback: Callback::Kind("missing-x11") }));
    v.push(Matcher::Regex(RegexLineMatcher { regex: "^\\*\\*\\* No X11! Install X-Windows development headers/libraries! \\*\\*\\*", callback: Callback::Kind("missing-x11") }));
    v.push(Matcher::Regex(RegexLineMatcher { regex: "^configure: error: \\*\\*\\* No X11! Install X-Windows development headers/libraries! \\*\\*\\*", callback: Callback::Kind("missing-x11") }));
    v.push(Matcher::Regex(RegexLineMatcher { regex: "^configure: error: The Java compiler javac failed.*", callback: Callback::CommandNamed("javac") }));
    v.push(Matcher::Regex(RegexLineMatcher { regex: "^configure: error: No ([^ ]+) command found", callback: Callback::CommandGroup(1) }));
    v.push(Matcher::Regex(RegexLineMatcher { regex: "^ERROR: InvocationError for command could not find executable (.*)", callback: Callback::CommandGroup(1) }));
    v.push(Matcher::Regex(RegexLineMatcher { regex: "^  \\*\\*\\* The (.*) script could not be found\\. .*", callback: Callback::CommandGroup(1) }));
    v.push(Matcher::Regex(RegexLineMatcher { regex: "^(.*)\" command could not be found. (.*)", callback: Callback::CommandGroup(1) }));
    assert(v@ =~= common_matchers_part2());
    v
}

/// Part 3 of the matchers for the lines of a build log.
pub open spec fn common_matchers_part3() -> Seq<Matcher> {
    seq![
        Matcher::Regex(RegexLineMatcher { regex: "^configure: error: cannot find lib ([^ ]+)", callback: Callback::Make(Template::MissingLibrary(Text::Group(1))) }),
        Matcher::Regex(RegexLineMatcher { regex: "^>> Local Npm module \"(.*)\" not found. Is it installed?", callback: Callback::NodeModuleMissing(1) }),
        Matcher::Regex(RegexLineMatcher { regex: "^npm ERR! CLI for webpack must be installed.", callback: Callback::Make(Template::MissingNodePackage(Text::Lit("webpack-cli"))) }),
        Matcher::Regex(RegexLineMatcher { regex: "^npm ERR! \\[!\\] Error: Cannot find module '(.*)'", callback: Callback::NodeModuleMissing(1) }),
        Matcher::Regex(RegexLineMatcher { regex: "^npm ERR! >> Local Npm module \"(.*)\" not found. Is it installed\\?", callback: Callback::NodeModuleMissing(1) }),
        Matcher::Regex(RegexLineMatcher { regex: "^npm ERR! Error: Cannot find module '(.*)'", callback: Callback::NodeModuleMissing(1) }),
        Matcher::Regex(RegexLineMatcher { regex: "^npm ERR! ERROR in Entry module not found: Error: Can't resolve '(.*)' in '.*'", callback: Callback::NodeModuleMissing(1) }),
        Matcher::Regex(RegexLineMatcher { regex: "^npm ERR! sh: [0-9]+: (.*): not found", callback: Callback::CommandMissing(1) }),
        Matcher::Regex(RegexLineMatcher { regex: "^npm ERR! (.*\\.ts)\\([0-9]+,[0-9]+\\): error TS[0-9]+: Cannot find module '(.*)' or its corresponding type declarations.", callback: Callback::Make(Template::MissingNodeModule(Text::Group(2))) }),
        Matcher::Regex(RegexLineMatcher { regex: "^npm ERR! Error: spawn (.*) ENOENT", callback: Callback::CommandMissing(1) }),
        Matcher::Regex(RegexLineMatcher { regex: "^(\\./configure): line \\d+: ([A-Z0-9_]+): command not found", callback: Callback::Make(Template::MissingAutoconfMacro { macro_name: Text::Group(2), need_rebuild: false }) }),
        Matcher::Regex(RegexLineMatcher { regex: "^.*: line \\d+: ([^ ]+): command not found", callback: Callback::CommandMissing(1) }),
        Matcher::Regex(RegexLineMatcher { regex: "^.*: line \\d+: ([^ ]+): Permission denied", callback: Callback::Nothing }),
        Matcher::Regex(RegexLineMatcher { regex: "^make\\[[0-9]+\\]: .*: Permission denied", callback: Callback::Nothing }),
        Matcher::Regex(RegexLineMatcher { regex: "^/usr/bin/texi2dvi: TeX neither supports -recorder nor outputs \\\\openout lines in its log file", callback: Callback::Nothing }),
        Matcher::Regex(RegexLineMatcher { regex: "^/bin/sh: \\d+: ([^ ]+): not found", callback: Callback::CommandMissing(1) }),
        Matcher::Regex(RegexLineMatcher { regex: "^sh: \\d+: ([^ ]+): not found", callback: Callback::CommandMissing(1) }),
        Matcher::Regex(RegexLineMatcher { regex: "^.*\\.sh: \\d+: ([^ ]+): not found", callback: Callback::CommandMissing(1) }),
        Matcher::Regex(RegexLineMatcher { regex: "^.*: 1: cd: can't cd to (.*)", callback: Callback::Make(Template::DirectoryNonExistant(Text::Group(1))) }),
        Matcher::Regex(RegexLineMatcher { regex: "^/bin/bash: (.*): command not found", callback: Callback::CommandMissing(1) }),
    ]
}

fn common_matchers_table_part3() -> (r: Vec<Matcher>)
    ensures
        r@ == common_matchers_part3(),
{
    let mut v: Vec<Matcher> = Vec::new();
    v.push(Matcher::Regex(RegexLineMatcher { regex: "^configure: error: cannot find lib ([^ ]+)", callback: Callback::Make(Template::MissingLibrary(Text::Group(1))) }));
    v.push(Matcher::Regex(RegexLineMatcher { regex: "^>> Local Npm module \"(.*)\" not found. Is it installed?", callback: Callback::NodeModuleMissing(1) }));
    v.push(Matcher::Regex(RegexLineMatcher { regex: "^npm ERR! CLI for webpack must be installed.", callback: Callback::Make(Template::MissingNodePackage(Text::Lit("webpack-cli"))) }));
    v.push(Matcher::Regex(RegexLineMatcher { regex: "^npm ERR! \\[!\\] Error: Cannot find module '(.*)'", callback: Callback::NodeModuleMissing(1) }));
    v.push(Matcher::Regex(RegexLineMatcher { regex: "^npm ERR! >> Local Npm module \"(.*)\" not found. Is it installed\\?", callback: Callback::NodeModuleMissing(1) }));
    v.push(Matcher::Regex(RegexLineMatcher { regex: "^npm ERR! Error: Cannot find module '(.*)'", callback: Callback::NodeModuleMissing(1) }));
    v.push(Matcher::Regex(RegexLineMatcher { regex: "^npm ERR! ERROR in Entry module not found: Error: Can't resolve '(.*)' in '.*'", callback: Callback::NodeModuleMissing(1) }));
    v.push(Matcher::Regex(RegexLineMatcher { regex: "^npm ERR! sh: [0-9]+: (.*): not found", callback: Callback::CommandMissing(1) }));
    v.push(Matcher::Regex(RegexLineMatcher { regex: "^npm ERR! (.*\\.ts)\\([0-9]+,[0-9]+\\): error TS[0-9]+: Cannot find module '(.*)' or its corresponding type declarations.", callback: Callback::Make(Template::MissingNodeModule(Text::Group(2))) }));
    v.push(Matcher::Regex(RegexLineMatcher { regex: "^npm ERR! Error: spawn (.*) ENOENT", callback: Callback::CommandMissing(1) }));
    v.push(Matcher::Regex(RegexLineMatcher { regex: "^(\\./configure): line \\d+: ([A-Z0-9_]+): command not found", callback: Callback::Make(Template::MissingAutoconfMacro { macro_name: Text::Group(2), need_rebuild: false }) }));
    v.push(Matcher::Regex(RegexLineMatcher { regex: "^.*: line \\d+: ([^ ]+): command not found", callback: Callback::CommandMissing(1) }));
    v.push(Matcher::Regex(RegexLineMatcher { regex: "^.*: line \\d+: ([^ ]+): Permission denied", callback: Callback::Nothing }));
    v.push(Matcher::Regex(RegexLineMatcher { regex: "^make\\[[0-9]+\\]: .*: Permission denied", callback: Callback::Nothing }));
    v.push(Matcher::Regex(RegexLineMatcher { regex: "^/usr/bin/texi2dvi: TeX neither supports -recorder nor outputs \\\\openout lines in its log file", callback: Callback::Nothing }));
    v.push(Matcher::Regex(RegexLineMatcher { regex: "^/bin/sh: \\d+: ([^ ]+): not found", callback: Callback::CommandMissing(1) }));
    v.push(Matcher::Regex(RegexLineMatcher { regex: "^sh: \\d+: ([^ ]+): not found", callback: Callback::CommandMissing(1) }));
    v.push(Matcher::Regex(RegexLineMatcher { regex: "^.*\\.sh: \\d+: ([^ ]+): not found", callback: Callback::CommandMissing(1) }));
    v.push(Matcher::Regex(RegexLineMatcher { regex: "^.*: 1: cd: can't cd to (.*)", callback: Callback::Make(Template::DirectoryNonExistant(Text::Group(1))) }));
    v.push(Matcher::Regex(RegexLineMatcher { regex: "^/bin/bash: (.*): command not found", callback: Callback::CommandMissing(1) }));
    assert(v@ =~= common_matchers_part3());
    v
}

/// Part 4 of the matchers for the lines of a build log.
pub open spec fn common_matchers_part4() -> Seq<Matcher> {
    seq![
        Matcher::Regex(RegexLineMatcher { regex: "^bash: ([^ ]+): command not found", callback: Callback::CommandMissing(1) }),
        Matcher::Regex(RegexLineMatcher { regex: "^env: ‘(.*)’: No such file or directory", callback: Callback::InterpreterMissing(1) }),
        Matcher::Regex(RegexLineMatcher { regex: "^/bin/bash: .*: (.*): bad interpreter: No such file or directory", callback: Callback::InterpreterMissing(1) }),
        Matcher::Regex(RegexLineMatcher { regex: "^.*: [0-9]+: exec: (.*): not found", callback: Callback::CommandMissing(1) }),
        Matcher::Regex(RegexLineMatcher { regex: "^.*: [0-9]+: (.*): not found", callback: Callback::CommandMissing(1) }),
        Matcher::Regex(RegexLineMatcher { regex: "^/usr/bin/env: [‘'](.*)['’]: No such file or directory", callback: Callback::CommandMissing(1) }),
        Matcher::Regex(RegexLineMatcher { regex: "^make\\[[0-9]+\\]: (.*): Command not found", callback: Callback::CommandMissing(1) }),
        Matcher::Regex(RegexLineMatcher { regex: "^make: (.*): Command not found", callback: Callback::CommandMissing(1) }),
        Matcher::Regex(RegexLineMatcher { regex: "^make: (.*): No such file or directory", callback: Callback::CommandMissing(1) }),
        Matcher::Regex(RegexLineMatcher { regex: "^xargs: (.*): No such file or directory", callback: Callback::CommandMissing(1) }),
        Matcher::Regex(RegexLineMatcher { regex: "^make\\[[0-9]+\\]: ([^/ :]+): No such file or directory", callback: Callback::CommandMissing(1) }),
        Matcher::Regex(RegexLineMatcher { regex: "^.*: failed to exec '(.*)': No such file or directory", callback: Callback::CommandMissing(1) }),
        Matcher::Regex(RegexLineMatcher { regex: "^No package '([^']+)' found", callback: Callback::PkgConfigMissing(1) }),
        Matcher::Regex(RegexLineMatcher { regex: "^--\\s* No package '([^']+)' found", callback: Callback::PkgConfigMissing(1) }),
        Matcher::Regex(RegexLineMatcher { regex: "^\\-\\- Please install Git, make sure it is in your path, and then try again.", callback: Callback::CommandNamed("git") }),
        Matcher::Regex(RegexLineMatcher { regex: "^\\+ERROR:  could not access file \"(.*)\": No such file or directory", callback: Callback::Make(Template::MissingPostgresExtension(Text::Group(1))) }),
        Matcher::Regex(RegexLineMatcher { regex: "^configure: error: (Can't|Cannot) find \"(.*)\" in your PATH.*", callback: Callback::CommandGroup(2) }),
        Matcher::Regex(RegexLineMatcher { regex: "^configure: error: Cannot find (.*) in your system path", callback: Callback::CommandGroup(1) }),
        Matcher::Regex(RegexLineMatcher { regex: "^> Cannot run program \"(.*)\": error=2, No such file or directory", callback: Callback::CommandGroup(1) }),
        Matcher::Regex(RegexLineMatcher { regex: "^(.*) binary '(.*)' not available .*", callback: Callback::CommandGroup(2) }),
    ]
}

fn common_matchers_table_part4() -> (r: Vec<Matcher>)
    ensures
        r@ == common_matchers_part4(),
{
    let mut v: Vec<Matcher> = Vec::new();
    v.push(Matcher::Regex(RegexLineMatcher { regex: "^bash: ([^ ]+): command not found", callback: Callback::CommandMissing(1) }));
    v.push(Matcher::Regex(RegexLineMatcher { regex: "^env: ‘(.*)’: No such file or directory", callback: Callback::InterpreterMissing(1) }));
    v.push(Matcher::Regex(RegexLineMatcher { regex: "^/bin/bash: .*: (.*): bad interpreter: No such file or directory", callback: Callback::InterpreterMissing(1) }));
    v.push(Matcher::Regex(RegexLineMatcher { regex: "^.*: [0-9]+: exec: (.*): not found", callback: Callback::CommandMissing(1) }));
    v.push(Matcher::Regex(RegexLineMatcher { regex: "^.*: [0-9]+: (.*): not found", callback: Callback::CommandMissing(1) }));
    v.push(Matcher::Regex(RegexLineMatcher { regex: "^/usr/bin/env: [‘'](.*)['’]: No such file or directory", callback: Callback::CommandMissing(1) }));
    v.push(Matcher::Regex(RegexLineMatcher { regex: "^make\\[[0-9]+\\]: (.*): Command not found", callback: Callback::CommandMissing(1) }));
    v.push(Matcher::Regex(RegexLineMatcher { regex: "^make: (.*): Command not found", callback: Callback::CommandMissing(1) }));
    v.push(Matcher::Regex(RegexLineMatcher { regex: "^make: (.*): No such file or directory", callback: Callback::CommandMissing(1) }));
    v.push(Matcher::Regex(RegexLineMatcher { regex: "^xargs: (.*): No such file or directory", callback: Callback::CommandMissing(1) }));
    v.push(Matcher::Regex(RegexLineMatcher { regex: "^make\\[[0-9]+\\]: ([^/ :]+): No such file or directory", callback: Callback::CommandMissing(1) }));
    v.push(Matcher::Regex(RegexLineMatcher { regex: "^.*: failed to exec '(.*)': No such file or directory", callback: Callback::CommandMissing(1) }));
    v.push(Matcher::Regex(RegexLineMatcher { regex: "^No package '([^']+)' found", callback: Callback::PkgConfigMissing(1) }));
    v.push(Matcher::Regex(RegexLineMatcher { regex: "^--\\s* No package '([^']+)' found", callback: Callback::PkgConfigMissing(1) }));
    v.push(Matcher::Regex(RegexLineMatcher { regex: "^\\-\\- Please install Git, make sure it is in your path, and then try again.", callback: Callback::CommandNamed("git") }));
    v.push(Matcher::Regex(RegexLineMatcher { regex: "^\\+ERROR:  could not access file \"(.*)\": No such file or directory", callback: Callback::Make(Template::MissingPostgresExtension(Text::Group(1))) }));
    v.push(Matcher::Regex(RegexLineMatcher { regex: "^configure: error: (Can't|Cannot) find \"(.*)\" in your PATH.*", callback: Callback::CommandGroup(2) }));
    v.push(Matcher::Regex(RegexLineMatcher { regex: "^configure: error: Cannot find (.*) in your system path", callback: Callback::CommandGroup(1) }));
    v.push(Matcher::Regex(RegexLineMatcher { regex: "^> Cannot run program \"(.*)\": error=2, No such file or directory", callback: Callback::CommandGroup(1) }));
    v.push(Matcher::Regex(RegexLineMatcher { regex: "^(.*) binary '(.*)' not available .*", callback: Callback::CommandGroup(2) }));
    assert(v@ =~= common_matchers_part4());
    v
}

/// Part 5 of the matchers for the lines of a build log.
pub open spec fn common_matchers_part5() -> Seq<Matcher> {
    seq![
        Matcher::Regex(RegexLineMatcher { regex: "^An error has occurred: FatalError: git failed\\. Is it installed, and are you in a Git repository directory\\?", callback: Callback::CommandNamed("git") }),
        Matcher::Regex(RegexLineMatcher { regex: "^Please install '(.*)' seperately and try again.", callback: Callback::VagueDependency(1) }),
        Matcher::Regex(RegexLineMatcher { regex: "^> A problem occurred starting process 'command '(.*)''", callback: Callback::CommandGroup(1) }),
        Matcher::Regex(RegexLineMatcher { regex: "^vcver.scm.git.GitCommandError: 'git .*' returned an error code 127", callback: Callback::CommandNamed("git") }),
        Matcher::ConfigureError,
        Matcher::PerlMissingModules,
        Matcher::VignetteError,
        Matcher::Regex(RegexLineMatcher { regex: "^configure: error: No package '([^']+)' found", callback: Callback::PkgConfigMissing(1) }),
        Matcher::Regex(RegexLineMatcher { regex: "^configure: error: (doxygen|asciidoc) is not available and maintainer mode is enabled", callback: Callback::CommandGroup(1) }),
        Matcher::Regex(RegexLineMatcher { regex: "^configure: error: Documentation enabled but rst2html not found.", callback: Callback::CommandNamed("rst2html") }),
        Matcher::Regex(RegexLineMatcher { regex: "^cannot run pkg-config to check .* version at (.*) line [0-9]+\\.", callback: Callback::CommandNamed("pkg-config") }),
        Matcher::Regex(RegexLineMatcher { regex: "^Error: pkg-config not found!", callback: Callback::CommandNamed("pkg-config") }),
        Matcher::Regex(RegexLineMatcher { regex: "^\\*\\*\\* pkg-config (.*) or newer\\. You can download pkg-config", callback: Callback::Make(Template::MissingVagueDependency { name: Text::Lit("pkg-config"), url: None, minimum_version: Some(Text::Group(1)), current_version: None }) }),
        Matcher::Regex(RegexLineMatcher { regex: "^ERROR: InterpreterNotFound: (.*)", callback: Callback::CommandGroup(1) }),
        Matcher::Regex(RegexLineMatcher { regex: "^ERROR: unable to find python", callback: Callback::CommandNamed("python") }),
        Matcher::Regex(RegexLineMatcher { regex: "^ ERROR: BLAS not found!", callback: Callback::Make(Template::MissingLibrary(Text::Lit("blas"))) }),
        Matcher::AutoconfUnexpectedMacro,
        Matcher::Regex(RegexLineMatcher { regex: "^\\./configure: [0-9]+: \\.: Illegal option .*", callback: Callback::Nothing }),
        Matcher::Regex(RegexLineMatcher { regex: "^Requested '(.*)' but version of ([^ ]+) is ([^ ]+)", callback: Callback::PkgConfigMissing(1) }),
        Matcher::Regex(RegexLineMatcher { regex: "^.*configure: error: Package requirements \\((.*)\\) were not met:", callback: Callback::PkgConfigMissing(1) }),
    ]
}

fn common_matchers_table_part5() -> (r: Vec<Matcher>)
    ensures
        r@ == common_matchers_part5(),
{
    let mut v: Vec<Matcher> = Vec::new();
    v.push(Matcher::Regex(RegexLineMatcher { regex: "^An error has occurred: FatalError: git failed\\. Is it installed, and are you in a Git repository directory\\?", callback: Callback::CommandNamed("git") }));
    v.push(Matcher::Regex(RegexLineMatcher { regex: "^Please install '(.*)' seperately and try again.", callback: Callback::VagueDependency(1) }));
    v.push(Matcher::Regex(RegexLineMatcher { regex: "^> A problem occurred starting process 'command '(.*)''", callback: Callback::CommandGroup(1) }));
    v.push(Matcher::Regex(RegexLineMatcher { regex: "^vcver.scm.git.GitCommandError: 'git .*' returned an error code 127", callback: Callback::CommandNamed("git") }));
    v.push(Matcher::ConfigureError);
    v.push(Matcher::PerlMissingModules);
    v.push(Matcher::VignetteError);
    v.push(Matcher::Regex(RegexLineMatcher { regex: "^configure: error: No package '([^']+)' found", callback: Callback::PkgConfigMissing(1) }));
    v.push(Matcher::Regex(RegexLineMatcher { regex: "^configure: error: (doxygen|asciidoc) is not available and maintainer mode is enabled", callback: Callback::CommandGroup(1) }));
    v.push(Matcher::Regex(RegexLineMatcher { regex: "^configure: error: Documentation enabled but rst2html not found.", callback: Callback::CommandNamed("rst2html") }));
    v.push(Matcher::Regex(RegexLineMatcher { regex: "^cannot run pkg-config to check .* version at (.*) line [0-9]+\\.", callback: Callback::CommandNamed("pkg-config") }));
    v.push(Matcher::Regex(RegexLineMatcher { regex: "^Error: pkg-config not found!", callback: Callback::CommandNamed("pkg-config") }));
    v.push(Matcher::Regex(RegexLineMatcher { regex: "^\\*\\*\\* pkg-config (.*) or newer\\. You can download pkg-config", callback: Callback::Make(Template::MissingVagueDependency { name: Text::Lit("pkg-config"), url: None, minimum_version: Some(Text::Group(1)), current_version: None }) }));
    v.push(Matcher::Regex(RegexLineMatcher { regex: "^ERROR: InterpreterNotFound: (.*)", callback: Callback::CommandGroup(1) }));
    v.push(Matcher::Regex(RegexLineMatcher { regex: "^ERROR: unable to find python", callback: Callback::CommandNamed("python") }));
    v.push(Matcher::Regex(RegexLineMatcher { regex: "^ ERROR: BLAS not found!", callback: Callback::Make(Template::MissingLibrary(Text::Lit("blas"))) }));
    v.push(Matcher::AutoconfUnexpectedMacro);
    v.push(Matcher::Regex(RegexLineMatcher { regex: "^\\./configure: [0-9]+: \\.: Illegal option .*", callback: Callback::Nothing }));
    v.push(Matcher::Regex(RegexLineMatcher { regex: "^Requested '(.*)' but version of ([^ ]+) is ([^ ]+)", callback: Callback::PkgConfigMissing(1) }));
    v.push(Matcher::Regex(RegexLineMatcher { regex: "^.*configure: error: Package requirements \\((.*)\\) were not met:", callback: Callback::PkgConfigMissing(1) }));
    assert(v@ =~= common_matchers_part5());
    v
}

/// Part 6 of the matchers for the lines of a build log.
pub open spec fn common_matchers_part6() -> Seq<Matcher> {
    seq![
        Matcher::Regex(RegexLineMatcher { regex: "^configure: error: [a-z0-9_-]+-pkg-config (.*) couldn't be found", callback: Callback::PkgConfigMissing(1) }),
        Matcher::Regex(RegexLineMatcher { regex: "^configure: error: C preprocessor \"/lib/cpp\" fails sanity check", callback: Callback::Nothing }),
        Matcher::Regex(RegexLineMatcher { regex: "^configure: error: .*\\. Please install (bison|flex)", callback: Callback::CommandGroup(1) }),
        Matcher::Regex(RegexLineMatcher { regex: "^configure: error: No C\\# compiler found. You need to install either mono \\(>=(.*)\\) or \\.Net", callback: Callback::Kind("missing-c#-compiler") }),
        Matcher::Regex(RegexLineMatcher { regex: "^configure: error: No C\\# compiler found", callback: Callback::Kind("missing-c#-compiler") }),
        Matcher::Regex(RegexLineMatcher { regex: "^error: can't find Rust compiler", callback: Callback::Kind("missing-rust-compiler") }),
        Matcher::Regex(RegexLineMatcher { regex: "^Found no assembler", callback: Callback::Kind("missing-assembler") }),
        Matcher::Regex(RegexLineMatcher { regex: "^error: failed to get `(.*)` as a dependency of package `(.*)`", callback: Callback::Make(Template::MissingCargoCrate { crate_name: Text::Group(1), requirement: None }) }),
        Matcher::Regex(RegexLineMatcher { regex: "^configure: error: (.*) requires libkqueue \\(or system kqueue\\). .*", callback: Callback::Make(Template::MissingPkgConfig { module: Text::Lit("libkqueue"), minimum_version: None }) }),
        Matcher::Regex(RegexLineMatcher { regex: "^Did not find pkg-config by name 'pkg-config'", callback: Callback::CommandNamed("pkg-config") }),
        Matcher::Regex(RegexLineMatcher { regex: "^configure: error: Required (.*) binary is missing. Please install (.*).", callback: Callback::CommandGroup(1) }),
        Matcher::Regex(RegexLineMatcher { regex: ".*meson.build:([0-9]+):([0-9]+): ERROR: Dependency \"(.*)\" not found", callback: Callback::Make(Template::MissingPkgConfig { module: Text::Group(3), minimum_version: None }) }),
        Matcher::Regex(RegexLineMatcher { regex: ".*meson.build:([0-9]+):([0-9]+): ERROR: Problem encountered: No XSLT processor found, .*", callback: Callback::Make(Template::MissingVagueDependency { name: Text::Lit("xsltproc"), url: None, minimum_version: None, current_version: None }) }),
        Matcher::Regex(RegexLineMatcher { regex: ".*meson.build:([0-9]+):([0-9]+): Unknown compiler\\(s\\): \\[\\['(.*)'.*\\]", callback: Callback::CommandGroup(3) }),
        Matcher::Regex(RegexLineMatcher { regex: ".*meson.build:([0-9]+):([0-9]+): ERROR: python3 \"(.*)\" missing", callback: Callback::Make(Template::MissingPythonModule { module: Text::Group(3), python_version: Some(3), minimum_version: None }) }),
        Matcher::Regex(RegexLineMatcher { regex: ".*meson.build:([0-9]+):([0-9]+): ERROR: Program '(.*)' not found", callback: Callback::CommandGroup(3) }),
        Matcher::Regex(RegexLineMatcher { regex: ".*meson.build:([0-9]+):([0-9]+): ERROR: Git program not found, .*", callback: Callback::CommandNamed("git") }),
        Matcher::Regex(RegexLineMatcher { regex: ".*meson.build:([0-9]+):([0-9]+): ERROR: C header '(.*)' not found", callback: Callback::Make(Template::MissingCHeader { header: Text::Group(3) }) }),
        Matcher::Regex(RegexLineMatcher { regex: "^configure: error: (.+\\.h) could not be found\\. Please set CPPFLAGS\\.", callback: Callback::Make(Template::MissingCHeader { header: Text::Group(1) }) }),
        Matcher::Regex(RegexLineMatcher { regex: ".*meson.build:([0-9]+):([0-9]+): ERROR: Unknown compiler\\(s\\): \\['(.*)'\\]", callback: Callback::CommandGroup(3) }),
    ]
}

fn common_matchers_table_part6() -> (r: Vec<Matcher>)
    ensures
        r@ == common_matchers_part6(),
{
    let mut v: Vec<Matcher> = Vec::new();
    v.push(Matcher::Regex(RegexLineMatcher { regex: "^configure: error: [a-z0-9_-]+-pkg-config (.*) couldn't be found", callback: Callback::PkgConfigMissing(1) }));
    v.push(Matcher::Regex(RegexLineMatcher { regex: "^configure: error: C preprocessor \"/lib/cpp\" fails sanity check", callback: Callback::Nothing }));
    v.push(Matcher::Regex(RegexLineMatcher { regex: "^configure: error: .*\\. Please install (bison|flex)", callback: Callback::CommandGroup(1) }));
    v.push(Matcher::Regex(RegexLineMatcher { regex: "^configure: error: No C\\# compiler found. You need to install either mono \\(>=(.*)\\) or \\.Net", callback: Callback::Kind("missing-c#-compiler") }));
    v.push(Matcher::Regex(RegexLineMatcher { regex: "^configure: error: No C\\# compiler found", callback: Callback::Kind("missing-c#-compiler") }));
    v.push(Matcher::Regex(RegexLineMatcher { regex: "^error: can't find Rust compiler", callback: Callback::Kind("missing-rust-compiler") }));
    v.push(Matcher::Regex(RegexLineMatcher { regex: "^Found no assembler", callback: Callback::Kind("missing-assembler") }));
    v.push(Matcher::Regex(RegexLineMatcher { regex: "^error: failed to get `(.*)` as a dependency of package `(.*)`", callback: Callback::Make(Template::MissingCargoCrate { crate_name: Text::Group(1), requirement: None }) }));
    v.push(Matcher::Regex(RegexLineMatcher { regex: "^configure: error: (.*) requires libkqueue \\(or system kqueue\\). .*", callback: Callback::Make(Template::MissingPkgConfig { module: Text::Lit("libkqueue"), minimum_version: None }) }));
    v.push(Matcher::Regex(RegexLineMatcher { regex: "^Did not find pkg-config by name 'pkg-config'", callback: Callback::CommandNamed("pkg-config") }));
    v.push(Matcher::Regex(RegexLineMatcher { regex: "^configure: error: Required (.*) binary is missing. Please install (.*).", callback: Callback::CommandGroup(1) }));
    v.push(Matcher::Regex(RegexLineMatcher { regex: ".*meson.build:([0-9]+):([0-9]+): ERROR: Dependency \"(.*)\" not found", callback: Callback::Make(Template::MissingPkgConfig { module: Text::Group(3), minimum_version: None }) }));
    v.push(Matcher::Regex(RegexLineMatcher { regex: ".*meson.build:([0-9]+):([0-9]+): ERROR: Problem encountered: No XSLT processor found, .*", callback: Callback::Make(Template::MissingVagueDependency { name: Text::Lit("xsltproc"), url: None, minimum_version: None, current_version: None }) }));
    v.push(Matcher::Regex(RegexLineMatcher { regex: ".*meson.build:([0-9]+):([0-9]+): Unknown compiler\\(s\\): \\[\\['(.*)'.*\\]", callback: Callback::CommandGroup(3) }));
    v.push(Matcher::Regex(RegexLineMatcher { regex: ".*meson.build:([0-9]+):([0-9]+): ERROR: python3 \"(.*)\" missing", callback: Callback::Make(Template::MissingPythonModule { module: Text::Group(3), python_version: Some(3), minimum_version: None }) }));
    v.push(Matcher::Regex(RegexLineMatcher { regex: ".*meson.build:([0-9]+):([0-9]+): ERROR: Program '(.*)' not found", callback: Callback::CommandGroup(3) }));
    v.push(Matcher::Regex(RegexLineMatcher { regex: ".*meson.build:([0-9]+):([0-9]+): ERROR: Git program not found, .*", callback: Callback::CommandNamed("git") }));
    v.push(Matcher::Regex(RegexLineMatcher { regex: ".*meson.build:([0-9]+):([0-9]+): ERROR: C header '(.*)' not found", callback: Callback::Make(Template::MissingCHeader { header: Text::Group(3) }) }));
    v.push(Matcher::Regex(RegexLineMatcher { regex: "^configure: error: (.+\\.h) could not be found\\. Please set CPPFLAGS\\.", callback: Callback::Make(Template::MissingCHeader { header: Text::Group(1) }) }));
    v.push(Matcher::Regex(RegexLineMatcher { regex: ".*meson.build:([0-9]+):([0-9]+): ERROR: Unknown compiler\\(s\\): \\['(.*)'\\]", callback: Callback::CommandGroup(3) }));
    assert(v@ =~= common_matchers_part6());
    v
}

/// Part 7 of the matchers for the lines of a build log.
pub open spec fn common_matchers_part7() -> Seq<Matcher> {
    seq![
        Matcher::Regex(RegexLineMatcher { regex: ".*meson.build:([0-9]+):([0-9]+): ERROR: Dependency \"(.*)\" not found, tried pkgconfig", callback: Callback::Make(Template::MissingPkgConfig { module: Text::Group(3), minimum_version: None }) }),
        Matcher::Regex(RegexLineMatcher { regex: ".*meson.build:([0-9]+):([0-9]+): ERROR: Could not execute Vala compiler \"(.*)\"", callback: Callback::CommandGroup(3) }),
        Matcher::Regex(RegexLineMatcher { regex: ".*meson.build:([0-9]+):([0-9]+): ERROR: python3 is missing modules: (.*)", callback: Callback::Make(Template::MissingPythonModule { module: Text::Group(1), python_version: None, minimum_version: None }) }),
        Matcher::Regex(RegexLineMatcher { regex: ".*meson.build:([0-9]+):([0-9]+): ERROR: Invalid version of dependency, need '([^']+)' \\['>=\\s*([^']+)'\\] found '([^']+)'\\.", callback: Callback::Make(Template::MissingPkgConfig { module: Text::Group(3), minimum_version: Some(Text::Group(4)) }) }),
        Matcher::Regex(RegexLineMatcher { regex: ".*meson.build:([0-9]+):([0-9]+): ERROR: C shared or static library '(.*)' not found", callback: Callback::Make(Template::MissingLibrary(Text::Group(3))) }),
        Matcher::Regex(RegexLineMatcher { regex: ".*meson.build:([0-9]+):([0-9]+): ERROR: C\\+\\++ shared or static library '(.*)' not found", callback: Callback::Make(Template::MissingLibrary(Text::Group(3))) }),
        Matcher::Regex(RegexLineMatcher { regex: ".*meson.build:([0-9]+):([0-9]+): ERROR: Pkg-config binary for machine .* not found. Giving up.", callback: Callback::CommandNamed("pkg-config") }),
        Matcher::Regex(RegexLineMatcher { regex: ".*meson.build([0-9]+):([0-9]+): ERROR: Problem encountered: (.*) require (.*) >= (.*), (.*) which were not found.", callback: Callback::Make(Template::MissingVagueDependency { name: Text::Group(4), url: None, minimum_version: Some(Text::Group(5)), current_version: None }) }),
        Matcher::Regex(RegexLineMatcher { regex: ".*meson.build([0-9]+):([0-9]+): ERROR: Problem encountered: (.*) is required to .*", callback: Callback::VagueDependency(4) }),
        Matcher::Regex(RegexLineMatcher { regex: "^ERROR: (.*) is not installed\\. Install at least (.*) version (.+) to continue\\.", callback: Callback::Make(Template::MissingVagueDependency { name: Text::Group(1), url: None, minimum_version: Some(Text::Group(3)), current_version: None }) }),
        Matcher::Regex(RegexLineMatcher { regex: "^configure: error: Library requirements \\((.*)\\) not met\\.", callback: Callback::VagueDependency(1) }),
        Matcher::Regex(RegexLineMatcher { regex: "^configure: error: (.*) is missing -- (.*)", callback: Callback::VagueDependency(1) }),
        Matcher::Regex(RegexLineMatcher { regex: "^configure: error: Cannot find (.*), check (.*)", callback: Callback::Make(Template::MissingVagueDependency { name: Text::Group(1), url: Some(Text::Group(2)), minimum_version: None, current_version: None }) }),
        Matcher::Regex(RegexLineMatcher { regex: "^configure: error: \\*\\*\\* Unable to find (.* library)", callback: Callback::VagueDependency(1) }),
        Matcher::Regex(RegexLineMatcher { regex: "^configure: error: unable to find (.*)\\.", callback: Callback::VagueDependency(1) }),
        Matcher::Regex(RegexLineMatcher { regex: "^configure: error: Perl Module (.*) not available", callback: Callback::Make(Template::MissingPerlModule { module: Text::Group(1), filename: None, inc: None, minimum_version: None }) }),
        Matcher::Regex(RegexLineMatcher { regex: "(.*) was not found in your path\\. Please install (.*)", callback: Callback::VagueDependency(1) }),
        Matcher::Regex(RegexLineMatcher { regex: "^configure: error: Please install (.*) >= (.*)", callback: Callback::Make(Template::MissingVagueDependency { name: Text::Group(1), url: None, minimum_version: Some(Text::Group(2)), current_version: None }) }),
        Matcher::Regex(RegexLineMatcher { regex: "^configure: error: the required package (.*) is not installed", callback: Callback::VagueDependency(1) }),
        Matcher::Regex(RegexLineMatcher { regex: "^configure: error: \\*\\*\\* (.*) >= (.*) not installed.*", callback: Callback::Make(Template::MissingVagueDependency { name: Text::Group(1), url: None, minimum_version: Some(Text::Group(2)), current_version: None }) }),
    ]
}

fn common_matchers_table_part7() -> (r: Vec<Matcher>)
    ensures
        r@ == common_matchers_part7(),
{
    let mut v: Vec<Matcher> = Vec::new();
    v.push(Matcher::Regex(RegexLineMatcher { regex: ".*meson.build:([0-9]+):([0-9]+): ERROR: Dependency \"(.*)\" not found, tried pkgconfig", callback: Callback::Make(Template::MissingPkgConfig { module: Text::Group(3), minimum_version: None }) }));
    v.push(Matcher::Regex(RegexLineMatcher { regex: ".*meson.build:([0-9]+):([0-9]+): ERROR: Could not execute Vala compiler \"(.*)\"", callback: Callback::CommandGroup(3) }));
    v.push(Matcher::Regex(RegexLineMatcher { regex: ".*meson.build:([0-9]+):([0-9]+): ERROR: python3 is missing modules: (.*)", callback: Callback::Make(Template::MissingPythonModule { module: Text::Group(1), python_version: None, minimum_version: None }) }));
    v.push(Matcher::Regex(RegexLineMatcher { regex: ".*meson.build:([0-9]+):([0-9]+): ERROR: Invalid version of dependency, need '([^']+)' \\['>=\\s*([^']+)'\\] found '([^']+)'\\.", callback: Callback::Make(Template::MissingPkgConfig { module: Text::Group(3), minimum_version: Some(Text::Group(4)) }) }));
    v.push(Matcher::Regex(RegexLineMatcher { regex: ".*meson.build:([0-9]+):([0-9]+): ERROR: C shared or static library '(.*)' not found", callback: Callback::Make(Template::MissingLibrary(Text::Group(3))) }));
    v.push(Matcher::Regex(RegexLineMatcher { regex: ".*meson.build:([0-9]+):([0-9]+): ERROR: C\\+\\++ shared or static library '(.*)' not found", callback: Callback::Make(Template::MissingLibrary(Text::Group(3))) }));
    v.push(Matcher::Regex(RegexLineMatcher { regex: ".*meson.build:([0-9]+):([0-9]+): ERROR: Pkg-config binary for machine .* not found. Giving up.", callback: Callback::CommandNamed("pkg-config") }));
    v.push(Matcher::Regex(RegexLineMatcher { regex: ".*meson.build([0-9]+):([0-9]+): ERROR: Problem encountered: (.*) require (.*) >= (.*), (.*) which were not found.", callback: Callback::Make(Template::MissingVagueDependency { name: Text::Group(4), url: None, minimum_version: Some(Text::Group(5)), current_version: None }) }));
    v.push(Matcher::Regex(RegexLineMatcher { regex: ".*meson.build([0-9]+):([0-9]+): ERROR: Problem encountered: (.*) is required to .*", callback: Callback::VagueDependency(4) }));
    v.push(Matcher::Regex(RegexLineMatcher { regex: "^ERROR: (.*) is not installed\\. Install at least (.*) version (.+) to continue\\.", callback: Callback::Make(Template::MissingVagueDependency { name: Text::Group(1), url: None, minimum_version: Some(Text::Group(3)), current_version: None }) }));
    v.push(Matcher::Regex(RegexLineMatcher { regex: "^configure: error: Library requirements \\((.*)\\) not met\\.", callback: Callback::VagueDependency(1) }));
    v.push(Matcher::Regex(RegexLineMatcher { regex: "^configure: error: (.*) is missing -- (.*)", callback: Callback::VagueDependency(1) }));
    v.push(Matcher::Regex(RegexLineMatcher { regex: "^configure: error: Cannot find (.*), check (.*)", callback: Callback::Make(Template::MissingVagueDependency { name: Text::Group(1), url: Some(Text::Group(2)), minimum_version: None, current_version: None }) }));
    v.push(Matcher::Regex(RegexLineMatcher { regex: "^configure: error: \\*\\*\\* Unable to find (.* library)", callback: Callback::VagueDependency(1) }));
    v.push(Matcher::Regex(RegexLineMatcher { regex: "^configure: error: unable to find (.*)\\.", callback: Callback::VagueDependency(1) }));
    v.push(Matcher::Regex(RegexLineMatcher { regex: "^configure: error: Perl Module (.*) not available", callback: Callback::Make(Template::MissingPerlModule { module: Text::Group(1), filename: None, inc: None, minimum_version: None }) }));
    v.push(Matcher::Regex(RegexLineMatcher { regex: "(.*) was not found in your path\\. Please install (.*)", callback: Callback::VagueDependency(1) }));
    v.push(Matcher::Regex(RegexLineMatcher { regex: "^configure: error: Please install (.*) >= (.*)", callback: Callback::Make(Template::MissingVagueDependency { name: Text::Group(1), url: None, minimum_version: Some(Text::Group(2)), current_version: None }) }));
    v.push(Matcher::Regex(RegexLineMatcher { regex: "^configure: error: the required package (.*) is not installed", callback: Callback::VagueDependency(1) }));
    v.push(Matcher::Regex(RegexLineMatcher { regex: "^configure: error: \\*\\*\\* (.*) >= (.*) not installed.*", callback: Callback::Make(Template::MissingVagueDependency { name: Text::Group(1), url: None, minimum_version: Some(Text::Group(2)), current_version: None }) }));
    assert(v@ =~= common_matchers_part7());
    v
}

/// Part 8 of the matchers for the lines of a build log.
pub open spec fn common_matchers_part8() -> Seq<Matcher> {
    seq![
        Matcher::Regex(RegexLineMatcher { regex: "^configure: error: you should install (.*) first", callback: Callback::VagueDependency(1) }),
        Matcher::Regex(RegexLineMatcher { regex: "^configure: error: cannot locate (.*) >= (.*)", callback: Callback::Make(Template::MissingVagueDependency { name: Text::Group(1), url: None, minimum_version: Some(Text::Group(2)), current_version: None }) }),
        Matcher::Regex(RegexLineMatcher { regex: "^configure: error: !!! Please install (.*) !!!", callback: Callback::VagueDependency(1) }),
        Matcher::Regex(RegexLineMatcher { regex: "^configure: error: (.*) version (.*) or higher is required", callback: Callback::Make(Template::MissingVagueDependency { name: Text::Group(1), url: None, minimum_version: Some(Text::Group(2)), current_version: None }) }),
        Matcher::Regex(RegexLineMatcher { regex: "^configure.(ac|in):[0-9]+: error: libtool version (.*) or higher is required", callback: Callback::Make(Template::MissingVagueDependency { name: Text::Group(2), url: None, minimum_version: Some(Text::Group(3)), current_version: None }) }),
        Matcher::Regex(RegexLineMatcher { regex: "configure: error: ([^ ]+) ([^ ]+) or better is required.*", callback: Callback::Make(Template::MissingVagueDependency { name: Text::Group(1), url: None, minimum_version: Some(Text::Group(2)), current_version: None }) }),
        Matcher::Regex(RegexLineMatcher { regex: "configure: error: ([^ ]+) ([^ ]+) or greater is required.*", callback: Callback::Make(Template::MissingVagueDependency { name: Text::Group(1), url: None, minimum_version: Some(Text::Group(2)), current_version: None }) }),
        Matcher::Regex(RegexLineMatcher { regex: "configure: error: ([^ ]+) or greater is required.*", callback: Callback::VagueDependency(1) }),
        Matcher::Regex(RegexLineMatcher { regex: "configure: error: (.*) library is required", callback: Callback::Make(Template::MissingLibrary(Text::Group(1))) }),
        Matcher::Regex(RegexLineMatcher { regex: "configure: error: (.*) library is not installed\\.", callback: Callback::Make(Template::MissingLibrary(Text::Group(1))) }),
        Matcher::Regex(RegexLineMatcher { regex: "configure: error: OpenSSL developer library 'libssl-dev' or 'openssl-devel' not installed; cannot continue.", callback: Callback::Make(Template::MissingLibrary(Text::Lit("ssl"))) }),
        Matcher::Regex(RegexLineMatcher { regex: "configure: error: \\*\\*\\* Cannot find (.*)", callback: Callback::VagueDependency(1) }),
        Matcher::Regex(RegexLineMatcher { regex: "configure: error: (.*) is required to compile .*", callback: Callback::VagueDependency(1) }),
        Matcher::Regex(RegexLineMatcher { regex: "\\s*You must have (.*) installed to compile .*\\.", callback: Callback::VagueDependency(1) }),
        Matcher::Regex(RegexLineMatcher { regex: "You must install (.*) to compile (.*)", callback: Callback::VagueDependency(1) }),
        Matcher::Regex(RegexLineMatcher { regex: "\\*\\*\\* No (.*) found, please in(s?)tall it \\*\\*\\*", callback: Callback::VagueDependency(1) }),
        Matcher::Regex(RegexLineMatcher { regex: "configure: error: (.*) required, please in(s?)tall it", callback: Callback::VagueDependency(1) }),
        Matcher::Regex(RegexLineMatcher { regex: "\\*\\* ERROR \\*\\* : You must have `(.*)' installed on your system\\.", callback: Callback::VagueDependency(1) }),
        Matcher::Regex(RegexLineMatcher { regex: "autogen\\.sh: ERROR: You must have `(.*)' installed to compile this package\\.", callback: Callback::VagueDependency(1) }),
        Matcher::Regex(RegexLineMatcher { regex: "autogen\\.sh: You must have (.*) installed\\.", callback: Callback::VagueDependency(1) }),
    ]
}

fn common_matchers_table_part8() -> (r: Vec<Matcher>)
    ensures
        r@ == common_matchers_part8(),
{
    let mut v: Vec<Matcher> = Vec::new();
    v.push(Matcher::Regex(RegexLineMatcher { regex: "^configure: error: you should install (.*) first", callback: Callback::VagueDependency(1) }));
    v.push(Matcher::Regex(RegexLineMatcher { regex: "^configure: error: cannot locate (.*) >= (.*)", callback: Callback::Make(Template::MissingVagueDependency { name: Text::Group(1), url: None, minimum_version: Some(Text::Group(2)), current_version: None }) }));
    v.push(Matcher::Regex(RegexLineMatcher { regex: "^configure: error: !!! Please install (.*) !!!", callback: Callback::VagueDependency(1) }));
    v.push(Matcher::Regex(RegexLineMatcher { regex: "^configure: error: (.*) version (.*) or higher is required", callback: Callback::Make(Template::MissingVagueDependency { name: Text::Group(1), url: None, minimum_version: Some(Text::Group(2)), current_version: None }) }));
    v.push(Matcher::Regex(RegexLineMatcher { regex: "^configure.(ac|in):[0-9]+: error: libtool version (.*) or higher is required", callback: Callback::Make(Template::MissingVagueDependency { name: Text::Group(2), url: None, minimum_version: Some(Text::Group(3)), current_version: None }) }));
    v.push(Matcher::Regex(RegexLineMatcher { regex: "configure: error: ([^ ]+) ([^ ]+) or better is required.*", callback: Callback::Make(Template::MissingVagueDependency { name: Text::Group(1), url: None, minimum_version: Some(Text::Group(2)), current_version: None }) }));
    v.push(Matcher::Regex(RegexLineMatcher { regex: "configure: error: ([^ ]+) ([^ ]+) or greater is required.*", callback: Callback::Make(Template::MissingVagueDependency { name: Text::Group(1), url: None, minimum_version: Some(Text::Group(2)), current_version: None }) }));
    v.push(Matcher::Regex(RegexLineMatcher { regex: "configure: error: ([^ ]+) or greater is required.*", callback: Callback::VagueDependency(1) }));
    v.push(Matcher::Regex(RegexLineMatcher { regex: "configure: error: (.*) library is required", callback: Callback::Make(Template::MissingLibrary(Text::Group(1))) }));
    v.push(Matcher::Regex(RegexLineMatcher { regex: "configure: error: (.*) library is not installed\\.", callback: Callback::Make(Template::MissingLibrary(Text::Group(1))) }));
    v.push(Matcher::Regex(RegexLineMatcher { regex: "configure: error: OpenSSL developer library 'libssl-dev' or 'openssl-devel' not installed; cannot continue.", callback: Callback::Make(Template::MissingLibrary(Text::Lit("ssl"))) }));
    v.push(Matcher::Regex(RegexLineMatcher { regex: "configure: error: \\*\\*\\* Cannot find (.*)", callback: Callback::VagueDependency(1) }));
    v.push(Matcher::Regex(RegexLineMatcher { regex: "configure: error: (.*) is required to compile .*", callback: Callback::VagueDependency(1) }));
    v.push(Matcher::Regex(RegexLineMatcher { regex: "\\s*You must have (.*) installed to compile .*\\.", callback: Callback::VagueDependency(1) }));
    v.push(Matcher::Regex(RegexLineMatcher { regex: "You must install (.*) to compile (.*)", callback: Callback::VagueDependency(1) }));
    v.push(Matcher::Regex(RegexLineMatcher { regex: "\\*\\*\\* No (.*) found, please in(s?)tall it \\*\\*\\*", callback: Callback::VagueDependency(1) }));
    v.push(Matcher::Regex(RegexLineMatcher { regex: "configure: error: (.*) required, please in(s?)tall it", callback: Callback::VagueDependency(1) }));
    v.push(Matcher::Regex(RegexLineMatcher { regex: "\\*\\* ERROR \\*\\* : You must have `(.*)' installed on your system\\.", callback: Callback::VagueDependency(1) }));
    v.push(Matcher::Regex(RegexLineMatcher { regex: "autogen\\.sh: ERROR: You must have `(.*)' installed to compile this package\\.", callback: Callback::VagueDependency(1) }));
    v.push(Matcher::Regex(RegexLineMatcher { regex: "autogen\\.sh: You must have (.*) installed\\.", callback: Callback::VagueDependency(1) }));
    assert(v@ =~= common_matchers_part8());
    v
}

/// Part 9 of the matchers for the lines of a build log.
pub open spec fn common_matchers_part9() -> Seq<Matcher> {
    seq![
        Matcher::Regex(RegexLineMatcher { regex: "\\s*Error! You need to have (.*) installed\\.", callback: Callback::VagueDependency(1) }),
        Matcher::Regex(RegexLineMatcher { regex: "(configure: error|\\*\\*Error\\*\\*): You must have (.*) installed.*", callback: Callback::VagueDependency(2) }),
        Matcher::Regex(RegexLineMatcher { regex: "configure: error: (.*) is required for building this package.", callback: Callback::VagueDependency(1) }),
        Matcher::Regex(RegexLineMatcher { regex: "configure: error: (.*) is required to build (.*)", callback: Callback::VagueDependency(1) }),
        Matcher::Regex(RegexLineMatcher { regex: "configure: error: (.*) is required", callback: Callback::VagueDependency(1) }),
        Matcher::Regex(RegexLineMatcher { regex: "configure: error: (.*) is required for (.*)", callback: Callback::VagueDependency(1) }),
        Matcher::Regex(RegexLineMatcher { regex: "configure: error: \\*\\*\\* (.*) is required\\.", callback: Callback::VagueDependency(1) }),
        Matcher::Regex(RegexLineMatcher { regex: "configure: error: (.*) is required, please get it from (.*)", callback: Callback::Make(Template::MissingVagueDependency { name: Text::Group(1), url: Some(Text::Group(2)), minimum_version: None, current_version: None }) }),
        Matcher::Regex(RegexLineMatcher { regex: ".*meson.build:\\d+:\\d+: ERROR: Assert failed: (.*) support explicitly required, but (.*) not found", callback: Callback::VagueDependency(1) }),
        Matcher::Regex(RegexLineMatcher { regex: "configure: error: .*, (lib[^ ]+) is required", callback: Callback::VagueDependency(1) }),
        Matcher::Regex(RegexLineMatcher { regex: "dh: Unknown sequence --(.*) \\(options should not come before the sequence\\)", callback: Callback::Kind("dh-with-order-incorrect") }),
        Matcher::Regex(RegexLineMatcher { regex: "(dh: |dh_.*: error: )Compatibility levels before ([0-9]+) are no longer supported \\(level ([0-9]+) requested\\)", callback: Callback::DebhelperCompat(2, 3) }),
        Matcher::Regex(RegexLineMatcher { regex: "\\{standard input\\}: Error: (.*)", callback: Callback::Nothing }),
        Matcher::Regex(RegexLineMatcher { regex: "dh: Unknown sequence (.*) \\(choose from: .*\\)", callback: Callback::Nothing }),
        Matcher::Regex(RegexLineMatcher { regex: ".*: .*: No space left on device", callback: Callback::NoSpace }),
        Matcher::Regex(RegexLineMatcher { regex: "^No space left on device.", callback: Callback::NoSpace }),
        Matcher::Regex(RegexLineMatcher { regex: ".*Can't locate (.*).pm in @INC \\(you may need to install the (.*) module\\) \\(@INC contains: (.*)\\) at .* line [0-9]+\\.", callback: Callback::Make(Template::MissingPerlModule { module: Text::Group(2), filename: Some(Text::Suffixed(1, ".pm")), inc: Some(Texts::Split(3, ' ')), minimum_version: None }) }),
        Matcher::Regex(RegexLineMatcher { regex: ".*Can't locate (.*).pm in @INC \\(you may need to install the (.*) module\\) \\(@INC contains: (.*)\\)\\.", callback: Callback::Make(Template::MissingPerlModule { module: Text::Group(2), filename: Some(Text::Suffixed(1, ".pm")), inc: Some(Texts::Split(3, ' ')), minimum_version: None }) }),
        Matcher::Regex(RegexLineMatcher { regex: "\\[DynamicPrereqs\\] Can't locate (.*) at inline delegation in .*", callback: Callback::Make(Template::MissingPerlModule { module: Text::Group(1), filename: None, inc: None, minimum_version: None }) }),
        Matcher::Regex(RegexLineMatcher { regex: "Can't locate object method \"(.*)\" via package \"(.*)\" \\(perhaps you forgot to load \"(.*)\"\\?\\) at .*.pm line [0-9]+\\.", callback: Callback::Make(Template::MissingPerlModule { module: Text::Group(2), filename: None, inc: None, minimum_version: None }) }),
    ]
}

fn common_matchers_table_part9() -> (r: Vec<Matcher>)
    ensures
        r@ == common_matchers_part9(),
{
    let mut v: Vec<Matcher> = Vec::new();
    v.push(Matcher::Regex(RegexLineMatcher { regex: "\\s*Error! You need to have (.*) installed\\.", callback: Callback::VagueDependency(1) }));
    v.push(Matcher::Regex(RegexLineMatcher { regex: "(configure: error|\\*\\*Error\\*\\*): You must have (.*) installed.*", callback: Callback::VagueDependency(2) }));
    v.push(Matcher::Regex(RegexLineMatcher { regex: "configure: error: (.*) is required for building this package.", callback: Callback::VagueDependency(1) }));
    v.push(Matcher::Regex(RegexLineMatcher { regex: "configure: error: (.*) is required to build (.*)", callback: Callback::VagueDependency(1) }));
    v.push(Matcher::Regex(RegexLineMatcher { regex: "configure: error: (.*) is required", callback: Callback::VagueDependency(1) }));
    v.push(Matcher::Regex(RegexLineMatcher { regex: "configure: error: (.*) is required for (.*)", callback: Callback::VagueDependency(1) }));
    v.push(Matcher::Regex(RegexLineMatcher { regex: "configure: error: \\*\\*\\* (.*) is required\\.", callback: Callback::VagueDependency(1) }));
    v.push(Matcher::Regex(RegexLineMatcher { regex: "configure: error: (.*) is required, please get it from (.*)", callback: Callback::Make(Template::MissingVagueDependency { name: Text::Group(1), url: Some(Text::Group(2)), minimum_version: None, current_version: None }) }));
    v.push(Matcher::Regex(RegexLineMatcher { regex: ".*meson.build:\\d+:\\d+: ERROR: Assert failed: (.*) support explicitly required, but (.*) not found", callback: Callback::VagueDependency(1) }));
    v.push(Matcher::Regex(RegexLineMatcher { regex: "configure: error: .*, (lib[^ ]+) is required", callback: Callback::VagueDependency(1) }));
    v.push(Matcher::Regex(RegexLineMatcher { regex: "dh: Unknown sequence --(.*) \\(options should not come before the sequence\\)", callback: Callback::Kind("dh-with-order-incorrect") }));
    v.push(Matcher::Regex(RegexLineMatcher { regex: "(dh: |dh_.*: error: )Compatibility levels before ([0-9]+) are no longer supported \\(level ([0-9]+) requested\\)", callback: Callback::DebhelperCompat(2, 3) }));
    v.push(Matcher::Regex(RegexLineMatcher { regex: "\\{standard input\\}: Error: (.*)", callback: Callback::Nothing }));
    v.push(Matcher::Regex(RegexLineMatcher { regex: "dh: Unknown sequence (.*) \\(choose from: .*\\)", callback: Callback::Nothing }));
    v.push(Matcher::Regex(RegexLineMatcher { regex: ".*: .*: No space left on device", callback: Callback::NoSpace }));
    v.push(Matcher::Regex(RegexLineMatcher { regex: "^No space left on device.", callback: Callback::NoSpace }));
    v.push(Matcher::Regex(RegexLineMatcher { regex: ".*Can't locate (.*).pm in @INC \\(you may need to install the (.*) module\\) \\(@INC contains: (.*)\\) at .* line [0-9]+\\.", callback: Callback::Make(Template::MissingPerlModule { module: Text::Group(2), filename: Some(Text::Suffixed(1, ".pm")), inc: Some(Texts::Split(3, ' ')), minimum_version: None }) }));
    v.push(Matcher::Regex(RegexLineMatcher { regex: ".*Can't locate (.*).pm in @INC \\(you may need to install the (.*) module\\) \\(@INC contains: (.*)\\)\\.", callback: Callback::Make(Template::MissingPerlModule { module: Text::Group(2), filename: Some(Text::Suffixed(1, ".pm")), inc: Some(Texts::Split(3, ' ')), minimum_version: None }) }));
    v.push(Matcher::Regex(RegexLineMatcher { regex: "\\[DynamicPrereqs\\] Can't locate (.*) at inline delegation in .*", callback: Callback::Make(Template::MissingPerlModule { module: Text::Group(1), filename: None, inc: None, minimum_version: None }) }));
    v.push(Matcher::Regex(RegexLineMatcher { regex: "Can't locate object method \"(.*)\" via package \"(.*)\" \\(perhaps you forgot to load \"(.*)\"\\?\\) at .*.pm line [0-9]+\\.", callback: Callback::Make(Template::MissingPerlModule { module: Text::Group(2), filename: None, inc: None, minimum_version: None }) }));
    assert(v@ =~= common_matchers_part9());
    v
}

/// Part 10 of the matchers for the lines of a build log.
pub open spec fn common_matchers_part10() -> Seq<Matcher> {
    seq![
        Matcher::Regex(RegexLineMatcher { regex: ">\\(error\\): Could not expand \\[(.*)'", callback: Callback::Make(Template::MissingPerlModule { module: Text::Unquoted(1), filename: None, inc: None, minimum_version: None }) }),
        Matcher::Regex(RegexLineMatcher { regex: "\\[DZ\\] could not load class (.*) for license (.*)", callback: Callback::Make(Template::MissingPerlModule { module: Text::Group(1), filename: None, inc: None, minimum_version: None }) }),
        Matcher::Regex(RegexLineMatcher { regex: "\\- ([^\\s]+)\\s+\\.\\.\\.missing. \\(would need (.*)\\)", callback: Callback::Make(Template::MissingPerlModule { module: Text::Group(1), filename: None, inc: None, minimum_version: Some(Text::Group(2)) }) }),
        Matcher::Regex(RegexLineMatcher { regex: "Required plugin bundle ([^ ]+) isn't installed.", callback: Callback::Make(Template::MissingPerlModule { module: Text::Group(1), filename: None, inc: None, minimum_version: None }) }),
        Matcher::Regex(RegexLineMatcher { regex: "Required plugin ([^ ]+) isn't installed.", callback: Callback::Make(Template::MissingPerlModule { module: Text::Group(1), filename: None, inc: None, minimum_version: None }) }),
        Matcher::Regex(RegexLineMatcher { regex: ".*Can't locate (.*) in @INC \\(@INC contains: (.*)\\) at .* line .*.", callback: Callback::Make(Template::MissingPerlFile { filename: Text::Group(1), inc: Some(Texts::Split(2, ' ')) }) }),
        Matcher::Regex(RegexLineMatcher { regex: "Can't find author dependency ([^ ]+) at (.*) line ([0-9]+).", callback: Callback::Make(Template::MissingPerlModule { module: Text::Group(1), filename: None, inc: None, minimum_version: None }) }),
        Matcher::Regex(RegexLineMatcher { regex: "Can't find author dependency ([^ ]+) version (.*) at (.*) line ([0-9]+).", callback: Callback::Make(Template::MissingPerlModule { module: Text::Group(1), filename: None, inc: None, minimum_version: Some(Text::Group(2)) }) }),
        Matcher::Regex(RegexLineMatcher { regex: "> Could not find (.*)\\. Please check that (.*) contains a valid JDK installation.", callback: Callback::Make(Template::MissingJDKFile { jdk_path: Text::Group(2), filename: Text::Group(1) }) }),
        Matcher::Regex(RegexLineMatcher { regex: "> Could not find (.*)\\. Please check that (.*) contains a valid \\(and compatible\\) JDK installation.", callback: Callback::Make(Template::MissingJDKFile { jdk_path: Text::Group(2), filename: Text::Group(1) }) }),
        Matcher::Regex(RegexLineMatcher { regex: "> Kotlin could not find the required JDK tools in the Java installation '(.*)' used by Gradle. Make sure Gradle is running on a JDK, not JRE.", callback: Callback::Make(Template::MissingJDK { jdk_path: Text::Group(1) }) }),
        Matcher::Regex(RegexLineMatcher { regex: "> JDK_5 environment variable is not defined. It must point to any JDK that is capable to compile with Java 5 target \\((.*)\\)", callback: Callback::Make(Template::MissingJDK { jdk_path: Text::Group(1) }) }),
        Matcher::Regex(RegexLineMatcher { regex: "ERROR: JAVA_HOME is not set and no 'java' command could be found in your PATH.", callback: Callback::Kind("missing-jre") }),
        Matcher::Regex(RegexLineMatcher { regex: "Error: environment variable \"JAVA_HOME\" must be set to a JDK \\(>= v(.*)\\) installation directory", callback: Callback::Make(Template::MissingJDK { jdk_path: Text::Group(1) }) }),
        Matcher::Regex(RegexLineMatcher { regex: "(?:/usr/bin/)?install: cannot create regular file '(.*)': No such file or directory", callback: Callback::FileNotFound(1) }),
        Matcher::Regex(RegexLineMatcher { regex: "Cannot find source directory \\((.*)\\)", callback: Callback::FileNotFound(1) }),
        Matcher::Regex(RegexLineMatcher { regex: "python[0-9.]*: can't open file '(.*)': \\[Errno 2\\] No such file or directory", callback: Callback::FileNotFound(1) }),
        Matcher::Regex(RegexLineMatcher { regex: "^error: \\[Errno 2\\] No such file or directory: '(.*)'", callback: Callback::FileNotFoundMaybeExecutable(1) }),
        Matcher::Regex(RegexLineMatcher { regex: ".*:[0-9]+:[0-9]+: ERROR: <ExternalProgram 'python3' -> \\['/usr/bin/python3'\\]> is not a valid python or it is missing setuptools", callback: Callback::Make(Template::MissingPythonDistribution { distribution: Text::Lit("setuptools"), python_version: Some(3), minimum_version: None }) }),
        Matcher::Regex(RegexLineMatcher { regex: "OSError: \\[Errno 28\\] No space left on device", callback: Callback::NoSpace }),
    ]
}

fn common_matchers_table_part10() -> (r: Vec<Matcher>)
    ensures
        r@ == common_matchers_part10(),
{
    let mut v: Vec<Matcher> = Vec::new();
    v.push(Matcher::Regex(RegexLineMatcher { regex: ">\\(error\\): Could not expand \\[(.*)'", callback: Callback::Make(Template::MissingPerlModule { module: Text::Unquoted(1), filename: None, inc: None, minimum_version: None }) }));
    v.push(Matcher::Regex(RegexLineMatcher { regex: "\\[DZ\\] could not load class (.*) for license (.*)", callback: Callback::Make(Template::MissingPerlModule { module: Text::Group(1), filename: None, inc: None, minimum_version: None }) }));
    v.push(Matcher::Regex(RegexLineMatcher { regex: "\\- ([^\\s]+)\\s+\\.\\.\\.missing. \\(would need (.*)\\)", callback: Callback::Make(Template::MissingPerlModule { module: Text::Group(1), filename: None, inc: None, minimum_version: Some(Text::Group(2)) }) }));
    v.push(Matcher::Regex(RegexLineMatcher { regex: "Required plugin bundle ([^ ]+) isn't installed.", callback: Callback::Make(Template::MissingPerlModule { module: Text::Group(1), filename: None, inc: None, minimum_version: None }) }));
    v.push(Matcher::Regex(RegexLineMatcher { regex: "Required plugin ([^ ]+) isn't installed.", callback: Callback::Make(Template::MissingPerlModule { module: Text::Group(1), filename: None, inc: None, minimum_version: None }) }));
    v.push(Matcher::Regex(RegexLineMatcher { regex: ".*Can't locate (.*) in @INC \\(@INC contains: (.*)\\) at .* line .*.", callback: Callback::Make(Template::MissingPerlFile { filename: Text::Group(1), inc: Some(Texts::Split(2, ' ')) }) }));
    v.push(Matcher::Regex(RegexLineMatcher { regex: "Can't find author dependency ([^ ]+) at (.*) line ([0-9]+).", callback: Callback::Make(Template::MissingPerlModule { module: Text::Group(1), filename: None, inc: None, minimum_version: None }) }));
    v.push(Matcher::Regex(RegexLineMatcher { regex: "Can't find author dependency ([^ ]+) version (.*) at (.*) line ([0-9]+).", callback: Callback::Make(Template::MissingPerlModule { module: Text::Group(1), filename: None, inc: None, minimum_version: Some(Text::Group(2)) }) }));
    v.push(Matcher::Regex(RegexLineMatcher { regex: "> Could not find (.*)\\. Please check that (.*) contains a valid JDK installation.", callback: Callback::Make(Template::MissingJDKFile { jdk_path: Text::Group(2), filename: Text::Group(1) }) }));
    v.push(Matcher::Regex(RegexLineMatcher { regex: "> Could not find (.*)\\. Please check that (.*) contains a valid \\(and compatible\\) JDK installation.", callback: Callback::Make(Template::MissingJDKFile { jdk_path: Text::Group(2), filename: Text::Group(1) }) }));
    v.push(Matcher::Regex(RegexLineMatcher { regex: "> Kotlin could not find the required JDK tools in the Java installation '(.*)' used by Gradle. Make sure Gradle is running on a JDK, not JRE.", callback: Callback::Make(Template::MissingJDK { jdk_path: Text::Group(1) }) }));
    v.push(Matcher::Regex(RegexLineMatcher { regex: "> JDK_5 environment variable is not defined. It must point to any JDK that is capable to compile with Java 5 target \\((.*)\\)", callback: Callback::Make(Template::MissingJDK { jdk_path: Text::Group(1) }) }));
    v.push(Matcher::Regex(RegexLineMatcher { regex: "ERROR: JAVA_HOME is not set and no 'java' command could be found in your PATH.", callback: Callback::Kind("missing-jre") }));
    v.push(Matcher::Regex(RegexLineMatcher { regex: "Error: environment variable \"JAVA_HOME\" must be set to a JDK \\(>= v(.*)\\) installation directory", callback: Callback::Make(Template::MissingJDK { jdk_path: Text::Group(1) }) }));
    v.push(Matcher::Regex(RegexLineMatcher { regex: "(?:/usr/bin/)?install: cannot create regular file '(.*)': No such file or directory", callback: Callback::FileNotFound(1) }));
    v.push(Matcher::Regex(RegexLineMatcher { regex: "Cannot find source directory \\((.*)\\)", callback: Callback::FileNotFound(1) }));
    v.push(Matcher::Regex(RegexLineMatcher { regex: "python[0-9.]*: can't open file '(.*)': \\[Errno 2\\] No such file or directory", callback: Callback::FileNotFound(1) }));
    v.push(Matcher::Regex(RegexLineMatcher { regex: "^error: \\[Errno 2\\] No such file or directory: '(.*)'", callback: Callback::FileNotFoundMaybeExecutable(1) }));
    v.push(Matcher::Regex(RegexLineMatcher { regex: ".*:[0-9]+:[0-9]+: ERROR: <ExternalProgram 'python3' -> \\['/usr/bin/python3'\\]> is not a valid python or it is missing setuptools", callback: Callback::Make(Template::MissingPythonDistribution { distribution: Text::Lit("setuptools"), python_version: Some(3), minimum_version: None }) }));
    v.push(Matcher::Regex(RegexLineMatcher { regex: "OSError: \\[Errno 28\\] No space left on device", callback: Callback::NoSpace }));
    assert(v@ =~= common_matchers_part10());
    v
}

/// Part 11 of the matchers for the lines of a build log.
pub open spec fn common_matchers_part11() -> Seq<Matcher> {
    seq![
        Matcher::Regex(RegexLineMatcher { regex: "^LookupError: setuptools-scm was unable to detect version for '.*'\\.", callback: Callback::Kind("setuptools-scm-version-issue") }),
        Matcher::Regex(RegexLineMatcher { regex: "^LookupError: setuptools-scm was unable to detect version for .*\\.", callback: Callback::Kind("setuptools-scm-version-issue") }),
        Matcher::Regex(RegexLineMatcher { regex: "^OSError: 'git' was not found", callback: Callback::CommandNamed("git") }),
        Matcher::Regex(RegexLineMatcher { regex: "^OSError: No such file (.*)", callback: Callback::FileNotFoundMaybeExecutable(1) }),
        Matcher::Regex(RegexLineMatcher { regex: "^Could not open '(.*)': No such file or directory at /usr/share/perl/[0-9.]+/ExtUtils/MM_Unix.pm line [0-9]+.", callback: Callback::Make(Template::MissingPerlFile { filename: Text::Group(1), inc: None }) }),
        Matcher::Regex(RegexLineMatcher { regex: "^Can't open perl script \"(.*)\": No such file or directory", callback: Callback::Make(Template::MissingPerlFile { filename: Text::Group(1), inc: None }) }),
        Matcher::Regex(RegexLineMatcher { regex: "(?:\\[ERROR\\]|\\[\x1b\\[1;31mERROR\x1b\\[m\\]) Failed to execute goal on project .*: \\x1b\\[1;31mCould not resolve dependencies for project .*: The following artifacts could not be resolved: (.*): Could not find artifact (.*) in (.*) \\((.*)\\)\\x1b\\[m -> \\x1b\\[1m\\[Help 1\\]\\x1b\\[m", callback: Callback::MavenArtifacts(1) }),
        Matcher::Regex(RegexLineMatcher { regex: "(?:\\[ERROR\\]|\\[\x1b\\[1;31mERROR\x1b\\[m\\]) Failed to execute goal on project .*: \\x1b\\[1;31mCould not resolve dependencies for project .*: Could not find artifact (.*)\\x1b\\[m .*", callback: Callback::MavenArtifacts(1) }),
        Matcher::Regex(RegexLineMatcher { regex: "(?:\\[ERROR\\]|\\[\x1b\\[1;31mERROR\x1b\\[m\\]) Failed to execute goal on project .*: Could not resolve dependencies for project .*: The following artifacts could not be resolved: (.*): Cannot access central \\(https://repo\\.maven\\.apache\\.org/maven2\\) in offline mode and the artifact .* has not been downloaded from it before..*", callback: Callback::MavenArtifacts(1) }),
        Matcher::Regex(RegexLineMatcher { regex: "(?:\\[ERROR\\]|\\[\x1b\\[1;31mERROR\x1b\\[m\\]) Unresolveable build extension: Plugin (.*) or one of its dependencies could not be resolved: Cannot access central \\(https://repo.maven.apache.org/maven2\\) in offline mode and the artifact .* has not been downloaded from it before. @", callback: Callback::Make(Template::MissingMavenArtifacts(Texts::One(Text::Group(1)))) }),
        Matcher::Regex(RegexLineMatcher { regex: "(?:\\[ERROR\\]|\\[\x1b\\[1;31mERROR\x1b\\[m\\]) Non-resolvable import POM: Cannot access central \\(https://repo.maven.apache.org/maven2\\) in offline mode and the artifact (.*) has not been downloaded from it before. @ line [0-9]+, column [0-9]+", callback: Callback::MavenArtifacts(1) }),
        Matcher::Regex(RegexLineMatcher { regex: "\\[FATAL\\] Non-resolvable parent POM for .*: Cannot access central \\(https://repo.maven.apache.org/maven2\\) in offline mode and the artifact (.*) has not been downloaded from it before. .*", callback: Callback::MavenArtifacts(1) }),
        Matcher::Regex(RegexLineMatcher { regex: "(?:\\[ERROR\\]|\\[\x1b\\[1;31mERROR\x1b\\[m\\]) Plugin (.*) or one of its dependencies could not be resolved: Cannot access central \\(https://repo.maven.apache.org/maven2\\) in offline mode and the artifact .* has not been downloaded from it before. -> \\[Help 1\\]", callback: Callback::Make(Template::MissingMavenArtifacts(Texts::One(Text::Group(1)))) }),
        Matcher::Regex(RegexLineMatcher { regex: "(?:\\[ERROR\\]|\\[\x1b\\[1;31mERROR\x1b\\[m\\]) Plugin (.+) or one of its dependencies could not be resolved: Failed to read artifact descriptor for (.*): (.*)", callback: Callback::Make(Template::MissingMavenArtifacts(Texts::One(Text::Group(1)))) }),
        Matcher::Regex(RegexLineMatcher { regex: "(?:\\[ERROR\\]|\\[\x1b\\[1;31mERROR\x1b\\[m\\]) Failed to execute goal on project .*: Could not resolve dependencies for project .*: Cannot access .* \\([^\\)]+\\) in offline mode and the artifact (.*) has not been downloaded from it before. -> \\[Help 1\\]", callback: Callback::MavenArtifacts(1) }),
        Matcher::Regex(RegexLineMatcher { regex: "(?:\\[ERROR\\]|\\[\x1b\\[1;31mERROR\x1b\\[m\\]) Failed to execute goal on project .*: Could not resolve dependencies for project .*: Cannot access central \\(https://repo.maven.apache.org/maven2\\) in offline mode and the artifact (.*) has not been downloaded from it before..*", callback: Callback::MavenArtifacts(1) }),
        Matcher::Regex(RegexLineMatcher { regex: "(?:\\[ERROR\\]|\\[\x1b\\[1;31mERROR\x1b\\[m\\]) Failed to execute goal (.*) on project (.*): (.*)", callback: Callback::Nothing }),
        Matcher::Regex(RegexLineMatcher { regex: "(?:\\[ERROR\\]|\\[\x1b\\[1;31mERROR\x1b\\[m\\]) Error resolving version for plugin \\'(.*)\\' from the repositories \\[.*\\]: Plugin not found in any plugin repository -> \\[Help 1\\]", callback: Callback::Make(Template::MissingMavenArtifacts(Texts::One(Text::Group(1)))) }),
        Matcher::Regex(RegexLineMatcher { regex: "E: eatmydata: unable to find '(.*)' in PATH", callback: Callback::CommandGroup(1) }),
        Matcher::Regex(RegexLineMatcher { regex: "'(.*)' not found in PATH at (.*) line ([0-9]+)\\.", callback: Callback::CommandGroup(1) }),
    ]
}

fn common_matchers_table_part11() -> (r: Vec<Matcher>)
    ensures
        r@ == common_matchers_part11(),
{
    let mut v: Vec<Matcher> = Vec::new();
    v.push(Matcher::Regex(RegexLineMatcher { regex: "^LookupError: setuptools-scm was unable to detect version for '.*'\\.", callback: Callback::Kind("setuptools-scm-version-issue") }));
    v.push(Matcher::Regex(RegexLineMatcher { regex: "^LookupError: setuptools-scm was unable to detect version for .*\\.", callback: Callback::Kind("setuptools-scm-version-issue") }));
    v.push(Matcher::Regex(RegexLineMatcher { regex: "^OSError: 'git' was not found", callback: Callback::CommandNamed("git") }));
    v.push(Matcher::Regex(RegexLineMatcher { regex: "^OSError: No such file (.*)", callback: Callback::FileNotFoundMaybeExecutable(1) }));
    v.push(Matcher::Regex(RegexLineMatcher { regex: "^Could not open '(.*)': No such file or directory at /usr/share/perl/[0-9.]+/ExtUtils/MM_Unix.pm line [0-9]+.", callback: Callback::Make(Template::MissingPerlFile { filename: Text::Group(1), inc: None }) }));
    v.push(Matcher::Regex(RegexLineMatcher { regex: "^Can't open perl script \"(.*)\": No such file or directory", callback: Callback::Make(Template::MissingPerlFile { filename: Text::Group(1), inc: None }) }));
    v.push(Matcher::Regex(RegexLineMatcher { regex: "(?:\\[ERROR\\]|\\[\x1b\\[1;31mERROR\x1b\\[m\\]) Failed to execute goal on project .*: \\x1b\\[1;31mCould not resolve dependencies for project .*: The following artifacts could not be resolved: (.*): Could not find artifact (.*) in (.*) \\((.*)\\)\\x1b\\[m -> \\x1b\\[1m\\[Help 1\\]\\x1b\\[m", callback: Callback::MavenArtifacts(1) }));
    v.push(Matcher::Regex(RegexLineMatcher { regex: "(?:\\[ERROR\\]|\\[\x1b\\[1;31mERROR\x1b\\[m\\]) Failed to execute goal on project .*: \\x1b\\[1;31mCould not resolve dependencies for project .*: Could not find artifact (.*)\\x1b\\[m .*", callback: Callback::MavenArtifacts(1) }));
    v.push(Matcher::Regex(RegexLineMatcher { regex: "(?:\\[ERROR\\]|\\[\x1b\\[1;31mERROR\x1b\\[m\\]) Failed to execute goal on project .*: Could not resolve dependencies for project .*: The following artifacts could not be resolved: (.*): Cannot access central \\(https://repo\\.maven\\.apache\\.org/maven2\\) in offline mode and the artifact .* has not been downloaded from it before..*", callback: Callback::MavenArtifacts(1) }));
    v.push(Matcher::Regex(RegexLineMatcher { regex: "(?:\\[ERROR\\]|\\[\x1b\\[1;31mERROR\x1b\\[m\\]) Unresolveable build extension: Plugin (.*) or one of its dependencies could not be resolved: Cannot access central \\(https://repo.maven.apache.org/maven2\\) in offline mode and the artifact .* has not been downloaded from it before. @", callback: Callback::Make(Template::MissingMavenArtifacts(Texts::One(Text::Group(1)))) }));
    v.push(Matcher::Regex(RegexLineMatcher { regex: "(?:\\[ERROR\\]|\\[\x1b\\[1;31mERROR\x1b\\[m\\]) Non-resolvable import POM: Cannot access central \\(https://repo.maven.apache.org/maven2\\) in offline mode and the artifact (.*) has not been downloaded from it before. @ line [0-9]+, column [0-9]+", callback: Callback::MavenArtifacts(1) }));
    v.push(Matcher::Regex(RegexLineMatcher { regex: "\\[FATAL\\] Non-resolvable parent POM for .*: Cannot access central \\(https://repo.maven.apache.org/maven2\\) in offline mode and the artifact (.*) has not been downloaded from it before. .*", callback: Callback::MavenArtifacts(1) }));
    v.push(Matcher::Regex(RegexLineMatcher { regex: "(?:\\[ERROR\\]|\\[\x1b\\[1;31mERROR\x1b\\[m\\]) Plugin (.*) or one of its dependencies could not be resolved: Cannot access central \\(https://repo.maven.apache.org/maven2\\) in offline mode and the artifact .* has not been downloaded from it before. -> \\[Help 1\\]", callback: Callback::Make(Template::MissingMavenArtifacts(Texts::One(Text::Group(1)))) }));
    v.push(Matcher::Regex(RegexLineMatcher { regex: "(?:\\[ERROR\\]|\\[\x1b\\[1;31mERROR\x1b\\[m\\]) Plugin (.+) or one of its dependencies could not be resolved: Failed to read artifact descriptor for (.*): (.*)", callback: Callback::Make(Template::MissingMavenArtifacts(Texts::One(Text::Group(1)))) }));
    v.push(Matcher::Regex(RegexLineMatcher { regex: "(?:\\[ERROR\\]|\\[\x1b\\[1;31mERROR\x1b\\[m\\]) Failed to execute goal on project .*: Could not resolve dependencies for project .*: Cannot access .* \\([^\\)]+\\) in offline mode and the artifact (.*) has not been downloaded from it before. -> \\[Help 1\\]", callback: Callback::MavenArtifacts(1) }));
    v.push(Matcher::Regex(RegexLineMatcher { regex: "(?:\\[ERROR\\]|\\[\x1b\\[1;31mERROR\x1b\\[m\\]) Failed to execute goal on project .*: Could not resolve dependencies for project .*: Cannot access central \\(https://repo.maven.apache.org/maven2\\) in offline mode and the artifact (.*) has not been downloaded from it before..*", callback: Callback::MavenArtifacts(1) }));
    v.push(Matcher::Regex(RegexLineMatcher { regex: "(?:\\[ERROR\\]|\\[\x1b\\[1;31mERROR\x1b\\[m\\]) Failed to execute goal (.*) on project (.*): (.*)", callback: Callback::Nothing }));
    v.push(Matcher::Regex(RegexLineMatcher { regex: "(?:\\[ERROR\\]|\\[\x1b\\[1;31mERROR\x1b\\[m\\]) Error resolving version for plugin \\'(.*)\\' from the repositories \\[.*\\]: Plugin not found in any plugin repository -> \\[Help 1\\]", callback: Callback::Make(Template::MissingMavenArtifacts(Texts::One(Text::Group(1)))) }));
    v.push(Matcher::Regex(RegexLineMatcher { regex: "E: eatmydata: unable to find '(.*)' in PATH", callback: Callback::CommandGroup(1) }));
    v.push(Matcher::Regex(RegexLineMatcher { regex: "'(.*)' not found in PATH at (.*) line ([0-9]+)\\.", callback: Callback::CommandGroup(1) }));
    assert(v@ =~= common_matchers_part11());
    v
}

/// Part 12 of the matchers for the lines of a build log.
pub open spec fn common_matchers_part12() -> Seq<Matcher> {
    seq![
        Matcher::Regex(RegexLineMatcher { regex: "/usr/bin/eatmydata: [0-9]+: exec: (.*): not found", callback: Callback::CommandMissing(1) }),
        Matcher::Regex(RegexLineMatcher { regex: "/usr/bin/eatmydata: [0-9]+: exec: (.*): Permission denied", callback: Callback::Make(Template::NotExecutableFile(Text::Group(1))) }),
        Matcher::Regex(RegexLineMatcher { regex: "(.*): exec: \"(.*)\": executable file not found in \\$PATH", callback: Callback::CommandGroup(2) }),
        Matcher::Regex(RegexLineMatcher { regex: "Can't exec \"(.*)\": No such file or directory at (.*) line ([0-9]+)\\.", callback: Callback::CommandMissing(1) }),
        Matcher::Regex(RegexLineMatcher { regex: "dh_missing: (warning: )?(.*) exists in debian/.* but is not installed to anywhere", callback: Callback::Make(Template::DhMissingUninstalled(Text::Group(2))) }),
        Matcher::Regex(RegexLineMatcher { regex: "dh_link: link destination (.*) is a directory", callback: Callback::Make(Template::DhLinkDestinationIsDirectory(Text::Group(1))) }),
        Matcher::Regex(RegexLineMatcher { regex: "I/O error : Attempt to load network entity (.*)", callback: Callback::Make(Template::MissingXmlEntity { url: Text::Group(1) }) }),
        Matcher::Regex(RegexLineMatcher { regex: "ccache: error: (.*)", callback: Callback::Make(Template::CcacheError(Text::Group(1))) }),
        Matcher::Regex(RegexLineMatcher { regex: "dh: The --until option is not supported any longer \\(#932537\\). Use override targets instead.", callback: Callback::Kind("dh-until-unsupported") }),
        Matcher::Regex(RegexLineMatcher { regex: "dh: unable to load addon (.*): (.*) did not return a true value at \\(eval 11\\) line ([0-9]+).", callback: Callback::Make(Template::DhAddonLoadFailure { name: Text::Group(1), path: Text::Group(2) }) }),
        Matcher::Regex(RegexLineMatcher { regex: "ERROR: dependencies (.*) are not available for package [‘'](.*)['’]", callback: Callback::RPackageList(1) }),
        Matcher::Regex(RegexLineMatcher { regex: "ERROR: dependency [‘'](.*)['’] is not available for package [‘'](.*)[’']", callback: Callback::RPackageList(1) }),
        Matcher::Regex(RegexLineMatcher { regex: "Error in library\\(.*\\) : there is no package called \\'(.*)\\'", callback: Callback::RPackageList(1) }),
        Matcher::Regex(RegexLineMatcher { regex: "Error in .* : there is no package called \\'(.*)\\'", callback: Callback::RPackageList(1) }),
        Matcher::Regex(RegexLineMatcher { regex: "there is no package called \\'(.*)\\'", callback: Callback::RPackageList(1) }),
        Matcher::Regex(RegexLineMatcher { regex: "  namespace ‘(.*)’ ([^ ]+) is being loaded, but >= ([^ ]+) is required", callback: Callback::Make(Template::MissingRPackage { package: Text::Group(1), minimum_version: Some(Text::Group(3)) }) }),
        Matcher::Regex(RegexLineMatcher { regex: "  namespace ‘(.*)’ ([^ ]+) is already loaded, but >= ([^ ]+) is required", callback: Callback::Make(Template::MissingRPackage { package: Text::Group(1), minimum_version: Some(Text::Group(3)) }) }),
        Matcher::Regex(RegexLineMatcher { regex: "b\\'convert convert: Unable to read font \\((.*)\\) \\[No such file or directory\\]\\.\\\\n\\'", callback: Callback::FileNotFound(1) }),
        Matcher::Regex(RegexLineMatcher { regex: "mv: cannot stat \\'(.*)\\': No such file or directory", callback: Callback::FileNotFound(1) }),
        Matcher::Regex(RegexLineMatcher { regex: "mv: cannot move \\'.*\\' to \\'(.*)\\': No such file or directory", callback: Callback::FileNotFound(1) }),
    ]
}

fn common_matchers_table_part12() -> (r: Vec<Matcher>)
    ensures
        r@ == common_matchers_part12(),
{
    let mut v: Vec<Matcher> = Vec::new();
    v.push(Matcher::Regex(RegexLineMatcher { regex: "/usr/bin/eatmydata: [0-9]+: exec: (.*): not found", callback: Callback::CommandMissing(1) }));
    v.push(Matcher::Regex(RegexLineMatcher { regex: "/usr/bin/eatmydata: [0-9]+: exec: (.*): Permission denied", callback: Callback::Make(Template::NotExecutableFile(Text::Group(1))) }));
    v.push(Matcher::Regex(RegexLineMatcher { regex: "(.*): exec: \"(.*)\": executable file not found in \\$PATH", callback: Callback::CommandGroup(2) }));
    v.push(Matcher::Regex(RegexLineMatcher { regex: "Can't exec \"(.*)\": No such file or directory at (.*) line ([0-9]+)\\.", callback: Callback::CommandMissing(1) }));
    v.push(Matcher::Regex(RegexLineMatcher { regex: "dh_missing: (warning: )?(.*) exists in debian/.* but is not installed to anywhere", callback: Callback::Make(Template::DhMissingUninstalled(Text::Group(2))) }));
    v.push(Matcher::Regex(RegexLineMatcher { regex: "dh_link: link destination (.*) is a directory", callback: Callback::Make(Template::DhLinkDestinationIsDirectory(Text::Group(1))) }));
    v.push(Matcher::Regex(RegexLineMatcher { regex: "I/O error : Attempt to load network entity (.*)", callback: Callback::Make(Template::MissingXmlEntity { url: Text::Group(1) }) }));
    v.push(Matcher::Regex(RegexLineMatcher { regex: "ccache: error: (.*)", callback: Callback::Make(Template::CcacheError(Text::Group(1))) }));
    v.push(Matcher::Regex(RegexLineMatcher { regex: "dh: The --until option is not supported any longer \\(#932537\\). Use override targets instead.", callback: Callback::Kind("dh-until-unsupported") }));
    v.push(Matcher::Regex(RegexLineMatcher { regex: "dh: unable to load addon (.*): (.*) did not return a true value at \\(eval 11\\) line ([0-9]+).", callback: Callback::Make(Template::DhAddonLoadFailure { name: Text::Group(1), path: Text::Group(2) }) }));
    v.push(Matcher::Regex(RegexLineMatcher { regex: "ERROR: dependencies (.*) are not available for package [‘'](.*)['’]", callback: Callback::RPackageList(1) }));
    v.push(Matcher::Regex(RegexLineMatcher { regex: "ERROR: dependency [‘'](.*)['’] is not available for package [‘'](.*)[’']", callback: Callback::RPackageList(1) }));
    v.push(Matcher::Regex(RegexLineMatcher { regex: "Error in library\\(.*\\) : there is no package called \\'(.*)\\'", callback: Callback::RPackageList(1) }));
    v.push(Matcher::Regex(RegexLineMatcher { regex: "Error in .* : there is no package called \\'(.*)\\'", callback: Callback::RPackageList(1) }));
    v.push(Matcher::Regex(RegexLineMatcher { regex: "there is no package called \\'(.*)\\'", callback: Callback::RPackageList(1) }));
    v.push(Matcher::Regex(RegexLineMatcher { regex: "  namespace ‘(.*)’ ([^ ]+) is being loaded, but >= ([^ ]+) is required", callback: Callback::Make(Template::MissingRPackage { package: Text::Group(1), minimum_version: Some(Text::Group(3)) }) }));
    v.push(Matcher::Regex(RegexLineMatcher { regex: "  namespace ‘(.*)’ ([^ ]+) is already loaded, but >= ([^ ]+) is required", callback: Callback::Make(Template::MissingRPackage { package: Text::Group(1), minimum_version: Some(Text::Group(3)) }) }));
    v.push(Matcher::Regex(RegexLineMatcher { regex: "b\\'convert convert: Unable to read font \\((.*)\\) \\[No such file or directory\\]\\.\\\\n\\'", callback: Callback::FileNotFound(1) }));
    v.push(Matcher::Regex(RegexLineMatcher { regex: "mv: cannot stat \\'(.*)\\': No such file or directory", callback: Callback::FileNotFound(1) }));
    v.push(Matcher::Regex(RegexLineMatcher { regex: "mv: cannot move \\'.*\\' to \\'(.*)\\': No such file or directory", callback: Callback::FileNotFound(1) }));
    assert(v@ =~= common_matchers_part12());
    v
}

/// Part 13 of the matchers for the lines of a build log.
pub open spec fn common_matchers_part13() -> Seq<Matcher> {
    seq![
        Matcher::Regex(RegexLineMatcher { regex: "(/usr/bin/install|mv): will not overwrite just-created \\'(.*)\\' with \\'(.*)\\'", callback: Callback::Nothing }),
        Matcher::Regex(RegexLineMatcher { regex: "^IOError: \\[Errno 2\\] No such file or directory: \\'(.*)\\'", callback: Callback::FileNotFoundMaybeExecutable(1) }),
        Matcher::Regex(RegexLineMatcher { regex: "^error: \\[Errno 2\\] No such file or directory: \\'(.*)\\'", callback: Callback::FileNotFoundMaybeExecutable(1) }),
        Matcher::Regex(RegexLineMatcher { regex: "^E   IOError: \\[Errno 2\\] No such file or directory: \\'(.*)\\'", callback: Callback::FileNotFoundMaybeExecutable(1) }),
        Matcher::Regex(RegexLineMatcher { regex: "FAIL\t(.+\\/.+\\/.+)\t([0-9.]+)s", callback: Callback::Nothing }),
        Matcher::Regex(RegexLineMatcher { regex: "dh_(.*): Cannot find \\(any matches for\\) \"(.*)\" \\(tried in (.*)\\)", callback: Callback::Make(Template::DebhelperPatternNotFound { pattern: Text::Group(2), tool: Text::Group(1), directories: Texts::SplitTrimmed(3, ',') }) }),
        Matcher::Regex(RegexLineMatcher { regex: "Can't exec \"(.*)\": No such file or directory at /usr/share/perl5/Debian/Debhelper/Dh_Lib.pm line [0-9]+.", callback: Callback::CommandMissing(1) }),
        Matcher::Regex(RegexLineMatcher { regex: "Can\\'t exec \"(.*)\": Permission denied at (.*) line [0-9]+\\.", callback: Callback::Make(Template::NotExecutableFile(Text::Group(1))) }),
        Matcher::Regex(RegexLineMatcher { regex: "/usr/bin/fakeroot: [0-9]+: (.*): Permission denied", callback: Callback::Make(Template::NotExecutableFile(Text::Group(1))) }),
        Matcher::Regex(RegexLineMatcher { regex: ".*: error: (.*) command not found", callback: Callback::CommandMissing(1) }),
        Matcher::Regex(RegexLineMatcher { regex: "error: command '(.*)' failed: No such file or directory", callback: Callback::CommandMissing(1) }),
        Matcher::Regex(RegexLineMatcher { regex: "dh_install: Please use dh_missing --list-missing/--fail-missing instead", callback: Callback::Nothing }),
        Matcher::Regex(RegexLineMatcher { regex: "dh([^:]*): Please use the third-party \"pybuild\" build system instead of python-distutils", callback: Callback::Nothing }),
        Matcher::Regex(RegexLineMatcher { regex: "ImportError: cannot import name (.*)", callback: Callback::Nothing }),
        Matcher::Regex(RegexLineMatcher { regex: "\\s*= note: /usr/bin/ld: cannot find -l([^ ]+): .*", callback: Callback::Make(Template::MissingLibrary(Text::Group(1))) }),
        Matcher::Regex(RegexLineMatcher { regex: "\\s*= note: /usr/bin/ld: cannot find -l([^ ]+)", callback: Callback::Make(Template::MissingLibrary(Text::Group(1))) }),
        Matcher::Regex(RegexLineMatcher { regex: "/usr/bin/ld: cannot find -l([^ ]+): .*", callback: Callback::Make(Template::MissingLibrary(Text::Group(1))) }),
        Matcher::Regex(RegexLineMatcher { regex: "/usr/bin/ld: cannot find -l([^ ]+)", callback: Callback::Make(Template::MissingLibrary(Text::Group(1))) }),
        Matcher::Regex(RegexLineMatcher { regex: "Could not find gem \\'([^ ]+) \\(([^)]+)\\)\\', which is required by gem.*", callback: Callback::RubyGem(1, 2) }),
        Matcher::Regex(RegexLineMatcher { regex: "Could not find gem \\'([^ \\']+)\\', which is required by gem.*", callback: Callback::Make(Template::MissingRubyGem { gem: Text::Group(1), version: None }) }),
    ]
}

fn common_matchers_table_part13() -> (r: Vec<Matcher>)
    ensures
        r@ == common_matchers_part13(),
{
    let mut v: Vec<Matcher> = Vec::new();
    v.push(Matcher::Regex(RegexLineMatcher { regex: "(/usr/bin/install|mv): will not overwrite just-created \\'(.*)\\' with \\'(.*)\\'", callback: Callback::Nothing }));
    v.push(Matcher::Regex(RegexLineMatcher { regex: "^IOError: \\[Errno 2\\] No such file or directory: \\'(.*)\\'", callback: Callback::FileNotFoundMaybeExecutable(1) }));
    v.push(Matcher::Regex(RegexLineMatcher { regex: "^error: \\[Errno 2\\] No such file or directory: \\'(.*)\\'", callback: Callback::FileNotFoundMaybeExecutable(1) }));
    v.push(Matcher::Regex(RegexLineMatcher { regex: "^E   IOError: \\[Errno 2\\] No such file or directory: \\'(.*)\\'", callback: Callback::FileNotFoundMaybeExecutable(1) }));
    v.push(Matcher::Regex(RegexLineMatcher { regex: "FAIL\t(.+\\/.+\\/.+)\t([0-9.]+)s", callback: Callback::Nothing }));
    v.push(Matcher::Regex(RegexLineMatcher { regex: "dh_(.*): Cannot find \\(any matches for\\) \"(.*)\" \\(tried in (.*)\\)", callback: Callback::Make(Template::DebhelperPatternNotFound { pattern: Text::Group(2), tool: Text::Group(1), directories: Texts::SplitTrimmed(3, ',') }) }));
    v.push(Matcher::Regex(RegexLineMatcher { regex: "Can't exec \"(.*)\": No such file or directory at /usr/share/perl5/Debian/Debhelper/Dh_Lib.pm line [0-9]+.", callback: Callback::CommandMissing(1) }));
    v.push(Matcher::Regex(RegexLineMatcher { regex: "Can\\'t exec \"(.*)\": Permission denied at (.*) line [0-9]+\\.", callback: Callback::Make(Template::NotExecutableFile(Text::Group(1))) }));
    v.push(Matcher::Regex(RegexLineMatcher { regex: "/usr/bin/fakeroot: [0-9]+: (.*): Permission denied", callback: Callback::Make(Template::NotExecutableFile(Text::Group(1))) }));
    v.push(Matcher::Regex(RegexLineMatcher { regex: ".*: error: (.*) command not found", callback: Callback::CommandMissing(1) }));
    v.push(Matcher::Regex(RegexLineMatcher { regex: "error: command '(.*)' failed: No such file or directory", callback: Callback::CommandMissing(1) }));
    v.push(Matcher::Regex(RegexLineMatcher { regex: "dh_install: Please use dh_missing --list-missing/--fail-missing instead", callback: Callback::Nothing }));
    v.push(Matcher::Regex(RegexLineMatcher { regex: "dh([^:]*): Please use the third-party \"pybuild\" build system instead of python-distutils", callback: Callback::Nothing }));
    v.push(Matcher::Regex(RegexLineMatcher { regex: "ImportError: cannot import name (.*)", callback: Callback::Nothing }));
    v.push(Matcher::Regex(RegexLineMatcher { regex: "\\s*= note: /usr/bin/ld: cannot find -l([^ ]+): .*", callback: Callback::Make(Template::MissingLibrary(Text::Group(1))) }));
    v.push(Matcher::Regex(RegexLineMatcher { regex: "\\s*= note: /usr/bin/ld: cannot find -l([^ ]+)", callback: Callback::Make(Template::MissingLibrary(Text::Group(1))) }));
    v.push(Matcher::Regex(RegexLineMatcher { regex: "/usr/bin/ld: cannot find -l([^ ]+): .*", callback: Callback::Make(Template::MissingLibrary(Text::Group(1))) }));
    v.push(Matcher::Regex(RegexLineMatcher { regex: "/usr/bin/ld: cannot find -l([^ ]+)", callback: Callback::Make(Template::MissingLibrary(Text::Group(1))) }));
    v.push(Matcher::Regex(RegexLineMatcher { regex: "Could not find gem \\'([^ ]+) \\(([^)]+)\\)\\', which is required by gem.*", callback: Callback::RubyGem(1, 2) }));
    v.push(Matcher::Regex(RegexLineMatcher { regex: "Could not find gem \\'([^ \\']+)\\', which is required by gem.*", callback: Callback::Make(Template::MissingRubyGem { gem: Text::Group(1), version: None }) }));
    assert(v@ =~= common_matchers_part13());
    v
}

/// Part 14 of the matchers for the lines of a build log.
pub open spec fn common_matchers_part14() -> Seq<Matcher> {
    seq![
        Matcher::Regex(RegexLineMatcher { regex: "[^:]+:[0-9]+:in \\`to_specs\\': Could not find \\'(.*)\\' \\(([^)]+)\\) among [0-9]+ total gem\\(s\\) \\(Gem::MissingSpecError\\)", callback: Callback::RubyGem(1, 2) }),
        Matcher::Regex(RegexLineMatcher { regex: "[^:]+:[0-9]+:in \\`to_specs\\': Could not find \\'(.*)\\' \\(([^)]+)\\) - .* \\(Gem::MissingSpecVersionError\\)", callback: Callback::RubyGem(1, 2) }),
        Matcher::Regex(RegexLineMatcher { regex: "[^:]+:[0-9]+:in \\`block in verify_gemfile_dependencies_are_found\\!\\': Could not find gem \\'(.*)\\' in any of the gem sources listed in your Gemfile\\. \\(Bundler::GemNotFound\\)", callback: Callback::Make(Template::MissingRubyGem { gem: Text::Group(1), version: None }) }),
        Matcher::Regex(RegexLineMatcher { regex: "Exception: (.*) not in path[!.]*", callback: Callback::CommandGroup(1) }),
        Matcher::Regex(RegexLineMatcher { regex: "Exception: Building sdist requires that ([^ ]+) be installed\\.", callback: Callback::VagueDependency(1) }),
        Matcher::Regex(RegexLineMatcher { regex: "[^:]+:[0-9]+:in \\`find_spec_for_exe\\': can\\'t find gem (.*) \\(([^)]+)\\) with executable (.*) \\(Gem::GemNotFoundException\\)", callback: Callback::RubyGem(1, 2) }),
        Matcher::Regex(RegexLineMatcher { regex: ".?PHP Fatal error:  Uncaught Error: Class \\'(.*)\\' not found in (.*):([0-9]+)", callback: Callback::Make(Template::MissingPhpClass { php_class: Text::Group(1) }) }),
        Matcher::Regex(RegexLineMatcher { regex: "Caused by: java.lang.ClassNotFoundException: (.*)", callback: Callback::Make(Template::MissingJavaClass { classname: Text::Group(1) }) }),
        Matcher::Regex(RegexLineMatcher { regex: "\\[(.*)\\] \\t\\t:: (.*)\\#(.*);\\$\\{(.*)\\}: not found", callback: Callback::Make(Template::MissingMavenArtifacts(Texts::One(Text::Joined(2, ":", 3, ":jar:debian")))) }),
        Matcher::Regex(RegexLineMatcher { regex: "Caused by: java.lang.IllegalArgumentException: Cannot find JAR \\'(.*)\\' required by module \\'(.*)\\' using classpath or distribution directory \\'(.*)\\'", callback: Callback::Nothing }),
        Matcher::Regex(RegexLineMatcher { regex: ".*\\.xml:[0-9]+: Unable to find a javac compiler;", callback: Callback::Make(Template::MissingJavaClass { classname: Text::Lit("com.sun.tools.javac.Main") }) }),
        Matcher::Regex(RegexLineMatcher { regex: "checking for (.*)\\.\\.\\. configure: error: \"Cannot check for existence of module (.*) without pkgconf\"", callback: Callback::CommandNamed("pkgconf") }),
        Matcher::Regex(RegexLineMatcher { regex: "configure: error: Could not find '(.*)' in path\\.", callback: Callback::CommandGroup(1) }),
        Matcher::Regex(RegexLineMatcher { regex: "autoreconf was not found; .*", callback: Callback::CommandNamed("autoreconf") }),
        Matcher::Regex(RegexLineMatcher { regex: "^g\\+\\+: error: (.*): No such file or directory", callback: Callback::FileNotFound(1) }),
        Matcher::Regex(RegexLineMatcher { regex: "strip: \\'(.*)\\': No such file", callback: Callback::FileNotFound(1) }),
        Matcher::Regex(RegexLineMatcher { regex: "Sprockets::FileNotFound: couldn\\'t find file \\'(.*)\\' with type \\'(.*)\\'", callback: Callback::Make(Template::MissingSprocketsFile { name: Text::Group(1), content_type: Text::Group(2) }) }),
        Matcher::Regex(RegexLineMatcher { regex: "xdt-autogen: You must have \"(.*)\" installed. You can get if from", callback: Callback::Make(Template::MissingXfceDependency { package: Text::Group(1) }) }),
        Matcher::Regex(RegexLineMatcher { regex: "autogen.sh: You must have GNU autoconf installed.", callback: Callback::CommandNamed("autoconf") }),
        Matcher::Regex(RegexLineMatcher { regex: "\\s*You must have (autoconf|automake|aclocal|libtool|libtoolize) installed to compile (.*)\\.", callback: Callback::CommandGroup(1) }),
    ]
}

fn common_matchers_table_part14() -> (r: Vec<Matcher>)
    ensures
        r@ == common_matchers_part14(),
{
    let mut v: Vec<Matcher> = Vec::new();
    v.push(Matcher::Regex(RegexLineMatcher { regex: "[^:]+:[0-9]+:in \\`to_specs\\': Could not find \\'(.*)\\' \\(([^)]+)\\) among [0-9]+ total gem\\(s\\) \\(Gem::MissingSpecError\\)", callback: Callback::RubyGem(1, 2) }));
    v.push(Matcher::Regex(RegexLineMatcher { regex: "[^:]+:[0-9]+:in \\`to_specs\\': Could not find \\'(.*)\\' \\(([^)]+)\\) - .* \\(Gem::MissingSpecVersionError\\)", callback: Callback::RubyGem(1, 2) }));
    v.push(Matcher::Regex(RegexLineMatcher { regex: "[^:]+:[0-9]+:in \\`block in verify_gemfile_dependencies_are_found\\!\\': Could not find gem \\'(.*)\\' in any of the gem sources listed in your Gemfile\\. \\(Bundler::GemNotFound\\)", callback: Callback::Make(Template::MissingRubyGem { gem: Text::Group(1), version: None }) }));
    v.push(Matcher::Regex(RegexLineMatcher { regex: "Exception: (.*) not in path[!.]*", callback: Callback::CommandGroup(1) }));
    v.push(Matcher::Regex(RegexLineMatcher { regex: "Exception: Building sdist requires that ([^ ]+) be installed\\.", callback: Callback::VagueDependency(1) }));
    v.push(Matcher::Regex(RegexLineMatcher { regex: "[^:]+:[0-9]+:in \\`find_spec_for_exe\\': can\\'t find gem (.*) \\(([^)]+)\\) with executable (.*) \\(Gem::GemNotFoundException\\)", callback: Callback::RubyGem(1, 2) }));
    v.push(Matcher::Regex(RegexLineMatcher { regex: ".?PHP Fatal error:  Uncaught Error: Class \\'(.*)\\' not found in (.*):([0-9]+)", callback: Callback::Make(Template::MissingPhpClass { php_class: Text::Group(1) }) }));
    v.push(Matcher::Regex(RegexLineMatcher { regex: "Caused by: java.lang.ClassNotFoundException: (.*)", callback: Callback::Make(Template::MissingJavaClass { classname: Text::Group(1) }) }));
    v.push(Matcher::Regex(RegexLineMatcher { regex: "\\[(.*)\\] \\t\\t:: (.*)\\#(.*);\\$\\{(.*)\\}: not found", callback: Callback::Make(Template::MissingMavenArtifacts(Texts::One(Text::Joined(2, ":", 3, ":jar:debian")))) }));
    v.push(Matcher::Regex(RegexLineMatcher { regex: "Caused by: java.lang.IllegalArgumentException: Cannot find JAR \\'(.*)\\' required by module \\'(.*)\\' using classpath or distribution directory \\'(.*)\\'", callback: Callback::Nothing }));
    v.push(Matcher::Regex(RegexLineMatcher { regex: ".*\\.xml:[0-9]+: Unable to find a javac compiler;", callback: Callback::Make(Template::MissingJavaClass { classname: Text::Lit("com.sun.tools.javac.Main") }) }));
    v.push(Matcher::Regex(RegexLineMatcher { regex: "checking for (.*)\\.\\.\\. configure: error: \"Cannot check for existence of module (.*) without pkgconf\"", callback: Callback::CommandNamed("pkgconf") }));
    v.push(Matcher::Regex(RegexLineMatcher { regex: "configure: error: Could not find '(.*)' in path\\.", callback: Callback::CommandGroup(1) }));
    v.push(Matcher::Regex(RegexLineMatcher { regex: "autoreconf was not found; .*", callback: Callback::CommandNamed("autoreconf") }));
    v.push(Matcher::Regex(RegexLineMatcher { regex: "^g\\+\\+: error: (.*): No such file or directory", callback: Callback::FileNotFound(1) }));
    v.push(Matcher::Regex(RegexLineMatcher { regex: "strip: \\'(.*)\\': No such file", callback: Callback::FileNotFound(1) }));
    v.push(Matcher::Regex(RegexLineMatcher { regex: "Sprockets::FileNotFound: couldn\\'t find file \\'(.*)\\' with type \\'(.*)\\'", callback: Callback::Make(Template::MissingSprocketsFile { name: Text::Group(1), content_type: Text::Group(2) }) }));
    v.push(Matcher::Regex(RegexLineMatcher { regex: "xdt-autogen: You must have \"(.*)\" installed. You can get if from", callback: Callback::Make(Template::MissingXfceDependency { package: Text::Group(1) }) }));
    v.push(Matcher::Regex(RegexLineMatcher { regex: "autogen.sh: You must have GNU autoconf installed.", callback: Callback::CommandNamed("autoconf") }));
    v.push(Matcher::Regex(RegexLineMatcher { regex: "\\s*You must have (autoconf|automake|aclocal|libtool|libtoolize) installed to compile (.*)\\.", callback: Callback::CommandGroup(1) }));
    assert(v@ =~= common_matchers_part14());
    v
}

/// Part 15 of the matchers for the lines of a build log.
pub open spec fn common_matchers_part15() -> Seq<Matcher> {
    seq![
        Matcher::Regex(RegexLineMatcher { regex: "It appears that Autotools is not correctly installed on this system.", callback: Callback::CommandNamed("autoconf") }),
        Matcher::Regex(RegexLineMatcher { regex: "\\*\\*\\* No autoreconf found \\*\\*\\*", callback: Callback::CommandNamed("autoreconf") }),
        Matcher::Regex(RegexLineMatcher { regex: "You need to install gnome-common module and make.*", callback: Callback::Kind("gnome-common-missing") }),
        Matcher::Regex(RegexLineMatcher { regex: "You need to install the gnome-common module and make.*", callback: Callback::Kind("gnome-common-missing") }),
        Matcher::Regex(RegexLineMatcher { regex: "You need to install gnome-common from the GNOME (git|CVS|SVN)", callback: Callback::Kind("gnome-common-missing") }),
        Matcher::Regex(RegexLineMatcher { regex: "automake: error: cannot open < (.*): No such file or directory", callback: Callback::Make(Template::MissingAutomakeInput { path: Text::Group(1) }) }),
        Matcher::Regex(RegexLineMatcher { regex: "configure(|\\.in|\\.ac):[0-9]+: error: possibly undefined macro: (.*)", callback: Callback::Make(Template::MissingAutoconfMacro { macro_name: Text::Group(2), need_rebuild: false }) }),
        Matcher::Regex(RegexLineMatcher { regex: "configure.(in|ac):[0-9]+: error: macro (.*) is not defined; is a m4 file missing\\?", callback: Callback::Make(Template::MissingAutoconfMacro { macro_name: Text::Group(2), need_rebuild: false }) }),
        Matcher::Regex(RegexLineMatcher { regex: "config.status: error: cannot find input file: `(.*)\\'", callback: Callback::Make(Template::MissingConfigStatusInput { path: Text::Group(1) }) }),
        Matcher::Regex(RegexLineMatcher { regex: "\\*\\*\\*Error\\*\\*\\*: You must have glib-gettext >= (.*) installed.*", callback: Callback::Make(Template::MissingGnomeCommonDependency { package: Text::Lit("glib-gettext"), minimum_version: Some(Text::Group(1)) }) }),
        Matcher::Regex(RegexLineMatcher { regex: "ERROR: JAVA_HOME is set to an invalid directory: /usr/lib/jvm/default-java/", callback: Callback::Kind("missing-jvm") }),
        Matcher::Regex(RegexLineMatcher { regex: "Error: The file \"MANIFEST\" is missing from this distribution\\. The MANIFEST lists all files included in the distribution\\.", callback: Callback::Kind("missing-perl-manifest") }),
        Matcher::Regex(RegexLineMatcher { regex: "dh_installdocs: --link-doc not allowed between (.*) and (.*) \\(one is arch:all and the other not\\)", callback: Callback::Nothing }),
        Matcher::Regex(RegexLineMatcher { regex: "dh: unable to load addon systemd: dh: The systemd-sequence is no longer provided in compat >= 11, please rely on dh_installsystemd instead", callback: Callback::Nothing }),
        Matcher::Regex(RegexLineMatcher { regex: "dh: The --before option is not supported any longer \\(#932537\\). Use override targets instead.", callback: Callback::Nothing }),
        Matcher::Regex(RegexLineMatcher { regex: "\\(.*\\): undefined reference to `(.*)'", callback: Callback::Nothing }),
        Matcher::Regex(RegexLineMatcher { regex: "(.*):([0-9]+): undefined reference to `(.*)'", callback: Callback::Nothing }),
        Matcher::Regex(RegexLineMatcher { regex: "(.*):([0-9]+): error: undefined reference to '(.*)'", callback: Callback::Nothing }),
        Matcher::Regex(RegexLineMatcher { regex: "\\/usr\\/bin\\/ld:(.*): multiple definition of `*.\\'; (.*): first defined here", callback: Callback::Nothing }),
        Matcher::Regex(RegexLineMatcher { regex: ".+\\.go:[0-9]+: undefined reference to `(.*)'", callback: Callback::Nothing }),
    ]
}

fn common_matchers_table_part15() -> (r: Vec<Matcher>)
    ensures
        r@ == common_matchers_part15(),
{
    let mut v: Vec<Matcher> = Vec::new();
    v.push(Matcher::Regex(RegexLineMatcher { regex: "It appears that Autotools is not correctly installed on this system.", callback: Callback::CommandNamed("autoconf") }));
    v.push(Matcher::Regex(RegexLineMatcher { regex: "\\*\\*\\* No autoreconf found \\*\\*\\*", callback: Callback::CommandNamed("autoreconf") }));
    v.push(Matcher::Regex(RegexLineMatcher { regex: "You need to install gnome-common module and make.*", callback: Callback::Kind("gnome-common-missing") }));
    v.push(Matcher::Regex(RegexLineMatcher { regex: "You need to install the gnome-common module and make.*", callback: Callback::Kind("gnome-common-missing") }));
    v.push(Matcher::Regex(RegexLineMatcher { regex: "You need to install gnome-common from the GNOME (git|CVS|SVN)", callback: Callback::Kind("gnome-common-missing") }));
    v.push(Matcher::Regex(RegexLineMatcher { regex: "automake: error: cannot open < (.*): No such file or directory", callback: Callback::Make(Template::MissingAutomakeInput { path: Text::Group(1) }) }));
    v.push(Matcher::Regex(RegexLineMatcher { regex: "configure(|\\.in|\\.ac):[0-9]+: error: possibly undefined macro: (.*)", callback: Callback::Make(Template::MissingAutoconfMacro { macro_name: Text::Group(2), need_rebuild: false }) }));
    v.push(Matcher::Regex(RegexLineMatcher { regex: "configure.(in|ac):[0-9]+: error: macro (.*) is not defined; is a m4 file missing\\?", callback: Callback::Make(Template::MissingAutoconfMacro { macro_name: Text::Group(2), need_rebuild: false }) }));
    v.push(Matcher::Regex(RegexLineMatcher { regex: "config.status: error: cannot find input file: `(.*)\\'", callback: Callback::Make(Template::MissingConfigStatusInput { path: Text::Group(1) }) }));
    v.push(Matcher::Regex(RegexLineMatcher { regex: "\\*\\*\\*Error\\*\\*\\*: You must have glib-gettext >= (.*) installed.*", callback: Callback::Make(Template::MissingGnomeCommonDependency { package: Text::Lit("glib-gettext"), minimum_version: Some(Text::Group(1)) }) }));
    v.push(Matcher::Regex(RegexLineMatcher { regex: "ERROR: JAVA_HOME is set to an invalid directory: /usr/lib/jvm/default-java/", callback: Callback::Kind("missing-jvm") }));
    v.push(Matcher::Regex(RegexLineMatcher { regex: "Error: The file \"MANIFEST\" is missing from this distribution\\. The MANIFEST lists all files included in the distribution\\.", callback: Callback::Kind("missing-perl-manifest") }));
    v.push(Matcher::Regex(RegexLineMatcher { regex: "dh_installdocs: --link-doc not allowed between (.*) and (.*) \\(one is arch:all and the other not\\)", callback: Callback::Nothing }));
    v.push(Matcher::Regex(RegexLineMatcher { regex: "dh: unable to load addon systemd: dh: The systemd-sequence is no longer provided in compat >= 11, please rely on dh_installsystemd instead", callback: Callback::Nothing }));
    v.push(Matcher::Regex(RegexLineMatcher { regex: "dh: The --before option is not supported any longer \\(#932537\\). Use override targets instead.", callback: Callback::Nothing }));
    v.push(Matcher::Regex(RegexLineMatcher { regex: "\\(.*\\): undefined reference to `(.*)'", callback: Callback::Nothing }));
    v.push(Matcher::Regex(RegexLineMatcher { regex: "(.*):([0-9]+): undefined reference to `(.*)'", callback: Callback::Nothing }));
    v.push(Matcher::Regex(RegexLineMatcher { regex: "(.*):([0-9]+): error: undefined reference to '(.*)'", callback: Callback::Nothing }));
    v.push(Matcher::Regex(RegexLineMatcher { regex: "\\/usr\\/bin\\/ld:(.*): multiple definition of `*.\\'; (.*): first defined here", callback: Callback::Nothing }));
    v.push(Matcher::Regex(RegexLineMatcher { regex: ".+\\.go:[0-9]+: undefined reference to `(.*)'", callback: Callback::Nothing }));
    assert(v@ =~= common_matchers_part15());
    v
}

/// Part 16 of the matchers for the lines of a build log.
pub open spec fn common_matchers_part16() -> Seq<Matcher> {
    seq![
        Matcher::Regex(RegexLineMatcher { regex: "ar: libdeps specified more than once", callback: Callback::Nothing }),
        Matcher::Regex(RegexLineMatcher { regex: "\\/usr\\/bin\\/ld: .*\\(.*\\):\\(.*\\): multiple definition of `*.\\'; (.*):\\((.*)\\) first defined here", callback: Callback::Nothing }),
        Matcher::Regex(RegexLineMatcher { regex: "\\/usr\\/bin\\/ld:(.*): multiple definition of `*.\\'; (.*):\\((.*)\\) first defined here", callback: Callback::Nothing }),
        Matcher::Regex(RegexLineMatcher { regex: "\\/usr\\/bin\\/ld: (.*): undefined reference to `(.*)\\'", callback: Callback::Nothing }),
        Matcher::Regex(RegexLineMatcher { regex: "\\/usr\\/bin\\/ld: (.*): undefined reference to symbol \\'(.*)\\'", callback: Callback::Nothing }),
        Matcher::Regex(RegexLineMatcher { regex: "\\/usr\\/bin\\/ld: (.*): relocation (.*) against symbol `(.*)\\' can not be used when making a shared object; recompile with -fPIC", callback: Callback::Nothing }),
        Matcher::Regex(RegexLineMatcher { regex: "(.*):([0-9]+): multiple definition of `(.*)'; (.*):([0-9]+): first defined here", callback: Callback::Nothing }),
        Matcher::Regex(RegexLineMatcher { regex: "(dh.*): debhelper compat level specified both in debian/compat and via build-dependency on debhelper-compat", callback: Callback::Make(Template::DuplicateDHCompatLevel { command: Text::Group(1) }) }),
        Matcher::Regex(RegexLineMatcher { regex: "(dh.*): (error: )?Please specify the compatibility level in debian/compat", callback: Callback::Make(Template::MissingDHCompatLevel { command: Text::Group(1) }) }),
        Matcher::Regex(RegexLineMatcher { regex: "dh_makeshlibs: The udeb (.*) does not contain any shared libraries but --add-udeb=(.*) was passed!?", callback: Callback::Nothing }),
        Matcher::Regex(RegexLineMatcher { regex: "dpkg-gensymbols: error: some symbols or patterns disappeared in the symbols file: see diff output below", callback: Callback::Kind("disappeared-symbols") }),
        Matcher::Regex(RegexLineMatcher { regex: "Failed to copy \\'(.*)\\': No such file or directory at /usr/share/dh-exec/dh-exec-install-rename line [0-9]+.*", callback: Callback::FileNotFound(1) }),
        Matcher::Regex(RegexLineMatcher { regex: "Invalid gemspec in \\[.*\\]: No such file or directory - (.*)", callback: Callback::CommandMissing(1) }),
        Matcher::Regex(RegexLineMatcher { regex: ".*meson.build:[0-9]+:[0-9]+: ERROR: Program\\(s\\) \\[\\'(.*)\\'\\] not found or not executable", callback: Callback::CommandMissing(1) }),
        Matcher::Regex(RegexLineMatcher { regex: ".*meson.build:[0-9]+:[0-9]: ERROR: Git program not found\\.", callback: Callback::CommandNamed("git") }),
        Matcher::Regex(RegexLineMatcher { regex: "Failed: [pytest] section in setup.cfg files is no longer supported, change to [tool:pytest] instead.", callback: Callback::Nothing }),
        Matcher::Regex(RegexLineMatcher { regex: "cp: cannot stat \\'(.*)\\': No such file or directory", callback: Callback::FileNotFound(1) }),
        Matcher::Regex(RegexLineMatcher { regex: "cp: \\'(.*)\\' and \\'(.*)\\' are the same file", callback: Callback::Nothing }),
        Matcher::Regex(RegexLineMatcher { regex: ".?PHP Fatal error: (.*)", callback: Callback::Nothing }),
        Matcher::Regex(RegexLineMatcher { regex: "sed: no input files", callback: Callback::Nothing }),
    ]
}

fn common_matchers_table_part16() -> (r: Vec<Matcher>)
    ensures
        r@ == common_matchers_part16(),
{
    let mut v: Vec<Matcher> = Vec::new();
    v.push(Matcher::Regex(RegexLineMatcher { regex: "ar: libdeps specified more than once", callback: Callback::Nothing }));
    v.push(Matcher::Regex(RegexLineMatcher { regex: "\\/usr\\/bin\\/ld: .*\\(.*\\):\\(.*\\): multiple definition of `*.\\'; (.*):\\((.*)\\) first defined here", callback: Callback::Nothing }));
    v.push(Matcher::Regex(RegexLineMatcher { regex: "\\/usr\\/bin\\/ld:(.*): multiple definition of `*.\\'; (.*):\\((.*)\\) first defined here", callback: Callback::Nothing }));
    v.push(Matcher::Regex(RegexLineMatcher { regex: "\\/usr\\/bin\\/ld: (.*): undefined reference to `(.*)\\'", callback: Callback::Nothing }));
    v.push(Matcher::Regex(RegexLineMatcher { regex: "\\/usr\\/bin\\/ld: (.*): undefined reference to symbol \\'(.*)\\'", callback: Callback::Nothing }));
    v.push(Matcher::Regex(RegexLineMatcher { regex: "\\/usr\\/bin\\/ld: (.*): relocation (.*) against symbol `(.*)\\' can not be used when making a shared object; recompile with -fPIC", callback: Callback::Nothing }));
    v.push(Matcher::Regex(RegexLineMatcher { regex: "(.*):([0-9]+): multiple definition of `(.*)'; (.*):([0-9]+): first defined here", callback: Callback::Nothing }));
    v.push(Matcher::Regex(RegexLineMatcher { regex: "(dh.*): debhelper compat level specified both in debian/compat and via build-dependency on debhelper-compat", callback: Callback::Make(Template::DuplicateDHCompatLevel { command: Text::Group(1) }) }));
    v.push(Matcher::Regex(RegexLineMatcher { regex: "(dh.*): (error: )?Please specify the compatibility level in debian/compat", callback: Callback::Make(Template::MissingDHCompatLevel { command: Text::Group(1) }) }));
    v.push(Matcher::Regex(RegexLineMatcher { regex: "dh_makeshlibs: The udeb (.*) does not contain any shared libraries but --add-udeb=(.*) was passed!?", callback: Callback::Nothing }));
    v.push(Matcher::Regex(RegexLineMatcher { regex: "dpkg-gensymbols: error: some symbols or patterns disappeared in the symbols file: see diff output below", callback: Callback::Kind("disappeared-symbols") }));
    v.push(Matcher::Regex(RegexLineMatcher { regex: "Failed to copy \\'(.*)\\': No such file or directory at /usr/share/dh-exec/dh-exec-install-rename line [0-9]+.*", callback: Callback::FileNotFound(1) }));
    v.push(Matcher::Regex(RegexLineMatcher { regex: "Invalid gemspec in \\[.*\\]: No such file or directory - (.*)", callback: Callback::CommandMissing(1) }));
    v.push(Matcher::Regex(RegexLineMatcher { regex: ".*meson.build:[0-9]+:[0-9]+: ERROR: Program\\(s\\) \\[\\'(.*)\\'\\] not found or not executable", callback: Callback::CommandMissing(1) }));
    v.push(Matcher::Regex(RegexLineMatcher { regex: ".*meson.build:[0-9]+:[0-9]: ERROR: Git program not found\\.", callback: Callback::CommandNamed("git") }));
    v.push(Matcher::Regex(RegexLineMatcher { regex: "Failed: [pytest] section in setup.cfg files is no longer supported, change to [tool:pytest] instead.", callback: Callback::Nothing }));
    v.push(Matcher::Regex(RegexLineMatcher { regex: "cp: cannot stat \\'(.*)\\': No such file or directory", callback: Callback::FileNotFound(1) }));
    v.push(Matcher::Regex(RegexLineMatcher { regex: "cp: \\'(.*)\\' and \\'(.*)\\' are the same file", callback: Callback::Nothing }));
    v.push(Matcher::Regex(RegexLineMatcher { regex: ".?PHP Fatal error: (.*)", callback: Callback::Nothing }));
    v.push(Matcher::Regex(RegexLineMatcher { regex: "sed: no input files", callback: Callback::Nothing }));
    assert(v@ =~= common_matchers_part16());
    v
}

/// Part 17 of the matchers for the lines of a build log.
pub open spec fn common_matchers_part17() -> Seq<Matcher> {
    seq![
        Matcher::Regex(RegexLineMatcher { regex: "sed: can\\'t read (.*): No such file or directory", callback: Callback::FileNotFound(1) }),
        Matcher::Regex(RegexLineMatcher { regex: "ERROR in Entry module not found: Error: Can\\'t resolve \\'(.*)\\' in \\'(.*)\\'", callback: Callback::WebpackFile(1, 2) }),
        Matcher::Regex(RegexLineMatcher { regex: ".*:([0-9]+): element include: XInclude error : could not load (.*), and no fallback was found", callback: Callback::Nothing }),
        Matcher::Regex(RegexLineMatcher { regex: "E: Child terminated by signal ‘Terminated’", callback: Callback::Kind("cancelled") }),
        Matcher::Regex(RegexLineMatcher { regex: "E: Caught signal ‘Terminated’", callback: Callback::Kind("cancelled") }),
        Matcher::Regex(RegexLineMatcher { regex: "E: Failed to execute “(.*)”: No such file or directory", callback: Callback::CommandMissing(1) }),
        Matcher::Regex(RegexLineMatcher { regex: "E ImportError: Bad (.*) executable(\\.?)", callback: Callback::CommandMissing(1) }),
        Matcher::Regex(RegexLineMatcher { regex: "E: The Debian version .* cannot be used as an ELPA version.", callback: Callback::Nothing }),
        Matcher::Regex(RegexLineMatcher { regex: "convert convert: Image pixel limit exceeded \\(see -limit Pixels\\) \\(-1\\).", callback: Callback::Nothing }),
        Matcher::Regex(RegexLineMatcher { regex: "convert convert: Improper image header \\(.*\\).", callback: Callback::Nothing }),
        Matcher::Regex(RegexLineMatcher { regex: "convert convert: invalid primitive argument \\([0-9]+\\).", callback: Callback::Nothing }),
        Matcher::Regex(RegexLineMatcher { regex: "convert convert: Unexpected end-of-file \\(\\)\\.", callback: Callback::Nothing }),
        Matcher::Regex(RegexLineMatcher { regex: "convert convert: Unrecognized option \\((.*)\\)\\.", callback: Callback::Nothing }),
        Matcher::Regex(RegexLineMatcher { regex: "convert convert: Unrecognized channel type \\((.*)\\)\\.", callback: Callback::Nothing }),
        Matcher::Regex(RegexLineMatcher { regex: "convert convert: Unable to read font \\((.*)\\) \\[No such file or directory\\].", callback: Callback::FileNotFound(1) }),
        Matcher::Regex(RegexLineMatcher { regex: "convert convert: Unable to open file (.*) \\[No such file or directory\\]\\.", callback: Callback::FileNotFound(1) }),
        Matcher::Regex(RegexLineMatcher { regex: "convert convert: No encode delegate for this image format \\((.*)\\) \\[No such file or directory\\].", callback: Callback::Make(Template::ImageMagickDelegateMissing { delegate: Text::Group(1) }) }),
        Matcher::Regex(RegexLineMatcher { regex: "ERROR: Sphinx requires at least Python (.*) to run.", callback: Callback::Nothing }),
        Matcher::Regex(RegexLineMatcher { regex: "Can\\'t find (.*) directory in (.*)", callback: Callback::Nothing }),
        Matcher::Regex(RegexLineMatcher { regex: "/bin/sh: [0-9]: cannot create (.*): Directory nonexistent", callback: Callback::Kind("local-directory-not-existing") }),
    ]
}

fn common_matchers_table_part17() -> (r: Vec<Matcher>)
    ensures
        r@ == common_matchers_part17(),
{
    let mut v: Vec<Matcher> = Vec::new();
    v.push(Matcher::Regex(RegexLineMatcher { regex: "sed: can\\'t read (.*): No such file or directory", callback: Callback::FileNotFound(1) }));
    v.push(Matcher::Regex(RegexLineMatcher { regex: "ERROR in Entry module not found: Error: Can\\'t resolve \\'(.*)\\' in \\'(.*)\\'", callback: Callback::WebpackFile(1, 2) }));
    v.push(Matcher::Regex(RegexLineMatcher { regex: ".*:([0-9]+): element include: XInclude error : could not load (.*), and no fallback was found", callback: Callback::Nothing }));
    v.push(Matcher::Regex(RegexLineMatcher { regex: "E: Child terminated by signal ‘Terminated’", callback: Callback::Kind("cancelled") }));
    v.push(Matcher::Regex(RegexLineMatcher { regex: "E: Caught signal ‘Terminated’", callback: Callback::Kind("cancelled") }));
    v.push(Matcher::Regex(RegexLineMatcher { regex: "E: Failed to execute “(.*)”: No such file or directory", callback: Callback::CommandMissing(1) }));
    v.push(Matcher::Regex(RegexLineMatcher { regex: "E ImportError: Bad (.*) executable(\\.?)", callback: Callback::CommandMissing(1) }));
    v.push(Matcher::Regex(RegexLineMatcher { regex: "E: The Debian version .* cannot be used as an ELPA version.", callback: Callback::Nothing }));
    v.push(Matcher::Regex(RegexLineMatcher { regex: "convert convert: Image pixel limit exceeded \\(see -limit Pixels\\) \\(-1\\).", callback: Callback::Nothing }));
    v.push(Matcher::Regex(RegexLineMatcher { regex: "convert convert: Improper image header \\(.*\\).", callback: Callback::Nothing }));
    v.push(Matcher::Regex(RegexLineMatcher { regex: "convert convert: invalid primitive argument \\([0-9]+\\).", callback: Callback::Nothing }));
    v.push(Matcher::Regex(RegexLineMatcher { regex: "convert convert: Unexpected end-of-file \\(\\)\\.", callback: Callback::Nothing }));
    v.push(Matcher::Regex(RegexLineMatcher { regex: "convert convert: Unrecognized option \\((.*)\\)\\.", callback: Callback::Nothing }));
    v.push(Matcher::Regex(RegexLineMatcher { regex: "convert convert: Unrecognized channel type \\((.*)\\)\\.", callback: Callback::Nothing }));
    v.push(Matcher::Regex(RegexLineMatcher { regex: "convert convert: Unable to read font \\((.*)\\) \\[No such file or directory\\].", callback: Callback::FileNotFound(1) }));
    v.push(Matcher::Regex(RegexLineMatcher { regex: "convert convert: Unable to open file (.*) \\[No such file or directory\\]\\.", callback: Callback::FileNotFound(1) }));
    v.push(Matcher::Regex(RegexLineMatcher { regex: "convert convert: No encode delegate for this image format \\((.*)\\) \\[No such file or directory\\].", callback: Callback::Make(Template::ImageMagickDelegateMissing { delegate: Text::Group(1) }) }));
    v.push(Matcher::Regex(RegexLineMatcher { regex: "ERROR: Sphinx requires at least Python (.*) to run.", callback: Callback::Nothing }));
    v.push(Matcher::Regex(RegexLineMatcher { regex: "Can\\'t find (.*) directory in (.*)", callback: Callback::Nothing }));
    v.push(Matcher::Regex(RegexLineMatcher { regex: "/bin/sh: [0-9]: cannot create (.*): Directory nonexistent", callback: Callback::Kind("local-directory-not-existing") }));
    assert(v@ =~= common_matchers_part17());
    v
}

/// Part 18 of the matchers for the lines of a build log.
pub open spec fn common_matchers_part18() -> Seq<Matcher> {
    seq![
        Matcher::Regex(RegexLineMatcher { regex: "dh: Unknown sequence (.*) \\(choose from: .*\\)", callback: Callback::Nothing }),
        Matcher::Regex(RegexLineMatcher { regex: ".*\\.vala:[0-9]+\\.[0-9]+-[0-9]+.[0-9]+: error: (.*)", callback: Callback::Nothing }),
        Matcher::Regex(RegexLineMatcher { regex: "error: Package `(.*)\\' not found in specified Vala API directories or GObject-Introspection GIR directories", callback: Callback::Make(Template::MissingValaPackage(Text::Group(1))) }),
        Matcher::Regex(RegexLineMatcher { regex: ".*.scala:[0-9]+: error: (.*)", callback: Callback::Nothing }),
        Matcher::Regex(RegexLineMatcher { regex: "error TS6053: File \\'(.*)\\' not found.", callback: Callback::FileNotFound(1) }),
        Matcher::Regex(RegexLineMatcher { regex: "Error \\[ERR_MODULE_NOT_FOUND\\]: Cannot find package '(.*)' imported from (.*)", callback: Callback::Make(Template::MissingNodePackage(Text::Group(1))) }),
        Matcher::Regex(RegexLineMatcher { regex: "\\s*Uncaught Error \\[ERR_MODULE_NOT_FOUND\\]: Cannot find package '(.*)' imported from (.*)", callback: Callback::Make(Template::MissingNodePackage(Text::Group(1))) }),
        Matcher::Regex(RegexLineMatcher { regex: "(.*\\.ts)\\([0-9]+,[0-9]+\\): error TS[0-9]+: (.*)", callback: Callback::Nothing }),
        Matcher::Regex(RegexLineMatcher { regex: "(.*.nim)\\([0-9]+, [0-9]+\\) Error: .*", callback: Callback::Nothing }),
        Matcher::Regex(RegexLineMatcher { regex: "dh_installinit: upstart jobs are no longer supported\\!  Please remove (.*) and check if you need to add a conffile removal", callback: Callback::Make(Template::UpstartFilePresent(Text::Group(1))) }),
        Matcher::Regex(RegexLineMatcher { regex: "dh_installinit: --no-restart-on-upgrade has been renamed to --no-stop-on-upgrade", callback: Callback::Nothing }),
        Matcher::Regex(RegexLineMatcher { regex: "find: paths must precede expression: .*", callback: Callback::Nothing }),
        Matcher::Regex(RegexLineMatcher { regex: "find: ‘(.*)’: No such file or directory", callback: Callback::FileNotFound(1) }),
        Matcher::Regex(RegexLineMatcher { regex: "ninja: fatal: posix_spawn: Argument list too long", callback: Callback::Nothing }),
        Matcher::Regex(RegexLineMatcher { regex: "ninja: fatal: chdir to '(.*)' - No such file or directory", callback: Callback::Make(Template::DirectoryNonExistant(Text::Group(1))) }),
        Matcher::Regex(RegexLineMatcher { regex: "error: Source option [0-9] is no longer supported. Use [0-9] or later.", callback: Callback::Nothing }),
        Matcher::Regex(RegexLineMatcher { regex: "(dh.*|jh_build): -s/--same-arch has been removed; please use -a/--arch instead", callback: Callback::Nothing }),
        Matcher::Regex(RegexLineMatcher { regex: "dh_systemd_start: dh_systemd_start is no longer used in compat >= 11, please use dh_installsystemd instead", callback: Callback::Nothing }),
        Matcher::Regex(RegexLineMatcher { regex: "Trying patch (.*) at level 1 \\.\\.\\. 0 \\.\\.\\. 2 \\.\\.\\. failure.", callback: Callback::Nothing }),
        Matcher::Regex(RegexLineMatcher { regex: "Project ERROR: (.*) development package not found", callback: Callback::PkgConfigMissing(1) }),
    ]
}

fn common_matchers_table_part18() -> (r: Vec<Matcher>)
    ensures
        r@ == common_matchers_part18(),
{
    let mut v: Vec<Matcher> = Vec::new();
    v.push(Matcher::Regex(RegexLineMatcher { regex: "dh: Unknown sequence (.*) \\(choose from: .*\\)", callback: Callback::Nothing }));
    v.push(Matcher::Regex(RegexLineMatcher { regex: ".*\\.vala:[0-9]+\\.[0-9]+-[0-9]+.[0-9]+: error: (.*)", callback: Callback::Nothing }));
    v.push(Matcher::Regex(RegexLineMatcher { regex: "error: Package `(.*)\\' not found in specified Vala API directories or GObject-Introspection GIR directories", callback: Callback::Make(Template::MissingValaPackage(Text::Group(1))) }));
    v.push(Matcher::Regex(RegexLineMatcher { regex: ".*.scala:[0-9]+: error: (.*)", callback: Callback::Nothing }));
    v.push(Matcher::Regex(RegexLineMatcher { regex: "error TS6053: File \\'(.*)\\' not found.", callback: Callback::FileNotFound(1) }));
    v.push(Matcher::Regex(RegexLineMatcher { regex: "Error \\[ERR_MODULE_NOT_FOUND\\]: Cannot find package '(.*)' imported from (.*)", callback: Callback::Make(Template::MissingNodePackage(Text::Group(1))) }));
    v.push(Matcher::Regex(RegexLineMatcher { regex: "\\s*Uncaught Error \\[ERR_MODULE_NOT_FOUND\\]: Cannot find package '(.*)' imported from (.*)", callback: Callback::Make(Template::MissingNodePackage(Text::Group(1))) }));
    v.push(Matcher::Regex(RegexLineMatcher { regex: "(.*\\.ts)\\([0-9]+,[0-9]+\\): error TS[0-9]+: (.*)", callback: Callback::Nothing }));
    v.push(Matcher::Regex(RegexLineMatcher { regex: "(.*.nim)\\([0-9]+, [0-9]+\\) Error: .*", callback: Callback::Nothing }));
    v.push(Matcher::Regex(RegexLineMatcher { regex: "dh_installinit: upstart jobs are no longer supported\\!  Please remove (.*) and check if you need to add a conffile removal", callback: Callback::Make(Template::UpstartFilePresent(Text::Group(1))) }));
    v.push(Matcher::Regex(RegexLineMatcher { regex: "dh_installinit: --no-restart-on-upgrade has been renamed to --no-stop-on-upgrade", callback: Callback::Nothing }));
    v.push(Matcher::Regex(RegexLineMatcher { regex: "find: paths must precede expression: .*", callback: Callback::Nothing }));
    v.push(Matcher::Regex(RegexLineMatcher { regex: "find: ‘(.*)’: No such file or directory", callback: Callback::FileNotFound(1) }));
    v.push(Matcher::Regex(RegexLineMatcher { regex: "ninja: fatal: posix_spawn: Argument list too long", callback: Callback::Nothing }));
    v.push(Matcher::Regex(RegexLineMatcher { regex: "ninja: fatal: chdir to '(.*)' - No such file or directory", callback: Callback::Make(Template::DirectoryNonExistant(Text::Group(1))) }));
    v.push(Matcher::Regex(RegexLineMatcher { regex: "error: Source option [0-9] is no longer supported. Use [0-9] or later.", callback: Callback::Nothing }));
    v.push(Matcher::Regex(RegexLineMatcher { regex: "(dh.*|jh_build): -s/--same-arch has been removed; please use -a/--arch instead", callback: Callback::Nothing }));
    v.push(Matcher::Regex(RegexLineMatcher { regex: "dh_systemd_start: dh_systemd_start is no longer used in compat >= 11, please use dh_installsystemd instead", callback: Callback::Nothing }));
    v.push(Matcher::Regex(RegexLineMatcher { regex: "Trying patch (.*) at level 1 \\.\\.\\. 0 \\.\\.\\. 2 \\.\\.\\. failure.", callback: Callback::Nothing }));
    v.push(Matcher::Regex(RegexLineMatcher { regex: "Project ERROR: (.*) development package not found", callback: Callback::PkgConfigMissing(1) }));
    assert(v@ =~= common_matchers_part18());
    v
}

/// Part 19 of the matchers for the lines of a build log.
pub open spec fn common_matchers_part19() -> Seq<Matcher> {
    seq![
        Matcher::Regex(RegexLineMatcher { regex: "Package \\'(.*)\\', required by \\'(.*)\\', not found\\n", callback: Callback::PkgConfigMissing(1) }),
        Matcher::Regex(RegexLineMatcher { regex: "pkg-config cannot find (.*)", callback: Callback::PkgConfigMissing(1) }),
        Matcher::Regex(RegexLineMatcher { regex: "configure: error: .* not found: Package dependency requirement \\'([^\\']+)\\' could not be satisfied.", callback: Callback::PkgConfigMissing(1) }),
        Matcher::Regex(RegexLineMatcher { regex: "configure: error: (.*) is required to build documentation", callback: Callback::VagueDependency(1) }),
        Matcher::Regex(RegexLineMatcher { regex: ".*:[0-9]+: (.*) does not exist.", callback: Callback::FileNotFound(1) }),
        Matcher::Regex(RegexLineMatcher { regex: "ERROR: can\\'t read file: (.*)", callback: Callback::FileNotFound(1) }),
        Matcher::Regex(RegexLineMatcher { regex: "jh_build: Cannot find \\(any matches for\\) \"(.*)\" \\(tried in .*\\)", callback: Callback::Nothing }),
        Matcher::Regex(RegexLineMatcher { regex: "--   Package \\'(.*)\\', required by \\'(.*)\\', not found", callback: Callback::Make(Template::MissingPkgConfig { module: Text::Group(1), minimum_version: None }) }),
        Matcher::Regex(RegexLineMatcher { regex: ".*.rb:[0-9]+:in `require_relative\\': cannot load such file -- (.*) \\(LoadError\\)", callback: Callback::Nothing }),
        Matcher::Regex(RegexLineMatcher { regex: "<internal:.*>:[0-9]+:in `require': cannot load such file -- (.*) \\(LoadError\\)", callback: Callback::Make(Template::MissingRubyFile { filename: Text::Group(1) }) }),
        Matcher::Regex(RegexLineMatcher { regex: ".*.rb:[0-9]+:in `require\\': cannot load such file -- (.*) \\(LoadError\\)", callback: Callback::Make(Template::MissingRubyFile { filename: Text::Group(1) }) }),
        Matcher::Regex(RegexLineMatcher { regex: "LoadError: cannot load such file -- (.*)", callback: Callback::Make(Template::MissingRubyFile { filename: Text::Group(1) }) }),
        Matcher::Regex(RegexLineMatcher { regex: "  cannot load such file -- (.*)", callback: Callback::Make(Template::MissingRubyFile { filename: Text::Group(1) }) }),
        Matcher::Regex(RegexLineMatcher { regex: "File does not exist: ([a-z/]+)$", callback: Callback::Make(Template::MissingRubyFile { filename: Text::Group(1) }) }),
        Matcher::Regex(RegexLineMatcher { regex: ".*:[0-9]+:in `do_check_dependencies\\': E: dependency resolution check requested but no working gemspec available \\(RuntimeError\\)", callback: Callback::Nothing }),
        Matcher::Regex(RegexLineMatcher { regex: "rm: cannot remove \\'(.*)\\': Is a directory", callback: Callback::Nothing }),
        Matcher::Regex(RegexLineMatcher { regex: "rm: cannot remove \\'(.*)\\': No such file or directory", callback: Callback::FileNotFound(1) }),
        Matcher::Regex(RegexLineMatcher { regex: "error: option .* not recognized", callback: Callback::Nothing }),
        Matcher::Regex(RegexLineMatcher { regex: "flag provided but not defined: .*", callback: Callback::Nothing }),
        Matcher::Regex(RegexLineMatcher { regex: "CMake Error: The source directory \"(.*)\" does not exist.", callback: Callback::Make(Template::DirectoryNonExistant(Text::Group(1))) }),
    ]
}

fn common_matchers_table_part19() -> (r: Vec<Matcher>)
    ensures
        r@ == common_matchers_part19(),
{
    let mut v: Vec<Matcher> = Vec::new();
    v.push(Matcher::Regex(RegexLineMatcher { regex: "Package \\'(.*)\\', required by \\'(.*)\\', not found\\n", callback: Callback::PkgConfigMissing(1) }));
    v.push(Matcher::Regex(RegexLineMatcher { regex: "pkg-config cannot find (.*)", callback: Callback::PkgConfigMissing(1) }));
    v.push(Matcher::Regex(RegexLineMatcher { regex: "configure: error: .* not found: Package dependency requirement \\'([^\\']+)\\' could not be satisfied.", callback: Callback::PkgConfigMissing(1) }));
    v.push(Matcher::Regex(RegexLineMatcher { regex: "configure: error: (.*) is required to build documentation", callback: Callback::VagueDependency(1) }));
    v.push(Matcher::Regex(RegexLineMatcher { regex: ".*:[0-9]+: (.*) does not exist.", callback: Callback::FileNotFound(1) }));
    v.push(Matcher::Regex(RegexLineMatcher { regex: "ERROR: can\\'t read file: (.*)", callback: Callback::FileNotFound(1) }));
    v.push(Matcher::Regex(RegexLineMatcher { regex: "jh_build: Cannot find \\(any matches for\\) \"(.*)\" \\(tried in .*\\)", callback: Callback::Nothing }));
    v.push(Matcher::Regex(RegexLineMatcher { regex: "--   Package \\'(.*)\\', required by \\'(.*)\\', not found", callback: Callback::Make(Template::MissingPkgConfig { module: Text::Group(1), minimum_version: None }) }));
    v.push(Matcher::Regex(RegexLineMatcher { regex: ".*.rb:[0-9]+:in `require_relative\\': cannot load such file -- (.*) \\(LoadError\\)", callback: Callback::Nothing }));
    v.push(Matcher::Regex(RegexLineMatcher { regex: "<internal:.*>:[0-9]+:in `require': cannot load such file -- (.*) \\(LoadError\\)", callback: Callback::Make(Template::MissingRubyFile { filename: Text::Group(1) }) }));
    v.push(Matcher::Regex(RegexLineMatcher { regex: ".*.rb:[0-9]+:in `require\\': cannot load such file -- (.*) \\(LoadError\\)", callback: Callback::Make(Template::MissingRubyFile { filename: Text::Group(1) }) }));
    v.push(Matcher::Regex(RegexLineMatcher { regex: "LoadError: cannot load such file -- (.*)", callback: Callback::Make(Template::MissingRubyFile { filename: Text::Group(1) }) }));
    v.push(Matcher::Regex(RegexLineMatcher { regex: "  cannot load such file -- (.*)", callback: Callback::Make(Template::MissingRubyFile { filename: Text::Group(1) }) }));
    v.push(Matcher::Regex(RegexLineMatcher { regex: "File does not exist: ([a-z/]+)$", callback: Callback::Make(Template::MissingRubyFile { filename: Text::Group(1) }) }));
    v.push(Matcher::Regex(RegexLineMatcher { regex: ".*:[0-9]+:in `do_check_dependencies\\': E: dependency resolution check requested but no working gemspec available \\(RuntimeError\\)", callback: Callback::Nothing }));
    v.push(Matcher::Regex(RegexLineMatcher { regex: "rm: cannot remove \\'(.*)\\': Is a directory", callback: Callback::Nothing }));
    v.push(Matcher::Regex(RegexLineMatcher { regex: "rm: cannot remove \\'(.*)\\': No such file or directory", callback: Callback::FileNotFound(1) }));
    v.push(Matcher::Regex(RegexLineMatcher { regex: "error: option .* not recognized", callback: Callback::Nothing }));
    v.push(Matcher::Regex(RegexLineMatcher { regex: "flag provided but not defined: .*", callback: Callback::Nothing }));
    v.push(Matcher::Regex(RegexLineMatcher { regex: "CMake Error: The source directory \"(.*)\" does not exist.", callback: Callback::Make(Template::DirectoryNonExistant(Text::Group(1))) }));
    assert(v@ =~= common_matchers_part19());
    v
}

/// Part 20 of the matchers for the lines of a build log.
pub open spec fn common_matchers_part20() -> Seq<Matcher> {
    seq![
        Matcher::Regex(RegexLineMatcher { regex: ".*: [0-9]+: cd: can\\'t cd to (.*)", callback: Callback::Make(Template::DirectoryNonExistant(Text::Group(1))) }),
        Matcher::Regex(RegexLineMatcher { regex: "/bin/sh: 0: Can\\'t open (.*)", callback: Callback::FileNotFoundMaybeExecutable(1) }),
        Matcher::Regex(RegexLineMatcher { regex: "/bin/sh: [0-9]+: cannot open (.*): No such file", callback: Callback::FileNotFoundMaybeExecutable(1) }),
        Matcher::Regex(RegexLineMatcher { regex: ".*: line [0-9]+: (.*): No such file or directory", callback: Callback::FileNotFoundMaybeExecutable(1) }),
        Matcher::Regex(RegexLineMatcher { regex: "/bin/sh: [0-9]+: Syntax error: .*", callback: Callback::Nothing }),
        Matcher::Regex(RegexLineMatcher { regex: "error: No member named \\$memberName", callback: Callback::Nothing }),
        Matcher::Regex(RegexLineMatcher { regex: "(?:/usr/bin/)?install: cannot create regular file \\'(.*)\\': Permission denied", callback: Callback::Nothing }),
        Matcher::Regex(RegexLineMatcher { regex: "(?:/usr/bin/)?install: cannot create directory .(.*).: File exists", callback: Callback::Nothing }),
        Matcher::Regex(RegexLineMatcher { regex: "/usr/bin/install: missing destination file operand after .*", callback: Callback::Nothing }),
        Matcher::Regex(RegexLineMatcher { regex: "rspec .*\\.rb:[0-9]+ # (.*)", callback: Callback::Nothing }),
        Matcher::Regex(RegexLineMatcher { regex: "Addendum (.*) does NOT apply to (.*) \\(translation discarded\\).", callback: Callback::Nothing }),
        Matcher::Regex(RegexLineMatcher { regex: "dh_installchangelogs: copy\\((.*), (.*)\\): No such file or directory", callback: Callback::FileNotFound(1) }),
        Matcher::Regex(RegexLineMatcher { regex: "dh_installman: mv (.*) (.*): No such file or directory", callback: Callback::FileNotFound(1) }),
        Matcher::Regex(RegexLineMatcher { regex: "dh_installman: Could not determine section for (.*)", callback: Callback::Nothing }),
        Matcher::Regex(RegexLineMatcher { regex: "failed to initialize build cache at (.*): mkdir (.*): permission denied", callback: Callback::Nothing }),
        Matcher::Regex(RegexLineMatcher { regex: "Can't exec \"(.*)\": No such file or directory at (.*) line ([0-9]+).", callback: Callback::CommandMissing(1) }),
        Matcher::Regex(RegexLineMatcher { regex: "E OSError: No command \"(.*)\" found on host .*", callback: Callback::CommandMissing(1) }),
        Matcher::Regex(RegexLineMatcher { regex: "Cannot open file \"(.*)\".", callback: Callback::FileNotFound(1) }),
        Matcher::Regex(RegexLineMatcher { regex: ".*Could not find a JavaScript runtime\\. See https://github.com/rails/execjs for a list of available runtimes\\..*", callback: Callback::Kind("missing-javascript-runtime") }),
        Matcher::PythonFileNotFoundError,
    ]
}

fn common_matchers_table_part20() -> (r: Vec<Matcher>)
    ensures
        r@ == common_matchers_part20(),
{
    let mut v: Vec<Matcher> = Vec::new();
    v.push(Matcher::Regex(RegexLineMatcher { regex: ".*: [0-9]+: cd: can\\'t cd to (.*)", callback: Callback::Make(Template::DirectoryNonExistant(Text::Group(1))) }));
    v.push(Matcher::Regex(RegexLineMatcher { regex: "/bin/sh: 0: Can\\'t open (.*)", callback: Callback::FileNotFoundMaybeExecutable(1) }));
    v.push(Matcher::Regex(RegexLineMatcher { regex: "/bin/sh: [0-9]+: cannot open (.*): No such file", callback: Callback::FileNotFoundMaybeExecutable(1) }));
    v.push(Matcher::Regex(RegexLineMatcher { regex: ".*: line [0-9]+: (.*): No such file or directory", callback: Callback::FileNotFoundMaybeExecutable(1) }));
    v.push(Matcher::Regex(RegexLineMatcher { regex: "/bin/sh: [0-9]+: Syntax error: .*", callback: Callback::Nothing }));
    v.push(Matcher::Regex(RegexLineMatcher { regex: "error: No member named \\$memberName", callback: Callback::Nothing }));
    v.push(Matcher::Regex(RegexLineMatcher { regex: "(?:/usr/bin/)?install: cannot create regular file \\'(.*)\\': Permission denied", callback: Callback::Nothing }));
    v.push(Matcher::Regex(RegexLineMatcher { regex: "(?:/usr/bin/)?install: cannot create directory .(.*).: File exists", callback: Callback::Nothing }));
    v.push(Matcher::Regex(RegexLineMatcher { regex: "/usr/bin/install: missing destination file operand after .*", callback: Callback::Nothing }));
    v.push(Matcher::Regex(RegexLineMatcher { regex: "rspec .*\\.rb:[0-9]+ # (.*)", callback: Callback::Nothing }));
    v.push(Matcher::Regex(RegexLineMatcher { regex: "Addendum (.*) does NOT apply to (.*) \\(translation discarded\\).", callback: Callback::Nothing }));
    v.push(Matcher::Regex(RegexLineMatcher { regex: "dh_installchangelogs: copy\\((.*), (.*)\\): No such file or directory", callback: Callback::FileNotFound(1) }));
    v.push(Matcher::Regex(RegexLineMatcher { regex: "dh_installman: mv (.*) (.*): No such file or directory", callback: Callback::FileNotFound(1) }));
    v.push(Matcher::Regex(RegexLineMatcher { regex: "dh_installman: Could not determine section for (.*)", callback: Callback::Nothing }));
    v.push(Matcher::Regex(RegexLineMatcher { regex: "failed to initialize build cache at (.*): mkdir (.*): permission denied", callback: Callback::Nothing }));
    v.push(Matcher::Regex(RegexLineMatcher { regex: "Can't exec \"(.*)\": No such file or directory at (.*) line ([0-9]+).", callback: Callback::CommandMissing(1) }));
    v.push(Matcher::Regex(RegexLineMatcher { regex: "E OSError: No command \"(.*)\" found on host .*", callback: Callback::CommandMissing(1) }));
    v.push(Matcher::Regex(RegexLineMatcher { regex: "Cannot open file \"(.*)\".", callback: Callback::FileNotFound(1) }));
    v.push(Matcher::Regex(RegexLineMatcher { regex: ".*Could not find a JavaScript runtime\\. See https://github.com/rails/execjs for a list of available runtimes\\..*", callback: Callback::Kind("missing-javascript-runtime") }));
    v.push(Matcher::PythonFileNotFoundError);
    assert(v@ =~= common_matchers_part20());
    v
}

/// Part 21 of the matchers for the lines of a build log.
pub open spec fn common_matchers_part21() -> Seq<Matcher> {
    seq![
        Matcher::Regex(RegexLineMatcher { regex: "Errno::ENOENT: No such file or directory - (.*)", callback: Callback::FileNotFound(1) }),
        Matcher::Regex(RegexLineMatcher { regex: "(.*.rb):[0-9]+:in `.*\\': .* \\(.*\\) ", callback: Callback::Nothing }),
        Matcher::Regex(RegexLineMatcher { regex: ".*: ENOENT: no such file or directory, open \\'(.*)\\'", callback: Callback::FileNotFound(1) }),
        Matcher::Regex(RegexLineMatcher { regex: "\\[Error: ENOENT: no such file or directory, stat \\'(.*)\\'\\] \\{", callback: Callback::FileNotFound(1) }),
        Matcher::Regex(RegexLineMatcher { regex: "(.*):[0-9]+: error: Libtool library used but \\'LIBTOOL\\' is undefined", callback: Callback::Kind("missing-libtool") }),
        Matcher::Regex(RegexLineMatcher { regex: "libtoolize:   error: \\'(.*)\\' does not exist.", callback: Callback::FileNotFound(1) }),
        Matcher::Regex(RegexLineMatcher { regex: "(OSError|RuntimeError): (.*) required but not found.", callback: Callback::VagueDependency(2) }),
        Matcher::Regex(RegexLineMatcher { regex: "RuntimeError: The (.*) executable cannot be found\\. Please check if it is in the system path\\.", callback: Callback::Make(Template::MissingCommand(Text::Lower(1))) }),
        Matcher::Regex(RegexLineMatcher { regex: ".*: [0-9]+: cannot open (.*): No such file", callback: Callback::FileNotFound(1) }),
        Matcher::Regex(RegexLineMatcher { regex: "Cannot find Git. Git is required for .*", callback: Callback::CommandNamed("git") }),
        Matcher::Regex(RegexLineMatcher { regex: "E ImportError: Bad (.*) executable\\.", callback: Callback::CommandGroup(1) }),
        Matcher::Regex(RegexLineMatcher { regex: "RuntimeError: (.*) is missing", callback: Callback::VagueDependency(1) }),
        Matcher::Regex(RegexLineMatcher { regex: "(OSError|RuntimeError): Could not find (.*) library\\..*", callback: Callback::Make(Template::MissingLibrary(Text::Group(2))) }),
        Matcher::Regex(RegexLineMatcher { regex: "(OSError|RuntimeError): We need package (.*), but not importable", callback: Callback::Make(Template::MissingPythonDistribution { distribution: Text::Group(2), python_version: None, minimum_version: None }) }),
        Matcher::Regex(RegexLineMatcher { regex: "(OSError|RuntimeError): No (.*) was found: .*", callback: Callback::VagueDependency(2) }),
        Matcher::Regex(RegexLineMatcher { regex: "(.*)meson.build:[0-9]+:[0-9]+: ERROR: Meson version is (.+) but project requires >=\\s*(.+)", callback: Callback::Make(Template::MissingVagueDependency { name: Text::Lit("meson"), url: None, minimum_version: Some(Text::TrimmedEnd(3, '.')), current_version: Some(Text::Group(2)) }) }),
        Matcher::Regex(RegexLineMatcher { regex: "ImportError: Numpy version (.*) or later must be installed to use .*", callback: Callback::Make(Template::MissingPythonModule { module: Text::Lit("numpy"), python_version: None, minimum_version: Some(Text::Group(1)) }) }),
        Matcher::Regex(RegexLineMatcher { regex: "\\w+Numpy is required to build.*", callback: Callback::Make(Template::MissingPythonModule { module: Text::Lit("numpy"), python_version: None, minimum_version: None }) }),
        Matcher::Regex(RegexLineMatcher { regex: "configure.ac:[0-9]+: error: required file \\'(.*)\\' not found", callback: Callback::FileNotFound(1) }),
        Matcher::Regex(RegexLineMatcher { regex: "/usr/bin/m4:(.*):([0-9]+): cannot open `(.*)\\': No such file or directory", callback: Callback::Make(Template::MissingFile { path: Text::Group(3) }) }),
    ]
}

fn common_matchers_table_part21() -> (r: Vec<Matcher>)
    ensures
        r@ == common_matchers_part21(),
{
    let mut v: Vec<Matcher> = Vec::new();
    v.push(Matcher::Regex(RegexLineMatcher { regex: "Errno::ENOENT: No such file or directory - (.*)", callback: Callback::FileNotFound(1) }));
    v.push(Matcher::Regex(RegexLineMatcher { regex: "(.*.rb):[0-9]+:in `.*\\': .* \\(.*\\) ", callback: Callback::Nothing }));
    v.push(Matcher::Regex(RegexLineMatcher { regex: ".*: ENOENT: no such file or directory, open \\'(.*)\\'", callback: Callback::FileNotFound(1) }));
    v.push(Matcher::Regex(RegexLineMatcher { regex: "\\[Error: ENOENT: no such file or directory, stat \\'(.*)\\'\\] \\{", callback: Callback::FileNotFound(1) }));
    v.push(Matcher::Regex(RegexLineMatcher { regex: "(.*):[0-9]+: error: Libtool library used but \\'LIBTOOL\\' is undefined", callback: Callback::Kind("missing-libtool") }));
    v.push(Matcher::Regex(RegexLineMatcher { regex: "libtoolize:   error: \\'(.*)\\' does not exist.", callback: Callback::FileNotFound(1) }));
    v.push(Matcher::Regex(RegexLineMatcher { regex: "(OSError|RuntimeError): (.*) required but not found.", callback: Callback::VagueDependency(2) }));
    v.push(Matcher::Regex(RegexLineMatcher { regex: "RuntimeError: The (.*) executable cannot be found\\. Please check if it is in the system path\\.", callback: Callback::Make(Template::MissingCommand(Text::Lower(1))) }));
    v.push(Matcher::Regex(RegexLineMatcher { regex: ".*: [0-9]+: cannot open (.*): No such file", callback: Callback::FileNotFound(1) }));
    v.push(Matcher::Regex(RegexLineMatcher { regex: "Cannot find Git. Git is required for .*", callback: Callback::CommandNamed("git") }));
    v.push(Matcher::Regex(RegexLineMatcher { regex: "E ImportError: Bad (.*) executable\\.", callback: Callback::CommandGroup(1) }));
    v.push(Matcher::Regex(RegexLineMatcher { regex: "RuntimeError: (.*) is missing", callback: Callback::VagueDependency(1) }));
    v.push(Matcher::Regex(RegexLineMatcher { regex: "(OSError|RuntimeError): Could not find (.*) library\\..*", callback: Callback::Make(Template::MissingLibrary(Text::Group(2))) }));
    v.push(Matcher::Regex(RegexLineMatcher { regex: "(OSError|RuntimeError): We need package (.*), but not importable", callback: Callback::Make(Template::MissingPythonDistribution { distribution: Text::Group(2), python_version: None, minimum_version: None }) }));
    v.push(Matcher::Regex(RegexLineMatcher { regex: "(OSError|RuntimeError): No (.*) was found: .*", callback: Callback::VagueDependency(2) }));
    v.push(Matcher::Regex(RegexLineMatcher { regex: "(.*)meson.build:[0-9]+:[0-9]+: ERROR: Meson version is (.+) but project requires >=\\s*(.+)", callback: Callback::Make(Template::MissingVagueDependency { name: Text::Lit("meson"), url: None, minimum_version: Some(Text::TrimmedEnd(3, '.')), current_version: Some(Text::Group(2)) }) }));
    v.push(Matcher::Regex(RegexLineMatcher { regex: "ImportError: Numpy version (.*) or later must be installed to use .*", callback: Callback::Make(Template::MissingPythonModule { module: Text::Lit("numpy"), python_version: None, minimum_version: Some(Text::Group(1)) }) }));
    v.push(Matcher::Regex(RegexLineMatcher { regex: "\\w+Numpy is required to build.*", callback: Callback::Make(Template::MissingPythonModule { module: Text::Lit("numpy"), python_version: None, minimum_version: None }) }));
    v.push(Matcher::Regex(RegexLineMatcher { regex: "configure.ac:[0-9]+: error: required file \\'(.*)\\' not found", callback: Callback::FileNotFound(1) }));
    v.push(Matcher::Regex(RegexLineMatcher { regex: "/usr/bin/m4:(.*):([0-9]+): cannot open `(.*)\\': No such file or directory", callback: Callback::Make(Template::MissingFile { path: Text::Group(3) }) }));
    assert(v@ =~= common_matchers_part21());
    v
}

/// Part 22 of the matchers for the lines of a build log.
pub open spec fn common_matchers_part22() -> Seq<Matcher> {
    seq![
        Matcher::Regex(RegexLineMatcher { regex: "Makefile.am: error: required file \\'(.*)\\' not found", callback: Callback::FileNotFound(1) }),
        Matcher::Regex(RegexLineMatcher { regex: "config directory doesn\\'t contain a conf.py file \\((.*)\\)", callback: Callback::Nothing }),
        Matcher::Regex(RegexLineMatcher { regex: "vcversioner: no VCS could be detected in \\'/<<PKGBUILDDIR>>\\' and \\'/<<PKGBUILDDIR>>/version.txt\\' isn\\'t present.", callback: Callback::Nothing }),
        Matcher::Regex(RegexLineMatcher { regex: "  InputError: \\[Errno 2\\] No such file or directory: \\'(.*)\\'", callback: Callback::FileNotFound(1) }),
        Matcher::Regex(RegexLineMatcher { regex: "gpg: can\\'t connect to the agent: File name too long", callback: Callback::Nothing }),
        Matcher::Regex(RegexLineMatcher { regex: "(.*.lua):[0-9]+: assertion failed", callback: Callback::Nothing }),
        Matcher::Regex(RegexLineMatcher { regex: "\\s+\\^\\-\\-\\-\\-\\^ SC[0-4][0-9][0-9][0-9]: .*", callback: Callback::Nothing }),
        Matcher::Regex(RegexLineMatcher { regex: "Error: (.*) needs updating from (.*)\\. Run \\'pg_buildext updatecontrol\\'.", callback: Callback::Make(Template::NeedPgBuildExtUpdateControl { generated_path: Text::Group(1), template_path: Text::Group(2) }) }),
        Matcher::Regex(RegexLineMatcher { regex: "Patch (.*) does not apply \\(enforce with -f\\)", callback: Callback::Make(Template::PatchApplicationFailed { patchname: Text::Group(1) }) }),
        Matcher::Regex(RegexLineMatcher { regex: "java.io.FileNotFoundException: ([^ ]+) \\(No such file or directory\\)", callback: Callback::FileNotFound(1) }),
        Matcher::Regex(RegexLineMatcher { regex: "INTERNALERROR> PluginValidationError: (.*)", callback: Callback::Nothing }),
        Matcher::Regex(RegexLineMatcher { regex: "[0-9]+ out of [0-9]+ hunks FAILED -- saving rejects to file (.*\\.rej)", callback: Callback::Nothing }),
        Matcher::Regex(RegexLineMatcher { regex: "pkg_resources.UnknownExtra: (.*) has no such extra feature \\'(.*)\\'", callback: Callback::Nothing }),
        Matcher::Regex(RegexLineMatcher { regex: "dh_auto_configure: invalid or non-existing path to the source directory: .*", callback: Callback::Nothing }),
        Matcher::Regex(RegexLineMatcher { regex: "(.*) is no longer a hard dependency since version (.*). Please install it manually.\\(pip install (.*)\\)", callback: Callback::Make(Template::MissingPythonModule { module: Text::Group(1), python_version: None, minimum_version: None }) }),
        Matcher::Regex(RegexLineMatcher { regex: "There is a syntax error in your configuration file: (.*)", callback: Callback::Nothing }),
        Matcher::Regex(RegexLineMatcher { regex: "E: The Debian version (.*) cannot be used as an ELPA version.", callback: Callback::Make(Template::DebianVersionRejected { version: Text::Group(1) }) }),
        Matcher::Regex(RegexLineMatcher { regex: "\"(.*)\" is not exported by the ExtUtils::MakeMaker module", callback: Callback::Nothing }),
        Matcher::Regex(RegexLineMatcher { regex: "E: Please add appropriate interpreter package to Build-Depends, see pybuild\\(1\\) for details\\..*", callback: Callback::Make(Template::DhAddonLoadFailure { name: Text::Lit("pybuild"), path: Text::Lit("Debian/Debhelper/Buildsystem/pybuild.pm") }) }),
        Matcher::Regex(RegexLineMatcher { regex: "dpkg: error: .*: No space left on device", callback: Callback::NoSpace }),
    ]
}

fn common_matchers_table_part22() -> (r: Vec<Matcher>)
    ensures
        r@ == common_matchers_part22(),
{
    let mut v: Vec<Matcher> = Vec::new();
    v.push(Matcher::Regex(RegexLineMatcher { regex: "Makefile.am: error: required file \\'(.*)\\' not found", callback: Callback::FileNotFound(1) }));
    v.push(Matcher::Regex(RegexLineMatcher { regex: "config directory doesn\\'t contain a conf.py file \\((.*)\\)", callback: Callback::Nothing }));
    v.push(Matcher::Regex(RegexLineMatcher { regex: "vcversioner: no VCS could be detected in \\'/<<PKGBUILDDIR>>\\' and \\'/<<PKGBUILDDIR>>/version.txt\\' isn\\'t present.", callback: Callback::Nothing }));
    v.push(Matcher::Regex(RegexLineMatcher { regex: "  InputError: \\[Errno 2\\] No such file or directory: \\'(.*)\\'", callback: Callback::FileNotFound(1) }));
    v.push(Matcher::Regex(RegexLineMatcher { regex: "gpg: can\\'t connect to the agent: File name too long", callback: Callback::Nothing }));
    v.push(Matcher::Regex(RegexLineMatcher { regex: "(.*.lua):[0-9]+: assertion failed", callback: Callback::Nothing }));
    v.push(Matcher::Regex(RegexLineMatcher { regex: "\\s+\\^\\-\\-\\-\\-\\^ SC[0-4][0-9][0-9][0-9]: .*", callback: Callback::Nothing }));
    v.push(Matcher::Regex(RegexLineMatcher { regex: "Error: (.*) needs updating from (.*)\\. Run \\'pg_buildext updatecontrol\\'.", callback: Callback::Make(Template::NeedPgBuildExtUpdateControl { generated_path: Text::Group(1), template_path: Text::Group(2) }) }));
    v.push(Matcher::Regex(RegexLineMatcher { regex: "Patch (.*) does not apply \\(enforce with -f\\)", callback: Callback::Make(Template::PatchApplicationFailed { patchname: Text::Group(1) }) }));
    v.push(Matcher::Regex(RegexLineMatcher { regex: "java.io.FileNotFoundException: ([^ ]+) \\(No such file or directory\\)", callback: Callback::FileNotFound(1) }));
    v.push(Matcher::Regex(RegexLineMatcher { regex: "INTERNALERROR> PluginValidationError: (.*)", callback: Callback::Nothing }));
    v.push(Matcher::Regex(RegexLineMatcher { regex: "[0-9]+ out of [0-9]+ hunks FAILED -- saving rejects to file (.*\\.rej)", callback: Callback::Nothing }));
    v.push(Matcher::Regex(RegexLineMatcher { regex: "pkg_resources.UnknownExtra: (.*) has no such extra feature \\'(.*)\\'", callback: Callback::Nothing }));
    v.push(Matcher::Regex(RegexLineMatcher { regex: "dh_auto_configure: invalid or non-existing path to the source directory: .*", callback: Callback::Nothing }));
    v.push(Matcher::Regex(RegexLineMatcher { regex: "(.*) is no longer a hard dependency since version (.*). Please install it manually.\\(pip install (.*)\\)", callback: Callback::Make(Template::MissingPythonModule { module: Text::Group(1), python_version: None, minimum_version: None }) }));
    v.push(Matcher::Regex(RegexLineMatcher { regex: "There is a syntax error in your configuration file: (.*)", callback: Callback::Nothing }));
    v.push(Matcher::Regex(RegexLineMatcher { regex: "E: The Debian version (.*) cannot be used as an ELPA version.", callback: Callback::Make(Template::DebianVersionRejected { version: Text::Group(1) }) }));
    v.push(Matcher::Regex(RegexLineMatcher { regex: "\"(.*)\" is not exported by the ExtUtils::MakeMaker module", callback: Callback::Nothing }));
    v.push(Matcher::Regex(RegexLineMatcher { regex: "E: Please add appropriate interpreter package to Build-Depends, see pybuild\\(1\\) for details\\..*", callback: Callback::Make(Template::DhAddonLoadFailure { name: Text::Lit("pybuild"), path: Text::Lit("Debian/Debhelper/Buildsystem/pybuild.pm") }) }));
    v.push(Matcher::Regex(RegexLineMatcher { regex: "dpkg: error: .*: No space left on device", callback: Callback::NoSpace }));
    assert(v@ =~= common_matchers_part22());
    v
}

/// Part 23 of the matchers for the lines of a build log.
pub open spec fn common_matchers_part23() -> Seq<Matcher> {
    seq![
        Matcher::Regex(RegexLineMatcher { regex: "You need the GNU readline library\\(ftp://ftp.gnu.org/gnu/readline/\\s+\\) to build", callback: Callback::Make(Template::MissingLibrary(Text::Lit("readline"))) }),
        Matcher::Regex(RegexLineMatcher { regex: "configure: error: Could not find lib(.*)", callback: Callback::Make(Template::MissingLibrary(Text::Group(1))) }),
        Matcher::Regex(RegexLineMatcher { regex: "    Could not find module ‘(.*)’", callback: Callback::Make(Template::MissingHaskellModule { module: Text::Group(1) }) }),
        Matcher::Regex(RegexLineMatcher { regex: "E: session: (.*): Chroot not found", callback: Callback::Make(Template::ChrootNotFound { chroot: Text::Group(1) }) }),
        Matcher::HaskellMissingDependency,
        Matcher::SetupPyCommandMissing,
        Matcher::CMakeError,
        Matcher::Regex(RegexLineMatcher { regex: "^Environment variable \\$SOURCE_DATE_EPOCH: No digits were found: $", callback: Callback::Nothing }),
        Matcher::Regex(RegexLineMatcher { regex: "\\[ERROR\\] LazyFont - Failed to read font file (.*) \\<java.io.FileNotFoundException: (.*) \\(No such file or directory\\)\\>java.io.FileNotFoundException: (.*) \\(No such file or directory\\)", callback: Callback::Make(Template::MissingFile { path: Text::Group(1) }) }),
        Matcher::Regex(RegexLineMatcher { regex: "qt.qpa.xcb: could not connect to display", callback: Callback::Kind("missing-x-display") }),
        Matcher::Regex(RegexLineMatcher { regex: "\\(.*:[0-9]+\\): Gtk-WARNING \\*\\*: [0-9]{2}:[0-9]{2}:[0-9]{2}\\.[0-9]{3}: cannot open display: ", callback: Callback::Kind("missing-x-display") }),
        Matcher::Regex(RegexLineMatcher { regex: "\\s*Package (.*) was not found in the pkg-config search path.", callback: Callback::Make(Template::MissingPkgConfig { module: Text::Group(1), minimum_version: None }) }),
        Matcher::Regex(RegexLineMatcher { regex: "Can't open display", callback: Callback::Kind("missing-x-display") }),
        Matcher::Regex(RegexLineMatcher { regex: "Can't open (.+): No such file or directory.*", callback: Callback::FileNotFound(1) }),
        Matcher::Regex(RegexLineMatcher { regex: "pkg-config does not know (.*) at .*\\.", callback: Callback::Make(Template::MissingPkgConfig { module: Text::Group(1), minimum_version: None }) }),
        Matcher::Regex(RegexLineMatcher { regex: "\\*\\*\\* Please install (.*) \\(atleast version (.*)\\) or adjust", callback: Callback::Make(Template::MissingPkgConfig { module: Text::Group(1), minimum_version: Some(Text::Group(2)) }) }),
        Matcher::Regex(RegexLineMatcher { regex: "go runtime is required: https://golang.org/doc/install", callback: Callback::Kind("missing-go-runtime") }),
        Matcher::Regex(RegexLineMatcher { regex: "\\%Error: '(.*)' must be installed to build", callback: Callback::CommandGroup(1) }),
        Matcher::Regex(RegexLineMatcher { regex: "configure: error: \"Could not find (.*) in PATH", callback: Callback::CommandGroup(1) }),
        Matcher::Regex(RegexLineMatcher { regex: "Could not find executable (.*)", callback: Callback::CommandGroup(1) }),
    ]
}

fn common_matchers_table_part23() -> (r: Vec<Matcher>)
    ensures
        r@ == common_matchers_part23(),
{
    let mut v: Vec<Matcher> = Vec::new();
    v.push(Matcher::Regex(RegexLineMatcher { regex: "You need the GNU readline library\\(ftp://ftp.gnu.org/gnu/readline/\\s+\\) to build", callback: Callback::Make(Template::MissingLibrary(Text::Lit("readline"))) }));
    v.push(Matcher::Regex(RegexLineMatcher { regex: "configure: error: Could not find lib(.*)", callback: Callback::Make(Template::MissingLibrary(Text::Group(1))) }));
    v.push(Matcher::Regex(RegexLineMatcher { regex: "    Could not find module ‘(.*)’", callback: Callback::Make(Template::MissingHaskellModule { module: Text::Group(1) }) }));
    v.push(Matcher::Regex(RegexLineMatcher { regex: "E: session: (.*): Chroot not found", callback: Callback::Make(Template::ChrootNotFound { chroot: Text::Group(1) }) }));
    v.push(Matcher::HaskellMissingDependency);
    v.push(Matcher::SetupPyCommandMissing);
    v.push(Matcher::CMakeError);
    v.push(Matcher::Regex(RegexLineMatcher { regex: "^Environment variable \\$SOURCE_DATE_EPOCH: No digits were found: $", callback: Callback::Nothing }));
    v.push(Matcher::Regex(RegexLineMatcher { regex: "\\[ERROR\\] LazyFont - Failed to read font file (.*) \\<java.io.FileNotFoundException: (.*) \\(No such file or directory\\)\\>java.io.FileNotFoundException: (.*) \\(No such file or directory\\)", callback: Callback::Make(Template::MissingFile { path: Text::Group(1) }) }));
    v.push(Matcher::Regex(RegexLineMatcher { regex: "qt.qpa.xcb: could not connect to display", callback: Callback::Kind("missing-x-display") }));
    v.push(Matcher::Regex(RegexLineMatcher { regex: "\\(.*:[0-9]+\\): Gtk-WARNING \\*\\*: [0-9]{2}:[0-9]{2}:[0-9]{2}\\.[0-9]{3}: cannot open display: ", callback: Callback::Kind("missing-x-display") }));
    v.push(Matcher::Regex(RegexLineMatcher { regex: "\\s*Package (.*) was not found in the pkg-config search path.", callback: Callback::Make(Template::MissingPkgConfig { module: Text::Group(1), minimum_version: None }) }));
    v.push(Matcher::Regex(RegexLineMatcher { regex: "Can't open display", callback: Callback::Kind("missing-x-display") }));
    v.push(Matcher::Regex(RegexLineMatcher { regex: "Can't open (.+): No such file or directory.*", callback: Callback::FileNotFound(1) }));
    v.push(Matcher::Regex(RegexLineMatcher { regex: "pkg-config does not know (.*) at .*\\.", callback: Callback::Make(Template::MissingPkgConfig { module: Text::Group(1), minimum_version: None }) }));
    v.push(Matcher::Regex(RegexLineMatcher { regex: "\\*\\*\\* Please install (.*) \\(atleast version (.*)\\) or adjust", callback: Callback::Make(Template::MissingPkgConfig { module: Text::Group(1), minimum_version: Some(Text::Group(2)) }) }));
    v.push(Matcher::Regex(RegexLineMatcher { regex: "go runtime is required: https://golang.org/doc/install", callback: Callback::Kind("missing-go-runtime") }));
    v.push(Matcher::Regex(RegexLineMatcher { regex: "\\%Error: '(.*)' must be installed to build", callback: Callback::CommandGroup(1) }));
    v.push(Matcher::Regex(RegexLineMatcher { regex: "configure: error: \"Could not find (.*) in PATH", callback: Callback::CommandGroup(1) }));
    v.push(Matcher::Regex(RegexLineMatcher { regex: "Could not find executable (.*)", callback: Callback::CommandGroup(1) }));
    assert(v@ =~= common_matchers_part23());
    v
}

/// Part 24 of the matchers for the lines of a build log.
pub open spec fn common_matchers_part24() -> Seq<Matcher> {
    seq![
        Matcher::Regex(RegexLineMatcher { regex: "go: .*: Get \\\"(.*)\\\": x509: certificate signed by unknown authority", callback: Callback::Make(Template::UnknownCertificateAuthority(Text::Group(1))) }),
        Matcher::Regex(RegexLineMatcher { regex: ".*.go:[0-9]+:[0-9]+: .*: Get \\\"(.*)\\\": x509: certificate signed by unknown authority", callback: Callback::Make(Template::UnknownCertificateAuthority(Text::Group(1))) }),
        Matcher::Regex(RegexLineMatcher { regex: "fatal: unable to access '(.*)': server certificate verification failed. CAfile: none CRLfile: none", callback: Callback::Make(Template::UnknownCertificateAuthority(Text::Group(1))) }),
        Matcher::Regex(RegexLineMatcher { regex: "curl: \\(77\\) error setting certificate verify locations:  CAfile: (.*) CApath: (.*)", callback: Callback::Make(Template::MissingFile { path: Text::Group(1) }) }),
        Matcher::Regex(RegexLineMatcher { regex: "\\t\\(Do you need to predeclare (.*)\\?\\)", callback: Callback::Make(Template::MissingPerlPredeclared(Text::Group(1))) }),
        Matcher::Regex(RegexLineMatcher { regex: "Bareword \\\"(.*)\\\" not allowed while \\\"strict subs\\\" in use at Makefile.PL line ([0-9]+).", callback: Callback::Make(Template::MissingPerlPredeclared(Text::Group(1))) }),
        Matcher::Regex(RegexLineMatcher { regex: "String found where operator expected at Makefile.PL line ([0-9]+), near \"([a-z0-9_]+).*\"", callback: Callback::Make(Template::MissingPerlPredeclared(Text::Group(2))) }),
        Matcher::Regex(RegexLineMatcher { regex: "  vignette builder 'knitr' not found", callback: Callback::Make(Template::MissingRPackage { package: Text::Lit("knitr"), minimum_version: None }) }),
        Matcher::Regex(RegexLineMatcher { regex: "fatal: unable to auto-detect email address \\(got \\'.*\\'\\)", callback: Callback::Kind("missing-git-identity") }),
        Matcher::Regex(RegexLineMatcher { regex: "E       fatal: unable to auto-detect email address \\(got \\'.*\\'\\)", callback: Callback::Kind("missing-git-identity") }),
        Matcher::Regex(RegexLineMatcher { regex: "gpg: no default secret key: No secret key", callback: Callback::Kind("missing-secret-gpg-key") }),
        Matcher::Regex(RegexLineMatcher { regex: "ERROR: FAILED--Further testing stopped: Test requires module \\'(.*)\\' but it\\'s not found", callback: Callback::Make(Template::MissingPerlModule { module: Text::Group(1), filename: None, inc: None, minimum_version: None }) }),
        Matcher::Regex(RegexLineMatcher { regex: "(subprocess.CalledProcessError|error): Command \\'\\[\\'/usr/bin/python([0-9.]*)\\', \\'-m\\', \\'pip\\', \\'--disable-pip-version-check\\', \\'wheel\\', \\'--no-deps\\', \\'-w\\', .*, \\'([^-][^\\']+)\\'\\]\\' returned non-zero exit status 1.", callback: Callback::PythonDistribution(3, Some(2)) }),
        Matcher::Regex(RegexLineMatcher { regex: "vcversioner: \\[\\'git\\', .*, \\'describe\\', \\'--tags\\', \\'--long\\'\\] failed and \\'(.*)/version.txt\\' isn\\'t present\\.", callback: Callback::Kind("missing-vcversioner-version") }),
        Matcher::Regex(RegexLineMatcher { regex: "vcversioner: no VCS could be detected in '(.*)' and '(.*)/version.txt' isn't present\\.", callback: Callback::Kind("missing-vcversioner-version") }),
        Matcher::Regex(RegexLineMatcher { regex: "You don't have a working TeX binary \\(tex\\) installed anywhere in", callback: Callback::CommandNamed("tex") }),
        Matcher::Regex(RegexLineMatcher { regex: "# Module \\'(.*)\\' is not installed", callback: Callback::Make(Template::MissingPerlModule { module: Text::Group(1), filename: None, inc: None, minimum_version: None }) }),
        Matcher::Regex(RegexLineMatcher { regex: "Base class package \"(.*)\" is empty.", callback: Callback::Make(Template::MissingPerlModule { module: Text::Group(1), filename: None, inc: None, minimum_version: None }) }),
        Matcher::Regex(RegexLineMatcher { regex: "    \\!  (.*::.*) is not installed", callback: Callback::Make(Template::MissingPerlModule { module: Text::Group(1), filename: None, inc: None, minimum_version: None }) }),
        Matcher::Regex(RegexLineMatcher { regex: "Cannot find (.*) in @INC at (.*) line ([0-9]+)\\.", callback: Callback::Make(Template::MissingPerlModule { module: Text::Group(1), filename: None, inc: None, minimum_version: None }) }),
    ]
}

fn common_matchers_table_part24() -> (r: Vec<Matcher>)
    ensures
        r@ == common_matchers_part24(),
{
    let mut v: Vec<Matcher> = Vec::new();
    v.push(Matcher::Regex(RegexLineMatcher { regex: "go: .*: Get \\\"(.*)\\\": x509: certificate signed by unknown authority", callback: Callback::Make(Template::UnknownCertificateAuthority(Text::Group(1))) }));
    v.push(Matcher::Regex(RegexLineMatcher { regex: ".*.go:[0-9]+:[0-9]+: .*: Get \\\"(.*)\\\": x509: certificate signed by unknown authority", callback: Callback::Make(Template::UnknownCertificateAuthority(Text::Group(1))) }));
    v.push(Matcher::Regex(RegexLineMatcher { regex: "fatal: unable to access '(.*)': server certificate verification failed. CAfile: none CRLfile: none", callback: Callback::Make(Template::UnknownCertificateAuthority(Text::Group(1))) }));
    v.push(Matcher::Regex(RegexLineMatcher { regex: "curl: \\(77\\) error setting certificate verify locations:  CAfile: (.*) CApath: (.*)", callback: Callback::Make(Template::MissingFile { path: Text::Group(1) }) }));
    v.push(Matcher::Regex(RegexLineMatcher { regex: "\\t\\(Do you need to predeclare (.*)\\?\\)", callback: Callback::Make(Template::MissingPerlPredeclared(Text::Group(1))) }));
    v.push(Matcher::Regex(RegexLineMatcher { regex: "Bareword \\\"(.*)\\\" not allowed while \\\"strict subs\\\" in use at Makefile.PL line ([0-9]+).", callback: Callback::Make(Template::MissingPerlPredeclared(Text::Group(1))) }));
    v.push(Matcher::Regex(RegexLineMatcher { regex: "String found where operator expected at Makefile.PL line ([0-9]+), near \"([a-z0-9_]+).*\"", callback: Callback::Make(Template::MissingPerlPredeclared(Text::Group(2))) }));
    v.push(Matcher::Regex(RegexLineMatcher { regex: "  vignette builder 'knitr' not found", callback: Callback::Make(Template::MissingRPackage { package: Text::Lit("knitr"), minimum_version: None }) }));
    v.push(Matcher::Regex(RegexLineMatcher { regex: "fatal: unable to auto-detect email address \\(got \\'.*\\'\\)", callback: Callback::Kind("missing-git-identity") }));
    v.push(Matcher::Regex(RegexLineMatcher { regex: "E       fatal: unable to auto-detect email address \\(got \\'.*\\'\\)", callback: Callback::Kind("missing-git-identity") }));
    v.push(Matcher::Regex(RegexLineMatcher { regex: "gpg: no default secret key: No secret key", callback: Callback::Kind("missing-secret-gpg-key") }));
    v.push(Matcher::Regex(RegexLineMatcher { regex: "ERROR: FAILED--Further testing stopped: Test requires module \\'(.*)\\' but it\\'s not found", callback: Callback::Make(Template::MissingPerlModule { module: Text::Group(1), filename: None, inc: None, minimum_version: None }) }));
    v.push(Matcher::Regex(RegexLineMatcher { regex: "(subprocess.CalledProcessError|error): Command \\'\\[\\'/usr/bin/python([0-9.]*)\\', \\'-m\\', \\'pip\\', \\'--disable-pip-version-check\\', \\'wheel\\', \\'--no-deps\\', \\'-w\\', .*, \\'([^-][^\\']+)\\'\\]\\' returned non-zero exit status 1.", callback: Callback::PythonDistribution(3, Some(2)) }));
    v.push(Matcher::Regex(RegexLineMatcher { regex: "vcversioner: \\[\\'git\\', .*, \\'describe\\', \\'--tags\\', \\'--long\\'\\] failed and \\'(.*)/version.txt\\' isn\\'t present\\.", callback: Callback::Kind("missing-vcversioner-version") }));
    v.push(Matcher::Regex(RegexLineMatcher { regex: "vcversioner: no VCS could be detected in '(.*)' and '(.*)/version.txt' isn't present\\.", callback: Callback::Kind("missing-vcversioner-version") }));
    v.push(Matcher::Regex(RegexLineMatcher { regex: "You don't have a working TeX binary \\(tex\\) installed anywhere in", callback: Callback::CommandNamed("tex") }));
    v.push(Matcher::Regex(RegexLineMatcher { regex: "# Module \\'(.*)\\' is not installed", callback: Callback::Make(Template::MissingPerlModule { module: Text::Group(1), filename: None, inc: None, minimum_version: None }) }));
    v.push(Matcher::Regex(RegexLineMatcher { regex: "Base class package \"(.*)\" is empty.", callback: Callback::Make(Template::MissingPerlModule { module: Text::Group(1), filename: None, inc: None, minimum_version: None }) }));
    v.push(Matcher::Regex(RegexLineMatcher { regex: "    \\!  (.*::.*) is not installed", callback: Callback::Make(Template::MissingPerlModule { module: Text::Group(1), filename: None, inc: None, minimum_version: None }) }));
    v.push(Matcher::Regex(RegexLineMatcher { regex: "Cannot find (.*) in @INC at (.*) line ([0-9]+)\\.", callback: Callback::Make(Template::MissingPerlModule { module: Text::Group(1), filename: None, inc: None, minimum_version: None }) }));
    assert(v@ =~= common_matchers_part24());
    v
}

/// Part 25 of the matchers for the lines of a build log.
pub open spec fn common_matchers_part25() -> Seq<Matcher> {
    seq![
        Matcher::Regex(RegexLineMatcher { regex: "(.*::.*) (.*) is required to configure our .* dependency, please install it manually or upgrade your CPAN/CPANPLUS", callback: Callback::Make(Template::MissingPerlModule { module: Text::Group(1), filename: None, inc: None, minimum_version: None }) }),
        Matcher::Regex(RegexLineMatcher { regex: "configure: error: Missing lib(.*)\\.", callback: Callback::Make(Template::MissingLibrary(Text::Group(1))) }),
        Matcher::Regex(RegexLineMatcher { regex: "OSError: (.*): cannot open shared object file: No such file or directory", callback: Callback::Make(Template::MissingFile { path: Text::Group(1) }) }),
        Matcher::Regex(RegexLineMatcher { regex: "The \"(.*)\" executable has not been found\\.", callback: Callback::CommandGroup(1) }),
        Matcher::Regex(RegexLineMatcher { regex: "  '\\! LaTeX Error: File `(.*)' not found.'", callback: Callback::Make(Template::MissingLatexFile(Text::Group(1))) }),
        Matcher::Regex(RegexLineMatcher { regex: "\\! LaTeX Error: File `(.*)\\' not found\\.", callback: Callback::Make(Template::MissingLatexFile(Text::Group(1))) }),
        Matcher::Regex(RegexLineMatcher { regex: "(\\!|.*:[0-9]+:) Package fontspec Error: The font \\\"(.*)\\\" cannot be found\\.", callback: Callback::Make(Template::MissingFontspec(Text::Group(2))) }),
        Matcher::Regex(RegexLineMatcher { regex: "  vignette builder \\'(.*)\\' not found", callback: Callback::RPackage(1) }),
        Matcher::Regex(RegexLineMatcher { regex: "Error: package [‘'](.*)[’'] (.*) was found, but >= (.*) is required by [‘'](.*)[’']", callback: Callback::Make(Template::MissingRPackage { package: Text::Group(1), minimum_version: Some(Text::Group(3)) }) }),
        Matcher::Regex(RegexLineMatcher { regex: "\\s*there is no package called \\'(.*)\\'", callback: Callback::RPackage(1) }),
        Matcher::Regex(RegexLineMatcher { regex: "Error in .*: there is no package called ‘(.*)’", callback: Callback::RPackage(1) }),
        Matcher::Regex(RegexLineMatcher { regex: "Exception: cannot execute command due to missing interpreter: (.*)", callback: Callback::CommandMissing(1) }),
        Matcher::Regex(RegexLineMatcher { regex: "E: Build killed with signal TERM after ([0-9]+) minutes of inactivity", callback: Callback::Kind("inactive-killed") }),
        Matcher::Regex(RegexLineMatcher { regex: "\\[.*Authority\\] PAUSE credentials not found in \"config.ini\" or \"dist.ini\" or \"~/.pause\"\\! Please set it or specify an authority for this plugin. at inline delegation in Dist::Zilla::Plugin::Authority for logger->log_fatal \\(attribute declared in /usr/share/perl5/Dist/Zilla/Role/Plugin.pm at line [0-9]+\\) line [0-9]+\\.", callback: Callback::Kind("missing-pause-credentials") }),
        Matcher::Regex(RegexLineMatcher { regex: "npm ERR\\! ERROR: \\[Errno 2\\] No such file or directory: \\'(.*)\\'", callback: Callback::FileNotFound(1) }),
        Matcher::Regex(RegexLineMatcher { regex: "\\*\\*\\* error: gettext infrastructure mismatch: using a Makefile\\.in\\.in from gettext version ([0-9.]+) but the autoconf macros are from gettext version ([0-9.]+)", callback: Callback::Make(Template::MismatchGettextVersions { makefile_version: Text::Group(1), autoconf_version: Text::Group(2) }) }),
        Matcher::Regex(RegexLineMatcher { regex: "You need to install the (.*) package to use this program\\.", callback: Callback::VagueDependency(1) }),
        Matcher::Regex(RegexLineMatcher { regex: "You need to install (.*)", callback: Callback::VagueDependency(1) }),
        Matcher::Regex(RegexLineMatcher { regex: "configure: error: You don't seem to have the (.*) library installed\\..*", callback: Callback::VagueDependency(1) }),
        Matcher::Regex(RegexLineMatcher { regex: "configure: error: You need (.*) installed", callback: Callback::VagueDependency(1) }),
    ]
}

fn common_matchers_table_part25() -> (r: Vec<Matcher>)
    ensures
        r@ == common_matchers_part25(),
{
    let mut v: Vec<Matcher> = Vec::new();
    v.push(Matcher::Regex(RegexLineMatcher { regex: "(.*::.*) (.*) is required to configure our .* dependency, please install it manually or upgrade your CPAN/CPANPLUS", callback: Callback::Make(Template::MissingPerlModule { module: Text::Group(1), filename: None, inc: None, minimum_version: None }) }));
    v.push(Matcher::Regex(RegexLineMatcher { regex: "configure: error: Missing lib(.*)\\.", callback: Callback::Make(Template::MissingLibrary(Text::Group(1))) }));
    v.push(Matcher::Regex(RegexLineMatcher { regex: "OSError: (.*): cannot open shared object file: No such file or directory", callback: Callback::Make(Template::MissingFile { path: Text::Group(1) }) }));
    v.push(Matcher::Regex(RegexLineMatcher { regex: "The \"(.*)\" executable has not been found\\.", callback: Callback::CommandGroup(1) }));
    v.push(Matcher::Regex(RegexLineMatcher { regex: "  '\\! LaTeX Error: File `(.*)' not found.'", callback: Callback::Make(Template::MissingLatexFile(Text::Group(1))) }));
    v.push(Matcher::Regex(RegexLineMatcher { regex: "\\! LaTeX Error: File `(.*)\\' not found\\.", callback: Callback::Make(Template::MissingLatexFile(Text::Group(1))) }));
    v.push(Matcher::Regex(RegexLineMatcher { regex: "(\\!|.*:[0-9]+:) Package fontspec Error: The font \\\"(.*)\\\" cannot be found\\.", callback: Callback::Make(Template::MissingFontspec(Text::Group(2))) }));
    v.push(Matcher::Regex(RegexLineMatcher { regex: "  vignette builder \\'(.*)\\' not found", callback: Callback::RPackage(1) }));
    v.push(Matcher::Regex(RegexLineMatcher { regex: "Error: package [‘'](.*)[’'] (.*) was found, but >= (.*) is required by [‘'](.*)[’']", callback: Callback::Make(Template::MissingRPackage { package: Text::Group(1), minimum_version: Some(Text::Group(3)) }) }));
    v.push(Matcher::Regex(RegexLineMatcher { regex: "\\s*there is no package called \\'(.*)\\'", callback: Callback::RPackage(1) }));
    v.push(Matcher::Regex(RegexLineMatcher { regex: "Error in .*: there is no package called ‘(.*)’", callback: Callback::RPackage(1) }));
    v.push(Matcher::Regex(RegexLineMatcher { regex: "Exception: cannot execute command due to missing interpreter: (.*)", callback: Callback::CommandMissing(1) }));
    v.push(Matcher::Regex(RegexLineMatcher { regex: "E: Build killed with signal TERM after ([0-9]+) minutes of inactivity", callback: Callback::Kind("inactive-killed") }));
    v.push(Matcher::Regex(RegexLineMatcher { regex: "\\[.*Authority\\] PAUSE credentials not found in \"config.ini\" or \"dist.ini\" or \"~/.pause\"\\! Please set it or specify an authority for this plugin. at inline delegation in Dist::Zilla::Plugin::Authority for logger->log_fatal \\(attribute declared in /usr/share/perl5/Dist/Zilla/Role/Plugin.pm at line [0-9]+\\) line [0-9]+\\.", callback: Callback::Kind("missing-pause-credentials") }));
    v.push(Matcher::Regex(RegexLineMatcher { regex: "npm ERR\\! ERROR: \\[Errno 2\\] No such file or directory: \\'(.*)\\'", callback: Callback::FileNotFound(1) }));
    v.push(Matcher::Regex(RegexLineMatcher { regex: "\\*\\*\\* error: gettext infrastructure mismatch: using a Makefile\\.in\\.in from gettext version ([0-9.]+) but the autoconf macros are from gettext version ([0-9.]+)", callback: Callback::Make(Template::MismatchGettextVersions { makefile_version: Text::Group(1), autoconf_version: Text::Group(2) }) }));
    v.push(Matcher::Regex(RegexLineMatcher { regex: "You need to install the (.*) package to use this program\\.", callback: Callback::VagueDependency(1) }));
    v.push(Matcher::Regex(RegexLineMatcher { regex: "You need to install (.*)", callback: Callback::VagueDependency(1) }));
    v.push(Matcher::Regex(RegexLineMatcher { regex: "configure: error: You don't seem to have the (.*) library installed\\..*", callback: Callback::VagueDependency(1) }));
    v.push(Matcher::Regex(RegexLineMatcher { regex: "configure: error: You need (.*) installed", callback: Callback::VagueDependency(1) }));
    assert(v@ =~= common_matchers_part25());
    v
}

/// Part 26 of the matchers for the lines of a build log.
pub open spec fn common_matchers_part26() -> Seq<Matcher> {
    seq![
        Matcher::Regex(RegexLineMatcher { regex: "open3: exec of cme (.*) failed: No such file or directory at .*/Dist/Zilla/Plugin/Run/Role/Runner.pm line [0-9]+\\.", callback: Callback::Make(Template::MissingPerlModule { module: Text::Prefixed("App::Cme::Command::", 1), filename: None, inc: None, minimum_version: None }) }),
        Matcher::Regex(RegexLineMatcher { regex: "pg_ctl: cannot be run as (.*)", callback: Callback::Make(Template::InvalidCurrentUser(Text::Group(1))) }),
        Matcher::Regex(RegexLineMatcher { regex: "([^ ]+) \\(for section ([^ ]+)\\) does not appear to be installed", callback: Callback::Make(Template::MissingPerlModule { module: Text::Group(1), filename: None, inc: None, minimum_version: None }) }),
        Matcher::Regex(RegexLineMatcher { regex: "(.*) version (.*) required--this is only version (.*) at .*\\.pm line [0-9]+\\.", callback: Callback::Make(Template::MissingPerlModule { module: Text::Group(1), filename: None, inc: None, minimum_version: Some(Text::Group(2)) }) }),
        Matcher::Regex(RegexLineMatcher { regex: "Bailout called\\.  Further testing stopped:  YOU ARE MISSING REQUIRED MODULES: \\[ ([^,]+)(.*) \\]:", callback: Callback::Make(Template::MissingPerlModule { module: Text::Group(1), filename: None, inc: None, minimum_version: None }) }),
        Matcher::Regex(RegexLineMatcher { regex: "CMake Error: CMake was unable to find a build program corresponding to \"(.*)\".  CMAKE_MAKE_PROGRAM is not set\\.  You probably need to select a different build tool\\.", callback: Callback::VagueDependency(1) }),
        Matcher::Regex(RegexLineMatcher { regex: "Dist currently only works with Git or Mercurial repos", callback: Callback::Make(Template::VcsControlDirectoryNeeded { vcs: Texts::Lits("git hg") }) }),
        Matcher::Regex(RegexLineMatcher { regex: "GitHubMeta: need a .git\\/config file, and you don\\'t have one", callback: Callback::Make(Template::VcsControlDirectoryNeeded { vcs: Texts::Lits("git") }) }),
        Matcher::Regex(RegexLineMatcher { regex: "Exception: Versioning for this project requires either an sdist tarball, or access to an upstream git repository\\. It's also possible that there is a mismatch between the package name in setup.cfg and the argument given to pbr\\.version\\.VersionInfo\\. Project name .* was given, but was not able to be found\\.", callback: Callback::Make(Template::VcsControlDirectoryNeeded { vcs: Texts::Lits("git") }) }),
        Matcher::Regex(RegexLineMatcher { regex: "configure: error: no suitable Python interpreter found", callback: Callback::CommandNamed("python") }),
        Matcher::Regex(RegexLineMatcher { regex: "Could not find external command \"(.*)\"", callback: Callback::CommandGroup(1) }),
        Matcher::Regex(RegexLineMatcher { regex: "  Failed to find (.*) development headers\\.", callback: Callback::VagueDependency(1) }),
        Matcher::Regex(RegexLineMatcher { regex: "\\*\\*\\* \\Subdirectory \\'(.*)\\' does not yet exist. Use \\'./gitsub.sh pull\\' to create it, or set the environment variable GNULIB_SRCDIR\\.", callback: Callback::Make(Template::MissingGnulibDirectory(Text::Group(1))) }),
        Matcher::Regex(RegexLineMatcher { regex: "configure: error: Cap\\'n Proto compiler \\(capnp\\) not found.", callback: Callback::CommandNamed("capnp") }),
        Matcher::Regex(RegexLineMatcher { regex: "lua: (.*):(\\d+): module \\'(.*)\\' not found:", callback: Callback::Make(Template::MissingLuaModule(Text::Group(3))) }),
        Matcher::Regex(RegexLineMatcher { regex: "Unknown key\\(s\\) in sphinx_gallery_conf:", callback: Callback::Nothing }),
        Matcher::Regex(RegexLineMatcher { regex: "(.+\\.gir):In (.*): error: (.*)", callback: Callback::Nothing }),
        Matcher::Regex(RegexLineMatcher { regex: "(.+\\.gir):[0-9]+\\.[0-9]+-[0-9]+\\.[0-9]+: error: (.*)", callback: Callback::Nothing }),
        Matcher::Regex(RegexLineMatcher { regex: "psql:.*\\.sql:[0-9]+: ERROR:  (.*)", callback: Callback::Nothing }),
        Matcher::Regex(RegexLineMatcher { regex: "intltoolize: \\'(.*)\\' is out of date: use \\'--force\\' to overwrite", callback: Callback::Nothing }),
    ]
}

fn common_matchers_table_part26() -> (r: Vec<Matcher>)
    ensures
        r@ == common_matchers_part26(),
{
    let mut v: Vec<Matcher> = Vec::new();
    v.push(Matcher::Regex(RegexLineMatcher { regex: "open3: exec of cme (.*) failed: No such file or directory at .*/Dist/Zilla/Plugin/Run/Role/Runner.pm line [0-9]+\\.", callback: Callback::Make(Template::MissingPerlModule { module: Text::Prefixed("App::Cme::Command::", 1), filename: None, inc: None, minimum_version: None }) }));
    v.push(Matcher::Regex(RegexLineMatcher { regex: "pg_ctl: cannot be run as (.*)", callback: Callback::Make(Template::InvalidCurrentUser(Text::Group(1))) }));
    v.push(Matcher::Regex(RegexLineMatcher { regex: "([^ ]+) \\(for section ([^ ]+)\\) does not appear to be installed", callback: Callback::Make(Template::MissingPerlModule { module: Text::Group(1), filename: None, inc: None, minimum_version: None }) }));
    v.push(Matcher::Regex(RegexLineMatcher { regex: "(.*) version (.*) required--this is only version (.*) at .*\\.pm line [0-9]+\\.", callback: Callback::Make(Template::MissingPerlModule { module: Text::Group(1), filename: None, inc: None, minimum_version: Some(Text::Group(2)) }) }));
    v.push(Matcher::Regex(RegexLineMatcher { regex: "Bailout called\\.  Further testing stopped:  YOU ARE MISSING REQUIRED MODULES: \\[ ([^,]+)(.*) \\]:", callback: Callback::Make(Template::MissingPerlModule { module: Text::Group(1), filename: None, inc: None, minimum_version: None }) }));
    v.push(Matcher::Regex(RegexLineMatcher { regex: "CMake Error: CMake was unable to find a build program corresponding to \"(.*)\".  CMAKE_MAKE_PROGRAM is not set\\.  You probably need to select a different build tool\\.", callback: Callback::VagueDependency(1) }));
    v.push(Matcher::Regex(RegexLineMatcher { regex: "Dist currently only works with Git or Mercurial repos", callback: Callback::Make(Template::VcsControlDirectoryNeeded { vcs: Texts::Lits("git hg") }) }));
    v.push(Matcher::Regex(RegexLineMatcher { regex: "GitHubMeta: need a .git\\/config file, and you don\\'t have one", callback: Callback::Make(Template::VcsControlDirectoryNeeded { vcs: Texts::Lits("git") }) }));
    v.push(Matcher::Regex(RegexLineMatcher { regex: "Exception: Versioning for this project requires either an sdist tarball, or access to an upstream git repository\\. It's also possible that there is a mismatch between the package name in setup.cfg and the argument given to pbr\\.version\\.VersionInfo\\. Project name .* was given, but was not able to be found\\.", callback: Callback::Make(Template::VcsControlDirectoryNeeded { vcs: Texts::Lits("git") }) }));
    v.push(Matcher::Regex(RegexLineMatcher { regex: "configure: error: no suitable Python interpreter found", callback: Callback::CommandNamed("python") }));
    v.push(Matcher::Regex(RegexLineMatcher { regex: "Could not find external command \"(.*)\"", callback: Callback::CommandGroup(1) }));
    v.push(Matcher::Regex(RegexLineMatcher { regex: "  Failed to find (.*) development headers\\.", callback: Callback::VagueDependency(1) }));
    v.push(Matcher::Regex(RegexLineMatcher { regex: "\\*\\*\\* \\Subdirectory \\'(.*)\\' does not yet exist. Use \\'./gitsub.sh pull\\' to create it, or set the environment variable GNULIB_SRCDIR\\.", callback: Callback::Make(Template::MissingGnulibDirectory(Text::Group(1))) }));
    v.push(Matcher::Regex(RegexLineMatcher { regex: "configure: error: Cap\\'n Proto compiler \\(capnp\\) not found.", callback: Callback::CommandNamed("capnp") }));
    v.push(Matcher::Regex(RegexLineMatcher { regex: "lua: (.*):(\\d+): module \\'(.*)\\' not found:", callback: Callback::Make(Template::MissingLuaModule(Text::Group(3))) }));
    v.push(Matcher::Regex(RegexLineMatcher { regex: "Unknown key\\(s\\) in sphinx_gallery_conf:", callback: Callback::Nothing }));
    v.push(Matcher::Regex(RegexLineMatcher { regex: "(.+\\.gir):In (.*): error: (.*)", callback: Callback::Nothing }));
    v.push(Matcher::Regex(RegexLineMatcher { regex: "(.+\\.gir):[0-9]+\\.[0-9]+-[0-9]+\\.[0-9]+: error: (.*)", callback: Callback::Nothing }));
    v.push(Matcher::Regex(RegexLineMatcher { regex: "psql:.*\\.sql:[0-9]+: ERROR:  (.*)", callback: Callback::Nothing }));
    v.push(Matcher::Regex(RegexLineMatcher { regex: "intltoolize: \\'(.*)\\' is out of date: use \\'--force\\' to overwrite", callback: Callback::Nothing }));
    assert(v@ =~= common_matchers_part26());
    v
}

/// Part 27 of the matchers for the lines of a build log.
pub open spec fn common_matchers_part27() -> Seq<Matcher> {
    seq![
        Matcher::Regex(RegexLineMatcher { regex: "E: pybuild pybuild:[0-9]+: cannot detect build system, please use --system option or set PYBUILD_SYSTEM env\\. variable", callback: Callback::Nothing }),
        Matcher::Regex(RegexLineMatcher { regex: "--   Requested \\'(.*) >= (.*)\\' but version of (.*) is (.*)", callback: Callback::Make(Template::MissingPkgConfig { module: Text::Group(1), minimum_version: Some(Text::Group(2)) }) }),
        Matcher::Regex(RegexLineMatcher { regex: ".*Could not find (.*) lib/headers, please set .* or ensure (.*).pc is in PKG_CONFIG_PATH\\.", callback: Callback::Make(Template::MissingPkgConfig { module: Text::Group(2), minimum_version: None }) }),
        Matcher::Regex(RegexLineMatcher { regex: "go: go.mod file not found in current directory or any parent directory; see \\'go help modules\\'", callback: Callback::Kind("missing-go.mod-file") }),
        Matcher::Regex(RegexLineMatcher { regex: "go: cannot find main module, but found Gopkg.lock in (.*)", callback: Callback::Kind("missing-go.mod-file") }),
        Matcher::Regex(RegexLineMatcher { regex: "go: updates to go.mod needed; to update it:", callback: Callback::Kind("outdated-go.mod-file") }),
        Matcher::Regex(RegexLineMatcher { regex: "(c\\+\\+|collect2|cc1|g\\+\\+): fatal error: .*", callback: Callback::Nothing }),
        Matcher::Regex(RegexLineMatcher { regex: "fatal: making (.*): failed to create tests\\/decode.trs", callback: Callback::Nothing }),
        Matcher::Regex(RegexLineMatcher { regex: "Please specify at most one of .*", callback: Callback::Nothing }),
        Matcher::Regex(RegexLineMatcher { regex: ".*\\.py:[0-9]+:[0-9]+: [A-Z][0-9][0-9][0-9] .*", callback: Callback::Nothing }),
        Matcher::Regex(RegexLineMatcher { regex: "PHPUnit requires the \"(.*)\" extension\\.", callback: Callback::Make(Template::MissingPHPExtension(Text::Group(1))) }),
        Matcher::Regex(RegexLineMatcher { regex: "     \\[exec\\] PHPUnit requires the \"(.*)\" extension\\.", callback: Callback::Make(Template::MissingPHPExtension(Text::Group(1))) }),
        Matcher::Regex(RegexLineMatcher { regex: ".*/gnulib-tool: \\*\\*\\* minimum supported autoconf version is (.*)\\. ", callback: Callback::Make(Template::MinimumAutoconfTooOld(Text::Group(1))) }),
        Matcher::Regex(RegexLineMatcher { regex: "configure.(ac|in):[0-9]+: error: Autoconf version (.*) or higher is required", callback: Callback::Make(Template::MissingVagueDependency { name: Text::Lit("autoconf"), url: None, minimum_version: Some(Text::Group(2)), current_version: None }) }),
        Matcher::Regex(RegexLineMatcher { regex: "# Error: The file \"(MANIFEST|META.yml)\" is missing from this distribution\\\\. .*", callback: Callback::Make(Template::MissingPerlDistributionFile(Text::Group(1))) }),
        Matcher::Regex(RegexLineMatcher { regex: "^  ([^ ]+) does not exist$", callback: Callback::FileNotFound(1) }),
        Matcher::Regex(RegexLineMatcher { regex: "\\s*> Cannot find \\'\\.git\\' directory", callback: Callback::Make(Template::VcsControlDirectoryNeeded { vcs: Texts::Lits("git") }) }),
        Matcher::Regex(RegexLineMatcher { regex: "Unable to find the \\'(.*)\\' executable\\. .*", callback: Callback::CommandGroup(1) }),
        Matcher::Regex(RegexLineMatcher { regex: "\\[@RSRCHBOY\\/CopyrightYearFromGit\\]  -  412 No \\.git subdirectory found", callback: Callback::Make(Template::VcsControlDirectoryNeeded { vcs: Texts::Lits("git") }) }),
        Matcher::Regex(RegexLineMatcher { regex: "Couldn\\'t find version control data \\(git/hg/bzr/svn supported\\)", callback: Callback::Make(Template::VcsControlDirectoryNeeded { vcs: Texts::Lits("git hg bzr svn") }) }),
    ]
}

fn common_matchers_table_part27() -> (r: Vec<Matcher>)
    ensures
        r@ == common_matchers_part27(),
{
    let mut v: Vec<Matcher> = Vec::new();
    v.push(Matcher::Regex(RegexLineMatcher { regex: "E: pybuild pybuild:[0-9]+: cannot detect build system, please use --system option or set PYBUILD_SYSTEM env\\. variable", callback: Callback::Nothing }));
    v.push(Matcher::Regex(RegexLineMatcher { regex: "--   Requested \\'(.*) >= (.*)\\' but version of (.*) is (.*)", callback: Callback::Make(Template::MissingPkgConfig { module: Text::Group(1), minimum_version: Some(Text::Group(2)) }) }));
    v.push(Matcher::Regex(RegexLineMatcher { regex: ".*Could not find (.*) lib/headers, please set .* or ensure (.*).pc is in PKG_CONFIG_PATH\\.", callback: Callback::Make(Template::MissingPkgConfig { module: Text::Group(2), minimum_version: None }) }));
    v.push(Matcher::Regex(RegexLineMatcher { regex: "go: go.mod file not found in current directory or any parent directory; see \\'go help modules\\'", callback: Callback::Kind("missing-go.mod-file") }));
    v.push(Matcher::Regex(RegexLineMatcher { regex: "go: cannot find main module, but found Gopkg.lock in (.*)", callback: Callback::Kind("missing-go.mod-file") }));
    v.push(Matcher::Regex(RegexLineMatcher { regex: "go: updates to go.mod needed; to update it:", callback: Callback::Kind("outdated-go.mod-file") }));
    v.push(Matcher::Regex(RegexLineMatcher { regex: "(c\\+\\+|collect2|cc1|g\\+\\+): fatal error: .*", callback: Callback::Nothing }));
    v.push(Matcher::Regex(RegexLineMatcher { regex: "fatal: making (.*): failed to create tests\\/decode.trs", callback: Callback::Nothing }));
    v.push(Matcher::Regex(RegexLineMatcher { regex: "Please specify at most one of .*", callback: Callback::Nothing }));
    v.push(Matcher::Regex(RegexLineMatcher { regex: ".*\\.py:[0-9]+:[0-9]+: [A-Z][0-9][0-9][0-9] .*", callback: Callback::Nothing }));
    v.push(Matcher::Regex(RegexLineMatcher { regex: "PHPUnit requires the \"(.*)\" extension\\.", callback: Callback::Make(Template::MissingPHPExtension(Text::Group(1))) }));
    v.push(Matcher::Regex(RegexLineMatcher { regex: "     \\[exec\\] PHPUnit requires the \"(.*)\" extension\\.", callback: Callback::Make(Template::MissingPHPExtension(Text::Group(1))) }));
    v.push(Matcher::Regex(RegexLineMatcher { regex: ".*/gnulib-tool: \\*\\*\\* minimum supported autoconf version is (.*)\\. ", callback: Callback::Make(Template::MinimumAutoconfTooOld(Text::Group(1))) }));
    v.push(Matcher::Regex(RegexLineMatcher { regex: "configure.(ac|in):[0-9]+: error: Autoconf version (.*) or higher is required", callback: Callback::Make(Template::MissingVagueDependency { name: Text::Lit("autoconf"), url: None, minimum_version: Some(Text::Group(2)), current_version: None }) }));
    v.push(Matcher::Regex(RegexLineMatcher { regex: "# Error: The file \"(MANIFEST|META.yml)\" is missing from this distribution\\\\. .*", callback: Callback::Make(Template::MissingPerlDistributionFile(Text::Group(1))) }));
    v.push(Matcher::Regex(RegexLineMatcher { regex: "^  ([^ ]+) does not exist$", callback: Callback::FileNotFound(1) }));
    v.push(Matcher::Regex(RegexLineMatcher { regex: "\\s*> Cannot find \\'\\.git\\' directory", callback: Callback::Make(Template::VcsControlDirectoryNeeded { vcs: Texts::Lits("git") }) }));
    v.push(Matcher::Regex(RegexLineMatcher { regex: "Unable to find the \\'(.*)\\' executable\\. .*", callback: Callback::CommandGroup(1) }));
    v.push(Matcher::Regex(RegexLineMatcher { regex: "\\[@RSRCHBOY\\/CopyrightYearFromGit\\]  -  412 No \\.git subdirectory found", callback: Callback::Make(Template::VcsControlDirectoryNeeded { vcs: Texts::Lits("git") }) }));
    v.push(Matcher::Regex(RegexLineMatcher { regex: "Couldn\\'t find version control data \\(git/hg/bzr/svn supported\\)", callback: Callback::Make(Template::VcsControlDirectoryNeeded { vcs: Texts::Lits("git hg bzr svn") }) }));
    assert(v@ =~= common_matchers_part27());
    v
}

/// Part 28 of the matchers for the lines of a build log.
pub open spec fn common_matchers_part28() -> Seq<Matcher> {
    seq![
        Matcher::Regex(RegexLineMatcher { regex: "RuntimeError: Unable to determine package version. No local Git clone detected, and no version file found at .*", callback: Callback::Make(Template::VcsControlDirectoryNeeded { vcs: Texts::Lits("git") }) }),
        Matcher::Regex(RegexLineMatcher { regex: "\"(.*)\" failed to start: \"No such file or directory\" at .*.pm line [0-9]+\\.", callback: Callback::CommandGroup(1) }),
        Matcher::Regex(RegexLineMatcher { regex: "Can\\'t find ([^ ]+)\\.", callback: Callback::CommandGroup(1) }),
        Matcher::Regex(RegexLineMatcher { regex: "Error: spawn (.*) ENOENT", callback: Callback::CommandGroup(1) }),
        Matcher::Regex(RegexLineMatcher { regex: "E ImportError: Failed to initialize: Bad (.*) executable\\.", callback: Callback::CommandGroup(1) }),
        Matcher::Regex(RegexLineMatcher { regex: "ESLint couldn\\'t find the config \"(.*)\" to extend from\\. Please check that the name of the config is correct\\.", callback: Callback::Nothing }),
        Matcher::Regex(RegexLineMatcher { regex: "E OSError: no library called \"cairo-2\" was found", callback: Callback::Make(Template::MissingLibrary(Text::Group(1))) }),
        Matcher::Regex(RegexLineMatcher { regex: "ERROR: \\[Errno 2\\] No such file or directory: '(.*)'", callback: Callback::FileNotFoundMaybeExecutable(1) }),
        Matcher::Regex(RegexLineMatcher { regex: "error: \\[Errno 2\\] No such file or directory: '(.*)'", callback: Callback::FileNotFoundMaybeExecutable(1) }),
        Matcher::Regex(RegexLineMatcher { regex: "We need the Python library (.+) to be installed\\. .*", callback: Callback::Make(Template::MissingPythonDistribution { distribution: Text::Group(1), python_version: None, minimum_version: None }) }),
        Matcher::Regex(RegexLineMatcher { regex: "Checking for header (.+\\.h|.+\\.hpp)\\s+: not found ", callback: Callback::Make(Template::MissingCHeader { header: Text::Group(1) }) }),
        Matcher::Regex(RegexLineMatcher { regex: "000: File does not exist (.*)", callback: Callback::FileNotFound(1) }),
        Matcher::Regex(RegexLineMatcher { regex: "ERROR: Coverage for lines \\(([0-9.]+)%\\) does not meet global threshold \\(([0-9]+)%\\)", callback: Callback::Kind("code-coverage-too-low") }),
        Matcher::Regex(RegexLineMatcher { regex: "Error \\[ERR_REQUIRE_ESM\\]: Must use import to load ES Module: (.*)", callback: Callback::Make(Template::ESModuleMustUseImport(Text::Group(1))) }),
        Matcher::Regex(RegexLineMatcher { regex: ".* (/<<BUILDDIR>>/.*): No such file or directory", callback: Callback::FileNotFound(1) }),
        Matcher::Regex(RegexLineMatcher { regex: "Cannot open file `(.*)' in mode `(.*)' \\(No such file or directory\\)", callback: Callback::FileNotFound(1) }),
        Matcher::Regex(RegexLineMatcher { regex: "[^:]+: cannot stat \\'(.*)\\': No such file or directory", callback: Callback::FileNotFound(1) }),
        Matcher::Regex(RegexLineMatcher { regex: "cat: (.*): No such file or directory", callback: Callback::FileNotFound(1) }),
        Matcher::Regex(RegexLineMatcher { regex: "ls: cannot access \\'(.*)\\': No such file or directory", callback: Callback::FileNotFound(1) }),
        Matcher::Regex(RegexLineMatcher { regex: "Problem opening (.*): No such file or directory at (.*) line ([0-9]+)\\.", callback: Callback::FileNotFound(1) }),
    ]
}

fn common_matchers_table_part28() -> (r: Vec<Matcher>)
    ensures
        r@ == common_matchers_part28(),
{
    let mut v: Vec<Matcher> = Vec::new();
    v.push(Matcher::Regex(RegexLineMatcher { regex: "RuntimeError: Unable to determine package version. No local Git clone detected, and no version file found at .*", callback: Callback::Make(Template::VcsControlDirectoryNeeded { vcs: Texts::Lits("git") }) }));
    v.push(Matcher::Regex(RegexLineMatcher { regex: "\"(.*)\" failed to start: \"No such file or directory\" at .*.pm line [0-9]+\\.", callback: Callback::CommandGroup(1) }));
    v.push(Matcher::Regex(RegexLineMatcher { regex: "Can\\'t find ([^ ]+)\\.", callback: Callback::CommandGroup(1) }));
    v.push(Matcher::Regex(RegexLineMatcher { regex: "Error: spawn (.*) ENOENT", callback: Callback::CommandGroup(1) }));
    v.push(Matcher::Regex(RegexLineMatcher { regex: "E ImportError: Failed to initialize: Bad (.*) executable\\.", callback: Callback::CommandGroup(1) }));
    v.push(Matcher::Regex(RegexLineMatcher { regex: "ESLint couldn\\'t find the config \"(.*)\" to extend from\\. Please check that the name of the config is correct\\.", callback: Callback::Nothing }));
    v.push(Matcher::Regex(RegexLineMatcher { regex: "E OSError: no library called \"cairo-2\" was found", callback: Callback::Make(Template::MissingLibrary(Text::Group(1))) }));
    v.push(Matcher::Regex(RegexLineMatcher { regex: "ERROR: \\[Errno 2\\] No such file or directory: '(.*)'", callback: Callback::FileNotFoundMaybeExecutable(1) }));
    v.push(Matcher::Regex(RegexLineMatcher { regex: "error: \\[Errno 2\\] No such file or directory: '(.*)'", callback: Callback::FileNotFoundMaybeExecutable(1) }));
    v.push(Matcher::Regex(RegexLineMatcher { regex: "We need the Python library (.+) to be installed\\. .*", callback: Callback::Make(Template::MissingPythonDistribution { distribution: Text::Group(1), python_version: None, minimum_version: None }) }));
    v.push(Matcher::Regex(RegexLineMatcher { regex: "Checking for header (.+\\.h|.+\\.hpp)\\s+: not found ", callback: Callback::Make(Template::MissingCHeader { header: Text::Group(1) }) }));
    v.push(Matcher::Regex(RegexLineMatcher { regex: "000: File does not exist (.*)", callback: Callback::FileNotFound(1) }));
    v.push(Matcher::Regex(RegexLineMatcher { regex: "ERROR: Coverage for lines \\(([0-9.]+)%\\) does not meet global threshold \\(([0-9]+)%\\)", callback: Callback::Kind("code-coverage-too-low") }));
    v.push(Matcher::Regex(RegexLineMatcher { regex: "Error \\[ERR_REQUIRE_ESM\\]: Must use import to load ES Module: (.*)", callback: Callback::Make(Template::ESModuleMustUseImport(Text::Group(1))) }));
    v.push(Matcher::Regex(RegexLineMatcher { regex: ".* (/<<BUILDDIR>>/.*): No such file or directory", callback: Callback::FileNotFound(1) }));
    v.push(Matcher::Regex(RegexLineMatcher { regex: "Cannot open file `(.*)' in mode `(.*)' \\(No such file or directory\\)", callback: Callback::FileNotFound(1) }));
    v.push(Matcher::Regex(RegexLineMatcher { regex: "[^:]+: cannot stat \\'(.*)\\': No such file or directory", callback: Callback::FileNotFound(1) }));
    v.push(Matcher::Regex(RegexLineMatcher { regex: "cat: (.*): No such file or directory", callback: Callback::FileNotFound(1) }));
    v.push(Matcher::Regex(RegexLineMatcher { regex: "ls: cannot access \\'(.*)\\': No such file or directory", callback: Callback::FileNotFound(1) }));
    v.push(Matcher::Regex(RegexLineMatcher { regex: "Problem opening (.*): No such file or directory at (.*) line ([0-9]+)\\.", callback: Callback::FileNotFound(1) }));
    assert(v@ =~= common_matchers_part28());
    v
}

/// Part 29 of the matchers for the lines of a build log.
pub open spec fn common_matchers_part29() -> Seq<Matcher> {
    seq![
        Matcher::Regex(RegexLineMatcher { regex: "/bin/bash: (.*): No such file or directory", callback: Callback::FileNotFound(1) }),
        Matcher::Regex(RegexLineMatcher { regex: "\\(The package \"(.*)\" was not found when loaded as a Node module from the directory \".*\"\\.\\)", callback: Callback::Make(Template::MissingNodePackage(Text::Group(1))) }),
        Matcher::Regex(RegexLineMatcher { regex: "\\+\\-\\- UNMET DEPENDENCY (.*)", callback: Callback::Make(Template::MissingNodePackage(Text::Group(1))) }),
        Matcher::Regex(RegexLineMatcher { regex: "Project ERROR: Unknown module\\(s\\) in QT: (.*)", callback: Callback::Make(Template::MissingQtModules(Texts::Words(1))) }),
        Matcher::Regex(RegexLineMatcher { regex: "(.*):(\\d+):(\\d+): ERROR: Vala compiler \\'.*\\' can not compile programs", callback: Callback::Kind("vala-compiler-cannot-compile") }),
        Matcher::Regex(RegexLineMatcher { regex: "(.*):(\\d+):(\\d+): ERROR: Problem encountered: Cannot load ([^ ]+) library\\. (.*)", callback: Callback::Make(Template::MissingLibrary(Text::Group(4))) }),
        Matcher::Regex(RegexLineMatcher { regex: "go: (.*)@(.*): missing go.sum entry; to add it:", callback: Callback::Make(Template::MissingGoSumEntry { package: Text::Group(1), version: Text::Group(2) }) }),
        Matcher::Regex(RegexLineMatcher { regex: "E: pybuild pybuild:(.*): configure: plugin (.*) failed with: PEP517 plugin dependencies are not available\\. Please Build-Depend on (.*)\\.", callback: Callback::Make(Template::MissingDebianBuildDep(Text::Group(1))) }),
        Matcher::Regex(RegexLineMatcher { regex: "^make\\[[0-9]+\\]: \\*\\*\\* No rule to make target '(.*)', needed by '(.*)'\\.  Stop\\.$", callback: Callback::Make(Template::MissingMakeTarget { target: Text::Group(1), required_by: Some(Text::Group(2)) }) }),
        Matcher::Regex(RegexLineMatcher { regex: "make: \\*\\*\\* No rule to make target \\'(.*)\\'\\.  Stop\\.", callback: Callback::Make(Template::MissingMakeTarget { target: Text::Group(1), required_by: None }) }),
        Matcher::Regex(RegexLineMatcher { regex: "make\\[[0-9]+\\]: \\*\\*\\* No rule to make target \\'(.*)\\'\\.  Stop\\.", callback: Callback::Make(Template::MissingMakeTarget { target: Text::Group(1), required_by: None }) }),
        Matcher::Regex(RegexLineMatcher { regex: "configure: error: Can not find \"(.*)\" .* in your PATH", callback: Callback::CommandGroup(1) }),
        Matcher::Regex(RegexLineMatcher { regex: "([^ ]+) package not found\\. Please install from (https://[^ ]+)", callback: Callback::Make(Template::MissingVagueDependency { name: Text::Group(1), url: Some(Text::Group(2)), minimum_version: None, current_version: None }) }),
        Matcher::Regex(RegexLineMatcher { regex: "([^ ]+) package not found\\. Please use \\'pip install .*\\' first", callback: Callback::Make(Template::MissingPythonDistribution { distribution: Text::Group(1), python_version: None, minimum_version: None }) }),
        Matcher::Regex(RegexLineMatcher { regex: ".*: No space left on device", callback: Callback::NoSpace }),
        Matcher::Regex(RegexLineMatcher { regex: ".*(No space left on device).*", callback: Callback::NoSpace }),
        Matcher::Regex(RegexLineMatcher { regex: "ocamlfind: Package `(.*)\\' not found", callback: Callback::Make(Template::MissingOCamlPackage(Text::Group(1))) }),
        Matcher::Regex(RegexLineMatcher { regex: "Error: Library \"(.*)\" not found.", callback: Callback::Make(Template::MissingOCamlPackage(Text::Group(1))) }),
        Matcher::Regex(RegexLineMatcher { regex: "configure: error: ([^ ]+) development files not found", callback: Callback::VagueDependency(1) }),
        Matcher::Regex(RegexLineMatcher { regex: "Exception: ([^ ]+) development files not found\\..*", callback: Callback::VagueDependency(1) }),
    ]
}

fn common_matchers_table_part29() -> (r: Vec<Matcher>)
    ensures
        r@ == common_matchers_part29(),
{
    let mut v: Vec<Matcher> = Vec::new();
    v.push(Matcher::Regex(RegexLineMatcher { regex: "/bin/bash: (.*): No such file or directory", callback: Callback::FileNotFound(1) }));
    v.push(Matcher::Regex(RegexLineMatcher { regex: "\\(The package \"(.*)\" was not found when loaded as a Node module from the directory \".*\"\\.\\)", callback: Callback::Make(Template::MissingNodePackage(Text::Group(1))) }));
    v.push(Matcher::Regex(RegexLineMatcher { regex: "\\+\\-\\- UNMET DEPENDENCY (.*)", callback: Callback::Make(Template::MissingNodePackage(Text::Group(1))) }));
    v.push(Matcher::Regex(RegexLineMatcher { regex: "Project ERROR: Unknown module\\(s\\) in QT: (.*)", callback: Callback::Make(Template::MissingQtModules(Texts::Words(1))) }));
    v.push(Matcher::Regex(RegexLineMatcher { regex: "(.*):(\\d+):(\\d+): ERROR: Vala compiler \\'.*\\' can not compile programs", callback: Callback::Kind("vala-compiler-cannot-compile") }));
    v.push(Matcher::Regex(RegexLineMatcher { regex: "(.*):(\\d+):(\\d+): ERROR: Problem encountered: Cannot load ([^ ]+) library\\. (.*)", callback: Callback::Make(Template::MissingLibrary(Text::Group(4))) }));
    v.push(Matcher::Regex(RegexLineMatcher { regex: "go: (.*)@(.*): missing go.sum entry; to add it:", callback: Callback::Make(Template::MissingGoSumEntry { package: Text::Group(1), version: Text::Group(2) }) }));
    v.push(Matcher::Regex(RegexLineMatcher { regex: "E: pybuild pybuild:(.*): configure: plugin (.*) failed with: PEP517 plugin dependencies are not available\\. Please Build-Depend on (.*)\\.", callback: Callback::Make(Template::MissingDebianBuildDep(Text::Group(1))) }));
    v.push(Matcher::Regex(RegexLineMatcher { regex: "^make\\[[0-9]+\\]: \\*\\*\\* No rule to make target '(.*)', needed by '(.*)'\\.  Stop\\.$", callback: Callback::Make(Template::MissingMakeTarget { target: Text::Group(1), required_by: Some(Text::Group(2)) }) }));
    v.push(Matcher::Regex(RegexLineMatcher { regex: "make: \\*\\*\\* No rule to make target \\'(.*)\\'\\.  Stop\\.", callback: Callback::Make(Template::MissingMakeTarget { target: Text::Group(1), required_by: None }) }));
    v.push(Matcher::Regex(RegexLineMatcher { regex: "make\\[[0-9]+\\]: \\*\\*\\* No rule to make target \\'(.*)\\'\\.  Stop\\.", callback: Callback::Make(Template::MissingMakeTarget { target: Text::Group(1), required_by: None }) }));
    v.push(Matcher::Regex(RegexLineMatcher { regex: "configure: error: Can not find \"(.*)\" .* in your PATH", callback: Callback::CommandGroup(1) }));
    v.push(Matcher::Regex(RegexLineMatcher { regex: "([^ ]+) package not found\\. Please install from (https://[^ ]+)", callback: Callback::Make(Template::MissingVagueDependency { name: Text::Group(1), url: Some(Text::Group(2)), minimum_version: None, current_version: None }) }));
    v.push(Matcher::Regex(RegexLineMatcher { regex: "([^ ]+) package not found\\. Please use \\'pip install .*\\' first", callback: Callback::Make(Template::MissingPythonDistribution { distribution: Text::Group(1), python_version: None, minimum_version: None }) }));
    v.push(Matcher::Regex(RegexLineMatcher { regex: ".*: No space left on device", callback: Callback::NoSpace }));
    v.push(Matcher::Regex(RegexLineMatcher { regex: ".*(No space left on device).*", callback: Callback::NoSpace }));
    v.push(Matcher::Regex(RegexLineMatcher { regex: "ocamlfind: Package `(.*)\\' not found", callback: Callback::Make(Template::MissingOCamlPackage(Text::Group(1))) }));
    v.push(Matcher::Regex(RegexLineMatcher { regex: "Error: Library \"(.*)\" not found.", callback: Callback::Make(Template::MissingOCamlPackage(Text::Group(1))) }));
    v.push(Matcher::Regex(RegexLineMatcher { regex: "configure: error: ([^ ]+) development files not found", callback: Callback::VagueDependency(1) }));
    v.push(Matcher::Regex(RegexLineMatcher { regex: "Exception: ([^ ]+) development files not found\\..*", callback: Callback::VagueDependency(1) }));
    assert(v@ =~= common_matchers_part29());
    v
}

/// Part 30 of the matchers for the lines of a build log.
pub open spec fn common_matchers_part30() -> Seq<Matcher> {
    seq![
        Matcher::Regex(RegexLineMatcher { regex: "Exception: Couldn\\'t find (.*) source libs\\!", callback: Callback::VagueDependency(1) }),
        Matcher::Regex(RegexLineMatcher { regex: "configure: error: '(.*)' command was not found", callback: Callback::CommandGroup(1) }),
        Matcher::Regex(RegexLineMatcher { regex: "configure: error: (.*) not present.*", callback: Callback::VagueDependency(1) }),
        Matcher::Regex(RegexLineMatcher { regex: "configure: error: (.*) >= (.*) not found", callback: Callback::Make(Template::MissingVagueDependency { name: Text::Group(1), url: None, minimum_version: Some(Text::Group(2)), current_version: None }) }),
        Matcher::Regex(RegexLineMatcher { regex: "configure: error: (.*) headers (could )?not (be )?found", callback: Callback::VagueDependency(1) }),
        Matcher::Regex(RegexLineMatcher { regex: "configure: error: (.*) ([0-9].*) (could )?not (be )?found", callback: Callback::Make(Template::MissingVagueDependency { name: Text::Group(1), url: None, minimum_version: Some(Text::Group(2)), current_version: None }) }),
        Matcher::Regex(RegexLineMatcher { regex: "configure: error: (.*) (could )?not (be )?found", callback: Callback::VagueDependency(1) }),
        Matcher::Regex(RegexLineMatcher { regex: "configure: error: (.*) ([0-9.]+) is required to build.*", callback: Callback::Make(Template::MissingVagueDependency { name: Text::Group(1), url: None, minimum_version: Some(Text::Group(2)), current_version: None }) }),
        Matcher::Regex(RegexLineMatcher { regex: ".*meson.build:([0-9]+):([0-9]+): ERROR: Problem encountered: (.*) (.*) or later required", callback: Callback::Make(Template::MissingVagueDependency { name: Text::Group(3), url: None, minimum_version: Some(Text::Group(4)), current_version: None }) }),
        Matcher::Regex(RegexLineMatcher { regex: "configure: error: Please install (.*) from (http:\\/\\/[^ ]+)", callback: Callback::Make(Template::MissingVagueDependency { name: Text::Group(1), url: Some(Text::Group(2)), minimum_version: None, current_version: None }) }),
        Matcher::Regex(RegexLineMatcher { regex: "configure: error: Required package (.*) (is ?)not available\\.", callback: Callback::VagueDependency(1) }),
        Matcher::Regex(RegexLineMatcher { regex: "Error\\! You need to have (.*) \\((.*)\\) around.", callback: Callback::Make(Template::MissingVagueDependency { name: Text::Group(1), url: None, minimum_version: Some(Text::Group(2)), current_version: None }) }),
        Matcher::Regex(RegexLineMatcher { regex: "configure: error: You don\\'t have (.*) installed", callback: Callback::VagueDependency(1) }),
        Matcher::Regex(RegexLineMatcher { regex: "configure: error: Could not find a recent version of (.*)", callback: Callback::VagueDependency(1) }),
        Matcher::Regex(RegexLineMatcher { regex: "configure: error: Unable to locate (.*)", callback: Callback::VagueDependency(1) }),
        Matcher::Regex(RegexLineMatcher { regex: "configure: error: Missing the (.* library)", callback: Callback::VagueDependency(1) }),
        Matcher::Regex(RegexLineMatcher { regex: "configure: error: (.*) requires (.* libraries), .*", callback: Callback::VagueDependency(2) }),
        Matcher::Regex(RegexLineMatcher { regex: "configure: error: (.*) requires ([^ ]+)\\.", callback: Callback::VagueDependency(2) }),
        Matcher::Regex(RegexLineMatcher { regex: "(.*) cannot be discovered in ([^ ]+)", callback: Callback::VagueDependency(1) }),
        Matcher::Regex(RegexLineMatcher { regex: "configure: error: Missing required program '(.*)'.*", callback: Callback::VagueDependency(1) }),
    ]
}

fn common_matchers_table_part30() -> (r: Vec<Matcher>)
    ensures
        r@ == common_matchers_part30(),
{
    let mut v: Vec<Matcher> = Vec::new();
    v.push(Matcher::Regex(RegexLineMatcher { regex: "Exception: Couldn\\'t find (.*) source libs\\!", callback: Callback::VagueDependency(1) }));
    v.push(Matcher::Regex(RegexLineMatcher { regex: "configure: error: '(.*)' command was not found", callback: Callback::CommandGroup(1) }));
    v.push(Matcher::Regex(RegexLineMatcher { regex: "configure: error: (.*) not present.*", callback: Callback::VagueDependency(1) }));
    v.push(Matcher::Regex(RegexLineMatcher { regex: "configure: error: (.*) >= (.*) not found", callback: Callback::Make(Template::MissingVagueDependency { name: Text::Group(1), url: None, minimum_version: Some(Text::Group(2)), current_version: None }) }));
    v.push(Matcher::Regex(RegexLineMatcher { regex: "configure: error: (.*) headers (could )?not (be )?found", callback: Callback::VagueDependency(1) }));
    v.push(Matcher::Regex(RegexLineMatcher { regex: "configure: error: (.*) ([0-9].*) (could )?not (be )?found", callback: Callback::Make(Template::MissingVagueDependency { name: Text::Group(1), url: None, minimum_version: Some(Text::Group(2)), current_version: None }) }));
    v.push(Matcher::Regex(RegexLineMatcher { regex: "configure: error: (.*) (could )?not (be )?found", callback: Callback::VagueDependency(1) }));
    v.push(Matcher::Regex(RegexLineMatcher { regex: "configure: error: (.*) ([0-9.]+) is required to build.*", callback: Callback::Make(Template::MissingVagueDependency { name: Text::Group(1), url: None, minimum_version: Some(Text::Group(2)), current_version: None }) }));
    v.push(Matcher::Regex(RegexLineMatcher { regex: ".*meson.build:([0-9]+):([0-9]+): ERROR: Problem encountered: (.*) (.*) or later required", callback: Callback::Make(Template::MissingVagueDependency { name: Text::Group(3), url: None, minimum_version: Some(Text::Group(4)), current_version: None }) }));
    v.push(Matcher::Regex(RegexLineMatcher { regex: "configure: error: Please install (.*) from (http:\\/\\/[^ ]+)", callback: Callback::Make(Template::MissingVagueDependency { name: Text::Group(1), url: Some(Text::Group(2)), minimum_version: None, current_version: None }) }));
    v.push(Matcher::Regex(RegexLineMatcher { regex: "configure: error: Required package (.*) (is ?)not available\\.", callback: Callback::VagueDependency(1) }));
    v.push(Matcher::Regex(RegexLineMatcher { regex: "Error\\! You need to have (.*) \\((.*)\\) around.", callback: Callback::Make(Template::MissingVagueDependency { name: Text::Group(1), url: None, minimum_version: Some(Text::Group(2)), current_version: None }) }));
    v.push(Matcher::Regex(RegexLineMatcher { regex: "configure: error: You don\\'t have (.*) installed", callback: Callback::VagueDependency(1) }));
    v.push(Matcher::Regex(RegexLineMatcher { regex: "configure: error: Could not find a recent version of (.*)", callback: Callback::VagueDependency(1) }));
    v.push(Matcher::Regex(RegexLineMatcher { regex: "configure: error: Unable to locate (.*)", callback: Callback::VagueDependency(1) }));
    v.push(Matcher::Regex(RegexLineMatcher { regex: "configure: error: Missing the (.* library)", callback: Callback::VagueDependency(1) }));
    v.push(Matcher::Regex(RegexLineMatcher { regex: "configure: error: (.*) requires (.* libraries), .*", callback: Callback::VagueDependency(2) }));
    v.push(Matcher::Regex(RegexLineMatcher { regex: "configure: error: (.*) requires ([^ ]+)\\.", callback: Callback::VagueDependency(2) }));
    v.push(Matcher::Regex(RegexLineMatcher { regex: "(.*) cannot be discovered in ([^ ]+)", callback: Callback::VagueDependency(1) }));
    v.push(Matcher::Regex(RegexLineMatcher { regex: "configure: error: Missing required program '(.*)'.*", callback: Callback::VagueDependency(1) }));
    assert(v@ =~= common_matchers_part30());
    v
}

/// Part 31 of the matchers for the lines of a build log.
pub open spec fn common_matchers_part31() -> Seq<Matcher> {
    seq![
        Matcher::Regex(RegexLineMatcher { regex: "configure: error: Missing (.*)\\.", callback: Callback::VagueDependency(1) }),
        Matcher::Regex(RegexLineMatcher { regex: "configure: error: Unable to find (.*), please install (.*)", callback: Callback::VagueDependency(2) }),
        Matcher::Regex(RegexLineMatcher { regex: "configure: error: (.*) Not found", callback: Callback::VagueDependency(1) }),
        Matcher::Regex(RegexLineMatcher { regex: "configure: error: You need to install (.*)", callback: Callback::VagueDependency(1) }),
        Matcher::Regex(RegexLineMatcher { regex: "configure: error: (.*) \\((.*)\\) not found\\.", callback: Callback::VagueDependency(2) }),
        Matcher::Regex(RegexLineMatcher { regex: "configure: error: (.*) libraries are required for compilation", callback: Callback::VagueDependency(1) }),
        Matcher::Regex(RegexLineMatcher { regex: "configure: error: .*Make sure you have (.*) installed\\.", callback: Callback::VagueDependency(1) }),
        Matcher::Regex(RegexLineMatcher { regex: "error: Cannot find (.*) in the usual places. .*", callback: Callback::VagueDependency(1) }),
        Matcher::Regex(RegexLineMatcher { regex: "Makefile:[0-9]+: \\*\\*\\* \"(.*) was not found\"\\.  Stop\\.", callback: Callback::VagueDependency(1) }),
        Matcher::Regex(RegexLineMatcher { regex: "Makefile:[0-9]+: \\*\\*\\* \\\"At least (.*) version (.*) is needed to build (.*)\\.\".  Stop\\.", callback: Callback::Make(Template::MissingVagueDependency { name: Text::Group(1), url: None, minimum_version: Some(Text::Group(2)), current_version: None }) }),
        Matcher::Regex(RegexLineMatcher { regex: "([a-z0-9A-Z]+) not found", callback: Callback::VagueDependency(1) }),
        Matcher::Regex(RegexLineMatcher { regex: "ERROR:  Unable to locate (.*)\\.", callback: Callback::VagueDependency(1) }),
        Matcher::Regex(RegexLineMatcher { regex: "\x1b\\[1;31merror: (.*) not found\x1b\\[0;32m", callback: Callback::VagueDependency(1) }),
        Matcher::Regex(RegexLineMatcher { regex: "You do not have (.*) correctly installed\\. .*", callback: Callback::VagueDependency(1) }),
        Matcher::Regex(RegexLineMatcher { regex: "Error: (.*) is not available on your system", callback: Callback::VagueDependency(1) }),
        Matcher::Regex(RegexLineMatcher { regex: "ERROR: (.*) (.*) or later is required", callback: Callback::Make(Template::MissingVagueDependency { name: Text::Group(1), url: None, minimum_version: Some(Text::Group(2)), current_version: None }) }),
        Matcher::Regex(RegexLineMatcher { regex: "configure: error: .*Please install the \\'(.*)\\' package\\.", callback: Callback::VagueDependency(1) }),
        Matcher::Regex(RegexLineMatcher { regex: "Error: Please install ([^ ]+) package", callback: Callback::VagueDependency(1) }),
        Matcher::Regex(RegexLineMatcher { regex: "configure: error: <(.*\\.h)> is required", callback: Callback::Make(Template::MissingCHeader { header: Text::Group(1) }) }),
        Matcher::Regex(RegexLineMatcher { regex: "configure: error: ([^ ]+) is required", callback: Callback::VagueDependency(1) }),
    ]
}

fn common_matchers_table_part31() -> (r: Vec<Matcher>)
    ensures
        r@ == common_matchers_part31(),
{
    let mut v: Vec<Matcher> = Vec::new();
    v.push(Matcher::Regex(RegexLineMatcher { regex: "configure: error: Missing (.*)\\.", callback: Callback::VagueDependency(1) }));
    v.push(Matcher::Regex(RegexLineMatcher { regex: "configure: error: Unable to find (.*), please install (.*)", callback: Callback::VagueDependency(2) }));
    v.push(Matcher::Regex(RegexLineMatcher { regex: "configure: error: (.*) Not found", callback: Callback::VagueDependency(1) }));
    v.push(Matcher::Regex(RegexLineMatcher { regex: "configure: error: You need to install (.*)", callback: Callback::VagueDependency(1) }));
    v.push(Matcher::Regex(RegexLineMatcher { regex: "configure: error: (.*) \\((.*)\\) not found\\.", callback: Callback::VagueDependency(2) }));
    v.push(Matcher::Regex(RegexLineMatcher { regex: "configure: error: (.*) libraries are required for compilation", callback: Callback::VagueDependency(1) }));
    v.push(Matcher::Regex(RegexLineMatcher { regex: "configure: error: .*Make sure you have (.*) installed\\.", callback: Callback::VagueDependency(1) }));
    v.push(Matcher::Regex(RegexLineMatcher { regex: "error: Cannot find (.*) in the usual places. .*", callback: Callback::VagueDependency(1) }));
    v.push(Matcher::Regex(RegexLineMatcher { regex: "Makefile:[0-9]+: \\*\\*\\* \"(.*) was not found\"\\.  Stop\\.", callback: Callback::VagueDependency(1) }));
    v.push(Matcher::Regex(RegexLineMatcher { regex: "Makefile:[0-9]+: \\*\\*\\* \\\"At least (.*) version (.*) is needed to build (.*)\\.\".  Stop\\.", callback: Callback::Make(Template::MissingVagueDependency { name: Text::Group(1), url: None, minimum_version: Some(Text::Group(2)), current_version: None }) }));
    v.push(Matcher::Regex(RegexLineMatcher { regex: "([a-z0-9A-Z]+) not found", callback: Callback::VagueDependency(1) }));
    v.push(Matcher::Regex(RegexLineMatcher { regex: "ERROR:  Unable to locate (.*)\\.", callback: Callback::VagueDependency(1) }));
    v.push(Matcher::Regex(RegexLineMatcher { regex: "\x1b\\[1;31merror: (.*) not found\x1b\\[0;32m", callback: Callback::VagueDependency(1) }));
    v.push(Matcher::Regex(RegexLineMatcher { regex: "You do not have (.*) correctly installed\\. .*", callback: Callback::VagueDependency(1) }));
    v.push(Matcher::Regex(RegexLineMatcher { regex: "Error: (.*) is not available on your system", callback: Callback::VagueDependency(1) }));
    v.push(Matcher::Regex(RegexLineMatcher { regex: "ERROR: (.*) (.*) or later is required", callback: Callback::Make(Template::MissingVagueDependency { name: Text::Group(1), url: None, minimum_version: Some(Text::Group(2)), current_version: None }) }));
    v.push(Matcher::Regex(RegexLineMatcher { regex: "configure: error: .*Please install the \\'(.*)\\' package\\.", callback: Callback::VagueDependency(1) }));
    v.push(Matcher::Regex(RegexLineMatcher { regex: "Error: Please install ([^ ]+) package", callback: Callback::VagueDependency(1) }));
    v.push(Matcher::Regex(RegexLineMatcher { regex: "configure: error: <(.*\\.h)> is required", callback: Callback::Make(Template::MissingCHeader { header: Text::Group(1) }) }));
    v.push(Matcher::Regex(RegexLineMatcher { regex: "configure: error: ([^ ]+) is required", callback: Callback::VagueDependency(1) }));
    assert(v@ =~= common_matchers_part31());
    v
}

/// Part 32 of the matchers for the lines of a build log.
pub open spec fn common_matchers_part32() -> Seq<Matcher> {
    seq![
        Matcher::Regex(RegexLineMatcher { regex: "configure: error: you should install ([^ ]+) first", callback: Callback::VagueDependency(1) }),
        Matcher::Regex(RegexLineMatcher { regex: "configure: error: .*You need (.*) installed.", callback: Callback::VagueDependency(1) }),
        Matcher::Regex(RegexLineMatcher { regex: "To build (.*) you need (.*)", callback: Callback::VagueDependency(1) }),
        Matcher::Regex(RegexLineMatcher { regex: ".*Can\\'t ([^\\. ]+)\\. (.*)", callback: Callback::VagueDependency(1) }),
        Matcher::Regex(RegexLineMatcher { regex: "([^ ]+) >= (.*) is required", callback: Callback::Make(Template::MissingVagueDependency { name: Text::Group(1), url: None, minimum_version: Some(Text::Group(1)), current_version: None }) }),
        Matcher::Regex(RegexLineMatcher { regex: ".*: ERROR: (.*) needs to be installed to run these tests", callback: Callback::VagueDependency(1) }),
        Matcher::Regex(RegexLineMatcher { regex: "ERROR: Unable to locate (.*)\\.", callback: Callback::VagueDependency(1) }),
        Matcher::Regex(RegexLineMatcher { regex: "ERROR: Cannot find command \\'(.*)\\' - do you have \\'(.*)\\' installed and in your PATH\\?", callback: Callback::CommandGroup(1) }),
        Matcher::Regex(RegexLineMatcher { regex: "ValueError: no ([^ ]+) installed, .*", callback: Callback::VagueDependency(1) }),
        Matcher::Regex(RegexLineMatcher { regex: "This project needs (.*) in order to build\\. .*", callback: Callback::VagueDependency(1) }),
        Matcher::Regex(RegexLineMatcher { regex: "ValueError: Unable to find (.+)", callback: Callback::VagueDependency(1) }),
        Matcher::Regex(RegexLineMatcher { regex: "([^ ]+) executable not found\\. .*", callback: Callback::CommandGroup(1) }),
        Matcher::Regex(RegexLineMatcher { regex: "ERROR: InvocationError for command could not find executable (.*)", callback: Callback::CommandGroup(1) }),
        Matcher::Regex(RegexLineMatcher { regex: "E ImportError: Unable to find ([^ ]+) shared library", callback: Callback::Make(Template::MissingLibrary(Text::Group(1))) }),
        Matcher::Regex(RegexLineMatcher { regex: "\\s*([^ ]+) library not found on the system", callback: Callback::Make(Template::MissingLibrary(Text::Group(1))) }),
        Matcher::Regex(RegexLineMatcher { regex: "\\s*([^ ]+) library not found(\\.?)", callback: Callback::Make(Template::MissingLibrary(Text::Group(1))) }),
        Matcher::Regex(RegexLineMatcher { regex: ".*Please install ([^ ]+) libraries\\.", callback: Callback::VagueDependency(1) }),
        Matcher::Regex(RegexLineMatcher { regex: "Error: Please install (.*) package", callback: Callback::VagueDependency(1) }),
        Matcher::Regex(RegexLineMatcher { regex: "Please get ([^ ]+) from (www\\..*)\\.", callback: Callback::Make(Template::MissingVagueDependency { name: Text::Group(1), url: Some(Text::Group(2)), minimum_version: None, current_version: None }) }),
        Matcher::Regex(RegexLineMatcher { regex: "Please install ([^ ]+) so that it is on the PATH and try again\\.", callback: Callback::CommandGroup(1) }),
    ]
}

fn common_matchers_table_part32() -> (r: Vec<Matcher>)
    ensures
        r@ == common_matchers_part32(),
{
    let mut v: Vec<Matcher> = Vec::new();
    v.push(Matcher::Regex(RegexLineMatcher { regex: "configure: error: you should install ([^ ]+) first", callback: Callback::VagueDependency(1) }));
    v.push(Matcher::Regex(RegexLineMatcher { regex: "configure: error: .*You need (.*) installed.", callback: Callback::VagueDependency(1) }));
    v.push(Matcher::Regex(RegexLineMatcher { regex: "To build (.*) you need (.*)", callback: Callback::VagueDependency(1) }));
    v.push(Matcher::Regex(RegexLineMatcher { regex: ".*Can\\'t ([^\\. ]+)\\. (.*)", callback: Callback::VagueDependency(1) }));
    v.push(Matcher::Regex(RegexLineMatcher { regex: "([^ ]+) >= (.*) is required", callback: Callback::Make(Template::MissingVagueDependency { name: Text::Group(1), url: None, minimum_version: Some(Text::Group(1)), current_version: None }) }));
    v.push(Matcher::Regex(RegexLineMatcher { regex: ".*: ERROR: (.*) needs to be installed to run these tests", callback: Callback::VagueDependency(1) }));
    v.push(Matcher::Regex(RegexLineMatcher { regex: "ERROR: Unable to locate (.*)\\.", callback: Callback::VagueDependency(1) }));
    v.push(Matcher::Regex(RegexLineMatcher { regex: "ERROR: Cannot find command \\'(.*)\\' - do you have \\'(.*)\\' installed and in your PATH\\?", callback: Callback::CommandGroup(1) }));
    v.push(Matcher::Regex(RegexLineMatcher { regex: "ValueError: no ([^ ]+) installed, .*", callback: Callback::VagueDependency(1) }));
    v.push(Matcher::Regex(RegexLineMatcher { regex: "This project needs (.*) in order to build\\. .*", callback: Callback::VagueDependency(1) }));
    v.push(Matcher::Regex(RegexLineMatcher { regex: "ValueError: Unable to find (.+)", callback: Callback::VagueDependency(1) }));
    v.push(Matcher::Regex(RegexLineMatcher { regex: "([^ ]+) executable not found\\. .*", callback: Callback::CommandGroup(1) }));
    v.push(Matcher::Regex(RegexLineMatcher { regex: "ERROR: InvocationError for command could not find executable (.*)", callback: Callback::CommandGroup(1) }));
    v.push(Matcher::Regex(RegexLineMatcher { regex: "E ImportError: Unable to find ([^ ]+) shared library", callback: Callback::Make(Template::MissingLibrary(Text::Group(1))) }));
    v.push(Matcher::Regex(RegexLineMatcher { regex: "\\s*([^ ]+) library not found on the system", callback: Callback::Make(Template::MissingLibrary(Text::Group(1))) }));
    v.push(Matcher::Regex(RegexLineMatcher { regex: "\\s*([^ ]+) library not found(\\.?)", callback: Callback::Make(Template::MissingLibrary(Text::Group(1))) }));
    v.push(Matcher::Regex(RegexLineMatcher { regex: ".*Please install ([^ ]+) libraries\\.", callback: Callback::VagueDependency(1) }));
    v.push(Matcher::Regex(RegexLineMatcher { regex: "Error: Please install (.*) package", callback: Callback::VagueDependency(1) }));
    v.push(Matcher::Regex(RegexLineMatcher { regex: "Please get ([^ ]+) from (www\\..*)\\.", callback: Callback::Make(Template::MissingVagueDependency { name: Text::Group(1), url: Some(Text::Group(2)), minimum_version: None, current_version: None }) }));
    v.push(Matcher::Regex(RegexLineMatcher { regex: "Please install ([^ ]+) so that it is on the PATH and try again\\.", callback: Callback::CommandGroup(1) }));
    assert(v@ =~= common_matchers_part32());
    v
}

/// Part 33 of the matchers for the lines of a build log.
pub open spec fn common_matchers_part33() -> Seq<Matcher> {
    seq![
        Matcher::Regex(RegexLineMatcher { regex: "configure: error: No (.*) binary found in (.*)", callback: Callback::CommandGroup(1) }),
        Matcher::Regex(RegexLineMatcher { regex: "Could not find ([A-Za-z-]+)$", callback: Callback::VagueDependency(1) }),
        Matcher::Regex(RegexLineMatcher { regex: "No ([^ ]+) includes and libraries found", callback: Callback::VagueDependency(1) }),
        Matcher::Regex(RegexLineMatcher { regex: "Required library (.*) not found\\.", callback: Callback::VagueDependency(1) }),
        Matcher::Regex(RegexLineMatcher { regex: "Missing ([^ ]+) boost library, .*", callback: Callback::Make(Template::MissingLibrary(Text::Group(1))) }),
        Matcher::Regex(RegexLineMatcher { regex: "configure: error: ([^ ]+) needed\\!", callback: Callback::VagueDependency(1) }),
        Matcher::Regex(RegexLineMatcher { regex: "\\*\\*\\* (.*) not found, please install it \\*\\*\\*", callback: Callback::VagueDependency(1) }),
        Matcher::Regex(RegexLineMatcher { regex: "configure: error: could not find ([^ ]+)", callback: Callback::VagueDependency(1) }),
        Matcher::Regex(RegexLineMatcher { regex: "([^ ]+) is required for ([^ ]+)\\.", callback: Callback::VagueDependency(1) }),
        Matcher::Regex(RegexLineMatcher { regex: "configure: error: \\*\\*\\* No ([^.])\\! Install (.*) development headers/libraries! \\*\\*\\*", callback: Callback::VagueDependency(1) }),
        Matcher::Regex(RegexLineMatcher { regex: "configure: error: \\'(.*)\\' cannot be found", callback: Callback::VagueDependency(1) }),
        Matcher::Regex(RegexLineMatcher { regex: "No (.*) includes and libraries found", callback: Callback::VagueDependency(1) }),
        Matcher::Regex(RegexLineMatcher { regex: "\\s*No (.*) version could be found in your system\\.", callback: Callback::VagueDependency(1) }),
        Matcher::Regex(RegexLineMatcher { regex: "You need (.+)", callback: Callback::VagueDependency(1) }),
        Matcher::Regex(RegexLineMatcher { regex: "configure: error: ([^ ]+) is needed", callback: Callback::VagueDependency(1) }),
        Matcher::Regex(RegexLineMatcher { regex: "configure: error: Cannot find ([^ ]+)\\.", callback: Callback::VagueDependency(1) }),
        Matcher::Regex(RegexLineMatcher { regex: "configure: error: ([^ ]+) requested but not installed\\.", callback: Callback::VagueDependency(1) }),
        Matcher::Regex(RegexLineMatcher { regex: "We need the Python library (.+) to be installed\\..*", callback: Callback::Make(Template::MissingPythonDistribution { distribution: Text::Group(1), python_version: None, minimum_version: None }) }),
        Matcher::Regex(RegexLineMatcher { regex: "(.*) uses (.*) \\(.*\\) for installation but (.*) was not found", callback: Callback::VagueDependency(1) }),
        Matcher::Regex(RegexLineMatcher { regex: "ERROR: could not locate the \\'([^ ]+)\\' utility", callback: Callback::CommandGroup(1) }),
    ]
}

fn common_matchers_table_part33() -> (r: Vec<Matcher>)
    ensures
        r@ == common_matchers_part33(),
{
    let mut v: Vec<Matcher> = Vec::new();
    v.push(Matcher::Regex(RegexLineMatcher { regex: "configure: error: No (.*) binary found in (.*)", callback: Callback::CommandGroup(1) }));
    v.push(Matcher::Regex(RegexLineMatcher { regex: "Could not find ([A-Za-z-]+)$", callback: Callback::VagueDependency(1) }));
    v.push(Matcher::Regex(RegexLineMatcher { regex: "No ([^ ]+) includes and libraries found", callback: Callback::VagueDependency(1) }));
    v.push(Matcher::Regex(RegexLineMatcher { regex: "Required library (.*) not found\\.", callback: Callback::VagueDependency(1) }));
    v.push(Matcher::Regex(RegexLineMatcher { regex: "Missing ([^ ]+) boost library, .*", callback: Callback::Make(Template::MissingLibrary(Text::Group(1))) }));
    v.push(Matcher::Regex(RegexLineMatcher { regex: "configure: error: ([^ ]+) needed\\!", callback: Callback::VagueDependency(1) }));
    v.push(Matcher::Regex(RegexLineMatcher { regex: "\\*\\*\\* (.*) not found, please install it \\*\\*\\*", callback: Callback::VagueDependency(1) }));
    v.push(Matcher::Regex(RegexLineMatcher { regex: "configure: error: could not find ([^ ]+)", callback: Callback::VagueDependency(1) }));
    v.push(Matcher::Regex(RegexLineMatcher { regex: "([^ ]+) is required for ([^ ]+)\\.", callback: Callback::VagueDependency(1) }));
    v.push(Matcher::Regex(RegexLineMatcher { regex: "configure: error: \\*\\*\\* No ([^.])\\! Install (.*) development headers/libraries! \\*\\*\\*", callback: Callback::VagueDependency(1) }));
    v.push(Matcher::Regex(RegexLineMatcher { regex: "configure: error: \\'(.*)\\' cannot be found", callback: Callback::VagueDependency(1) }));
    v.push(Matcher::Regex(RegexLineMatcher { regex: "No (.*) includes and libraries found", callback: Callback::VagueDependency(1) }));
    v.push(Matcher::Regex(RegexLineMatcher { regex: "\\s*No (.*) version could be found in your system\\.", callback: Callback::VagueDependency(1) }));
    v.push(Matcher::Regex(RegexLineMatcher { regex: "You need (.+)", callback: Callback::VagueDependency(1) }));
    v.push(Matcher::Regex(RegexLineMatcher { regex: "configure: error: ([^ ]+) is needed", callback: Callback::VagueDependency(1) }));
    v.push(Matcher::Regex(RegexLineMatcher { regex: "configure: error: Cannot find ([^ ]+)\\.", callback: Callback::VagueDependency(1) }));
    v.push(Matcher::Regex(RegexLineMatcher { regex: "configure: error: ([^ ]+) requested but not installed\\.", callback: Callback::VagueDependency(1) }));
    v.push(Matcher::Regex(RegexLineMatcher { regex: "We need the Python library (.+) to be installed\\..*", callback: Callback::Make(Template::MissingPythonDistribution { distribution: Text::Group(1), python_version: None, minimum_version: None }) }));
    v.push(Matcher::Regex(RegexLineMatcher { regex: "(.*) uses (.*) \\(.*\\) for installation but (.*) was not found", callback: Callback::VagueDependency(1) }));
    v.push(Matcher::Regex(RegexLineMatcher { regex: "ERROR: could not locate the \\'([^ ]+)\\' utility", callback: Callback::CommandGroup(1) }));
    assert(v@ =~= common_matchers_part33());
    v
}

/// Part 34 of the matchers for the lines of a build log.
pub open spec fn common_matchers_part34() -> Seq<Matcher> {
    seq![
        Matcher::Regex(RegexLineMatcher { regex: "Can\\'t find (.*) libs. Exiting", callback: Callback::VagueDependency(1) }),
    ]
}

fn common_matchers_table_part34() -> (r: Vec<Matcher>)
    ensures
        r@ == common_matchers_part34(),
{
    let mut v: Vec<Matcher> = Vec::new();
    v.push(Matcher::Regex(RegexLineMatcher { regex: "Can\\'t find (.*) libs. Exiting", callback: Callback::VagueDependency(1) }));
    assert(v@ =~= common_matchers_part34());
    v
}

/// The matchers for the lines of a build log.
#[verifier::opaque]
pub open spec fn common_matchers() -> Seq<Matcher> {
    common_matchers_part0() + common_matchers_part1() + common_matchers_part2() + common_matchers_part3() + common_matchers_part4() + common_matchers_part5() + common_matchers_part6() + common_matchers_part7() + common_matchers_part8() + common_matchers_part9() + common_matchers_part10() + common_matchers_part11() + common_matchers_part12() + common_matchers_part13() + common_matchers_part14() + common_matchers_part15() + common_matchers_part16() + common_matchers_part17() + common_matchers_part18() + common_matchers_part19() + common_matchers_part20() + common_matchers_part21() + common_matchers_part22() + common_matchers_part23() + common_matchers_part24() + common_matchers_part25() + common_matchers_part26() + common_matchers_part27() + common_matchers_part28() + common_matchers_part29() + common_matchers_part30() + common_matchers_part31() + common_matchers_part32() + common_matchers_part33() + common_matchers_part34()
}

/// The matchers for the lines of a build log.
pub fn common_matchers_table() -> (r: Vec<Matcher>)
    ensures
        r@ == common_matchers(),
{
    let mut v = common_matchers_table_part0();
    let mut p = common_matchers_table_part1();
    v.append(&mut p);
    let mut p = common_matchers_table_part2();
    v.append(&mut p);
    let mut p = common_matchers_table_part3();
    v.append(&mut p);
    let mut p = common_matchers_table_part4();
    v.append(&mut p);
    let mut p = common_matchers_table_part5();
    v.append(&mut p);
    let mut p = common_matchers_table_part6();
    v.append(&mut p);
    let mut p = common_matchers_table_part7();
    v.append(&mut p);
    let mut p = common_matchers_table_part8();
    v.append(&mut p);
    let mut p = common_matchers_table_part9();
    v.append(&mut p);
    let mut p = common_matchers_table_part10();
    v.append(&mut p);
    let mut p = common_matchers_table_part11();
    v.append(&mut p);
    let mut p = common_matchers_table_part12();
    v.append(&mut p);
    let mut p = common_matchers_table_part13();
    v.append(&mut p);
    let mut p = common_matchers_table_part14();
    v.append(&mut p);
    let mut p = common_matchers_table_part15();
    v.append(&mut p);
    let mut p = common_matchers_table_part16();
    v.append(&mut p);
    let mut p = common_matchers_table_part17();
    v.append(&mut p);
    let mut p = common_matchers_table_part18();
    v.append(&mut p);
    let mut p = common_matchers_table_part19();
    v.append(&mut p);
    let mut p = common_matchers_table_part20();
    v.append(&mut p);
    let mut p = common_matchers_table_part21();
    v.append(&mut p);
    let mut p = common_matchers_table_part22();
    v.append(&mut p);
    let mut p = common_matchers_table_part23();
    v.append(&mut p);
    let mut p = common_matchers_table_part24();
    v.append(&mut p);
    let mut p = common_matchers_table_part25();
    v.append(&mut p);
    let mut p = common_matchers_table_part26();
    v.append(&mut p);
    let mut p = common_matchers_table_part27();
    v.append(&mut p);
    let mut p = common_matchers_table_part28();
    v.append(&mut p);
    let mut p = common_matchers_table_part29();
    v.append(&mut p);
    let mut p = common_matchers_table_part30();
    v.append(&mut p);
    let mut p = common_matchers_table_part31();
    v.append(&mut p);
    let mut p = common_matchers_table_part32();
    v.append(&mut p);
    let mut p = common_matchers_table_part33();
    v.append(&mut p);
    let mut p = common_matchers_table_part34();
    v.append(&mut p);
    proof {
        reveal(common_matchers);
    }
    assert(v@ =~= common_matchers());
    v
}

/// Part 0 of the expressions for lines that hint at a failure without explaining it.
pub open spec fn secondary_patterns_part0() -> Seq<&'static str> {
    seq![
        "E: pybuild pybuild:[0-9]+: test: plugin [^ ]+ failed with:",
        "[^:]+: error: (.*)",
        "[^:]+:[0-9]+: error: (.*)",
        "[^:]+:[0-9]+:[0-9]+: error: (.*)",
        "error TS[0-9]+: (.*)",
        "mount: .*: mount failed: Operation not permitted\\.",
        "  [0-9]+:[0-9]+\\s+error\\s+.+",
        "fontmake: Error: In '(.*)': (.*)",
        "#   Failed test at t\\/.*\\.t line [0-9]+\\.",
        "Gradle build daemon disappeared unexpectedly \\(it may have been killed or may have crashed\\)",
        "\\*\\*\\* omake error:",
        ".*ocamlc.*: OCam has been configured with -force-safe-string: -unsafe-string is not available\\.",
        "\\! LaTeX Error: .*",
        "Killed",
        "Exception in thread \"(.*)\" (.*): (.*);",
        "error: Unrecognized option: \\'.*\\'",
        "Segmentation fault",
        "\\[ERROR\\] (.*\\.java):\\[[0-9]+,[0-9]+\\] (.*)",
        "make: \\*\\*\\* No targets specified and no makefile found\\.  Stop\\.",
        "make\\[[0-9]+\\]: \\*\\*\\* No targets specified and no makefile found\\.  Stop\\.",
    ]
}

fn secondary_patterns_table_part0() -> (r: Vec<&'static str>)
    ensures
        r@ == secondary_patterns_part0(),
{
    let mut v: Vec<&'static str> = Vec::new();
    v.push("E: pybuild pybuild:[0-9]+: test: plugin [^ ]+ failed with:");
    v.push("[^:]+: error: (.*)");
    v.push("[^:]+:[0-9]+: error: (.*)");
    v.push("[^:]+:[0-9]+:[0-9]+: error: (.*)");
    v.push("error TS[0-9]+: (.*)");
    v.push("mount: .*: mount failed: Operation not permitted\\.");
    v.push("  [0-9]+:[0-9]+\\s+error\\s+.+");
    v.push("fontmake: Error: In '(.*)': (.*)");
    v.push("#   Failed test at t\\/.*\\.t line [0-9]+\\.");
    v.push("Gradle build daemon disappeared unexpectedly \\(it may have been killed or may have crashed\\)");
    v.push("\\*\\*\\* omake error:");
    v.push(".*ocamlc.*: OCam has been configured with -force-safe-string: -unsafe-string is not available\\.");
    v.push("\\! LaTeX Error: .*");
    v.push("Killed");
    v.push("Exception in thread \"(.*)\" (.*): (.*);");
    v.push("error: Unrecognized option: \\'.*\\'");
    v.push("Segmentation fault");
    v.push("\\[ERROR\\] (.*\\.java):\\[[0-9]+,[0-9]+\\] (.*)");
    v.push("make: \\*\\*\\* No targets specified and no makefile found\\.  Stop\\.");
    v.push("make\\[[0-9]+\\]: \\*\\*\\* No targets specified and no makefile found\\.  Stop\\.");
    assert(v@ =~= secondary_patterns_part0());
    v
}

/// Part 1 of the expressions for lines that hint at a failure without explaining it.
pub open spec fn secondary_patterns_part1() -> Seq<&'static str> {
    seq![
        "make\\[[0-9]+\\]: (.*): No such file or directory",
        "make\\[[0-9]+\\]: \\*\\*\\* \\[.*:[0-9]+: .*\\] Segmentation fault",
        ".*:[0-9]+: \\*\\*\\* empty variable name.  Stop.",
        "error: can't copy '(.*)': doesn't exist or not a regular file",
        "error: ([0-9]+) test executed, ([0-9]+) fatal tests failed, ",
        "([0-9]+) nonfatal test failed\\.",
        ".*\\.rst:toctree contains ref to nonexisting file \\'.*\\'",
        ".*\\.rst:[0-9]+:term not in glossary: .*",
        "Try adding AC_PREREQ\\(\\[(.*)\\]\\) to your configure\\.ac\\.",
        "  (.*_test): (.+)\\.\\.\\.\\*failed\\*",
        "(.*\\.erl):[0-9]+:[0-9]+: erlang:.*",
        "Could not locate (.*) or (.*) on classpath\\.",
        "Project ERROR: .*",
        "\\!  ==> Fatal error occurred, no output PDF file produced\\!",
        "\\! Undefined control sequence\\.",
        "\\! Emergency stop\\.",
        "\\!pdfTeX error: pdflatex: fwrite\\(\\) failed",
        "Unknown option (?!.*ignoring.*)",
        "not ok [0-9]+ .*",
        "Errors while running CTest",
    ]
}

fn secondary_patterns_table_part1() -> (r: Vec<&'static str>)
    ensures
        r@ == secondary_patterns_part1(),
{
    let mut v: Vec<&'static str> = Vec::new();
    v.push("make\\[[0-9]+\\]: (.*): No such file or directory");
    v.push("make\\[[0-9]+\\]: \\*\\*\\* \\[.*:[0-9]+: .*\\] Segmentation fault");
    v.push(".*:[0-9]+: \\*\\*\\* empty variable name.  Stop.");
    v.push("error: can't copy '(.*)': doesn't exist or not a regular file");
    v.push("error: ([0-9]+) test executed, ([0-9]+) fatal tests failed, ");
    v.push("([0-9]+) nonfatal test failed\\.");
    v.push(".*\\.rst:toctree contains ref to nonexisting file \\'.*\\'");
    v.push(".*\\.rst:[0-9]+:term not in glossary: .*");
    v.push("Try adding AC_PREREQ\\(\\[(.*)\\]\\) to your configure\\.ac\\.");
    v.push("  (.*_test): (.+)\\.\\.\\.\\*failed\\*");
    v.push("(.*\\.erl):[0-9]+:[0-9]+: erlang:.*");
    v.push("Could not locate (.*) or (.*) on classpath\\.");
    v.push("Project ERROR: .*");
    v.push("\\!  ==> Fatal error occurred, no output PDF file produced\\!");
    v.push("\\! Undefined control sequence\\.");
    v.push("\\! Emergency stop\\.");
    v.push("\\!pdfTeX error: pdflatex: fwrite\\(\\) failed");
    v.push("Unknown option (?!.*ignoring.*)");
    v.push("not ok [0-9]+ .*");
    v.push("Errors while running CTest");
    assert(v@ =~= secondary_patterns_part1());
    v
}

/// Part 2 of the expressions for lines that hint at a failure without explaining it.
pub open spec fn secondary_patterns_part2() -> Seq<&'static str> {
    seq![
        "dh_auto_install: error: .*",
        "dh_quilt_patch: error: (.*)",
        "dh.*: Aborting due to earlier error",
        "dh.*: unknown option or error during option parsing; aborting",
        "Could not import extension .* \\(exception: .*\\)",
        "configure.ac:[0-9]+: error: (.*)",
        "Reconfigure the source tree (via './config' or 'perl Configure'), please.",
        "dwz: Too few files for multifile optimization",
        "\\[CJM/MatchManifest\\] Aborted because of MANIFEST mismatch",
        "dh_dwz: dwz -q -- .* returned exit code [0-9]+",
        "help2man: can\\'t get `-?-help\\' info from .*",
        "[^:]+: line [0-9]+:\\s+[0-9]+ Segmentation fault.*",
        "dpkg-gencontrol: error: (.*)",
        ".*:[0-9]+:[0-9]+: (error|ERROR): (.*)",
        ".*[.]+FAILED .*",
        "FAIL: (.*)",
        "FAIL\\!  : (.*)",
        "\\s*FAIL (.*) \\(.*\\)",
        "FAIL\\s+(.*) \\[.*\\] ?",
        "([0-9]+)% tests passed, ([0-9]+) tests failed out of ([0-9]+)",
    ]
}

fn secondary_patterns_table_part2() -> (r: Vec<&'static str>)
    ensures
        r@ == secondary_patterns_part2(),
{
    let mut v: Vec<&'static str> = Vec::new();
    v.push("dh_auto_install: error: .*");
    v.push("dh_quilt_patch: error: (.*)");
    v.push("dh.*: Aborting due to earlier error");
    v.push("dh.*: unknown option or error during option parsing; aborting");
    v.push("Could not import extension .* \\(exception: .*\\)");
    v.push("configure.ac:[0-9]+: error: (.*)");
    v.push("Reconfigure the source tree (via './config' or 'perl Configure'), please.");
    v.push("dwz: Too few files for multifile optimization");
    v.push("\\[CJM/MatchManifest\\] Aborted because of MANIFEST mismatch");
    v.push("dh_dwz: dwz -q -- .* returned exit code [0-9]+");
    v.push("help2man: can\\'t get `-?-help\\' info from .*");
    v.push("[^:]+: line [0-9]+:\\s+[0-9]+ Segmentation fault.*");
    v.push("dpkg-gencontrol: error: (.*)");
    v.push(".*:[0-9]+:[0-9]+: (error|ERROR): (.*)");
    v.push(".*[.]+FAILED .*");
    v.push("FAIL: (.*)");
    v.push("FAIL\\!  : (.*)");
    v.push("\\s*FAIL (.*) \\(.*\\)");
    v.push("FAIL\\s+(.*) \\[.*\\] ?");
    v.push("([0-9]+)% tests passed, ([0-9]+) tests failed out of ([0-9]+)");
    assert(v@ =~= secondary_patterns_part2());
    v
}

/// Part 3 of the expressions for lines that hint at a failure without explaining it.
pub open spec fn secondary_patterns_part3() -> Seq<&'static str> {
    seq![
        "TEST FAILURE",
        "make\\[[0-9]+\\]: \\*\\*\\* \\[.*\\] Error [0-9]+",
        "make\\[[0-9]+\\]: \\*\\*\\* \\[.*\\] Aborted",
        "exit code=[0-9]+: .*",
        "chmod: cannot access \\'.*\\': .*",
        "dh_autoreconf: autoreconf .* returned exit code [0-9]+",
        "make: \\*\\*\\* \\[.*\\] Error [0-9]+",
        ".*:[0-9]+: \\*\\*\\* missing separator\\.  Stop\\.",
        "[0-9]+ tests: [0-9]+ ok, [0-9]+ failure\\(s\\), [0-9]+ test\\(s\\) skipped",
        "\\*\\*Error:\\*\\* (.*)",
        "^Error: (.*)",
        "Failed [0-9]+ tests? out of [0-9]+, [0-9.]+% okay.",
        "Failed [0-9]+\\/[0-9]+ test programs. [0-9]+/[0-9]+ subtests failed.",
        "Original error was: (.*)",
        "-- Error \\(.*\\.R:[0-9]+:[0-9]+\\): \\(.*\\) [-]*",
        "^Error \\[ERR_.*\\]: .*",
        "^FAILED \\(.*\\)",
        "FAILED .*",
        "^(E  +)?(SyntaxError|TypeError|ValueError|AttributeError|NameError|django.core.exceptions..*|RuntimeError|subprocess.CalledProcessError|testtools.matchers._impl.MismatchError|PermissionError|IndexError|TypeError|AssertionError|IOError|ImportError|SerialException|OSError|qtawesome.iconic_font.FontError|redis.exceptions.ConnectionError|builtins.OverflowError|ArgumentError|httptools.parser.errors.HttpParserInvalidURLError|HypothesisException|SSLError|KeyError|Exception|rnc2rng.parser.ParseError|pkg_resources.UnknownExtra|tarfile.ReadError|numpydoc.docscrape.ParseError|distutils.errors.DistutilsOptionError|datalad.support.exceptions.IncompleteResultsError|AssertionError|Cython.Compiler.Errors.CompileError|UnicodeDecodeError|UnicodeEncodeError): .*",
        "error\\[E[0-9]+\\]: .*",
    ]
}

fn secondary_patterns_table_part3() -> (r: Vec<&'static str>)
    ensures
        r@ == secondary_patterns_part3(),
{
    let mut v: Vec<&'static str> = Vec::new();
    v.push("TEST FAILURE");
    v.push("make\\[[0-9]+\\]: \\*\\*\\* \\[.*\\] Error [0-9]+");
    v.push("make\\[[0-9]+\\]: \\*\\*\\* \\[.*\\] Aborted");
    v.push("exit code=[0-9]+: .*");
    v.push("chmod: cannot access \\'.*\\': .*");
    v.push("dh_autoreconf: autoreconf .* returned exit code [0-9]+");
    v.push("make: \\*\\*\\* \\[.*\\] Error [0-9]+");
    v.push(".*:[0-9]+: \\*\\*\\* missing separator\\.  Stop\\.");
    v.push("[0-9]+ tests: [0-9]+ ok, [0-9]+ failure\\(s\\), [0-9]+ test\\(s\\) skipped");
    v.push("\\*\\*Error:\\*\\* (.*)");
    v.push("^Error: (.*)");
    v.push("Failed [0-9]+ tests? out of [0-9]+, [0-9.]+% okay.");
    v.push("Failed [0-9]+\\/[0-9]+ test programs. [0-9]+/[0-9]+ subtests failed.");
    v.push("Original error was: (.*)");
    v.push("-- Error \\(.*\\.R:[0-9]+:[0-9]+\\): \\(.*\\) [-]*");
    v.push("^Error \\[ERR_.*\\]: .*");
    v.push("^FAILED \\(.*\\)");
    v.push("FAILED .*");
    v.push("^(E  +)?(SyntaxError|TypeError|ValueError|AttributeError|NameError|django.core.exceptions..*|RuntimeError|subprocess.CalledProcessError|testtools.matchers._impl.MismatchError|PermissionError|IndexError|TypeError|AssertionError|IOError|ImportError|SerialException|OSError|qtawesome.iconic_font.FontError|redis.exceptions.ConnectionError|builtins.OverflowError|ArgumentError|httptools.parser.errors.HttpParserInvalidURLError|HypothesisException|SSLError|KeyError|Exception|rnc2rng.parser.ParseError|pkg_resources.UnknownExtra|tarfile.ReadError|numpydoc.docscrape.ParseError|distutils.errors.DistutilsOptionError|datalad.support.exceptions.IncompleteResultsError|AssertionError|Cython.Compiler.Errors.CompileError|UnicodeDecodeError|UnicodeEncodeError): .*");
    v.push("error\\[E[0-9]+\\]: .*");
    assert(v@ =~= secondary_patterns_part3());
    v
}

/// Part 4 of the expressions for lines that hint at a failure without explaining it.
pub open spec fn secondary_patterns_part4() -> Seq<&'static str> {
    seq![
        "^E   DeprecationWarning: .*",
        "^E       fixture '(.*)' not found",
        "[0-9]+ runs, [0-9]+ assertions, [0-9]+ failures, [0-9]+ errors, [0-9]+ skips",
        "# failed [0-9]+ of [0-9]+ tests",
        "(.*).py:[0-9]+: AssertionError",
        "============================ no tests ran in ([0-9.]+)s =============================",
        "  Failed tests:  [0-9-]+",
        "Failed (.*\\.t): output changed",
        "no packages to test",
        "FAIL\t(.*)\t[0-9.]+s",
        ".*.go:[0-9]+:[0-9]+: (?!note:).*",
        "can\\'t load package: package \\.: no Go files in /<<PKGBUILDDIR>>/(.*)",
        "\\/usr\\/bin\\/ld: cannot open output file (.*): No such file or directory",
        "configure: error: (.+)",
        "config.status: error: (.*)",
        "E: Build killed with signal TERM after ([0-9]+) minutes of inactivity",
        "    \\[javac\\] [^: ]+:[0-9]+: error: (.*)",
        "1\\) TestChannelFeature: ([^:]+):([0-9]+): assert failed",
        "cp: target \\'(.*)\\' is not a directory",
        "cp: cannot create regular file \\'(.*)\\': No such file or directory",
    ]
}

fn secondary_patterns_table_part4() -> (r: Vec<&'static str>)
    ensures
        r@ == secondary_patterns_part4(),
{
    let mut v: Vec<&'static str> = Vec::new();
    v.push("^E   DeprecationWarning: .*");
    v.push("^E       fixture '(.*)' not found");
    v.push("[0-9]+ runs, [0-9]+ assertions, [0-9]+ failures, [0-9]+ errors, [0-9]+ skips");
    v.push("# failed [0-9]+ of [0-9]+ tests");
    v.push("(.*).py:[0-9]+: AssertionError");
    v.push("============================ no tests ran in ([0-9.]+)s =============================");
    v.push("  Failed tests:  [0-9-]+");
    v.push("Failed (.*\\.t): output changed");
    v.push("no packages to test");
    v.push("FAIL\t(.*)\t[0-9.]+s");
    v.push(".*.go:[0-9]+:[0-9]+: (?!note:).*");
    v.push("can\\'t load package: package \\.: no Go files in /<<PKGBUILDDIR>>/(.*)");
    v.push("\\/usr\\/bin\\/ld: cannot open output file (.*): No such file or directory");
    v.push("configure: error: (.+)");
    v.push("config.status: error: (.*)");
    v.push("E: Build killed with signal TERM after ([0-9]+) minutes of inactivity");
    v.push("    \\[javac\\] [^: ]+:[0-9]+: error: (.*)");
    v.push("1\\) TestChannelFeature: ([^:]+):([0-9]+): assert failed");
    v.push("cp: target \\'(.*)\\' is not a directory");
    v.push("cp: cannot create regular file \\'(.*)\\': No such file or directory");
    assert(v@ =~= secondary_patterns_part4());
    v
}

/// Part 5 of the expressions for lines that hint at a failure without explaining it.
pub open spec fn secondary_patterns_part5() -> Seq<&'static str> {
    seq![
        "couldn\\'t determine home directory at (.*)",
        "ln: failed to create symbolic link \\'(.*)\\': File exists",
        "ln: failed to create symbolic link \\'(.*)\\': No such file or directory",
        "ln: failed to create symbolic link \\'(.*)\\': Permission denied",
        "ln: invalid option -- .*",
        "mkdir: cannot create directory [‘'](.*)['’]: No such file or directory",
        "mkdir: cannot create directory [‘'](.*)['’]: File exists",
        "mkdir: missing operand",
        "rmdir: failed to remove '.*': No such file or directory",
        "Fatal error: .*",
        "Fatal Error: (.*)",
        "Alert: (.*)",
        "ERROR: Test \"(.*)\" failed. Exiting.",
        "ERROR: test\\(s\\) failed in (.*)",
        "./configure: line [0-9]+: syntax error near unexpected token `.*\\'",
        "scons: \\*\\*\\* \\[.*\\] ValueError : unsupported pickle protocol: .*",
        "ERROR: There are no scenarios; must have at least one.",
        "Execution of (.*) aborted due to compilation errors.",
        "     AssertionError \\[ERR_ASSERTION\\]: Missing expected exception.",
        ".*: .*:[0-9]+: .*: Assertion `.*\\' failed.",
    ]
}

fn secondary_patterns_table_part5() -> (r: Vec<&'static str>)
    ensures
        r@ == secondary_patterns_part5(),
{
    let mut v: Vec<&'static str> = Vec::new();
    v.push("couldn\\'t determine home directory at (.*)");
    v.push("ln: failed to create symbolic link \\'(.*)\\': File exists");
    v.push("ln: failed to create symbolic link \\'(.*)\\': No such file or directory");
    v.push("ln: failed to create symbolic link \\'(.*)\\': Permission denied");
    v.push("ln: invalid option -- .*");
    v.push("mkdir: cannot create directory [‘'](.*)['’]: No such file or directory");
    v.push("mkdir: cannot create directory [‘'](.*)['’]: File exists");
    v.push("mkdir: missing operand");
    v.push("rmdir: failed to remove '.*': No such file or directory");
    v.push("Fatal error: .*");
    v.push("Fatal Error: (.*)");
    v.push("Alert: (.*)");
    v.push("ERROR: Test \"(.*)\" failed. Exiting.");
    v.push("ERROR: test\\(s\\) failed in (.*)");
    v.push("./configure: line [0-9]+: syntax error near unexpected token `.*\\'");
    v.push("scons: \\*\\*\\* \\[.*\\] ValueError : unsupported pickle protocol: .*");
    v.push("ERROR: There are no scenarios; must have at least one.");
    v.push("Execution of (.*) aborted due to compilation errors.");
    v.push("     AssertionError \\[ERR_ASSERTION\\]: Missing expected exception.");
    v.push(".*: .*:[0-9]+: .*: Assertion `.*\\' failed.");
    assert(v@ =~= secondary_patterns_part5());
    v
}

/// Part 6 of the expressions for lines that hint at a failure without explaining it.
pub open spec fn secondary_patterns_part6() -> Seq<&'static str> {
    seq![
        "(.*).xml: FAILED:",
        " BROKEN .*",
        "failed: [0-9]+-.*",
        "ninja: build stopped: subcommand failed.",
        ".*\\.s:[0-9]+: Error: .*",
        "\\[\\!\\] Error: Unexpected token",
        "\\(.*:[0-9]+\\): [a-zA-Z0-9]+-CRITICAL \\*\\*: [0-9:.]+: .*",
        "tar: option requires an argument -- \\'.\\'",
        "tar: .*: Cannot stat: No such file or directory",
        "tar: .*: Cannot open: No such file or directory",
        "Could not render file (.*.svg)",
        "ERROR: file not found: (.*)",
        "/usr/bin/msgfmt: found [0-9]+ fatal errors",
        "Cannot connect to the Docker daemon at unix:///var/run/docker.sock. Is the docker daemon running\\?",
        "dh_makeshlibs: failing due to earlier errors",
        "([^:]+)\\.rb:[0-9]+:in `([^\\'])+\\': (.*) \\((.*)\\)",
        ".*: \\*\\*\\* ERROR: There where errors/warnings in server logs after running test cases.",
        "Errno::EEXIST: File exists @ dir_s_mkdir - .*",
        "Test environment was found to be incomplete at configuration time,",
        "libtool:   error: cannot find the library \\'(.*)\\' or unhandled argument \\'(.*)\\'",
    ]
}

fn secondary_patterns_table_part6() -> (r: Vec<&'static str>)
    ensures
        r@ == secondary_patterns_part6(),
{
    let mut v: Vec<&'static str> = Vec::new();
    v.push("(.*).xml: FAILED:");
    v.push(" BROKEN .*");
    v.push("failed: [0-9]+-.*");
    v.push("ninja: build stopped: subcommand failed.");
    v.push(".*\\.s:[0-9]+: Error: .*");
    v.push("\\[\\!\\] Error: Unexpected token");
    v.push("\\(.*:[0-9]+\\): [a-zA-Z0-9]+-CRITICAL \\*\\*: [0-9:.]+: .*");
    v.push("tar: option requires an argument -- \\'.\\'");
    v.push("tar: .*: Cannot stat: No such file or directory");
    v.push("tar: .*: Cannot open: No such file or directory");
    v.push("Could not render file (.*.svg)");
    v.push("ERROR: file not found: (.*)");
    v.push("/usr/bin/msgfmt: found [0-9]+ fatal errors");
    v.push("Cannot connect to the Docker daemon at unix:///var/run/docker.sock. Is the docker daemon running\\?");
    v.push("dh_makeshlibs: failing due to earlier errors");
    v.push("([^:]+)\\.rb:[0-9]+:in `([^\\'])+\\': (.*) \\((.*)\\)");
    v.push(".*: \\*\\*\\* ERROR: There where errors/warnings in server logs after running test cases.");
    v.push("Errno::EEXIST: File exists @ dir_s_mkdir - .*");
    v.push("Test environment was found to be incomplete at configuration time,");
    v.push("libtool:   error: cannot find the library \\'(.*)\\' or unhandled argument \\'(.*)\\'");
    assert(v@ =~= secondary_patterns_part6());
    v
}

/// Part 7 of the expressions for lines that hint at a failure without explaining it.
pub open spec fn secondary_patterns_part7() -> Seq<&'static str> {
    seq![
        "npm ERR\\! (.*)",
        "install: failed to access \\'(.*)\\': (.*)",
        "MSBUILD: error MSBUILD[0-9]+: Project file \\'(.*)\\' not found.",
        "E: (.*)",
        "(.*)\\(([0-9]+),([0-9]+)\\): Error: .*",
        "(.*)\\.cs\\([0-9]+,[0-9]+\\): error CS[0-9]+: .*",
        ".*Segmentation fault.*",
        "a2x: ERROR: (.*) returned non-zero exit status ([0-9]+)",
        "-- Configuring incomplete, errors occurred\\!",
        "Error opening link script \"(.*)\"",
        "cc: error: (.*)",
        "\\[ERROR\\] .*",
        "dh_auto_(test|build): error: (.*)",
        "tar: This does not look like a tar archive",
        "\\[DZ\\] no (name|version) was ever set",
        "\\[Runtime\\] No -phase or -relationship specified at .* line [0-9]+\\.",
        "diff: (.*): No such file or directory",
        "gpg: signing failed: .*",
        "Cannot find the jar to install: (.*)",
        "ERROR: .*",
    ]
}

fn secondary_patterns_table_part7() -> (r: Vec<&'static str>)
    ensures
        r@ == secondary_patterns_part7(),
{
    let mut v: Vec<&'static str> = Vec::new();
    v.push("npm ERR\\! (.*)");
    v.push("install: failed to access \\'(.*)\\': (.*)");
    v.push("MSBUILD: error MSBUILD[0-9]+: Project file \\'(.*)\\' not found.");
    v.push("E: (.*)");
    v.push("(.*)\\(([0-9]+),([0-9]+)\\): Error: .*");
    v.push("(.*)\\.cs\\([0-9]+,[0-9]+\\): error CS[0-9]+: .*");
    v.push(".*Segmentation fault.*");
    v.push("a2x: ERROR: (.*) returned non-zero exit status ([0-9]+)");
    v.push("-- Configuring incomplete, errors occurred\\!");
    v.push("Error opening link script \"(.*)\"");
    v.push("cc: error: (.*)");
    v.push("\\[ERROR\\] .*");
    v.push("dh_auto_(test|build): error: (.*)");
    v.push("tar: This does not look like a tar archive");
    v.push("\\[DZ\\] no (name|version) was ever set");
    v.push("\\[Runtime\\] No -phase or -relationship specified at .* line [0-9]+\\.");
    v.push("diff: (.*): No such file or directory");
    v.push("gpg: signing failed: .*");
    v.push("Cannot find the jar to install: (.*)");
    v.push("ERROR: .*");
    assert(v@ =~= secondary_patterns_part7());
    v
}

/// Part 8 of the expressions for lines that hint at a failure without explaining it.
pub open spec fn secondary_patterns_part8() -> Seq<&'static str> {
    seq![
        "> error: (.*)",
        "error: (.*)",
        "(.*\\.hs):[0-9]+:[0-9]+: error:",
        "go1: internal compiler error: .*",
    ]
}

fn secondary_patterns_table_part8() -> (r: Vec<&'static str>)
    ensures
        r@ == secondary_patterns_part8(),
{
    let mut v: Vec<&'static str> = Vec::new();
    v.push("> error: (.*)");
    v.push("error: (.*)");
    v.push("(.*\\.hs):[0-9]+:[0-9]+: error:");
    v.push("go1: internal compiler error: .*");
    assert(v@ =~= secondary_patterns_part8());
    v
}

/// The expressions for lines that hint at a failure without explaining it.
#[verifier::opaque]
pub open spec fn secondary_patterns() -> Seq<&'static str> {
    secondary_patterns_part0() + secondary_patterns_part1() + secondary_patterns_part2() + secondary_patterns_part3() + secondary_patterns_part4() + secondary_patterns_part5() + secondary_patterns_part6() + secondary_patterns_part7() + secondary_patterns_part8()
}

/// The expressions for lines that hint at a failure without explaining it.
pub fn secondary_patterns_table() -> (r: Vec<&'static str>)
    ensures
        r@ == secondary_patterns(),
{
    let mut v = secondary_patterns_table_part0();
    let mut p = secondary_patterns_table_part1();
    v.append(&mut p);
    let mut p = secondary_patterns_table_part2();
    v.append(&mut p);
    let mut p = secondary_patterns_table_part3();
    v.append(&mut p);
    let mut p = secondary_patterns_table_part4();
    v.append(&mut p);
    let mut p = secondary_patterns_table_part5();
    v.append(&mut p);
    let mut p = secondary_patterns_table_part6();
    v.append(&mut p);
    let mut p = secondary_patterns_table_part7();
    v.append(&mut p);
    let mut p = secondary_patterns_table_part8();
    v.append(&mut p);
    proof {
        reveal(secondary_patterns);
    }
    assert(v@ =~= secondary_patterns());
    v
}

} // verus!
