use std::path::{Path, PathBuf};

use vapor_sdk_core::path::{join_path, path_file_name, path_is_absolute, path_names_location, path_parent};
use vapor_sdk_core::workspace::{relative_alias_target, temporary_destination, workspace_search_directories};

const SAMPLES: [&str; 22] = [
    "",
    "/",
    "//",
    "a",
    "a/",
    "a//",
    "/a",
    "a/b",
    "a/b/c",
    "a/b/",
    "a//b",
    "a/./b/.",
    "./a",
    ".",
    "./",
    "..",
    "a/..",
    "/a/b//",
    "/opt/vapor/bin/vapor_sdk_cli",
    "rel/dir/.",
    "x/./",
    "a.b/c.d",
];

#[test]
fn join_path_matches_pathbuf_join() {
    let children = ["b", "/b", "", "b/c", "./b", ".."];
    for base in SAMPLES {
        for child in children {
            let expected = Path::new(base).join(child);
            assert_eq!(join_path(base, child), expected.to_str().unwrap(), "{base:?} + {child:?}");
        }
    }
}

#[test]
fn join_path_inserts_one_separator() {
    assert_eq!(join_path("/opt/vapor", "bin"), "/opt/vapor/bin");
    assert_eq!(join_path("/opt/vapor/", "bin"), "/opt/vapor/bin");
    assert_eq!(join_path("", "bin"), "bin");
    assert_eq!(join_path("/opt/vapor", "/etc"), "/etc");
}

#[test]
fn path_parent_matches_std() {
    for sample in SAMPLES {
        let expected = Path::new(sample).parent().map(|p| p.to_str().unwrap().to_owned());
        assert_eq!(path_parent(sample), expected, "{sample:?}");
    }
}

#[test]
fn path_file_name_matches_std() {
    for sample in SAMPLES {
        let expected = Path::new(sample).file_name().map(|p| p.to_str().unwrap().to_owned());
        assert_eq!(path_file_name(sample), expected, "{sample:?}");
    }
}

#[test]
fn path_is_absolute_matches_std() {
    for sample in SAMPLES {
        assert_eq!(path_is_absolute(sample), Path::new(sample).is_absolute(), "{sample:?}");
    }
}

#[test]
fn names_location_matches_component_count() {
    let extra = ["steamcmd", "./steamcmd", "bin/steamcmd", "steamcmd/", "steamcmd/.", "/steamcmd"];
    for sample in SAMPLES.iter().chain(extra.iter()) {
        let path = Path::new(sample);
        let expected = path.components().count() > 1 || path.is_absolute();
        assert_eq!(path_names_location(sample), expected, "{sample:?}");
    }
}

fn pop_walk(start: &str) -> Vec<String> {
    let mut candidate = PathBuf::from(start);
    let mut dirs = vec![candidate.to_str().unwrap().to_owned()];
    while candidate.pop() {
        dirs.push(candidate.to_str().unwrap().to_owned());
    }
    dirs
}

#[test]
fn search_directories_match_pathbuf_pop() {
    for sample in SAMPLES {
        assert_eq!(workspace_search_directories(sample), pop_walk(sample), "{sample:?}");
    }
}

#[test]
fn temporary_destination_matches_with_file_name() {
    for sample in SAMPLES {
        let path = Path::new(sample);
        let expected = path
            .file_name()
            .map(|name| path.with_file_name(format!("{}.tmp-77", name.to_str().unwrap())).to_str().unwrap().to_owned());
        assert_eq!(temporary_destination(sample, 77).ok(), expected, "{sample:?}");
    }
}

#[test]
fn alias_target_leads_back_to_the_executable() {
    let pairs = [
        ("/opt/vapor/bin/vapor_sdk_cli", "/opt/vapor/sdk_cli"),
        ("/opt/vapor//bin/./vapor_launcher_cli", "/opt/vapor/launcher_cli"),
        ("bin/tool", "tool_alias"),
    ];
    for (target, alias) in pairs {
        let relative = relative_alias_target(target, alias).unwrap();
        let alias_dir = Path::new(alias).parent().unwrap();
        assert_eq!(alias_dir.join(&relative), Path::new(target), "{target:?} {alias:?}");
    }
}
