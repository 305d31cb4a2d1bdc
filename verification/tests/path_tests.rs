use jvc::path::{extension_of, file_name_of, join_path, name_extension_of};
use std::path::Path;

fn std_file_name(path: &str) -> Option<String> {
    Path::new(path).file_name().map(|n| n.to_str().unwrap().to_owned())
}

fn std_extension(path: &str) -> Option<String> {
    Path::new(path).extension().map(|n| n.to_str().unwrap().to_owned())
}

#[test]
fn join_path_puts_one_separator_between() {
    assert_eq!(join_path("/home/alice/.jvc", "aliases"), "/home/alice/.jvc/aliases");
    assert_eq!(join_path("/home/alice/.jvc/", "aliases"), "/home/alice/.jvc/aliases");
    assert_eq!(join_path("", "aliases"), "aliases");
    assert_eq!(join_path("base", ""), "base/");
    assert_eq!(join_path("base", "/abs"), "/abs");
    assert_eq!(join_path("/", "x"), "/x");
}

#[test]
fn join_path_agrees_with_the_standard_join() {
    let bases = ["", "/", "a", "a/", "/a/b", "a//", "rel/dir", "."];
    let children = ["", "x", "/x", "x/y", "x/", ".downloads", "..", "8-lts-azul"];
    for base in bases {
        for child in children {
            let expected = Path::new(base).join(child);
            assert_eq!(
                join_path(base, child),
                expected.to_str().unwrap(),
                "for {:?} and {:?}",
                base,
                child
            );
        }
    }
}

#[test]
fn file_name_is_the_final_name() {
    assert_eq!(file_name_of("/root/java-versions/11-lts-azul"), Some("11-lts-azul".to_owned()));
    assert_eq!(file_name_of("/root/java-versions/11-lts-azul/"), Some("11-lts-azul".to_owned()));
    assert_eq!(file_name_of("default"), Some("default".to_owned()));
    assert_eq!(file_name_of(""), None);
    assert_eq!(file_name_of("/"), None);
    assert_eq!(file_name_of("a/.."), None);
    assert_eq!(file_name_of("a/."), Some("a".to_owned()));
}

#[test]
fn file_name_agrees_with_the_standard_file_name() {
    let samples = [
        "", "/", "//", ".", "..", "a", "a/", "a//", "/a", "a/b", "a/b/", "a/.", "a/./", "a/..",
        "a/../", "./a", "../a", "a/b/..", "a/b/.", "/..", "/.", "a/.../b", "...", "a/...", ".a",
        "a/.b", "x/y.tar.gz", "/tmp/jdk-11.0.2.zip", "a/b/./.", "./.",
    ];
    for s in samples {
        assert_eq!(file_name_of(s), std_file_name(s), "for {:?}", s);
    }
}

#[test]
fn extension_is_what_follows_the_last_dot() {
    assert_eq!(extension_of("jdk-11.0.2.zip"), Some("zip".to_owned()));
    assert_eq!(extension_of("OpenJDK11U-jdk_x64_linux_hotspot_11.0.11_9.tar.gz"), Some("gz".to_owned()));
    assert_eq!(extension_of("archive"), None);
    assert_eq!(extension_of(".zip"), None);
    assert_eq!(extension_of("archive."), Some("".to_owned()));
    assert_eq!(name_extension_of("a.b.c"), Some("c".to_owned()));
    assert_eq!(name_extension_of(""), None);
}

#[test]
fn extension_agrees_with_the_standard_extension() {
    let samples = [
        "", "a", "a.", ".a", "a.b", "a.b.c", "..a", "a..", "a..b", ".a.b", "x/y.zip", "x.d/y",
        "x.d/y.tar.gz", "x.zip/", "x.zip/.", "x.zip/..", "/", ".", "..", "...", ".. .", "a.é",
        "dir.v1/.hidden", "dir/.hidden.txt",
    ];
    for s in samples {
        assert_eq!(extension_of(s), std_extension(s), "for {:?}", s);
    }
}
