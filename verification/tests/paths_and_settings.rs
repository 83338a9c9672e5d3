//! Folder paths and domain settings.

use rwarden::path::{Path, PathBuf};
use rwarden::settings::{
    Domains, EquivalentDomains, GlobalEquivalentDomains, GlobalEquivalentDomainsType,
    ModifyDomains,
};

#[test]
fn path_parts() {
    let p = Path::new("folders/work/mail");
    assert_eq!(p.as_str(), "folders/work/mail");
    assert_eq!(p.name(), "mail");
    assert_eq!(p.parent().unwrap().as_str(), "folders/work");
    assert_eq!(p.parent().unwrap().parent().unwrap().as_str(), "folders");
    assert!(p.parent().unwrap().parent().unwrap().parent().is_none());
}

#[test]
fn path_of_one_segment() {
    let p = Path::new("inbox");
    assert_eq!(p.name(), "inbox");
    assert!(p.parent().is_none());
}

#[test]
fn path_join_and_buf() {
    let p = Path::new("folders");
    let joined = p.join(&Path::new("work"));
    assert_eq!(joined.as_path().as_str(), "folders/work");

    let mut buf = PathBuf::new(String::from("folders"));
    buf.push(&Path::new("work"));
    buf.push(&Path::new("mail"));
    assert_eq!(buf.as_path().as_str(), "folders/work/mail");
    assert_eq!(buf.pop().unwrap(), "mail");
    assert_eq!(buf.as_path().as_str(), "folders/work");
    assert_eq!(buf.pop().unwrap(), "work");
    assert!(buf.pop().is_none());
    assert_eq!(buf.into_string(), "folders");
}

#[test]
fn path_iteration() {
    let p = Path::new("a/b/c");
    let mut it = p.iter();
    assert_eq!(it.next().unwrap(), "a");
    assert_eq!(it.next_back().unwrap(), "c");
    assert_eq!(it.next().unwrap(), "b");
    assert!(it.next().is_none());
    assert!(it.next_back().is_none());
}

#[test]
fn empty_segments_are_kept() {
    let p = Path::new("/a/");
    let mut it = p.iter();
    assert_eq!(it.next().unwrap(), "");
    assert_eq!(it.next().unwrap(), "a");
    assert_eq!(it.next().unwrap(), "");
    assert!(it.next().is_none());
}

fn sample_domains() -> Domains {
    Domains {
        equivalent_domains: vec![EquivalentDomains(vec![
            String::from("example.com"),
            String::from("example.org"),
        ])],
        global_equivalent_domains: vec![
            GlobalEquivalentDomains {
                ty: GlobalEquivalentDomainsType(0),
                domains: EquivalentDomains(vec![
                    String::from("google.com"),
                    String::from("youtube.com"),
                ]),
                excluded: false,
            },
            GlobalEquivalentDomains {
                ty: GlobalEquivalentDomainsType(1),
                domains: EquivalentDomains(vec![String::from("apple.com")]),
                excluded: true,
            },
        ],
    }
}

#[test]
fn all_equivalent_domains_skips_excluded_groups() {
    let all = sample_domains().all_equivalent_domains();
    assert_eq!(
        all,
        vec![
            EquivalentDomains(vec![
                String::from("example.com"),
                String::from("example.org"),
            ]),
            EquivalentDomains(vec![
                String::from("google.com"),
                String::from("youtube.com"),
            ]),
        ]
    );
}

#[test]
fn inherit_keeps_current_settings() {
    let modified = ModifyDomains::inherit(sample_domains());
    assert_eq!(
        modified.equivalent_domains,
        vec![EquivalentDomains(vec![
            String::from("example.com"),
            String::from("example.org"),
        ])]
    );
    assert_eq!(
        modified.excluded_global_equivalent_domains,
        vec![GlobalEquivalentDomainsType(1)]
    );
}
