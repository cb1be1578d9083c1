use palisade::changelog::read;
use palisade::extract::ExtractionError;

const BASIC: &str = "# Changelog
All notable changes to this project will be documented in this file.

The format is based on [Keep a Changelog](https://keepachangelog.com/en/1.0.0/),
and this project adheres to [Semantic Versioning](https://semver.org/spec/v2.0.0.html).

## 0.1.0

Hi there this is a test!

### ADDED

- something

## 0.0.1

First release, proof of concept.
";

const FIXED: &str = "# Changelog
## 0.1.0
### FIXED
- Refrobnicate the spurious rilkefs
## 0.0.1
First release, proof of concept.
";

#[test]
fn read_changelog() {
    let res = read(BASIC, "0.1.0");
    assert!(res.is_ok());
    let delta = res.unwrap();
    assert_eq!(delta, "Hi there this is a test\\!\n### ADDED\n  - something\n")
}

#[test]
fn section_stops_at_next_version() {
    let delta = read(FIXED, "0.1.0").unwrap();
    assert_eq!(delta, "### FIXED\n  - Refrobnicate the spurious rilkefs\n");
    assert!(!delta.contains("First release"));
}

#[test]
fn last_section_runs_to_end() {
    assert_eq!(read(FIXED, "0.0.1").unwrap(), "First release, proof of concept.\n");
}

#[test]
fn heading_escapes_special_characters() {
    let doc = "## 1.0.0\n### Hi there this is a test!\n## 0.9.0\n";
    assert_eq!(read(doc, "1.0.0").unwrap(), "### Hi there this is a test\\!\n");
}

#[test]
fn unknown_tag_gives_empty_text() {
    assert_eq!(read(FIXED, "9.9.9").unwrap(), "");
    assert_eq!(read(BASIC, "Changelog").unwrap(), "");
    assert_eq!(read("", "0.1.0").unwrap(), "");
}

#[test]
fn matching_is_exact() {
    assert_eq!(read(FIXED, "v0.1.0").unwrap(), "");
    assert_eq!(read(FIXED, "0.1").unwrap(), "");
    assert_eq!(read(FIXED, "0.1.0 ").unwrap(), "");
}

#[test]
fn empty_section_gives_empty_text() {
    let doc = "## 0.2.0\n## 0.1.0\nnotes\n";
    assert_eq!(read(doc, "0.2.0").unwrap(), "");
    assert_eq!(read(doc, "0.1.0").unwrap(), "notes\n");
}

#[test]
fn extraction_is_repeatable() {
    let first = read(BASIC, "0.1.0");
    let second = read(BASIC, "0.1.0");
    assert_eq!(first, second);
    assert_eq!(read(FIXED, "0.0.1"), read(FIXED, "0.0.1"));
}

#[test]
fn plain_paragraphs_render_unchanged() {
    let doc = "## 1.0.0\nSome plain words.\n\n### Notes\nMore words, and a bang!\n";
    assert_eq!(
        read(doc, "1.0.0").unwrap(),
        "Some plain words.\n### Notes\nMore words, and a bang\\!\n"
    );
}

#[test]
fn error_variant_is_comparable() {
    assert_eq!(ExtractionError::InvalidEncoding, ExtractionError::InvalidEncoding);
}
