use std::cell::Cell;

use policy_utils::{FileRights, Pipeline, PolicyError};

/// A stand-in for the pipeline grammar: a script parses when it is not blank,
/// into the number of its words.
fn parse_words(s: &String) -> Result<usize, String> {
    if s.trim().is_empty() {
        Err("empty script".to_string())
    } else {
        Ok(s.split_whitespace().count())
    }
}

#[test]
fn eager_parse_of_valid_script() {
    let p = Pipeline::new("pl".to_string(), 4u32, "a ; b".to_string(), vec![], parse_words).unwrap();
    assert!(p.is_parsed());
    assert_eq!(**p.get_parsed_pipeline().unwrap(), 3);
    assert_eq!(p.name(), "pl");
    assert_eq!(p.id(), 4);
    assert_eq!(p.preparsed_pipeline(), "a ; b");
}

#[test]
fn eager_parse_of_invalid_script_fails() {
    let r = Pipeline::new("pl".to_string(), 4u32, "   ".to_string(), vec![], parse_words);
    assert!(matches!(r, Err(PolicyError::PipelineSyntaxError)));
}

#[test]
fn unparsed_pipeline_is_not_read() {
    let p: Pipeline<usize> = Pipeline::new_unparsed("pl".to_string(), 1, "a".to_string(), vec![]);
    assert!(!p.is_parsed());
    assert!(matches!(p.get_parsed_pipeline(), Err(PolicyError::PipelineNotParsed)));
}

#[test]
fn parse_twice_is_parse_once() {
    let mut p: Pipeline<usize> = Pipeline::new_unparsed("pl".to_string(), 1, "a b".to_string(), vec![]);
    assert_eq!(p.parse(parse_words), Ok(()));
    assert_eq!(**p.get_parsed_pipeline().unwrap(), 2);
    let calls = Cell::new(0);
    let r = p.parse(|_s: &String| -> Result<usize, String> {
        calls.set(calls.get() + 1);
        Ok(99)
    });
    assert_eq!(r, Ok(()));
    assert_eq!(calls.get(), 0);
    assert_eq!(**p.get_parsed_pipeline().unwrap(), 2);
}

#[test]
fn failed_parse_leaves_pipeline_unparsed() {
    let mut p: Pipeline<usize> = Pipeline::new_unparsed("pl".to_string(), 1, "".to_string(), vec![]);
    assert_eq!(p.parse(parse_words), Err(PolicyError::PipelineSyntaxError));
    assert!(!p.is_parsed());
    assert_eq!(p.get_parsed_pipeline().err(), Some(PolicyError::PipelineNotParsed));
}

#[test]
fn pipeline_rights_map() {
    let p: Pipeline<usize> = Pipeline::new_unparsed(
        "pl".to_string(),
        1,
        "".to_string(),
        vec![FileRights::new("out".to_string(), 64)],
    );
    assert_eq!(p.file_rights_map().rights_of("out").bits(), 64);
    assert_eq!(p.file_rights().len(), 1);
}
