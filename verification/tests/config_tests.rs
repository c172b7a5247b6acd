use guardrails_orchestrator::config::{
    ChunkerConfig, ConfigError, DetectorConfig, DetectorMap, preprocess_detector_map,
};

fn chunker(name: &str) -> ChunkerConfig {
    ChunkerConfig {
        name: String::from(name),
        endpoint: format!("grpc://chunkers/{}", name),
    }
}

fn detector(name: &str, chunker: &str) -> DetectorConfig {
    DetectorConfig {
        name: String::from(name),
        chunker: String::from(chunker),
        endpoint: format!("http://detectors/{}", name),
    }
}

#[test]
fn resolve_two_detectors_sharing_a_chunker() {
    let map = DetectorMap {
        chunkers: vec![chunker("sentence")],
        detectors: vec![detector("pii", "sentence"), detector("hap", "sentence")],
    };
    let resolved = preprocess_detector_map(&map).unwrap();
    assert_eq!(resolved.detector_chunkers.len(), 2);
    assert_eq!(resolved.detector_chunkers[0].0, "pii");
    assert_eq!(resolved.detector_chunkers[0].1, "sentence");
    assert_eq!(resolved.detector_chunkers[1].0, "hap");
    assert_eq!(resolved.detector_chunkers[1].1, "sentence");
    // Both detectors land in exactly one bucket, the shared chunker's.
    assert_eq!(resolved.chunker_detectors.len(), 1);
    assert_eq!(resolved.chunker_detectors[0].0, "sentence");
    assert_eq!(resolved.chunker_detectors[0].1, vec!["pii", "hap"]);
}

#[test]
fn resolve_keeps_first_seen_chunker_order() {
    let map = DetectorMap {
        chunkers: vec![chunker("word"), chunker("sentence")],
        detectors: vec![
            detector("a", "sentence"),
            detector("b", "word"),
            detector("c", "sentence"),
        ],
    };
    let resolved = preprocess_detector_map(&map).unwrap();
    assert_eq!(resolved.chunker_detectors.len(), 2);
    assert_eq!(resolved.chunker_detectors[0].0, "sentence");
    assert_eq!(resolved.chunker_detectors[0].1, vec!["a", "c"]);
    assert_eq!(resolved.chunker_detectors[1].0, "word");
    assert_eq!(resolved.chunker_detectors[1].1, vec!["b"]);
}

#[test]
fn resolve_dangling_chunker_reference_fails() {
    let map = DetectorMap {
        chunkers: vec![chunker("sentence")],
        detectors: vec![detector("pii", "sentence"), detector("hap", "paragraph")],
    };
    match preprocess_detector_map(&map) {
        Ok(_) => panic!("resolution must fail on a dangling chunker reference"),
        Err(ConfigError::UnresolvedChunker(name)) => assert_eq!(name, "hap"),
    }
}

#[test]
fn resolve_reports_first_misconfigured_detector() {
    let map = DetectorMap {
        chunkers: vec![],
        detectors: vec![detector("first", "missing"), detector("second", "missing")],
    };
    match preprocess_detector_map(&map) {
        Ok(_) => panic!("resolution must fail"),
        Err(ConfigError::UnresolvedChunker(name)) => assert_eq!(name, "first"),
    }
}

#[test]
fn resolved_map_carries_the_chunker_definitions() {
    let map = DetectorMap {
        chunkers: vec![chunker("sentence"), chunker("word")],
        detectors: vec![detector("pii", "sentence")],
    };
    let resolved = preprocess_detector_map(&map).unwrap();
    let sentence = resolved.chunker_config(&String::from("sentence")).unwrap();
    assert_eq!(sentence.name, "sentence");
    assert_eq!(sentence.endpoint, "grpc://chunkers/sentence");
    let word = resolved.chunker_config(&String::from("word")).unwrap();
    assert_eq!(word.endpoint, "grpc://chunkers/word");
    assert!(resolved.chunker_config(&String::from("paragraph")).is_none());
}

#[test]
fn resolve_empty_configuration() {
    let map = DetectorMap { chunkers: vec![], detectors: vec![] };
    let resolved = preprocess_detector_map(&map).unwrap();
    assert_eq!(resolved.detector_chunkers.len(), 0);
    assert_eq!(resolved.chunker_detectors.len(), 0);
}
