use imageset_config::decode::document_from_node;
use imageset_config::errors::read_failure;
use imageset_config::yaml::YamlNode;
use imageset_config::ImageSetConfig;

fn example_document() -> String {
    "kind: ImageSetConfiguration\napiVersion: v1alpha1\nmirror:\n  platform:\n    channels:\n      - name: stable-4.10\n        type: ocp\n    graph: true\n  operators:\n    - catalog: registry.example.com/redhat/catalog:v1\n      packages:\n        - name: some-operator\n          channels:\n            - name: stable\n              minVersion: \"1.0.0\"\n  additionalImages:\n    - name: registry.example.com/extra:latest\n".to_string()
}

#[test]
fn parses_example_document() {
    let doc = ImageSetConfig::parse_yaml_config(example_document()).unwrap();
    assert_eq!(doc.kind, "ImageSetConfiguration");
    assert_eq!(doc.api_version, "v1alpha1");

    let platform = doc.mirror.platform.as_ref().unwrap();
    assert!(platform.graph);
    assert_eq!(platform.channels.len(), 1);
    assert_eq!(platform.channels[0].name, "stable-4.10");
    assert_eq!(platform.channels[0].channel_type, "ocp");

    let operators = doc.mirror.operators.as_ref().unwrap();
    assert_eq!(operators.len(), 1);
    assert_eq!(operators[0].catalog, "registry.example.com/redhat/catalog:v1");
    let packages = operators[0].packages.as_ref().unwrap();
    assert_eq!(packages.len(), 1);
    assert_eq!(packages[0].name, "some-operator");
    let channels = packages[0].channels.as_ref().unwrap();
    assert_eq!(channels.len(), 1);
    assert_eq!(channels[0].name, "stable");
    assert_eq!(channels[0].min_version.as_deref(), Some("1.0.0"));
    assert_eq!(channels[0].max_version, None);
    assert_eq!(channels[0].min_bundle, None);

    let images = doc.mirror.additional_images.as_ref().unwrap();
    assert_eq!(images.len(), 1);
    assert_eq!(images[0].name, "registry.example.com/extra:latest");

    assert!(doc.mirror.release.is_none());
    assert!(doc.mirror.helm.is_none());
}

#[test]
fn parsing_twice_yields_equal_documents() {
    let d1 = ImageSetConfig::parse_yaml_config(example_document()).unwrap();
    let d2 = ImageSetConfig::parse_yaml_config(example_document()).unwrap();
    assert_eq!(d1, d2);
}

#[test]
fn missing_kind_is_refused() {
    let text = "apiVersion: v1alpha1\nmirror: {}\n".to_string();
    assert!(ImageSetConfig::parse_yaml_config(text).is_err());
}

#[test]
fn missing_api_version_is_refused() {
    let text = "kind: ImageSetConfiguration\nmirror: {}\n".to_string();
    assert!(ImageSetConfig::parse_yaml_config(text).is_err());
}

#[test]
fn missing_mirror_is_refused() {
    let text = "kind: ImageSetConfiguration\napiVersion: v1alpha1\n".to_string();
    assert!(ImageSetConfig::parse_yaml_config(text).is_err());
}

#[test]
fn empty_mirror_has_every_field_absent() {
    let text = "kind: k\napiVersion: v\nmirror: {}\n".to_string();
    let doc = ImageSetConfig::parse_yaml_config(text).unwrap();
    assert!(doc.mirror.platform.is_none());
    assert!(doc.mirror.release.is_none());
    assert!(doc.mirror.operators.is_none());
    assert!(doc.mirror.additional_images.is_none());
    assert!(doc.mirror.helm.is_none());
}

#[test]
fn empty_sequences_are_present_but_empty() {
    let text = "kind: k\napiVersion: v\nmirror:\n  operators: []\n  additionalImages: []\n".to_string();
    let doc = ImageSetConfig::parse_yaml_config(text).unwrap();
    assert_eq!(doc.mirror.operators.as_ref().unwrap().len(), 0);
    assert_eq!(doc.mirror.additional_images.as_ref().unwrap().len(), 0);
    assert!(doc.mirror.platform.is_none());
}

#[test]
fn null_optional_fields_count_as_absent() {
    let text = "kind: k\napiVersion: v\nmirror:\n  operators: null\n  release: null\n".to_string();
    let doc = ImageSetConfig::parse_yaml_config(text).unwrap();
    assert!(doc.mirror.operators.is_none());
    assert!(doc.mirror.release.is_none());
}

#[test]
fn helm_marker_is_kept_when_present() {
    let text = "kind: k\napiVersion: v\nmirror:\n  helm: {}\n".to_string();
    let doc = ImageSetConfig::parse_yaml_config(text).unwrap();
    assert!(doc.mirror.helm.is_some());
}

#[test]
fn release_string_is_kept() {
    let text = "kind: k\napiVersion: v\nmirror:\n  release: 4.10.1-x86_64\n".to_string();
    let doc = ImageSetConfig::parse_yaml_config(text).unwrap();
    assert_eq!(doc.mirror.release.as_deref(), Some("4.10.1-x86_64"));
}

#[test]
fn min_version_string_is_preserved_exactly() {
    let text = "kind: k\napiVersion: v\nmirror:\n  operators:\n    - catalog: c\n      packages:\n        - name: p\n          channels:\n            - name: ch\n              minVersion: \"0070.00\"\n              maxVersion: \"4.10.0-rc.3+build.7 \"\n".to_string();
    let doc = ImageSetConfig::parse_yaml_config(text).unwrap();
    let ops = doc.mirror.operators.as_ref().unwrap();
    let chans = ops[0].packages.as_ref().unwrap()[0].channels.as_ref().unwrap();
    assert_eq!(chans[0].min_version.as_deref(), Some("0070.00"));
    assert_eq!(chans[0].max_version.as_deref(), Some("4.10.0-rc.3+build.7 "));
}

#[test]
fn numeric_min_version_is_refused() {
    let text = "kind: k\napiVersion: v\nmirror:\n  operators:\n    - catalog: c\n      packages:\n        - name: p\n          minVersion: 1.0\n".to_string();
    assert!(ImageSetConfig::parse_yaml_config(text).is_err());
}

#[test]
fn platform_without_graph_is_refused() {
    let text = "kind: k\napiVersion: v\nmirror:\n  platform:\n    channels:\n      - name: stable\n        type: ocp\n".to_string();
    assert!(ImageSetConfig::parse_yaml_config(text).is_err());
}

#[test]
fn platform_without_channels_is_refused() {
    let text = "kind: k\napiVersion: v\nmirror:\n  platform:\n    graph: false\n".to_string();
    assert!(ImageSetConfig::parse_yaml_config(text).is_err());
}

#[test]
fn channel_without_type_is_refused() {
    let text = "kind: k\napiVersion: v\nmirror:\n  platform:\n    channels:\n      - name: stable\n    graph: false\n".to_string();
    assert!(ImageSetConfig::parse_yaml_config(text).is_err());
}

#[test]
fn operators_of_the_wrong_shape_are_refused() {
    let text = "kind: k\napiVersion: v\nmirror:\n  operators: not-a-sequence\n".to_string();
    assert!(ImageSetConfig::parse_yaml_config(text).is_err());
}

#[test]
fn operator_without_catalog_is_refused() {
    let text = "kind: k\napiVersion: v\nmirror:\n  operators:\n    - packages:\n        - name: p\n".to_string();
    assert!(ImageSetConfig::parse_yaml_config(text).is_err());
}

#[test]
fn malformed_syntax_is_refused() {
    let text = "kind: [unclosed\n".to_string();
    assert!(ImageSetConfig::parse_yaml_config(text).is_err());
}

#[test]
fn non_mapping_document_is_refused() {
    assert!(ImageSetConfig::parse_yaml_config("just a scalar\n".to_string()).is_err());
    assert!(ImageSetConfig::parse_yaml_config("- a\n- b\n".to_string()).is_err());
}

#[test]
fn unknown_fields_are_ignored() {
    let text = "kind: k\napiVersion: v\nsomethingElse: 17\nmirror:\n  unknown: value\n".to_string();
    let doc = ImageSetConfig::parse_yaml_config(text).unwrap();
    assert_eq!(doc.kind, "k");
    assert!(doc.mirror.platform.is_none());
}

#[test]
fn empty_required_strings_are_accepted() {
    let text = "kind: \"\"\napiVersion: \"\"\nmirror: {}\n".to_string();
    let doc = ImageSetConfig::parse_yaml_config(text).unwrap();
    assert_eq!(doc.kind, "");
    assert_eq!(doc.api_version, "");
}

#[test]
fn read_failure_message_names_the_operation() {
    let e = read_failure("No Such File Or Directory (os error 2)");
    assert_eq!(e.message, "reading config \"no such file or directory (os error 2)\"");
    assert!(e.message.starts_with("reading config"));
}

#[test]
fn read_failure_lowercases_the_cause() {
    let e = read_failure("PERMISSION DENIED");
    assert_eq!(e.message, "reading config \"permission denied\"");
}

#[test]
fn parse_error_carries_a_message() {
    let err = ImageSetConfig::parse_yaml_config("apiVersion: v\nmirror: {}\n".to_string())
        .err()
        .unwrap();
    assert!(!err.message.is_empty());
}

#[test]
fn decodes_a_hand_built_node_tree() {
    let mirror_entries: Vec<(YamlNode, YamlNode)> = vec![(
        YamlNode::Str("release".to_string()),
        YamlNode::Str("4.10".to_string()),
    )];
    let entries: Vec<(YamlNode, YamlNode)> = vec![
        (
            YamlNode::Str("kind".to_string()),
            YamlNode::Str("ImageSetConfiguration".to_string()),
        ),
        (
            YamlNode::Str("apiVersion".to_string()),
            YamlNode::Str("v1alpha1".to_string()),
        ),
        (
            YamlNode::Str("mirror".to_string()),
            YamlNode::Mapping(mirror_entries),
        ),
    ];
    let doc = document_from_node(&YamlNode::Mapping(entries)).unwrap();
    assert_eq!(doc.kind, "ImageSetConfiguration");
    assert_eq!(doc.api_version, "v1alpha1");
    assert_eq!(doc.mirror.release.as_deref(), Some("4.10"));
    assert!(doc.mirror.platform.is_none());
}

#[test]
fn refuses_a_hand_built_tree_without_kind() {
    let entries: Vec<(YamlNode, YamlNode)> = vec![
        (
            YamlNode::Str("apiVersion".to_string()),
            YamlNode::Str("v1alpha1".to_string()),
        ),
        (
            YamlNode::Str("mirror".to_string()),
            YamlNode::Mapping(Vec::new()),
        ),
    ];
    assert!(document_from_node(&YamlNode::Mapping(entries)).is_err());
}
