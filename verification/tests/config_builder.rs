use serde_json::Value;
use terraform_wrapper::config::TerraformConfig;

fn object(entries: &[(&str, Value)]) -> Value {
    let mut m = serde_json::Map::new();
    for (k, v) in entries {
        m.insert(k.to_string(), v.clone());
    }
    Value::Object(m)
}

#[test]
fn empty_config() {
    let config = TerraformConfig::new();
    assert!(config.terraform_block().is_none());
    assert!(config.providers().is_empty());
    assert!(config.resources().is_empty());
    assert!(config.data_sources().is_empty());
    assert!(config.variables().is_empty());
    assert!(config.outputs().is_empty());
    assert!(config.local_values().is_empty());
}

#[test]
fn required_provider() {
    let config = TerraformConfig::new().required_provider("aws", "hashicorp/aws", "~> 5.0");
    let block = config.terraform_block().unwrap();
    assert_eq!(block.required_providers.len(), 1);
    assert_eq!(block.required_providers[0].0, "aws");
    assert_eq!(block.required_providers[0].1.source, "hashicorp/aws");
    assert_eq!(block.required_providers[0].1.version, "~> 5.0");
}

#[test]
fn full_config() {
    let config = TerraformConfig::new()
        .required_provider("null", "hashicorp/null", "~> 3.0")
        .provider("null", object(&[]))
        .resource(
            "null_resource",
            "example",
            object(&[("triggers", object(&[("value", Value::from("hello"))]))]),
        )
        .variable("name", object(&[("type", Value::from("string")), ("default", Value::from("world"))]))
        .output("id", object(&[("value", Value::from("${null_resource.example.id}"))]))
        .local("tag", Value::from("test"));
    assert!(config.resources()[0].1[0].1.is_object());
    assert_eq!(config.variables()[0].1["default"], "world");
    assert_eq!(config.outputs()[0].1["value"], "${null_resource.example.id}");
    assert_eq!(config.local_values()[0].0, "tag");
    assert_eq!(config.local_values()[0].1, "test");
}

#[test]
fn multiple_resources_same_type() {
    let config = TerraformConfig::new()
        .resource("null_resource", "a", object(&[]))
        .resource("null_resource", "b", object(&[]));
    let resources = config.resources();
    assert_eq!(resources.len(), 1);
    assert_eq!(resources[0].0, "null_resource");
    assert_eq!(resources[0].1.len(), 2);
    assert_eq!(resources[0].1[0].0, "a");
    assert_eq!(resources[0].1[1].0, "b");
}

#[test]
fn data_source() {
    let config = TerraformConfig::new().data("aws_ami", "latest", object(&[("most_recent", Value::from(true))]));
    let data = config.data_sources();
    assert_eq!(data[0].0, "aws_ami");
    assert_eq!(data[0].1[0].0, "latest");
    assert_eq!(data[0].1[0].1["most_recent"], true);
}

#[test]
fn backend() {
    let config = TerraformConfig::new().backend("s3", object(&[("bucket", Value::from("my-state"))]));
    let (kind, settings) = config.terraform_block().unwrap().backend.as_ref().unwrap();
    assert_eq!(kind, "s3");
    assert_eq!(settings["bucket"], "my-state");
}

#[test]
fn same_name_replaces() {
    let config = TerraformConfig::new()
        .variable("region", Value::from(1))
        .variable("zone", Value::from(2))
        .variable("region", Value::from(3))
        .required_provider("aws", "hashicorp/aws", "~> 4.0")
        .required_provider("aws", "hashicorp/aws", "~> 5.0");
    let vars = config.variables();
    assert_eq!(vars.len(), 2);
    assert_eq!(vars[0], ("region".to_string(), Value::from(3)));
    assert_eq!(vars[1], ("zone".to_string(), Value::from(2)));
    let block = config.terraform_block().unwrap();
    assert_eq!(block.required_providers.len(), 1);
    assert_eq!(block.required_providers[0].1.version, "~> 5.0");
}

#[test]
fn backend_is_replaced_and_keeps_providers() {
    let config = TerraformConfig::new()
        .required_provider("null", "hashicorp/null", "~> 3.0")
        .backend("s3", object(&[]))
        .backend("local", object(&[]));
    let block = config.terraform_block().unwrap();
    assert_eq!(block.backend.as_ref().unwrap().0, "local");
    assert_eq!(block.required_providers.len(), 1);
}
