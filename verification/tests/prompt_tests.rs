use dim::llm::resolve_api_base;
use dim::prompt::Prompt;
use dim::scalar::Scalar;
use dim::vectorization::ModelParameters;
use dim::vectorization::build_text_content;

fn scalar(x: f32) -> Scalar {
    Scalar { bits: x.to_bits() }
}

#[test]
fn test_prompt_instruction_text() {
    let prompt = Prompt::new("collar_attributes".to_string());
    let expected = format!(
        "output in json. Rate the text based on the guideline provided. Rate from 0.0 to 10.0. {{'offensiveness': your score}}\nGuideline: {}",
        "collar_attributes"
    );
    assert_eq!(prompt.get_instruction(), expected);
}

#[test]
fn test_prompt_instruction_empty_description() {
    let prompt = Prompt::new(String::new());
    assert_eq!(
        prompt.get_instruction(),
        "output in json. Rate the text based on the guideline provided. Rate from 0.0 to 10.0. {'offensiveness': your score}\nGuideline: "
    );
}

#[test]
fn test_model_parameters_explicit_values() {
    let params = ModelParameters::new("minicpm-v".to_string(), Some(scalar(0.7)), Some(42));
    assert_eq!(params.get_model(), "minicpm-v".to_string());
    assert_eq!(params.get_temperature(), scalar(0.7));
    assert_eq!(params.get_seed(), 42);
}

#[test]
fn test_model_parameters_defaults() {
    let params = ModelParameters::new("minicpm-v".to_string(), None, None);
    assert_eq!(params.get_temperature(), scalar(0.0));
    // the seed was drawn once at construction and stays fixed
    assert_eq!(params.get_seed(), params.get_seed());
}

#[test]
fn test_build_text_content() {
    assert_eq!(
        build_text_content("Rate this", "Hello, world!"),
        "Rate this\n\nText to analyze: Hello, world!"
    );
}

#[test]
fn test_resolve_api_base_default_variable() {
    let vars = vec![
        ("PATH".to_string(), "/usr/bin".to_string()),
        ("OLLAMA_API_BASE".to_string(), "http://localhost:11434/v1".to_string()),
    ];
    assert_eq!(
        resolve_api_base(&vars, None),
        "http://localhost:11434/v1".to_string()
    );
}

#[test]
fn test_resolve_api_base_named_variable_last_wins() {
    let vars = vec![
        ("MY_BASE".to_string(), "http://first".to_string()),
        ("OLLAMA_API_BASE".to_string(), "http://default".to_string()),
        ("MY_BASE".to_string(), "http://second".to_string()),
    ];
    assert_eq!(
        resolve_api_base(&vars, Some("MY_BASE")),
        "http://second".to_string()
    );
}

#[test]
fn test_resolve_api_base_missing_variable() {
    let vars = vec![("PATH".to_string(), "/usr/bin".to_string())];
    assert_eq!(resolve_api_base(&vars, None), String::new());
}
