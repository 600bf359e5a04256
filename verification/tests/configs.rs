use rustydo::configs::{AppConfigs, ConfigError};

#[test]
fn default_configuration_names_the_model() {
    let text = AppConfigs::default_config();
    assert_eq!(text, "[GEMINI]\nmodel = \"gemini-pro\"");
    let config = AppConfigs::new(&text).unwrap();
    assert_eq!(config.model, "gemini-pro");
}

#[test]
fn model_is_read_from_its_table() {
    let text = "title = \"x\"\n[OTHER]\nmodel = \"wrong\"\n[GEMINI]\nname = \"n\"\nmodel = \"gemini-2.0-flash\"  # which one\n";
    assert_eq!(AppConfigs::new(text).unwrap().model, "gemini-2.0-flash");
}

#[test]
fn configuration_without_a_model_is_refused() {
    for text in [
        "",
        "[GEMINI]\n",
        "[GEMINI]\nname = \"gemini-pro\"\n",
        "[gemini]\nmodel = \"gemini-pro\"\n",
        "model = \"gemini-pro\"\n",
        "[GEMINI]\nmodel = 3\n",
        "GEMINI = \"model\"\n",
    ] {
        assert_eq!(AppConfigs::new(text).err(), Some(ConfigError::MissingModel));
    }
}

#[test]
fn text_that_is_no_toml_is_refused() {
    for text in ["[GEMINI", "model = ", "[GEMINI]\nmodel = \"a\"\nmodel = \"b\"\n", "= 3"] {
        assert_eq!(AppConfigs::new(text).err(), Some(ConfigError::Unparsable));
    }
}

#[test]
fn looked_up_model_gives_the_configuration() {
    assert_eq!(AppConfigs::from_lookup(Ok(Some("m".to_string()))).unwrap().model, "m");
    assert_eq!(AppConfigs::from_lookup(Ok(None)).err(), Some(ConfigError::MissingModel));
    assert_eq!(AppConfigs::from_lookup(Err(())).err(), Some(ConfigError::Unparsable));
}
