use twin_connector::client::{
    Property, PropertyBuilder, UpsertFeedWithMeta, Value, Visibility, CREATED_AT_PROPERTY, LABEL,
    MODEL_PROPERTY, UPDATED_AT_PROPERTY,
};
use twin_connector::model::Model;

fn plain_model(seed_prefix: &str, label_prefix: &str) -> Model {
    Model::new(
        seed_prefix.to_string(),
        label_prefix.to_string(),
        Visibility::Private,
        Vec::new(),
        Vec::new(),
        Vec::new(),
    )
}

#[test]
fn model_seed_and_label_end_in_model() {
    let model = plain_model("bus", "Bus");
    assert_eq!(model.get_seed(), "bus Model");
    assert_eq!(model.get_label(), "Bus Model");
    assert_eq!(model.get_visibility(), Visibility::Private);
}

#[test]
fn twin_seed_is_prefix_space_id() {
    let model = plain_model("bus", "Bus");
    assert_eq!(model.get_twin_seed("a"), "bus a");
    assert_eq!(model.get_twin_seed(""), "bus ");
}

#[test]
fn twin_seed_tells_ids_apart() {
    let model = plain_model("bus", "Bus");
    let ids = ["a", "b", "a ", " a", "", "ab"];
    for (i, x) in ids.iter().enumerate() {
        for (j, y) in ids.iter().enumerate() {
            assert_eq!(model.get_twin_seed(x) == model.get_twin_seed(y), i == j);
        }
    }
}

#[test]
fn twin_label_is_prefixed_and_trimmed() {
    let model = plain_model("bus", "Bus");
    assert_eq!(model.get_twin_label("42"), "Bus 42");
    assert_eq!(model.get_twin_label("  42 \t\n"), "Bus   42");
    assert_eq!(model.get_twin_label(""), "Bus");
    assert_eq!(plain_model("bus", "").get_twin_label("42"), "42");
    assert_eq!(plain_model("bus", "").get_twin_label("   "), "");
}

#[test]
fn twin_label_trims_unicode_whitespace() {
    let model = plain_model("bus", "\u{2003}Bus");
    assert_eq!(model.get_twin_label("42\u{00a0}\u{3000}"), "Bus 42");
}

#[test]
fn twin_label_of_128_chars_is_unchanged() {
    let model = plain_model("bus", "Bus");
    let label = "x".repeat(124);
    let twin_label = model.get_twin_label(&label);
    assert_eq!(twin_label.chars().count(), 128);
    assert_eq!(twin_label, format!("Bus {}", label));
}

#[test]
fn twin_label_of_129_chars_without_space_is_empty() {
    let model = plain_model("bus", "");
    let label = "x".repeat(129);
    assert_eq!(model.get_twin_label(&label), "");
}

#[test]
fn twin_label_drops_trailing_words_until_it_fits() {
    let model = plain_model("bus", "Bus");
    let label = format!("{} {} {}", "a".repeat(100), "b".repeat(20), "c".repeat(30));
    assert_eq!(model.get_twin_label(&label), format!("Bus {} {}", "a".repeat(100), "b".repeat(20)));
    let label = format!("{} {}", "a".repeat(130), "b".repeat(20));
    assert_eq!(model.get_twin_label(&label), "Bus");
}

#[test]
fn twin_label_cut_at_index_128_keeps_128_chars() {
    let model = plain_model("bus", "");
    let label = format!("{} {}", "a".repeat(128), "b");
    assert_eq!(model.get_twin_label(&label), "a".repeat(128));
}

#[test]
fn twin_label_counts_characters_not_bytes() {
    let model = plain_model("bus", "");
    let label = "é".repeat(128);
    assert_eq!(model.get_twin_label(&label), label);
    let longer = format!("{} {}", "é".repeat(100), "ü".repeat(40));
    assert_eq!(model.get_twin_label(&longer), "é".repeat(100));
}

#[test]
fn twin_label_keeps_the_space_before_a_dropped_word_of_spaces() {
    let model = plain_model("bus", "");
    let label = format!("{}  {}", "a".repeat(100), "b".repeat(40));
    assert_eq!(model.get_twin_label(&label), format!("{} ", "a".repeat(100)));
}

#[test]
fn twin_label_never_exceeds_128_chars() {
    let model = plain_model("bus", "Some Prefix");
    for words in 0..60 {
        let label = vec!["word"; words].join(" ");
        let twin_label = model.get_twin_label(&label);
        assert!(twin_label.chars().count() <= 128);
        let full = format!("Some Prefix {}", label).trim().to_string();
        assert!(full.starts_with(&twin_label));
        if full.chars().count() <= 128 {
            assert_eq!(twin_label, full);
        }
    }
}

fn feed(id: &str) -> UpsertFeedWithMeta {
    UpsertFeedWithMeta {
        id: id.to_string(),
        store_last: false,
        values: Vec::new(),
        properties: Vec::new(),
    }
}

#[test]
fn feeds_without_heartbeat_are_the_models_feeds() {
    let model = Model::new(
        "bus".to_string(),
        "Bus".to_string(),
        Visibility::Public,
        Vec::new(),
        vec![feed("position"), feed("speed")],
        Vec::new(),
    );
    assert_eq!(model.get_feeds(false), vec![feed("position"), feed("speed")]);
}

#[test]
fn feeds_with_heartbeat_end_in_the_heartbeat_feed() {
    let model = Model::new(
        "bus".to_string(),
        "Bus".to_string(),
        Visibility::Public,
        Vec::new(),
        vec![feed("position")],
        Vec::new(),
    );
    let feeds = model.get_feeds(true);
    assert_eq!(feeds.len(), 2);
    assert_eq!(feeds[0], feed("position"));
    let heartbeat = &feeds[1];
    assert_eq!(heartbeat.id, "heartbeat");
    assert!(heartbeat.store_last);
    assert_eq!(heartbeat.values.len(), 2);
    assert_eq!(heartbeat.values[0].label, "timestamp");
    assert_eq!(heartbeat.values[0].comment, "Time of the last share");
    assert_eq!(heartbeat.values[0].data_type, "dateTime");
    assert_eq!(heartbeat.values[0].unit, "");
    assert_eq!(heartbeat.values[1].label, "shares");
    assert_eq!(heartbeat.values[1].comment, "Number of twins for which data was shared");
    assert_eq!(heartbeat.values[1].data_type, "integer");
    assert_eq!(heartbeat.values[1].unit, "http://qudt.org/vocab/unit/NUM");
    assert_eq!(heartbeat.properties, vec![PropertyBuilder::build_label("en", "Heartbeat")]);
}

#[test]
fn model_properties_are_kept() {
    let properties = vec![PropertyBuilder::build_string_literal_value("k", "v")];
    let model = Model::new(
        "bus".to_string(),
        "Bus".to_string(),
        Visibility::Public,
        properties.clone(),
        Vec::new(),
        Vec::new(),
    );
    assert_eq!(model.get_model_properties(), &properties);
}

#[test]
fn twin_properties_rewrite_the_four_predicates_only() {
    let other = PropertyBuilder::build_string_literal_value("https://example.org/colour", "red");
    let bare = Property { key: "https://example.org/bare".to_string(), value: None };
    let template = vec![
        PropertyBuilder::build_label("en", "<SET-LATER>"),
        other.clone(),
        PropertyBuilder::build_uri_value(MODEL_PROPERTY, "<SET-LATER>"),
        PropertyBuilder::build_literal_value(CREATED_AT_PROPERTY, "dateTime", "<SET-LATER>"),
        bare.clone(),
        PropertyBuilder::build_string_literal_value(UPDATED_AT_PROPERTY, "<SET-LATER>"),
    ];
    let model = Model::new(
        "bus".to_string(),
        "Bus".to_string(),
        Visibility::Public,
        Vec::new(),
        Vec::new(),
        template,
    );
    let properties = model.build_twin_properties("did:iotics:model", "Bus 42", "2024-05-06T07:08:09Z");
    assert_eq!(
        properties,
        vec![
            Property {
                key: LABEL.to_string(),
                value: Some(Value::LangLiteral {
                    lang: "en".to_string(),
                    value: "Bus 42".to_string()
                }),
            },
            other,
            Property {
                key: MODEL_PROPERTY.to_string(),
                value: Some(Value::Uri { value: "did:iotics:model".to_string() }),
            },
            Property {
                key: CREATED_AT_PROPERTY.to_string(),
                value: Some(Value::Literal {
                    data_type: "dateTime".to_string(),
                    value: "2024-05-06T07:08:09Z".to_string()
                }),
            },
            bare,
            Property {
                key: UPDATED_AT_PROPERTY.to_string(),
                value: Some(Value::Literal {
                    data_type: "dateTime".to_string(),
                    value: "2024-05-06T07:08:09Z".to_string()
                }),
            },
        ]
    );
}

#[test]
fn twin_properties_of_an_empty_template_are_empty() {
    let model = plain_model("bus", "Bus");
    assert!(model.build_twin_properties("did", "label", "now").is_empty());
}
