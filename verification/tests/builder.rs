use std::time::Duration;
use vk_executive::config::{BuildError, Builder};
use vk_executive::Config;

#[test]
fn builder_missing_token() {
    let config = Builder::new(()).build();

    assert_eq!(
        config.err(),
        Some(BuildError::MissingParameter(String::from("token")))
    );
}

#[test]
fn builder_custom_api_url() {
    let config = Builder::new(())
        .api_url("https://example.com/")
        .token("token")
        .build()
        .unwrap();

    assert_eq!(
        config,
        Config {
            token: String::from("token"),
            http_client: (),
            api_url: String::from("https://example.com/"),
            api_version: String::from("5.103"),
            time_between_requests: Duration::from_millis(334)
        }
    );
}

#[test]
fn builder_custom_all() {
    let config = Builder::new(())
        .api_url("https://api.vk.ru/")
        .api_version("5.143")
        .token("123456789")
        .http_client(())
        .time_between_requests(Duration::from_millis(500))
        .build()
        .unwrap();

    assert_eq!(
        config,
        Config {
            token: String::from("123456789"),
            http_client: (),
            api_url: String::from("https://api.vk.ru/"),
            api_version: String::from("5.143"),
            time_between_requests: Duration::from_millis(500)
        }
    );
}

#[test]
fn builder_custom_token() {
    let config = Builder::new(())
        .token("123456789")
        .build()
        .unwrap();

    assert_eq!(
        config,
        Config {
            token: String::from("123456789"),
            http_client: (),
            api_url: String::from("https://api.vk.com/"),
            api_version: String::from("5.103"),
            time_between_requests: Duration::from_millis(334)
        }
    );
}

#[test]
fn builder_empty_token_is_missing() {
    let config = Builder::new(()).token("").build();

    assert_eq!(
        config.err(),
        Some(BuildError::MissingParameter(String::from("token")))
    );
}

#[test]
fn builder_setters_change_one_field_each() {
    let builder = Builder::new(7u8).token("12345");
    assert_eq!(builder.token, Some(String::from("12345")));
    assert_eq!(builder.http_client, 7);
    assert!(builder == Builder { token: Some(String::from("12345")), ..Builder::new(0u8) });

    let builder = Builder::new(()).api_url("https:://vk.ru");
    assert!(builder == Builder { api_url: String::from("https:://vk.ru"), ..Builder::new(()) });

    let builder = Builder::new(()).api_version("5.144");
    assert!(builder == Builder { api_version: String::from("5.144"), ..Builder::new(()) });

    let builder = Builder::new(()).time_between_requests(Duration::from_millis(300));
    assert!(
        builder
            == Builder { time_between_requests: Duration::from_millis(300), ..Builder::new(()) }
    );
    assert!(builder != Builder::new(()));
}

#[test]
fn builder_clone_says_the_same() {
    let builder = Builder::new(3u32).token("abc").api_version("5.199");
    let copy = builder.clone();
    assert!(copy == builder);
    assert_eq!(copy.http_client, 3);
}

#[test]
fn config_builder_starts_from_the_defaults() {
    let builder = Config::builder(());
    assert_eq!(builder.token, None);
    assert_eq!(builder.api_url, "https://api.vk.com/");
    assert_eq!(builder.api_version, "5.103");
    assert_eq!(builder.time_between_requests, Duration::from_millis(334));
}

#[test]
fn from_tokens_keeps_the_order() {
    let configs =
        Config::from_tokens(vec![String::from("123456789"), String::from("1111")], ()).unwrap();

    assert_eq!(
        configs,
        vec![
            Builder::new(()).token("123456789").build().unwrap(),
            Builder::new(()).token("1111").build().unwrap()
        ]
    );
}

#[test]
fn from_tokens_refuses_an_empty_token() {
    let configs = Config::from_tokens(vec![String::from("1"), String::new()], ());
    assert_eq!(
        configs.err(),
        Some(BuildError::MissingParameter(String::from("token")))
    );
}

#[test]
fn from_tokens_by_prototype_takes_the_rest_from_the_prototype() {
    let prototype = Builder::new(9u8)
        .api_url("https://example.com")
        .time_between_requests(Duration::from_millis(0));
    let configs =
        Config::from_tokens_by_prototype(vec![String::from("a"), String::from("b")], &prototype)
            .unwrap();
    assert_eq!(configs.len(), 2);
    assert_eq!(configs[0].token, "a");
    assert_eq!(configs[1].token, "b");
    for config in &configs {
        assert_eq!(config.http_client, 9);
        assert_eq!(config.api_url, "https://example.com");
        assert_eq!(config.api_version, "5.103");
        assert_eq!(config.time_between_requests, Duration::from_millis(0));
    }
}

#[test]
fn from_tokens_of_nothing_is_nothing() {
    let configs = Config::from_tokens(Vec::new(), ()).unwrap();
    assert!(configs.is_empty());
}

#[test]
fn from_tokens_gives_each_configuration_a_clone_of_the_client() {
    let configs = Config::from_tokens(vec![String::from("a"), String::from("b")], 41u8).unwrap();
    assert!(configs.iter().all(|config| config.http_client == 41));
    let prototype = Builder::new(String::from("client"));
    let configs = Config::from_tokens_by_prototype(vec![String::from("a")], &prototype).unwrap();
    assert_eq!(configs[0].http_client, "client");
    assert_eq!(prototype.clone().http_client, "client");
}
