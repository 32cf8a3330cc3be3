use gptchat::config::GPTArgs;
use gptchat::session::REQUEST_TIMEOUT_SECS;
use gptchat::text::trim_ws;

#[test]
fn absent_values_resolve_to_defaults() {
    let args = GPTArgs { api_url: None, gpt_model: None, api_key: None };
    let c = args.resolve();
    assert_eq!(c.api_url, "https://api.openai.com/v1/");
    assert_eq!(c.gpt_model, "gpt-3.5-turbo");
    assert_eq!(c.api_key, "ABCD1234");
}

#[test]
fn given_values_are_kept() {
    let args = GPTArgs {
        api_url: Some(String::from("https://proxy.example/v1/")),
        gpt_model: Some(String::from("gpt-4")),
        api_key: Some(String::from("sk-test")),
    };
    let c = args.resolve();
    assert_eq!(c.api_url, "https://proxy.example/v1/");
    assert_eq!(c.gpt_model, "gpt-4");
    assert_eq!(c.api_key, "sk-test");
}

#[test]
fn timeout_is_sixty_seconds() {
    assert_eq!(REQUEST_TIMEOUT_SECS, 60);
}

#[test]
fn trim_strips_both_ends_only() {
    assert_eq!(trim_ws("  Hi there!  "), "Hi there!");
    assert_eq!(trim_ws("\t\r\n padded \n"), "padded");
    assert_eq!(trim_ws("inner  spaces stay"), "inner  spaces stay");
    assert_eq!(trim_ws(""), "");
    assert_eq!(trim_ws(" \t\n\r"), "");
    assert_eq!(trim_ws("already trimmed"), "already trimmed");
}
